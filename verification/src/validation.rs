//! The rules by which the mempool admits a transaction.

pub mod error;
pub mod transaction_validators;
