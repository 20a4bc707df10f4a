//! The communications layer shared by the base node and the wallet.

pub mod backoff;
pub mod connection_manager;
pub mod peer;
pub mod pipeline;
pub mod protocol;
