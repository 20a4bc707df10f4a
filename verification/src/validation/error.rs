//! Why a transaction is refused, and the interface of what refuses it.

use crate::chain_storage::ChainStorageError;
use crate::transactions::{HashOutput, Transaction, TransactionError};
use vstd::prelude::*;

verus! {

/// Why a transaction is refused.
#[derive(Debug, PartialEq, Eq)]
pub enum ValidationError {
    /// The transaction is not consistent in itself.
    TransactionError(TransactionError),
    /// The chain could not be read.
    ChainStorageError(ChainStorageError),
    /// The transaction is heavier than a block may be.
    MaxTransactionWeightExceeded,
    /// The transaction cannot be spent in the next block yet.
    MaturityError,
    /// An input spends an output that is spent already.
    ContainsSTxO,
    /// These inputs spend outputs that neither the chain nor the transaction holds.
    UnknownInputs(Vec<HashOutput>),
    /// An output exists in the chain already.
    ContainsTxO,
    /// Two inputs are the same.
    UnsortedOrDuplicateInput,
    /// Two outputs are the same.
    UnsortedOrDuplicateOutput,
}

/// A reason of refusal, as the contracts speak of it.
pub enum Refusal {
    TransactionError(TransactionError),
    ChainStorageError(ChainStorageError),
    MaxTransactionWeightExceeded,
    MaturityError,
    ContainsSTxO,
    UnknownInputs(Seq<Seq<u8>>),
    ContainsTxO,
    UnsortedOrDuplicateInput,
    UnsortedOrDuplicateOutput,
}

impl View for ValidationError {
    type V = Refusal;

    open spec fn view(&self) -> Refusal {
        match *self {
            ValidationError::TransactionError(error) => Refusal::TransactionError(error),
            ValidationError::ChainStorageError(error) => Refusal::ChainStorageError(error),
            ValidationError::MaxTransactionWeightExceeded => Refusal::MaxTransactionWeightExceeded,
            ValidationError::MaturityError => Refusal::MaturityError,
            ValidationError::ContainsSTxO => Refusal::ContainsSTxO,
            ValidationError::UnknownInputs(hashes) => Refusal::UnknownInputs(
                crate::transactions::hash_views(hashes@),
            ),
            ValidationError::ContainsTxO => Refusal::ContainsTxO,
            ValidationError::UnsortedOrDuplicateInput => Refusal::UnsortedOrDuplicateInput,
            ValidationError::UnsortedOrDuplicateOutput => Refusal::UnsortedOrDuplicateOutput,
        }
    }
}

/// What a validator found: nothing to object to, or the reason of refusal.
pub type Verdict = Result<(), Refusal>;

/// The verdict that a result of validation stands for.
pub open spec fn verdict_of(result: Result<(), ValidationError>) -> Verdict {
    match result {
        Ok(()) => Ok(()),
        Err(error) => Err(error@),
    }
}

/// A rule that the mempool holds a transaction to.
pub trait MempoolTransactionValidation {
    /// What the rule finds of the transaction.
    spec fn verdict(&self, tx: &Transaction) -> Verdict;

    fn validate(&self, tx: &Transaction) -> (result: Result<(), ValidationError>)
        ensures
            verdict_of(result) == self.verdict(tx),
    ;
}

} // verus!
