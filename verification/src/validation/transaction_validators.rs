//! The validators of the mempool.

use crate::chain_storage::{BlockchainBackend, BlockchainDatabase, ChainStorageError, MmrTree};
use crate::transactions::{
    contains_hash,
    hash_views,
    CryptoFactories,
    HashOutput,
    Transaction,
    TransactionError,
};
use crate::validation::error::{
    verdict_of,
    MempoolTransactionValidation,
    Refusal,
    ValidationError,
    Verdict,
};
use vstd::prelude::*;

verus! {

/// Holds a transaction to what its signatures, range proofs and balance
/// must be.
#[derive(Clone, Copy, Debug)]
pub struct TxInternalConsistencyValidator {
    factories: CryptoFactories,
}

impl TxInternalConsistencyValidator {
    pub closed spec fn factories_spec(&self) -> CryptoFactories {
        self.factories
    }

    pub fn new(factories: CryptoFactories) -> (validator: Self)
        ensures
            validator.factories_spec() == factories,
    {
        Self { factories }
    }

    /// The services with which the transaction's consistency is to be checked.
    pub fn factories(&self) -> (factories: CryptoFactories)
        ensures
            factories == self.factories_spec(),
    {
        self.factories
    }
}

impl MempoolTransactionValidation for TxInternalConsistencyValidator {
    /// A transaction passes if the check of its consistency found no fault.
    open spec fn verdict(&self, tx: &Transaction) -> Verdict {
        match tx.internal_consistency {
            Ok(()) => Ok(()),
            Err(error) => Err(Refusal::TransactionError(error)),
        }
    }

    fn validate(&self, tx: &Transaction) -> (result: Result<(), ValidationError>) {
        match tx.internal_consistency {
            Ok(()) => Ok(()),
            Err(error) => Err(ValidationError::TransactionError(error)),
        }
    }
}

/// Holds a transaction to the limits of consensus.
#[derive(Clone, Debug)]
pub struct TxConsensusValidator<B> {
    db: BlockchainDatabase<B>,
}

impl<B: BlockchainBackend> TxConsensusValidator<B> {
    pub closed spec fn database(&self) -> BlockchainDatabase<B> {
        self.db
    }

    pub fn new(db: BlockchainDatabase<B>) -> (validator: Self)
        ensures
            validator.database() == db,
    {
        Self { db }
    }
}

impl<B: BlockchainBackend> MempoolTransactionValidation for TxConsensusValidator<B> {
    /// A transaction passes unless it is heavier than a block may be
    /// without its coinbase.
    open spec fn verdict(&self, tx: &Transaction) -> Verdict {
        if tx.weight > self.database().consensus_constants.max_block_weight_excluding_coinbase {
            Err(Refusal::MaxTransactionWeightExceeded)
        } else {
            Ok(())
        }
    }

    fn validate(&self, tx: &Transaction) -> (result: Result<(), ValidationError>) {
        let consensus_constants = match self.db.consensus_constants() {
            Ok(constants) => constants,
            Err(error) => {
                return Err(ValidationError::ChainStorageError(error));
            },
        };
        // validate maximum tx weight
        if tx.calculate_weight() > consensus_constants.get_max_block_weight_excluding_coinbase() {
            return Err(ValidationError::MaxTransactionWeightExceeded);
        }
        Ok(())
    }
}

/// Holds a transaction to the state of the chain: its inputs must be
/// unspent, its outputs new, and its time locks over.
#[derive(Clone, Debug)]
pub struct TxInputAndMaturityValidator<B> {
    db: BlockchainDatabase<B>,
}

impl<B: BlockchainBackend> TxInputAndMaturityValidator<B> {
    pub closed spec fn database(&self) -> BlockchainDatabase<B> {
        self.db
    }

    pub fn new(db: BlockchainDatabase<B>) -> (validator: Self)
        ensures
            validator.database() == db,
    {
        Self { db }
    }
}

/// What the first refusal among several checks is, taken in their order.
pub open spec fn first_refusal(verdicts: Seq<Verdict>) -> Verdict
    decreases verdicts.len(),
{
    if verdicts.len() == 0 {
        Ok(())
    } else if verdicts.first() is Err {
        verdicts.first()
    } else {
        first_refusal(verdicts.drop_first())
    }
}

/// What the validator of inputs and maturity finds against a store.
pub open spec fn input_and_maturity_verdict<B: BlockchainBackend>(
    db: &B,
    tx: &Transaction,
) -> Verdict {
    if not_stxos_verdict(db, tx) is Err {
        not_stxos_verdict(db, tx)
    } else if not_duplicate_txos_verdict(db, tx) is Err {
        not_duplicate_txos_verdict(db, tx)
    } else {
        match db.chain_metadata() {
            Err(error) => Err(Refusal::ChainStorageError(error)),
            Ok(metadata) => if timelocks_verdict(tx, metadata.height_of_longest_chain) is Err {
                timelocks_verdict(tx, metadata.height_of_longest_chain)
            } else {
                no_duplicates_verdict(tx)
            },
        }
    }
}

impl<B: BlockchainBackend> MempoolTransactionValidation for TxInputAndMaturityValidator<B> {
    open spec fn verdict(&self, tx: &Transaction) -> Verdict {
        input_and_maturity_verdict(&self.database().db, tx)
    }

    fn validate(&self, tx: &Transaction) -> (result: Result<(), ValidationError>) {
        let db = match self.db.db_read_access() {
            Ok(db) => db,
            Err(error) => {
                return Err(ValidationError::ChainStorageError(error));
            },
        };
        match verify_not_stxos(tx, db) {
            Ok(()) => {},
            Err(error) => {
                return Err(error);
            },
        }
        match check_not_duplicate_txos(tx, db) {
            Ok(()) => {},
            Err(error) => {
                return Err(error);
            },
        }
        let tip_height = match db.fetch_chain_metadata() {
            Ok(metadata) => metadata.height_of_longest_chain(),
            Err(error) => {
                return Err(ValidationError::ChainStorageError(error));
            },
        };
        match verify_timelocks(tx, tip_height) {
            Ok(()) => {},
            Err(error) => {
                return Err(error);
            },
        }
        verify_no_duplicated_inputs_outputs(tx)
    }
}

/// A transaction is mature if it can be spent in the block after the tip.
pub open spec fn timelocks_verdict(tx: &Transaction, current_height: u64) -> Verdict {
    if tx.min_spendable_height > current_height + 1 {
        Err(Refusal::MaturityError)
    } else {
        Ok(())
    }
}

pub fn verify_timelocks(tx: &Transaction, current_height: u64) -> (result: Result<
    (),
    ValidationError,
>)
    ensures
        verdict_of(result) == timelocks_verdict(tx, current_height),
{
    match current_height.checked_add(1) {
        Some(next_height) => {
            if tx.min_spendable_height() > next_height {
                return Err(ValidationError::MaturityError);
            }
            Ok(())
        },
        None => Ok(()),
    }
}

/// What the chain says of the output that an input spends.
pub enum InputStatus {
    /// The chain could not be read.
    Unreadable(ChainStorageError),
    /// The output is in the chain and is spent.
    Spent,
    /// Neither the chain nor the transaction holds the output.
    Unknown,
    /// The output is in the chain and unspent, or the transaction itself
    /// creates it.
    Spendable,
}

pub open spec fn input_status<B: BlockchainBackend>(
    db: &B,
    tx: &Transaction,
    deleted: Set<u32>,
    hash: Seq<u8>,
) -> InputStatus {
    match db.output_position(hash) {
        Err(error) => InputStatus::Unreadable(error),
        Ok(Some(position)) => if deleted.contains(position.mmr_index) {
            InputStatus::Spent
        } else {
            InputStatus::Spendable
        },
        Ok(None) => if hash_views(tx.outputs@).contains(hash) {
            InputStatus::Spendable
        } else {
            InputStatus::Unknown
        },
    }
}

/// Whether the status of an input ends the check at that input.
pub open spec fn ends_the_check(status: InputStatus) -> bool {
    status is Unreadable || status is Spent
}

/// Whether the input at `i` is the first at which the check ends.
pub open spec fn is_first_decisive_input<B: BlockchainBackend>(
    db: &B,
    tx: &Transaction,
    deleted: Set<u32>,
    i: int,
) -> bool {
    &&& 0 <= i < tx.inputs@.len()
    &&& ends_the_check(input_status(db, tx, deleted, tx.inputs@[i]@))
    &&& forall|j: int| 0 <= j < i ==> !ends_the_check(input_status(db, tx, deleted, tx.inputs@[j]@))
}

/// Whether an input spends an output that nobody knows.
pub open spec fn is_unknown_input<B: BlockchainBackend>(
    db: &B,
    tx: &Transaction,
    deleted: Set<u32>,
) -> spec_fn(Seq<u8>) -> bool {
    |hash: Seq<u8>| input_status(db, tx, deleted, hash) is Unknown
}

/// What the check for spent inputs finds. Where the chain cannot be read,
/// that is the verdict. Otherwise the first input that is spent, or whose
/// output cannot be read, decides. Where there is none, the inputs whose
/// outputs nobody knows are named, in their order, and where there are
/// none of those either, the transaction passes.
pub open spec fn not_stxos_verdict<B: BlockchainBackend>(db: &B, tx: &Transaction) -> Verdict {
    match db.deleted_leaves() {
        Err(error) => Err(Refusal::ChainStorageError(error)),
        Ok(deleted) => {
            if exists|i: int| is_first_decisive_input(db, tx, deleted, i) {
                let i = choose|i: int| is_first_decisive_input(db, tx, deleted, i);
                match input_status(db, tx, deleted, tx.inputs@[i]@) {
                    InputStatus::Unreadable(error) => Err(Refusal::ChainStorageError(error)),
                    _ => Err(Refusal::ContainsSTxO),
                }
            } else {
                let unknown = hash_views(tx.inputs@).filter(is_unknown_input(db, tx, deleted));
                if unknown.len() > 0 {
                    Err(Refusal::UnknownInputs(unknown))
                } else {
                    Ok(())
                }
            }
        },
    }
}

proof fn lemma_first_decisive_input<B: BlockchainBackend>(
    db: &B,
    tx: &Transaction,
    deleted: Set<u32>,
    i: int,
)
    requires
        is_first_decisive_input(db, tx, deleted, i),
    ensures
        exists|k: int| is_first_decisive_input(db, tx, deleted, k),
        (choose|k: int| is_first_decisive_input(db, tx, deleted, k)) == i,
{
    let k = choose|k: int| is_first_decisive_input(db, tx, deleted, k);
    assert(is_first_decisive_input(db, tx, deleted, k));
    if k < i {
        assert(!ends_the_check(input_status(db, tx, deleted, tx.inputs@[k]@)));
    } else if i < k {
        assert(!ends_the_check(input_status(db, tx, deleted, tx.inputs@[i]@)));
    }
}

pub fn verify_not_stxos<B: BlockchainBackend>(tx: &Transaction, db: &B) -> (result: Result<
    (),
    ValidationError,
>)
    ensures
        verdict_of(result) == not_stxos_verdict(db, tx),
{
    let deleted = match db.fetch_deleted_bitmap() {
        Ok(deleted) => deleted,
        Err(error) => {
            return Err(ValidationError::ChainStorageError(error));
        },
    };
    let ghost inputs = hash_views(tx.inputs@);
    let ghost unknown = is_unknown_input(db, tx, deleted@);
    let mut not_found_input: Vec<HashOutput> = Vec::new();
    let mut i: usize = 0;
    while i < tx.inputs.len()
        invariant
            i <= tx.inputs.len(),
            inputs == hash_views(tx.inputs@),
            unknown == is_unknown_input(db, tx, deleted@),
            db.deleted_leaves() == Ok::<Set<u32>, ChainStorageError>(deleted@),
            forall|j: int|
                0 <= j < i ==> !ends_the_check(input_status(db, tx, deleted@, tx.inputs@[j]@)),
            hash_views(not_found_input@) == inputs.take(i as int).filter(unknown),
        decreases tx.inputs.len() - i,
    {
        let input = &tx.inputs[i];
        proof {
            reveal(Seq::filter);
            assert(inputs.take(i + 1).drop_last() =~= inputs.take(i as int));
            assert(inputs.take(i + 1).last() == input@);
        }
        match db.fetch_output(input) {
            Err(error) => {
                proof {
                    lemma_first_decisive_input(db, tx, deleted@, i as int);
                }
                return Err(ValidationError::ChainStorageError(error));
            },
            Ok(Some(position)) => {
                if deleted.contains(position.mmr_index) {
                    proof {
                        lemma_first_decisive_input(db, tx, deleted@, i as int);
                    }
                    return Err(ValidationError::ContainsSTxO);
                }
            },
            Ok(None) => {
                if !contains_hash(&tx.outputs, input) {
                    let ghost before = hash_views(not_found_input@);
                    not_found_input.push(input.clone());
                    assert(hash_views(not_found_input@) =~= before.push(input@));
                }
            },
        }
        i += 1;
    }
    proof {
        assert(inputs.take(i as int) =~= inputs);
        assert forall|k: int| !is_first_decisive_input(db, tx, deleted@, k) by {}
    }
    if !not_found_input.is_empty() {
        return Err(ValidationError::UnknownInputs(not_found_input));
    }
    Ok(())
}

/// Whether the output at `i` is the first that the chain holds already, or
/// that the chain cannot be asked about.
pub open spec fn is_first_decisive_output<B: BlockchainBackend>(
    db: &B,
    tx: &Transaction,
    i: int,
) -> bool {
    &&& 0 <= i < tx.outputs@.len()
    &&& db.leaf_index(MmrTree::Utxo, tx.outputs@[i]@) != Ok::<Option<u32>, ChainStorageError>(None)
    &&& forall|j: int|
        0 <= j < i ==> db.leaf_index(MmrTree::Utxo, tx.outputs@[j]@) == Ok::<
            Option<u32>,
            ChainStorageError,
        >(None)
}

/// What the check for outputs that exist already finds: the first output
/// that the chain holds, or cannot be asked about, decides; where there is
/// none the transaction passes.
pub open spec fn not_duplicate_txos_verdict<B: BlockchainBackend>(
    db: &B,
    tx: &Transaction,
) -> Verdict {
    if exists|i: int| is_first_decisive_output(db, tx, i) {
        let i = choose|i: int| is_first_decisive_output(db, tx, i);
        match db.leaf_index(MmrTree::Utxo, tx.outputs@[i]@) {
            Err(error) => Err(Refusal::ChainStorageError(error)),
            _ => Err(Refusal::ContainsTxO),
        }
    } else {
        Ok(())
    }
}

proof fn lemma_first_decisive_output<B: BlockchainBackend>(db: &B, tx: &Transaction, i: int)
    requires
        is_first_decisive_output(db, tx, i),
    ensures
        exists|k: int| is_first_decisive_output(db, tx, k),
        (choose|k: int| is_first_decisive_output(db, tx, k)) == i,
{
    let k = choose|k: int| is_first_decisive_output(db, tx, k);
    assert(is_first_decisive_output(db, tx, k));
    if k < i {
        assert(db.leaf_index(MmrTree::Utxo, tx.outputs@[k]@) == Ok::<
            Option<u32>,
            ChainStorageError,
        >(None));
    } else if i < k {
        assert(db.leaf_index(MmrTree::Utxo, tx.outputs@[i]@) == Ok::<
            Option<u32>,
            ChainStorageError,
        >(None));
    }
}

pub fn check_not_duplicate_txos<B: BlockchainBackend>(transaction: &Transaction, db: &B) -> (result:
    Result<(), ValidationError>)
    ensures
        verdict_of(result) == not_duplicate_txos_verdict(db, transaction),
{
    let mut i: usize = 0;
    while i < transaction.outputs.len()
        invariant
            i <= transaction.outputs.len(),
            forall|j: int|
                0 <= j < i ==> db.leaf_index(MmrTree::Utxo, transaction.outputs@[j]@) == Ok::<
                    Option<u32>,
                    ChainStorageError,
                >(None),
        decreases transaction.outputs.len() - i,
    {
        match db.fetch_mmr_leaf_index(MmrTree::Utxo, &transaction.outputs[i]) {
            Err(error) => {
                proof {
                    lemma_first_decisive_output(db, transaction, i as int);
                }
                return Err(ValidationError::ChainStorageError(error));
            },
            Ok(Some(_)) => {
                proof {
                    lemma_first_decisive_output(db, transaction, i as int);
                }
                return Err(ValidationError::ContainsTxO);
            },
            Ok(None) => {},
        }
        i += 1;
    }
    proof {
        assert forall|k: int| !is_first_decisive_output(db, transaction, k) by {}
    }
    Ok(())
}

/// A transaction passes unless two of its inputs or two of its outputs are
/// the same; the inputs are looked at first.
pub open spec fn no_duplicates_verdict(tx: &Transaction) -> Verdict {
    if !hash_views(tx.inputs@).no_duplicates() {
        Err(Refusal::UnsortedOrDuplicateInput)
    } else if !hash_views(tx.outputs@).no_duplicates() {
        Err(Refusal::UnsortedOrDuplicateOutput)
    } else {
        Ok(())
    }
}

pub fn verify_no_duplicated_inputs_outputs(tx: &Transaction) -> (result: Result<
    (),
    ValidationError,
>)
    ensures
        verdict_of(result) == no_duplicates_verdict(tx),
{
    if tx.contains_duplicated_inputs() {
        return Err(ValidationError::UnsortedOrDuplicateInput);
    }
    if tx.contains_duplicated_outputs() {
        return Err(ValidationError::UnsortedOrDuplicateOutput);
    }
    Ok(())
}

/// Holds a transaction to several rules, one after the other.
pub struct MempoolValidator {
    validators: Vec<Box<dyn MempoolTransactionValidation>>,
}

impl MempoolValidator {
    /// The verdicts of the rules, in the order of the rules.
    pub closed spec fn verdicts(&self, tx: &Transaction) -> Seq<Verdict> {
        Seq::new(self.validators@.len(), |i: int| self.validators@[i].verdict(tx))
    }

    /// How many rules the validator holds.
    pub closed spec fn rules(&self) -> nat {
        self.validators@.len()
    }

    pub fn new(validators: Vec<Box<dyn MempoolTransactionValidation>>) -> (validator: Self)
        ensures
            validator.rules() == validators@.len(),
            forall|tx: &Transaction|
                #![trigger validator.verdicts(tx)]
                validator.verdicts(tx) == Seq::new(
                    validators@.len(),
                    |i: int| validators@[i].verdict(tx),
                ),
    {
        Self { validators }
    }
}

impl MempoolTransactionValidation for MempoolValidator {
    /// The refusal of the first rule that refuses the transaction; where
    /// none does, the transaction passes.
    open spec fn verdict(&self, tx: &Transaction) -> Verdict {
        first_refusal(self.verdicts(tx))
    }

    fn validate(&self, transaction: &Transaction) -> (result: Result<(), ValidationError>) {
        let ghost all = self.verdicts(transaction);
        let mut i: usize = 0;
        assert(all.subrange(0, all.len() as int) =~= all);
        while i < self.validators.len()
            invariant
                i <= self.validators.len(),
                all == self.verdicts(transaction),
                first_refusal(all) == first_refusal(all.subrange(i as int, all.len() as int)),
            decreases self.validators.len() - i,
        {
            let ghost rest = all.subrange(i as int, all.len() as int);
            proof {
                assert(rest.first() == self.validators@[i as int].verdict(transaction));
                assert(rest.drop_first() =~= all.subrange(i + 1, all.len() as int));
            }
            match self.validators[i].validate(transaction) {
                Ok(()) => {},
                Err(error) => {
                    return Err(error);
                },
            }
            i += 1;
        }
        proof {
            assert(all.subrange(i as int, all.len() as int).len() == 0);
        }
        Ok(())
    }
}

} // verus!
