//! What the mempool reads of a transaction.

use crate::comms::peer::bytes_equal;
use vstd::prelude::*;

verus! {

/// The hash of a transaction output.
pub type HashOutput = Vec<u8>;

/// The identifiers of a list of hashes.
pub open spec fn hash_views(hashes: Seq<HashOutput>) -> Seq<Seq<u8>> {
    Seq::new(hashes.len(), |i: int| hashes[i]@)
}

/// Why a transaction is not consistent in itself.
#[derive(Clone, Copy, Debug, PartialEq, Eq, Structural)]
pub enum TransactionError {
    InvalidSignature,
    InvalidRangeProof,
    InvalidKernel,
    InvalidBalance,
}

/// The services that check commitments and range proofs, by the number of
/// bits that a range proof covers.
#[derive(Clone, Copy, Debug, PartialEq, Eq, Structural)]
pub struct CryptoFactories {
    pub max_proof_range: usize,
}

impl CryptoFactories {
    pub fn new(max_proof_range: usize) -> (factories: CryptoFactories)
        ensures
            factories.max_proof_range == max_proof_range,
    {
        CryptoFactories { max_proof_range }
    }
}

impl Default for CryptoFactories {
    fn default() -> (factories: CryptoFactories)
        ensures
            factories.max_proof_range == 64,
    {
        CryptoFactories { max_proof_range: 64 }
    }
}

/// A transaction, as far as the mempool's validators read it.
#[derive(Debug, PartialEq, Eq)]
pub struct Transaction {
    /// The hashes of the outputs that the inputs spend, in the order of the inputs.
    pub inputs: Vec<HashOutput>,
    /// The hashes of the outputs that the transaction creates.
    pub outputs: Vec<HashOutput>,
    /// The lowest height at which every input and kernel can be spent.
    pub min_spendable_height: u64,
    /// The weight that the transaction takes up in a block.
    pub weight: u64,
    /// What the check of signatures, range proofs and balance found.
    pub internal_consistency: Result<(), TransactionError>,
}

impl Transaction {
    pub fn min_spendable_height(&self) -> (height: u64)
        ensures
            height == self.min_spendable_height,
    {
        self.min_spendable_height
    }

    pub fn calculate_weight(&self) -> (weight: u64)
        ensures
            weight == self.weight,
    {
        self.weight
    }

    /// Whether two inputs spend the same output.
    pub fn contains_duplicated_inputs(&self) -> (duplicated: bool)
        ensures
            duplicated == !hash_views(self.inputs@).no_duplicates(),
    {
        has_duplicates(&self.inputs)
    }

    /// Whether two outputs have the same hash.
    pub fn contains_duplicated_outputs(&self) -> (duplicated: bool)
        ensures
            duplicated == !hash_views(self.outputs@).no_duplicates(),
    {
        has_duplicates(&self.outputs)
    }
}

/// Whether the list holds the hash.
pub fn contains_hash(hashes: &Vec<HashOutput>, hash: &HashOutput) -> (found: bool)
    ensures
        found == hash_views(hashes@).contains(hash@),
{
    let mut i: usize = 0;
    while i < hashes.len()
        invariant
            i <= hashes.len(),
            forall|j: int| 0 <= j < i ==> hash_views(hashes@)[j] != hash@,
        decreases hashes.len() - i,
    {
        if bytes_equal(&hashes[i], hash) {
            assert(hash_views(hashes@)[i as int] == hash@);
            return true;
        }
        i += 1;
    }
    false
}

/// Whether any hash occurs twice in the list.
pub fn has_duplicates(hashes: &Vec<HashOutput>) -> (duplicated: bool)
    ensures
        duplicated == !hash_views(hashes@).no_duplicates(),
{
    let ghost views = hash_views(hashes@);
    let mut i: usize = 0;
    while i < hashes.len()
        invariant
            i <= hashes.len(),
            views == hash_views(hashes@),
            forall|a: int, b: int| 0 <= a < i && a < b < views.len() ==> views[a] != views[b],
        decreases hashes.len() - i,
    {
        let mut j: usize = i + 1;
        while j < hashes.len()
            invariant
                i < j <= hashes.len(),
                views == hash_views(hashes@),
                forall|b: int| i < b < j ==> views[i as int] != views[b],
            decreases hashes.len() - j,
        {
            if bytes_equal(&hashes[i], &hashes[j]) {
                assert(views[i as int] == views[j as int]);
                return true;
            }
            j += 1;
        }
        i += 1;
    }
    assert forall|a: int, b: int| 0 <= a < views.len() && 0 <= b < views.len() && a
        != b implies views[a] != views[b] by {
        if a < b {
            assert(views[a] != views[b]);
        } else {
            assert(views[b] != views[a]);
        }
    }
    false
}

} // verus!
