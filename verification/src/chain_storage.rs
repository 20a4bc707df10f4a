//! What the validators read of the chain: the outputs that exist, the ones
//! that are spent, and the height of the tip.

use crate::comms::peer::bytes_equal;
use crate::transactions::HashOutput;
use vstd::prelude::*;

verus! {

/// Why the chain could not be read.
#[derive(Clone, Copy, Debug, PartialEq, Eq, Structural)]
pub enum ChainStorageError {
    AccessError,
    CorruptedDatabase,
    ValueNotFound,
}

/// The trees that the chain keeps its commitments in.
#[derive(Clone, Copy, Debug, PartialEq, Eq, Structural)]
pub enum MmrTree {
    Utxo,
    Kernel,
    Witness,
}

/// Where an output lies in the chain.
#[derive(Clone, Copy, Debug, PartialEq, Eq, Structural)]
pub struct OutputPosition {
    /// The index of the output's leaf in the tree of outputs.
    pub mmr_index: u32,
    /// The height of the block that holds the output.
    pub height: u64,
}

/// The leaves of the tree of outputs that are spent.
#[derive(Clone, Debug, PartialEq, Eq)]
pub struct DeletedBitmap {
    deleted: Vec<u32>,
}

impl View for DeletedBitmap {
    type V = Set<u32>;

    closed spec fn view(&self) -> Set<u32> {
        self.deleted@.to_set()
    }
}

impl DeletedBitmap {
    /// The bitmap in which exactly the listed leaves are spent.
    pub fn new(deleted: Vec<u32>) -> (bitmap: DeletedBitmap)
        ensures
            bitmap@ == deleted@.to_set(),
    {
        DeletedBitmap { deleted }
    }

    /// Whether the leaf is spent.
    pub fn contains(&self, index: u32) -> (spent: bool)
        ensures
            spent == self@.contains(index),
    {
        let mut i: usize = 0;
        while i < self.deleted.len()
            invariant
                i <= self.deleted.len(),
                forall|j: int| 0 <= j < i ==> self.deleted@[j] != index,
            decreases self.deleted.len() - i,
        {
            if self.deleted[i] == index {
                return true;
            }
            i += 1;
        }
        false
    }
}

/// What the chain knows of itself.
#[derive(Clone, Copy, Debug, PartialEq, Eq, Structural)]
pub struct ChainMetadata {
    pub height_of_longest_chain: u64,
}

impl ChainMetadata {
    pub fn height_of_longest_chain(&self) -> (height: u64)
        ensures
            height == self.height_of_longest_chain,
    {
        self.height_of_longest_chain
    }
}

/// The rules of consensus that the validators read.
#[derive(Clone, Copy, Debug, PartialEq, Eq, Structural)]
pub struct ConsensusConstants {
    pub max_block_weight_excluding_coinbase: u64,
}

impl ConsensusConstants {
    pub fn get_max_block_weight_excluding_coinbase(&self) -> (weight: u64)
        ensures
            weight == self.max_block_weight_excluding_coinbase,
    {
        self.max_block_weight_excluding_coinbase
    }
}

/// The proof of work that a block was mined with.
#[derive(Clone, Copy, Debug, PartialEq, Eq, Structural)]
pub enum PowAlgorithm {
    Monero,
    Sha3,
}

impl PowAlgorithm {
    /// The number that stands for the algorithm on the wire.
    pub open spec fn number(self) -> u64 {
        match self {
            PowAlgorithm::Monero => 0,
            PowAlgorithm::Sha3 => 1,
        }
    }

    pub fn as_u64(self) -> (number: u64)
        ensures
            number == self.number(),
    {
        match self {
            PowAlgorithm::Monero => 0,
            PowAlgorithm::Sha3 => 1,
        }
    }
}

/// The hash of a block.
pub type BlockHash = Vec<u8>;

/// What the node reads of the header of a block.
#[derive(Debug, PartialEq, Eq)]
pub struct BlockHeader {
    pub height: u64,
    pub hash: BlockHash,
    /// In seconds since the epoch.
    pub timestamp: u64,
    pub pow_algo: PowAlgorithm,
}

impl Clone for BlockHeader {
    fn clone(&self) -> (copy: BlockHeader)
        ensures
            copy.height == self.height,
            copy.hash@ == self.hash@,
            copy.timestamp == self.timestamp,
            copy.pow_algo == self.pow_algo,
    {
        BlockHeader {
            height: self.height,
            hash: self.hash.clone(),
            timestamp: self.timestamp,
            pow_algo: self.pow_algo,
        }
    }
}

/// A header, as the contracts speak of it.
pub struct HeaderView {
    pub height: u64,
    pub hash: Seq<u8>,
    pub timestamp: u64,
    pub pow_algo: PowAlgorithm,
}

impl View for BlockHeader {
    type V = HeaderView;

    open spec fn view(&self) -> HeaderView {
        HeaderView {
            height: self.height,
            hash: self.hash@,
            timestamp: self.timestamp,
            pow_algo: self.pow_algo,
        }
    }
}

/// The views of a list of headers.
pub open spec fn header_views(headers: Seq<BlockHeader>) -> Seq<HeaderView> {
    Seq::new(headers.len(), |i: int| headers[i]@)
}

/// What a lookup of a header answered, as the contracts speak of it.
pub open spec fn header_lookup_view(result: Result<Option<BlockHeader>, ChainStorageError>) -> Result<
    Option<HeaderView>,
    ChainStorageError,
> {
    match result {
        Ok(Some(header)) => Ok(Some(header@)),
        Ok(None) => Ok(None),
        Err(error) => Err(error),
    }
}

/// A store of the chain. Every read answers from the state of the store
/// alone: what it answers is what the matching specification function says.
pub trait BlockchainBackend {
    /// The leaves of the tree of outputs that are spent.
    spec fn deleted_leaves(&self) -> Result<Set<u32>, ChainStorageError>;

    /// Where the output with the hash lies, if the chain holds it.
    spec fn output_position(&self, hash: Seq<u8>) -> Result<Option<OutputPosition>, ChainStorageError>;

    /// The index of the leaf with the hash in the tree, if the tree holds it.
    spec fn leaf_index(&self, tree: MmrTree, hash: Seq<u8>) -> Result<
        Option<u32>,
        ChainStorageError,
    >;

    spec fn chain_metadata(&self) -> Result<ChainMetadata, ChainStorageError>;

    /// The header of the block at the height, if the chain is that high.
    spec fn header_at(&self, height: u64) -> Result<Option<HeaderView>, ChainStorageError>;

    /// The header of the block with the hash, if the chain holds it.
    spec fn header_by_hash(&self, hash: Seq<u8>) -> Result<Option<HeaderView>, ChainStorageError>;

    fn fetch_header(&self, height: u64) -> (header: Result<Option<BlockHeader>, ChainStorageError>)
        ensures
            header_lookup_view(header) == self.header_at(height),
    ;

    fn fetch_header_by_block_hash(&self, hash: &BlockHash) -> (header: Result<
        Option<BlockHeader>,
        ChainStorageError,
    >)
        ensures
            header_lookup_view(header) == self.header_by_hash(hash@),
    ;

    fn fetch_deleted_bitmap(&self) -> (bitmap: Result<DeletedBitmap, ChainStorageError>)
        ensures
            match bitmap {
                Ok(bitmap) => self.deleted_leaves() == Ok::<Set<u32>, ChainStorageError>(bitmap@),
                Err(error) => self.deleted_leaves() == Err::<Set<u32>, ChainStorageError>(error),
            },
    ;

    fn fetch_output(&self, hash: &HashOutput) -> (position: Result<
        Option<OutputPosition>,
        ChainStorageError,
    >)
        ensures
            position == self.output_position(hash@),
    ;

    fn fetch_mmr_leaf_index(&self, tree: MmrTree, hash: &HashOutput) -> (index: Result<
        Option<u32>,
        ChainStorageError,
    >)
        ensures
            index == self.leaf_index(tree, hash@),
    ;

    fn fetch_chain_metadata(&self) -> (metadata: Result<ChainMetadata, ChainStorageError>)
        ensures
            metadata == self.chain_metadata(),
    ;
}

/// A store together with the rules of consensus that hold for it.
#[derive(Clone, Debug)]
pub struct BlockchainDatabase<B> {
    pub db: B,
    pub consensus_constants: ConsensusConstants,
}

impl<B: BlockchainBackend> BlockchainDatabase<B> {
    pub fn new(db: B, consensus_constants: ConsensusConstants) -> (database: Self)
        ensures
            database.db == db,
            database.consensus_constants == consensus_constants,
    {
        BlockchainDatabase { db, consensus_constants }
    }

    pub fn consensus_constants(&self) -> (constants: Result<ConsensusConstants, ChainStorageError>)
        ensures
            constants == Ok::<ConsensusConstants, ChainStorageError>(self.consensus_constants),
    {
        Ok(self.consensus_constants)
    }

    pub fn db_read_access(&self) -> (db: Result<&B, ChainStorageError>)
        ensures
            db == Ok::<&B, ChainStorageError>(&self.db),
    {
        Ok(&self.db)
    }
}

/// An output that a store in memory holds.
#[derive(Clone, Debug, PartialEq, Eq)]
pub struct StoredOutput {
    pub hash: HashOutput,
    pub position: OutputPosition,
}

/// The position of the first output of the list that has the hash.
pub open spec fn position_of(outputs: Seq<StoredOutput>, hash: Seq<u8>) -> Option<OutputPosition>
    decreases outputs.len(),
{
    if outputs.len() == 0 {
        None
    } else if outputs.first().hash@ == hash {
        Some(outputs.first().position)
    } else {
        position_of(outputs.drop_first(), hash)
    }
}

/// A store of the chain that lives in memory. It can be told to fail, and
/// then fails every read with the error it was given.
#[derive(Clone, Debug)]
pub struct MemoryBackend {
    pub outputs: Vec<StoredOutput>,
    pub deleted: Vec<u32>,
    pub headers: Vec<BlockHeader>,
    pub tip_height: u64,
    pub failure: Option<ChainStorageError>,
}

/// The first header of the list that has the height.
pub open spec fn header_with_height(headers: Seq<BlockHeader>, height: u64) -> Option<HeaderView>
    decreases headers.len(),
{
    if headers.len() == 0 {
        None
    } else if headers.first().height == height {
        Some(headers.first()@)
    } else {
        header_with_height(headers.drop_first(), height)
    }
}

/// The first header of the list that has the hash.
pub open spec fn header_with_hash(headers: Seq<BlockHeader>, hash: Seq<u8>) -> Option<HeaderView>
    decreases headers.len(),
{
    if headers.len() == 0 {
        None
    } else if headers.first().hash@ == hash {
        Some(headers.first()@)
    } else {
        header_with_hash(headers.drop_first(), hash)
    }
}

impl MemoryBackend {
    /// An empty chain at height zero.
    pub fn new() -> (backend: MemoryBackend)
        ensures
            backend.outputs@.len() == 0,
            backend.deleted@.len() == 0,
            backend.headers@.len() == 0,
            backend.tip_height == 0,
            backend.failure is None,
    {
        MemoryBackend {
            outputs: Vec::new(),
            deleted: Vec::new(),
            headers: Vec::new(),
            tip_height: 0,
            failure: None,
        }
    }

    fn find_header(&self, height: u64) -> (header: Option<BlockHeader>)
        ensures
            header_lookup_view(Ok(header)) == Ok::<Option<HeaderView>, ChainStorageError>(
                header_with_height(self.headers@, height),
            ),
    {
        let mut i: usize = 0;
        assert(self.headers@.subrange(0, self.headers@.len() as int) =~= self.headers@);
        while i < self.headers.len()
            invariant
                i <= self.headers.len(),
                header_with_height(self.headers@, height) == header_with_height(
                    self.headers@.subrange(i as int, self.headers@.len() as int),
                    height,
                ),
            decreases self.headers.len() - i,
        {
            let ghost rest = self.headers@.subrange(i as int, self.headers@.len() as int);
            assert(rest.first() == self.headers@[i as int]);
            assert(rest.drop_first() =~= self.headers@.subrange(
                i + 1,
                self.headers@.len() as int,
            ));
            if self.headers[i].height == height {
                let header = self.headers[i].clone();
                assert(header@ == self.headers@[i as int]@);
                return Some(header);
            }
            i += 1;
        }
        assert(self.headers@.subrange(i as int, self.headers@.len() as int).len() == 0);
        None
    }

    fn find_header_by_hash(&self, hash: &BlockHash) -> (header: Option<BlockHeader>)
        ensures
            header_lookup_view(Ok(header)) == Ok::<Option<HeaderView>, ChainStorageError>(
                header_with_hash(self.headers@, hash@),
            ),
    {
        let mut i: usize = 0;
        assert(self.headers@.subrange(0, self.headers@.len() as int) =~= self.headers@);
        while i < self.headers.len()
            invariant
                i <= self.headers.len(),
                header_with_hash(self.headers@, hash@) == header_with_hash(
                    self.headers@.subrange(i as int, self.headers@.len() as int),
                    hash@,
                ),
            decreases self.headers.len() - i,
        {
            let ghost rest = self.headers@.subrange(i as int, self.headers@.len() as int);
            assert(rest.first() == self.headers@[i as int]);
            assert(rest.drop_first() =~= self.headers@.subrange(
                i + 1,
                self.headers@.len() as int,
            ));
            if bytes_equal(&self.headers[i].hash, hash) {
                let header = self.headers[i].clone();
                assert(header@ == self.headers@[i as int]@);
                return Some(header);
            }
            i += 1;
        }
        assert(self.headers@.subrange(i as int, self.headers@.len() as int).len() == 0);
        None
    }

    fn find(&self, hash: &HashOutput) -> (position: Option<OutputPosition>)
        ensures
            position == position_of(self.outputs@, hash@),
    {
        let mut i: usize = 0;
        assert(self.outputs@.subrange(0, self.outputs@.len() as int) =~= self.outputs@);
        while i < self.outputs.len()
            invariant
                i <= self.outputs.len(),
                position_of(self.outputs@, hash@) == position_of(
                    self.outputs@.subrange(i as int, self.outputs@.len() as int),
                    hash@,
                ),
            decreases self.outputs.len() - i,
        {
            let ghost rest = self.outputs@.subrange(i as int, self.outputs@.len() as int);
            assert(rest.first() == self.outputs@[i as int]);
            assert(rest.drop_first() =~= self.outputs@.subrange(
                i + 1,
                self.outputs@.len() as int,
            ));
            if bytes_equal(&self.outputs[i].hash, hash) {
                return Some(self.outputs[i].position);
            }
            i += 1;
        }
        assert(self.outputs@.subrange(i as int, self.outputs@.len() as int).len() == 0);
        None
    }
}

impl BlockchainBackend for MemoryBackend {
    open spec fn deleted_leaves(&self) -> Result<Set<u32>, ChainStorageError> {
        match self.failure {
            Some(error) => Err(error),
            None => Ok(self.deleted@.to_set()),
        }
    }

    open spec fn output_position(&self, hash: Seq<u8>) -> Result<
        Option<OutputPosition>,
        ChainStorageError,
    > {
        match self.failure {
            Some(error) => Err(error),
            None => Ok(position_of(self.outputs@, hash)),
        }
    }

    open spec fn leaf_index(&self, tree: MmrTree, hash: Seq<u8>) -> Result<
        Option<u32>,
        ChainStorageError,
    > {
        match self.failure {
            Some(error) => Err(error),
            None => match tree {
                MmrTree::Utxo => match position_of(self.outputs@, hash) {
                    Some(position) => Ok(Some(position.mmr_index)),
                    None => Ok(None),
                },
                _ => Ok(None),
            },
        }
    }

    open spec fn chain_metadata(&self) -> Result<ChainMetadata, ChainStorageError> {
        match self.failure {
            Some(error) => Err(error),
            None => Ok(ChainMetadata { height_of_longest_chain: self.tip_height }),
        }
    }

    open spec fn header_at(&self, height: u64) -> Result<Option<HeaderView>, ChainStorageError> {
        match self.failure {
            Some(error) => Err(error),
            None => Ok(header_with_height(self.headers@, height)),
        }
    }

    open spec fn header_by_hash(&self, hash: Seq<u8>) -> Result<
        Option<HeaderView>,
        ChainStorageError,
    > {
        match self.failure {
            Some(error) => Err(error),
            None => Ok(header_with_hash(self.headers@, hash)),
        }
    }

    fn fetch_header(&self, height: u64) -> (header: Result<Option<BlockHeader>, ChainStorageError>) {
        match self.failure {
            Some(error) => Err(error),
            None => Ok(self.find_header(height)),
        }
    }

    fn fetch_header_by_block_hash(&self, hash: &BlockHash) -> (header: Result<
        Option<BlockHeader>,
        ChainStorageError,
    >) {
        match self.failure {
            Some(error) => Err(error),
            None => Ok(self.find_header_by_hash(hash)),
        }
    }

    fn fetch_deleted_bitmap(&self) -> (bitmap: Result<DeletedBitmap, ChainStorageError>) {
        match self.failure {
            Some(error) => Err(error),
            None => Ok(DeletedBitmap::new(self.deleted.clone())),
        }
    }

    fn fetch_output(&self, hash: &HashOutput) -> (position: Result<
        Option<OutputPosition>,
        ChainStorageError,
    >) {
        match self.failure {
            Some(error) => Err(error),
            None => Ok(self.find(hash)),
        }
    }

    fn fetch_mmr_leaf_index(&self, tree: MmrTree, hash: &HashOutput) -> (index: Result<
        Option<u32>,
        ChainStorageError,
    >) {
        match self.failure {
            Some(error) => Err(error),
            None => match tree {
                MmrTree::Utxo => match self.find(hash) {
                    Some(position) => Ok(Some(position.mmr_index)),
                    None => Ok(None),
                },
                _ => Ok(None),
            },
        }
    }

    fn fetch_chain_metadata(&self) -> (metadata: Result<ChainMetadata, ChainStorageError>) {
        match self.failure {
            Some(error) => Err(error),
            None => Ok(ChainMetadata { height_of_longest_chain: self.tip_height }),
        }
    }
}

} // verus!
