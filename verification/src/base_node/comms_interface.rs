//! How the base node answers what reaches it from its peers and from local
//! services.

use crate::chain_storage::{
    header_views,
    BlockHash,
    BlockHeader,
    BlockchainBackend,
    ChainMetadata,
    ChainStorageError,
    HeaderView,
};
use crate::comms::peer::{bytes_equal, NodeId};
use crate::transactions::{hash_views, HashOutput};
use vstd::prelude::*;

verus! {

/// The most headers that one answer carries after the header it starts from.
pub const MAX_HEADERS_PER_RESPONSE: u32 = 100;

/// Says whether a block event is for a block that may be passed on to peers.
#[derive(Clone, Copy, Debug, PartialEq, Eq, Structural)]
pub struct Broadcast(bool);

impl Broadcast {
    pub closed spec fn flag(self) -> bool {
        self.0
    }

    pub fn new(flag: bool) -> (broadcast: Broadcast)
        ensures
            broadcast.flag() == flag,
    {
        Broadcast(flag)
    }

    #[inline]
    pub fn is_true(&self) -> (flag: bool)
        ensures
            flag == self.flag(),
    {
        self.0
    }

    /// `Broadcast[true]` or `Broadcast[false]`.
    pub fn to_string(&self) -> (text: String)
        ensures
            text@ == if self.flag() {
                "Broadcast[true]"@
            } else {
                "Broadcast[false]"@
            },
    {
        if self.0 {
            "Broadcast[true]".to_owned()
        } else {
            "Broadcast[false]".to_owned()
        }
    }
}

impl From<bool> for Broadcast {
    fn from(v: bool) -> (broadcast: Broadcast)
        ensures
            broadcast.flag() == v,
    {
        Broadcast(v)
    }
}

impl vstd::std_specs::convert::FromSpecImpl<bool> for Broadcast {
    open spec fn obeys_from_spec() -> bool {
        true
    }

    open spec fn from_spec(v: bool) -> Broadcast {
        Broadcast::of(v)
    }
}

impl From<Broadcast> for bool {
    fn from(v: Broadcast) -> (flag: bool)
        ensures
            flag == v.flag(),
    {
        v.0
    }
}

impl vstd::std_specs::convert::FromSpecImpl<Broadcast> for bool {
    open spec fn obeys_from_spec() -> bool {
        true
    }

    open spec fn from_spec(v: Broadcast) -> bool {
        v.flag()
    }
}

impl Broadcast {
    pub closed spec fn of(flag: bool) -> Broadcast {
        Broadcast(flag)
    }
}

/// A block, as far as the node's handlers read it.
#[derive(Clone, Debug, PartialEq, Eq)]
pub struct Block {
    pub header: BlockHeader,
}

impl Block {
    /// The hash of the block, which is the hash of its header.
    pub fn hash(&self) -> (hash: BlockHash)
        ensures
            hash@ == self.header.hash@,
    {
        self.header.hash.clone()
    }
}

/// A block that is part of the chain.
#[derive(Clone, Debug, PartialEq, Eq)]
pub struct ChainBlock {
    pub block: Block,
}

/// What came of adding a block to the chain.
#[derive(Clone, Debug, PartialEq, Eq)]
pub enum BlockAddResult {
    /// The block extends the chain.
    Added(ChainBlock),
    /// The chain holds the block already.
    BlockExists,
    /// The block has no parent in the chain.
    OrphanBlock,
    /// The block made another chain the longest.
    ChainReorg { added: Vec<ChainBlock>, removed: Vec<ChainBlock> },
}

impl BlockAddResult {
    /// A block is worth passing on if it changed the chain.
    pub open spec fn changed_the_chain(&self) -> bool {
        self is Added || self is ChainReorg
    }

    pub fn should_propagate(&self) -> (propagate: bool)
        ensures
            propagate == self.changed_the_chain(),
    {
        match self {
            BlockAddResult::Added(_) => true,
            BlockAddResult::BlockExists => false,
            BlockAddResult::OrphanBlock => false,
            BlockAddResult::ChainReorg { .. } => true,
        }
    }
}

/// What the node tells its subscribers of the blocks it handles.
#[derive(Clone, Debug, PartialEq, Eq)]
pub enum BlockEvent {
    ValidBlockAdded(Block, BlockAddResult, Broadcast),
    AddBlockFailed(Block, Broadcast),
    BlockSyncComplete(ChainBlock),
    BlockSyncRewind(Vec<ChainBlock>),
}

impl BlockEvent {
    /// The name of the kind of event.
    pub open spec fn name_of(&self) -> Seq<char> {
        match self {
            BlockEvent::ValidBlockAdded(..) => "ValidBlockAdded"@,
            BlockEvent::AddBlockFailed(..) => "AddBlockFailed"@,
            BlockEvent::BlockSyncComplete(..) => "BlockSyncComplete"@,
            BlockEvent::BlockSyncRewind(..) => "BlockSyncRewind"@,
        }
    }

    pub fn to_string(&self) -> (name: String)
        ensures
            name@ == self.name_of(),
    {
        match self {
            BlockEvent::ValidBlockAdded(..) => "ValidBlockAdded".to_owned(),
            BlockEvent::AddBlockFailed(..) => "AddBlockFailed".to_owned(),
            BlockEvent::BlockSyncComplete(..) => "BlockSyncComplete".to_owned(),
            BlockEvent::BlockSyncRewind(..) => "BlockSyncRewind".to_owned(),
        }
    }
}

/// Why a request to the node could not be served.
#[derive(Clone, Debug, PartialEq, Eq)]
pub enum CommsInterfaceError {
    /// The answer is not of the kind that the request calls for.
    UnexpectedApiResponse,
    /// The node reported an error, in its words.
    ApiError(String),
    ChainStorageError(ChainStorageError),
    /// The chain has no header at the height.
    BlockHeaderNotFound(u64),
    /// The chain has no header with the hash.
    HeaderHashNotFound(BlockHash),
    /// The peer announced a block and did not hand it over.
    InvalidPeerResponse(NodeId),
}

/// The announcement of a block by its hash.
#[derive(Clone, Debug, PartialEq, Eq)]
pub struct NewBlock {
    pub block_hash: BlockHash,
}

impl NewBlock {
    pub fn new(block_hash: BlockHash) -> (new_block: NewBlock)
        ensures
            new_block.block_hash == block_hash,
    {
        NewBlock { block_hash }
    }
}

/// The weight of transactions to ask the mempool for: what the miner asked
/// for, unless it asked for nothing or for more than a block may hold; then
/// what a block may hold.
pub open spec fn asking_weight_spec(max_weight: u64, constants_weight: u64) -> u64 {
    if max_weight > constants_weight || max_weight == 0 {
        constants_weight
    } else {
        max_weight
    }
}

pub fn asking_weight(max_weight: u64, constants_weight: u64) -> (weight: u64)
    ensures
        weight == asking_weight_spec(max_weight, constants_weight),
        weight <= constants_weight,
{
    if max_weight > constants_weight || max_weight == 0 {
        constants_weight
    } else {
        max_weight
    }
}

/// The announcement of a block to the network, and who is not to receive it.
#[derive(Clone, Debug, PartialEq, Eq)]
pub struct Propagation {
    pub new_block: NewBlock,
    pub exclude_peers: Vec<NodeId>,
}

/// What is to be done with a block that was handed to the chain.
#[derive(Debug, PartialEq, Eq)]
pub struct BlockHandling {
    /// The event to publish, if any.
    pub event: Option<BlockEvent>,
    /// The announcement to send, if any.
    pub propagate: Option<Propagation>,
    /// What the one who handed in the block is told.
    pub result: Result<BlockHash, CommsInterfaceError>,
}

/// The peers that an announcement is kept from: the one the block came from.
pub open spec fn excluded_peers(source_peer: Option<NodeId>) -> Seq<NodeId> {
    match source_peer {
        Some(peer) => seq![peer],
        None => Seq::empty(),
    }
}

/// Decides what follows from handing a block to the chain. A block that the
/// chain refused makes a failure event and an error. A block that the chain
/// took makes an event, unless the orphans could not be cleaned up, which
/// is an error without an event; and it is announced to the network if it
/// changed the chain and may be broadcast, to all but the peer it came from.
pub fn handle_block(
    block: Block,
    broadcast: Broadcast,
    source_peer: Option<NodeId>,
    add_block_result: Result<BlockAddResult, ChainStorageError>,
    cleanup_orphans_result: Result<(), ChainStorageError>,
) -> (handling: BlockHandling)
    ensures
        match add_block_result {
            Err(error) => {
                &&& handling.event == Some(BlockEvent::AddBlockFailed(block, broadcast))
                &&& handling.propagate is None
                &&& handling.result == Err::<BlockHash, CommsInterfaceError>(
                    CommsInterfaceError::ChainStorageError(error),
                )
            },
            Ok(added) => match cleanup_orphans_result {
                Err(error) => {
                    &&& handling.event is None
                    &&& handling.propagate is None
                    &&& handling.result == Err::<BlockHash, CommsInterfaceError>(
                        CommsInterfaceError::ChainStorageError(error),
                    )
                },
                Ok(()) => {
                    &&& handling.event == Some(BlockEvent::ValidBlockAdded(block, added, broadcast))
                    &&& handling.result matches Ok(hash) && hash@ == block.header.hash@
                    &&& if added.changed_the_chain() && broadcast.flag() {
                        handling.propagate matches Some(propagation)
                            && propagation.new_block.block_hash@ == block.header.hash@
                            && propagation.exclude_peers@ == excluded_peers(source_peer)
                    } else {
                        handling.propagate is None
                    }
                },
            },
        },
{
    let block_hash = block.hash();
    match add_block_result {
        Ok(block_add_result) => {
            let should_propagate = block_add_result.should_propagate();
            match cleanup_orphans_result {
                Ok(()) => {},
                Err(error) => {
                    return BlockHandling {
                        event: None,
                        propagate: None,
                        result: Err(CommsInterfaceError::ChainStorageError(error)),
                    };
                },
            }
            let event = BlockEvent::ValidBlockAdded(block, block_add_result, broadcast);
            let propagate = if should_propagate && broadcast.is_true() {
                let mut exclude_peers: Vec<NodeId> = Vec::new();
                match source_peer {
                    Some(peer) => {
                        exclude_peers.push(peer);
                    },
                    None => {},
                }
                assert(exclude_peers@ =~= excluded_peers(source_peer));
                Some(Propagation { new_block: NewBlock::new(block_hash.clone()), exclude_peers })
            } else {
                None
            };
            BlockHandling { event: Some(event), propagate, result: Ok(block_hash) }
        },
        Err(error) => BlockHandling {
            event: Some(BlockEvent::AddBlockFailed(block, broadcast)),
            propagate: None,
            result: Err(CommsInterfaceError::ChainStorageError(error)),
        },
    }
}

/// What to do about a block that a peer announced.
#[derive(Debug, PartialEq, Eq)]
pub enum NewBlockStep {
    /// The chain holds the block: there is nothing to do.
    AlreadyStored,
    /// Ask the peer that announced the block to hand it over.
    RequestBlock { block_hash: BlockHash, from: NodeId },
}

/// Decides what to do about a block that a peer announced: a block that the
/// chain does not hold is asked for, from that peer.
pub fn new_block_announced(new_block: NewBlock, source_peer: NodeId, block_exists: bool) -> (step:
    NewBlockStep)
    ensures
        step == if block_exists {
            NewBlockStep::AlreadyStored
        } else {
            NewBlockStep::RequestBlock { block_hash: new_block.block_hash, from: source_peer }
        },
{
    if block_exists {
        NewBlockStep::AlreadyStored
    } else {
        NewBlockStep::RequestBlock { block_hash: new_block.block_hash, from: source_peer }
    }
}

/// Picks the block out of what a peer sent when it was asked for the block
/// it had announced: the last block of the answer. A peer that sent nothing
/// gave an invalid response.
pub fn announced_block_received(blocks: Vec<Block>, source_peer: NodeId) -> (block: Result<
    Block,
    CommsInterfaceError,
>)
    ensures
        block == if blocks@.len() > 0 {
            Ok::<Block, CommsInterfaceError>(blocks@.last())
        } else {
            Err::<Block, CommsInterfaceError>(CommsInterfaceError::InvalidPeerResponse(source_peer))
        },
{
    let mut blocks = blocks;
    match blocks.pop() {
        Some(block) => Ok(block),
        None => Err(CommsInterfaceError::InvalidPeerResponse(source_peer)),
    }
}

/// Whether the chain has a header at the height and can read it.
pub open spec fn header_is_available<B: BlockchainBackend>(db: &B, height: u64) -> bool {
    db.header_at(height) matches Ok(Some(_))
}

/// Whether the height at `i` is the first whose header is missing or
/// cannot be read.
pub open spec fn is_first_unavailable_header<B: BlockchainBackend>(
    db: &B,
    heights: Seq<u64>,
    i: int,
) -> bool {
    &&& 0 <= i < heights.len()
    &&& !header_is_available(db, heights[i])
    &&& forall|j: int| 0 <= j < i ==> header_is_available(db, #[trigger] heights[j])
}

proof fn lemma_first_unavailable_header<B: BlockchainBackend>(db: &B, heights: Seq<u64>, i: int)
    requires
        is_first_unavailable_header(db, heights, i),
    ensures
        exists|k: int| is_first_unavailable_header(db, heights, k),
        (choose|k: int| is_first_unavailable_header(db, heights, k)) == i,
{
    let k = choose|k: int| is_first_unavailable_header(db, heights, k);
    assert(is_first_unavailable_header(db, heights, k));
    if k < i {
        assert(header_is_available(db, heights[k]));
    } else if i < k {
        assert(header_is_available(db, heights[i]));
    }
}

/// Fetches the headers at the heights, in the order of the heights. The
/// first height whose header is missing, or cannot be read, fails the
/// request with that height or that error.
pub fn fetch_headers<B: BlockchainBackend>(db: &B, block_nums: &Vec<u64>) -> (result: Result<
    Vec<BlockHeader>,
    CommsInterfaceError,
>)
    ensures
        match result {
            Ok(headers) => {
                &&& headers@.len() == block_nums@.len()
                &&& forall|i: int|
                    0 <= i < block_nums@.len() ==> db.header_at(block_nums@[i]) == Ok::<
                        Option<HeaderView>,
                        ChainStorageError,
                    >(Some(#[trigger] headers@[i]@))
            },
            Err(error) => {
                &&& exists|i: int| is_first_unavailable_header(db, block_nums@, i)
                &&& ({
                    let i = choose|i: int| is_first_unavailable_header(db, block_nums@, i);
                    match db.header_at(block_nums@[i]) {
                        Err(failure) => error == CommsInterfaceError::ChainStorageError(failure),
                        _ => error == CommsInterfaceError::BlockHeaderNotFound(block_nums@[i]),
                    }
                })
            },
        },
{
    let mut block_headers: Vec<BlockHeader> = Vec::new();
    let mut i: usize = 0;
    while i < block_nums.len()
        invariant
            i <= block_nums.len(),
            block_headers@.len() == i,
            forall|j: int|
                0 <= j < i ==> db.header_at(block_nums@[j]) == Ok::<
                    Option<HeaderView>,
                    ChainStorageError,
                >(Some(#[trigger] block_headers@[j]@)),
        decreases block_nums.len() - i,
    {
        let block_num = block_nums[i];
        match db.fetch_header(block_num) {
            Ok(Some(block_header)) => {
                block_headers.push(block_header);
            },
            Ok(None) => {
                proof {
                    assert forall|j: int| 0 <= j < i implies header_is_available(
                        db,
                        #[trigger] block_nums@[j],
                    ) by {
                        assert(db.header_at(block_nums@[j]) == Ok::<
                            Option<HeaderView>,
                            ChainStorageError,
                        >(Some(block_headers@[j]@)));
                    }
                    lemma_first_unavailable_header(db, block_nums@, i as int);
                }
                return Err(CommsInterfaceError::BlockHeaderNotFound(block_num));
            },
            Err(err) => {
                proof {
                    assert forall|j: int| 0 <= j < i implies header_is_available(
                        db,
                        #[trigger] block_nums@[j],
                    ) by {
                        assert(db.header_at(block_nums@[j]) == Ok::<
                            Option<HeaderView>,
                            ChainStorageError,
                        >(Some(block_headers@[j]@)));
                    }
                    lemma_first_unavailable_header(db, block_nums@, i as int);
                }
                return Err(CommsInterfaceError::ChainStorageError(err));
            },
        }
        i += 1;
    }
    Ok(block_headers)
}

/// Whether the hash at `i` is the first that the chain knows, or cannot be
/// asked about.
pub open spec fn is_first_decisive_hash<B: BlockchainBackend>(
    db: &B,
    hashes: Seq<BlockHash>,
    i: int,
) -> bool {
    &&& 0 <= i < hashes.len()
    &&& !header_is_unknown(db, hashes[i])
    &&& forall|j: int| 0 <= j < i ==> header_is_unknown(db, #[trigger] hashes[j])
}

/// Whether the chain can be read and holds no header with the hash.
pub open spec fn header_is_unknown<B: BlockchainBackend>(db: &B, hash: BlockHash) -> bool {
    db.header_by_hash(hash@) == Ok::<Option<HeaderView>, ChainStorageError>(None)
}

proof fn lemma_first_decisive_hash<B: BlockchainBackend>(db: &B, hashes: Seq<BlockHash>, i: int)
    requires
        is_first_decisive_hash(db, hashes, i),
    ensures
        exists|k: int| is_first_decisive_hash(db, hashes, k),
        (choose|k: int| is_first_decisive_hash(db, hashes, k)) == i,
{
    let k = choose|k: int| is_first_decisive_hash(db, hashes, k);
    assert(is_first_decisive_hash(db, hashes, k));
    if k < i {
        assert(header_is_unknown(db, hashes[k]));
    } else if i < k {
        assert(header_is_unknown(db, hashes[i]));
    }
}

/// The header from which an answer starts: the header of the first hash
/// that the chain knows, or the genesis header where it knows none of them.
/// A read that fails on the way fails the search.
pub open spec fn starting_header<B: BlockchainBackend>(db: &B, hashes: Seq<BlockHash>) -> Result<
    HeaderView,
    CommsInterfaceError,
> {
    if exists|i: int| is_first_decisive_hash(db, hashes, i) {
        let i = choose|i: int| is_first_decisive_hash(db, hashes, i);
        match db.header_by_hash(hashes[i]@) {
            Ok(Some(header)) => Ok(header),
            Ok(None) => Err(CommsInterfaceError::BlockHeaderNotFound(0)),
            Err(error) => Err(CommsInterfaceError::ChainStorageError(error)),
        }
    } else {
        match db.header_at(0) {
            Ok(Some(header)) => Ok(header),
            Ok(None) => Err(CommsInterfaceError::BlockHeaderNotFound(0)),
            Err(error) => Err(CommsInterfaceError::ChainStorageError(error)),
        }
    }
}

/// The headers that follow the height `start`, from `start + offset` up to
/// `start + 99`: those that the chain holds, in the order of their heights,
/// up to and including the first that has the stopping hash. A read that
/// fails fails them all.
pub open spec fn headers_after<B: BlockchainBackend>(
    db: &B,
    start: u64,
    offset: nat,
    stopping_hash: Seq<u8>,
) -> Result<Seq<HeaderView>, ChainStorageError>
    decreases MAX_HEADERS_PER_RESPONSE - offset,
{
    if offset >= MAX_HEADERS_PER_RESPONSE || start + offset > u64::MAX {
        Ok(Seq::empty())
    } else {
        match db.header_at((start + offset) as u64) {
            Err(error) => Err(error),
            Ok(None) => headers_after(db, start, offset + 1, stopping_hash),
            Ok(Some(header)) => if header.hash == stopping_hash {
                Ok(seq![header])
            } else {
                followed_by(seq![header], headers_after(db, start, offset + 1, stopping_hash))
            },
        }
    }
}

/// The headers `first`, followed by the headers of `rest`, if there are any.
pub open spec fn followed_by(
    first: Seq<HeaderView>,
    rest: Result<Seq<HeaderView>, ChainStorageError>,
) -> Result<Seq<HeaderView>, ChainStorageError> {
    match rest {
        Ok(rest) => Ok(first + rest),
        Err(error) => Err(error),
    }
}

fn find_starting_header<B: BlockchainBackend>(db: &B, header_hashes: &Vec<BlockHash>) -> (result:
    Result<BlockHeader, CommsInterfaceError>)
    ensures
        match result {
            Ok(header) => starting_header(db, header_hashes@) == Ok::<
                HeaderView,
                CommsInterfaceError,
            >(header@),
            Err(error) => starting_header(db, header_hashes@) == Err::<
                HeaderView,
                CommsInterfaceError,
            >(error),
        },
{
    let mut i: usize = 0;
    while i < header_hashes.len()
        invariant
            i <= header_hashes.len(),
            forall|j: int| 0 <= j < i ==> header_is_unknown(db, #[trigger] header_hashes@[j]),
        decreases header_hashes.len() - i,
    {
        match db.fetch_header_by_block_hash(&header_hashes[i]) {
            Ok(Some(from_block)) => {
                proof {
                    lemma_first_decisive_hash(db, header_hashes@, i as int);
                }
                return Ok(from_block);
            },
            Ok(None) => {},
            Err(error) => {
                proof {
                    lemma_first_decisive_hash(db, header_hashes@, i as int);
                }
                return Err(CommsInterfaceError::ChainStorageError(error));
            },
        }
        i += 1;
    }
    proof {
        assert forall|k: int| !is_first_decisive_hash(db, header_hashes@, k) by {}
    }
    // Send from genesis block if no hashes match
    match db.fetch_header(0) {
        Ok(Some(header)) => Ok(header),
        Ok(None) => Err(CommsInterfaceError::BlockHeaderNotFound(0)),
        Err(error) => Err(CommsInterfaceError::ChainStorageError(error)),
    }
}

/// Fetches the headers that follow the first header that the chain knows
/// among `header_hashes`, or that follow the genesis header where it knows
/// none: at most 99 of them, and none after the one with the stopping hash.
pub fn fetch_headers_after<B: BlockchainBackend>(
    db: &B,
    header_hashes: &Vec<BlockHash>,
    stopping_hash: &BlockHash,
) -> (result: Result<Vec<BlockHeader>, CommsInterfaceError>)
    ensures
        match starting_header(db, header_hashes@) {
            Err(error) => result == Err::<Vec<BlockHeader>, CommsInterfaceError>(error),
            Ok(start) => match headers_after(db, start.height, 1, stopping_hash@) {
                Err(error) => result == Err::<Vec<BlockHeader>, CommsInterfaceError>(
                    CommsInterfaceError::ChainStorageError(error),
                ),
                Ok(expected) => result matches Ok(headers) && header_views(headers@) == expected,
            },
        },
{
    let starting_block = match find_starting_header(db, header_hashes) {
        Ok(header) => header,
        Err(error) => {
            return Err(error);
        },
    };
    let start = starting_block.height;
    let ghost origin = starting_block@;
    let mut headers: Vec<BlockHeader> = Vec::new();
    let mut i: u32 = 1;
    assert(header_views(headers@) =~= Seq::<HeaderView>::empty());
    proof {
        lemma_followed_by_nothing(headers_after(db, start, 1, stopping_hash@));
    }
    while i < MAX_HEADERS_PER_RESPONSE
        invariant
            1 <= i <= MAX_HEADERS_PER_RESPONSE,
            starting_header(db, header_hashes@) == Ok::<HeaderView, CommsInterfaceError>(origin),
            origin.height == start,
            headers_after(db, start, 1, stopping_hash@) == followed_by(
                header_views(headers@),
                headers_after(db, start, i as nat, stopping_hash@),
            ),
        decreases MAX_HEADERS_PER_RESPONSE - i,
    {
        let height = match start.checked_add(i as u64) {
            Some(height) => height,
            None => {
                proof {
                    assert(header_views(headers@) + Seq::<HeaderView>::empty() =~= header_views(
                        headers@,
                    ));
                }
                return Ok(headers);
            },
        };
        let ghost before = header_views(headers@);
        match db.fetch_header(height) {
            Ok(header) => {
                if let Some(header) = header {
                    let found = bytes_equal(&header.hash, stopping_hash);
                    let ghost view = header@;
                    headers.push(header);
                    proof {
                        assert(header_views(headers@) =~= before + seq![view]);
                    }
                    if found {
                        return Ok(headers);
                    }
                    proof {
                        let rest = headers_after(db, start, (i + 1) as nat, stopping_hash@);
                        if let Ok(rest) = rest {
                            assert(before + (seq![view] + rest) =~= (before + seq![view]) + rest);
                        }
                    }
                }
            },
            Err(err) => {
                return Err(CommsInterfaceError::ChainStorageError(err));
            },
        }
        i += 1;
    }
    proof {
        assert(header_views(headers@) + Seq::<HeaderView>::empty() =~= header_views(headers@));
    }
    Ok(headers)
}

proof fn lemma_followed_by_nothing(rest: Result<Seq<HeaderView>, ChainStorageError>)
    ensures
        followed_by(Seq::<HeaderView>::empty(), rest) == rest,
{
    if let Ok(headers) = rest {
        assert(Seq::<HeaderView>::empty() + headers =~= headers);
    }
}

/// Whether the hash at `i` is the first whose header is missing or cannot
/// be read.
pub open spec fn is_first_unavailable_hash<B: BlockchainBackend>(
    db: &B,
    hashes: Seq<BlockHash>,
    i: int,
) -> bool {
    &&& 0 <= i < hashes.len()
    &&& !header_is_known(db, hashes[i])
    &&& forall|j: int| 0 <= j < i ==> header_is_known(db, #[trigger] hashes[j])
}

/// Whether the chain can be read and holds a header with the hash.
pub open spec fn header_is_known<B: BlockchainBackend>(db: &B, hash: BlockHash) -> bool {
    db.header_by_hash(hash@) matches Ok(Some(_))
}

proof fn lemma_first_unavailable_hash<B: BlockchainBackend>(db: &B, hashes: Seq<BlockHash>, i: int)
    requires
        is_first_unavailable_hash(db, hashes, i),
    ensures
        exists|k: int| is_first_unavailable_hash(db, hashes, k),
        (choose|k: int| is_first_unavailable_hash(db, hashes, k)) == i,
{
    let k = choose|k: int| is_first_unavailable_hash(db, hashes, k);
    assert(is_first_unavailable_hash(db, hashes, k));
    if k < i {
        assert(header_is_known(db, hashes[k]));
    } else if i < k {
        assert(header_is_known(db, hashes[i]));
    }
}

/// Fetches the headers with the hashes, in the order of the hashes. The
/// first hash whose header is missing, or cannot be read, fails the request
/// with that hash or that error.
pub fn fetch_headers_with_hashes<B: BlockchainBackend>(db: &B, block_hashes: &Vec<BlockHash>) -> (result:
    Result<Vec<BlockHeader>, CommsInterfaceError>)
    ensures
        match result {
            Ok(headers) => {
                &&& headers@.len() == block_hashes@.len()
                &&& forall|i: int|
                    0 <= i < block_hashes@.len() ==> db.header_by_hash(block_hashes@[i]@) == Ok::<
                        Option<HeaderView>,
                        ChainStorageError,
                    >(Some(#[trigger] headers@[i]@))
            },
            Err(error) => {
                &&& exists|i: int| is_first_unavailable_hash(db, block_hashes@, i)
                &&& ({
                    let i = choose|i: int| is_first_unavailable_hash(db, block_hashes@, i);
                    match db.header_by_hash(block_hashes@[i]@) {
                        Err(failure) => error == CommsInterfaceError::ChainStorageError(failure),
                        _ => error matches CommsInterfaceError::HeaderHashNotFound(hash) && hash@
                            == block_hashes@[i]@,
                    }
                })
            },
        },
{
    let mut block_headers: Vec<BlockHeader> = Vec::new();
    let mut i: usize = 0;
    while i < block_hashes.len()
        invariant
            i <= block_hashes.len(),
            block_headers@.len() == i,
            forall|j: int|
                0 <= j < i ==> db.header_by_hash(block_hashes@[j]@) == Ok::<
                    Option<HeaderView>,
                    ChainStorageError,
                >(Some(#[trigger] block_headers@[j]@)),
        decreases block_hashes.len() - i,
    {
        match db.fetch_header_by_block_hash(&block_hashes[i]) {
            Ok(Some(block_header)) => {
                block_headers.push(block_header);
            },
            Ok(None) => {
                proof {
                    assert forall|j: int| 0 <= j < i implies header_is_known(
                        db,
                        #[trigger] block_hashes@[j],
                    ) by {
                        assert(db.header_by_hash(block_hashes@[j]@) == Ok::<
                            Option<HeaderView>,
                            ChainStorageError,
                        >(Some(block_headers@[j]@)));
                    }
                    lemma_first_unavailable_hash(db, block_hashes@, i as int);
                }
                return Err(CommsInterfaceError::HeaderHashNotFound(block_hashes[i].clone()));
            },
            Err(err) => {
                proof {
                    assert forall|j: int| 0 <= j < i implies header_is_known(
                        db,
                        #[trigger] block_hashes@[j],
                    ) by {
                        assert(db.header_by_hash(block_hashes@[j]@) == Ok::<
                            Option<HeaderView>,
                            ChainStorageError,
                        >(Some(block_headers@[j]@)));
                    }
                    lemma_first_unavailable_hash(db, block_hashes@, i as int);
                }
                return Err(CommsInterfaceError::ChainStorageError(err));
            },
        }
        i += 1;
    }
    Ok(block_headers)
}

/// An output that was looked up, and whether it is spent.
#[derive(Clone, Debug, PartialEq, Eq)]
pub struct FetchedOutput {
    pub output: HashOutput,
    pub spent: bool,
}

/// The outputs among those that were found that are unspent, in their order.
pub open spec fn unspent_of(fetched: Seq<Option<FetchedOutput>>) -> Seq<HashOutput> {
    fetched.filter_map(
        |found: Option<FetchedOutput>|
            match found {
                Some(fetched) => if fetched.spent {
                    None
                } else {
                    Some(fetched.output)
                },
                None => None,
            },
    )
}

/// The outputs that were found, spent or not, in their order.
pub open spec fn found_of(fetched: Seq<Option<FetchedOutput>>) -> Seq<HashOutput> {
    fetched.filter_map(
        |found: Option<FetchedOutput>|
            match found {
                Some(fetched) => Some(fetched.output),
                None => None,
            },
    )
}

/// Keeps the outputs that were found and are unspent.
pub fn matching_utxos(fetched: &Vec<Option<FetchedOutput>>) -> (outputs: Vec<HashOutput>)
    ensures
        hash_views(outputs@) == hash_views(unspent_of(fetched@)),
{
    let mut outputs: Vec<HashOutput> = Vec::new();
    let mut i: usize = 0;
    assert(hash_views(outputs@) =~= hash_views(unspent_of(fetched@.take(0))));
    while i < fetched.len()
        invariant
            i <= fetched.len(),
            hash_views(outputs@) == hash_views(unspent_of(fetched@.take(i as int))),
        decreases fetched.len() - i,
    {
        let ghost before = unspent_of(fetched@.take(i as int));
        proof {
            assert(fetched@.take(i + 1).drop_last() =~= fetched@.take(i as int));
            assert(fetched@.take(i + 1).last() == fetched@[i as int]);
        }
        match &fetched[i] {
            Some(found) => {
                if !found.spent {
                    let ghost kept = hash_views(outputs@);
                    outputs.push(found.output.clone());
                    assert(hash_views(outputs@) =~= kept.push(found.output@));
                    assert(hash_views(before + seq![found.output]) =~= hash_views(before).push(
                        found.output@,
                    ));
                }
            },
            None => {},
        }
        i += 1;
    }
    assert(fetched@.take(i as int) =~= fetched@);
    outputs
}

/// Keeps the outputs that were found.
pub fn matching_txos(fetched: &Vec<Option<FetchedOutput>>) -> (outputs: Vec<HashOutput>)
    ensures
        hash_views(outputs@) == hash_views(found_of(fetched@)),
{
    let mut outputs: Vec<HashOutput> = Vec::new();
    let mut i: usize = 0;
    assert(hash_views(outputs@) =~= hash_views(found_of(fetched@.take(0))));
    while i < fetched.len()
        invariant
            i <= fetched.len(),
            hash_views(outputs@) == hash_views(found_of(fetched@.take(i as int))),
        decreases fetched.len() - i,
    {
        let ghost before = found_of(fetched@.take(i as int));
        proof {
            assert(fetched@.take(i + 1).drop_last() =~= fetched@.take(i as int));
            assert(fetched@.take(i + 1).last() == fetched@[i as int]);
        }
        match &fetched[i] {
            Some(found) => {
                let ghost kept = hash_views(outputs@);
                outputs.push(found.output.clone());
                assert(hash_views(outputs@) =~= kept.push(found.output@));
                assert(hash_views(before + seq![found.output]) =~= hash_views(before).push(
                    found.output@,
                ));
            },
            None => {},
        }
        i += 1;
    }
    assert(fetched@.take(i as int) =~= fetched@);
    outputs
}

/// An answer of the node to a request.
#[derive(Clone, Debug, PartialEq, Eq)]
pub enum NodeCommsResponse {
    ChainMetadata(ChainMetadata),
    BlockHeaders(Vec<BlockHeader>),
    BlockHeader(Option<BlockHeader>),
    FetchHeadersAfterResponse(Vec<BlockHeader>),
    TransactionOutputs(Vec<HashOutput>),
    HistoricalBlocks(Vec<Block>),
    HistoricalBlock(Option<Block>),
    NewBlock { success: bool, error: Option<String>, block: Option<Block> },
}

impl NodeCommsResponse {
    /// The chain metadata, if that is what the answer carries.
    pub fn into_chain_metadata(self) -> (metadata: Result<ChainMetadata, CommsInterfaceError>)
        ensures
            metadata == match self {
                NodeCommsResponse::ChainMetadata(metadata) => Ok::<
                    ChainMetadata,
                    CommsInterfaceError,
                >(metadata),
                _ => Err::<ChainMetadata, CommsInterfaceError>(
                    CommsInterfaceError::UnexpectedApiResponse,
                ),
            },
    {
        match self {
            NodeCommsResponse::ChainMetadata(metadata) => Ok(metadata),
            _ => Err(CommsInterfaceError::UnexpectedApiResponse),
        }
    }

    /// The headers, if that is what the answer carries.
    pub fn into_headers(self) -> (headers: Result<Vec<BlockHeader>, CommsInterfaceError>)
        ensures
            headers == match self {
                NodeCommsResponse::BlockHeaders(headers) => Ok::<
                    Vec<BlockHeader>,
                    CommsInterfaceError,
                >(headers),
                _ => Err::<Vec<BlockHeader>, CommsInterfaceError>(
                    CommsInterfaceError::UnexpectedApiResponse,
                ),
            },
    {
        match self {
            NodeCommsResponse::BlockHeaders(headers) => Ok(headers),
            _ => Err(CommsInterfaceError::UnexpectedApiResponse),
        }
    }

    /// The header that was looked up by its hash, if that is what the
    /// answer carries.
    pub fn into_header(self) -> (header: Result<Option<BlockHeader>, CommsInterfaceError>)
        ensures
            header == match self {
                NodeCommsResponse::BlockHeader(header) => Ok::<
                    Option<BlockHeader>,
                    CommsInterfaceError,
                >(header),
                _ => Err::<Option<BlockHeader>, CommsInterfaceError>(
                    CommsInterfaceError::UnexpectedApiResponse,
                ),
            },
    {
        match self {
            NodeCommsResponse::BlockHeader(header) => Ok(header),
            _ => Err(CommsInterfaceError::UnexpectedApiResponse),
        }
    }

    /// The blocks, if that is what the answer carries.
    pub fn into_blocks(self) -> (blocks: Result<Vec<Block>, CommsInterfaceError>)
        ensures
            blocks == match self {
                NodeCommsResponse::HistoricalBlocks(blocks) => Ok::<Vec<Block>, CommsInterfaceError>(
                    blocks,
                ),
                _ => Err::<Vec<Block>, CommsInterfaceError>(
                    CommsInterfaceError::UnexpectedApiResponse,
                ),
            },
    {
        match self {
            NodeCommsResponse::HistoricalBlocks(blocks) => Ok(blocks),
            _ => Err(CommsInterfaceError::UnexpectedApiResponse),
        }
    }

    /// The block that was looked up by its hash, if that is what the answer
    /// carries.
    pub fn into_block(self) -> (block: Result<Option<Block>, CommsInterfaceError>)
        ensures
            block == match self {
                NodeCommsResponse::HistoricalBlock(block) => Ok::<
                    Option<Block>,
                    CommsInterfaceError,
                >(block),
                _ => Err::<Option<Block>, CommsInterfaceError>(
                    CommsInterfaceError::UnexpectedApiResponse,
                ),
            },
    {
        match self {
            NodeCommsResponse::HistoricalBlock(block) => Ok(block),
            _ => Err(CommsInterfaceError::UnexpectedApiResponse),
        }
    }

    /// The outputs, if that is what the answer carries.
    pub fn into_transaction_outputs(self) -> (outputs: Result<Vec<HashOutput>, CommsInterfaceError>)
        ensures
            outputs == match self {
                NodeCommsResponse::TransactionOutputs(outputs) => Ok::<
                    Vec<HashOutput>,
                    CommsInterfaceError,
                >(outputs),
                _ => Err::<Vec<HashOutput>, CommsInterfaceError>(
                    CommsInterfaceError::UnexpectedApiResponse,
                ),
            },
    {
        match self {
            NodeCommsResponse::TransactionOutputs(outputs) => Ok(outputs),
            _ => Err(CommsInterfaceError::UnexpectedApiResponse),
        }
    }

    /// The block that was built from a template. The node says whether it
    /// succeeded: a success without a block is unexpected, and a failure
    /// comes with the node's words, or with `Unspecified error` where the
    /// node gave none.
    pub fn into_new_block(self) -> (block: Result<Block, CommsInterfaceError>)
        ensures
            match self {
                NodeCommsResponse::NewBlock { success, error, block: built } => if success {
                    match built {
                        Some(built) => block == Ok::<Block, CommsInterfaceError>(built),
                        None => block == Err::<Block, CommsInterfaceError>(
                            CommsInterfaceError::UnexpectedApiResponse,
                        ),
                    }
                } else {
                    block matches Err(CommsInterfaceError::ApiError(message)) && message@
                        == match error {
                        Some(text) => text@,
                        None => "Unspecified error"@,
                    }
                },
                _ => block == Err::<Block, CommsInterfaceError>(
                    CommsInterfaceError::UnexpectedApiResponse,
                ),
            },
    {
        match self {
            NodeCommsResponse::NewBlock { success, error, block } => {
                if success {
                    match block {
                        Some(block) => Ok(block),
                        None => Err(CommsInterfaceError::UnexpectedApiResponse),
                    }
                } else {
                    let message = match error {
                        Some(text) => text,
                        None => "Unspecified error".to_owned(),
                    };
                    Err(CommsInterfaceError::ApiError(message))
                }
            },
            _ => Err(CommsInterfaceError::UnexpectedApiResponse),
        }
    }
}

} // verus!
