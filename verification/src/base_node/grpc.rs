//! What the base node's GRPC server decides before and after it asks the
//! node: which heights a request means, how they are paged, and how the
//! node's answers are worded for the client.

use crate::chain_storage::PowAlgorithm;
use vstd::prelude::*;

verus! {

/// The most headers that a client can ask for at a time.
pub const LIST_HEADERS_MAX_NUM_HEADERS: u64 = 10_000;

/// The number of headers that are asked of the node at a time.
pub const LIST_HEADERS_PAGE_SIZE: usize = 10;

/// The number of headers that a request means that names none.
pub const LIST_HEADERS_DEFAULT_NUM_HEADERS: u64 = 10;

/// The most heights of which the difficulty can be asked at a time.
pub const GET_DIFFICULTY_MAX_HEIGHTS: usize = 10_000;

/// The number of difficulties that are asked of the node at a time.
pub const GET_DIFFICULTY_PAGE_SIZE: usize = 1_000;

/// The most heights of which the supply can be asked at a time.
pub const GET_TOKENS_IN_CIRCULATION_MAX_HEIGHTS: usize = 1_000_000;

/// The number of supplies that are worked out at a time.
pub const GET_TOKENS_IN_CIRCULATION_PAGE_SIZE: usize = 1_000;

/// The order in which a client wants its headers.
#[derive(Clone, Copy, Debug, PartialEq, Eq, Structural)]
pub enum Sorting {
    Desc,
    Asc,
}

/// The number of headers that a request means: ten where it names none,
/// and never more than ten thousand.
pub open spec fn effective_num_headers(num_headers: u64) -> u64 {
    if num_headers == 0 {
        LIST_HEADERS_DEFAULT_NUM_HEADERS
    } else if num_headers > LIST_HEADERS_MAX_NUM_HEADERS {
        LIST_HEADERS_MAX_NUM_HEADERS
    } else {
        num_headers
    }
}

/// The height that a descending list starts from: the one that the request
/// names, or the tip where it names none.
pub open spec fn descending_start(from_height: u64, tip: u64) -> u64 {
    if from_height != 0 {
        from_height
    } else {
        tip
    }
}

/// The heights that a request for headers means.
///
/// Descending, they run down from the height that the request names, or from
/// the tip where it names none, and stop after the number of headers asked
/// for or at the genesis block. Ascending, they run up from the height that
/// the request names and stop after the number of headers asked for, or at
/// the largest height there is.
pub open spec fn header_heights_spec(
    from_height: u64,
    num_headers: u64,
    sorting: Sorting,
    tip: u64,
) -> Seq<u64> {
    let count = effective_num_headers(num_headers) as int;
    match sorting {
        Sorting::Desc => {
            let start = descending_start(from_height, tip) as int;
            let length = if count > start + 1 {
                start + 1
            } else {
                count
            };
            Seq::new(length as nat, |i: int| (start - i) as u64)
        },
        Sorting::Asc => {
            let length = if from_height + count > u64::MAX + 1 {
                u64::MAX + 1 - from_height
            } else {
                count
            };
            Seq::new(length as nat, |i: int| (from_height + i) as u64)
        },
    }
}

pub fn header_heights(from_height: u64, num_headers: u64, sorting: Sorting, tip: u64) -> (heights:
    Vec<u64>)
    ensures
        heights@ == header_heights_spec(from_height, num_headers, sorting, tip),
        heights@.len() <= LIST_HEADERS_MAX_NUM_HEADERS,
{
    let num_headers = if num_headers == 0 {
        LIST_HEADERS_DEFAULT_NUM_HEADERS
    } else if num_headers > LIST_HEADERS_MAX_NUM_HEADERS {
        LIST_HEADERS_MAX_NUM_HEADERS
    } else {
        num_headers
    };
    let mut heights: Vec<u64> = Vec::new();
    match sorting {
        Sorting::Desc => {
            let start = if from_height != 0 {
                from_height
            } else {
                tip
            };
            let mut taken: u64 = 0;
            while taken < num_headers && taken <= start
                invariant
                    taken <= num_headers <= LIST_HEADERS_MAX_NUM_HEADERS,
                    taken <= start + 1,
                    heights@.len() == taken,
                    forall|i: int| 0 <= i < taken ==> heights@[i] == start - i,
                decreases num_headers - taken,
            {
                heights.push(start - taken);
                taken += 1;
            }
            assert(heights@ =~= header_heights_spec(from_height, num_headers, sorting, tip));
        },
        Sorting::Asc => {
            let mut taken: u64 = 0;
            while taken < num_headers && taken <= u64::MAX - from_height
                invariant
                    taken <= num_headers <= LIST_HEADERS_MAX_NUM_HEADERS,
                    taken <= u64::MAX - from_height + 1,
                    heights@.len() == taken,
                    forall|i: int| 0 <= i < taken ==> heights@[i] == from_height + i,
                decreases num_headers - taken,
            {
                heights.push(from_height + taken);
                taken += 1;
            }
            assert(heights@ =~= header_heights_spec(from_height, num_headers, sorting, tip));
        },
    }
    heights
}

/// How many items the next page holds.
pub open spec fn page_len(available: nat, page_size: usize) -> nat {
    if available < page_size {
        available
    } else {
        page_size as nat
    }
}

/// Takes the next page off the front of the list: the first `page_size`
/// items, or all of them where there are fewer.
pub fn take_page(items: &mut Vec<u64>, page_size: usize) -> (page: Vec<u64>)
    ensures
        page@ == old(items)@.take(page_len(old(items)@.len(), page_size) as int),
        final(items)@ == old(items)@.skip(page_len(old(items)@.len(), page_size) as int),
{
    let n = if items.len() < page_size {
        items.len()
    } else {
        page_size
    };
    let mut page: Vec<u64> = Vec::new();
    let mut rest: Vec<u64> = Vec::new();
    let mut i: usize = 0;
    while i < items.len()
        invariant
            i <= items.len(),
            n <= items.len(),
            *items == *old(items),
            page@ == items@.take(if i < n {
                i as int
            } else {
                n as int
            }),
            rest@ == items@.subrange(n as int, if i < n {
                n as int
            } else {
                i as int
            }),
        decreases items.len() - i,
    {
        if i < n {
            page.push(items[i]);
            assert(page@ =~= items@.take(i + 1));
        } else {
            rest.push(items[i]);
            assert(rest@ =~= items@.subrange(n as int, i + 1));
        }
        i += 1;
    }
    assert(rest@ =~= items@.skip(n as int));
    *items = rest;
    page
}

/// Keeps at most `max` items, from the front of the list.
pub fn limit_heights(heights: Vec<u64>, max: usize) -> (kept: Vec<u64>)
    ensures
        kept@ == heights@.take(page_len(heights@.len(), max) as int),
{
    let mut heights = heights;
    take_page(&mut heights, max)
}

/// Whether more pages are to be asked for after a page was answered: an
/// answer that is shorter than a page was the last.
pub fn is_last_page(result_size: usize, page_size: usize) -> (last: bool)
    ensures
        last == (result_size < page_size),
{
    result_size < page_size
}

/// What is known of a block when the hash rate is estimated.
#[derive(Clone, Copy, Debug, PartialEq, Eq, Structural)]
pub struct DifficultySample {
    pub difficulty: u64,
    pub height: u64,
    /// In seconds since the epoch.
    pub timestamp: u64,
    pub pow_algo: PowAlgorithm,
}

/// The difficulty of the network at a block.
#[derive(Clone, Copy, Debug, PartialEq, Eq, Structural)]
pub struct NetworkDifficulty {
    pub difficulty: u64,
    pub estimated_hash_rate: u64,
    pub height: u64,
    pub timestamp: u64,
    pub pow_algo: u64,
}

/// The hash rate at a block, estimated from the time to the next block:
/// the difficulty divided by the seconds between them. It is zero where the
/// next block is not later, and for the last block, which has no next one.
pub open spec fn estimated_hash_rate(samples: Seq<DifficultySample>, i: int) -> u64 {
    if i + 1 < samples.len() && samples[i + 1].timestamp > samples[i].timestamp {
        (samples[i].difficulty as int / (samples[i + 1].timestamp - samples[i].timestamp)) as u64
    } else {
        0
    }
}

/// The difficulty of the network at the sample at `i`.
pub open spec fn network_difficulty_at(samples: Seq<DifficultySample>, i: int) -> NetworkDifficulty {
    NetworkDifficulty {
        difficulty: samples[i].difficulty,
        estimated_hash_rate: estimated_hash_rate(samples, i),
        height: samples[i].height,
        timestamp: samples[i].timestamp,
        pow_algo: samples[i].pow_algo.number(),
    }
}

/// Works out the difficulty of the network at each sample. The samples come
/// in the order of their blocks; the answer goes the other way round, the
/// last block first.
pub fn network_difficulties(samples: &Vec<DifficultySample>) -> (difficulties: Vec<
    NetworkDifficulty,
>)
    ensures
        difficulties@.len() == samples@.len(),
        forall|i: int|
            0 <= i < samples@.len() ==> #[trigger] difficulties@[i] == network_difficulty_at(
                samples@,
                samples@.len() - 1 - i,
            ),
{
    let mut difficulties: Vec<NetworkDifficulty> = Vec::new();
    let n = samples.len();
    let mut k: usize = 0;
    while k < n
        invariant
            k <= n,
            n == samples@.len(),
            difficulties@.len() == k,
            forall|i: int|
                0 <= i < k ==> #[trigger] difficulties@[i] == network_difficulty_at(
                    samples@,
                    n - 1 - i,
                ),
        decreases n - k,
    {
        let i = n - 1 - k;
        let current = samples[i];
        let estimated_hash_rate = if i + 1 < n {
            let peeked_timestamp = samples[i + 1].timestamp;
            // Sometimes blocks can have the same timestamp, lucky miner and some clock drift.
            if peeked_timestamp > current.timestamp {
                current.difficulty / (peeked_timestamp - current.timestamp)
            } else {
                0
            }
        } else {
            0
        };
        difficulties.push(
            NetworkDifficulty {
                difficulty: current.difficulty,
                estimated_hash_rate,
                height: current.height,
                timestamp: current.timestamp,
                pow_algo: current.pow_algo.as_u64(),
            },
        );
        k += 1;
    }
    difficulties
}

/// What the mempool says of a transaction.
#[derive(Clone, Copy, Debug, PartialEq, Eq, Structural)]
pub enum TxStorageResponse {
    UnconfirmedPool,
    ReorgPool,
    NotStoredOrphan,
    NotStoredTimeLocked,
    NotStoredAlreadySpent,
    NotStored,
}

/// What a client is told of the transaction it submitted.
#[derive(Clone, Copy, Debug, PartialEq, Eq, Structural)]
pub enum SubmitTransactionResult {
    Accepted,
    AlreadyMined,
    Rejected,
}

/// Where a transaction is.
#[derive(Clone, Copy, Debug, PartialEq, Eq, Structural)]
pub enum TransactionLocation {
    Unknown,
    Mempool,
    Mined,
    NotStored,
}

/// What a client is told of a submitted transaction: accepted where it
/// waits in the pool, already mined where the pool knows it from a block
/// or knows its inputs as spent, rejected otherwise.
pub open spec fn submit_result_of(response: TxStorageResponse) -> SubmitTransactionResult {
    match response {
        TxStorageResponse::UnconfirmedPool => SubmitTransactionResult::Accepted,
        TxStorageResponse::ReorgPool | TxStorageResponse::NotStoredAlreadySpent => {
            SubmitTransactionResult::AlreadyMined
        },
        TxStorageResponse::NotStored
        | TxStorageResponse::NotStoredOrphan
        | TxStorageResponse::NotStoredTimeLocked => SubmitTransactionResult::Rejected,
    }
}

pub fn submit_transaction_result(response: TxStorageResponse) -> (result: SubmitTransactionResult)
    ensures
        result == submit_result_of(response),
{
    match response {
        TxStorageResponse::UnconfirmedPool => SubmitTransactionResult::Accepted,
        TxStorageResponse::ReorgPool | TxStorageResponse::NotStoredAlreadySpent => {
            SubmitTransactionResult::AlreadyMined
        },
        TxStorageResponse::NotStored
        | TxStorageResponse::NotStoredOrphan
        | TxStorageResponse::NotStoredTimeLocked => SubmitTransactionResult::Rejected,
    }
}

/// Where the mempool places a transaction that the chain does not hold: in
/// the mempool where it waits there, unknown where the mempool takes it for
/// mined although the chain does not, and not stored otherwise.
pub open spec fn mempool_location_of(response: TxStorageResponse) -> TransactionLocation {
    match response {
        TxStorageResponse::UnconfirmedPool => TransactionLocation::Mempool,
        TxStorageResponse::ReorgPool | TxStorageResponse::NotStoredAlreadySpent => {
            TransactionLocation::Unknown
        },
        TxStorageResponse::NotStored
        | TxStorageResponse::NotStoredOrphan
        | TxStorageResponse::NotStoredTimeLocked => TransactionLocation::NotStored,
    }
}

/// Whether the chain settles where a transaction is: it does if it holds a
/// kernel with the transaction's signature, and the transaction is then mined.
pub fn location_from_chain(kernels_found: usize) -> (location: Option<TransactionLocation>)
    ensures
        location == if kernels_found > 0 {
            Some(TransactionLocation::Mined)
        } else {
            None
        },
{
    if kernels_found > 0 {
        Some(TransactionLocation::Mined)
    } else {
        None
    }
}

pub fn location_from_mempool(response: TxStorageResponse) -> (location: TransactionLocation)
    ensures
        location == mempool_location_of(response),
{
    match response {
        TxStorageResponse::UnconfirmedPool => TransactionLocation::Mempool,
        TxStorageResponse::ReorgPool | TxStorageResponse::NotStoredAlreadySpent => {
            TransactionLocation::Unknown
        },
        TxStorageResponse::NotStored
        | TxStorageResponse::NotStoredOrphan
        | TxStorageResponse::NotStoredTimeLocked => TransactionLocation::NotStored,
    }
}

/// How a client wants a group of blocks summed up.
#[derive(Clone, Copy, Debug, PartialEq, Eq, Structural)]
pub enum CalcType {
    Mean,
    Median,
    Quantile,
    Quartile,
}

impl CalcType {
    /// Whether the server can sum up a group of blocks in this way.
    pub fn is_implemented(self) -> (implemented: bool)
        ensures
            implemented == (self is Mean || self is Median),
    {
        match self {
            CalcType::Median => true,
            CalcType::Mean => true,
            CalcType::Quantile => false,
            CalcType::Quartile => false,
        }
    }
}

} // verus!
