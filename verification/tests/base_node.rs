use tari_node_stack::base_node::comms_interface::{
    announced_block_received, asking_weight, fetch_headers, fetch_headers_after, handle_block, matching_txos,
    matching_utxos, new_block_announced, Block, BlockAddResult, BlockEvent, BlockHandling, Broadcast, ChainBlock,
    CommsInterfaceError, FetchedOutput, NewBlock, NewBlockStep, NodeCommsResponse, Propagation,
};
use tari_node_stack::base_node::grpc::{
    header_heights, is_last_page, limit_heights, location_from_chain, location_from_mempool, network_difficulties,
    submit_transaction_result, take_page, CalcType, DifficultySample, NetworkDifficulty, Sorting,
    SubmitTransactionResult, TransactionLocation, TxStorageResponse,
};
use tari_node_stack::chain_storage::{
    BlockHeader, BlockchainBackend, ChainMetadata, ChainStorageError, MemoryBackend, PowAlgorithm,
};
use tari_node_stack::comms::peer::NodeId;

fn header(height: u64) -> BlockHeader {
    BlockHeader { height, hash: vec![height as u8; 2], timestamp: 1_000 + height * 120, pow_algo: PowAlgorithm::Sha3 }
}

fn block(height: u64) -> Block {
    Block { header: header(height) }
}

/// A chain with the headers 0 to `tip`, without those in `gaps`.
fn chain(tip: u64, gaps: &[u64]) -> MemoryBackend {
    let mut db = MemoryBackend::new();
    db.headers = (0..=tip).filter(|h| !gaps.contains(h)).map(header).collect();
    db.tip_height = tip;
    db
}

fn heights(headers: &[BlockHeader]) -> Vec<u64> {
    headers.iter().map(|h| h.height).collect()
}

#[test]
fn the_asking_weight_is_capped_by_consensus() {
    assert_eq!(asking_weight(0, 19_500), 19_500);
    assert_eq!(asking_weight(1, 19_500), 1);
    assert_eq!(asking_weight(19_500, 19_500), 19_500);
    assert_eq!(asking_weight(19_501, 19_500), 19_500);
    assert_eq!(asking_weight(u64::MAX, 0), 0);
}

#[test]
fn only_blocks_that_changed_the_chain_are_propagated() {
    assert!(BlockAddResult::Added(ChainBlock { block: block(1) }).should_propagate());
    assert!(BlockAddResult::ChainReorg { added: vec![], removed: vec![] }.should_propagate());
    assert!(!BlockAddResult::BlockExists.should_propagate());
    assert!(!BlockAddResult::OrphanBlock.should_propagate());
}

#[test]
fn a_new_block_is_published_and_propagated_to_all_but_its_source() {
    let source = NodeId::from_value(7);
    let added = BlockAddResult::Added(ChainBlock { block: block(5) });
    let handling = handle_block(block(5), Broadcast::from(true), Some(source), Ok(added.clone()), Ok(()));
    assert_eq!(
        handling,
        BlockHandling {
            event: Some(BlockEvent::ValidBlockAdded(block(5), added.clone(), Broadcast::from(true))),
            propagate: Some(Propagation { new_block: NewBlock::new(vec![5, 5]), exclude_peers: vec![source] }),
            result: Ok(vec![5, 5]),
        }
    );
    let handling = handle_block(block(5), Broadcast::from(true), None, Ok(added), Ok(()));
    assert_eq!(handling.propagate, Some(Propagation { new_block: NewBlock::new(vec![5, 5]), exclude_peers: vec![] }));
}

#[test]
fn a_block_is_not_propagated_without_broadcast_or_without_change() {
    let added = BlockAddResult::Added(ChainBlock { block: block(5) });
    let handling = handle_block(block(5), Broadcast::from(false), None, Ok(added.clone()), Ok(()));
    assert_eq!(handling.propagate, None);
    assert_eq!(handling.event, Some(BlockEvent::ValidBlockAdded(block(5), added, Broadcast::from(false))));
    assert_eq!(handling.result, Ok(vec![5, 5]));
    for result in [BlockAddResult::BlockExists, BlockAddResult::OrphanBlock] {
        let handling = handle_block(block(5), Broadcast::from(true), None, Ok(result.clone()), Ok(()));
        assert_eq!(handling.propagate, None);
        assert_eq!(handling.event, Some(BlockEvent::ValidBlockAdded(block(5), result, Broadcast::from(true))));
        assert_eq!(handling.result, Ok(vec![5, 5]));
    }
}

#[test]
fn a_block_that_the_chain_refuses_makes_a_failure_event() {
    let handling =
        handle_block(block(5), Broadcast::from(true), None, Err(ChainStorageError::CorruptedDatabase), Ok(()));
    assert_eq!(
        handling,
        BlockHandling {
            event: Some(BlockEvent::AddBlockFailed(block(5), Broadcast::from(true))),
            propagate: None,
            result: Err(CommsInterfaceError::ChainStorageError(ChainStorageError::CorruptedDatabase)),
        }
    );
}

#[test]
fn a_failed_cleanup_of_orphans_is_an_error_without_an_event() {
    let added = BlockAddResult::Added(ChainBlock { block: block(5) });
    let handling =
        handle_block(block(5), Broadcast::from(true), None, Ok(added), Err(ChainStorageError::AccessError));
    assert_eq!(
        handling,
        BlockHandling {
            event: None,
            propagate: None,
            result: Err(CommsInterfaceError::ChainStorageError(ChainStorageError::AccessError)),
        }
    );
}

#[test]
fn block_events_have_their_names() {
    assert_eq!(BlockEvent::AddBlockFailed(block(1), Broadcast::from(true)).to_string(), "AddBlockFailed");
    assert_eq!(
        BlockEvent::ValidBlockAdded(block(1), BlockAddResult::BlockExists, Broadcast::from(true)).to_string(),
        "ValidBlockAdded"
    );
    assert_eq!(BlockEvent::BlockSyncComplete(ChainBlock { block: block(1) }).to_string(), "BlockSyncComplete");
    assert_eq!(BlockEvent::BlockSyncRewind(vec![]).to_string(), "BlockSyncRewind");
}

#[test]
fn an_announced_block_is_asked_for_unless_it_is_stored() {
    let source = NodeId::from_value(3);
    assert_eq!(new_block_announced(NewBlock::new(vec![1]), source, true), NewBlockStep::AlreadyStored);
    assert_eq!(
        new_block_announced(NewBlock::new(vec![1]), source, false),
        NewBlockStep::RequestBlock { block_hash: vec![1], from: source }
    );
    assert_eq!(announced_block_received(vec![block(1), block(2)], source), Ok(block(2)));
    assert_eq!(announced_block_received(vec![], source), Err(CommsInterfaceError::InvalidPeerResponse(source)));
}

#[test]
fn headers_are_fetched_in_the_order_asked_for() {
    let db = chain(10, &[4]);
    assert_eq!(fetch_headers(&db, &vec![3, 1, 3]), Ok(vec![header(3), header(1), header(3)]));
    assert_eq!(fetch_headers(&db, &vec![]), Ok(vec![]));
    assert_eq!(fetch_headers(&db, &vec![1, 4, 11]), Err(CommsInterfaceError::BlockHeaderNotFound(4)));
    assert_eq!(fetch_headers(&db, &vec![11, 4]), Err(CommsInterfaceError::BlockHeaderNotFound(11)));
    let mut broken = chain(10, &[]);
    broken.failure = Some(ChainStorageError::AccessError);
    assert_eq!(
        fetch_headers(&broken, &vec![1]),
        Err(CommsInterfaceError::ChainStorageError(ChainStorageError::AccessError))
    );
    assert_eq!(db.fetch_header(4), Ok(None));
    assert_eq!(db.fetch_header_by_block_hash(&vec![3, 3]), Ok(Some(header(3))));
    assert_eq!(db.fetch_header_by_block_hash(&vec![3]), Ok(None));
}

#[test]
fn headers_after_start_from_the_first_known_hash() {
    let db = chain(10, &[]);
    let result = fetch_headers_after(&db, &vec![vec![99, 99], vec![6, 6], vec![2, 2]], &vec![0xff]).unwrap();
    assert_eq!(heights(&result), vec![7, 8, 9, 10]);
    assert_eq!(result[0], header(7));
}

#[test]
fn headers_after_start_from_genesis_where_no_hash_is_known() {
    let db = chain(5, &[]);
    let result = fetch_headers_after(&db, &vec![vec![99, 99]], &vec![0xff]).unwrap();
    assert_eq!(heights(&result), vec![1, 2, 3, 4, 5]);
    let result = fetch_headers_after(&db, &vec![], &vec![0xff]).unwrap();
    assert_eq!(heights(&result), vec![1, 2, 3, 4, 5]);
    let empty = MemoryBackend::new();
    assert_eq!(fetch_headers_after(&empty, &vec![], &vec![0xff]), Err(CommsInterfaceError::BlockHeaderNotFound(0)));
}

#[test]
fn headers_after_stop_at_the_stopping_hash_and_after_ninety_nine() {
    let db = chain(300, &[]);
    let result = fetch_headers_after(&db, &vec![vec![10, 10]], &vec![13, 13]).unwrap();
    assert_eq!(heights(&result), vec![11, 12, 13]);
    let result = fetch_headers_after(&db, &vec![vec![10, 10]], &vec![0xff]).unwrap();
    assert_eq!(result.len(), 99);
    assert_eq!(result[0].height, 11);
    assert_eq!(result[98].height, 109);
    // a stopping hash that lies before the start stops nothing
    let result = fetch_headers_after(&db, &vec![vec![10, 10]], &vec![9, 9]).unwrap();
    assert_eq!(result.len(), 99);
}

#[test]
fn headers_after_skip_gaps_and_stop_at_the_largest_height() {
    let db = chain(10, &[7, 8]);
    let result = fetch_headers_after(&db, &vec![vec![5, 5]], &vec![0xff]).unwrap();
    assert_eq!(heights(&result), vec![6, 9, 10]);
    let mut high = MemoryBackend::new();
    high.headers = vec![
        BlockHeader { height: u64::MAX - 1, hash: vec![1], timestamp: 0, pow_algo: PowAlgorithm::Monero },
        BlockHeader { height: u64::MAX, hash: vec![2], timestamp: 0, pow_algo: PowAlgorithm::Monero },
    ];
    let result = fetch_headers_after(&high, &vec![vec![1]], &vec![0xff]).unwrap();
    assert_eq!(heights(&result), vec![u64::MAX]);
}

#[test]
fn headers_after_fail_where_the_chain_cannot_be_read() {
    let mut broken = chain(10, &[]);
    broken.failure = Some(ChainStorageError::AccessError);
    let error = Err(CommsInterfaceError::ChainStorageError(ChainStorageError::AccessError));
    assert_eq!(fetch_headers_after(&broken, &vec![vec![1, 1]], &vec![0xff]), error);
    assert_eq!(fetch_headers_after(&broken, &vec![], &vec![0xff]), error);
}

#[test]
fn matching_outputs_are_filtered() {
    let fetched = vec![
        Some(FetchedOutput { output: vec![1], spent: false }),
        None,
        Some(FetchedOutput { output: vec![2], spent: true }),
        Some(FetchedOutput { output: vec![3], spent: false }),
    ];
    assert_eq!(matching_utxos(&fetched), vec![vec![1], vec![3]]);
    assert_eq!(matching_txos(&fetched), vec![vec![1], vec![2], vec![3]]);
    assert_eq!(matching_utxos(&vec![]), Vec::<Vec<u8>>::new());
    assert_eq!(matching_txos(&vec![None]), Vec::<Vec<u8>>::new());
}

#[test]
fn answers_of_another_kind_are_unexpected() {
    let metadata = ChainMetadata { height_of_longest_chain: 5 };
    assert_eq!(NodeCommsResponse::ChainMetadata(metadata).into_chain_metadata(), Ok(metadata));
    assert_eq!(
        NodeCommsResponse::BlockHeaders(vec![]).into_chain_metadata(),
        Err(CommsInterfaceError::UnexpectedApiResponse)
    );
    assert_eq!(NodeCommsResponse::BlockHeaders(vec![header(1)]).into_headers(), Ok(vec![header(1)]));
    assert_eq!(
        NodeCommsResponse::FetchHeadersAfterResponse(vec![header(1)]).into_headers(),
        Err(CommsInterfaceError::UnexpectedApiResponse)
    );
    assert_eq!(NodeCommsResponse::BlockHeader(Some(header(1))).into_header(), Ok(Some(header(1))));
    assert_eq!(NodeCommsResponse::BlockHeader(None).into_header(), Ok(None));
    assert_eq!(
        NodeCommsResponse::HistoricalBlock(None).into_header(),
        Err(CommsInterfaceError::UnexpectedApiResponse)
    );
    assert_eq!(NodeCommsResponse::HistoricalBlocks(vec![block(1)]).into_blocks(), Ok(vec![block(1)]));
    assert_eq!(
        NodeCommsResponse::HistoricalBlock(Some(block(1))).into_blocks(),
        Err(CommsInterfaceError::UnexpectedApiResponse)
    );
    assert_eq!(NodeCommsResponse::HistoricalBlock(Some(block(1))).into_block(), Ok(Some(block(1))));
    assert_eq!(
        NodeCommsResponse::HistoricalBlocks(vec![]).into_block(),
        Err(CommsInterfaceError::UnexpectedApiResponse)
    );
    assert_eq!(
        NodeCommsResponse::TransactionOutputs(vec![vec![1]]).into_transaction_outputs(),
        Ok(vec![vec![1]])
    );
    assert_eq!(
        NodeCommsResponse::HistoricalBlocks(vec![]).into_transaction_outputs(),
        Err(CommsInterfaceError::UnexpectedApiResponse)
    );
}

#[test]
fn a_new_block_answer_is_read_by_its_success_flag() {
    let ok = NodeCommsResponse::NewBlock { success: true, error: None, block: Some(block(1)) };
    assert_eq!(ok.into_new_block(), Ok(block(1)));
    let empty = NodeCommsResponse::NewBlock { success: true, error: Some("ignored".to_string()), block: None };
    assert_eq!(empty.into_new_block(), Err(CommsInterfaceError::UnexpectedApiResponse));
    let failed = NodeCommsResponse::NewBlock { success: false, error: Some("no".to_string()), block: Some(block(1)) };
    assert_eq!(failed.into_new_block(), Err(CommsInterfaceError::ApiError("no".to_string())));
    let silent = NodeCommsResponse::NewBlock { success: false, error: None, block: None };
    assert_eq!(silent.into_new_block(), Err(CommsInterfaceError::ApiError("Unspecified error".to_string())));
    assert_eq!(
        NodeCommsResponse::BlockHeaders(vec![]).into_new_block(),
        Err(CommsInterfaceError::UnexpectedApiResponse)
    );
}

#[test]
fn header_heights_descend_from_the_named_height_or_the_tip() {
    assert_eq!(header_heights(20, 3, Sorting::Desc, 100), vec![20, 19, 18]);
    assert_eq!(header_heights(0, 3, Sorting::Desc, 100), vec![100, 99, 98]);
    assert_eq!(header_heights(2, 5, Sorting::Desc, 100), vec![2, 1, 0]);
    assert_eq!(header_heights(0, 5, Sorting::Desc, 0), vec![0]);
    assert_eq!(header_heights(0, 0, Sorting::Desc, 12), vec![12, 11, 10, 9, 8, 7, 6, 5, 4, 3]);
    assert_eq!(header_heights(u64::MAX, 2, Sorting::Desc, 5), vec![u64::MAX, u64::MAX - 1]);
}

#[test]
fn header_heights_ascend_from_the_named_height() {
    assert_eq!(header_heights(20, 3, Sorting::Asc, 100), vec![20, 21, 22]);
    assert_eq!(header_heights(0, 3, Sorting::Asc, 100), vec![0, 1, 2]);
    assert_eq!(header_heights(0, 0, Sorting::Asc, 100), vec![0, 1, 2, 3, 4, 5, 6, 7, 8, 9]);
    assert_eq!(header_heights(u64::MAX - 1, 5, Sorting::Asc, 100), vec![u64::MAX - 1, u64::MAX]);
}

#[test]
fn at_most_ten_thousand_headers_are_listed() {
    let heights = header_heights(50_000, 1_000_000, Sorting::Desc, 100);
    assert_eq!(heights.len(), 10_000);
    assert_eq!(heights[0], 50_000);
    assert_eq!(heights[9_999], 40_001);
    let heights = header_heights(5, u64::MAX, Sorting::Asc, 100);
    assert_eq!(heights.len(), 10_000);
    assert_eq!(heights[9_999], 10_004);
}

#[test]
fn pages_are_taken_off_the_front() {
    let mut heights = vec![1, 2, 3, 4, 5];
    assert_eq!(take_page(&mut heights, 2), vec![1, 2]);
    assert_eq!(heights, vec![3, 4, 5]);
    assert_eq!(take_page(&mut heights, 5), vec![3, 4, 5]);
    assert!(heights.is_empty());
    assert_eq!(take_page(&mut heights, 5), Vec::<u64>::new());
    let mut heights = vec![1, 2];
    assert_eq!(take_page(&mut heights, 0), Vec::<u64>::new());
    assert_eq!(heights, vec![1, 2]);
    assert_eq!(limit_heights(vec![1, 2, 3], 2), vec![1, 2]);
    assert_eq!(limit_heights(vec![1, 2, 3], 3), vec![1, 2, 3]);
    assert_eq!(limit_heights(vec![1, 2, 3], 9), vec![1, 2, 3]);
    assert!(is_last_page(9, 10));
    assert!(!is_last_page(10, 10));
}

#[test]
fn the_hash_rate_is_estimated_from_the_time_to_the_next_block() {
    let sample = |height: u64, timestamp: u64, difficulty: u64| DifficultySample {
        difficulty,
        height,
        timestamp,
        pow_algo: if height % 2 == 0 { PowAlgorithm::Monero } else { PowAlgorithm::Sha3 },
    };
    let samples = vec![sample(1, 1_000, 6_000), sample(2, 1_120, 7_000), sample(3, 1_120, 8_000), sample(4, 1_100, 9)];
    let expected = |difficulty: u64, estimated_hash_rate: u64, height: u64, timestamp: u64, pow_algo: u64| {
        NetworkDifficulty { difficulty, estimated_hash_rate, height, timestamp, pow_algo }
    };
    assert_eq!(
        network_difficulties(&samples),
        vec![
            expected(9, 0, 4, 1_100, 0),
            expected(8_000, 0, 3, 1_120, 1),
            expected(7_000, 0, 2, 1_120, 0),
            expected(6_000, 50, 1, 1_000, 1),
        ]
    );
    assert_eq!(network_difficulties(&vec![]), vec![]);
    assert_eq!(network_difficulties(&vec![sample(1, 5, 100)]), vec![expected(100, 0, 1, 5, 1)]);
}

#[test]
fn mempool_answers_are_worded_for_the_client() {
    assert_eq!(submit_transaction_result(TxStorageResponse::UnconfirmedPool), SubmitTransactionResult::Accepted);
    assert_eq!(submit_transaction_result(TxStorageResponse::ReorgPool), SubmitTransactionResult::AlreadyMined);
    assert_eq!(
        submit_transaction_result(TxStorageResponse::NotStoredAlreadySpent),
        SubmitTransactionResult::AlreadyMined
    );
    assert_eq!(submit_transaction_result(TxStorageResponse::NotStored), SubmitTransactionResult::Rejected);
    assert_eq!(submit_transaction_result(TxStorageResponse::NotStoredOrphan), SubmitTransactionResult::Rejected);
    assert_eq!(submit_transaction_result(TxStorageResponse::NotStoredTimeLocked), SubmitTransactionResult::Rejected);
    assert_eq!(location_from_chain(1), Some(TransactionLocation::Mined));
    assert_eq!(location_from_chain(0), None);
    assert_eq!(location_from_mempool(TxStorageResponse::UnconfirmedPool), TransactionLocation::Mempool);
    assert_eq!(location_from_mempool(TxStorageResponse::ReorgPool), TransactionLocation::Unknown);
    assert_eq!(location_from_mempool(TxStorageResponse::NotStoredAlreadySpent), TransactionLocation::Unknown);
    assert_eq!(location_from_mempool(TxStorageResponse::NotStored), TransactionLocation::NotStored);
    assert_eq!(location_from_mempool(TxStorageResponse::NotStoredOrphan), TransactionLocation::NotStored);
    assert_eq!(location_from_mempool(TxStorageResponse::NotStoredTimeLocked), TransactionLocation::NotStored);
    assert!(CalcType::Mean.is_implemented());
    assert!(CalcType::Median.is_implemented());
    assert!(!CalcType::Quantile.is_implemented());
    assert!(!CalcType::Quartile.is_implemented());
    assert_eq!(PowAlgorithm::Monero.as_u64(), 0);
    assert_eq!(PowAlgorithm::Sha3.as_u64(), 1);
}

#[test]
fn headers_are_fetched_by_their_hashes() {
    let db = chain(10, &[4]);
    assert_eq!(
        tari_node_stack::base_node::comms_interface::fetch_headers_with_hashes(&db, &vec![vec![3, 3], vec![1, 1]]),
        Ok(vec![header(3), header(1)])
    );
    assert_eq!(
        tari_node_stack::base_node::comms_interface::fetch_headers_with_hashes(&db, &vec![vec![3, 3], vec![4, 4], vec![77]]),
        Err(CommsInterfaceError::HeaderHashNotFound(vec![4, 4]))
    );
    let mut broken = chain(10, &[]);
    broken.failure = Some(ChainStorageError::ValueNotFound);
    assert_eq!(
        tari_node_stack::base_node::comms_interface::fetch_headers_with_hashes(&broken, &vec![vec![3, 3]]),
        Err(CommsInterfaceError::ChainStorageError(ChainStorageError::ValueNotFound))
    );
}
