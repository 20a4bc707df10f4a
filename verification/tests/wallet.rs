use multiaddr::Multiaddr;
use tari_node_stack::chain_storage::ChainMetadata;
use tari_node_stack::comms::connection_manager::config::Delay;
use tari_node_stack::comms::peer::{Peer, PublicKey};
use tari_node_stack::network::Network;
use tari_node_stack::wallet::app_state::{
    find_tx, insert_by_time, qr_link, sort_newest_first, trim_picture, AppState, AppStateInner, Balance, CompletedTransaction,
    MyIdentity, TransactionFilter, TransactionRefresh, TransactionStatus, UiContact, UiError,
    UiTransactionSendStatus,
};
use tari_node_stack::wallet::base_node_service::{
    BaseNodeServiceError, BaseNodeServiceResponse, BaseNodeState,
};
use tari_node_stack::wallet::base_nodes::{first_address, BaseNodeSelection, LabelledPeer, PeerConfig};
use tari_node_stack::wallet::commands::{
    coin_split_parameters, count_utxos, get_transaction_parameters, rain_amount, rain_delay, CoinSplitParameters,
    CommandError, MicroTari, ParsedArgument, SentTransaction, TransactionEvent, TransactionMonitor,
    TransactionParameters, TransactionStage, UtxoSummary, WalletCommand,
};

fn identity() -> MyIdentity {
    MyIdentity {
        public_key: "aa".to_string(),
        public_address: "/ip4/127.0.0.1/tcp/1".to_string(),
        emoji_id: "🎉".to_string(),
        qr_code: "##".to_string(),
    }
}

fn tx(tx_id: u64, status: TransactionStatus, cancelled: bool, timestamp: i64) -> CompletedTransaction {
    CompletedTransaction { tx_id, status, cancelled, timestamp }
}

fn pending(tx_id: u64, timestamp: i64) -> CompletedTransaction {
    tx(tx_id, TransactionStatus::Pending, false, timestamp)
}

fn completed(tx_id: u64, timestamp: i64) -> CompletedTransaction {
    tx(tx_id, TransactionStatus::Completed, false, timestamp)
}

fn peer(seed: u8, addresses: &[&str]) -> Peer {
    Peer::new(
        PublicKey::from_bytes(vec![seed; 32]),
        addresses.iter().map(|a| a.parse::<Multiaddr>().unwrap()).collect(),
    )
}

fn ids(txs: &[CompletedTransaction]) -> Vec<u64> {
    txs.iter().map(|t| t.tx_id).collect()
}

#[test]
fn transaction_parameters_are_read_from_three_arguments() {
    let args = vec![
        ParsedArgument::Amount(MicroTari(5_000)),
        ParsedArgument::PublicKey(PublicKey::from_bytes(vec![1; 32])),
        ParsedArgument::Text("hello".to_string()),
        ParsedArgument::Int(9),
    ];
    assert_eq!(
        get_transaction_parameters(args),
        Ok(TransactionParameters {
            fee_per_gram: MicroTari(25),
            amount: MicroTari(5_000),
            dest_pubkey: PublicKey::from_bytes(vec![1; 32]),
            message: "hello".to_string(),
        })
    );
    let wrong_first = vec![
        ParsedArgument::Int(5_000),
        ParsedArgument::PublicKey(PublicKey::from_bytes(vec![1; 32])),
        ParsedArgument::Text("hello".to_string()),
    ];
    assert_eq!(get_transaction_parameters(wrong_first), Err(CommandError::Argument));
    let wrong_second = vec![
        ParsedArgument::Amount(MicroTari(1)),
        ParsedArgument::Text("key".to_string()),
        ParsedArgument::Text("hello".to_string()),
    ];
    assert_eq!(get_transaction_parameters(wrong_second), Err(CommandError::Argument));
    let wrong_third = vec![
        ParsedArgument::Amount(MicroTari(1)),
        ParsedArgument::PublicKey(PublicKey::from_bytes(vec![1; 32])),
        ParsedArgument::Negotiated(true),
    ];
    assert_eq!(get_transaction_parameters(wrong_third), Err(CommandError::Argument));
}

#[test]
fn coin_split_parameters_are_read_from_two_arguments() {
    let args = vec![ParsedArgument::Amount(MicroTari(100)), ParsedArgument::Int(7)];
    assert_eq!(
        coin_split_parameters(&args),
        Ok(CoinSplitParameters { amount_per_split: MicroTari(100), num_splits: 7, fee_per_gram: MicroTari(100) })
    );
    let args = vec![ParsedArgument::Int(100), ParsedArgument::Int(7)];
    assert_eq!(coin_split_parameters(&args), Err(CommandError::Argument));
    let args = vec![ParsedArgument::Amount(MicroTari(100)), ParsedArgument::Amount(MicroTari(7))];
    assert_eq!(coin_split_parameters(&args), Err(CommandError::Argument));
}

#[test]
fn the_rain_raises_its_amount_and_keeps_its_pace() {
    assert_eq!(rain_amount(MicroTari(1_000), MicroTari(10), 0), MicroTari(1_000));
    assert_eq!(rain_amount(MicroTari(1_000), MicroTari(10), 7), MicroTari(1_070));
    assert_eq!(rain_delay(500, 200), Some(300));
    assert_eq!(rain_delay(200, 200), None);
    assert_eq!(rain_delay(100, 200), None);
    assert_eq!(rain_delay(200_000, 0), Some(120_000));
    assert_eq!(rain_delay(120_000, 0), Some(120_000));
    assert_eq!(rain_delay(120_001, 0), Some(120_000));
    assert_eq!(rain_delay(i64::MAX, i64::MIN), Some(120_000));
    assert_eq!(rain_delay(-5, -10), Some(5));
    assert_eq!(rain_delay(i64::MIN, i64::MAX), None);
}

#[test]
fn the_monitor_counts_the_events_of_the_stage_it_waits_for() {
    let mut monitor = TransactionMonitor::new(vec![1, 2], TransactionStage::Broadcast);
    assert!(!monitor.on_event(TransactionEvent::TransactionMined(1)));
    assert!(!monitor.on_event(TransactionEvent::TransactionBroadcast(3)));
    assert!(!monitor.on_event(TransactionEvent::Other));
    assert!(!monitor.on_event(TransactionEvent::TransactionBroadcast(2)));
    assert_eq!(monitor.results(), &vec![SentTransaction { id: 2, stage: TransactionStage::Broadcast }]);
    assert!(monitor.on_event(TransactionEvent::TransactionBroadcast(1)));
    assert_eq!(
        monitor.into_results(),
        vec![
            SentTransaction { id: 2, stage: TransactionStage::Broadcast },
            SentTransaction { id: 1, stage: TransactionStage::Broadcast },
        ]
    );
}

#[test]
fn direct_and_stored_sends_count_for_the_same_stage() {
    let mut monitor = TransactionMonitor::new(vec![1, 2], TransactionStage::DirectSendOrSaf);
    assert!(!monitor.on_event(TransactionEvent::TransactionDirectSendResult(1, false)));
    assert!(monitor.on_event(TransactionEvent::TransactionStoreForwardSendResult(2, true)));
    assert_eq!(TransactionEvent::ReceivedTransactionReply(4).stage(), Some((4, TransactionStage::Negotiated)));
    assert_eq!(
        TransactionEvent::TransactionMinedUnconfirmed(4, 2).stage(),
        Some((4, TransactionStage::MinedUnconfirmed))
    );
    assert_eq!(TransactionEvent::TransactionMined(4).stage(), Some((4, TransactionStage::Mined)));
    assert_eq!(TransactionEvent::Other.stage(), None);
}

#[test]
fn the_same_transaction_seen_twice_counts_twice() {
    let mut monitor = TransactionMonitor::new(vec![1, 2], TransactionStage::Mined);
    assert!(!monitor.on_event(TransactionEvent::TransactionMined(1)));
    assert!(monitor.on_event(TransactionEvent::TransactionMined(1)));
}

#[test]
fn utxos_are_counted_and_summed() {
    assert_eq!(
        count_utxos(&vec![5, 2, 9, 2]),
        UtxoSummary { count: 4, sum: MicroTari(18), min: Some(MicroTari(2)), max: Some(MicroTari(9)) }
    );
    assert_eq!(count_utxos(&vec![]), UtxoSummary { count: 0, sum: MicroTari(0), min: None, max: None });
    assert_eq!(
        count_utxos(&vec![u64::MAX]),
        UtxoSummary { count: 1, sum: MicroTari(u64::MAX), min: Some(MicroTari(u64::MAX)), max: Some(MicroTari(u64::MAX)) }
    );
}

#[test]
fn commands_that_send_are_watched() {
    for command in WalletCommand::all() {
        let sends =
            matches!(command, WalletCommand::SendTari | WalletCommand::SendOneSided | WalletCommand::CoinSplit);
        assert_eq!(command.yields_transaction(), sends);
        assert_eq!(command.needs_connectivity(), command == WalletCommand::DiscoverPeer);
    }
}

#[test]
fn the_qr_link_names_network_and_key() {
    assert_eq!(qr_link(Network::Weatherwax, "abcd"), "tari://weatherwax/pubkey/abcd");
    assert_eq!(qr_link(Network::MainNet, ""), "tari://mainnet/pubkey/");
}

#[test]
fn the_filter_has_one_flag() {
    let mut filter = TransactionFilter::none();
    assert!(!filter.contains(TransactionFilter::abandoned_coinbases()));
    assert!(filter.contains(TransactionFilter::none()));
    filter.toggle(TransactionFilter::abandoned_coinbases());
    assert_eq!(filter, TransactionFilter::abandoned_coinbases());
    assert!(filter.contains(TransactionFilter::abandoned_coinbases()));
    filter.toggle(TransactionFilter::none());
    assert!(filter.contains(TransactionFilter::abandoned_coinbases()));
    filter.toggle(TransactionFilter::abandoned_coinbases());
    assert_eq!(filter, TransactionFilter::none());
}

#[test]
fn transactions_are_sorted_newest_first_and_ties_keep_their_order() {
    let txs = vec![completed(1, 10), completed(2, 30), completed(3, 20), completed(4, 30), completed(5, 10)];
    assert_eq!(ids(&sort_newest_first(&txs)), vec![2, 4, 3, 1, 5]);
    assert_eq!(sort_newest_first(&vec![]), vec![]);
    let mut sorted = vec![completed(1, 30), completed(2, 20), completed(3, 20), completed(4, 10)];
    insert_by_time(&mut sorted, completed(9, 20));
    assert_eq!(ids(&sorted), vec![1, 2, 3, 9, 4]);
    insert_by_time(&mut sorted, completed(8, 40));
    assert_eq!(ids(&sorted), vec![8, 1, 2, 3, 9, 4]);
    insert_by_time(&mut sorted, completed(7, i64::MIN));
    assert_eq!(ids(&sorted), vec![8, 1, 2, 3, 9, 4, 7]);
    assert_eq!(find_tx(&sorted, 9), Some(4));
    assert_eq!(find_tx(&sorted, 99), None);
    assert_eq!(find_tx(&vec![completed(1, 1), completed(1, 2)], 1), Some(0));
}

#[test]
fn a_pending_transaction_joins_or_replaces_in_the_pending_list() {
    let mut inner = AppStateInner::new(identity());
    assert_eq!(inner.refresh_single_transaction_state(1, Some(pending(1, 10))), TransactionRefresh::Done);
    assert_eq!(inner.refresh_single_transaction_state(2, Some(pending(2, 30))), TransactionRefresh::Done);
    assert_eq!(inner.refresh_single_transaction_state(3, Some(pending(3, 20))), TransactionRefresh::Done);
    assert_eq!(ids(&inner.data.pending_txs), vec![2, 3, 1]);
    assert!(inner.updated);
    // a pending transaction that is known is replaced where it stands
    assert_eq!(inner.refresh_single_transaction_state(3, Some(pending(3, 99))), TransactionRefresh::Done);
    assert_eq!(inner.data.pending_txs, vec![pending(2, 30), pending(3, 99), pending(1, 10)]);
    assert!(inner.data.completed_txs.is_empty());
}

#[test]
fn a_completed_transaction_moves_to_the_completed_list() {
    let mut inner = AppStateInner::new(identity());
    inner.refresh_full_transaction_state(
        &vec![pending(1, 10), pending(2, 30)],
        &vec![completed(5, 5), completed(6, 50)],
    );
    assert_eq!(ids(&inner.data.pending_txs), vec![2, 1]);
    assert_eq!(ids(&inner.data.completed_txs), vec![6, 5]);
    assert_eq!(
        inner.refresh_single_transaction_state(1, Some(completed(1, 10))),
        TransactionRefresh::RefreshBalance
    );
    assert_eq!(ids(&inner.data.pending_txs), vec![2]);
    assert_eq!(ids(&inner.data.completed_txs), vec![6, 1, 5]);
    // a completed transaction that is known is replaced and the list sorted again
    assert_eq!(
        inner.refresh_single_transaction_state(5, Some(completed(5, 60))),
        TransactionRefresh::RefreshBalance
    );
    assert_eq!(inner.data.completed_txs, vec![completed(5, 60), completed(6, 50), completed(1, 10)]);
    // a cancelled pending transaction is not pending
    assert_eq!(
        inner.refresh_single_transaction_state(2, Some(tx(2, TransactionStatus::Pending, true, 30))),
        TransactionRefresh::RefreshBalance
    );
    assert!(inner.data.pending_txs.is_empty());
    assert_eq!(ids(&inner.data.completed_txs), vec![5, 6, 2, 1]);
}

#[test]
fn a_transaction_that_is_gone_leaves_both_lists() {
    let mut inner = AppStateInner::new(identity());
    inner.refresh_full_transaction_state(
        &vec![pending(1, 10), pending(2, 30)],
        &vec![completed(5, 5), completed(2, 50), completed(7, 70)],
    );
    assert_eq!(inner.refresh_single_transaction_state(2, None), TransactionRefresh::RefreshBalance);
    assert_eq!(ids(&inner.data.pending_txs), vec![1]);
    assert_eq!(ids(&inner.data.completed_txs), vec![7, 5]);
    assert_eq!(inner.refresh_single_transaction_state(99, None), TransactionRefresh::RefreshBalance);
    assert_eq!(ids(&inner.data.pending_txs), vec![1]);
    assert_eq!(ids(&inner.data.completed_txs), vec![7, 5]);
}

#[test]
fn the_cache_is_updated_only_after_a_change() {
    let mut inner = AppStateInner::new(identity());
    let mut state = AppState::new(&inner, 3);
    assert_eq!(state.get_required_confirmations(), 3);
    assert_eq!(state.get_identity(), &identity());
    assert!(inner.get_updated_app_state().is_none());
    inner.refresh_balance(Balance { available_balance: 5, pending_incoming_balance: 1, pending_outgoing_balance: 2 });
    inner.refresh_single_confirmation_state(7, 1);
    inner.refresh_single_confirmation_state(7, 2);
    inner.refresh_single_confirmation_state(8, 1);
    inner.cleanup_single_confirmation_state(8);
    inner.cleanup_single_confirmation_state(9);
    assert_eq!(state.get_balance(), &Balance::zero());
    assert_eq!(state.get_confirmations(&7), None);
    state.update_cache(&mut inner);
    assert!(!inner.updated);
    assert_eq!(
        state.get_balance(),
        &Balance { available_balance: 5, pending_incoming_balance: 1, pending_outgoing_balance: 2 }
    );
    assert_eq!(state.get_confirmations(&7), Some(&2));
    assert_eq!(state.get_confirmations(&8), None);
    inner.data.balance = Balance::zero();
    state.update_cache(&mut inner);
    assert_eq!(state.get_balance().available_balance, 5);
    let snapshot = {
        inner.refresh_balance(Balance::zero());
        inner.get_updated_app_state().unwrap()
    };
    assert_eq!(snapshot.balance, Balance::zero());
    assert_eq!(snapshot.confirmations.get(&7), Some(&2));
    assert!(inner.get_updated_app_state().is_none());
}

#[test]
fn abandoned_coinbases_are_hidden_until_the_filter_is_toggled() {
    let mut inner = AppStateInner::new(identity());
    let abandoned = tx(2, TransactionStatus::Coinbase, true, 20);
    let coinbase = tx(3, TransactionStatus::Coinbase, false, 30);
    let cancelled = tx(4, TransactionStatus::Completed, true, 40);
    inner.refresh_full_transaction_state(&vec![], &vec![completed(1, 10), abandoned, coinbase, cancelled]);
    let mut state = AppState::new(&inner, 3);
    assert_eq!(state.get_completed_txs(), vec![cancelled, coinbase, completed(1, 10)]);
    assert_eq!(state.get_completed_tx(2), Some(completed(1, 10)));
    assert_eq!(state.get_completed_tx(3), None);
    state.toggle_abandoned_coinbase_filter();
    assert_eq!(state.get_completed_txs(), vec![cancelled, coinbase, abandoned, completed(1, 10)]);
    assert_eq!(state.get_completed_tx(2), Some(abandoned));
    assert_eq!(state.get_completed_tx(3), Some(completed(1, 10)));
    assert_eq!(state.get_completed_tx(4), None);
    state.toggle_abandoned_coinbase_filter();
    assert_eq!(state.get_completed_txs().len(), 3);
}

#[test]
fn lists_are_read_by_index_and_by_range() {
    let mut inner = AppStateInner::new(identity());
    let contact = |alias: &str, key: &str| UiContact {
        alias: alias.to_string(),
        public_key: key.to_string(),
        emoji_id: String::new(),
    };
    inner.refresh_contacts_state(vec![contact("alice", "aa"), contact("bob", "bb"), contact("bea", "bb")]);
    inner.refresh_full_transaction_state(&vec![pending(1, 30), pending(2, 20), pending(3, 10)], &vec![]);
    let state = AppState::new(&inner, 1);
    assert_eq!(state.get_contacts().len(), 3);
    assert_eq!(state.get_contact(1), Some(&contact("bob", "bb")));
    assert_eq!(state.get_contact(3), None);
    assert_eq!(state.get_contacts_slice(1, 3), &[contact("bob", "bb"), contact("bea", "bb")][..]);
    assert_eq!(state.get_contacts_slice(0, 0), &[][..]);
    assert_eq!(state.get_contacts_slice(2, 1), &[][..]);
    assert_eq!(state.get_contacts_slice(0, 4), &[][..]);
    assert_eq!(state.get_contacts_slice(3, 3), &[][..]);
    assert_eq!(state.get_pending_txs().len(), 3);
    assert_eq!(state.get_pending_tx(0), Some(&pending(1, 30)));
    assert_eq!(state.get_pending_tx(3), None);
    assert_eq!(state.get_pending_txs_slice(1, 2), &[pending(2, 20)][..]);
    assert_eq!(state.get_pending_txs_slice(0, 3).len(), 3);
    assert_eq!(state.get_pending_txs_slice(2, 4), &[][..]);
    assert_eq!(state.get_alias("aa"), "alice");
    assert_eq!(state.get_alias("bb"), "bob");
    assert_eq!(state.get_alias("cc"), "cc");
    let empty = AppState::new(&AppStateInner::new(identity()), 1);
    assert_eq!(empty.get_contacts_slice(0, 0), &[][..]);
    assert_eq!(empty.get_pending_txs_slice(0, 0), &[][..]);
    assert_eq!(empty.get_alias("aa"), "aa");
}

#[test]
fn send_status_and_identity_can_be_copied() {
    assert_eq!(UiTransactionSendStatus::Error("x".to_string()).clone(), UiTransactionSendStatus::Error("x".to_string()));
    assert_eq!(identity().clone(), identity());
}

#[test]
fn the_base_node_list_starts_with_the_custom_node() {
    let config = PeerConfig {
        base_node_custom: Some(peer(9, &["/ip4/10.0.0.9/tcp/1"])),
        base_node_peers: vec![peer(1, &["/ip4/10.0.0.1/tcp/1"]), peer(2, &[])],
        peer_seeds: vec![peer(3, &["/ip4/10.0.0.3/tcp/1"])],
    };
    let selection = BaseNodeSelection::new(peer(1, &["/ip4/10.0.0.1/tcp/1"]), config);
    let labelled = |label: &str, peer: Peer| LabelledPeer { label: label.to_string(), peer };
    assert_eq!(
        selection.list,
        vec![
            labelled("Custom Base Node", peer(9, &["/ip4/10.0.0.9/tcp/1"])),
            labelled("Service Peer", peer(1, &["/ip4/10.0.0.1/tcp/1"])),
            labelled("Service Peer", peer(2, &[])),
            labelled("Peer Seed", peer(3, &["/ip4/10.0.0.3/tcp/1"])),
        ]
    );
    assert_eq!(selection.selected, peer(1, &["/ip4/10.0.0.1/tcp/1"]));
    assert_eq!(selection.previous, peer(1, &["/ip4/10.0.0.1/tcp/1"]));
    assert_eq!(selection.custom, Some(peer(9, &["/ip4/10.0.0.9/tcp/1"])));
    let plain = BaseNodeSelection::new(
        peer(1, &[]),
        PeerConfig { base_node_custom: None, base_node_peers: vec![], peer_seeds: vec![peer(3, &[])] },
    );
    assert_eq!(plain.list, vec![labelled("Peer Seed", peer(3, &[]))]);
    assert_eq!(plain.custom, None);
}

#[test]
fn the_selection_remembers_the_base_node_before() {
    let config = PeerConfig { base_node_custom: None, base_node_peers: vec![peer(1, &[])], peer_seeds: vec![] };
    let mut selection = BaseNodeSelection::new(peer(1, &[]), config);
    selection.set_base_node_peer(peer(2, &[]));
    assert_eq!(selection.selected, peer(2, &[]));
    assert_eq!(selection.previous, peer(1, &[]));
    assert_eq!(selection.list.len(), 1);
    selection.set_custom_base_node_peer(peer(9, &["/ip4/10.0.0.9/tcp/1"]));
    assert_eq!(selection.selected, peer(9, &["/ip4/10.0.0.9/tcp/1"]));
    assert_eq!(selection.previous, peer(2, &[]));
    assert_eq!(selection.custom, Some(peer(9, &["/ip4/10.0.0.9/tcp/1"])));
    assert_eq!(selection.list.len(), 2);
    assert_eq!(selection.list[0].label, "Custom Base Node");
    assert_eq!(selection.list[0].peer, peer(9, &["/ip4/10.0.0.9/tcp/1"]));
    assert_eq!(selection.list[1].label, "Service Peer");
    selection.clear_custom_base_node_peer();
    assert_eq!(selection.selected, peer(2, &[]));
    assert_eq!(selection.previous, peer(2, &[]));
    assert_eq!(selection.custom, None);
    assert_eq!(selection.list.len(), 1);
    assert_eq!(selection.list[0].label, "Service Peer");
}

#[test]
fn a_base_node_is_reached_under_its_first_address() {
    let two = peer(1, &["/ip4/10.0.0.1/tcp/1", "/ip4/10.0.0.2/tcp/2"]);
    assert_eq!(first_address(&two), Ok("/ip4/10.0.0.1/tcp/1".parse().unwrap()));
    assert_eq!(first_address(&peer(1, &[])), Err(UiError::NoAddressError));
    assert_eq!(two.clone(), two);
}

#[test]
fn answers_of_the_base_node_service_are_read_by_their_kind() {
    let metadata = ChainMetadata { height_of_longest_chain: 9 };
    let unexpected = BaseNodeServiceError::UnexpectedApiResponse;
    assert_eq!(BaseNodeServiceResponse::ChainMetadata(Some(metadata)).into_chain_metadata(), Ok(Some(metadata)));
    assert_eq!(BaseNodeServiceResponse::ChainMetadata(None).into_chain_metadata(), Ok(None));
    assert_eq!(BaseNodeServiceResponse::BaseNodePeerSet.into_chain_metadata(), Err(unexpected));
    assert_eq!(BaseNodeServiceResponse::BaseNodePeerSet.into_peer_set(), Ok(()));
    assert_eq!(BaseNodeServiceResponse::Latency(None).into_peer_set(), Err(unexpected));
    assert_eq!(
        BaseNodeServiceResponse::BaseNodePeer(Some(Box::new(peer(1, &[])))).into_base_node_peer(),
        Ok(Some(peer(1, &[])))
    );
    assert_eq!(BaseNodeServiceResponse::BaseNodePeer(None).into_base_node_peer(), Ok(None));
    assert_eq!(BaseNodeServiceResponse::BaseNodePeerSet.into_base_node_peer(), Err(unexpected));
    assert_eq!(
        BaseNodeServiceResponse::Latency(Some(Delay { millis: 40 })).into_latency(),
        Ok(Some(Delay { millis: 40 }))
    );
    assert_eq!(BaseNodeServiceResponse::ChainMetadata(None).into_latency(), Err(unexpected));
    assert_eq!(
        BaseNodeState::default(),
        BaseNodeState { chain_metadata: None, is_synced: None, latency: None, online: false }
    );
}

#[test]
fn a_picture_loses_its_first_line_and_ends_every_line() {
    assert_eq!(trim_picture("a\nb\r\nc"), "b\nc\n");
    assert_eq!(trim_picture("a\nb\n"), "b\n");
    assert_eq!(trim_picture("only"), "");
    assert_eq!(trim_picture(""), "");
    assert_eq!(trim_picture("\n\n"), "\n");
}

#[test]
fn the_identity_carries_the_picture_of_its_qr_code() {
    let identity = MyIdentity::new(Network::Stibbons, "abcd", "/ip4/1.2.3.4/tcp/5", "🎉").unwrap();
    assert_eq!(identity.public_key, "abcd");
    assert_eq!(identity.public_address, "/ip4/1.2.3.4/tcp/5");
    assert_eq!(identity.emoji_id, "🎉");
    let rendered = qrcode::QrCode::new("tari://stibbons/pubkey/abcd")
        .unwrap()
        .render::<qrcode::render::unicode::Dense1x2>()
        .dark_color(qrcode::render::unicode::Dense1x2::Dark)
        .light_color(qrcode::render::unicode::Dense1x2::Light)
        .build();
    let expected: String = rendered.lines().skip(1).map(|line| format!("{}\n", line)).collect();
    assert_eq!(identity.qr_code, expected);
    assert!(identity.qr_code.lines().count() > 5);
    assert_ne!(identity.qr_code, "tari://stibbons/pubkey/abcd");
    // a link that no QR code holds
    let long = "a".repeat(10_000);
    assert!(MyIdentity::new(Network::Stibbons, &long, "", "").is_none());
}

#[test]
fn the_base_node_is_read_from_two_arguments() {
    let key = PublicKey::from_bytes(vec![1; 32]);
    let address: Multiaddr = "/ip4/10.0.0.1/tcp/18141".parse().unwrap();
    let args = vec![
        ParsedArgument::PublicKey(PublicKey::from_bytes(vec![1; 32])),
        ParsedArgument::Address(address.clone()),
    ];
    assert_eq!(
        tari_node_stack::wallet::commands::base_node_parameters(args),
        Ok((key, address.clone()))
    );
    let args = vec![ParsedArgument::Text("key".to_string()), ParsedArgument::Address(address.clone())];
    assert_eq!(tari_node_stack::wallet::commands::base_node_parameters(args), Err(CommandError::Argument));
    let args = vec![
        ParsedArgument::PublicKey(PublicKey::from_bytes(vec![1; 32])),
        ParsedArgument::CSVFileName("x".to_string()),
    ];
    assert_eq!(tari_node_stack::wallet::commands::base_node_parameters(args), Err(CommandError::Argument));
}
