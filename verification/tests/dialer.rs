use multiaddr::Multiaddr;
use tari_node_stack::comms::backoff::{Backoff, ConstantBackoff, ExponentialBackoff};
use tari_node_stack::comms::connection_manager::config::Delay;
use tari_node_stack::comms::connection_manager::dialer::{
    Dialer, DialerAction, DialerInput, DialerRequest, EstablishedSession, ReplyToken,
};
use tari_node_stack::comms::connection_manager::error::ConnectionManagerError;
use tari_node_stack::comms::connection_manager::manager::ConnectionManagerEvent;
use tari_node_stack::comms::connection_manager::peer_connection::{
    ConnectionDirection, ConnectionId, PeerConnection,
};
use tari_node_stack::comms::peer::{NodeId, Peer, PublicKey};

fn address(text: &str) -> Multiaddr {
    text.parse().unwrap()
}

fn key(seed: u8) -> PublicKey {
    PublicKey::from_bytes(vec![seed; 32])
}

fn peer(seed: u8, addresses: &[&str]) -> Peer {
    Peer::new(key(seed), addresses.iter().map(|a| address(a)).collect())
}

fn dialer(max_dial_attempts: usize) -> Dialer<ConstantBackoff> {
    Dialer::new(max_dial_attempts, ConstantBackoff::new(Delay { millis: 250 }))
}

fn unreachable() -> ConnectionManagerError {
    ConnectionManagerError::TransportError("connection refused".to_string())
}

fn count_connects(actions: &[DialerAction]) -> usize {
    actions.iter().filter(|a| matches!(a, DialerAction::Connect { .. })).count()
}

#[test]
fn three_attempts_on_one_unreachable_address_then_failure() {
    let mut dialer = dialer(3);
    let peer = peer(1, &["/ip4/203.0.113.7/tcp/9000"]);
    let node_id = peer.node_id;
    let reply = ReplyToken(11);
    let mut connects = 0;

    let actions = dialer.dial(peer, reply);
    assert_eq!(
        actions,
        vec![DialerAction::Connect { node_id, address: address("/ip4/203.0.113.7/tcp/9000"), attempt: 1 }]
    );
    connects += count_connects(&actions);

    for attempt in 2..=3usize {
        let actions = dialer.connect_finished(node_id, Err(unreachable()));
        assert_eq!(actions, vec![DialerAction::Wait { node_id, delay: Delay { millis: 250 } }]);
        let actions = dialer.backoff_elapsed(node_id);
        assert_eq!(
            actions,
            vec![DialerAction::Connect { node_id, address: address("/ip4/203.0.113.7/tcp/9000"), attempt }]
        );
        connects += count_connects(&actions);
    }

    let actions = dialer.connect_finished(node_id, Err(unreachable()));
    assert_eq!(
        actions,
        vec![
            DialerAction::Notify(ConnectionManagerEvent::PeerConnectFailed(node_id, unreachable())),
            DialerAction::Reply { reply, result: Err(unreachable()) },
        ]
    );
    assert_eq!(connects, 3);
    assert!(!dialer.is_pending(node_id));
    assert_eq!(dialer.pending_count(), 0);
}

#[test]
fn the_last_observed_error_is_reported() {
    let mut dialer = dialer(2);
    let peer = peer(1, &["/ip4/203.0.113.7/tcp/9000"]);
    let node_id = peer.node_id;
    dialer.dial(peer, ReplyToken(1));
    dialer.connect_finished(node_id, Err(ConnectionManagerError::TransportError("first".to_string())));
    dialer.backoff_elapsed(node_id);
    let last = ConnectionManagerError::TransportError("second".to_string());
    let actions = dialer.connect_finished(node_id, Err(last.clone()));
    assert_eq!(
        actions,
        vec![
            DialerAction::Notify(ConnectionManagerEvent::PeerConnectFailed(node_id, last.clone())),
            DialerAction::Reply { reply: ReplyToken(1), result: Err(last) },
        ]
    );
}

#[test]
fn attempts_walk_the_addresses_in_order_and_wrap_around() {
    let mut dialer = dialer(5);
    let peer = peer(2, &["/ip4/198.51.100.1/tcp/1", "/ip4/198.51.100.2/tcp/2"]);
    let node_id = peer.node_id;
    let mut seen = Vec::new();
    let mut actions = dialer.dial(peer, ReplyToken(1));
    loop {
        match actions.as_slice() {
            [DialerAction::Connect { address, attempt, .. }] => {
                seen.push((*attempt, address.to_string()));
                actions = dialer.connect_finished(node_id, Err(unreachable()));
            },
            [DialerAction::Wait { .. }] => {
                actions = dialer.backoff_elapsed(node_id);
            },
            _ => break,
        }
    }
    assert_eq!(
        seen,
        vec![
            (1, "/ip4/198.51.100.1/tcp/1".to_string()),
            (2, "/ip4/198.51.100.2/tcp/2".to_string()),
            (3, "/ip4/198.51.100.1/tcp/1".to_string()),
            (4, "/ip4/198.51.100.2/tcp/2".to_string()),
            (5, "/ip4/198.51.100.1/tcp/1".to_string()),
        ]
    );
}

#[test]
fn a_second_dial_joins_the_first_and_both_get_the_same_outcome() {
    let mut dialer = dialer(3);
    let first = peer(3, &["/ip4/203.0.113.9/tcp/9000"]);
    let second = peer(3, &["/ip4/203.0.113.9/tcp/9000"]);
    let node_id = first.node_id;

    let actions = dialer.dial(first, ReplyToken(1));
    assert_eq!(count_connects(&actions), 1);
    let actions = dialer.dial(second, ReplyToken(2));
    assert!(actions.is_empty());
    assert_eq!(dialer.pending_count(), 1);

    assert_eq!(dialer.connect_finished(node_id, Ok(())), vec![DialerAction::Handshake { node_id }]);
    assert_eq!(dialer.handshake_finished(node_id, Ok(key(3))), vec![DialerAction::Identify { node_id }]);
    let actions = dialer.identify_finished(
        node_id,
        Ok(EstablishedSession { connection: ConnectionId(77), established_at: 1_000 }),
    );
    let connection = PeerConnection::new(ConnectionId(77), node_id, ConnectionDirection::Outbound, 1_000);
    assert_eq!(
        actions,
        vec![
            DialerAction::Notify(ConnectionManagerEvent::PeerConnected(connection)),
            DialerAction::Reply { reply: ReplyToken(1), result: Ok(connection) },
            DialerAction::Reply { reply: ReplyToken(2), result: Ok(connection) },
        ]
    );
    assert!(!dialer.is_pending(node_id));
}

#[test]
fn a_revealed_key_that_is_not_the_dialed_one_fails_the_dial() {
    let mut dialer = dialer(3);
    let peer = peer(4, &["/ip4/203.0.113.9/tcp/9000"]);
    let node_id = peer.node_id;
    dialer.dial(peer, ReplyToken(5));
    dialer.connect_finished(node_id, Ok(()));
    let actions = dialer.handshake_finished(node_id, Ok(key(9)));
    assert_eq!(
        actions,
        vec![
            DialerAction::Notify(ConnectionManagerEvent::PeerConnectFailed(
                node_id,
                ConnectionManagerError::DialedPublicKeyMismatch
            )),
            DialerAction::Reply { reply: ReplyToken(5), result: Err(ConnectionManagerError::DialedPublicKeyMismatch) },
        ]
    );
    assert!(!dialer.is_pending(node_id));
    // nothing more comes of the dial
    assert!(dialer
        .identify_finished(node_id, Ok(EstablishedSession { connection: ConnectionId(1), established_at: 0 }))
        .is_empty());
}

#[test]
fn a_key_that_does_not_hash_to_the_dialed_node_id_fails_the_dial() {
    let mut dialer = dialer(3);
    // a record whose node id is not the one of its key
    let mut peer = peer(4, &["/ip4/203.0.113.9/tcp/9000"]);
    peer.node_id = NodeId::from_value(42);
    let node_id = peer.node_id;
    dialer.dial(peer, ReplyToken(5));
    dialer.connect_finished(node_id, Ok(()));
    let actions = dialer.handshake_finished(node_id, Ok(key(4)));
    assert_eq!(
        actions[0],
        DialerAction::Notify(ConnectionManagerEvent::PeerConnectFailed(
            node_id,
            ConnectionManagerError::DialedPublicKeyMismatch
        ))
    );
}

#[test]
fn a_failed_handshake_ends_the_dial_without_another_connect() {
    let mut dialer = dialer(3);
    let peer = peer(4, &["/ip4/203.0.113.9/tcp/9000"]);
    let node_id = peer.node_id;
    dialer.dial(peer, ReplyToken(5));
    dialer.connect_finished(node_id, Ok(()));
    let error = ConnectionManagerError::NoiseError("bad message".to_string());
    let actions = dialer.handshake_finished(node_id, Err(error.clone()));
    assert_eq!(
        actions,
        vec![
            DialerAction::Notify(ConnectionManagerEvent::PeerConnectFailed(node_id, error.clone())),
            DialerAction::Reply { reply: ReplyToken(5), result: Err(error) },
        ]
    );
}

#[test]
fn a_failed_identification_ends_the_dial() {
    let mut dialer = dialer(3);
    let peer = peer(4, &["/ip4/203.0.113.9/tcp/9000"]);
    let node_id = peer.node_id;
    dialer.dial(peer, ReplyToken(5));
    dialer.connect_finished(node_id, Ok(()));
    dialer.handshake_finished(node_id, Ok(key(4)));
    let error = ConnectionManagerError::IdentityProtocolError("no common protocol".to_string());
    let actions = dialer.identify_finished(node_id, Err(error.clone()));
    assert_eq!(
        actions,
        vec![
            DialerAction::Notify(ConnectionManagerEvent::PeerConnectFailed(node_id, error.clone())),
            DialerAction::Reply { reply: ReplyToken(5), result: Err(error) },
        ]
    );
}

#[test]
fn a_connection_is_not_published_after_connect_or_handshake_alone() {
    let mut dialer = dialer(3);
    let peer = peer(6, &["/ip4/203.0.113.9/tcp/9000"]);
    let node_id = peer.node_id;
    let mut all = dialer.dial(peer, ReplyToken(5));
    all.extend(dialer.connect_finished(node_id, Ok(())));
    all.extend(dialer.handshake_finished(node_id, Ok(key(6))));
    assert!(all.iter().all(|a| !matches!(
        a,
        DialerAction::Notify(ConnectionManagerEvent::PeerConnected(_)) | DialerAction::Reply { .. }
    )));
    // an identification result that arrives out of turn is ignored
    let mut other = self::dialer(3);
    let peer = self::peer(6, &["/ip4/203.0.113.9/tcp/9000"]);
    other.dial(peer, ReplyToken(5));
    assert!(other
        .identify_finished(node_id, Ok(EstablishedSession { connection: ConnectionId(1), established_at: 0 }))
        .is_empty());
    assert!(other.is_pending(node_id));
}

#[test]
fn cancelling_is_silent_with_and_without_a_dial_in_flight() {
    let mut dialer = dialer(3);
    let peer = peer(7, &["/ip4/203.0.113.9/tcp/9000"]);
    let node_id = peer.node_id;
    dialer.cancel_pending_dial(node_id);
    assert_eq!(dialer.pending_count(), 0);
    dialer.dial(peer, ReplyToken(1));
    dialer.cancel_pending_dial(node_id);
    dialer.cancel_pending_dial(node_id);
    assert!(dialer.is_pending(node_id));
    assert!(dialer.handle_request(DialerRequest::CancelPendingDial(NodeId::from_value(1))).is_empty());
}

#[test]
fn a_cancelled_dial_ends_when_its_connect_finishes() {
    let mut dialer = dialer(3);
    let peer = peer(7, &["/ip4/203.0.113.9/tcp/9000"]);
    let node_id = peer.node_id;
    dialer.dial(peer, ReplyToken(1));
    dialer.cancel_pending_dial(node_id);
    let actions = dialer.connect_finished(node_id, Ok(()));
    assert_eq!(
        actions,
        vec![
            DialerAction::Notify(ConnectionManagerEvent::PeerConnectFailed(
                node_id,
                ConnectionManagerError::DialCancelled
            )),
            DialerAction::Reply { reply: ReplyToken(1), result: Err(ConnectionManagerError::DialCancelled) },
        ]
    );
}

#[test]
fn a_cancelled_dial_ends_when_its_wait_is_over() {
    let mut dialer = dialer(3);
    let peer = peer(7, &["/ip4/203.0.113.9/tcp/9000"]);
    let node_id = peer.node_id;
    dialer.dial(peer, ReplyToken(1));
    dialer.connect_finished(node_id, Err(unreachable()));
    dialer.cancel_pending_dial(node_id);
    let actions = dialer.backoff_elapsed(node_id);
    assert_eq!(count_connects(&actions), 0);
    assert_eq!(
        actions[1],
        DialerAction::Reply { reply: ReplyToken(1), result: Err(ConnectionManagerError::DialCancelled) }
    );
}

#[test]
fn a_dial_that_is_cancelled_during_its_handshake_may_still_connect() {
    let mut dialer = dialer(3);
    let peer = peer(8, &["/ip4/203.0.113.9/tcp/9000"]);
    let node_id = peer.node_id;
    dialer.dial(peer, ReplyToken(1));
    dialer.connect_finished(node_id, Ok(()));
    dialer.cancel_pending_dial(node_id);
    assert_eq!(dialer.handshake_finished(node_id, Ok(key(8))), vec![DialerAction::Identify { node_id }]);
    let actions = dialer.identify_finished(
        node_id,
        Ok(EstablishedSession { connection: ConnectionId(3), established_at: 9 }),
    );
    assert!(matches!(actions[0], DialerAction::Notify(ConnectionManagerEvent::PeerConnected(_))));
}

#[test]
fn a_peer_without_addresses_fails_at_once() {
    let mut dialer = dialer(3);
    let peer = peer(9, &[]);
    let node_id = peer.node_id;
    let actions = dialer.dial(peer, ReplyToken(1));
    assert_eq!(
        actions,
        vec![
            DialerAction::Notify(ConnectionManagerEvent::PeerConnectFailed(
                node_id,
                ConnectionManagerError::PeerHasNoAddresses
            )),
            DialerAction::Reply { reply: ReplyToken(1), result: Err(ConnectionManagerError::PeerHasNoAddresses) },
        ]
    );
    assert_eq!(dialer.pending_count(), 0);
}

#[test]
fn no_attempt_is_made_where_none_is_allowed() {
    let mut dialer = dialer(0);
    let peer = peer(9, &["/ip4/203.0.113.9/tcp/9000"]);
    let actions = dialer.dial(peer, ReplyToken(1));
    assert_eq!(count_connects(&actions), 0);
    assert_eq!(
        actions[1],
        DialerAction::Reply {
            reply: ReplyToken(1),
            result: Err(ConnectionManagerError::DialConnectFailedAllAddresses)
        }
    );
}

#[test]
fn dials_of_different_peers_do_not_disturb_each_other() {
    let mut dialer = dialer(1);
    let a = peer(10, &["/ip4/203.0.113.1/tcp/1"]);
    let b = peer(11, &["/ip4/203.0.113.2/tcp/2"]);
    let (id_a, id_b) = (a.node_id, b.node_id);
    dialer.handle(DialerInput::Dial { peer: a, reply: ReplyToken(1) });
    dialer.handle(DialerInput::Dial { peer: b, reply: ReplyToken(2) });
    assert_eq!(dialer.pending_count(), 2);
    let actions = dialer.handle(DialerInput::ConnectFinished { node_id: id_a, result: Err(unreachable()) });
    assert_eq!(actions.len(), 2);
    assert!(!dialer.is_pending(id_a));
    assert!(dialer.is_pending(id_b));
    assert_eq!(
        dialer.handle(DialerInput::ConnectFinished { node_id: id_b, result: Ok(()) }),
        vec![DialerAction::Handshake { node_id: id_b }]
    );
}

#[test]
fn constant_backoff_is_constant() {
    let backoff = ConstantBackoff::new(Delay { millis: 40 });
    assert_eq!(backoff.calculate_backoff(0), Delay { millis: 40 });
    assert_eq!(backoff.calculate_backoff(17), Delay { millis: 40 });
}

#[test]
fn exponential_backoff_doubles_and_saturates() {
    let backoff = ExponentialBackoff::new(1_500);
    assert_eq!(backoff.calculate_backoff(0), Delay { millis: 0 });
    assert_eq!(backoff.calculate_backoff(1), Delay { millis: 0 });
    assert_eq!(backoff.calculate_backoff(2), Delay { millis: 4_500 });
    assert_eq!(backoff.calculate_backoff(3), Delay { millis: 10_500 });
    assert_eq!(backoff.calculate_backoff(10), Delay { millis: 1_500 * 1_023 });
    assert_eq!(backoff.calculate_backoff(32), Delay { millis: 1_500 * ((1u64 << 32) - 1) });
    assert_eq!(backoff.calculate_backoff(1_000), Delay { millis: 1_500 * ((1u64 << 32) - 1) });
    let huge = ExponentialBackoff::new(u64::MAX);
    assert_eq!(huge.calculate_backoff(2), Delay { millis: u64::MAX });
}
