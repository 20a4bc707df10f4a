use tari_node_stack::comms::connection_manager::address::{is_in_allowlist, IpCidr, RemoteHost};
use tari_node_stack::comms::connection_manager::config::{ConnectionManagerConfig, Delay};
use tari_node_stack::comms::connection_manager::error::ConnectionManagerError;
use tari_node_stack::comms::connection_manager::listener::{ListenerAction, ListenerInput, PeerListener};
use tari_node_stack::comms::connection_manager::manager::ConnectionManagerEvent;
use tari_node_stack::comms::connection_manager::peer_connection::{
    ConnectionDirection, ConnectionId, PeerConnection,
};
use tari_node_stack::comms::peer::{NodeId, PublicKey};

const PUBLIC_HOST: RemoteHost = RemoteHost::Ip4(0xcb00_7107); // 203.0.113.7
const LOOPBACK: RemoteHost = RemoteHost::Ip4(0x7f00_0001); // 127.0.0.1

fn config(max_inbound: usize) -> ConnectionManagerConfig {
    let mut config = ConnectionManagerConfig::default();
    config.max_simultaneous_inbound_connects = max_inbound;
    config
}

#[test]
fn default_config_has_the_documented_values() {
    let config = ConnectionManagerConfig::default();
    assert_eq!(config.listener_address.to_string(), "/ip4/0.0.0.0/tcp/7898");
    assert_eq!(config.max_dial_attempts, 3);
    assert_eq!(config.max_simultaneous_inbound_connects, 20);
    assert!(!config.allow_test_addresses);
    assert_eq!(config.time_to_first_byte, Delay { millis: 7_000 });
    assert_eq!(config.liveness_max_sessions, 0);
    assert_eq!(config.liveness_cidr_allowlist, vec![IpCidr::V4 { network: 0x7f00_0001, prefix_len: 32 }]);
    assert!(config.auxilary_tcp_listener_address.is_none());
}

#[test]
fn cidr_blocks_are_checked_when_they_are_made() {
    assert_eq!(IpCidr::new_v4(0x0a00_0000, 8), Some(IpCidr::V4 { network: 0x0a00_0000, prefix_len: 8 }));
    assert_eq!(IpCidr::new_v4(0x0a00_0001, 8), None);
    assert_eq!(IpCidr::new_v4(0x0a00_0000, 33), None);
    assert_eq!(IpCidr::new_v4(0, 0), Some(IpCidr::V4 { network: 0, prefix_len: 0 }));
    assert_eq!(IpCidr::new_v4(0xffff_ffff, 32), Some(IpCidr::V4 { network: 0xffff_ffff, prefix_len: 32 }));
    assert_eq!(IpCidr::new_v6(1, 128), Some(IpCidr::V6 { network: 1, prefix_len: 128 }));
    assert_eq!(IpCidr::new_v6(1, 127), None);
    assert_eq!(IpCidr::new_v6(0, 129), None);
    assert_eq!(IpCidr::host_v4(0x7f00_0001), IpCidr::V4 { network: 0x7f00_0001, prefix_len: 32 });
}

#[test]
fn cidr_blocks_hold_the_addresses_of_their_network() {
    let ten = IpCidr::new_v4(0x0a00_0000, 8).unwrap();
    assert!(ten.contains(RemoteHost::Ip4(0x0a00_0000)));
    assert!(ten.contains(RemoteHost::Ip4(0x0aff_ffff)));
    assert!(!ten.contains(RemoteHost::Ip4(0x0b00_0000)));
    assert!(!ten.contains(RemoteHost::Ip4(0x09ff_ffff)));
    assert!(!ten.contains(RemoteHost::Ip6(0x0a00_0000)));
    assert!(!ten.contains(RemoteHost::Memory(3)));
    assert!(!ten.contains(RemoteHost::Other));
    let everything = IpCidr::new_v4(0, 0).unwrap();
    assert!(everything.contains(RemoteHost::Ip4(0xdead_beef)));
    let one = IpCidr::host_v4(0x7f00_0001);
    assert!(one.contains(RemoteHost::Ip4(0x7f00_0001)));
    assert!(!one.contains(RemoteHost::Ip4(0x7f00_0002)));
    let v6 = IpCidr::new_v6(0xfe80 << 112, 10).unwrap();
    assert!(v6.contains(RemoteHost::Ip6((0xfe80 << 112) | 7)));
    assert!(!v6.contains(RemoteHost::Ip6(0xfec0 << 112)));
    assert!(!v6.contains(RemoteHost::Ip4(7)));
    assert!(IpCidr::Any.contains(RemoteHost::Ip4(1)));
    assert!(IpCidr::Any.contains(RemoteHost::Ip6(1)));
    assert!(!IpCidr::Any.contains(RemoteHost::Memory(1)));
}

#[test]
fn allowlist_holds_a_host_if_any_block_does() {
    let blocks = vec![IpCidr::host_v4(0x7f00_0001), IpCidr::new_v4(0xc0a8_0000, 16).unwrap()];
    assert!(is_in_allowlist(&blocks, RemoteHost::Ip4(0x7f00_0001)));
    assert!(is_in_allowlist(&blocks, RemoteHost::Ip4(0xc0a8_0105)));
    assert!(!is_in_allowlist(&blocks, RemoteHost::Ip4(0x0808_0808)));
    assert!(!is_in_allowlist(&Vec::new(), RemoteHost::Ip4(0x7f00_0001)));
}

#[test]
fn test_addresses_are_recognised() {
    for ip in [0x7f00_0001u32, 0x7fff_ffff, 0x0a01_0203, 0xac10_0001, 0xac1f_ffff, 0xc0a8_0001, 0xa9fe_0101, 0] {
        assert!(RemoteHost::Ip4(ip).is_test_address(), "{:#x}", ip);
    }
    for ip in [0x0808_0808u32, 0xcb00_7107, 0xac20_0001, 0xac0f_ffff, 0xc0a9_0001, 0x8000_0000, 0x0b00_0000] {
        assert!(!RemoteHost::Ip4(ip).is_test_address(), "{:#x}", ip);
    }
    assert!(RemoteHost::Ip6(1).is_test_address());
    assert!(RemoteHost::Ip6(0).is_test_address());
    assert!(RemoteHost::Ip6((0xfe80u128 << 112) | 1).is_test_address());
    assert!(RemoteHost::Ip6((0xfd00u128 << 112) | 1).is_test_address());
    assert!(!RemoteHost::Ip6((0x2001_0db8u128 << 96) | 1).is_test_address());
    assert!(RemoteHost::Memory(0).is_test_address());
    assert!(!RemoteHost::Other.is_test_address());
}

#[test]
fn loopback_is_rejected_before_any_handshake() {
    let mut listener = PeerListener::new(&config(20));
    let actions = listener.accepted(LOOPBACK);
    assert_eq!(actions, vec![ListenerAction::Reject]);
    assert_eq!(listener.upgrades_in_progress(), 0);
    assert_eq!(listener.liveness_sessions_open(), 0);
}

#[test]
fn a_test_host_outside_the_allowlist_is_rejected_even_with_liveness_enabled() {
    let mut config = config(20);
    config.liveness_max_sessions = 2;
    let mut listener = PeerListener::new(&config);
    assert_eq!(listener.accepted(RemoteHost::Ip4(0x7f00_0002)), vec![ListenerAction::Reject]);
    assert_eq!(listener.accepted(RemoteHost::Memory(5)), vec![ListenerAction::Reject]);
    assert_eq!(listener.upgrades_in_progress(), 0);
}

#[test]
fn an_allowlisted_host_is_served_as_liveness_responder_up_to_the_limit() {
    let mut config = config(20);
    config.liveness_max_sessions = 2;
    let mut listener = PeerListener::new(&config);
    assert_eq!(listener.accepted(LOOPBACK), vec![ListenerAction::ServeLiveness { connection: ConnectionId(0) }]);
    assert_eq!(listener.accepted(LOOPBACK), vec![ListenerAction::ServeLiveness { connection: ConnectionId(1) }]);
    assert_eq!(listener.accepted(LOOPBACK), vec![ListenerAction::Reject]);
    assert_eq!(listener.liveness_sessions_open(), 2);
    assert_eq!(listener.upgrades_in_progress(), 0);
    listener.liveness_session_closed(ConnectionId(0));
    listener.liveness_session_closed(ConnectionId(0));
    assert_eq!(listener.liveness_sessions_open(), 1);
    assert_eq!(listener.accepted(LOOPBACK), vec![ListenerAction::ServeLiveness { connection: ConnectionId(2) }]);
}

#[test]
fn test_addresses_are_upgraded_where_they_are_allowed() {
    let mut config = config(20);
    config.allow_test_addresses = true;
    let mut listener = PeerListener::new(&config);
    assert_eq!(
        listener.accepted(LOOPBACK),
        vec![ListenerAction::StartHandshake {
            connection: ConnectionId(0),
            time_to_first_byte: Delay { millis: 7_000 }
        }]
    );
}

#[test]
fn connections_beyond_the_limit_are_dropped_and_take_no_slot() {
    let mut listener = PeerListener::new(&config(2));
    for id in 0..2 {
        assert_eq!(
            listener.accepted(PUBLIC_HOST),
            vec![ListenerAction::StartHandshake {
                connection: ConnectionId(id),
                time_to_first_byte: Delay { millis: 7_000 }
            }]
        );
    }
    for _ in 0..5 {
        assert_eq!(listener.accepted(PUBLIC_HOST), vec![ListenerAction::Drop]);
        assert_eq!(listener.upgrades_in_progress(), 2);
    }
    // a slot that is given up can be taken again, under a fresh handle
    listener.first_byte_timed_out(ConnectionId(0));
    assert_eq!(
        listener.accepted(PUBLIC_HOST),
        vec![ListenerAction::StartHandshake {
            connection: ConnectionId(2),
            time_to_first_byte: Delay { millis: 7_000 }
        }]
    );
    assert_eq!(listener.accepted(PUBLIC_HOST), vec![ListenerAction::Drop]);
}

#[test]
fn no_connection_is_upgraded_where_no_slot_exists() {
    let mut listener = PeerListener::new(&config(0));
    assert_eq!(listener.accepted(PUBLIC_HOST), vec![ListenerAction::Drop]);
}

#[test]
fn a_silent_connection_times_out() {
    let mut listener = PeerListener::new(&config(2));
    listener.accepted(PUBLIC_HOST);
    let actions = listener.first_byte_timed_out(ConnectionId(0));
    assert_eq!(
        actions,
        vec![
            ListenerAction::Close { connection: ConnectionId(0) },
            ListenerAction::Notify(ConnectionManagerEvent::PeerInboundConnectFailed(
                ConnectionManagerError::NoiseProtocolTimeout
            )),
        ]
    );
    assert_eq!(listener.upgrades_in_progress(), 0);
    assert!(listener.first_byte_timed_out(ConnectionId(0)).is_empty());
}

#[test]
fn the_timeout_does_not_touch_a_connection_that_is_authenticated() {
    let mut listener = PeerListener::new(&config(2));
    listener.accepted(PUBLIC_HOST);
    let key = PublicKey::from_bytes(vec![5; 32]);
    assert_eq!(
        listener.handshake_finished(ConnectionId(0), Ok(key)),
        vec![ListenerAction::Identify { connection: ConnectionId(0) }]
    );
    assert!(listener.first_byte_timed_out(ConnectionId(0)).is_empty());
    assert_eq!(listener.upgrades_in_progress(), 1);
}

#[test]
fn an_inbound_peer_is_known_by_the_node_id_of_its_revealed_key() {
    let mut listener = PeerListener::new(&config(2));
    listener.accepted(PUBLIC_HOST);
    let key = PublicKey::from_bytes(vec![5; 32]);
    let node_id = NodeId::from_key(&key);
    let mut all = listener.handshake_finished(ConnectionId(0), Ok(key));
    assert!(all.iter().all(|a| !matches!(a, ListenerAction::Notify(_))));
    let actions = listener.identify_finished(ConnectionId(0), Ok(123));
    assert_eq!(
        actions,
        vec![ListenerAction::Notify(ConnectionManagerEvent::PeerConnected(PeerConnection::new(
            ConnectionId(0),
            node_id,
            ConnectionDirection::Inbound,
            123
        )))]
    );
    all.extend(actions);
    assert_eq!(listener.upgrades_in_progress(), 0);
}

#[test]
fn identification_before_the_handshake_is_ignored() {
    let mut listener = PeerListener::new(&config(2));
    listener.accepted(PUBLIC_HOST);
    assert!(listener.identify_finished(ConnectionId(0), Ok(1)).is_empty());
    assert!(listener.identify_finished(ConnectionId(9), Ok(1)).is_empty());
    assert_eq!(listener.upgrades_in_progress(), 1);
}

#[test]
fn a_failed_inbound_handshake_or_identification_is_reported() {
    let mut listener = PeerListener::new(&config(2));
    listener.handle(ListenerInput::Accepted { remote: PUBLIC_HOST });
    listener.handle(ListenerInput::Accepted { remote: PUBLIC_HOST });
    let noise = ConnectionManagerError::NoiseError("decrypt".to_string());
    assert_eq!(
        listener.handle(ListenerInput::HandshakeFinished { connection: ConnectionId(0), result: Err(noise.clone()) }),
        vec![
            ListenerAction::Close { connection: ConnectionId(0) },
            ListenerAction::Notify(ConnectionManagerEvent::PeerInboundConnectFailed(noise)),
        ]
    );
    listener.handle(ListenerInput::HandshakeFinished {
        connection: ConnectionId(1),
        result: Ok(PublicKey::from_bytes(vec![1; 32])),
    });
    let identity = ConnectionManagerError::IdentityProtocolError("eof".to_string());
    assert_eq!(
        listener.handle(ListenerInput::IdentifyFinished { connection: ConnectionId(1), result: Err(identity.clone()) }),
        vec![
            ListenerAction::Close { connection: ConnectionId(1) },
            ListenerAction::Notify(ConnectionManagerEvent::PeerInboundConnectFailed(identity)),
        ]
    );
    assert_eq!(listener.upgrades_in_progress(), 0);
}

#[test]
fn what_is_no_cidr_block_holds_nothing() {
    let with_host_bits = IpCidr::V4 { network: 0x0a00_0001, prefix_len: 8 };
    assert!(!with_host_bits.is_valid());
    assert!(!with_host_bits.contains(RemoteHost::Ip4(0x0a00_0001)));
    assert!(!IpCidr::V4 { network: 0, prefix_len: 33 }.contains(RemoteHost::Ip4(0)));
    assert!(!IpCidr::V6 { network: 0, prefix_len: 129 }.is_valid());
    assert!(!IpCidr::V6 { network: 0, prefix_len: 129 }.contains(RemoteHost::Ip6(0)));
    assert!(IpCidr::V6 { network: 0, prefix_len: 128 }.is_valid());
    assert!(IpCidr::Any.is_valid());
    let mut config = config(20);
    config.liveness_max_sessions = 1;
    config.liveness_cidr_allowlist = vec![with_host_bits];
    let mut listener = PeerListener::new(&config);
    assert_eq!(listener.accepted(RemoteHost::Ip4(0x0a00_0001)), vec![ListenerAction::Reject]);
}
