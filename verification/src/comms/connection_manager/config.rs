//! The configuration of the connection manager and the addresses it bound.

use crate::comms::connection_manager::address::IpCidr;
use multiaddr::{Multiaddr, Protocol};
use vstd::prelude::*;

verus! {

/// A span of time in milliseconds.
#[derive(Clone, Copy, Debug, PartialEq, Eq, Structural)]
pub struct Delay {
    pub millis: u64,
}

/// The address `/ip4/<ip>/tcp/<port>`, where `ip` is the number that the four
/// bytes of the IPv4 address spell out.
pub uninterp spec fn ip4_tcp_address(ip: u32, port: u16) -> Multiaddr;

/// Builds `/ip4/<ip>/tcp/<port>` with `Multiaddr::empty` and two calls of
/// `Multiaddr::with`. The contract gives the address its name.
#[verifier::external_body]
pub(crate) fn make_ip4_tcp_address(ip: u32, port: u16) -> (address: Multiaddr)
    ensures
        address == ip4_tcp_address(ip, port),
{
    Multiaddr::empty().with(Protocol::Ip4(ip.into())).with(Protocol::Tcp(port))
}

pub const DEFAULT_LISTENER_PORT: u16 = 7898;

pub const DEFAULT_MAX_DIAL_ATTEMPTS: usize = 3;

pub const DEFAULT_MAX_SIMULTANEOUS_INBOUND_CONNECTS: usize = 20;

pub const DEFAULT_TIME_TO_FIRST_BYTE_MILLIS: u64 = 7000;

/// 127.0.0.1, as the number its bytes spell out.
pub const LOCALHOST_V4: u32 = 0x7f00_0001;

/// What the connection manager does when the auxiliary listener cannot
/// bind. A primary listener that cannot bind always stops the manager.
#[derive(Clone, Copy, Debug, PartialEq, Eq, Structural)]
pub enum AuxiliaryFailurePolicy {
    /// The manager stops, as it does for the primary listener.
    Abort,
    /// The manager goes on without the auxiliary listener and publishes the
    /// failure as an event.
    Degrade,
}

#[derive(Debug)]
pub struct ConnectionManagerConfig {
    /// The address to listen on for incoming connections.
    pub listener_address: Multiaddr,
    /// The number of connect attempts to make before a dial gives up.
    pub max_dial_attempts: usize,
    /// How many inbound connections may be upgraded at the same time.
    pub max_simultaneous_inbound_connects: usize,
    /// Whether loopback, link-local, private and in-memory addresses are
    /// accepted as peers. True only in test settings.
    pub allow_test_addresses: bool,
    /// How long to wait for the first byte of an inbound handshake.
    pub time_to_first_byte: Delay,
    /// How many liveness sessions may be served at the same time.
    pub liveness_max_sessions: usize,
    /// The blocks from which liveness checks are served.
    pub liveness_cidr_allowlist: Vec<IpCidr>,
    /// The address of an additional TCP listener, for local wallets.
    pub auxilary_tcp_listener_address: Option<Multiaddr>,
    /// What to do when the additional listener cannot bind.
    pub auxiliary_failure_policy: AuxiliaryFailurePolicy,
}

impl Default for ConnectionManagerConfig {
    fn default() -> (config: ConnectionManagerConfig)
        ensures
            config.listener_address == ip4_tcp_address(0, 7898),
            config.max_dial_attempts == 3,
            config.max_simultaneous_inbound_connects == 20,
            !config.allow_test_addresses,
            config.time_to_first_byte == (Delay { millis: 7000 }),
            config.liveness_max_sessions == 0,
            config.liveness_cidr_allowlist@ == seq![
                IpCidr::V4 { network: 0x7f00_0001u32, prefix_len: 32u8 },
            ],
            config.auxilary_tcp_listener_address is None,
            config.auxiliary_failure_policy == AuxiliaryFailurePolicy::Abort,
    {
        let mut allowlist: Vec<IpCidr> = Vec::new();
        allowlist.push(IpCidr::host_v4(LOCALHOST_V4));
        ConnectionManagerConfig {
            listener_address: make_ip4_tcp_address(0, DEFAULT_LISTENER_PORT),
            max_dial_attempts: DEFAULT_MAX_DIAL_ATTEMPTS,
            max_simultaneous_inbound_connects: DEFAULT_MAX_SIMULTANEOUS_INBOUND_CONNECTS,
            allow_test_addresses: false,
            time_to_first_byte: Delay { millis: DEFAULT_TIME_TO_FIRST_BYTE_MILLIS },
            liveness_max_sessions: 0,
            liveness_cidr_allowlist: allowlist,
            auxilary_tcp_listener_address: None,
            auxiliary_failure_policy: AuxiliaryFailurePolicy::Abort,
        }
    }
}

/// The addresses that the listeners actually bound.
#[derive(Debug, PartialEq, Eq)]
pub struct ListenerInfo {
    pub bind_address: Multiaddr,
    pub aux_bind_address: Option<Multiaddr>,
}

impl ListenerInfo {
    pub fn new(bind_address: Multiaddr, aux_bind_address: Option<Multiaddr>) -> (info: ListenerInfo)
        ensures
            info == (ListenerInfo { bind_address, aux_bind_address }),
    {
        ListenerInfo { bind_address, aux_bind_address }
    }

    pub fn bind_address(&self) -> (address: &Multiaddr)
        ensures
            *address == self.bind_address,
    {
        &self.bind_address
    }

    pub fn auxilary_bind_address(&self) -> (address: Option<&Multiaddr>)
        ensures
            match address {
                Some(a) => self.aux_bind_address == Some(*a),
                None => self.aux_bind_address is None,
            },
    {
        self.aux_bind_address.as_ref()
    }
}

impl Clone for ListenerInfo {
    fn clone(&self) -> (copy: ListenerInfo)
        ensures
            copy == *self,
    {
        let aux = match &self.aux_bind_address {
            Some(address) => Some(address.clone()),
            None => None,
        };
        ListenerInfo { bind_address: self.bind_address.clone(), aux_bind_address: aux }
    }
}

} // verus!
