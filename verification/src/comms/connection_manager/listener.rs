//! The listener: admission of inbound connections.
//!
//! Every connection that the transport accepts is judged by the host it
//! comes from. A host that only a test setting can reach is turned away
//! unless test addresses are allowed; the one exception is a host of the
//! liveness allowlist, which is served as a ping responder while fewer
//! liveness sessions than the configured limit are open. Every other
//! connection takes an upgrade slot, of which there are
//! `max_simultaneous_inbound_connects`, and holds it until its handshake and
//! its protocol identification have ended one way or the other. A connection
//! that finds no slot free is dropped.
//!
//! An auxiliary listener is a second listener of this kind with slots of its
//! own, so that neither can starve the other.

use crate::comms::connection_manager::address::{
    any_block_holds,
    is_in_allowlist,
    IpCidr,
    RemoteHost,
};
use crate::comms::connection_manager::config::{ConnectionManagerConfig, Delay};
use crate::comms::connection_manager::error::ConnectionManagerError;
use crate::comms::connection_manager::manager::ConnectionManagerEvent;
use crate::comms::connection_manager::peer_connection::{
    ConnectionDirection,
    ConnectionId,
    PeerConnection,
};
use crate::comms::peer::{NodeId, PublicKey};
use vstd::prelude::*;

verus! {

/// Where the upgrade of an inbound connection stands.
#[derive(Clone, Copy, Debug, PartialEq, Eq, Structural)]
pub enum InboundStage {
    /// The handshake is under way and the remote side is not yet known.
    Handshaking,
    /// The handshake revealed a key with this node id, and protocol
    /// identification is under way.
    Identifying(NodeId),
}

/// An inbound connection that holds an upgrade slot.
#[derive(Clone, Copy, Debug, PartialEq, Eq, Structural)]
pub struct InboundUpgrade {
    pub connection: ConnectionId,
    pub stage: InboundStage,
}

/// What the listener asks of the tasks that own the transports.
#[derive(Debug, PartialEq, Eq)]
pub enum ListenerAction {
    /// Close the accepted connection: its host is not allowed.
    Reject,
    /// Close the accepted connection: no upgrade slot is free.
    Drop,
    /// Serve the accepted connection as a liveness responder, under this handle.
    ServeLiveness { connection: ConnectionId },
    /// Run the handshake on the accepted connection, under this handle, and
    /// report if the first byte does not arrive within the time given.
    StartHandshake { connection: ConnectionId, time_to_first_byte: Delay },
    /// Run protocol identification on the authenticated channel.
    Identify { connection: ConnectionId },
    /// Close the connection.
    Close { connection: ConnectionId },
    /// Hand the event to the connection manager.
    Notify(ConnectionManagerEvent),
}

/// What happens to a listener.
pub enum ListenerInput {
    /// The transport accepted a connection from this host.
    Accepted { remote: RemoteHost },
    /// The handshake of a connection ended; on success it revealed a key.
    HandshakeFinished { connection: ConnectionId, result: Result<PublicKey, ConnectionManagerError> },
    /// The first byte of a handshake did not arrive in time.
    FirstByteTimedOut { connection: ConnectionId },
    /// The protocol identification of a connection ended; on success the
    /// caller says when, in milliseconds of its clock.
    IdentifyFinished { connection: ConnectionId, result: Result<u64, ConnectionManagerError> },
    /// A liveness session ended.
    LivenessSessionClosed { connection: ConnectionId },
}

/// The listener, as the contracts speak of it.
pub struct ListenerView {
    pub max_simultaneous_inbound_connects: usize,
    pub allow_test_addresses: bool,
    pub time_to_first_byte: Delay,
    pub liveness_max_sessions: usize,
    pub liveness_cidr_allowlist: Seq<IpCidr>,
    /// The connections that hold an upgrade slot, oldest first.
    pub upgrades: Seq<InboundUpgrade>,
    /// The liveness sessions that are open, oldest first.
    pub liveness_sessions: Seq<ConnectionId>,
    /// The handle that the next connection is given.
    pub next_connection: u64,
}

impl ListenerView {
    pub open spec fn upgrade_at(self, connection: ConnectionId, i: int) -> bool {
        0 <= i < self.upgrades.len() && self.upgrades[i].connection == connection
    }

    /// Whether the connection holds an upgrade slot.
    pub open spec fn is_upgrading(self, connection: ConnectionId) -> bool {
        exists|i: int| self.upgrade_at(connection, i)
    }

    pub open spec fn upgrade_index(self, connection: ConnectionId) -> int {
        choose|i: int| self.upgrade_at(connection, i)
    }

    /// The upgrade of the connection.
    pub open spec fn upgrade(self, connection: ConnectionId) -> InboundUpgrade
        recommends
            self.is_upgrading(connection),
    {
        self.upgrades[self.upgrade_index(connection)]
    }

    pub open spec fn liveness_at(self, connection: ConnectionId, i: int) -> bool {
        0 <= i < self.liveness_sessions.len() && self.liveness_sessions[i] == connection
    }

    /// Whether the connection is an open liveness session.
    pub open spec fn is_liveness_session(self, connection: ConnectionId) -> bool {
        exists|i: int| self.liveness_at(connection, i)
    }

    pub open spec fn liveness_index(self, connection: ConnectionId) -> int {
        choose|i: int| self.liveness_at(connection, i)
    }

    /// No more upgrades and liveness sessions are open than the limits
    /// allow, and no handle is in use twice.
    pub open spec fn wf(self) -> bool {
        &&& self.upgrades.len() <= self.max_simultaneous_inbound_connects
        &&& self.liveness_sessions.len() <= self.liveness_max_sessions
        &&& forall|i: int|
            0 <= i < self.upgrades.len() ==> (#[trigger] self.upgrades[i]).connection.0
                < self.next_connection
        &&& forall|i: int|
            0 <= i < self.liveness_sessions.len() ==> (#[trigger] self.liveness_sessions[i]).0
                < self.next_connection
        &&& forall|i: int, j: int|
            0 <= i < j < self.upgrades.len() ==> self.upgrades[i].connection
                != self.upgrades[j].connection
        &&& forall|i: int, j: int|
            0 <= i < j < self.liveness_sessions.len() ==> self.liveness_sessions[i]
                != self.liveness_sessions[j]
        &&& forall|i: int, j: int|
            0 <= i < self.upgrades.len() && 0 <= j < self.liveness_sessions.len()
                ==> self.upgrades[i].connection != self.liveness_sessions[j]
    }

    /// Whether a connection from the host is turned away or served as a
    /// liveness responder, instead of being upgraded.
    pub open spec fn is_held_back(self, remote: RemoteHost) -> bool {
        remote.is_test_address_spec() && !self.allow_test_addresses
    }

    /// Whether a connection from a host that is held back may be served as
    /// a liveness responder.
    pub open spec fn admits_liveness(self, remote: RemoteHost) -> bool {
        &&& any_block_holds(self.liveness_cidr_allowlist, remote)
        &&& self.liveness_sessions.len() < self.liveness_max_sessions
        &&& self.next_connection < u64::MAX
    }

    /// Whether an upgrade slot and a handle are free.
    pub open spec fn has_free_slot(self) -> bool {
        self.upgrades.len() < self.max_simultaneous_inbound_connects && self.next_connection
            < u64::MAX
    }

    pub open spec fn with_upgrades(self, upgrades: Seq<InboundUpgrade>) -> Self {
        ListenerView { upgrades, ..self }
    }

    pub open spec fn accepted(self, remote: RemoteHost) -> (Self, Seq<ListenerAction>) {
        let connection = ConnectionId(self.next_connection);
        if self.is_held_back(remote) {
            if self.admits_liveness(remote) {
                (
                    ListenerView {
                        liveness_sessions: self.liveness_sessions.push(connection),
                        next_connection: (self.next_connection + 1) as u64,
                        ..self
                    },
                    seq![ListenerAction::ServeLiveness { connection }],
                )
            } else {
                (self, seq![ListenerAction::Reject])
            }
        } else if self.has_free_slot() {
            (
                ListenerView {
                    upgrades: self.upgrades.push(
                        InboundUpgrade { connection, stage: InboundStage::Handshaking },
                    ),
                    next_connection: (self.next_connection + 1) as u64,
                    ..self
                },
                seq![
                    ListenerAction::StartHandshake {
                        connection,
                        time_to_first_byte: self.time_to_first_byte,
                    },
                ],
            )
        } else {
            (self, seq![ListenerAction::Drop])
        }
    }

    /// The end of an upgrade that failed: the slot is given up, the
    /// connection is closed, and the connection manager learns of the error.
    pub open spec fn failed(self, connection: ConnectionId, error: ConnectionManagerError) -> (
        Self,
        Seq<ListenerAction>,
    ) {
        (
            self.with_upgrades(self.upgrades.remove(self.upgrade_index(connection))),
            seq![
                ListenerAction::Close { connection },
                ListenerAction::Notify(ConnectionManagerEvent::PeerInboundConnectFailed(error)),
            ],
        )
    }

    pub open spec fn handshake_finished(
        self,
        connection: ConnectionId,
        result: Result<Seq<u8>, ConnectionManagerError>,
    ) -> (Self, Seq<ListenerAction>) {
        if !self.is_upgrading(connection) || self.upgrade(connection).stage
            != InboundStage::Handshaking {
            (self, Seq::empty())
        } else {
            match result {
                Ok(revealed) => (
                    self.with_upgrades(
                        self.upgrades.update(
                            self.upgrade_index(connection),
                            InboundUpgrade {
                                connection,
                                stage: InboundStage::Identifying(NodeId::of_key(revealed)),
                            },
                        ),
                    ),
                    seq![ListenerAction::Identify { connection }],
                ),
                Err(error) => self.failed(connection, error),
            }
        }
    }

    pub open spec fn first_byte_timed_out(self, connection: ConnectionId) -> (
        Self,
        Seq<ListenerAction>,
    ) {
        if !self.is_upgrading(connection) || self.upgrade(connection).stage
            != InboundStage::Handshaking {
            (self, Seq::empty())
        } else {
            self.failed(connection, ConnectionManagerError::NoiseProtocolTimeout)
        }
    }

    pub open spec fn identify_finished(
        self,
        connection: ConnectionId,
        result: Result<u64, ConnectionManagerError>,
    ) -> (Self, Seq<ListenerAction>) {
        if !self.is_upgrading(connection) {
            (self, Seq::empty())
        } else {
            match self.upgrade(connection).stage {
                InboundStage::Handshaking => (self, Seq::empty()),
                InboundStage::Identifying(node_id) => match result {
                    Ok(established_at) => (
                        self.with_upgrades(self.upgrades.remove(self.upgrade_index(connection))),
                        seq![
                            ListenerAction::Notify(
                                ConnectionManagerEvent::PeerConnected(
                                    PeerConnection {
                                        id: connection,
                                        peer_node_id: node_id,
                                        direction: ConnectionDirection::Inbound,
                                        established_at,
                                    },
                                ),
                            ),
                        ],
                    ),
                    Err(error) => self.failed(connection, error),
                },
            }
        }
    }

    pub open spec fn liveness_session_closed(self, connection: ConnectionId) -> (
        Self,
        Seq<ListenerAction>,
    ) {
        if self.is_liveness_session(connection) {
            (
                ListenerView {
                    liveness_sessions: self.liveness_sessions.remove(
                        self.liveness_index(connection),
                    ),
                    ..self
                },
                Seq::empty(),
            )
        } else {
            (self, Seq::empty())
        }
    }

    /// The next state of the listener and what it asks for, for anything
    /// that can happen to it.
    pub open spec fn step(self, input: ListenerInput) -> (Self, Seq<ListenerAction>) {
        match input {
            ListenerInput::Accepted { remote } => self.accepted(remote),
            ListenerInput::HandshakeFinished { connection, result } => self.handshake_finished(
                connection,
                match result {
                    Ok(key) => Ok(key@),
                    Err(error) => Err(error),
                },
            ),
            ListenerInput::FirstByteTimedOut { connection } => self.first_byte_timed_out(
                connection,
            ),
            ListenerInput::IdentifyFinished { connection, result } => self.identify_finished(
                connection,
                result,
            ),
            ListenerInput::LivenessSessionClosed { connection } => self.liveness_session_closed(
                connection,
            ),
        }
    }
}

/// Under the listener's invariant a connection's upgrade is found at one
/// place only.
pub proof fn lemma_unique_upgrade(listener: ListenerView, connection: ConnectionId, i: int)
    requires
        forall|a: int, b: int|
            0 <= a < b < listener.upgrades.len() ==> listener.upgrades[a].connection
                != listener.upgrades[b].connection,
        listener.upgrade_at(connection, i),
    ensures
        listener.is_upgrading(connection),
        listener.upgrade_index(connection) == i,
        listener.upgrade(connection) == listener.upgrades[i],
{
    let j = listener.upgrade_index(connection);
    assert(listener.upgrade_at(connection, j));
    if i < j {
        assert(listener.upgrades[i].connection != listener.upgrades[j].connection);
    } else if j < i {
        assert(listener.upgrades[j].connection != listener.upgrades[i].connection);
    }
}

/// Under the listener's invariant a liveness session is found at one place only.
pub proof fn lemma_unique_liveness(listener: ListenerView, connection: ConnectionId, i: int)
    requires
        forall|a: int, b: int|
            0 <= a < b < listener.liveness_sessions.len() ==> listener.liveness_sessions[a]
                != listener.liveness_sessions[b],
        listener.liveness_at(connection, i),
    ensures
        listener.is_liveness_session(connection),
        listener.liveness_index(connection) == i,
{
    let j = listener.liveness_index(connection);
    assert(listener.liveness_at(connection, j));
    if i < j {
        assert(listener.liveness_sessions[i] != listener.liveness_sessions[j]);
    } else if j < i {
        assert(listener.liveness_sessions[j] != listener.liveness_sessions[i]);
    }
}

/// Every step keeps the listener's invariant: whatever happens, no more
/// connections are being upgraded than `max_simultaneous_inbound_connects`.
pub proof fn law_step_keeps_upgrades_bounded(listener: ListenerView, input: ListenerInput)
    requires
        listener.wf(),
    ensures
        listener.step(input).0.wf(),
        listener.step(input).0.upgrades.len() <= listener.max_simultaneous_inbound_connects,
        listener.step(input).0.max_simultaneous_inbound_connects
            == listener.max_simultaneous_inbound_connects,
{
    let next = listener.step(input).0;
    match input {
        ListenerInput::Accepted { remote } => {},
        ListenerInput::HandshakeFinished { connection, result } => {
            if listener.is_upgrading(connection) {
                let i = listener.upgrade_index(connection);
                assert(listener.upgrade_at(connection, i));
                lemma_removed_upgrade(listener, i);
            }
        },
        ListenerInput::FirstByteTimedOut { connection } => {
            if listener.is_upgrading(connection) {
                let i = listener.upgrade_index(connection);
                assert(listener.upgrade_at(connection, i));
                lemma_removed_upgrade(listener, i);
            }
        },
        ListenerInput::IdentifyFinished { connection, result } => {
            if listener.is_upgrading(connection) {
                let i = listener.upgrade_index(connection);
                assert(listener.upgrade_at(connection, i));
                lemma_removed_upgrade(listener, i);
            }
        },
        ListenerInput::LivenessSessionClosed { connection } => {
            if listener.is_liveness_session(connection) {
                let i = listener.liveness_index(connection);
                assert(listener.liveness_at(connection, i));
                let removed = listener.liveness_sessions.remove(i);
                assert forall|a: int| 0 <= a < removed.len() implies #[trigger] removed[a] == (if a
                    < i {
                    listener.liveness_sessions[a]
                } else {
                    listener.liveness_sessions[a + 1]
                }) by {}
            }
        },
    }
}

/// Taking one upgrade out of the table keeps the listener's invariant.
pub proof fn lemma_removed_upgrade(listener: ListenerView, i: int)
    requires
        listener.wf(),
        0 <= i < listener.upgrades.len(),
    ensures
        listener.with_upgrades(listener.upgrades.remove(i)).wf(),
{
    let removed = listener.upgrades.remove(i);
    assert forall|a: int| 0 <= a < removed.len() implies #[trigger] removed[a] == (if a < i {
        listener.upgrades[a]
    } else {
        listener.upgrades[a + 1]
    }) by {}
}

/// A connection that arrives while every upgrade slot is taken changes
/// nothing: it is dropped, or turned away for its host, and takes no slot.
pub proof fn law_no_slot_is_taken_beyond_the_limit(listener: ListenerView, remote: RemoteHost)
    requires
        listener.wf(),
        listener.upgrades.len() >= listener.max_simultaneous_inbound_connects,
    ensures
        listener.accepted(remote).0.upgrades == listener.upgrades,
        !listener.is_held_back(remote) ==> listener.accepted(remote) == (
            listener,
            seq![ListenerAction::Drop],
        ),
{
}

/// A connection from a host that is held back never takes an upgrade slot,
/// and no handshake is started on it.
pub proof fn law_held_back_hosts_are_not_upgraded(listener: ListenerView, remote: RemoteHost)
    requires
        listener.wf(),
        listener.is_held_back(remote),
    ensures
        listener.accepted(remote).0.upgrades == listener.upgrades,
        listener.accepted(remote).1.len() == 1,
        listener.accepted(remote).1[0] is Reject || listener.accepted(remote).1[0] is ServeLiveness,
        !listener.admits_liveness(remote) ==> listener.accepted(remote) == (
            listener,
            seq![ListenerAction::Reject],
        ),
{
}

/// The listener tells of a connection only when protocol identification
/// succeeded on a connection whose handshake had revealed the peer: never on
/// an accept or a handshake alone.
pub proof fn law_inbound_connection_published_after_identification(
    listener: ListenerView,
    input: ListenerInput,
    connection: PeerConnection,
    k: int,
)
    requires
        listener.wf(),
        0 <= k < listener.step(input).1.len(),
        listener.step(input).1[k] == ListenerAction::Notify(
            ConnectionManagerEvent::PeerConnected(connection),
        ),
    ensures
        input matches ListenerInput::IdentifyFinished { connection: id, result: Ok(at) } && {
            &&& listener.is_upgrading(id)
            &&& listener.upgrade(id).stage == InboundStage::Identifying(connection.peer_node_id)
            &&& connection == (PeerConnection {
                id,
                peer_node_id: connection.peer_node_id,
                direction: ConnectionDirection::Inbound,
                established_at: at,
            })
        },
{
}

/// An inbound connection is identifying only after a handshake that
/// succeeded, and is then known under the node id of the key that the
/// handshake revealed.
/// Why a connection is identifying after a step: it was so before, or the
/// step is the handshake on it that succeeded and revealed the key with this
/// node id.
pub open spec fn identifying_is_accounted_for(
    listener: ListenerView,
    input: ListenerInput,
    connection: ConnectionId,
    node_id: NodeId,
) -> bool {
    ||| listener.is_upgrading(connection) && listener.upgrade(connection).stage
        == InboundStage::Identifying(node_id)
    ||| input matches ListenerInput::HandshakeFinished { connection: id, result: Ok(key) } && id
        == connection && listener.is_upgrading(connection) && listener.upgrade(connection).stage
        == InboundStage::Handshaking && node_id == NodeId::of_key(key@)
}

pub proof fn law_inbound_identifying_after_handshake(
    listener: ListenerView,
    input: ListenerInput,
    connection: ConnectionId,
    node_id: NodeId,
)
    requires
        listener.wf(),
        listener.step(input).0.is_upgrading(connection),
        listener.step(input).0.upgrade(connection).stage == InboundStage::Identifying(node_id),
    ensures
        identifying_is_accounted_for(listener, input, connection, node_id),
{
    law_step_keeps_upgrades_bounded(listener, input);
    let next = listener.step(input).0;
    let a = next.upgrade_index(connection);
    assert(next.upgrade_at(connection, a));
    lemma_unique_upgrade(next, connection, a);
    match input {
        ListenerInput::Accepted { remote } => {
            if !listener.is_held_back(remote) && listener.has_free_slot() {
                let fresh = InboundUpgrade {
                    connection: ConnectionId(listener.next_connection),
                    stage: InboundStage::Handshaking,
                };
                assert(next.upgrades == listener.upgrades.push(fresh));
                if a < listener.upgrades.len() {
                    assert(next.upgrades[a] == listener.upgrades[a]);
                    assert(listener.upgrade_at(connection, a));
                    lemma_unique_upgrade(listener, connection, a);
                } else {
                    assert(next.upgrades[a] == fresh);
                }
            } else {
                assert(next.upgrades == listener.upgrades);
                assert(listener.upgrade_at(connection, a));
                lemma_unique_upgrade(listener, connection, a);
            }
        },
        ListenerInput::HandshakeFinished { connection: id, result } => {
            if listener.is_upgrading(id) && listener.upgrade(id).stage
                == InboundStage::Handshaking {
                let i = listener.upgrade_index(id);
                assert(listener.upgrade_at(id, i));
                match result {
                    Ok(key) => {
                        assert(listener.upgrade_at(connection, a));
                        lemma_unique_upgrade(listener, connection, a);
                    },
                    Err(error) => {
                        lemma_kept_upgrade(listener, i, a);
                    },
                }
            }
        },
        ListenerInput::FirstByteTimedOut { connection: id } => {
            if listener.is_upgrading(id) && listener.upgrade(id).stage
                == InboundStage::Handshaking {
                let i = listener.upgrade_index(id);
                assert(listener.upgrade_at(id, i));
                lemma_kept_upgrade(listener, i, a);
            }
        },
        ListenerInput::IdentifyFinished { connection: id, result } => {
            if listener.is_upgrading(id) && listener.upgrade(id).stage
                != InboundStage::Handshaking {
                let i = listener.upgrade_index(id);
                assert(listener.upgrade_at(id, i));
                lemma_kept_upgrade(listener, i, a);
            }
        },
        ListenerInput::LivenessSessionClosed { connection: id } => {
            assert(next.upgrades == listener.upgrades);
            assert(listener.upgrade_at(connection, a));
            lemma_unique_upgrade(listener, connection, a);
        },
    }
}

/// An upgrade that stays when another one is taken out is the upgrade it was.
pub proof fn lemma_kept_upgrade(listener: ListenerView, i: int, a: int)
    requires
        listener.wf(),
        0 <= i < listener.upgrades.len(),
        0 <= a < listener.upgrades.len() - 1,
    ensures
        ({
            let next = listener.with_upgrades(listener.upgrades.remove(i));
            let kept = next.upgrades[a];
            listener.is_upgrading(kept.connection) && listener.upgrade(kept.connection) == kept
        }),
{
    let a0 = if a < i {
        a
    } else {
        a + 1
    };
    let kept = listener.upgrades.remove(i)[a];
    assert(kept == listener.upgrades[a0]);
    assert(listener.upgrade_at(kept.connection, a0));
    lemma_unique_upgrade(listener, kept.connection, a0);
}

/// Accepts inbound connections on behalf of the connection manager.
#[derive(Debug)]
pub struct PeerListener {
    max_simultaneous_inbound_connects: usize,
    allow_test_addresses: bool,
    time_to_first_byte: Delay,
    liveness_max_sessions: usize,
    liveness_cidr_allowlist: Vec<IpCidr>,
    upgrades: Vec<InboundUpgrade>,
    liveness_sessions: Vec<ConnectionId>,
    next_connection: u64,
}

impl View for PeerListener {
    type V = ListenerView;

    closed spec fn view(&self) -> ListenerView {
        ListenerView {
            max_simultaneous_inbound_connects: self.max_simultaneous_inbound_connects,
            allow_test_addresses: self.allow_test_addresses,
            time_to_first_byte: self.time_to_first_byte,
            liveness_max_sessions: self.liveness_max_sessions,
            liveness_cidr_allowlist: self.liveness_cidr_allowlist@,
            upgrades: self.upgrades@,
            liveness_sessions: self.liveness_sessions@,
            next_connection: self.next_connection,
        }
    }
}

impl PeerListener {
    /// A listener with the limits of the configuration and nothing in progress.
    pub fn new(config: &ConnectionManagerConfig) -> (listener: PeerListener)
        ensures
            listener@.wf(),
            listener@ == (ListenerView {
                max_simultaneous_inbound_connects: config.max_simultaneous_inbound_connects,
                allow_test_addresses: config.allow_test_addresses,
                time_to_first_byte: config.time_to_first_byte,
                liveness_max_sessions: config.liveness_max_sessions,
                liveness_cidr_allowlist: config.liveness_cidr_allowlist@,
                upgrades: Seq::empty(),
                liveness_sessions: Seq::empty(),
                next_connection: 0,
            }),
    {
        PeerListener {
            max_simultaneous_inbound_connects: config.max_simultaneous_inbound_connects,
            allow_test_addresses: config.allow_test_addresses,
            time_to_first_byte: config.time_to_first_byte,
            liveness_max_sessions: config.liveness_max_sessions,
            liveness_cidr_allowlist: config.liveness_cidr_allowlist.clone(),
            upgrades: Vec::new(),
            liveness_sessions: Vec::new(),
            next_connection: 0,
        }
    }

    /// How many connections hold an upgrade slot.
    pub fn upgrades_in_progress(&self) -> (count: usize)
        ensures
            count == self@.upgrades.len(),
    {
        self.upgrades.len()
    }

    /// How many liveness sessions are open.
    pub fn liveness_sessions_open(&self) -> (count: usize)
        ensures
            count == self@.liveness_sessions.len(),
    {
        self.liveness_sessions.len()
    }

    fn find_upgrade(&self, connection: ConnectionId) -> (found: Option<usize>)
        ensures
            match found {
                Some(i) => self@.upgrade_at(connection, i as int),
                None => !self@.is_upgrading(connection),
            },
    {
        let mut i: usize = 0;
        while i < self.upgrades.len()
            invariant
                i <= self.upgrades.len(),
                forall|j: int| 0 <= j < i ==> !self@.upgrade_at(connection, j),
            decreases self.upgrades.len() - i,
        {
            if self.upgrades[i].connection == connection {
                return Some(i);
            }
            i += 1;
        }
        None
    }

    fn find_liveness(&self, connection: ConnectionId) -> (found: Option<usize>)
        ensures
            match found {
                Some(i) => self@.liveness_at(connection, i as int),
                None => !self@.is_liveness_session(connection),
            },
    {
        let mut i: usize = 0;
        while i < self.liveness_sessions.len()
            invariant
                i <= self.liveness_sessions.len(),
                forall|j: int| 0 <= j < i ==> !self@.liveness_at(connection, j),
            decreases self.liveness_sessions.len() - i,
        {
            if self.liveness_sessions[i] == connection {
                return Some(i);
            }
            i += 1;
        }
        None
    }

    /// Judges a connection that the transport accepted.
    pub fn accepted(&mut self, remote: RemoteHost) -> (actions: Vec<ListenerAction>)
        requires
            old(self)@.wf(),
        ensures
            final(self)@.wf(),
            (final(self)@, actions@) == old(self)@.accepted(remote),
    {
        let connection = ConnectionId(self.next_connection);
        let mut actions: Vec<ListenerAction> = Vec::new();
        if remote.is_test_address() && !self.allow_test_addresses {
            if is_in_allowlist(&self.liveness_cidr_allowlist, remote)
                && self.liveness_sessions.len() < self.liveness_max_sessions
                && self.next_connection < u64::MAX {
                self.liveness_sessions.push(connection);
                self.next_connection = self.next_connection + 1;
                actions.push(ListenerAction::ServeLiveness { connection });
                assert(actions@ =~= seq![ListenerAction::ServeLiveness { connection }]);
            } else {
                actions.push(ListenerAction::Reject);
                assert(actions@ =~= seq![ListenerAction::Reject]);
            }
        } else if self.upgrades.len() < self.max_simultaneous_inbound_connects
            && self.next_connection < u64::MAX {
            self.upgrades.push(InboundUpgrade { connection, stage: InboundStage::Handshaking });
            self.next_connection = self.next_connection + 1;
            let time_to_first_byte = self.time_to_first_byte;
            actions.push(ListenerAction::StartHandshake { connection, time_to_first_byte });
            assert(actions@ =~= seq![
                ListenerAction::StartHandshake { connection, time_to_first_byte },
            ]);
        } else {
            actions.push(ListenerAction::Drop);
            assert(actions@ =~= seq![ListenerAction::Drop]);
        }
        actions
    }

    /// Gives up the slot of the upgrade at `i` after a failure.
    fn fail(&mut self, i: usize, error: ConnectionManagerError) -> (actions: Vec<ListenerAction>)
        requires
            old(self)@.wf(),
            i < old(self)@.upgrades.len(),
        ensures
            final(self)@.wf(),
            (final(self)@, actions@) == old(self)@.failed(
                old(self)@.upgrades[i as int].connection,
                error,
            ),
    {
        proof {
            lemma_unique_upgrade(self@, self@.upgrades[i as int].connection, i as int);
            lemma_removed_upgrade(self@, i as int);
        }
        let upgrade = self.upgrades.remove(i);
        let mut actions: Vec<ListenerAction> = Vec::new();
        actions.push(ListenerAction::Close { connection: upgrade.connection });
        actions.push(
            ListenerAction::Notify(ConnectionManagerEvent::PeerInboundConnectFailed(error)),
        );
        assert(actions@ =~= seq![
            ListenerAction::Close { connection: upgrade.connection },
            ListenerAction::Notify(ConnectionManagerEvent::PeerInboundConnectFailed(error)),
        ]);
        actions
    }

    /// Takes note that the handshake of a connection ended.
    pub fn handshake_finished(
        &mut self,
        connection: ConnectionId,
        result: Result<PublicKey, ConnectionManagerError>,
    ) -> (actions: Vec<ListenerAction>)
        requires
            old(self)@.wf(),
        ensures
            final(self)@.wf(),
            (final(self)@, actions@) == old(self)@.handshake_finished(
                connection,
                match result {
                    Ok(key) => Ok(key@),
                    Err(error) => Err(error),
                },
            ),
    {
        let i = match self.find_upgrade(connection) {
            Some(i) => i,
            None => {
                return Vec::new();
            },
        };
        proof {
            lemma_unique_upgrade(self@, connection, i as int);
        }
        if self.upgrades[i].stage != InboundStage::Handshaking {
            return Vec::new();
        }
        match result {
            Ok(revealed) => {
                let node_id = NodeId::from_key(&revealed);
                self.upgrades.set(
                    i,
                    InboundUpgrade { connection, stage: InboundStage::Identifying(node_id) },
                );
                let mut actions: Vec<ListenerAction> = Vec::new();
                actions.push(ListenerAction::Identify { connection });
                assert(actions@ =~= seq![ListenerAction::Identify { connection }]);
                actions
            },
            Err(error) => self.fail(i, error),
        }
    }

    /// Takes note that the first byte of a handshake did not arrive in time.
    pub fn first_byte_timed_out(&mut self, connection: ConnectionId) -> (actions: Vec<
        ListenerAction,
    >)
        requires
            old(self)@.wf(),
        ensures
            final(self)@.wf(),
            (final(self)@, actions@) == old(self)@.first_byte_timed_out(connection),
    {
        let i = match self.find_upgrade(connection) {
            Some(i) => i,
            None => {
                return Vec::new();
            },
        };
        proof {
            lemma_unique_upgrade(self@, connection, i as int);
        }
        if self.upgrades[i].stage != InboundStage::Handshaking {
            return Vec::new();
        }
        self.fail(i, ConnectionManagerError::NoiseProtocolTimeout)
    }

    /// Takes note that the protocol identification of a connection ended.
    pub fn identify_finished(
        &mut self,
        connection: ConnectionId,
        result: Result<u64, ConnectionManagerError>,
    ) -> (actions: Vec<ListenerAction>)
        requires
            old(self)@.wf(),
        ensures
            final(self)@.wf(),
            (final(self)@, actions@) == old(self)@.identify_finished(connection, result),
    {
        let i = match self.find_upgrade(connection) {
            Some(i) => i,
            None => {
                return Vec::new();
            },
        };
        proof {
            lemma_unique_upgrade(self@, connection, i as int);
        }
        match self.upgrades[i].stage {
            InboundStage::Handshaking => Vec::new(),
            InboundStage::Identifying(node_id) => match result {
                Ok(established_at) => {
                    proof {
                        lemma_removed_upgrade(self@, i as int);
                    }
                    self.upgrades.remove(i);
                    let event = ConnectionManagerEvent::PeerConnected(
                        PeerConnection {
                            id: connection,
                            peer_node_id: node_id,
                            direction: ConnectionDirection::Inbound,
                            established_at,
                        },
                    );
                    let mut actions: Vec<ListenerAction> = Vec::new();
                    actions.push(ListenerAction::Notify(event));
                    assert(actions@ =~= seq![ListenerAction::Notify(event)]);
                    actions
                },
                Err(error) => self.fail(i, error),
            },
        }
    }

    /// Takes note that a liveness session ended.
    pub fn liveness_session_closed(&mut self, connection: ConnectionId)
        requires
            old(self)@.wf(),
        ensures
            final(self)@.wf(),
            final(self)@ == old(self)@.liveness_session_closed(connection).0,
    {
        match self.find_liveness(connection) {
            Some(i) => {
                proof {
                    lemma_unique_liveness(self@, connection, i as int);
                    law_step_keeps_upgrades_bounded(
                        self@,
                        ListenerInput::LivenessSessionClosed { connection },
                    );
                }
                self.liveness_sessions.remove(i);
            },
            None => {},
        }
    }

    /// Takes the next step for anything that can happen to the listener.
    pub fn handle(&mut self, input: ListenerInput) -> (actions: Vec<ListenerAction>)
        requires
            old(self)@.wf(),
        ensures
            final(self)@.wf(),
            (final(self)@, actions@) == old(self)@.step(input),
    {
        match input {
            ListenerInput::Accepted { remote } => self.accepted(remote),
            ListenerInput::HandshakeFinished { connection, result } => self.handshake_finished(
                connection,
                result,
            ),
            ListenerInput::FirstByteTimedOut { connection } => self.first_byte_timed_out(
                connection,
            ),
            ListenerInput::IdentifyFinished { connection, result } => self.identify_finished(
                connection,
                result,
            ),
            ListenerInput::LivenessSessionClosed { connection } => {
                self.liveness_session_closed(connection);
                Vec::new()
            },
        }
    }
}

} // verus!
