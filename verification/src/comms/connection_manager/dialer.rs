//! The dialer: outbound connection establishment with bounded retries, a
//! backoff policy, one dial in flight for each peer, and cancellation.
//!
//! A dial walks through four stages. It connects to the peer's addresses in
//! the order in which the peer record lists them, attempt `k` (counted from
//! one) going to address `(k - 1) mod n`. A failed connect is followed by a
//! wait that the backoff policy sets, and then by the next attempt, until
//! `max_dial_attempts` attempts were made. After a connect the handshake
//! runs, and after the handshake the protocol identification. A failure of
//! either ends the dial; only connects are retried.
//!
//! A second dial of a peer whose dial is in flight joins it: no second
//! connection is opened, and both callers receive the outcome of the one dial.
//!
//! Cancelling marks the dial. The mark is honoured when the dial next decides
//! what to do with a transport: when a connect finished, or a wait is over.
//! A dial whose handshake has begun runs to its end.

use crate::comms::backoff::Backoff;
use crate::comms::connection_manager::config::Delay;
use crate::comms::connection_manager::error::ConnectionManagerError;
use crate::comms::connection_manager::manager::ConnectionManagerEvent;
use crate::comms::connection_manager::peer_connection::{
    ConnectionDirection,
    ConnectionId,
    PeerConnection,
};
use crate::comms::peer::{NodeId, Peer, PublicKey};
use multiaddr::Multiaddr;
use vstd::prelude::*;

verus! {

/// The token by which a caller recognises the reply to its request.
#[derive(Clone, Copy, Debug, PartialEq, Eq, Structural, Hash)]
pub struct ReplyToken(pub u64);

/// What the dialer is asked to do.
#[derive(Debug, PartialEq, Eq)]
pub enum DialerRequest {
    Dial(Box<Peer>, ReplyToken),
    CancelPendingDial(NodeId),
}

/// How a dial ended.
pub type DialOutcome = Result<PeerConnection, ConnectionManagerError>;

/// Where a dial stands.
#[derive(Clone, Copy, Debug, PartialEq, Eq, Structural)]
pub enum DialStage {
    /// A transport connect is under way.
    Connecting,
    /// The last connect failed and the backoff delay runs.
    Waiting,
    /// The transport is connected and the handshake is under way.
    Handshaking,
    /// The peer is authenticated and protocol identification is under way.
    Identifying,
}

/// What the tasks that own the transports report of a session they set up.
#[derive(Clone, Copy, Debug, PartialEq, Eq, Structural)]
pub struct EstablishedSession {
    pub connection: ConnectionId,
    /// In milliseconds of the caller's clock.
    pub established_at: u64,
}

/// What the dialer asks of the tasks that own the transports.
#[derive(Debug, PartialEq, Eq)]
pub enum DialerAction {
    /// Connect the transport to this address of the peer.
    Connect { node_id: NodeId, address: Multiaddr, attempt: usize },
    /// Report back when the delay is over.
    Wait { node_id: NodeId, delay: Delay },
    /// Run the handshake on the connected transport, expecting the peer's key.
    Handshake { node_id: NodeId },
    /// Run protocol identification on the authenticated channel.
    Identify { node_id: NodeId },
    /// Hand the event to the connection manager.
    Notify(ConnectionManagerEvent),
    /// Resolve the caller's reply with the outcome of the dial.
    Reply { reply: ReplyToken, result: DialOutcome },
}

/// The lifecycle event that tells of the outcome of the dial of `node_id`.
pub open spec fn outcome_event(node_id: NodeId, outcome: DialOutcome) -> ConnectionManagerEvent {
    match outcome {
        Ok(connection) => ConnectionManagerEvent::PeerConnected(connection),
        Err(error) => ConnectionManagerEvent::PeerConnectFailed(node_id, error),
    }
}

/// What ends a dial: the event for the connection manager, then the reply to
/// each caller in the order in which they asked.
pub open spec fn finish_actions(
    node_id: NodeId,
    replies: Seq<ReplyToken>,
    outcome: DialOutcome,
) -> Seq<DialerAction> {
    seq![DialerAction::Notify(outcome_event(node_id, outcome))] + Seq::new(
        replies.len(),
        |k: int| DialerAction::Reply { reply: replies[k], result: outcome },
    )
}

/// A dial in flight, as the contracts speak of it.
pub struct PendingDialView {
    pub node_id: NodeId,
    pub public_key: Seq<u8>,
    pub addresses: Seq<Multiaddr>,
    pub replies: Seq<ReplyToken>,
    /// The number of connect attempts that were started.
    pub attempts: usize,
    pub stage: DialStage,
    pub cancelled: bool,
}

impl PendingDialView {
    /// The address that attempt number `attempt`, counted from one, goes to.
    pub open spec fn address_of_attempt(self, attempt: usize) -> Multiaddr
        recommends
            attempt >= 1,
            self.addresses.len() > 0,
    {
        self.addresses[((attempt - 1) as int) % (self.addresses.len() as int)]
    }

    pub open spec fn wf(self, max_dial_attempts: usize) -> bool {
        &&& self.addresses.len() > 0
        &&& self.replies.len() > 0
        &&& 1 <= self.attempts <= max_dial_attempts
        &&& self.stage == DialStage::Waiting ==> self.attempts < max_dial_attempts
    }
}

/// What happens to a dialer.
pub enum DialerInput {
    /// A caller asks for a connection to the peer.
    Dial { peer: Peer, reply: ReplyToken },
    /// A caller withdraws its interest in the dial of a peer.
    CancelPendingDial { node_id: NodeId },
    /// The transport connect of a dial ended.
    ConnectFinished { node_id: NodeId, result: Result<(), ConnectionManagerError> },
    /// The backoff delay of a dial is over.
    BackoffElapsed { node_id: NodeId },
    /// The handshake of a dial ended; on success it revealed the peer's key.
    HandshakeFinished { node_id: NodeId, result: Result<PublicKey, ConnectionManagerError> },
    /// The protocol identification of a dial ended.
    IdentifyFinished { node_id: NodeId, result: Result<EstablishedSession, ConnectionManagerError> },
}

/// The dialer, as the contracts speak of it.
pub struct DialerView<TBackoff> {
    pub backoff: TBackoff,
    pub max_dial_attempts: usize,
    pub pending: Seq<PendingDialView>,
}

impl<TBackoff: Backoff> DialerView<TBackoff> {
    pub open spec fn has_at(self, node_id: NodeId, i: int) -> bool {
        0 <= i < self.pending.len() && self.pending[i].node_id == node_id
    }

    /// Whether a dial of the peer is in flight.
    pub open spec fn is_pending(self, node_id: NodeId) -> bool {
        exists|i: int| self.has_at(node_id, i)
    }

    /// The place of the dial of the peer among the dials in flight.
    pub open spec fn index_of(self, node_id: NodeId) -> int {
        choose|i: int| self.has_at(node_id, i)
    }

    /// The dial of the peer.
    pub open spec fn get(self, node_id: NodeId) -> PendingDialView
        recommends
            self.is_pending(node_id),
    {
        self.pending[self.index_of(node_id)]
    }

    /// No peer has two dials in flight, and every dial is within its bounds.
    pub open spec fn wf(self) -> bool {
        &&& forall|i: int, j: int|
            0 <= i < j < self.pending.len() ==> self.pending[i].node_id != self.pending[j].node_id
        &&& forall|i: int|
            0 <= i < self.pending.len() ==> (#[trigger] self.pending[i]).wf(self.max_dial_attempts)
    }

    pub open spec fn with_pending(self, pending: Seq<PendingDialView>) -> Self {
        DialerView { backoff: self.backoff, max_dial_attempts: self.max_dial_attempts, pending }
    }

    /// The dialer with the dial of `node_id` replaced.
    pub open spec fn replaced(self, node_id: NodeId, dial: PendingDialView) -> Self {
        self.with_pending(self.pending.update(self.index_of(node_id), dial))
    }

    /// The end of the dial of `node_id`: the dial leaves the table, the
    /// connection manager learns of the outcome, and every caller is answered.
    pub open spec fn finished(self, node_id: NodeId, outcome: DialOutcome) -> (
        Self,
        Seq<DialerAction>,
    ) {
        (
            self.with_pending(self.pending.remove(self.index_of(node_id))),
            finish_actions(node_id, self.get(node_id).replies, outcome),
        )
    }

    pub open spec fn dial(self, peer: Peer, reply: ReplyToken) -> (Self, Seq<DialerAction>) {
        let node_id = peer.node_id;
        if self.is_pending(node_id) {
            let dial = self.get(node_id);
            (
                self.replaced(
                    node_id,
                    PendingDialView { replies: dial.replies.push(reply), ..dial },
                ),
                Seq::empty(),
            )
        } else if peer.addresses@.len() == 0 {
            (
                self,
                finish_actions(
                    node_id,
                    seq![reply],
                    Err(ConnectionManagerError::PeerHasNoAddresses),
                ),
            )
        } else if self.max_dial_attempts == 0 {
            (
                self,
                finish_actions(
                    node_id,
                    seq![reply],
                    Err(ConnectionManagerError::DialConnectFailedAllAddresses),
                ),
            )
        } else {
            (
                self.with_pending(
                    self.pending.push(
                        PendingDialView {
                            node_id,
                            public_key: peer.public_key@,
                            addresses: peer.addresses@,
                            replies: seq![reply],
                            attempts: 1,
                            stage: DialStage::Connecting,
                            cancelled: false,
                        },
                    ),
                ),
                seq![DialerAction::Connect { node_id, address: peer.addresses@[0], attempt: 1 }],
            )
        }
    }

    pub open spec fn cancel_pending_dial(self, node_id: NodeId) -> (Self, Seq<DialerAction>) {
        if self.is_pending(node_id) {
            (
                self.replaced(node_id, PendingDialView { cancelled: true, ..self.get(node_id) }),
                Seq::empty(),
            )
        } else {
            (self, Seq::empty())
        }
    }

    pub open spec fn connect_finished(
        self,
        node_id: NodeId,
        result: Result<(), ConnectionManagerError>,
    ) -> (Self, Seq<DialerAction>) {
        if !self.is_pending(node_id) || self.get(node_id).stage != DialStage::Connecting {
            (self, Seq::empty())
        } else if self.get(node_id).cancelled {
            self.finished(node_id, Err(ConnectionManagerError::DialCancelled))
        } else {
            let dial = self.get(node_id);
            match result {
                Ok(()) => (
                    self.replaced(
                        node_id,
                        PendingDialView { stage: DialStage::Handshaking, ..dial },
                    ),
                    seq![DialerAction::Handshake { node_id }],
                ),
                Err(error) => if dial.attempts >= self.max_dial_attempts {
                    self.finished(node_id, Err(error))
                } else {
                    (
                        self.replaced(
                            node_id,
                            PendingDialView { stage: DialStage::Waiting, ..dial },
                        ),
                        seq![
                            DialerAction::Wait {
                                node_id,
                                delay: self.backoff.delay_for(dial.attempts),
                            },
                        ],
                    )
                },
            }
        }
    }

    pub open spec fn backoff_elapsed(self, node_id: NodeId) -> (Self, Seq<DialerAction>) {
        if !self.is_pending(node_id) || self.get(node_id).stage != DialStage::Waiting {
            (self, Seq::empty())
        } else if self.get(node_id).cancelled {
            self.finished(node_id, Err(ConnectionManagerError::DialCancelled))
        } else {
            let dial = self.get(node_id);
            let attempt = (dial.attempts + 1) as usize;
            (
                self.replaced(
                    node_id,
                    PendingDialView { attempts: attempt, stage: DialStage::Connecting, ..dial },
                ),
                seq![
                    DialerAction::Connect {
                        node_id,
                        address: dial.address_of_attempt(attempt),
                        attempt,
                    },
                ],
            )
        }
    }

    /// Whether the key that a handshake revealed is the one that was dialed:
    /// it is the peer's key, and it hashes to the peer's node id.
    pub open spec fn identity_confirmed(dial: PendingDialView, revealed: Seq<u8>) -> bool {
        revealed == dial.public_key && NodeId::of_key(revealed) == dial.node_id
    }

    pub open spec fn handshake_finished(
        self,
        node_id: NodeId,
        result: Result<Seq<u8>, ConnectionManagerError>,
    ) -> (Self, Seq<DialerAction>) {
        if !self.is_pending(node_id) || self.get(node_id).stage != DialStage::Handshaking {
            (self, Seq::empty())
        } else {
            let dial = self.get(node_id);
            match result {
                Ok(revealed) => if Self::identity_confirmed(dial, revealed) {
                    (
                        self.replaced(
                            node_id,
                            PendingDialView { stage: DialStage::Identifying, ..dial },
                        ),
                        seq![DialerAction::Identify { node_id }],
                    )
                } else {
                    self.finished(node_id, Err(ConnectionManagerError::DialedPublicKeyMismatch))
                },
                Err(error) => self.finished(node_id, Err(error)),
            }
        }
    }

    pub open spec fn identify_finished(
        self,
        node_id: NodeId,
        result: Result<EstablishedSession, ConnectionManagerError>,
    ) -> (Self, Seq<DialerAction>) {
        if !self.is_pending(node_id) || self.get(node_id).stage != DialStage::Identifying {
            (self, Seq::empty())
        } else {
            match result {
                Ok(session) => self.finished(
                    node_id,
                    Ok(
                        PeerConnection {
                            id: session.connection,
                            peer_node_id: node_id,
                            direction: ConnectionDirection::Outbound,
                            established_at: session.established_at,
                        },
                    ),
                ),
                Err(error) => self.finished(node_id, Err(error)),
            }
        }
    }

    /// The next state of the dialer and what it asks for, for anything that
    /// can happen to it.
    pub open spec fn step(self, input: DialerInput) -> (Self, Seq<DialerAction>) {
        match input {
            DialerInput::Dial { peer, reply } => self.dial(peer, reply),
            DialerInput::CancelPendingDial { node_id } => self.cancel_pending_dial(node_id),
            DialerInput::ConnectFinished { node_id, result } => self.connect_finished(
                node_id,
                result,
            ),
            DialerInput::BackoffElapsed { node_id } => self.backoff_elapsed(node_id),
            DialerInput::HandshakeFinished { node_id, result } => self.handshake_finished(
                node_id,
                match result {
                    Ok(key) => Ok(key@),
                    Err(error) => Err(error),
                },
            ),
            DialerInput::IdentifyFinished { node_id, result } => self.identify_finished(
                node_id,
                result,
            ),
        }
    }
}

#[derive(Debug)]
struct PendingDial {
    peer: Peer,
    replies: Vec<ReplyToken>,
    attempts: usize,
    stage: DialStage,
    cancelled: bool,
}

impl View for PendingDial {
    type V = PendingDialView;

    closed spec fn view(&self) -> PendingDialView {
        PendingDialView {
            node_id: self.peer.node_id,
            public_key: self.peer.public_key@,
            addresses: self.peer.addresses@,
            replies: self.replies@,
            attempts: self.attempts,
            stage: self.stage,
            cancelled: self.cancelled,
        }
    }
}

/// Performs outbound dials on behalf of the connection manager.
#[derive(Debug)]
pub struct Dialer<TBackoff> {
    max_dial_attempts: usize,
    backoff: TBackoff,
    pending: Vec<PendingDial>,
}

impl<TBackoff: Backoff> View for Dialer<TBackoff> {
    type V = DialerView<TBackoff>;

    closed spec fn view(&self) -> DialerView<TBackoff> {
        DialerView {
            backoff: self.backoff,
            max_dial_attempts: self.max_dial_attempts,
            pending: Seq::new(self.pending@.len(), |i: int| self.pending@[i]@),
        }
    }
}

/// Under the dialer's invariant a peer's dial is found at one place only.
pub proof fn lemma_one_dial_per_peer<TBackoff: Backoff>(
    dialer: DialerView<TBackoff>,
    node_id: NodeId,
    i: int,
)
    requires
        dialer.wf(),
        dialer.has_at(node_id, i),
    ensures
        dialer.is_pending(node_id),
        dialer.index_of(node_id) == i,
        dialer.get(node_id) == dialer.pending[i],
{
    let j = dialer.index_of(node_id);
    assert(dialer.has_at(node_id, j));
    if i < j {
        assert(dialer.pending[i].node_id != dialer.pending[j].node_id);
    } else if j < i {
        assert(dialer.pending[j].node_id != dialer.pending[i].node_id);
    }
}

impl<TBackoff: Backoff> Dialer<TBackoff> {
    /// A dialer with no dial in flight.
    pub fn new(max_dial_attempts: usize, backoff: TBackoff) -> (dialer: Self)
        ensures
            dialer@.wf(),
            dialer@.pending == Seq::<PendingDialView>::empty(),
            dialer@.max_dial_attempts == max_dial_attempts,
            dialer@.backoff == backoff,
    {
        let dialer = Dialer { max_dial_attempts, backoff, pending: Vec::new() };
        assert(dialer@.pending =~= Seq::<PendingDialView>::empty());
        dialer
    }

    fn find(&self, node_id: NodeId) -> (found: Option<usize>)
        ensures
            match found {
                Some(i) => self@.has_at(node_id, i as int),
                None => !self@.is_pending(node_id),
            },
    {
        let mut i: usize = 0;
        while i < self.pending.len()
            invariant
                i <= self.pending.len(),
                forall|j: int| 0 <= j < i ==> !self@.has_at(node_id, j),
            decreases self.pending.len() - i,
        {
            if self.pending[i].peer.node_id == node_id {
                return Some(i);
            }
            i += 1;
        }
        None
    }

    /// Whether a dial of the peer is in flight.
    pub fn is_pending(&self, node_id: NodeId) -> (pending: bool)
        ensures
            pending == self@.is_pending(node_id),
    {
        self.find(node_id).is_some()
    }

    /// How many dials are in flight.
    pub fn pending_count(&self) -> (count: usize)
        ensures
            count == self@.pending.len(),
    {
        self.pending.len()
    }

    /// Takes the dial at `i` out of the table.
    fn take(&mut self, i: usize) -> (dial: PendingDial)
        requires
            i < old(self)@.pending.len(),
        ensures
            dial@ == old(self)@.pending[i as int],
            final(self)@ == old(self)@.with_pending(old(self)@.pending.remove(i as int)),
    {
        let dial = self.pending.remove(i);
        assert(self@.pending =~= old(self)@.pending.remove(i as int));
        dial
    }

    /// Puts a dial into the table at `i`.
    fn put(&mut self, i: usize, dial: PendingDial)
        requires
            i <= old(self)@.pending.len(),
        ensures
            final(self)@ == old(self)@.with_pending(old(self)@.pending.insert(i as int, dial@)),
    {
        let ghost view = dial@;
        self.pending.insert(i, dial);
        assert(self@.pending =~= old(self)@.pending.insert(i as int, view));
    }

    /// Ends a dial that was taken out of the table.
    fn conclude(dial: PendingDial, outcome: DialOutcome) -> (actions: Vec<DialerAction>)
        ensures
            actions@ == finish_actions(dial@.node_id, dial@.replies, outcome),
    {
        let node_id = dial.peer.node_id;
        let mut actions: Vec<DialerAction> = Vec::new();
        let event = match &outcome {
            Ok(connection) => ConnectionManagerEvent::PeerConnected(*connection),
            Err(error) => ConnectionManagerEvent::PeerConnectFailed(node_id, error.clone()),
        };
        actions.push(DialerAction::Notify(event));
        let mut k: usize = 0;
        while k < dial.replies.len()
            invariant
                k <= dial.replies.len(),
                actions@.len() == k + 1,
                actions@[0] == DialerAction::Notify(outcome_event(node_id, outcome)),
                forall|j: int|
                    0 <= j < k ==> actions@[j + 1] == (DialerAction::Reply {
                        reply: dial.replies@[j],
                        result: outcome,
                    }),
            decreases dial.replies.len() - k,
        {
            let result: DialOutcome = match &outcome {
                Ok(connection) => Ok(*connection),
                Err(error) => Err(error.clone()),
            };
            actions.push(DialerAction::Reply { reply: dial.replies[k], result });
            k += 1;
        }
        assert(actions@ =~= finish_actions(dial@.node_id, dial@.replies, outcome));
        actions
    }

    /// Starts a dial of the peer, or joins the one that is in flight.
    pub fn dial(&mut self, peer: Peer, reply: ReplyToken) -> (actions: Vec<DialerAction>)
        requires
            old(self)@.wf(),
        ensures
            final(self)@.wf(),
            (final(self)@, actions@) == old(self)@.dial(peer, reply),
    {
        let node_id = peer.node_id;
        match self.find(node_id) {
            Some(i) => {
                proof {
                    lemma_one_dial_per_peer(self@, node_id, i as int);
                }
                let mut dial = self.take(i);
                dial.replies.push(reply);
                self.put(i, dial);
                proof {
                    let before = old(self)@;
                    assert(self@.pending =~= before.pending.update(
                        i as int,
                        PendingDialView {
                            replies: before.pending[i as int].replies.push(reply),
                            ..before.pending[i as int]
                        },
                    ));
                }
                Vec::new()
            },
            None => {
                if peer.addresses.len() == 0 {
                    let mut replies: Vec<ReplyToken> = Vec::new();
                    replies.push(reply);
                    let dial = PendingDial {
                        peer,
                        replies,
                        attempts: 0,
                        stage: DialStage::Connecting,
                        cancelled: false,
                    };
                    assert(dial@.replies =~= seq![reply]);
                    Self::conclude(dial, Err(ConnectionManagerError::PeerHasNoAddresses))
                } else if self.max_dial_attempts == 0 {
                    let mut replies: Vec<ReplyToken> = Vec::new();
                    replies.push(reply);
                    let dial = PendingDial {
                        peer,
                        replies,
                        attempts: 0,
                        stage: DialStage::Connecting,
                        cancelled: false,
                    };
                    assert(dial@.replies =~= seq![reply]);
                    Self::conclude(
                        dial,
                        Err(ConnectionManagerError::DialConnectFailedAllAddresses),
                    )
                } else {
                    let address = peer.addresses[0].clone();
                    let mut replies: Vec<ReplyToken> = Vec::new();
                    replies.push(reply);
                    let dial = PendingDial {
                        peer,
                        replies,
                        attempts: 1,
                        stage: DialStage::Connecting,
                        cancelled: false,
                    };
                    assert(dial@.replies =~= seq![reply]);
                    let n = self.pending.len();
                    self.put(n, dial);
                    let mut actions: Vec<DialerAction> = Vec::new();
                    actions.push(DialerAction::Connect { node_id, address, attempt: 1 });
                    proof {
                        let before = old(self)@;
                        assert(self@.pending =~= before.pending.push(dial@));
                        assert forall|a: int, b: int|
                            0 <= a < b < self@.pending.len() implies self@.pending[a].node_id
                            != self@.pending[b].node_id by {
                            if b == n {
                                assert(!before.has_at(node_id, a));
                            }
                        }
                        assert(actions@ =~= seq![
                            DialerAction::Connect { node_id, address: peer.addresses@[0], attempt: 1 },
                        ]);
                    }
                    actions
                }
            },
        }
    }

    /// Marks the dial of the peer as cancelled. Where no dial of the peer is
    /// in flight nothing changes. Nothing is asked of anyone and no error is
    /// raised either way.
    pub fn cancel_pending_dial(&mut self, node_id: NodeId)
        requires
            old(self)@.wf(),
        ensures
            final(self)@.wf(),
            final(self)@ == old(self)@.cancel_pending_dial(node_id).0,
    {
        match self.find(node_id) {
            Some(i) => {
                proof {
                    lemma_one_dial_per_peer(self@, node_id, i as int);
                }
                let mut dial = self.take(i);
                dial.cancelled = true;
                self.put(i, dial);
                proof {
                    let before = old(self)@;
                    assert(self@.pending =~= before.pending.update(
                        i as int,
                        PendingDialView { cancelled: true, ..before.pending[i as int] },
                    ));
                }
            },
            None => {},
        }
    }

    /// Sets the stage of the dial at `i`.
    fn set_stage(&mut self, i: usize, stage: DialStage, attempts: usize)
        requires
            i < old(self)@.pending.len(),
        ensures
            final(self)@ == old(self)@.with_pending(
                old(self)@.pending.update(
                    i as int,
                    PendingDialView { attempts, stage, ..old(self)@.pending[i as int] },
                ),
            ),
    {
        let mut dial = self.take(i);
        dial.stage = stage;
        dial.attempts = attempts;
        self.put(i, dial);
        proof {
            let before = old(self)@;
            assert(self@.pending =~= before.pending.update(
                i as int,
                PendingDialView { attempts, stage, ..before.pending[i as int] },
            ));
        }
    }

    /// Ends the dial at `i` with the outcome.
    fn finish(&mut self, i: usize, outcome: DialOutcome) -> (actions: Vec<DialerAction>)
        requires
            old(self)@.wf(),
            i < old(self)@.pending.len(),
        ensures
            final(self)@.wf(),
            (final(self)@, actions@) == old(self)@.finished(
                old(self)@.pending[i as int].node_id,
                outcome,
            ),
    {
        proof {
            lemma_one_dial_per_peer(self@, self@.pending[i as int].node_id, i as int);
        }
        let dial = self.take(i);
        Self::conclude(dial, outcome)
    }

    /// Takes note that the transport connect of a dial ended.
    pub fn connect_finished(
        &mut self,
        node_id: NodeId,
        result: Result<(), ConnectionManagerError>,
    ) -> (actions: Vec<DialerAction>)
        requires
            old(self)@.wf(),
        ensures
            final(self)@.wf(),
            (final(self)@, actions@) == old(self)@.connect_finished(node_id, result),
    {
        let i = match self.find(node_id) {
            Some(i) => i,
            None => {
                return Vec::new();
            },
        };
        proof {
            lemma_one_dial_per_peer(self@, node_id, i as int);
        }
        if self.pending[i].stage != DialStage::Connecting {
            return Vec::new();
        }
        if self.pending[i].cancelled {
            return self.finish(i, Err(ConnectionManagerError::DialCancelled));
        }
        let attempts = self.pending[i].attempts;
        match result {
            Ok(()) => {
                self.set_stage(i, DialStage::Handshaking, attempts);
                let mut actions: Vec<DialerAction> = Vec::new();
                actions.push(DialerAction::Handshake { node_id });
                assert(actions@ =~= seq![DialerAction::Handshake { node_id }]);
                actions
            },
            Err(error) => {
                if attempts >= self.max_dial_attempts {
                    self.finish(i, Err(error))
                } else {
                    let delay = self.backoff.calculate_backoff(attempts);
                    self.set_stage(i, DialStage::Waiting, attempts);
                    let mut actions: Vec<DialerAction> = Vec::new();
                    actions.push(DialerAction::Wait { node_id, delay });
                    assert(actions@ =~= seq![DialerAction::Wait { node_id, delay }]);
                    actions
                }
            },
        }
    }

    /// Takes note that the backoff delay of a dial is over.
    pub fn backoff_elapsed(&mut self, node_id: NodeId) -> (actions: Vec<DialerAction>)
        requires
            old(self)@.wf(),
        ensures
            final(self)@.wf(),
            (final(self)@, actions@) == old(self)@.backoff_elapsed(node_id),
    {
        let i = match self.find(node_id) {
            Some(i) => i,
            None => {
                return Vec::new();
            },
        };
        proof {
            lemma_one_dial_per_peer(self@, node_id, i as int);
        }
        if self.pending[i].stage != DialStage::Waiting {
            return Vec::new();
        }
        if self.pending[i].cancelled {
            return self.finish(i, Err(ConnectionManagerError::DialCancelled));
        }
        let attempt = self.pending[i].attempts + 1;
        let count = self.pending[i].peer.addresses.len();
        let address = self.pending[i].peer.addresses[(attempt - 1) % count].clone();
        self.set_stage(i, DialStage::Connecting, attempt);
        let mut actions: Vec<DialerAction> = Vec::new();
        actions.push(DialerAction::Connect { node_id, address, attempt });
        assert(actions@ =~= seq![DialerAction::Connect { node_id, address, attempt }]);
        actions
    }

    /// Takes note that the handshake of a dial ended.
    pub fn handshake_finished(
        &mut self,
        node_id: NodeId,
        result: Result<PublicKey, ConnectionManagerError>,
    ) -> (actions: Vec<DialerAction>)
        requires
            old(self)@.wf(),
        ensures
            final(self)@.wf(),
            (final(self)@, actions@) == old(self)@.handshake_finished(
                node_id,
                match result {
                    Ok(key) => Ok(key@),
                    Err(error) => Err(error),
                },
            ),
    {
        let i = match self.find(node_id) {
            Some(i) => i,
            None => {
                return Vec::new();
            },
        };
        proof {
            lemma_one_dial_per_peer(self@, node_id, i as int);
        }
        if self.pending[i].stage != DialStage::Handshaking {
            return Vec::new();
        }
        let attempts = self.pending[i].attempts;
        match result {
            Ok(revealed) => {
                if revealed.matches(&self.pending[i].peer.public_key) && NodeId::from_key(
                    &revealed,
                ) == node_id {
                    self.set_stage(i, DialStage::Identifying, attempts);
                    let mut actions: Vec<DialerAction> = Vec::new();
                    actions.push(DialerAction::Identify { node_id });
                    assert(actions@ =~= seq![DialerAction::Identify { node_id }]);
                    actions
                } else {
                    self.finish(i, Err(ConnectionManagerError::DialedPublicKeyMismatch))
                }
            },
            Err(error) => self.finish(i, Err(error)),
        }
    }

    /// Takes note that the protocol identification of a dial ended.
    pub fn identify_finished(
        &mut self,
        node_id: NodeId,
        result: Result<EstablishedSession, ConnectionManagerError>,
    ) -> (actions: Vec<DialerAction>)
        requires
            old(self)@.wf(),
        ensures
            final(self)@.wf(),
            (final(self)@, actions@) == old(self)@.identify_finished(node_id, result),
    {
        let i = match self.find(node_id) {
            Some(i) => i,
            None => {
                return Vec::new();
            },
        };
        proof {
            lemma_one_dial_per_peer(self@, node_id, i as int);
        }
        if self.pending[i].stage != DialStage::Identifying {
            return Vec::new();
        }
        match result {
            Ok(session) => self.finish(
                i,
                Ok(
                    PeerConnection {
                        id: session.connection,
                        peer_node_id: node_id,
                        direction: ConnectionDirection::Outbound,
                        established_at: session.established_at,
                    },
                ),
            ),
            Err(error) => self.finish(i, Err(error)),
        }
    }

    /// Serves a request of the connection manager.
    pub fn handle_request(&mut self, request: DialerRequest) -> (actions: Vec<DialerAction>)
        requires
            old(self)@.wf(),
        ensures
            final(self)@.wf(),
            (final(self)@, actions@) == match request {
                DialerRequest::Dial(peer, reply) => old(self)@.dial(*peer, reply),
                DialerRequest::CancelPendingDial(node_id) => old(self)@.cancel_pending_dial(
                    node_id,
                ),
            },
    {
        match request {
            DialerRequest::Dial(peer, reply) => self.dial(*peer, reply),
            DialerRequest::CancelPendingDial(node_id) => {
                self.cancel_pending_dial(node_id);
                Vec::new()
            },
        }
    }

    /// Takes the next step for anything that can happen to the dialer.
    pub fn handle(&mut self, input: DialerInput) -> (actions: Vec<DialerAction>)
        requires
            old(self)@.wf(),
        ensures
            final(self)@.wf(),
            (final(self)@, actions@) == old(self)@.step(input),
    {
        match input {
            DialerInput::Dial { peer, reply } => self.dial(peer, reply),
            DialerInput::CancelPendingDial { node_id } => {
                self.cancel_pending_dial(node_id);
                Vec::new()
            },
            DialerInput::ConnectFinished { node_id, result } => self.connect_finished(
                node_id,
                result,
            ),
            DialerInput::BackoffElapsed { node_id } => self.backoff_elapsed(node_id),
            DialerInput::HandshakeFinished { node_id, result } => self.handshake_finished(
                node_id,
                result,
            ),
            DialerInput::IdentifyFinished { node_id, result } => self.identify_finished(
                node_id,
                result,
            ),
        }
    }
}

/// What replacing the dial of a peer by another dial of the same peer does
/// to the table: that dial changes and every other dial stays.
pub proof fn lemma_replaced<TBackoff: Backoff>(
    dialer: DialerView<TBackoff>,
    node_id: NodeId,
    dial: PendingDialView,
)
    requires
        dialer.wf(),
        dialer.is_pending(node_id),
        dial.node_id == node_id,
    ensures
        dial.wf(dialer.max_dial_attempts) ==> dialer.replaced(node_id, dial).wf(),
        dialer.replaced(node_id, dial).pending.len() == dialer.pending.len(),
        forall|x: NodeId| #[trigger]
            dialer.replaced(node_id, dial).is_pending(x) == dialer.is_pending(x),
        dialer.replaced(node_id, dial).get(node_id) == dial,
        forall|x: NodeId|
            x != node_id && dialer.is_pending(x) ==> #[trigger] dialer.replaced(node_id, dial).get(
                x,
            ) == dialer.get(x),
{
    let i = dialer.index_of(node_id);
    let next = dialer.replaced(node_id, dial);
    assert(dialer.has_at(node_id, i));
    assert(next.pending.len() == dialer.pending.len());
    assert forall|a: int| 0 <= a < next.pending.len() implies (#[trigger] next.pending[a]).node_id
        == dialer.pending[a].node_id by {}
    assert forall|x: NodeId| #[trigger] next.is_pending(x) == dialer.is_pending(x) by {
        if dialer.is_pending(x) {
            let a = dialer.index_of(x);
            assert(dialer.has_at(x, a));
            assert(next.has_at(x, a));
        }
        if next.is_pending(x) {
            let a = next.index_of(x);
            assert(next.has_at(x, a));
            assert(dialer.has_at(x, a));
        }
    }
    assert forall|a: int, b: int| 0 <= a < b < next.pending.len() implies next.pending[a].node_id
        != next.pending[b].node_id by {
        assert(dialer.pending[a].node_id != dialer.pending[b].node_id);
    }
    if dial.wf(dialer.max_dial_attempts) {
        assert forall|a: int| 0 <= a < next.pending.len() implies (#[trigger] next.pending[a]).wf(
            next.max_dial_attempts,
        ) by {
            if a != i {
                assert(dialer.pending[a].wf(dialer.max_dial_attempts));
            }
        }
        assert(next.wf());
    }
    assert(next.has_at(node_id, i));
    lemma_unique_index(next, node_id, i);
    assert forall|x: NodeId| x != node_id && dialer.is_pending(x) implies #[trigger] next.get(x)
        == dialer.get(x) by {
        let a = dialer.index_of(x);
        assert(dialer.has_at(x, a));
        assert(next.has_at(x, a));
        lemma_unique_index(next, x, a);
    }
}

/// Where no two dials share a peer, a peer's dial is found at one place only.
pub proof fn lemma_unique_index<TBackoff: Backoff>(
    dialer: DialerView<TBackoff>,
    node_id: NodeId,
    i: int,
)
    requires
        forall|a: int, b: int|
            0 <= a < b < dialer.pending.len() ==> dialer.pending[a].node_id
                != dialer.pending[b].node_id,
        dialer.has_at(node_id, i),
    ensures
        dialer.is_pending(node_id),
        dialer.index_of(node_id) == i,
{
    let j = dialer.index_of(node_id);
    assert(dialer.has_at(node_id, j));
    if i < j {
        assert(dialer.pending[i].node_id != dialer.pending[j].node_id);
    } else if j < i {
        assert(dialer.pending[j].node_id != dialer.pending[i].node_id);
    }
}

/// What the end of a dial does to the table: that dial leaves and every
/// other dial stays.
pub proof fn lemma_finished<TBackoff: Backoff>(
    dialer: DialerView<TBackoff>,
    node_id: NodeId,
    outcome: DialOutcome,
)
    requires
        dialer.wf(),
        dialer.is_pending(node_id),
    ensures
        dialer.finished(node_id, outcome).0.wf(),
        dialer.finished(node_id, outcome).0.pending.len() + 1 == dialer.pending.len(),
        !dialer.finished(node_id, outcome).0.is_pending(node_id),
        forall|x: NodeId|
            x != node_id ==> #[trigger] dialer.finished(node_id, outcome).0.is_pending(x)
                == dialer.is_pending(x),
        forall|x: NodeId|
            x != node_id && dialer.is_pending(x) ==> #[trigger] dialer.finished(
                node_id,
                outcome,
            ).0.get(x) == dialer.get(x),
{
    let i = dialer.index_of(node_id);
    let next = dialer.finished(node_id, outcome).0;
    assert(dialer.has_at(node_id, i));
    assert forall|a: int| 0 <= a < next.pending.len() implies #[trigger] next.pending[a] == (if a
        < i {
        dialer.pending[a]
    } else {
        dialer.pending[a + 1]
    }) by {}
    assert forall|a: int, b: int| 0 <= a < b < next.pending.len() implies next.pending[a].node_id
        != next.pending[b].node_id by {
        let a0 = if a < i {
            a
        } else {
            a + 1
        };
        let b0 = if b < i {
            b
        } else {
            b + 1
        };
        assert(dialer.pending[a0].node_id != dialer.pending[b0].node_id);
    }
    assert forall|a: int| 0 <= a < next.pending.len() implies (#[trigger] next.pending[a]).wf(
        next.max_dial_attempts,
    ) by {
        let a0 = if a < i {
            a
        } else {
            a + 1
        };
        assert(dialer.pending[a0].wf(dialer.max_dial_attempts));
    }
    if next.is_pending(node_id) {
        let a = next.index_of(node_id);
        assert(next.has_at(node_id, a));
        let a0 = if a < i {
            a
        } else {
            a + 1
        };
        assert(dialer.has_at(node_id, a0));
        lemma_unique_index(dialer, node_id, a0);
    }
    assert forall|x: NodeId| x != node_id implies #[trigger] next.is_pending(x)
        == dialer.is_pending(x) by {
        if dialer.is_pending(x) {
            let a = dialer.index_of(x);
            assert(dialer.has_at(x, a));
            let a1 = if a < i {
                a
            } else {
                a - 1
            };
            assert(next.has_at(x, a1));
        }
        if next.is_pending(x) {
            let a = next.index_of(x);
            assert(next.has_at(x, a));
            let a0 = if a < i {
                a
            } else {
                a + 1
            };
            assert(dialer.has_at(x, a0));
        }
    }
    assert forall|x: NodeId| x != node_id && dialer.is_pending(x) implies #[trigger] next.get(x)
        == dialer.get(x) by {
        let a = dialer.index_of(x);
        assert(dialer.has_at(x, a));
        let a1 = if a < i {
            a
        } else {
            a - 1
        };
        assert(next.has_at(x, a1));
        lemma_unique_index(next, x, a1);
    }
}

/// Whether the action starts a transport connect to the peer.
pub open spec fn is_connect_to(action: DialerAction, node_id: NodeId) -> bool {
    action matches DialerAction::Connect { node_id: target, .. } && target == node_id
}

/// Whether a transport connect to the peer is under way.
pub open spec fn is_connecting<TBackoff: Backoff>(
    dialer: DialerView<TBackoff>,
    node_id: NodeId,
) -> bool {
    dialer.is_pending(node_id) && dialer.get(node_id).stage == DialStage::Connecting
}

/// Every step keeps the dialer's invariant: whatever happens, and in
/// whatever order, no peer ever has two dials in flight.
pub proof fn law_step_keeps_one_dial_per_peer<TBackoff: Backoff>(
    dialer: DialerView<TBackoff>,
    input: DialerInput,
)
    requires
        dialer.wf(),
    ensures
        dialer.step(input).0.wf(),
        forall|node_id: NodeId, i: int, j: int|
            dialer.step(input).0.has_at(node_id, i) && dialer.step(input).0.has_at(node_id, j)
                ==> i == j,
{
    let next = dialer.step(input).0;
    match input {
        DialerInput::Dial { peer, reply } => {
            let node_id = peer.node_id;
            if dialer.is_pending(node_id) {
                let dial = dialer.get(node_id);
                assert(dialer.has_at(node_id, dialer.index_of(node_id)));
                lemma_replaced(
                    dialer,
                    node_id,
                    PendingDialView { replies: dial.replies.push(reply), ..dial },
                );
            } else if peer.addresses@.len() == 0 {
            } else if dialer.max_dial_attempts == 0 {
            } else {
                let n = dialer.pending.len() as int;
                assert forall|a: int, b: int| 0 <= a < b < next.pending.len() implies
                    next.pending[a].node_id != next.pending[b].node_id by {
                    if b == n {
                        assert(!dialer.has_at(node_id, a));
                    }
                }
                assert forall|a: int| 0 <= a < next.pending.len() implies (
                #[trigger] next.pending[a]).wf(next.max_dial_attempts) by {
                    if a < n {
                        assert(dialer.pending[a].wf(dialer.max_dial_attempts));
                    }
                }
            }
        },
        DialerInput::CancelPendingDial { node_id } => {
            if dialer.is_pending(node_id) {
                assert(dialer.has_at(node_id, dialer.index_of(node_id)));
                lemma_replaced(
                    dialer,
                    node_id,
                    PendingDialView { cancelled: true, ..dialer.get(node_id) },
                );
            }
        },
        DialerInput::ConnectFinished { node_id, result } => {
            if dialer.is_pending(node_id) {
                let dial = dialer.get(node_id);
                assert(dialer.has_at(node_id, dialer.index_of(node_id)));
                lemma_finished(dialer, node_id, Err(ConnectionManagerError::DialCancelled));
                lemma_replaced(
                    dialer,
                    node_id,
                    PendingDialView { stage: DialStage::Handshaking, ..dial },
                );
                lemma_replaced(dialer, node_id, PendingDialView { stage: DialStage::Waiting, ..dial });
                if let Err(error) = result {
                    lemma_finished(dialer, node_id, Err(error));
                }
            }
        },
        DialerInput::BackoffElapsed { node_id } => {
            if dialer.is_pending(node_id) {
                let dial = dialer.get(node_id);
                assert(dialer.has_at(node_id, dialer.index_of(node_id)));
                lemma_finished(dialer, node_id, Err(ConnectionManagerError::DialCancelled));
                lemma_replaced(
                    dialer,
                    node_id,
                    PendingDialView {
                        attempts: (dial.attempts + 1) as usize,
                        stage: DialStage::Connecting,
                        ..dial
                    },
                );
            }
        },
        DialerInput::HandshakeFinished { node_id, result } => {
            if dialer.is_pending(node_id) {
                let dial = dialer.get(node_id);
                assert(dialer.has_at(node_id, dialer.index_of(node_id)));
                lemma_finished(
                    dialer,
                    node_id,
                    Err(ConnectionManagerError::DialedPublicKeyMismatch),
                );
                lemma_replaced(
                    dialer,
                    node_id,
                    PendingDialView { stage: DialStage::Identifying, ..dial },
                );
                if let Err(error) = result {
                    lemma_finished(dialer, node_id, Err(error));
                }
            }
        },
        DialerInput::IdentifyFinished { node_id, result } => {
            if dialer.is_pending(node_id) {
                match result {
                    Ok(session) => {
                        lemma_finished(
                            dialer,
                            node_id,
                            Ok(
                                PeerConnection {
                                    id: session.connection,
                                    peer_node_id: node_id,
                                    direction: ConnectionDirection::Outbound,
                                    established_at: session.established_at,
                                },
                            ),
                        );
                    },
                    Err(error) => {
                        lemma_finished(dialer, node_id, Err(error));
                    },
                }
            }
        },
    }
    assert(next.wf());
    assert forall|node_id: NodeId, i: int, j: int|
        next.has_at(node_id, i) && next.has_at(node_id, j) implies i == j by {
        lemma_unique_index(next, node_id, i);
        lemma_unique_index(next, node_id, j);
    }
}

/// A transport connect to a peer is started only while none to that peer is
/// under way: the step that asks for it asks for nothing else, finds no
/// connect to the peer under way, and leaves the peer's one dial connecting,
/// on the attempt and the address that the action names.
pub proof fn law_one_connect_at_a_time<TBackoff: Backoff>(
    dialer: DialerView<TBackoff>,
    input: DialerInput,
    node_id: NodeId,
    k: int,
)
    requires
        dialer.wf(),
        0 <= k < dialer.step(input).1.len(),
        is_connect_to(dialer.step(input).1[k], node_id),
    ensures
        dialer.step(input).1.len() == 1,
        !is_connecting(dialer, node_id),
        is_connecting(dialer.step(input).0, node_id),
        dialer.step(input).1[k] == (DialerAction::Connect {
            node_id,
            address: dialer.step(input).0.get(node_id).address_of_attempt(
                dialer.step(input).0.get(node_id).attempts,
            ),
            attempt: dialer.step(input).0.get(node_id).attempts,
        }),
        dialer.step(input).0.get(node_id).attempts <= dialer.max_dial_attempts,
{
    law_step_keeps_one_dial_per_peer(dialer, input);
    let next = dialer.step(input).0;
    match input {
        DialerInput::Dial { peer, reply } => {
            if !dialer.is_pending(peer.node_id) && peer.addresses@.len() > 0
                && dialer.max_dial_attempts > 0 {
                let n = dialer.pending.len() as int;
                assert(next.has_at(node_id, n));
                lemma_unique_index(next, node_id, n);
                assert(next.get(node_id).attempts == 1);
                assert(next.get(node_id).addresses == peer.addresses@);
                assert(0int % (peer.addresses@.len() as int) == 0);
                assert(next.get(node_id).address_of_attempt(1) == peer.addresses@[0]);
            }
        },
        DialerInput::CancelPendingDial { node_id: x } => {},
        DialerInput::ConnectFinished { node_id: x, result } => {},
        DialerInput::BackoffElapsed { node_id: x } => {
            let dial = dialer.get(x);
            assert(dialer.has_at(x, dialer.index_of(x)));
            lemma_replaced(
                dialer,
                x,
                PendingDialView {
                    attempts: (dial.attempts + 1) as usize,
                    stage: DialStage::Connecting,
                    ..dial
                },
            );
        },
        DialerInput::HandshakeFinished { node_id: x, result } => {},
        DialerInput::IdentifyFinished { node_id: x, result } => {},
    }
}

/// A transport connect that is under way stays under way until the step
/// that reports its end: no other step takes the dial out of its connect,
/// and none starts a second connect to the peer beside it.
pub proof fn law_connect_lasts_until_it_finishes<TBackoff: Backoff>(
    dialer: DialerView<TBackoff>,
    input: DialerInput,
    node_id: NodeId,
)
    requires
        dialer.wf(),
        is_connecting(dialer, node_id),
        !(input matches DialerInput::ConnectFinished { node_id: finished, .. } && finished
            == node_id),
    ensures
        is_connecting(dialer.step(input).0, node_id),
        forall|k: int|
            0 <= k < dialer.step(input).1.len() ==> !is_connect_to(
                #[trigger] dialer.step(input).1[k],
                node_id,
            ),
{
    let dial = dialer.get(node_id);
    assert(dialer.has_at(node_id, dialer.index_of(node_id)));
    match input {
        DialerInput::Dial { peer, reply } => {
            let x = peer.node_id;
            if dialer.is_pending(x) {
                let other = dialer.get(x);
                lemma_replaced(
                    dialer,
                    x,
                    PendingDialView { replies: other.replies.push(reply), ..other },
                );
            } else if peer.addresses@.len() > 0 && dialer.max_dial_attempts > 0 {
                let next = dialer.step(input).0;
                let i = dialer.index_of(node_id);
                assert(next.has_at(node_id, i));
                law_step_keeps_one_dial_per_peer(dialer, input);
                lemma_unique_index(next, node_id, i);
            }
        },
        DialerInput::CancelPendingDial { node_id: x } => {
            if dialer.is_pending(x) {
                lemma_replaced(dialer, x, PendingDialView { cancelled: true, ..dialer.get(x) });
            }
        },
        DialerInput::ConnectFinished { node_id: x, result } => {
            if dialer.is_pending(x) {
                let other = dialer.get(x);
                lemma_finished(dialer, x, Err(ConnectionManagerError::DialCancelled));
                lemma_replaced(dialer, x, PendingDialView { stage: DialStage::Handshaking, ..other });
                lemma_replaced(dialer, x, PendingDialView { stage: DialStage::Waiting, ..other });
                if let Err(error) = result {
                    lemma_finished(dialer, x, Err(error));
                }
            }
        },
        DialerInput::BackoffElapsed { node_id: x } => {
            if dialer.is_pending(x) {
                let other = dialer.get(x);
                lemma_finished(dialer, x, Err(ConnectionManagerError::DialCancelled));
                lemma_replaced(
                    dialer,
                    x,
                    PendingDialView {
                        attempts: (other.attempts + 1) as usize,
                        stage: DialStage::Connecting,
                        ..other
                    },
                );
            }
        },
        DialerInput::HandshakeFinished { node_id: x, result } => {
            if dialer.is_pending(x) {
                let other = dialer.get(x);
                lemma_finished(dialer, x, Err(ConnectionManagerError::DialedPublicKeyMismatch));
                lemma_replaced(dialer, x, PendingDialView { stage: DialStage::Identifying, ..other });
                if let Err(error) = result {
                    lemma_finished(dialer, x, Err(error));
                }
            }
        },
        DialerInput::IdentifyFinished { node_id: x, result } => {
            if dialer.is_pending(x) {
                match result {
                    Ok(session) => {
                        lemma_finished(
                            dialer,
                            x,
                            Ok(
                                PeerConnection {
                                    id: session.connection,
                                    peer_node_id: x,
                                    direction: ConnectionDirection::Outbound,
                                    established_at: session.established_at,
                                },
                            ),
                        );
                    },
                    Err(error) => {
                        lemma_finished(dialer, x, Err(error));
                    },
                }
            }
        },
    }
    assert forall|k: int| 0 <= k < dialer.step(input).1.len() implies !is_connect_to(
        #[trigger] dialer.step(input).1[k],
        node_id,
    ) by {
        if is_connect_to(dialer.step(input).1[k], node_id) {
            law_one_connect_at_a_time(dialer, input, node_id, k);
        }
    }
}

/// A dial of a peer whose dial is in flight joins that dial: nothing is
/// asked of the transport, no dial is added, and the caller is answered
/// with the others when the dial ends.
pub proof fn law_a_dial_in_flight_is_joined<TBackoff: Backoff>(
    dialer: DialerView<TBackoff>,
    peer: Peer,
    reply: ReplyToken,
)
    requires
        dialer.wf(),
        dialer.is_pending(peer.node_id),
    ensures
        dialer.dial(peer, reply).1 == Seq::<DialerAction>::empty(),
        dialer.dial(peer, reply).0.wf(),
        dialer.dial(peer, reply).0.pending.len() == dialer.pending.len(),
        dialer.dial(peer, reply).0.get(peer.node_id) == (PendingDialView {
            replies: dialer.get(peer.node_id).replies.push(reply),
            ..dialer.get(peer.node_id)
        }),
{
    let dial = dialer.get(peer.node_id);
    assert(dialer.has_at(peer.node_id, dialer.index_of(peer.node_id)));
    lemma_replaced(
        dialer,
        peer.node_id,
        PendingDialView { replies: dial.replies.push(reply), ..dial },
    );
}

/// When a dial ends, the connection manager is told first, and then every
/// caller is answered with the same outcome, in the order in which the
/// callers asked.
pub proof fn law_all_callers_get_the_same_outcome(
    node_id: NodeId,
    replies: Seq<ReplyToken>,
    outcome: DialOutcome,
    i: int,
)
    requires
        0 <= i < replies.len(),
    ensures
        finish_actions(node_id, replies, outcome).len() == replies.len() + 1,
        finish_actions(node_id, replies, outcome)[0] == DialerAction::Notify(
            outcome_event(node_id, outcome),
        ),
        finish_actions(node_id, replies, outcome)[i + 1] == (DialerAction::Reply {
            reply: replies[i],
            result: outcome,
        }),
{
}

/// Cancelling never fails and never asks anything of anyone: it leaves
/// every dial in flight, marks the one of the peer, if there is one, and
/// changes nothing else.
pub proof fn law_cancel_is_always_safe<TBackoff: Backoff>(
    dialer: DialerView<TBackoff>,
    node_id: NodeId,
)
    requires
        dialer.wf(),
    ensures
        dialer.cancel_pending_dial(node_id).1 == Seq::<DialerAction>::empty(),
        dialer.cancel_pending_dial(node_id).0.wf(),
        dialer.cancel_pending_dial(node_id).0.pending.len() == dialer.pending.len(),
        forall|x: NodeId| #[trigger]
            dialer.cancel_pending_dial(node_id).0.is_pending(x) == dialer.is_pending(x),
        dialer.is_pending(node_id) ==> dialer.cancel_pending_dial(node_id).0.get(node_id) == (
        PendingDialView { cancelled: true, ..dialer.get(node_id) }),
        forall|x: NodeId|
            x != node_id && dialer.is_pending(x) ==> #[trigger] dialer.cancel_pending_dial(
                node_id,
            ).0.get(x) == dialer.get(x),
        !dialer.is_pending(node_id) ==> dialer.cancel_pending_dial(node_id).0 == dialer,
{
    if dialer.is_pending(node_id) {
        assert(dialer.has_at(node_id, dialer.index_of(node_id)));
        lemma_replaced(dialer, node_id, PendingDialView { cancelled: true, ..dialer.get(node_id) });
    }
}

/// Whether the action tells of a connection: to the connection manager as
/// an event, or to a caller as the result of its dial.
pub open spec fn publishes(action: DialerAction, connection: PeerConnection) -> bool {
    ||| action == DialerAction::Notify(ConnectionManagerEvent::PeerConnected(connection))
    ||| (action matches DialerAction::Reply { result, .. } && result == Ok::<
        PeerConnection,
        ConnectionManagerError,
    >(connection))
}

/// A connection is told of only when protocol identification succeeded on a
/// dial that was identifying: never on a connect or a handshake alone.
pub proof fn law_connection_published_after_identification<TBackoff: Backoff>(
    dialer: DialerView<TBackoff>,
    input: DialerInput,
    connection: PeerConnection,
    k: int,
)
    requires
        dialer.wf(),
        0 <= k < dialer.step(input).1.len(),
        publishes(dialer.step(input).1[k], connection),
    ensures
        input matches DialerInput::IdentifyFinished { node_id, result: Ok(session) } && {
            &&& dialer.is_pending(node_id)
            &&& dialer.get(node_id).stage == DialStage::Identifying
            &&& connection == (PeerConnection {
                id: session.connection,
                peer_node_id: node_id,
                direction: ConnectionDirection::Outbound,
                established_at: session.established_at,
            })
        },
{
}

/// A dial is identifying only after a handshake that revealed the key that
/// was dialed, and handshaking only after a transport connect that succeeded.
pub proof fn law_stages_follow_in_order<TBackoff: Backoff>(
    dialer: DialerView<TBackoff>,
    input: DialerInput,
    node_id: NodeId,
)
    requires
        dialer.wf(),
        dialer.step(input).0.is_pending(node_id),
    ensures
        dialer.step(input).0.get(node_id).stage == DialStage::Identifying ==> {
            ||| dialer.is_pending(node_id) && dialer.get(node_id).stage == DialStage::Identifying
            ||| input matches DialerInput::HandshakeFinished { node_id: x, result: Ok(revealed) }
                && x == node_id && dialer.is_pending(node_id) && dialer.get(node_id).stage
                == DialStage::Handshaking && DialerView::<TBackoff>::identity_confirmed(
                dialer.get(node_id),
                revealed@,
            )
        },
        dialer.step(input).0.get(node_id).stage == DialStage::Handshaking ==> {
            ||| dialer.is_pending(node_id) && dialer.get(node_id).stage == DialStage::Handshaking
            ||| input matches DialerInput::ConnectFinished { node_id: x, result: Ok(_) } && x
                == node_id && dialer.is_pending(node_id) && dialer.get(node_id).stage
                == DialStage::Connecting
        },
{
    let next = dialer.step(input).0;
    match input {
        DialerInput::Dial { peer, reply } => {
            let x = peer.node_id;
            if dialer.is_pending(x) {
                let dial = dialer.get(x);
                lemma_replaced(dialer, x, PendingDialView { replies: dial.replies.push(reply), ..dial });
            } else if peer.addresses@.len() > 0 && dialer.max_dial_attempts > 0 {
                let n = dialer.pending.len() as int;
                law_step_keeps_one_dial_per_peer(dialer, input);
                let a = next.index_of(node_id);
                assert(next.has_at(node_id, a));
                if a < n {
                    assert(dialer.has_at(node_id, a));
                    lemma_unique_index(dialer, node_id, a);
                }
            }
        },
        DialerInput::CancelPendingDial { node_id: x } => {
            if dialer.is_pending(x) {
                lemma_replaced(dialer, x, PendingDialView { cancelled: true, ..dialer.get(x) });
            }
        },
        DialerInput::ConnectFinished { node_id: x, result } => {
            if dialer.is_pending(x) {
                let dial = dialer.get(x);
                lemma_finished(dialer, x, Err(ConnectionManagerError::DialCancelled));
                lemma_replaced(dialer, x, PendingDialView { stage: DialStage::Handshaking, ..dial });
                lemma_replaced(dialer, x, PendingDialView { stage: DialStage::Waiting, ..dial });
                if let Err(error) = result {
                    lemma_finished(dialer, x, Err(error));
                }
            }
        },
        DialerInput::BackoffElapsed { node_id: x } => {
            if dialer.is_pending(x) {
                let dial = dialer.get(x);
                lemma_finished(dialer, x, Err(ConnectionManagerError::DialCancelled));
                lemma_replaced(
                    dialer,
                    x,
                    PendingDialView {
                        attempts: (dial.attempts + 1) as usize,
                        stage: DialStage::Connecting,
                        ..dial
                    },
                );
            }
        },
        DialerInput::HandshakeFinished { node_id: x, result } => {
            if dialer.is_pending(x) {
                let dial = dialer.get(x);
                lemma_finished(dialer, x, Err(ConnectionManagerError::DialedPublicKeyMismatch));
                lemma_replaced(dialer, x, PendingDialView { stage: DialStage::Identifying, ..dial });
                if let Err(error) = result {
                    lemma_finished(dialer, x, Err(error));
                }
            }
        },
        DialerInput::IdentifyFinished { node_id: x, result } => {
            if dialer.is_pending(x) {
                match result {
                    Ok(session) => {
                        lemma_finished(
                            dialer,
                            x,
                            Ok(
                                PeerConnection {
                                    id: session.connection,
                                    peer_node_id: x,
                                    direction: ConnectionDirection::Outbound,
                                    established_at: session.established_at,
                                },
                            ),
                        );
                    },
                    Err(error) => {
                        lemma_finished(dialer, x, Err(error));
                    },
                }
            }
        },
    }
}

} // verus!
