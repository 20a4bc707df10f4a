//! The connection manager: the one place where the lifecycle of connections
//! is decided.
//!
//! The manager starts in a fixed order. It has the primary listener bound
//! first; if that fails it stops for good, having started nothing. It then
//! has the auxiliary listener bound, if one is configured. If that fails,
//! the configuration decides: the manager stops in the same way, or it goes
//! on without the auxiliary listener and publishes the failure. Only then
//! does it start the dialer and answer whoever asked where it listens. From
//! then on it serves requests and events, one at a time, until it is shut
//! down.

use crate::comms::backoff::Backoff;
use crate::comms::connection_manager::config::{
    AuxiliaryFailurePolicy,
    ConnectionManagerConfig,
    ListenerInfo,
};
use crate::comms::connection_manager::dialer::{
    DialOutcome,
    Dialer,
    DialerRequest,
    DialerView,
    PendingDialView,
    ReplyToken,
};
use crate::comms::connection_manager::error::{ConnectionManagerError, PeerManagerError};
use crate::comms::connection_manager::listener::{ListenerView, PeerListener};
use crate::comms::connection_manager::peer_connection::PeerConnection;
use crate::comms::peer::{NodeId, Peer};
use crate::comms::protocol::{HandlerId, ProtocolId, Protocols, SubstreamId};
use multiaddr::Multiaddr;
use vstd::prelude::*;

verus! {

/// What happened to a connection.
#[derive(Debug, PartialEq, Eq)]
pub enum ConnectionManagerEvent {
    // Peer connection
    PeerConnected(PeerConnection),
    PeerDisconnected(NodeId),
    PeerConnectFailed(NodeId, ConnectionManagerError),
    PeerInboundConnectFailed(ConnectionManagerError),
    // Substreams
    NewInboundSubstream(NodeId, ProtocolId, SubstreamId),
}

impl ConnectionManagerEvent {
    /// The name of the kind of event.
    pub open spec fn name_of(&self) -> Seq<char> {
        match self {
            ConnectionManagerEvent::PeerConnected(..) => "PeerConnected"@,
            ConnectionManagerEvent::PeerDisconnected(..) => "PeerDisconnected"@,
            ConnectionManagerEvent::PeerConnectFailed(..) => "PeerConnectFailed"@,
            ConnectionManagerEvent::PeerInboundConnectFailed(..) => "PeerInboundConnectFailed"@,
            ConnectionManagerEvent::NewInboundSubstream(..) => "NewInboundSubstream"@,
        }
    }

    pub fn name(&self) -> (name: &'static str)
        ensures
            name@ == self.name_of(),
    {
        match self {
            ConnectionManagerEvent::PeerConnected(..) => "PeerConnected",
            ConnectionManagerEvent::PeerDisconnected(..) => "PeerDisconnected",
            ConnectionManagerEvent::PeerConnectFailed(..) => "PeerConnectFailed",
            ConnectionManagerEvent::PeerInboundConnectFailed(..) => "PeerInboundConnectFailed",
            ConnectionManagerEvent::NewInboundSubstream(..) => "NewInboundSubstream",
        }
    }

    /// The peer that the event is about, where it is about one.
    pub fn node_id(&self) -> (node_id: Option<NodeId>)
        ensures
            node_id == match *self {
                ConnectionManagerEvent::PeerConnected(connection) => Some(connection.peer_node_id),
                ConnectionManagerEvent::PeerDisconnected(node_id) => Some(node_id),
                ConnectionManagerEvent::PeerConnectFailed(node_id, _) => Some(node_id),
                ConnectionManagerEvent::PeerInboundConnectFailed(_) => None,
                ConnectionManagerEvent::NewInboundSubstream(node_id, _, _) => Some(node_id),
            },
    {
        match self {
            ConnectionManagerEvent::PeerConnected(connection) => Some(connection.peer_node_id),
            ConnectionManagerEvent::PeerDisconnected(node_id) => Some(*node_id),
            ConnectionManagerEvent::PeerConnectFailed(node_id, _) => Some(*node_id),
            ConnectionManagerEvent::PeerInboundConnectFailed(_) => None,
            ConnectionManagerEvent::NewInboundSubstream(node_id, _, _) => Some(*node_id),
        }
    }
}

/// What callers ask of the connection manager.
#[derive(Clone, Copy, Debug, PartialEq, Eq, Structural)]
pub enum ConnectionManagerRequest {
    /// Connect to the peer and answer with the connection or the error.
    DialPeer(NodeId, ReplyToken),
    /// Give up the dial of the peer, if one is in flight.
    CancelDial(NodeId),
    /// Answer with the bound addresses as soon as they are known.
    NotifyListening(ReplyToken),
}

/// How far the connection manager has come.
#[derive(Clone, Copy, Debug, PartialEq, Eq, Structural)]
pub enum ManagerPhase {
    /// Built, and not yet run.
    Created,
    /// Waiting for the primary listener to bind.
    BindingPrimary,
    /// The primary listener is bound; waiting for the auxiliary one.
    BindingAuxiliary,
    /// The listeners are bound and the dialer is started.
    Running,
    /// A listener could not bind. Nothing was started and nothing will be.
    Failed,
    /// The shutdown signal was received.
    ShutDown,
}

/// What the connection manager asks of the tasks around it.
#[derive(Debug, PartialEq, Eq)]
pub enum ManagerAction {
    /// Bind the primary listener to the address and report the outcome.
    BindListener { address: Multiaddr },
    /// Bind the auxiliary listener to the address and report the outcome.
    BindAuxiliaryListener { address: Multiaddr },
    /// Start the dialer.
    StartDialer,
    /// Answer the caller with the bound addresses.
    ReplyListening { reply: ReplyToken, info: ListenerInfo },
    /// Look the peer up in the peer directory and report the outcome.
    FindPeer { node_id: NodeId, reply: ReplyToken },
    /// Hand the request to the dialer.
    SendToDialer(DialerRequest),
    /// Answer the caller of a dial.
    ReplyDial { reply: ReplyToken, result: DialOutcome },
    /// Hand the substream to the handler of its protocol, which owns it from then on.
    DeliverSubstream { handler: HandlerId, node_id: NodeId, protocol: ProtocolId, stream: SubstreamId },
    /// Close the substream: no handler is registered for its protocol.
    CloseSubstream { stream: SubstreamId },
    /// Publish the event to whoever subscribed; with no subscriber it is dropped.
    Publish(ConnectionManagerEvent),
}

/// What happens to a connection manager.
pub enum ManagerInput {
    /// The manager is set running.
    Run,
    /// The primary listener was bound to the address, or could not be bound.
    ListenerBound(Result<Multiaddr, ConnectionManagerError>),
    /// The auxiliary listener was bound to the address, or could not be bound.
    AuxiliaryListenerBound(Result<Multiaddr, ConnectionManagerError>),
    /// A caller's request was taken from the request queue.
    Request(ConnectionManagerRequest),
    /// The peer directory answered a lookup that a dial request had caused.
    PeerFound { reply: ReplyToken, result: Result<Peer, PeerManagerError> },
    /// An event of the dialer or a listener was taken from the event queue.
    Event(ConnectionManagerEvent),
    /// The shutdown signal fired.
    Shutdown,
}

/// The connection manager, as the contracts speak of it.
pub struct ManagerView<TBackoff> {
    pub phase: ManagerPhase,
    pub listener_address: Multiaddr,
    pub auxiliary_address: Option<Multiaddr>,
    pub auxiliary_failure_policy: AuxiliaryFailurePolicy,
    /// The address of the primary listener while the auxiliary one binds.
    pub bound_address: Option<Multiaddr>,
    pub listener_info: Option<ListenerInfo>,
    /// The callers that wait to hear where the manager listens, oldest first.
    pub listening_notifiers: Seq<ReplyToken>,
    pub protocols: Map<Seq<u8>, HandlerId>,
    /// The dialer, until it is handed out to be started.
    pub dialer: Option<DialerView<TBackoff>>,
    /// The primary listener, until it is handed out to be bound.
    pub listener: Option<ListenerView>,
    /// The auxiliary listener, until it is handed out to be bound.
    pub auxiliary_listener: Option<ListenerView>,
}

impl<TBackoff: Backoff> ManagerView<TBackoff> {
    /// Whether the manager has stopped for good.
    pub open spec fn is_stopped(self) -> bool {
        self.phase == ManagerPhase::Failed || self.phase == ManagerPhase::ShutDown
    }

    /// The bound addresses are known exactly while the manager runs or has
    /// been shut down after running, callers wait only while they are not
    /// known, and the primary address is kept exactly while the auxiliary
    /// listener binds.
    pub open spec fn wf(self) -> bool {
        &&& self.phase == ManagerPhase::Running ==> self.listener_info is Some
        &&& (self.phase == ManagerPhase::Created || self.phase == ManagerPhase::BindingPrimary
            || self.phase == ManagerPhase::BindingAuxiliary || self.phase == ManagerPhase::Failed)
            ==> self.listener_info is None
        &&& self.listener_info is Some ==> self.listening_notifiers.len() == 0
        &&& self.phase == ManagerPhase::BindingAuxiliary ==> self.bound_address is Some
            && self.auxiliary_address is Some
    }

    /// The replies that tell every waiting caller where the manager listens.
    pub open spec fn listening_replies(self, info: ListenerInfo) -> Seq<ManagerAction> {
        Seq::new(
            self.listening_notifiers.len(),
            |k: int| ManagerAction::ReplyListening { reply: self.listening_notifiers[k], info },
        )
    }

    /// The listeners are bound: the dialer is started, and every caller that
    /// waited is told the same bound addresses.
    pub open spec fn ready(self, info: ListenerInfo) -> (Self, Seq<ManagerAction>) {
        (
            ManagerView {
                phase: ManagerPhase::Running,
                bound_address: None,
                listener_info: Some(info),
                listening_notifiers: Seq::empty(),
                ..self
            },
            seq![ManagerAction::StartDialer] + self.listening_replies(info),
        )
    }

    /// A listener could not bind: the manager stops, and asks for nothing.
    pub open spec fn failed(self) -> (Self, Seq<ManagerAction>) {
        (ManagerView { phase: ManagerPhase::Failed, bound_address: None, ..self }, Seq::empty())
    }

    /// The auxiliary listener could not bind and the manager goes on without
    /// it: the failure is published, and then the manager is ready with the
    /// primary listener alone.
    pub open spec fn degraded(self, info: ListenerInfo, error: ConnectionManagerError) -> (
        Self,
        Seq<ManagerAction>,
    ) {
        (
            self.ready(info).0,
            seq![
                ManagerAction::Publish(ConnectionManagerEvent::PeerInboundConnectFailed(error)),
            ] + self.ready(info).1,
        )
    }

    pub open spec fn run(self) -> (Self, Seq<ManagerAction>) {
        if self.phase == ManagerPhase::Created {
            (
                ManagerView { phase: ManagerPhase::BindingPrimary, ..self },
                seq![ManagerAction::BindListener { address: self.listener_address }],
            )
        } else {
            (self, Seq::empty())
        }
    }

    pub open spec fn listener_bound(self, result: Result<Multiaddr, ConnectionManagerError>) -> (
        Self,
        Seq<ManagerAction>,
    ) {
        if self.phase != ManagerPhase::BindingPrimary {
            (self, Seq::empty())
        } else {
            match result {
                Err(_) => self.failed(),
                Ok(address) => match self.auxiliary_address {
                    Some(auxiliary) => (
                        ManagerView {
                            phase: ManagerPhase::BindingAuxiliary,
                            bound_address: Some(address),
                            ..self
                        },
                        seq![ManagerAction::BindAuxiliaryListener { address: auxiliary }],
                    ),
                    None => self.ready(
                        ListenerInfo { bind_address: address, aux_bind_address: None },
                    ),
                },
            }
        }
    }

    pub open spec fn auxiliary_listener_bound(
        self,
        result: Result<Multiaddr, ConnectionManagerError>,
    ) -> (Self, Seq<ManagerAction>) {
        if self.phase != ManagerPhase::BindingAuxiliary || self.bound_address is None {
            (self, Seq::empty())
        } else {
            match result {
                Err(error) => match self.auxiliary_failure_policy {
                    AuxiliaryFailurePolicy::Abort => self.failed(),
                    AuxiliaryFailurePolicy::Degrade => self.degraded(
                        ListenerInfo {
                            bind_address: self.bound_address->0,
                            aux_bind_address: None,
                        },
                        error,
                    ),
                },
                Ok(address) => self.ready(
                    ListenerInfo {
                        bind_address: self.bound_address->0,
                        aux_bind_address: Some(address),
                    },
                ),
            }
        }
    }

    pub open spec fn handle_request(self, request: ConnectionManagerRequest) -> (
        Self,
        Seq<ManagerAction>,
    ) {
        if self.is_stopped() {
            (self, Seq::empty())
        } else {
            match request {
                ConnectionManagerRequest::DialPeer(node_id, reply) => (
                    self,
                    seq![ManagerAction::FindPeer { node_id, reply }],
                ),
                ConnectionManagerRequest::CancelDial(node_id) => (
                    self,
                    seq![ManagerAction::SendToDialer(DialerRequest::CancelPendingDial(node_id))],
                ),
                ConnectionManagerRequest::NotifyListening(reply) => match self.listener_info {
                    Some(info) => (self, seq![ManagerAction::ReplyListening { reply, info }]),
                    None => (
                        ManagerView {
                            listening_notifiers: self.listening_notifiers.push(reply),
                            ..self
                        },
                        Seq::empty(),
                    ),
                },
            }
        }
    }

    pub open spec fn peer_found(self, reply: ReplyToken, result: Result<Peer, PeerManagerError>) -> (
        Self,
        Seq<ManagerAction>,
    ) {
        if self.is_stopped() {
            (self, Seq::empty())
        } else {
            match result {
                Ok(peer) => (
                    self,
                    seq![ManagerAction::SendToDialer(DialerRequest::Dial(Box::new(peer), reply))],
                ),
                Err(error) => (
                    self,
                    seq![
                        ManagerAction::ReplyDial {
                            reply,
                            result: Err(ConnectionManagerError::PeerManagerError(error)),
                        },
                    ],
                ),
            }
        }
    }

    pub open spec fn handle_event(self, event: ConnectionManagerEvent) -> (
        Self,
        Seq<ManagerAction>,
    ) {
        if self.is_stopped() {
            (self, Seq::empty())
        } else {
            match event {
                ConnectionManagerEvent::NewInboundSubstream(node_id, protocol, stream) => {
                    if self.protocols.dom().contains(protocol@) {
                        (
                            self,
                            seq![
                                ManagerAction::DeliverSubstream {
                                    handler: self.protocols[protocol@],
                                    node_id,
                                    protocol,
                                    stream,
                                },
                            ],
                        )
                    } else {
                        (self, seq![ManagerAction::CloseSubstream { stream }])
                    }
                },
                _ => (self, seq![ManagerAction::Publish(event)]),
            }
        }
    }

    pub open spec fn shutdown(self) -> (Self, Seq<ManagerAction>) {
        if self.phase == ManagerPhase::Failed {
            (self, Seq::empty())
        } else {
            (
                ManagerView {
                    phase: ManagerPhase::ShutDown,
                    bound_address: None,
                    listening_notifiers: Seq::empty(),
                    ..self
                },
                Seq::empty(),
            )
        }
    }

    /// The next state of the manager and what it asks for, for anything that
    /// can happen to it.
    pub open spec fn step(self, input: ManagerInput) -> (Self, Seq<ManagerAction>) {
        match input {
            ManagerInput::Run => self.run(),
            ManagerInput::ListenerBound(result) => self.listener_bound(result),
            ManagerInput::AuxiliaryListenerBound(result) => self.auxiliary_listener_bound(result),
            ManagerInput::Request(request) => self.handle_request(request),
            ManagerInput::PeerFound { reply, result } => self.peer_found(reply, result),
            ManagerInput::Event(event) => self.handle_event(event),
            ManagerInput::Shutdown => self.shutdown(),
        }
    }

    /// The state of the manager after everything in `inputs` has happened
    /// to it in turn, and everything that it asked for on the way.
    pub open spec fn run_all(self, inputs: Seq<ManagerInput>) -> (Self, Seq<ManagerAction>)
        decreases inputs.len(),
    {
        if inputs.len() == 0 {
            (self, Seq::empty())
        } else {
            let before = self.run_all(inputs.drop_last());
            let last = before.0.step(inputs.last());
            (last.0, before.1 + last.1)
        }
    }
}

/// What a fresh listener for the configuration looks like.
pub open spec fn fresh_listener(config: ConnectionManagerConfig) -> ListenerView {
    ListenerView {
        max_simultaneous_inbound_connects: config.max_simultaneous_inbound_connects,
        allow_test_addresses: config.allow_test_addresses,
        time_to_first_byte: config.time_to_first_byte,
        liveness_max_sessions: config.liveness_max_sessions,
        liveness_cidr_allowlist: config.liveness_cidr_allowlist@,
        upgrades: Seq::empty(),
        liveness_sessions: Seq::empty(),
        next_connection: 0,
    }
}

/// Orchestrates the dialer, the listeners and the protocol registry.
#[derive(Debug)]
pub struct ConnectionManager<TBackoff> {
    phase: ManagerPhase,
    listener_address: Multiaddr,
    auxiliary_address: Option<Multiaddr>,
    auxiliary_failure_policy: AuxiliaryFailurePolicy,
    bound_address: Option<Multiaddr>,
    listener_info: Option<ListenerInfo>,
    listening_notifiers: Vec<ReplyToken>,
    protocols: Protocols,
    dialer: Option<Dialer<TBackoff>>,
    listener: Option<PeerListener>,
    aux_listener: Option<PeerListener>,
}

impl<TBackoff: Backoff> View for ConnectionManager<TBackoff> {
    type V = ManagerView<TBackoff>;

    closed spec fn view(&self) -> ManagerView<TBackoff> {
        ManagerView {
            phase: self.phase,
            listener_address: self.listener_address,
            auxiliary_address: self.auxiliary_address,
            auxiliary_failure_policy: self.auxiliary_failure_policy,
            bound_address: self.bound_address,
            listener_info: self.listener_info,
            listening_notifiers: self.listening_notifiers@,
            protocols: self.protocols@,
            dialer: match self.dialer {
                Some(dialer) => Some(dialer@),
                None => None,
            },
            listener: match self.listener {
                Some(listener) => Some(listener@),
                None => None,
            },
            auxiliary_listener: match self.aux_listener {
                Some(listener) => Some(listener@),
                None => None,
            },
        }
    }
}

impl<TBackoff: Backoff> ConnectionManager<TBackoff> {
    /// The manager is well formed, and so is every part that it still holds.
    pub closed spec fn inv(&self) -> bool {
        &&& self@.wf()
        &&& self.protocols.wf()
        &&& self.dialer matches Some(dialer) ==> dialer@.wf()
        &&& self.listener matches Some(listener) ==> listener@.wf()
        &&& self.aux_listener matches Some(listener) ==> listener@.wf()
    }

    /// Builds the manager with its dialer and its listeners. Nothing is
    /// bound, started or sent.
    pub fn new(config: ConnectionManagerConfig, backoff: TBackoff) -> (manager: Self)
        ensures
            manager.inv(),
            manager@ == (ManagerView {
                phase: ManagerPhase::Created,
                listener_address: config.listener_address,
                auxiliary_address: config.auxilary_tcp_listener_address,
                auxiliary_failure_policy: config.auxiliary_failure_policy,
                bound_address: None,
                listener_info: None,
                listening_notifiers: Seq::empty(),
                protocols: Map::empty(),
                dialer: Some(
                    DialerView {
                        backoff,
                        max_dial_attempts: config.max_dial_attempts,
                        pending: Seq::empty(),
                    },
                ),
                listener: Some(fresh_listener(config)),
                auxiliary_listener: if config.auxilary_tcp_listener_address is Some {
                    Some(fresh_listener(config))
                } else {
                    None
                },
            }),
    {
        let listener = PeerListener::new(&config);
        let aux_listener = match &config.auxilary_tcp_listener_address {
            Some(_) => Some(PeerListener::new(&config)),
            None => None,
        };
        let dialer = Dialer::new(config.max_dial_attempts, backoff);
        let manager = ConnectionManager {
            phase: ManagerPhase::Created,
            listener_address: config.listener_address,
            auxiliary_address: config.auxilary_tcp_listener_address,
            auxiliary_failure_policy: config.auxiliary_failure_policy,
            bound_address: None,
            listener_info: None,
            listening_notifiers: Vec::new(),
            protocols: Protocols::new(),
            dialer: Some(dialer),
            listener: Some(listener),
            aux_listener,
        };
        assert(manager@.dialer->0 == (DialerView {
            backoff,
            max_dial_attempts: config.max_dial_attempts,
            pending: Seq::<PendingDialView>::empty(),
        }));
        manager
    }

    /// Merges protocols and their handlers into the registry of a manager
    /// that is not yet run.
    pub fn add_protocols(&mut self, protocols: Protocols) -> (manager: &mut Self)
        requires
            old(self).inv(),
            old(self)@.phase == ManagerPhase::Created,
            protocols.wf(),
        ensures
            manager.inv(),
            manager@ == (ManagerView {
                protocols: old(self)@.protocols.union_prefer_right(protocols@),
                ..old(self)@
            }),
            *final(self) == *final(manager),
    {
        self.protocols.extend(protocols);
        self
    }

    pub fn phase(&self) -> (phase: ManagerPhase)
        ensures
            phase == self@.phase,
    {
        self.phase
    }

    /// The bound addresses, once they are known.
    pub fn listener_info(&self) -> (info: Option<&ListenerInfo>)
        ensures
            match info {
                Some(info) => self@.listener_info == Some(*info),
                None => self@.listener_info is None,
            },
    {
        self.listener_info.as_ref()
    }

    /// How many callers wait to hear where the manager listens.
    pub fn waiting_listeners(&self) -> (count: usize)
        ensures
            count == self@.listening_notifiers.len(),
    {
        self.listening_notifiers.len()
    }

    /// The protocols that this node supports, for the listeners and the
    /// dialer to announce.
    pub fn supported_protocols(&self) -> (protocols: Vec<ProtocolId>)
        requires
            self.inv(),
        ensures
            crate::comms::protocol::protocol_views(protocols@).no_duplicates(),
            crate::comms::protocol::protocol_views(protocols@).to_set() == self@.protocols.dom(),
    {
        self.protocols.get_supported_protocols()
    }

    /// Hands out the primary listener while the manager waits for it to bind.
    pub fn take_listener(&mut self) -> (listener: Option<PeerListener>)
        requires
            old(self).inv(),
        ensures
            final(self).inv(),
            final(self)@ == (ManagerView {
                listener: if listener is Some {
                    None
                } else {
                    old(self)@.listener
                },
                ..old(self)@
            }),
            match listener {
                Some(listener) => old(self)@.phase == ManagerPhase::BindingPrimary && old(
                    self,
                )@.listener == Some(listener@) && listener@.wf(),
                None => old(self)@.phase != ManagerPhase::BindingPrimary || old(self)@.listener
                    is None,
            },
    {
        if self.phase == ManagerPhase::BindingPrimary {
            self.listener.take()
        } else {
            None
        }
    }

    /// Hands out the auxiliary listener while the manager waits for it to bind.
    pub fn take_auxiliary_listener(&mut self) -> (listener: Option<PeerListener>)
        requires
            old(self).inv(),
        ensures
            final(self).inv(),
            final(self)@ == (ManagerView {
                auxiliary_listener: if listener is Some {
                    None
                } else {
                    old(self)@.auxiliary_listener
                },
                ..old(self)@
            }),
            match listener {
                Some(listener) => old(self)@.phase == ManagerPhase::BindingAuxiliary && old(
                    self,
                )@.auxiliary_listener == Some(listener@) && listener@.wf(),
                None => old(self)@.phase != ManagerPhase::BindingAuxiliary || old(
                    self,
                )@.auxiliary_listener is None,
            },
    {
        if self.phase == ManagerPhase::BindingAuxiliary {
            self.aux_listener.take()
        } else {
            None
        }
    }

    /// Hands out the dialer once the manager runs. A manager that has not
    /// bound its listeners hands out nothing.
    pub fn take_dialer(&mut self) -> (dialer: Option<Dialer<TBackoff>>)
        requires
            old(self).inv(),
        ensures
            final(self).inv(),
            final(self)@ == (ManagerView {
                dialer: if dialer is Some {
                    None
                } else {
                    old(self)@.dialer
                },
                ..old(self)@
            }),
            match dialer {
                Some(dialer) => old(self)@.phase == ManagerPhase::Running && old(self)@.dialer
                    == Some(dialer@) && dialer@.wf(),
                None => old(self)@.phase != ManagerPhase::Running || old(self)@.dialer is None,
            },
    {
        if self.phase == ManagerPhase::Running {
            self.dialer.take()
        } else {
            None
        }
    }

    /// Sets the manager running: it asks for the primary listener to be bound.
    pub fn run(&mut self) -> (actions: Vec<ManagerAction>)
        requires
            old(self).inv(),
        ensures
            final(self).inv(),
            (final(self)@, actions@) == old(self)@.run(),
    {
        let mut actions: Vec<ManagerAction> = Vec::new();
        if self.phase == ManagerPhase::Created {
            self.phase = ManagerPhase::BindingPrimary;
            let address = self.listener_address.clone();
            actions.push(ManagerAction::BindListener { address });
            assert(actions@ =~= seq![ManagerAction::BindListener { address }]);
        }
        actions
    }

    /// Starts the dialer and answers every caller that waited.
    fn notify_all_ready(&mut self, info: ListenerInfo) -> (actions: Vec<ManagerAction>)
        requires
            old(self).inv(),
            old(self)@.listener_info is None,
        ensures
            final(self).inv(),
            (final(self)@, actions@) == old(self)@.ready(info),
    {
        let mut actions: Vec<ManagerAction> = Vec::new();
        actions.push(ManagerAction::StartDialer);
        let mut k: usize = 0;
        while k < self.listening_notifiers.len()
            invariant
                k <= self.listening_notifiers.len(),
                *self == *old(self),
                actions@.len() == k + 1,
                actions@[0] == ManagerAction::StartDialer,
                forall|j: int|
                    0 <= j < k ==> actions@[j + 1] == (ManagerAction::ReplyListening {
                        reply: self.listening_notifiers@[j],
                        info,
                    }),
            decreases self.listening_notifiers.len() - k,
        {
            actions.push(
                ManagerAction::ReplyListening {
                    reply: self.listening_notifiers[k],
                    info: info.clone(),
                },
            );
            k += 1;
        }
        assert(actions@ =~= seq![ManagerAction::StartDialer] + old(self)@.listening_replies(info));
        self.phase = ManagerPhase::Running;
        self.bound_address = None;
        self.listener_info = Some(info);
        self.listening_notifiers = Vec::new();
        assert(self@.listening_notifiers =~= Seq::<ReplyToken>::empty());
        actions
    }

    /// Takes note of how binding the primary listener ended.
    pub fn listener_bound(&mut self, result: Result<Multiaddr, ConnectionManagerError>) -> (actions:
        Vec<ManagerAction>)
        requires
            old(self).inv(),
        ensures
            final(self).inv(),
            (final(self)@, actions@) == old(self)@.listener_bound(result),
    {
        if self.phase != ManagerPhase::BindingPrimary {
            return Vec::new();
        }
        match result {
            Err(_) => {
                self.phase = ManagerPhase::Failed;
                self.bound_address = None;
                Vec::new()
            },
            Ok(address) => {
                let auxiliary = match &self.auxiliary_address {
                    Some(auxiliary) => Some(auxiliary.clone()),
                    None => None,
                };
                match auxiliary {
                    Some(auxiliary) => {
                        self.phase = ManagerPhase::BindingAuxiliary;
                        self.bound_address = Some(address);
                        let mut actions: Vec<ManagerAction> = Vec::new();
                        actions.push(ManagerAction::BindAuxiliaryListener { address: auxiliary });
                        assert(actions@ =~= seq![
                            ManagerAction::BindAuxiliaryListener { address: auxiliary },
                        ]);
                        actions
                    },
                    None => self.notify_all_ready(
                        ListenerInfo { bind_address: address, aux_bind_address: None },
                    ),
                }
            },
        }
    }

    /// Takes note of how binding the auxiliary listener ended.
    pub fn auxiliary_listener_bound(
        &mut self,
        result: Result<Multiaddr, ConnectionManagerError>,
    ) -> (actions: Vec<ManagerAction>)
        requires
            old(self).inv(),
        ensures
            final(self).inv(),
            (final(self)@, actions@) == old(self)@.auxiliary_listener_bound(result),
    {
        if self.phase != ManagerPhase::BindingAuxiliary {
            return Vec::new();
        }
        let bound = match &self.bound_address {
            Some(bound) => bound.clone(),
            None => {
                return Vec::new();
            },
        };
        match result {
            Err(error) => match self.auxiliary_failure_policy {
                AuxiliaryFailurePolicy::Abort => {
                    self.phase = ManagerPhase::Failed;
                    self.bound_address = None;
                    Vec::new()
                },
                AuxiliaryFailurePolicy::Degrade => {
                    let info = ListenerInfo { bind_address: bound, aux_bind_address: None };
                    let mut actions: Vec<ManagerAction> = Vec::new();
                    actions.push(
                        ManagerAction::Publish(
                            ConnectionManagerEvent::PeerInboundConnectFailed(error),
                        ),
                    );
                    let mut ready = self.notify_all_ready(info);
                    let ghost first = actions@;
                    let ghost rest = ready@;
                    actions.append(&mut ready);
                    assert(actions@ =~= first + rest);
                    assert(first =~= seq![
                        ManagerAction::Publish(
                            ConnectionManagerEvent::PeerInboundConnectFailed(error),
                        ),
                    ]);
                    actions
                },
            },
            Ok(address) => self.notify_all_ready(
                ListenerInfo { bind_address: bound, aux_bind_address: Some(address) },
            ),
        }
    }

    /// Serves a request of a caller.
    pub fn handle_request(&mut self, request: ConnectionManagerRequest) -> (actions: Vec<
        ManagerAction,
    >)
        requires
            old(self).inv(),
        ensures
            final(self).inv(),
            (final(self)@, actions@) == old(self)@.handle_request(request),
    {
        let mut actions: Vec<ManagerAction> = Vec::new();
        if self.phase == ManagerPhase::Failed || self.phase == ManagerPhase::ShutDown {
            return actions;
        }
        match request {
            ConnectionManagerRequest::DialPeer(node_id, reply) => {
                actions.push(ManagerAction::FindPeer { node_id, reply });
                assert(actions@ =~= seq![ManagerAction::FindPeer { node_id, reply }]);
            },
            ConnectionManagerRequest::CancelDial(node_id) => {
                actions.push(ManagerAction::SendToDialer(DialerRequest::CancelPendingDial(node_id)));
                assert(actions@ =~= seq![
                    ManagerAction::SendToDialer(DialerRequest::CancelPendingDial(node_id)),
                ]);
            },
            ConnectionManagerRequest::NotifyListening(reply) => {
                match &self.listener_info {
                    Some(info) => {
                        let info = info.clone();
                        actions.push(ManagerAction::ReplyListening { reply, info });
                        assert(actions@ =~= seq![ManagerAction::ReplyListening { reply, info }]);
                    },
                    None => {
                        self.listening_notifiers.push(reply);
                    },
                }
            },
        }
        actions
    }

    /// Takes note of what the peer directory answered for a dial request:
    /// the peer goes to the dialer, an error goes back to the caller unchanged.
    pub fn peer_found(&mut self, reply: ReplyToken, result: Result<Peer, PeerManagerError>) -> (actions:
        Vec<ManagerAction>)
        requires
            old(self).inv(),
        ensures
            final(self).inv(),
            (final(self)@, actions@) == old(self)@.peer_found(reply, result),
    {
        let mut actions: Vec<ManagerAction> = Vec::new();
        if self.phase == ManagerPhase::Failed || self.phase == ManagerPhase::ShutDown {
            return actions;
        }
        match result {
            Ok(peer) => {
                actions.push(ManagerAction::SendToDialer(DialerRequest::Dial(Box::new(peer), reply)));
                assert(actions@ =~= seq![
                    ManagerAction::SendToDialer(DialerRequest::Dial(Box::new(peer), reply)),
                ]);
            },
            Err(error) => {
                let result: DialOutcome = Err(ConnectionManagerError::PeerManagerError(error));
                actions.push(ManagerAction::ReplyDial { reply, result });
                assert(actions@ =~= seq![ManagerAction::ReplyDial { reply, result }]);
            },
        }
        actions
    }

    /// Serves an event of the dialer or a listener: a new substream goes to
    /// the handler of its protocol, or is closed where there is none; every
    /// other event is published.
    pub fn handle_event(&mut self, event: ConnectionManagerEvent) -> (actions: Vec<ManagerAction>)
        requires
            old(self).inv(),
        ensures
            final(self).inv(),
            (final(self)@, actions@) == old(self)@.handle_event(event),
    {
        let mut actions: Vec<ManagerAction> = Vec::new();
        if self.phase == ManagerPhase::Failed || self.phase == ManagerPhase::ShutDown {
            return actions;
        }
        match event {
            ConnectionManagerEvent::NewInboundSubstream(node_id, protocol, stream) => {
                match self.protocols.notify(&protocol) {
                    Ok(handler) => {
                        actions.push(
                            ManagerAction::DeliverSubstream { handler, node_id, protocol, stream },
                        );
                        assert(actions@ =~= seq![
                            ManagerAction::DeliverSubstream { handler, node_id, protocol, stream },
                        ]);
                    },
                    Err(_) => {
                        actions.push(ManagerAction::CloseSubstream { stream });
                        assert(actions@ =~= seq![ManagerAction::CloseSubstream { stream }]);
                    },
                }
            },
            event => {
                actions.push(ManagerAction::Publish(event));
                assert(actions@ =~= seq![ManagerAction::Publish(event)]);
            },
        }
        actions
    }

    /// Takes note of the shutdown signal.
    pub fn shutdown(&mut self)
        requires
            old(self).inv(),
        ensures
            final(self).inv(),
            final(self)@ == old(self)@.shutdown().0,
    {
        if self.phase != ManagerPhase::Failed {
            self.phase = ManagerPhase::ShutDown;
            self.bound_address = None;
            self.listening_notifiers = Vec::new();
            assert(self@.listening_notifiers =~= Seq::<ReplyToken>::empty());
        }
    }

    /// Takes the next step for anything that can happen to the manager.
    pub fn handle(&mut self, input: ManagerInput) -> (actions: Vec<ManagerAction>)
        requires
            old(self).inv(),
        ensures
            final(self).inv(),
            (final(self)@, actions@) == old(self)@.step(input),
    {
        match input {
            ManagerInput::Run => self.run(),
            ManagerInput::ListenerBound(result) => self.listener_bound(result),
            ManagerInput::AuxiliaryListenerBound(result) => self.auxiliary_listener_bound(result),
            ManagerInput::Request(request) => self.handle_request(request),
            ManagerInput::PeerFound { reply, result } => self.peer_found(reply, result),
            ManagerInput::Event(event) => self.handle_event(event),
            ManagerInput::Shutdown => {
                self.shutdown();
                Vec::new()
            },
        }
    }
}

/// Every step keeps the manager well formed.
pub proof fn law_step_keeps_manager_well_formed<TBackoff: Backoff>(
    manager: ManagerView<TBackoff>,
    input: ManagerInput,
)
    requires
        manager.wf(),
    ensures
        manager.step(input).0.wf(),
{
}

/// A manager whose listener could not bind is stopped for good: whatever
/// happens to it afterwards, it stays as it is and asks for nothing. No
/// request is served and the dialer is never started.
pub proof fn law_bind_failure_is_final<TBackoff: Backoff>(
    manager: ManagerView<TBackoff>,
    inputs: Seq<ManagerInput>,
)
    requires
        manager.phase == ManagerPhase::Failed,
    ensures
        manager.run_all(inputs) == (manager, Seq::<ManagerAction>::empty()),
    decreases inputs.len(),
{
    if inputs.len() > 0 {
        law_bind_failure_is_final(manager, inputs.drop_last());
        assert(manager.step(inputs.last()) == (manager, Seq::<ManagerAction>::empty()));
        assert(Seq::<ManagerAction>::empty() + Seq::<ManagerAction>::empty() =~= Seq::<
            ManagerAction,
        >::empty());
    }
}

/// What happens to a manager in turn can be told in two parts: the state
/// after both is the state after the second part, taken from the state after
/// the first, and what was asked for is what both parts asked for.
pub proof fn lemma_run_all_in_parts<TBackoff: Backoff>(
    manager: ManagerView<TBackoff>,
    first: Seq<ManagerInput>,
    second: Seq<ManagerInput>,
)
    ensures
        manager.run_all(first + second).0 == manager.run_all(first).0.run_all(second).0,
        manager.run_all(first + second).1 == manager.run_all(first).1 + manager.run_all(
            first,
        ).0.run_all(second).1,
    decreases second.len(),
{
    if second.len() == 0 {
        assert(first + second =~= first);
        assert(manager.run_all(first).1 + Seq::<ManagerAction>::empty() =~= manager.run_all(
            first,
        ).1);
    } else {
        let all = first + second;
        assert(all.drop_last() =~= first + second.drop_last());
        assert(all.last() == second.last());
        lemma_run_all_in_parts(manager, first, second.drop_last());
        let middle = manager.run_all(first);
        let before = middle.0.run_all(second.drop_last());
        let last = before.0.step(second.last());
        assert((middle.1 + before.1) + last.1 =~= middle.1 + (before.1 + last.1));
    }
}

/// A manager whose primary listener fails to bind serves nothing from then
/// on: whatever happens after the failure, in whatever order, the manager
/// asks for nothing any more. No request is served, no listener is bound,
/// and the dialer is never started.
pub proof fn law_failed_primary_bind_serves_nothing<TBackoff: Backoff>(
    manager: ManagerView<TBackoff>,
    error: ConnectionManagerError,
    later: Seq<ManagerInput>,
)
    requires
        manager.phase == ManagerPhase::BindingPrimary,
    ensures
        manager.run_all(seq![ManagerInput::ListenerBound(Err(error))] + later).1 == Seq::<
            ManagerAction,
        >::empty(),
        manager.run_all(seq![ManagerInput::ListenerBound(Err(error))] + later).0.phase
            == ManagerPhase::Failed,
{
    let first = seq![ManagerInput::ListenerBound(Err(error))];
    lemma_run_all_in_parts(manager, first, later);
    assert(first.drop_last() =~= Seq::<ManagerInput>::empty());
    assert(manager.run_all(first.drop_last()) == (manager, Seq::<ManagerAction>::empty()));
    let stopped = manager.run_all(first);
    assert(stopped.1 =~= Seq::<ManagerAction>::empty());
    law_bind_failure_is_final(stopped.0, later);
    assert(Seq::<ManagerAction>::empty() + Seq::<ManagerAction>::empty() =~= Seq::<
        ManagerAction,
    >::empty());
}

/// Where binding the primary listener fails, the manager stops at once and
/// asks for nothing: not for the auxiliary listener, not for the dialer.
pub proof fn law_primary_bind_failure_stops_the_manager<TBackoff: Backoff>(
    manager: ManagerView<TBackoff>,
    error: ConnectionManagerError,
)
    requires
        manager.phase == ManagerPhase::BindingPrimary,
    ensures
        manager.listener_bound(Err(error)).0.phase == ManagerPhase::Failed,
        manager.listener_bound(Err(error)).1 == Seq::<ManagerAction>::empty(),
{
}

/// The dialer is started, and a caller is told where the manager listens,
/// only by a step that leaves the manager running with its listeners bound;
/// and the dialer is started only by the step that binds the last listener.
pub proof fn law_nothing_starts_before_the_listeners_are_bound<TBackoff: Backoff>(
    manager: ManagerView<TBackoff>,
    input: ManagerInput,
    k: int,
)
    requires
        manager.wf(),
        0 <= k < manager.step(input).1.len(),
        manager.step(input).1[k] is StartDialer || manager.step(input).1[k] is ReplyListening,
    ensures
        manager.step(input).0.phase == ManagerPhase::Running,
        manager.step(input).0.listener_info is Some,
        manager.step(input).1[k] is StartDialer ==> manager.phase != ManagerPhase::Running && {
            ||| input matches ManagerInput::ListenerBound(Ok(_)) && manager.phase
                == ManagerPhase::BindingPrimary && manager.auxiliary_address is None
            ||| input matches ManagerInput::AuxiliaryListenerBound(result) && manager.phase
                == ManagerPhase::BindingAuxiliary && (result is Ok
                || manager.auxiliary_failure_policy == AuxiliaryFailurePolicy::Degrade)
        },
{
}

/// Every answer to the question where the manager listens carries the bound
/// addresses that the manager holds after the step, and once they are known
/// they never change: so all callers, those that waited for the listeners to
/// bind and those that ask later, are told the same.
pub proof fn law_listening_replies_are_identical<TBackoff: Backoff>(
    manager: ManagerView<TBackoff>,
    input: ManagerInput,
    k: int,
)
    requires
        manager.wf(),
        0 <= k < manager.step(input).1.len(),
        manager.step(input).1[k] is ReplyListening,
    ensures
        manager.step(input).0.listener_info == Some(manager.step(input).1[k]->ReplyListening_info),
{
}

/// Whatever happens to a well formed manager, it stays well formed.
pub proof fn lemma_run_all_keeps_manager_well_formed<TBackoff: Backoff>(
    manager: ManagerView<TBackoff>,
    inputs: Seq<ManagerInput>,
)
    requires
        manager.wf(),
    ensures
        manager.run_all(inputs).0.wf(),
    decreases inputs.len(),
{
    if inputs.len() > 0 {
        lemma_run_all_keeps_manager_well_formed(manager, inputs.drop_last());
        law_step_keeps_manager_well_formed(
            manager.run_all(inputs.drop_last()).0,
            inputs.last(),
        );
    }
}

/// In the whole life of a manager, the dialer is started and a caller is
/// told where the manager listens only once the listeners are bound: if
/// either was ever asked for, the manager knows its bound addresses.
pub proof fn law_anything_started_means_the_listeners_are_bound<TBackoff: Backoff>(
    manager: ManagerView<TBackoff>,
    inputs: Seq<ManagerInput>,
    k: int,
)
    requires
        manager.wf(),
        0 <= k < manager.run_all(inputs).1.len(),
        manager.run_all(inputs).1[k] is StartDialer || manager.run_all(inputs).1[k]
            is ReplyListening,
    ensures
        manager.run_all(inputs).0.listener_info is Some,
    decreases inputs.len(),
{
    if inputs.len() > 0 {
        let before = manager.run_all(inputs.drop_last());
        lemma_run_all_keeps_manager_well_formed(manager, inputs.drop_last());
        if k < before.1.len() {
            law_anything_started_means_the_listeners_are_bound(manager, inputs.drop_last(), k);
            law_listener_info_never_changes(before.0, inputs.last());
        } else {
            law_nothing_starts_before_the_listeners_are_bound(
                before.0,
                inputs.last(),
                k - before.1.len(),
            );
        }
    }
}

/// A manager that has failed has started nothing: in its whole life the
/// dialer was never started and no caller was told where it listens.
pub proof fn law_a_failed_manager_started_nothing<TBackoff: Backoff>(
    manager: ManagerView<TBackoff>,
    inputs: Seq<ManagerInput>,
    k: int,
)
    requires
        manager.wf(),
        manager.run_all(inputs).0.phase == ManagerPhase::Failed,
        0 <= k < manager.run_all(inputs).1.len(),
    ensures
        !(manager.run_all(inputs).1[k] is StartDialer),
        !(manager.run_all(inputs).1[k] is ReplyListening),
{
    lemma_run_all_keeps_manager_well_formed(manager, inputs);
    if manager.run_all(inputs).1[k] is StartDialer || manager.run_all(inputs).1[k]
        is ReplyListening {
        law_anything_started_means_the_listeners_are_bound(manager, inputs, k);
    }
}

/// In the whole life of a manager, every answer to the question where it
/// listens carries the bound addresses that the manager holds in the end.
pub proof fn law_every_listening_reply_carries_the_bound_addresses<TBackoff: Backoff>(
    manager: ManagerView<TBackoff>,
    inputs: Seq<ManagerInput>,
    k: int,
)
    requires
        manager.wf(),
        0 <= k < manager.run_all(inputs).1.len(),
        manager.run_all(inputs).1[k] is ReplyListening,
    ensures
        manager.run_all(inputs).0.listener_info == Some(
            manager.run_all(inputs).1[k]->ReplyListening_info,
        ),
    decreases inputs.len(),
{
    if inputs.len() > 0 {
        let before = manager.run_all(inputs.drop_last());
        lemma_run_all_keeps_manager_well_formed(manager, inputs.drop_last());
        if k < before.1.len() {
            law_every_listening_reply_carries_the_bound_addresses(manager, inputs.drop_last(), k);
            law_listener_info_never_changes(before.0, inputs.last());
        } else {
            law_listening_replies_are_identical(before.0, inputs.last(), k - before.1.len());
        }
    }
}

/// In the whole life of a manager, all callers that ask where it listens
/// are told the same, whether they asked before the listeners were bound or
/// after.
pub proof fn law_all_listening_replies_are_the_same<TBackoff: Backoff>(
    manager: ManagerView<TBackoff>,
    inputs: Seq<ManagerInput>,
    j: int,
    k: int,
)
    requires
        manager.wf(),
        0 <= j < manager.run_all(inputs).1.len(),
        0 <= k < manager.run_all(inputs).1.len(),
        manager.run_all(inputs).1[j] is ReplyListening,
        manager.run_all(inputs).1[k] is ReplyListening,
    ensures
        manager.run_all(inputs).1[j]->ReplyListening_info == manager.run_all(
            inputs,
        ).1[k]->ReplyListening_info,
{
    law_every_listening_reply_carries_the_bound_addresses(manager, inputs, j);
    law_every_listening_reply_carries_the_bound_addresses(manager, inputs, k);
}

/// Once the bound addresses are known, no step changes them.
pub proof fn law_listener_info_never_changes<TBackoff: Backoff>(
    manager: ManagerView<TBackoff>,
    input: ManagerInput,
)
    requires
        manager.wf(),
        manager.listener_info is Some,
    ensures
        manager.step(input).0.listener_info == manager.listener_info,
{
}

/// When the listeners are bound, every caller that waited is answered, in
/// the order in which they asked, and none waits any longer.
pub proof fn law_every_waiting_caller_is_answered<TBackoff: Backoff>(
    manager: ManagerView<TBackoff>,
    info: ListenerInfo,
    i: int,
)
    requires
        0 <= i < manager.listening_notifiers.len(),
    ensures
        manager.ready(info).1.len() == manager.listening_notifiers.len() + 1,
        manager.ready(info).1[i + 1] == (ManagerAction::ReplyListening {
            reply: manager.listening_notifiers[i],
            info,
        }),
        manager.ready(info).0.listening_notifiers.len() == 0,
{
}

/// A substream reaches a handler only if its protocol is registered, and
/// then the handler of that protocol; a substream of any other protocol is
/// closed, and nothing else comes of it.
pub proof fn law_substreams_go_to_their_handler<TBackoff: Backoff>(
    manager: ManagerView<TBackoff>,
    node_id: NodeId,
    protocol: ProtocolId,
    stream: SubstreamId,
)
    requires
        !manager.is_stopped(),
    ensures
        ({
            let (next, actions) = manager.handle_event(
                ConnectionManagerEvent::NewInboundSubstream(node_id, protocol, stream),
            );
            &&& next == manager
            &&& actions.len() == 1
            &&& manager.protocols.dom().contains(protocol@) ==> actions[0] == (
            ManagerAction::DeliverSubstream {
                handler: manager.protocols[protocol@],
                node_id,
                protocol,
                stream,
            })
            &&& !manager.protocols.dom().contains(protocol@) ==> actions[0] == (
            ManagerAction::CloseSubstream { stream })
        }),
{
}

} // verus!
