//! The record of an established session with a peer.

use crate::comms::peer::NodeId;
use vstd::prelude::*;

verus! {

/// Which side opened the connection.
#[derive(Clone, Copy, Debug, PartialEq, Eq, Structural)]
pub enum ConnectionDirection {
    Inbound,
    Outbound,
}

/// The handle under which the tasks that own the sockets know a connection.
#[derive(Clone, Copy, Debug, PartialEq, Eq, Structural, Hash)]
pub struct ConnectionId(pub u64);

/// A live, authenticated and multiplexed session with a peer.
#[derive(Clone, Copy, Debug, PartialEq, Eq, Structural)]
pub struct PeerConnection {
    pub id: ConnectionId,
    pub peer_node_id: NodeId,
    pub direction: ConnectionDirection,
    /// When the session was established, in milliseconds of the caller's clock.
    pub established_at: u64,
}

impl PeerConnection {
    pub fn new(
        id: ConnectionId,
        peer_node_id: NodeId,
        direction: ConnectionDirection,
        established_at: u64,
    ) -> (connection: PeerConnection)
        ensures
            connection == (PeerConnection { id, peer_node_id, direction, established_at }),
    {
        PeerConnection { id, peer_node_id, direction, established_at }
    }

    pub fn id(&self) -> (id: ConnectionId)
        ensures
            id == self.id,
    {
        self.id
    }

    pub fn peer_node_id(&self) -> (node_id: NodeId)
        ensures
            node_id == self.peer_node_id,
    {
        self.peer_node_id
    }

    pub fn direction(&self) -> (direction: ConnectionDirection)
        ensures
            direction == self.direction,
    {
        self.direction
    }
}

} // verus!
