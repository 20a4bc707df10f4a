//! Errors of the connection manager and of the peer directory it consults.

use vstd::prelude::*;

verus! {

/// Why the peer directory could not hand out a peer.
#[derive(Clone, Copy, Debug, PartialEq, Eq, Structural)]
pub enum PeerManagerError {
    PeerNotFound,
    BannedPeer,
    StorageFailure,
}

/// Why a connection could not be established.
#[derive(Debug, PartialEq, Eq)]
pub enum ConnectionManagerError {
    /// The peer directory failed; its error is passed on unchanged.
    PeerManagerError(PeerManagerError),
    /// The transport could not connect, with the transport's message.
    TransportError(String),
    /// A listener could not bind its address, with the transport's message.
    ListenerFailed(String),
    /// The peer to dial has no known address.
    PeerHasNoAddresses,
    /// No connect attempt was allowed or left.
    DialConnectFailedAllAddresses,
    /// The secure channel handshake failed, with the handshake's message.
    NoiseError(String),
    /// The handshake revealed another identity than the one that was dialed.
    DialedPublicKeyMismatch,
    /// Protocol identification failed after the handshake.
    IdentityProtocolError(String),
    /// The remote side did not send its first byte in time.
    NoiseProtocolTimeout,
    /// The dial was cancelled before it completed.
    DialCancelled,
}

impl Clone for ConnectionManagerError {
    fn clone(&self) -> (copy: ConnectionManagerError)
        ensures
            copy == *self,
    {
        match self {
            ConnectionManagerError::PeerManagerError(e) => ConnectionManagerError::PeerManagerError(
                *e,
            ),
            ConnectionManagerError::TransportError(m) => ConnectionManagerError::TransportError(
                m.clone(),
            ),
            ConnectionManagerError::ListenerFailed(m) => ConnectionManagerError::ListenerFailed(
                m.clone(),
            ),
            ConnectionManagerError::PeerHasNoAddresses => ConnectionManagerError::PeerHasNoAddresses,
            ConnectionManagerError::DialConnectFailedAllAddresses => {
                ConnectionManagerError::DialConnectFailedAllAddresses
            },
            ConnectionManagerError::NoiseError(m) => ConnectionManagerError::NoiseError(m.clone()),
            ConnectionManagerError::DialedPublicKeyMismatch => {
                ConnectionManagerError::DialedPublicKeyMismatch
            },
            ConnectionManagerError::IdentityProtocolError(m) => {
                ConnectionManagerError::IdentityProtocolError(m.clone())
            },
            ConnectionManagerError::NoiseProtocolTimeout => ConnectionManagerError::NoiseProtocolTimeout,
            ConnectionManagerError::DialCancelled => ConnectionManagerError::DialCancelled,
        }
    }
}

} // verus!
