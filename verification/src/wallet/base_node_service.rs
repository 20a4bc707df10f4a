//! The wallet's handle on the base node that it follows.

use crate::chain_storage::ChainMetadata;
use crate::comms::connection_manager::config::Delay;
use crate::comms::peer::Peer;
use vstd::prelude::*;

verus! {

/// What the wallet asks of its base node service.
#[derive(Debug, PartialEq, Eq)]
pub enum BaseNodeServiceRequest {
    GetChainMetadata,
    SetBaseNodePeer(Box<Peer>),
    GetBaseNodePeer,
    GetBaseNodeLatency,
}

/// What the base node service answers.
#[derive(Debug, PartialEq, Eq)]
pub enum BaseNodeServiceResponse {
    ChainMetadata(Option<ChainMetadata>),
    BaseNodePeerSet,
    BaseNodePeer(Option<Box<Peer>>),
    Latency(Option<Delay>),
}

/// Why the base node service could not answer.
#[derive(Clone, Copy, Debug, PartialEq, Eq, Structural)]
pub enum BaseNodeServiceError {
    /// The answer is not of the kind that the request calls for.
    UnexpectedApiResponse,
}

/// What the wallet knows of its base node.
#[derive(Clone, Copy, Debug, PartialEq, Eq, Structural)]
pub struct BaseNodeState {
    pub chain_metadata: Option<ChainMetadata>,
    pub is_synced: Option<bool>,
    pub latency: Option<Delay>,
    pub online: bool,
}

impl Default for BaseNodeState {
    fn default() -> (state: BaseNodeState)
        ensures
            state == (BaseNodeState {
                chain_metadata: None,
                is_synced: None,
                latency: None,
                online: false,
            }),
    {
        BaseNodeState { chain_metadata: None, is_synced: None, latency: None, online: false }
    }
}

/// What the base node service tells its subscribers.
#[derive(Debug, PartialEq, Eq)]
pub enum BaseNodeEvent {
    BaseNodeStateChanged(BaseNodeState),
    BaseNodePeerSet(Box<Peer>),
}

impl BaseNodeServiceResponse {
    /// The chain metadata, if that is what the answer carries.
    pub fn into_chain_metadata(self) -> (metadata: Result<
        Option<ChainMetadata>,
        BaseNodeServiceError,
    >)
        ensures
            metadata == match self {
                BaseNodeServiceResponse::ChainMetadata(metadata) => Ok::<
                    Option<ChainMetadata>,
                    BaseNodeServiceError,
                >(metadata),
                _ => Err::<Option<ChainMetadata>, BaseNodeServiceError>(
                    BaseNodeServiceError::UnexpectedApiResponse,
                ),
            },
    {
        match self {
            BaseNodeServiceResponse::ChainMetadata(metadata) => Ok(metadata),
            _ => Err(BaseNodeServiceError::UnexpectedApiResponse),
        }
    }

    /// The word that the base node was set, if that is what the answer carries.
    pub fn into_peer_set(self) -> (set: Result<(), BaseNodeServiceError>)
        ensures
            set == if self is BaseNodePeerSet {
                Ok::<(), BaseNodeServiceError>(())
            } else {
                Err::<(), BaseNodeServiceError>(BaseNodeServiceError::UnexpectedApiResponse)
            },
    {
        match self {
            BaseNodeServiceResponse::BaseNodePeerSet => Ok(()),
            _ => Err(BaseNodeServiceError::UnexpectedApiResponse),
        }
    }

    /// The base node, if that is what the answer carries.
    pub fn into_base_node_peer(self) -> (peer: Result<Option<Peer>, BaseNodeServiceError>)
        ensures
            peer == match self {
                BaseNodeServiceResponse::BaseNodePeer(Some(peer)) => Ok::<
                    Option<Peer>,
                    BaseNodeServiceError,
                >(Some(*peer)),
                BaseNodeServiceResponse::BaseNodePeer(None) => Ok::<
                    Option<Peer>,
                    BaseNodeServiceError,
                >(None),
                _ => Err::<Option<Peer>, BaseNodeServiceError>(
                    BaseNodeServiceError::UnexpectedApiResponse,
                ),
            },
    {
        match self {
            BaseNodeServiceResponse::BaseNodePeer(peer) => match peer {
                Some(peer) => Ok(Some(*peer)),
                None => Ok(None),
            },
            _ => Err(BaseNodeServiceError::UnexpectedApiResponse),
        }
    }

    /// The latency of the base node, if that is what the answer carries.
    pub fn into_latency(self) -> (latency: Result<Option<Delay>, BaseNodeServiceError>)
        ensures
            latency == match self {
                BaseNodeServiceResponse::Latency(latency) => Ok::<
                    Option<Delay>,
                    BaseNodeServiceError,
                >(latency),
                _ => Err::<Option<Delay>, BaseNodeServiceError>(
                    BaseNodeServiceError::UnexpectedApiResponse,
                ),
            },
    {
        match self {
            BaseNodeServiceResponse::Latency(latency) => Ok(latency),
            _ => Err(BaseNodeServiceError::UnexpectedApiResponse),
        }
    }
}

} // verus!
