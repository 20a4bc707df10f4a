//! Verified building blocks of a peer-to-peer node stack: network selection,
//! the connection manager of the communications layer, and the decision logic
//! of the base node and wallet that sits around it.

pub mod base_node;
pub mod chain_storage;
pub mod comms;
pub mod network;
pub mod transactions;
pub mod validation;
pub mod wallet;
