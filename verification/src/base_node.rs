//! Decisions of the base node around its chain and its peers.

pub mod comms_interface;
pub mod grpc;
