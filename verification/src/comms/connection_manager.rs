//! The peer connection manager: outbound dialing, inbound admission, and the
//! orchestrator that composes them.
//!
//! Each component is a state machine. It is handed what happened (a request,
//! the outcome of a connect, a handshake that finished) and answers with its
//! next state and the actions to perform; the tasks that own the sockets
//! perform them and report back.

pub mod address;
pub mod config;
pub mod dialer;
pub mod error;
pub mod listener;
pub mod manager;
pub mod peer_connection;
