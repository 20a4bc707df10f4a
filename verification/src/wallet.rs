//! Decisions of the console wallet: its commands and its cached state.

pub mod app_state;
pub mod base_node_service;
pub mod base_nodes;
pub mod commands;
