//! Connection management for an alert-analysis agent that enriches its
//! reports through Model Context Protocol (MCP) tool servers.
//!
//! The library holds the server configurations and their validation, the
//! registry of configurations, the choice of transport for each server, the
//! aggregation of connection attempts into one tool catalog, and the health
//! probe outcomes. Network and process I/O is left to the caller.

pub mod agents;
pub mod api;
pub mod clock;
pub mod config;
pub mod health;
pub mod json;
pub mod models;
pub mod native;
pub mod network;
pub mod pool;
pub mod registry;
pub mod string_map;
pub mod text;
pub mod transport;
