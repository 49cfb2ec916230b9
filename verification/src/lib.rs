//! Agent orchestration and routing: a capability registry, a bounded
//! delegation dispatcher, a layered router, and the client side of a
//! line-delimited request/response protocol for tool-provider processes.

pub mod text;
pub mod errors;
pub mod common;
pub mod client;
pub mod json;
pub mod llm;
pub mod agents;
pub mod mcp_client;
pub mod mcp_server;
pub mod tools;
pub mod config;
pub mod memory;
