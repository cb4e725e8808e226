//! Verified core of a set of small protocol services: an item store served
//! over REST, server-sent-event and WebSocket relays, JSON-RPC and MCP tools,
//! a gRPC demo service and an A2A echo agent.
//!
//! Every function here computes on plain values; the servers and clients
//! around it hand it what they read and send what it returns.

pub mod agent;
pub mod decimal;
pub mod grpc;
pub mod json_rpc;
pub mod sse;
pub mod store;
mod text;
pub mod tools;
pub mod ws;

pub use agent::{agent_card, EchoExecutor};
pub use decimal::{format_i64, format_usize};
pub use store::{
    create_item, delete_item, get_item, list_items, update_item, Item, ItemPayload, ItemStore,
    Status,
};
pub use tools::{echo, Tools};
