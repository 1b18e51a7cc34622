//! Node logic for a simulated cluster: gossip broadcast with per-peer
//! anti-entropy cursors, a grow-only replicated counter, and the message
//! types that the nodes exchange.

pub mod algorithms;
pub mod errors;
pub mod json;
pub mod kv;
pub mod node;
pub mod rpc;
pub mod workload;
