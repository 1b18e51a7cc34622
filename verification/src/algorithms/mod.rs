//! The node algorithms, one module for each workload, and what they share.

pub mod cursors;
pub mod echo;
pub mod gcounter;
pub mod gossip;
pub mod node_ids;
pub mod topology;
pub mod unique_ids;
