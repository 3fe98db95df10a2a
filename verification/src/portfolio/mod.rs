//! The portfolio retrieval server: the checks and dispatch of its JSON-RPC
//! requests, its tool catalogue, and the shaping of what its tools report.

pub mod catalog;
pub mod report;
pub mod rpc;
