//! Adapter between a ledger SDK's query and RPC abstractions and a consensus
//! node reached over plain HTTP.

pub mod height;
pub mod query;
pub mod client;
pub mod rpc;
