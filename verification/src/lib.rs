//! Client-side plumbing for the gRPC interface of an LND node: the plan by
//! which its protocol files are compiled, and the future that a call returns.

pub mod resp_future;
pub mod schema;
