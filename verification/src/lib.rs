//! A versioned named-pointer store served over a request/response protocol.
//!
//! A *label* is a name that points at an immutable data layer and carries a
//! version counter. This crate holds the protocol's message shapes, the
//! server-side adapter that turns the outcomes of a label store into protocol
//! responses, the client-side interpretation of those responses, and the
//! connection pool that the client draws on.

pub mod client;
pub mod laws;
pub mod memory;
pub mod model;
pub mod plain;
pub mod proto;
pub mod server;
pub mod status;
pub mod storage;
