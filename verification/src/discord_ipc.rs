//! Discord's local RPC protocol, without the socket: bytes go in, bytes and
//! results come out.

pub mod client;
pub mod frame;
pub mod laws;
pub mod message;
pub mod request;
pub mod socket;
