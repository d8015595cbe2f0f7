//! A network discovery responder for media servers: it answers a fixed UDP
//! probe with one pre-serialized descriptor per configured server.

pub mod config;
pub mod probe;
pub mod failure;
pub mod response;
