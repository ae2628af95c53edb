//! Stream processing for Docker Engine response bodies: a decoder for the
//! multiplexed log protocol, a decoder for newline-delimited JSON, and a
//! reader that hands out the bytes of a chunk stream without ever blocking,
//! together with the plain data types of the network, container and version
//! endpoints.

pub mod auth;
pub mod buffer;
pub mod container;
pub mod docker;
pub mod errors;
pub mod network;
pub mod read;
pub mod uri;
pub mod version;
