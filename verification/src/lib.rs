//! Core logic of a network speed-test client and server: load counting,
//! stream-health classification, throughput windows, ping statistics,
//! request framing, address selection and request routing.

pub mod counter;
pub mod ping;
pub mod text;
pub mod target;
pub mod requests;
pub mod workers;
pub mod address;
pub mod server;
pub mod select;
