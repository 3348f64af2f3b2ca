//! Building blocks for a network-latency measurement toolkit.
//!
//! The toolkit's roles — echo servers, relay forwarders, latency clients and
//! a duplex tester — all move opaque byte buffers between sockets. Everything
//! those roles decide or compute is here as verified functions on plain
//! values: which bytes an echo handler writes back, which bytes a forwarder
//! hands to its upstream peer, whether a reply matches the payload that was
//! sent, when a retrying connect loop may proceed, and how a measurement run
//! advances. The socket loops themselves run outside the library and feed it
//! the bytes and events they observe.

pub mod chunk;
pub mod client;
pub mod echo;
pub mod payload;
pub mod relay;
pub mod tester;
