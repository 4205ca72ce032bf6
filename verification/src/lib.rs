//! IPv6 prefix and address delegation for an overlay mesh network.
//!
//! A delegating peer lends stable, globally routable IPv6 addresses out of
//! its own on-link /64 prefixes to peers that lack native IPv6 connectivity.
//! The crate holds the verified core: a stable address allocator over a fixed
//! prefix, discovery of eligible on-link /64 prefixes from plain interface
//! records, deterministic derivation of 64-bit interface identifiers, and the
//! delegation protocol that turns a request into a response together with a
//! plan of network-configuration commands for the host to apply.

pub mod addr;
pub mod allocator;
pub mod discovery;
pub mod iid;
pub mod server;
