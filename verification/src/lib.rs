//! A TCP reverse proxy core: an event-driven forwarding engine, a pluggable
//! destination multiplexer, and a streaming TLS ClientHello / SNI parser.
//!
//! The library holds the verified logic: the parser, the multiplexer
//! policies, the per-connection flow state machine with its ring buffers,
//! the reactor's flow table, and the configuration rules. The surrounding
//! binary performs the socket work and feeds events to these functions.

pub mod api;
pub mod config;
pub mod flow;
pub mod multiplex;
pub mod nexus;
pub mod ring;
pub mod tls;
