//! Client-side connection driver for a remote event-store service.
//!
//! The driver keeps one logical connection healthy against an endpoint
//! source: it sequences the handshake (optional authentication, then
//! client identification), multiplexes in-flight request/response
//! exchanges by correlation identifier, enforces per-operation timeouts
//! with retry, and detects silent peers through an application-level
//! heartbeat.  All decisions are made by a single state machine fed by a
//! serialized event stream; the host performs the returned actions
//! (discovery, opening sockets, transmitting packages).

pub mod command;
pub mod types;
pub mod package;
pub mod messaging;
pub mod registry;
pub mod tracker;
pub mod driver;
