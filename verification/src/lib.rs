//! A transport-agnostic stream abstraction: client and server endpoints that
//! uniformly support plaintext TCP, TLS-wrapped TCP, and Unix domain sockets,
//! selected by parsing a scheme prefix (`tcp://`, `tls://`, `unix://`) out of
//! an address string.
//!
//! This crate holds the verified core: the rules that turn an address string
//! into a transport intent, the dispatch decisions behind `connect` and
//! `listen`, and the byte-level model of the unified send/receive contract.
//! The side that talks to the operating system lives outside the library and
//! consumes the plans produced here.

pub mod address;
pub mod client;
pub mod error;
pub mod server;
pub mod stream;
