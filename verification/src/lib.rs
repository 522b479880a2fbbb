//! A serial session manager: a state holder for at most one open serial
//! port, with operations to enumerate the host's ports, open, replace or
//! close the connection, write a buffer, and poll for inbound bytes without
//! blocking the caller past a fixed bound.
//!
//! The manager is transport-only and payload-agnostic: it frames nothing and
//! retries nothing; every failure is reported to the caller with a message
//! naming the cause, and the session stays usable after any of them.

pub mod errors;
pub mod laws;
pub mod ports;
pub mod session;
