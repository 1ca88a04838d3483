//! Multicast DNS service discovery and registration.
//!
//! A browser watches for services of a given type and, for each one found,
//! runs a three-stage resolution chain (browse, resolve host/port, resolve
//! address) before delivering a fully resolved [`records::ServiceDiscovery`]
//! to the caller.  A service publisher registers a named service and reports
//! back the name, type and domain actually assigned by the network stack.
//!
//! The backend network stack drives everything through callbacks; the state
//! that threads through those callbacks, and the decisions each stage makes,
//! live here as verified functions from state and event to next state and
//! request.  The unverifiable edge (the C calls and the event loop) stays
//! outside and feeds events in as plain values.

pub mod browser;
pub mod domain;
pub mod error;
pub mod records;
pub mod render;
pub mod service;
