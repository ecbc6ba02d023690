//! A single-connection challenge service, modelled as a verified protocol
//! state machine.
//!
//! The service publishes a fixed challenge module into a fresh execution
//! backend, receives one solution module from the peer, publishes it, lets it
//! run, validates the resulting state, and discloses a secret only when
//! validation returns cleanly.  Everything that decides — the ordering of
//! reads, writes and backend operations, the framing of the solution payload,
//! the failure policy and the verdict — lives here with contracts; the
//! surrounding program performs the socket and backend operations the machine
//! asks for and reports each outcome back as an event.

pub mod config;
pub mod laws;
pub mod loader;
pub mod protocol;
pub mod wire;
