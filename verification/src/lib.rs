//! Rendezvous and relay core: a registry of pairing sessions keyed by short
//! human-typeable codes, the session lifecycle state machine, and the
//! per-connection handler logic for the sender and receiver roles.

pub mod auth;
pub mod code;
pub mod handler;
pub mod registry;
