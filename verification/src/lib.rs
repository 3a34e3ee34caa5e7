//! Core of a health probe for a node of an overlay network.
//!
//! The probe joins the network as an ephemeral member, waits for the join to
//! converge under a bounded deadline, evaluates the instance's snapshot
//! against a peer-qualification rule, and reports an online/offline verdict
//! together with a connection count in a fixed machine-readable format.
//!
//! The network engine itself (transport, routing, NAT traversal) is an
//! outside collaborator: this crate holds the decision logic alone, as a
//! state machine driven by the events that the engine produces, and an
//! unverified shell performs the engine calls and the waiting.

pub mod config;
pub mod errors;
pub mod health;
pub mod report;
pub mod session;
pub mod snapshot;
pub mod text;
