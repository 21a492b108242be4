//! Keeps a registry of remote tenants and decides, step by step, when the
//! protective action is issued against each of them.
//!
//! Every function here is a pure, in-memory decision: the surrounding program
//! performs the network calls and the sleeping, and reports back what
//! happened. Holding a lock around any call into this crate therefore never
//! holds it across an outbound request.

pub mod tenant;
pub mod registry;
pub mod text;
pub mod instant;
pub mod credential;
pub mod action;
pub mod dispatch;
pub mod scheduler;
pub mod on_demand;
pub mod service;
