//! Object-resolution core for a federated discussion platform.
//!
//! Reconciles locally persisted reply entities with their portable wire form
//! (a threaded-reply object exchanged between independently operated servers):
//! bidirectional conversion, recursive dereference of unknown references under
//! a shared fetch budget, trust verification of the authoring actor against
//! the owning community, content sanitization, and idempotent upsert.

pub mod budget;
pub mod convert;
pub mod errors;
pub mod entities;
pub mod ids;
pub mod resolve;
pub mod sanitize;
pub mod store;
pub mod trust;
pub mod wire;
