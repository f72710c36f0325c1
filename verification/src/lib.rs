//! A link-shortening service core: a soft-deleted `Link` resource guarded by
//! timestamp-based optimistic concurrency control.
//!
//! The crate is layered as the protocol is: `store` holds the rows and the
//! atomic compare-and-swap primitives, `controller` enforces the mutation
//! rules and classifies outcomes, and `endpoint` maps requests onto the
//! controller and outcomes onto protocol statuses. `link` holds the data
//! model, `codec` the textual forms (identifiers and version tokens), and
//! `laws` the proofs of the protocol's global properties.

pub mod codec;
pub mod controller;
pub mod endpoint;
pub mod laws;
pub mod link;
pub mod store;
