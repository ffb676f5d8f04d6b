//! Verified core of a URL-shortening service.
//!
//! The crate covers the one algorithmically interesting part of such a
//! service: turning a (possibly user-supplied) slug request plus an
//! authorization tier into a reserved, globally unique identifier, with
//! bounded retries, tier-specific eviction rules, and a clean separation
//! between contention (retried) and infrastructure failures (surfaced).
//!
//! Layout:
//! - [`tier`]: authorization tiers and the per-request allocation policy;
//! - [`ident`]: the URL-safe random identifier generator;
//! - [`record`]: requests, records, and their mathematical models;
//! - [`store`]: a verified in-memory datastore satisfying the port the
//!   allocator needs (occupant lookup, tombstoning eviction, unique insert);
//! - [`allocator`]: the allocation state machine and the driver that runs
//!   it against the in-memory store;
//! - [`provision`]: the rules for issuing tokens and invites.

pub mod allocator;
pub mod ident;
pub mod provision;
pub mod record;
pub mod store;
pub mod tier;
