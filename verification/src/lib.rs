//! A small verified core for per-owner records guarded by viewing keys.
//!
//! The crate models a flat byte-oriented key-value backend ([`store::KvStore`]),
//! a typed persistence layer over it with a stable binary encoding
//! ([`state`]), collision-free namespacing of backend keys ([`namespace`]),
//! secret bearer tokens stored only as one-way hashes and checked in fixed
//! time ([`viewing_key`]), and the record/read/stats/authenticated-read
//! operations built from those parts ([`contract`]).

pub mod auth;
pub mod contract;
pub mod crypto;
pub mod error;
pub mod laws;
pub mod msg;
pub mod namespace;
pub mod state;
pub mod store;
pub mod viewing_key;
