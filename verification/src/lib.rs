//! A non-fungible-asset registry: deterministic identity generation from an
//! owner and a per-owner sequence count, plus a dual-indexed store so a record
//! can be looked up by its id or by enumerating everything an owner holds.

pub mod bytes;
pub mod identity;
pub mod kv;
pub mod laws;
pub mod registry;
pub mod types;
