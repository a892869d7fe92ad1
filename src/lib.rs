//! Decision core of a 2-D rigid-body collision response.
//!
//! The numeric work (vectors, impulses, geometry queries) is done by the
//! caller; this crate decides what happens when and in which order, and lays
//! out shape outlines.
pub mod outline;
pub mod protocol;
