//! Run-time CPU feature detection support.
//!
//! The heart of the crate is a lazily initialized cache of capability bits:
//! a fixed-capacity bitset recording which hardware features the running CPU
//! supports, filled in on first demand by a caller-supplied detection
//! routine and read on every capability check thereafter.
//!
//! Two storage layouts are provided: [`cache`] keeps the bitset in one
//! 64-bit word, for targets whose natural atomic word is at least that
//! wide; [`cache_narrow`] splits it across two 32-bit words, for targets
//! with half-width atomics.

pub mod cache;
pub mod cache_narrow;
