//! A verified codec for platform registry values.
//!
//! A registry value travels on the wire as a numeric type tag paired with a
//! byte buffer ([`RegValue`]). This crate converts such raw pairs to and from
//! a typed domain model ([`value::RegistryData`]), covering the fixed-width
//! integer kinds, the UTF-16 string kinds and the opaque binary kinds, and
//! offers adapter traits ([`types::FromRegValue`], [`types::ToRegValue`]) for
//! callers who want a single scalar or text type rather than the full
//! variant set.
use vstd::prelude::*;

pub mod enums;
pub mod ints;
pub mod wide;
pub mod value;
pub mod codec;
pub mod types;

verus! {

/// A raw registry value exactly as the key/value store hands it out:
/// a numeric type tag and an uninterpreted byte buffer.
#[derive(Debug, Clone, PartialEq, Eq)]
pub struct RegValue {
    /// The numeric type tag; see the `REG_*` constants in [`enums`].
    pub vtype: u32,
    /// The payload bytes, owned by this value.
    pub bytes: Vec<u8>,
}

} // verus!
