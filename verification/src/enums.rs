//! The registry type tags and the codec's error taxonomy.
use vstd::prelude::*;

verus! {

/// Tag of a value with no defined type.
pub const REG_NONE: u32 = 0;

/// Tag of a null-terminated UTF-16 string.
pub const REG_SZ: u32 = 1;

/// Tag of a null-terminated UTF-16 string holding unexpanded
/// environment-variable references.
pub const REG_EXPAND_SZ: u32 = 2;

/// Tag of an opaque binary blob.
pub const REG_BINARY: u32 = 3;

/// Tag of a 32-bit unsigned integer, little-endian on the wire.
pub const REG_DWORD: u32 = 4;

/// Tag of a 32-bit unsigned integer, big-endian on the wire.
pub const REG_DWORD_BIG_ENDIAN: u32 = 5;

/// Tag of a symbolic link target, a null-terminated UTF-16 string.
pub const REG_LINK: u32 = 6;

/// Tag of a sequence of UTF-16 strings, each null-terminated, with a second
/// null terminating the whole list.
pub const REG_MULTI_SZ: u32 = 7;

/// Tag of a device resource list; the payload format is opaque.
pub const REG_RESOURCE_LIST: u32 = 8;

/// Tag of a full resource descriptor; the payload format is opaque.
pub const REG_FULL_RESOURCE_DESCRIPTOR: u32 = 9;

/// Tag of a resource requirements list; the payload format is opaque.
pub const REG_RESOURCE_REQUIREMENTS_LIST: u32 = 10;

/// Tag of a 64-bit unsigned integer, little-endian on the wire.
pub const REG_QWORD: u32 = 11;

/// Why a conversion was refused. The codec never recovers from these
/// locally: each failure is handed to the immediate caller.
#[derive(Clone, Copy, Debug, PartialEq, Eq, Structural)]
pub enum RegistryError {
    /// A decode met a type tag with no known variant mapping.
    UnsupportedType,
    /// A payload length is inconsistent with its tag: a fixed-width kind
    /// with the wrong byte count, or an odd-length buffer for a UTF-16 kind.
    MalformedValue,
    /// An adapter was asked to project a value into an incompatible
    /// concrete type.
    TypeMismatch,
}

} // verus!
