//! The typed domain model of a registry value and its ghost counterpart.
use vstd::prelude::*;

verus! {

/// A typed registry value: the closed set of data kinds the wire format
/// supports. Values are immutable once built; conversions always produce
/// new values.
#[derive(Debug, Clone, PartialEq, Eq)]
pub enum RegistryData {
    /// No defined type.
    RegNone,
    /// Text, null-terminated UTF-16 on the wire.
    RegSz(String),
    /// Text holding unexpanded environment-variable references.
    RegExpandSz(String),
    /// An opaque byte buffer, kept as-is.
    RegBinary(Vec<u8>),
    /// A 32-bit unsigned integer, little-endian on the wire.
    RegDword(u32),
    /// A 32-bit unsigned integer, big-endian on the wire.
    RegDwordBigEndian(u32),
    /// A symbolic link target.
    RegLink(String),
    /// An ordered sequence of strings, each null-terminated on the wire,
    /// with a second null closing the list.
    RegMultiSz(Vec<String>),
    /// A device resource list; the format is opaque, kept as-is.
    RegResourceList(Vec<u8>),
    /// A full resource descriptor; the format is opaque, kept as-is.
    RegFullResourceDescriptor(Vec<u8>),
    /// A resource requirements list; the format is opaque, kept as-is.
    RegResourceRequirementsList(Vec<u8>),
    /// A 64-bit unsigned integer, little-endian on the wire.
    RegQword(u64),
}

/// The mathematical model of a [`RegistryData`]: text as character
/// sequences, buffers as byte sequences.
pub enum ValueModel {
    RegNone,
    RegSz(Seq<char>),
    RegExpandSz(Seq<char>),
    RegBinary(Seq<u8>),
    RegDword(u32),
    RegDwordBigEndian(u32),
    RegLink(Seq<char>),
    RegMultiSz(Seq<Seq<char>>),
    RegResourceList(Seq<u8>),
    RegFullResourceDescriptor(Seq<u8>),
    RegResourceRequirementsList(Seq<u8>),
    RegQword(u64),
}

impl DeepView for RegistryData {
    type V = ValueModel;

    open spec fn deep_view(&self) -> ValueModel {
        match self {
            RegistryData::RegNone => ValueModel::RegNone,
            RegistryData::RegSz(s) => ValueModel::RegSz(s.deep_view()),
            RegistryData::RegExpandSz(s) => ValueModel::RegExpandSz(s.deep_view()),
            RegistryData::RegBinary(b) => ValueModel::RegBinary(b@),
            RegistryData::RegDword(x) => ValueModel::RegDword(*x),
            RegistryData::RegDwordBigEndian(x) => ValueModel::RegDwordBigEndian(*x),
            RegistryData::RegLink(s) => ValueModel::RegLink(s.deep_view()),
            RegistryData::RegMultiSz(ss) => ValueModel::RegMultiSz(ss.deep_view()),
            RegistryData::RegResourceList(b) => ValueModel::RegResourceList(b@),
            RegistryData::RegFullResourceDescriptor(b) => ValueModel::RegFullResourceDescriptor(b@),
            RegistryData::RegResourceRequirementsList(b) => ValueModel::RegResourceRequirementsList(b@),
            RegistryData::RegQword(x) => ValueModel::RegQword(*x),
        }
    }
}

/// A raw registry value kept with no interpretation at all: the tag and
/// the bytes, exactly as the store supplied or will receive them.
#[derive(Debug, Clone, PartialEq, Eq)]
pub struct RawRegistryData {
    /// The numeric type tag, whether or not it is in the known table.
    pub data_type: u32,
    /// The payload bytes, copied unchanged in both directions.
    pub data: Vec<u8>,
}

/// The model of a raw value: the tag and the byte sequence.
pub struct RawModel {
    pub data_type: u32,
    pub data: Seq<u8>,
}

impl DeepView for RawRegistryData {
    type V = RawModel;

    open spec fn deep_view(&self) -> RawModel {
        RawModel { data_type: self.data_type, data: self.data@ }
    }
}

} // verus!
