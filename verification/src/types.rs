//! Adapter traits between raw registry values and ordinary types: the
//! full typed model, plain scalars and text, raw UTF-16 units, and an
//! uninterpreted passthrough.
use vstd::prelude::*;
use vstd::slice::slice_to_vec;
use vstd::string::StringExecFns;
use crate::RegValue;
use crate::enums::REG_SZ;
use crate::enums::REG_EXPAND_SZ;
use crate::enums::REG_DWORD;
use crate::enums::REG_DWORD_BIG_ENDIAN;
use crate::enums::REG_MULTI_SZ;
use crate::enums::REG_QWORD;
use crate::enums::RegistryError;
use crate::value::RegistryData;
use crate::value::RawRegistryData;
use crate::value::RawModel;
use crate::value::ValueModel;
use crate::codec::spec_decode_accepts;
use crate::codec::spec_decode_value;
use crate::codec::spec_decode_err;
use crate::codec::wire_tag;
use crate::codec::spec_encode_bytes;
use crate::codec::decoded_text;
use crate::codec::decoded_multi;
use crate::codec::nt_units;
use crate::codec::round_trippable;
use crate::codec::lemma_codec_round_trip;
use crate::wide::utf16_units;
use crate::wide::wide_to_bytes;
use crate::wide::bytes_to_wide;
use crate::wide::units_to_bytes;
use crate::wide::bytes_to_units;
use crate::ints::spec_u32_to_be_bytes;
use crate::ints::lemma_u32_be_round_trip;
use vstd::bytes::spec_u32_to_le_bytes;
use vstd::bytes::lemma_auto_spec_u32_to_from_le_bytes;
use vstd::bytes::spec_u32_from_le_bytes;
use vstd::bytes::spec_u64_to_le_bytes;
use vstd::bytes::spec_u64_from_le_bytes;
use vstd::bytes::u32_to_le_bytes;
use vstd::bytes::u64_to_le_bytes;

verus! {

/// A type that can be loaded from a raw registry value. Each implementor
/// says in spec terms which raw values it accepts, what model the loaded
/// value carries, and which error a refused raw value earns.
pub trait FromRegValue: Sized + DeepView {
    /// True on the raw values this type accepts.
    spec fn from_accepts(val: &RegValue) -> bool;

    /// The model of the value loaded from an accepted raw value.
    spec fn from_value(val: &RegValue) -> Self::V;

    /// The error reported for a refused raw value.
    spec fn from_err(val: &RegValue) -> RegistryError;

    /// Loads a value of this type from a raw registry value, accepting
    /// or refusing it exactly as the implementor's spec says.
    fn from_reg_value(val: RegValue) -> (r: Result<Self, RegistryError>)
        ensures
            Self::from_accepts(&val) ==> (r matches Ok(v) && v.deep_view() == Self::from_value(
                &val,
            )),
            !Self::from_accepts(&val) ==> (r matches Err(e) && e == Self::from_err(&val)),
    ;
}

/// A type that can be written into a raw registry value. Writing never
/// fails: each implementor says which tag and which bytes it produces.
pub trait ToRegValue {
    /// The tag the encoded value carries.
    spec fn to_tag(&self) -> u32;

    /// The bytes the encoded value carries.
    spec fn to_bytes(&self) -> Seq<u8>;

    /// Encodes this value as a raw registry value.
    fn to_reg_value(&self) -> (r: RegValue)
        ensures
            r.vtype == self.to_tag(),
            r.bytes@ == self.to_bytes(),
    ;
}

impl FromRegValue for RegistryData {
    open spec fn from_accepts(val: &RegValue) -> bool {
        spec_decode_accepts(val.vtype, val.bytes@)
    }

    open spec fn from_value(val: &RegValue) -> ValueModel {
        spec_decode_value(val.vtype, val.bytes@)
    }

    open spec fn from_err(val: &RegValue) -> RegistryError {
        spec_decode_err(val.vtype)
    }

    fn from_reg_value(val: RegValue) -> Result<Self, RegistryError> {
        RegistryData::from_raw_registry_data(
            RawRegistryData { data_type: val.vtype, data: val.bytes },
        )
    }
}

impl ToRegValue for RegistryData {
    open spec fn to_tag(&self) -> u32 {
        wire_tag(self.deep_view())
    }

    open spec fn to_bytes(&self) -> Seq<u8> {
        spec_encode_bytes(self.deep_view())
    }

    fn to_reg_value(&self) -> RegValue {
        let raw = self.to_raw_registry_data();
        RegValue { vtype: raw.data_type, bytes: raw.data }
    }
}

impl FromRegValue for RawRegistryData {
    /// The passthrough accepts every raw value, whatever its tag.
    open spec fn from_accepts(val: &RegValue) -> bool {
        true
    }

    open spec fn from_value(val: &RegValue) -> RawModel {
        RawModel { data_type: val.vtype, data: val.bytes@ }
    }

    /// Never returned: the passthrough refuses nothing.
    open spec fn from_err(val: &RegValue) -> RegistryError {
        RegistryError::TypeMismatch
    }

    fn from_reg_value(val: RegValue) -> Result<Self, RegistryError> {
        Ok(RawRegistryData { data_type: val.vtype, data: val.bytes })
    }
}

impl ToRegValue for RawRegistryData {
    open spec fn to_tag(&self) -> u32 {
        self.data_type
    }

    open spec fn to_bytes(&self) -> Seq<u8> {
        self.data@
    }

    fn to_reg_value(&self) -> RegValue {
        RegValue { vtype: self.data_type, bytes: slice_to_vec(self.data.as_slice()) }
    }
}

/// Passthrough law: the raw adapter accepts every `(tag, bytes)` pair,
/// hands both through unchanged on the way in, and writes both back
/// unchanged on the way out, with no interpretation of either.
pub proof fn lemma_raw_passthrough(val: RegValue, raw: RawRegistryData)
    ensures
        <RawRegistryData as FromRegValue>::from_accepts(&val),
        <RawRegistryData as FromRegValue>::from_value(&val).data_type == val.vtype,
        <RawRegistryData as FromRegValue>::from_value(&val).data == val.bytes@,
        raw.to_tag() == raw.data_type,
        raw.to_bytes() == raw.data@,
{
}

/// Round-trip law at the adapter boundary: a raw value written by the
/// typed encoder is accepted back by the typed loader and loads as the
/// very model it was written from, for every value the codec's
/// round-trip law admits.
pub proof fn lemma_typed_adapter_round_trip(v: &RegistryData, raw: RegValue)
    requires
        round_trippable(v.deep_view()),
        raw.vtype == v.to_tag(),
        raw.bytes@ == v.to_bytes(),
    ensures
        <RegistryData as FromRegValue>::from_accepts(&raw),
        <RegistryData as FromRegValue>::from_value(&raw) == v.deep_view(),
{
    lemma_codec_round_trip(v.deep_view());
}

/// Endianness law: the 32-bit adapter is deliberately one-sided. A raw
/// value holding `x` in big-endian form is refused as a type mismatch,
/// while one holding the same `x` in little-endian form loads as `x`.
pub proof fn lemma_dword_endianness_mismatch(x: u32, big: RegValue, little: RegValue)
    requires
        big.vtype == REG_DWORD_BIG_ENDIAN,
        big.bytes@ == spec_u32_to_be_bytes(x),
        little.vtype == REG_DWORD,
        little.bytes@ == spec_u32_to_le_bytes(x),
    ensures
        !<u32 as FromRegValue>::from_accepts(&big),
        <u32 as FromRegValue>::from_err(&big) == RegistryError::TypeMismatch,
        <u32 as FromRegValue>::from_accepts(&little),
        <u32 as FromRegValue>::from_value(&little) == x,
{
    lemma_u32_be_round_trip(x);
    lemma_auto_spec_u32_to_from_le_bytes();
}

/// The text a string payload is loaded as: one decoded string, or a
/// string list rejoined with a newline between entries.
pub open spec fn text_of_payload(vtype: u32, b: Seq<u8>) -> Seq<char> {
    if vtype == REG_MULTI_SZ {
        joined_with_newlines(decoded_multi(b))
    } else {
        decoded_text(b)
    }
}

/// The entries after the first, each preceded by a newline separator.
pub open spec fn tail_joined(ss: Seq<Seq<char>>) -> Seq<char>
    decreases ss.len(),
{
    if ss.len() == 0 {
        Seq::empty()
    } else {
        seq!['\n'] + ss[0] + tail_joined(ss.drop_first())
    }
}

/// The entries of a string list joined with a newline between each pair.
pub open spec fn joined_with_newlines(ss: Seq<Seq<char>>) -> Seq<char> {
    if ss.len() == 0 {
        Seq::empty()
    } else {
        ss[0] + tail_joined(ss.drop_first())
    }
}

/// Joins strings with a newline between each pair.
fn join_with_newlines(ss: &Vec<String>) -> (r: String)
    ensures
        r@ == joined_with_newlines(ss.deep_view()),
{
    let ghost model = ss.deep_view();
    let mut r = String::new();
    let mut i: usize = 0;
    while i < ss.len()
        invariant
            i <= ss@.len(),
            model == ss.deep_view(),
            i == 0 ==> r@ =~= Seq::<char>::empty(),
            i > 0 ==> r@ + tail_joined(model.skip(i as int)) == joined_with_newlines(model),
        decreases ss@.len() - i,
    {
        let ghost pre = r@;
        if i > 0 {
            r.push('\n');
        }
        r.append(ss[i].as_str());
        proof {
            assert(model[i as int] == ss@[i as int]@);
            assert(model.skip(i as int)[0] == model[i as int]);
            assert(model.skip(i as int).drop_first() =~= model.skip(i as int + 1));
            if i == 0 {
                assert(r@ =~= model[0]);
            } else {
                assert(r@ =~= pre + (seq!['\n'] + model[i as int]));
                assert(pre + (seq!['\n'] + model[i as int] + tail_joined(
                    model.skip(i as int + 1),
                )) =~= (pre + (seq!['\n'] + model[i as int])) + tail_joined(
                    model.skip(i as int + 1),
                ));
            }
        }
        i = i + 1;
    }
    proof {
        if ss@.len() == 0 {
        } else {
            assert(tail_joined(model.skip(model.len() as int)) =~= Seq::<char>::empty());
            assert(r@ + Seq::<char>::empty() =~= r@);
        }
    }
    r
}

impl FromRegValue for String {
    /// Text loads from the two string kinds and from a string list; the
    /// payload must hold whole code units. Trailing nulls are trimmed,
    /// and list entries are rejoined with a newline between them.
    open spec fn from_accepts(val: &RegValue) -> bool {
        (val.vtype == REG_SZ || val.vtype == REG_EXPAND_SZ || val.vtype == REG_MULTI_SZ)
            && val.bytes@.len() % 2 == 0
    }

    open spec fn from_value(val: &RegValue) -> Seq<char> {
        text_of_payload(val.vtype, val.bytes@)
    }

    /// A payload the codec refuses keeps the codec's error; a value of
    /// any other kind is a type mismatch.
    open spec fn from_err(val: &RegValue) -> RegistryError {
        if spec_decode_accepts(val.vtype, val.bytes@) {
            RegistryError::TypeMismatch
        } else {
            spec_decode_err(val.vtype)
        }
    }

    fn from_reg_value(val: RegValue) -> Result<Self, RegistryError> {
        let data = match RegistryData::from_raw_registry_data(
            RawRegistryData { data_type: val.vtype, data: val.bytes },
        ) {
            Ok(d) => d,
            Err(e) => {
                return Err(e);
            },
        };
        match data {
            RegistryData::RegSz(s) => Ok(s),
            RegistryData::RegExpandSz(s) => Ok(s),
            RegistryData::RegMultiSz(ss) => Ok(join_with_newlines(&ss)),
            _ => Err(RegistryError::TypeMismatch),
        }
    }
}

impl ToRegValue for String {
    /// Text writes as the plain string kind, with the mandatory trailing
    /// null appended.
    open spec fn to_tag(&self) -> u32 {
        REG_SZ
    }

    open spec fn to_bytes(&self) -> Seq<u8> {
        units_to_bytes(nt_units(self@))
    }

    fn to_reg_value(&self) -> RegValue {
        let mut u = utf16_units(self.as_str());
        u.push(0u16);
        RegValue { vtype: REG_SZ, bytes: wide_to_bytes(u.as_slice()) }
    }
}

impl ToRegValue for str {
    /// Borrowed text writes exactly as owned text does.
    open spec fn to_tag(&self) -> u32 {
        REG_SZ
    }

    open spec fn to_bytes(&self) -> Seq<u8> {
        units_to_bytes(nt_units(self@))
    }

    fn to_reg_value(&self) -> RegValue {
        let mut u = utf16_units(self);
        u.push(0u16);
        RegValue { vtype: REG_SZ, bytes: wide_to_bytes(u.as_slice()) }
    }
}

impl FromRegValue for u32 {
    /// A 32-bit integer loads only from the little-endian 32-bit kind;
    /// the big-endian kind is deliberately not interchangeable here.
    open spec fn from_accepts(val: &RegValue) -> bool {
        val.vtype == REG_DWORD && val.bytes@.len() == 4
    }

    open spec fn from_value(val: &RegValue) -> u32 {
        spec_u32_from_le_bytes(val.bytes@)
    }

    open spec fn from_err(val: &RegValue) -> RegistryError {
        if spec_decode_accepts(val.vtype, val.bytes@) {
            RegistryError::TypeMismatch
        } else {
            spec_decode_err(val.vtype)
        }
    }

    fn from_reg_value(val: RegValue) -> Result<Self, RegistryError> {
        let data = match RegistryData::from_raw_registry_data(
            RawRegistryData { data_type: val.vtype, data: val.bytes },
        ) {
            Ok(d) => d,
            Err(e) => {
                return Err(e);
            },
        };
        match data {
            RegistryData::RegDword(x) => Ok(x),
            _ => Err(RegistryError::TypeMismatch),
        }
    }
}

impl ToRegValue for u32 {
    open spec fn to_tag(&self) -> u32 {
        REG_DWORD
    }

    open spec fn to_bytes(&self) -> Seq<u8> {
        spec_u32_to_le_bytes(*self)
    }

    fn to_reg_value(&self) -> RegValue {
        RegValue { vtype: REG_DWORD, bytes: u32_to_le_bytes(*self) }
    }
}

impl FromRegValue for u64 {
    /// A 64-bit integer loads only from the 64-bit kind.
    open spec fn from_accepts(val: &RegValue) -> bool {
        val.vtype == REG_QWORD && val.bytes@.len() == 8
    }

    open spec fn from_value(val: &RegValue) -> u64 {
        spec_u64_from_le_bytes(val.bytes@)
    }

    open spec fn from_err(val: &RegValue) -> RegistryError {
        if spec_decode_accepts(val.vtype, val.bytes@) {
            RegistryError::TypeMismatch
        } else {
            spec_decode_err(val.vtype)
        }
    }

    fn from_reg_value(val: RegValue) -> Result<Self, RegistryError> {
        let data = match RegistryData::from_raw_registry_data(
            RawRegistryData { data_type: val.vtype, data: val.bytes },
        ) {
            Ok(d) => d,
            Err(e) => {
                return Err(e);
            },
        };
        match data {
            RegistryData::RegQword(x) => Ok(x),
            _ => Err(RegistryError::TypeMismatch),
        }
    }
}

impl ToRegValue for u64 {
    open spec fn to_tag(&self) -> u32 {
        REG_QWORD
    }

    open spec fn to_bytes(&self) -> Seq<u8> {
        spec_u64_to_le_bytes(*self)
    }

    fn to_reg_value(&self) -> RegValue {
        RegValue { vtype: REG_QWORD, bytes: u64_to_le_bytes(*self) }
    }
}

/// Text as raw UTF-16 code units, exactly as an OS-native wide string
/// holds them: no trimming, no null handling, no substitution.
#[derive(Debug, Clone, PartialEq, Eq)]
pub struct WideString {
    /// The code units, kept as they came.
    pub units: Vec<u16>,
}

impl DeepView for WideString {
    type V = Seq<u16>;

    open spec fn deep_view(&self) -> Seq<u16> {
        self.units@
    }
}

impl FromRegValue for WideString {
    /// Raw wide text loads from the string kinds, keeping every code
    /// unit as-is; the payload must hold whole code units, so an
    /// odd-length buffer is refused as malformed.
    open spec fn from_accepts(val: &RegValue) -> bool {
        (val.vtype == REG_SZ || val.vtype == REG_EXPAND_SZ || val.vtype == REG_MULTI_SZ)
            && val.bytes@.len() % 2 == 0
    }

    open spec fn from_value(val: &RegValue) -> Seq<u16> {
        bytes_to_units(val.bytes@)
    }

    /// A payload the codec refuses keeps the codec's error; a value of
    /// any other kind is a type mismatch.
    open spec fn from_err(val: &RegValue) -> RegistryError {
        if spec_decode_accepts(val.vtype, val.bytes@) {
            RegistryError::TypeMismatch
        } else {
            spec_decode_err(val.vtype)
        }
    }

    fn from_reg_value(val: RegValue) -> Result<Self, RegistryError> {
        if val.vtype == REG_SZ || val.vtype == REG_EXPAND_SZ || val.vtype == REG_MULTI_SZ {
            if val.bytes.len() % 2 != 0 {
                Err(RegistryError::MalformedValue)
            } else {
                Ok(WideString { units: bytes_to_wide(val.bytes.as_slice()) })
            }
        } else {
            match RegistryData::from_raw_registry_data(
                RawRegistryData { data_type: val.vtype, data: val.bytes },
            ) {
                Ok(_) => Err(RegistryError::TypeMismatch),
                Err(e) => Err(e),
            }
        }
    }
}

impl ToRegValue for WideString {
    /// Raw wide text writes as the plain string kind; no terminating
    /// null is appended, the units are written exactly as held.
    open spec fn to_tag(&self) -> u32 {
        REG_SZ
    }

    open spec fn to_bytes(&self) -> Seq<u8> {
        units_to_bytes(self.units@)
    }

    fn to_reg_value(&self) -> RegValue {
        RegValue { vtype: REG_SZ, bytes: wide_to_bytes(self.units.as_slice()) }
    }
}

} // verus!
