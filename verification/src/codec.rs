//! The conversion engine between raw and typed registry values: the tag
//! table, the per-tag wire formats, and the round-trip law.
use vstd::prelude::*;
use crate::enums::REG_NONE;
use crate::enums::REG_SZ;
use crate::enums::REG_EXPAND_SZ;
use crate::enums::REG_BINARY;
use crate::enums::REG_DWORD;
use crate::enums::REG_DWORD_BIG_ENDIAN;
use crate::enums::REG_LINK;
use crate::enums::REG_MULTI_SZ;
use crate::enums::REG_RESOURCE_LIST;
use crate::enums::REG_FULL_RESOURCE_DESCRIPTOR;
use crate::enums::REG_RESOURCE_REQUIREMENTS_LIST;
use crate::enums::REG_QWORD;
use crate::enums::RegistryError;
use crate::value::RegistryData;
use crate::value::RawRegistryData;
use crate::value::ValueModel;
use crate::wide::utf16_of;
use crate::wide::wide_chars;
use crate::wide::units_to_bytes;
use crate::wide::bytes_to_units;
use crate::wide::trim_trailing_nulls;
use crate::wide::split_on_null;
use crate::wide::null_free;
use crate::wide::lemma_wide_of_utf16;
use crate::wide::lemma_utf16_nulls;
use crate::wide::lemma_trim_stable;
use crate::wide::lemma_trim_concat;
use crate::wide::lemma_split_prepend;
use crate::wide::lemma_split_whole;
use crate::wide::lemma_units_bytes_round_trip;
use crate::wide::utf16_units;
use crate::wide::wide_to_bytes;
use crate::wide::bytes_to_wide;
use crate::wide::trim_wide;
use crate::wide::wide_to_string;
use crate::wide::split_wide;
use crate::ints::spec_u32_to_be_bytes;
use crate::ints::spec_u32_from_be_bytes;
use crate::ints::lemma_u32_be_round_trip;
use crate::ints::u32_to_be_bytes;
use crate::ints::u32_from_be_bytes;
use vstd::bytes::spec_u32_to_le_bytes;
use vstd::bytes::spec_u32_from_le_bytes;
use vstd::bytes::spec_u64_to_le_bytes;
use vstd::bytes::spec_u64_from_le_bytes;
use vstd::bytes::lemma_auto_spec_u32_to_from_le_bytes;
use vstd::bytes::lemma_auto_spec_u64_to_from_le_bytes;
use vstd::bytes::u32_to_le_bytes;
use vstd::bytes::u32_from_le_bytes;
use vstd::bytes::u64_to_le_bytes;
use vstd::bytes::u64_from_le_bytes;

verus! {

/// The fixed tag of each value kind: the single source of truth both
/// conversion directions consult.
pub open spec fn wire_tag(v: ValueModel) -> u32 {
    match v {
        ValueModel::RegNone => REG_NONE,
        ValueModel::RegSz(_) => REG_SZ,
        ValueModel::RegExpandSz(_) => REG_EXPAND_SZ,
        ValueModel::RegBinary(_) => REG_BINARY,
        ValueModel::RegDword(_) => REG_DWORD,
        ValueModel::RegDwordBigEndian(_) => REG_DWORD_BIG_ENDIAN,
        ValueModel::RegLink(_) => REG_LINK,
        ValueModel::RegMultiSz(_) => REG_MULTI_SZ,
        ValueModel::RegResourceList(_) => REG_RESOURCE_LIST,
        ValueModel::RegFullResourceDescriptor(_) => REG_FULL_RESOURCE_DESCRIPTOR,
        ValueModel::RegResourceRequirementsList(_) => REG_RESOURCE_REQUIREMENTS_LIST,
        ValueModel::RegQword(_) => REG_QWORD,
    }
}

/// True of the tags that carry one null-terminated UTF-16 string.
pub open spec fn is_text_tag(tag: u32) -> bool {
    tag == REG_SZ || tag == REG_EXPAND_SZ || tag == REG_LINK
}

/// True of the tags whose payload is kept as opaque bytes.
pub open spec fn is_opaque_tag(tag: u32) -> bool {
    tag == REG_BINARY || tag == REG_RESOURCE_LIST || tag == REG_FULL_RESOURCE_DESCRIPTOR
        || tag == REG_RESOURCE_REQUIREMENTS_LIST
}

/// True of the tags in the known table.
pub open spec fn is_known_tag(tag: u32) -> bool {
    tag <= REG_QWORD
}

/// One string's wire units: its UTF-16 code units and the mandatory
/// trailing null.
pub open spec fn nt_units(s: Seq<char>) -> Seq<u16> {
    utf16_of(s).push(0u16)
}

/// A string list's wire units: each string null-terminated in order, then
/// one more null closing the list.
pub open spec fn multi_units(ss: Seq<Seq<char>>) -> Seq<u16>
    decreases ss.len(),
{
    if ss.len() == 0 {
        seq![0u16]
    } else {
        nt_units(ss[0]) + multi_units(ss.drop_first())
    }
}

/// The bytes the encoder emits for a value.
pub open spec fn spec_encode_bytes(v: ValueModel) -> Seq<u8> {
    match v {
        ValueModel::RegNone => Seq::empty(),
        ValueModel::RegSz(s) => units_to_bytes(nt_units(s)),
        ValueModel::RegExpandSz(s) => units_to_bytes(nt_units(s)),
        ValueModel::RegBinary(b) => b,
        ValueModel::RegDword(x) => spec_u32_to_le_bytes(x),
        ValueModel::RegDwordBigEndian(x) => spec_u32_to_be_bytes(x),
        ValueModel::RegLink(s) => units_to_bytes(nt_units(s)),
        ValueModel::RegMultiSz(ss) => units_to_bytes(multi_units(ss)),
        ValueModel::RegResourceList(b) => b,
        ValueModel::RegFullResourceDescriptor(b) => b,
        ValueModel::RegResourceRequirementsList(b) => b,
        ValueModel::RegQword(x) => spec_u64_to_le_bytes(x),
    }
}

/// The text decoded from a string payload: code units read little-endian,
/// all trailing nulls trimmed, stray surrogates replaced.
pub open spec fn decoded_text(b: Seq<u8>) -> Seq<char> {
    wide_chars(trim_trailing_nulls(bytes_to_units(b)))
}

/// The strings decoded from a multi-string payload: trailing nulls
/// trimmed, the rest split at null units, each segment decoded.
pub open spec fn decoded_multi(b: Seq<u8>) -> Seq<Seq<char>> {
    split_on_null(trim_trailing_nulls(bytes_to_units(b))).map_values(|seg: Seq<u16>| wide_chars(seg))
}

/// True when a raw pair decodes: the tag is known and the payload length
/// fits it (4 bytes for the 32-bit kinds, 8 for the 64-bit kind, an even
/// count for the UTF-16 kinds).
pub open spec fn spec_decode_accepts(tag: u32, b: Seq<u8>) -> bool {
    if tag == REG_NONE {
        true
    } else if is_text_tag(tag) || tag == REG_MULTI_SZ {
        b.len() % 2 == 0
    } else if is_opaque_tag(tag) {
        true
    } else if tag == REG_DWORD || tag == REG_DWORD_BIG_ENDIAN {
        b.len() == 4
    } else if tag == REG_QWORD {
        b.len() == 8
    } else {
        false
    }
}

/// The error a refused raw pair earns: an unknown tag is unsupported, a
/// known tag with an unfit payload is malformed.
pub open spec fn spec_decode_err(tag: u32) -> RegistryError {
    if is_known_tag(tag) {
        RegistryError::MalformedValue
    } else {
        RegistryError::UnsupportedType
    }
}

/// The value an accepted raw pair decodes to.
pub open spec fn spec_decode_value(tag: u32, b: Seq<u8>) -> ValueModel {
    if tag == REG_NONE {
        ValueModel::RegNone
    } else if tag == REG_SZ {
        ValueModel::RegSz(decoded_text(b))
    } else if tag == REG_EXPAND_SZ {
        ValueModel::RegExpandSz(decoded_text(b))
    } else if tag == REG_BINARY {
        ValueModel::RegBinary(b)
    } else if tag == REG_DWORD {
        ValueModel::RegDword(spec_u32_from_le_bytes(b))
    } else if tag == REG_DWORD_BIG_ENDIAN {
        ValueModel::RegDwordBigEndian(spec_u32_from_be_bytes(b))
    } else if tag == REG_LINK {
        ValueModel::RegLink(decoded_text(b))
    } else if tag == REG_MULTI_SZ {
        ValueModel::RegMultiSz(decoded_multi(b))
    } else if tag == REG_RESOURCE_LIST {
        ValueModel::RegResourceList(b)
    } else if tag == REG_FULL_RESOURCE_DESCRIPTOR {
        ValueModel::RegFullResourceDescriptor(b)
    } else if tag == REG_RESOURCE_REQUIREMENTS_LIST {
        ValueModel::RegResourceRequirementsList(b)
    } else {
        ValueModel::RegQword(spec_u64_from_le_bytes(b))
    }
}

/// True where encode-then-decode is the identity: every kind but the
/// opaque ones, with text that does not end in a null character, and
/// string lists whose entries hold no null and whose last entry is
/// nonempty. (A trailing null character or a trailing empty string would
/// be absorbed by the wire format's own terminators, and the opaque kinds
/// are excluded by the law as stated, though their bytes are preserved.)
pub open spec fn round_trippable(v: ValueModel) -> bool {
    match v {
        ValueModel::RegNone => true,
        ValueModel::RegSz(s) => s.len() == 0 || s.last() != '\u{0}',
        ValueModel::RegExpandSz(s) => s.len() == 0 || s.last() != '\u{0}',
        ValueModel::RegLink(s) => s.len() == 0 || s.last() != '\u{0}',
        ValueModel::RegDword(_) => true,
        ValueModel::RegDwordBigEndian(_) => true,
        ValueModel::RegQword(_) => true,
        ValueModel::RegMultiSz(ss) => (forall|i: int|
            0 <= i < ss.len() ==> !ss[i].contains('\u{0}')) && (ss.len() > 0 ==> ss.last().len()
            > 0),
        ValueModel::RegBinary(_) => false,
        ValueModel::RegResourceList(_) => false,
        ValueModel::RegFullResourceDescriptor(_) => false,
        ValueModel::RegResourceRequirementsList(_) => false,
    }
}

/// Decoding the wire units of one terminated string restores the text,
/// provided the text does not itself end in a null character.
proof fn lemma_text_units_round_trip(s: Seq<char>)
    requires
        s.len() == 0 || s.last() != '\u{0}',
    ensures
        trim_trailing_nulls(nt_units(s)) == utf16_of(s),
        wide_chars(trim_trailing_nulls(nt_units(s))) == s,
{
    lemma_utf16_nulls(s);
    let u = utf16_of(s);
    assert(nt_units(s).last() == 0);
    assert(nt_units(s).drop_last() =~= u);
    lemma_trim_stable(u);
    lemma_wide_of_utf16(s);
}

/// Decoding the wire units of a string list restores the list, provided
/// no entry holds a null character and the last entry is nonempty; the
/// trimmed units are also nonempty whenever the list is.
proof fn lemma_multi_units_round_trip(ss: Seq<Seq<char>>)
    requires
        forall|i: int| 0 <= i < ss.len() ==> !ss[i].contains('\u{0}'),
        ss.len() > 0 ==> ss.last().len() > 0,
    ensures
        split_on_null(trim_trailing_nulls(multi_units(ss))).map_values(
            |seg: Seq<u16>| wide_chars(seg),
        ) == ss,
        ss.len() > 0 ==> trim_trailing_nulls(multi_units(ss)).len() > 0,
    decreases ss.len(),
{
    if ss.len() == 0 {
        assert(multi_units(ss) == seq![0u16]);
        let z = seq![0u16];
        assert(z.len() == 1 && z.last() == 0);
        assert(z.drop_last() =~= Seq::<u16>::empty());
        lemma_trim_stable(z.drop_last());
        assert(trim_trailing_nulls(z) == trim_trailing_nulls(z.drop_last()));
        assert(trim_trailing_nulls(multi_units(ss)) =~= Seq::<u16>::empty());
        assert(split_on_null(Seq::<u16>::empty()).map_values(|seg: Seq<u16>| wide_chars(seg)) =~= ss);
    } else {
        let s0 = ss[0];
        let rest = ss.drop_first();
        let u0 = utf16_of(s0);
        assert(!s0.contains('\u{0}'));
        assert(forall|k: int| 0 <= k < s0.len() ==> s0[k] != '\u{0}') by {
            assert(forall|k: int| 0 <= k < s0.len() && s0[k] == '\u{0}' ==> s0.contains('\u{0}'));
        }
        lemma_utf16_nulls(s0);
        assert(null_free(u0));
        lemma_wide_of_utf16(s0);
        if rest.len() == 0 {
            // The list is [s0] with s0 nonempty: the wire is u0 and two
            // nulls, which trim to u0 alone, one null-free segment.
            assert(ss.last() == s0);
            assert(multi_units(rest) == seq![0u16]);
            assert(multi_units(ss) == nt_units(ss[0]) + multi_units(ss.drop_first()));
            assert(multi_units(ss) =~= u0 + seq![0u16] + seq![0u16]);
            let w = u0 + seq![0u16] + seq![0u16];
            assert(w.last() == 0);
            assert(w.drop_last() =~= u0 + seq![0u16]);
            assert(trim_trailing_nulls(w) == trim_trailing_nulls(u0 + seq![0u16]));
            assert((u0 + seq![0u16]).last() == 0);
            assert((u0 + seq![0u16]).drop_last() =~= u0);
            assert(trim_trailing_nulls(u0 + seq![0u16]) == trim_trailing_nulls(u0));
            assert(u0.last() != 0);
            lemma_trim_stable(u0);
            assert(trim_trailing_nulls(multi_units(ss)) == u0);
            lemma_split_whole(u0);
            let f = |seg: Seq<u16>| wide_chars(seg);
            assert(split_on_null(u0) == seq![u0]);
            assert(seq![u0].map_values(f).len() == 1);
            assert(seq![u0].map_values(f)[0] == wide_chars(u0));
            assert(split_on_null(u0).map_values(f) =~~= ss);
        } else {
            assert(rest.last() == ss.last());
            assert(forall|i: int| 0 <= i < rest.len() ==> rest[i] == ss[i + 1]);
            lemma_multi_units_round_trip(rest);
            let t = trim_trailing_nulls(multi_units(rest));
            assert(multi_units(ss) =~= (u0 + seq![0u16]) + multi_units(rest));
            lemma_trim_concat(u0 + seq![0u16], multi_units(rest));
            assert(trim_trailing_nulls(multi_units(ss)) =~= u0 + seq![0u16] + t);
            lemma_split_prepend(u0, t);
            let f = |seg: Seq<u16>| wide_chars(seg);
            let sp = split_on_null(u0 + seq![0u16] + t);
            assert(sp == seq![u0] + split_on_null(t));
            assert(split_on_null(t).map_values(f) == rest);
            assert(sp.map_values(f).len() == ss.len());
            assert forall|i: int| 0 <= i < ss.len() implies sp.map_values(f)[i] == ss[i] by {
                if i == 0 {
                    assert(sp[0] == u0);
                } else {
                    assert(sp[i] == split_on_null(t)[i - 1]);
                    assert(split_on_null(t).map_values(f)[i - 1] == rest[i - 1]);
                    assert(rest[i - 1] == ss[i]);
                }
            }
            assert(sp.map_values(f) =~~= ss);
        }
    }
}

/// The round-trip law: decoding what the encoder produced restores the
/// value, for every kind and payload `round_trippable` admits.
#[verifier::spinoff_prover]
#[verifier::rlimit(50)]
pub proof fn lemma_codec_round_trip(v: ValueModel)
    requires
        round_trippable(v),
    ensures
        spec_decode_accepts(wire_tag(v), spec_encode_bytes(v)),
        spec_decode_value(wire_tag(v), spec_encode_bytes(v)) == v,
{
    match v {
        ValueModel::RegNone => {
        },
        ValueModel::RegSz(s) => {
            lemma_units_bytes_round_trip(nt_units(s));
            lemma_text_units_round_trip(s);
        },
        ValueModel::RegExpandSz(s) => {
            lemma_units_bytes_round_trip(nt_units(s));
            lemma_text_units_round_trip(s);
        },
        ValueModel::RegLink(s) => {
            lemma_units_bytes_round_trip(nt_units(s));
            lemma_text_units_round_trip(s);
        },
        ValueModel::RegDword(x) => {
            lemma_auto_spec_u32_to_from_le_bytes();
        },
        ValueModel::RegDwordBigEndian(x) => {
            lemma_u32_be_round_trip(x);
        },
        ValueModel::RegQword(x) => {
            lemma_auto_spec_u64_to_from_le_bytes();
        },
        ValueModel::RegMultiSz(ss) => {
            lemma_units_bytes_round_trip(multi_units(ss));
            lemma_multi_units_round_trip(ss);
        },
        ValueModel::RegBinary(_) => {
        },
        ValueModel::RegResourceList(_) => {
        },
        ValueModel::RegFullResourceDescriptor(_) => {
        },
        ValueModel::RegResourceRequirementsList(_) => {
        },
    }
}

/// Emits the wire units of a string list: each entry's code units and a
/// null, then the closing null.
fn multi_to_units(ss: &Vec<String>) -> (r: Vec<u16>)
    ensures
        r@ == multi_units(ss.deep_view()),
{
    let ghost model = ss.deep_view();
    let mut r: Vec<u16> = Vec::new();
    let mut i: usize = 0;
    proof {
        assert(model.skip(0) =~= model);
        assert(Seq::<u16>::empty() + multi_units(model) =~= multi_units(model));
    }
    while i < ss.len()
        invariant
            i <= ss@.len(),
            model == ss.deep_view(),
            r@ + multi_units(model.skip(i as int)) == multi_units(model),
        decreases ss@.len() - i,
    {
        let ghost pre = r@;
        let su = utf16_units(ss[i].as_str());
        let mut j: usize = 0;
        while j < su.len()
            invariant
                j <= su@.len(),
                r@ == pre + su@.take(j as int),
            decreases su@.len() - j,
        {
            r.push(su[j]);
            proof {
                assert(pre + su@.take(j as int + 1) =~= (pre + su@.take(j as int)).push(
                    su@[j as int],
                ));
            }
            j = j + 1;
        }
        r.push(0u16);
        proof {
            assert(su@.take(su@.len() as int) =~= su@);
            assert(model.skip(i as int)[0] == model[i as int]);
            assert(model[i as int] == ss@[i as int]@);
            assert(r@ =~= pre + nt_units(model[i as int]));
            assert(model.skip(i as int).drop_first() =~= model.skip(i as int + 1));
            assert(pre + (nt_units(model[i as int]) + multi_units(model.skip(i as int + 1))) =~= (
            pre + nt_units(model[i as int])) + multi_units(model.skip(i as int + 1)));
        }
        i = i + 1;
    }
    r.push(0u16);
    proof {
        assert(model.skip(model.len() as int) =~= Seq::<Seq<char>>::empty());
        assert(multi_units(Seq::<Seq<char>>::empty()) == seq![0u16]);
        assert(r@ =~= r@.subrange(0, r@.len() - 1) + seq![0u16]);
    }
    r
}

impl RegistryData {
    /// Encodes this value to its raw form: the variant's fixed tag and
    /// the bytes of its payload. Encoding always succeeds: typed values
    /// are well-formed by construction.
    pub fn to_raw_registry_data(&self) -> (r: RawRegistryData)
        ensures
            r.data_type == wire_tag(self.deep_view()),
            r.data@ == spec_encode_bytes(self.deep_view()),
    {
        match self {
            RegistryData::RegNone => {
                let r = RawRegistryData { data_type: REG_NONE, data: Vec::new() };
                proof {
                    assert(r.data@ =~= Seq::<u8>::empty());
                }
                r
            },
            RegistryData::RegSz(s) => {
                let mut u = utf16_units(s.as_str());
                u.push(0u16);
                RawRegistryData { data_type: REG_SZ, data: wide_to_bytes(u.as_slice()) }
            },
            RegistryData::RegExpandSz(s) => {
                let mut u = utf16_units(s.as_str());
                u.push(0u16);
                RawRegistryData { data_type: REG_EXPAND_SZ, data: wide_to_bytes(u.as_slice()) }
            },
            RegistryData::RegLink(s) => {
                let mut u = utf16_units(s.as_str());
                u.push(0u16);
                RawRegistryData { data_type: REG_LINK, data: wide_to_bytes(u.as_slice()) }
            },
            RegistryData::RegBinary(b) => RawRegistryData {
                data_type: REG_BINARY,
                data: b.clone(),
            },
            RegistryData::RegDword(x) => RawRegistryData {
                data_type: REG_DWORD,
                data: u32_to_le_bytes(*x),
            },
            RegistryData::RegDwordBigEndian(x) => RawRegistryData {
                data_type: REG_DWORD_BIG_ENDIAN,
                data: u32_to_be_bytes(*x),
            },
            RegistryData::RegMultiSz(ss) => {
                let u = multi_to_units(ss);
                RawRegistryData { data_type: REG_MULTI_SZ, data: wide_to_bytes(u.as_slice()) }
            },
            RegistryData::RegResourceList(b) => RawRegistryData {
                data_type: REG_RESOURCE_LIST,
                data: b.clone(),
            },
            RegistryData::RegFullResourceDescriptor(b) => RawRegistryData {
                data_type: REG_FULL_RESOURCE_DESCRIPTOR,
                data: b.clone(),
            },
            RegistryData::RegResourceRequirementsList(b) => RawRegistryData {
                data_type: REG_RESOURCE_REQUIREMENTS_LIST,
                data: b.clone(),
            },
            RegistryData::RegQword(x) => RawRegistryData {
                data_type: REG_QWORD,
                data: u64_to_le_bytes(*x),
            },
        }
    }

    /// Decodes a raw value by its tag. An unknown tag is refused as
    /// unsupported; a known tag whose payload length does not fit it is
    /// refused as malformed; everything else decodes.
    pub fn from_raw_registry_data(raw: RawRegistryData) -> (r: Result<RegistryData, RegistryError>)
        ensures
            spec_decode_accepts(raw.data_type, raw.data@) ==> (r matches Ok(v) && v.deep_view()
                == spec_decode_value(raw.data_type, raw.data@)),
            !spec_decode_accepts(raw.data_type, raw.data@) ==> (r matches Err(e) && e
                == spec_decode_err(raw.data_type)),
    {
        let tag = raw.data_type;
        if tag == REG_NONE {
            Ok(RegistryData::RegNone)
        } else if tag == REG_SZ || tag == REG_EXPAND_SZ || tag == REG_LINK {
            if raw.data.len() % 2 != 0 {
                Err(RegistryError::MalformedValue)
            } else {
                let units = bytes_to_wide(raw.data.as_slice());
                let trimmed = trim_wide(units);
                let s = wide_to_string(trimmed.as_slice());
                if tag == REG_SZ {
                    Ok(RegistryData::RegSz(s))
                } else if tag == REG_EXPAND_SZ {
                    Ok(RegistryData::RegExpandSz(s))
                } else {
                    Ok(RegistryData::RegLink(s))
                }
            }
        } else if tag == REG_BINARY {
            Ok(RegistryData::RegBinary(raw.data))
        } else if tag == REG_DWORD {
            if raw.data.len() == 4 {
                Ok(RegistryData::RegDword(u32_from_le_bytes(raw.data.as_slice())))
            } else {
                Err(RegistryError::MalformedValue)
            }
        } else if tag == REG_DWORD_BIG_ENDIAN {
            if raw.data.len() == 4 {
                Ok(RegistryData::RegDwordBigEndian(u32_from_be_bytes(raw.data.as_slice())))
            } else {
                Err(RegistryError::MalformedValue)
            }
        } else if tag == REG_MULTI_SZ {
            if raw.data.len() % 2 != 0 {
                Err(RegistryError::MalformedValue)
            } else {
                let units = bytes_to_wide(raw.data.as_slice());
                let trimmed = trim_wide(units);
                let segs = split_wide(trimmed.as_slice());
                let ghost target = decoded_multi(raw.data@);
                let mut out: Vec<String> = Vec::new();
                let mut i: usize = 0;
                while i < segs.len()
                    invariant
                        i <= segs@.len(),
                        segs.deep_view() == split_on_null(trim_trailing_nulls(bytes_to_units(
                            raw.data@,
                        ))),
                        target == decoded_multi(raw.data@),
                        out.deep_view() == target.take(i as int),
                    decreases segs@.len() - i,
                {
                    let ghost pre = out.deep_view();
                    let s = wide_to_string(segs[i].as_slice());
                    out.push(s);
                    proof {
                        assert(target.len() == segs.deep_view().len());
                        assert(segs.deep_view().len() == segs@.len());
                        assert(pre.len() == i);
                        assert(segs.deep_view()[i as int] == segs@[i as int]@);
                        assert(target[i as int] == wide_chars(segs@[i as int]@));
                        assert(out@[pre.len() as int] == s);
                        assert forall|k: int| 0 <= k < out@.len() implies out.deep_view()[k]
                            == target.take(i as int + 1)[k] by {
                            if k < pre.len() {
                                assert(out@[k] == out@.subrange(0, out@.len() - 1)[k]);
                            } else {
                                assert(out.deep_view()[k] == out@[k].deep_view());
                                assert(out@[k] == s);
                                assert(target.take(i as int + 1)[k] == target[i as int]);
                            }
                        }
                        assert(out.deep_view() =~~= target.take(i as int + 1));
                    }
                    i = i + 1;
                }
                proof {
                    assert(target.take(target.len() as int) =~~= target);
                }
                Ok(RegistryData::RegMultiSz(out))
            }
        } else if tag == REG_RESOURCE_LIST {
            Ok(RegistryData::RegResourceList(raw.data))
        } else if tag == REG_FULL_RESOURCE_DESCRIPTOR {
            Ok(RegistryData::RegFullResourceDescriptor(raw.data))
        } else if tag == REG_RESOURCE_REQUIREMENTS_LIST {
            Ok(RegistryData::RegResourceRequirementsList(raw.data))
        } else if tag == REG_QWORD {
            if raw.data.len() == 8 {
                Ok(RegistryData::RegQword(u64_from_le_bytes(raw.data.as_slice())))
            } else {
                Err(RegistryError::MalformedValue)
            }
        } else {
            Err(RegistryError::UnsupportedType)
        }
    }
}

} // verus!


