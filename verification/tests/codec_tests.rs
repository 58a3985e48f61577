use regcodec::RegValue;
use regcodec::enums::RegistryError;
use regcodec::enums::REG_NONE;
use regcodec::enums::REG_SZ;
use regcodec::enums::REG_EXPAND_SZ;
use regcodec::enums::REG_BINARY;
use regcodec::enums::REG_DWORD;
use regcodec::enums::REG_DWORD_BIG_ENDIAN;
use regcodec::enums::REG_LINK;
use regcodec::enums::REG_MULTI_SZ;
use regcodec::enums::REG_QWORD;
use regcodec::value::RegistryData;
use regcodec::value::RawRegistryData;

fn decode(tag: u32, bytes: Vec<u8>) -> Result<RegistryData, RegistryError> {
    RegistryData::from_raw_registry_data(RawRegistryData { data_type: tag, data: bytes })
}

fn encode(v: &RegistryData) -> (u32, Vec<u8>) {
    let raw = v.to_raw_registry_data();
    (raw.data_type, raw.data)
}

#[test]
fn round_trip_none() {
    let (tag, bytes) = encode(&RegistryData::RegNone);
    assert_eq!(tag, REG_NONE);
    assert_eq!(bytes, Vec::<u8>::new());
    assert_eq!(decode(tag, bytes), Ok(RegistryData::RegNone));
}

#[test]
fn round_trip_sz() {
    let v = RegistryData::RegSz(String::from("ab"));
    let (tag, bytes) = encode(&v);
    assert_eq!(tag, REG_SZ);
    assert_eq!(bytes, vec![0x61, 0x00, 0x62, 0x00, 0x00, 0x00]);
    assert_eq!(decode(tag, bytes), Ok(v));
}

#[test]
fn round_trip_expand_sz() {
    let v = RegistryData::RegExpandSz(String::from("%PATH%"));
    let (tag, bytes) = encode(&v);
    assert_eq!(tag, REG_EXPAND_SZ);
    assert_eq!(decode(tag, bytes), Ok(v));
}

#[test]
fn round_trip_link() {
    let v = RegistryData::RegLink(String::from("target"));
    let (tag, bytes) = encode(&v);
    assert_eq!(tag, REG_LINK);
    assert_eq!(decode(tag, bytes), Ok(v));
}

#[test]
fn round_trip_empty_sz() {
    let v = RegistryData::RegSz(String::new());
    let (tag, bytes) = encode(&v);
    assert_eq!(bytes, vec![0x00, 0x00]);
    assert_eq!(decode(tag, bytes), Ok(v));
}

#[test]
fn round_trip_surrogate_pair() {
    let v = RegistryData::RegSz(String::from("\u{1D11E}"));
    let (tag, bytes) = encode(&v);
    assert_eq!(bytes, vec![0x34, 0xD8, 0x1E, 0xDD, 0x00, 0x00]);
    assert_eq!(decode(tag, bytes), Ok(v));
}

#[test]
fn round_trip_binary() {
    let v = RegistryData::RegBinary(vec![1, 2, 3]);
    let (tag, bytes) = encode(&v);
    assert_eq!(tag, REG_BINARY);
    assert_eq!(bytes, vec![1, 2, 3]);
    assert_eq!(decode(tag, bytes), Ok(v));
}

#[test]
fn round_trip_qword() {
    let v = RegistryData::RegQword(0x1122334455667788);
    let (tag, bytes) = encode(&v);
    assert_eq!(tag, REG_QWORD);
    assert_eq!(bytes, vec![0x88, 0x77, 0x66, 0x55, 0x44, 0x33, 0x22, 0x11]);
    assert_eq!(decode(tag, bytes), Ok(v));
}

#[test]
fn endianness_dword_little() {
    let (tag, bytes) = encode(&RegistryData::RegDword(0x01020304));
    assert_eq!(tag, REG_DWORD);
    assert_eq!(bytes, vec![0x04, 0x03, 0x02, 0x01]);
    assert_eq!(decode(tag, bytes), Ok(RegistryData::RegDword(0x01020304)));
}

#[test]
fn endianness_dword_big() {
    let (tag, bytes) = encode(&RegistryData::RegDwordBigEndian(0x01020304));
    assert_eq!(tag, REG_DWORD_BIG_ENDIAN);
    assert_eq!(bytes, vec![0x01, 0x02, 0x03, 0x04]);
    assert_eq!(decode(tag, bytes), Ok(RegistryData::RegDwordBigEndian(0x01020304)));
}

#[test]
fn qword_width_mismatch_is_malformed() {
    assert_eq!(decode(REG_QWORD, vec![1, 2, 3, 4]), Err(RegistryError::MalformedValue));
}

#[test]
fn dword_width_mismatch_is_malformed() {
    assert_eq!(decode(REG_DWORD, vec![1, 2, 3]), Err(RegistryError::MalformedValue));
    assert_eq!(decode(REG_DWORD_BIG_ENDIAN, vec![]), Err(RegistryError::MalformedValue));
}

#[test]
fn odd_text_payload_is_malformed() {
    assert_eq!(decode(REG_SZ, vec![0x61, 0x00, 0x62]), Err(RegistryError::MalformedValue));
    assert_eq!(decode(REG_MULTI_SZ, vec![0x61]), Err(RegistryError::MalformedValue));
}

#[test]
fn unknown_tag_is_unsupported() {
    assert_eq!(decode(999, vec![]), Err(RegistryError::UnsupportedType));
    assert_eq!(decode(12, vec![1, 2]), Err(RegistryError::UnsupportedType));
}

#[test]
fn multi_round_trip_two_entries() {
    let v = RegistryData::RegMultiSz(vec![String::from("a"), String::from("b")]);
    let (tag, bytes) = encode(&v);
    assert_eq!(tag, REG_MULTI_SZ);
    assert_eq!(bytes, vec![0x61, 0x00, 0x00, 0x00, 0x62, 0x00, 0x00, 0x00, 0x00, 0x00]);
    assert_eq!(decode(tag, bytes), Ok(v));
}

#[test]
fn multi_single_empty_string_decodes_empty() {
    let v = RegistryData::RegMultiSz(vec![String::new()]);
    let (tag, bytes) = encode(&v);
    assert_eq!(bytes, vec![0x00, 0x00, 0x00, 0x00]);
    assert_eq!(decode(tag, bytes), Ok(RegistryData::RegMultiSz(Vec::new())));
}

#[test]
fn multi_empty_list_round_trips() {
    let v = RegistryData::RegMultiSz(Vec::new());
    let (tag, bytes) = encode(&v);
    assert_eq!(bytes, vec![0x00, 0x00]);
    assert_eq!(decode(tag, bytes), Ok(v));
}

#[test]
fn multi_leading_empty_entry_round_trips() {
    let v = RegistryData::RegMultiSz(vec![String::new(), String::from("a")]);
    let (tag, bytes) = encode(&v);
    assert_eq!(decode(tag, bytes), Ok(v));
}

#[test]
fn sz_trailing_nulls_trimmed() {
    let bytes = vec![0x61, 0x00, 0x00, 0x00, 0x00, 0x00, 0x00, 0x00];
    assert_eq!(decode(REG_SZ, bytes), Ok(RegistryData::RegSz(String::from("a"))));
}

#[test]
fn sz_embedded_null_kept() {
    let bytes = vec![0x61, 0x00, 0x00, 0x00, 0x62, 0x00];
    assert_eq!(decode(REG_SZ, bytes), Ok(RegistryData::RegSz(String::from("a\u{0}b"))));
}

#[test]
fn lone_surrogate_replaced() {
    let bytes = vec![0x00, 0xD8, 0x61, 0x00];
    assert_eq!(
        decode(REG_SZ, bytes),
        Ok(RegistryData::RegSz(String::from("\u{FFFD}a")))
    );
}

#[test]
fn none_ignores_payload() {
    assert_eq!(decode(REG_NONE, vec![1, 2, 3]), Ok(RegistryData::RegNone));
}
