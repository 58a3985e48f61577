use regcodec::RegValue;
use regcodec::enums::RegistryError;
use regcodec::enums::REG_SZ;
use regcodec::enums::REG_EXPAND_SZ;
use regcodec::enums::REG_BINARY;
use regcodec::enums::REG_DWORD;
use regcodec::enums::REG_MULTI_SZ;
use regcodec::enums::REG_QWORD;
use regcodec::value::RegistryData;
use regcodec::value::RawRegistryData;
use regcodec::types::FromRegValue;
use regcodec::types::ToRegValue;
use regcodec::types::WideString;

#[test]
fn u32_adapter_accepts_little_endian_only() {
    let le = RegistryData::RegDword(42).to_reg_value();
    assert_eq!(u32::from_reg_value(le), Ok(42));
    let be = RegistryData::RegDwordBigEndian(42).to_reg_value();
    assert_eq!(u32::from_reg_value(be), Err(RegistryError::TypeMismatch));
}

#[test]
fn u32_adapter_writes_little_endian() {
    let val = 0x01020304u32.to_reg_value();
    assert_eq!(val.vtype, REG_DWORD);
    assert_eq!(val.bytes, vec![0x04, 0x03, 0x02, 0x01]);
}

#[test]
fn u32_adapter_propagates_codec_errors() {
    let unknown = RegValue { vtype: 999, bytes: vec![] };
    assert_eq!(u32::from_reg_value(unknown), Err(RegistryError::UnsupportedType));
    let short = RegValue { vtype: REG_DWORD, bytes: vec![1, 2] };
    assert_eq!(u32::from_reg_value(short), Err(RegistryError::MalformedValue));
}

#[test]
fn u64_adapter_round_trips() {
    let val = 7u64.to_reg_value();
    assert_eq!(val.vtype, REG_QWORD);
    assert_eq!(u64::from_reg_value(val), Ok(7));
}

#[test]
fn u64_adapter_refuses_dword() {
    let val = 7u32.to_reg_value();
    assert_eq!(u64::from_reg_value(val), Err(RegistryError::TypeMismatch));
}

#[test]
fn string_adapter_round_trips() {
    let val = String::from("hello").to_reg_value();
    assert_eq!(val.vtype, REG_SZ);
    assert_eq!(String::from_reg_value(val), Ok(String::from("hello")));
}

#[test]
fn str_adapter_writes_terminated_utf16() {
    let val = "ab".to_reg_value();
    assert_eq!(val.vtype, REG_SZ);
    assert_eq!(val.bytes, vec![0x61, 0x00, 0x62, 0x00, 0x00, 0x00]);
}

#[test]
fn string_adapter_accepts_expand_sz() {
    let raw = RegistryData::RegExpandSz(String::from("%TMP%")).to_reg_value();
    assert_eq!(raw.vtype, REG_EXPAND_SZ);
    assert_eq!(String::from_reg_value(raw), Ok(String::from("%TMP%")));
}

#[test]
fn string_adapter_joins_multi_with_newlines() {
    let raw = RegistryData::RegMultiSz(vec![String::from("a"), String::from("b")]).to_reg_value();
    assert_eq!(raw.vtype, REG_MULTI_SZ);
    assert_eq!(String::from_reg_value(raw), Ok(String::from("a\nb")));
}

#[test]
fn string_adapter_refuses_binary() {
    let raw = RegistryData::RegBinary(vec![1]).to_reg_value();
    assert_eq!(String::from_reg_value(raw), Err(RegistryError::TypeMismatch));
}

#[test]
fn string_adapter_refuses_link() {
    let raw = RegistryData::RegLink(String::from("t")).to_reg_value();
    assert_eq!(String::from_reg_value(raw), Err(RegistryError::TypeMismatch));
}

#[test]
fn raw_passthrough_keeps_unknown_tag_and_bytes() {
    let val = RegValue { vtype: 999, bytes: vec![0x01, 0x02, 0x03] };
    let raw = RawRegistryData::from_reg_value(val).unwrap();
    assert_eq!(raw.data_type, 999);
    assert_eq!(raw.data, vec![0x01, 0x02, 0x03]);
    let back = raw.to_reg_value();
    assert_eq!(back, RegValue { vtype: 999, bytes: vec![0x01, 0x02, 0x03] });
}

#[test]
fn raw_passthrough_keeps_odd_payloads() {
    let val = RegValue { vtype: REG_SZ, bytes: vec![0x61] };
    let raw = RawRegistryData::from_reg_value(val).unwrap();
    assert_eq!(raw.data, vec![0x61]);
    assert_eq!(raw.to_reg_value().bytes, vec![0x61]);
}

#[test]
fn wide_adapter_keeps_nulls() {
    let val = RegValue { vtype: REG_SZ, bytes: vec![0x61, 0x00, 0x00, 0x00, 0x00, 0x00] };
    let wide = WideString::from_reg_value(val).unwrap();
    assert_eq!(wide.units, vec![0x61, 0x00, 0x00]);
}

#[test]
fn wide_adapter_refuses_odd_payload() {
    let val = RegValue { vtype: REG_MULTI_SZ, bytes: vec![0x61, 0x00, 0x7A] };
    assert_eq!(WideString::from_reg_value(val), Err(RegistryError::MalformedValue));
    let val = RegValue { vtype: REG_SZ, bytes: vec![0x61] };
    assert_eq!(WideString::from_reg_value(val), Err(RegistryError::MalformedValue));
}

#[test]
fn wide_adapter_refuses_dword() {
    let val = 5u32.to_reg_value();
    assert_eq!(WideString::from_reg_value(val), Err(RegistryError::TypeMismatch));
}

#[test]
fn wide_adapter_writes_without_terminator() {
    let wide = WideString { units: vec![0x61] };
    let val = wide.to_reg_value();
    assert_eq!(val.vtype, REG_SZ);
    assert_eq!(val.bytes, vec![0x61, 0x00]);
}

#[test]
fn typed_adapter_round_trips_through_reg_value() {
    let v = RegistryData::RegSz(String::from("x"));
    let raw = v.to_reg_value();
    assert_eq!(RegistryData::from_reg_value(raw), Ok(v));
}
