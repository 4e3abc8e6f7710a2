use amplifier_relayer::codec::{
    deserialize_json_map, deserialize_json_value, deserialize_option_utc, deserialize_string, deserialize_utc,
    deserialize_wasm_request_with_object_body, serialize_json_map, serialize_json_value, serialize_option_utc,
    serialize_string, serialize_utc, serialize_wasm_request_with_object_body, CodecError, UtcDateTime,
    MAX_TIMESTAMP_SECS, MIN_TIMESTAMP_SECS,
};

fn to_utc(dt: chrono::DateTime<chrono::Utc>) -> UtcDateTime {
    UtcDateTime::from_timestamp(dt.timestamp(), dt.timestamp_subsec_nanos()).expect("valid instant")
}

fn to_chrono(t: &UtcDateTime) -> chrono::DateTime<chrono::Utc> {
    chrono::DateTime::from_timestamp(t.timestamp(), t.timestamp_subsec_nanos()).expect("valid instant")
}

#[test]
fn test_datetime_utc_borsh_serialize_and_deserialize() {
    let now = chrono::Utc::now();
    let mut serialized = Vec::new();
    serialize_utc(&to_utc(now), &mut serialized).expect("serialize utc succeeds");
    let deserialized = deserialize_utc(&mut serialized.as_slice()).expect("deserize suceeds");

    assert_eq!(now, to_chrono(&deserialized));
}

#[test]
fn test_datetime_option_utc_borsh_serialize_and_deserialize() {
    let now = Some(chrono::Utc::now());
    let mut serialized = Vec::new();
    serialize_option_utc(&now.map(to_utc), &mut serialized).expect("serialize utc succeeds");
    let deserialized = deserialize_option_utc(&mut serialized.as_slice()).expect("deserize suceeds");

    assert_eq!(now, deserialized.as_ref().map(to_chrono));

    let mut serialized = Vec::new();
    serialize_option_utc(&None, &mut serialized).expect("serialize utc succeeds");
    let deserialized = deserialize_option_utc(&mut serialized.as_slice()).expect("deserize suceeds");

    assert_eq!(None, deserialized.as_ref().map(to_chrono));
}

#[test]
fn utc_bytes_are_the_borsh_pair() {
    let t = UtcDateTime::from_timestamp(-5, 123_456_789).unwrap();
    let mut ours = Vec::new();
    serialize_utc(&t, &mut ours).unwrap();
    let theirs = borsh::to_vec(&(-5i64, 123_456_789u32)).unwrap();
    assert_eq!(ours, theirs);
    assert_eq!(ours, vec![0xfb, 0xff, 0xff, 0xff, 0xff, 0xff, 0xff, 0xff, 0x15, 0xcd, 0x5b, 0x07]);
}

#[test]
fn option_utc_bytes_are_the_borsh_option() {
    let t = UtcDateTime::from_timestamp(1_700_000_000, 0).unwrap();
    let mut ours = Vec::new();
    serialize_option_utc(&Some(t), &mut ours).unwrap();
    let theirs = borsh::to_vec(&Some((1_700_000_000i64, 0u32))).unwrap();
    assert_eq!(ours, theirs);
    let mut none = Vec::new();
    serialize_option_utc(&None, &mut none).unwrap();
    assert_eq!(none, vec![0u8]);
}

#[test]
fn deserialize_utc_leaves_the_rest() {
    let t = UtcDateTime::from_timestamp(42, 7).unwrap();
    let mut bytes = Vec::new();
    serialize_utc(&t, &mut bytes).unwrap();
    bytes.extend_from_slice(&[9, 8, 7]);
    let mut reader = bytes.as_slice();
    let back = deserialize_utc(&mut reader).unwrap();
    assert_eq!(back, t);
    assert_eq!(reader, &[9u8, 8, 7][..]);
}

#[test]
fn deserialize_utc_short_input() {
    let bytes = [1u8, 2, 3, 4, 5, 6, 7, 8, 9, 10];
    let mut reader = &bytes[..];
    assert_eq!(deserialize_utc(&mut reader), Err(CodecError::UnexpectedLengthOfInput));
    assert!(reader.is_empty());
}

#[test]
fn deserialize_utc_invalid_instant() {
    // nanoseconds beyond a leap second are never valid
    let bytes = borsh::to_vec(&(0i64, 2_000_000_000u32)).unwrap();
    let mut reader = bytes.as_slice();
    assert_eq!(deserialize_utc(&mut reader), Err(CodecError::InvalidDateTime));
    assert!(reader.is_empty());
    // seconds far beyond chrono's range
    let bytes = borsh::to_vec(&(i64::MAX, 0u32)).unwrap();
    assert_eq!(deserialize_utc(&mut bytes.as_slice()), Err(CodecError::InvalidDateTime));
}

#[test]
fn from_timestamp_matches_chrono() {
    assert!(UtcDateTime::from_timestamp(0, 0).is_some());
    assert!(UtcDateTime::from_timestamp(59, 1_500_000_000).is_some());
    assert!(UtcDateTime::from_timestamp(58, 1_500_000_000).is_none());
    assert!(UtcDateTime::from_timestamp(i64::MIN, 0).is_none());
    let t = UtcDateTime::from_timestamp(1431648000, 5).unwrap();
    assert_eq!(t.timestamp(), 1431648000);
    assert_eq!(t.timestamp_subsec_nanos(), 5);
}

#[test]
fn deserialize_option_utc_bad_flag() {
    let mut reader: &[u8] = &[2u8, 0, 0];
    assert_eq!(deserialize_option_utc(&mut reader), Err(CodecError::InvalidOptionFlag));
    assert_eq!(reader, &[0u8, 0][..]);
    let mut empty: &[u8] = &[];
    assert_eq!(deserialize_option_utc(&mut empty), Err(CodecError::UnexpectedLengthOfInput));
}

#[test]
fn string_round_trip_and_borsh_layout() {
    let mut bytes = Vec::new();
    serialize_string("héllo", &mut bytes).unwrap();
    assert_eq!(bytes, borsh::to_vec(&String::from("héllo")).unwrap());
    assert_eq!(&bytes[..4], &[6u8, 0, 0, 0]);
    bytes.push(0xaa);
    let mut reader = bytes.as_slice();
    assert_eq!(deserialize_string(&mut reader).unwrap(), "héllo");
    assert_eq!(reader, &[0xaau8][..]);
}

#[test]
fn deserialize_string_errors() {
    let mut short: &[u8] = &[5, 0, 0, 0, b'a', b'b'];
    assert_eq!(deserialize_string(&mut short), Err(CodecError::UnexpectedLengthOfInput));
    assert!(short.is_empty());
    let mut bad: &[u8] = &[2, 0, 0, 0, 0xc3, 0x28, 1];
    assert_eq!(deserialize_string(&mut bad), Err(CodecError::InvalidUtf8));
    assert_eq!(bad, &[1u8][..]);
}

#[test]
fn json_value_round_trip() {
    let value: serde_json::Value = serde_json::from_str(r#"{"a":[1,2,{"b":null}],"c":"d"}"#).unwrap();
    let mut bytes = Vec::new();
    serialize_json_value(&value, &mut bytes).unwrap();
    let text = serde_json::to_string(&value).unwrap();
    assert_eq!(bytes, borsh::to_vec(&text).unwrap());
    let back = deserialize_json_value(&mut bytes.as_slice()).unwrap();
    assert_eq!(back, value);
}

#[test]
fn json_map_round_trip_and_errors() {
    let mut map = serde_json::Map::new();
    map.insert("key".to_owned(), serde_json::Value::from(3));
    let mut bytes = Vec::new();
    serialize_json_map(&map, &mut bytes).unwrap();
    assert_eq!(deserialize_json_map(&mut bytes.as_slice()).unwrap(), map);

    let array = borsh::to_vec(&String::from("[1,2]")).unwrap();
    assert_eq!(deserialize_json_map(&mut array.as_slice()), Err(CodecError::ExpectedJsonObject));

    let garbage = borsh::to_vec(&String::from("{not json")).unwrap();
    assert!(matches!(deserialize_json_value(&mut garbage.as_slice()), Err(CodecError::JsonDeserialization(_))));
}

#[test]
fn wasm_request_body_is_not_implemented() {
    let map = serde_json::Map::new();
    let mut bytes = vec![1u8];
    assert_eq!(serialize_wasm_request_with_object_body(&map, &mut bytes), Err(CodecError::NotImplemented));
    assert_eq!(bytes, vec![1u8]);
    let mut reader: &[u8] = &[1, 2];
    assert_eq!(deserialize_wasm_request_with_object_body(&mut reader), Err(CodecError::NotImplemented));
    assert_eq!(reader, &[1u8, 2][..]);
}

#[test]
fn json_map_is_written_as_its_text() {
    let mut map = serde_json::Map::new();
    map.insert("key".to_owned(), serde_json::Value::from(3));
    let mut bytes = vec![0xaa];
    serialize_json_map(&map, &mut bytes).unwrap();
    let mut expected = vec![0xaa, 9, 0, 0, 0];
    expected.extend_from_slice(br#"{"key":3}"#);
    assert_eq!(bytes, expected);

    let mut reader: &[u8] = &[4, 0, 0, 0, b't', b'r', b'u', b'e', 7];
    assert_eq!(deserialize_json_value(&mut reader).unwrap(), serde_json::Value::Bool(true));
    assert_eq!(reader, &[7u8][..]);
}

#[test]
fn chrono_range_of_instants() {
    assert!(UtcDateTime::from_timestamp(MAX_TIMESTAMP_SECS, 999_999_999).is_some());
    assert!(UtcDateTime::from_timestamp(MAX_TIMESTAMP_SECS + 1, 0).is_none());
    assert!(UtcDateTime::from_timestamp(MIN_TIMESTAMP_SECS, 0).is_some());
    assert!(UtcDateTime::from_timestamp(MIN_TIMESTAMP_SECS - 1, 0).is_none());
    assert_eq!(chrono::DateTime::<chrono::Utc>::MAX_UTC.timestamp(), MAX_TIMESTAMP_SECS);
    assert_eq!(chrono::DateTime::<chrono::Utc>::MIN_UTC.timestamp(), MIN_TIMESTAMP_SECS);
    // A leap second only in the last second of a minute.
    assert!(UtcDateTime::from_timestamp(59, 1_500_000_000).is_some());
    assert!(UtcDateTime::from_timestamp(58, 1_500_000_000).is_none());
    assert!(UtcDateTime::from_timestamp(59, 2_000_000_000).is_none());
    assert!(UtcDateTime::from_timestamp(-1, 1_999_999_999).is_some());
}
