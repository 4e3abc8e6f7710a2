//! Borsh framing of timestamps, optional timestamps, strings and JSON values.
//!
//! Fixed-width integers are written little-endian, exactly as Borsh writes
//! them; a string is its UTF-8 bytes behind a `u32` little-endian length.
use vstd::prelude::*;
use vstd::bytes::*;
use vstd::slice::slice_subrange;
use vstd::slice::slice_to_vec;
use vstd::utf8::*;
use vstd::string::StringSliceAdditionalSpecFns;

verus! {

/// Why a value could not be written or read.
#[derive(Debug, Clone, PartialEq, Eq)]
pub enum CodecError {
    /// The input ended before the value did.
    UnexpectedLengthOfInput,
    /// The seconds and nanoseconds do not name a representable UTC instant.
    InvalidDateTime,
    /// The tag byte of an optional timestamp was neither 0 nor 1.
    InvalidOptionFlag,
    /// The string is longer than a `u32` length prefix can describe.
    LengthOverflow,
    /// The string bytes are not UTF-8.
    InvalidUtf8,
    /// The value could not be rendered as JSON text.
    JsonSerialization(String),
    /// The text is not a JSON document.
    JsonDeserialization(String),
    /// The JSON document is not an object.
    ExpectedJsonObject,
    /// The framing is not implemented for this type.
    NotImplemented,
}

/// The first second chrono can represent: -262143-01-01T00:00:00 UTC.
pub const MIN_TIMESTAMP_SECS: i64 = -8334601228800;

/// The last second chrono can represent: +262142-12-31T23:59:59 UTC.
pub const MAX_TIMESTAMP_SECS: i64 = 8210266876799;

/// Whether chrono can represent the instant `secs` seconds and `nsecs`
/// nanoseconds after the Unix epoch: its day lies in chrono's range of
/// years, and the nanoseconds stay below one second, or below two during a
/// leap second, which only the last second of a minute can hold.
pub open spec fn chrono_timestamp_valid(secs: i64, nsecs: u32) -> bool {
    &&& MIN_TIMESTAMP_SECS <= secs <= MAX_TIMESTAMP_SECS
    &&& (nsecs < 1_000_000_000 || (nsecs < 2_000_000_000 && secs % 60 == 59))
}

/// Calls `chrono::DateTime::<Utc>::from_timestamp(secs, nsecs)` and, when it
/// succeeds, reads the instant back with `timestamp()` and
/// `timestamp_subsec_nanos()`.
/// Claimed of chrono: it succeeds exactly on the instants
/// `chrono_timestamp_valid` describes (the days of years -262143 to 262142,
/// and at most a leap second's nanoseconds), and, as chrono documents,
/// `from_timestamp` round-trips with `timestamp` and
/// `timestamp_subsec_nanos`.
#[verifier::external_body]
fn chrono_from_timestamp(secs: i64, nsecs: u32) -> (r: Option<(i64, u32)>)
    ensures
        r is Some <==> chrono_timestamp_valid(secs, nsecs),
        r matches Some(p) ==> p == (secs, nsecs),
{
    match chrono::DateTime::<chrono::Utc>::from_timestamp(secs, nsecs) {
        Some(dt) => Some((dt.timestamp(), dt.timestamp_subsec_nanos())),
        None => None,
    }
}

/// A UTC instant, as seconds since the Unix epoch and nanoseconds since the
/// last whole second (above 999 999 999 only during a leap second).
#[derive(Debug, Clone, Copy, PartialEq, Eq)]
pub struct UtcDateTime {
    secs: i64,
    nsecs: u32,
}

impl UtcDateTime {
    pub closed spec fn spec_secs(self) -> i64 {
        self.secs
    }

    pub closed spec fn spec_nsecs(self) -> u32 {
        self.nsecs
    }

    /// The instant is one that chrono can represent.
    pub open spec fn is_valid(self) -> bool {
        chrono_timestamp_valid(self.spec_secs(), self.spec_nsecs())
    }

    /// The instant with these parts, or `None` where chrono has no such instant.
    pub fn from_timestamp(secs: i64, nsecs: u32) -> (r: Option<UtcDateTime>)
        ensures
            r is Some <==> chrono_timestamp_valid(secs, nsecs),
            r matches Some(t) ==> t.spec_secs() == secs && t.spec_nsecs() == nsecs && t.is_valid(),
    {
        match chrono_from_timestamp(secs, nsecs) {
            Some((s, n)) => Some(UtcDateTime { secs: s, nsecs: n }),
            None => None,
        }
    }

    /// Seconds since the Unix epoch.
    pub fn timestamp(&self) -> (r: i64)
        ensures
            r == self.spec_secs(),
    {
        self.secs
    }

    /// Nanoseconds since the last whole second.
    pub fn timestamp_subsec_nanos(&self) -> (r: u32)
        ensures
            r == self.spec_nsecs(),
    {
        self.nsecs
    }
}

/// The Borsh bytes of the pair `(secs, nsecs)`.
pub open spec fn utc_bytes(t: UtcDateTime) -> Seq<u8> {
    spec_u64_to_le_bytes(t.spec_secs() as u64) + spec_u32_to_le_bytes(t.spec_nsecs())
}

/// What reading a timestamp from `input` gives, and how many bytes it consumes.
pub open spec fn decode_utc(input: Seq<u8>) -> (Result<UtcDateTime, CodecError>, nat) {
    if input.len() < 12 {
        (Err(CodecError::UnexpectedLengthOfInput), input.len())
    } else {
        let secs = spec_u64_from_le_bytes(input.subrange(0, 8)) as i64;
        let nsecs = spec_u32_from_le_bytes(input.subrange(8, 12));
        if chrono_timestamp_valid(secs, nsecs) {
            (Ok(choose|t: UtcDateTime| t.spec_secs() == secs && t.spec_nsecs() == nsecs), 12)
        } else {
            (Err(CodecError::InvalidDateTime), 12)
        }
    }
}

/// Appends `bytes` to `writer`.
fn write_bytes(bytes: Vec<u8>, writer: &mut Vec<u8>)
    ensures
        final(writer)@ == old(writer)@ + bytes@,
{
    let mut bytes = bytes;
    writer.append(&mut bytes);
}

/// Reads a little-endian `u64`; on a short input the reader is left empty.
fn read_u64<'a>(reader: &mut &'a [u8]) -> (r: Result<u64, CodecError>)
    ensures
        old(reader)@.len() >= 8 ==> r == Ok::<u64, CodecError>(spec_u64_from_le_bytes(old(reader)@.subrange(0, 8)))
            && final(reader)@ == old(reader)@.subrange(8, old(reader)@.len() as int),
        old(reader)@.len() < 8 ==> r == Err::<u64, CodecError>(CodecError::UnexpectedLengthOfInput)
            && final(reader)@.len() == 0,
{
    let s: &'a [u8] = *reader;
    let n = s.len();
    if n < 8 {
        *reader = slice_subrange(s, n, n);
        return Err(CodecError::UnexpectedLengthOfInput);
    }
    let v = u64_from_le_bytes(slice_subrange(s, 0, 8));
    *reader = slice_subrange(s, 8, n);
    Ok(v)
}

/// Reads a little-endian `u32`; on a short input the reader is left empty.
fn read_u32<'a>(reader: &mut &'a [u8]) -> (r: Result<u32, CodecError>)
    ensures
        old(reader)@.len() >= 4 ==> r == Ok::<u32, CodecError>(spec_u32_from_le_bytes(old(reader)@.subrange(0, 4)))
            && final(reader)@ == old(reader)@.subrange(4, old(reader)@.len() as int),
        old(reader)@.len() < 4 ==> r == Err::<u32, CodecError>(CodecError::UnexpectedLengthOfInput)
            && final(reader)@.len() == 0,
{
    let s: &'a [u8] = *reader;
    let n = s.len();
    if n < 4 {
        *reader = slice_subrange(s, n, n);
        return Err(CodecError::UnexpectedLengthOfInput);
    }
    let v = u32_from_le_bytes(slice_subrange(s, 0, 4));
    *reader = slice_subrange(s, 4, n);
    Ok(v)
}

/// Writes `value` as the Borsh pair `(seconds: i64, nanoseconds: u32)`.
/// Never fails.
pub fn serialize_utc(value: &UtcDateTime, writer: &mut Vec<u8>) -> (r: Result<(), CodecError>)
    ensures
        r is Ok,
        final(writer)@ == old(writer)@ + utc_bytes(*value),
{
    write_bytes(u64_to_le_bytes(value.secs as u64), writer);
    write_bytes(u32_to_le_bytes(value.nsecs), writer);
    Ok(())
}


/// Reads a timestamp written by `serialize_utc`.
/// Fails with `UnexpectedLengthOfInput` on fewer than 12 bytes (the reader
/// is then left empty) and with `InvalidDateTime` where chrono has no such
/// instant (the 12 bytes are then consumed).
pub fn deserialize_utc<'a>(reader: &mut &'a [u8]) -> (r: Result<UtcDateTime, CodecError>)
    ensures
        r == decode_utc(old(reader)@).0,
        final(reader)@ == old(reader)@.subrange(decode_utc(old(reader)@).1 as int, old(reader)@.len() as int),
        r matches Ok(t) ==> t.is_valid(),
{
    let ghost input = reader@;
    let secs_bits = read_u64(reader);
    let secs_bits = match secs_bits {
        Ok(v) => v,
        Err(e) => {
            assert(reader@ =~= input.subrange(input.len() as int, input.len() as int));
            return Err(e);
        },
    };
    let nsecs = read_u32(reader);
    let nsecs = match nsecs {
        Ok(v) => v,
        Err(e) => {
            assert(reader@ =~= input.subrange(input.len() as int, input.len() as int));
            return Err(e);
        },
    };
    proof {
        assert(input.subrange(8, input.len() as int).subrange(0, 4) =~= input.subrange(8, 12));
        assert(reader@ =~= input.subrange(12, input.len() as int));
    }
    let secs = secs_bits as i64;
    match UtcDateTime::from_timestamp(secs, nsecs) {
        Some(t) => Ok(t),
        None => Err(CodecError::InvalidDateTime),
    }
}

/// The Borsh bytes of an optional timestamp: a tag byte, 1 followed by the
/// timestamp or 0 alone.
pub open spec fn option_utc_bytes(value: Option<UtcDateTime>) -> Seq<u8> {
    match value {
        Some(t) => seq![1u8] + utc_bytes(t),
        None => seq![0u8],
    }
}

/// What reading an optional timestamp from `input` gives, and how many bytes
/// it consumes.
pub open spec fn decode_option_utc(input: Seq<u8>) -> (Result<Option<UtcDateTime>, CodecError>, nat) {
    if input.len() == 0 {
        (Err(CodecError::UnexpectedLengthOfInput), 0)
    } else if input[0] == 0 {
        (Ok(None), 1)
    } else if input[0] == 1 {
        let rest = decode_utc(input.subrange(1, input.len() as int));
        (
            match rest.0 {
                Ok(t) => Ok(Some(t)),
                Err(e) => Err(e),
            },
            rest.1 + 1,
        )
    } else {
        (Err(CodecError::InvalidOptionFlag), 1)
    }
}

/// Writes an optional timestamp: the tag byte 1 and the timestamp, or the
/// tag byte 0. Never fails.
pub fn serialize_option_utc(value: &Option<UtcDateTime>, writer: &mut Vec<u8>) -> (r: Result<(), CodecError>)
    ensures
        r is Ok,
        final(writer)@ == old(writer)@ + option_utc_bytes(*value),
{
    match value {
        Some(t) => {
            writer.push(1u8);
            let r = serialize_utc(t, writer);
            assert(writer@ =~= old(writer)@ + option_utc_bytes(*value));
            r
        },
        None => {
            writer.push(0u8);
            assert(writer@ =~= old(writer)@ + option_utc_bytes(*value));
            Ok(())
        },
    }
}

/// Reads an optional timestamp written by `serialize_option_utc`.
/// A tag byte other than 0 or 1 gives `InvalidOptionFlag`.
pub fn deserialize_option_utc<'a>(reader: &mut &'a [u8]) -> (r: Result<Option<UtcDateTime>, CodecError>)
    ensures
        r == decode_option_utc(old(reader)@).0,
        final(reader)@ == old(reader)@.subrange(decode_option_utc(old(reader)@).1 as int, old(reader)@.len() as int),
{
    let ghost input = reader@;
    let s: &'a [u8] = *reader;
    let n = s.len();
    if n == 0 {
        assert(reader@ =~= input.subrange(0, 0));
        return Err(CodecError::UnexpectedLengthOfInput);
    }
    let flag = s[0];
    *reader = slice_subrange(s, 1, n);
    if flag == 0 {
        Ok(None)
    } else if flag == 1 {
        let ghost after_flag = reader@;
        let t = deserialize_utc(reader);
        proof {
            let k = decode_utc(after_flag).1;
            assert(reader@ =~= input.subrange(k + 1int, input.len() as int));
        }
        match t {
            Ok(t) => Ok(Some(t)),
            Err(e) => Err(e),
        }
    } else {
        Err(CodecError::InvalidOptionFlag)
    }
}

/// Reading back what `serialize_utc` wrote gives the same instant and
/// consumes exactly its bytes, whatever follows them.
pub proof fn lemma_utc_round_trip(t: UtcDateTime, rest: Seq<u8>)
    requires
        t.is_valid(),
    ensures
        decode_utc(utc_bytes(t) + rest) == (Ok::<UtcDateTime, CodecError>(t), 12nat),
        utc_bytes(t).len() == 12,
{
    lemma_auto_spec_u64_to_from_le_bytes();
    lemma_auto_spec_u32_to_from_le_bytes();
    let input = utc_bytes(t) + rest;
    let bits = t.secs as u64;
    assert(input.subrange(0, 8) =~= spec_u64_to_le_bytes(bits));
    assert(input.subrange(8, 12) =~= spec_u32_to_le_bytes(t.nsecs));
    let s = t.secs;
    assert((s as u64) as i64 == s) by (bit_vector);
    let c = choose|c: UtcDateTime| c.spec_secs() == t.secs && c.spec_nsecs() == t.nsecs;
    assert(c.spec_secs() == t.secs && c.spec_nsecs() == t.nsecs);
}

/// Reading back what `serialize_option_utc` wrote gives the same optional
/// instant and consumes exactly its bytes, whatever follows them.
pub proof fn lemma_option_utc_round_trip(value: Option<UtcDateTime>, rest: Seq<u8>)
    requires
        value matches Some(t) ==> t.is_valid(),
    ensures
        decode_option_utc(option_utc_bytes(value) + rest) == (
            Ok::<Option<UtcDateTime>, CodecError>(value),
            option_utc_bytes(value).len(),
        ),
{
    let input = option_utc_bytes(value) + rest;
    match value {
        Some(t) => {
            lemma_utc_round_trip(t, rest);
            assert(input.subrange(1, input.len() as int) =~= utc_bytes(t) + rest);
        },
        None => {},
    }
}


/// The Borsh bytes of a string: its UTF-8 length as a little-endian `u32`,
/// then its UTF-8 bytes.
pub open spec fn string_bytes(s: Seq<char>) -> Seq<u8> {
    spec_u32_to_le_bytes(encode_utf8(s).len() as u32) + encode_utf8(s)
}

/// What reading a string from `input` gives, and how many bytes it consumes.
pub open spec fn decode_string(input: Seq<u8>) -> (Result<Seq<char>, CodecError>, nat) {
    if input.len() < 4 {
        (Err(CodecError::UnexpectedLengthOfInput), input.len())
    } else {
        let n = spec_u32_from_le_bytes(input.subrange(0, 4)) as int;
        if input.len() - 4 < n {
            (Err(CodecError::UnexpectedLengthOfInput), input.len())
        } else {
            let body = input.subrange(4, 4 + n);
            if valid_utf8(body) {
                (Ok(decode_utf8(body)), (4 + n) as nat)
            } else {
                (Err(CodecError::InvalidUtf8), (4 + n) as nat)
            }
        }
    }
}

/// Calls `core::str::from_utf8`.
/// Claimed of std: it succeeds exactly on well-formed UTF-8 (vstd's
/// `valid_utf8`), and the string it returns has exactly those bytes.
#[verifier::external_body]
fn str_from_utf8(bytes: &[u8]) -> (r: Option<&str>)
    ensures
        r is Some <==> valid_utf8(bytes@),
        r matches Some(s) ==> s.spec_bytes() == bytes@,
{
    core::str::from_utf8(bytes).ok()
}

/// Writes `s` as a Borsh string. Fails with `LengthOverflow`, writing
/// nothing, when its UTF-8 length does not fit in a `u32`.
pub fn serialize_string(s: &str, writer: &mut Vec<u8>) -> (r: Result<(), CodecError>)
    ensures
        r is Ok <==> encode_utf8(s@).len() <= u32::MAX,
        r is Ok ==> final(writer)@ == old(writer)@ + string_bytes(s@),
        r matches Err(e) ==> e == CodecError::LengthOverflow && final(writer)@ == old(writer)@,
{
    let bytes = s.as_bytes();
    let n = bytes.len();
    if n > u32::MAX as usize {
        return Err(CodecError::LengthOverflow);
    }
    write_bytes(u32_to_le_bytes(n as u32), writer);
    write_bytes(slice_to_vec(bytes), writer);
    Ok(())
}

/// Reads a Borsh string. A short input gives `UnexpectedLengthOfInput` and
/// leaves the reader empty; bytes that are not UTF-8 give `InvalidUtf8`.
pub fn deserialize_string<'a>(reader: &mut &'a [u8]) -> (r: Result<String, CodecError>)
    ensures
        match r {
            Ok(s) => decode_string(old(reader)@).0 == Ok::<Seq<char>, CodecError>(s@),
            Err(e) => decode_string(old(reader)@).0 == Err::<Seq<char>, CodecError>(e),
        },
        final(reader)@ == old(reader)@.subrange(decode_string(old(reader)@).1 as int, old(reader)@.len() as int),
{
    let ghost input = reader@;
    let len = read_u32(reader);
    let len = match len {
        Ok(v) => v,
        Err(e) => {
            assert(reader@ =~= input.subrange(input.len() as int, input.len() as int));
            return Err(e);
        },
    };
    let s: &'a [u8] = *reader;
    let m = s.len();
    let n = len as usize;
    if m < n {
        *reader = slice_subrange(s, m, m);
        assert(reader@ =~= input.subrange(input.len() as int, input.len() as int));
        return Err(CodecError::UnexpectedLengthOfInput);
    }
    let body = slice_subrange(s, 0, n);
    *reader = slice_subrange(s, n, m);
    proof {
        assert(body@ =~= input.subrange(4, 4 + n));
        assert(reader@ =~= input.subrange(4 + n, input.len() as int));
    }
    match str_from_utf8(body) {
        Some(text) => {
            proof {
                decode_utf8_encode_utf8(body@);
                encode_utf8_decode_utf8(text@);
            }
            Ok(text.to_owned())
        },
        None => Err(CodecError::InvalidUtf8),
    }
}

/// Reading back what `serialize_string` wrote gives the same string and
/// consumes exactly its bytes, whatever follows them.
pub proof fn lemma_string_round_trip(s: Seq<char>, rest: Seq<u8>)
    requires
        encode_utf8(s).len() <= u32::MAX,
    ensures
        decode_string(string_bytes(s) + rest) == (
            Ok::<Seq<char>, CodecError>(s),
            string_bytes(s).len(),
        ),
        string_bytes(s).len() == 4 + encode_utf8(s).len(),
{
    lemma_auto_spec_u32_to_from_le_bytes();
    encode_utf8_valid_utf8(s);
    encode_utf8_decode_utf8(s);
    let body = encode_utf8(s);
    let n = body.len() as u32;
    let input = string_bytes(s) + rest;
    assert(input.subrange(0, 4) =~= spec_u32_to_le_bytes(n));
    assert(input.subrange(4, 4 + body.len() as int) =~= body);
}


#[verifier::external_type_specification]
#[verifier::external_body]
pub struct ExJsonValue(serde_json::Value);

#[verifier::external_type_specification]
#[verifier::external_body]
#[verifier::reject_recursive_types(K)]
#[verifier::reject_recursive_types(V)]
pub struct ExJsonMap<K, V>(serde_json::Map<K, V>);

/// The JSON text that serde_json writes for a value.
pub uninterp spec fn json_text(value: serde_json::Value) -> Seq<char>;

/// The JSON value that serde_json reads from a text, or `None` where the
/// text is not a JSON document.
pub uninterp spec fn json_parse(text: Seq<char>) -> Option<serde_json::Value>;

/// The JSON value `Value::Object(map)`.
pub uninterp spec fn json_object_value(map: serde_json::Map<String, serde_json::Value>) -> serde_json::Value;

/// The map inside a JSON value when it is an object, `None` for any other
/// kind of value.
pub uninterp spec fn json_as_object(value: serde_json::Value) -> Option<serde_json::Map<String, serde_json::Value>>;

/// Calls `serde_json::to_string` on a JSON value. Claimed of serde_json:
/// it succeeds (a `Value` has string keys only and its `Serialize` never
/// fails), and the text is `json_text` of the value. A failure would be
/// handed back as serde_json's message.
#[verifier::external_body]
fn json_to_string(value: &serde_json::Value) -> (r: Result<String, String>)
    ensures
        r is Ok,
        r matches Ok(text) ==> text@ == json_text(*value),
{
    match serde_json::to_string(value) {
        Ok(text) => Ok(text),
        Err(e) => Err(e.to_string()),
    }
}

/// Calls `serde_json::from_str` for a JSON value. Claimed of serde_json:
/// it succeeds exactly when `json_parse` of the text is a value, and then
/// gives that value; a failure is handed back as serde_json's message.
#[verifier::external_body]
fn json_from_str(text: &str) -> (r: Result<serde_json::Value, String>)
    ensures
        r is Ok <==> json_parse(text@) is Some,
        r matches Ok(value) ==> json_parse(text@) == Some(value),
{
    match serde_json::from_str(text) {
        Ok(value) => Ok(value),
        Err(e) => Err(e.to_string()),
    }
}

/// Builds `serde_json::Value::Object` from a clone of `map`. Claimed of
/// serde_json: the value is `json_object_value` of the map, and it is an
/// object holding that map.
#[verifier::external_body]
fn json_object(map: &serde_json::Map<String, serde_json::Value>) -> (r: serde_json::Value)
    ensures
        r == json_object_value(*map),
        json_as_object(r) == Some(*map),
{
    serde_json::Value::Object(map.clone())
}

/// Takes the map out of a `serde_json::Value::Object`; any other variant
/// gives `None`. Claimed: the result is `json_as_object` of the value.
#[verifier::external_body]
fn json_into_object(value: serde_json::Value) -> (r: Option<serde_json::Map<String, serde_json::Value>>)
    ensures
        r == json_as_object(value),
{
    match value {
        serde_json::Value::Object(map) => Some(map),
        _ => None,
    }
}

/// Writes a JSON value as the Borsh string of its JSON text. Fails with
/// `LengthOverflow`, writing nothing, when the text's UTF-8 length does not
/// fit in a `u32`.
pub fn serialize_json_value(value: &serde_json::Value, writer: &mut Vec<u8>) -> (r: Result<(), CodecError>)
    ensures
        r is Ok <==> encode_utf8(json_text(*value)).len() <= u32::MAX,
        r is Ok ==> final(writer)@ == old(writer)@ + string_bytes(json_text(*value)),
        r matches Err(e) ==> e == CodecError::LengthOverflow && final(writer)@ == old(writer)@,
{
    match json_to_string(value) {
        Ok(text) => serialize_string(text.as_str(), writer),
        Err(message) => Err(CodecError::JsonSerialization(message)),
    }
}

/// What reading a JSON value from `input` gives: the error of reading the
/// string, a `JsonDeserialization` error where its text does not parse, or
/// the parsed value.
pub open spec fn json_value_read(input: Seq<u8>, r: Result<serde_json::Value, CodecError>) -> bool {
    match decode_string(input).0 {
        Err(e) => r == Err::<serde_json::Value, CodecError>(e),
        Ok(text) => match json_parse(text) {
            Some(value) => r == Ok::<serde_json::Value, CodecError>(value),
            None => r matches Err(e) && e is JsonDeserialization,
        },
    }
}

/// Reads a JSON value from the Borsh string of its JSON text. The reader
/// moves exactly as `deserialize_string` moves it.
pub fn deserialize_json_value<'a>(reader: &mut &'a [u8]) -> (r: Result<serde_json::Value, CodecError>)
    ensures
        final(reader)@ == old(reader)@.subrange(decode_string(old(reader)@).1 as int, old(reader)@.len() as int),
        json_value_read(old(reader)@, r),
{
    let text = deserialize_string(reader)?;
    match json_from_str(text.as_str()) {
        Ok(value) => Ok(value),
        Err(message) => Err(CodecError::JsonDeserialization(message)),
    }
}

/// Writes a JSON map as the Borsh string of the JSON text of the object.
pub fn serialize_json_map(value: &serde_json::Map<String, serde_json::Value>, writer: &mut Vec<u8>) -> (r: Result<(), CodecError>)
    ensures
        r is Ok <==> encode_utf8(json_text(json_object_value(*value))).len() <= u32::MAX,
        r is Ok ==> final(writer)@ == old(writer)@ + string_bytes(json_text(json_object_value(*value))),
        r matches Err(e) ==> e == CodecError::LengthOverflow && final(writer)@ == old(writer)@,
{
    let json_value = json_object(value);
    serialize_json_value(&json_value, writer)
}

/// What reading a JSON map from `input` gives: as for a JSON value, and
/// then `ExpectedJsonObject` where the value is not an object.
pub open spec fn json_map_read(input: Seq<u8>, r: Result<serde_json::Map<String, serde_json::Value>, CodecError>) -> bool {
    match decode_string(input).0 {
        Err(e) => r == Err::<serde_json::Map<String, serde_json::Value>, CodecError>(e),
        Ok(text) => match json_parse(text) {
            Some(value) => match json_as_object(value) {
                Some(map) => r == Ok::<serde_json::Map<String, serde_json::Value>, CodecError>(map),
                None => r == Err::<serde_json::Map<String, serde_json::Value>, CodecError>(CodecError::ExpectedJsonObject),
            },
            None => r matches Err(e) && e is JsonDeserialization,
        },
    }
}

/// Reads a JSON map; a document that is not an object gives
/// `ExpectedJsonObject`.
pub fn deserialize_json_map<'a>(reader: &mut &'a [u8]) -> (r: Result<serde_json::Map<String, serde_json::Value>, CodecError>)
    ensures
        final(reader)@ == old(reader)@.subrange(decode_string(old(reader)@).1 as int, old(reader)@.len() as int),
        json_map_read(old(reader)@, r),
{
    let json_value = deserialize_json_value(reader)?;
    match json_into_object(json_value) {
        Some(map) => Ok(map),
        None => Err(CodecError::ExpectedJsonObject),
    }
}

/// Reading back what `serialize_json_value` wrote reads the string that was
/// written, whatever follows it: the value read is serde_json's parse of the
/// value's own JSON text.
pub proof fn lemma_json_value_round_trip(value: serde_json::Value, rest: Seq<u8>)
    requires
        encode_utf8(json_text(value)).len() <= u32::MAX,
    ensures
        decode_string(string_bytes(json_text(value)) + rest) == (
            Ok::<Seq<char>, CodecError>(json_text(value)),
            string_bytes(json_text(value)).len(),
        ),
{
    lemma_string_round_trip(json_text(value), rest);
}

/// The object body of a wasm request has no Borsh form yet: always
/// `NotImplemented`, reading nothing.
pub fn deserialize_wasm_request_with_object_body<'a>(reader: &mut &'a [u8]) -> (r: Result<serde_json::Map<String, serde_json::Value>, CodecError>)
    ensures
        r == Err::<serde_json::Map<String, serde_json::Value>, CodecError>(CodecError::NotImplemented),
        final(reader)@ == old(reader)@,
{
    Err(CodecError::NotImplemented)
}

/// The object body of a wasm request has no Borsh form yet: always
/// `NotImplemented`, writing nothing.
pub fn serialize_wasm_request_with_object_body(
    value: &serde_json::Map<String, serde_json::Value>,
    writer: &mut Vec<u8>,
) -> (r: Result<(), CodecError>)
    ensures
        r == Err::<(), CodecError>(CodecError::NotImplemented),
        final(writer)@ == old(writer)@,
{
    Err(CodecError::NotImplemented)
}

} // verus!
