//! The gRPC metadata map of `tonic`, as the rest of the library sees it:
//! its types, what they hold, and the calls into it that the library makes.
use vstd::prelude::*;
use tonic::metadata::{Ascii, KeyRef, MetadataKey, MetadataMap, MetadataValue};

verus! {

#[verifier::external_type_specification]
#[verifier::external_body]
pub struct ExMetadataMap(MetadataMap);

#[verifier::external_type_specification]
#[verifier::external_body]
pub struct ExAscii(Ascii);

/// An ASCII metadata value of `tonic`, held as it is. (`MetadataValue` is
/// generic over an encoding trait that `tonic` does not export, so it cannot
/// be declared to the verifier by its own generics.)
#[verifier::external_body]
pub struct AsciiValue {
    inner: MetadataValue<Ascii>,
}

/// An ASCII metadata key of `tonic`, held as it is (see `AsciiValue`).
#[verifier::external_body]
pub struct AsciiKey {
    inner: MetadataKey<Ascii>,
}

/// What a metadata map holds: for each key in it (a normalized, lower-case
/// header name), the values stored under that key, in order, as bytes.
pub uninterp spec fn metadata_entries(m: MetadataMap) -> Map<Seq<char>, Seq<Seq<u8>>>;

/// The bytes that an ASCII metadata value holds.
pub uninterp spec fn metadata_value_bytes(v: AsciiValue) -> Seq<u8>;

/// The header name that an ASCII metadata key holds.
pub uninterp spec fn metadata_key_name(k: AsciiKey) -> Seq<char>;

/// A bound on the keys of a metadata map below which an insertion never
/// panics. `http::HeaderMap` panics when an insertion would grow its table
/// beyond 32768 slots; whether it does depends on the table's layout, but it
/// cannot happen while the map holds fewer keys than a fifth of that.
pub const SAFE_INSERT_KEYS: usize = 6554;

/// A character that may stand in an HTTP header name (an RFC 7230 token
/// character).
pub open spec fn is_token_char(c: char) -> bool {
    ||| ('a' <= c && c <= 'z')
    ||| ('A' <= c && c <= 'Z')
    ||| ('0' <= c && c <= '9')
    ||| c == '!' || c == '#' || c == '$' || c == '%' || c == '&' || c == '\''
    ||| c == '*' || c == '+' || c == '-' || c == '.' || c == '^' || c == '_'
    ||| c == '`' || c == '|' || c == '~'
}

/// ASCII lower case of one character.
pub open spec fn lower_char(c: char) -> char {
    if 'A' <= c && c <= 'Z' {
        ((c as u32) + 32) as char
    } else {
        c
    }
}

/// The normalized header name that a string denotes: its lower case, where
/// it is a nonempty string of at most 65535 token characters.
pub open spec fn header_name(s: Seq<char>) -> Option<Seq<char>> {
    if 0 < s.len() <= 65535 && (forall|i: int| 0 <= i < s.len() ==> #[trigger] is_token_char(s[i])) {
        Some(s.map_values(|c: char| lower_char(c)))
    } else {
        None
    }
}

/// Whether a name ends with `-bin`, the mark of a binary metadata key.
pub open spec fn ends_with_bin(s: Seq<char>) -> bool {
    s.len() >= 4 && s.subrange(s.len() - 4, s.len() as int) == seq!['-', 'b', 'i', 'n']
}

/// The ASCII metadata key that a string denotes, where it denotes one: a
/// header name that does not end with `-bin`.
pub open spec fn ascii_metadata_key(s: Seq<char>) -> Option<Seq<char>> {
    match header_name(s) {
        Some(n) => if ends_with_bin(n) { None } else { Some(n) },
        None => None,
    }
}

/// The key under which `MetadataMap::get` looks a string up: none for a
/// string that ends with `-bin` or is no header name.
pub open spec fn lookup_name(key: Seq<char>) -> Option<Seq<char>> {
    if ends_with_bin(key) { None } else { header_name(key) }
}

/// A byte that `to_str` accepts: visible ASCII or a tab.
pub open spec fn is_visible_ascii(b: u8) -> bool {
    (32 <= b && b < 127) || b == 9
}

/// A character that an ASCII metadata value may hold: any but the control
/// characters other than tab (a character beyond ASCII is encoded in bytes
/// of 128 or more, which are all accepted).
pub open spec fn is_value_char(c: char) -> bool {
    (' ' <= c && c != '\u{7f}') || c == '\t'
}

/// `MetadataMap::get` with a string key: the bytes of the first ASCII value
/// stored under the key that the string names, if any.
#[verifier::external_body]
pub(crate) fn metadata_get<'a>(map: &'a MetadataMap, key: &str) -> (r: Option<&'a [u8]>)
    ensures
        r is Some <==> (lookup_name(key@) matches Some(n) && metadata_entries(*map).contains_key(n)),
        r matches Some(b) ==> b@ == metadata_entries(*map)[lookup_name(key@)->0][0],
{
    match map.get(key) {
        Some(v) => Some(v.as_bytes()),
        None => None,
    }
}

/// `std::str::from_utf8`: the text that the bytes encode, where they are
/// valid UTF-8.
#[verifier::external_body]
pub(crate) fn utf8_str(b: &[u8]) -> (r: Option<&str>)
    ensures
        r is Some <==> vstd::utf8::valid_utf8(b@),
        r matches Some(s) ==> s@ == vstd::utf8::decode_utf8(b@),
{
    std::str::from_utf8(b).ok()
}

/// `MetadataMap::keys`: every key of the map once, each with whether it is
/// an ASCII key (`KeyRef::Ascii`) rather than a binary one. The order is the
/// map's own and is not stated.
#[verifier::external_body]
pub(crate) fn metadata_keys<'a>(map: &'a MetadataMap) -> (r: Vec<(&'a str, bool)>)
    ensures
        forall|i: int| 0 <= i < r.len() ==> metadata_entries(*map).contains_key(#[trigger] r[i].0@),
        forall|n: Seq<char>| #[trigger] metadata_entries(*map).contains_key(n)
            ==> exists|i: int| 0 <= i < r.len() && #[trigger] r[i].0@ == n,
        forall|i: int, j: int| 0 <= i < j < r.len() ==> #[trigger] r[i].0@ != #[trigger] r[j].0@,
        forall|i: int| 0 <= i < r.len() ==> #[trigger] r[i].1 == !ends_with_bin(r[i].0@),
{
    let mut out = Vec::new();
    for key in map.keys() {
        match key {
            KeyRef::Ascii(k) => out.push((k.as_str(), true)),
            KeyRef::Binary(k) => out.push((k.as_str(), false)),
        }
    }
    out
}

/// `MetadataMap::keys_len`: the number of distinct keys in the map.
#[verifier::external_body]
pub(crate) fn metadata_keys_len(map: &MetadataMap) -> (r: usize)
    ensures
        r == metadata_entries(*map).dom().len(),
{
    map.keys_len()
}

/// `str::parse::<MetadataValue<Ascii>>`: a value holding the UTF-8 bytes of
/// the text, where every character of it may stand in a value.
#[verifier::external_body]
pub(crate) fn parse_metadata_value(s: &str) -> (r: Option<AsciiValue>)
    ensures
        r is Some <==> (forall|i: int| 0 <= i < s@.len() ==> #[trigger] is_value_char(s@[i])),
        r matches Some(v) ==> metadata_value_bytes(v) == vstd::utf8::encode_utf8(s@),
{
    match s.parse::<MetadataValue<Ascii>>() {
        Ok(inner) => Some(AsciiValue { inner }),
        Err(_) => None,
    }
}

/// `str::parse::<MetadataKey<Ascii>>`: the normalized key, where the text
/// names an ASCII metadata key.
#[verifier::external_body]
pub(crate) fn parse_metadata_key(s: &str) -> (r: Option<AsciiKey>)
    ensures
        r is Some <==> ascii_metadata_key(s@) is Some,
        r matches Some(k) ==> metadata_key_name(k) == ascii_metadata_key(s@)->0,
{
    match s.parse::<MetadataKey<Ascii>>() {
        Ok(inner) => Some(AsciiKey { inner }),
        Err(_) => None,
    }
}

/// `MetadataMap::insert`: the key now holds the value alone (any values it
/// held before are removed); every other key keeps all its values.
#[verifier::external_body]
pub(crate) fn metadata_insert(map: &mut MetadataMap, key: AsciiKey, value: AsciiValue)
    requires
        metadata_entries(*old(map)).dom().len() < SAFE_INSERT_KEYS,
    ensures
        metadata_entries(*final(map)) == metadata_entries(*old(map)).insert(
            metadata_key_name(key),
            seq![metadata_value_bytes(value)],
        ),
{
    map.insert(key.inner, value.inner);
}

} // verus!
