//! W3C trace-context propagation through gRPC metadata: reading the context
//! headers (`traceparent`, `tracestate`) out of the metadata of an incoming
//! request, and writing them into the metadata of an outgoing one.
use vstd::prelude::*;
use tonic::metadata::MetadataMap;
use crate::metadata::{
    ascii_metadata_key, ends_with_bin, is_value_char, is_visible_ascii, lookup_name,
    metadata_entries, metadata_get, metadata_insert, metadata_keys, metadata_keys_len,
    parse_metadata_key, parse_metadata_value, utf8_str, SAFE_INSERT_KEYS,
};

verus! {

/// The text that value bytes read as: present where every byte is visible
/// ASCII (or a tab), each byte then standing for the character of its code.
pub open spec fn text_of(bytes: Seq<u8>) -> Option<Seq<char>> {
    if forall|i: int| 0 <= i < bytes.len() ==> #[trigger] is_visible_ascii(bytes[i]) {
        Some(bytes.map_values(|b: u8| b as char))
    } else {
        None
    }
}

/// What reading `key` out of metadata holding `entries` gives: the text of
/// the first value under the key that `key` names, if there is one and it
/// reads as text.
pub open spec fn extracted(entries: Map<Seq<char>, Seq<Seq<u8>>>, key: Seq<char>) -> Option<Seq<char>> {
    match lookup_name(key) {
        Some(n) => if entries.contains_key(n) { text_of(entries[n][0]) } else { None },
        None => None,
    }
}

/// Whether a text may be stored as an ASCII metadata value.
pub open spec fn is_value_text(value: Seq<char>) -> bool {
    forall|i: int| 0 <= i < value.len() ==> #[trigger] is_value_char(value[i])
}

/// What writing `value` under `key` makes of metadata holding `entries`:
/// where the key names an ASCII metadata key and the value may be stored,
/// that key holds the UTF-8 bytes of the value alone; otherwise nothing
/// changes.
pub open spec fn injected(entries: Map<Seq<char>, Seq<Seq<u8>>>, key: Seq<char>, value: Seq<char>) -> Map<
    Seq<char>,
    Seq<Seq<u8>>,
> {
    match ascii_metadata_key(key) {
        Some(n) => if is_value_text(value) {
            entries.insert(n, seq![vstd::utf8::encode_utf8(value)])
        } else {
            entries
        },
        None => entries,
    }
}

/// Whether writing `value` under `key` would insert into metadata that holds
/// so many keys that the insertion may panic.
pub open spec fn injection_may_overflow(entries: Map<Seq<char>, Seq<Seq<u8>>>, key: Seq<char>, value: Seq<char>) -> bool {
    &&& ascii_metadata_key(key) is Some
    &&& is_value_text(value)
    &&& entries.dom().len() >= SAFE_INSERT_KEYS
}

/// The text of an optional string.
pub open spec fn opt_text(s: Option<&str>) -> Option<Seq<char>> {
    match s {
        Some(t) => Some(t@),
        None => None,
    }
}

/// Reads W3C trace context headers (`traceparent`, `tracestate`) out of the
/// metadata of a gRPC request.
pub struct GrpcMetadataExtractor<'a>(pub &'a MetadataMap);

impl<'a> GrpcMetadataExtractor<'a> {
    /// The value under `key`, where the metadata holds one under that key
    /// and it is text.
    pub fn get(&self, key: &str) -> (r: Option<&'a str>)
        ensures
            opt_text(r) == extracted(metadata_entries(*self.0), key@),
    {
        let map: &'a MetadataMap = self.0;
        match metadata_get(map, key) {
            None => None,
            Some(bytes) => {
                let mut i: usize = 0;
                while i < bytes.len()
                    invariant
                        extracted(metadata_entries(*self.0), key@) == text_of(bytes@),
                        0 <= i <= bytes@.len(),
                        forall|j: int| 0 <= j < i ==> #[trigger] is_visible_ascii(bytes@[j]),
                    decreases bytes@.len() - i,
                {
                    if !(32 <= bytes[i] && bytes[i] < 127 || bytes[i] == 9) {
                        proof {
                            assert(!is_visible_ascii(bytes@[i as int]));
                        }
                        return None;
                    }
                    i = i + 1;
                }
                proof {
                    lemma_ascii_bytes_decode(bytes@);
                }
                utf8_str(bytes)
            },
        }
    }

    /// The ASCII keys of the metadata, each once; binary keys (those ending
    /// with `-bin`) are left out.
    pub fn keys(&self) -> (r: Vec<&'a str>)
        ensures
            forall|i: int| 0 <= i < r.len() ==> metadata_entries(*self.0).contains_key(#[trigger] r[i]@)
                && !ends_with_bin(r[i]@),
            forall|n: Seq<char>| #[trigger] metadata_entries(*self.0).contains_key(n) && !ends_with_bin(n)
                ==> exists|i: int| 0 <= i < r.len() && #[trigger] r[i]@ == n,
            forall|i: int, j: int| 0 <= i < j < r.len() ==> #[trigger] r[i]@ != #[trigger] r[j]@,
    {
        let map: &'a MetadataMap = self.0;
        let all = metadata_keys(map);
        let mut out: Vec<&'a str> = Vec::new();
        // `idx[k]` is the place in `all` of `out[k]`; `pos[l]` is the place in
        // `out` of the ASCII key `all[l]`.
        let ghost mut idx: Seq<int> = Seq::empty();
        let ghost mut pos: Seq<int> = Seq::empty();
        let mut i: usize = 0;
        while i < all.len()
            invariant
                0 <= i <= all@.len(),
                idx.len() == out@.len(),
                pos.len() == i,
                forall|k: int| 0 <= k < idx.len() ==> 0 <= #[trigger] idx[k] < i && all@[idx[k]].1
                    && out@[k]@ == all@[idx[k]].0@,
                forall|k: int, m: int| 0 <= k < m < idx.len() ==> #[trigger] idx[k] < #[trigger] idx[m],
                forall|l: int| 0 <= l < i && #[trigger] all@[l].1 ==> 0 <= pos[l] < idx.len() && idx[pos[l]] == l,
            decreases all@.len() - i,
        {
            let (name, is_ascii) = all[i];
            proof {
                if is_ascii {
                    idx = idx.push(i as int);
                    pos = pos.push(out@.len() as int);
                } else {
                    pos = pos.push(0);
                }
            }
            if is_ascii {
                out.push(name);
            }
            i = i + 1;
        }
        proof {
            assert forall|n: Seq<char>| #[trigger] metadata_entries(*self.0).contains_key(n) && !ends_with_bin(n)
                implies exists|k: int| 0 <= k < out@.len() && #[trigger] out@[k]@ == n by {
                let l = choose|l: int| 0 <= l < all@.len() && #[trigger] all@[l].0@ == n;
                assert(all@[l].1);
                assert(out@[pos[l]]@ == n);
            }
            assert forall|k: int| 0 <= k < out@.len() implies metadata_entries(*self.0).contains_key(#[trigger] out@[k]@)
                && !ends_with_bin(out@[k]@) by {
                assert(all@[idx[k]].1);
            }
            assert forall|k: int, m: int| 0 <= k < m < out@.len() implies #[trigger] out@[k]@ != #[trigger] out@[m]@ by {
                assert(idx[k] < idx[m]);
                assert(all@[idx[k]].0@ != all@[idx[m]].0@);
            }
        }
        out
    }
}

/// Writes W3C trace context headers (`traceparent`, `tracestate`) into the
/// metadata of a gRPC request.
pub struct GrpcMetadataInjector<'a>(pub &'a mut MetadataMap);

impl<'a> GrpcMetadataInjector<'a> {
    /// Stores `value` under `key`, replacing what the key held, where `key`
    /// names an ASCII metadata key and `value` may stand in metadata; does
    /// nothing otherwise.
    pub fn set(&mut self, key: &str, value: String)
        requires
            !injection_may_overflow(metadata_entries(*old(self).0), key@, value@),
        ensures
            metadata_entries(*final(self).0) == injected(metadata_entries(*old(self).0), key@, value@),
            *final(final(self).0) == *final(old(self).0),
    {
        if let Some(metadata_value) = parse_metadata_value(value.as_str()) {
            if let Some(key_name) = parse_metadata_key(key) {
                metadata_insert(self.0, key_name, metadata_value);
            }
        }
    }

    /// The metadata that the injector writes into, as it now stands.
    pub open spec fn metadata(&self) -> MetadataMap {
        *self.0
    }

    /// The number of distinct keys the metadata holds; `set` requires it to be
    /// below `SAFE_INSERT_KEYS` for a write that stores a value.
    pub fn keys_len(&self) -> (r: usize)
        ensures
            r == metadata_entries(self.metadata()).dom().len(),
    {
        metadata_keys_len(self.0)
    }

    /// `set`, where it cannot panic: where the write would store a value
    /// into metadata that holds `SAFE_INSERT_KEYS` keys or more, the metadata
    /// is left as it is instead. Tells whether the write was carried out
    /// (which includes a write that stores nothing, for an invalid key or
    /// value).
    pub fn try_set(&mut self, key: &str, value: String) -> (ran: bool)
        ensures
            ran == !injection_may_overflow(metadata_entries(*old(self).0), key@, value@),
            metadata_entries(*old(self).0).dom().len() < SAFE_INSERT_KEYS ==> ran,
            ran ==> metadata_entries(*final(self).0) == injected(metadata_entries(*old(self).0), key@, value@),
            !ran ==> metadata_entries(*final(self).0) == metadata_entries(*old(self).0),
            *final(final(self).0) == *final(old(self).0),
    {
        if let Some(metadata_value) = parse_metadata_value(value.as_str()) {
            if let Some(key_name) = parse_metadata_key(key) {
                if metadata_keys_len(self.0) < SAFE_INSERT_KEYS {
                    metadata_insert(self.0, key_name, metadata_value);
                } else {
                    return false;
                }
            }
        }
        true
    }
}

/// Whether a text is stored as itself and read back as itself: every
/// character of it is visible ASCII or a tab.
pub open spec fn is_visible_text(value: Seq<char>) -> bool {
    forall|i: int| 0 <= i < value.len() ==> #[trigger] is_visible_ascii_char(value[i])
}

/// A visible ASCII character, or a tab.
pub open spec fn is_visible_ascii_char(c: char) -> bool {
    (' ' <= c && c <= '~') || c == '\t'
}

/// What an injector writes, an extractor reads back: after `value` is set
/// under `key`, reading any key that names the same metadata key (in any
/// letter case) gives `value`, where `key` names an ASCII metadata key and
/// `value` is visible ASCII text.
pub proof fn lemma_get_after_set(
    entries: Map<Seq<char>, Seq<Seq<u8>>>,
    key: Seq<char>,
    value: Seq<char>,
    read_key: Seq<char>,
)
    requires
        ascii_metadata_key(key) is Some,
        lookup_name(read_key) == ascii_metadata_key(key),
        is_visible_text(value),
    ensures
        extracted(injected(entries, key, value), read_key) == Some(value),
{
    assert forall|i: int| 0 <= i < value.len() implies '\0' <= #[trigger] value[i] <= '\u{7f}' by {
        assert(is_visible_ascii_char(value[i]));
    }
    assert(vstd::utf8::is_ascii_chars(value));
    vstd::utf8::is_ascii_chars_encode_utf8(value);
    let bytes = vstd::utf8::encode_utf8(value);
    assert forall|i: int| 0 <= i < value.len() implies #[trigger] is_value_char(value[i]) by {
        assert(is_visible_ascii_char(value[i]));
    }
    assert forall|i: int| 0 <= i < bytes.len() implies #[trigger] is_visible_ascii(bytes[i]) by {
        assert(is_visible_ascii_char(value[i]));
        assert(value[i] as u8 == bytes[i]);
    }
    let read = bytes.map_values(|b: u8| b as char);
    assert(read =~= value) by {
        assert forall|i: int| 0 <= i < value.len() implies read[i] == #[trigger] value[i] by {
            assert(is_visible_ascii_char(value[i]));
            assert(value[i] as u8 == bytes[i]);
        }
    }
}

/// Writing one key leaves every other key as it reads: after `value` is set
/// under `key`, reading a key that names another metadata key gives what it
/// gave before.
pub proof fn lemma_set_keeps_other_keys(
    entries: Map<Seq<char>, Seq<Seq<u8>>>,
    key: Seq<char>,
    value: Seq<char>,
    read_key: Seq<char>,
)
    requires
        lookup_name(read_key) != ascii_metadata_key(key),
    ensures
        extracted(injected(entries, key, value), read_key) == extracted(entries, read_key),
{
}

/// A key that is set is listed: after `value` is set under a key that names
/// an ASCII metadata key, the metadata holds that key, and as an ASCII key.
pub proof fn lemma_set_key_is_listed(entries: Map<Seq<char>, Seq<Seq<u8>>>, key: Seq<char>, value: Seq<char>)
    requires
        ascii_metadata_key(key) is Some,
        is_value_text(value),
    ensures
        injected(entries, key, value).contains_key(ascii_metadata_key(key)->0),
        !ends_with_bin(ascii_metadata_key(key)->0),
{
}

/// A write replaces what its key held and nothing else: after `value` is set
/// under a key that names an ASCII metadata key, that key holds the value's
/// bytes alone, however many values it held before, and every other key
/// holds exactly the values it held.
pub proof fn lemma_set_replaces_only_its_key(entries: Map<Seq<char>, Seq<Seq<u8>>>, key: Seq<char>, value: Seq<char>)
    requires
        ascii_metadata_key(key) is Some,
        is_value_text(value),
    ensures
        injected(entries, key, value)[ascii_metadata_key(key)->0] == seq![vstd::utf8::encode_utf8(value)],
        forall|other: Seq<char>| other != ascii_metadata_key(key)->0 ==> (#[trigger] injected(entries, key, value).contains_key(other)
            == entries.contains_key(other) && injected(entries, key, value)[other] == entries[other]),
{
}

/// A write is refused only for its size: a write into metadata holding fewer
/// than `SAFE_INSERT_KEYS` keys is always carried out, and a refused write is
/// one of a valid key and value into metadata that holds at least that many.
pub proof fn lemma_try_set_refuses_only_full_metadata(entries: Map<Seq<char>, Seq<Seq<u8>>>, key: Seq<char>, value: Seq<char>)
    ensures
        entries.dom().len() < SAFE_INSERT_KEYS ==> !injection_may_overflow(entries, key, value),
        injection_may_overflow(entries, key, value) ==> (ascii_metadata_key(key) is Some && is_value_text(value)
            && entries.dom().len() >= SAFE_INSERT_KEYS),
        ascii_metadata_key(key) is None ==> !injection_may_overflow(entries, key, value),
        !is_value_text(value) ==> !injection_may_overflow(entries, key, value),
{
}

/// A write that cannot be stored changes nothing: where the key names no
/// ASCII metadata key, or the value holds a character that metadata cannot,
/// the metadata is left as it was.
pub proof fn lemma_invalid_set_changes_nothing(entries: Map<Seq<char>, Seq<Seq<u8>>>, key: Seq<char>, value: Seq<char>)
    requires
        ascii_metadata_key(key) is None || !is_value_text(value),
    ensures
        injected(entries, key, value) == entries,
{
}

/// Binary keys are never read as text: reading a key that ends with `-bin`
/// gives nothing, whatever the metadata holds.
pub proof fn lemma_binary_keys_not_extracted(entries: Map<Seq<char>, Seq<Seq<u8>>>, key: Seq<char>)
    requires
        ends_with_bin(key),
    ensures
        extracted(entries, key) is None,
{
}

/// Bytes that are all visible ASCII are valid UTF-8 and decode to the
/// characters of the same codes.
proof fn lemma_ascii_bytes_decode(bytes: Seq<u8>)
    requires
        forall|i: int| 0 <= i < bytes.len() ==> #[trigger] is_visible_ascii(bytes[i]),
    ensures
        vstd::utf8::valid_utf8(bytes),
        vstd::utf8::decode_utf8(bytes) == bytes.map_values(|b: u8| b as char),
{
    let chars = bytes.map_values(|b: u8| b as char);
    assert forall|i: int| 0 <= i < chars.len() implies '\0' <= #[trigger] chars[i] <= '\u{7f}' by {
        assert(is_visible_ascii(bytes[i]));
        assert(chars[i] == bytes[i] as char);
    }
    assert(vstd::utf8::is_ascii_chars(chars));
    vstd::utf8::is_ascii_chars_encode_utf8(chars);
    assert(vstd::utf8::encode_utf8(chars) =~= bytes);
    vstd::utf8::encode_utf8_valid_utf8(chars);
    vstd::utf8::encode_utf8_decode_utf8(chars);
}

} // verus!
