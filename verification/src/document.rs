//! JSON documents as they travel in a datagram.
//!
//! The protocol's envelopes are flat JSON objects whose members are strings.
//! Verified code sees a `json::JsonValue` through `json_entries`, the members
//! of the object in their order, and through `json_members`, the map from
//! each key to the text of its member.

use vstd::prelude::*;
use vstd::utf8::{decode_utf8, encode_utf8, valid_utf8};

verus! {

broadcast use {
    vstd::utf8::encode_utf8_valid_utf8,
    vstd::utf8::encode_utf8_decode_utf8,
    vstd::utf8::decode_utf8_encode_utf8,
};

/// The largest datagram that the protocol carries, in bytes.
pub const MAX_DATAGRAM: usize = 1024;

/// `json::JsonValue`. Verified code does not look inside a value; it knows
/// of one what `json_entries` and `json_is_object` say.
#[verifier::external_type_specification]
#[verifier::external_body]
pub struct ExJsonValue(json::JsonValue);

/// A member of a JSON object as the protocol reads it: the key, and the text
/// of the member if it is a JSON string, `None` if it is anything else.
pub type Entry = (Seq<char>, Option<Seq<char>>);

/// The members of a JSON object by key.
pub type Members = Map<Seq<char>, Option<Seq<char>>>;

/// The members of a JSON value, in the order in which the json crate keeps
/// and writes them: the order in which their keys first came in. A value that
/// is not an object has none.
pub uninterp spec fn json_entries(value: json::JsonValue) -> Seq<Entry>;

/// Whether a JSON value is an object.
pub uninterp spec fn json_is_object(value: json::JsonValue) -> bool;

/// What `json::parse` makes of a text: the members of the value it reads, or
/// `None` where the text is not JSON.
pub uninterp spec fn json_parse(text: Seq<char>) -> Option<Seq<Entry>>;

/// What `JsonValue::dump` writes for an object with the given members, all
/// of them strings.
pub uninterp spec fn json_text(entries: Seq<Entry>) -> Seq<char>;

/// The members by key. Where a key comes twice, the later member counts.
pub open spec fn members_of(entries: Seq<Entry>) -> Members
    decreases entries.len(),
{
    if entries.len() == 0 {
        Members::empty()
    } else {
        members_of(entries.drop_last()).insert(entries.last().0, entries.last().1)
    }
}

/// The members of a JSON value by key.
pub open spec fn json_members(value: json::JsonValue) -> Members {
    members_of(json_entries(value))
}

/// Whether every member is a string.
pub open spec fn all_text(entries: Seq<Entry>) -> bool {
    forall|i: int| 0 <= i < entries.len() ==> (#[trigger] entries[i]).1 is Some
}

/// The datagram that an object with the given members is written as.
pub open spec fn datagram_of(entries: Seq<Entry>) -> Seq<u8> {
    encode_utf8(json_text(entries))
}

/// What a datagram holds, read as JSON: the members of the value, or `None`
/// where the datagram is longer than the protocol allows, is not UTF-8 or is
/// not JSON.
pub open spec fn datagram_entries(bytes: Seq<u8>) -> Option<Seq<Entry>> {
    if bytes.len() <= MAX_DATAGRAM && valid_utf8(bytes) {
        json_parse(decode_utf8(bytes))
    } else {
        None
    }
}

/// What a datagram holds, by key.
pub open spec fn datagram_members(bytes: Seq<u8>) -> Option<Members> {
    match datagram_entries(bytes) {
        Some(entries) => Some(members_of(entries)),
        None => None,
    }
}

/// Whether the text that an object with the given members is written as
/// parses back to the members. The json crate sees to this for every object
/// of strings that it writes.
pub open spec fn entries_read_back(entries: Seq<Entry>) -> bool {
    json_parse(json_text(entries)) == Some(entries)
}

/// A datagram that an object is written as, if it is no longer than the
/// protocol allows, reads as the members of the object.
pub proof fn lemma_datagram_round_trip(entries: Seq<Entry>)
    requires
        entries_read_back(entries),
        datagram_of(entries).len() <= MAX_DATAGRAM,
    ensures
        datagram_entries(datagram_of(entries)) == Some(entries),
{
}

/// One more member at the end is one more key in the map.
pub proof fn lemma_members_of_push(entries: Seq<Entry>, key: Seq<char>, text: Option<Seq<char>>)
    ensures
        members_of(entries.push((key, text))) == members_of(entries).insert(key, text),
{
    assert(entries.push((key, text)).drop_last() =~= entries);
}

/// `JsonValue::new_object`: an object without members.
#[verifier::external_body]
pub(crate) fn new_object() -> (value: json::JsonValue)
    ensures
        json_is_object(value),
        json_entries(value) == Seq::<Entry>::empty(),
{
    json::JsonValue::new_object()
}

/// `JsonValue::has_key`: whether the value is an object with a member under
/// `key`.
#[verifier::external_body]
pub(crate) fn has_member(value: &json::JsonValue, key: &str) -> (present: bool)
    ensures
        present == json_members(*value).contains_key(key@),
{
    value.has_key(key)
}

/// Indexing a `JsonValue` by `key`, then `JsonValue::as_str`: the text of the
/// member under `key` where there is one and it is a string.
#[verifier::external_body]
pub(crate) fn member_text(value: &json::JsonValue, key: &str) -> (text: Option<String>)
    ensures
        match text {
            Some(t) => json_members(*value).contains_key(key@) && json_members(*value)[key@]
                == Some(t@),
            None => !json_members(*value).contains_key(key@) || json_members(*value)[key@]
                is None,
        },
{
    match value[key].as_str() {
        Some(text) => Some(text.to_string()),
        None => None,
    }
}

/// Assigning a string to a `JsonValue` indexed by a key that it does not
/// hold yet: the value becomes an object if it was none, and gets one more
/// member, the string `text` under `key`, after those that it had.
#[verifier::external_body]
pub(crate) fn set_member(value: &mut json::JsonValue, key: &str, text: &str)
    requires
        !json_members(*old(value)).contains_key(key@),
    ensures
        json_is_object(*final(value)),
        json_entries(*final(value)) == json_entries(*old(value)).push((key@, Some(text@))),
{
    value[key] = json::JsonValue::from(text);
}

/// `json::parse`. The json crate reads a text in one pass and keeps no state,
/// so the result depends on the text alone. The bound keeps the text far
/// below the length at which the parser's digit counters could overflow.
#[verifier::external_body]
pub(crate) fn parse_document(text: &str) -> (parsed: Option<json::JsonValue>)
    requires
        encode_utf8(text@).len() <= MAX_DATAGRAM,
    ensures
        match parsed {
            Some(value) => json_parse(text@) == Some(json_entries(value)),
            None => json_parse(text@) is None,
        },
{
    json::parse(text).ok()
}

/// `JsonValue::dump`. For an object whose members are all strings, the text
/// depends on the keys and strings in their order alone: the json crate
/// writes each between quotes, with the escapes that its parser undoes, so
/// parsing the text gives the same members in the same order.
#[verifier::external_body]
pub(crate) fn dump_document(value: &json::JsonValue) -> (text: String)
    ensures
        json_is_object(*value) && all_text(json_entries(*value)) ==> text@ == json_text(
            json_entries(*value),
        ) && json_parse(text@) == Some(json_entries(*value)),
{
    value.dump()
}

/// `core::str::from_utf8`: the bytes as text where they are UTF-8.
#[verifier::external_body]
pub(crate) fn text_of_bytes(bytes: &[u8]) -> (text: Option<&str>)
    ensures
        match text {
            Some(t) => valid_utf8(bytes@) && t@ == decode_utf8(bytes@),
            None => !valid_utf8(bytes@),
        },
{
    core::str::from_utf8(bytes).ok()
}

/// Reads a datagram as a JSON document.
pub fn read_datagram(bytes: &[u8]) -> (document: Option<json::JsonValue>)
    ensures
        match document {
            Some(value) => datagram_entries(bytes@) == Some(json_entries(value)),
            None => datagram_entries(bytes@) is None,
        },
{
    if bytes.len() > MAX_DATAGRAM {
        return None;
    }
    match text_of_bytes(bytes) {
        Some(text) => parse_document(text),
        None => None,
    }
}

/// Writes a JSON document as the bytes of a datagram. For an object of
/// strings the bytes are `datagram_of` its members, and the members read
/// back: where the bytes fit in a datagram, `read_datagram` gives a document
/// with the same members.
pub fn write_datagram(document: &json::JsonValue) -> (bytes: Vec<u8>)
    ensures
        json_is_object(*document) && all_text(json_entries(*document)) ==> {
            &&& bytes@ == datagram_of(json_entries(*document))
            &&& entries_read_back(json_entries(*document))
        },
{
    let text = dump_document(document);
    text.as_str().as_bytes_vec()
}

} // verus!
