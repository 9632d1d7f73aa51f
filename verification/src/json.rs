//! JSON text, written by `serde_json`.

use vstd::prelude::*;

verus! {

/// `serde_json::Value`, any JSON value. Nothing of it is read here.
#[verifier::external_type_specification]
#[verifier::external_body]
pub struct ExJsonValue(serde_json::Value);

/// `serde_json::Map`, a JSON object, which keeps its keys in order. What
/// one holds is told by `json_members`.
#[verifier::external_type_specification]
#[verifier::external_body]
#[verifier::reject_recursive_types(K)]
#[verifier::reject_recursive_types(V)]
pub struct ExJsonMap<K, V>(serde_json::Map<K, V>);

/// The lower-case hexadecimal digit of `d`.
pub open spec fn hex_char(d: int) -> char {
    if d == 0 {
        '0'
    } else if d == 1 {
        '1'
    } else if d == 2 {
        '2'
    } else if d == 3 {
        '3'
    } else if d == 4 {
        '4'
    } else if d == 5 {
        '5'
    } else if d == 6 {
        '6'
    } else if d == 7 {
        '7'
    } else if d == 8 {
        '8'
    } else if d == 9 {
        '9'
    } else if d == 10 {
        'a'
    } else if d == 11 {
        'b'
    } else if d == 12 {
        'c'
    } else if d == 13 {
        'd'
    } else if d == 14 {
        'e'
    } else {
        'f'
    }
}

/// One character inside a JSON string: the quote and the backslash get a
/// backslash in front; backspace, tab, line feed, form feed and carriage
/// return get their letter; any other character below the space is written
/// as `\u00` and two hexadecimal digits; everything else stands for itself.
pub open spec fn escaped_char(c: char) -> Seq<char> {
    if c == '"' {
        seq!['\\', '"']
    } else if c == '\\' {
        seq!['\\', '\\']
    } else if c == '\u{8}' {
        seq!['\\', 'b']
    } else if c == '\t' {
        seq!['\\', 't']
    } else if c == '\n' {
        seq!['\\', 'n']
    } else if c == '\u{c}' {
        seq!['\\', 'f']
    } else if c == '\r' {
        seq!['\\', 'r']
    } else if ' ' > c {
        seq!['\\', 'u', '0', '0', hex_char(c as int / 16), hex_char(c as int % 16)]
    } else {
        seq![c]
    }
}

/// The characters of `s`, each as it stands inside a JSON string.
pub open spec fn escaped(s: Seq<char>) -> Seq<char>
    decreases s.len(),
{
    if s.len() == 0 {
        Seq::empty()
    } else {
        escaped(s.drop_last()) + escaped_char(s.last())
    }
}

/// The JSON string literal for `s`: its escaped characters between two
/// quotes.
pub open spec fn json_string_text(s: Seq<char>) -> Seq<char> {
    seq!['"'] + escaped(s) + seq!['"']
}

/// What a JSON object holds: for each key the compact JSON text of its
/// value.
pub uninterp spec fn json_members(m: serde_json::Map<String, serde_json::Value>) -> Map<Seq<char>, Seq<char>>;

/// The compact JSON text of the object with these members, as
/// `serde_json::to_string` writes it: the members in the order of their keys.
pub uninterp spec fn json_object_text(members: Map<Seq<char>, Seq<char>>) -> Seq<char>;

/// An object without members.
pub open spec fn no_members() -> Map<Seq<char>, Seq<char>> {
    Map::empty()
}

/// Calls `serde_json::to_string` on a string slice, which writes the text
/// between quotes and escapes it by the table that `escaped_char` states.
/// Serialising text into memory has no way to fail: the call returns `Ok`
/// for every input.
#[verifier::external_body]
pub(crate) fn json_string(s: &str) -> (text: String)
    ensures
        text@ == json_string_text(s@),
{
    serde_json::to_string(s).unwrap_or_default()
}

/// Calls `serde_json::Map::new`.
#[verifier::external_body]
pub(crate) fn new_json_map() -> (made: serde_json::Map<String, serde_json::Value>)
    ensures
        json_members(made) == no_members(),
{
    serde_json::Map::new()
}

/// Calls `serde_json::Map::insert` with the value as a JSON string: the key
/// then has this value, whatever it had before, and every other key has what
/// it had.
#[verifier::external_body]
pub(crate) fn insert_json_string(
    m: &mut serde_json::Map<String, serde_json::Value>,
    key: String,
    value: String,
)
    ensures
        json_members(*final(m)) == json_members(*old(m)).insert(key@, json_string_text(value@)),
{
    m.insert(key, serde_json::Value::String(value));
}

/// Calls `serde_json::to_string` on an object. With text keys and JSON
/// values as members the call returns `Ok` for every input.
#[verifier::external_body]
pub(crate) fn json_object(m: &serde_json::Map<String, serde_json::Value>) -> (text: String)
    ensures
        text@ == json_object_text(json_members(*m)),
{
    serde_json::to_string(m).unwrap_or_default()
}

} // verus!
