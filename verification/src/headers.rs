//! Header collections of the `http` crate, and the rules for header names
//! and values, as far as the pipeline relies on them.

use vstd::prelude::*;
use vstd::string::*;

verus! {

/// `http::HeaderValue`, the value of one header. Nothing of it is read here.
#[verifier::external_type_specification]
#[verifier::external_body]
pub struct ExHeaderValue(http::HeaderValue);

/// `http::HeaderMap`, the header collection. What one holds is told by
/// `header_fields`.
#[verifier::external_type_specification]
#[verifier::external_body]
#[verifier::reject_recursive_types(T)]
pub struct ExHeaderMap<T>(http::HeaderMap<T>);

/// What a header collection holds: for each header name in it (lower-case
/// text) the value that `HeaderMap::get` finds under that name, its bytes
/// read as UTF-8.
pub uninterp spec fn header_fields(m: http::HeaderMap) -> Map<Seq<char>, Seq<char>>;

/// The fields of a collection that holds nothing.
pub open spec fn no_fields() -> Map<Seq<char>, Seq<char>> {
    Map::empty()
}

/// The number of distinct names below which this library adds a header to a
/// collection. `HeaderMap::insert` panics when its table would grow beyond
/// 32768 slots, and the table may double while it is only a fifth full; with
/// fewer names than this no growth comes near that size.
pub const HEADER_LIMIT: usize = 1024;

/// A character that may stand in a lower-case header name.
pub open spec fn is_name_char(c: char) -> bool {
    ||| ('a' <= c && c <= 'z')
    ||| ('0' <= c && c <= '9')
    ||| c == '!' || c == '#' || c == '$' || c == '%' || c == '&' || c == '\''
    ||| c == '*' || c == '+' || c == '-' || c == '.' || c == '^' || c == '_'
    ||| c == '`' || c == '|' || c == '~'
}

/// A character that `HeaderValue::from_str` lets through: a tab, or anything
/// from the space upwards but the delete character.
pub open spec fn is_value_char(c: char) -> bool {
    c == '\t' || (' ' <= c && c != '\x7f')
}

/// A character that `HeaderValue::from_static` lets through: a tab or
/// visible ASCII.
pub open spec fn is_static_value_char(c: char) -> bool {
    c == '\t' || (' ' <= c && c < '\x7f')
}

/// `s` is a header name in the form that `HeaderName::from_static` takes:
/// not empty, not over 65535 characters, lower-case token characters only.
pub open spec fn is_header_name(s: Seq<char>) -> bool {
    &&& 0 < s.len() <= 65535
    &&& forall|i: int| 0 <= i < s.len() ==> is_name_char(#[trigger] s[i])
}

/// `s` can be made a header value at run time.
pub open spec fn is_header_value(s: Seq<char>) -> bool {
    forall|i: int| 0 <= i < s.len() ==> is_value_char(#[trigger] s[i])
}

/// `s` can be made a header value from a literal.
pub open spec fn is_static_header_value(s: Seq<char>) -> bool {
    forall|i: int| 0 <= i < s.len() ==> is_static_value_char(#[trigger] s[i])
}

/// Fields of fewer names than the limit.
pub open spec fn room_in(fields: Map<Seq<char>, Seq<char>>) -> bool {
    fields.dom().finite() && fields.dom().len() < HEADER_LIMIT
}

/// The collection has room for one more name.
pub open spec fn has_room(m: http::HeaderMap) -> bool {
    room_in(header_fields(m))
}

/// Calls `http::HeaderMap::new`: the new collection holds nothing.
#[verifier::external_body]
pub(crate) fn new_header_map() -> (made: http::HeaderMap)
    ensures
        header_fields(made) == no_fields(),
{
    http::HeaderMap::new()
}

/// Calls `http::HeaderMap::insert` with a name made by
/// `HeaderName::from_static` and a value made by `HeaderValue::from_static`.
/// Both constructors panic on text outside their alphabets, and `insert`
/// panics on a full collection, so the contract leaves those out. Afterwards
/// the name has this one value, and every other name has what it had.
#[verifier::external_body]
pub(crate) fn insert_static(
    m: &mut http::HeaderMap,
    name: &'static str,
    value: &'static str,
)
    requires
        is_header_name(name@),
        is_static_header_value(value@),
        has_room(*old(m)),
    ensures
        header_fields(*final(m)) == header_fields(*old(m)).insert(name@, value@),
{
    m.insert(http::header::HeaderName::from_static(name), http::HeaderValue::from_static(value));
}

/// Calls `http::HeaderValue::from_str` and, where that accepts the text,
/// `http::HeaderMap::insert` under a name made by `HeaderName::from_static`.
/// `from_str` accepts exactly the texts whose bytes are a tab or at least 32
/// and not 127; a character beyond ASCII is encoded in bytes of 128 and more.
/// The result says whether the text was accepted; if not, the collection is
/// as it was.
#[verifier::external_body]
pub(crate) fn insert_text(
    m: &mut http::HeaderMap,
    name: &'static str,
    value: &str,
) -> (accepted: bool)
    requires
        is_header_name(name@),
        has_room(*old(m)),
    ensures
        accepted == is_header_value(value@),
        accepted ==> header_fields(*final(m)) == header_fields(*old(m)).insert(name@, value@),
        !accepted ==> header_fields(*final(m)) == header_fields(*old(m)),
{
    match http::HeaderValue::from_str(value) {
        Ok(v) => {
            m.insert(http::header::HeaderName::from_static(name), v);
            true
        },
        Err(_) => false,
    }
}

/// Calls `http::HeaderMap::contains_key` with the name as text.
#[verifier::external_body]
pub(crate) fn has_header(m: &http::HeaderMap, name: &'static str) -> (found: bool)
    requires
        is_header_name(name@),
    ensures
        found == header_fields(*m).contains_key(name@),
{
    m.contains_key(name)
}

/// The fields have exactly `count` names.
pub open spec fn has_names(fields: Map<Seq<char>, Seq<char>>, count: int) -> bool {
    fields.dom().finite() && fields.dom().len() == count
}

/// Calls `http::HeaderMap::keys_len`: the number of distinct names in the
/// collection.
#[verifier::external_body]
pub(crate) fn header_count(m: &http::HeaderMap) -> (count: usize)
    ensures
        has_names(header_fields(*m), count as int),
{
    m.keys_len()
}

/// Whether the characters of `s` from position `i` on are all name
/// characters (`names`) or all literal value characters (otherwise).
pub open spec fn chars_ok_from(s: Seq<char>, i: int, names: bool) -> bool
    decreases s.len() - i,
{
    if i < 0 || i >= s.len() {
        true
    } else {
        &&& if names { is_name_char(s[i]) } else { is_static_value_char(s[i]) }
        &&& chars_ok_from(s, i + 1, names)
    }
}

/// The recursive check covers every position from `i` on.
pub proof fn lemma_chars_ok_from(s: Seq<char>, i: int, names: bool)
    requires
        0 <= i,
        chars_ok_from(s, i, names),
    ensures
        forall|j: int| i <= j < s.len() ==> if names { is_name_char(#[trigger] s[j]) } else { is_static_value_char(s[j]) },
    decreases s.len() - i,
{
    if i < s.len() {
        lemma_chars_ok_from(s, i + 1, names);
    }
}

/// The header names and the fixed values that the handlers send are texts
/// that the header collection takes.
pub proof fn lemma_fixed_texts()
    ensures
        is_header_name("cache-control"@),
        is_header_name("last-modified"@),
        is_header_name("expires"@),
        is_header_name("content-type"@),
        is_static_header_value("application/json"@),
        is_static_header_value("no-store, max-age=0, s-maxage=0"@),
        is_static_header_value("public, max-age=21600, s-maxage=21600, must-revalidate"@),
        "cache-control"@ != "last-modified"@,
        "cache-control"@ != "expires"@,
        "cache-control"@ != "content-type"@,
        "last-modified"@ != "expires"@,
{
    reveal_strlit("cache-control");
    reveal_strlit("last-modified");
    reveal_strlit("expires");
    reveal_strlit("content-type");
    reveal_strlit("application/json");
    reveal_strlit("no-store, max-age=0, s-maxage=0");
    reveal_strlit("public, max-age=21600, s-maxage=21600, must-revalidate");
    reveal_with_fuel(chars_ok_from, 60);
    lemma_chars_ok_from("cache-control"@, 0, true);
    lemma_chars_ok_from("last-modified"@, 0, true);
    lemma_chars_ok_from("expires"@, 0, true);
    lemma_chars_ok_from("content-type"@, 0, true);
    lemma_chars_ok_from("application/json"@, 0, false);
    lemma_chars_ok_from("no-store, max-age=0, s-maxage=0"@, 0, false);
    lemma_chars_ok_from("public, max-age=21600, s-maxage=21600, must-revalidate"@, 0, false);
    assert("cache-control"@[0] != "last-modified"@[0]);
    assert("cache-control"@.len() != "expires"@.len());
    assert("cache-control"@.len() != "content-type"@.len());
    assert("last-modified"@.len() != "expires"@.len());
}

} // verus!
