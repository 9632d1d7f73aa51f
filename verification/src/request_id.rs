//! Correlation identifiers: issuing one per request and putting it on the
//! response.

use vstd::prelude::*;
use vstd::string::*;
use crate::headers::{
    chars_ok_from, has_header, has_room, header_count, insert_text, is_header_name,
    is_header_value, is_value_char, lemma_chars_ok_from, room_in, HEADER_LIMIT,
};
use crate::response::Response;

verus! {

/// The name of the response header that carries the identifier.
pub const REQUEST_ID_HEADER_NAME: &'static str = "request-id";

/// The header's name as a sequence of characters.
pub open spec fn request_id_header() -> Seq<char> {
    "request-id"@
}

/// Identifies a request.
#[derive(Clone, Debug, Eq, Hash, PartialEq)]
pub struct RequestId(pub String);

impl View for RequestId {
    type V = Seq<char>;

    open spec fn view(&self) -> Seq<char> {
        self.0@
    }
}

/// Sets a request ID in the local context and as a response header.
#[derive(Debug, Default)]
pub struct RequestIdMiddleware;

/// What `RequestIdMiddleware::tag` did to a response.
#[derive(Clone, Copy, Debug, PartialEq, Eq, Structural)]
pub enum Tagging {
    /// The identifier was set as the response's header.
    Tagged,
    /// The response already carried an identifier from upstream; it stays.
    Kept,
    /// The identifier is no header value; the response stays as it was.
    Rejected,
    /// The response has no room for another header; it stays as it was.
    Full,
}

/// A lower-case hexadecimal digit.
pub open spec fn is_lower_hex(c: char) -> bool {
    ('0' <= c && c <= '9') || ('a' <= c && c <= 'f')
}

/// The hyphenated lower-case form of a random (version 4) UUID: 36
/// characters, hyphens after the 8th, 12th, 16th and 20th digit, and `4` as
/// the 13th digit.
pub open spec fn is_uuid_text(s: Seq<char>) -> bool {
    &&& s.len() == 36
    &&& forall|i: int|
        0 <= i < 36 ==> if i == 8 || i == 13 || i == 18 || i == 23 {
            #[trigger] s[i] == '-'
        } else {
            is_lower_hex(s[i])
        }
    &&& s[14] == '4'
}

/// The headers of a response after tagging with `id`: an identifier that is
/// already there stays; otherwise `id` is set, if it can be a header value.
pub open spec fn tagged_fields(fields: Map<Seq<char>, Seq<char>>, id: Seq<char>) -> Map<Seq<char>, Seq<char>> {
    if fields.contains_key(request_id_header()) || !is_header_value(id) {
        fields
    } else {
        fields.insert(request_id_header(), id)
    }
}

/// What tagging with `id` does to a response with these headers.
pub open spec fn tagging_of(fields: Map<Seq<char>, Seq<char>>, id: Seq<char>) -> Tagging {
    if fields.contains_key(request_id_header()) {
        Tagging::Kept
    } else if is_header_value(id) {
        Tagging::Tagged
    } else {
        Tagging::Rejected
    }
}

/// The headers of a response after `try_tag`: as after tagging, but a
/// response without an identifier and without room stays as it is.
pub open spec fn try_tagged_fields(fields: Map<Seq<char>, Seq<char>>, id: Seq<char>) -> Map<Seq<char>, Seq<char>> {
    if fields.contains_key(request_id_header()) || room_in(fields) {
        tagged_fields(fields, id)
    } else {
        fields
    }
}

/// What `try_tag` does to a response with these headers.
pub open spec fn try_tagging_of(fields: Map<Seq<char>, Seq<char>>, id: Seq<char>) -> Tagging {
    if fields.contains_key(request_id_header()) || room_in(fields) {
        tagging_of(fields, id)
    } else {
        Tagging::Full
    }
}

/// Calls `uuid::Uuid::new_v4` and renders the result with its `Display`,
/// which writes the hyphenated lower-case form. The value is random; the
/// contract states the form only.
#[verifier::external_body]
fn fresh_uuid_text() -> (text: String)
    ensures
        is_uuid_text(text@),
{
    uuid::Uuid::new_v4().to_string()
}

/// Every identifier in UUID form can be a header value.
pub proof fn lemma_uuid_text_is_header_value(s: Seq<char>)
    requires
        is_uuid_text(s),
    ensures
        is_header_value(s),
{
    assert forall|i: int| 0 <= i < s.len() implies is_value_char(#[trigger] s[i]) by {
        if i == 8 || i == 13 || i == 18 || i == 23 {
            assert(s[i] == '-');
        } else {
            assert(is_lower_hex(s[i]));
        }
    }
}

/// An issued identifier always reaches the response: tagging a response
/// that carries none with an identifier in UUID form sets it.
pub proof fn lemma_issued_id_is_set(fields: Map<Seq<char>, Seq<char>>, id: Seq<char>)
    requires
        is_uuid_text(id),
        !fields.contains_key(request_id_header()),
    ensures
        tagging_of(fields, id) == Tagging::Tagged,
        tagged_fields(fields, id) == fields.insert(request_id_header(), id),
{
    lemma_uuid_text_is_header_value(id);
}

/// The header's name is one that the header collection takes.
pub proof fn lemma_request_id_header_name()
    ensures
        is_header_name(request_id_header()),
        REQUEST_ID_HEADER_NAME@ == request_id_header(),
{
    reveal_strlit("request-id");
    reveal_with_fuel(chars_ok_from, 12);
    assert(chars_ok_from(request_id_header(), 0, true));
    lemma_chars_ok_from(request_id_header(), 0, true);
}

impl RequestIdMiddleware {
    /// Issues the identifier of one request. Each call draws a new random
    /// value; it has the UUID form and so can be sent as a header.
    pub fn issue(&self) -> (id: RequestId)
        ensures
            is_uuid_text(id@),
            is_header_value(id@),
    {
        let text = fresh_uuid_text();
        proof {
            lemma_uuid_text_is_header_value(text@);
        }
        RequestId(text)
    }

    /// Puts `id` on the response as its `request-id` header, unless the
    /// response already carries one. Status and body stay as they are, and
    /// at most one name is added.
    pub fn tag(&self, id: &RequestId, res: &mut Response) -> (outcome: Tagging)
        requires
            old(res).fields().contains_key(request_id_header()) || has_room(old(res).headers),
        ensures
            final(res).status == old(res).status,
            final(res).body == old(res).body,
            final(res).fields() == tagged_fields(old(res).fields(), id@),
            outcome == tagging_of(old(res).fields(), id@),
            old(res).fields().dom().finite() ==> final(res).fields().dom().finite(),
            old(res).fields().dom().finite() ==> final(res).fields().dom().len() <= old(
                res,
            ).fields().dom().len() + 1,
    {
        proof {
            lemma_request_id_header_name();
        }
        if has_header(&res.headers, REQUEST_ID_HEADER_NAME) {
            Tagging::Kept
        } else if insert_text(&mut res.headers, REQUEST_ID_HEADER_NAME, id.0.as_str()) {
            Tagging::Tagged
        } else {
            Tagging::Rejected
        }
    }

    /// Tags any response: counts the names first, and where the response
    /// carries no identifier and has no room for one, leaves it as it is and
    /// says `Full`.
    pub fn try_tag(&self, id: &RequestId, res: &mut Response) -> (outcome: Tagging)
        ensures
            final(res).status == old(res).status,
            final(res).body == old(res).body,
            final(res).fields() == try_tagged_fields(old(res).fields(), id@),
            outcome == try_tagging_of(old(res).fields(), id@),
            final(res).fields().dom().finite(),
            final(res).fields().dom().len() <= old(res).fields().dom().len() + 1,
    {
        proof {
            lemma_request_id_header_name();
        }
        let count = header_count(&res.headers);
        if count < HEADER_LIMIT || has_header(&res.headers, REQUEST_ID_HEADER_NAME) {
            self.tag(id, res)
        } else {
            Tagging::Full
        }
    }
}

} // verus!
