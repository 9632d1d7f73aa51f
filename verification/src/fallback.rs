//! What is answered where no route matches.

use vstd::prelude::*;
use vstd::string::*;
use crate::headers::{
    has_room, insert_static, insert_text, is_header_value, is_static_header_value,
    lemma_fixed_texts, no_fields,
};
use crate::response::Response;

verus! {

/// The first second that `fmt_http_date` cannot write: the year 10000.
pub const HTTP_DATE_END: u64 = 253402300800;

/// For how many seconds an unmatched `GET` may be served from a cache before
/// it expires.
pub const EXPIRES_AFTER_SECS: u64 = 3600;

/// The IMF-fixdate text (`Fri, 15 May 2015 15:34:21 GMT`) of the moment
/// `secs` seconds after the Unix epoch, as `httpdate::fmt_http_date` writes
/// it.
pub uninterp spec fn http_date_text(secs: int) -> Seq<char>;

/// The method of a request, as far as the fallback tells methods apart.
#[derive(Clone, Copy, Debug, PartialEq, Eq, Structural)]
pub enum Method {
    Get,
    Head,
    Other,
}

/// Calls `httpdate::fmt_http_date` on the moment `secs` seconds after the
/// Unix epoch. The function panics from the year 10000 on. Its result is
/// the 29 characters of an IMF-fixdate, made of letters, digits, spaces, a
/// comma and colons.
#[verifier::external_body]
fn http_date(secs: u64) -> (text: String)
    requires
        secs < HTTP_DATE_END,
    ensures
        text@ == http_date_text(secs as int),
        text@.len() == 29,
        is_static_header_value(text@),
{
    httpdate::fmt_http_date(std::time::UNIX_EPOCH + std::time::Duration::from_secs(secs))
}

/// The headers of a not-found answer with these two dates.
pub open spec fn dated_fields(last_modified: Seq<char>, expires: Seq<char>) -> Map<Seq<char>, Seq<char>> {
    no_fields().insert(
        "cache-control"@,
        "public, max-age=21600, s-maxage=21600, must-revalidate"@,
    ).insert("last-modified"@, last_modified).insert("expires"@, expires)
}

/// The headers of the answer to an unmatched `GET` at second `now`: last
/// modified then, expiring one hour later.
pub open spec fn not_found_fields(now: int) -> Map<Seq<char>, Seq<char>> {
    dated_fields(http_date_text(now), http_date_text(now + EXPIRES_AFTER_SECS))
}

/// The not-found answer with the two dates as they are given: 404 without a
/// body, cacheable for six hours.
pub fn not_found_dated(last_modified: &str, expires: &str) -> (res: Response)
    requires
        is_header_value(last_modified@),
        is_header_value(expires@),
    ensures
        res.status == 404,
        res.body@ == Seq::<char>::empty(),
        res.fields() == dated_fields(last_modified@, expires@),
        has_room(res.headers),
{
    proof {
        lemma_fixed_texts();
    }
    let mut res = Response::empty(404);
    insert_static(
        &mut res.headers,
        "cache-control",
        "public, max-age=21600, s-maxage=21600, must-revalidate",
    );
    let _ = insert_text(&mut res.headers, "last-modified", last_modified);
    let _ = insert_text(&mut res.headers, "expires", expires);
    res
}

/// The answer to an unmatched `GET`: 404 without a body, cacheable for six
/// hours, last modified at `now_secs` (seconds since the Unix epoch) and
/// expiring one hour later.
pub fn get_not_found(now_secs: u64) -> (res: Response)
    requires
        now_secs + EXPIRES_AFTER_SECS < HTTP_DATE_END,
    ensures
        res.status == 404,
        res.body@ == Seq::<char>::empty(),
        res.fields() == not_found_fields(now_secs as int),
        res.fields()["cache-control"@] == "public, max-age=21600, s-maxage=21600, must-revalidate"@,
        res.fields()["last-modified"@] == http_date_text(now_secs as int),
        res.fields()["expires"@] == http_date_text(now_secs + 3600),
        has_room(res.headers),
{
    proof {
        lemma_fixed_texts();
    }
    let last_modified = http_date(now_secs);
    let expires = http_date(now_secs + EXPIRES_AFTER_SECS);
    not_found_dated(last_modified.as_str(), expires.as_str())
}

/// The answer to any other method on an unmatched route: 405, no header, no
/// body.
pub fn any_method_not_allowed() -> (res: Response)
    ensures
        res.status == 405,
        res.body@ == Seq::<char>::empty(),
        res.fields() == no_fields(),
        has_room(res.headers),
{
    Response::empty(405)
}

/// The fallback's answer by method: `GET` and `HEAD` are not found, anything
/// else is not allowed.
pub fn respond(method: Method, now_secs: u64) -> (res: Response)
    requires
        now_secs + EXPIRES_AFTER_SECS < HTTP_DATE_END,
    ensures
        res.body@ == Seq::<char>::empty(),
        method == Method::Other ==> res.status == 405 && res.fields() == no_fields(),
        method != Method::Other ==> res.status == 404 && res.fields() == not_found_fields(
            now_secs as int,
        ),
        has_room(res.headers),
{
    match method {
        Method::Get | Method::Head => get_not_found(now_secs),
        Method::Other => any_method_not_allowed(),
    }
}

} // verus!
