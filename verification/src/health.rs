//! The health endpoint.

use vstd::prelude::*;
use vstd::string::*;
use crate::headers::{has_room, insert_static, lemma_fixed_texts, no_fields};
use crate::response::Response;

verus! {

/// The headers of an answer that must never be cached and whose body is
/// JSON.
pub open spec fn uncached_json_fields() -> Map<Seq<char>, Seq<char>> {
    no_fields().insert("cache-control"@, "no-store, max-age=0, s-maxage=0"@).insert(
        "content-type"@,
        "application/json"@,
    )
}

/// A response with status 200, the given body and the headers of an
/// uncached JSON answer.
pub fn uncached_json(body: String) -> (res: Response)
    ensures
        res.status == 200,
        res.body@ == body@,
        res.fields() == uncached_json_fields(),
        res.fields()["cache-control"@] == "no-store, max-age=0, s-maxage=0"@,
        has_room(res.headers),
{
    proof {
        lemma_fixed_texts();
    }
    let mut res = Response::empty(200);
    insert_static(&mut res.headers, "cache-control", "no-store, max-age=0, s-maxage=0");
    insert_static(&mut res.headers, "content-type", "application/json");
    res.body = body;
    res
}

/// `res` is the answer of the health endpoint: 200 with the body
/// `{"status":"ok"}`, never cached.
pub open spec fn is_health_answer(res: Response) -> bool {
    &&& res.status == 200
    &&& res.body@ == "{\"status\":\"ok\"}"@
    &&& res.fields() == uncached_json_fields()
}

/// The answer of the health endpoint, the same at every call.
pub fn get() -> (res: Response)
    ensures
        is_health_answer(res),
        has_room(res.headers),
{
    uncached_json(String::from_str("{\"status\":\"ok\"}"))
}

/// Asking again changes nothing: any two answers of the health endpoint
/// have the same status, the same headers and the same body.
pub proof fn lemma_health_answers_agree(a: Response, b: Response)
    requires
        is_health_answer(a),
        is_health_answer(b),
    ensures
        a.status == b.status,
        a.body@ == b.body@,
        a.fields() == b.fields(),
{
}

} // verus!
