//! The environment endpoint.

use vstd::prelude::*;
use crate::headers::{has_room, insert_static, lemma_fixed_texts, no_fields};
use crate::json::{
    insert_json_string, json_members, json_object, json_object_text, json_string_text,
    new_json_map, no_members,
};
use crate::response::Response;

verus! {

/// The members of the object that reports these variables: each name with
/// its value as a JSON string. Of two entries with one name the later counts.
pub open spec fn env_members(vars: Seq<(Seq<char>, Seq<char>)>) -> Map<Seq<char>, Seq<char>>
    decreases vars.len(),
{
    if vars.len() == 0 {
        no_members()
    } else {
        env_members(vars.drop_last()).insert(vars.last().0, json_string_text(vars.last().1))
    }
}

/// The headers of the environment endpoint's answer.
pub open spec fn env_fields() -> Map<Seq<char>, Seq<char>> {
    no_fields().insert("content-type"@, "application/json"@)
}

/// The answer with the given JSON text as its body: 200, marked as JSON.
pub fn json_answer(body: String) -> (res: Response)
    ensures
        res.status == 200,
        res.body@ == body@,
        res.fields() == env_fields(),
        has_room(res.headers),
{
    proof {
        lemma_fixed_texts();
    }
    let mut res = Response::empty(200);
    insert_static(&mut res.headers, "content-type", "application/json");
    res.body = body;
    res
}

/// The answer of the environment endpoint for a snapshot of the process's
/// variables: 200 and a JSON object with one member per variable.
pub fn get(vars: &Vec<(String, String)>) -> (res: Response)
    ensures
        res.status == 200,
        res.body@ == json_object_text(env_members(vars.deep_view())),
        res.fields() == env_fields(),
        has_room(res.headers),
{
    let mut body = new_json_map();
    let mut i: usize = 0;
    while i < vars.len()
        invariant
            i <= vars.len(),
            json_members(body) == env_members(vars.deep_view().take(i as int)),
        decreases vars.len() - i,
    {
        let ghost before = vars.deep_view().take(i as int);
        let ghost after = vars.deep_view().take(i + 1);
        assert(after.drop_last() =~= before);
        assert(after.last() == (vars[i as int].0@, vars[i as int].1@));
        insert_json_string(&mut body, vars[i].0.clone(), vars[i].1.clone());
        i = i + 1;
    }
    assert(vars.deep_view().take(i as int) =~= vars.deep_view());
    json_answer(json_object(&body))
}

} // verus!
