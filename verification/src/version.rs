//! The version endpoint.

use vstd::prelude::*;
use vstd::string::*;
use crate::headers::has_room;
use crate::health::{uncached_json, uncached_json_fields};
use crate::json::{json_string, json_string_text};
use crate::response::Response;

verus! {

/// The body of the version endpoint.
#[derive(Debug)]
pub struct VersionResponse {
    pub commit: String,
}

/// The commit that is reported: the configured one, or the empty text.
pub open spec fn commit_text(source_commit: Option<String>) -> Seq<char> {
    match source_commit {
        Some(commit) => commit@,
        None => Seq::empty(),
    }
}

/// The JSON object whose one member `commit` has the given JSON text as its
/// value.
pub open spec fn framed(commit_json: Seq<char>) -> Seq<char> {
    "{\"commit\":"@ + commit_json + "}"@
}

/// The JSON object with the one member `commit`, a string.
pub open spec fn version_body(commit: Seq<char>) -> Seq<char> {
    framed(json_string_text(commit))
}

impl VersionResponse {
    /// The body for the configured commit, if there is one.
    pub fn new(source_commit: Option<String>) -> (body: VersionResponse)
        ensures
            body.commit@ == commit_text(source_commit),
    {
        let commit = match source_commit {
            Some(commit) => commit,
            None => String::new(),
        };
        VersionResponse { commit }
    }

    /// Puts the JSON text of a commit into the object that is the body.
    pub fn frame(commit_json: &str) -> (text: String)
        ensures
            text@ == framed(commit_json@),
    {
        let mut text = String::from_str("{\"commit\":");
        text.append(commit_json);
        text.append("}");
        text
    }

    /// The body as JSON text.
    pub fn to_json(&self) -> (text: String)
        ensures
            text@ == version_body(self.commit@),
    {
        let commit = json_string(self.commit.as_str());
        Self::frame(commit.as_str())
    }
}

/// `res` is the answer of the version endpoint for this configuration: 200,
/// never cached, with the configured commit as it is, or the empty text
/// where none is configured.
pub open spec fn is_version_answer(res: Response, source_commit: Option<String>) -> bool {
    &&& res.status == 200
    &&& res.body@ == version_body(commit_text(source_commit))
    &&& res.fields() == uncached_json_fields()
}

/// The answer of the version endpoint. There is no input on which it fails.
pub fn get(source_commit: Option<String>) -> (res: Response)
    ensures
        is_version_answer(res, source_commit),
        has_room(res.headers),
{
    let body = VersionResponse::new(source_commit);
    uncached_json(body.to_json())
}

/// Asking again changes nothing: under one configuration any two answers of
/// the version endpoint have the same status, the same headers and the same
/// body.
pub proof fn lemma_version_answers_agree(a: Response, b: Response, source_commit: Option<String>)
    requires
        is_version_answer(a, source_commit),
        is_version_answer(b, source_commit),
    ensures
        a.status == b.status,
        a.body@ == b.body@,
        a.fields() == b.fields(),
{
}

} // verus!
