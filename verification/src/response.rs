//! The response that the handlers and the pipeline hand on.

use vstd::prelude::*;
use crate::headers::{has_room, header_fields, new_header_map, no_fields};

verus! {

/// A response before it is written out: status code, headers and body text.
#[derive(Debug)]
pub struct Response {
    pub status: u16,
    pub headers: http::HeaderMap,
    pub body: String,
}

impl Response {
    /// The headers as a map from names to value texts.
    pub open spec fn fields(&self) -> Map<Seq<char>, Seq<char>> {
        header_fields(self.headers)
    }

    /// A response with the given status, no header and an empty body.
    pub fn empty(status: u16) -> (res: Response)
        ensures
            res.status == status,
            res.fields() == no_fields(),
            res.body@ == Seq::<char>::empty(),
            has_room(res.headers),
    {
        Response { status, headers: new_header_map(), body: String::new() }
    }
}

} // verus!
