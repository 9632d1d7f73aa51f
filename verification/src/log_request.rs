//! The access log: one record and one line per request.

use vstd::prelude::*;
use vstd::string::*;
use crate::headers::{is_header_value, room_in};
use crate::request_id::{
    request_id_header, tagged_fields, try_tagged_fields, try_tagging_of, RequestId,
    RequestIdMiddleware, Tagging,
};
use crate::response::Response;
use crate::shutdown::Action;
use crate::text::{decimal, decimal_text, join_values, joined};

verus! {

/// The error that is logged for a request that was given up at shutdown.
pub const ABANDONED_MESSAGE: &'static str = "abandoned at shutdown";

/// Logs the request.
#[derive(Debug, Default)]
pub struct LogRequest;

/// What the logger reads of a request before the handler runs.
#[derive(Clone, Debug)]
pub struct RequestInfo {
    /// The values of the `host` header, in order; empty if there is none.
    pub host: Vec<String>,
    /// The values of the `origin` header, in order; empty if there is none.
    pub origin: Vec<String>,
    pub method: String,
    pub path: String,
}

/// A request that is in flight: what was read of it, its identifier, and for
/// how long it has been running.
#[derive(Clone, Debug)]
pub struct InFlight {
    pub request: RequestInfo,
    pub id: RequestId,
    pub elapsed_ms: u128,
}

/// What is logged of one request once it is done.
#[derive(Clone, Debug)]
pub struct AccessLogRecord {
    pub request_id: String,
    pub host: String,
    pub origin: String,
    pub method: String,
    pub path: String,
    /// The status of the response; none where the request got no response.
    pub status: Option<u16>,
    /// The error message, if the handler failed or the request was given up.
    pub error: Option<String>,
    pub elapsed_ms: u128,
}

/// A status code of the 5xx class.
pub open spec fn is_server_error(status: u16) -> bool {
    500 <= status < 600
}

/// How an error is written: not at all if there is none.
pub open spec fn error_part(error: Option<Seq<char>>) -> Seq<char> {
    match error {
        Some(msg) => " error_msg="@ + msg,
        None => Seq::empty(),
    }
}

/// How a status is written: a server error as `status`, any other as
/// `status_code`, and nothing where there is no response.
pub open spec fn status_part(status: Option<u16>) -> Seq<char> {
    match status {
        Some(code) => if is_server_error(code) {
            " status="@ + decimal_text(code as nat)
        } else {
            " status_code="@ + decimal_text(code as nat)
        },
        None => Seq::empty(),
    }
}

/// The part of a line that reports the outcome: the error message wherever
/// there is one, whatever the status, and then the status.
pub open spec fn outcome_text(status: Option<u16>, error: Option<Seq<char>>) -> Seq<char> {
    error_part(error) + status_part(status)
}

/// A line of the access log: the fields in fixed order, each as `key=value`,
/// separated by single spaces.
pub open spec fn line_text(
    host: Seq<char>,
    origin: Seq<char>,
    method: Seq<char>,
    path: Seq<char>,
    status: Option<u16>,
    error: Option<Seq<char>>,
    elapsed_ms: nat,
    request_id: Seq<char>,
) -> Seq<char> {
    "host="@ + host + " origin="@ + origin + " method="@ + method + " path="@ + path
        + outcome_text(status, error) + " elapsed="@ + decimal_text(elapsed_ms) + " request_id="@
        + request_id
}

impl AccessLogRecord {
    /// The error message as a sequence of characters, if there is one.
    pub open spec fn error_text(&self) -> Option<Seq<char>> {
        match self.error {
            Some(msg) => Some(msg@),
            None => None,
        }
    }

    /// The line that stands for this record.
    pub open spec fn line(&self) -> Seq<char> {
        line_text(
            self.host@,
            self.origin@,
            self.method@,
            self.path@,
            self.status,
            self.error_text(),
            self.elapsed_ms as nat,
            self.request_id@,
        )
    }

    /// This record is about the request `req` with the identifier `id`.
    pub open spec fn is_about(&self, req: RequestInfo, id: Seq<char>) -> bool {
        &&& self.request_id@ == id
        &&& self.host@ == joined(req.host.deep_view())
        &&& self.origin@ == joined(req.origin.deep_view())
        &&& self.method@ == req.method@
        &&& self.path@ == req.path@
    }

    /// This record is the one of a request that was given up at shutdown: no
    /// status, and the error that says so.
    pub open spec fn is_abandoned(&self, entry: InFlight) -> bool {
        &&& self.is_about(entry.request, entry.id@)
        &&& self.status == None::<u16>
        &&& self.error_text() == Some(ABANDONED_MESSAGE@)
        &&& self.elapsed_ms == entry.elapsed_ms
    }
}

impl LogRequest {
    /// Builds the record of an answered request: the header values joined,
    /// the identifier that was issued for the request, and the outcome as
    /// given.
    pub fn record(
        &self,
        req: &RequestInfo,
        id: &RequestId,
        status: u16,
        error: Option<String>,
        elapsed_ms: u128,
    ) -> (rec: AccessLogRecord)
        ensures
            rec.is_about(*req, id@),
            rec.status == Some(status),
            rec.error == error,
            rec.elapsed_ms == elapsed_ms,
    {
        AccessLogRecord {
            request_id: id.0.clone(),
            host: join_values(&req.host),
            origin: join_values(&req.origin),
            method: req.method.clone(),
            path: req.path.clone(),
            status: Some(status),
            error,
            elapsed_ms,
        }
    }

    /// Builds the record of a request that was given up at shutdown.
    pub fn abandoned(&self, entry: &InFlight) -> (rec: AccessLogRecord)
        ensures
            rec.is_abandoned(*entry),
    {
        AccessLogRecord {
            request_id: entry.id.0.clone(),
            host: join_values(&entry.request.host),
            origin: join_values(&entry.request.origin),
            method: entry.request.method.clone(),
            path: entry.request.path.clone(),
            status: None,
            error: Some(String::from_str(ABANDONED_MESSAGE)),
            elapsed_ms: entry.elapsed_ms,
        }
    }

    /// Builds the records of the requests that are given up when the process
    /// exits: one record for each request in flight, in the same order,
    /// never none and never two.
    pub fn abandon_all(&self, in_flight: &Vec<InFlight>) -> (records: Vec<AccessLogRecord>)
        ensures
            records.len() == in_flight.len(),
            forall|i: int| 0 <= i < in_flight.len() ==> (#[trigger] records[i]).is_abandoned(in_flight[i]),
    {
        let mut records: Vec<AccessLogRecord> = Vec::new();
        let mut i: usize = 0;
        while i < in_flight.len()
            invariant
                i <= in_flight.len(),
                records.len() == i,
                forall|j: int| 0 <= j < i ==> (#[trigger] records[j]).is_abandoned(in_flight[j]),
            decreases in_flight.len() - i,
        {
            let rec = self.abandoned(&in_flight[i]);
            records.push(rec);
            i = i + 1;
        }
        records
    }

    /// Builds the records that an action of the shutdown coordinator asks
    /// for: at an exit one for each request that the caller still has in
    /// flight, and none for any other action.
    pub fn on_action(&self, action: Action, in_flight: &Vec<InFlight>) -> (records: Vec<AccessLogRecord>)
        ensures
            action is Exit ==> records.len() == in_flight.len(),
            action is Exit ==> forall|i: int|
                0 <= i < in_flight.len() ==> (#[trigger] records[i]).is_abandoned(in_flight[i]),
            !(action is Exit) ==> records.len() == 0,
    {
        match action {
            Action::Exit { abandoned: _ } => self.abandon_all(in_flight),
            _ => Vec::new(),
        }
    }

    /// Writes the one line of a record.
    pub fn line(&self, rec: &AccessLogRecord) -> (line: String)
        ensures
            line@ == rec.line(),
    {
        let mut s = String::from_str("host=");
        s.append(rec.host.as_str());
        s.append(" origin=");
        s.append(rec.origin.as_str());
        s.append(" method=");
        s.append(rec.method.as_str());
        s.append(" path=");
        s.append(rec.path.as_str());
        let ghost head = s@;
        match &rec.error {
            Some(msg) => {
                s.append(" error_msg=");
                s.append(msg.as_str());
            },
            None => {},
        }
        assert(s@ =~= head + error_part(rec.error_text()));
        match rec.status {
            Some(code) => {
                if code >= 500 && code < 600 {
                    s.append(" status=");
                } else {
                    s.append(" status_code=");
                }
                let digits = decimal(code as u128);
                s.append(digits.as_str());
            },
            None => {},
        }
        assert(s@ =~= head + outcome_text(rec.status, rec.error_text()));
        let elapsed = decimal(rec.elapsed_ms);
        s.append(" elapsed=");
        s.append(elapsed.as_str());
        s.append(" request_id=");
        s.append(rec.request_id.as_str());
        s
    }

    /// Finishes one answered request: puts the identifier on the handler's
    /// response, where it carries none and has room, and builds the record
    /// of the request from the response's status.
    pub fn complete(
        &self,
        req: &RequestInfo,
        id: &RequestId,
        res: &mut Response,
        error: Option<String>,
        elapsed_ms: u128,
    ) -> (rec: AccessLogRecord)
        ensures
            final(res).status == old(res).status,
            final(res).body == old(res).body,
            final(res).fields() == try_tagged_fields(old(res).fields(), id@),
            rec.is_about(*req, id@),
            rec.status == Some(old(res).status),
            rec.error == error,
            rec.elapsed_ms == elapsed_ms,
            try_tagging_of(old(res).fields(), id@) == Tagging::Tagged
                ==> final(res).fields()[request_id_header()] == rec.request_id@,
    {
        let middleware = RequestIdMiddleware;
        let _ = middleware.try_tag(id, res);
        self.record(req, id, res.status, error, elapsed_ms)
    }
}

/// The identifier on the response is the one in the log: when a response
/// that carries no identifier yet and has room for one is tagged with an
/// identifier that can be a header value, and the record of the same request
/// is built with that identifier, the response's `request-id` header is the
/// text that the record holds and that its line ends with.
pub proof fn lemma_response_id_is_logged_id(
    fields: Map<Seq<char>, Seq<char>>,
    req: RequestInfo,
    id: RequestId,
    rec: AccessLogRecord,
)
    requires
        !fields.contains_key(request_id_header()),
        room_in(fields),
        is_header_value(id@),
        rec.is_about(req, id@),
    ensures
        try_tagging_of(fields, id@) == Tagging::Tagged,
        try_tagged_fields(fields, id@).contains_key(request_id_header()),
        try_tagged_fields(fields, id@)[request_id_header()] == rec.request_id@,
        rec.line() == line_text(
            rec.host@,
            rec.origin@,
            rec.method@,
            rec.path@,
            rec.status,
            rec.error_text(),
            rec.elapsed_ms as nat,
            try_tagged_fields(fields, id@)[request_id_header()],
        ),
{
}

/// Tagging never leaves a response without an identifier where one can be
/// set, and never gives it a second one: afterwards the `request-id` header
/// is there, and every other header is as it was.
pub proof fn lemma_tagged_once(fields: Map<Seq<char>, Seq<char>>, id: Seq<char>, name: Seq<char>)
    requires
        fields.contains_key(request_id_header()) || is_header_value(id),
    ensures
        tagged_fields(fields, id).contains_key(request_id_header()),
        name != request_id_header() ==> tagged_fields(fields, id).contains_key(name)
            == fields.contains_key(name),
        name != request_id_header() && fields.contains_key(name) ==> tagged_fields(fields, id)[name]
            == fields[name],
{
}

/// A failure shows in the line whatever the status: the line of a record
/// with an error holds the error message, and differs from the line of the
/// same record without the error.
pub proof fn lemma_error_shows(
    host: Seq<char>,
    origin: Seq<char>,
    method: Seq<char>,
    path: Seq<char>,
    status: Option<u16>,
    msg: Seq<char>,
    elapsed_ms: nat,
    request_id: Seq<char>,
)
    ensures
        outcome_text(status, Some(msg)) == " error_msg="@ + msg + status_part(status),
        line_text(host, origin, method, path, status, Some(msg), elapsed_ms, request_id)
            != line_text(host, origin, method, path, status, None, elapsed_ms, request_id),
{
    reveal_strlit(" error_msg=");
    let with = line_text(host, origin, method, path, status, Some(msg), elapsed_ms, request_id);
    let without = line_text(host, origin, method, path, status, None, elapsed_ms, request_id);
    assert(error_part(Some(msg)).len() == 11 + msg.len());
    assert(error_part(None).len() == 0);
    assert(with.len() == without.len() + 11 + msg.len());
}

} // verus!
