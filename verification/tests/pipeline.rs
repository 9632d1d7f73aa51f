use gargantua::log_request::{
    AccessLogRecord, InFlight, LogRequest, RequestInfo, ABANDONED_MESSAGE,
};
use gargantua::request_id::{RequestId, RequestIdMiddleware, Tagging, REQUEST_ID_HEADER_NAME};
use gargantua::response::Response;
use gargantua::text::{decimal, join_values};
use gargantua::shutdown::Action;
use gargantua::{fallback, health};

fn request() -> RequestInfo {
    RequestInfo {
        host: vec![String::from("example.org")],
        origin: vec![String::from("https://a.example"), String::from("https://b.example")],
        method: String::from("GET"),
        path: String::from("/health"),
    }
}

fn record(status: u16, error: Option<String>) -> AccessLogRecord {
    AccessLogRecord {
        request_id: String::from("id-1"),
        host: String::from("h"),
        origin: String::new(),
        method: String::from("POST"),
        path: String::from("/x"),
        status: Some(status),
        error,
        elapsed_ms: 12,
    }
}

#[test]
fn decimal_writes_digits() {
    assert_eq!(decimal(0), "0");
    assert_eq!(decimal(7), "7");
    assert_eq!(decimal(10), "10");
    assert_eq!(decimal(404), "404");
    assert_eq!(decimal(1234567890), "1234567890");
    assert_eq!(decimal(u128::MAX), "340282366920938463463374607431768211455");
}

#[test]
fn join_values_puts_comma_and_space_between() {
    assert_eq!(join_values(&Vec::new()), "");
    assert_eq!(join_values(&vec![String::from("a")]), "a");
    assert_eq!(join_values(&vec![String::from("a"), String::from("b")]), "a, b");
    assert_eq!(
        join_values(&vec![String::from("a"), String::new(), String::from("c")]),
        "a, , c"
    );
}

#[test]
fn issued_identifier_has_uuid_form() {
    let id = RequestIdMiddleware.issue();
    let text: Vec<char> = id.0.chars().collect();
    assert_eq!(text.len(), 36);
    for (i, c) in text.iter().enumerate() {
        if i == 8 || i == 13 || i == 18 || i == 23 {
            assert_eq!(*c, '-');
        } else {
            assert!(matches!(*c, '0'..='9' | 'a'..='f'));
        }
    }
    assert_eq!(text[14], '4');
}

#[test]
fn issued_identifiers_differ() {
    let a = RequestIdMiddleware.issue();
    let b = RequestIdMiddleware.issue();
    assert_ne!(a, b);
}

#[test]
fn header_name_is_request_id() {
    assert_eq!(REQUEST_ID_HEADER_NAME, "request-id");
}

#[test]
fn tag_sets_the_header() {
    let mut res = health::get();
    let id = RequestId(String::from("abc-123"));
    let outcome = RequestIdMiddleware.tag(&id, &mut res);
    assert_eq!(outcome, Tagging::Tagged);
    assert_eq!(res.headers.get("request-id").unwrap(), "abc-123");
    assert_eq!(res.headers.get_all("request-id").iter().count(), 1);
    assert_eq!(res.status, 200);
    assert_eq!(res.body, "{\"status\":\"ok\"}");
    assert_eq!(res.headers.len(), 3);
}

#[test]
fn tag_keeps_an_identifier_from_upstream() {
    let mut res = Response::empty(200);
    res.headers.insert("request-id", http::HeaderValue::from_static("upstream"));
    let id = RequestId(String::from("fresh"));
    let outcome = RequestIdMiddleware.tag(&id, &mut res);
    assert_eq!(outcome, Tagging::Kept);
    assert_eq!(res.headers.get("request-id").unwrap(), "upstream");
    assert_eq!(res.headers.len(), 1);
}

#[test]
fn tag_rejects_what_is_no_header_value() {
    let mut res = Response::empty(200);
    let id = RequestId(String::from("two\nlines"));
    let outcome = RequestIdMiddleware.tag(&id, &mut res);
    assert_eq!(outcome, Tagging::Rejected);
    assert!(res.headers.is_empty());
}

#[test]
fn tag_takes_text_beyond_ascii() {
    let mut res = Response::empty(200);
    let id = RequestId(String::from("caf\u{e9}"));
    let outcome = RequestIdMiddleware.tag(&id, &mut res);
    assert_eq!(outcome, Tagging::Tagged);
    assert_eq!(res.headers.get("request-id").unwrap().as_bytes(), "caf\u{e9}".as_bytes());
}

#[test]
fn record_joins_headers_and_takes_the_identifier() {
    let id = RequestId(String::from("r-1"));
    let rec = LogRequest.record(&request(), &id, 200, None, 5);
    assert_eq!(rec.host, "example.org");
    assert_eq!(rec.origin, "https://a.example, https://b.example");
    assert_eq!(rec.method, "GET");
    assert_eq!(rec.path, "/health");
    assert_eq!(rec.status, Some(200));
    assert_eq!(rec.error, None);
    assert_eq!(rec.elapsed_ms, 5);
    assert_eq!(rec.request_id, "r-1");
}

#[test]
fn record_without_headers() {
    let req = RequestInfo {
        host: Vec::new(),
        origin: Vec::new(),
        method: String::from("PUT"),
        path: String::from("/"),
    };
    let id = RequestId(String::from("r-2"));
    let rec = LogRequest.record(&req, &id, 503, Some(String::from("down")), 0);
    assert_eq!(rec.host, "");
    assert_eq!(rec.origin, "");
    assert_eq!(rec.request_id, "r-2");
    assert_eq!(rec.status, Some(503));
    assert_eq!(rec.error, Some(String::from("down")));
}

#[test]
fn line_of_a_normal_response() {
    assert_eq!(
        LogRequest.line(&record(200, None)),
        "host=h origin= method=POST path=/x status_code=200 elapsed=12 request_id=id-1"
    );
    assert_eq!(
        LogRequest.line(&record(404, None)),
        "host=h origin= method=POST path=/x status_code=404 elapsed=12 request_id=id-1"
    );
    assert_eq!(
        LogRequest.line(&record(499, None)),
        "host=h origin= method=POST path=/x status_code=499 elapsed=12 request_id=id-1"
    );
    assert_eq!(
        LogRequest.line(&record(600, None)),
        "host=h origin= method=POST path=/x status_code=600 elapsed=12 request_id=id-1"
    );
}

#[test]
fn line_of_a_server_error_with_message() {
    assert_eq!(
        LogRequest.line(&record(500, Some(String::from("boom")))),
        "host=h origin= method=POST path=/x error_msg=boom status=500 elapsed=12 request_id=id-1"
    );
}

#[test]
fn line_of_a_server_error_without_message() {
    assert_eq!(
        LogRequest.line(&record(599, None)),
        "host=h origin= method=POST path=/x status=599 elapsed=12 request_id=id-1"
    );
}

#[test]
fn line_is_a_single_line_for_plain_fields() {
    let line = LogRequest.line(&record(200, None));
    assert_eq!(line.lines().count(), 1);
}

#[test]
fn response_carries_the_logged_identifier() {
    let id = RequestIdMiddleware.issue();
    let mut res = fallback::get_not_found(1700000000);
    let rec = LogRequest.complete(&request(), &id, &mut res, None, 3);
    assert_eq!(res.headers.get("request-id").unwrap().to_str().unwrap(), rec.request_id);
    assert_eq!(rec.request_id, id.0);
    assert_eq!(rec.status, Some(404));
    assert_eq!(res.status, 404);
    assert_eq!(res.headers.len(), 4);
    let line = LogRequest.line(&rec);
    assert!(line.ends_with(&format!(" request_id={}", id.0)));
    assert!(line.starts_with("host=example.org origin=https://a.example, https://b.example method=GET path=/health status_code=404 elapsed=3 "));
}

#[test]
fn upstream_identifier_stays_on_the_response_and_the_log_has_the_fresh_one() {
    let id = RequestId(String::from("fresh"));
    let mut res = Response::empty(200);
    res.headers.insert("request-id", http::HeaderValue::from_static("upstream"));
    let rec = LogRequest.complete(&request(), &id, &mut res, None, 1);
    assert_eq!(res.headers.get("request-id").unwrap(), "upstream");
    assert_eq!(rec.request_id, "fresh");
}

#[test]
fn line_of_a_failure_that_is_no_server_error() {
    let failed = LogRequest.line(&record(400, Some(String::from("bad input"))));
    assert_eq!(
        failed,
        "host=h origin= method=POST path=/x error_msg=bad input status_code=400 elapsed=12 request_id=id-1"
    );
    let normal = LogRequest.line(&record(400, None));
    assert_eq!(
        normal,
        "host=h origin= method=POST path=/x status_code=400 elapsed=12 request_id=id-1"
    );
    assert_ne!(failed, normal);
    assert_eq!(
        LogRequest.line(&record(200, Some(String::from("late")))),
        "host=h origin= method=POST path=/x error_msg=late status_code=200 elapsed=12 request_id=id-1"
    );
}

#[test]
fn handler_failure_with_status_400_is_recorded_with_its_message() {
    let id = RequestId(String::from("r-400"));
    let mut res = Response::empty(400);
    let rec = LogRequest.complete(&request(), &id, &mut res, Some(String::from("bad input")), 9);
    assert_eq!(rec.status, Some(400));
    assert_eq!(rec.error, Some(String::from("bad input")));
    assert_eq!(
        LogRequest.line(&rec),
        "host=example.org origin=https://a.example, https://b.example method=GET path=/health error_msg=bad input status_code=400 elapsed=9 request_id=r-400"
    );
    assert_eq!(res.headers.get("request-id").unwrap(), "r-400");
}

fn in_flight(n: usize) -> Vec<InFlight> {
    (0..n)
        .map(|i| InFlight {
            request: RequestInfo {
                host: vec![String::from("h")],
                origin: Vec::new(),
                method: String::from("GET"),
                path: format!("/slow/{}", i),
            },
            id: RequestId(format!("id-{}", i)),
            elapsed_ms: 10000 + i as u128,
        })
        .collect()
}

#[test]
fn abandoned_request_gets_its_record() {
    let entry = in_flight(1).remove(0);
    let rec = LogRequest.abandoned(&entry);
    assert_eq!(ABANDONED_MESSAGE, "abandoned at shutdown");
    assert_eq!(rec.status, None);
    assert_eq!(rec.error, Some(String::from("abandoned at shutdown")));
    assert_eq!(rec.request_id, "id-0");
    assert_eq!(rec.host, "h");
    assert_eq!(rec.origin, "");
    assert_eq!(rec.method, "GET");
    assert_eq!(rec.path, "/slow/0");
    assert_eq!(rec.elapsed_ms, 10000);
    assert_eq!(
        LogRequest.line(&rec),
        "host=h origin= method=GET path=/slow/0 error_msg=abandoned at shutdown elapsed=10000 request_id=id-0"
    );
}

#[test]
fn every_abandoned_request_gets_one_record() {
    let entries = in_flight(3);
    let records = LogRequest.abandon_all(&entries);
    assert_eq!(records.len(), 3);
    for (rec, entry) in records.iter().zip(entries.iter()) {
        assert_eq!(rec.request_id, entry.id.0);
        assert_eq!(rec.path, entry.request.path);
        assert_eq!(rec.status, None);
        assert_eq!(rec.error.as_deref(), Some("abandoned at shutdown"));
        assert_eq!(rec.elapsed_ms, entry.elapsed_ms);
    }
    assert!(LogRequest.abandon_all(&Vec::new()).is_empty());
}

#[test]
fn records_are_built_at_the_exit_only() {
    let entries = in_flight(2);
    assert_eq!(LogRequest.on_action(Action::Exit { abandoned: 2 }, &entries).len(), 2);
    assert!(LogRequest.on_action(Action::Continue, &entries).is_empty());
    assert!(LogRequest.on_action(Action::Accept, &entries).is_empty());
    assert!(LogRequest.on_action(Action::Refuse, &entries).is_empty());
    assert!(LogRequest.on_action(Action::Drain { deadline_ms: 5 }, &entries).is_empty());
}

fn crowded(names: usize) -> Response {
    let mut res = Response::empty(200);
    for i in 0..names {
        let name = http::header::HeaderName::from_bytes(format!("x-{}", i).as_bytes()).unwrap();
        res.headers.insert(name, http::HeaderValue::from_static("v"));
    }
    res
}

#[test]
fn try_tag_sets_the_header_where_there_is_room() {
    let id = RequestId(String::from("abc"));
    let mut res = crowded(1023);
    assert_eq!(RequestIdMiddleware.try_tag(&id, &mut res), Tagging::Tagged);
    assert_eq!(res.headers.get("request-id").unwrap(), "abc");
    assert_eq!(res.headers.keys_len(), 1024);
    assert_eq!(RequestIdMiddleware.try_tag(&id, &mut res), Tagging::Kept);
    assert_eq!(res.headers.keys_len(), 1024);
}

#[test]
fn try_tag_leaves_a_full_response_alone() {
    let id = RequestId(String::from("abc"));
    let mut res = crowded(1024);
    assert_eq!(RequestIdMiddleware.try_tag(&id, &mut res), Tagging::Full);
    assert!(res.headers.get("request-id").is_none());
    assert_eq!(res.headers.keys_len(), 1024);
    assert_eq!(res.status, 200);
}

#[test]
fn try_tag_rejects_and_keeps_as_tag_does() {
    let mut res = Response::empty(200);
    let bad = RequestId(String::from("two\nlines"));
    assert_eq!(RequestIdMiddleware.try_tag(&bad, &mut res), Tagging::Rejected);
    assert!(res.headers.is_empty());
    res.headers.insert("request-id", http::HeaderValue::from_static("upstream"));
    let id = RequestId(String::from("fresh"));
    assert_eq!(RequestIdMiddleware.try_tag(&id, &mut res), Tagging::Kept);
    assert_eq!(res.headers.get("request-id").unwrap(), "upstream");
}

#[test]
fn tagging_twice_keeps_the_first_identifier() {
    let mut res = health::get();
    let first = RequestId(String::from("first"));
    let second = RequestId(String::from("second"));
    assert_eq!(RequestIdMiddleware.tag(&first, &mut res), Tagging::Tagged);
    assert_eq!(RequestIdMiddleware.tag(&second, &mut res), Tagging::Kept);
    assert_eq!(res.headers.get("request-id").unwrap(), "first");
    assert_eq!(res.headers.get_all("request-id").iter().count(), 1);
}
