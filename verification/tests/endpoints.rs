use gargantua::fallback::{self, Method};
use gargantua::response::Response;
use gargantua::{health, version};

fn header(res: &Response, name: &str) -> Option<String> {
    res.headers.get(name).map(|v| v.to_str().unwrap().to_string())
}

#[test]
fn health_is_ok_and_never_cached() {
    let res = health::get();
    assert_eq!(res.status, 200);
    assert_eq!(res.body, "{\"status\":\"ok\"}");
    assert_eq!(header(&res, "cache-control").unwrap(), "no-store, max-age=0, s-maxage=0");
    assert_eq!(header(&res, "content-type").unwrap(), "application/json");
    assert_eq!(res.headers.len(), 2);
}

#[test]
fn health_body_is_the_json_of_its_one_member() {
    let res = health::get();
    let parsed: serde_json::Value = serde_json::from_str(&res.body).unwrap();
    let object = parsed.as_object().unwrap();
    assert_eq!(object.len(), 1);
    assert_eq!(object.get("status").unwrap().as_str().unwrap(), "ok");
}

#[test]
fn health_repeats_itself() {
    let first = health::get();
    for _ in 0..5 {
        let again = health::get();
        assert_eq!(again.status, first.status);
        assert_eq!(again.body, first.body);
        assert_eq!(again.headers, first.headers);
    }
}

#[test]
fn version_reports_commit_verbatim() {
    let res = version::get(Some(String::from("0123abcd")));
    assert_eq!(res.status, 200);
    assert_eq!(res.body, "{\"commit\":\"0123abcd\"}");
    assert_eq!(header(&res, "cache-control").unwrap(), "no-store, max-age=0, s-maxage=0");
    assert_eq!(header(&res, "content-type").unwrap(), "application/json");
}

#[test]
fn version_without_commit_is_empty() {
    let res = version::get(None);
    assert_eq!(res.status, 200);
    assert_eq!(res.body, "{\"commit\":\"\"}");
}

#[test]
fn version_escapes_what_json_must_escape() {
    let res = version::get(Some(String::from("a\"b\\c\nd")));
    assert_eq!(res.body, "{\"commit\":\"a\\\"b\\\\c\\nd\"}");
    let parsed: serde_json::Value = serde_json::from_str(&res.body).unwrap();
    assert_eq!(parsed.get("commit").unwrap().as_str().unwrap(), "a\"b\\c\nd");
}

#[test]
fn version_response_new_and_to_json() {
    let body = version::VersionResponse::new(Some(String::from("deadbeef")));
    assert_eq!(body.commit, "deadbeef");
    assert_eq!(body.to_json(), "{\"commit\":\"deadbeef\"}");
    let unset = version::VersionResponse::new(None);
    assert_eq!(unset.commit, "");
    assert_eq!(unset.to_json(), "{\"commit\":\"\"}");
}

#[test]
fn version_repeats_itself() {
    let first = version::get(Some(String::from("v1")));
    for _ in 0..5 {
        let again = version::get(Some(String::from("v1")));
        assert_eq!(again.status, first.status);
        assert_eq!(again.body, first.body);
        assert_eq!(again.headers, first.headers);
    }
}

#[test]
fn env_lists_every_variable() {
    let vars = vec![
        (String::from("PATH"), String::from("/usr/bin")),
        (String::from("HOME"), String::from("/root")),
    ];
    let res = gargantua::env::get(&vars);
    assert_eq!(res.status, 200);
    assert_eq!(res.body, "{\"HOME\":\"/root\",\"PATH\":\"/usr/bin\"}");
    assert_eq!(header(&res, "content-type").unwrap(), "application/json");
    assert!(header(&res, "cache-control").is_none());
    let parsed: serde_json::Value = serde_json::from_str(&res.body).unwrap();
    let object = parsed.as_object().unwrap();
    assert_eq!(object.len(), 2);
    for (k, v) in vars.iter() {
        assert_eq!(object.get(k).unwrap().as_str().unwrap(), v);
    }
}

#[test]
fn env_of_nothing_is_the_empty_object() {
    let res = gargantua::env::get(&Vec::new());
    assert_eq!(res.status, 200);
    assert_eq!(res.body, "{}");
}

#[test]
fn env_later_entry_wins_and_values_are_escaped() {
    let vars = vec![
        (String::from("A"), String::from("first")),
        (String::from("A"), String::from("se\"cond")),
    ];
    let res = gargantua::env::get(&vars);
    assert_eq!(res.body, "{\"A\":\"se\\\"cond\"}");
}

#[test]
fn not_found_is_cacheable_and_dated() {
    let res = fallback::get_not_found(1431696861);
    assert_eq!(res.status, 404);
    assert_eq!(res.body, "");
    assert_eq!(
        header(&res, "cache-control").unwrap(),
        "public, max-age=21600, s-maxage=21600, must-revalidate"
    );
    assert_eq!(header(&res, "last-modified").unwrap(), "Fri, 15 May 2015 13:34:21 GMT");
    assert_eq!(header(&res, "expires").unwrap(), "Fri, 15 May 2015 14:34:21 GMT");
    assert_eq!(res.headers.len(), 3);
}

#[test]
fn not_found_expires_one_hour_after_last_modified() {
    for now in [0u64, 59, 86399, 951782400, 1700000000, 253402300800 - 3601] {
        let res = fallback::get_not_found(now);
        let modified = httpdate::parse_http_date(&header(&res, "last-modified").unwrap()).unwrap();
        let expires = httpdate::parse_http_date(&header(&res, "expires").unwrap()).unwrap();
        assert_eq!(
            modified,
            std::time::UNIX_EPOCH + std::time::Duration::from_secs(now)
        );
        assert_eq!(expires.duration_since(modified).unwrap().as_secs(), 3600);
    }
}

#[test]
fn not_found_at_the_epoch() {
    let res = fallback::get_not_found(0);
    assert_eq!(header(&res, "last-modified").unwrap(), "Thu, 01 Jan 1970 00:00:00 GMT");
    assert_eq!(header(&res, "expires").unwrap(), "Thu, 01 Jan 1970 01:00:00 GMT");
}

#[test]
fn method_not_allowed_is_bare() {
    let res = fallback::any_method_not_allowed();
    assert_eq!(res.status, 405);
    assert_eq!(res.body, "");
    assert!(res.headers.is_empty());
}

#[test]
fn fallback_answers_by_method() {
    let get = fallback::respond(Method::Get, 784111777);
    assert_eq!(get.status, 404);
    assert_eq!(header(&get, "last-modified").unwrap(), "Sun, 06 Nov 1994 08:49:37 GMT");
    let head = fallback::respond(Method::Head, 784111777);
    assert_eq!(head.status, 404);
    assert_eq!(head.headers, get.headers);
    let post = fallback::respond(Method::Other, 784111777);
    assert_eq!(post.status, 405);
    assert!(post.headers.is_empty());
    assert_eq!(post.body, "");
}

#[test]
fn empty_response_has_nothing() {
    let res = Response::empty(204);
    assert_eq!(res.status, 204);
    assert!(res.headers.is_empty());
    assert_eq!(res.body, "");
}

#[test]
fn not_found_with_given_dates() {
    let res = fallback::not_found_dated("Sun, 06 Nov 1994 08:49:37 GMT", "later");
    assert_eq!(res.status, 404);
    assert_eq!(res.body, "");
    assert_eq!(
        header(&res, "cache-control").unwrap(),
        "public, max-age=21600, s-maxage=21600, must-revalidate"
    );
    assert_eq!(header(&res, "last-modified").unwrap(), "Sun, 06 Nov 1994 08:49:37 GMT");
    assert_eq!(header(&res, "expires").unwrap(), "later");
    assert_eq!(res.headers.len(), 3);
}

#[test]
fn version_frame_wraps_the_json_text() {
    assert_eq!(version::VersionResponse::frame("\"x\""), "{\"commit\":\"x\"}");
    assert_eq!(version::VersionResponse::frame(""), "{\"commit\":}");
}

#[test]
fn uncached_json_carries_the_body() {
    let res = health::uncached_json(String::from("[1]"));
    assert_eq!(res.status, 200);
    assert_eq!(res.body, "[1]");
    assert_eq!(header(&res, "cache-control").unwrap(), "no-store, max-age=0, s-maxage=0");
    assert_eq!(header(&res, "content-type").unwrap(), "application/json");
}

#[test]
fn json_answer_carries_the_body() {
    let res = gargantua::env::json_answer(String::from("{}"));
    assert_eq!(res.status, 200);
    assert_eq!(res.body, "{}");
    assert_eq!(header(&res, "content-type").unwrap(), "application/json");
    assert_eq!(res.headers.len(), 1);
}

#[test]
fn header_limit_is_below_the_collection_s_own() {
    assert_eq!(gargantua::headers::HEADER_LIMIT, 1024);
    assert_eq!(fallback::HTTP_DATE_END, 253402300800);
    assert_eq!(fallback::EXPIRES_AFTER_SECS, 3600);
}

#[test]
fn version_escapes_by_the_json_table() {
    let res = version::get(Some(String::from("\u{8}\t\n\u{c}\r\u{1}\u{1f}\u{7f}/\u{e9}")));
    assert_eq!(
        res.body,
        "{\"commit\":\"\\b\\t\\n\\f\\r\\u0001\\u001f\u{7f}/\u{e9}\"}"
    );
}
