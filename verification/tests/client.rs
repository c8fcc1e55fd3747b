use producthunt::client::{read, status_error, transport_error, Client, Method, ACTOR_ENDPOINT, DEFAULT_BASE};
use producthunt::error::ErrorCode;
use producthunt::client::message_of;
use producthunt::json::{parse_str, Json};

#[test]
fn status_maps_to_codes() {
    assert_eq!(status_error(401, "").code, ErrorCode::AuthRequired);
    assert_eq!(status_error(403, "").code, ErrorCode::AuthRequired);
    assert_eq!(status_error(404, "").code, ErrorCode::NotFound);
    assert_eq!(status_error(429, "").code, ErrorCode::RateLimited);
    assert_eq!(status_error(400, "").code, ErrorCode::InvalidInput);
    assert_eq!(status_error(422, "").code, ErrorCode::InvalidInput);
    assert_eq!(status_error(500, "").code, ErrorCode::Network);
    assert_eq!(status_error(503, "").code, ErrorCode::Network);
}

#[test]
fn parses_apify_error_message() {
    let err_json = r#"{"error":{"message":"Token is invalid!","type":"INVALID_TOKEN"}}"#;
    let err = status_error(401, err_json);
    assert_eq!(err.message, "Token is invalid!");
    assert_eq!(err.code, ErrorCode::AuthRequired);
}

#[test]
fn status_error_details_and_fallbacks() {
    let e = status_error(401, "");
    assert_eq!(e.message, "The Apify API token was rejected or is invalid.");
    assert_eq!(e.detail.as_deref(), Some("HTTP 401"));
    assert_eq!(
        e.remediation.as_deref(),
        Some("Replace it: producthunt login <name> --force or set APIFY_TOKEN=<token>")
    );
    let e = status_error(404, "not json");
    assert_eq!(e.message, "The requested resource was not found.");
    assert_eq!(e.detail.as_deref(), Some("HTTP 404: not json"));
    assert_eq!(e.remediation, None);
    // a top-level message is used when there is no nested one
    let e = status_error(422, r#"{"message":"bad input"}"#);
    assert_eq!(e.message, "bad input");
    // an `error` string inside `error` is used when it has no message
    let e = status_error(400, r#"{"error":{"error":"nested"}}"#);
    assert_eq!(e.message, "nested");
    // rate limiting and server errors keep their own messages
    let e = status_error(429, r#"{"message":"slow down"}"#);
    assert_eq!(e.message, "Rate limited by the Apify API.");
    assert_eq!(e.remediation.as_deref(), Some("Back off before retrying."));
    let e = status_error(502, "");
    assert_eq!(e.message, "The Apify API returned a server error.");
    let e = status_error(418, "");
    assert_eq!(e.code, ErrorCode::Error);
    assert_eq!(e.message, "The request failed.");
    assert_eq!(e.exit_code(), 1);
}

#[test]
fn http_errors_map_to_exit_codes_in_library() {
    assert_eq!(status_error(401, r#"{"error":{"message":"Invalid token","type":"AUTH_ERROR"}}"#).exit_code(), 3);
    assert_eq!(status_error(404, "").exit_code(), 4);
    assert_eq!(status_error(429, "").exit_code(), 5);
    assert_eq!(status_error(400, "").exit_code(), 6);
    assert_eq!(status_error(500, "").exit_code(), 2);
}

#[test]
fn read_interprets_answers() {
    match read(200, b"  \n") {
        Ok(Json::Object(m)) => assert!(m.is_empty()),
        other => panic!("unexpected {:?}", other),
    }
    match read(200, b"[{\"name\":\"SuperApp\",\"votesCount\":420}]") {
        Ok(Json::Array(items)) => {
            assert_eq!(items.len(), 1);
            assert_eq!(items[0].get("name").and_then(|n| n.as_str()), Some("SuperApp"));
            match items[0].get("votesCount") {
                Some(Json::Number(n)) => assert_eq!(n.text(), "420"),
                other => panic!("unexpected {:?}", other),
            }
        }
        other => panic!("unexpected {:?}", other),
    }
    match read(201, b"plain text") {
        Ok(Json::Str(s)) => assert_eq!(s, "plain text"),
        other => panic!("unexpected {:?}", other),
    }
    match read(401, b"  {\"error\":{\"message\":\"Invalid token\"}}  ") {
        Err(e) => {
            assert_eq!(e.code, ErrorCode::AuthRequired);
            assert_eq!(e.message, "Invalid token");
            assert_eq!(e.detail.as_deref(), Some("HTTP 401: {\"error\":{\"message\":\"Invalid token\"}}"));
        }
        other => panic!("unexpected {:?}", other),
    }
    match read(500, b"") {
        Err(e) => assert_eq!(e.detail.as_deref(), Some("HTTP 500")),
        other => panic!("unexpected {:?}", other),
    }
}

#[test]
fn transport_errors_are_network_errors() {
    let e = transport_error(true, "ignored");
    assert_eq!(e.code, ErrorCode::Network);
    assert_eq!(e.message, "The request timed out.");
    assert_eq!(e.detail, None);
    assert_eq!(e.remediation.as_deref(), Some("Retry once, then stop."));
    let e = transport_error(false, "connection refused");
    assert_eq!(e.message, "Could not reach the Apify API.");
    assert_eq!(e.detail.as_deref(), Some("connection refused"));
    assert_eq!(e.exit_code(), 2);
}

fn header<'a>(r: &'a producthunt::client::Request, name: &str) -> Option<&'a str> {
    r.headers.iter().find(|(k, _)| k == name).map(|(_, v)| v.as_str())
}

#[test]
fn client_builds_requests() {
    let c = Client::new("  tok_1 \n", None);
    assert_eq!(c.token(), "tok_1");
    let me = c.me();
    assert_eq!(me.method, Method::Get);
    assert_eq!(me.url, format!("{}users/me", DEFAULT_BASE));
    assert_eq!(header(&me, "Authorization"), Some("Bearer tok_1"));
    assert_eq!(header(&me, "Accept"), Some("application/json"));
    assert_eq!(header(&me, "Content-Type"), None);
    assert!(me.body.is_none());

    let c = Client::new("t", Some("http://127.0.0.1:9/v2"));
    assert_eq!(c.get("/users/me").url, "http://127.0.0.1:9/v2/users/me");
    let search = c.search(Json::Null);
    assert_eq!(search.method, Method::Post);
    assert_eq!(search.url, format!("http://127.0.0.1:9/v2/{}?token=t", ACTOR_ENDPOINT));
    assert_eq!(header(&search, "Content-Type"), Some("application/json"));
    assert_eq!(search.body.as_deref(), Some(&b"null"[..]));
    let scrape = c.scrape(Json::Bool(true));
    assert_eq!(scrape.url, search.url);
    assert_eq!(scrape.body.as_deref(), Some(&b"true"[..]));
    let input = Json::Object(vec![("searchQuery".to_string(), Json::string("ai")), ("maxResults".to_string(), Json::number(5))]);
    assert_eq!(c.post("x", input).body.as_deref(), Some(&br#"{"maxResults":5,"searchQuery":"ai"}"#[..]));

    // a blank configured root falls back to the default one
    let c = Client::new("t", Some("   "));
    assert_eq!(c.get("x").url, format!("{}x", DEFAULT_BASE));
    let c = Client::new("t", Some("http://h/"));
    assert_eq!(c.get("x").url, "http://h/x");
}

#[test]
fn read_keeps_undecodable_bodies_as_text() {
    match read(200, &[0xff, b'a']) {
        Ok(Json::Str(s)) => assert_eq!(s, "\u{FFFD}a"),
        other => panic!("unexpected {:?}", other),
    }
    match read(403, &[b' ', 0xff, b' ']) {
        Err(e) => {
            assert_eq!(e.code, ErrorCode::AuthRequired);
            assert_eq!(e.detail.as_deref(), Some("HTTP 403: \u{FFFD}"));
        }
        other => panic!("unexpected {:?}", other),
    }
}

#[test]
fn error_messages_are_found_in_parsed_bodies() {
    let m = |t: &str| message_of(&parse_str(t).unwrap());
    assert_eq!(m(r#"{"error": {"message": "Invalid token", "error": "x"}}"#), "Invalid token");
    assert_eq!(m(r#"{"error": {"error": "nested"}, "message": "outer"}"#), "nested");
    assert_eq!(m(r#"{"message": "outer"}"#), "outer");
    assert_eq!(m(r#"{"error": {"message": 5}, "message": "outer"}"#), "");
    assert_eq!(m(r#"{"error": "flat"}"#), "");
    assert_eq!(m(r#"["message"]"#), "");
}
