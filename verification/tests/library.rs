use producthunt::error::{Error, ErrorCode};
use producthunt::json::{parse_str, Json};
use producthunt::readme::{print, Document, ACTOR_NAME};
use producthunt::text::{decimal_string, is_blank_str, str_lt, trimmed};

#[test]
fn exit_codes_follow_the_table() {
    let all = [
        (ErrorCode::Error, 1, "error"),
        (ErrorCode::Network, 2, "network"),
        (ErrorCode::AuthRequired, 3, "auth_required"),
        (ErrorCode::NotFound, 4, "not_found"),
        (ErrorCode::RateLimited, 5, "rate_limited"),
        (ErrorCode::InvalidInput, 6, "invalid_input"),
        (ErrorCode::NoAccount, 7, "no_account"),
    ];
    for (code, exit, name) in all {
        assert_eq!(code.exit_code(), exit);
        assert_eq!(code.as_str(), name);
    }
}

#[test]
fn envelope_carries_code_message_detail_remediation() {
    let e = Error::new(ErrorCode::AuthRequired, "The Apify API token was rejected or is invalid.")
        .detail("HTTP 401")
        .fix("producthunt login work --force");
    let env = e.envelope();
    assert_eq!(env.get("error").and_then(|v| v.as_str()), Some("The Apify API token was rejected or is invalid."));
    assert_eq!(env.get("code").and_then(|v| v.as_str()), Some("auth_required"));
    assert_eq!(env.get("detail").and_then(|v| v.as_str()), Some("HTTP 401"));
    assert_eq!(env.get("remediation").and_then(|v| v.as_str()), Some("producthunt login work --force"));
    let bare = Error::new(ErrorCode::Error, "x").envelope();
    assert!(bare.get("detail").is_none());
    assert!(bare.get("remediation").is_none());
}

#[test]
fn agent_readme_markdown_and_json() {
    match print(false) {
        Document::Text(t) => assert!(t.contains("# producthunt - agent operating manual")),
        other => panic!("unexpected {:?}", other),
    }
    match print(true) {
        Document::Data(d) => {
            assert_eq!(d.get("tool").and_then(|v| v.as_str()), Some("producthunt"));
            assert_eq!(d.get("actor").and_then(|v| v.as_str()), Some("cloud9_ai~producthunt-scraper"));
            let codes = d.get("exitCodes").unwrap();
            assert_eq!(codes.get("0").and_then(|v| v.as_str()), Some("ok"));
            assert_eq!(
                codes.get("3").and_then(|v| v.as_str()),
                Some("auth_required - stop, surface the remediation to a human")
            );
            match d.get("rules") {
                Some(Json::Array(rules)) => assert_eq!(rules.len(), 5),
                other => panic!("unexpected {:?}", other),
            }
        }
        other => panic!("unexpected {:?}", other),
    }
    assert_eq!(ACTOR_NAME, "cloud9_ai~producthunt-scraper");
}

#[test]
fn text_helpers() {
    assert_eq!(trimmed("\u{3000} a b \t\n"), "a b");
    assert_eq!(trimmed("   "), "");
    assert!(is_blank_str(" \u{85}\u{a0}"));
    assert!(!is_blank_str(" x "));
    assert_eq!(decimal_string(0), "0");
    assert_eq!(decimal_string(420), "420");
    assert_eq!(decimal_string(u64::MAX), u64::MAX.to_string());
    assert!(str_lt("Zed", "al"));
    assert!(str_lt("al", "alpha"));
    assert!(!str_lt("alpha", "alpha"));
}

#[test]
fn json_parsing_and_lookup() {
    let j = parse_str(r#"{"b": [1, "two", null, true], "a": {"x": "y"}}"#).unwrap();
    assert!(j.is_object());
    assert_eq!(j.get("a").and_then(|a| a.get("x")).and_then(|x| x.as_str()), Some("y"));
    match j.get("b") {
        Some(Json::Array(items)) => {
            assert!(matches!(&items[0], Json::Number(n) if n.text() == "1"));
            assert_eq!(items[1].as_str(), Some("two"));
            assert!(matches!(items[2], Json::Null));
            assert!(matches!(items[3], Json::Bool(true)));
        }
        other => panic!("unexpected {:?}", other),
    }
    assert!(j.get("missing").is_none());
    assert!(Json::string("s").get("a").is_none());
    assert!(parse_str("{oops").is_none());
}
