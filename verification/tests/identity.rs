use producthunt::account::identity::{describe, user_id};
use producthunt::json::Json;

fn s(v: &str) -> Json {
    Json::Str(v.to_string())
}

fn obj(members: Vec<(&str, Json)>) -> Json {
    Json::Object(members.into_iter().map(|(k, v)| (k.to_string(), v)).collect())
}

#[test]
fn reads_apify_user_me() {
    let me = obj(vec![(
        "data",
        obj(vec![("id", s("u_12345")), ("username", s("johndoe")), ("email", s("john@example.com"))]),
    )]);
    assert_eq!(describe(&me), "johndoe");
    assert_eq!(user_id(&me), "u_12345");
}

#[test]
fn reads_flat_apify_user() {
    let me = obj(vec![("id", s("u_999")), ("username", s("spaceuser"))]);
    assert_eq!(describe(&me), "spaceuser");
    assert_eq!(user_id(&me), "u_999");
}

#[test]
fn identity_skips_blank_and_non_string_members() {
    let me = obj(vec![(
        "data",
        obj(vec![("username", s("   ")), ("user_name", Json::number(5)), ("email", s("a@b.c"))]),
    )]);
    assert_eq!(describe(&me), "a@b.c");
    assert_eq!(user_id(&me), "");
}

#[test]
fn identity_falls_back_to_top_level() {
    // `data` is not an object: the top level is read
    let me = obj(vec![("data", s("x")), ("name", s("Top")), ("userId", s("u_7"))]);
    assert_eq!(describe(&me), "Top");
    assert_eq!(user_id(&me), "u_7");
    // `data` holds nothing usable: the top level is read too
    let me = obj(vec![("data", obj(vec![])), ("user_id", s("u_8"))]);
    assert_eq!(user_id(&me), "u_8");
    assert_eq!(describe(&me), "");
    assert_eq!(describe(&Json::Null), "");
}
