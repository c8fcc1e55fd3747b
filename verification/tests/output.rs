use producthunt::json::{parse_str, to_json_bytes, to_json_pretty, Json};
use producthunt::output::{render, yaml};

fn y(text: &str) -> String {
    yaml(&parse_str(text).unwrap())
}

#[test]
fn yaml_is_default_output() {
    let out = y(r#"[{"name": "ToolA", "votes": 100}]"#);
    assert_eq!(out, "- name: ToolA\n  votes: 100\n");
    assert!(out.contains("name: ToolA"));
    assert!(out.contains("votes: 100"));
}

#[test]
fn yaml_nests_and_quotes() {
    assert_eq!(y(r#"{"a": {"b": 1}, "c": [1, "x y"]}"#), "a:\n  b: 1\nc:\n  - 1\n  - x y\n");
    assert_eq!(
        y(r#"{"url": "https://www.producthunt.com/posts/superapp"}"#),
        "url: \"https://www.producthunt.com/posts/superapp\"\n"
    );
    assert_eq!(y(r#"{"e": {}, "f": [], "g": null, "h": true, "i": ""}"#), "e: {}\nf: []\ng: null\nh: true\ni: \"\"\n");
    assert_eq!(y(r#"["yes", "no", "1", "plain text"]"#), "- \"yes\"\n- \"no\"\n- \"1\"\n- plain text\n");
    assert_eq!(y(r#"[[1, 2], {"k": [3]}]"#), "- - 1\n  - 2\n- k:\n    - 3\n");
    assert_eq!(yaml(&Json::Str("line\nbreak".to_string())), "\"line\\nbreak\"\n");
}

#[test]
fn json_output_is_pretty() {
    let v = parse_str(r#"[{"name": "ToolA", "votes": 100, "rating": 4.5, "tags": []}]"#).unwrap();
    let pretty = "[\n  {\n    \"name\": \"ToolA\",\n    \"rating\": 4.5,\n    \"tags\": [],\n    \"votes\": 100\n  }\n]";
    assert_eq!(to_json_pretty(&v), pretty);
    assert_eq!(render(&v, true), format!("{pretty}\n"));
    assert_eq!(render(&v, false), yaml(&v));
    assert_eq!(render(&v, false), "- name: ToolA\n  rating: 4.5\n  tags: []\n  votes: 100\n");
}

#[test]
fn json_bytes_are_compact() {
    let v = Json::Object(vec![
        ("b".to_string(), Json::number(7)),
        ("a".to_string(), Json::Array(vec![Json::Null, Json::Bool(false), Json::string("x\"y")])),
    ]);
    assert_eq!(to_json_bytes(&v), br#"{"a":[null,false,"x\"y"],"b":7}"#.to_vec());
    assert_eq!(to_json_bytes(&Json::number(u64::MAX)), u64::MAX.to_string().into_bytes());
    // numbers read from a document are written back as they were read
    let read = parse_str("[-3, 0.25, 1e3, 12345678901234567890]").unwrap();
    assert_eq!(to_json_bytes(&read), b"[-3,0.25,1000.0,12345678901234567890]".to_vec());
}

#[test]
fn yaml_quotes_control_characters() {
    assert_eq!(yaml(&Json::string("a\u{85}b")), "\"a\u{85}b\"\n");
    assert_eq!(yaml(&Json::string("Zeta\u{9f}")), "\"Zeta\u{9f}\"\n");
    assert_eq!(yaml(&Json::string("caf\u{e9}")), "caf\u{e9}\n");
    assert_eq!(yaml(&Json::string("\u{a0}x")), "\"\u{a0}x\"\n");
    assert_eq!(yaml(&Json::string("\u{e9}t\u{e9}")), "\u{e9}t\u{e9}\n");
    assert_eq!(yaml(&Json::string("tab\there \\ \u{1}\u{1f}")), "\"tab\\there \\\\ \\u0001\\u001f\"\n");
    assert_eq!(yaml(&Json::string("\u{8}\u{c}\r")), "\"\\b\\f\\r\"\n");
}
