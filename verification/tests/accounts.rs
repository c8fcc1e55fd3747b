use producthunt::commands::accounts::{
    account_from, added_report, check_outcome, confirmation, key_status, key_store, list_report,
    new_token, opens_browser, removal, removed_report, should_check, tested_report, KeyStatus, KeyStore, RemovalStep,
};
use producthunt::config::{AccountConfig, Config};
use producthunt::error::ErrorCode;
use producthunt::json::{parse_str, Json};

fn field<'a>(j: &'a Json, k: &str) -> Option<&'a str> {
    j.get(k).and_then(|v| v.as_str())
}

#[test]
fn accounts_lifecycle() {
    // add: the token is checked against users/me and the identity recorded
    let token = new_token("work", " test_tok ", false, false).unwrap();
    assert_eq!(token, "test_tok");
    let me = parse_str(r#"{"data": {"id": "u_987", "username": "agentuser"}}"#).unwrap();
    let account = account_from(Some(&me));
    let added = added_report("work", &account);
    assert_eq!(field(&added, "status"), Some("added"));
    assert_eq!(field(&added, "name"), Some("work"));
    assert_eq!(field(&added, "identity"), Some("agentuser"));
    assert_eq!(field(&added, "userId"), Some("u_987"));
    let mut config = Config::new();
    config.insert("work", account);

    // list without and with a check
    let listed = list_report(&config, &vec![key_status(Some("test_tok"), None)], KeyStore::Plaintext);
    assert!(matches!(listed.get("count"), Some(Json::Number(n)) if n.text() == "1"));
    assert_eq!(field(&listed, "backend"), Some("plaintext"));
    match listed.get("accounts") {
        Some(Json::Array(items)) => {
            assert_eq!(field(&items[0], "name"), Some("work"));
            assert_eq!(field(&items[0], "keyStatus"), Some("stored"));
        }
        other => panic!("unexpected {:?}", other),
    }
    let checked = list_report(&config, &vec![key_status(Some("test_tok"), check_outcome(None))], KeyStore::Keychain);
    assert_eq!(field(&checked, "backend"), Some("keychain"));
    match checked.get("accounts") {
        Some(Json::Array(items)) => assert_eq!(field(&items[0], "keyStatus"), Some("valid")),
        other => panic!("unexpected {:?}", other),
    }

    // test
    let tested = tested_report("work", KeyStatus::Valid);
    assert_eq!(field(&tested, "name"), Some("work"));
    assert_eq!(field(&tested, "keyStatus"), Some("valid"));

    // remove
    assert!(matches!(removal("work", true, config.find("work").is_some()), RemovalStep::Proceed));
    assert!(config.remove("work"));
    assert_eq!(field(&removed_report("work"), "status"), Some("removed"));
    let empty = list_report(&config, &vec![], KeyStore::Plaintext);
    assert!(matches!(empty.get("count"), Some(Json::Number(n)) if n.text() == "0"));
}

#[test]
fn token_rules() {
    let e = new_token("work", "  ", false, false).unwrap_err();
    assert_eq!(e.code, ErrorCode::InvalidInput);
    assert_eq!(e.message, "No API token was given.");
    let e = new_token("work", "t", true, false).unwrap_err();
    assert_eq!(e.message, "Account 'work' already exists.");
    assert_eq!(e.remediation.as_deref(), Some("producthunt accounts add work --api-key <key> --force"));
    assert_eq!(new_token("work", "t", true, true).unwrap(), "t");
}

#[test]
fn key_status_rules() {
    assert_eq!(key_status(None, Some(true)), KeyStatus::Missing);
    assert_eq!(key_status(Some(" "), None), KeyStatus::Missing);
    assert_eq!(key_status(Some("k"), None), KeyStatus::Stored);
    assert_eq!(key_status(Some("k"), Some(false)), KeyStatus::Invalid);
    assert_eq!(check_outcome(Some(ErrorCode::AuthRequired)), Some(false));
    assert_eq!(check_outcome(Some(ErrorCode::Network)), None);
    assert_eq!(KeyStatus::Invalid.as_str(), "invalid");
}

#[test]
fn removal_rules() {
    // without --yes the user is asked first
    match removal("work", false, true) {
        RemovalStep::Confirm(q) => assert_eq!(q, "Remove account 'work' and delete its stored token? [y/N] "),
        other => panic!("unexpected {:?}", other),
    }
    assert!(matches!(removal("work", true, true), RemovalStep::Proceed));
    for name_absent in [true, false] {
        match removal("work", name_absent, false) {
            RemovalStep::Fail(e) => {
                assert_eq!(e.code, ErrorCode::NoAccount);
                assert_eq!(e.message, "No account named 'work'.");
            }
            other => panic!("unexpected {:?}", other),
        }
    }
    for yes in ["y", "Y", " yes\n", "Yes", "YES"] {
        assert!(matches!(confirmation("work", yes), RemovalStep::Proceed), "{yes:?}");
    }
    for no in ["", "\n", "n", "no", "yep", "yES"] {
        match confirmation("work", no) {
            RemovalStep::Fail(e) => {
                assert_eq!(e.code, ErrorCode::InvalidInput);
                assert_eq!(e.message, "Removing 'work' was not confirmed.");
                assert_eq!(e.remediation.as_deref(), Some("producthunt accounts remove work --yes"));
            }
            other => panic!("unexpected {:?}", other),
        }
    }
    let unchecked = account_from(None);
    assert_eq!(unchecked.identity, "");
    let _ = AccountConfig { identity: String::new(), user_id: String::new() };
}

#[test]
fn plaintext_store_is_opt_in() {
    assert_eq!(key_store(None, KeyStore::Keychain), KeyStore::Keychain);
    assert_eq!(key_store(Some("plaintext"), KeyStore::SecretService), KeyStore::Plaintext);
    assert_eq!(key_store(Some(" plaintext\n"), KeyStore::Dpapi), KeyStore::Plaintext);
    assert_eq!(key_store(Some("keychain"), KeyStore::SecretService), KeyStore::SecretService);
    assert_eq!(key_store(Some("Plaintext"), KeyStore::Keychain), KeyStore::Keychain);
    assert_eq!(KeyStore::SecretService.as_str(), "secret-service");
    assert_eq!(KeyStore::Dpapi.as_str(), "dpapi");
}

#[test]
fn only_usable_tokens_are_checked() {
    assert!(should_check(Some("tok"), true));
    assert!(!should_check(Some("tok"), false));
    assert!(!should_check(Some("  \n"), true));
    assert!(!should_check(None, true));
}

#[test]
fn login_opens_the_browser_only_when_asking() {
    assert!(opens_browser(false, false, false));
    assert!(!opens_browser(true, false, false));
    assert!(!opens_browser(false, true, false));
    assert!(!opens_browser(false, false, true));
}
