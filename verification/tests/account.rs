use producthunt::account::{describe, resolve, with_stored_key, Resolution};
use producthunt::config::{AccountConfig, Config};
use producthunt::error::ErrorCode;

fn acc(identity: &str) -> AccountConfig {
    AccountConfig { identity: identity.to_string(), user_id: String::new() }
}

fn two_accounts() -> Config {
    let mut c = Config::new();
    c.insert("work", acc("agentuser"));
    c.insert("home", acc(""));
    c
}

#[test]
fn explicit_key_wins_before_config_is_loaded() {
    match resolve(Some("work"), Some("  k1  "), None, Some("env")) {
        Ok(Resolution::Ready(r)) => {
            assert_eq!(r.name, "(flag)");
            assert_eq!(r.api_key, "k1");
            assert!(r.config.is_none());
        }
        other => panic!("unexpected {:?}", other),
    }
}

#[test]
fn config_is_asked_for_when_no_key_is_given() {
    assert!(matches!(resolve(Some("work"), Some("   "), None, None), Ok(Resolution::NeedsConfig)));
    assert!(matches!(resolve(None, None, None, Some("env")), Ok(Resolution::NeedsConfig)));
}

#[test]
fn requested_account_needs_its_stored_key() {
    let c = two_accounts();
    match resolve(Some(" work "), None, Some(&c), Some("env_token")) {
        Ok(Resolution::NeedsKey { name, account }) => {
            assert_eq!(name, "work");
            assert_eq!(account.identity, "agentuser");
            let r = with_stored_key(name, account, Some("stored_tok".to_string())).unwrap();
            assert_eq!(r.name, "work");
            assert_eq!(r.api_key, "stored_tok");
            assert_eq!(r.config.unwrap().identity, "agentuser");
        }
        other => panic!("unexpected {:?}", other),
    }
}

#[test]
fn missing_stored_key_asks_for_it() {
    let e = with_stored_key("work".to_string(), acc(""), Some("  ".to_string())).unwrap_err();
    assert_eq!(e.code, ErrorCode::AuthRequired);
    assert_eq!(e.message, "Account 'work' has no stored API key.");
    assert_eq!(e.remediation.as_deref(), Some("producthunt accounts add work --api-key <key>"));
    assert!(with_stored_key("w".to_string(), acc(""), None).is_err());
}

#[test]
fn unknown_account_lists_configured_ones() {
    let c = two_accounts();
    let e = resolve(Some("nope"), None, Some(&c), None).unwrap_err();
    assert_eq!(e.code, ErrorCode::NoAccount);
    assert_eq!(e.message, "No account named 'nope'.");
    assert_eq!(e.detail.as_deref(), Some("Configured accounts: home, work (agentuser)"));
    assert_eq!(e.remediation.as_deref(), Some("producthunt accounts list"));
}

#[test]
fn apify_token_is_used_without_account() {
    let c = two_accounts();
    match resolve(None, None, Some(&c), Some(" env_token_456 ")) {
        Ok(Resolution::Ready(r)) => {
            assert_eq!(r.name, "(env)");
            assert_eq!(r.api_key, "env_token_456");
        }
        other => panic!("unexpected {:?}", other),
    }
}

#[test]
fn account_is_required_when_none_specified() {
    let e = resolve(None, None, Some(&Config::new()), None).unwrap_err();
    assert_eq!(e.code, ErrorCode::NoAccount);
    assert_eq!(e.exit_code(), 7);
    assert!(e.remediation.as_deref().unwrap().contains("producthunt login"));
    let c = two_accounts();
    let e = resolve(Some("  "), None, Some(&c), Some("")).unwrap_err();
    assert_eq!(e.message, "No account specified. Pass --account <name>, --api-key <key>, or set APIFY_TOKEN.");
    assert_eq!(e.remediation.as_deref(), Some("producthunt accounts list"));
}

#[test]
fn describe_lists_accounts_in_name_order() {
    assert_eq!(
        describe(&Config::new()),
        "No accounts are configured yet. Run 'producthunt accounts add <name> --api-key <key>'."
    );
    let mut c = two_accounts();
    c.insert("alpha", acc(" "));
    assert_eq!(describe(&c), "Configured accounts: alpha, home, work (agentuser)");
}

#[test]
fn resolved_client_uses_trimmed_key() {
    match resolve(None, Some(" key "), None, None) {
        Ok(Resolution::Ready(r)) => assert_eq!(r.client(None).token(), "key"),
        other => panic!("unexpected {:?}", other),
    }
}
