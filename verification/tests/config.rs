use producthunt::config::{AccountConfig, Config};

fn acc(identity: &str, id: &str) -> AccountConfig {
    AccountConfig { identity: identity.to_string(), user_id: id.to_string() }
}

fn names(c: &Config) -> Vec<String> {
    c.sorted().iter().map(|(n, _)| n.clone()).collect()
}

#[test]
fn accounts_stay_in_name_order() {
    let mut c = Config::new();
    assert!(c.is_empty());
    c.insert("work", acc("a", "1"));
    c.insert("Zed", acc("b", "2"));
    c.insert("alpha", acc("c", "3"));
    c.insert("al", acc("d", "4"));
    assert_eq!(names(&c), vec!["Zed", "al", "alpha", "work"]);
    assert_eq!(c.len(), 4);
}

#[test]
fn insert_replaces_and_remove_forgets() {
    let mut c = Config::new();
    c.insert("work", acc("old", "1"));
    c.insert("work", acc("new", "2"));
    assert_eq!(c.len(), 1);
    let (name, a) = c.find("work").unwrap();
    assert_eq!(name, "work");
    assert_eq!(a.identity, "new");
    assert_eq!(a.user_id, "2");
    assert!(c.find("Work").is_none());
    assert!(!c.remove("other"));
    assert!(c.remove("work"));
    assert!(c.find("work").is_none());
    assert_eq!(c.len(), 0);
}
