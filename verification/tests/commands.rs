use producthunt::cli::{AccountsCommand, AuthArgs, Command, ScrapeArgs, SearchArgs};
use producthunt::client::{Client, Method};
use producthunt::commands::{run, CallKind, Task};
use producthunt::json::Json;

fn member<'a>(j: &'a Json, key: &str) -> Option<&'a Json> {
    j.get(key)
}

fn search_args(time_frame: Option<&str>) -> SearchArgs {
    SearchArgs {
        query: "super".to_string(),
        max: 5,
        sort: "newest".to_string(),
        time_frame: time_frame.map(|s| s.to_string()),
        account: Some("work".to_string()),
        api_key: None,
    }
}

#[test]
fn search_command_executes_scraper() {
    let call = match run(Command::Search(search_args(None))) {
        Task::Call(c) => c,
        other => panic!("unexpected {:?}", other),
    };
    assert_eq!(call.account.as_deref(), Some("work"));
    assert_eq!(call.notice("work"), "Searching Product Hunt (this may take 30–60s)...");
    let input = match &call.kind {
        CallKind::Search(j) => j,
        other => panic!("unexpected {:?}", other),
    };
    assert_eq!(member(input, "searchQuery").and_then(|v| v.as_str()), Some("super"));
    assert!(matches!(member(input, "maxResults"), Some(Json::Number(n)) if n.text() == "5"));
    assert_eq!(member(input, "sortBy").and_then(|v| v.as_str()), Some("newest"));
    assert!(member(input, "timeFrame").is_none());
    let req = call.request(&Client::new("tok", Some("http://h/v2/")));
    assert_eq!(req.method, Method::Post);
    assert_eq!(req.url, "http://h/v2/acts/cloud9_ai~producthunt-scraper/run-sync-get-dataset-items?token=tok");
}

#[test]
fn time_frame_only_when_not_blank() {
    let with = match run(Command::Search(search_args(Some("this-month")))) {
        Task::Call(c) => c,
        other => panic!("unexpected {:?}", other),
    };
    match &with.kind {
        CallKind::Search(j) => assert_eq!(member(j, "timeFrame").and_then(|v| v.as_str()), Some("this-month")),
        other => panic!("unexpected {:?}", other),
    }
    let blank = match run(Command::Search(search_args(Some("  ")))) {
        Task::Call(c) => c,
        other => panic!("unexpected {:?}", other),
    };
    match &blank.kind {
        CallKind::Search(j) => assert!(member(j, "timeFrame").is_none()),
        other => panic!("unexpected {:?}", other),
    }
}

#[test]
fn scrape_command_executes_scraper() {
    let args = ScrapeArgs {
        url: "https://www.producthunt.com/posts/target".to_string(),
        max: 3,
        account: None,
        api_key: Some("k".to_string()),
    };
    let call = match run(Command::Scrape(args)) {
        Task::Call(c) => c,
        other => panic!("unexpected {:?}", other),
    };
    assert_eq!(call.api_key.as_deref(), Some("k"));
    match &call.kind {
        CallKind::Scrape(j) => {
            assert_eq!(
                member(j, "dateUrl").and_then(|v| v.as_str()),
                Some("https://www.producthunt.com/posts/target")
            );
            assert!(matches!(member(j, "maxResults"), Some(Json::Number(n)) if n.text() == "3"));
        }
        other => panic!("unexpected {:?}", other),
    }
    assert_eq!(call.notice("x"), "Scraping Product Hunt (this may take 30–60s)...");
}

#[test]
fn me_and_other_commands_dispatch() {
    let call = match run(Command::Me(AuthArgs { account: Some("work".to_string()), api_key: None })) {
        Task::Call(c) => c,
        other => panic!("unexpected {:?}", other),
    };
    assert_eq!(call.notice("work"), "Authenticating with Apify as account 'work'...");
    let req = call.request(&Client::new("t", Some("http://h/v2/")));
    assert_eq!(req.method, Method::Get);
    assert_eq!(req.url, "http://h/v2/users/me");
    assert!(matches!(run(Command::AgentReadme), Task::Readme));
    assert!(matches!(
        run(Command::Accounts(AccountsCommand::List { check: true })),
        Task::Accounts(AccountsCommand::List { check: true })
    ));
}
