use clap::builder::RangedU64ValueParser;
use clap::{Arg, ArgAction};
use producthunt::cli::command_tree;
use producthunt::grammar::{ArgKind, ArgSpec, CommandSpec};

fn build_arg(a: &ArgSpec) -> Arg {
    let mut arg = Arg::new(a.id).help(a.help);
    if let Some(l) = a.long {
        arg = arg.long(l);
    }
    if let Some(s) = a.short {
        arg = arg.short(s);
    }
    if let Some(v) = a.value_name {
        arg = arg.value_name(v);
    }
    if let Some(d) = a.default {
        arg = arg.default_value(d);
    }
    if let Some(c) = a.conflicts_with {
        arg = arg.conflicts_with(c);
    }
    arg = match a.kind {
        ArgKind::Flag => arg.action(ArgAction::SetTrue),
        ArgKind::Count => arg.action(ArgAction::Set).value_parser(RangedU64ValueParser::<usize>::new()),
        ArgKind::Text | ArgKind::Positional => arg.action(ArgAction::Set),
    };
    arg.required(a.required).global(a.global)
}

fn build_command(c: &CommandSpec) -> clap::Command {
    let mut cmd = clap::Command::new(c.name).about(c.about).subcommand_required(c.subcommand_required);
    for a in &c.args {
        cmd = cmd.arg(build_arg(a));
    }
    for s in &c.subcommands {
        cmd = cmd.subcommand(build_command(s));
    }
    cmd
}

#[test]
fn command_tree_is_valid() {
    let tree = command_tree();
    build_command(&tree)
        .version("0.1.0")
        .propagate_version(true)
        .disable_help_subcommand(true)
        .debug_assert();
}

#[test]
fn command_tree_parses_search() {
    let cmd = build_command(&command_tree());
    let m = cmd
        .try_get_matches_from(["producthunt", "search", "super", "--max", "5", "--sort", "newest", "-a", "work", "--json"])
        .unwrap();
    assert_eq!(m.subcommand_name(), Some("search"));
    let s = m.subcommand_matches("search").unwrap();
    assert_eq!(s.get_one::<String>("query").unwrap(), "super");
    assert_eq!(*s.get_one::<usize>("max").unwrap(), 5);
    assert_eq!(s.get_one::<String>("sort").unwrap(), "newest");
    assert_eq!(s.get_one::<String>("account").unwrap(), "work");
    assert!(s.get_flag("json"));
}

#[test]
fn command_tree_defaults_and_missing_query() {
    let cmd = build_command(&command_tree());
    let m = cmd.clone().try_get_matches_from(["producthunt", "scrape", "https://x"]).unwrap();
    let s = m.subcommand_matches("scrape").unwrap();
    assert_eq!(*s.get_one::<usize>("max").unwrap(), 10);
    assert!(cmd.clone().try_get_matches_from(["producthunt", "search"]).is_err());
    let m = cmd.clone().try_get_matches_from(["producthunt", "login"]).unwrap();
    assert_eq!(m.subcommand_matches("login").unwrap().get_one::<String>("name").unwrap(), "default");
    assert!(cmd
        .try_get_matches_from(["producthunt", "accounts", "add", "w", "--api-key", "k", "--api-key-stdin"])
        .is_err());
}

#[test]
fn command_tree_names_the_commands() {
    let tree = command_tree();
    assert_eq!(tree.name, "producthunt");
    let names: Vec<&str> = tree.subcommands.iter().map(|c| c.name).collect();
    assert_eq!(names, vec!["search", "scrape", "me", "login", "accounts", "agent-readme"]);
    assert!(tree.args[0].global);
}

fn sub<'a>(c: &'a CommandSpec, name: &str) -> &'a CommandSpec {
    c.subcommands.iter().find(|s| s.name == name).unwrap()
}

fn arg<'a>(c: &'a CommandSpec, id: &str) -> &'a ArgSpec {
    c.args.iter().find(|a| a.id == id).unwrap()
}

#[test]
fn command_tree_states_defaults_and_help() {
    let tree = command_tree();
    let search = sub(&tree, "search");
    assert_eq!(arg(search, "max").default, Some("10"));
    assert_eq!(arg(search, "max").kind, ArgKind::Count);
    assert_eq!(arg(search, "sort").default, Some("popular"));
    assert_eq!(arg(search, "account").short, Some('a'));
    let m = build_command(&tree).try_get_matches_from(["producthunt", "search", "ai"]).unwrap();
    let s = m.subcommand_matches("search").unwrap();
    assert_eq!(*s.get_one::<usize>("max").unwrap(), 10);
    assert_eq!(s.get_one::<String>("sort").unwrap(), "popular");
    let login = sub(&tree, "login");
    assert_eq!(arg(login, "skip_validation").long, Some("no-verify"));
    assert_eq!(arg(login, "skip_validation").help, "Store the token without calling the API to verify it first");
    assert_eq!(arg(login, "api_key").conflicts_with, Some("api_key_stdin"));
    let accounts = sub(&tree, "accounts");
    assert!(accounts.subcommand_required);
    let names: Vec<&str> = accounts.subcommands.iter().map(|c| c.name).collect();
    assert_eq!(names, vec!["add", "list", "test", "remove"]);
    assert_eq!(arg(sub(accounts, "remove"), "yes").help, "Skip the confirmation prompt");
}
