use branch_selector::branch::{
    listing_command, load_listing, parse_listing, status_line, widest_name, Branch, DeleteMode,
    Invocation,
};

fn branch(name: &str, status: &str) -> Branch {
    Branch { name: name.to_owned(), status: status.to_owned() }
}

fn args(words: &[&str]) -> Vec<String> {
    words.iter().map(|word| word.to_string()).collect()
}

#[test]
fn from_line_with_a_star_is_the_current_branch() {
    let parsed = Branch::from_line("* main");
    assert_eq!(parsed.name, "main");
    assert_eq!(parsed.status, "(current branch)");
}

#[test]
fn from_line_without_a_star_has_no_status() {
    let parsed = Branch::from_line("  feature/a");
    assert_eq!(parsed.name, "feature/a");
    assert_eq!(parsed.status, "");
}

#[test]
fn from_line_strips_any_prefix_of_two_characters() {
    assert_eq!(Branch::from_line("+ worktree"), branch("worktree", ""));
    assert_eq!(Branch::from_line("xybranch"), branch("branch", ""));
    assert_eq!(Branch::from_line("*xbranch"), branch("branch", "(current branch)"));
    assert_eq!(Branch::from_line(" *branch"), branch("branch", ""));
}

#[test]
fn from_line_of_a_bare_prefix_has_an_empty_name() {
    assert_eq!(Branch::from_line("  "), branch("", ""));
    assert_eq!(Branch::from_line("* "), branch("", "(current branch)"));
}

#[test]
fn from_line_keeps_the_rest_of_the_line_as_it_is() {
    assert_eq!(Branch::from_line("  a b  "), branch("a b  ", ""));
    assert_eq!(
        Branch::from_line("* (HEAD detached at 1a2b3c4)"),
        branch("(HEAD detached at 1a2b3c4)", "(current branch)")
    );
    assert_eq!(Branch::from_line("  d\u{e9}j\u{e0}-vu"), branch("d\u{e9}j\u{e0}-vu", ""));
}

#[test]
fn from_line_strips_characters_not_bytes() {
    assert_eq!(Branch::from_line("\u{e9}\u{e9}name"), branch("name", ""));
}

#[test]
fn parse_line_wants_a_whole_prefix() {
    assert_eq!(Branch::parse_line(""), None);
    assert_eq!(Branch::parse_line("*"), None);
    assert_eq!(Branch::parse_line(" "), None);
    assert_eq!(Branch::parse_line("\u{e9}"), None);
    assert_eq!(Branch::parse_line("  "), Some(branch("", "")));
    assert_eq!(Branch::parse_line("* main"), Some(branch("main", "(current branch)")));
    assert_eq!(Branch::parse_line("  topic"), Some(branch("topic", "")));
}

#[test]
fn parse_listing_reads_one_branch_from_each_line() {
    assert_eq!(
        parse_listing("* main\n  feature/a\n  feature/b\n"),
        Some(vec![
            branch("main", "(current branch)"),
            branch("feature/a", ""),
            branch("feature/b", ""),
        ])
    );
}

#[test]
fn parse_listing_keeps_the_order_of_the_lines() {
    assert_eq!(
        parse_listing("  zeta\n  alpha\n* mid"),
        Some(vec![branch("zeta", ""), branch("alpha", ""), branch("mid", "(current branch)")])
    );
}

#[test]
fn parse_listing_of_nothing_is_no_branch() {
    assert_eq!(parse_listing(""), Some(vec![]));
}

#[test]
fn parse_listing_takes_both_line_endings() {
    assert_eq!(
        parse_listing("* main\r\n  topic\r\n"),
        Some(vec![branch("main", "(current branch)"), branch("topic", "")])
    );
}

#[test]
fn parse_listing_refuses_a_line_without_prefix() {
    assert_eq!(parse_listing("\n"), None);
    assert_eq!(parse_listing("* main\n\n  topic\n"), None);
    assert_eq!(parse_listing("* main\n \n"), None);
    assert_eq!(parse_listing("* main\n  topic\nx"), None);
}

#[test]
fn widest_name_is_the_greatest_byte_length() {
    let branches =
        vec![branch("main", "(current branch)"), branch("feature/a", ""), branch("dev", "")];
    assert_eq!(widest_name(&branches), 9);
}

#[test]
fn widest_name_of_no_branch_is_zero() {
    assert_eq!(widest_name(&vec![]), 0);
}

#[test]
fn widest_name_ignores_the_status() {
    let branches = vec![branch("a", "a very long status line"), branch("bcd", "")];
    assert_eq!(widest_name(&branches), 3);
}

#[test]
fn widest_name_counts_bytes() {
    let branches = vec![branch("abcde", ""), branch("d\u{e9}j\u{e0}", "")];
    assert_eq!(widest_name(&branches), 6);
}

#[test]
fn widest_name_may_come_first_or_last() {
    assert_eq!(widest_name(&vec![branch("longest", ""), branch("b", "")]), 7);
    assert_eq!(widest_name(&vec![branch("b", ""), branch("longest", "")]), 7);
    assert_eq!(widest_name(&vec![branch("", "")]), 0);
}

#[test]
fn load_listing_reads_branches_and_width() {
    let loaded = load_listing(b"* main\n  feature/a\n  feature/b\n");
    assert_eq!(
        loaded,
        Some((
            vec![branch("main", "(current branch)"), branch("feature/a", ""), branch("feature/b", "")],
            9
        ))
    );
}

#[test]
fn load_listing_of_nothing_is_no_branch_and_no_width() {
    assert_eq!(load_listing(b""), Some((vec![], 0)));
}

#[test]
fn load_listing_replaces_what_is_not_utf8() {
    let loaded = load_listing(b"  caf\xe9\n* main\n");
    assert_eq!(
        loaded,
        Some((vec![branch("caf\u{fffd}", ""), branch("main", "(current branch)")], 6))
    );
}

#[test]
fn load_listing_refuses_a_line_without_prefix() {
    assert_eq!(load_listing(b"* main\n\n"), None);
    assert_eq!(load_listing(b"\xff\n"), None);
}

#[test]
fn delete_mode_flags() {
    assert_eq!(DeleteMode::Soft.flag(), "-d");
    assert_eq!(DeleteMode::Forced.flag(), "-D");
}

#[test]
fn delete_command_names_the_branch() {
    let topic = branch("feature/b", "");
    assert_eq!(
        topic.delete_command(DeleteMode::Soft),
        Invocation { program: "git".to_owned(), args: args(&["branch", "-d", "feature/b"]) }
    );
    assert_eq!(
        topic.delete_command(DeleteMode::Forced),
        Invocation { program: "git".to_owned(), args: args(&["branch", "-D", "feature/b"]) }
    );
    assert_eq!(topic, branch("feature/b", ""));
}

#[test]
fn checkout_command_reports_progress() {
    let topic = branch("feature/a", "old status");
    assert_eq!(
        topic.checkout_command(),
        Invocation {
            program: "git".to_owned(),
            args: args(&["checkout", "--progress", "feature/a"])
        }
    );
}

#[test]
fn listing_command_asks_for_plain_local_branches() {
    assert_eq!(
        listing_command(),
        Invocation {
            program: "git".to_owned(),
            args: args(&["branch", "--list", "--color=never"])
        }
    );
}

#[test]
fn status_line_puts_errors_before_output() {
    assert_eq!(status_line("warning\n", "Deleted branch x.\n"), "warning Deleted branch x. ");
    assert_eq!(status_line("", ""), "");
    assert_eq!(status_line("", "out"), "out");
    assert_eq!(status_line("err", ""), "err");
}

#[test]
fn set_status_flattens_what_was_printed() {
    let mut topic = branch("feature/b", "");
    topic.set_status(
        "error: The branch 'feature/b' is not fully merged.\nIf you are sure you want to delete it, run 'git branch -D feature/b'.\n",
        "",
    );
    assert_eq!(topic.name, "feature/b");
    assert_eq!(
        topic.status,
        "error: The branch 'feature/b' is not fully merged. If you are sure you want to delete it, run 'git branch -D feature/b'. "
    );
    assert!(!topic.status.contains('\n'));
}

#[test]
fn set_status_overwrites_the_status_before() {
    let mut main = branch("main", "(current branch)");
    main.set_status("", "Deleted branch main (was 1a2b3c4).\n");
    assert_eq!(main, branch("main", "Deleted branch main (was 1a2b3c4). "));
    main.set_status("", "");
    assert_eq!(main, branch("main", ""));
}

#[test]
fn record_output_reads_bytes_as_text() {
    let mut topic = branch("topic", "");
    topic.record_output(b"error: branch 'topic' not found.\n", b"");
    assert_eq!(topic, branch("topic", "error: branch 'topic' not found. "));
    topic.record_output(b"one\n", b"two\nthree\n");
    assert_eq!(topic, branch("topic", "one two three "));
}

#[test]
fn record_output_replaces_what_is_not_utf8() {
    let mut topic = branch("topic", "");
    topic.record_output(b"bad \xff\xfe byte\n", b"caf\xc3\xa9\n");
    assert_eq!(topic, branch("topic", "bad \u{fffd}\u{fffd} byte caf\u{e9} "));
}

#[test]
fn command_line_joins_program_and_arguments() {
    let topic = branch("feature/b", "");
    assert_eq!(topic.delete_command(DeleteMode::Soft).command_line(), "git branch -d feature/b");
    assert_eq!(topic.delete_command(DeleteMode::Forced).command_line(), "git branch -D feature/b");
    assert_eq!(topic.checkout_command().command_line(), "git checkout --progress feature/b");
    assert_eq!(listing_command().command_line(), "git branch --list --color=never");
    assert_eq!(Invocation { program: "git".to_owned(), args: vec![] }.command_line(), "git");
}
