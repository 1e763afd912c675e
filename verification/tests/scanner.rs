use feroxbuster::scanner::ferox_scanner::{
    compose_listing_message, directory_listing_message, listing_message_in, request_outcome, user_input_command,
    FeroxScanner, MenuCmdResult, RequestOutcome, ScanAction, ScanError, ScanEvent, ScanOrder,
    ScanSettings, UserInputCommand,
};

fn settings(extract_links: bool, scan_limit: usize, collect_words: bool) -> ScanSettings {
    ScanSettings { extract_links, scan_limit, collect_words }
}

fn scanner(order: ScanOrder, s: ScanSettings) -> FeroxScanner {
    FeroxScanner::new("http://localhost/", order, vec!["admin".to_string(), "js".to_string()], s)
}

/// Runs a scan on the given outcomes and gives every action it asked for.
fn run(scanner: &FeroxScanner, events: Vec<ScanEvent>) -> Vec<String> {
    let (mut machine, first) = scanner.scan_url();
    let mut actions = vec![format!("{:?}", first)];
    for event in events {
        assert!(machine.accepts(&event), "unexpected outcome {:?}", event);
        let action = machine.step(event);
        actions.push(format!("{:?}", action));
    }
    actions
}

#[test]
fn new_keeps_its_arguments() {
    let s = settings(true, 2, false);
    let scanner = scanner(ScanOrder::Latest, s);
    assert_eq!(scanner.target_url, "http://localhost/");
    assert_eq!(scanner.order, ScanOrder::Latest);
    assert_eq!(scanner.wordlist, vec!["admin".to_string(), "js".to_string()]);
    assert_eq!(scanner.settings, s);
}

#[test]
fn initial_target_with_link_extraction_starts_with_robots() {
    let s = scanner(ScanOrder::Initial, settings(true, 0, false));
    let (machine, first) = s.scan_url();
    assert!(matches!(first, ScanAction::ExtractRobotsTxt));
    assert!(!machine.is_done());
    let s = scanner(ScanOrder::Latest, settings(true, 0, false));
    assert!(matches!(s.scan_url().1, ScanAction::LookupScan));
    let s = scanner(ScanOrder::Initial, settings(false, 0, false));
    assert!(matches!(s.scan_url().1, ScanAction::LookupScan));
}

#[test]
fn plain_scan_streams_wordlist_and_finishes() {
    let s = scanner(ScanOrder::Latest, settings(false, 0, false));
    let actions = run(
        &s,
        vec![
            ScanEvent::Completed,
            ScanEvent::Completed,
            ScanEvent::WildcardResult(None),
            ScanEvent::ListingResult(false),
            ScanEvent::Completed,
            ScanEvent::Completed,
            ScanEvent::Completed,
            ScanEvent::Completed,
        ],
    );
    assert_eq!(
        actions,
        vec![
            "LookupScan",
            "AcquirePermit",
            "TestWildcard",
            "TestDirectoryListing",
            "BuildRequester",
            "StreamWordlist",
            "RecordScanTime",
            "FinishScan",
            "Complete(Ok(()))",
        ]
    );
}

#[test]
fn scan_limit_resets_progress_and_wildcard_advances_it() {
    let s = scanner(ScanOrder::Latest, settings(false, 3, false));
    let actions = run(
        &s,
        vec![
            ScanEvent::Completed,
            ScanEvent::Completed,
            ScanEvent::Completed,
            ScanEvent::WildcardResult(Some(3)),
            ScanEvent::Completed,
        ],
    );
    assert_eq!(
        actions,
        vec![
            "LookupScan",
            "AcquirePermit",
            "ResetProgress",
            "TestWildcard",
            "AdvanceProgress(3)",
            "TestDirectoryListing",
        ]
    );
}

#[test]
fn collected_words_follow_the_wordlist() {
    let s = scanner(ScanOrder::Initial, settings(true, 0, true));
    let actions = run(
        &s,
        vec![
            ScanEvent::Completed,
            ScanEvent::Completed,
            ScanEvent::Completed,
            ScanEvent::WildcardResult(None),
            ScanEvent::ListingResult(false),
            ScanEvent::Completed,
            ScanEvent::Completed,
            ScanEvent::Collected { count: 5, bar_length: 10 },
            ScanEvent::Completed,
            ScanEvent::Completed,
            ScanEvent::Completed,
            ScanEvent::Completed,
        ],
    );
    assert_eq!(
        actions,
        vec![
            "ExtractRobotsTxt",
            "LookupScan",
            "AcquirePermit",
            "TestWildcard",
            "TestDirectoryListing",
            "BuildRequester",
            "StreamWordlist",
            "CollectWords",
            "ExtendProgress { new_length: 15, added: 5 }",
            "StreamCollectedWords",
            "RecordScanTime",
            "FinishScan",
            "Complete(Ok(()))",
        ]
    );
}

#[test]
fn listing_without_extraction_finishes_at_once() {
    let s = scanner(ScanOrder::Latest, settings(false, 0, true));
    let actions = run(
        &s,
        vec![
            ScanEvent::Completed,
            ScanEvent::Completed,
            ScanEvent::WildcardResult(None),
            ScanEvent::ListingResult(true),
            ScanEvent::Completed,
        ],
    );
    assert_eq!(
        actions,
        vec![
            "LookupScan",
            "AcquirePermit",
            "TestWildcard",
            "TestDirectoryListing",
            "FinishListing",
            "Complete(Ok(()))",
        ]
    );
}

#[test]
fn listing_with_extraction_records_and_finishes() {
    let s = scanner(ScanOrder::Latest, settings(true, 0, false));
    let actions = run(
        &s,
        vec![
            ScanEvent::Completed,
            ScanEvent::Completed,
            ScanEvent::WildcardResult(Some(1)),
            ScanEvent::Completed,
            ScanEvent::ListingResult(true),
            ScanEvent::Completed,
            ScanEvent::Completed,
            ScanEvent::Completed,
            ScanEvent::Completed,
        ],
    );
    assert_eq!(
        actions,
        vec![
            "LookupScan",
            "AcquirePermit",
            "TestWildcard",
            "AdvanceProgress(1)",
            "TestDirectoryListing",
            "ExtractDirectoryListing",
            "RecordScanTime",
            "SubtractProgressFromExpected",
            "FinishListing",
            "Complete(Ok(()))",
        ]
    );
}

#[test]
fn failures_end_the_scan_with_their_error() {
    let s = scanner(ScanOrder::Initial, settings(true, 0, false));
    let actions = run(&s, vec![ScanEvent::Failed("no robots".to_string())]);
    assert_eq!(actions, vec!["ExtractRobotsTxt", "Complete(Err(Operation(\"no robots\")))"]);

    let s = scanner(ScanOrder::Latest, settings(false, 0, false));
    let (mut machine, _) = s.scan_url();
    let action = machine.step(ScanEvent::ScanNotFound);
    assert!(machine.is_done());
    match action {
        ScanAction::Complete(Err(e)) => assert_eq!(
            e.describe(&s.target_url),
            "Could not find FeroxScan associated with http://localhost/; this shouldn't happen... exiting"
        ),
        other => panic!("unexpected action {:?}", other),
    }
    assert!(!machine.accepts(&ScanEvent::Completed));
    assert_eq!(ScanError::Operation("bad".to_string()).describe("x"), "bad");
}

#[test]
fn outcomes_of_the_wrong_kind_are_refused() {
    let s = scanner(ScanOrder::Latest, settings(false, 0, true));
    let (mut machine, _) = s.scan_url();
    assert!(!machine.accepts(&ScanEvent::WildcardResult(None)));
    assert!(machine.accepts(&ScanEvent::ScanNotFound));
    machine.step(ScanEvent::Completed);
    assert!(!machine.accepts(&ScanEvent::Failed("x".to_string())));
    machine.step(ScanEvent::Completed);
    machine.step(ScanEvent::WildcardResult(None));
    machine.step(ScanEvent::ListingResult(false));
    machine.step(ScanEvent::Completed);
    machine.step(ScanEvent::Completed);
    // the collected words would overflow the progress bar
    assert!(!machine.accepts(&ScanEvent::Collected { count: 2, bar_length: u64::MAX - 1 }));
    assert!(machine.accepts(&ScanEvent::Collected { count: 1, bar_length: u64::MAX - 1 }));
}

#[test]
fn request_outcomes() {
    assert_eq!(request_outcome(true, 4), RequestOutcome::Advance(4));
    assert_eq!(request_outcome(false, 4), RequestOutcome::RecordError);
}

#[test]
fn menu_results() {
    match user_input_command(Some(MenuCmdResult::Url("http://b/".to_string()))) {
        Some(UserInputCommand::ScanNewUrl(u)) => assert_eq!(u, "http://b/"),
        other => panic!("unexpected {:?}", other),
    }
    match user_input_command(Some(MenuCmdResult::NumCancelled(7))) {
        Some(UserInputCommand::SubtractExpected(n)) => assert_eq!(n, 7),
        other => panic!("unexpected {:?}", other),
    }
    assert!(user_input_command(Some(MenuCmdResult::NumCancelled(0))).is_none());
    assert!(user_input_command(None).is_none());
}

#[test]
fn listing_messages() {
    assert_eq!(
        compose_listing_message("L", "F", false),
        "=> L (add F to scan)"
    );
    assert_eq!(compose_listing_message("L", "F", true), "=> L");
    assert_eq!(
        listing_message_in(false, true),
        "=> \u{1b}[38;5;12mDirectory listing\u{1b}[0m (add \u{1b}[38;5;11m-e\u{1b}[0m to scan)"
    );
    assert_eq!(listing_message_in(false, false), "=> Directory listing (add -e to scan)");
    assert_eq!(listing_message_in(true, true), "=> \u{1b}[38;5;12mDirectory listing\u{1b}[0m");
    assert_eq!(listing_message_in(true, false), "=> Directory listing");
    console::set_colors_enabled(true);
    assert_eq!(
        directory_listing_message(false),
        "=> \u{1b}[38;5;12mDirectory listing\u{1b}[0m (add \u{1b}[38;5;11m-e\u{1b}[0m to scan)"
    );
    assert_eq!(directory_listing_message(true), "=> \u{1b}[38;5;12mDirectory listing\u{1b}[0m");
    console::set_colors_enabled(false);
    assert_eq!(directory_listing_message(false), "=> Directory listing (add -e to scan)");
}

#[test]
fn requester_failure_ends_scan_before_any_word() {
    let s = scanner(ScanOrder::Latest, settings(false, 0, true));
    let actions = run(
        &s,
        vec![
            ScanEvent::Completed,
            ScanEvent::Completed,
            ScanEvent::WildcardResult(None),
            ScanEvent::ListingResult(false),
            ScanEvent::Failed("no requester".to_string()),
        ],
    );
    assert_eq!(
        actions,
        vec![
            "LookupScan",
            "AcquirePermit",
            "TestWildcard",
            "TestDirectoryListing",
            "BuildRequester",
            "Complete(Err(Operation(\"no requester\")))",
        ]
    );
}
