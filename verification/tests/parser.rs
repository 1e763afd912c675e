use feroxbuster::{help_request, time_spec_verdict, user_agent_help, valid_time_spec, HelpRequest};

#[test]
/// sanity checks that valid_time_spec correctly checks and rejects a given string
///
/// instead of having a bunch of single tests here, they're all quick and are mostly checking
/// that i didn't hose up the regex.  Going to consolidate them into a single test
fn validate_valid_time_spec_validation() {
    let float_rejected = "1.4m";
    assert!(valid_time_spec(float_rejected).is_err());

    let negative_rejected = "-1m";
    assert!(valid_time_spec(negative_rejected).is_err());

    let only_number_rejected = "1";
    assert!(valid_time_spec(only_number_rejected).is_err());

    let only_measurement_rejected = "m";
    assert!(valid_time_spec(only_measurement_rejected).is_err());

    for accepted_measurement in &["s", "m", "h", "d", "S", "M", "H", "D"] {
        // all upper/lowercase should be good
        assert!(valid_time_spec(&format!("1{}", *accepted_measurement)).is_ok());
    }

    let leading_space_rejected = " 14m";
    assert!(valid_time_spec(leading_space_rejected).is_err());

    let trailing_space_rejected = "14m ";
    assert!(valid_time_spec(trailing_space_rejected).is_err());

    let space_between_rejected = "1 4m";
    assert!(valid_time_spec(space_between_rejected).is_err());
}

#[test]
fn time_spec_refusal_names_the_input() {
    assert_eq!(
        valid_time_spec("10x"),
        Err(String::from(
            "Expected a non-negative, whole number followed by s, m, h, or d (case insensitive); received 10x"
        ))
    );
}

#[test]
fn time_spec_accepts_long_numbers_and_zero() {
    assert_eq!(valid_time_spec("0s"), Ok(()));
    assert_eq!(valid_time_spec("18446744073709551616000d"), Ok(()));
    assert_eq!(valid_time_spec("30H"), Ok(()));
}

#[test]
fn time_spec_rejects_empty_and_double_units() {
    assert!(valid_time_spec("").is_err());
    assert!(valid_time_spec("10mm").is_err());
    assert!(valid_time_spec("10m\n").is_err());
    assert!(valid_time_spec("+10m").is_err());
    assert!(valid_time_spec("10w").is_err());
}

#[test]
fn time_spec_follows_unicode_digits_and_case_folding() {
    // `\d` is Unicode-aware: an Arabic-Indic digit is a digit
    assert_eq!(valid_time_spec("\u{0663}m"), Ok(()));
    // case folding maps the long s to `s`
    assert_eq!(valid_time_spec("5\u{017F}"), Ok(()));
    assert!(valid_time_spec("5\u{00B2}m").is_err());
}

#[test]
fn time_spec_verdict_follows_the_match() {
    assert_eq!(time_spec_verdict("anything", true), Ok(()));
    assert_eq!(
        time_spec_verdict("1 4m", false),
        Err(String::from(
            "Expected a non-negative, whole number followed by s, m, h, or d (case insensitive); received 1 4m"
        ))
    );
}

fn args(list: &[&str]) -> Vec<String> {
    list.iter().map(|s| s.to_string()).collect()
}

#[test]
fn help_request_first_flag_decides() {
    assert_eq!(help_request(&args(&["feroxbuster", "-u", "http://a"])), HelpRequest::NotRequested);
    assert_eq!(help_request(&args(&["feroxbuster", "--bad", "--help"])), HelpRequest::Long);
    assert_eq!(help_request(&args(&["feroxbuster", "-h", "--help"])), HelpRequest::Short);
    assert_eq!(help_request(&args(&["feroxbuster", "--help", "-h"])), HelpRequest::Long);
    assert_eq!(help_request(&args(&[])), HelpRequest::NotRequested);
    // a flag inside a value does not count
    assert_eq!(help_request(&args(&["feroxbuster", "-hx", "--helpme"])), HelpRequest::NotRequested);
}

#[test]
fn user_agent_help_names_version() {
    assert_eq!(user_agent_help("2.4.1"), "Sets the User-Agent (default: feroxbuster/2.4.1)");
}
