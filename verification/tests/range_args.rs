use git_sumi::config::validate_range_args;

fn error_of(
    from: Option<&str>,
    to: Option<&str>,
    has_positional_message: bool,
    has_file: bool,
    commit: bool,
    force: bool,
) -> String {
    let from = from.map(String::from);
    let to = to.map(String::from);
    match validate_range_args(&from, &to, has_positional_message, has_file, commit, force) {
        Ok(()) => panic!("expected the range arguments to be refused"),
        Err(e) => e.message(),
    }
}

#[test]
fn error_to_without_from() {
    let message = error_of(None, Some("HEAD"), false, false, false, false);
    assert!(message.contains("required"), "message: {}", message);
}

#[test]
fn error_from_without_to() {
    let message = error_of(Some("HEAD"), None, false, false, false, false);
    assert!(message.contains("required"), "message: {}", message);
}

#[test]
fn error_conflicts_with_positional() {
    // a positional commit message next to --from/--to
    let message = error_of(Some("HEAD~1"), Some("HEAD"), true, false, false, false);
    assert!(message.contains("cannot be used with"), "message: {}", message);
}

#[test]
fn error_empty_from_value() {
    let message = error_of(Some(""), Some("HEAD"), false, false, false, false);
    assert!(message.contains("value must not be empty"), "message: {}", message);
}

#[test]
fn error_empty_to_value() {
    let message = error_of(Some("HEAD"), Some(""), false, false, false, false);
    assert!(message.contains("value must not be empty"), "message: {}", message);
}

#[test]
fn error_whitespace_only_from_value() {
    let message = error_of(Some("  "), Some("HEAD"), false, false, false, false);
    assert!(message.contains("value must not be empty"), "message: {}", message);
}

#[test]
fn error_conflicts_with_file_flag() {
    let message = error_of(Some("HEAD~1"), Some("HEAD"), false, true, false, false);
    assert!(message.contains("cannot be used with"), "message: {}", message);
}

#[test]
fn error_range_accepts_clean_arguments() {
    let from = Some(String::from("HEAD~3"));
    let to = Some(String::from("HEAD"));
    assert!(validate_range_args(&from, &to, false, false, false, false).is_ok());
    assert!(validate_range_args(&None, &None, true, false, true, true).is_ok());
}
