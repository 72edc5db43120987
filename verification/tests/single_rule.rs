#![allow(dead_code)]
use git_sumi::config::Config;
use git_sumi::config::DescriptionCase;
use git_sumi::config::ParsedCommitDisplayFormat;
use git_sumi::errors::SumiError;
use git_sumi::lint::handle_success;
use git_sumi::lint::run_lint;
use git_sumi::parser::ParsedCommit;

fn lint_with(message: &str, config: &Config) -> (Result<ParsedCommit, SumiError>, String) {
    let mut collected: Vec<SumiError> = Vec::new();
    let result = run_lint(message, config, &mut collected);
    let mut report = String::new();
    for e in &collected {
        report.push_str(&e.message());
        report.push('\n');
    }
    if let Err(e) = &result {
        report.push_str(&e.message());
        report.push('\n');
    }
    (result, report)
}

fn assert_success(message: &str, config: &Config) {
    let (result, report) = lint_with(message, config);
    assert!(result.is_ok(), "expected success, got: {}", report);
}

fn assert_failure_containing(message: &str, config: &Config, expected: &str) {
    let (result, report) = lint_with(message, config);
    assert!(result.is_err(), "expected failure for {:?}", message);
    assert!(
        report.contains(expected),
        "missing {:?} in report {:?}",
        expected,
        report
    );
}

#[test]
fn success_with_capital_letter_non_conventional() {
    let mut config = Config::new();
    config.description_case = DescriptionCase::Upper;
    assert_success("Replant metaphors in Umbral's garden", &config);
}

#[test]
fn error_capital_letter_non_conventional() {
    let mut config = Config::new();
    config.description_case = DescriptionCase::Upper;
    assert_failure_containing(
        "add gitignore",
        &config,
        "Description must start with a capital letter. Try 'Add gitignore'",
    );
}

#[test]
fn error_invalid_description_case() {
    // "title" is not a valid option
    let parsed = DescriptionCase::parse_str("title");
    match parsed {
        Ok(_) => panic!("expected an unknown-case failure"),
        Err(message) => assert!(message.contains("Unknown case")),
    }
}

#[test]
fn error_bad_output_format() {
    let parsed =
        ParsedCommitDisplayFormat::parse_str("refactor(TheYellowArrow): Implement one-way journey");
    match parsed {
        Ok(_) => panic!("expected an unknown-format failure"),
        Err(message) => assert!(message.contains("Unknown format")),
    }
}

#[test]
fn success_lowercase_description() {
    let mut config = Config::new();
    config.description_case = DescriptionCase::Lower;
    assert_success("add unit tests for timeline consistency", &config);
}

#[test]
fn error_catch_conventional_body_errror() {
    let mut config = Config::new();
    config.conventional = true;
    assert_failure_containing(
        "feat: adds feature\nThis feature…",
        &config,
        "Separate header from body with a blank line",
    );
}

#[test]
fn success_valid_whitespace() {
    let mut config = Config::new();
    config.whitespace = true;
    config.conventional = true;
    assert_success("test: add unit tests", &config);
}

#[test]
fn success_valid_whitespace_gitmoji() {
    let mut config = Config::new();
    config.gitmoji = true;
    config.conventional = true;
    config.whitespace = true;
    assert_success("✅ test: add unit tests", &config);
}

#[test]
fn error_invalid_whitespace() {
    let test_cases = [
        " problem leading space",
        "problem trailing space ",
        "problem  double space",
    ];
    for &test_case in test_cases.iter() {
        let mut config = Config::new();
        config.whitespace = true;
        assert_failure_containing(test_case, &config, "Whitespace issue");
    }
}

#[test]
fn success_non_letter_cant_be_capitalised() {
    let test_cases = [" space", "✅ emoji", "1 number"];
    for &test_case in test_cases.iter() {
        let mut config = Config::new();
        config.description_case = DescriptionCase::Upper;
        assert_success(test_case, &config);
    }
}

#[test]
fn error_body_whitespace_issues() {
    let test_cases = [
        (
            "Dark Souls:  Blighttown\n\nBeware of toxic",
            "Dark Souls:🟥️🟥️Blighttown",
        ),
        (
            "Elden Ring: Gatefront Ruins \n\nNew vistas await",
            "Elden Ring: Gatefront Ruins🟥️",
        ),
        (
            "Dark Souls: Anor Londo  \n\nHome of the gods",
            "Dark Souls: Anor Londo🟥️🟥️",
        ),
        (
            "Elden Ring: The Tree of Life\n\n Uncover  its secrets",
            "🟥️Uncover🟥️🟥️its secrets",
        ),
    ];
    for &(test_case, expected_issues) in &test_cases {
        let mut config = Config::new();
        config.whitespace = true;
        assert_failure_containing(test_case, &config, "Whitespace issue");
        assert_failure_containing(test_case, &config, expected_issues);
    }
}

#[test]
fn error_whitespace_issue_pluralization() {
    let test_cases = [
        (
            "Put  Dwight's stuff in vending machine",
            "Whitespace issue detected:",
        ),
        (
            "Michael Scott: Life lessons \n\nI declare bankruptcy!",
            "Whitespace issue detected:",
        ),
        ("Put the  stapler in jello ", "Whitespace issues detected:"),
    ];
    for &(test_case, expected_issues) in &test_cases {
        let mut config = Config::new();
        config.whitespace = true;
        assert_failure_containing(test_case, &config, expected_issues);
    }
}

#[test]
fn success_whitespace_single_line_commit() {
    let mut config = Config::new();
    config.whitespace = true;
    assert_success("test: add unit tests", &config);
}

#[test]
fn error_not_lowercase_description() {
    let mut config = Config::new();
    config.description_case = DescriptionCase::Lower;
    config.conventional = true;
    assert_failure_containing(
        "fix: Correct minor typos in code",
        &config,
        "Description must start in lowercase. Try 'correct minor typos in code'",
    );
}

#[test]
fn error_not_using_imperative() {
    let test_cases = vec![
        "Adds a feature",
        "fixes a bug",
        "Implements a cool thing",
        "Updated the README",
        "Refactored the utils class",
        "Deleting unused files",
        "Merging branch 'main'",
        "Optimizing image size",
        "Reverting the previous commit",
        "created a new component",
        "Documented the main function",
        "Deprecating the old API",
        "Translated comments to English",
        "Linted the source code",
        "Tested the new feature",
        "Validating the input",
        "Released version 1.0",
        "Introduced breaking changes",
        "Synchronized the database",
        "Deploying to production",
        "Initializing the variables",
        "Automated the tests",
        "Improving performance",
        "Deleted unused files",
        "Optimised image size",
        "Reverted the previous commit",
        "Deprecated the old API",
        "Translating comments to English",
        "Translated the strings to Spanish",
        "Styled the header",
        "Validated the input",
        "Introducing breaking changes",
        "Built the project",
        "Deployed to production",
        "Initialized the variables",
        "Improved performance",
    ];
    for commit_message in test_cases {
        let mut config = Config::new();
        config.imperative = true;
        assert_failure_containing(
            commit_message,
            &config,
            "Description starts with a non-imperative verb",
        );
    }
}

#[test]
fn success_imperative_verbs() {
    let test_cases = vec![
        "Add a new feature",
        "Fix bug",
        "Implement a cool thing",
        "Update the README",
        "Refactor the utils class",
        "Delete unused files",
        "Merge branch 'main'",
        "Revert the previous commit",
        "Create a new component",
        "Document the main function",
        "Deprecate the old API",
        "Translate comments to English",
        "Lint the source code",
        "Test the new feature",
        "Style the header",
        "Validate the input",
        "Release version 1.0",
        "Introduce breaking changes",
        "Synchronize the database",
        "Build the project",
        "Deploy to production",
        "Initialise the variables",
        "Automate the tests",
        "Improve performance",
        "Clarify the documentation",
        "Secure the application",
        "Redefine the constants",
        "Finalize the implementation",
        "Format the code",
    ];
    for commit_message in test_cases {
        let mut config = Config::new();
        config.imperative = true;
        assert_success(commit_message, &config);
    }
}

#[test]
fn error_body_too_long_custom() {
    let long_body = "a".repeat(51);
    let full_message = format!("stare into the void\n\n{}", long_body);
    let mut config = Config::new();
    config.max_body_length = 50;
    assert_failure_containing(&full_message, &config, "Line number 3 is too long (51 > 50)");
}

#[test]
fn success_body_long_custom() {
    let long_body = "a".repeat(50);
    let full_message = format!("style: nuance Yeat's vocal fry\n\n{}", long_body);
    let mut config = Config::new();
    config.max_body_length = 50;
    assert_success(&full_message, &config);
}

#[test]
fn success_body_long_custom_title_long_custom() {
    let long_body = "a".repeat(50);
    let full_message = format!("rehearse Kamasi Washington's scales\n\n{}", long_body);
    let mut config = Config::new();
    config.max_body_length = 50;
    config.max_header_length = 50;
    assert_success(&full_message, &config);
}

#[test]
fn error_ends_with_period() {
    let mut config = Config::new();
    config.no_period = true;
    assert_failure_containing(
        "hack the mainframe.",
        &config,
        "Header must not end with a period",
    );
}

#[test]
fn success_ends_with_period() {
    let mut config = Config::new();
    config.no_period = true;
    assert_success("hack the mainframe", &config);
}

#[test]
fn error_whitespace_body_missing_newline() {
    let commit_message = "unleash robot unicorns\nThey're now galloping in the meadows of our code.";
    let mut config = Config::new();
    config.whitespace = true;
    assert_failure_containing(
        commit_message,
        &config,
        "Separate header from body with a blank line",
    );
}

#[test]
fn error_whitespace_body_missing_newline_conventional() {
    let full_message = "feat: awesome feature\nThis feature…";
    let mut config = Config::new();
    config.conventional = true;
    assert_failure_containing(
        full_message,
        &config,
        "Separate header from body with a blank line",
    );
}

#[test]
fn success_body_has_newline() {
    let full_message = "feat: awesome feature\n\nThe body";
    let mut config = Config::new();
    config.whitespace = true;
    assert_success(full_message, &config);
}

#[test]
fn error_empty_header() {
    let mut config = Config::new();
    config.gitmoji = true;
    assert_failure_containing("", &config, "Header must not be empty");
}

#[test]
fn success_stdin_conventional() {
    let input = "refactor: relocate Starry Night to Impressionist wing";
    let mut config = Config::new();
    config.conventional = true;
    assert_success(input, &config);
    let success = handle_success(&config).expect("one rule is active");
    assert!(success.contains("All 1 check passed"));
}

#[test]
fn error_custom_title_too_long() {
    let mut config = Config::new();
    config.max_header_length = 50;
    let message = "a".repeat(51);
    assert_failure_containing(&message, &config, "Line number 1 is too long (51 > 50)");
}

#[test]
fn error_when_header_does_not_match_jira_pattern() {
    let test_cases = ["Fix issue with user login", "JIRA1234: Missing hyphen"];
    for &test_case in test_cases.iter() {
        let mut config = Config::new();
        config.header_pattern = String::from("^JIRA-\\d+:");
        assert_failure_containing(
            test_case,
            &config,
            "Header does not match the required pattern",
        );
    }
}

#[test]
fn success_with_valid_jira_ticket_in_header() {
    let test_case = "JIRA-1234: Fix issue with user login";
    let mut config = Config::new();
    config.header_pattern = String::from("^JIRA-\\d+:");
    assert_success(test_case, &config);
}

#[test]
fn error_when_using_unsupported_regex_feature() {
    let mut config = Config::new();
    config.header_pattern = String::from("(?!.*WIP)");
    assert_failure_containing(
        "WIP: Start project documentation",
        &config,
        "Header regex pattern '(?!.*WIP)' is invalid",
    );
}
