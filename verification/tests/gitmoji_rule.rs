#![allow(dead_code)]
use git_sumi::config::Config;
use git_sumi::emoji::string_emojis;
use git_sumi::emoji::unicode_emojis;
use git_sumi::errors::SumiError;
use git_sumi::lint::handle_success;
use git_sumi::lint::run_lint;
use git_sumi::parser::ParsedCommit;

fn lint_with(message: &str, config: &Config) -> (Result<ParsedCommit, SumiError>, String) {
    let mut collected: Vec<SumiError> = Vec::new();
    let result = run_lint(message, config, &mut collected);
    let mut report = String::new();
    for e in &collected {
        report.push_str(&e.message());
        report.push('\n');
    }
    if let Err(e) = &result {
        report.push_str(&e.message());
        report.push('\n');
    }
    (result, report)
}

fn assert_success(message: &str, config: &Config) {
    let (result, report) = lint_with(message, config);
    assert!(result.is_ok(), "expected success for {:?}, got: {}", message, report);
}

fn assert_failure_containing(message: &str, config: &Config, expected: &str) {
    let (result, report) = lint_with(message, config);
    assert!(result.is_err(), "expected failure for {:?}", message);
    assert!(
        report.contains(expected),
        "missing {:?} in report {:?}",
        expected,
        report
    );
}

fn gitmoji_config() -> Config {
    let mut config = Config::new();
    config.gitmoji = true;
    config
}

#[test]
fn error_two_unicode_emojis_2() {
    assert_failure_containing(
        "✨💇 test: dance to the beat of absurdity",
        &gitmoji_config(),
        "Header must contain exactly 1 emoji",
    );
}

#[test]
fn error_two_string_emojis() {
    assert_failure_containing(
        ":sparkles: feat: :sparkles: explain Inland Empire",
        &gitmoji_config(),
        "Header must contain exactly 1 emoji",
    );
}

#[test]
fn error_two_unicode_emojis() {
    assert_failure_containing(
        "✨ feat: ✨ turn the Cappella Sistina ceiling into a 3D experience",
        &gitmoji_config(),
        "Header must contain exactly 1 emoji",
    );
}

#[test]
fn success_joined_emoji() {
    let config = gitmoji_config();
    assert_success("🧑‍💻 decipher Rosetta Stone", &config);
    let success = handle_success(&config).expect("one rule is active");
    assert!(success.contains("All 1 check passed"));
}

#[test]
fn error_no_emojis() {
    assert_failure_containing(
        "understand life backwards",
        &gitmoji_config(),
        "Header must contain exactly 1 emoji",
    );
}

#[test]
fn success_no_emojis() {
    let mut config = Config::new();
    config.imperative = true;
    assert_success("add something cool", &config);
}

#[test]
fn success_one_unicode_emoji() {
    for emoji in unicode_emojis() {
        let test_case = format!("{} fix: mend Kintsugi on Ming vase", emoji);
        assert_success(&test_case, &gitmoji_config());
    }
}

#[test]
fn success_one_string_emoji() {
    for emoji in string_emojis() {
        let test_case = format!("{} fix: iron out Bladee's auto-tune", emoji);
        assert_success(&test_case, &gitmoji_config());
    }
}

#[test]
fn error_invalid_emoji_unicode() {
    assert_failure_containing(
        "🌟 style: drape UI in Sakamoto minimalism",
        &gitmoji_config(),
        "Invalid emoji",
    );
}

#[test]
fn error_invalid_emoji_string() {
    assert_failure_containing(
        ":star: feat: awesome feature",
        &gitmoji_config(),
        "Invalid emoji",
    );
}

#[test]
fn error_invalid_emoji_unicode_2() {
    assert_failure_containing("🍵 feat: awesome feature", &gitmoji_config(), "Invalid emoji");
}

#[test]
fn error_invalid_emoji_string_2() {
    assert_failure_containing(
        ":monkey: feat: awesome feature",
        &gitmoji_config(),
        "Invalid emoji",
    );
}

#[test]
fn success_emoji_without_gitmoji_whitespace() {
    let mut config = Config::new();
    config.display = true;
    config.whitespace = true;
    assert_success("test: 🧪 add unit tests for timeline consistency", &config);
}
