#![allow(dead_code)]
use git_sumi::config::adjust_config;
use git_sumi::config::Config;
use git_sumi::config::DescriptionCase;
use git_sumi::errors::SumiError;
use git_sumi::lint::handle_success;
use git_sumi::lint::run_lint;
use git_sumi::lint::run_lint_on_each_line;
use git_sumi::parser::ParsedCommit;

fn lint_with(message: &str, config: &Config) -> (Result<ParsedCommit, SumiError>, String) {
    let mut collected: Vec<SumiError> = Vec::new();
    let result = run_lint(message, config, &mut collected);
    let mut report = String::new();
    for e in &collected {
        report.push_str(&e.message());
        report.push('\n');
    }
    if let Err(e) = &result {
        report.push_str(&e.message());
        report.push('\n');
    }
    (result, report)
}

fn lint_lines_with(
    message: &str,
    config: &Config,
) -> (Result<Vec<ParsedCommit>, SumiError>, String) {
    let mut collected: Vec<SumiError> = Vec::new();
    let result = run_lint_on_each_line(message, config, &mut collected);
    let mut report = String::new();
    for e in &collected {
        report.push_str(&e.message());
        report.push('\n');
    }
    if let Err(e) = &result {
        report.push_str(&e.message());
        report.push('\n');
    }
    (result, report)
}

fn assert_success(message: &str, config: &Config) {
    let (result, report) = lint_with(message, config);
    assert!(result.is_ok(), "expected success for {:?}, got: {}", message, report);
}

fn assert_failure_containing(message: &str, config: &Config, expected: &str) {
    let (result, report) = lint_with(message, config);
    assert!(result.is_err(), "expected failure for {:?}", message);
    assert!(
        report.contains(expected),
        "missing {:?} in report {:?}",
        expected,
        report
    );
}

#[test]
fn error_conventional_commit_period() {
    let mut config = Config::new();
    config.no_period = true;
    config.conventional = true;
    assert_failure_containing(
        "docs(Kokoro): Annotate Sensei's last letter.",
        &config,
        "Header must not end with a period",
    );
}

#[test]
fn success_breaking_change_with_gitmoji() {
    let mut config = Config::new();
    config.conventional = true;
    config.gitmoji = true;
    let (result, report) = lint_with(
        "✨ feat(theme-switcher)!: respect theme_default when JS is enabled",
        &config,
    );
    let parsed = result.expect(&report);
    assert_eq!(parsed.is_breaking, Some(true));
}

#[test]
fn success_with_capital_letter_conventional() {
    let mut config = Config::new();
    config.conventional = true;
    config.description_case = DescriptionCase::Upper;
    assert_success(
        "fix(A Confederacy of Dunces): Tweak Ignatius' valve settings",
        &config,
    );
}

#[test]
fn error_without_capital_letter_conventional() {
    let mut config = Config::new();
    config.conventional = true;
    config.description_case = DescriptionCase::Upper;
    assert_failure_containing(
        "chore(SegensderErde): sow Hamsun's earth blessing",
        &config,
        "Description must start with a capital letter. Try 'Sow Hamsun's earth blessing'",
    );
}

#[test]
fn success_capital_letter_conventional_gitmoji() {
    let mut config = Config::new();
    config.conventional = true;
    config.gitmoji = true;
    config.description_case = DescriptionCase::Upper;
    assert_success("💄 style: Change something", &config);
    let success = handle_success(&config).expect("three rules are active");
    assert!(success.contains("3 checks passed"));
}

#[test]
fn error_capital_letter_conventional_gitmoji() {
    let mut config = Config::new();
    config.conventional = true;
    config.gitmoji = true;
    config.description_case = DescriptionCase::Upper;
    assert_failure_containing(
        "💄 style(language-switcher): update icon to be lighter (#173)",
        &config,
        "Description must start with a capital letter. Try 'Update icon to be lighter (#173)'",
    );
}

#[test]
fn success_conventional_whitespace_multiple_line_commit() {
    let commit_message = "test: add unit tests\n\nMore details.";
    let mut config = Config::new();
    config.conventional = true;
    config.whitespace = true;
    assert_success(commit_message, &config);
    let success = handle_success(&config).expect("two rules are active");
    assert!(success.contains("2 checks passed"));
}

#[test]
fn error_multiple_errors_in_commit() {
    let mut config = Config::new();
    config.no_period = true;
    config.description_case = DescriptionCase::Upper;
    config.types_allowed = vec![String::from("feat,fix")];
    adjust_config(&mut config);
    let (result, report) = lint_with("chore: add gitignore.", &config);
    assert!(result.is_err());
    assert!(report.contains("Found 3 linting errors"), "report: {}", report);
    assert!(report.contains("Header must not end with a period"));
    assert!(report.contains("Description must start with a capital letter"));
    assert!(report.contains("Invalid commit type"));
}

#[test]
fn error_conventional_fails_parsing_proceeds() {
    let mut config = Config::new();
    config.gitmoji = true;
    config.conventional = true;
    let (result, report) = lint_with("test(): add unit tests\nMore details.", &config);
    assert!(result.is_err());
    assert!(report.contains("Missing type in the commit summary"), "report: {}", report);
    assert!(report.contains("Found 3 linting errors"), "report: {}", report);
    assert!(report.contains("Separate header from body with a blank line"));
    assert!(report.contains("Header must contain exactly 1 emoji, found 0"));
}

#[test]
fn success_valid_conventional_commit_with_gitmoji() {
    let mut config = Config::new();
    config.gitmoji = true;
    config.types_allowed = vec![String::from(
        "feat, fix, chore, docs, style, perf, style, refactor, test",
    )];
    adjust_config(&mut config);
    assert_success(
        ":sparkles: feat(LostInTranslation): decihper Bill Murray's whisper",
        &config,
    );
    let success = handle_success(&config).expect("three rules are active");
    assert!(success.contains("3 checks passed"));
}

#[test]
fn error_invalid_conventional_commit_title_length() {
    let mut config = Config::new();
    config.conventional = true;
    config.max_header_length = 10;
    assert_failure_containing(
        "docs(Camus): Clarify The Stranger's ending",
        &config,
        "Line number 1 is too long (42 > 10)",
    );
}

#[test]
fn error_invalid_conventional_commit_body_length() {
    let full_message =
        "chore(HeroOfOurTime): Standardize Lermontov's poetic forms\n\nThis is an extremely long body description...";
    let mut config = Config::new();
    config.conventional = true;
    config.max_body_length = 10;
    assert_failure_containing(full_message, &config, "Line number 3 is too long (45 > 10)");
}

#[test]
fn error_invalid_conventional_commit_invalid_gitmoji() {
    let mut config = Config::new();
    config.gitmoji = true;
    config.conventional = true;
    assert_failure_containing(
        ":invalidmoji: style(ConfederacyOfDunces): Refactor Ignatius' wardrobe",
        &config,
        "Invalid emoji",
    );
}

#[test]
fn success_quiet() {
    let mut config = Config::new();
    config.quiet = true;
    config.conventional = true;
    assert_success("chore(Sartre): Update dependency existentialism to v4.2", &config);
    assert!(handle_success(&config).is_none());
}

#[test]
fn error_conventional_gitmoji_imperative() {
    let mut config = Config::new();
    config.gitmoji = true;
    config.conventional = true;
    config.imperative = true;
    assert_failure_containing(
        ":recycle: refactor: changes the code",
        &config,
        "Description starts with a non-imperative verb: 'changes'",
    );
}

#[test]
fn success_conventional_commits_and_emoji_formats() {
    const CONVENTIONAL_COMMITS_AND_EMOJI_FORMATS: [&str; 7] = [
        "{emoji} feat: awesome feature",
        "{emoji}fix: awesome feature",
        "{emoji} refactor:awesome feature",
        "{emoji}docs:awesome feature",
        "style{emoji}: awesome feature",
        "perf: awesome feature{emoji}",
        "test: {emoji}awesome feature",
    ];
    const EMOJIS: [&str; 10] = [
        "🚀",
        "✨",
        "🔧",
        ":memo:",
        ":lock:",
        ":lipstick:",
        "♻️",
        ":heavy_minus_sign:",
        "🔀",
        "👽️",
    ];
    for &emoji in &EMOJIS {
        for &format in &CONVENTIONAL_COMMITS_AND_EMOJI_FORMATS {
            let test_case = format.replace("{emoji}", emoji);
            let mut config = Config::new();
            config.gitmoji = true;
            config.conventional = true;
            assert_success(&test_case, &config);
        }
    }
}

#[test]
fn error_imperative_and_gitmoji() {
    let commit_message = "✨ updates feature\n\nThis feature…";
    let mut config = Config::new();
    config.gitmoji = true;
    config.imperative = true;
    assert_failure_containing(
        commit_message,
        &config,
        "Description starts with a non-imperative verb",
    );
}

#[test]
fn error_custom_title_too_long_gitmoji() {
    let mut config = Config::new();
    config.max_header_length = 1;
    config.gitmoji = true;
    assert_failure_containing("✨a", &config, "Line number 1 is too long (2 > 1)");
}

#[test]
fn error_catch_multiple_commit_errors_with_split_lines() {
    let commit_message = "fix: Fix issue with login.\nfix: resolve database deadlock issue";
    let mut config = Config::new();
    config.split_lines = true;
    config.conventional = true;
    config.description_case = DescriptionCase::Upper;
    config.no_period = true;
    let (result, report) = lint_lines_with(commit_message, &config);
    assert!(result.is_err());
    assert!(report.contains("Description must start with a capital letter"), "report: {}", report);
    assert!(report.contains("Header must not end with a period"));
    assert!(report.contains("2 out of 2 lines failed linting"));
}

#[test]
fn success_empty_line_skipped_with_split_lines() {
    let commit_message = "🔨 chore: add pull request template\n\n📝 chore: update contact e-mail";
    let mut config = Config::new();
    config.split_lines = true;
    config.conventional = true;
    config.description_case = DescriptionCase::Lower;
    config.gitmoji = true;
    let (result, report) = lint_lines_with(commit_message, &config);
    assert!(result.is_ok(), "expected success, got: {}", report);
}

#[test]
fn error_whitespace_gitmoji() {
    let commit_message = " 🔨 add pull request template";
    let mut config = Config::new();
    config.gitmoji = true;
    config.whitespace = true;
    assert_failure_containing(commit_message, &config, "Leading space");
}

#[test]
fn success_with_lowercase_description_and_pattern() {
    let mut config = Config::new();
    config.description_case = DescriptionCase::Lower;
    config.header_pattern = String::from("^[a-z\\s]+$");
    assert_success("the air is hangs in the air", &config);
    let success = handle_success(&config).expect("two rules are active");
    assert!(success.contains("✅ All 2 checks passed"));
}

#[test]
fn success_gitmoji_with_pattern() {
    let mut config = Config::new();
    config.gitmoji = true;
    config.header_pattern =
        String::from("^(?:[\\p{Emoji_Presentation}\\p{Extended_Pictographic}\\u{200D}])");
    assert_success("⬆️ chore(deps): update Rust crate foo to v4.2", &config);
    let success = handle_success(&config).expect("two rules are active");
    assert!(success.contains("✅ All 2 checks passed"));
}
