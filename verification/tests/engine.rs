#![allow(dead_code)]
use git_sumi::config::count_active_rules;
use git_sumi::config::Config;
use git_sumi::config::DescriptionCase;
use git_sumi::emoji::extract_gitmoji;
use git_sumi::emoji::normalise_emoji;
use git_sumi::emoji::remove_gitmoji;
use git_sumi::errors::SumiError;
use git_sumi::git::remove_verbose_output;
use git_sumi::lint::preprocess_commit_message;
use git_sumi::lint::run_lint;
use git_sumi::lint::run_lint_on_commits;
use git_sumi::lint::run_lint_on_each_line;
use git_sumi::lint::validate_line_length;
use git_sumi::parser::ParsedCommit;
use git_sumi::pluralize;

fn lint_with(message: &str, config: &Config) -> (Result<ParsedCommit, SumiError>, String) {
    let mut collected: Vec<SumiError> = Vec::new();
    let result = run_lint(message, config, &mut collected);
    let mut report = String::new();
    for e in &collected {
        report.push_str(&e.message());
        report.push('\n');
    }
    if let Err(e) = &result {
        report.push_str(&e.message());
        report.push('\n');
    }
    (result, report)
}

#[test]
fn error_exits_no_commit() {
    // an empty invocation has no rules active and nothing lintable
    let config = Config::new();
    assert_eq!(count_active_rules(&config), 0);
    let (result, report) = lint_with("", &config);
    assert!(result.is_err());
    assert!(report.contains("Header must not be empty"));
}

#[test]
fn error_lint_no_rules() {
    let config = Config::new();
    assert_eq!(count_active_rules(&config), 0);
    let refusal = SumiError::NoRulesEnabled.message();
    assert!(refusal.contains("No rules enabled. Enable at least one rule with"));
}

// The empty header is fatal under any rule configuration.
#[test]
fn empty_header_is_fatal_whatever_the_rules_say() {
    let mut configs: Vec<Config> = Vec::new();
    configs.push(Config::new());
    let mut strict = Config::new();
    strict.conventional = true;
    strict.gitmoji = true;
    strict.whitespace = true;
    strict.imperative = true;
    strict.no_period = true;
    strict.max_header_length = 5;
    strict.description_case = DescriptionCase::Upper;
    configs.push(strict);
    for config in &configs {
        let (result, report) = lint_with("", config);
        assert!(result.is_err());
        assert!(report.contains("Header must not be empty"), "report: {}", report);
    }
}

// For a strictly parseable message, the permissive grammar reports no
// failure the strict grammar does not also report.
#[test]
fn permissive_reports_within_strict() {
    let message = "feat: add parser.";
    let mut permissive = Config::new();
    permissive.no_period = true;
    permissive.whitespace = true;
    let mut strict = Config::new();
    strict.no_period = true;
    strict.whitespace = true;
    strict.conventional = true;
    let (_, permissive_report) = lint_with(message, &permissive);
    let (_, strict_report) = lint_with(message, &strict);
    assert!(permissive_report.contains("Header must not end with a period"));
    for line in permissive_report.lines() {
        if line.starts_with("Found ") {
            continue;
        }
        assert!(
            strict_report.contains(line),
            "permissive-only failure {:?}; strict report {:?}",
            line,
            strict_report
        );
    }
}

// Emoji merging is idempotent: stripping the found units leaves a header
// in which extraction finds nothing.
#[test]
fn emoji_extraction_is_idempotent() {
    let headers = [
        "✨ feat: ✨ explain X",
        "🧑‍💻 decipher Rosetta Stone",
        ":sparkles: feat: :sparkles: explain X",
        "plain header without emoji",
    ];
    for header in headers {
        let found = extract_gitmoji(header);
        let chars: Vec<char> = header.chars().collect();
        let stripped: Vec<char> = remove_gitmoji(&chars, &found);
        let stripped_header: String = stripped.into_iter().collect();
        let again = extract_gitmoji(&stripped_header);
        assert!(again.is_empty(), "second extraction on {:?} found {:?}", stripped_header, again);
    }
}

// A limit of zero always passes; a line of exactly the limit passes and
// one more character fails.
#[test]
fn length_limit_boundaries() {
    let fifty = "a".repeat(50);
    let fifty_one = "a".repeat(51);
    assert!(validate_line_length(&fifty_one, 0).is_ok());
    assert!(validate_line_length(&fifty, 50).is_ok());
    assert_eq!(validate_line_length(&fifty_one, 50), Err(51));
    // measured in characters, not bytes
    let umlauts = "ä".repeat(50);
    assert!(validate_line_length(&umlauts, 50).is_ok());
}

// A leading space and an interior double space are two distinct issues.
#[test]
fn whitespace_issues_are_reported_independently() {
    let mut config = Config::new();
    config.whitespace = true;
    let (result, report) = lint_with(" two  issues", &config);
    assert!(result.is_err());
    assert!(report.contains("Leading space"));
    assert!(report.contains("2 adjacent spaces"));
    assert!(report.contains("Whitespace issues detected:"));
}

// Scenario: a two-line input where one line fails reports the count and
// the failing line's own failure.
#[test]
fn one_of_two_lines_failing_is_counted() {
    let mut config = Config::new();
    config.split_lines = true;
    config.no_period = true;
    let mut collected: Vec<SumiError> = Vec::new();
    let result = run_lint_on_each_line("fix the boiler.\nclean the attic", &config, &mut collected);
    let summary = result.expect_err("one line must fail").message();
    assert!(summary.contains("1 out of 2 lines failed linting"), "summary: {}", summary);
    let details: Vec<String> = collected.iter().map(|e| e.message()).collect();
    assert!(details.iter().any(|d| d.contains("Header must not end with a period")));
}

// Scenario: two shortcode units are both counted.
#[test]
fn two_shortcodes_count_as_two() {
    let mut config = Config::new();
    config.gitmoji = true;
    let (result, report) = lint_with(":sparkles: feat: :sparkles: explain X", &config);
    assert!(result.is_err());
    assert!(report.contains("found 2"), "report: {}", report);
}

// The exact text of a length failure.
#[test]
fn line_too_long_message_is_exact() {
    let e = SumiError::LineTooLong { line_number: 1, line_length: 51, max_length: 50 };
    assert_eq!(e.message(), "Line number 1 is too long (51 > 50)");
}

#[test]
fn pluralize_picks_singular_only_for_one() {
    assert_eq!(pluralize(0, "check", "checks"), "checks");
    assert_eq!(pluralize(1, "check", "checks"), "check");
    assert_eq!(pluralize(2, "check", "checks"), "checks");
}

#[test]
fn comment_lines_are_stripped_before_parsing() {
    let message = "# a comment\nfix: mend the fence\n   # indented comment\n\nbody text";
    assert_eq!(preprocess_commit_message(message), "fix: mend the fence\n\nbody text");
}

#[test]
fn verbose_output_is_cut_at_the_scissors_line() {
    let message = "fix: mend\n\nbody\n# ------------------------ >8 ------------------------\ndiff --git a b";
    assert_eq!(remove_verbose_output(message, "#"), "fix: mend\n\nbody");
    assert_eq!(remove_verbose_output("fix: mend", "#"), "fix: mend");
    assert_eq!(
        remove_verbose_output("a\n; ------------------------ >8 ------------------------\nx", ";"),
        "a"
    );
}

#[test]
fn active_rules_are_counted_per_changed_setting() {
    let mut config = Config::new();
    assert_eq!(count_active_rules(&config), 0);
    config.gitmoji = true;
    config.max_header_length = 50;
    config.description_case = DescriptionCase::Lower;
    assert_eq!(count_active_rules(&config), 3);
    config.quiet = true;
    config.display = true;
    assert_eq!(count_active_rules(&config), 3);
}

#[test]
fn normalise_emoji_strips_variation_selectors() {
    assert_eq!(normalise_emoji("♻\u{fe0f}"), "♻");
    assert_eq!(normalise_emoji("plain"), "plain");
}

#[test]
fn references_are_collected_in_first_seen_order() {
    let mut config = Config::new();
    config.conventional = true;
    let (result, report) =
        lint_with("fix: close #12 and #7\n\nsee d9e8f1b and deadbeefcafe", &config);
    let parsed = result.expect(&report);
    assert_eq!(
        parsed.references,
        Some(vec![
            String::from("#12"),
            String::from("#7"),
            String::from("d9e8f1b"),
            String::from("deadbeefcafe"),
        ])
    );
}

#[test]
fn commit_range_aggregates_failures() {
    let mut config = Config::new();
    config.conventional = true;
    let messages = vec![
        String::from("feat: add feature a"),
        String::from("not a conventional commit"),
        String::from("also bad"),
    ];
    let mut collected: Vec<SumiError> = Vec::new();
    let result = run_lint_on_commits(&messages, &config, &mut collected);
    let summary = result.expect_err("two commits must fail").message();
    assert!(summary.contains("2 out of 3 commits failed linting"), "summary: {}", summary);
    let details: Vec<String> = collected.iter().map(|e| e.message()).collect();
    assert!(details.iter().any(|d| d.contains("Failed to parse as a conventional commit")));
}

#[test]
fn hashes_shorter_than_seven_or_embedded_are_not_references() {
    let mut config = Config::new();
    config.conventional = true;
    let (result, report) = lint_with("fix: abc123 or xdeadbeefcafe", &config);
    let parsed = result.expect(&report);
    assert_eq!(parsed.references, None);
}
