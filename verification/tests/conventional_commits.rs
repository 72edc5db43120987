#![allow(dead_code)]
use git_sumi::config::adjust_config;
use git_sumi::config::Config;
use git_sumi::errors::SumiError;
use git_sumi::lint::handle_success;
use git_sumi::lint::run_lint;
use git_sumi::parser::ParsedCommit;

fn lint_with(message: &str, config: &Config) -> (Result<ParsedCommit, SumiError>, String) {
    let mut collected: Vec<SumiError> = Vec::new();
    let result = run_lint(message, config, &mut collected);
    let mut report = String::new();
    for e in &collected {
        report.push_str(&e.message());
        report.push('\n');
    }
    if let Err(e) = &result {
        report.push_str(&e.message());
        report.push('\n');
    }
    (result, report)
}

fn assert_success(message: &str, config: &Config) {
    let (result, report) = lint_with(message, config);
    assert!(result.is_ok(), "expected success for {:?}, got: {}", message, report);
}

fn assert_failure_containing(message: &str, config: &Config, expected: &str) {
    let (result, report) = lint_with(message, config);
    assert!(result.is_err(), "expected failure for {:?}", message);
    assert!(
        report.contains(expected),
        "missing {:?} in report {:?}",
        expected,
        report
    );
}

#[test]
fn success_with_empty_types_and_scopes() {
    let mut config = Config::new();
    config.conventional = true;
    config.types_allowed = vec![String::new()];
    config.scopes_allowed = vec![String::new()];
    adjust_config(&mut config);
    assert_success("feat(SegensDerErde): Add Hamsun's agrarian cycles", &config);
}

#[test]
fn success_breaking_change() {
    let mut config = Config::new();
    config.conventional = true;
    config.display = true;
    let (result, report) = lint_with(
        "feat(theme-switcher)!: respect `theme_default` when JS is enabled",
        &config,
    );
    let parsed = result.expect(&report);
    assert_eq!(parsed.is_breaking, Some(true));
}

#[test]
fn test_conventional_commits_success_display_format_toml() {
    let commit_message = "📝 docs(cleanliness): Update mop instructions\n\nMop in circular motions for best results.\n\nBREAKING CHANGE: No more mopping in squares!\nMopBrand: WhirlMop\nSurface: Tile\nRelated: #987, d9e8f1b";
    let mut config = Config::new();
    config.conventional = true;
    config.display = true;
    config.gitmoji = true;
    let (result, report) = lint_with(commit_message, &config);
    let parsed = result.expect(&report);
    assert_eq!(parsed.gitmoji, Some(vec![String::from("📝")]));
    assert_eq!(parsed.commit_type, Some(String::from("docs")));
    assert_eq!(parsed.scope, Some(String::from("cleanliness")));
    assert_eq!(parsed.description, "Update mop instructions");
    assert_eq!(parsed.body, Some(String::from("Mop in circular motions for best results.")));
    assert_eq!(
        parsed.footers,
        Some(vec![
            String::from("BREAKING CHANGE:No more mopping in squares!"),
            String::from("MopBrand:WhirlMop"),
            String::from("Surface:Tile"),
            String::from("Related:#987, d9e8f1b"),
        ])
    );
    assert_eq!(parsed.is_breaking, Some(true));
    assert_eq!(
        parsed.breaking_description,
        Some(String::from("No more mopping in squares!"))
    );
    assert_eq!(
        parsed.references,
        Some(vec![String::from("#987"), String::from("d9e8f1b")])
    );
}

#[test]
fn success_with_user_specified_type() {
    let mut config = Config::new();
    config.conventional = true;
    config.types_allowed = vec![String::from("feat,custom")];
    adjust_config(&mut config);
    assert_success("custom(YellowArrow): fine-tune the train's timing", &config);
    let success = handle_success(&config).expect("two rules are active");
    assert!(success.contains("All 2 checks passed"));
}

#[test]
fn error_unallowed_type() {
    let mut config = Config::new();
    config.conventional = true;
    config.types_allowed = vec![String::from("feat,custom")];
    adjust_config(&mut config);
    assert_failure_containing(
        "penguin(PingvinZabludilsya): resolve penguin's directional issues",
        &config,
        "Invalid commit type",
    );
}

#[test]
fn success_allowed_scope() {
    let mut config = Config::new();
    config.conventional = true;
    config.scopes_allowed = vec![String::from("niebla")];
    adjust_config(&mut config);
    assert_success("feat(niebla): Add Unamuno's existential layer", &config);
}

#[test]
fn error_unallowed_scope() {
    let mut config = Config::new();
    config.conventional = true;
    config.scopes_allowed = vec![String::from("users")];
    adjust_config(&mut config);
    assert_failure_containing("feat(admin): add new admin", &config, "Invalid commit scope");
}

#[test]
fn success_valid_conventional_commit() {
    let mut config = Config::new();
    config.conventional = true;
    assert_success("docs(BladeRunner): annotate Deckard's ambiguity (#2049)", &config);
}

#[test]
fn error_conventional_commit_empty_scope() {
    let mut config = Config::new();
    config.conventional = true;
    assert_failure_containing(
        "bugfix(): fix some bug",
        &config,
        "Missing type in the commit summary, expected `type: description`",
    );
}

#[test]
fn success_conventional_commit() {
    let mut config = Config::new();
    config.conventional = true;
    assert_success("style(NoLongerHuman): refine Dazai's self-reflection", &config);
}
