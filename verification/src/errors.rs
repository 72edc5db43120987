//! The error type of the linter: one variant per failure kind, each with a
//! verified rendering into the exact text the tool reports.
use crate::text::dec_str;
use crate::text::spec_pluralize;
use crate::text::append_str;
use crate::text::extend_vec;
use crate::text::string_of;
use crate::text::usize_to_chars;
use vstd::prelude::*;

verus! {

/// Every failure the linter can report.
#[derive(Debug, Clone)]
pub enum SumiError {
    GeneralError { details: String },
    SplitLinesErrors { lines_with_errors: usize, total_lines: usize, line_or_lines: String },
    CommitRangeErrors { commits_with_errors: usize, total_commits: usize, commit_or_commits: String },
    FailedConventionalParse { reason: String },
    SeparateHeaderFromBody,
    HeaderEndsWithPeriod,
    DescriptionNotLowercase { lowercase_header: String },
    DescriptionNotTitleCase { capitalized_description: String },
    LineTooLong { line_number: usize, line_length: usize, max_length: usize },
    IncorrectEmojiCount { found: usize },
    InvalidEmoji { emoji: String },
    NonImperativeVerb { verb: String },
    InvalidCommitType { type_found: String, allowed_types: String },
    InvalidCommitScope { scope_found: String, allowed_scopes: String },
    NoRulesEnabled,
    IncompatibleRules { rule1: String, rule2: String },
    EmptyCommitHeader,
    InvalidRegexPattern { pattern: String },
    HeaderPatternMismatch { pattern: String },
    InvalidConventionalCommit { reason: String },
    SerializationError { format: String, detail: String },
    ErrorWhileCommitting(String),
    ConfigFileNotFound { path: String },
    PathIsDirectory { path: String },
}

/// The ghost image of `SumiError`.
pub enum SumiErrorView {
    GeneralError { details: Seq<char> },
    SplitLinesErrors { lines_with_errors: nat, total_lines: nat, line_or_lines: Seq<char> },
    CommitRangeErrors { commits_with_errors: nat, total_commits: nat, commit_or_commits: Seq<char> },
    FailedConventionalParse { reason: Seq<char> },
    SeparateHeaderFromBody,
    HeaderEndsWithPeriod,
    DescriptionNotLowercase { lowercase_header: Seq<char> },
    DescriptionNotTitleCase { capitalized_description: Seq<char> },
    LineTooLong { line_number: nat, line_length: nat, max_length: nat },
    IncorrectEmojiCount { found: nat },
    InvalidEmoji { emoji: Seq<char> },
    NonImperativeVerb { verb: Seq<char> },
    InvalidCommitType { type_found: Seq<char>, allowed_types: Seq<char> },
    InvalidCommitScope { scope_found: Seq<char>, allowed_scopes: Seq<char> },
    NoRulesEnabled,
    IncompatibleRules { rule1: Seq<char>, rule2: Seq<char> },
    EmptyCommitHeader,
    InvalidRegexPattern { pattern: Seq<char> },
    HeaderPatternMismatch { pattern: Seq<char> },
    InvalidConventionalCommit { reason: Seq<char> },
    SerializationError { format: Seq<char>, detail: Seq<char> },
    ErrorWhileCommitting(Seq<char>),
    ConfigFileNotFound { path: Seq<char> },
    PathIsDirectory { path: Seq<char> },
}

impl View for SumiError {
    type V = SumiErrorView;

    open spec fn view(&self) -> SumiErrorView {
        match self {
            SumiError::GeneralError { details } => SumiErrorView::GeneralError {
                details: details@,
            },
            SumiError::SplitLinesErrors { lines_with_errors, total_lines, line_or_lines } => {
                SumiErrorView::SplitLinesErrors {
                    lines_with_errors: *lines_with_errors as nat,
                    total_lines: *total_lines as nat,
                    line_or_lines: line_or_lines@,
                }
            },
            SumiError::CommitRangeErrors { commits_with_errors, total_commits, commit_or_commits }
                => SumiErrorView::CommitRangeErrors {
                commits_with_errors: *commits_with_errors as nat,
                total_commits: *total_commits as nat,
                commit_or_commits: commit_or_commits@,
            },
            SumiError::FailedConventionalParse { reason } => {
                SumiErrorView::FailedConventionalParse { reason: reason@ }
            },
            SumiError::SeparateHeaderFromBody => SumiErrorView::SeparateHeaderFromBody,
            SumiError::HeaderEndsWithPeriod => SumiErrorView::HeaderEndsWithPeriod,
            SumiError::DescriptionNotLowercase { lowercase_header } => {
                SumiErrorView::DescriptionNotLowercase { lowercase_header: lowercase_header@ }
            },
            SumiError::DescriptionNotTitleCase { capitalized_description } => {
                SumiErrorView::DescriptionNotTitleCase {
                    capitalized_description: capitalized_description@,
                }
            },
            SumiError::LineTooLong { line_number, line_length, max_length } => {
                SumiErrorView::LineTooLong {
                    line_number: *line_number as nat,
                    line_length: *line_length as nat,
                    max_length: *max_length as nat,
                }
            },
            SumiError::IncorrectEmojiCount { found } => SumiErrorView::IncorrectEmojiCount {
                found: *found as nat,
            },
            SumiError::InvalidEmoji { emoji } => SumiErrorView::InvalidEmoji { emoji: emoji@ },
            SumiError::NonImperativeVerb { verb } => SumiErrorView::NonImperativeVerb {
                verb: verb@,
            },
            SumiError::InvalidCommitType { type_found, allowed_types } => {
                SumiErrorView::InvalidCommitType {
                    type_found: type_found@,
                    allowed_types: allowed_types@,
                }
            },
            SumiError::InvalidCommitScope { scope_found, allowed_scopes } => {
                SumiErrorView::InvalidCommitScope {
                    scope_found: scope_found@,
                    allowed_scopes: allowed_scopes@,
                }
            },
            SumiError::NoRulesEnabled => SumiErrorView::NoRulesEnabled,
            SumiError::IncompatibleRules { rule1, rule2 } => SumiErrorView::IncompatibleRules {
                rule1: rule1@,
                rule2: rule2@,
            },
            SumiError::EmptyCommitHeader => SumiErrorView::EmptyCommitHeader,
            SumiError::InvalidRegexPattern { pattern } => SumiErrorView::InvalidRegexPattern {
                pattern: pattern@,
            },
            SumiError::HeaderPatternMismatch { pattern } => SumiErrorView::HeaderPatternMismatch {
                pattern: pattern@,
            },
            SumiError::InvalidConventionalCommit { reason } => {
                SumiErrorView::InvalidConventionalCommit { reason: reason@ }
            },
            SumiError::SerializationError { format, detail } => {
                SumiErrorView::SerializationError { format: format@, detail: detail@ }
            },
            SumiError::ErrorWhileCommitting(detail) => SumiErrorView::ErrorWhileCommitting(
                detail@,
            ),
            SumiError::ConfigFileNotFound { path } => SumiErrorView::ConfigFileNotFound {
                path: path@,
            },
            SumiError::PathIsDirectory { path } => SumiErrorView::PathIsDirectory { path: path@ },
        }
    }
}

/// The text that each failure kind is reported with.
pub open spec fn spec_message(e: SumiErrorView) -> Seq<char> {
    match e {
        SumiErrorView::GeneralError { details } => details,
        SumiErrorView::SplitLinesErrors { lines_with_errors, total_lines, line_or_lines } => {
            dec_str(lines_with_errors) + " out of "@ + dec_str(total_lines) + " "@
                + line_or_lines + " failed linting. See the errors above"@
        },
        SumiErrorView::CommitRangeErrors { commits_with_errors, total_commits, commit_or_commits }
            => {
            dec_str(commits_with_errors) + " out of "@ + dec_str(total_commits) + " "@
                + commit_or_commits + " failed linting. See the errors above"@
        },
        SumiErrorView::FailedConventionalParse { reason } => {
            "Failed to parse as a conventional commit: '"@ + reason + "'"@
        },
        SumiErrorView::SeparateHeaderFromBody => "Separate header from body with a blank line"@,
        SumiErrorView::HeaderEndsWithPeriod => "Header must not end with a period"@,
        SumiErrorView::DescriptionNotLowercase { lowercase_header } => {
            "Description must start in lowercase. Try '"@ + lowercase_header + "'"@
        },
        SumiErrorView::DescriptionNotTitleCase { capitalized_description } => {
            "Description must start with a capital letter. Try '"@ + capitalized_description
                + "'"@
        },
        SumiErrorView::LineTooLong { line_number, line_length, max_length } => {
            "Line number "@ + dec_str(line_number) + " is too long ("@ + dec_str(line_length)
                + " > "@ + dec_str(max_length) + ")"@
        },
        SumiErrorView::IncorrectEmojiCount { found } => {
            "Header must contain exactly 1 emoji, found "@ + dec_str(found)
        },
        SumiErrorView::InvalidEmoji { emoji } => {
            "Invalid emoji: '"@ + emoji + "'. See the full list https://gitmoji.dev/"@
        },
        SumiErrorView::NonImperativeVerb { verb } => {
            "Description starts with a non-imperative verb: '"@ + verb
                + "'. Use an imperative verb like 'fix', instead of 'fixes' or 'fixing'"@
        },
        SumiErrorView::InvalidCommitType { type_found, allowed_types } => {
            "Invalid commit type '"@ + type_found + "'. Allowed types are: ["@ + allowed_types
                + "]"@
        },
        SumiErrorView::InvalidCommitScope { scope_found, allowed_scopes } => {
            "Invalid commit scope '"@ + scope_found + "'. Allowed scopes are: ["@
                + allowed_scopes + "]"@
        },
        SumiErrorView::NoRulesEnabled => {
            "No rules enabled. Enable at least one rule with --conventional, --imperative, --whitespace… Or use --commit or --display. Try `git-sumi --help`"@
        },
        SumiErrorView::IncompatibleRules { rule1, rule2 } => {
            "Incompatible rules enabled: '"@ + rule1 + "' and '"@ + rule2 + "'"@
        },
        SumiErrorView::EmptyCommitHeader => "Header must not be empty"@,
        SumiErrorView::InvalidRegexPattern { pattern } => {
            "Header regex pattern '"@ + pattern + "' is invalid"@
        },
        SumiErrorView::HeaderPatternMismatch { pattern } => {
            "Header does not match the required pattern: '"@ + pattern + "'"@
        },
        SumiErrorView::InvalidConventionalCommit { reason } => reason,
        SumiErrorView::SerializationError { format, detail } => {
            "Could not serialize to "@ + format + ": "@ + detail
        },
        SumiErrorView::ErrorWhileCommitting(detail) => "Failed to commit changes. "@ + detail,
        SumiErrorView::ConfigFileNotFound { path } => {
            "Configuration file '"@ + path
                + "' not found. Make sure the file exists at the specified path"@
        },
        SumiErrorView::PathIsDirectory { path } => {
            "The specified path '"@ + path + "' is a directory, not a configuration file"@
        },
    }
}

impl SumiError {
    /// Renders the failure as the exact text the tool reports for it.
    pub fn message(&self) -> (r: String)
        ensures
            r@ == spec_message(self@),
    {
        let mut m: Vec<char> = Vec::new();
        match self {
            SumiError::GeneralError { details } => {
                append_str(&mut m, details.as_str());
            },
            SumiError::SplitLinesErrors { lines_with_errors, total_lines, line_or_lines } => {
                let n = usize_to_chars(*lines_with_errors);
                extend_vec(&mut m, &n);
                append_str(&mut m, " out of ");
                let t = usize_to_chars(*total_lines);
                extend_vec(&mut m, &t);
                append_str(&mut m, " ");
                append_str(&mut m, line_or_lines.as_str());
                append_str(&mut m, " failed linting. See the errors above");
            },
            SumiError::CommitRangeErrors {
                commits_with_errors,
                total_commits,
                commit_or_commits,
            } => {
                let n = usize_to_chars(*commits_with_errors);
                extend_vec(&mut m, &n);
                append_str(&mut m, " out of ");
                let t = usize_to_chars(*total_commits);
                extend_vec(&mut m, &t);
                append_str(&mut m, " ");
                append_str(&mut m, commit_or_commits.as_str());
                append_str(&mut m, " failed linting. See the errors above");
            },
            SumiError::FailedConventionalParse { reason } => {
                append_str(&mut m, "Failed to parse as a conventional commit: '");
                append_str(&mut m, reason.as_str());
                append_str(&mut m, "'");
            },
            SumiError::SeparateHeaderFromBody => {
                append_str(&mut m, "Separate header from body with a blank line");
            },
            SumiError::HeaderEndsWithPeriod => {
                append_str(&mut m, "Header must not end with a period");
            },
            SumiError::DescriptionNotLowercase { lowercase_header } => {
                append_str(&mut m, "Description must start in lowercase. Try '");
                append_str(&mut m, lowercase_header.as_str());
                append_str(&mut m, "'");
            },
            SumiError::DescriptionNotTitleCase { capitalized_description } => {
                append_str(&mut m, "Description must start with a capital letter. Try '");
                append_str(&mut m, capitalized_description.as_str());
                append_str(&mut m, "'");
            },
            SumiError::LineTooLong { line_number, line_length, max_length } => {
                append_str(&mut m, "Line number ");
                let a = usize_to_chars(*line_number);
                extend_vec(&mut m, &a);
                append_str(&mut m, " is too long (");
                let b = usize_to_chars(*line_length);
                extend_vec(&mut m, &b);
                append_str(&mut m, " > ");
                let c = usize_to_chars(*max_length);
                extend_vec(&mut m, &c);
                append_str(&mut m, ")");
            },
            SumiError::IncorrectEmojiCount { found } => {
                append_str(&mut m, "Header must contain exactly 1 emoji, found ");
                let n = usize_to_chars(*found);
                extend_vec(&mut m, &n);
            },
            SumiError::InvalidEmoji { emoji } => {
                append_str(&mut m, "Invalid emoji: '");
                append_str(&mut m, emoji.as_str());
                append_str(&mut m, "'. See the full list https://gitmoji.dev/");
            },
            SumiError::NonImperativeVerb { verb } => {
                append_str(&mut m, "Description starts with a non-imperative verb: '");
                append_str(&mut m, verb.as_str());
                append_str(
                    &mut m,
                    "'. Use an imperative verb like 'fix', instead of 'fixes' or 'fixing'",
                );
            },
            SumiError::InvalidCommitType { type_found, allowed_types } => {
                append_str(&mut m, "Invalid commit type '");
                append_str(&mut m, type_found.as_str());
                append_str(&mut m, "'. Allowed types are: [");
                append_str(&mut m, allowed_types.as_str());
                append_str(&mut m, "]");
            },
            SumiError::InvalidCommitScope { scope_found, allowed_scopes } => {
                append_str(&mut m, "Invalid commit scope '");
                append_str(&mut m, scope_found.as_str());
                append_str(&mut m, "'. Allowed scopes are: [");
                append_str(&mut m, allowed_scopes.as_str());
                append_str(&mut m, "]");
            },
            SumiError::NoRulesEnabled => {
                append_str(
                    &mut m,
                    "No rules enabled. Enable at least one rule with --conventional, --imperative, --whitespace… Or use --commit or --display. Try `git-sumi --help`",
                );
            },
            SumiError::IncompatibleRules { rule1, rule2 } => {
                append_str(&mut m, "Incompatible rules enabled: '");
                append_str(&mut m, rule1.as_str());
                append_str(&mut m, "' and '");
                append_str(&mut m, rule2.as_str());
                append_str(&mut m, "'");
            },
            SumiError::EmptyCommitHeader => {
                append_str(&mut m, "Header must not be empty");
            },
            SumiError::InvalidRegexPattern { pattern } => {
                append_str(&mut m, "Header regex pattern '");
                append_str(&mut m, pattern.as_str());
                append_str(&mut m, "' is invalid");
            },
            SumiError::HeaderPatternMismatch { pattern } => {
                append_str(&mut m, "Header does not match the required pattern: '");
                append_str(&mut m, pattern.as_str());
                append_str(&mut m, "'");
            },
            SumiError::InvalidConventionalCommit { reason } => {
                append_str(&mut m, reason.as_str());
            },
            SumiError::SerializationError { format, detail } => {
                append_str(&mut m, "Could not serialize to ");
                append_str(&mut m, format.as_str());
                append_str(&mut m, ": ");
                append_str(&mut m, detail.as_str());
            },
            SumiError::ErrorWhileCommitting(detail) => {
                append_str(&mut m, "Failed to commit changes. ");
                append_str(&mut m, detail.as_str());
            },
            SumiError::ConfigFileNotFound { path } => {
                append_str(&mut m, "Configuration file '");
                append_str(&mut m, path.as_str());
                append_str(
                    &mut m,
                    "' not found. Make sure the file exists at the specified path",
                );
            },
            SumiError::PathIsDirectory { path } => {
                append_str(&mut m, "The specified path '");
                append_str(&mut m, path.as_str());
                append_str(&mut m, "' is a directory, not a configuration file");
            },
        }
        string_of(&m)
    }
}

/// The ghost images of a list of failures.
pub open spec fn views_of(s: Seq<SumiError>) -> Seq<SumiErrorView> {
    s.map_values(|e: SumiError| e@)
}

/// Returns the singular word when `count` is one, the plural word otherwise.
pub fn pluralize<'a>(count: usize, singular: &'a str, plural: &'a str) -> (r: &'a str)
    ensures
        r@ == spec_pluralize(count as nat, singular@, plural@),
{
    if count == 1 {
        singular
    } else {
        plural
    }
}

} // verus!
