//! The rule configuration: a flat set of named toggles and values, the
//! display-format and description-case choices, and the helpers that count
//! and adjust active rules.
use crate::errors::SumiError;
use crate::text::chars_of;
use crate::text::trim_of;
use crate::text::trim_chars;
use crate::text::vec_eq_str;
use vstd::prelude::*;
use vstd::string::StringExecFns;

verus! {

// ---------------------------------------------------------------------------
// ASCII-case-insensitive comparison
// ---------------------------------------------------------------------------

/// A character with an ASCII uppercase letter folded to its lowercase form.
pub open spec fn ascii_fold(c: char) -> char {
    if 'A' <= c && c <= 'Z' {
        (((c as u8) + 32) as char)
    } else {
        c
    }
}

/// Whether two texts agree up to ASCII letter case.
pub open spec fn eq_ignore_ascii_case(a: Seq<char>, b: Seq<char>) -> bool {
    a.map_values(|c: char| ascii_fold(c)) == b.map_values(|c: char| ascii_fold(c))
}

fn ascii_fold_char(c: char) -> (r: char)
    ensures
        r == ascii_fold(c),
{
    if 'A' <= c && c <= 'Z' {
        ((c as u8) + 32) as char
    } else {
        c
    }
}

/// Folds every ASCII uppercase letter of `s` to lowercase.
fn ascii_fold_str(s: &str) -> (r: Vec<char>)
    ensures
        r@ == s@.map_values(|c: char| ascii_fold(c)),
{
    let cs = chars_of(s);
    let mut r: Vec<char> = Vec::new();
    let mut i: usize = 0;
    while i < cs.len()
        invariant
            i <= cs@.len(),
            cs@ == s@,
            r@ == s@.map_values(|c: char| ascii_fold(c)).take(i as int),
        decreases cs@.len() - i,
    {
        r.push(ascii_fold_char(cs[i]));
        i = i + 1;
        proof {
            assert(r@ =~= s@.map_values(|c: char| ascii_fold(c)).take(i as int));
        }
    }
    proof {
        assert(r@ =~= s@.map_values(|c: char| ascii_fold(c)));
    }
    r
}

// ---------------------------------------------------------------------------
// Choice enums
// ---------------------------------------------------------------------------

/// Display format for the parsed commit message.
#[derive(Debug, Clone, Copy, PartialEq, Eq, Structural)]
pub enum ParsedCommitDisplayFormat {
    Cli,
    Json,
    Table,
    Toml,
}

/// The lowercase name of a display format.
pub open spec fn spec_format_name(f: ParsedCommitDisplayFormat) -> Seq<char> {
    match f {
        ParsedCommitDisplayFormat::Cli => "cli"@,
        ParsedCommitDisplayFormat::Json => "json"@,
        ParsedCommitDisplayFormat::Table => "table"@,
        ParsedCommitDisplayFormat::Toml => "toml"@,
    }
}

impl ParsedCommitDisplayFormat {
    /// The lowercase name of the format.
    pub fn as_str(&self) -> (r: &'static str)
        ensures
            r@ == spec_format_name(*self),
    {
        match self {
            ParsedCommitDisplayFormat::Cli => "cli",
            ParsedCommitDisplayFormat::Json => "json",
            ParsedCommitDisplayFormat::Table => "table",
            ParsedCommitDisplayFormat::Toml => "toml",
        }
    }

    /// Reads a format name, ignoring ASCII letter case; an unknown name is
    /// reported with the list of supported formats.
    pub fn parse_str(s: &str) -> (r: Result<ParsedCommitDisplayFormat, String>)
        ensures
            (match r {
                Ok(f) => eq_ignore_ascii_case(s@, spec_format_name(f)),
                Err(e) => (forall|f: ParsedCommitDisplayFormat|
                    !eq_ignore_ascii_case(s@, spec_format_name(f))) && e@ == "Unknown format '"@
                    + s@ + "'. Supported formats: cli, json, table, toml"@,
            }),
    {
        proof {
            reveal_strlit("cli");
            reveal_strlit("json");
            reveal_strlit("table");
            reveal_strlit("toml");
        }
        let folded = ascii_fold_str(s);
        proof {
            assert("cli"@.map_values(|c: char| ascii_fold(c)) =~= "cli"@);
            assert("json"@.map_values(|c: char| ascii_fold(c)) =~= "json"@);
            assert("table"@.map_values(|c: char| ascii_fold(c)) =~= "table"@);
            assert("toml"@.map_values(|c: char| ascii_fold(c)) =~= "toml"@);
        }
        if vec_eq_str(&folded, "cli") {
            Ok(ParsedCommitDisplayFormat::Cli)
        } else if vec_eq_str(&folded, "json") {
            Ok(ParsedCommitDisplayFormat::Json)
        } else if vec_eq_str(&folded, "table") {
            Ok(ParsedCommitDisplayFormat::Table)
        } else if vec_eq_str(&folded, "toml") {
            Ok(ParsedCommitDisplayFormat::Toml)
        } else {
            proof {
                assert forall|f: ParsedCommitDisplayFormat| !eq_ignore_ascii_case(
                    s@,
                    spec_format_name(f),
                ) by {
                    match f {
                        ParsedCommitDisplayFormat::Cli => {},
                        ParsedCommitDisplayFormat::Json => {},
                        ParsedCommitDisplayFormat::Table => {},
                        ParsedCommitDisplayFormat::Toml => {},
                    }
                }
            }
            let mut m: Vec<char> = Vec::new();
            crate::text::append_str(&mut m, "Unknown format '");
            crate::text::append_str(&mut m, s);
            crate::text::append_str(&mut m, "'. Supported formats: cli, json, table, toml");
            Err(crate::text::string_of(&m))
        }
    }
}

impl Default for ParsedCommitDisplayFormat {
    fn default() -> (r: Self)
        ensures
            r == ParsedCommitDisplayFormat::Cli,
    {
        ParsedCommitDisplayFormat::Cli
    }
}

impl core::str::FromStr for ParsedCommitDisplayFormat {
    type Err = String;

    fn from_str(s: &str) -> Result<Self, String> {
        ParsedCommitDisplayFormat::parse_str(s)
    }
}

/// The case the first letter of the description is held to.
#[derive(Debug, Clone, Copy, PartialEq, Eq, Structural)]
pub enum DescriptionCase {
    Any,
    Lower,
    Upper,
}

/// The lowercase name of a description case.
pub open spec fn spec_case_name(c: DescriptionCase) -> Seq<char> {
    match c {
        DescriptionCase::Any => "any"@,
        DescriptionCase::Lower => "lower"@,
        DescriptionCase::Upper => "upper"@,
    }
}

impl DescriptionCase {
    /// The lowercase name of the case choice.
    pub fn as_str(&self) -> (r: &'static str)
        ensures
            r@ == spec_case_name(*self),
    {
        match self {
            DescriptionCase::Any => "any",
            DescriptionCase::Lower => "lower",
            DescriptionCase::Upper => "upper",
        }
    }

    /// Reads a case name, ignoring ASCII letter case; an unknown name is
    /// reported with the list of supported cases.
    pub fn parse_str(s: &str) -> (r: Result<DescriptionCase, String>)
        ensures
            (match r {
                Ok(c) => eq_ignore_ascii_case(s@, spec_case_name(c)),
                Err(e) => (forall|c: DescriptionCase|
                    !eq_ignore_ascii_case(s@, spec_case_name(c))) && e@ == "Unknown case '"@ + s@
                    + "'. Supported cases: any, lower, upper"@,
            }),
    {
        proof {
            reveal_strlit("any");
            reveal_strlit("lower");
            reveal_strlit("upper");
        }
        let folded = ascii_fold_str(s);
        proof {
            assert("any"@.map_values(|c: char| ascii_fold(c)) =~= "any"@);
            assert("lower"@.map_values(|c: char| ascii_fold(c)) =~= "lower"@);
            assert("upper"@.map_values(|c: char| ascii_fold(c)) =~= "upper"@);
        }
        if vec_eq_str(&folded, "any") {
            Ok(DescriptionCase::Any)
        } else if vec_eq_str(&folded, "lower") {
            Ok(DescriptionCase::Lower)
        } else if vec_eq_str(&folded, "upper") {
            Ok(DescriptionCase::Upper)
        } else {
            proof {
                assert forall|c: DescriptionCase| !eq_ignore_ascii_case(
                    s@,
                    spec_case_name(c),
                ) by {
                    match c {
                        DescriptionCase::Any => {},
                        DescriptionCase::Lower => {},
                        DescriptionCase::Upper => {},
                    }
                }
            }
            let mut m: Vec<char> = Vec::new();
            crate::text::append_str(&mut m, "Unknown case '");
            crate::text::append_str(&mut m, s);
            crate::text::append_str(&mut m, "'. Supported cases: any, lower, upper");
            Err(crate::text::string_of(&m))
        }
    }
}

impl Default for DescriptionCase {
    fn default() -> (r: Self)
        ensures
            r == DescriptionCase::Any,
    {
        DescriptionCase::Any
    }
}

impl core::str::FromStr for DescriptionCase {
    type Err = String;

    fn from_str(s: &str) -> Result<Self, String> {
        DescriptionCase::parse_str(s)
    }
}

/// What `--init` should set up.
#[derive(Debug, Clone, Copy, PartialEq, Eq, Structural)]
pub enum InitOption {
    CommitMsg,
    Config,
    Hooks,
    PrepareCommitMsg,
}

/// The command-line name of an init option.
pub open spec fn spec_init_name(o: InitOption) -> Seq<char> {
    match o {
        InitOption::CommitMsg => "commit-msg"@,
        InitOption::Config => "config"@,
        InitOption::Hooks => "hooks"@,
        InitOption::PrepareCommitMsg => "prepare-commit-msg"@,
    }
}

impl InitOption {
    /// The command-line name of the option.
    pub fn as_str(&self) -> (r: &'static str)
        ensures
            r@ == spec_init_name(*self),
    {
        match self {
            InitOption::CommitMsg => "commit-msg",
            InitOption::Config => "config",
            InitOption::Hooks => "hooks",
            InitOption::PrepareCommitMsg => "prepare-commit-msg",
        }
    }

    /// Reads an init option name, ignoring ASCII letter case; an unknown
    /// name is reported with the list of supported options.
    pub fn parse_str(s: &str) -> (r: Result<InitOption, String>)
        ensures
            (match r {
                Ok(o) => eq_ignore_ascii_case(s@, spec_init_name(o)),
                Err(e) => (forall|o: InitOption| !eq_ignore_ascii_case(s@, spec_init_name(o)))
                    && e@ == "Unknown option '"@ + s@
                    + "'. Supported options: commit-msg, config, hooks, prepare-commit-msg"@,
            }),
    {
        proof {
            reveal_strlit("commit-msg");
            reveal_strlit("config");
            reveal_strlit("hooks");
            reveal_strlit("prepare-commit-msg");
        }
        let folded = ascii_fold_str(s);
        proof {
            assert("commit-msg"@.map_values(|c: char| ascii_fold(c)) =~= "commit-msg"@);
            assert("config"@.map_values(|c: char| ascii_fold(c)) =~= "config"@);
            assert("hooks"@.map_values(|c: char| ascii_fold(c)) =~= "hooks"@);
            assert("prepare-commit-msg"@.map_values(|c: char| ascii_fold(c))
                =~= "prepare-commit-msg"@);
        }
        if vec_eq_str(&folded, "commit-msg") {
            Ok(InitOption::CommitMsg)
        } else if vec_eq_str(&folded, "config") {
            Ok(InitOption::Config)
        } else if vec_eq_str(&folded, "hooks") {
            Ok(InitOption::Hooks)
        } else if vec_eq_str(&folded, "prepare-commit-msg") {
            Ok(InitOption::PrepareCommitMsg)
        } else {
            proof {
                assert forall|o: InitOption| !eq_ignore_ascii_case(s@, spec_init_name(o)) by {
                    match o {
                        InitOption::CommitMsg => {},
                        InitOption::Config => {},
                        InitOption::Hooks => {},
                        InitOption::PrepareCommitMsg => {},
                    }
                }
            }
            let mut m: Vec<char> = Vec::new();
            crate::text::append_str(&mut m, "Unknown option '");
            crate::text::append_str(&mut m, s);
            crate::text::append_str(
                &mut m,
                "'. Supported options: commit-msg, config, hooks, prepare-commit-msg",
            );
            Err(crate::text::string_of(&m))
        }
    }
}

impl core::str::FromStr for InitOption {
    type Err = String;

    fn from_str(s: &str) -> Result<Self, String> {
        InitOption::parse_str(s)
    }
}

// ---------------------------------------------------------------------------
// Configuration
// ---------------------------------------------------------------------------

/// The flat rule configuration the engine consumes, read-only.
#[derive(Debug, Clone)]
pub struct Config {
    pub quiet: bool,
    pub display: bool,
    pub format: ParsedCommitDisplayFormat,
    pub split_lines: bool,
    pub gitmoji: bool,
    pub description_case: DescriptionCase,
    pub imperative: bool,
    pub no_period: bool,
    pub max_header_length: usize,
    pub max_body_length: usize,
    pub whitespace: bool,
    pub conventional: bool,
    pub scopes_allowed: Vec<String>,
    pub types_allowed: Vec<String>,
    pub header_pattern: String,
}

/// The ghost image of `Config`.
pub struct ConfigView {
    pub quiet: bool,
    pub display: bool,
    pub format: ParsedCommitDisplayFormat,
    pub split_lines: bool,
    pub gitmoji: bool,
    pub description_case: DescriptionCase,
    pub imperative: bool,
    pub no_period: bool,
    pub max_header_length: nat,
    pub max_body_length: nat,
    pub whitespace: bool,
    pub conventional: bool,
    pub scopes_allowed: Seq<Seq<char>>,
    pub types_allowed: Seq<Seq<char>>,
    pub header_pattern: Seq<char>,
}

impl View for Config {
    type V = ConfigView;

    open spec fn view(&self) -> ConfigView {
        ConfigView {
            quiet: self.quiet,
            display: self.display,
            format: self.format,
            split_lines: self.split_lines,
            gitmoji: self.gitmoji,
            description_case: self.description_case,
            imperative: self.imperative,
            no_period: self.no_period,
            max_header_length: self.max_header_length as nat,
            max_body_length: self.max_body_length as nat,
            whitespace: self.whitespace,
            conventional: self.conventional,
            scopes_allowed: self.scopes_allowed.deep_view(),
            types_allowed: self.types_allowed.deep_view(),
            header_pattern: self.header_pattern@,
        }
    }
}

/// The configuration with every rule off: what `Config::default` builds.
pub open spec fn default_config() -> ConfigView {
    ConfigView {
        quiet: false,
        display: false,
        format: ParsedCommitDisplayFormat::Cli,
        split_lines: false,
        gitmoji: false,
        description_case: DescriptionCase::Any,
        imperative: false,
        no_period: false,
        max_header_length: 0,
        max_body_length: 0,
        whitespace: false,
        conventional: false,
        scopes_allowed: seq![],
        types_allowed: seq![],
        header_pattern: seq![],
    }
}

impl Default for Config {
    fn default() -> (c: Config)
        ensures
            c@ == default_config(),
    {
        let c = Config {
            quiet: false,
            display: false,
            format: ParsedCommitDisplayFormat::Cli,
            split_lines: false,
            gitmoji: false,
            description_case: DescriptionCase::Any,
            imperative: false,
            no_period: false,
            max_header_length: 0,
            max_body_length: 0,
            whitespace: false,
            conventional: false,
            scopes_allowed: Vec::new(),
            types_allowed: Vec::new(),
            header_pattern: String::new(),
        };
        proof {
            assert(c@.scopes_allowed =~= default_config().scopes_allowed);
            assert(c@.types_allowed =~= default_config().types_allowed);
            assert(c@.header_pattern =~= default_config().header_pattern);
            assert(c@ =~= default_config());
        }
        c
    }
}

/// Anything that can write its settings into a `Config`: the command-line
/// options of the binary implement this outside the library.
pub trait Configurable {
    fn configure(&self, config: &mut Config);
}

impl Config {
    /// A configuration with every rule off.
    pub fn new() -> (c: Self)
        ensures
            c@ == default_config(),
    {
        Config::default()
    }

    /// Lets a source of settings write itself into this configuration.
    pub fn update_from<T: Configurable>(&mut self, args: &T) {
        args.configure(self);
    }
}

/// How many rules differ from their switched-off default: the number of
/// active rules.
pub open spec fn spec_count_active_rules(c: ConfigView) -> int {
    (if c.conventional { 1int } else { 0int }) + (if c.imperative { 1int } else { 0int })
        + (if c.gitmoji { 1int } else { 0int }) + (if c.whitespace { 1int } else { 0int })
        + (if c.no_period { 1int } else { 0int })
        + (if c.description_case != DescriptionCase::Any { 1int } else { 0int })
        + (if c.max_header_length != 0 { 1int } else { 0int })
        + (if c.max_body_length != 0 { 1int } else { 0int })
        + (if c.scopes_allowed.len() > 0 { 1int } else { 0int })
        + (if c.types_allowed.len() > 0 { 1int } else { 0int })
        + (if c.header_pattern.len() > 0 { 1int } else { 0int })
}

/// Counts the rules whose setting differs from the switched-off default.
#[verifier::rlimit(100)]
#[verifier::spinoff_prover]
pub fn count_active_rules(config: &Config) -> (r: usize)
    ensures
        r as int == spec_count_active_rules(config@),
{
    let mut r: usize = 0;
    if config.conventional {
        r = r + 1;
    }
    if config.imperative {
        r = r + 1;
    }
    if config.gitmoji {
        r = r + 1;
    }
    if config.whitespace {
        r = r + 1;
    }
    if config.no_period {
        r = r + 1;
    }
    if !matches!(config.description_case, DescriptionCase::Any) {
        r = r + 1;
    }
    if config.max_header_length != 0 {
        r = r + 1;
    }
    if config.max_body_length != 0 {
        r = r + 1;
    }
    if config.scopes_allowed.len() > 0 {
        r = r + 1;
    }
    if config.types_allowed.len() > 0 {
        r = r + 1;
    }
    if !config.header_pattern.as_str().is_empty() {
        r = r + 1;
    }
    r
}

/// Forces the strict grammar on when an allow-list of types or scopes is
/// given: the lists are meaningful only under the strict grammar.
pub fn adjust_config(config: &mut Config)
    ensures
        final(config)@ == (ConfigView {
            conventional: old(config)@.conventional || old(config)@.types_allowed.len() > 0
                || old(config)@.scopes_allowed.len() > 0,
            ..old(config)@
        }),
{
    if config.types_allowed.len() > 0 || config.scopes_allowed.len() > 0 {
        config.conventional = true;
    }
}

// ---------------------------------------------------------------------------
// Rule descriptions and range-argument validation
// ---------------------------------------------------------------------------

/// A rule's short description, and an optional longer note.
pub struct RuleDescription {
    pub short: &'static str,
    pub extra: Option<&'static str>,
}

/// The failure that a combination of revision-range arguments deserves:
/// both ends must be given and non-blank, and a range rules out a positional
/// message, a message file, and committing.
pub open spec fn spec_range_args_error(
    from: Option<Seq<char>>,
    to: Option<Seq<char>>,
    has_positional_message: bool,
    has_file: bool,
    commit: bool,
    force: bool,
) -> Option<Seq<char>> {
    if from is None && to is None {
        None
    } else if from is None || to is None {
        Some("Both --from and --to are required to lint a commit range"@)
    } else if trim_of(from->Some_0).len() == 0 {
        Some("The --from value must not be empty"@)
    } else if trim_of(to->Some_0).len() == 0 {
        Some("The --to value must not be empty"@)
    } else if has_positional_message {
        Some("A commit range cannot be used with a positional commit message"@)
    } else if has_file {
        Some("A commit range cannot be used with --file"@)
    } else if commit {
        Some("A commit range cannot be used with --commit"@)
    } else if force {
        Some("A commit range cannot be used with --force"@)
    } else {
        None
    }
}

/// Checks a combination of revision-range arguments and names the first
/// thing wrong with it.
pub fn validate_range_args(
    from: &Option<String>,
    to: &Option<String>,
    has_positional_message: bool,
    has_file: bool,
    commit: bool,
    force: bool,
) -> (r: Result<(), SumiError>)
    ensures
        (match r {
            Ok(()) => spec_range_args_error(
                from.deep_view(),
                to.deep_view(),
                has_positional_message,
                has_file,
                commit,
                force,
            ) is None,
            Err(e) => {
                &&& e@ matches crate::errors::SumiErrorView::GeneralError { details }
                &&& Some(details) == spec_range_args_error(
                    from.deep_view(),
                    to.deep_view(),
                    has_positional_message,
                    has_file,
                    commit,
                    force,
                )
            },
        }),
{
    match (from, to) {
        (None, None) => Ok(()),
        (Some(f), Some(t)) => {
            let fc = trim_chars(&chars_of(f.as_str()));
            if fc.len() == 0 {
                return Err(SumiError::GeneralError {
                    details: String::from_str("The --from value must not be empty"),
                });
            }
            let tc = trim_chars(&chars_of(t.as_str()));
            if tc.len() == 0 {
                return Err(SumiError::GeneralError {
                    details: String::from_str("The --to value must not be empty"),
                });
            }
            if has_positional_message {
                return Err(SumiError::GeneralError {
                    details: String::from_str(
                        "A commit range cannot be used with a positional commit message",
                    ),
                });
            }
            if has_file {
                return Err(SumiError::GeneralError {
                    details: String::from_str("A commit range cannot be used with --file"),
                });
            }
            if commit {
                return Err(SumiError::GeneralError {
                    details: String::from_str("A commit range cannot be used with --commit"),
                });
            }
            if force {
                return Err(SumiError::GeneralError {
                    details: String::from_str("A commit range cannot be used with --force"),
                });
            }
            Ok(())
        },
        _ => Err(SumiError::GeneralError {
            details: String::from_str("Both --from and --to are required to lint a commit range"),
        }),
    }
}

} // verus!
