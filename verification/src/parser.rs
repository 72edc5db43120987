//! The dual-grammar parser: a permissive strategy that takes the first line
//! as the description, and a strict Conventional Commits strategy, with the
//! strict one falling back to the permissive one on failure.
use crate::config::Config;
use crate::emoji::extracted_emojis;
use crate::emoji::parse_gitmoji;
use crate::emoji::remove_gitmoji;
use crate::emoji::spec_remove_gitmoji;
use crate::errors::views_of;
use crate::errors::spec_message;
use crate::errors::SumiError;
use crate::errors::SumiErrorView;
use crate::outside::conv_parse;
use crate::outside::parse_conventional;
use crate::outside::ConvFailure;
use crate::outside::ConvFailureView;
use crate::refs::extract_references;
use crate::refs::spec_extract_references;
use crate::text::chars_of;
use crate::text::find_line_end;
use crate::text::join_nl;
use crate::text::join_lines;
use crate::text::line_end;
use crate::text::lines_of;
use crate::text::skip_lines;
use crate::text::split_lines;
use crate::text::string_of;
use crate::text::strip_cr;
use crate::text::subvec;
use crate::text::trim_leading_nl;
use crate::text::trim_leading_nl_chars;
use vstd::prelude::*;
use vstd::string::StringExecFns;

verus! {

// ---------------------------------------------------------------------------
// The parse result
// ---------------------------------------------------------------------------

/// The normalized record a parsed commit message becomes: the model that
/// the validation rules and the display layer consume.
#[derive(Debug)]
pub struct ParsedCommit {
    pub header: String,
    pub gitmoji: Option<Vec<String>>,
    pub commit_type: Option<String>,
    pub scope: Option<String>,
    pub description: String,
    pub body: Option<String>,
    pub footers: Option<Vec<String>>,
    pub is_breaking: Option<bool>,
    pub breaking_description: Option<String>,
    pub references: Option<Vec<String>>,
}

/// The ghost image of `ParsedCommit`.
pub struct ParsedCommitView {
    pub header: Seq<char>,
    pub gitmoji: Option<Seq<Seq<char>>>,
    pub commit_type: Option<Seq<char>>,
    pub scope: Option<Seq<char>>,
    pub description: Seq<char>,
    pub body: Option<Seq<char>>,
    pub footers: Option<Seq<Seq<char>>>,
    pub is_breaking: Option<bool>,
    pub breaking_description: Option<Seq<char>>,
    pub references: Option<Seq<Seq<char>>>,
}

impl View for ParsedCommit {
    type V = ParsedCommitView;

    open spec fn view(&self) -> ParsedCommitView {
        ParsedCommitView {
            header: self.header@,
            gitmoji: match self.gitmoji {
                Some(ref v) => Some(v.deep_view()),
                None => None,
            },
            commit_type: match self.commit_type {
                Some(ref s) => Some(s@),
                None => None,
            },
            scope: match self.scope {
                Some(ref s) => Some(s@),
                None => None,
            },
            description: self.description@,
            body: match self.body {
                Some(ref s) => Some(s@),
                None => None,
            },
            footers: match self.footers {
                Some(ref v) => Some(v.deep_view()),
                None => None,
            },
            is_breaking: self.is_breaking,
            breaking_description: match self.breaking_description {
                Some(ref s) => Some(s@),
                None => None,
            },
            references: match self.references {
                Some(ref v) => Some(v.deep_view()),
                None => None,
            },
        }
    }
}

// ---------------------------------------------------------------------------
// The shared steps, in the model
// ---------------------------------------------------------------------------

/// The first line of a message.
pub open spec fn header_of(msg: Seq<char>) -> Seq<char> {
    lines_of(msg)[0]
}

/// The emoji units found in the header and the message with them removed,
/// when the emoji rule asks for stripping and the header holds any; the
/// message itself otherwise.
pub open spec fn spec_strip(msg: Seq<char>, gitmoji_on: bool) -> (Option<Seq<Seq<char>>>, Seq<
    char,
>) {
    if gitmoji_on && msg.len() > 0 && extracted_emojis(header_of(msg)).len() > 0 {
        (
            Some(extracted_emojis(header_of(msg))),
            spec_remove_gitmoji(msg, extracted_emojis(header_of(msg))),
        )
    } else {
        (None, msg)
    }
}

/// The first non-empty line at or after `i`.
pub open spec fn find_nonempty_from(ls: Seq<Seq<char>>, i: int) -> Option<int>
    decreases ls.len() - i,
{
    if !(0 <= i < ls.len()) {
        None
    } else if ls[i].len() > 0 {
        Some(i)
    } else {
        find_nonempty_from(ls, i + 1)
    }
}

/// Where the body starts under the permissive strategy: at the first
/// non-empty line after the header, or right after the header when every
/// later line is empty.
pub open spec fn spec_body_start(ls: Seq<Seq<char>>) -> int {
    match find_nonempty_from(ls, 1) {
        Some(i) => i,
        None => 1,
    }
}

/// The body the lines from `st` on make: the lines joined back together,
/// with leading blank lines dropped; no line at all means no body.
pub open spec fn spec_body_at(ls: Seq<Seq<char>>, st: int) -> Option<Seq<char>> {
    if st >= ls.len() {
        None
    } else {
        Some(trim_leading_nl(join_nl(ls.skip(st))))
    }
}

// ---------------------------------------------------------------------------
// The two strategies, in the model
// ---------------------------------------------------------------------------

/// What the permissive strategy makes of a message: the header is the first
/// line, the (emoji-stripped) first line is the description, everything
/// from the first non-empty later line on is the body, and the strict
/// fields stay absent. An empty message, or one whose header was nothing
/// but emoji, has no header.
pub open spec fn basic_parse(msg: Seq<char>, gitmoji_on: bool) -> Result<
    ParsedCommitView,
    SumiErrorView,
> {
    if msg.len() == 0 {
        Err(SumiErrorView::EmptyCommitHeader)
    } else {
        let st = spec_strip(msg, gitmoji_on);
        let m2 = st.1;
        if m2.len() == 0 {
            Err(SumiErrorView::EmptyCommitHeader)
        } else {
            let ls = lines_of(m2);
            Ok(
                ParsedCommitView {
                    header: header_of(msg),
                    gitmoji: st.0,
                    commit_type: None,
                    scope: None,
                    description: ls[0],
                    body: spec_body_at(ls, spec_body_start(ls)),
                    footers: None,
                    is_breaking: None,
                    breaking_description: None,
                    references: spec_extract_references(m2),
                },
            )
        }
    }
}

/// What the strict strategy makes of a message: the Conventional Commits
/// grammar applied to the emoji-stripped message, with type, scope,
/// description, body, footers and the breaking marker taken from it; a
/// grammar failure is the strategy's failure, and a missing blank line
/// before the body is named as such.
pub open spec fn conventional_parse(msg: Seq<char>, gitmoji_on: bool) -> Result<
    ParsedCommitView,
    SumiErrorView,
> {
    if msg.len() == 0 {
        Err(SumiErrorView::EmptyCommitHeader)
    } else {
        let st = spec_strip(msg, gitmoji_on);
        match conv_parse(st.1) {
            Ok(p) => Ok(
                ParsedCommitView {
                    header: header_of(msg),
                    gitmoji: st.0,
                    commit_type: Some(p.commit_type),
                    scope: p.scope,
                    description: p.description,
                    body: p.body,
                    footers: if p.footers.len() > 0 {
                        Some(p.footers)
                    } else {
                        None
                    },
                    is_breaking: Some(p.is_breaking),
                    breaking_description: p.breaking_description,
                    references: spec_extract_references(st.1),
                },
            ),
            Err(ConvFailureView::NoBlankLineBeforeBody) => Err(
                SumiErrorView::SeparateHeaderFromBody,
            ),
            Err(ConvFailureView::Rejected { reason }) => Err(
                SumiErrorView::InvalidConventionalCommit { reason },
            ),
        }
    }
}

/// What parsing as a whole yields: the strict strategy when the strict
/// grammar is on, falling back to the permissive one on failure with the
/// failure kept as a soft error; the permissive strategy alone otherwise.
pub open spec fn spec_handle_parsing(msg: Seq<char>, cfg: crate::config::ConfigView) -> (Result<
    ParsedCommitView,
    SumiErrorView,
>, Seq<SumiErrorView>) {
    if cfg.conventional {
        match conventional_parse(msg, cfg.gitmoji) {
            Ok(p) => (Ok(p), seq![]),
            Err(e) => (
                basic_parse(msg, cfg.gitmoji),
                seq![
                    SumiErrorView::FailedConventionalParse { reason: spec_message(e) },
                ],
            ),
        }
    } else {
        (basic_parse(msg, cfg.gitmoji), seq![])
    }
}

// ---------------------------------------------------------------------------
// Executable parsing
// ---------------------------------------------------------------------------

/// The first line of a message, or the empty-header failure when the
/// message has no line at all.
pub fn get_commit_header(commit: &str) -> (r: Result<String, SumiError>)
    ensures
        (match r {
            Ok(h) => commit@.len() > 0 && h@ == header_of(commit@),
            Err(e) => commit@.len() == 0 && e@ == SumiErrorView::EmptyCommitHeader,
        }),
{
    let cs = chars_of(commit);
    if cs.len() == 0 {
        return Err(SumiError::EmptyCommitHeader);
    }
    let h = first_line(&cs);
    Ok(string_of(&h))
}

/// Copies the first line of a non-empty text, with a trailing carriage
/// return removed.
fn first_line(cs: &Vec<char>) -> (h: Vec<char>)
    requires
        cs@.len() > 0,
    ensures
        h@ == header_of(cs@),
        lines_of(cs@).len() > 0,
{
    let e = find_line_end(cs, 0);
    let mut piece = subvec(cs, 0, e);
    if piece.len() > 0 && piece[piece.len() - 1] == '\r' {
        piece.pop();
    }
    proof {
        assert(piece@ == strip_cr(cs@.subrange(0, line_end(cs@, 0))));
        assert(lines_of(cs@)[0] == strip_cr(cs@.subrange(0, line_end(cs@, 0))));
    }
    piece
}

/// Extracts the header's emoji units and strips them from the message when
/// the emoji rule is on, handing back the units and the stripped message.
fn parse_and_remove_emoji(commit: &Vec<char>, config: &Config) -> (r: (Option<Vec<String>>, Vec<
    char,
>))
    requires
        commit@.len() > 0,
    ensures
        ({
            let st = spec_strip(commit@, config@.gitmoji);
            &&& (match r.0 {
                Some(ref v) => st.0 == Some(v.deep_view()),
                None => st.0 is None,
            })
            &&& r.1@ == st.1
        }),
{
    if config.gitmoji {
        let title = first_line(commit);
        let title_s = string_of(&title);
        match parse_gitmoji(title_s.as_str()) {
            Some(emojis) => {
                let stripped = remove_gitmoji(commit, &emojis);
                (Some(emojis), stripped)
            },
            None => {
                let copy = subvec(commit, 0, commit.len());
                proof {
                    assert(copy@ =~= commit@);
                }
                (None, copy)
            },
        }
    } else {
        let copy = subvec(commit, 0, commit.len());
        proof {
            assert(copy@ =~= commit@);
        }
        (None, copy)
    }
}

/// The permissive line-based parsing strategy.
pub struct BasicCommitParser;

impl BasicCommitParser {
    /// Parses a message under the permissive strategy.
    pub fn parse(&self, commit: &str, config: &Config) -> (r: Result<ParsedCommit, SumiError>)
        ensures
            (match r {
                Ok(pc) => basic_parse(commit@, config@.gitmoji) == Ok::<
                    ParsedCommitView,
                    SumiErrorView,
                >(pc@),
                Err(e) => basic_parse(commit@, config@.gitmoji) == Err::<
                    ParsedCommitView,
                    SumiErrorView,
                >(e@),
            }),
    {
        let cs = chars_of(commit);
        if cs.len() == 0 {
            return Err(SumiError::EmptyCommitHeader);
        }
        let header = first_line(&cs);
        let (gitmoji, stripped) = parse_and_remove_emoji(&cs, config);
        if stripped.len() == 0 {
            return Err(SumiError::EmptyCommitHeader);
        }
        let description = first_line(&stripped);
        let lines = split_lines(&stripped);
        let body_start_index = self.find_body_start_index(&lines);
        let parsed_body = self.extract_body(&lines, body_start_index);
        let references = extract_references(&stripped);
        let pc = ParsedCommit {
            header: string_of(&header),
            gitmoji,
            commit_type: None,
            scope: None,
            description: string_of(&description),
            body: parsed_body,
            footers: None,
            is_breaking: None,
            breaking_description: None,
            references,
        };
        proof {
            assert(lines_of(stripped@).len() > 0);
        }
        Ok(pc)
    }

    /// The index where the body starts: the first non-empty line after the
    /// header, or the line right after the header when every later line is
    /// empty.
    pub fn find_body_start_index(&self, lines: &Vec<Vec<char>>) -> (r: usize)
        requires
            lines@.len() >= 1,
        ensures
            r as int == spec_body_start(lines.deep_view()),
            1 <= r <= lines@.len(),
    {
        let ghost dv = lines.deep_view();
        let mut i: usize = 1;
        while i < lines.len()
            invariant
                1 <= i <= lines@.len(),
                find_nonempty_from(dv, 1) == find_nonempty_from(dv, i as int),
            decreases lines@.len() - i,
        {
            proof {
                assert(dv[i as int] == lines@[i as int]@);
            }
            if lines[i].len() > 0 {
                proof {
                    assert(find_nonempty_from(dv, i as int) == Some(i as int));
                }
                return i;
            }
            i = i + 1;
        }
        proof {
            assert(find_nonempty_from(dv, lines@.len() as int) is None);
        }
        1
    }

    /// The body made of the lines from `start_index` on, joined back
    /// together with leading blank lines dropped; nothing when no line is
    /// left.
    pub fn extract_body(&self, lines: &Vec<Vec<char>>, start_index: usize) -> (r: Option<String>)
        ensures
            (match r {
                Some(b) => spec_body_at(lines.deep_view(), start_index as int) == Some(b@),
                None => spec_body_at(lines.deep_view(), start_index as int) is None,
            }),
    {
        if start_index >= lines.len() {
            return None;
        }
        let tail = skip_lines(lines, start_index);
        let joined = join_lines(&tail);
        let trimmed = trim_leading_nl_chars(&joined);
        Some(string_of(&trimmed))
    }
}

/// The strict Conventional Commits parsing strategy.
pub struct ConventionalCommitParser;

impl ConventionalCommitParser {
    /// Parses a message under the strict Conventional Commits grammar.
    pub fn parse(&self, commit: &str, config: &Config) -> (r: Result<ParsedCommit, SumiError>)
        ensures
            (match r {
                Ok(pc) => conventional_parse(commit@, config@.gitmoji) == Ok::<
                    ParsedCommitView,
                    SumiErrorView,
                >(pc@),
                Err(e) => conventional_parse(commit@, config@.gitmoji) == Err::<
                    ParsedCommitView,
                    SumiErrorView,
                >(e@),
            }),
    {
        let cs = chars_of(commit);
        if cs.len() == 0 {
            return Err(SumiError::EmptyCommitHeader);
        }
        let header = first_line(&cs);
        let (gitmoji, stripped) = parse_and_remove_emoji(&cs, config);
        let text = string_of(&stripped);
        match parse_conventional(text.as_str()) {
            Ok(parts) => {
                let references = extract_references(&stripped);
                let footers = if parts.footers.len() > 0 {
                    Some(parts.footers)
                } else {
                    None
                };
                let pc = ParsedCommit {
                    header: string_of(&header),
                    gitmoji,
                    commit_type: Some(parts.commit_type),
                    scope: parts.scope,
                    description: parts.description,
                    body: parts.body,
                    footers,
                    is_breaking: Some(parts.is_breaking),
                    breaking_description: parts.breaking_description,
                    references,
                };
                Ok(pc)
            },
            Err(ConvFailure::NoBlankLineBeforeBody) => Err(SumiError::SeparateHeaderFromBody),
            Err(ConvFailure::Rejected { reason }) => Err(
                SumiError::InvalidConventionalCommit { reason },
            ),
        }
    }
}

/// Parses a message: under the strict grammar with permissive fallback when
/// the strict rule is on, recording the strict failure as a soft error; or
/// under the permissive grammar alone. A failure of the returned strategy
/// is fatal.
pub fn handle_parsing(commit: &str, config: &Config, errors: &mut Vec<SumiError>) -> (r: Result<
    ParsedCommit,
    SumiError,
>)
    ensures
        ({
            let hp = spec_handle_parsing(commit@, config@);
            &&& views_of(final(errors)@) == views_of(old(errors)@) + hp.1
            &&& (match r {
                Ok(pc) => hp.0 == Ok::<ParsedCommitView, SumiErrorView>(pc@),
                Err(e) => hp.0 == Err::<ParsedCommitView, SumiErrorView>(e@),
            })
        }),
{
    if config.conventional {
        match (ConventionalCommitParser).parse(commit, config) {
            Ok(parsed) => {
                proof {
                    assert(views_of(errors@) =~= views_of(errors@) + Seq::<
                        SumiErrorView,
                    >::empty());
                }
                Ok(parsed)
            },
            Err(e) => {
                let reason = e.message();
                let ghost ev = e@;
                errors.push(SumiError::FailedConventionalParse { reason });
                proof {
                    assert(views_of(errors@) =~= views_of(old(errors)@) + seq![
                        SumiErrorView::FailedConventionalParse { reason: spec_message(ev) },
                    ]);
                }
                (BasicCommitParser).parse(commit, config)
            },
        }
    } else {
        proof {
            assert(views_of(errors@) =~= views_of(errors@) + Seq::<SumiErrorView>::empty());
        }
        (BasicCommitParser).parse(commit, config)
    }
}

} // verus!
