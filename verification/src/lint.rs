//! The rule validation engine: every configured check runs independently
//! against the raw text and the parsed structure, and every failure is
//! collected; nothing short-circuits.
use crate::config::Config;
use crate::config::DescriptionCase;
use crate::emoji::is_string_emoji;
use crate::emoji::is_unicode_emoji;
use crate::emoji::normalise_emoji;
use crate::emoji::string_emoji_contains;
use crate::emoji::strip_vs;
use crate::emoji::unicode_emoji_contains;
use crate::errors::views_of;
use crate::errors::SumiError;
use crate::errors::SumiErrorView;
use crate::outside::char_is_uppercase;
use crate::outside::char_is_alphabetic;
use crate::outside::char_is_whitespace;
use crate::outside::char_lower;
use crate::outside::char_upper;
use crate::outside::is_alphabetic_char;
use crate::outside::is_uppercase_char;
use crate::outside::is_whitespace_char;
use crate::outside::lower_char;
use crate::outside::lower_of;
use crate::outside::pattern_verdict;
use crate::outside::regex_match_text;
use crate::outside::to_lowercase;
use crate::outside::upper_char;
use crate::parser::ParsedCommit;
use crate::parser::ParsedCommitView;
use crate::text::append_str;
use crate::text::chars_of;
use crate::text::dec_str;
use crate::text::extend_vec;
use crate::text::join_comma_space;
use crate::text::join_with_comma_space;
use crate::text::scan_while;
use crate::text::lemma_scan_while;
use crate::text::lemma_scan_while_is;
use crate::text::spec_pluralize;
use crate::text::split_commas;
use crate::text::split_commas_chars;
use crate::text::string_of;
use crate::text::subvec;
use crate::text::trim_chars;
use crate::text::trim_of;
use crate::text::trim_start_idx;
use crate::text::usize_to_chars;
use crate::text::vec_eq_str;
use vstd::prelude::*;
use vstd::string::StrSliceExecFns;
use vstd::string::StringExecFns;

verus! {

/// A possibly found failure, as the list it contributes.
pub open spec fn opt_err(o: Option<SumiErrorView>) -> Seq<SumiErrorView> {
    match o {
        Some(e) => seq![e],
        None => seq![],
    }
}

// ---------------------------------------------------------------------------
// Line length
// ---------------------------------------------------------------------------

/// Checks a line against a maximum length in characters; a limit of zero
/// means the rule is off, a longer line is reported with its actual length.
/// A line of exactly the limit passes; one character more fails.
pub fn validate_line_length(line: &str, max_length: usize) -> (r: Result<(), usize>)
    ensures
        (match r {
            Ok(()) => max_length == 0 || line@.len() <= max_length,
            Err(n) => max_length > 0 && n == line@.len() && n > max_length,
        }),
{
    if max_length == 0 {
        return Ok(());
    }
    let actual_length = line.unicode_len();
    if actual_length > max_length {
        return Err(actual_length);
    }
    Ok(())
}

/// The failure a line of a given length earns under a limit, reported for
/// the given one-indexed line number; a limit of zero never fails.
pub open spec fn line_length_err(line: Seq<char>, max: nat, line_number: nat) -> Option<
    SumiErrorView,
> {
    if max != 0 && line.len() > max {
        Some(
            SumiErrorView::LineTooLong {
                line_number,
                line_length: line.len(),
                max_length: max,
            },
        )
    } else {
        None
    }
}

// ---------------------------------------------------------------------------
// Whitespace
// ---------------------------------------------------------------------------

/// Whether a maximal white-space run starts at `i`.
pub open spec fn is_run_start(s: Seq<char>, i: int) -> bool {
    0 <= i < s.len() && char_is_whitespace(s[i]) && (i == 0 || !char_is_whitespace(s[i - 1]))
}

/// The end of the white-space run starting at `i`.
pub open spec fn ws_run_end(s: Seq<char>, i: int) -> int {
    scan_while(s, i, |c: char| char_is_whitespace(c))
}

/// The label a white-space run earns: a leading run is a leading space, a
/// trailing run a trailing space, an interior run of two or more its count
/// of adjacent spaces; a single interior space passes.
pub open spec fn classify_run(s: Seq<char>, i: int) -> Option<Seq<char>> {
    let e = ws_run_end(s, i);
    if i == 0 {
        Some("Leading space"@)
    } else if e == s.len() {
        Some("Trailing space"@)
    } else if e - i >= 2 {
        Some(dec_str((e - i) as nat) + " adjacent spaces"@)
    } else {
        None
    }
}

/// The labels of the flagged white-space runs from `i` on, left to right.
pub open spec fn ws_issues_from(s: Seq<char>, i: int) -> Seq<Seq<char>>
    decreases s.len() - i,
        when 0 <= i
        via ws_issues_from_decreases
{
    if !(0 <= i < s.len()) {
        seq![]
    } else if is_run_start(s, i) {
        match classify_run(s, i) {
            Some(l) => seq![l] + ws_issues_from(s, ws_run_end(s, i)),
            None => ws_issues_from(s, ws_run_end(s, i)),
        }
    } else {
        ws_issues_from(s, i + 1)
    }
}

#[via_fn]
proof fn ws_issues_from_decreases(s: Seq<char>, i: int) {
    if 0 <= i < s.len() {
        lemma_scan_while(s, i, |c: char| char_is_whitespace(c));
    }
}

/// The labels of all flagged white-space runs of the line.
pub open spec fn ws_issues(s: Seq<char>) -> Seq<Seq<char>> {
    ws_issues_from(s, 0)
}

/// The marker glyph repeated once per replaced character.
pub open spec fn marker_repeat(n: nat) -> Seq<char>
    decreases n,
{
    if n == 0 {
        seq![]
    } else {
        marker_repeat((n - 1) as nat) + seq!['\u{1f7e5}', '\u{fe0f}']
    }
}

/// The line with each flagged white-space run replaced by markers, one per
/// character of the run; unflagged runs stay as they are.
pub open spec fn ws_highlight_from(s: Seq<char>, i: int) -> Seq<char>
    decreases s.len() - i,
        when 0 <= i
        via ws_highlight_from_decreases
{
    if !(0 <= i < s.len()) {
        seq![]
    } else if is_run_start(s, i) {
        let e = ws_run_end(s, i);
        if classify_run(s, i) is Some {
            marker_repeat((e - i) as nat) + ws_highlight_from(s, e)
        } else {
            s.subrange(i, e) + ws_highlight_from(s, e)
        }
    } else {
        seq![s[i]] + ws_highlight_from(s, i + 1)
    }
}

#[via_fn]
proof fn ws_highlight_from_decreases(s: Seq<char>, i: int) {
    if 0 <= i < s.len() {
        lemma_scan_while(s, i, |c: char| char_is_whitespace(c));
    }
}

/// The highlighted form of the whole line.
pub open spec fn ws_highlight(s: Seq<char>) -> Seq<char> {
    ws_highlight_from(s, 0)
}

/// One listed issue: its label and the highlighted line in quotes.
pub open spec fn ws_item(label: Seq<char>, hl: Seq<char>) -> Seq<char> {
    "  - "@ + label + ": \""@ + hl + "\""@
}

/// The issue lines of the report, one per flagged run.
pub open spec fn ws_items(labels: Seq<Seq<char>>, hl: Seq<char>) -> Seq<Seq<char>> {
    labels.map_values(|l: Seq<char>| ws_item(l, hl))
}

/// The whole text of a white-space report for a line.
pub open spec fn ws_details(s: Seq<char>) -> Seq<char> {
    "Whitespace "@ + spec_pluralize(ws_issues(s).len(), "issue"@, "issues"@) + " detected:\n"@
        + crate::text::join_nl(ws_items(ws_issues(s), ws_highlight(s)))
}

/// The failure the white-space rule gives a line: nothing when the rule is
/// off or no run is flagged, else the full report.
pub open spec fn spec_validate_whitespace(line: Seq<char>, whitespace_on: bool) -> Option<
    SumiErrorView,
> {
    if !whitespace_on {
        None
    } else if ws_issues(line).len() == 0 {
        None
    } else {
        Some(SumiErrorView::GeneralError { details: ws_details(line) })
    }
}

fn push_markers(hl: &mut Vec<char>, n: usize)
    ensures
        final(hl)@ == old(hl)@ + marker_repeat(n as nat),
    decreases n,
{
    let mut k: usize = 0;
    while k < n
        invariant
            k <= n,
            hl@ == old(hl)@ + marker_repeat(k as nat),
        decreases n - k,
    {
        hl.push('\u{1f7e5}');
        hl.push('\u{fe0f}');
        k = k + 1;
    }
}

fn ws_run_end_exec(s: &Vec<char>, i: usize) -> (e: usize)
    requires
        i <= s@.len(),
    ensures
        e as int == ws_run_end(s@, i as int),
        i <= e <= s@.len(),
        i < s@.len() && char_is_whitespace(s@[i as int]) ==> e > i,
{
    let mut j = i;
    while j < s.len() && is_whitespace_char(s[j])
        invariant
            i <= j <= s@.len(),
            forall|k: int| i <= k < j ==> char_is_whitespace(s@[k]),
        decreases s@.len() - j,
    {
        j = j + 1;
    }
    proof {
        lemma_scan_while_is(s@, i as int, |c: char| char_is_whitespace(c), j as int);
    }
    j
}

/// Flags leading space, trailing space and runs of two or more interior
/// spaces on a line, reporting each with a positional highlight; a line
/// with none of these passes, and the rule can be switched off.
pub fn validate_whitespace(line: &str, config: &Config) -> (r: Result<(), SumiError>)
    ensures
        (match r {
            Ok(()) => spec_validate_whitespace(line@, config@.whitespace) is None,
            Err(e) => spec_validate_whitespace(line@, config@.whitespace) == Some(e@),
        }),
{
    if !config.whitespace {
        return Ok(());
    }
    let cs = chars_of(line);
    let mut labels: Vec<Vec<char>> = Vec::new();
    let mut hl: Vec<char> = Vec::new();
    proof {
        assert(labels.deep_view() =~~= Seq::<Seq<char>>::empty());
    }
    let mut i: usize = 0;
    while i < cs.len()
        invariant
            0 <= i <= cs@.len(),
            cs@ == line@,
            ws_issues(line@) == labels.deep_view() + ws_issues_from(line@, i as int),
            ws_highlight(line@) == hl@ + ws_highlight_from(line@, i as int),
        decreases cs@.len() - i,
    {
        let ghost acc0 = labels.deep_view();
        let here_ws = is_whitespace_char(cs[i]);
        let starts = here_ws && (i == 0 || !is_whitespace_char(cs[i - 1]));
        if starts {
            let e = ws_run_end_exec(&cs, i);
            if i == 0 {
                let label = chars_of("Leading space");
                proof {
                    assert(label.deep_view() =~= label@);
                }
                labels.push(label);
                proof {
                    assert(labels.deep_view() =~~= acc0 + seq!["Leading space"@]);
                }
                push_markers(&mut hl, e - i);
            } else if e == cs.len() {
                let label = chars_of("Trailing space");
                proof {
                    assert(label.deep_view() =~= label@);
                }
                labels.push(label);
                proof {
                    assert(labels.deep_view() =~~= acc0 + seq!["Trailing space"@]);
                }
                push_markers(&mut hl, e - i);
            } else if e - i >= 2 {
                let mut label = usize_to_chars(e - i);
                append_str(&mut label, " adjacent spaces");
                proof {
                    assert(label.deep_view() =~= label@);
                }
                labels.push(label);
                proof {
                    assert(labels.deep_view() =~~= acc0 + seq![
                        dec_str((e - i) as nat) + " adjacent spaces"@,
                    ]);
                }
                push_markers(&mut hl, e - i);
            } else {
                let run = subvec(&cs, i, e);
                extend_vec(&mut hl, &run);
            }
            i = e;
        } else {
            hl.push(cs[i]);
            i = i + 1;
        }
        proof {
            assert(ws_highlight(line@) =~= hl@ + ws_highlight_from(line@, i as int));
        }
    }
    if labels.len() == 0 {
        return Ok(());
    }
    let issue_count = labels.len();
    let mut items: Vec<Vec<char>> = Vec::new();
    proof {
        assert(items.deep_view() =~~= Seq::<Seq<char>>::empty());
        assert(ws_items(labels.deep_view(), hl@).take(0) =~= Seq::<Seq<char>>::empty());
    }
    let mut k: usize = 0;
    while k < labels.len()
        invariant
            k <= labels@.len(),
            labels.deep_view() == ws_issues(line@),
            hl@ == ws_highlight(line@),
            items.deep_view() == ws_items(labels.deep_view(), hl@).take(k as int),
        decreases labels@.len() - k,
    {
        let mut item: Vec<char> = Vec::new();
        append_str(&mut item, "  - ");
        extend_vec(&mut item, &labels[k]);
        append_str(&mut item, ": \"");
        extend_vec(&mut item, &hl);
        append_str(&mut item, "\"");
        proof {
            assert(labels@[k as int].deep_view() =~= labels@[k as int]@);
            assert(item@ =~= ws_item(labels.deep_view()[k as int], hl@));
            assert(item.deep_view() =~= item@);
        }
        let ghost prevd = items.deep_view();
        items.push(item);
        k = k + 1;
        proof {
            let target = ws_items(labels.deep_view(), hl@);
            assert(items.deep_view() =~~= prevd + seq![target[k as int - 1]]);
            assert(target.take(k as int) =~= target.take(k as int - 1) + seq![target[k as int
                - 1]]);
            assert(items.deep_view() =~= target.take(k as int));
        }
    }
    proof {
        let target = ws_items(labels.deep_view(), hl@);
        assert(target.take(target.len() as int) =~= target);
    }
    let issues_list = crate::text::join_lines(&items);
    let mut details: Vec<char> = Vec::new();
    append_str(&mut details, "Whitespace ");
    append_str(&mut details, crate::errors::pluralize(issue_count, "issue", "issues"));
    append_str(&mut details, " detected:\n");
    extend_vec(&mut details, &issues_list);
    proof {
        assert(details@ =~= ws_details(line@));
    }
    Err(SumiError::GeneralError { details: string_of(&details) })
}

// ---------------------------------------------------------------------------
// Gitmoji
// ---------------------------------------------------------------------------

/// The failure the emoji rule gives the found units: no unit or more than
/// one is a count mismatch naming the count; exactly one that, normalised,
/// is in neither reference set is an invalid emoji naming the unit.
pub open spec fn spec_validate_gitmoji(g: Option<Seq<Seq<char>>>) -> Option<SumiErrorView> {
    match g {
        None => Some(SumiErrorView::IncorrectEmojiCount { found: 0 }),
        Some(v) => if v.len() != 1 {
            Some(SumiErrorView::IncorrectEmojiCount { found: v.len() })
        } else if !is_unicode_emoji(strip_vs(v[0])) && !is_string_emoji(v[0]) {
            Some(SumiErrorView::InvalidEmoji { emoji: v[0] })
        } else {
            None
        },
    }
}

/// Validates that the header carried exactly one known gitmoji.
pub fn validate_gitmoji(emojis: &Option<Vec<String>>) -> (r: Result<(), SumiError>)
    ensures
        (match r {
            Ok(()) => spec_validate_gitmoji(opt_units_view(emojis)) is None,
            Err(e) => spec_validate_gitmoji(opt_units_view(emojis)) == Some(e@),
        }),
{
    match emojis {
        None => Err(SumiError::IncorrectEmojiCount { found: 0 }),
        Some(gitmojis) => {
            if gitmojis.len() != 1 {
                return Err(SumiError::IncorrectEmojiCount { found: gitmojis.len() });
            }
            let gitmoji = &gitmojis[0];
            proof {
                assert(gitmojis.deep_view()[0] == gitmojis@[0]@);
            }
            let normalised = normalise_emoji(gitmoji.as_str());
            let norm_cs = chars_of(normalised.as_str());
            let raw_cs = chars_of(gitmoji.as_str());
            if !unicode_emoji_contains(&norm_cs) && !string_emoji_contains(&raw_cs) {
                Err(SumiError::InvalidEmoji { emoji: gitmoji.clone() })
            } else {
                Ok(())
            }
        },
    }
}

/// The ghost image of an optional unit list.
pub open spec fn opt_units_view(g: &Option<Vec<String>>) -> Option<Seq<Seq<char>>> {
    match g {
        Some(v) => Some(v.deep_view()),
        None => None,
    }
}

// ---------------------------------------------------------------------------
// Description case
// ---------------------------------------------------------------------------

/// A first character lowered for the suggested correction: an ASCII
/// uppercase letter becomes its own lowercase counterpart, as the Unicode
/// simple mapping fixes; any other character maps as `char::to_lowercase`
/// does.
pub open spec fn lowered_first(c: char) -> Seq<char> {
    if 'A' <= c && c <= 'Z' {
        seq![(((c as u8) + 32) as char)]
    } else {
        char_lower(c)
    }
}

/// A first character capitalised for the suggested correction: an ASCII
/// lowercase letter becomes its own uppercase counterpart; any other
/// character maps as `char::to_uppercase` does.
pub open spec fn uppered_first(c: char) -> Seq<char> {
    if 'a' <= c && c <= 'z' {
        seq![(((c as u8) - 32) as char)]
    } else {
        char_upper(c)
    }
}

fn lowered_first_exec(c: char) -> (r: Vec<char>)
    ensures
        r@ == lowered_first(c),
{
    if 'A' <= c && c <= 'Z' {
        let mut v: Vec<char> = Vec::new();
        v.push(((c as u8) + 32) as char);
        proof {
            assert(v@ =~= lowered_first(c));
        }
        v
    } else {
        let lowered = lower_char(c);
        chars_of(lowered.as_str())
    }
}

fn uppered_first_exec(c: char) -> (r: Vec<char>)
    ensures
        r@ == uppered_first(c),
{
    if 'a' <= c && c <= 'z' {
        let mut v: Vec<char> = Vec::new();
        v.push(((c as u8) - 32) as char);
        proof {
            assert(v@ =~= uppered_first(c));
        }
        v
    } else {
        let uppered = upper_char(c);
        chars_of(uppered.as_str())
    }
}

/// The failure the lowercase rule gives a description: an uppercase first
/// character, with the suggested lowercase-first correction; an empty
/// description has no header at all.
pub open spec fn spec_validate_lowercase(d: Seq<char>) -> Option<SumiErrorView> {
    if d.len() == 0 {
        Some(SumiErrorView::EmptyCommitHeader)
    } else if char_is_uppercase(d[0]) {
        Some(
            SumiErrorView::DescriptionNotLowercase {
                lowercase_header: lowered_first(d[0]) + d.skip(1),
            },
        )
    } else {
        None
    }
}

/// Checks that the description does not start with an uppercase letter and
/// suggests the lowercased form when it does.
pub fn validate_lowercase(description: &str) -> (r: Result<(), SumiError>)
    ensures
        (match r {
            Ok(()) => spec_validate_lowercase(description@) is None,
            Err(e) => spec_validate_lowercase(description@) == Some(e@),
        }),
{
    let cs = chars_of(description);
    if cs.len() == 0 {
        return Err(SumiError::EmptyCommitHeader);
    }
    let c = cs[0];
    if is_uppercase_char(c) {
        let mut corrected = lowered_first_exec(c);
        let rest = subvec(&cs, 1, cs.len());
        extend_vec(&mut corrected, &rest);
        proof {
            assert(corrected@ =~= lowered_first(description@[0]) + description@.skip(1));
        }
        Err(
            SumiError::DescriptionNotLowercase { lowercase_header: string_of(&corrected) },
        )
    } else {
        Ok(())
    }
}

/// The failure the uppercase rule gives a description: a lowercase first
/// letter, with the suggested capitalised correction; a non-letter first
/// character, or an empty description, passes.
pub open spec fn spec_validate_upper_case(d: Seq<char>) -> Option<SumiErrorView> {
    if d.len() == 0 {
        None
    } else if char_is_alphabetic(d[0]) && !char_is_uppercase(d[0]) {
        Some(
            SumiErrorView::DescriptionNotTitleCase {
                capitalized_description: uppered_first(d[0]) + d.skip(1),
            },
        )
    } else {
        None
    }
}

/// Checks that the description does not start with a lowercase letter and
/// suggests the capitalised form when it does.
pub fn validate_upper_case(description: &str) -> (r: Result<(), SumiError>)
    ensures
        (match r {
            Ok(()) => spec_validate_upper_case(description@) is None,
            Err(e) => spec_validate_upper_case(description@) == Some(e@),
        }),
{
    let cs = chars_of(description);
    if cs.len() == 0 {
        return Ok(());
    }
    let first_char = cs[0];
    if is_lowercase_letter(first_char) {
        let rest = subvec(&cs, 1, cs.len());
        let rest_s = string_of(&rest);
        let capitalized = capitalize_title(first_char, rest_s.as_str());
        proof {
            assert(capitalized@ == uppered_first(description@[0]) + description@.skip(1));
        }
        Err(SumiError::DescriptionNotTitleCase { capitalized_description: capitalized })
    } else {
        Ok(())
    }
}

/// Whether the character is an alphabetic one that is not uppercase.
pub fn is_lowercase_letter(character: char) -> (r: bool)
    ensures
        r == (char_is_alphabetic(character) && !char_is_uppercase(character)),
{
    is_alphabetic_char(character) && !is_uppercase_char(character)
}

/// The given first character capitalised, followed by the rest.
pub fn capitalize_title(first_char: char, rest: &str) -> (r: String)
    ensures
        r@ == uppered_first(first_char) + rest@,
{
    let mut v = uppered_first_exec(first_char);
    append_str(&mut v, rest);
    string_of(&v)
}

/// The failure the configured case rule gives the description: none under
/// `any`, the lowercase check under `lower`, the uppercase check under
/// `upper`.
pub open spec fn spec_validate_description_case(d: Seq<char>, case: DescriptionCase) -> Option<
    SumiErrorView,
> {
    match case {
        DescriptionCase::Lower => spec_validate_lowercase(d),
        DescriptionCase::Upper => spec_validate_upper_case(d),
        DescriptionCase::Any => None,
    }
}

// ---------------------------------------------------------------------------
// Imperative mood
// ---------------------------------------------------------------------------

/// The first white-space-separated word of the description.
pub open spec fn first_word(d: Seq<char>) -> Seq<char> {
    let a = trim_start_idx(d);
    d.subrange(a, scan_while(d, a, |c: char| !char_is_whitespace(c)))
}

/// Whether a lowercased word is on the deny list of common non-imperative
/// verb forms. A best-effort heuristic, not a grammar check.
pub open spec fn is_non_imperative_verb(w: Seq<char>) -> bool {
    w == "added"@
        || w == "adds"@
        || w == "adding"@
        || w == "fixed"@
        || w == "fixes"@
        || w == "fixing"@
        || w == "implemented"@
        || w == "implements"@
        || w == "implementing"@
        || w == "updated"@
        || w == "updates"@
        || w == "updating"@
        || w == "refactored"@
        || w == "refactors"@
        || w == "refactoring"@
        || w == "removed"@
        || w == "removes"@
        || w == "removing"@
        || w == "deleted"@
        || w == "deletes"@
        || w == "deleting"@
        || w == "merged"@
        || w == "merges"@
        || w == "merging"@
        || w == "optimized"@
        || w == "optimizes"@
        || w == "optimizing"@
        || w == "optimised"@
        || w == "optimising"@
        || w == "reverted"@
        || w == "reverts"@
        || w == "reverting"@
        || w == "created"@
        || w == "creates"@
        || w == "creating"@
        || w == "documented"@
        || w == "documents"@
        || w == "documenting"@
        || w == "deprecated"@
        || w == "deprecates"@
        || w == "deprecating"@
        || w == "translated"@
        || w == "translates"@
        || w == "translating"@
        || w == "linted"@
        || w == "lints"@
        || w == "linting"@
        || w == "tested"@
        || w == "tests"@
        || w == "testing"@
        || w == "styled"@
        || w == "styles"@
        || w == "styling"@
        || w == "validated"@
        || w == "validates"@
        || w == "validating"@
        || w == "released"@
        || w == "releases"@
        || w == "releasing"@
        || w == "introduced"@
        || w == "introduces"@
        || w == "introducing"@
        || w == "synchronized"@
        || w == "synchronizes"@
        || w == "synchronizing"@
        || w == "synchronised"@
        || w == "deployed"@
        || w == "deploys"@
        || w == "deploying"@
        || w == "initialized"@
        || w == "initializes"@
        || w == "initializing"@
        || w == "initialised"@
        || w == "initialising"@
        || w == "automated"@
        || w == "automates"@
        || w == "automating"@
        || w == "improved"@
        || w == "improves"@
        || w == "improving"@
        || w == "changed"@
        || w == "changes"@
        || w == "changing"@
        || w == "built"@
        || w == "builds"@
        || w == "building"@
        || w == "formatted"@
        || w == "formats"@
        || w == "formatting"@
        || w == "cleaned"@
        || w == "cleans"@
        || w == "cleaning"@
        || w == "moved"@
        || w == "moves"@
        || w == "moving"@
        || w == "renamed"@
        || w == "renames"@
        || w == "renaming"@
        || w == "used"@
        || w == "uses"@
        || w == "using"@
}

fn non_imperative_contains(w: &Vec<char>) -> (r: bool)
    ensures
        r == is_non_imperative_verb(w@),
{
    if vec_eq_str(w, "added") {
        true
    } else if vec_eq_str(w, "adds") {
        true
    } else if vec_eq_str(w, "adding") {
        true
    } else if vec_eq_str(w, "fixed") {
        true
    } else if vec_eq_str(w, "fixes") {
        true
    } else if vec_eq_str(w, "fixing") {
        true
    } else if vec_eq_str(w, "implemented") {
        true
    } else if vec_eq_str(w, "implements") {
        true
    } else if vec_eq_str(w, "implementing") {
        true
    } else if vec_eq_str(w, "updated") {
        true
    } else if vec_eq_str(w, "updates") {
        true
    } else if vec_eq_str(w, "updating") {
        true
    } else if vec_eq_str(w, "refactored") {
        true
    } else if vec_eq_str(w, "refactors") {
        true
    } else if vec_eq_str(w, "refactoring") {
        true
    } else if vec_eq_str(w, "removed") {
        true
    } else if vec_eq_str(w, "removes") {
        true
    } else if vec_eq_str(w, "removing") {
        true
    } else if vec_eq_str(w, "deleted") {
        true
    } else if vec_eq_str(w, "deletes") {
        true
    } else if vec_eq_str(w, "deleting") {
        true
    } else if vec_eq_str(w, "merged") {
        true
    } else if vec_eq_str(w, "merges") {
        true
    } else if vec_eq_str(w, "merging") {
        true
    } else if vec_eq_str(w, "optimized") {
        true
    } else if vec_eq_str(w, "optimizes") {
        true
    } else if vec_eq_str(w, "optimizing") {
        true
    } else if vec_eq_str(w, "optimised") {
        true
    } else if vec_eq_str(w, "optimising") {
        true
    } else if vec_eq_str(w, "reverted") {
        true
    } else if vec_eq_str(w, "reverts") {
        true
    } else if vec_eq_str(w, "reverting") {
        true
    } else if vec_eq_str(w, "created") {
        true
    } else if vec_eq_str(w, "creates") {
        true
    } else if vec_eq_str(w, "creating") {
        true
    } else if vec_eq_str(w, "documented") {
        true
    } else if vec_eq_str(w, "documents") {
        true
    } else if vec_eq_str(w, "documenting") {
        true
    } else if vec_eq_str(w, "deprecated") {
        true
    } else if vec_eq_str(w, "deprecates") {
        true
    } else if vec_eq_str(w, "deprecating") {
        true
    } else if vec_eq_str(w, "translated") {
        true
    } else if vec_eq_str(w, "translates") {
        true
    } else if vec_eq_str(w, "translating") {
        true
    } else if vec_eq_str(w, "linted") {
        true
    } else if vec_eq_str(w, "lints") {
        true
    } else if vec_eq_str(w, "linting") {
        true
    } else if vec_eq_str(w, "tested") {
        true
    } else if vec_eq_str(w, "tests") {
        true
    } else if vec_eq_str(w, "testing") {
        true
    } else if vec_eq_str(w, "styled") {
        true
    } else if vec_eq_str(w, "styles") {
        true
    } else if vec_eq_str(w, "styling") {
        true
    } else if vec_eq_str(w, "validated") {
        true
    } else if vec_eq_str(w, "validates") {
        true
    } else if vec_eq_str(w, "validating") {
        true
    } else if vec_eq_str(w, "released") {
        true
    } else if vec_eq_str(w, "releases") {
        true
    } else if vec_eq_str(w, "releasing") {
        true
    } else if vec_eq_str(w, "introduced") {
        true
    } else if vec_eq_str(w, "introduces") {
        true
    } else if vec_eq_str(w, "introducing") {
        true
    } else if vec_eq_str(w, "synchronized") {
        true
    } else if vec_eq_str(w, "synchronizes") {
        true
    } else if vec_eq_str(w, "synchronizing") {
        true
    } else if vec_eq_str(w, "synchronised") {
        true
    } else if vec_eq_str(w, "deployed") {
        true
    } else if vec_eq_str(w, "deploys") {
        true
    } else if vec_eq_str(w, "deploying") {
        true
    } else if vec_eq_str(w, "initialized") {
        true
    } else if vec_eq_str(w, "initializes") {
        true
    } else if vec_eq_str(w, "initializing") {
        true
    } else if vec_eq_str(w, "initialised") {
        true
    } else if vec_eq_str(w, "initialising") {
        true
    } else if vec_eq_str(w, "automated") {
        true
    } else if vec_eq_str(w, "automates") {
        true
    } else if vec_eq_str(w, "automating") {
        true
    } else if vec_eq_str(w, "improved") {
        true
    } else if vec_eq_str(w, "improves") {
        true
    } else if vec_eq_str(w, "improving") {
        true
    } else if vec_eq_str(w, "changed") {
        true
    } else if vec_eq_str(w, "changes") {
        true
    } else if vec_eq_str(w, "changing") {
        true
    } else if vec_eq_str(w, "built") {
        true
    } else if vec_eq_str(w, "builds") {
        true
    } else if vec_eq_str(w, "building") {
        true
    } else if vec_eq_str(w, "formatted") {
        true
    } else if vec_eq_str(w, "formats") {
        true
    } else if vec_eq_str(w, "formatting") {
        true
    } else if vec_eq_str(w, "cleaned") {
        true
    } else if vec_eq_str(w, "cleans") {
        true
    } else if vec_eq_str(w, "cleaning") {
        true
    } else if vec_eq_str(w, "moved") {
        true
    } else if vec_eq_str(w, "moves") {
        true
    } else if vec_eq_str(w, "moving") {
        true
    } else if vec_eq_str(w, "renamed") {
        true
    } else if vec_eq_str(w, "renames") {
        true
    } else if vec_eq_str(w, "renaming") {
        true
    } else if vec_eq_str(w, "used") {
        true
    } else if vec_eq_str(w, "uses") {
        true
    } else if vec_eq_str(w, "using") {
        true
    } else {
        false
    }
}

/// The failure the imperative rule gives a description: its first word,
/// lowercased, is on the deny list, reported in its original case.
pub open spec fn spec_is_imperative(d: Seq<char>) -> Option<SumiErrorView> {
    if is_non_imperative_verb(lower_of(first_word(d))) {
        Some(SumiErrorView::NonImperativeVerb { verb: first_word(d) })
    } else {
        None
    }
}

/// Checks the first word of the description against the deny list of
/// non-imperative verb forms, case-insensitively.
pub fn is_imperative(description: &str) -> (r: Result<(), SumiError>)
    ensures
        (match r {
            Ok(()) => spec_is_imperative(description@) is None,
            Err(e) => spec_is_imperative(description@) == Some(e@),
        }),
{
    let cs = chars_of(description);
    let mut a: usize = 0;
    while a < cs.len() && is_whitespace_char(cs[a])
        invariant
            a <= cs@.len(),
            cs@ == description@,
            forall|k: int| 0 <= k < a ==> char_is_whitespace(cs@[k]),
        decreases cs@.len() - a,
    {
        a = a + 1;
    }
    proof {
        lemma_scan_while_is(description@, 0, |c: char| char_is_whitespace(c), a as int);
    }
    let mut b: usize = a;
    while b < cs.len() && !is_whitespace_char(cs[b])
        invariant
            a <= b <= cs@.len(),
            cs@ == description@,
            forall|k: int| a <= k < b ==> !char_is_whitespace(cs@[k]),
        decreases cs@.len() - b,
    {
        b = b + 1;
    }
    proof {
        lemma_scan_while_is(description@, a as int, |c: char| !char_is_whitespace(c), b as int);
    }
    let word = subvec(&cs, a, b);
    let word_s = string_of(&word);
    let lowered = to_lowercase(word_s.as_str());
    let lowered_cs = chars_of(lowered.as_str());
    if non_imperative_contains(&lowered_cs) {
        Err(SumiError::NonImperativeVerb { verb: word_s })
    } else {
        Ok(())
    }
}

// ---------------------------------------------------------------------------
// Trailing period
// ---------------------------------------------------------------------------

/// The failure the no-period rule gives a header: it ends with a period.
pub open spec fn spec_validate_no_period(h: Seq<char>) -> Option<SumiErrorView> {
    if h.len() > 0 && h.last() == '.' {
        Some(SumiErrorView::HeaderEndsWithPeriod)
    } else {
        None
    }
}

/// Checks that the header does not end with a period.
pub fn validate_no_period(header: &str) -> (r: Result<(), SumiError>)
    ensures
        (match r {
            Ok(()) => spec_validate_no_period(header@) is None,
            Err(e) => spec_validate_no_period(header@) == Some(e@),
        }),
{
    let cs = chars_of(header);
    if cs.len() > 0 && cs[cs.len() - 1] == '.' {
        Err(SumiError::HeaderEndsWithPeriod)
    } else {
        Ok(())
    }
}

// ---------------------------------------------------------------------------
// Allowed types and scopes
// ---------------------------------------------------------------------------

/// The trimmed non-empty pieces of one comma-separated entry.
pub open spec fn trimmed_nonempty(pieces: Seq<Seq<char>>) -> Seq<Seq<char>>
    decreases pieces.len(),
{
    if pieces.len() == 0 {
        seq![]
    } else {
        trimmed_nonempty(pieces.drop_last()) + (if trim_of(pieces.last()).len() > 0 {
            seq![trim_of(pieces.last())]
        } else {
            seq![]
        })
    }
}

/// Every entry of the list split at commas, trimmed, with empty pieces
/// dropped: the normalized allow-list.
pub open spec fn split_trim_views(list: Seq<Seq<char>>) -> Seq<Seq<char>>
    decreases list.len(),
{
    if list.len() == 0 {
        seq![]
    } else {
        split_trim_views(list.drop_last()) + trimmed_nonempty(split_commas(list.last()))
    }
}

/// Splits each entry at commas, trims the pieces and drops the empty ones.
pub fn split_and_trim_list(list: &Vec<String>) -> (r: Vec<String>)
    ensures
        r.deep_view() == split_trim_views(list.deep_view()),
{
    let ghost lv = list.deep_view();
    let mut r: Vec<String> = Vec::new();
    proof {
        assert(r.deep_view() =~~= Seq::<Seq<char>>::empty());
        assert(lv.take(0) =~= Seq::<Seq<char>>::empty());
    }
    let mut k: usize = 0;
    while k < list.len()
        invariant
            k <= list@.len(),
            lv == list.deep_view(),
            r.deep_view() == split_trim_views(lv.take(k as int)),
        decreases list@.len() - k,
    {
        let entry = chars_of(list[k].as_str());
        proof {
            assert(lv[k as int] == list@[k as int]@);
        }
        let pieces = split_commas_chars(&entry);
        let ghost pv = split_commas(lv[k as int]);
        let mut t: usize = 0;
        let ghost base = r.deep_view();
        while t < pieces.len()
            invariant
                t <= pieces@.len(),
                pieces.deep_view() == pv,
                r.deep_view() == base + trimmed_nonempty(pv.take(t as int)),
            decreases pieces@.len() - t,
        {
            let trimmed = trim_chars(&pieces[t]);
            proof {
                assert(pieces@[t as int].deep_view() =~= pieces@[t as int]@);
                assert(pv.take(t as int + 1).drop_last() =~= pv.take(t as int));
                assert(pv.take(t as int + 1).last() == pv[t as int]);
            }
            if trimmed.len() > 0 {
                let ghost prevd = r.deep_view();
                let tv = string_of(&trimmed);
                r.push(tv);
                proof {
                    assert(r.deep_view() =~~= prevd + seq![trim_of(pv[t as int])]);
                }
            }
            t = t + 1;
        }
        k = k + 1;
        proof {
            assert(pv.take(pieces@.len() as int) =~= pv);
            assert(lv.take(k as int).drop_last() =~= lv.take(k as int - 1));
            assert(lv.take(k as int).last() == lv[k as int - 1]);
        }
    }
    proof {
        assert(lv.take(list@.len() as int) =~= lv);
    }
    r
}

/// The failure the allow-lists give a parsed commit: a type or scope that a
/// non-empty normalized list does not hold, named with the full list; empty
/// lists allow anything, and the type is checked before the scope.
pub open spec fn spec_validate_type_scope(
    pc: ParsedCommitView,
    types_allowed: Seq<Seq<char>>,
    scopes_allowed: Seq<Seq<char>>,
) -> Option<SumiErrorView> {
    let ta = split_trim_views(types_allowed);
    let sa = split_trim_views(scopes_allowed);
    if ta.len() == 0 && sa.len() == 0 {
        None
    } else if pc.commit_type is Some && ta.len() > 0 && !ta.contains(pc.commit_type->0) {
        Some(
            SumiErrorView::InvalidCommitType {
                type_found: pc.commit_type->0,
                allowed_types: join_comma_space(ta),
            },
        )
    } else if pc.scope is Some && sa.len() > 0 && !sa.contains(pc.scope->0) {
        Some(
            SumiErrorView::InvalidCommitScope {
                scope_found: pc.scope->0,
                allowed_scopes: join_comma_space(sa),
            },
        )
    } else {
        None
    }
}

fn strings_contain(v: &Vec<String>, x: &String) -> (r: bool)
    ensures
        r == v.deep_view().contains(x@),
{
    let mut i: usize = 0;
    while i < v.len()
        invariant
            i <= v@.len(),
            forall|k: int| 0 <= k < i ==> v.deep_view()[k] != x@,
        decreases v@.len() - i,
    {
        if v[i].eq(x) {
            proof {
                assert(v.deep_view()[i as int] == x@);
            }
            return true;
        }
        proof {
            assert(v.deep_view()[i as int] == v@[i as int]@);
        }
        i = i + 1;
    }
    false
}

/// Checks a parsed commit's type and scope against the configured
/// allow-lists.
pub fn validate_commit_type_and_scope(parsed_commit: &ParsedCommit, config: &Config) -> (r:
    Result<(), SumiError>)
    ensures
        (match r {
            Ok(()) => spec_validate_type_scope(
                parsed_commit@,
                config@.types_allowed,
                config@.scopes_allowed,
            ) is None,
            Err(e) => spec_validate_type_scope(
                parsed_commit@,
                config@.types_allowed,
                config@.scopes_allowed,
            ) == Some(e@),
        }),
{
    let types_allowed = split_and_trim_list(&config.types_allowed);
    let scopes_allowed = split_and_trim_list(&config.scopes_allowed);

    if types_allowed.len() == 0 && scopes_allowed.len() == 0 {
        return Ok(());
    }

    match &parsed_commit.commit_type {
        Some(commit_type) => {
            if types_allowed.len() > 0 && !strings_contain(&types_allowed, commit_type) {
                let joined = join_with_comma_space(&types_allowed);
                return Err(
                    SumiError::InvalidCommitType {
                        type_found: commit_type.clone(),
                        allowed_types: string_of(&joined),
                    },
                );
            }
        },
        None => {},
    }

    match &parsed_commit.scope {
        Some(scope) => {
            if scopes_allowed.len() > 0 && !strings_contain(&scopes_allowed, scope) {
                let joined = join_with_comma_space(&scopes_allowed);
                return Err(
                    SumiError::InvalidCommitScope {
                        scope_found: scope.clone(),
                        allowed_scopes: string_of(&joined),
                    },
                );
            }
        },
        None => {},
    }

    Ok(())
}

// ---------------------------------------------------------------------------
// Header pattern
// ---------------------------------------------------------------------------

/// The failure the header-pattern rule gives a header: a pattern that does
/// not compile is itself reported; a header the compiled pattern does not
/// match is a mismatch; and a matching header passes.
pub open spec fn spec_validate_header_pattern(h: Seq<char>, p: Seq<char>) -> Option<
    SumiErrorView,
> {
    match pattern_verdict(p, h) {
        None => Some(SumiErrorView::InvalidRegexPattern { pattern: p }),
        Some(false) => Some(SumiErrorView::HeaderPatternMismatch { pattern: p }),
        Some(true) => None,
    }
}

/// Checks the full header against the configured regular expression.
pub fn validate_header_pattern(header: &str, pattern: &str) -> (r: Result<(), SumiError>)
    ensures
        (match r {
            Ok(()) => spec_validate_header_pattern(header@, pattern@) is None,
            Err(e) => spec_validate_header_pattern(header@, pattern@) == Some(e@),
        }),
{
    match regex_match_text(pattern, header) {
        None => Err(
            SumiError::InvalidRegexPattern { pattern: String::from_str(pattern) },
        ),
        Some(false) => Err(
            SumiError::HeaderPatternMismatch { pattern: String::from_str(pattern) },
        ),
        Some(true) => Ok(()),
    }
}

// ---------------------------------------------------------------------------
// Preprocessing
// ---------------------------------------------------------------------------

/// Whether a line is a comment: its first non-white-space character is the
/// comment sign.
pub open spec fn is_comment_line(l: Seq<char>) -> bool {
    trim_start_idx(l) < l.len() && l[trim_start_idx(l)] == '#'
}

/// The lines that are not comments, in order.
pub open spec fn kept_lines(ls: Seq<Seq<char>>) -> Seq<Seq<char>>
    decreases ls.len(),
{
    if ls.len() == 0 {
        seq![]
    } else {
        kept_lines(ls.drop_last()) + (if is_comment_line(ls.last()) {
            seq![]
        } else {
            seq![ls.last()]
        })
    }
}

/// The message with comment lines removed and the rest joined back.
pub open spec fn spec_preprocess(msg: Seq<char>) -> Seq<char> {
    crate::text::join_nl(kept_lines(crate::text::lines_of(msg)))
}

fn is_comment_line_exec(l: &Vec<char>) -> (r: bool)
    ensures
        r == is_comment_line(l@),
{
    let mut a: usize = 0;
    while a < l.len() && is_whitespace_char(l[a])
        invariant
            a <= l@.len(),
            forall|k: int| 0 <= k < a ==> char_is_whitespace(l@[k]),
        decreases l@.len() - a,
    {
        a = a + 1;
    }
    proof {
        lemma_scan_while_is(l@, 0, |c: char| char_is_whitespace(c), a as int);
    }
    a < l.len() && l[a] == '#'
}

/// Removes comment lines from a message before parsing.
pub fn preprocess_commit_message(commit: &str) -> (r: String)
    ensures
        r@ == spec_preprocess(commit@),
{
    let cs = chars_of(commit);
    let ghost ls = crate::text::lines_of(commit@);
    let lines = crate::text::split_lines(&cs);
    let mut kept: Vec<Vec<char>> = Vec::new();
    proof {
        assert(kept.deep_view() =~~= Seq::<Seq<char>>::empty());
        assert(ls.take(0) =~= Seq::<Seq<char>>::empty());
    }
    let mut k: usize = 0;
    while k < lines.len()
        invariant
            k <= lines@.len(),
            lines.deep_view() == ls,
            kept.deep_view() == kept_lines(ls.take(k as int)),
        decreases lines@.len() - k,
    {
        proof {
            assert(lines@[k as int].deep_view() =~= lines@[k as int]@);
        }
        if !is_comment_line_exec(&lines[k]) {
            let line = subvec(&lines[k], 0, lines[k].len());
            proof {
                assert(line@ =~= lines@[k as int]@);
                assert(line.deep_view() =~= line@);
            }
            let ghost prevd = kept.deep_view();
            kept.push(line);
            proof {
                assert(kept.deep_view() =~~= prevd + seq![ls[k as int]]);
            }
        }
        k = k + 1;
        proof {
            assert(ls.take(k as int).drop_last() =~= ls.take(k as int - 1));
            assert(ls.take(k as int).last() == ls[k as int - 1]);
        }
    }
    proof {
        assert(ls.take(lines@.len() as int) =~= ls);
    }
    let joined = crate::text::join_lines(&kept);
    string_of(&joined)
}

// ---------------------------------------------------------------------------
// Whitespace and length over all lines
// ---------------------------------------------------------------------------

/// The failures of the header line: its white-space report, then its
/// length check against the header limit, as line one.
pub open spec fn spec_validate_header_line(line: Seq<char>, whitespace_on: bool, max_h: nat)
    -> Seq<SumiErrorView> {
    opt_err(spec_validate_whitespace(line, whitespace_on)) + opt_err(
        line_length_err(line, max_h, 1),
    )
}

/// The failures of the lines after the header: a non-blank first one is
/// the missing separator, checked no further; every other line gets the
/// white-space report and the body length check, its line number counted
/// from the header.
pub open spec fn body_lines_errs(tail: Seq<Seq<char>>, j: int, whitespace_on: bool, max_b: nat)
    -> Seq<SumiErrorView>
    decreases tail.len() - j,
{
    if !(0 <= j < tail.len()) {
        seq![]
    } else if j == 0 && tail[0].len() > 0 {
        seq![SumiErrorView::SeparateHeaderFromBody] + body_lines_errs(tail, 1, whitespace_on, max_b)
    } else {
        opt_err(spec_validate_whitespace(tail[j], whitespace_on)) + opt_err(
            line_length_err(tail[j], max_b, (j + 2) as nat),
        ) + body_lines_errs(tail, j + 1, whitespace_on, max_b)
    }
}

/// The raw-text failures of a whole message: header line first, body lines
/// after it, in order.
pub open spec fn spec_validate_ws_len(msg: Seq<char>, cfg: crate::config::ConfigView) -> Seq<
    SumiErrorView,
> {
    let ls = crate::text::lines_of(msg);
    if ls.len() == 0 {
        spec_validate_header_line(seq![], cfg.whitespace, cfg.max_header_length)
    } else {
        spec_validate_header_line(ls[0], cfg.whitespace, cfg.max_header_length)
            + body_lines_errs(ls.skip(1), 0, cfg.whitespace, cfg.max_body_length)
    }
}

/// Runs the white-space and length checks over every line of the message.
#[verifier::rlimit(60)]
#[verifier::spinoff_prover]
fn validate_whitespace_and_length(commit: &str, config: &Config) -> (r: Vec<SumiError>)
    ensures
        views_of(r@) == spec_validate_ws_len(commit@, config@),
{
    let ghost cfg = config@;
    let cs = chars_of(commit);
    let ghost ls = crate::text::lines_of(commit@);
    let lines = crate::text::split_lines(&cs);
    let mut errs: Vec<SumiError> = Vec::new();
    let header = if lines.len() > 0 {
        string_of(&lines[0])
    } else {
        String::new()
    };
    proof {
        if ls.len() > 0 {
            assert(lines@[0].deep_view() =~= lines@[0]@);
        } else {
            assert(header@ =~= Seq::<char>::empty());
        }
        assert(views_of(errs@) =~= Seq::<SumiErrorView>::empty());
    }
    let ghost hline: Seq<char> = if ls.len() > 0 { ls[0] } else { seq![] };
    match validate_whitespace(header.as_str(), config) {
        Err(e) => {
            let ghost prevv = views_of(errs@);
            errs.push(e);
            proof {
                assert(views_of(errs@) =~= prevv + opt_err(
                    spec_validate_whitespace(hline, cfg.whitespace),
                ));
            }
        },
        Ok(()) => {},
    }
    match validate_line_length(header.as_str(), config.max_header_length) {
        Err(actual_length) => {
            let ghost prevv = views_of(errs@);
            errs.push(SumiError::LineTooLong {
                line_number: 1,
                line_length: actual_length,
                max_length: config.max_header_length,
            });
            proof {
                assert(views_of(errs@) =~= prevv + opt_err(
                    line_length_err(hline, cfg.max_header_length, 1),
                ));
            }
        },
        Ok(()) => {},
    }
    proof {
        assert(views_of(errs@) =~= spec_validate_header_line(hline, cfg.whitespace, cfg.max_header_length));
    }
    let ghost header_errs = views_of(errs@);
    if lines.len() == 0 {
        return errs;
    }
    let ghost tail = ls.skip(1);
    let mut j: usize = 1;
    proof {
        assert(tail.len() == ls.len() - 1);
    }
    while j < lines.len()
        invariant
            1 <= j <= lines@.len(),
            lines.deep_view() == ls,
            ls.len() >= 1,
            tail == ls.skip(1),
            cfg == config@,
            header_errs == spec_validate_header_line(hline, cfg.whitespace, cfg.max_header_length),
            hline == ls[0],
            header_errs + body_lines_errs(tail, 0, cfg.whitespace, cfg.max_body_length) == views_of(errs@) + body_lines_errs(tail, j as int - 1, cfg.whitespace, cfg.max_body_length),
        decreases lines@.len() - j,
    {
        let ghost tj = j as int - 1;
        proof {
            assert(lines@[j as int].deep_view() =~= lines@[j as int]@);
            assert(tail[tj] == ls[j as int]);
        }
        if j == 1 && lines[j].len() > 0 {
            let ghost prevv = views_of(errs@);
            errs.push(SumiError::SeparateHeaderFromBody);
            proof {
                assert(views_of(errs@) =~= prevv + seq![SumiErrorView::SeparateHeaderFromBody]);
            }
        } else {
            let line_s = string_of(&lines[j]);
            match validate_whitespace(line_s.as_str(), config) {
                Err(e) => {
                    let ghost prevv = views_of(errs@);
                    errs.push(e);
                    proof {
                        assert(views_of(errs@) =~= prevv + opt_err(
                            spec_validate_whitespace(tail[tj], cfg.whitespace),
                        ));
                    }
                },
                Ok(()) => {},
            }
            match validate_line_length(line_s.as_str(), config.max_body_length) {
                Err(actual_length) => {
                    let ghost prevv = views_of(errs@);
                    errs.push(SumiError::LineTooLong {
                        line_number: j + 1,
                        line_length: actual_length,
                        max_length: config.max_body_length,
                    });
                    proof {
                        assert((j + 1) as nat == (tj + 2) as nat);
                        assert(views_of(errs@) =~= prevv + opt_err(
                            line_length_err(tail[tj], cfg.max_body_length, (tj + 2) as nat),
                        ));
                    }
                },
                Ok(()) => {},
            }
        }
        j = j + 1;
        proof {
            if tj == 0 && tail[0].len() > 0 {
                assert(body_lines_errs(tail, 0, cfg.whitespace, cfg.max_body_length) =~= seq![
                    SumiErrorView::SeparateHeaderFromBody,
                ] + body_lines_errs(tail, 1, cfg.whitespace, cfg.max_body_length));
            } else {
                assert(body_lines_errs(tail, tj, cfg.whitespace, cfg.max_body_length) =~= opt_err(
                    spec_validate_whitespace(tail[tj], cfg.whitespace),
                ) + opt_err(line_length_err(tail[tj], cfg.max_body_length, (tj + 2) as nat))
                    + body_lines_errs(tail, tj + 1, cfg.whitespace, cfg.max_body_length));
            }
            assert(header_errs + body_lines_errs(tail, 0, cfg.whitespace, cfg.max_body_length)
                =~= views_of(errs@) + body_lines_errs(
                tail,
                j as int - 1,
                cfg.whitespace,
                cfg.max_body_length,
            ));
        }
    }
    proof {
        assert(body_lines_errs(tail, lines@.len() as int - 1, cfg.whitespace, cfg.max_body_length) =~= Seq::<
            SumiErrorView,
        >::empty());
        assert(views_of(errs@) =~= spec_validate_header_line(hline, cfg.whitespace, cfg.max_header_length) + body_lines_errs(tail, 0, cfg.whitespace, cfg.max_body_length));
    }
    errs
}

// ---------------------------------------------------------------------------
// The structural rules together
// ---------------------------------------------------------------------------

/// The failures of the parsed structure under the configured rules, in the
/// order the rules run: emoji, description case, imperative mood, trailing
/// period, allowed type and scope, header pattern.
pub open spec fn spec_validate_parsed(pc: ParsedCommitView, cfg: crate::config::ConfigView)
    -> Seq<SumiErrorView> {
    (if cfg.gitmoji {
        opt_err(spec_validate_gitmoji(pc.gitmoji))
    } else {
        seq![]
    }) + opt_err(spec_validate_description_case(pc.description, cfg.description_case)) + (
    if cfg.imperative {
        opt_err(spec_is_imperative(pc.description))
    } else {
        seq![]
    }) + (if cfg.no_period {
        opt_err(spec_validate_no_period(pc.header))
    } else {
        seq![]
    }) + (if cfg.conventional {
        opt_err(spec_validate_type_scope(pc, cfg.types_allowed, cfg.scopes_allowed))
    } else {
        seq![]
    }) + (if cfg.header_pattern.len() > 0 {
        opt_err(spec_validate_header_pattern(pc.header, cfg.header_pattern))
    } else {
        seq![]
    })
}

/// Runs every structural rule against the parsed commit, collecting every
/// failure; no rule short-circuits another.
fn validate_parsed_commit(parsed_commit: &ParsedCommit, config: &Config) -> (r: Vec<SumiError>)
    ensures
        views_of(r@) == spec_validate_parsed(parsed_commit@, config@),
{
    let ghost cfg = config@;
    let ghost pcv = parsed_commit@;
    let mut errs: Vec<SumiError> = Vec::new();
    proof {
        assert(views_of(errs@) =~= Seq::<SumiErrorView>::empty());
    }

    let ghost g1: Seq<SumiErrorView> = if cfg.gitmoji {
        opt_err(spec_validate_gitmoji(pcv.gitmoji))
    } else {
        seq![]
    };
    if config.gitmoji {
        match validate_gitmoji(&parsed_commit.gitmoji) {
            Err(e) => {
                let ghost prevv = views_of(errs@);
                errs.push(e);
                proof {
                    assert(views_of(errs@) =~= prevv + g1);
                }
            },
            Ok(()) => {},
        }
    }
    proof {
        assert(views_of(errs@) =~= g1);
    }

    let ghost g2: Seq<SumiErrorView> = opt_err(
        spec_validate_description_case(pcv.description, cfg.description_case),
    );
    let case_result: Result<(), SumiError> = match config.description_case {
        DescriptionCase::Lower => validate_lowercase(parsed_commit.description.as_str()),
        DescriptionCase::Upper => validate_upper_case(parsed_commit.description.as_str()),
        DescriptionCase::Any => Ok(()),
    };
    match case_result {
        Err(e) => {
            let ghost prevv = views_of(errs@);
            errs.push(e);
            proof {
                assert(views_of(errs@) =~= prevv + g2);
            }
        },
        Ok(()) => {},
    }
    proof {
        assert(views_of(errs@) =~= g1 + g2);
    }

    let ghost g3: Seq<SumiErrorView> = if cfg.imperative {
        opt_err(spec_is_imperative(pcv.description))
    } else {
        seq![]
    };
    if config.imperative {
        match is_imperative(parsed_commit.description.as_str()) {
            Err(e) => {
                let ghost prevv = views_of(errs@);
                errs.push(e);
                proof {
                    assert(views_of(errs@) =~= prevv + g3);
                }
            },
            Ok(()) => {},
        }
    }
    proof {
        assert(views_of(errs@) =~= g1 + g2 + g3);
    }

    let ghost g4: Seq<SumiErrorView> = if cfg.no_period {
        opt_err(spec_validate_no_period(pcv.header))
    } else {
        seq![]
    };
    if config.no_period {
        match validate_no_period(parsed_commit.header.as_str()) {
            Err(e) => {
                let ghost prevv = views_of(errs@);
                errs.push(e);
                proof {
                    assert(views_of(errs@) =~= prevv + g4);
                }
            },
            Ok(()) => {},
        }
    }
    proof {
        assert(views_of(errs@) =~= g1 + g2 + g3 + g4);
    }

    let ghost g5: Seq<SumiErrorView> = if cfg.conventional {
        opt_err(spec_validate_type_scope(pcv, cfg.types_allowed, cfg.scopes_allowed))
    } else {
        seq![]
    };
    if config.conventional {
        match validate_commit_type_and_scope(parsed_commit, config) {
            Err(e) => {
                let ghost prevv = views_of(errs@);
                errs.push(e);
                proof {
                    assert(views_of(errs@) =~= prevv + g5);
                }
            },
            Ok(()) => {},
        }
    }
    proof {
        assert(views_of(errs@) =~= g1 + g2 + g3 + g4 + g5);
    }

    let ghost g6: Seq<SumiErrorView> = if cfg.header_pattern.len() > 0 {
        opt_err(spec_validate_header_pattern(pcv.header, cfg.header_pattern))
    } else {
        seq![]
    };
    if !config.header_pattern.as_str().is_empty() {
        match validate_header_pattern(
            parsed_commit.header.as_str(),
            config.header_pattern.as_str(),
        ) {
            Err(e) => {
                let ghost prevv = views_of(errs@);
                errs.push(e);
                proof {
                    assert(views_of(errs@) =~= prevv + g6);
                }
            },
            Ok(()) => {},
        }
    }
    proof {
        assert(views_of(errs@) =~= g1 + g2 + g3 + g4 + g5 + g6);
        assert(g1 + g2 + g3 + g4 + g5 + g6 =~= spec_validate_parsed(pcv, cfg));
    }
    errs
}

// ---------------------------------------------------------------------------
// The single-message pipeline
// ---------------------------------------------------------------------------

/// What linting one message comes to: a fatal parse failure, a valid
/// model, or a non-empty list of failures.
pub enum LintOutcome {
    Fatal(SumiErrorView),
    Valid(ParsedCommitView),
    Invalid(Seq<SumiErrorView>),
}

/// The closing summary for a count of failures.
pub open spec fn found_errors_message(n: nat) -> Seq<char> {
    "Found "@ + dec_str(n) + " linting "@ + spec_pluralize(n, "error"@, "errors"@)
}

/// Linting one raw message: comments are stripped, the message is parsed
/// under the configured grammar with fallback, and every configured rule
/// runs; soft parse errors and rule failures are collected together, and
/// only a failure of the last-resort parse is fatal.
///
/// A missing blank line between header and body is observable both by the
/// strict grammar and by the line checks. The line check is the canonical
/// reporter of the separation failure; when the strict grammar also fails
/// on it, that failure is additionally kept as the recorded soft parse
/// error, so nothing is dropped.
pub open spec fn spec_run_lint(raw: Seq<char>, cfg: crate::config::ConfigView) -> LintOutcome {
    let m = spec_preprocess(raw);
    let hp = crate::parser::spec_handle_parsing(m, cfg);
    match hp.0 {
        Err(f) => LintOutcome::Fatal(f),
        Ok(p) => {
            let errs = hp.1 + spec_validate_ws_len(m, cfg) + spec_validate_parsed(p, cfg);
            if errs.len() == 0 {
                LintOutcome::Valid(p)
            } else {
                LintOutcome::Invalid(errs)
            }
        },
    }
}

/// The one-line summary of a failed run, counting the failures.
pub fn handle_failure(errors: &Vec<SumiError>) -> (e: SumiError)
    ensures
        e@ == (SumiErrorView::GeneralError {
            details: found_errors_message(errors@.len() as nat),
        }),
{
    let mut d: Vec<char> = Vec::new();
    append_str(&mut d, "Found ");
    let n = usize_to_chars(errors.len());
    extend_vec(&mut d, &n);
    append_str(&mut d, " linting ");
    append_str(&mut d, crate::errors::pluralize(errors.len(), "error", "errors"));
    proof {
        assert(d@ =~= found_errors_message(errors@.len() as nat));
    }
    SumiError::GeneralError { details: string_of(&d) }
}

/// The message reported after a successful run: the count of active rules
/// that all passed, unless quiet or no rule was active.
pub open spec fn success_message(n: int) -> Seq<char> {
    "✅ All "@ + dec_str(n as nat) + " "@ + spec_pluralize(n as nat, "check"@, "checks"@)
        + " passed."@
}

/// What to report after a successful run: the all-checks-passed line with
/// the active-rule count, or nothing when quiet or no rule is active.
pub fn handle_success(config: &Config) -> (r: Option<String>)
    ensures
        (match r {
            Some(m) => !config@.quiet && crate::config::spec_count_active_rules(config@) > 0
                && m@ == success_message(crate::config::spec_count_active_rules(config@)),
            None => config@.quiet || crate::config::spec_count_active_rules(config@) == 0,
        }),
{
    if config.quiet {
        return None;
    }
    let active_rule_count = crate::config::count_active_rules(config);
    if active_rule_count == 0 {
        return None;
    }
    let mut m: Vec<char> = Vec::new();
    append_str(&mut m, "✅ All ");
    let n = usize_to_chars(active_rule_count);
    extend_vec(&mut m, &n);
    append_str(&mut m, " ");
    append_str(&mut m, crate::errors::pluralize(active_rule_count, "check", "checks"));
    append_str(&mut m, " passed.");
    proof {
        assert(m@ =~= success_message(crate::config::spec_count_active_rules(config@)));
    }
    Some(string_of(&m))
}

/// Lints and parses one commit message. A valid message yields its parsed
/// model; rule failures are appended to `errors` and summarized in the
/// returned failure; a fatal parse failure is returned alone.
pub fn run_lint(raw_commit: &str, config: &Config, errors: &mut Vec<SumiError>) -> (r: Result<
    ParsedCommit,
    SumiError,
>)
    ensures
        (match spec_run_lint(raw_commit@, config@) {
            LintOutcome::Fatal(f) => final(errors)@ == old(errors)@ && (match r {
                Ok(_) => false,
                Err(e) => e@ == f,
            }),
            LintOutcome::Valid(p) => final(errors)@ == old(errors)@ && (match r {
                Ok(pc) => pc@ == p,
                Err(_) => false,
            }),
            LintOutcome::Invalid(es) => views_of(final(errors)@) == views_of(old(errors)@) + es
                && (match r {
                Ok(_) => false,
                Err(e) => e@ == (SumiErrorView::GeneralError {
                    details: found_errors_message(es.len() as nat),
                }),
            }),
        }),
{
    let commit = preprocess_commit_message(raw_commit);
    let mut non_fatal: Vec<SumiError> = Vec::new();
    let parsed_commit = match crate::parser::handle_parsing(commit.as_str(), config, &mut
        non_fatal) {
        Ok(p) => p,
        Err(e) => {
            return Err(e);
        },
    };
    let mut ws_len_errs = validate_whitespace_and_length(commit.as_str(), config);
    let mut rule_errs = validate_parsed_commit(&parsed_commit, config);
    let ghost soft = views_of(non_fatal@);
    let ghost v1 = views_of(ws_len_errs@);
    let ghost v2 = views_of(rule_errs@);
    non_fatal.append(&mut ws_len_errs);
    non_fatal.append(&mut rule_errs);
    proof {
        assert(views_of(non_fatal@) =~= soft + v1 + v2);
    }
    if non_fatal.len() == 0 {
        proof {
            assert((soft + v1 + v2).len() == 0);
        }
        return Ok(parsed_commit);
    }
    let summary = handle_failure(&non_fatal);
    let ghost before = views_of(errors@);
    errors.append(&mut non_fatal);
    proof {
        assert(views_of(errors@) =~= before + (soft + v1 + v2));
    }
    Err(summary)
}

// ---------------------------------------------------------------------------
// Multi-message modes
// ---------------------------------------------------------------------------

/// The non-empty lines of a split message, in order.
pub open spec fn nonempty_lines(ls: Seq<Seq<char>>) -> Seq<Seq<char>>
    decreases ls.len(),
{
    if ls.len() == 0 {
        seq![]
    } else {
        nonempty_lines(ls.drop_last()) + (if ls.last().len() > 0 {
            seq![ls.last()]
        } else {
            seq![]
        })
    }
}

/// The failures one message contributes to the collected list: nothing
/// when valid, the fatal failure alone, or the rule failures followed by
/// their summary.
pub open spec fn line_collected(line: Seq<char>, cfg: crate::config::ConfigView) -> Seq<
    SumiErrorView,
> {
    match spec_run_lint(line, cfg) {
        LintOutcome::Valid(_) => seq![],
        LintOutcome::Fatal(f) => seq![f],
        LintOutcome::Invalid(es) => es + seq![
            SumiErrorView::GeneralError { details: found_errors_message(es.len() as nat) },
        ],
    }
}

/// Everything a list of messages contributes to the collected failures.
pub open spec fn multi_collected(msgs: Seq<Seq<char>>, cfg: crate::config::ConfigView) -> Seq<
    SumiErrorView,
>
    decreases msgs.len(),
{
    if msgs.len() == 0 {
        seq![]
    } else {
        multi_collected(msgs.drop_last(), cfg) + line_collected(msgs.last(), cfg)
    }
}

/// How many of the messages fail linting.
pub open spec fn failed_count(msgs: Seq<Seq<char>>, cfg: crate::config::ConfigView) -> int
    decreases msgs.len(),
{
    if msgs.len() == 0 {
        0
    } else {
        failed_count(msgs.drop_last(), cfg) + (match spec_run_lint(msgs.last(), cfg) {
            LintOutcome::Valid(_) => 0int,
            _ => 1int,
        })
    }
}

/// The models of the messages that lint cleanly, in order.
pub open spec fn parsed_models(msgs: Seq<Seq<char>>, cfg: crate::config::ConfigView) -> Seq<
    ParsedCommitView,
>
    decreases msgs.len(),
{
    if msgs.len() == 0 {
        seq![]
    } else {
        parsed_models(msgs.drop_last(), cfg) + (match spec_run_lint(msgs.last(), cfg) {
            LintOutcome::Valid(p) => seq![p],
            _ => seq![],
        })
    }
}

/// The ghost images of a list of parsed commits.
pub open spec fn pc_views(s: Seq<ParsedCommit>) -> Seq<ParsedCommitView> {
    s.map_values(|p: ParsedCommit| p@)
}

/// Lints every non-empty line of the message as an independent commit.
/// All models are returned when every line passes; otherwise each failing
/// line's failures are appended to `errors` and the count of failing lines
/// is summarized in the returned failure.
pub fn run_lint_on_each_line(commit_message: &str, config: &Config, errors: &mut Vec<
    SumiError,
>) -> (r: Result<Vec<ParsedCommit>, SumiError>)
    ensures
        ({
            let nel = nonempty_lines(crate::text::lines_of(commit_message@));
            &&& views_of(final(errors)@) == views_of(old(errors)@) + multi_collected(
                nel,
                config@,
            )
            &&& (match r {
                Ok(v) => failed_count(nel, config@) == 0 && pc_views(v@) == parsed_models(
                    nel,
                    config@,
                ),
                Err(e) => failed_count(nel, config@) > 0 && e@ == (SumiErrorView::SplitLinesErrors {
                    lines_with_errors: failed_count(nel, config@) as nat,
                    total_lines: nel.len(),
                    line_or_lines: spec_pluralize(nel.len(), "line"@, "lines"@),
                }),
            })
        }),
{
    let ghost cfg = config@;
    let cs = chars_of(commit_message);
    let ghost ls = crate::text::lines_of(commit_message@);
    let lines = crate::text::split_lines(&cs);
    let mut parsed_commits: Vec<ParsedCommit> = Vec::new();
    let mut failed: usize = 0;
    let mut total: usize = 0;
    proof {
        assert(ls.take(0) =~= Seq::<Seq<char>>::empty());
        assert(views_of(errors@) =~= views_of(errors@) + multi_collected(
            nonempty_lines(ls.take(0)),
            cfg,
        ));
        assert(pc_views(parsed_commits@) =~= parsed_models(nonempty_lines(ls.take(0)), cfg));
    }
    let mut k: usize = 0;
    while k < lines.len()
        invariant
            k <= lines@.len(),
            lines.deep_view() == ls,
            cfg == config@,
            total as int == nonempty_lines(ls.take(k as int)).len(),
            failed as int == failed_count(nonempty_lines(ls.take(k as int)), cfg),
            failed <= total <= k,
            views_of(errors@) == views_of(old(errors)@) + multi_collected(
                nonempty_lines(ls.take(k as int)),
                cfg,
            ),
            pc_views(parsed_commits@) == parsed_models(nonempty_lines(ls.take(k as int)), cfg),
        decreases lines@.len() - k,
    {
        let ghost kp = nonempty_lines(ls.take(k as int));
        proof {
            assert(lines@[k as int].deep_view() =~= lines@[k as int]@);
            assert(ls.take(k as int + 1).drop_last() =~= ls.take(k as int));
            assert(ls.take(k as int + 1).last() == ls[k as int]);
        }
        if lines[k].len() > 0 {
            let ghost kp2 = kp.push(ls[k as int]);
            proof {
                assert(nonempty_lines(ls.take(k as int + 1)) =~= kp2);
                assert(kp2.drop_last() =~= kp);
                assert(kp2.last() == ls[k as int]);
            }
            total = total + 1;
            let line_s = string_of(&lines[k]);
            match run_lint(line_s.as_str(), config, errors) {
                Ok(parsed_commit) => {
                    let ghost prevp = pc_views(parsed_commits@);
                    parsed_commits.push(parsed_commit);
                    proof {
                        assert(pc_views(parsed_commits@) =~= prevp + seq![
                            parsed_commits@.last()@,
                        ]);
                        assert(views_of(errors@) =~= views_of(old(errors)@) + multi_collected(
                            kp2,
                            cfg,
                        ));
                        assert(pc_views(parsed_commits@) =~= parsed_models(kp2, cfg));
                    }
                },
                Err(error) => {
                    failed = failed + 1;
                    let ghost beforep = views_of(errors@);
                    errors.push(error);
                    proof {
                        assert(views_of(errors@) =~= beforep + seq![errors@.last()@]);
                        assert(views_of(errors@) =~= views_of(old(errors)@) + multi_collected(
                            kp2,
                            cfg,
                        ));
                        assert(pc_views(parsed_commits@) =~= parsed_models(kp2, cfg));
                    }
                },
            }
        } else {
            proof {
                assert(nonempty_lines(ls.take(k as int + 1)) =~= kp);
            }
        }
        k = k + 1;
    }
    proof {
        assert(ls.take(lines@.len() as int) =~= ls);
    }
    if failed == 0 {
        Ok(parsed_commits)
    } else {
        let word = crate::errors::pluralize(total, "line", "lines");
        Err(
            SumiError::SplitLinesErrors {
                lines_with_errors: failed,
                total_lines: total,
                line_or_lines: String::from_str(word),
            },
        )
    }
}

/// Lints a list of commit messages, one commit per entry, as the
/// revision-range mode hands them over. All models are returned when every
/// message passes; otherwise each failing message's failures are appended
/// to `errors` and the count of failing commits is summarized in the
/// returned failure.
pub fn run_lint_on_commits(messages: &Vec<String>, config: &Config, errors: &mut Vec<
    SumiError,
>) -> (r: Result<Vec<ParsedCommit>, SumiError>)
    ensures
        ({
            let msgs = messages.deep_view();
            &&& views_of(final(errors)@) == views_of(old(errors)@) + multi_collected(
                msgs,
                config@,
            )
            &&& (match r {
                Ok(v) => failed_count(msgs, config@) == 0 && pc_views(v@) == parsed_models(
                    msgs,
                    config@,
                ),
                Err(e) => failed_count(msgs, config@) > 0 && e@
                    == (SumiErrorView::CommitRangeErrors {
                    commits_with_errors: failed_count(msgs, config@) as nat,
                    total_commits: msgs.len(),
                    commit_or_commits: spec_pluralize(msgs.len(), "commit"@, "commits"@),
                }),
            })
        }),
{
    let ghost cfg = config@;
    let ghost msgs = messages.deep_view();
    let mut parsed_commits: Vec<ParsedCommit> = Vec::new();
    let mut failed: usize = 0;
    proof {
        assert(msgs.take(0) =~= Seq::<Seq<char>>::empty());
        assert(views_of(errors@) =~= views_of(errors@) + multi_collected(msgs.take(0), cfg));
        assert(pc_views(parsed_commits@) =~= parsed_models(msgs.take(0), cfg));
    }
    let mut k: usize = 0;
    while k < messages.len()
        invariant
            k <= messages@.len(),
            msgs == messages.deep_view(),
            cfg == config@,
            failed as int == failed_count(msgs.take(k as int), cfg),
            failed <= k,
            views_of(errors@) == views_of(old(errors)@) + multi_collected(
                msgs.take(k as int),
                cfg,
            ),
            pc_views(parsed_commits@) == parsed_models(msgs.take(k as int), cfg),
        decreases messages@.len() - k,
    {
        proof {
            assert(msgs[k as int] == messages@[k as int]@);
            assert(msgs.take(k as int + 1).drop_last() =~= msgs.take(k as int));
            assert(msgs.take(k as int + 1).last() == msgs[k as int]);
        }
        match run_lint(messages[k].as_str(), config, errors) {
            Ok(parsed_commit) => {
                let ghost prevp = pc_views(parsed_commits@);
                parsed_commits.push(parsed_commit);
                proof {
                    assert(pc_views(parsed_commits@) =~= prevp + seq![parsed_commits@.last()@]);
                    assert(views_of(errors@) =~= views_of(old(errors)@) + multi_collected(
                        msgs.take(k as int + 1),
                        cfg,
                    ));
                    assert(pc_views(parsed_commits@) =~= parsed_models(
                        msgs.take(k as int + 1),
                        cfg,
                    ));
                }
            },
            Err(error) => {
                failed = failed + 1;
                let ghost beforep = views_of(errors@);
                errors.push(error);
                proof {
                    assert(views_of(errors@) =~= beforep + seq![errors@.last()@]);
                    assert(views_of(errors@) =~= views_of(old(errors)@) + multi_collected(
                        msgs.take(k as int + 1),
                        cfg,
                    ));
                    assert(pc_views(parsed_commits@) =~= parsed_models(
                        msgs.take(k as int + 1),
                        cfg,
                    ));
                }
            },
        }
        k = k + 1;
    }
    proof {
        assert(msgs.take(messages@.len() as int) =~= msgs);
    }
    if failed == 0 {
        Ok(parsed_commits)
    } else {
        let word = crate::errors::pluralize(messages.len(), "commit", "commits");
        Err(
            SumiError::CommitRangeErrors {
                commits_with_errors: failed,
                total_commits: messages.len(),
                commit_or_commits: String::from_str(word),
            },
        )
    }
}

} // verus!
