//! The crate's view of the outside world: the few std functions that vstd
//! gives no specification to, and the calls into the `regex` and
//! `git-conventional` crates. Every item here is trusted; everything else in
//! the crate is proved against these contracts.
use vstd::prelude::*;

verus! {

// ---------------------------------------------------------------------------
// std: character classification and case mapping
// ---------------------------------------------------------------------------

/// What `char::is_whitespace` returns: membership in Unicode `White_Space`.
pub uninterp spec fn char_is_whitespace(c: char) -> bool;

/// Relies on `char::is_whitespace`: a property of the character alone. The
/// ground facts come from its documentation: space, tab, carriage return and
/// line feed are white space; ASCII letters and digits are not.
#[verifier::external_body]
pub fn is_whitespace_char(c: char) -> (r: bool)
    ensures
        r == char_is_whitespace(c),
        (c == ' ' || c == '\t' || c == '\r' || c == '\n') ==> r,
        (('a' <= c && c <= 'z') || ('A' <= c && c <= 'Z') || ('0' <= c && c <= '9') || c == '#')
            ==> !r,
{
    c.is_whitespace()
}

/// What `char::is_uppercase` returns: membership in Unicode `Uppercase`.
pub uninterp spec fn char_is_uppercase(c: char) -> bool;

/// Relies on `char::is_uppercase`: a property of the character alone. Its
/// documentation gives the ground facts: `A`-`Z` are uppercase, ASCII
/// lowercase letters and digits are not.
#[verifier::external_body]
pub fn is_uppercase_char(c: char) -> (r: bool)
    ensures
        r == char_is_uppercase(c),
        ('A' <= c && c <= 'Z') ==> r,
        (('a' <= c && c <= 'z') || ('0' <= c && c <= '9') || c == ' ') ==> !r,
{
    c.is_uppercase()
}

/// What `char::is_alphabetic` returns: membership in Unicode `Alphabetic`.
pub uninterp spec fn char_is_alphabetic(c: char) -> bool;

/// Relies on `char::is_alphabetic`: a property of the character alone. Its
/// documentation gives the ground facts: ASCII letters are alphabetic,
/// digits and the space are not.
#[verifier::external_body]
pub fn is_alphabetic_char(c: char) -> (r: bool)
    ensures
        r == char_is_alphabetic(c),
        (('a' <= c && c <= 'z') || ('A' <= c && c <= 'Z')) ==> r,
        (('0' <= c && c <= '9') || c == ' ') ==> !r,
{
    c.is_alphabetic()
}

/// What `char::is_alphanumeric` returns: `Alphabetic` or a Unicode number.
pub uninterp spec fn char_is_alphanumeric(c: char) -> bool;

/// Relies on `char::is_alphanumeric`: a property of the character alone.
/// Its documentation gives the ground facts: ASCII letters and digits are
/// alphanumeric; spaces and the number sign are not.
#[verifier::external_body]
pub fn is_alphanumeric_char(c: char) -> (r: bool)
    ensures
        r == char_is_alphanumeric(c),
        (('a' <= c && c <= 'z') || ('A' <= c && c <= 'Z') || ('0' <= c && c <= '9')) ==> r,
        (c == ' ' || c == '#' || c == '_') ==> !r,
{
    c.is_alphanumeric()
}

/// What `char::to_lowercase` yields for a character, as a sequence.
pub uninterp spec fn char_lower(c: char) -> Seq<char>;

/// Relies on `char::to_lowercase`: the mapping depends on the character
/// alone. Its documentation also fixes the ASCII mapping, stated here of
/// the result.
#[verifier::external_body]
pub fn lower_char(c: char) -> (r: String)
    ensures
        r@ == char_lower(c),
        ('A' <= c && c <= 'Z') ==> r@ == seq![(((c as u8) + 32) as char)],
{
    c.to_lowercase().collect()
}

/// What `char::to_uppercase` yields for a character, as a sequence.
pub uninterp spec fn char_upper(c: char) -> Seq<char>;

/// Relies on `char::to_uppercase`: the mapping depends on the character
/// alone. Its documentation also fixes the ASCII mapping, stated here of
/// the result.
#[verifier::external_body]
pub fn upper_char(c: char) -> (r: String)
    ensures
        r@ == char_upper(c),
        ('a' <= c && c <= 'z') ==> r@ == seq![(((c as u8) - 32) as char)],
{
    c.to_uppercase().collect()
}

/// What `str::to_lowercase` returns: the Unicode lowercase mapping of the
/// whole string, a function of its characters alone.
pub uninterp spec fn lower_of(s: Seq<char>) -> Seq<char>;

/// Relies on `str::to_lowercase`: the result depends on the characters
/// alone, and an empty string stays empty.
#[verifier::external_body]
pub fn to_lowercase(s: &str) -> (r: String)
    ensures
        r@ == lower_of(s@),
        s@.len() == 0 ==> r@.len() == 0,
{
    s.to_lowercase()
}

/// Relies on `String::push`: appends exactly the one character.
#[verifier::external_body]
pub fn push_char(s: &mut String, c: char)
    ensures
        final(s)@ == old(s)@.push(c),
{
    s.push(c)
}

// ---------------------------------------------------------------------------
// regex
// ---------------------------------------------------------------------------

/// The verdict of matching a regular expression against a text: `None` when
/// the pattern does not compile, `Some(m)` when it compiles and `m` says
/// whether it matches the text. A function of the two strings alone.
pub uninterp spec fn pattern_verdict(pattern: Seq<char>, text: Seq<char>) -> Option<bool>;

/// Relies on `regex::Regex::new` and `regex::Regex::is_match`: compiling a
/// pattern either fails (for the same pattern, with any text) or yields a
/// matcher whose answer depends on pattern and text alone.
#[verifier::external_body]
pub fn regex_match_text(pattern: &str, text: &str) -> (r: Option<bool>)
    ensures
        r == pattern_verdict(pattern@, text@),
{
    match regex::Regex::new(pattern) {
        Ok(re) => Some(re.is_match(text)),
        Err(_) => None,
    }
}

/// The emoji-or-shortcode tokens of a line, in left-to-right order: the
/// non-overlapping matches of the fixed pattern
/// `(:\w+:)|[\p{Emoji_Presentation}\p{Extended_Pictographic}\u{200D}]`,
/// a function of the line alone.
pub uninterp spec fn emoji_tokens(line: Seq<char>) -> Seq<Seq<char>>;

/// Relies on `regex::Regex::new` and `regex::Regex::find_iter` with the
/// fixed emoji pattern above: the matches depend on the line alone and are
/// reported leftmost first.
#[verifier::external_body]
pub fn find_emoji_tokens(line: &str) -> (r: Vec<String>)
    ensures
        r.deep_view() == emoji_tokens(line@),
{
    let re = regex::Regex::new(
        r"(:\w+:)|[\p{Emoji_Presentation}\p{Extended_Pictographic}\u{200D}]",
    )
    .unwrap();
    re.find_iter(line).map(|m| m.as_str().to_string()).collect()
}

// ---------------------------------------------------------------------------
// git-conventional
// ---------------------------------------------------------------------------

/// The pieces of a message that parses under the Conventional Commits
/// grammar, as plain strings.
pub struct ConvParts {
    pub commit_type: String,
    pub scope: Option<String>,
    pub description: String,
    pub body: Option<String>,
    pub footers: Vec<String>,
    pub is_breaking: bool,
    pub breaking_description: Option<String>,
}

/// How a message fails the Conventional Commits grammar: the body begins
/// without a blank separator line, or any other grammar failure, carrying
/// the parser's own description of it.
pub enum ConvFailure {
    NoBlankLineBeforeBody,
    Rejected { reason: String },
}

/// The ghost image of `ConvParts`.
pub struct ConvPartsView {
    pub commit_type: Seq<char>,
    pub scope: Option<Seq<char>>,
    pub description: Seq<char>,
    pub body: Option<Seq<char>>,
    pub footers: Seq<Seq<char>>,
    pub is_breaking: bool,
    pub breaking_description: Option<Seq<char>>,
}

/// The ghost image of `ConvFailure`.
pub enum ConvFailureView {
    NoBlankLineBeforeBody,
    Rejected { reason: Seq<char> },
}

impl View for ConvParts {
    type V = ConvPartsView;

    open spec fn view(&self) -> ConvPartsView {
        ConvPartsView {
            commit_type: self.commit_type@,
            scope: match self.scope {
                Some(ref s) => Some(s@),
                None => None,
            },
            description: self.description@,
            body: match self.body {
                Some(ref s) => Some(s@),
                None => None,
            },
            footers: self.footers.deep_view(),
            is_breaking: self.is_breaking,
            breaking_description: match self.breaking_description {
                Some(ref s) => Some(s@),
                None => None,
            },
        }
    }
}

impl View for ConvFailure {
    type V = ConvFailureView;

    open spec fn view(&self) -> ConvFailureView {
        match self {
            ConvFailure::NoBlankLineBeforeBody => ConvFailureView::NoBlankLineBeforeBody,
            ConvFailure::Rejected { reason } => ConvFailureView::Rejected { reason: reason@ },
        }
    }
}

/// What the Conventional Commits grammar makes of a text: a function of the
/// text alone.
pub uninterp spec fn conv_parse(s: Seq<char>) -> Result<ConvPartsView, ConvFailureView>;

/// Whether an executable parse result is the image of the named outcome.
pub open spec fn conv_result_matches(
    r: &Result<ConvParts, ConvFailure>,
    o: Result<ConvPartsView, ConvFailureView>,
) -> bool {
    match r {
        Ok(p) => o == Result::<ConvPartsView, ConvFailureView>::Ok(p@),
        Err(f) => o == Result::<ConvPartsView, ConvFailureView>::Err(f@),
    }
}

/// Relies on `git_conventional::Commit::parse`: the outcome depends on the
/// text alone; a failure of kind `ErrorKind::InvalidBody` means the header
/// was not separated from the body by a blank line, and every failure
/// carries the parser's display text.
#[verifier::external_body]
pub fn parse_conventional(text: &str) -> (r: Result<ConvParts, ConvFailure>)
    ensures
        conv_result_matches(&r, conv_parse(text@)),
{
    match git_conventional::Commit::parse(text) {
        Ok(c) => Ok(ConvParts {
            commit_type: c.type_().to_string(),
            scope: c.scope().map(|s| s.to_string()),
            description: c.description().to_string(),
            body: c.body().map(|s| s.to_string()),
            footers: c.footers().iter().map(|f| f.to_string()).collect(),
            is_breaking: c.breaking(),
            breaking_description: c.breaking_description().map(|s| s.to_string()),
        }),
        Err(e) if e.kind() == git_conventional::ErrorKind::InvalidBody => Err(ConvFailure::NoBlankLineBeforeBody),
        Err(e) => Err(ConvFailure::Rejected { reason: format!("{}", e) }),
    }
}

} // verus!
