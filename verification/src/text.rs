//! Verified text utilities: conversions between strings and character
//! vectors, line splitting and joining, trimming, scanning, and decimal
//! rendering. Everything here works over `Seq<char>` models.
use crate::outside::char_is_whitespace;
use crate::outside::is_whitespace_char;
use crate::outside::push_char;
use vstd::prelude::*;
use vstd::string::StrSliceExecFns;

verus! {

/// Chooses between a singular and a plural word by a count: the singular
/// form stands for exactly one, the plural for every other count.
pub open spec fn spec_pluralize(count: nat, singular: Seq<char>, plural: Seq<char>) -> Seq<char> {
    if count == 1 {
        singular
    } else {
        plural
    }
}

// ---------------------------------------------------------------------------
// Conversions
// ---------------------------------------------------------------------------

/// Collects the characters of a string slice into a vector.
pub fn chars_of(s: &str) -> (v: Vec<char>)
    ensures
        v@ == s@,
{
    let n = s.unicode_len();
    let mut v: Vec<char> = Vec::new();
    let mut i: usize = 0;
    while i < n
        invariant
            i <= n,
            n == s@.len(),
            v@ == s@.take(i as int),
        decreases n - i,
    {
        v.push(s.get_char(i));
        i = i + 1;
        proof {
            assert(v@ =~= s@.take(i as int));
        }
    }
    proof {
        assert(v@ =~= s@);
    }
    v
}

/// Collects a vector of characters back into an owned string.
pub fn string_of(v: &Vec<char>) -> (s: String)
    ensures
        s@ == v@,
{
    let mut s = String::new();
    let mut i: usize = 0;
    while i < v.len()
        invariant
            i <= v@.len(),
            s@ == v@.take(i as int),
        decreases v@.len() - i,
    {
        push_char(&mut s, v[i]);
        i = i + 1;
        proof {
            assert(s@ =~= v@.take(i as int));
        }
    }
    proof {
        assert(s@ =~= v@);
    }
    s
}

/// Copies the characters of `s` in the index range `[a, b)`.
pub fn subvec(s: &Vec<char>, a: usize, b: usize) -> (r: Vec<char>)
    requires
        a <= b <= s@.len(),
    ensures
        r@ == s@.subrange(a as int, b as int),
{
    let mut r: Vec<char> = Vec::new();
    let mut i: usize = a;
    while i < b
        invariant
            a <= i <= b <= s@.len(),
            r@ == s@.subrange(a as int, i as int),
        decreases b - i,
    {
        r.push(s[i]);
        i = i + 1;
        proof {
            assert(r@ =~= s@.subrange(a as int, i as int));
        }
    }
    r
}

/// Appends every character of `src` to `dst`.
pub fn extend_vec(dst: &mut Vec<char>, src: &Vec<char>)
    ensures
        final(dst)@ == old(dst)@ + src@,
{
    let mut i: usize = 0;
    while i < src.len()
        invariant
            i <= src@.len(),
            dst@ == old(dst)@ + src@.take(i as int),
        decreases src@.len() - i,
    {
        dst.push(src[i]);
        i = i + 1;
        proof {
            assert(dst@ =~= old(dst)@ + src@.take(i as int));
        }
    }
    proof {
        assert(dst@ =~= old(dst)@ + src@);
    }
}

/// Appends every character of the string slice `s` to `dst`.
pub fn append_str(dst: &mut Vec<char>, s: &str)
    ensures
        final(dst)@ == old(dst)@ + s@,
{
    let n = s.unicode_len();
    let mut i: usize = 0;
    while i < n
        invariant
            i <= n,
            n == s@.len(),
            dst@ == old(dst)@ + s@.take(i as int),
        decreases n - i,
    {
        dst.push(s.get_char(i));
        i = i + 1;
        proof {
            assert(dst@ =~= old(dst)@ + s@.take(i as int));
        }
    }
    proof {
        assert(dst@ =~= old(dst)@ + s@);
    }
}

/// Compares a character vector with a string slice, character by character.
pub fn vec_eq_str(v: &Vec<char>, s: &str) -> (r: bool)
    ensures
        r == (v@ == s@),
{
    let n = s.unicode_len();
    if v.len() != n {
        proof {
            assert(v@ != s@) by {
                assert(v@.len() != s@.len());
            }
        }
        return false;
    }
    let mut i: usize = 0;
    while i < n
        invariant
            i <= n,
            n == s@.len(),
            v@.len() == n,
            forall|j: int| 0 <= j < i ==> v@[j] == s@[j],
        decreases n - i,
    {
        if v[i] != s.get_char(i) {
            return false;
        }
        i = i + 1;
    }
    proof {
        assert(v@ =~= s@);
    }
    true
}

/// Compares two character vectors.
pub fn vec_eq_vec(a: &Vec<char>, b: &Vec<char>) -> (r: bool)
    ensures
        r == (a@ == b@),
{
    if a.len() != b.len() {
        proof {
            assert(a@.len() != b@.len());
        }
        return false;
    }
    let mut i: usize = 0;
    while i < a.len()
        invariant
            i <= a@.len(),
            a@.len() == b@.len(),
            forall|j: int| 0 <= j < i ==> a@[j] == b@[j],
        decreases a@.len() - i,
    {
        if a[i] != b[i] {
            return false;
        }
        i = i + 1;
    }
    proof {
        assert(a@ =~= b@);
    }
    true
}

// ---------------------------------------------------------------------------
// Scanning
// ---------------------------------------------------------------------------

/// The first index at or after `i` whose character fails `p`, or the length
/// of `s` when every later character passes.
pub open spec fn scan_while(s: Seq<char>, i: int, p: spec_fn(char) -> bool) -> int
    decreases s.len() - i,
{
    if !(0 <= i < s.len()) {
        s.len() as int
    } else if !p(s[i]) {
        i
    } else {
        scan_while(s, i + 1, p)
    }
}

pub proof fn lemma_scan_while(s: Seq<char>, i: int, p: spec_fn(char) -> bool)
    requires
        0 <= i <= s.len(),
    ensures
        i <= scan_while(s, i, p) <= s.len(),
        scan_while(s, i, p) < s.len() ==> !p(s[scan_while(s, i, p)]),
        forall|j: int| i <= j < scan_while(s, i, p) ==> p(s[j]),
    decreases s.len() - i,
{
    if i < s.len() && p(s[i]) {
        lemma_scan_while(s, i + 1, p);
    }
}

pub proof fn lemma_scan_while_is(s: Seq<char>, i: int, p: spec_fn(char) -> bool, e: int)
    requires
        0 <= i <= e <= s.len(),
        forall|j: int| i <= j < e ==> p(s[j]),
        e < s.len() ==> !p(s[e]),
    ensures
        scan_while(s, i, p) == e,
    decreases s.len() - i,
{
    if i < s.len() && p(s[i]) {
        lemma_scan_while_is(s, i + 1, p, e);
    }
}

// ---------------------------------------------------------------------------
// Lines
// ---------------------------------------------------------------------------

/// The index of the first line break at or after `i`, or the length of `s`.
pub open spec fn line_end(s: Seq<char>, i: int) -> int {
    scan_while(s, i, |c: char| c != '\n')
}

/// A line piece with a trailing carriage return removed, as `str::lines`
/// strips it.
pub open spec fn strip_cr(l: Seq<char>) -> Seq<char> {
    if l.len() > 0 && l.last() == '\r' {
        l.drop_last()
    } else {
        l
    }
}

/// The lines of `s` from index `i` on, split at line feeds, each with a
/// trailing carriage return removed; a trailing line feed opens no final
/// empty line, and an empty text has no lines.
pub open spec fn lines_from(s: Seq<char>, i: int) -> Seq<Seq<char>>
    decreases s.len() - i,
        when 0 <= i <= s.len()
        via lines_from_decreases
{
    if i == s.len() {
        seq![]
    } else {
        let e = line_end(s, i);
        if e < s.len() {
            seq![strip_cr(s.subrange(i, e))] + lines_from(s, e + 1)
        } else {
            seq![strip_cr(s.subrange(i, e))]
        }
    }
}

#[via_fn]
proof fn lines_from_decreases(s: Seq<char>, i: int) {
    if 0 <= i < s.len() {
        lemma_scan_while(s, i, |c: char| c != '\n');
    }
}

/// The lines of `s`, as `str::lines` yields them.
pub open spec fn lines_of(s: Seq<char>) -> Seq<Seq<char>> {
    lines_from(s, 0)
}

/// Finds the end of the line that starts at `start`.
pub fn find_line_end(s: &Vec<char>, start: usize) -> (e: usize)
    requires
        start <= s@.len(),
    ensures
        start <= e <= s@.len(),
        e == line_end(s@, start as int),
{
    let mut j = start;
    while j < s.len() && s[j] != '\n'
        invariant
            start <= j <= s@.len(),
            forall|k: int| start <= k < j ==> s@[k] != '\n',
        decreases s@.len() - j,
    {
        j = j + 1;
    }
    proof {
        lemma_scan_while_is(s@, start as int, |c: char| c != '\n', j as int);
    }
    j
}

/// Splits a text into its lines.
pub fn split_lines(s: &Vec<char>) -> (r: Vec<Vec<char>>)
    ensures
        r.deep_view() == lines_of(s@),
{
    let mut r: Vec<Vec<char>> = Vec::new();
    let mut i: usize = 0;
    while i < s.len()
        invariant
            i <= s@.len(),
            lines_of(s@) == r.deep_view() + lines_from(s@, i as int),
        decreases s@.len() - i,
    {
        let e = find_line_end(s, i);
        let mut piece = subvec(s, i, e);
        if piece.len() > 0 && piece[piece.len() - 1] == '\r' {
            piece.pop();
        }
        proof {
            assert(piece@ == strip_cr(s@.subrange(i as int, e as int)));
        }
        let ghost old_r = r.deep_view();
        let ghost old_i = i as int;
        let ghost pv = piece@;
        r.push(piece);
        proof {
            assert(r.deep_view() =~~= old_r + seq![pv]);
        }
        if e < s.len() {
            i = e + 1;
        } else {
            i = s.len();
            proof {
                assert(lines_from(s@, old_i) =~~= seq![pv] + lines_from(s@, s@.len() as int));
            }
        }
        proof {
            assert(lines_of(s@) =~~= r.deep_view() + lines_from(s@, i as int));
        }
    }
    proof {
        assert(r.deep_view() =~~= lines_of(s@));
    }
    r
}

/// Copies the first `k` lines.
pub fn take_lines(lines: &Vec<Vec<char>>, k: usize) -> (r: Vec<Vec<char>>)
    requires
        k <= lines@.len(),
    ensures
        r.deep_view() == lines.deep_view().take(k as int),
{
    let mut r: Vec<Vec<char>> = Vec::new();
    let mut j: usize = 0;
    while j < k
        invariant
            j <= k <= lines@.len(),
            r@.len() == j,
            forall|t: int| 0 <= t < j ==> r@[t]@ == lines@[t]@,
        decreases k - j,
    {
        let piece = subvec(&lines[j], 0, lines[j].len());
        proof {
            assert(piece@ =~= lines@[j as int]@);
        }
        r.push(piece);
        j = j + 1;
    }
    proof {
        assert forall|t: int| 0 <= t < k implies r.deep_view()[t]
            == lines.deep_view().take(k as int)[t] by {
            assert(r@[t].deep_view() =~= r@[t]@);
            assert(lines@[t].deep_view() =~= lines@[t]@);
        }
        assert(r.deep_view() =~= lines.deep_view().take(k as int));
    }
    r
}

/// Copies the lines from index `k` on.
pub fn skip_lines(lines: &Vec<Vec<char>>, k: usize) -> (r: Vec<Vec<char>>)
    requires
        k <= lines@.len(),
    ensures
        r.deep_view() == lines.deep_view().skip(k as int),
{
    let mut r: Vec<Vec<char>> = Vec::new();
    let mut j: usize = k;
    while j < lines.len()
        invariant
            k <= j <= lines@.len(),
            r@.len() == j - k,
            forall|t: int| 0 <= t < r@.len() ==> r@[t]@ == lines@[k + t]@,
        decreases lines@.len() - j,
    {
        let piece = subvec(&lines[j], 0, lines[j].len());
        proof {
            assert(piece@ =~= lines@[j as int]@);
        }
        r.push(piece);
        j = j + 1;
    }
    proof {
        assert forall|t: int| 0 <= t < r.deep_view().len() implies r.deep_view()[t]
            == lines.deep_view().skip(k as int)[t] by {
            assert(r@[t].deep_view() =~= r@[t]@);
            assert(lines@[k + t].deep_view() =~= lines@[k + t]@);
        }
        assert(r.deep_view() =~= lines.deep_view().skip(k as int));
    }
    r
}

/// `s` without its leading line feeds.
pub open spec fn trim_leading_nl(s: Seq<char>) -> Seq<char> {
    s.skip(scan_while(s, 0, |c: char| c == '\n'))
}

/// Removes leading line feeds.
pub fn trim_leading_nl_chars(s: &Vec<char>) -> (r: Vec<char>)
    ensures
        r@ == trim_leading_nl(s@),
{
    let mut i: usize = 0;
    while i < s.len() && s[i] == '\n'
        invariant
            i <= s@.len(),
            forall|k: int| 0 <= k < i ==> s@[k] == '\n',
        decreases s@.len() - i,
    {
        i = i + 1;
    }
    proof {
        lemma_scan_while_is(s@, 0, |c: char| c == '\n', i as int);
        assert(s@.subrange(i as int, s@.len() as int) =~= s@.skip(i as int));
    }
    subvec(s, i, s.len())
}

// ---------------------------------------------------------------------------
// Joining
// ---------------------------------------------------------------------------

/// The pieces joined with a line feed between each two.
pub open spec fn join_nl(ls: Seq<Seq<char>>) -> Seq<char>
    decreases ls.len(),
{
    if ls.len() == 0 {
        seq![]
    } else if ls.len() == 1 {
        ls[0]
    } else {
        join_nl(ls.drop_last()) + seq!['\n'] + ls.last()
    }
}

/// Joins pieces with line feeds.
pub fn join_lines(pieces: &Vec<Vec<char>>) -> (r: Vec<char>)
    ensures
        r@ == join_nl(pieces.deep_view()),
{
    let mut r: Vec<char> = Vec::new();
    let mut k: usize = 0;
    while k < pieces.len()
        invariant
            k <= pieces@.len(),
            pieces.deep_view().len() == pieces@.len(),
            r@ == join_nl(pieces.deep_view().take(k as int)),
        decreases pieces@.len() - k,
    {
        if k > 0 {
            r.push('\n');
        }
        extend_vec(&mut r, &pieces[k]);
        k = k + 1;
        proof {
            let dv = pieces.deep_view();
            assert(dv.take(k as int).drop_last() =~= dv.take(k as int - 1));
            assert(dv.take(k as int).last() == dv[k as int - 1]);
            if k == 1 {
                assert(r@ =~= join_nl(dv.take(k as int)));
            } else {
                assert(r@ =~= join_nl(dv.take(k as int)));
            }
        }
    }
    proof {
        assert(pieces.deep_view().take(pieces@.len() as int) =~= pieces.deep_view());
    }
    r
}

/// The comma-separated pieces of `s` from index `i` on; unlike lines, a
/// trailing comma opens a final empty piece, and an empty text is one empty
/// piece.
pub open spec fn split_commas_from(s: Seq<char>, i: int) -> Seq<Seq<char>>
    decreases s.len() - i,
        when 0 <= i <= s.len()
        via split_commas_from_decreases
{
    let e = scan_while(s, i, |c: char| c != ',');
    if e < s.len() {
        seq![s.subrange(i, e)] + split_commas_from(s, e + 1)
    } else {
        seq![s.subrange(i, e)]
    }
}

#[via_fn]
proof fn split_commas_from_decreases(s: Seq<char>, i: int) {
    lemma_scan_while(s, i, |c: char| c != ',');
}

/// The comma-separated pieces of `s`.
pub open spec fn split_commas(s: Seq<char>) -> Seq<Seq<char>> {
    split_commas_from(s, 0)
}

/// Splits a text at commas.
pub fn split_commas_chars(s: &Vec<char>) -> (r: Vec<Vec<char>>)
    ensures
        r.deep_view() == split_commas(s@),
{
    let mut r: Vec<Vec<char>> = Vec::new();
    proof {
        assert(r.deep_view() =~~= Seq::<Seq<char>>::empty());
    }
    let mut i: usize = 0;
    let mut done = false;
    while !done
        invariant
            0 <= i <= s@.len(),
            !done ==> split_commas(s@) == r.deep_view() + split_commas_from(s@, i as int),
            done ==> r.deep_view() == split_commas(s@),
        decreases s@.len() - i + (if done { 0int } else { 1int }),
    {
        let mut j = i;
        while j < s.len() && s[j] != ','
            invariant
                i <= j <= s@.len(),
                forall|k: int| i <= k < j ==> s@[k] != ',',
            decreases s@.len() - j,
        {
            j = j + 1;
        }
        proof {
            lemma_scan_while_is(s@, i as int, |c: char| c != ',', j as int);
        }
        let piece = subvec(s, i, j);
        let ghost acc0 = r.deep_view();
        proof {
            assert(piece.deep_view() =~= piece@);
        }
        r.push(piece);
        proof {
            assert(r.deep_view() =~~= acc0 + seq![s@.subrange(i as int, j as int)]);
        }
        if j < s.len() {
            i = j + 1;
        } else {
            done = true;
        }
    }
    r
}

/// The pieces joined with a comma and a space between each two.
pub open spec fn join_comma_space(ls: Seq<Seq<char>>) -> Seq<char>
    decreases ls.len(),
{
    if ls.len() == 0 {
        seq![]
    } else if ls.len() == 1 {
        ls[0]
    } else {
        join_comma_space(ls.drop_last()) + ", "@ + ls.last()
    }
}

/// Joins pieces with `", "`.
pub fn join_with_comma_space(pieces: &Vec<String>) -> (r: Vec<char>)
    ensures
        r@ == join_comma_space(pieces.deep_view()),
{
    let mut r: Vec<char> = Vec::new();
    let mut k: usize = 0;
    while k < pieces.len()
        invariant
            k <= pieces@.len(),
            pieces.deep_view().len() == pieces@.len(),
            r@ == join_comma_space(pieces.deep_view().take(k as int)),
        decreases pieces@.len() - k,
    {
        if k > 0 {
            append_str(&mut r, ", ");
        }
        append_str(&mut r, pieces[k].as_str());
        k = k + 1;
        proof {
            let dv = pieces.deep_view();
            assert(dv.take(k as int).drop_last() =~= dv.take(k as int - 1));
            assert(dv.take(k as int).last() == dv[k as int - 1]);
            assert(r@ =~= join_comma_space(dv.take(k as int)));
        }
    }
    proof {
        assert(pieces.deep_view().take(pieces@.len() as int) =~= pieces.deep_view());
    }
    r
}

// ---------------------------------------------------------------------------
// Trimming
// ---------------------------------------------------------------------------

/// The number of leading white-space characters of `s`.
pub open spec fn trim_start_idx(s: Seq<char>) -> int {
    scan_while(s, 0, |c: char| char_is_whitespace(c))
}

/// The index after the last non-white-space character of `s`, or zero when
/// there is none.
pub open spec fn trim_end_idx(s: Seq<char>) -> int
    decreases s.len(),
{
    if s.len() == 0 {
        0
    } else if char_is_whitespace(s.last()) {
        trim_end_idx(s.drop_last())
    } else {
        s.len() as int
    }
}

pub proof fn lemma_trim_end_idx(s: Seq<char>)
    ensures
        0 <= trim_end_idx(s) <= s.len(),
        forall|j: int| trim_end_idx(s) <= j < s.len() ==> char_is_whitespace(s[j]),
        trim_end_idx(s) > 0 ==> !char_is_whitespace(s[trim_end_idx(s) - 1]),
    decreases s.len(),
{
    if s.len() > 0 && char_is_whitespace(s.last()) {
        lemma_trim_end_idx(s.drop_last());
        assert forall|j: int| trim_end_idx(s) <= j < s.len() implies char_is_whitespace(s[j]) by {
            if j < s.len() - 1 {
                assert(s.drop_last()[j] == s[j]);
            } else {
                assert(s[j] == s.last());
            }
        }
    }
}

pub proof fn lemma_trim_end_idx_is(s: Seq<char>, e: int)
    requires
        0 <= e <= s.len(),
        forall|j: int| e <= j < s.len() ==> char_is_whitespace(s[j]),
        e > 0 ==> !char_is_whitespace(s[e - 1]),
    ensures
        trim_end_idx(s) == e,
    decreases s.len(),
{
    if s.len() > 0 && char_is_whitespace(s.last()) {
        lemma_trim_end_idx_is(s.drop_last(), e);
    }
}

/// `s` with leading and trailing white space removed, as `str::trim`.
pub open spec fn trim_of(s: Seq<char>) -> Seq<char> {
    let a = trim_start_idx(s);
    let b = trim_end_idx(s);
    if a <= b {
        s.subrange(a, b)
    } else {
        seq![]
    }
}

/// Removes leading and trailing white space.
pub fn trim_chars(s: &Vec<char>) -> (r: Vec<char>)
    ensures
        r@ == trim_of(s@),
{
    let mut a: usize = 0;
    while a < s.len() && is_whitespace_char(s[a])
        invariant
            a <= s@.len(),
            forall|k: int| 0 <= k < a ==> char_is_whitespace(s@[k]),
        decreases s@.len() - a,
    {
        a = a + 1;
    }
    proof {
        lemma_scan_while_is(s@, 0, |c: char| char_is_whitespace(c), a as int);
    }
    let mut b: usize = s.len();
    while b > a && is_whitespace_char(s[b - 1])
        invariant
            a <= b <= s@.len(),
            forall|k: int| b <= k < s@.len() ==> char_is_whitespace(s@[k]),
            forall|k: int| 0 <= k < a ==> char_is_whitespace(s@[k]),
        decreases b,
    {
        b = b - 1;
    }
    if b == a {
        // the whole text is white space: the trim is empty
        proof {
            lemma_trim_end_idx(s@);
            let e = trim_end_idx(s@);
            if e > a {
                assert(char_is_whitespace(s@[e - 1]));
            }
            assert(trim_of(s@) =~= Seq::<char>::empty());
        }
        Vec::new()
    } else {
        proof {
            lemma_trim_end_idx_is(s@, b as int);
        }
        subvec(s, a, b)
    }
}

// ---------------------------------------------------------------------------
// Decimal rendering
// ---------------------------------------------------------------------------

/// The decimal digit character for `d`.
pub open spec fn dec_digit(d: nat) -> char {
    if d == 0 {
        '0'
    } else if d == 1 {
        '1'
    } else if d == 2 {
        '2'
    } else if d == 3 {
        '3'
    } else if d == 4 {
        '4'
    } else if d == 5 {
        '5'
    } else if d == 6 {
        '6'
    } else if d == 7 {
        '7'
    } else if d == 8 {
        '8'
    } else {
        '9'
    }
}

/// The decimal rendering of `n`, most significant digit first.
pub open spec fn dec_str(n: nat) -> Seq<char>
    decreases n,
{
    if n < 10 {
        seq![dec_digit(n)]
    } else {
        dec_str(n / 10).push(dec_digit(n % 10))
    }
}

fn dec_digit_char(d: usize) -> (c: char)
    requires
        d < 10,
    ensures
        c == dec_digit(d as nat),
{
    if d == 0 {
        '0'
    } else if d == 1 {
        '1'
    } else if d == 2 {
        '2'
    } else if d == 3 {
        '3'
    } else if d == 4 {
        '4'
    } else if d == 5 {
        '5'
    } else if d == 6 {
        '6'
    } else if d == 7 {
        '7'
    } else if d == 8 {
        '8'
    } else {
        '9'
    }
}

pub proof fn lemma_dec_str_len(n: nat)
    ensures
        dec_str(n).len() >= 1,
    decreases n,
{
    if n >= 10 {
        lemma_dec_str_len(n / 10);
    }
}

/// Renders `n` in decimal.
pub fn usize_to_chars(n: usize) -> (v: Vec<char>)
    ensures
        v@ == dec_str(n as nat),
    decreases n,
{
    if n < 10 {
        let mut v: Vec<char> = Vec::new();
        v.push(dec_digit_char(n));
        proof {
            assert(v@ =~= dec_str(n as nat));
        }
        v
    } else {
        let mut v = usize_to_chars(n / 10);
        v.push(dec_digit_char(n % 10));
        v
    }
}

} // verus!
