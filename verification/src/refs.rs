//! The reference extractor: scans every line of a message for issue or
//! pull-request numbers (`#` followed by digits) and for word-bounded
//! hexadecimal tokens of commit-hash length, in first-seen order.
use crate::outside::char_is_alphanumeric;
use crate::outside::is_alphanumeric_char;
use crate::text::lines_of;
use crate::text::scan_while;
use crate::text::lemma_scan_while;
use crate::text::lemma_scan_while_is;
use crate::text::split_lines;
use crate::text::string_of;
use crate::text::subvec;
use vstd::prelude::*;

verus! {

/// An ASCII decimal digit.
pub open spec fn is_ascii_digit(c: char) -> bool {
    '0' <= c && c <= '9'
}

/// A lowercase hexadecimal digit, as commit hashes are written.
pub open spec fn is_hex_digit(c: char) -> bool {
    is_ascii_digit(c) || ('a' <= c && c <= 'f')
}

/// A word character, for the word boundaries around a hash-like token.
pub open spec fn is_word_char(c: char) -> bool {
    char_is_alphanumeric(c) || c == '_'
}

/// The end of the run of decimal digits starting at `i`.
pub open spec fn digits_end(s: Seq<char>, i: int) -> int {
    scan_while(s, i, |c: char| is_ascii_digit(c))
}

/// The end of the run of hexadecimal digits starting at `i`.
pub open spec fn hex_end(s: Seq<char>, i: int) -> int {
    scan_while(s, i, |c: char| is_hex_digit(c))
}

/// Whether an issue-number token `#<digits>` starts at `i`.
pub open spec fn hash_match_at(s: Seq<char>, i: int) -> bool {
    0 <= i < s.len() && s[i] == '#' && i + 1 < s.len() && is_ascii_digit(s[i + 1])
}

/// Whether a word-bounded hexadecimal token of 7 to 40 characters starts at
/// `i`: the maximal hexadecimal run there has that length and word
/// characters stand on neither side of it.
pub open spec fn hex_match_at(s: Seq<char>, i: int) -> bool {
    &&& 0 <= i < s.len()
    &&& is_hex_digit(s[i])
    &&& (i == 0 || !is_word_char(s[i - 1]))
    &&& 7 <= hex_end(s, i) - i <= 40
    &&& (hex_end(s, i) == s.len() || !is_word_char(s[hex_end(s, i)]))
}

/// The reference tokens of one line from position `i` on, leftmost first;
/// a found token is skipped whole before scanning goes on.
pub open spec fn refs_from(s: Seq<char>, i: int) -> Seq<Seq<char>>
    decreases s.len() - i,
        when 0 <= i
        via refs_from_decreases
{
    if !(0 <= i < s.len()) {
        seq![]
    } else if hash_match_at(s, i) {
        seq![s.subrange(i, digits_end(s, i + 1))] + refs_from(s, digits_end(s, i + 1))
    } else if hex_match_at(s, i) {
        seq![s.subrange(i, hex_end(s, i))] + refs_from(s, hex_end(s, i))
    } else {
        refs_from(s, i + 1)
    }
}

#[via_fn]
proof fn refs_from_decreases(s: Seq<char>, i: int) {
    if 0 <= i < s.len() {
        if hash_match_at(s, i) {
            lemma_scan_while(s, i + 1, |c: char| is_ascii_digit(c));
        } else if hex_match_at(s, i) {
            lemma_scan_while(s, i, |c: char| is_hex_digit(c));
            assert(hex_end(s, i) - i >= 7);
        }
    }
}

/// The reference tokens of a list of lines, line by line.
pub open spec fn refs_of_lines(lines: Seq<Seq<char>>) -> Seq<Seq<char>>
    decreases lines.len(),
{
    if lines.len() == 0 {
        seq![]
    } else {
        refs_of_lines(lines.drop_last()) + refs_from(lines.last(), 0)
    }
}

/// All references of a message, in line order then left-to-right order;
/// a message without any yields nothing rather than an empty list.
pub open spec fn spec_extract_references(msg: Seq<char>) -> Option<Seq<Seq<char>>> {
    let all = refs_of_lines(lines_of(msg));
    if all.len() == 0 {
        None
    } else {
        Some(all)
    }
}

fn is_word_char_exec(c: char) -> (r: bool)
    ensures
        r == is_word_char(c),
{
    is_alphanumeric_char(c) || c == '_'
}

fn digits_end_exec(s: &Vec<char>, i: usize) -> (e: usize)
    requires
        i <= s@.len(),
    ensures
        e as int == digits_end(s@, i as int),
        i <= e <= s@.len(),
{
    let mut j = i;
    while j < s.len() && '0' <= s[j] && s[j] <= '9'
        invariant
            i <= j <= s@.len(),
            forall|k: int| i <= k < j ==> is_ascii_digit(s@[k]),
        decreases s@.len() - j,
    {
        j = j + 1;
    }
    proof {
        lemma_scan_while_is(s@, i as int, |c: char| is_ascii_digit(c), j as int);
    }
    j
}

fn hex_end_exec(s: &Vec<char>, i: usize) -> (e: usize)
    requires
        i <= s@.len(),
    ensures
        e as int == hex_end(s@, i as int),
        i <= e <= s@.len(),
{
    let mut j = i;
    while j < s.len() && (('0' <= s[j] && s[j] <= '9') || ('a' <= s[j] && s[j] <= 'f'))
        invariant
            i <= j <= s@.len(),
            forall|k: int| i <= k < j ==> is_hex_digit(s@[k]),
        decreases s@.len() - j,
    {
        j = j + 1;
    }
    proof {
        lemma_scan_while_is(s@, i as int, |c: char| is_hex_digit(c), j as int);
    }
    j
}

/// Collects the reference tokens of one line, leftmost first.
fn refs_of_line(s: &Vec<char>) -> (r: Vec<Vec<char>>)
    ensures
        r.deep_view() == refs_from(s@, 0),
{
    let mut r: Vec<Vec<char>> = Vec::new();
    proof {
        assert(r.deep_view() =~~= Seq::<Seq<char>>::empty());
    }
    let mut i: usize = 0;
    while i < s.len()
        invariant
            i <= s@.len(),
            refs_from(s@, 0) == r.deep_view() + refs_from(s@, i as int),
        decreases s@.len() - i,
    {
        let ghost acc0 = r.deep_view();
        if s[i] == '#' && i + 1 < s.len() && '0' <= s[i + 1] && s[i + 1] <= '9' {
            let e = digits_end_exec(s, i + 1);
            let tok = subvec(s, i, e);
            proof {
                assert(tok.deep_view() =~= tok@);
            }
            r.push(tok);
            proof {
                assert(r.deep_view() =~~= acc0 + seq![s@.subrange(i as int, e as int)]);
            }
            i = e;
        } else {
            let is_hex_here = ('0' <= s[i] && s[i] <= '9') || ('a' <= s[i] && s[i] <= 'f');
            let boundary_before = i == 0 || !is_word_char_exec(s[i - 1]);
            if is_hex_here && boundary_before {
                let e = hex_end_exec(s, i);
                let run = e - i;
                let boundary_after = e == s.len() || !is_word_char_exec(s[e]);
                if 7 <= run && run <= 40 && boundary_after {
                    proof {
                        assert(hex_match_at(s@, i as int));
                    }
                    let tok = subvec(s, i, e);
                    proof {
                        assert(tok.deep_view() =~= tok@);
                    }
                    r.push(tok);
                    proof {
                        assert(r.deep_view() =~~= acc0 + seq![s@.subrange(i as int, e as int)]);
                    }
                    i = e;
                } else {
                    proof {
                        assert(!hash_match_at(s@, i as int));
                        assert(!hex_match_at(s@, i as int));
                    }
                    i = i + 1;
                }
            } else {
                proof {
                    assert(!hash_match_at(s@, i as int));
                    assert(!hex_match_at(s@, i as int));
                }
                i = i + 1;
            }
        }
    }
    r
}

/// Scans every line of a message for issue numbers and hash-like tokens and
/// returns them in first-seen order, or nothing when there are none.
pub fn extract_references(commit: &Vec<char>) -> (r: Option<Vec<String>>)
    ensures
        (match r {
            Some(v) => spec_extract_references(commit@) == Some(v.deep_view()) && v@.len() > 0,
            None => spec_extract_references(commit@) is None,
        }),
{
    let ghost ls = lines_of(commit@);
    let lines = split_lines(commit);
    let mut out: Vec<String> = Vec::new();
    proof {
        assert(out.deep_view() =~~= Seq::<Seq<char>>::empty());
        assert(ls.take(0) =~= Seq::<Seq<char>>::empty());
    }
    let mut k: usize = 0;
    while k < lines.len()
        invariant
            k <= lines@.len(),
            lines.deep_view() == ls,
            out.deep_view() == refs_of_lines(ls.take(k as int)),
        decreases lines@.len() - k,
    {
        let found = refs_of_line(&lines[k]);
        proof {
            assert(lines@[k as int].deep_view() =~= lines@[k as int]@);
        }
        let mut t: usize = 0;
        let ghost base = out.deep_view();
        while t < found.len()
            invariant
                t <= found@.len(),
                found.deep_view() == refs_from(ls[k as int], 0),
                k < lines@.len(),
                out.deep_view() == base + found.deep_view().take(t as int),
            decreases found@.len() - t,
        {
            let sref = string_of(&found[t]);
            proof {
                assert(found@[t as int].deep_view() =~= found@[t as int]@);
            }
            let ghost prevd = out.deep_view();
            out.push(sref);
            t = t + 1;
            proof {
                let fd = found.deep_view();
                assert(out.deep_view() =~~= prevd + seq![fd[t as int - 1]]);
                assert(fd.take(t as int) =~= fd.take(t as int - 1) + seq![fd[t as int - 1]]);
                assert(out.deep_view() =~= base + fd.take(t as int));
            }
        }
        k = k + 1;
        proof {
            assert(found.deep_view().take(found@.len() as int) =~= found.deep_view());
            assert(ls.take(k as int).drop_last() =~= ls.take(k as int - 1));
            assert(ls.take(k as int).last() == ls[k as int - 1]);
            assert(out.deep_view() =~~= refs_of_lines(ls.take(k as int)));
        }
    }
    proof {
        assert(ls.take(lines@.len() as int) =~= ls);
    }
    if out.len() == 0 {
        proof {
            assert(refs_of_lines(ls).len() == 0);
        }
        None
    } else {
        Some(out)
    }
}

} // verus!
