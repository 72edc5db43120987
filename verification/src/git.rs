//! Text handling for messages that git hands the linter: cutting off the
//! verbose diff that `git commit --verbose` appends below a scissors line.
use crate::text::join_nl;
use crate::text::lines_of;
use crate::text::append_str;
use crate::text::chars_of;
use crate::text::join_lines;
use crate::text::split_lines;
use crate::text::string_of;
use crate::text::vec_eq_vec;
use vstd::prelude::*;
use vstd::string::StringExecFns;

verus! {

/// The scissors line that a comment character opens: everything from this
/// line on is the verbose diff.
pub open spec fn spec_cut_line(comment_char: Seq<char>) -> Seq<char> {
    comment_char + " ------------------------ >8 ------------------------"@
}

/// The first line equal to `t` at or after `i`, if any.
pub open spec fn find_line_eq(ls: Seq<Seq<char>>, t: Seq<char>, i: int) -> Option<int>
    decreases ls.len() - i,
{
    if !(0 <= i < ls.len()) {
        None
    } else if ls[i] == t {
        Some(i)
    } else {
        find_line_eq(ls, t, i + 1)
    }
}

/// The message with everything from the scissors line on removed: the lines
/// before that line, joined back together. A message without a scissors
/// line is returned whole.
pub open spec fn spec_remove_verbose_output(msg: Seq<char>, comment_char: Seq<char>) -> Seq<
    char,
> {
    let ls = lines_of(msg);
    match find_line_eq(ls, spec_cut_line(comment_char), 0) {
        Some(i) => join_nl(ls.take(i)),
        None => msg,
    }
}

/// Cuts the verbose diff off a commit message: everything from the line
/// `<comment_char> ------------------------ >8 ------------------------`
/// on is dropped; a message without that line is returned unchanged.
pub fn remove_verbose_output(commit_message: &str, comment_char: &str) -> (r: String)
    ensures
        r@ == spec_remove_verbose_output(commit_message@, comment_char@),
{
    let msg = chars_of(commit_message);
    let lines = split_lines(&msg);
    let mut cut: Vec<char> = chars_of(comment_char);
    append_str(&mut cut, " ------------------------ >8 ------------------------");
    let ghost ls = lines_of(commit_message@);
    let mut i: usize = 0;
    while i < lines.len()
        invariant
            i <= lines@.len(),
            lines.deep_view() == ls,
            cut@ == spec_cut_line(comment_char@),
            forall|j: int| 0 <= j < i ==> ls[j] != cut@,
            find_line_eq(ls, cut@, 0) == find_line_eq(ls, cut@, i as int),
        decreases lines@.len() - i,
    {
        if vec_eq_vec(&lines[i], &cut) {
            proof {
                assert(lines@[i as int].deep_view() =~= lines@[i as int]@);
                assert(find_line_eq(ls, cut@, i as int) == Some(i as int));
            }
            let kept = crate::text::take_lines(&lines, i);
            proof {
                assert(kept.deep_view() =~~= ls.take(i as int));
            }
            let joined = join_lines(&kept);
            let out = string_of(&joined);
            proof {
                assert(find_line_eq(ls, cut@, 0) == Some(i as int));
            }
            return out;
        }
        proof {
            assert(lines@[i as int].deep_view() =~= lines@[i as int]@);
        }
        i = i + 1;
    }
    String::from_str(commit_message)
}

} // verus!
