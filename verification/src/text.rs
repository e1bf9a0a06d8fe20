//! Small helpers on text that message composition is built from.

use vstd::prelude::*;
use vstd::string::*;

verus! {

/// `s`, followed by a line feed unless it already ends in one.
pub open spec fn with_line_end(s: Seq<char>) -> Seq<char> {
    if s.len() > 0 && s.last() == '\n' {
        s
    } else {
        s.push('\n')
    }
}

/// Appends `s` to `buf` and makes sure that the appended text ends the line.
pub fn ensure_lf(buf: &mut String, s: &str)
    ensures
        final(buf)@ == old(buf)@ + with_line_end(s@),
{
    buf.append(s);
    let n: usize = s.unicode_len();
    if n == 0 || s.get_char(n - 1) != '\n' {
        proof {
            reveal_strlit("\n");
        }
        buf.append("\n");
        assert(buf@ =~= old(buf)@ + s@.push('\n'));
    }
}

/// Whether two pieces of text hold the same characters.
pub fn same_text(a: &str, b: &str) -> (same: bool)
    ensures
        same == (a@ == b@),
{
    let left = a.to_owned();
    let right = b.to_owned();
    left == right
}

} // verus!
