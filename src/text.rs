use vstd::prelude::*;
use vstd::string::StrSliceExecFns;

verus! {

/// Longest video description or comment text, in characters.
pub const TEXT_LENGTH: usize = 1024;

/// Longest display name, in characters.
pub const USER_NAME_LENGTH: usize = 100;

/// Longest profile or creator URL, in characters.
pub const USER_URL_LENGTH: usize = 255;

/// Longest media URL, in characters.
pub const VIDEO_URL_LENGTH: usize = 255;

/// The Unicode `White_Space` property, the set of characters that
/// `str::trim` removes from both ends.
pub open spec fn is_white_space(c: char) -> bool {
    let u = c as u32;
    (0x9 <= u && u <= 0xd) || u == 0x20 || u == 0x85 || u == 0xa0 || u == 0x1680
        || (0x2000 <= u && u <= 0x200a) || u == 0x2028 || u == 0x2029 || u == 0x202f
        || u == 0x205f || u == 0x3000
}

/// A text is blank when trimming it leaves nothing: every character is white space.
pub open spec fn blank(s: Seq<char>) -> bool {
    forall|i: int| 0 <= i < s.len() ==> is_white_space(#[trigger] s[i])
}

/// Whether `c` is a white-space character.
pub fn white_space(c: char) -> (r: bool)
    ensures
        r == is_white_space(c),
{
    let u = c as u32;
    (0x9 <= u && u <= 0xd) || u == 0x20 || u == 0x85 || u == 0xa0 || u == 0x1680
        || (0x2000 <= u && u <= 0x200a) || u == 0x2028 || u == 0x2029 || u == 0x202f
        || u == 0x205f || u == 0x3000
}

/// Whether `text` is empty or white space only, the inputs that a required
/// text field refuses. The text itself is stored untrimmed.
pub fn is_blank(text: &str) -> (r: bool)
    ensures
        r == blank(text@),
{
    let n = text.unicode_len();
    let mut i: usize = 0;
    while i < n
        invariant
            n == text@.len(),
            i <= n,
            forall|j: int| 0 <= j < i ==> is_white_space(#[trigger] text@[j]),
        decreases n - i,
    {
        let c = text.get_char(i);
        if !white_space(c) {
            return false;
        }
        i = i + 1;
    }
    true
}

/// Whether `text` holds at most `max` characters.
pub fn fits(text: &str, max: usize) -> (r: bool)
    ensures
        r == (text@.len() <= max),
{
    text.unicode_len() <= max
}

} // verus!
