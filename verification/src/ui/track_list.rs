use vstd::prelude::*;
use vstd::string::StrSliceExecFns;
use vstd::string::StringExecFns;

verus! {

/// `s` cut to at most `max_len` characters; a text that is too long ends in
/// an ellipsis where `max_len` leaves room for one.
pub open spec fn truncated(s: Seq<char>, max_len: int) -> Seq<char> {
    if s.len() <= max_len {
        s
    } else if max_len > 3 {
        s.subrange(0, max_len - 3) + "..."@
    } else {
        s.subrange(0, max_len)
    }
}

/// `s` cut to at most `max_len` characters for a column of the track list.
pub fn truncate(s: &str, max_len: usize) -> (text: String)
    ensures
        text@ == truncated(s@, max_len as int),
{
    let len = s.unicode_len();
    if len <= max_len {
        String::from_str(s)
    } else if max_len > 3 {
        String::from_str(s.substring_char(0, max_len - 3)).concat("...")
    } else {
        String::from_str(s.substring_char(0, max_len))
    }
}

/// A truncated text is never longer than asked for, and a text that fits is
/// left as it is.
pub proof fn lemma_truncated_fits(s: Seq<char>, max_len: int)
    requires
        0 <= max_len,
    ensures
        truncated(s, max_len).len() <= max_len || truncated(s, max_len) == s,
        s.len() <= max_len ==> truncated(s, max_len) == s,
        s.len() > max_len ==> truncated(s, max_len).len() == max_len,
{
    reveal_strlit("...");
}

} // verus!
