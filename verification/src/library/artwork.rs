use crate::text::push_char;
use vstd::prelude::*;
use vstd::string::StrSliceExecFns;

verus! {

/// What became of the search for one album's cover.
#[derive(Debug, Clone)]
pub enum ArtworkEvent {
    Found { artist: String, album: String, data: Vec<u8> },
    NotFound { artist: String, album: String },
    Written { path: String },
    Error { artist: String, album: String, error: String },
}

/// The kinds of picture that are told apart by their first bytes.
#[derive(Debug, Clone, Copy, PartialEq, Eq, Structural)]
pub enum ImageKind {
    Jpeg,
    Png,
    Gif,
    WebP,
}

/// Picture data of fewer than eight bytes cannot be told apart.
#[derive(Debug, Clone, Copy, PartialEq, Eq, Structural)]
pub enum ImageError {
    TooSmall,
}

/// Whether the character has a meaning in a Lucene query and must be
/// escaped to stand for itself.
pub open spec fn is_special(c: char) -> bool {
    c == '+' || c == '-' || c == '&' || c == '|' || c == '!' || c == '(' || c == ')' || c == '{'
        || c == '}' || c == '[' || c == ']' || c == '^' || c == '"' || c == '~' || c == '*' || c
        == '?' || c == ':' || c == '\\' || c == '/'
}

/// The text with a backslash in front of every special character.
pub open spec fn sanitized(s: Seq<char>) -> Seq<char>
    decreases s.len(),
{
    if s.len() == 0 {
        s
    } else if is_special(s.last()) {
        sanitized(s.drop_last()).push('\\').push(s.last())
    } else {
        sanitized(s.drop_last()).push(s.last())
    }
}

fn special(c: char) -> (r: bool)
    ensures
        r == is_special(c),
{
    c == '+' || c == '-' || c == '&' || c == '|' || c == '!' || c == '(' || c == ')' || c == '{'
        || c == '}' || c == '[' || c == ']' || c == '^' || c == '"' || c == '~' || c == '*' || c
        == '?' || c == ':' || c == '\\' || c == '/'
}

/// Makes a text safe for use inside a Lucene query: every character with a
/// meaning of its own in such a query is escaped.
pub fn sanitize_query(s: &str) -> (result: String)
    ensures
        result@ == sanitized(s@),
{
    let mut result = String::new();
    let n = s.unicode_len();
    let mut i: usize = 0;
    assert(s@.subrange(0, 0) =~= Seq::<char>::empty());
    while i < n
        invariant
            n == s@.len(),
            i <= n,
            result@ == sanitized(s@.subrange(0, i as int)),
        decreases n - i,
    {
        let c = s.get_char(i);
        proof {
            let next = s@.subrange(0, i + 1);
            assert(next.drop_last() =~= s@.subrange(0, i as int));
            assert(next.last() == c);
        }
        if special(c) {
            push_char(&mut result, '\\');
        }
        push_char(&mut result, c);
        i += 1;
    }
    assert(s@.subrange(0, n as int) =~= s@);
    result
}

/// Escaping only ever adds characters, and a text without special
/// characters is left as it is.
pub proof fn lemma_sanitized_len(s: Seq<char>)
    ensures
        s.len() <= sanitized(s).len() <= 2 * s.len(),
        (forall|i: int| 0 <= i < s.len() ==> !is_special(s[i])) ==> sanitized(s) == s,
    decreases s.len(),
{
    if s.len() > 0 {
        lemma_sanitized_len(s.drop_last());
        if forall|i: int| 0 <= i < s.len() ==> !is_special(s[i]) {
            assert forall|i: int| 0 <= i < s.drop_last().len() implies !is_special(
                s.drop_last()[i],
            ) by {
                assert(s.drop_last()[i] == s[i]);
            }
            assert(sanitized(s) =~= s);
        }
    }
}

/// Whether `data` begins with the bytes of `magic`.
pub open spec fn starts_with(data: Seq<u8>, magic: Seq<u8>) -> bool {
    data.len() >= magic.len() && data.subrange(0, magic.len() as int) == magic
}

/// The kind of picture that the first bytes announce: the signatures of
/// JPEG, PNG, GIF and WebP are known, anything else is taken for JPEG.
pub open spec fn kind_of(data: Seq<u8>) -> ImageKind {
    if starts_with(data, seq![0xFFu8, 0xD8, 0xFF]) {
        ImageKind::Jpeg
    } else if starts_with(data, seq![0x89u8, 0x50, 0x4E, 0x47, 0x0D, 0x0A, 0x1A, 0x0A]) {
        ImageKind::Png
    } else if starts_with(data, seq![0x47u8, 0x49, 0x46, 0x38, 0x37, 0x61]) || starts_with(
        data,
        seq![0x47u8, 0x49, 0x46, 0x38, 0x39, 0x61],
    ) {
        ImageKind::Gif
    } else if starts_with(data, seq![0x52u8, 0x49, 0x46, 0x46]) && data.len() > 12
        && data.subrange(8, 12) == seq![0x57u8, 0x45, 0x42, 0x50] {
        ImageKind::WebP
    } else {
        ImageKind::Jpeg
    }
}

/// Tells the kind of a picture from its first bytes.
pub fn detect_mime_type(data: &[u8]) -> (result: Result<ImageKind, ImageError>)
    ensures
        data@.len() < 8 ==> result == Err::<ImageKind, ImageError>(ImageError::TooSmall),
        data@.len() >= 8 ==> result == Ok::<ImageKind, ImageError>(kind_of(data@)),
{
    if data.len() < 8 {
        return Err(ImageError::TooSmall);
    }
    let ghost d = data@;
    if data[0] == 0xFF && data[1] == 0xD8 && data[2] == 0xFF {
        assert(d.subrange(0, 3) =~= seq![0xFFu8, 0xD8, 0xFF]);
        return Ok(ImageKind::Jpeg);
    }
    assert(d.subrange(0, 3) != seq![0xFFu8, 0xD8, 0xFF]) by {
        let p = d.subrange(0, 3);
        assert(p[0] == d[0] && p[1] == d[1] && p[2] == d[2]);
    }
    if data[0] == 0x89 && data[1] == 0x50 && data[2] == 0x4E && data[3] == 0x47 && data[4] == 0x0D
        && data[5] == 0x0A && data[6] == 0x1A && data[7] == 0x0A {
        assert(d.subrange(0, 8) =~= seq![0x89u8, 0x50, 0x4E, 0x47, 0x0D, 0x0A, 0x1A, 0x0A]);
        return Ok(ImageKind::Png);
    }
    assert(d.subrange(0, 8) != seq![0x89u8, 0x50, 0x4E, 0x47, 0x0D, 0x0A, 0x1A, 0x0A]) by {
        let p = d.subrange(0, 8);
        assert(p[0] == d[0] && p[1] == d[1] && p[2] == d[2] && p[3] == d[3] && p[4] == d[4] && p[5]
            == d[5] && p[6] == d[6] && p[7] == d[7]);
    }
    if data[0] == 0x47 && data[1] == 0x49 && data[2] == 0x46 && data[3] == 0x38 && (data[4] == 0x37
        || data[4] == 0x39) && data[5] == 0x61 {
        assert(d.subrange(0, 6) =~= seq![0x47u8, 0x49, 0x46, 0x38, 0x37, 0x61] || d.subrange(0, 6)
            =~= seq![0x47u8, 0x49, 0x46, 0x38, 0x39, 0x61]);
        return Ok(ImageKind::Gif);
    }
    assert(d.subrange(0, 6) != seq![0x47u8, 0x49, 0x46, 0x38, 0x37, 0x61] && d.subrange(0, 6)
        != seq![0x47u8, 0x49, 0x46, 0x38, 0x39, 0x61]) by {
        let p = d.subrange(0, 6);
        assert(p[0] == d[0] && p[1] == d[1] && p[2] == d[2] && p[3] == d[3] && p[4] == d[4] && p[5]
            == d[5]);
    }
    if data[0] == 0x52 && data[1] == 0x49 && data[2] == 0x46 && data[3] == 0x46 && data.len() > 12
        && data[8] == 0x57 && data[9] == 0x45 && data[10] == 0x42 && data[11] == 0x50 {
        assert(d.subrange(0, 4) =~= seq![0x52u8, 0x49, 0x46, 0x46]);
        assert(d.subrange(8, 12) =~= seq![0x57u8, 0x45, 0x42, 0x50]);
        return Ok(ImageKind::WebP);
    }
    assert(!(d.subrange(0, 4) == seq![0x52u8, 0x49, 0x46, 0x46] && d.len() > 12 && d.subrange(8, 12)
        == seq![0x57u8, 0x45, 0x42, 0x50])) by {
        let p = d.subrange(0, 4);
        assert(p[0] == d[0] && p[1] == d[1] && p[2] == d[2] && p[3] == d[3]);
        if d.len() > 12 {
            let q = d.subrange(8, 12);
            assert(q[0] == d[8] && q[1] == d[9] && q[2] == d[10] && q[3] == d[11]);
        }
    }
    Ok(ImageKind::Jpeg)
}

} // verus!
