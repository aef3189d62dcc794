//! The media-category test on MIME type strings.
//!
//! A detected MIME type counts as media exactly when it starts with one of
//! the three recognised category prefixes, compared case-sensitively.

use vstd::prelude::*;

verus! {

use vstd::string::StrSliceExecFns;

/// `p` is an initial segment of `s`.
pub open spec fn has_prefix(s: Seq<char>, p: Seq<char>) -> bool {
    p.len() <= s.len() && s.subrange(0, p.len() as int) == p
}

/// A MIME type names one of the three media categories exactly when it
/// starts with "audio", "image" or "video".
pub open spec fn is_media_mime(s: Seq<char>) -> bool {
    has_prefix(s, "audio"@) || has_prefix(s, "image"@) || has_prefix(s, "video"@)
}

/// Case-sensitive prefix test on character content.
pub fn str_has_prefix(s: &str, p: &str) -> (b: bool)
    ensures
        b == has_prefix(s@, p@),
{
    let n = p.unicode_len();
    let m = s.unicode_len();
    if m < n {
        return false;
    }
    let mut i: usize = 0;
    while i < n
        invariant
            0 <= i <= n,
            n == p@.len(),
            n <= s@.len(),
            forall|j: int| 0 <= j < i ==> s@[j] == p@[j],
        decreases n - i,
    {
        if s.get_char(i) != p.get_char(i) {
            assert(s@.subrange(0, p@.len() as int)[i as int] == s@[i as int]);
            return false;
        }
        i += 1;
    }
    assert(s@.subrange(0, p@.len() as int) =~= p@);
    true
}

/// Decides media membership of a detected MIME type by its category prefix.
pub fn mime_is_media(mime: &str) -> (b: bool)
    ensures
        b == is_media_mime(mime@),
{
    str_has_prefix(mime, "audio") || str_has_prefix(mime, "image") || str_has_prefix(mime, "video")
}

} // verus!
