//! Entity tags, and their weak and strong comparison.

use crate::text::same_text;
use vstd::prelude::*;
use vstd::string::StrSliceExecFns;

verus! {

/// A weak tag begins with `W/"`.
pub open spec fn spec_is_weak(tag: Seq<char>) -> bool {
    tag.len() >= 3 && tag[0] == 'W' && tag[1] == '/' && tag[2] == '"'
}

/// A strong tag begins with `"`.
pub open spec fn spec_is_strong(tag: Seq<char>) -> bool {
    tag.len() >= 1 && tag[0] == '"'
}

/// The quoted part of a tag: a weak tag without its `W/`, any other text as it is.
pub open spec fn spec_opaque_tag(tag: Seq<char>) -> Seq<char> {
    if spec_is_weak(tag) {
        tag.skip(2)
    } else {
        tag
    }
}

/// Weak comparison: the opaque parts are the same, whatever the marking.
pub open spec fn spec_weak_match(a: Seq<char>, b: Seq<char>) -> bool {
    spec_opaque_tag(a) == spec_opaque_tag(b)
}

/// Strong comparison: both tags are strong and they are the same text.
pub open spec fn spec_strong_match(a: Seq<char>, b: Seq<char>) -> bool {
    spec_is_strong(a) && spec_is_strong(b) && a == b
}

/// Whether `etag` is a weak tag.
pub fn is_weak(etag: &str) -> (r: bool)
    ensures
        r == spec_is_weak(etag@),
{
    let n = etag.unicode_len();
    n >= 3 && etag.get_char(0) == 'W' && etag.get_char(1) == '/' && etag.get_char(2) == '"'
}

/// Whether `etag` is a strong tag.
pub fn is_strong(etag: &str) -> (r: bool)
    ensures
        r == spec_is_strong(etag@),
{
    let n = etag.unicode_len();
    n >= 1 && etag.get_char(0) == '"'
}

/// The quoted part of `etag`.
pub fn opaque_tag(etag: &str) -> (r: &str)
    ensures
        r@ == spec_opaque_tag(etag@),
{
    if is_weak(etag) {
        let n = etag.unicode_len();
        etag.substring_char(2, n)
    } else {
        etag
    }
}

/// Whether `a` and `b` match under weak comparison.
pub fn weak_match(a: &str, b: &str) -> (r: bool)
    ensures
        r == spec_weak_match(a@, b@),
{
    same_text(opaque_tag(a), opaque_tag(b))
}

/// Whether `a` and `b` match under strong comparison.
pub fn strong_match(a: &str, b: &str) -> (r: bool)
    ensures
        r == spec_strong_match(a@, b@),
{
    is_strong(a) && is_strong(b) && same_text(a, b)
}

/// A tag that matches another under strong comparison matches it under
/// weak comparison, and both comparisons are symmetric.
pub proof fn strong_match_is_the_finer(a: Seq<char>, b: Seq<char>)
    ensures
        spec_strong_match(a, b) ==> spec_weak_match(a, b),
        spec_strong_match(a, b) == spec_strong_match(b, a),
        spec_weak_match(a, b) == spec_weak_match(b, a),
{
}

} // verus!
