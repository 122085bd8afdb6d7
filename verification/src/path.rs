//! From the path of a request to the keys under which a resource is stored.

use crate::message::Request;
use crate::text::chars_of;
use vstd::prelude::*;
use vstd::string::StringExecFns;

verus! {

/// The page that stands for a directory.
pub const INDEX: &'static str = "index.html";

/// The page that stands for a directory, after the `/` that a path without
/// one lacks.
pub const SLASH_INDEX: &'static str = "/index.html";

/// What follows the key of a resource in the key of its metadata.
pub const METADATA_SUFFIX: &'static str = "__metadata__";

/// The key of the content that `path` asks for: a path that ends in `/`
/// names the index page under it, a path without a `.` the index page of
/// the directory it names, and any other path names itself. The first of
/// these rules that applies is the one that counts.
pub open spec fn spec_content_key(path: Seq<char>) -> Seq<char> {
    if path.len() > 0 && path.last() == '/' {
        path + INDEX@
    } else if !path.contains('.') {
        path + SLASH_INDEX@
    } else {
        path
    }
}

/// The key of the metadata that belongs to the content that `path` asks for.
pub open spec fn spec_metadata_key(path: Seq<char>) -> Seq<char> {
    spec_content_key(path) + METADATA_SUFFIX@
}

/// Whether a `.` stands among the characters.
fn has_dot(chars: &Vec<char>) -> (r: bool)
    ensures
        r == chars@.contains('.'),
{
    let mut i: usize = 0;
    while i < chars.len()
        invariant
            i <= chars.len(),
            forall|k: int| 0 <= k < i ==> chars@[k] != '.',
        decreases chars.len() - i,
    {
        if chars[i] == '.' {
            return true;
        }
        i += 1;
    }
    false
}

/// The key of the content that `path` asks for.
pub fn content_key(path: &str) -> (key: String)
    ensures
        key@ == spec_content_key(path@),
{
    let chars = chars_of(path);
    let n = chars.len();
    let mut key = path.to_owned();
    if n > 0 && chars[n - 1] == '/' {
        key.append(INDEX);
    } else if !has_dot(&chars) {
        key.append(SLASH_INDEX);
    }
    key
}

/// The key of the metadata that belongs to the content that `path` asks
/// for.
pub fn metadata_key(path: &str) -> (key: String)
    ensures
        key@ == spec_metadata_key(path@),
{
    let mut key = content_key(path);
    key.append(METADATA_SUFFIX);
    key
}

/// The two keys under which a resource is stored.
#[derive(Clone, Debug, PartialEq, Eq)]
pub struct Keys {
    pub content: String,
    pub metadata: String,
}

/// The keys to look up for `request`; `None` for a method other than GET
/// and HEAD, which is not served.
pub fn keys(request: &Request) -> (r: Option<Keys>)
    ensures
        r is Some <==> request.method.spec_is_get_or_head(),
        r matches Some(k) ==> k.content@ == spec_content_key(request.path@) && k.metadata@
            == spec_metadata_key(request.path@),
{
    if request.method.is_get_or_head() {
        Some(
            Keys {
                content: content_key(request.path.as_str()),
                metadata: metadata_key(request.path.as_str()),
            },
        )
    } else {
        None
    }
}

} // verus!
