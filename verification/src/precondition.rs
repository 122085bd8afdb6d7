//! The conditional request headers, evaluated in the order that RFC 9110
//! section 13.2.2 lays down.

use crate::date::http_date_seconds;
use crate::date::parse_http_date;
use crate::etag::spec_strong_match;
use crate::etag::spec_weak_match;
use crate::etag::strong_match;
use crate::etag::weak_match;
use crate::list::spec_split_list;
use crate::list::split_list;
use crate::list::texts;
use crate::message::spec_bare;
use crate::message::spec_reply;
use crate::message::spec_with_validators;
use crate::message::Metadata;
use crate::message::MetadataView;
use crate::message::Request;
use crate::message::RequestView;
use crate::message::Response;
use crate::message::ResponseView;
use crate::text::same_text;
use vstd::prelude::*;

verus! {

/// The header value that stands for any current representation.
pub open spec fn spec_any() -> Seq<char> {
    seq!['*']
}

/// Whether one of `tags` matches `etag` under strong comparison.
pub open spec fn spec_any_strong_match(tags: Seq<Seq<char>>, etag: Seq<char>) -> bool {
    exists|i: int| 0 <= i < tags.len() && spec_strong_match(#[trigger] tags[i], etag)
}

/// Whether one of `tags` matches `etag` under weak comparison.
pub open spec fn spec_any_weak_match(tags: Seq<Seq<char>>, etag: Seq<char>) -> bool {
    exists|i: int| 0 <= i < tags.len() && spec_weak_match(#[trigger] tags[i], etag)
}

/// `If-Match` holds for `*`, and for a list with a tag that matches the
/// resource's entity tag under strong comparison.
pub open spec fn spec_if_match(metadata: MetadataView, header: Seq<char>) -> bool {
    header == spec_any() || spec_any_strong_match(spec_split_list(header), metadata.etag)
}

/// `If-None-Match` fails for `*`, and for a list with a tag that matches the
/// resource's entity tag under weak comparison.
pub open spec fn spec_if_none_match(metadata: MetadataView, header: Seq<char>) -> bool {
    !(header == spec_any() || spec_any_weak_match(spec_split_list(header), metadata.etag))
}

/// `If-Modified-Since` holds where the header is no HTTP-date, and where the
/// resource was modified after the instant it names.
pub open spec fn spec_if_modified_since(metadata: MetadataView, header: Seq<char>) -> bool {
    match http_date_seconds(header) {
        Some(since) => metadata.modified_at() > since,
        None => true,
    }
}

/// `If-Range` with an HTTP-date holds where it names the instant at which
/// the resource was modified; with anything else, where it matches the
/// resource's entity tag under strong comparison.
pub open spec fn spec_if_range(metadata: MetadataView, header: Seq<char>) -> bool {
    match http_date_seconds(header) {
        Some(at) => metadata.modified_at() == at,
        None => spec_strong_match(header, metadata.etag),
    }
}

/// Whether the header value is `*`.
fn is_any(header: &str) -> (r: bool)
    ensures
        r == (header@ == spec_any()),
{
    proof {
        reveal_strlit("*");
        assert("*"@ =~= spec_any());
    }
    same_text(header, "*")
}

/// Whether `If-Match: header` holds for the resource.
pub fn if_match(validation_fields: &Metadata, header: &str) -> (r: bool)
    ensures
        r == spec_if_match(validation_fields@, header@),
{
    if is_any(header) {
        return true;
    }
    let tags = split_list(header);
    let mut i: usize = 0;
    while i < tags.len()
        invariant
            i <= tags.len(),
            texts(tags@) == spec_split_list(header@),
            forall|k: int| 0 <= k < i ==> !spec_strong_match(#[trigger] texts(tags@)[k], validation_fields@.etag),
        decreases tags.len() - i,
    {
        if strong_match(tags[i], validation_fields.etag()) {
            assert(texts(tags@)[i as int] == tags@[i as int]@);
            return true;
        }
        assert(texts(tags@)[i as int] == tags@[i as int]@);
        i += 1;
    }
    false
}

/// Whether `If-None-Match: header` holds for the resource.
pub fn if_none_match(validation_fields: &Metadata, header: &str) -> (r: bool)
    ensures
        r == spec_if_none_match(validation_fields@, header@),
{
    if is_any(header) {
        return false;
    }
    let tags = split_list(header);
    let mut i: usize = 0;
    while i < tags.len()
        invariant
            i <= tags.len(),
            texts(tags@) == spec_split_list(header@),
            forall|k: int| 0 <= k < i ==> !spec_weak_match(#[trigger] texts(tags@)[k], validation_fields@.etag),
        decreases tags.len() - i,
    {
        if weak_match(tags[i], validation_fields.etag()) {
            assert(texts(tags@)[i as int] == tags@[i as int]@);
            return false;
        }
        assert(texts(tags@)[i as int] == tags@[i as int]@);
        i += 1;
    }
    true
}

/// Whether `If-Modified-Since: header` holds for the resource.
pub fn if_modified_since(validation_fields: &Metadata, header: &str) -> (r: bool)
    ensures
        r == spec_if_modified_since(validation_fields@, header@),
{
    match parse_http_date(header) {
        Some(since) => validation_fields.modified_at() > since,
        None => true,
    }
}

/// Whether `If-Range: header` holds for the resource.
pub fn if_range(validation_fields: &Metadata, header: &str) -> (r: bool)
    ensures
        r == spec_if_range(validation_fields@, header@),
{
    match parse_http_date(header) {
        Some(at) => validation_fields.modified_at() == at,
        None => strong_match(header, validation_fields.etag()),
    }
}

/// `If-Match` is present and does not hold.
pub open spec fn spec_fails_if_match(request: RequestView, metadata: MetadataView) -> bool {
    match request.if_match {
        Some(header) => !spec_if_match(metadata, header),
        None => false,
    }
}

/// `If-None-Match` is present and does not hold.
pub open spec fn spec_fails_if_none_match(request: RequestView, metadata: MetadataView) -> bool {
    match request.if_none_match {
        Some(header) => !spec_if_none_match(metadata, header),
        None => false,
    }
}

/// `If-Modified-Since` is read and does not hold. It is read only where
/// `If-None-Match` is absent and the method is GET or HEAD.
pub open spec fn spec_fails_if_modified_since(
    request: RequestView,
    metadata: MetadataView,
) -> bool {
    request.if_none_match is None && request.method.spec_is_get_or_head()
        && match request.if_modified_since {
        Some(header) => !spec_if_modified_since(metadata, header),
        None => false,
    }
}

/// `If-Range` is read and does not hold. It is read only for GET with a
/// `Range` header.
pub open spec fn spec_fails_if_range(request: RequestView, metadata: MetadataView) -> bool {
    request.method is Get && request.range is Some && match request.if_range {
        Some(header) => !spec_if_range(metadata, header),
        None => false,
    }
}

/// The outcome of the preconditions: a response that ends the request, if
/// one of them decides it, and the request with which to go on.
///
/// 1. `If-Match`, where it fails, gives 412.
/// 2. `If-None-Match`, where it fails, gives 304 for GET and HEAD and 412
///    for other methods.
/// 3. `If-Modified-Since`, where it fails, gives 304.
/// 4. `If-Range`, where it fails, lets the request go on without its `Range`.
pub open spec fn spec_check_preconditions(request: RequestView, metadata: MetadataView) -> (
    Option<ResponseView>,
    RequestView,
) {
    if spec_fails_if_match(request, metadata) {
        (Some(spec_bare(412)), request)
    } else if spec_fails_if_none_match(request, metadata) {
        if request.method.spec_is_get_or_head() {
            (Some(spec_with_validators(304, metadata)), request)
        } else {
            (Some(spec_bare(412)), request)
        }
    } else if spec_fails_if_modified_since(request, metadata) {
        (Some(spec_with_validators(304, metadata)), request)
    } else if spec_fails_if_range(request, metadata) {
        (None, RequestView { range: None, ..request })
    } else {
        (None, request)
    }
}

/// Evaluates the preconditions of `request` against the metadata of the
/// resource it asks for. The request that comes back is the one to go on
/// with: it lacks its `Range` where `If-Range` failed.
pub fn check_preconditions(request: Request, metadata: &Metadata) -> (r: (
    Option<Response>,
    Request,
))
    ensures
        (spec_reply(r.0), r.1@) == spec_check_preconditions(request@, metadata@),
{
    let mut request = request;
    if let Some(header) = &request.if_match {
        if !if_match(metadata, header.as_str()) {
            return (Some(Response::bare(412)), request);
        }
    }
    if let Some(header) = &request.if_none_match {
        if !if_none_match(metadata, header.as_str()) {
            if request.method.is_get_or_head() {
                return (Some(Response::with_validators(304, metadata)), request);
            }
            return (Some(Response::bare(412)), request);
        }
    } else if request.method.is_get_or_head() {
        if let Some(header) = &request.if_modified_since {
            if !if_modified_since(metadata, header.as_str()) {
                return (Some(Response::with_validators(304, metadata)), request);
            }
        }
    }
    if request.method.is_get() && request.range.is_some() {
        let keep = match &request.if_range {
            Some(header) => if_range(metadata, header.as_str()),
            None => true,
        };
        if !keep {
            request.range = None;
        }
    }
    (None, request)
}

} // verus!
