//! What holds of every request: laws that relate the preconditions, the
//! range processing and the responses.

use crate::spec_get;
use crate::date::http_date_seconds;
use crate::etag::spec_is_weak;
use crate::message::spec_bare;
use crate::message::spec_with_validators;
use crate::message::MetadataView;
use crate::message::RequestView;
use crate::precondition::spec_any;
use crate::precondition::spec_check_preconditions;
use crate::precondition::spec_fails_if_match;
use crate::precondition::spec_fails_if_none_match;
use crate::precondition::spec_if_range;
use crate::range::http_range_parse;
use crate::range::spec_content_range;
use crate::range::spec_full;
use crate::range::spec_has_empty;
use crate::range::spec_last;
use crate::range::spec_multipart_body;
use crate::range::spec_part_head;
use crate::range::spec_parts;
use crate::range::spec_range_response;
use crate::range::spec_respond;
use crate::range::spec_window;
use crate::range::spec_within;
use crate::range::ByteRange;
use crate::range::RangeError;
use crate::text::spec_decimal;
use vstd::prelude::*;

verus! {

/// A request with `If-Match: *` is never answered with 412, whatever else
/// it carries and whatever the store holds.
pub proof fn if_match_any_is_never_refused(
    request: RequestView,
    metadata: Option<MetadataView>,
    content: Option<Seq<u8>>,
)
    requires
        request.if_match == Some(spec_any()),
    ensures
        spec_get(request, metadata, content) matches Some(response) ==> response.status != 412,
{
}

/// `If-Match: *` never makes the preconditions answer 412. Where they do
/// answer 412 it is for a method other than GET and HEAD whose
/// `If-None-Match` fails: those requests are left out.
pub proof fn if_match_any_passes_the_preconditions(request: RequestView, metadata: MetadataView)
    requires
        request.if_match == Some(spec_any()),
        !(request.method is Other && spec_fails_if_none_match(request, metadata)),
    ensures
        spec_check_preconditions(request, metadata).0 matches Some(response) ==> response.status
            != 412,
{
}

/// A request with `If-None-Match: *` ends at the preconditions: with 304
/// and the validators for GET and HEAD, with 412 for any other method. A GET
/// or HEAD whose `If-Match` fails is answered 412 before `If-None-Match` is
/// read: those requests are left out.
pub proof fn if_none_match_any_is_decided(request: RequestView, metadata: MetadataView)
    requires
        request.if_none_match == Some(spec_any()),
        !(request.method.spec_is_get_or_head() && spec_fails_if_match(request, metadata)),
    ensures
        spec_check_preconditions(request, metadata).0 == Some(
            if request.method.spec_is_get_or_head() {
                spec_with_validators(304, metadata)
            } else {
                spec_bare(412)
            },
        ),
        spec_check_preconditions(request, metadata).0->0.status == if request.method.spec_is_get_or_head() {
            304u16
        } else {
            412u16
        },
        spec_check_preconditions(request, metadata).0->0.body.len() == 0,
{
}

/// A GET or HEAD with `If-None-Match: *` whose `If-Match` does not fail is
/// answered 304 wherever the resource has metadata.
pub proof fn if_none_match_any_is_not_modified(
    request: RequestView,
    metadata: MetadataView,
    content: Option<Seq<u8>>,
)
    requires
        request.method.spec_is_get_or_head(),
        request.if_none_match == Some(spec_any()),
        !spec_fails_if_match(request, metadata),
    ensures
        spec_get(request, Some(metadata), content) == Some(spec_with_validators(304, metadata)),
{
}

/// A request for one range that is not empty and lies within the content
/// is answered 206. `Content-Range` names the first and the last byte of the
/// range, `Content-Length` is the number of bytes from the first to the
/// last, and the body of a GET holds exactly those bytes of the content.
pub proof fn single_range_is_served(
    request: RequestView,
    metadata: MetadataView,
    content: Seq<u8>,
    header: Seq<char>,
    range: ByteRange,
)
    requires
        request.range == Some(header),
        http_range_parse(header, content.len() as u64) == Ok::<Seq<ByteRange>, RangeError>(
            seq![range],
        ),
        range.length >= 1,
        range.start + range.length <= content.len(),
    ensures
        ({
            let response = spec_respond(request, metadata, content);
            let first = range.start as int;
            let last = spec_last(range) as int;
            &&& response.status == 206
            &&& response.content_range == Some(spec_content_range(range, content.len()))
            &&& response.content_length == Some(spec_decimal((last - first + 1) as nat))
            &&& request.method is Head ==> response.body.len() == 0
            &&& !(request.method is Head) ==> response.body == content.subrange(first, last + 1)
        }),
{
    let ranges = seq![range];
    assert(!spec_has_empty(ranges));
    assert(ranges[0] == range);
}

/// Where the parts of a multipart body begin: the part of range `i` begins
/// after the parts of the ranges before it.
pub open spec fn spec_part_offset(
    ranges: Seq<ByteRange>,
    content_type: Option<Seq<char>>,
    content: Seq<u8>,
    i: int,
) -> nat {
    spec_parts(ranges.take(i), content_type, content).len()
}

/// The parts of the first `i` ranges are the beginning of the parts of all
/// of them.
pub proof fn parts_begin_with_earlier_parts(
    ranges: Seq<ByteRange>,
    content_type: Option<Seq<char>>,
    content: Seq<u8>,
    i: int,
)
    requires
        0 <= i <= ranges.len(),
    ensures
        spec_parts(ranges.take(i), content_type, content).is_prefix_of(
            spec_parts(ranges, content_type, content),
        ),
    decreases ranges.len(),
{
    if i == ranges.len() {
        assert(ranges.take(i) == ranges);
    } else {
        parts_begin_with_earlier_parts(ranges.drop_last(), content_type, content, i);
        assert(ranges.drop_last().take(i) == ranges.take(i));
    }
}

/// A request for several ranges, none of them empty and all within the
/// content, is answered 206 with a multipart body. `Content-Length` is the
/// number of bytes of that body, which a GET receives whole. In it the
/// part of each range stands where the parts before it end, and after the
/// head of the part come exactly the bytes of the content that the range
/// covers.
pub proof fn multipart_is_served(
    ranges: Seq<ByteRange>,
    metadata: MetadataView,
    content: Seq<u8>,
    head: bool,
)
    requires
        ranges.len() != 1,
        !spec_has_empty(ranges),
        spec_within(ranges, content.len()),
    ensures
        ({
            let response = spec_range_response(Ok(ranges), metadata, content, head);
            let body = spec_multipart_body(ranges, metadata.content_type, content);
            &&& response.status == 206
            &&& response.content_length == Some(spec_decimal(body.len()))
            &&& head ==> response.body.len() == 0
            &&& !head ==> response.body == body
            &&& forall|i: int|
                #![trigger ranges[i]]
                0 <= i < ranges.len() ==> {
                    let at = spec_part_offset(ranges, metadata.content_type, content, i)
                        + spec_part_head(ranges[i], content.len(), metadata.content_type).len();
                    &&& at + ranges[i].length <= body.len()
                    &&& body.subrange(at as int, at + ranges[i].length) == spec_window(
                        content,
                        ranges[i],
                    )
                }
        }),
{
    let media = metadata.content_type;
    let body = spec_multipart_body(ranges, media, content);
    assert forall|i: int| #![trigger ranges[i]] 0 <= i < ranges.len() implies {
        let at = spec_part_offset(ranges, media, content, i) + spec_part_head(
            ranges[i],
            content.len(),
            media,
        ).len();
        &&& at + ranges[i].length <= body.len()
        &&& body.subrange(at as int, at + ranges[i].length) == spec_window(content, ranges[i])
    } by {
        let upto = ranges.take(i + 1);
        parts_begin_with_earlier_parts(ranges, media, content, i + 1);
        assert(upto.drop_last() == ranges.take(i));
        assert(upto.last() == ranges[i]);
        let at = spec_part_offset(ranges, media, content, i) + spec_part_head(
            ranges[i],
            content.len(),
            media,
        ).len();
        let through = spec_parts(upto, media, content);
        assert(through.subrange(at as int, at + ranges[i].length) == spec_window(
            content,
            ranges[i],
        ));
        assert(body.subrange(at as int, at + ranges[i].length) == through.subrange(
            at as int,
            at + ranges[i].length,
        ));
    }
}

/// For a GET with a `Range` header that passes `If-Match`, `If-None-Match`
/// and `If-Modified-Since`, `If-Range` decides whether the range is served:
/// where it holds, the response is the one that the `Range` header gives;
/// where it fails, the `Range` header is dropped and the response is 200
/// with the whole content.
pub proof fn if_range_decides(
    request: RequestView,
    metadata: MetadataView,
    content: Seq<u8>,
    header: Seq<char>,
)
    requires
        request.method is Get,
        request.range is Some,
        request.if_range == Some(header),
        spec_check_preconditions(request, metadata).0 is None,
    ensures
        spec_if_range(metadata, header) ==> spec_check_preconditions(request, metadata).1
            == request && spec_get(request, Some(metadata), Some(content)) == Some(
            spec_respond(request, metadata, content),
        ),
        !spec_if_range(metadata, header) ==> spec_check_preconditions(request, metadata).1.range
            is None && spec_get(request, Some(metadata), Some(content)) == Some(
            spec_full(metadata, content, false),
        ),
{
}

/// `If-Range` with an HTTP-date holds exactly where the date names the
/// instant at which the resource was last modified; an earlier or a later
/// date fails. With an entity tag it fails for every weak tag and for every
/// tag that is not the resource's own.
pub proof fn if_range_holds_for_the_same_validator(metadata: MetadataView, header: Seq<char>)
    requires
        metadata.wf(),
    ensures
        http_date_seconds(header) is Some ==> (spec_if_range(metadata, header)
            <==> http_date_seconds(header) == http_date_seconds(metadata.last_modified)),
        http_date_seconds(header) is None && spec_is_weak(header) ==> !spec_if_range(
            metadata,
            header,
        ),
        http_date_seconds(header) is None && header != metadata.etag ==> !spec_if_range(
            metadata,
            header,
        ),
{
}

/// A GET without conditional headers and without a `Range` header is
/// answered 200 with the whole content, and `Content-Length` is the length
/// of the content. A HEAD is answered alike, without the body.
pub proof fn plain_request_gets_everything(
    request: RequestView,
    metadata: MetadataView,
    content: Seq<u8>,
)
    requires
        request.method.spec_is_get_or_head(),
        request.if_match is None,
        request.if_none_match is None,
        request.if_modified_since is None,
        request.if_range is None,
        request.range is None,
    ensures
        ({
            let response = spec_get(request, Some(metadata), Some(content));
            &&& response is Some
            &&& response->0.status == 200
            &&& response->0.content_length == Some(spec_decimal(content.len()))
            &&& request.method is Get ==> response->0.body == content
            &&& request.method is Head ==> response->0.body.len() == 0
        }),
{
}

} // verus!
