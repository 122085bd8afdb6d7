//! Range requests: the `Range` header read against the length of the
//! content, and the responses that serve one range, several ranges, the
//! whole content, or none of it.

use crate::message::spec_bare;
use crate::message::spec_with_validators;
use crate::message::Metadata;
use crate::message::MetadataView;
use crate::message::Request;
use crate::message::RequestView;
use crate::message::Response;
use crate::message::ResponseView;
use crate::text::decimal;
use crate::text::spec_decimal;
use crate::text::spec_text;
use http_range::HttpRange;
use http_range::HttpRangeParseError;
use vstd::prelude::*;
use vstd::slice::slice_subrange;
use vstd::string::StringExecFns;
use vstd::utf8::encode_utf8;

verus! {

/// A run of `length` bytes that begins at byte `start`.
#[derive(Clone, Copy, Debug, PartialEq, Eq)]
pub struct ByteRange {
    pub start: u64,
    pub length: u64,
}

/// Why a `Range` header gives no ranges.
#[derive(Clone, Copy, Debug, PartialEq, Eq)]
pub enum RangeError {
    /// The header does not follow the syntax of a byte range set.
    InvalidRange,
    /// The header is well formed and none of its ranges meets the content.
    NoOverlap,
}

/// What the `Range` header `header` asks of content that is `size` bytes long.
pub uninterp spec fn http_range_parse(header: Seq<char>, size: u64) -> Result<
    Seq<ByteRange>,
    RangeError,
>;

/// The ranges in the result of reading a `Range` header, as a sequence.
pub open spec fn spec_parsed(parsed: Result<Vec<ByteRange>, RangeError>) -> Result<
    Seq<ByteRange>,
    RangeError,
> {
    match parsed {
        Ok(ranges) => Ok(ranges@),
        Err(e) => Err(e),
    }
}

/// Every range lies within the first `size` bytes.
pub open spec fn spec_within(ranges: Seq<ByteRange>, size: nat) -> bool {
    forall|i: int| 0 <= i < ranges.len() ==> (#[trigger] ranges[i]).start + ranges[i].length <= size
}

/// Reads a `Range` header with `http_range::HttpRange::parse`.
///
/// Trusted: the result is taken to depend on the header's characters and on
/// `size` alone, and every range that comes back is taken to end within
/// `size`: the parser drops a range that begins at or after `size`, cuts one
/// that ends after it, and turns a suffix range into the last bytes.
#[verifier::external_body]
pub(crate) fn parse_range(header: &str, size: u64) -> (r: Result<Vec<ByteRange>, RangeError>)
    ensures
        spec_parsed(r) == http_range_parse(header@, size),
        r matches Ok(ranges) ==> spec_within(ranges@, size as nat),
{
    match HttpRange::parse(header, size) {
        Ok(ranges) => Ok(
            ranges.into_iter().map(|r| ByteRange { start: r.start, length: r.length }).collect(),
        ),
        Err(HttpRangeParseError::InvalidRange) => Err(RangeError::InvalidRange),
        Err(HttpRangeParseError::NoOverlap) => Err(RangeError::NoOverlap),
    }
}

/// The line that parts the sections of a multipart body, and ends it.
pub const BOUNDARY: &'static str = "\n--3d6b6a416f9b5\n";

/// The media type of a multipart response, which names the boundary.
pub const MULTIPART_TYPE: &'static str = "multipart/byteranges; boundary=3d6b6a416f9b5";

/// The characters of the boundary line.
pub open spec fn spec_boundary() -> Seq<char> {
    BOUNDARY@
}

/// The characters of the media type of a multipart response.
pub open spec fn spec_multipart_type() -> Seq<char> {
    MULTIPART_TYPE@
}

/// The position of the last byte of a range that is not empty.
pub open spec fn spec_last(range: ByteRange) -> nat {
    (range.start + range.length - 1) as nat
}

/// `Content-Range` for a range served out of `total` bytes.
pub open spec fn spec_content_range(range: ByteRange, total: nat) -> Seq<char> {
    "bytes "@ + spec_decimal(range.start as nat) + "-"@ + spec_decimal(spec_last(range)) + "/"@
        + spec_decimal(total)
}

/// `Content-Range` where no range can be served out of `total` bytes.
pub open spec fn spec_unsatisfied_range(total: nat) -> Seq<char> {
    "bytes */"@ + spec_decimal(total)
}

/// The bytes of `content` that `range` covers.
pub open spec fn spec_window(content: Seq<u8>, range: ByteRange) -> Seq<u8> {
    content.subrange(range.start as int, range.start + range.length)
}

/// What stands before the bytes of one part of a multipart body: the
/// boundary, the media type where the resource has one, the range, and an
/// empty line.
pub open spec fn spec_part_head(
    range: ByteRange,
    total: nat,
    content_type: Option<Seq<char>>,
) -> Seq<u8> {
    encode_utf8(spec_boundary()) + match content_type {
        Some(media) => encode_utf8("Content-Type: "@ + media + "\n"@),
        None => Seq::<u8>::empty(),
    } + encode_utf8("Content-Range: "@ + spec_content_range(range, total) + "\n\n"@)
}

/// One part of a multipart body.
pub open spec fn spec_part(
    range: ByteRange,
    content_type: Option<Seq<char>>,
    content: Seq<u8>,
) -> Seq<u8> {
    spec_part_head(range, content.len(), content_type) + spec_window(content, range)
}

/// The parts of a multipart body, one for each range, in their order.
pub open spec fn spec_parts(
    ranges: Seq<ByteRange>,
    content_type: Option<Seq<char>>,
    content: Seq<u8>,
) -> Seq<u8>
    decreases ranges.len(),
{
    if ranges.len() == 0 {
        Seq::<u8>::empty()
    } else {
        spec_parts(ranges.drop_last(), content_type, content) + spec_part(
            ranges.last(),
            content_type,
            content,
        )
    }
}

/// A multipart body: its parts and the closing boundary.
pub open spec fn spec_multipart_body(
    ranges: Seq<ByteRange>,
    content_type: Option<Seq<char>>,
    content: Seq<u8>,
) -> Seq<u8> {
    spec_parts(ranges, content_type, content) + encode_utf8(spec_boundary())
}

/// The body that a response carries: none for HEAD.
pub open spec fn spec_body(head: bool, body: Seq<u8>) -> Seq<u8> {
    if head {
        Seq::<u8>::empty()
    } else {
        body
    }
}

/// 200 with the whole content.
pub open spec fn spec_full(metadata: MetadataView, content: Seq<u8>, head: bool) -> ResponseView {
    ResponseView {
        content_length: Some(spec_decimal(content.len())),
        body: spec_body(head, content),
        ..spec_with_validators(200, metadata)
    }
}

/// 416: only `Content-Range`, which gives the length of the content.
pub open spec fn spec_unsatisfiable(total: nat) -> ResponseView {
    ResponseView { content_range: Some(spec_unsatisfied_range(total)), ..spec_bare(416) }
}

/// 206 with one range.
pub open spec fn spec_single(
    range: ByteRange,
    metadata: MetadataView,
    content: Seq<u8>,
    head: bool,
) -> ResponseView {
    ResponseView {
        content_range: Some(spec_content_range(range, content.len())),
        content_length: Some(spec_decimal(range.length as nat)),
        body: spec_body(head, spec_window(content, range)),
        ..spec_with_validators(206, metadata)
    }
}

/// 206 with a multipart body. Its media type names the boundary; the media
/// type of the resource stands in each part.
pub open spec fn spec_multipart(
    ranges: Seq<ByteRange>,
    metadata: MetadataView,
    content: Seq<u8>,
    head: bool,
) -> ResponseView {
    let body = spec_multipart_body(ranges, metadata.content_type, content);
    ResponseView {
        content_type: Some(spec_multipart_type()),
        content_length: Some(spec_decimal(body.len())),
        body: spec_body(head, body),
        ..spec_with_validators(206, metadata)
    }
}

/// One of the ranges is empty. A range of no bytes has no last byte to
/// name, so a set that holds one cannot be served.
pub open spec fn spec_has_empty(ranges: Seq<ByteRange>) -> bool {
    exists|i: int| 0 <= i < ranges.len() && (#[trigger] ranges[i]).length == 0
}

/// The response to a request whose `Range` header was read as `parsed`.
///
/// - Invalid syntax: the header is ignored, and the whole content served.
/// - No overlap, or an empty range: 416.
/// - One range: 206 with that range.
/// - Any other number of ranges: 206 with a multipart body.
pub open spec fn spec_range_response(
    parsed: Result<Seq<ByteRange>, RangeError>,
    metadata: MetadataView,
    content: Seq<u8>,
    head: bool,
) -> ResponseView {
    match parsed {
        Err(RangeError::InvalidRange) => spec_full(metadata, content, head),
        Err(RangeError::NoOverlap) => spec_unsatisfiable(content.len()),
        Ok(ranges) => if spec_has_empty(ranges) {
            spec_unsatisfiable(content.len())
        } else if ranges.len() == 1 {
            spec_single(ranges[0], metadata, content, head)
        } else {
            spec_multipart(ranges, metadata, content, head)
        },
    }
}

/// The response to a request that passed its preconditions.
pub open spec fn spec_respond(
    request: RequestView,
    metadata: MetadataView,
    content: Seq<u8>,
) -> ResponseView {
    match request.range {
        None => spec_full(metadata, content, request.method is Head),
        Some(header) => spec_range_response(
            http_range_parse(header, content.len() as u64),
            metadata,
            content,
            request.method is Head,
        ),
    }
}

/// Writes `Content-Range` for a range served out of `total` bytes.
fn content_range(range: &ByteRange, total: u64) -> (r: String)
    requires
        range.length >= 1,
        range.start + range.length <= total,
    ensures
        r@ == spec_content_range(*range, total as nat),
{
    let mut r = "bytes ".to_owned();
    r.append(decimal(range.start).as_str());
    r.append("-");
    r.append(decimal(range.start + (range.length - 1)).as_str());
    r.append("/");
    r.append(decimal(total).as_str());
    r
}

/// Writes `Content-Range` where no range can be served.
fn unsatisfied_range(total: u64) -> (r: String)
    ensures
        r@ == spec_unsatisfied_range(total as nat),
{
    let mut r = "bytes */".to_owned();
    r.append(decimal(total).as_str());
    r
}

/// Whether one of the ranges is empty.
fn has_empty(ranges: &Vec<ByteRange>) -> (r: bool)
    ensures
        r == spec_has_empty(ranges@),
{
    let mut i: usize = 0;
    while i < ranges.len()
        invariant
            i <= ranges.len(),
            forall|k: int| 0 <= k < i ==> (#[trigger] ranges@[k]).length != 0,
        decreases ranges.len() - i,
    {
        if ranges[i].length == 0 {
            return true;
        }
        i += 1;
    }
    false
}

/// Writes one part of a multipart body at the end of `body`.
fn write_part(body: &mut Vec<u8>, range: &ByteRange, content_type: &Option<String>, content: &Vec<u8>)
    requires
        range.length >= 1,
        range.start + range.length <= content.len(),
    ensures
        final(body)@ == old(body)@ + spec_part(*range, spec_text(*content_type), content@),
{
    let total = content.len() as u64;
    body.extend_from_slice(BOUNDARY.as_bytes());
    if let Some(media) = content_type {
        let mut line = "Content-Type: ".to_owned();
        line.append(media.as_str());
        line.append("\n");
        body.extend_from_slice(line.as_str().as_bytes());
    }
    let mut line = "Content-Range: ".to_owned();
    line.append(content_range(range, total).as_str());
    line.append("\n\n");
    body.extend_from_slice(line.as_str().as_bytes());
    let from = range.start as usize;
    let to = (range.start + range.length) as usize;
    body.extend_from_slice(slice_subrange(content.as_slice(), from, to));
    proof {
        let media = spec_text(*content_type);
        let head = spec_part_head(*range, content@.len(), media);
        assert(body@ =~= old(body)@ + (head + spec_window(content@, *range)));
    }
}

/// The body of a multipart response.
fn multipart_body(ranges: &Vec<ByteRange>, content_type: &Option<String>, content: &Vec<u8>) -> (body:
    Vec<u8>)
    requires
        !spec_has_empty(ranges@),
        spec_within(ranges@, content@.len()),
    ensures
        body@ == spec_multipart_body(ranges@, spec_text(*content_type), content@),
{
    let mut body: Vec<u8> = Vec::new();
    let mut i: usize = 0;
    while i < ranges.len()
        invariant
            i <= ranges.len(),
            !spec_has_empty(ranges@),
            spec_within(ranges@, content@.len()),
            body@ == spec_parts(ranges@.take(i as int), spec_text(*content_type), content@),
        decreases ranges.len() - i,
    {
        assert(ranges@.take(i + 1).drop_last() == ranges@.take(i as int));
        assert(ranges@[i as int].length != 0);
        write_part(&mut body, &ranges[i], content_type, content);
        i += 1;
    }
    assert(ranges@.take(i as int) == ranges@);
    body.extend_from_slice(BOUNDARY.as_bytes());
    body
}

/// The body to send: none for HEAD.
fn body_for(head: bool, body: Vec<u8>) -> (r: Vec<u8>)
    ensures
        r@ == spec_body(head, body@),
{
    if head {
        Vec::new()
    } else {
        body
    }
}

/// 200 with the whole content; for HEAD without the body.
pub fn non_range_response(is_head_request: bool, metadata: &Metadata, item: Vec<u8>) -> (r: Response)
    ensures
        r@ == spec_full(metadata@, item@, is_head_request),
{
    let mut response = Response::with_validators(200, metadata);
    response.content_length = Some(decimal(item.len() as u64));
    response.body = body_for(is_head_request, item);
    response
}

/// 416 for content of `total` bytes.
fn unsatisfiable(total: u64) -> (r: Response)
    ensures
        r@ == spec_unsatisfiable(total as nat),
{
    let mut response = Response::bare(416);
    response.content_range = Some(unsatisfied_range(total));
    response
}

/// The response to a request whose `Range` header was read as `parsed`,
/// against content that holds every range in it.
pub fn range_response(
    parsed: Result<Vec<ByteRange>, RangeError>,
    is_head_request: bool,
    metadata: &Metadata,
    item: Vec<u8>,
) -> (r: Response)
    requires
        parsed matches Ok(ranges) ==> spec_within(ranges@, item@.len()),
    ensures
        r@ == spec_range_response(spec_parsed(parsed), metadata@, item@, is_head_request),
{
    let total = item.len() as u64;
    match parsed {
        Err(RangeError::InvalidRange) => non_range_response(is_head_request, metadata, item),
        Err(RangeError::NoOverlap) => unsatisfiable(total),
        Ok(ranges) => {
            if has_empty(&ranges) {
                unsatisfiable(total)
            } else if ranges.len() == 1 {
                let range = ranges[0];
                let mut response = Response::with_validators(206, metadata);
                response.content_range = Some(content_range(&range, total));
                response.content_length = Some(decimal(range.length));
                if !is_head_request {
                    let from = range.start as usize;
                    let to = (range.start + range.length) as usize;
                    let mut body: Vec<u8> = Vec::new();
                    body.extend_from_slice(slice_subrange(item.as_slice(), from, to));
                    assert(body@ =~= spec_window(item@, range));
                    response.body = body;
                }
                response
            } else {
                let body = multipart_body(&ranges, metadata.content_type(), &item);
                let mut response = Response::with_validators(206, metadata);
                response.content_type = Some(MULTIPART_TYPE.to_owned());
                response.content_length = Some(decimal(body.len() as u64));
                response.body = body_for(is_head_request, body);
                response
            }
        },
    }
}

/// The response to a request that passed its preconditions, for a resource
/// with the given metadata and content.
pub fn respond(request: &Request, metadata: &Metadata, content: Vec<u8>) -> (r: Response)
    ensures
        r@ == spec_respond(request@, metadata@, content@),
{
    let head = request.method.is_head();
    match &request.range {
        None => non_range_response(head, metadata, content),
        Some(header) => {
            let parsed = parse_range(header.as_str(), content.len() as u64);
            range_response(parsed, head, metadata, content)
        },
    }
}

} // verus!
