//! What the engine reads and writes: the stored metadata of a resource, the
//! request, and the response.

use crate::date::http_date_seconds;
use crate::date::parse_http_date;
use crate::text::copy_text;
use crate::text::spec_text;
use vstd::prelude::*;

verus! {

/// The validators and the media type stored beside a resource. The
/// modification time is an HTTP-date: `new` takes no other.
#[derive(Debug)]
pub struct Metadata {
    etag: String,
    last_modified: String,
    content_type: Option<String>,
    modified_at: u64,
}

/// Metadata as the contracts speak of it.
pub struct MetadataView {
    pub etag: Seq<char>,
    pub last_modified: Seq<char>,
    pub content_type: Option<Seq<char>>,
}

impl MetadataView {
    /// Metadata is well formed when its modification time is an HTTP-date.
    pub open spec fn wf(self) -> bool {
        http_date_seconds(self.last_modified) is Some
    }

    /// The modification time as an instant.
    pub open spec fn modified_at(self) -> u64 {
        http_date_seconds(self.last_modified)->0
    }
}

impl View for Metadata {
    type V = MetadataView;

    closed spec fn view(&self) -> MetadataView {
        MetadataView {
            etag: self.etag@,
            last_modified: self.last_modified@,
            content_type: spec_text(self.content_type),
        }
    }
}

impl Clone for Metadata {
    fn clone(&self) -> (r: Metadata)
        ensures
            r@ == self@,
    {
        proof {
            use_type_invariant(self);
        }
        Metadata {
            etag: self.etag.clone(),
            last_modified: self.last_modified.clone(),
            content_type: copy_text(&self.content_type),
            modified_at: self.modified_at,
        }
    }
}

impl Metadata {
    #[verifier::type_invariant]
    spec fn valid(self) -> bool {
        http_date_seconds(self.last_modified@) == Some(self.modified_at)
    }

    /// Metadata of a resource; `None` where `last_modified` is not an HTTP-date.
    pub fn new(etag: String, last_modified: String, content_type: Option<String>) -> (r: Option<
        Metadata,
    >)
        ensures
            r is Some <==> http_date_seconds(last_modified@) is Some,
            r matches Some(m) ==> m@ == (MetadataView {
                etag: etag@,
                last_modified: last_modified@,
                content_type: spec_text(content_type),
            }),
    {
        match parse_http_date(last_modified.as_str()) {
            Some(modified_at) => Some(Metadata { etag, last_modified, content_type, modified_at }),
            None => None,
        }
    }

    /// The entity tag.
    pub fn etag(&self) -> (r: &str)
        ensures
            r@ == self@.etag,
    {
        self.etag.as_str()
    }

    /// The modification time as it is stored.
    pub fn last_modified(&self) -> (r: &str)
        ensures
            r@ == self@.last_modified,
    {
        self.last_modified.as_str()
    }

    /// The media type, if the resource has one.
    pub fn content_type(&self) -> (r: &Option<String>)
        ensures
            spec_text(*r) == self@.content_type,
    {
        &self.content_type
    }

    /// The modification time as an instant.
    pub fn modified_at(&self) -> (r: u64)
        ensures
            self@.wf(),
            r == self@.modified_at(),
    {
        proof {
            use_type_invariant(self);
        }
        self.modified_at
    }
}

/// The request methods that the engine tells apart.
#[derive(Clone, Copy, Debug, PartialEq, Eq)]
pub enum Method {
    Get,
    Head,
    Other,
}

impl Method {
    /// GET and HEAD are the methods that are served.
    pub open spec fn spec_is_get_or_head(self) -> bool {
        self is Get || self is Head
    }

    /// Whether the method is GET.
    pub fn is_get(self) -> (r: bool)
        ensures
            r == (self is Get),
    {
        match self {
            Method::Get => true,
            _ => false,
        }
    }

    /// Whether the method is HEAD.
    pub fn is_head(self) -> (r: bool)
        ensures
            r == (self is Head),
    {
        match self {
            Method::Head => true,
            _ => false,
        }
    }

    /// Whether the method is one that is served.
    pub fn is_get_or_head(self) -> (r: bool)
        ensures
            r == self.spec_is_get_or_head(),
    {
        match self {
            Method::Other => false,
            _ => true,
        }
    }
}

/// A request: its method, its path, and the five header fields that the
/// engine reads, each absent or holding its value.
#[derive(Clone, Debug, PartialEq, Eq)]
pub struct Request {
    pub method: Method,
    pub path: String,
    pub if_match: Option<String>,
    pub if_none_match: Option<String>,
    pub if_modified_since: Option<String>,
    pub if_range: Option<String>,
    pub range: Option<String>,
}

/// A request as the contracts speak of it.
pub struct RequestView {
    pub method: Method,
    pub path: Seq<char>,
    pub if_match: Option<Seq<char>>,
    pub if_none_match: Option<Seq<char>>,
    pub if_modified_since: Option<Seq<char>>,
    pub if_range: Option<Seq<char>>,
    pub range: Option<Seq<char>>,
}

impl Request {
    /// A request without any of the header fields.
    pub fn new(method: Method, path: String) -> (r: Request)
        ensures
            r@ == (RequestView {
                method,
                path: path@,
                if_match: None,
                if_none_match: None,
                if_modified_since: None,
                if_range: None,
                range: None,
            }),
    {
        Request {
            method,
            path,
            if_match: None,
            if_none_match: None,
            if_modified_since: None,
            if_range: None,
            range: None,
        }
    }
}

impl View for Request {
    type V = RequestView;

    open spec fn view(&self) -> RequestView {
        RequestView {
            method: self.method,
            path: self.path@,
            if_match: spec_text(self.if_match),
            if_none_match: spec_text(self.if_none_match),
            if_modified_since: spec_text(self.if_modified_since),
            if_range: spec_text(self.if_range),
            range: spec_text(self.range),
        }
    }
}

/// A response: its status, the six header fields that the engine writes,
/// each absent or holding its value, and its body.
#[derive(Clone, Debug, PartialEq, Eq)]
pub struct Response {
    pub status: u16,
    pub etag: Option<String>,
    pub last_modified: Option<String>,
    pub accept_ranges: Option<String>,
    pub content_type: Option<String>,
    pub content_length: Option<String>,
    pub content_range: Option<String>,
    pub body: Vec<u8>,
}

/// A response as the contracts speak of it.
pub struct ResponseView {
    pub status: u16,
    pub etag: Option<Seq<char>>,
    pub last_modified: Option<Seq<char>>,
    pub accept_ranges: Option<Seq<char>>,
    pub content_type: Option<Seq<char>>,
    pub content_length: Option<Seq<char>>,
    pub content_range: Option<Seq<char>>,
    pub body: Seq<u8>,
}

impl View for Response {
    type V = ResponseView;

    open spec fn view(&self) -> ResponseView {
        ResponseView {
            status: self.status,
            etag: spec_text(self.etag),
            last_modified: spec_text(self.last_modified),
            accept_ranges: spec_text(self.accept_ranges),
            content_type: spec_text(self.content_type),
            content_length: spec_text(self.content_length),
            content_range: spec_text(self.content_range),
            body: self.body@,
        }
    }
}

/// A response with the given status and nothing else.
pub open spec fn spec_bare(status: u16) -> ResponseView {
    ResponseView {
        status,
        etag: None,
        last_modified: None,
        accept_ranges: None,
        content_type: None,
        content_length: None,
        content_range: None,
        body: Seq::empty(),
    }
}

/// A response with the given status that carries the validators of a
/// resource: its entity tag, its modification time, `Accept-Ranges: bytes`,
/// and its media type where it has one.
pub open spec fn spec_with_validators(status: u16, metadata: MetadataView) -> ResponseView {
    ResponseView {
        etag: Some(metadata.etag),
        last_modified: Some(metadata.last_modified),
        accept_ranges: Some("bytes"@),
        content_type: metadata.content_type,
        ..spec_bare(status)
    }
}

impl Response {
    /// A response with the given status and nothing else.
    pub fn bare(status: u16) -> (r: Response)
        ensures
            r@ == spec_bare(status),
    {
        Response {
            status,
            etag: None,
            last_modified: None,
            accept_ranges: None,
            content_type: None,
            content_length: None,
            content_range: None,
            body: Vec::new(),
        }
    }

    /// A response with the given status that carries the validators of a
    /// resource.
    pub fn with_validators(status: u16, metadata: &Metadata) -> (r: Response)
        ensures
            r@ == spec_with_validators(status, metadata@),
    {
        Response {
            status,
            etag: Some(metadata.etag().to_owned()),
            last_modified: Some(metadata.last_modified().to_owned()),
            accept_ranges: Some("bytes".to_owned()),
            content_type: copy_text(metadata.content_type()),
            content_length: None,
            content_range: None,
            body: Vec::new(),
        }
    }
}

/// The view of an optional response.
pub open spec fn spec_reply(response: Option<Response>) -> Option<ResponseView> {
    match response {
        Some(r) => Some(r@),
        None => None,
    }
}

} // verus!
