//! Static content served out of a key-value store, with the conditional
//! requests and the range requests of HTTP.
//!
//! The store is read by the caller. [`path::keys`] names the keys to look
//! up, [`precondition::check_preconditions`] decides on the metadata alone
//! whether the request ends early, and [`range::respond`] serves the
//! content. [`get`] decides and serves in one call, for a caller that holds
//! what the store has under both keys. [`laws`] states what holds of every
//! request.
//!
//! [`stores`], [`service`], [`upload`] and [`local`] hold the rules of the
//! tool that fills a store.

use crate::message::spec_reply;
use crate::message::Metadata;
use crate::message::MetadataView;
use crate::message::Request;
use crate::message::RequestView;
use crate::message::Response;
use crate::message::ResponseView;
use crate::precondition::check_preconditions;
use crate::precondition::spec_check_preconditions;
use crate::range::respond;
use crate::range::spec_respond;
use vstd::prelude::*;

pub mod date;
pub mod etag;
pub mod laws;
pub mod list;
pub mod local;
pub mod message;
pub mod path;
pub mod precondition;
pub mod range;
pub mod service;
pub mod stores;
pub mod text;
pub mod upload;

verus! {

/// The response to `request`, where the store holds `metadata` and
/// `content` under the keys of its path; `None` where nothing is served.
///
/// Nothing is served for a method other than GET and HEAD, nor where the
/// metadata is absent. Then the preconditions decide. Where they let the
/// request pass, nothing is served if the content is absent, and else the
/// content is served to the request as the preconditions left it.
pub open spec fn spec_get(
    request: RequestView,
    metadata: Option<MetadataView>,
    content: Option<Seq<u8>>,
) -> Option<ResponseView> {
    if !request.method.spec_is_get_or_head() {
        None
    } else {
        match metadata {
            None => None,
            Some(metadata) => {
                let (early, request) = spec_check_preconditions(request, metadata);
                match early {
                    Some(response) => Some(response),
                    None => match content {
                        None => None,
                        Some(content) => Some(spec_respond(request, metadata, content)),
                    },
                }
            },
        }
    }
}

/// The metadata in an optional reference to it.
pub open spec fn spec_metadata(metadata: Option<&Metadata>) -> Option<MetadataView> {
    match metadata {
        Some(m) => Some(m@),
        None => None,
    }
}

/// The bytes in an optional buffer.
pub open spec fn spec_content(content: Option<Vec<u8>>) -> Option<Seq<u8>> {
    match content {
        Some(c) => Some(c@),
        None => None,
    }
}

/// Serves `request` from what the store holds under the keys of its path.
pub fn get(request: Request, metadata: Option<&Metadata>, content: Option<Vec<u8>>) -> (r: Option<
    Response,
>)
    ensures
        spec_reply(r) == spec_get(request@, spec_metadata(metadata), spec_content(content)),
{
    if !request.method.is_get_or_head() {
        return None;
    }
    let metadata = match metadata {
        Some(metadata) => metadata,
        None => return None,
    };
    let (early, request) = check_preconditions(request, metadata);
    if early.is_some() {
        return early;
    }
    match content {
        Some(content) => Some(respond(&request, metadata, content)),
        None => None,
    }
}

} // verus!
