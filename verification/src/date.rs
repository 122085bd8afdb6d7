//! HTTP dates, read as instants.

use vstd::prelude::*;

verus! {

/// The instant that `text` names when it is read as an HTTP-date, in whole
/// seconds since 1970-01-01 00:00:00 GMT; `None` where `text` is no HTTP-date.
pub uninterp spec fn http_date_seconds(text: Seq<char>) -> Option<u64>;

/// Reads an HTTP-date with `httpdate::parse_http_date`.
///
/// Trusted: the result is taken to depend on the characters of `text` alone.
/// `parse_http_date` accepts the IMF-fixdate, RFC 850 and asctime forms and
/// gives the Unix epoch plus a whole number of seconds, for years 1970 to
/// 9999; that number of seconds is what is handed back, so that two dates
/// are ordered as the instants they name.
#[verifier::external_body]
pub(crate) fn parse_http_date(text: &str) -> (r: Option<u64>)
    ensures
        r == http_date_seconds(text@),
{
    match httpdate::parse_http_date(text) {
        Ok(time) => match time.duration_since(std::time::UNIX_EPOCH) {
            Ok(since) => Some(since.as_secs()),
            Err(_) => None,
        },
        Err(_) => None,
    }
}

} // verus!
