//! The judgement of one retrieval: where the request goes, whether the
//! response is a resource, and under which name it is kept.
//!
//! The exchange itself and the writing of the file are the caller's. No
//! retrieval is tried twice here: an identifier that failed comes back, if
//! at all, by being drawn again.

use crate::outcome::{FetchOutcome, ResourceMetadata};
use crate::text::{append_decimal, chars_of, decimal, find_from, first_occurrence, trim_quotes, trim_quotes_within};
use vstd::prelude::*;
use vstd::string::*;

verus! {

/// Host that serves the resources.
pub const DEFAULT_ENDPOINT: &'static str = "redacted-recipes.com";

/// Extension of a resource's file name where the server names none.
pub const RESOURCE_EXTENSION: &'static str = "bsmx";

/// Name of the request header that carries the client's identity.
pub const USER_AGENT_HEADER: &'static str = "User-Agent";

/// The identity under which requests are sent. The server answers in full
/// only to a client that looks like a browser.
pub const USER_AGENT: &'static str =
    "Mozilla/5.0 (Macintosh; Intel Mac OS X 10_15_7) AppleWebKit/605.1.15 (KHTML, like Gecko) Mobile/15E148";

/// Name of the response header that may carry a file name.
pub const DISPOSITION_HEADER: &'static str = "content-disposition";

/// First byte of a body that looks like markup.
pub const MARKUP_START: u8 = 0x3c;

/// What is to be done with a response.
#[derive(Clone, Debug, PartialEq, Eq)]
pub enum Verdict {
    /// The response is no resource; nothing is kept.
    Reject,
    /// The response is a resource; its body is to be written under the name given.
    Store(ResourceMetadata),
}

/// The address of the resource `id` at `endpoint`.
pub open spec fn url_of(endpoint: Seq<char>, id: u32) -> Seq<char> {
    "https://"@ + endpoint + "/download.php?id="@ + decimal(id as nat)
}

/// The status code reports success.
pub open spec fn success_status(code: u16) -> bool {
    200 <= code <= 299
}

/// The body begins as markup does.
pub open spec fn markup(body: Seq<u8>) -> bool {
    body.len() > 0 && body[0] == MARKUP_START
}

/// The file name that a disposition header carries: what stands between
/// the first `filename=` and the next one, or the end of the header where
/// there is no other, without the double quotes at its two ends. A header
/// without `filename=` carries none.
pub open spec fn disposition_name(header: Seq<char>) -> Option<Seq<char>> {
    let marker = "filename="@;
    match first_occurrence(header, marker, 0) {
        None => None,
        Some(at) => {
            let start = at + marker.len();
            let end = match first_occurrence(header, marker, start) {
                Some(next) => next,
                None => header.len() as int,
            };
            Some(trim_quotes(header.subrange(start, end)))
        },
    }
}

/// The file name of a resource of which the server names none.
pub open spec fn default_name(id: u32, extension: Seq<char>) -> Seq<char> {
    decimal(id as nat) + "."@ + extension
}

/// The file name under which the resource `id` is kept.
pub open spec fn destination_name(disposition: Option<&str>, id: u32, extension: Seq<char>) -> Seq<char> {
    match disposition {
        Some(header) => match disposition_name(header@) {
            Some(name) => name,
            None => default_name(id, extension),
        },
        None => default_name(id, extension),
    }
}

/// Builds the address of the resource `id` at `endpoint`.
pub fn resource_url(endpoint: &str, id: u32) -> (url: String)
    ensures
        url@ == url_of(endpoint@, id),
{
    let mut url = String::from_str("https://");
    url.append(endpoint);
    url.append("/download.php?id=");
    append_decimal(&mut url, id as u64);
    url
}

/// Tells whether the status code reports success.
pub fn is_success_status(code: u16) -> (yes: bool)
    ensures
        yes == success_status(code),
{
    200 <= code && code <= 299
}

/// Tells whether the body begins as markup does.
pub fn looks_like_markup(body: &[u8]) -> (yes: bool)
    ensures
        yes == markup(body@),
{
    body.len() > 0 && body[0] == MARKUP_START
}

/// Reads the file name that a disposition header carries.
pub fn disposition_filename(header: &str) -> (name: Option<String>)
    ensures
        match name {
            Some(text) => disposition_name(header@) == Some(text@),
            None => disposition_name(header@) is None,
        },
{
    let chars = chars_of(header);
    let marker = chars_of("filename=");
    let total: usize = chars.len();
    match find_from(&chars, &marker, 0) {
        None => None,
        Some(at) => {
            let start: usize = at + marker.len();
            let end: usize = match find_from(&chars, &marker, start) {
                Some(next) => next,
                None => total,
            };
            let (lo, hi) = trim_quotes_within(&chars, start, end);
            Some(String::from_str(header.substring_char(lo, hi)))
        },
    }
}

/// Builds the file name of a resource of which the server names none.
pub fn default_filename(id: u32, extension: &str) -> (name: String)
    ensures
        name@ == default_name(id, extension@),
{
    let mut name = String::new();
    append_decimal(&mut name, id as u64);
    name.append(".");
    name.append(extension);
    assert(name@ =~= default_name(id, extension@));
    name
}

/// Settles the file name under which the resource `id` is kept: the one
/// that the disposition header carries, else the default.
pub fn destination_filename(disposition: Option<&str>, id: u32, extension: &str) -> (name: String)
    ensures
        name@ == destination_name(disposition, id, extension@),
{
    match disposition {
        Some(header) => match disposition_filename(header) {
            Some(name) => name,
            None => default_filename(id, extension),
        },
        None => default_filename(id, extension),
    }
}

/// Judges a response. One without a success status is rejected, whatever
/// its body; one whose body does not begin as markup does is rejected too;
/// any other is to be stored, under the name that the disposition header
/// carries or else the default.
pub fn judge_response(
    id: u32,
    status: u16,
    disposition: Option<&str>,
    body: &[u8],
    extension: &str,
) -> (verdict: Verdict)
    ensures
        verdict is Store <==> success_status(status) && markup(body@),
        verdict matches Verdict::Store(meta) ==> meta.id == id && meta.filename@ == destination_name(
            disposition,
            id,
            extension@,
        ),
{
    if !is_success_status(status) {
        return Verdict::Reject;
    }
    let filename = destination_filename(disposition, id, extension);
    if looks_like_markup(body) {
        Verdict::Store(ResourceMetadata { id, filename })
    } else {
        Verdict::Reject
    }
}

/// The outcome of a retrieval whose response was judged: a rejected
/// response is `Rejected`; a resource that was written is `Acquired`; one
/// that could not be written failed for this attempt, with the cause.
pub fn conclude(verdict: Verdict, written: Result<(), String>) -> (outcome: FetchOutcome)
    ensures
        outcome == match (verdict, written) {
            (Verdict::Reject, _) => FetchOutcome::Rejected,
            (Verdict::Store(meta), Ok(_)) => FetchOutcome::Acquired(meta),
            (Verdict::Store(_), Err(cause)) => FetchOutcome::TransportError(cause),
        },
{
    match verdict {
        Verdict::Reject => FetchOutcome::Rejected,
        Verdict::Store(meta) => match written {
            Ok(_) => FetchOutcome::Acquired(meta),
            Err(cause) => FetchOutcome::TransportError(cause),
        },
    }
}

} // verus!
