//! The CodexRadar requests: endpoints and size limits, how an HTTP answer
//! is judged, and how a reply becomes an update of one cached source.

use vstd::prelude::*;
use crate::radar_cache::SourceUpdate;
use crate::text::{chars_vec, decimal, parse_usize_chars, parse_usize_spec, push_decimal};

verus! {

/// The CodexRadar insights endpoint.
pub const RADAR_INSIGHTS_URL: &'static str = "https://codexradar.com/api/radar-insights";
/// The raw efficiency data endpoint.
pub const EFFICIENCY_URL: &'static str = "https://codexradar.com/api/intelligence-efficiency";
/// Largest insights body accepted (128 KiB).
pub const RADAR_INSIGHTS_MAX_BYTES: usize = 131_072;
/// Largest efficiency body accepted (8 MiB).
pub const EFFICIENCY_MAX_BYTES: usize = 8_388_608;
/// Validator header of the insights source.
pub const RADAR_VALIDATOR_HEADER: &'static str = "Last-Modified";
/// Validator header of the efficiency source.
pub const EFFICIENCY_VALIDATOR_HEADER: &'static str = "ETag";

/// The failure message of a request the server answered with a non-success
/// `status`: `None` for `304 Not Modified`, which keeps the cached value.
pub open spec fn status_failure_spec(status: u16) -> Option<Seq<char>> {
    if status == 304 {
        None
    } else {
        Some("HTTP "@ + decimal(status as nat))
    }
}

/// How a non-success HTTP status ends a request.
pub fn status_failure(status: u16) -> (failure: Option<String>)
    ensures
        match (failure, status_failure_spec(status)) {
            (None, None) => true,
            (Some(m), Some(expected)) => m@ == expected,
            _ => false,
        },
{
    if status == 304 {
        None
    } else {
        let mut message = String::from_str("HTTP ");
        push_decimal(&mut message, status as u64);
        Some(message)
    }
}

/// The message of a body that is, or declares to be, over `maximum` bytes.
pub open spec fn too_large_message_spec(maximum: usize) -> Seq<char> {
    "response exceeds "@ + decimal(maximum as nat) + " bytes"@
}

/// The message of a body over the size limit.
pub fn too_large_message(maximum: usize) -> (message: String)
    ensures
        message@ == too_large_message_spec(maximum),
{
    let mut message = String::from_str("response exceeds ");
    push_decimal(&mut message, maximum as u64);
    message.append(" bytes");
    message
}

/// Whether a `Content-Length` header announces more than `maximum` bytes; a
/// header that is absent or not a number announces nothing.
pub open spec fn declared_length_exceeds_spec(content_length: Option<Seq<char>>, maximum: usize) -> bool {
    match content_length {
        Some(text) => match parse_usize_spec(text) {
            Some(length) => length > maximum,
            None => false,
        },
        None => false,
    }
}

/// Whether the response announces a body larger than allowed.
pub fn declared_length_exceeds(content_length: Option<&str>, maximum: usize) -> (exceeds: bool)
    ensures
        exceeds == declared_length_exceeds_spec(
            match content_length { Some(t) => Some(t@), None => None },
            maximum,
        ),
{
    match content_length {
        None => false,
        Some(text) => {
            let chars = chars_vec(text);
            match parse_usize_chars(&chars) {
                Some(length) => length > maximum,
                None => false,
            }
        },
    }
}

/// What a request for one CodexRadar source gave back.
#[derive(Debug, PartialEq)]
pub enum SourceReply<T> {
    /// The cached value is still current (`304 Not Modified`).
    NotModified,
    /// A body arrived: its decoded value or the reason it could not be
    /// decoded, and the validator header sent with it.
    Decoded { decoded: Result<T, String>, validator: Option<String> },
    /// The request failed; the message says why.
    Failed(String),
}

/// The update a reply makes to a cached source: a fresh value with its
/// validator, the cached value kept, or a failure whose message names the
/// payload (`parse_subject`) for a body that could not be decoded and the
/// request (`request_subject`) for a transport failure.
pub fn source_update<T>(reply: SourceReply<T>, parse_subject: &str, request_subject: &str) -> (update: SourceUpdate<T>)
    ensures
        match reply {
            SourceReply::NotModified => update is NotModified,
            SourceReply::Decoded { decoded, validator } => match decoded {
                Ok(value) => update == SourceUpdate::Updated { value, validator },
                Err(reason) => update is Failed
                    && update->Failed_0@ == "unable to parse "@ + parse_subject@ + ": "@ + reason@,
            },
            SourceReply::Failed(message) => update is Failed
                && update->Failed_0@ == request_subject@ + " request failed: "@ + message@,
        },
{
    match reply {
        SourceReply::NotModified => SourceUpdate::NotModified,
        SourceReply::Decoded { decoded, validator } => match decoded {
            Ok(value) => SourceUpdate::Updated { value, validator },
            Err(reason) => {
                let mut message = String::from_str("unable to parse ");
                message.append(parse_subject);
                message.append(": ");
                message.append(reason.as_str());
                SourceUpdate::Failed(message)
            },
        },
        SourceReply::Failed(reason) => {
            let mut message = String::from_str(request_subject);
            message.append(" request failed: ");
            message.append(reason.as_str());
            SourceUpdate::Failed(message)
        },
    }
}

} // verus!
