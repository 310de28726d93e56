//! Acceptance rules for an HTTPS response: status, size, encoding and shape.

use vstd::prelude::*;
use vstd::string::*;
use vstd::utf8::{decode_utf8, valid_utf8};
use crate::text::{append_decimal, chars_of, decimal, trim_start, trim_start_index};

verus! {

/// Time after which a request is given up.
pub const TIMEOUT_MS: u64 = 15_000;

/// Largest body that is accepted.
pub const MAX_BODY_BYTES: usize = 32_768;

/// Size of one read from the connection.
pub const READ_CHUNK_BYTES: usize = 1024;

/// Why a response was refused.
#[derive(Debug, Clone, Copy, PartialEq, Eq, Structural)]
pub enum HttpError {
    /// The server answered 429.
    RateLimited,
    /// The server answered with this status, which is neither 200 nor 429.
    Status(u16),
    /// The body is longer than the largest accepted one.
    TooLarge,
    /// The body is not valid UTF-8.
    InvalidUtf8,
    /// The body does not begin, after white space, with an opening brace.
    NotJson,
}

impl HttpError {
    /// The text of the message.
    pub open spec fn message_text(self) -> Seq<char> {
        match self {
            HttpError::RateLimited => "API rate limited (HTTP 429)"@,
            HttpError::Status(code) => "HTTP error: status "@ + decimal(code as int),
            HttpError::TooLarge => "Response too large (>32KB)"@,
            HttpError::InvalidUtf8 => "Response is not valid UTF-8"@,
            HttpError::NotJson => "Response is not JSON"@,
        }
    }

    /// A message for the log.
    pub fn message(&self) -> (m: String)
        ensures
            m@ == self.message_text(),
    {
        match self {
            HttpError::RateLimited => String::from_str("API rate limited (HTTP 429)"),
            HttpError::Status(code) => {
                let mut m: String = String::from_str("HTTP error: status ");
                append_decimal(&mut m, *code as i64);
                m
            },
            HttpError::TooLarge => String::from_str("Response too large (>32KB)"),
            HttpError::InvalidUtf8 => String::from_str("Response is not valid UTF-8"),
            HttpError::NotJson => String::from_str("Response is not JSON"),
        }
    }
}

/// Accepts status 200 and nothing else.
pub fn check_status(status: u16) -> (r: Result<(), HttpError>)
    ensures
        r == if status == 429 {
            Err::<(), HttpError>(HttpError::RateLimited)
        } else if status != 200 {
            Err(HttpError::Status(status))
        } else {
            Ok(())
        },
{
    if status == 429 {
        Err(HttpError::RateLimited)
    } else if status != 200 {
        Err(HttpError::Status(status))
    } else {
        Ok(())
    }
}

/// Adds what one read returned to the body, and refuses the body once it is
/// longer than the largest accepted one.
pub fn push_chunk(body: &mut Vec<u8>, chunk: &[u8]) -> (r: Result<(), HttpError>)
    ensures
        final(body)@ == old(body)@ + chunk@,
        r == if old(body)@.len() + chunk@.len() > MAX_BODY_BYTES {
            Err::<(), HttpError>(HttpError::TooLarge)
        } else {
            Ok(())
        },
{
    body.extend_from_slice(chunk);
    if body.len() > MAX_BODY_BYTES {
        Err(HttpError::TooLarge)
    } else {
        Ok(())
    }
}

/// Calls `String::from_utf8`, which turns the bytes into a string if and
/// only if they are valid UTF-8, and keeps them as they are.
#[verifier::external_body]
fn string_from_utf8(bytes: Vec<u8>) -> (r: Option<String>)
    ensures
        r is Some <==> valid_utf8(bytes@),
        r matches Some(s) ==> s@ == decode_utf8(bytes@),
{
    String::from_utf8(bytes).ok()
}

/// The text begins, after white space, with an opening brace.
pub open spec fn looks_like_json(text: Seq<char>) -> bool {
    trim_start(text).len() > 0 && trim_start(text)[0] == '{'
}

/// Turns a complete body into text: it must be valid UTF-8 and must look
/// like a JSON object.
pub fn finish_body(body: Vec<u8>) -> (r: Result<String, HttpError>)
    ensures
        match r {
            Ok(text) => valid_utf8(body@) && text@ == decode_utf8(body@) && looks_like_json(
                text@,
            ),
            Err(e) => e == if !valid_utf8(body@) {
                HttpError::InvalidUtf8
            } else {
                HttpError::NotJson
            } && (valid_utf8(body@) ==> !looks_like_json(decode_utf8(body@))),
        },
{
    match string_from_utf8(body) {
        None => Err(HttpError::InvalidUtf8),
        Some(text) => {
            let chars: Vec<char> = chars_of(text.as_str());
            let start: usize = trim_start_index(&chars);
            if start < chars.len() && chars[start] == '{' {
                Ok(text)
            } else {
                Err(HttpError::NotJson)
            }
        },
    }
}

} // verus!
