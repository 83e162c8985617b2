//! Checks on GitLab's answers: size limits, the HTTP status, and the text of
//! the errors they give.

use crate::json::{
    body_value, compact_json, is_body_value, json_compact, json_parse, json_pretty, pretty_json,
    Json,
};
use crate::request::owned;
use vstd::string::StringSliceAdditionalSpecFns;
use vstd::utf8::{decode_utf8, encode_utf8, valid_utf8};
use crate::text::{decimal, push_decimal, push_str};
use vstd::prelude::*;

verus! {

/// The error for an answer that declares a body larger than the limit.
pub open spec fn declared_too_large_text(len: nat, max: nat) -> Seq<char> {
    "GitLab response is "@ + decimal(len) + " bytes, exceeding the configured "@ + decimal(max)
        + " byte limit"@
}

/// The error for an answer whose body is larger than the limit.
pub open spec fn body_too_large_text(max: nat) -> Seq<char> {
    "GitLab response exceeds the configured "@ + decimal(max) + " byte limit"@
}

/// The error for an aggregated review whose text is larger than the limit.
pub open spec fn review_too_large_text(len: nat, max: nat) -> Seq<char> {
    "aggregated review context is "@ + decimal(len) + " bytes, exceeding the configured "@
        + decimal(max)
        + " byte limit; disable unneeded include_* sections, lower per_page, or increase GITLAB_MAX_RESPONSE_BYTES"@
}

/// Checks the body length an answer declares, before reading it.
pub fn check_declared_length(content_length: Option<u64>, max_bytes: usize) -> (r: Result<
    (),
    String,
>)
    ensures
        match content_length {
            Some(len) => if len > max_bytes {
                r matches Err(m) && m@ == declared_too_large_text(len as nat, max_bytes as nat)
            } else {
                r is Ok
            },
            None => r is Ok,
        },
{
    match content_length {
        Some(len) => {
            if len > max_bytes as u64 {
                let mut m = owned("GitLab response is ");
                push_decimal(&mut m, len);
                push_str(&mut m, " bytes, exceeding the configured ");
                push_decimal(&mut m, max_bytes as u64);
                push_str(&mut m, " byte limit");
                Err(m)
            } else {
                Ok(())
            }
        },
        None => Ok(()),
    }
}

/// Checks the length of a body that was read.
pub fn check_body_length(len: usize, max_bytes: usize) -> (r: Result<(), String>)
    ensures
        if len > max_bytes {
            r matches Err(m) && m@ == body_too_large_text(max_bytes as nat)
        } else {
            r is Ok
        },
{
    if len > max_bytes {
        let mut m = owned("GitLab response exceeds the configured ");
        push_decimal(&mut m, max_bytes as u64);
        push_str(&mut m, " byte limit");
        Err(m)
    } else {
        Ok(())
    }
}

/// Whether an HTTP status code reports success: 200 to 299.
pub open spec fn is_success_code(code: u16) -> bool {
    200 <= code && code <= 299
}

/// The error for an answer whose status is not a success: the status as
/// text, then the body rendered as JSON.
pub open spec fn api_error_text(status: Seq<char>, detail: Seq<char>) -> Seq<char> {
    "GitLab API returned "@ + status + ": "@ + detail
}

/// The error an answer stands for: none for a success status, otherwise
/// the status and body.
pub fn status_error(code: u16, status: &str, detail: &str) -> (r: Option<String>)
    ensures
        if is_success_code(code) {
            r is None
        } else {
            r matches Some(m) && m@ == api_error_text(status@, detail@)
        },
{
    if 200 <= code && code <= 299 {
        None
    } else {
        let mut m = owned("GitLab API returned ");
        push_str(&mut m, status);
        push_str(&mut m, ": ");
        push_str(&mut m, detail);
        Some(m)
    }
}

/// The error for a request that never reached GitLab.
pub fn connect_error(base_api_url: &str) -> (m: String)
    ensures
        m@ == "failed to connect to GitLab at "@ + base_api_url@,
{
    let mut m = owned("failed to connect to GitLab at ");
    push_str(&mut m, base_api_url);
    m
}

/// Checks the size of an aggregated review's text against the limit.
pub fn check_review_size(text_len: usize, max_bytes: usize) -> (r: Result<(), String>)
    ensures
        if text_len > max_bytes {
            r matches Err(m) && m@ == review_too_large_text(text_len as nat, max_bytes as nat)
        } else {
            r is Ok
        },
{
    if text_len > max_bytes {
        let mut m = owned("aggregated review context is ");
        push_decimal(&mut m, text_len as u64);
        push_str(&mut m, " bytes, exceeding the configured ");
        push_decimal(&mut m, max_bytes as u64);
        push_str(
            &mut m,
            " byte limit; disable unneeded include_* sections, lower per_page, or increase GITLAB_MAX_RESPONSE_BYTES",
        );
        Err(m)
    } else {
        Ok(())
    }
}

/// Reads an answer's body: refuses it when it is larger than the limit;
/// otherwise takes the JSON document it holds (or else its text), and gives
/// that back for a success status, or the status and the document's compact
/// JSON as the error.
pub fn decode_body(code: u16, status: &str, bytes: &[u8], max_bytes: usize) -> (r: Result<
    Json,
    String,
>)
    ensures
        bytes@.len() > max_bytes ==> (r matches Err(m) && m@ == body_too_large_text(
            max_bytes as nat,
        )),
        bytes@.len() <= max_bytes && is_success_code(code) ==> (r matches Ok(v) && is_body_value(
            v,
            bytes@,
        )),
        bytes@.len() <= max_bytes && !is_success_code(code) ==> (r matches Err(m) && exists|v: Json|
            is_body_value(v, bytes@) && m@ == api_error_text(status@, json_compact(v))),
        bytes@.len() <= max_bytes && is_success_code(code) && json_parse(bytes@) is None
            && valid_utf8(bytes@) ==> (r matches Ok(Json::Str(s)) && s@ == decode_utf8(bytes@)),
{
    if let Err(m) = check_body_length(bytes.len(), max_bytes) {
        return Err(m);
    }
    let value = body_value(bytes);
    let detail = compact_json(&value);
    match status_error(code, status, detail.as_str()) {
        Some(m) => {
            assert(is_body_value(value, bytes@) && m@ == api_error_text(status@, json_compact(value)));
            Err(m)
        },
        None => Ok(value),
    }
}

/// What a tool shows for GitLab's answer: the document as indented JSON, or
/// the error's text.
pub fn tool_output(result: Result<Json, String>) -> (r: Result<String, String>)
    ensures
        match result {
            Ok(doc) => r matches Ok(t) && t@ == json_pretty(doc),
            Err(e) => r matches Err(m) && m@ == e@,
        },
{
    match result {
        Ok(doc) => Ok(pretty_json(&doc)),
        Err(e) => Err(e),
    }
}

/// What the review tool shows: the review document as indented JSON, unless
/// that text is larger than the limit in bytes (its UTF-8 length, as
/// `str::len` reports it).
pub fn review_output(doc: &Json, max_bytes: usize) -> (r: Result<String, String>)
    ensures
        ({
            let len = encode_utf8(json_pretty(*doc)).len() as usize;
            &&& len <= max_bytes ==> (r matches Ok(t) && t@ == json_pretty(*doc))
            &&& len > max_bytes ==> (r matches Err(m) && m@ == review_too_large_text(
                len as nat,
                max_bytes as nat,
            ))
        }),
{
    let text = pretty_json(doc);
    let len: usize = text.as_str().len();
    match check_review_size(len, max_bytes) {
        Ok(()) => Ok(text),
        Err(m) => Err(m),
    }
}

} // verus!
