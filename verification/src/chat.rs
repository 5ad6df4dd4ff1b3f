//! The request forwarder's two computations.
//!
//! The HTTP call itself happens outside the library.  Here stand the
//! payload that is sent — a JSON object holding the model identifier and
//! the prompt — and the reading of the answer: on a non-success status
//! the raw response body is the error; on success the `response` string
//! field is extracted, and its absence is the distinct missing-field
//! error.

use vstd::prelude::*;
use vstd::string::*;
use crate::jsontext::{escape_text, field_value};

verus! {

/// What reading a chat response can report instead of text.
#[derive(Debug, PartialEq, Eq)]
pub enum ChatError {
    /// The HTTP status was not a success; the raw response body is kept.
    HttpFailure(Vec<u8>),
    /// The response parsed, but held no `response` string field.
    MissingField,
}

/// The request body for a prompt: `{"model":"…","prompt":"…"}` with the
/// two texts escaped.
pub open spec fn payload_spec(model: Seq<u8>, prompt: Seq<u8>) -> Seq<u8> {
    ("{\"model\":\"").spec_bytes() + escape_text(model) + ("\",\"prompt\":\"").spec_bytes()
        + escape_text(prompt) + ("\"}").spec_bytes()
}

/// The text the forwarder returns for a response: the `response` string
/// field of the body, when the status was a success and the field is
/// there.
pub open spec fn response_field(body: Seq<u8>) -> Option<Seq<u8>> {
    field_value(body, ("response").spec_bytes())
}

/// Build the JSON request body for a prompt.
pub fn build_chat_payload(model: &[u8], prompt: &[u8]) -> (r: Vec<u8>)
    ensures
        r@ == payload_spec(model@, prompt@),
{
    let mut out: Vec<u8> = ("{\"model\":\"").as_bytes_vec();
    crate::jsontext::push_escaped(&mut out, model);
    out.extend_from_slice(("\",\"prompt\":\"").as_bytes());
    crate::jsontext::push_escaped(&mut out, prompt);
    out.extend_from_slice(("\"}").as_bytes());
    out
}

/// Read a chat response: a non-success status surfaces the raw body as
/// the error; a success yields the `response` field, or the
/// missing-field error when the body holds none.
pub fn chat_outcome(status_ok: bool, body: &[u8]) -> (r: Result<Vec<u8>, ChatError>)
    ensures
        !status_ok ==> (r matches Err(ChatError::HttpFailure(b)) && b@ == body@),
        status_ok ==> match response_field(body@) {
            Some(v) => r matches Ok(o) && o@ == v,
            None => r matches Err(ChatError::MissingField),
        },
{
    if !status_ok {
        return Err(ChatError::HttpFailure(vstd::slice::slice_to_vec(body)));
    }
    let key: Vec<u8> = ("response").as_bytes_vec();
    match crate::jsontext::extract_string_field(body, key.as_slice()) {
        Some(v) => Ok(v),
        None => Err(ChatError::MissingField),
    }
}

} // verus!
