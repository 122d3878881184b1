//! Validation of an incoming tell request.
use vstd::prelude::*;
use vstd::utf8::*;
use crate::json::{json_parses, json_str_at, parse_json, str_at};
use crate::prompts::decode_text;

verus! {

/// What `str::trim` leaves of a text.
pub uninterp spec fn trimmed(s: Seq<char>) -> Seq<char>;

/// Relies on `str::trim`: the text without its leading and trailing white
/// space; an empty text stays empty.
#[verifier::external_body]
fn trim_text(s: &str) -> (r: String)
    ensures
        r@ == trimmed(s@),
        s@.len() == 0 ==> r@.len() == 0,
{
    s.trim().to_string()
}

/// Why a tell request was refused.
#[derive(Debug, Clone, Copy, PartialEq, Eq)]
pub enum RequestError {
    BodyRequired,
    InvalidJsonBody,
    EmptyText,
    MissingUsername,
}

impl RequestError {
    pub open spec fn message_text(&self) -> Seq<char> {
        match self {
            RequestError::BodyRequired => "Request body required"@,
            RequestError::InvalidJsonBody => "Invalid JSON body"@,
            RequestError::EmptyText => "text cannot be an empty string"@,
            RequestError::MissingUsername => "missing username query param"@,
        }
    }

    /// The message shown to the client.
    pub fn message(&self) -> (r: &'static str)
        ensures
            r@ == self.message_text(),
    {
        match self {
            RequestError::BodyRequired => "Request body required",
            RequestError::InvalidJsonBody => "Invalid JSON body",
            RequestError::EmptyText => "text cannot be an empty string",
            RequestError::MissingUsername => "missing username query param",
        }
    }
}

/// The text of a request body: the string field `text` of the JSON object
/// the body holds, if it holds one.
pub open spec fn body_text(body: Seq<u8>) -> Option<Seq<char>> {
    if valid_utf8(body) && json_parses(decode_utf8(body)) {
        json_str_at(decode_utf8(body), "/text"@)
    } else {
        None
    }
}

/// What `parse_tell_request` gives: the first failing check, in the order
/// body present, body well-formed, text not blank, username present.
pub open spec fn tell_request(body: Seq<u8>, username: Option<Seq<char>>) -> Result<
    (Seq<char>, Seq<char>),
    RequestError,
> {
    if body.len() == 0 {
        Err(RequestError::BodyRequired)
    } else if body_text(body) is None {
        Err(RequestError::InvalidJsonBody)
    } else if trimmed(body_text(body)->0).len() == 0 {
        Err(RequestError::EmptyText)
    } else if username is None {
        Err(RequestError::MissingUsername)
    } else {
        Ok((username->0, body_text(body)->0))
    }
}

pub open spec fn request_result(r: Result<(String, String), RequestError>) -> Result<
    (Seq<char>, Seq<char>),
    RequestError,
> {
    match r {
        Ok((u, t)) => Ok((u@, t@)),
        Err(e) => Err(e),
    }
}

/// Checks a tell request, given its raw body and its `username` query
/// parameter, and returns the username and the text to tell.
pub fn parse_tell_request(body: Vec<u8>, username: Option<String>) -> (r: Result<
    (String, String),
    RequestError,
>)
    ensures
        request_result(r) == tell_request(
            body@,
            match username {
                Some(u) => Some(u@),
                None => None,
            },
        ),
{
    if body.len() == 0 {
        return Err(RequestError::BodyRequired);
    }
    let ghost b = body@;
    let decoded = match decode_text(body) {
        Some(s) => s,
        None => return Err(RequestError::InvalidJsonBody),
    };
    let doc = match parse_json(decoded.as_str()) {
        Ok(d) => d,
        Err(_) => return Err(RequestError::InvalidJsonBody),
    };
    let text = match str_at(&doc, "/text") {
        Some(t) => t,
        None => return Err(RequestError::InvalidJsonBody),
    };
    assert(body_text(b) == Some(text@));
    let trimmed_text = trim_text(text.as_str());
    if trimmed_text.unicode_len() == 0 {
        return Err(RequestError::EmptyText);
    }
    match username {
        Some(u) => Ok((u, text)),
        None => Err(RequestError::MissingUsername),
    }
}

} // verus!
