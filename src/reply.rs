//! Extraction of the structured reply from the response body of the
//! generative endpoint.
use vstd::prelude::*;
use crate::json::{json_parses, json_str_at, parse_json, str_at};
use crate::text::matches_at;

verus! {

/// The structured reply of the model to one tell.
pub struct GeminiTellResponse {
    pub answer: String,
    pub summary: String,
    pub user_state: String,
    pub mood: String,
}

/// Why no structured reply could be taken from a response body.
#[derive(Debug, Clone, Copy, PartialEq, Eq)]
pub enum ReplyError {
    /// The response body is not a JSON document.
    MalformedEnvelope,
    /// The reply text is not a JSON object with the four string fields.
    MalformedReply,
}

/// The text used when the response holds no candidate text.
pub const FALLBACK_TEXT: &'static str = "Gemini is not in a mood today!";

/// Where the first text part of the first candidate stands in a response.
pub const CANDIDATE_TEXT_POINTER: &'static str = "/candidates/0/content/parts/0/text";

/// The four fields of a reply, as character sequences.
pub struct ReplyFields {
    pub answer: Seq<char>,
    pub summary: Seq<char>,
    pub user_state: Seq<char>,
    pub mood: Seq<char>,
}

impl GeminiTellResponse {
    pub open spec fn fields(&self) -> ReplyFields {
        ReplyFields {
            answer: self.answer@,
            summary: self.summary@,
            user_state: self.user_state@,
            mood: self.mood@,
        }
    }
}

/// The opening line of a fenced JSON block.
pub open spec fn fence_open() -> Seq<char> {
    seq!['`', '`', '`', 'j', 's', 'o', 'n', '\n']
}

/// The closing line of a fenced block.
pub open spec fn fence_close() -> Seq<char> {
    seq!['\n', '`', '`', '`']
}

pub open spec fn starts_with(s: Seq<char>, p: Seq<char>) -> bool {
    p.len() <= s.len() && s.subrange(0, p.len() as int) == p
}

pub open spec fn ends_with(s: Seq<char>, p: Seq<char>) -> bool {
    p.len() <= s.len() && s.subrange(s.len() - p.len(), s.len() as int) == p
}

/// `s` with the fence opener taken off its start and the fence closer off
/// its end, when it starts with the one and ends with the other; otherwise
/// `s` as it is. The closer is taken off only if it is still there once the
/// opener is gone.
pub open spec fn unfenced(s: Seq<char>) -> Seq<char> {
    if starts_with(s, fence_open()) && ends_with(s, fence_close()) {
        let t = s.subrange(fence_open().len() as int, s.len() as int);
        if ends_with(t, fence_close()) {
            t.subrange(0, t.len() - fence_close().len())
        } else {
            t
        }
    } else {
        s
    }
}

/// The first text part of the first candidate of a response body, or the
/// fallback text when there is none.
pub open spec fn candidate_text(body: Seq<char>) -> Seq<char> {
    match json_str_at(body, CANDIDATE_TEXT_POINTER@) {
        Some(t) => t,
        None => FALLBACK_TEXT@,
    }
}

/// The fields of the reply that `text` holds, if it is a JSON document with
/// a string at each of the four fields.
pub open spec fn reply_fields(text: Seq<char>) -> Option<ReplyFields> {
    if json_parses(text) && json_str_at(text, "/answer"@) is Some && json_str_at(
        text,
        "/summary"@,
    ) is Some && json_str_at(text, "/user_state"@) is Some && json_str_at(text, "/mood"@) is Some {
        Some(
            ReplyFields {
                answer: json_str_at(text, "/answer"@)->0,
                summary: json_str_at(text, "/summary"@)->0,
                user_state: json_str_at(text, "/user_state"@)->0,
                mood: json_str_at(text, "/mood"@)->0,
            },
        )
    } else {
        None
    }
}

/// What extracting the reply from a text gives: the fence is stripped, then
/// the rest is read as a reply.
pub open spec fn extracted(text: Seq<char>) -> Option<ReplyFields> {
    reply_fields(unfenced(text))
}

/// What `reply_from_body` gives for a response body.
pub open spec fn reply_of_body(body: Seq<char>) -> Result<ReplyFields, ReplyError> {
    if !json_parses(body) {
        Err(ReplyError::MalformedEnvelope)
    } else {
        match extracted(candidate_text(body)) {
            Some(f) => Ok(f),
            None => Err(ReplyError::MalformedReply),
        }
    }
}

pub open spec fn reply_result(r: Result<GeminiTellResponse, ReplyError>) -> Result<
    ReplyFields,
    ReplyError,
> {
    match r {
        Ok(g) => Ok(g.fields()),
        Err(e) => Err(e),
    }
}

/// Takes a leading "```json" line and a trailing "```" line off `text`, when
/// it starts and ends with them; otherwise hands `text` back unchanged.
pub fn strip_json_fence(text: &str) -> (r: String)
    ensures
        r@ == unfenced(text@),
{
    proof {
        reveal_strlit("```json\n");
        reveal_strlit("\n```");
    }
    let open = "```json\n";
    let close = "\n```";
    assert(open@ =~= fence_open());
    assert(close@ =~= fence_close());
    let n = text.unicode_len();
    let starts = n >= 8 && matches_at(text, n, 0, open, 8);
    let ends = n >= 4 && matches_at(text, n, n - 4, close, 4);
    if starts && ends {
        let t = text.substring_char(8, n);
        let tn = n - 8;
        if tn >= 4 && matches_at(t, tn, tn - 4, close, 4) {
            String::from_str(t.substring_char(0, tn - 4))
        } else {
            String::from_str(t)
        }
    } else {
        String::from_str(text)
    }
}

/// The first text part of the first candidate of a response body, or the
/// fallback text when the body holds none; fails when the body is not JSON.
pub fn candidate_text_of(body: &str) -> (r: Result<String, ReplyError>)
    ensures
        json_parses(body@) ==> (r matches Ok(t) && t@ == candidate_text(body@)),
        !json_parses(body@) ==> r == Err::<String, ReplyError>(ReplyError::MalformedEnvelope),
{
    match parse_json(body) {
        Err(_) => Err(ReplyError::MalformedEnvelope),
        Ok(doc) => match str_at(&doc, CANDIDATE_TEXT_POINTER) {
            Some(t) => Ok(t),
            None => Ok(String::from_str(FALLBACK_TEXT)),
        },
    }
}

/// Reads a reply text as a structured reply: a JSON document with a string
/// at each of `answer`, `summary`, `user_state` and `mood`. Anything else
/// fails; no partial reply is returned.
pub fn parse_reply(text: &str) -> (r: Result<GeminiTellResponse, ReplyError>)
    ensures
        match reply_fields(text@) {
            Some(f) => r matches Ok(g) && g.fields() == f,
            None => r == Err::<GeminiTellResponse, ReplyError>(ReplyError::MalformedReply),
        },
{
    let doc = match parse_json(text) {
        Ok(d) => d,
        Err(_) => return Err(ReplyError::MalformedReply),
    };
    let answer = str_at(&doc, "/answer");
    let summary = str_at(&doc, "/summary");
    let user_state = str_at(&doc, "/user_state");
    let mood = str_at(&doc, "/mood");
    match (answer, summary, user_state, mood) {
        (Some(answer), Some(summary), Some(user_state), Some(mood)) => Ok(
            GeminiTellResponse { answer, summary, user_state, mood },
        ),
        _ => Err(ReplyError::MalformedReply),
    }
}

/// Strips a JSON fence from a reply text and reads what is left as a reply.
pub fn extract_reply(text: &str) -> (r: Result<GeminiTellResponse, ReplyError>)
    ensures
        match extracted(text@) {
            Some(f) => r matches Ok(g) && g.fields() == f,
            None => r == Err::<GeminiTellResponse, ReplyError>(ReplyError::MalformedReply),
        },
{
    let inner = strip_json_fence(text);
    parse_reply(inner.as_str())
}

/// The structured reply held by a response body of the generative endpoint.
pub fn reply_from_body(body: &str) -> (r: Result<GeminiTellResponse, ReplyError>)
    ensures
        reply_result(r) == reply_of_body(body@),
{
    let text = match candidate_text_of(body) {
        Ok(t) => t,
        Err(e) => return Err(e),
    };
    extract_reply(text.as_str())
}

/// Wrapping a reply in a JSON fence does not change what is extracted from
/// it: the fence is taken off exactly. (A JSON text starts with whitespace
/// or a value, never with the fence's backticks.)
pub proof fn lemma_fence_transparent(j: Seq<char>)
    requires
        reply_fields(j) is Some,
        !starts_with(j, fence_open()),
    ensures
        unfenced(fence_open() + j + fence_close()) == j,
        extracted(fence_open() + j + fence_close()) == extracted(j),
        extracted(j) == reply_fields(j),
{
    let s = fence_open() + j + fence_close();
    assert(s.subrange(0, 8) =~= fence_open());
    assert(s.subrange(s.len() - 4, s.len() as int) =~= fence_close());
    let t = s.subrange(8, s.len() as int);
    assert(t =~= j + fence_close());
    assert(t.subrange(t.len() - 4, t.len() as int) =~= fence_close());
    assert(t.subrange(0, t.len() - 4) =~= j);
}

/// A text that lacks any of the four fields, or holds a non-string there,
/// is no reply.
pub proof fn lemma_missing_field_fails(text: Seq<char>)
    requires
        json_str_at(text, "/answer"@) is None || json_str_at(text, "/summary"@) is None
            || json_str_at(text, "/user_state"@) is None || json_str_at(text, "/mood"@) is None,
    ensures
        reply_fields(text) is None,
{
}

} // verus!
