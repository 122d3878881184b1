//! The stored record of one tell and the reply it received.
use vstd::prelude::*;
use crate::reply::{GeminiTellResponse, ReplyFields};

verus! {

/// An instant in UTC: whole seconds since the Unix epoch and the
/// nanoseconds past that second.
#[derive(Debug, Clone, Copy, PartialEq, Eq)]
pub struct UtcTimestamp {
    pub seconds: i64,
    pub nanos: u32,
}

impl UtcTimestamp {
    pub open spec fn wf(&self) -> bool {
        self.nanos < 1_000_000_000
    }
}

/// The record stored for each answered tell.
pub struct TellItem {
    pub tid: String,
    pub username: String,
    pub tell: String,
    pub answer: String,
    pub user_state: String,
    pub mood: String,
    pub created_at: UtcTimestamp,
    pub summary: Option<String>,
}

/// The shape of a record id: a hyphenated UUID of the fourth version,
/// `xxxxxxxx-xxxx-4xxx-xxxx-xxxxxxxxxxxx`.
pub open spec fn is_record_id(s: Seq<char>) -> bool {
    &&& s.len() == 36
    &&& s[8] == '-'
    &&& s[13] == '-'
    &&& s[14] == '4'
    &&& s[18] == '-'
    &&& s[23] == '-'
}

/// `item` records the tell `tell` of `username` and the reply `reply`.
pub open spec fn records(item: TellItem, username: Seq<char>, tell: Seq<char>, reply: ReplyFields) -> bool {
    &&& item.username@ == username
    &&& item.tell@ == tell
    &&& item.answer@ == reply.answer
    &&& item.user_state@ == reply.user_state
    &&& item.mood@ == reply.mood
    &&& item.summary matches Some(s) && s@ == reply.summary
}

/// Relies on `uuid::Uuid::new_v4` and the `Display` of `Uuid`: a random
/// version-4 UUID, written as 36 lowercase hyphenated characters.
#[verifier::external_body]
pub(crate) fn new_record_id() -> (r: String)
    ensures
        is_record_id(r@),
{
    uuid::Uuid::new_v4().to_string()
}

/// Relies on `chrono::Utc::now`, then `DateTime::timestamp` and
/// `DateTime::timestamp_subsec_nanos`: the time now, taken from the system
/// clock as a duration since the epoch.
#[verifier::external_body]
fn now_utc() -> (r: UtcTimestamp)
    ensures
        r.wf(),
        r.seconds >= 0,
{
    let now = chrono::Utc::now();
    UtcTimestamp { seconds: now.timestamp(), nanos: now.timestamp_subsec_nanos() }
}

/// The record of a tell and its reply, under the given id and time.
pub fn tell_record_with(
    username: &str,
    user_message: &str,
    ai_response: &GeminiTellResponse,
    tid: String,
    created_at: UtcTimestamp,
) -> (r: TellItem)
    ensures
        records(r, username@, user_message@, ai_response.fields()),
        r.tid == tid,
        r.created_at == created_at,
{
    TellItem {
        tid,
        username: String::from_str(username),
        tell: String::from_str(user_message),
        answer: ai_response.answer.clone(),
        user_state: ai_response.user_state.clone(),
        mood: ai_response.mood.clone(),
        created_at,
        summary: Some(ai_response.summary.clone()),
    }
}

/// The record of a tell and its reply, under a fresh random id and the
/// time now.
pub fn build_tell_record(
    username: &str,
    user_message: &str,
    ai_response: &GeminiTellResponse,
) -> (r: TellItem)
    ensures
        records(r, username@, user_message@, ai_response.fields()),
        is_record_id(r.tid@),
        r.created_at.wf(),
{
    let tid = new_record_id();
    let created_at = now_utc();
    tell_record_with(username, user_message, ai_response, tid, created_at)
}

} // verus!
