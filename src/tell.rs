//! One tell, as a sequence of decisions: look up the user's earlier records,
//! ask the generative endpoint, store the record, answer. The outside work
//! between the decisions (the lookup, the call, the write) is done by the
//! caller, which hands each outcome back as an event.
use vstd::prelude::*;
use crate::prompts::{
    get_templated_prompt, substituted, tell_bindings, PromptData, PromptError, PromptName,
    TellReplacements, TELL_TEMPLATE,
};
use crate::record::{build_tell_record, is_record_id, records, TellItem};
use crate::reply::{reply_from_body, reply_of_body, ReplyError};
use crate::schema::{context_text, resolve_context, resolved_context, seed_context, Context, ContextView};

verus! {

/// The table the tell records are stored in.
pub const TELLS_TABLE_NAME: &'static str = "teal-tells";

/// The table the users are stored in.
pub const USERS_TABLE_NAME: &'static str = "teal-users";

/// The key attribute of both tables.
pub const KEY: &'static str = "tid";

/// Where a tell stands.
#[derive(Debug, Clone, Copy, PartialEq, Eq)]
pub enum TellStage {
    /// Waiting for the user's earlier records.
    AwaitHistory,
    /// The prompt was sent; waiting for the response body.
    AwaitReply,
    /// The record was handed to storage; waiting for the outcome.
    AwaitStore,
    /// Answered or failed; nothing more happens.
    Done,
}

/// Why a tell failed.
#[derive(Debug, Clone, Copy, PartialEq, Eq)]
pub enum TellError {
    /// The prompt could not be rendered.
    Prompt(PromptError),
    /// The generative endpoint could not be reached or did not succeed.
    Transport,
    /// The response held no well-formed reply.
    Reply(ReplyError),
    /// The record could not be stored.
    Storage,
    /// An event came that the tell was not waiting for.
    UnexpectedEvent,
}

/// The outcome of a piece of outside work.
pub enum TellEvent {
    /// The user's earlier records, oldest first; `None` when the lookup failed.
    History(Option<Vec<TellItem>>),
    /// The response body of the generative endpoint; `None` when the call failed.
    Reply(Option<String>),
    /// Whether the record was stored.
    Stored(bool),
}

/// What the caller does next.
pub enum TellAction {
    /// Look up the earlier records of this user.
    LookUpHistory(String),
    /// Send this prompt to the generative endpoint.
    Ask(String),
    /// Store this record in the tells table.
    Store(TellItem),
    /// The tell is answered with this text.
    Answer(String),
    /// The tell failed.
    Fail(TellError),
}

/// A tell in progress.
pub struct TellSession {
    pub username: String,
    pub text: String,
    pub stage: TellStage,
    /// The answer, once the reply has come.
    pub answer: Option<String>,
}

/// The prompt for a tell of `username` in the context `c`.
pub open spec fn tell_prompt_text(username: Seq<char>, text: Seq<char>, c: ContextView) -> Seq<char> {
    substituted(TELL_TEMPLATE@, tell_bindings(username, context_text(c), text))
}

pub open spec fn history_view(h: Option<Vec<TellItem>>) -> Option<Seq<TellItem>> {
    match h {
        Some(v) => Some(v@),
        None => None,
    }
}

/// `post` and `act` are what a tell in `pre` does on the event `ev`.
pub open spec fn step_spec(pre: TellSession, ev: TellEvent, post: TellSession, act: TellAction) -> bool {
    &&& post.username == pre.username
    &&& post.text == pre.text
    &&& match pre.stage {
        TellStage::AwaitHistory => match ev {
            TellEvent::History(h) => {
                &&& post.stage == TellStage::AwaitReply
                &&& act matches TellAction::Ask(p) && p@ == tell_prompt_text(
                    pre.username@,
                    pre.text@,
                    resolved_context(None, history_view(h)),
                )
            },
            _ => post.stage == TellStage::Done && act == TellAction::Fail(TellError::UnexpectedEvent),
        },
        TellStage::AwaitReply => match ev {
            TellEvent::Reply(None) => post.stage == TellStage::Done && act == TellAction::Fail(
                TellError::Transport,
            ),
            TellEvent::Reply(Some(body)) => match reply_of_body(body@) {
                Ok(f) => {
                    &&& post.stage == TellStage::AwaitStore
                    &&& post.answer matches Some(a) && a@ == f.answer
                    &&& act matches TellAction::Store(item) && records(
                        item,
                        pre.username@,
                        pre.text@,
                        f,
                    ) && is_record_id(item.tid@) && item.created_at.wf()
                },
                Err(e) => post.stage == TellStage::Done && act == TellAction::Fail(
                    TellError::Reply(e),
                ),
            },
            _ => post.stage == TellStage::Done && act == TellAction::Fail(TellError::UnexpectedEvent),
        },
        TellStage::AwaitStore => match ev {
            TellEvent::Stored(true) => post.stage == TellStage::Done && match pre.answer {
                Some(a) => act == TellAction::Answer(a),
                None => act == TellAction::Fail(TellError::UnexpectedEvent),
            },
            TellEvent::Stored(false) => post.stage == TellStage::Done && act == TellAction::Fail(
                TellError::Storage,
            ),
            _ => post.stage == TellStage::Done && act == TellAction::Fail(TellError::UnexpectedEvent),
        },
        TellStage::Done => post.stage == TellStage::Done && act == TellAction::Fail(
            TellError::UnexpectedEvent,
        ),
    }
}

/// Renders the "tell" prompt for a tell of `username` in `context`.
pub fn tell_prompt(username: &str, text: &str, context: &Context) -> (r: Result<String, PromptError>)
    ensures
        r matches Ok(p) && p@ == tell_prompt_text(username@, text@, context@),
{
    let context_string = context.to_string();
    let data = PromptData::Tell(
        TellReplacements { username, context: context_string.as_str(), tell: text },
    );
    get_templated_prompt(PromptName::Tell, data)
}

/// The session and first action of a tell of `text` by `username`. With a
/// context given, the prompt is sent at once; otherwise the user's earlier
/// records are looked up first.
pub fn start_tell(username: &str, text: &str, context: Option<Context>) -> (r: (
    TellSession,
    TellAction,
))
    ensures
        r.0.username@ == username@,
        r.0.text@ == text@,
        r.0.answer is None,
        match context {
            Some(c) => r.0.stage == TellStage::AwaitReply && (r.1 matches TellAction::Ask(p) && p@
                == tell_prompt_text(username@, text@, c@)),
            None => r.0.stage == TellStage::AwaitHistory && (r.1 matches TellAction::LookUpHistory(
                u,
            ) && u@ == username@),
        },
{
    let session = TellSession {
        username: String::from_str(username),
        text: String::from_str(text),
        stage: TellStage::AwaitHistory,
        answer: None,
    };
    match context {
        Some(c) => {
            let action = match tell_prompt(username, text, &c) {
                Ok(p) => TellAction::Ask(p),
                Err(e) => TellAction::Fail(TellError::Prompt(e)),
            };
            (TellSession { stage: TellStage::AwaitReply, ..session }, action)
        },
        None => (session, TellAction::LookUpHistory(String::from_str(username))),
    }
}

/// What a tell does on the outcome `event` of the work last asked for.
pub fn step_tell(session: TellSession, event: TellEvent) -> (r: (TellSession, TellAction))
    ensures
        step_spec(session, event, r.0, r.1),
{
    let TellSession { username, text, stage, answer } = session;
    let done = TellStage::Done;
    let unexpected = TellAction::Fail(TellError::UnexpectedEvent);
    match stage {
        TellStage::AwaitHistory => match event {
            TellEvent::History(h) => {
                let context = resolve_context(None, h);
                let action = match tell_prompt(username.as_str(), text.as_str(), &context) {
                    Ok(p) => TellAction::Ask(p),
                    Err(e) => TellAction::Fail(TellError::Prompt(e)),
                };
                (TellSession { username, text, stage: TellStage::AwaitReply, answer }, action)
            },
            _ => (TellSession { username, text, stage: done, answer }, unexpected),
        },
        TellStage::AwaitReply => match event {
            TellEvent::Reply(None) => (
                TellSession { username, text, stage: done, answer },
                TellAction::Fail(TellError::Transport),
            ),
            TellEvent::Reply(Some(body)) => match reply_from_body(body.as_str()) {
                Ok(reply) => {
                    let item = build_tell_record(username.as_str(), text.as_str(), &reply);
                    let a = reply.answer;
                    (
                        TellSession { username, text, stage: TellStage::AwaitStore, answer: Some(a) },
                        TellAction::Store(item),
                    )
                },
                Err(e) => (
                    TellSession { username, text, stage: done, answer },
                    TellAction::Fail(TellError::Reply(e)),
                ),
            },
            _ => (TellSession { username, text, stage: done, answer }, unexpected),
        },
        TellStage::AwaitStore => match event {
            TellEvent::Stored(ok) => {
                let action = if ok {
                    match &answer {
                        Some(a) => TellAction::Answer(a.clone()),
                        None => unexpected,
                    }
                } else {
                    TellAction::Fail(TellError::Storage)
                };
                (TellSession { username, text, stage: done, answer }, action)
            },
            _ => (TellSession { username, text, stage: done, answer }, unexpected),
        },
        TellStage::Done => (TellSession { username, text, stage: done, answer }, unexpected),
    }
}

/// When the lookup of earlier records fails, the tell goes on: the prompt
/// is rendered in the seed context.
pub proof fn lemma_lookup_failure_uses_seed(pre: TellSession, post: TellSession, act: TellAction)
    requires
        pre.stage == TellStage::AwaitHistory,
        step_spec(pre, TellEvent::History(None), post, act),
    ensures
        post.stage == TellStage::AwaitReply,
        act matches TellAction::Ask(p) && p@ == tell_prompt_text(
            pre.username@,
            pre.text@,
            seed_context(),
        ),
{
}

/// A response without a well-formed reply fails the tell before anything
/// is stored, and a failed tell stays failed: no later event stores a record.
pub proof fn lemma_malformed_reply_stores_nothing(
    pre: TellSession,
    body: String,
    mid: TellSession,
    act: TellAction,
    ev: TellEvent,
    post: TellSession,
    act2: TellAction,
)
    requires
        pre.stage == TellStage::AwaitReply,
        reply_of_body(body@) is Err,
        step_spec(pre, TellEvent::Reply(Some(body)), mid, act),
        step_spec(mid, ev, post, act2),
    ensures
        act is Fail,
        mid.stage == TellStage::Done,
        act2 is Fail,
        post.stage == TellStage::Done,
{
}

/// A tell whose record could not be stored fails: its answer is not given.
pub proof fn lemma_store_failure_fails(pre: TellSession, post: TellSession, act: TellAction)
    requires
        pre.stage == TellStage::AwaitStore,
        step_spec(pre, TellEvent::Stored(false), post, act),
    ensures
        act == TellAction::Fail(TellError::Storage),
        post.stage == TellStage::Done,
{
}

/// A well-formed reply is stored as one record of the tell and its four
/// fields, and once the record is stored the tell is answered with the
/// reply's answer.
pub proof fn lemma_reply_stored_then_answered(
    pre: TellSession,
    body: String,
    mid: TellSession,
    act: TellAction,
    post: TellSession,
    act2: TellAction,
)
    requires
        pre.stage == TellStage::AwaitReply,
        reply_of_body(body@) is Ok,
        step_spec(pre, TellEvent::Reply(Some(body)), mid, act),
        step_spec(mid, TellEvent::Stored(true), post, act2),
    ensures
        act matches TellAction::Store(item) && records(
            item,
            pre.username@,
            pre.text@,
            reply_of_body(body@)->Ok_0,
        ),
        act2 matches TellAction::Answer(a) && a@ == reply_of_body(body@)->Ok_0.answer,
        post.stage == TellStage::Done,
{
}

} // verus!
