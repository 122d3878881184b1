use std::time::{SystemTime, UNIX_EPOCH};
use teal::record::{build_tell_record, tell_record_with, TellItem, UtcTimestamp};
use teal::reply::{GeminiTellResponse, ReplyError};
use teal::schema::{get_context, Context};
use teal::tell::{
    start_tell, step_tell, tell_prompt, TellAction, TellError, TellEvent, TellSession, TellStage,
};

fn now_seconds() -> i64 {
    SystemTime::now().duration_since(UNIX_EPOCH).unwrap().as_secs() as i64
}

#[test]
fn test_get_context() {
    let context = get_context();

    assert_eq!(context.mood, "satisfied");
    assert!(context.summary.contains("job search frustrations"));
    assert_eq!(context.summary_history.len(), 4);
    assert_eq!(context.tell_history.len(), 4);

    assert!(context.summary_history[0].contains("Hopeful, determined"));
    assert!(context.tell_history[0].contains("Another day of no job"));
}

#[test]
fn tell_test_context_display() {
    let context = Context {
        mood: "excited".to_string(),
        summary: "User got a new job".to_string(),
        summary_history: vec!["Was looking for work".to_string(), "Had interviews".to_string()],
        tell_history: vec!["I'm job hunting".to_string(), "Interview went well".to_string()],
    };

    let display = context.to_string();
    assert!(display.contains("My current mood: excited"));
    assert!(display.contains("My current situation: User got a new job"));
    assert!(display.contains("Was looking for work, Had interviews"));
    assert!(display.contains("I'm job hunting, Interview went well"));
}

#[test]
fn tell_test_context_display_empty_histories() {
    let context = Context {
        mood: "calm".to_string(),
        summary: "First conversation".to_string(),
        summary_history: vec![],
        tell_history: vec![],
    };

    let display = context.to_string();
    assert!(display.contains("My current mood: calm"));
    assert!(display.contains("My current situation: First conversation"));
    assert!(display.contains("My past situations: "));
    assert!(display.contains("My past tells to you: "));
}

#[test]
fn tell_test_context_display_single_items() {
    let context = Context {
        mood: "hopeful".to_string(),
        summary: "User shared good news".to_string(),
        summary_history: vec!["Previous summary".to_string()],
        tell_history: vec!["My single tell".to_string()],
    };

    let display = context.to_string();
    assert!(display.contains("Previous summary"));
    assert!(display.contains("My single tell"));
    assert!(!display.contains(", "));
}

#[test]
fn test_build_tell_record() {
    let ai_response = GeminiTellResponse {
        answer: "That sounds like an exciting opportunity!".to_string(),
        summary: "User got job interview".to_string(),
        user_state: "hopeful and nervous".to_string(),
        mood: "excited".to_string(),
    };

    let tell_item = build_tell_record("testuser", "I have an interview tomorrow!", &ai_response);

    assert_eq!(tell_item.username, "testuser");
    assert_eq!(tell_item.tell, "I have an interview tomorrow!");
    assert_eq!(tell_item.answer, "That sounds like an exciting opportunity!");
    assert_eq!(tell_item.user_state, "hopeful and nervous");
    assert_eq!(tell_item.mood, "excited");
    assert_eq!(tell_item.summary, Some("User got job interview".to_string()));

    // The id is a hyphenated UUID.
    assert!(!tell_item.tid.is_empty());
    assert!(tell_item.tid.contains('-'));

    // The timestamp is recent (within the last minute).
    let diff = now_seconds() - tell_item.created_at.seconds;
    assert!(diff < 60);
}

#[test]
fn test_build_tell_record_with_empty_values() {
    let ai_response = GeminiTellResponse {
        answer: "".to_string(),
        summary: "".to_string(),
        user_state: "".to_string(),
        mood: "".to_string(),
    };

    let tell_item = build_tell_record("", "", &ai_response);

    assert_eq!(tell_item.username, "");
    assert_eq!(tell_item.tell, "");
    assert_eq!(tell_item.answer, "");
    assert_eq!(tell_item.user_state, "");
    assert_eq!(tell_item.mood, "");
    assert_eq!(tell_item.summary, Some("".to_string()));
}

#[test]
fn record_ids_are_uuids_and_distinct() {
    let r = GeminiTellResponse {
        answer: "a".to_string(),
        summary: "s".to_string(),
        user_state: "u".to_string(),
        mood: "m".to_string(),
    };
    let a = build_tell_record("u", "t", &r);
    let b = build_tell_record("u", "t", &r);
    assert_eq!(a.tid.len(), 36);
    assert_eq!(a.tid.as_bytes()[14], b'4');
    assert_ne!(a.tid, b.tid);
    assert!(a.created_at.nanos < 1_000_000_000);
}

#[test]
fn record_with_given_id_and_time() {
    let r = GeminiTellResponse {
        answer: "a".to_string(),
        summary: "s".to_string(),
        user_state: "u".to_string(),
        mood: "m".to_string(),
    };
    let at = UtcTimestamp { seconds: 1_700_000_000, nanos: 5 };
    let item = tell_record_with("ada", "hi", &r, "fixed".to_string(), at);
    assert_eq!(item.tid, "fixed");
    assert_eq!(item.created_at, at);
    assert_eq!(item.summary, Some("s".to_string()));
}

fn envelope(reply_json: &str) -> String {
    let escaped = reply_json.replace('\\', "\\\\").replace('"', "\\\"").replace('\n', "\\n");
    format!("{{\"candidates\":[{{\"content\":{{\"parts\":[{{\"text\":\"{}\"}}]}}}}]}}", escaped)
}

const ADA_REPLY: &str = "{\"answer\":\"Congratulations, that's well earned.\",\"summary\":\"User got a job\",\"user_state\":\"relieved and proud\",\"mood\":\"joyful\"}";

fn ask_prompt(action: TellAction) -> String {
    match action {
        TellAction::Ask(p) => p,
        _ => panic!("expected the prompt to be sent"),
    }
}

fn await_reply(username: &str, text: &str) -> TellSession {
    let (session, action) = start_tell(username, text, None);
    assert!(matches!(action, TellAction::LookUpHistory(ref u) if u == username));
    let (session, action) = step_tell(session, TellEvent::History(Some(vec![])));
    ask_prompt(action);
    session
}

#[test]
fn tell_answers_and_stores_one_record() {
    let before = now_seconds();
    let session = await_reply("ada", "I got the job");
    let (session, action) = step_tell(session, TellEvent::Reply(Some(envelope(ADA_REPLY))));
    let item: TellItem = match action {
        TellAction::Store(item) => item,
        _ => panic!("expected the record to be stored"),
    };
    assert_eq!(item.username, "ada");
    assert_eq!(item.tell, "I got the job");
    assert_eq!(item.answer, "Congratulations, that's well earned.");
    assert_eq!(item.summary, Some("User got a job".to_string()));
    assert_eq!(item.user_state, "relieved and proud");
    assert_eq!(item.mood, "joyful");
    assert!(!item.tid.is_empty());
    assert!((item.created_at.seconds - before).abs() <= 5);
    assert_eq!(session.stage, TellStage::AwaitStore);

    let (session, action) = step_tell(session, TellEvent::Stored(true));
    assert!(matches!(action, TellAction::Answer(ref a) if a == "Congratulations, that's well earned."));
    assert_eq!(session.stage, TellStage::Done);
}

#[test]
fn tell_goes_on_when_history_lookup_fails() {
    let (session, _) = start_tell("ada", "I got the job", None);
    let (session, action) = step_tell(session, TellEvent::History(None));
    let prompt = ask_prompt(action);
    let seeded = tell_prompt("ada", "I got the job", &get_context()).unwrap();
    assert_eq!(prompt, seeded);
    let (session, action) = step_tell(session, TellEvent::Reply(Some(envelope(ADA_REPLY))));
    assert!(matches!(action, TellAction::Store(_)));
    let (_, action) = step_tell(session, TellEvent::Stored(true));
    assert!(matches!(action, TellAction::Answer(_)));
}

#[test]
fn tell_with_malformed_reply_stores_nothing() {
    let session = await_reply("ada", "I got the job");
    let (session, action) =
        step_tell(session, TellEvent::Reply(Some(envelope("{\"answer\": \"half a reply\""))));
    assert!(matches!(action, TellAction::Fail(TellError::Reply(ReplyError::MalformedReply))));
    assert_eq!(session.stage, TellStage::Done);
    let (_, action) = step_tell(session, TellEvent::Stored(true));
    assert!(matches!(action, TellAction::Fail(TellError::UnexpectedEvent)));
}

#[test]
fn tell_fails_when_store_fails() {
    let session = await_reply("ada", "I got the job");
    let (session, action) = step_tell(session, TellEvent::Reply(Some(envelope(ADA_REPLY))));
    assert!(matches!(action, TellAction::Store(_)));
    let (session, action) = step_tell(session, TellEvent::Stored(false));
    assert!(matches!(action, TellAction::Fail(TellError::Storage)));
    assert_eq!(session.stage, TellStage::Done);
}

#[test]
fn tell_fails_when_endpoint_fails() {
    let session = await_reply("ada", "hi");
    let (_, action) = step_tell(session, TellEvent::Reply(None));
    assert!(matches!(action, TellAction::Fail(TellError::Transport)));
    let session = await_reply("ada", "hi");
    let (_, action) = step_tell(session, TellEvent::Reply(Some("oops".to_string())));
    assert!(matches!(action, TellAction::Fail(TellError::Reply(ReplyError::MalformedEnvelope))));
}

#[test]
fn tell_with_explicit_context_skips_lookup() {
    let context = Context {
        mood: "calm".to_string(),
        summary: "s".to_string(),
        summary_history: vec![],
        tell_history: vec![],
    };
    let expected = tell_prompt("bo", "hey", &context).unwrap();
    assert!(expected.contains("My current mood: calm"));
    let (session, action) = start_tell("bo", "hey", Some(context));
    assert_eq!(session.stage, TellStage::AwaitReply);
    assert_eq!(ask_prompt(action), expected);
}

#[test]
fn tell_rejects_out_of_order_events() {
    let (session, _) = start_tell("ada", "hi", None);
    let (session, action) = step_tell(session, TellEvent::Stored(true));
    assert!(matches!(action, TellAction::Fail(TellError::UnexpectedEvent)));
    assert_eq!(session.stage, TellStage::Done);
}
