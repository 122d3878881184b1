use teal::record::{TellItem, UtcTimestamp};
use teal::schema::{context_from_history, get_context, resolve_context, Context};

#[test]
fn schema_test_context_display() {
    let context = Context {
        mood: "excited".to_string(),
        summary: "User got a new job".to_string(),
        summary_history: vec!["Was looking for work".to_string(), "Had interviews".to_string()],
        tell_history: vec!["I'm job hunting".to_string(), "Interview went well".to_string()],
    };

    let display = context.to_string();
    assert!(display.contains("My current mood: excited"));
    assert!(display.contains("My current situation: User got a new job"));
    assert!(display.contains("Was looking for work, Had interviews"));
    assert!(display.contains("I'm job hunting, Interview went well"));
}

#[test]
fn schema_test_context_display_empty_histories() {
    let context = Context {
        mood: "calm".to_string(),
        summary: "First conversation".to_string(),
        summary_history: vec![],
        tell_history: vec![],
    };

    let display = context.to_string();
    assert!(display.contains("My current mood: calm"));
    assert!(display.contains("My current situation: First conversation"));
    assert!(display.contains("My past situations: "));
    assert!(display.contains("My past tells to you: "));
}

#[test]
fn schema_test_context_display_single_items() {
    let context = Context {
        mood: "hopeful".to_string(),
        summary: "User shared good news".to_string(),
        summary_history: vec!["Previous summary".to_string()],
        tell_history: vec!["My single tell".to_string()],
    };

    let display = context.to_string();
    assert!(display.contains("Previous summary"));
    assert!(display.contains("My single tell"));
    assert!(!display.contains(", "));
}

#[test]
fn context_sentence_is_exact() {
    let context = Context {
        mood: "calm".to_string(),
        summary: "s".to_string(),
        summary_history: vec!["a".to_string(), "b".to_string(), "c".to_string()],
        tell_history: vec![],
    };
    assert_eq!(
        context.to_string(),
        "My current mood: calm. My current situation: s. My past situations: a, b, c. My past tells to you: ."
    );
}

fn item(tell: &str, mood: &str, summary: Option<&str>) -> TellItem {
    TellItem {
        tid: "id".to_string(),
        username: "ada".to_string(),
        tell: tell.to_string(),
        answer: "ok".to_string(),
        user_state: "fine".to_string(),
        mood: mood.to_string(),
        created_at: UtcTimestamp { seconds: 0, nanos: 0 },
        summary: summary.map(|s| s.to_string()),
    }
}

#[test]
fn context_from_history_uses_newest_record() {
    let h = vec![item("t1", "sad", Some("s1")), item("t2", "calm", None), item("t3", "glad", Some("s3"))];
    let c = context_from_history(&h);
    assert_eq!(c.mood, "glad");
    assert_eq!(c.summary, "s3");
    assert_eq!(c.summary_history, vec!["s1".to_string(), "".to_string()]);
    assert_eq!(c.tell_history, vec!["t1".to_string(), "t2".to_string(), "t3".to_string()]);
}

#[test]
fn resolve_context_keeps_explicit_context() {
    let given = Context {
        mood: "m".to_string(),
        summary: "s".to_string(),
        summary_history: vec![],
        tell_history: vec!["x".to_string()],
    };
    let c = resolve_context(Some(given), Some(vec![item("t", "glad", None)]));
    assert_eq!(c.mood, "m");
    assert_eq!(c.tell_history, vec!["x".to_string()]);
}

#[test]
fn resolve_context_falls_back_to_seed() {
    let seed = get_context();
    let failed = resolve_context(None, None);
    let empty = resolve_context(None, Some(vec![]));
    assert_eq!(failed.mood, seed.mood);
    assert_eq!(failed.summary_history, seed.summary_history);
    assert_eq!(empty.summary, seed.summary);
    assert_eq!(empty.tell_history, seed.tell_history);
}

#[test]
fn new_user_has_fresh_id_and_no_mood() {
    let a = teal::schema::new_user("Jane Doe".to_string(), "jane@example.com".to_string());
    let b = teal::schema::new_user("Jane Doe".to_string(), "jane@example.com".to_string());
    assert_eq!(a.name, "Jane Doe");
    assert_eq!(a.email, "jane@example.com");
    assert!(a.current_mood.is_none());
    assert_eq!(a.tid.len(), 36);
    assert_ne!(a.tid, b.tid);
    assert!(a.created_at.contains('T'));
}
