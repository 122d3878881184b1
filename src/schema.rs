//! Users, and the context of earlier tells that is fed into each prompt.
use vstd::prelude::*;
use crate::record::{is_record_id, new_record_id, TellItem};
use crate::text::{join, join_text};

verus! {

/// A registered user.
pub struct User {
    pub tid: String,
    pub name: String,
    pub email: String,
    pub current_mood: Option<String>,
    pub created_at: String,
}

/// Relies on `chrono::Utc::now` and `DateTime::to_rfc3339`: the time now,
/// written in RFC 3339.
#[verifier::external_body]
fn now_rfc3339() -> (r: String) {
    chrono::Utc::now().to_rfc3339()
}

/// A new user with a fresh random id, created now, with no mood yet.
pub fn new_user(name: String, email: String) -> (r: User)
    ensures
        r.name == name,
        r.email == email,
        r.current_mood is None,
        is_record_id(r.tid@),
{
    User { tid: new_record_id(), name, email, current_mood: None, created_at: now_rfc3339() }
}

/// What is known of a user before a tell: the current mood and situation,
/// earlier summaries and earlier tells, oldest first.
pub struct Context {
    pub mood: String,
    pub summary: String,
    pub summary_history: Vec<String>,
    pub tell_history: Vec<String>,
}

/// A context as character sequences.
pub struct ContextView {
    pub mood: Seq<char>,
    pub summary: Seq<char>,
    pub summary_history: Seq<Seq<char>>,
    pub tell_history: Seq<Seq<char>>,
}

pub open spec fn texts(v: Seq<String>) -> Seq<Seq<char>> {
    v.map_values(|x: String| x@)
}

impl View for Context {
    type V = ContextView;

    open spec fn view(&self) -> ContextView {
        ContextView {
            mood: self.mood@,
            summary: self.summary@,
            summary_history: texts(self.summary_history@),
            tell_history: texts(self.tell_history@),
        }
    }
}

/// The sentence that gives a context to the model.
pub open spec fn context_text(c: ContextView) -> Seq<char> {
    "My current mood: "@ + c.mood + ". My current situation: "@ + c.summary
        + ". My past situations: "@ + join(c.summary_history, ", "@) + ". My past tells to you: "@
        + join(c.tell_history, ", "@) + "."@
}

/// The context used when no earlier tell of the user is known.
pub open spec fn seed_context() -> ContextView {
    ContextView {
        mood: "satisfied"@,
        summary: "User shares job search frustrations but has new potential opportunity through family."@,
        summary_history: seq![
            "Hopeful, determined, but anxious about not messing up the opportunity."@,
            "User was feeling overwhelmed about work-life balance"@,
            "User expressed excitement about a new project but worried about time management"@,
            "User felt confident after completing a challenging task"@,
        ],
        tell_history: seq![
            "Another day of no job. But my uncle just sent me a text that his company may be hiring new engineers, and it may be a senior role. This time, I have to be strong. There is no way I can fumble this up."@,
            "I think while growth come with doubt, I'm feeling happy and there will be some potential interviews I'll be going this week."@,
            "You've successfully handled similar challenges before. A job will come to you if you truly believe in your own work."@,
            "It's getting tough. I'm confident and I know I can deliver, but why am I not getting jobs? It's becoming tough, to be fair."@,
        ],
    }
}

/// The summary a record holds, or nothing.
pub open spec fn summary_of(item: TellItem) -> Seq<char> {
    match item.summary {
        Some(s) => s@,
        None => Seq::empty(),
    }
}

/// The context that earlier records give, oldest first: the mood and
/// summary of the newest, the summaries of those before it, and every tell.
pub open spec fn context_of_history(h: Seq<TellItem>) -> ContextView
    recommends
        h.len() > 0,
{
    ContextView {
        mood: h.last().mood@,
        summary: summary_of(h.last()),
        summary_history: h.drop_last().map_values(|i: TellItem| summary_of(i)),
        tell_history: h.map_values(|i: TellItem| i.tell@),
    }
}

/// The context a tell is answered in: the one given, else the one that the
/// user's earlier records give, else the seed context. `history` is `None`
/// when the records could not be looked up.
pub open spec fn resolved_context(explicit: Option<ContextView>, history: Option<Seq<TellItem>>) -> ContextView {
    match explicit {
        Some(c) => c,
        None => match history {
            Some(h) => if h.len() > 0 {
                context_of_history(h)
            } else {
                seed_context()
            },
            None => seed_context(),
        },
    }
}

impl Context {
    /// The sentence that gives this context to the model.
    pub fn to_string(&self) -> (r: String)
        ensures
            r@ == context_text(self@),
    {
        let mut r = String::new();
        r.append("My current mood: ");
        r.append(self.mood.as_str());
        r.append(". My current situation: ");
        r.append(self.summary.as_str());
        r.append(". My past situations: ");
        let s = join_text(&self.summary_history, ", ");
        r.append(s.as_str());
        r.append(". My past tells to you: ");
        let t = join_text(&self.tell_history, ", ");
        r.append(t.as_str());
        r.append(".");
        r
    }
}

fn push_text(v: &mut Vec<String>, s: &str)
    ensures
        texts(final(v)@) == texts(old(v)@).push(s@),
{
    v.push(String::from_str(s));
    assert(texts(final(v)@) =~= texts(old(v)@).push(s@));
}

/// The seed context: what is used when a user has no earlier tell.
pub fn get_context() -> (r: Context)
    ensures
        r@ == seed_context(),
{
    let mut summary_history: Vec<String> = Vec::new();
    push_text(&mut summary_history, "Hopeful, determined, but anxious about not messing up the opportunity.");
    push_text(&mut summary_history, "User was feeling overwhelmed about work-life balance");
    push_text(&mut summary_history, "User expressed excitement about a new project but worried about time management");
    push_text(&mut summary_history, "User felt confident after completing a challenging task");
    let mut tell_history: Vec<String> = Vec::new();
    push_text(&mut tell_history, "Another day of no job. But my uncle just sent me a text that his company may be hiring new engineers, and it may be a senior role. This time, I have to be strong. There is no way I can fumble this up.");
    push_text(&mut tell_history, "I think while growth come with doubt, I'm feeling happy and there will be some potential interviews I'll be going this week.");
    push_text(&mut tell_history, "You've successfully handled similar challenges before. A job will come to you if you truly believe in your own work.");
    push_text(&mut tell_history, "It's getting tough. I'm confident and I know I can deliver, but why am I not getting jobs? It's becoming tough, to be fair.");
    let r = Context {
        mood: String::from_str("satisfied"),
        summary: String::from_str("User shares job search frustrations but has new potential opportunity through family."),
        summary_history,
        tell_history,
    };
    assert(r@.summary_history =~= seed_context().summary_history);
    assert(r@.tell_history =~= seed_context().tell_history);
    r
}

fn summary_text(item: &TellItem) -> (r: String)
    ensures
        r@ == summary_of(*item),
{
    match &item.summary {
        Some(s) => s.clone(),
        None => String::new(),
    }
}

/// The context that a user's earlier records give, oldest first.
pub fn context_from_history(history: &Vec<TellItem>) -> (r: Context)
    requires
        history@.len() > 0,
    ensures
        r@ == context_of_history(history@),
{
    let ghost h = history@;
    let n = history.len();
    let mut summary_history: Vec<String> = Vec::new();
    let mut tell_history: Vec<String> = Vec::new();
    let mut i: usize = 0;
    while i < n
        invariant
            n == h.len(),
            h == history@,
            i <= n,
            texts(tell_history@) == h.subrange(0, i as int).map_values(|x: TellItem| x.tell@),
            texts(summary_history@) == h.subrange(0, i as int).map_values(|x: TellItem| summary_of(x)),
        decreases n - i,
    {
        let ghost old_s = summary_history@;
        let ghost old_t = tell_history@;
        let st = summary_text(&history[i]);
        summary_history.push(st);
        let tl = history[i].tell.clone();
        tell_history.push(tl);
        assert(texts(tell_history@) =~= texts(old_t).push(h[i as int].tell@));
        assert(texts(summary_history@) =~= texts(old_s).push(summary_of(h[i as int])));
        assert(h.subrange(0, i + 1).map_values(|x: TellItem| x.tell@) =~= h.subrange(
            0,
            i as int,
        ).map_values(|x: TellItem| x.tell@).push(h[i as int].tell@));
        assert(h.subrange(0, i + 1).map_values(|x: TellItem| summary_of(x)) =~= h.subrange(
            0,
            i as int,
        ).map_values(|x: TellItem| summary_of(x)).push(summary_of(h[i as int])));
        i += 1;
    }
    assert(h.subrange(0, n as int) =~= h);
    let last = &history[n - 1];
    let ghost full = summary_history@;
    summary_history.pop();
    assert(summary_history@ =~= full.drop_last());
    assert(texts(summary_history@) =~= texts(full).drop_last());
    assert(texts(summary_history@) =~= h.drop_last().map_values(|x: TellItem| summary_of(x)));
    Context {
        mood: last.mood.clone(),
        summary: summary_text(last),
        summary_history,
        tell_history,
    }
}

/// The context a tell is answered in: `explicit` unchanged when given;
/// otherwise the context of the user's earlier records, or the seed context
/// when there are none or they could not be looked up (`None`).
pub fn resolve_context(explicit: Option<Context>, history: Option<Vec<TellItem>>) -> (r: Context)
    ensures
        r@ == resolved_context(
            match explicit {
                Some(c) => Some(c@),
                None => None,
            },
            match history {
                Some(h) => Some(h@),
                None => None,
            },
        ),
        explicit is Some ==> r == explicit->0,
{
    match explicit {
        Some(c) => c,
        None => match history {
            Some(h) => if h.len() > 0 {
                context_from_history(&h)
            } else {
                get_context()
            },
            None => get_context(),
        },
    }
}

} // verus!
