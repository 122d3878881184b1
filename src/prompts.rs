//! Named prompt templates and the substitution of `{name}` placeholders.
use vstd::prelude::*;
use vstd::utf8::*;
use crate::text::{
    contains, lemma_replace_absent, lemma_replace_split, occurs_at, replace_all, replace_text,
    same_text,
};

verus! {

broadcast use {encode_utf8_valid_utf8, encode_utf8_decode_utf8};

/// The template of the "tell" prompt. Its placeholders are `{username}`,
/// `{context}` and `{tell}`.
pub const TELL_TEMPLATE: &'static str = "You are Teal, a calm and benevolent companion. {username} is telling you how they feel.\n\nWhat you know of {username} so far: {context}\n\nWhat {username} tells you now: {tell}\n\nReply with one JSON object and nothing else. It has four string fields:\n- \"answer\": your reply to {username}, warm, assertive and concise, without questions.\n- \"summary\": what {username} said, in the third person, in at most 12 words.\n- \"user_state\": the emotional state of {username}, in at most 12 words.\n- \"mood\": the mood of {username}, in one word.\n";

/// The names of the bundled templates.
pub enum PromptName {
    Tell,
}

impl PromptName {
    pub open spec fn file_name(&self) -> Seq<char> {
        match self {
            PromptName::Tell => "tell.md"@,
        }
    }

    /// The file name under which the template is stored.
    pub fn as_str(&self) -> (r: &'static str)
        ensures
            r@ == self.file_name(),
    {
        match self {
            PromptName::Tell => "tell.md",
        }
    }
}

/// The values bound in the "tell" template.
pub struct TellReplacements<'a> {
    pub username: &'a str,
    pub context: &'a str,
    pub tell: &'a str,
}

/// The values of one prompt, by template.
pub enum PromptData<'a> {
    Tell(TellReplacements<'a>),
}

/// Why a template could not be rendered.
#[derive(Debug, Clone, Copy, PartialEq, Eq)]
pub enum PromptError {
    /// No template of that name is in the set.
    TemplateNotFound,
    /// The template's bytes are not well-formed UTF-8.
    TemplateUnreadable,
}

/// One stored template: its file name and its raw bytes.
pub struct TemplateFile {
    pub name: String,
    pub bytes: Vec<u8>,
}

/// A set of stored templates, looked up by file name.
pub struct TemplateSet {
    pub files: Vec<TemplateFile>,
}

/// `{key}`.
pub open spec fn placeholder(key: Seq<char>) -> Seq<char> {
    seq!['{'] + key + seq!['}']
}

/// The bindings of a mapping, as pairs of character sequences.
pub open spec fn bindings(m: Seq<(String, String)>) -> Seq<(Seq<char>, Seq<char>)> {
    m.map_values(|p: (String, String)| (p.0@, p.1@))
}

/// `t` with the placeholder of each binding replaced by its value, the
/// bindings taken in order.
pub open spec fn substituted(t: Seq<char>, m: Seq<(Seq<char>, Seq<char>)>) -> Seq<char>
    decreases m.len(),
{
    if m.len() == 0 {
        t
    } else {
        replace_all(substituted(t, m.drop_last()), placeholder(m.last().0), m.last().1)
    }
}

/// The bytes of the first file of `files` named `name`.
pub open spec fn find_template(files: Seq<TemplateFile>, name: Seq<char>) -> Option<Seq<u8>>
    decreases files.len(),
{
    if files.len() == 0 {
        None
    } else if files[0].name@ == name {
        Some(files[0].bytes@)
    } else {
        find_template(files.subrange(1, files.len() as int), name)
    }
}

/// What `render` gives for a template set, a name and bindings.
pub open spec fn rendered(
    files: Seq<TemplateFile>,
    name: Seq<char>,
    m: Seq<(Seq<char>, Seq<char>)>,
) -> Result<Seq<char>, PromptError> {
    match find_template(files, name) {
        None => Err(PromptError::TemplateNotFound),
        Some(b) => if valid_utf8(b) {
            Ok(substituted(decode_utf8(b), m))
        } else {
            Err(PromptError::TemplateUnreadable)
        },
    }
}

/// A rendering result, with the text seen as characters.
pub open spec fn text_result(r: Result<String, PromptError>) -> Result<Seq<char>, PromptError> {
    match r {
        Ok(s) => Ok(s@),
        Err(e) => Err(e),
    }
}

/// The bindings of the "tell" template, in the order they are applied.
pub open spec fn tell_bindings(username: Seq<char>, context: Seq<char>, tell: Seq<char>) -> Seq<
    (Seq<char>, Seq<char>),
> {
    seq![("username"@, username), ("context"@, context), ("tell"@, tell)]
}

pub open spec fn prompt_bindings(data: PromptData) -> Seq<(Seq<char>, Seq<char>)> {
    match data {
        PromptData::Tell(r) => tell_bindings(r.username@, r.context@, r.tell@),
    }
}

/// Substituting again with the same bindings changes nothing, once no
/// placeholder of a bound name is left in the result.
pub proof fn lemma_substitute_idempotent(t: Seq<char>, m: Seq<(Seq<char>, Seq<char>)>)
    requires
        forall|k: int| 0 <= k < m.len() ==> !contains(substituted(t, m), placeholder(#[trigger] m[k].0)),
    ensures
        substituted(substituted(t, m), m) == substituted(t, m),
{
    lemma_substitute_unchanged(substituted(t, m), m);
}

/// A text that holds no placeholder of a bound name is left unchanged by
/// substitution: bindings whose placeholder does not occur are ignored.
pub proof fn lemma_substitute_unchanged(t: Seq<char>, m: Seq<(Seq<char>, Seq<char>)>)
    requires
        forall|k: int| 0 <= k < m.len() ==> !contains(t, placeholder(#[trigger] m[k].0)),
    ensures
        substituted(t, m) == t,
    decreases m.len(),
{
    if m.len() > 0 {
        assert forall|k: int| 0 <= k < m.drop_last().len() implies !contains(
            t,
            placeholder(#[trigger] m.drop_last()[k].0),
        ) by {
            assert(m.drop_last()[k] == m[k]);
        }
        lemma_substitute_unchanged(t, m.drop_last());
        assert(!contains(t, placeholder(m[m.len() - 1].0)));
        lemma_replace_absent(t, placeholder(m.last().0), m.last().1);
    }
}

/// `s` holds no brace.
pub open spec fn brace_free(s: Seq<char>) -> bool {
    forall|i: int| 0 <= i < s.len() ==> s[i] != '{' && s[i] != '}'
}

/// The placeholder of `k` occurs nowhere in `{x}` followed by any text, nor
/// ends inside `{x}` after starting in text before it, when the names are
/// brace-free and differ.
proof fn lemma_placeholder_disjoint(a: Seq<char>, x: Seq<char>, b: Seq<char>, k: Seq<char>)
    requires
        brace_free(x),
        brace_free(k),
        x != k,
    ensures
        forall|i: int|
            0 <= i < placeholder(x).len() ==> !occurs_at(placeholder(x) + b, placeholder(k), i),
        forall|i: int|
            0 <= i < a.len() && i + placeholder(k).len() > a.len() ==> !occurs_at(
                a + (placeholder(x) + b),
                placeholder(k),
                i,
            ),
{
    let p = placeholder(k);
    let px = placeholder(x);
    let t = px + b;
    let kl = k.len() as int;
    let xl = x.len() as int;
    let pl = p.len() as int;
    assert forall|i: int| 0 <= i < px.len() implies !occurs_at(t, p, i) by {
        if occurs_at(t, p, i) {
            assert(t.subrange(i, i + pl)[0] == p[0]);
            if i == 0 {
                if kl < xl {
                    assert(t.subrange(0, pl)[kl + 1] == p[kl + 1]);
                    assert(t[kl + 1] == x[kl]);
                } else if kl > xl {
                    assert(t.subrange(0, pl)[xl + 1] == p[xl + 1]);
                    assert(p[xl + 1] == k[xl]);
                } else {
                    assert forall|j: int| 0 <= j < kl implies k[j] == x[j] by {
                        assert(t.subrange(0, pl)[j + 1] == p[j + 1]);
                    }
                    assert(k =~= x);
                }
            } else if i <= xl {
                assert(t[i] == x[i - 1]);
            } else {
                assert(t[i] == '}');
            }
        }
    }
    let s = a + t;
    assert forall|i: int| 0 <= i < a.len() && i + pl > a.len() implies !occurs_at(s, p, i) by {
        if occurs_at(s, p, i) {
            let j = a.len() - i;
            assert(s.subrange(i, i + pl)[j] == p[j]);
            assert(s[a.len() as int] == '{');
            if j <= kl {
                assert(p[j] == k[j - 1]);
            } else {
                assert(p[j] == '}');
            }
        }
    }
}

/// Replacing the placeholder of `k` leaves the placeholder of another
/// brace-free name in place, and works on the text on either side of it.
proof fn lemma_replace_around_placeholder(
    a: Seq<char>,
    x: Seq<char>,
    b: Seq<char>,
    k: Seq<char>,
    v: Seq<char>,
)
    requires
        brace_free(x),
        brace_free(k),
        x != k,
    ensures
        replace_all(a + placeholder(x) + b, placeholder(k), v) == replace_all(a, placeholder(k), v)
            + placeholder(x) + replace_all(b, placeholder(k), v),
{
    let p = placeholder(k);
    let px = placeholder(x);
    lemma_placeholder_disjoint(a, x, b, k);
    assert(a + px + b =~= a + (px + b));
    lemma_replace_split(a, px + b, p, v);
    assert forall|i: int| 0 <= i < px.len() && i + p.len() > px.len() implies !occurs_at(
        px + b,
        p,
        i,
    ) by {}
    lemma_replace_split(px, b, p, v);
    assert forall|i: int| !occurs_at(px, p, i) by {
        if occurs_at(px, p, i) {
            assert((px + b).subrange(i, i + p.len()) =~= px.subrange(i, i + p.len()));
            assert(occurs_at(px + b, p, i));
        }
    }
    lemma_replace_absent(px, p, v);
    assert(replace_all(a, p, v) + (px + replace_all(b, p, v)) =~= replace_all(a, p, v) + px
        + replace_all(b, p, v));
}

/// A placeholder whose name is not bound is left untouched by substitution:
/// the text before it and the text after it are substituted apart, and it
/// stays between them. Names are taken brace-free, as placeholders are
/// written.
pub proof fn lemma_unbound_placeholder_untouched(
    a: Seq<char>,
    x: Seq<char>,
    b: Seq<char>,
    m: Seq<(Seq<char>, Seq<char>)>,
)
    requires
        brace_free(x),
        forall|i: int| 0 <= i < m.len() ==> brace_free(#[trigger] m[i].0) && m[i].0 != x,
    ensures
        substituted(a + placeholder(x) + b, m) == substituted(a, m) + placeholder(x) + substituted(
            b,
            m,
        ),
    decreases m.len(),
{
    if m.len() > 0 {
        let m2 = m.drop_last();
        assert forall|i: int| 0 <= i < m2.len() implies brace_free(#[trigger] m2[i].0) && m2[i].0
            != x by {
            assert(m2[i] == m[i]);
        }
        lemma_unbound_placeholder_untouched(a, x, b, m2);
        assert(brace_free(m[m.len() - 1].0));
        lemma_replace_around_placeholder(
            substituted(a, m2),
            x,
            substituted(b, m2),
            m.last().0,
            m.last().1,
        );
    }
}

/// `{key}` as a string.
fn placeholder_text(key: &str) -> (r: String)
    ensures
        r@ == placeholder(key@),
{
    let mut r = String::new();
    r.append("{");
    r.append(key);
    r.append("}");
    proof {
        reveal_strlit("{");
        reveal_strlit("}");
    }
    assert(r@ =~= placeholder(key@));
    r
}

/// Replaces, binding by binding in order, every `{key}` of `template` by its
/// value: literally, with no escaping, no trimming and no substitution
/// within substituted values. Placeholders of unbound names stay as they are.
pub fn substitute(template: &str, mapping: &Vec<(String, String)>) -> (r: String)
    ensures
        r@ == substituted(template@, bindings(mapping@)),
{
    let ghost m = bindings(mapping@);
    let mut out = String::new();
    out.append(template);
    let mut i: usize = 0;
    while i < mapping.len()
        invariant
            i <= mapping@.len(),
            m == bindings(mapping@),
            out@ == substituted(template@, m.subrange(0, i as int)),
        decreases mapping@.len() - i,
    {
        let pat = placeholder_text(mapping[i].0.as_str());
        let next = replace_text(out.as_str(), pat.as_str(), mapping[i].1.as_str());
        out = next;
        i += 1;
        assert(m.subrange(0, i as int).drop_last() =~= m.subrange(0, i - 1));
    }
    assert(m.subrange(0, mapping@.len() as int) =~= m);
    out
}

/// Relies on `String::from_utf8`: it accepts exactly the well-formed UTF-8
/// byte strings, and then holds the characters they encode.
#[verifier::external_body]
pub(crate) fn decode_text(bytes: Vec<u8>) -> (r: Option<String>)
    ensures
        r is Some <==> valid_utf8(bytes@),
        r matches Some(s) ==> s@ == decode_utf8(bytes@),
{
    String::from_utf8(bytes).ok()
}

/// Looks `name` up in `set` and substitutes `mapping` into that template.
pub fn render(set: &TemplateSet, name: &str, mapping: &Vec<(String, String)>) -> (r: Result<
    String,
    PromptError,
>)
    ensures
        text_result(r) == rendered(set.files@, name@, bindings(mapping@)),
{
    let mut i: usize = 0;
    assert(set.files@.subrange(0, set.files@.len() as int) =~= set.files@);
    while i < set.files.len()
        invariant
            i <= set.files@.len(),
            find_template(set.files@, name@) == find_template(
                set.files@.subrange(i as int, set.files@.len() as int),
                name@,
            ),
        decreases set.files@.len() - i,
    {
        let ghost rest = set.files@.subrange(i as int, set.files@.len() as int);
        assert(rest[0] == set.files@[i as int]);
        if same_text(set.files[i].name.as_str(), name) {
            let bytes = set.files[i].bytes.clone();
            return match decode_text(bytes) {
                None => Err(PromptError::TemplateUnreadable),
                Some(t) => Ok(substitute(t.as_str(), mapping)),
            };
        }
        assert(rest.subrange(1, rest.len() as int) =~= set.files@.subrange(
            i + 1,
            set.files@.len() as int,
        ));
        i += 1;
    }
    assert(set.files@.subrange(i as int, set.files@.len() as int).len() == 0);
    Err(PromptError::TemplateNotFound)
}

/// The templates that ship with the library.
pub fn bundled_templates() -> (r: TemplateSet)
    ensures
        r.files@.len() == 1,
        r.files@[0].name@ == PromptName::Tell.file_name(),
        r.files@[0].bytes@ == encode_utf8(TELL_TEMPLATE@),
{
    let tell = TemplateFile {
        name: String::from_str(PromptName::Tell.as_str()),
        bytes: TELL_TEMPLATE.as_bytes_vec(),
    };
    let mut files = Vec::new();
    files.push(tell);
    TemplateSet { files }
}

/// Renders a bundled template with the values of `data`.
pub fn get_templated_prompt(prompt_name: PromptName, data: PromptData) -> (r: Result<
    String,
    PromptError,
>)
    ensures
        r matches Ok(s) && s@ == substituted(TELL_TEMPLATE@, prompt_bindings(data)),
{
    let set = bundled_templates();
    let mut mapping: Vec<(String, String)> = Vec::new();
    match data {
        PromptData::Tell(t) => {
            mapping.push((String::from_str("username"), String::from_str(t.username)));
            mapping.push((String::from_str("context"), String::from_str(t.context)));
            mapping.push((String::from_str("tell"), String::from_str(t.tell)));
        },
    }
    assert(bindings(mapping@) =~= prompt_bindings(data));
    let r = render(&set, prompt_name.as_str(), &mapping);
    assert(find_template(set.files@, prompt_name.file_name()) == Some(set.files@[0].bytes@));
    r
}

} // verus!
