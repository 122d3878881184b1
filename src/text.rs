//! Character-level string operations with exact specifications: literal
//! search-and-replace and joining with a separator.
use vstd::prelude::*;

verus! {

/// `pat` occurs in `s` starting at index `i`.
pub open spec fn occurs_at(s: Seq<char>, pat: Seq<char>, i: int) -> bool {
    0 <= i && i + pat.len() <= s.len() && s.subrange(i, i + pat.len()) == pat
}

/// `pat` occurs somewhere in `s`.
pub open spec fn contains(s: Seq<char>, pat: Seq<char>) -> bool {
    exists|i: int| occurs_at(s, pat, i)
}

/// Replaces every non-overlapping occurrence of `pat` in `s` by `rep`,
/// scanning left to right; an empty pattern leaves `s` as it is.
pub open spec fn replace_all(s: Seq<char>, pat: Seq<char>, rep: Seq<char>) -> Seq<char>
    decreases s.len(),
{
    if pat.len() == 0 || s.len() < pat.len() {
        s
    } else if s.subrange(0, pat.len() as int) == pat {
        rep + replace_all(s.subrange(pat.len() as int, s.len() as int), pat, rep)
    } else {
        seq![s[0]] + replace_all(s.subrange(1, s.len() as int), pat, rep)
    }
}

/// The items of `items` in order, with `sep` between each two neighbours.
pub open spec fn join(items: Seq<Seq<char>>, sep: Seq<char>) -> Seq<char>
    decreases items.len(),
{
    if items.len() == 0 {
        Seq::empty()
    } else if items.len() == 1 {
        items[0]
    } else {
        join(items.drop_last(), sep) + sep + items.last()
    }
}

/// A string in which `pat` does not occur is left unchanged by `replace_all`.
pub proof fn lemma_replace_absent(s: Seq<char>, pat: Seq<char>, rep: Seq<char>)
    requires
        !contains(s, pat),
    ensures
        replace_all(s, pat, rep) == s,
    decreases s.len(),
{
    if pat.len() == 0 || s.len() < pat.len() {
    } else {
        assert(!occurs_at(s, pat, 0));
        let t = s.subrange(1, s.len() as int);
        assert forall|i: int| !occurs_at(t, pat, i) by {
            if occurs_at(t, pat, i) {
                assert(s.subrange(i + 1, i + 1 + pat.len()) =~= t.subrange(i, i + pat.len()));
                assert(occurs_at(s, pat, i + 1));
            }
        }
        lemma_replace_absent(t, pat, rep);
        assert(s =~= seq![s[0]] + t);
    }
}

/// Replacing in `a + c` is replacing in `a` and in `c` apart, when no
/// occurrence of `pat` starts in `a` and ends in `c`.
pub proof fn lemma_replace_split(a: Seq<char>, c: Seq<char>, pat: Seq<char>, rep: Seq<char>)
    requires
        pat.len() > 0,
        forall|i: int| 0 <= i < a.len() && i + pat.len() > a.len() ==> !occurs_at(a + c, pat, i),
    ensures
        replace_all(a + c, pat, rep) == replace_all(a, pat, rep) + replace_all(c, pat, rep),
    decreases a.len(),
{
    let s = a + c;
    let n = pat.len();
    if a.len() == 0 {
        assert(s =~= c);
        assert(replace_all(a, pat, rep) =~= Seq::<char>::empty());
        assert(replace_all(a, pat, rep) + replace_all(c, pat, rep) =~= replace_all(c, pat, rep));
    } else if s.len() < n {
    } else if s.subrange(0, n as int) == pat {
        assert(occurs_at(s, pat, 0));
        assert(n <= a.len());
        assert(a.subrange(0, n as int) =~= s.subrange(0, n as int));
        let a2 = a.subrange(n as int, a.len() as int);
        assert(s.subrange(n as int, s.len() as int) =~= a2 + c);
        assert forall|i: int| 0 <= i < a2.len() && i + n > a2.len() implies !occurs_at(
            a2 + c,
            pat,
            i,
        ) by {
            if occurs_at(a2 + c, pat, i) {
                assert((a2 + c).subrange(i, i + n) =~= s.subrange(i + n, i + n + n));
                assert(occurs_at(s, pat, i + n));
            }
        }
        lemma_replace_split(a2, c, pat, rep);
        assert(rep + (replace_all(a2, pat, rep) + replace_all(c, pat, rep)) =~= (rep + replace_all(
            a2,
            pat,
            rep,
        )) + replace_all(c, pat, rep));
    } else {
        let a2 = a.subrange(1, a.len() as int);
        assert(s.subrange(1, s.len() as int) =~= a2 + c);
        assert forall|i: int| 0 <= i < a2.len() && i + n > a2.len() implies !occurs_at(
            a2 + c,
            pat,
            i,
        ) by {
            if occurs_at(a2 + c, pat, i) {
                assert((a2 + c).subrange(i, i + n) =~= s.subrange(i + 1, i + 1 + n));
                assert(occurs_at(s, pat, i + 1));
            }
        }
        lemma_replace_split(a2, c, pat, rep);
        if a.len() < n {
            assert(a2.len() < n);
            assert(a =~= seq![a[0]] + a2);
        } else {
            assert(a.subrange(0, n as int) =~= s.subrange(0, n as int));
        }
        assert(s[0] == a[0]);
        assert(seq![a[0]] + (replace_all(a2, pat, rep) + replace_all(c, pat, rep)) =~= (seq![a[0]]
            + replace_all(a2, pat, rep)) + replace_all(c, pat, rep));
    }
}

/// Whether `pat` occurs in `s` at index `i`; `n` and `m` are the lengths of
/// `s` and `pat` in characters.
pub fn matches_at(s: &str, n: usize, i: usize, pat: &str, m: usize) -> (r: bool)
    requires
        n == s@.len(),
        m == pat@.len(),
        i <= n,
    ensures
        r == occurs_at(s@, pat@, i as int),
{
    if m > n - i {
        return false;
    }
    let mut j: usize = 0;
    while j < m
        invariant
            j <= m,
            i + m <= n,
            n == s@.len(),
            m == pat@.len(),
            forall|k: int| 0 <= k < j ==> s@[i + k] == pat@[k],
        decreases m - j,
    {
        if s.get_char(i + j) != pat.get_char(j) {
            assert(s@.subrange(i as int, i + m)[j as int] != pat@[j as int]);
            return false;
        }
        j += 1;
    }
    assert(s@.subrange(i as int, i + m) =~= pat@);
    true
}

/// Whether `a` and `b` hold the same characters.
pub fn same_text(a: &str, b: &str) -> (r: bool)
    ensures
        r == (a@ == b@),
{
    let n = a.unicode_len();
    let m = b.unicode_len();
    if n != m {
        return false;
    }
    let r = matches_at(a, n, 0, b, m);
    assert(a@.subrange(0, n as int) =~= a@);
    r
}

/// Replaces every non-overlapping occurrence of `pat` in `s` by `rep`,
/// left to right, as `str::replace` does for a non-empty pattern.
pub fn replace_text(s: &str, pat: &str, rep: &str) -> (r: String)
    ensures
        r@ == replace_all(s@, pat@, rep@),
{
    let n = s.unicode_len();
    let m = pat.unicode_len();
    let mut out = String::new();
    if m == 0 {
        out.append(s);
        return out;
    }
    let mut i: usize = 0;
    assert(s@.subrange(0, n as int) =~= s@);
    while i < n
        invariant
            i <= n,
            n == s@.len(),
            m == pat@.len(),
            m > 0,
            out@ + replace_all(s@.subrange(i as int, n as int), pat@, rep@) == replace_all(
                s@,
                pat@,
                rep@,
            ),
        decreases n - i,
    {
        let ghost t = s@.subrange(i as int, n as int);
        let ghost old_out = out@;
        if matches_at(s, n, i, pat, m) {
            assert(t.subrange(0, m as int) =~= s@.subrange(i as int, i + m));
            assert(t.subrange(m as int, t.len() as int) =~= s@.subrange(i + m, n as int));
            out.append(rep);
            i = i + m;
            assert(out@ + replace_all(s@.subrange(i as int, n as int), pat@, rep@) =~= old_out
                + replace_all(t, pat@, rep@));
        } else {
            let c = s.substring_char(i, i + 1);
            assert(t.subrange(1, t.len() as int) =~= s@.subrange(i + 1, n as int));
            proof {
                if t.len() >= m {
                    assert(t.subrange(0, m as int) =~= s@.subrange(i as int, i + m));
                } else {
                    assert(t =~= seq![t[0]] + t.subrange(1, t.len() as int));
                }
            }
            out.append(c);
            i = i + 1;
            assert(c@ =~= seq![t[0]]);
            assert(out@ + replace_all(s@.subrange(i as int, n as int), pat@, rep@) =~= old_out
                + replace_all(t, pat@, rep@));
        }
    }
    assert(s@.subrange(n as int, n as int) =~= Seq::<char>::empty());
    assert(out@ =~= out@ + Seq::<char>::empty());
    out
}

/// The strings of `items` in order, with `sep` between each two neighbours.
pub fn join_text(items: &Vec<String>, sep: &str) -> (r: String)
    ensures
        r@ == join(items@.map_values(|x: String| x@), sep@),
{
    let ghost v = items@.map_values(|x: String| x@);
    let mut out = String::new();
    let mut i: usize = 0;
    while i < items.len()
        invariant
            i <= items@.len(),
            v == items@.map_values(|x: String| x@),
            out@ == join(v.subrange(0, i as int), sep@),
        decreases items@.len() - i,
    {
        let ghost before = v.subrange(0, i as int);
        if i > 0 {
            out.append(sep);
        }
        out.append(items[i].as_str());
        i += 1;
        let ghost after = v.subrange(0, i as int);
        assert(after.drop_last() =~= before);
        if i == 1 {
            assert(after =~= seq![v[0]]);
        }
    }
    assert(v.subrange(0, items@.len() as int) =~= v);
    out
}

} // verus!
