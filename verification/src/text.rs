//! Character-level text operations on `str`.
use vstd::prelude::*;

verus! {

/// Collects the characters of `s`, in order.
pub fn chars_of(s: &str) -> (out: Vec<char>)
    ensures
        out@ == s@,
{
    let mut out: Vec<char> = Vec::new();
    for c in it: s.chars()
        invariant
            out@ == it.seq().take(it.index() as int),
            it.seq() == s@,
    {
        out.push(c);
    }
    out
}

/// Whether two character vectors hold the same characters.
pub fn same_chars(a: &Vec<char>, b: &Vec<char>) -> (eq: bool)
    ensures
        eq == (a@ == b@),
{
    if a.len() != b.len() {
        return false;
    }
    let mut i: usize = 0;
    while i < a.len()
        invariant
            a.len() == b.len(),
            i <= a.len(),
            forall|j: int| 0 <= j < i ==> a@[j] == b@[j],
        decreases a.len() - i,
    {
        if a[i] != b[i] {
            return false;
        }
        i = i + 1;
    }
    assert(a@ =~= b@);
    true
}

/// Whether `s` and `t` are the same text.
pub fn same_text(s: &str, t: &str) -> (eq: bool)
    ensures
        eq == (s@ == t@),
{
    let a = chars_of(s);
    let b = chars_of(t);
    same_chars(&a, &b)
}

/// The text `s` with every occurrence of `from` replaced by `to`, scanning left to
/// right and never matching inside text already replaced. An empty `from` matches
/// before every character and at the end.
pub open spec fn replaced(s: Seq<char>, from: Seq<char>, to: Seq<char>) -> Seq<char>
    decreases s.len(),
{
    if from.len() == 0 {
        if s.len() == 0 {
            to
        } else {
            to + seq![s[0]] + replaced(s.drop_first(), from, to)
        }
    } else if s.len() == 0 {
        s
    } else if from.len() <= s.len() && s.take(from.len() as int) == from {
        to + replaced(s.skip(from.len() as int), from, to)
    } else {
        seq![s[0]] + replaced(s.drop_first(), from, to)
    }
}

/// Whether `from` occurs in `s` starting at position `i`.
pub open spec fn occurs_at(s: Seq<char>, from: Seq<char>, i: int) -> bool {
    0 <= i && i + from.len() <= s.len() && s.subrange(i, i + from.len()) == from
}

/// Replacing a non-empty text that does not occur leaves the text as it is.
pub proof fn lemma_replace_absent(s: Seq<char>, from: Seq<char>, to: Seq<char>)
    requires
        from.len() > 0,
        forall|i: int| !#[trigger] occurs_at(s, from, i),
    ensures
        replaced(s, from, to) == s,
    decreases s.len(),
{
    if s.len() > 0 {
        assert(!occurs_at(s, from, 0));
        if from.len() <= s.len() {
            assert(s.take(from.len() as int) =~= s.subrange(0, from.len() as int));
        }
        let t = s.drop_first();
        assert forall|i: int| !#[trigger] occurs_at(t, from, i) by {
            if occurs_at(t, from, i) {
                assert(s.subrange(i + 1, i + 1 + from.len()) =~= t.subrange(i, i + from.len()));
                assert(occurs_at(s, from, i + 1));
            }
        }
        lemma_replace_absent(t, from, to);
        assert(seq![s[0]] + t =~= s);
    }
}

/// Replacing a text by itself leaves every text as it is.
pub proof fn lemma_replace_by_itself(s: Seq<char>, from: Seq<char>)
    ensures
        replaced(s, from, from) == s,
    decreases s.len(),
{
    if from.len() == 0 {
        if s.len() > 0 {
            lemma_replace_by_itself(s.drop_first(), from);
            assert(from + seq![s[0]] + s.drop_first() =~= s);
        }
    } else if s.len() > 0 {
        if from.len() <= s.len() && s.take(from.len() as int) == from {
            lemma_replace_by_itself(s.skip(from.len() as int), from);
            assert(s.take(from.len() as int) + s.skip(from.len() as int) =~= s);
        } else {
            lemma_replace_by_itself(s.drop_first(), from);
            assert(seq![s[0]] + s.drop_first() =~= s);
        }
    }
}

/// Whether no character of `v` occurs in `p`.
pub open spec fn free_of(v: Seq<char>, p: Seq<char>) -> bool {
    forall|k: int| 0 <= k < v.len() ==> !p.contains(#[trigger] v[k])
}

/// A text that has no character of a non-empty `p` holds no occurrence of `p`.
pub proof fn lemma_free_of_has_no_occurrence(v: Seq<char>, p: Seq<char>)
    requires
        p.len() > 0,
        free_of(v, p),
    ensures
        forall|i: int| !#[trigger] occurs_at(v, p, i),
{
    assert forall|i: int| !#[trigger] occurs_at(v, p, i) by {
        if occurs_at(v, p, i) {
            assert(v.subrange(i, i + p.len())[0] == p[0]);
            assert(p.contains(v[i]));
        }
    }
}

/// Replacing `from` by the text `to` itself gives `to`.
pub proof fn lemma_replace_single(from: Seq<char>, to: Seq<char>)
    requires
        from.len() > 0,
    ensures
        replaced(from, from, to) == to,
{
    assert(from.take(from.len() as int) =~= from);
    let rest = from.skip(from.len() as int);
    assert(rest =~= Seq::<char>::empty());
    assert(replaced(rest, from, to) == rest);
    assert(replaced(from, from, to) == to + replaced(rest, from, to));
    assert(to + rest =~= to);
}

/// Text before which no occurrence of `from` starts is copied unchanged: replacing
/// in `a + c` gives `a` followed by the replacement in `c`.
pub proof fn lemma_replace_concat(a: Seq<char>, c: Seq<char>, from: Seq<char>, to: Seq<char>)
    requires
        from.len() > 0,
        forall|i: int| 0 <= i < a.len() ==> !#[trigger] occurs_at(a + c, from, i),
    ensures
        replaced(a + c, from, to) == a + replaced(c, from, to),
    decreases a.len(),
{
    if a.len() > 0 {
        let s = a + c;
        assert(!occurs_at(s, from, 0));
        if from.len() <= s.len() {
            assert(s.take(from.len() as int) =~= s.subrange(0, from.len() as int));
        }
        let a1 = a.drop_first();
        assert(s.drop_first() =~= a1 + c);
        assert forall|i: int| 0 <= i < a1.len() implies !#[trigger] occurs_at(a1 + c, from, i) by {
            if occurs_at(a1 + c, from, i) {
                assert(s.subrange(i + 1, i + 1 + from.len()) =~= (a1 + c).subrange(i, i + from.len()));
                assert(occurs_at(s, from, i + 1));
            }
        }
        lemma_replace_concat(a1, c, from, to);
        assert(seq![s[0]] + (a1 + replaced(c, from, to)) =~= a + replaced(c, from, to));
    }
}

/// Where `to` has no character of `p`, a prefix of the result made only of
/// characters of `p` is copied unchanged from `s`.
proof fn lemma_prefix_copied(s: Seq<char>, from: Seq<char>, to: Seq<char>, p: Seq<char>, k: int)
    requires
        from.len() > 0,
        to.len() > 0,
        free_of(to, p),
        0 <= k <= replaced(s, from, to).len(),
        forall|j: int| 0 <= j < k ==> p.contains(#[trigger] replaced(s, from, to)[j]),
    ensures
        k <= s.len(),
        replaced(s, from, to).take(k) == s.take(k),
    decreases s.len(),
{
    let r = replaced(s, from, to);
    if s.len() == 0 {
    } else if from.len() <= s.len() && s.take(from.len() as int) == from {
        if k > 0 {
            assert(r[0] == to[0]);
            assert(p.contains(r[0]));
            assert(!p.contains(to[0]));
        }
    } else if k > 0 {
        let t = s.drop_first();
        let rt = replaced(t, from, to);
        assert(r == seq![s[0]] + rt);
        assert forall|j: int| 0 <= j < k - 1 implies p.contains(#[trigger] rt[j]) by {
            assert(rt[j] == r[j + 1]);
        }
        lemma_prefix_copied(t, from, to, p, k - 1);
        assert(r.take(k) =~= seq![s[0]] + rt.take(k - 1));
        assert(s.take(k) =~= seq![s[0]] + t.take(k - 1));
    }
}

/// When `to` is non-empty and has no character of `p`, replacing leaves no
/// occurrence of `p`: neither of `from` itself (every occurrence is replaced), nor
/// of any other text that did not occur before.
pub proof fn lemma_replace_avoids(s: Seq<char>, from: Seq<char>, to: Seq<char>, p: Seq<char>)
    requires
        from.len() > 0,
        to.len() > 0,
        p.len() > 0,
        free_of(to, p),
        p == from || forall|i: int| !#[trigger] occurs_at(s, p, i),
    ensures
        forall|i: int| !#[trigger] occurs_at(replaced(s, from, to), p, i),
    decreases s.len(),
{
    let r = replaced(s, from, to);
    let m = from.len() as int;
    let n = p.len() as int;
    if s.len() == 0 {
        assert forall|i: int| !#[trigger] occurs_at(r, p, i) by {}
    } else if m <= s.len() && s.take(m) == from {
        let t = s.skip(m);
        if p != from {
            assert forall|i: int| !#[trigger] occurs_at(t, p, i) by {
                if occurs_at(t, p, i) {
                    assert(s.subrange(i + m, i + m + n) =~= t.subrange(i, i + n));
                    assert(occurs_at(s, p, i + m));
                }
            }
        }
        lemma_replace_avoids(t, from, to, p);
        let rt = replaced(t, from, to);
        assert(r == to + rt);
        assert forall|i: int| !#[trigger] occurs_at(r, p, i) by {
            if occurs_at(r, p, i) {
                if i < to.len() {
                    assert(r.subrange(i, i + n)[0] == p[0]);
                    assert(r[i] == to[i]);
                    assert(p.contains(to[i]));
                } else {
                    assert(rt.subrange(i - to.len(), i - to.len() + n) =~= r.subrange(i, i + n));
                    assert(occurs_at(rt, p, i - to.len()));
                }
            }
        }
    } else {
        let t = s.drop_first();
        if p != from {
            assert forall|i: int| !#[trigger] occurs_at(t, p, i) by {
                if occurs_at(t, p, i) {
                    assert(s.subrange(i + 1, i + 1 + n) =~= t.subrange(i, i + n));
                    assert(occurs_at(s, p, i + 1));
                }
            }
        }
        lemma_replace_avoids(t, from, to, p);
        let rt = replaced(t, from, to);
        assert(r == seq![s[0]] + rt);
        assert forall|i: int| !#[trigger] occurs_at(r, p, i) by {
            if occurs_at(r, p, i) {
                if i == 0 {
                    assert forall|j: int| 0 <= j < n implies p.contains(#[trigger] r[j]) by {
                        assert(r[j] == r.subrange(0, n)[j]);
                        assert(p[j] == r[j]);
                    }
                    lemma_prefix_copied(s, from, to, p, n);
                    assert(s.subrange(0, n) =~= r.subrange(0, n));
                    assert(occurs_at(s, p, 0));
                    if p == from {
                        assert(s.take(m) =~= s.subrange(0, m));
                    }
                } else {
                    assert(rt.subrange(i - 1, i - 1 + n) =~= r.subrange(i, i + n));
                    assert(occurs_at(rt, p, i - 1));
                }
            }
        }
    }
}

/// When `to` is non-empty and shares no character with a non-empty `from`, no
/// occurrence of `from` is left after replacing it.
pub proof fn lemma_replace_removes_all(s: Seq<char>, from: Seq<char>, to: Seq<char>)
    requires
        from.len() > 0,
        to.len() > 0,
        free_of(to, from),
    ensures
        forall|i: int| !#[trigger] occurs_at(replaced(s, from, to), from, i),
{
    lemma_replace_avoids(s, from, to, from);
}

/// Whether `from` occurs in `s` at position `i`.
fn matches_at(s: &Vec<char>, from: &Vec<char>, i: usize) -> (m: bool)
    requires
        i <= s.len(),
    ensures
        m == (i + from.len() <= s.len() && s@.subrange(i as int, i + from.len()) == from@),
{
    if from.len() > s.len() - i {
        return false;
    }
    let mut j: usize = 0;
    while j < from.len()
        invariant
            i + from.len() <= s.len(),
            j <= from.len(),
            forall|k: int| 0 <= k < j ==> s@[i + k] == from@[k],
        decreases from.len() - j,
    {
        if s[i + j] != from[j] {
            return false;
        }
        j = j + 1;
    }
    assert(s@.subrange(i as int, i + from.len()) =~= from@);
    true
}

/// Replaces every occurrence of `from` in `s` by `to`, as `str::replace` does.
pub fn replace(s: &str, from: &str, to: &str) -> (out: String)
    ensures
        out@ == replaced(s@, from@, to@),
{
    let cs = chars_of(s);
    let fs = chars_of(from);
    let n = cs.len();
    let m = fs.len();
    let mut out = String::new();
    let mut start: usize = 0;
    let mut i: usize = 0;
    assert(cs@.skip(0) =~= s@);
    assert(out@ + cs@.subrange(0, 0) + replaced(cs@.skip(0), from@, to@) =~= replaced(s@, from@, to@));
    while i < n
        invariant
            cs@ == s@,
            fs@ == from@,
            n == cs.len(),
            m == fs.len(),
            start <= i <= n,
            out@ + cs@.subrange(start as int, i as int) + replaced(cs@.skip(i as int), from@, to@)
                == replaced(s@, from@, to@),
        decreases n - i,
    {
        let ghost old_out = out@;
        let ghost pending = cs@.subrange(start as int, i as int);
        let ghost rest = cs@.skip(i as int);
        assert(rest.len() > 0);
        assert(rest[0] == cs@[i as int]);
        assert(rest.drop_first() =~= cs@.skip(i + 1));
        if m == 0 {
            out.append(s.substring_char(start, i));
            out.append(to);
            start = i;
            i = i + 1;
            proof {
                assert(cs@.subrange(start as int, i as int) =~= seq![rest[0]]);
                assert(replaced(rest, from@, to@) == to@ + seq![rest[0]] + replaced(
                    rest.drop_first(),
                    from@,
                    to@,
                ));
                assert(out@ == old_out + pending + to@);
                assert(old_out + pending + (to@ + seq![rest[0]] + replaced(rest.drop_first(), from@, to@))
                    =~= out@ + seq![rest[0]] + replaced(rest.drop_first(), from@, to@));
            }
        } else if matches_at(&cs, &fs, i) {
            assert(rest.take(m as int) =~= cs@.subrange(i as int, i + m));
            assert(rest.skip(m as int) =~= cs@.skip(i + m));
            out.append(s.substring_char(start, i));
            out.append(to);
            i = i + m;
            start = i;
            proof {
                assert(replaced(rest, from@, to@) == to@ + replaced(cs@.skip(i as int), from@, to@));
                assert(cs@.subrange(start as int, i as int) =~= Seq::<char>::empty());
                assert(old_out + pending + (to@ + replaced(cs@.skip(i as int), from@, to@))
                    =~= out@ + cs@.subrange(start as int, i as int) + replaced(cs@.skip(i as int), from@, to@));
            }
        } else {
            proof {
                if m <= rest.len() {
                    assert(rest.take(m as int) =~= cs@.subrange(i as int, i + m));
                }
                assert(replaced(rest, from@, to@) == seq![rest[0]] + replaced(rest.drop_first(), from@, to@));
                assert(cs@.subrange(start as int, i + 1) =~= pending + seq![rest[0]]);
                assert(old_out + pending + (seq![rest[0]] + replaced(rest.drop_first(), from@, to@))
                    =~= old_out + cs@.subrange(start as int, i + 1) + replaced(cs@.skip(i + 1), from@, to@));
            }
            i = i + 1;
        }
    }
    let ghost old_out = out@;
    out.append(s.substring_char(start, n));
    if m == 0 {
        out.append(to);
    }
    proof {
        assert(cs@.skip(n as int) =~= Seq::<char>::empty());
        if m == 0 {
            assert(old_out + cs@.subrange(start as int, n as int) + to@ == out@);
        } else {
            assert(old_out + cs@.subrange(start as int, n as int) + Seq::<char>::empty() =~= out@);
        }
    }
    out
}

} // verus!
