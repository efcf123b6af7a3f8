use vstd::prelude::*;
use vstd::string::StrSliceExecFns;

verus! {

/// An annotation pair as seen by contracts.
pub type PairView = (Seq<char>, Seq<char>);

/// Lexicographic order of character sequences.
pub open spec fn seq_lt(a: Seq<char>, b: Seq<char>) -> bool
    decreases a.len(),
{
    if a.len() == 0 {
        b.len() > 0
    } else if b.len() == 0 {
        false
    } else if a[0] == b[0] {
        seq_lt(a.drop_first(), b.drop_first())
    } else {
        (a[0] as u32) < (b[0] as u32)
    }
}

/// Order of annotation pairs: by name, then by value.
pub open spec fn pair_lt(p: PairView, q: PairView) -> bool {
    seq_lt(p.0, q.0) || (p.0 == q.0 && seq_lt(p.1, q.1))
}

/// Each element is below every later one.
pub open spec fn strictly_sorted(s: Seq<PairView>) -> bool {
    forall|i: int, j: int| 0 <= i < j < s.len() ==> pair_lt(#[trigger] s[i], #[trigger] s[j])
}

/// The set of elements of a sequence.
pub open spec fn elems(s: Seq<PairView>) -> Set<PairView> {
    Set::new(|x: PairView| s.contains(x))
}

/// The one strictly sorted sequence holding exactly the pairs of `set`.
pub open spec fn canonical(set: Set<PairView>) -> Seq<PairView> {
    choose|t: Seq<PairView>| strictly_sorted(t) && elems(t) == set
}

proof fn lemma_seq_lt_irrefl(a: Seq<char>)
    ensures
        !seq_lt(a, a),
    decreases a.len(),
{
    if a.len() > 0 {
        lemma_seq_lt_irrefl(a.drop_first());
    }
}

proof fn lemma_seq_lt_trans(a: Seq<char>, b: Seq<char>, c: Seq<char>)
    requires
        seq_lt(a, b),
        seq_lt(b, c),
    ensures
        seq_lt(a, c),
    decreases a.len(),
{
    if a.len() > 0 && b.len() > 0 && c.len() > 0 && a[0] == b[0] && b[0] == c[0] {
        lemma_seq_lt_trans(a.drop_first(), b.drop_first(), c.drop_first());
    }
}

proof fn lemma_seq_lt_total(a: Seq<char>, b: Seq<char>)
    requires
        a != b,
    ensures
        seq_lt(a, b) || seq_lt(b, a),
    decreases a.len(),
{
    if a.len() > 0 && b.len() > 0 {
        if a[0] == b[0] {
            if a.drop_first() == b.drop_first() {
                assert(a =~= seq![a[0]] + a.drop_first());
                assert(b =~= seq![b[0]] + b.drop_first());
            }
            lemma_seq_lt_total(a.drop_first(), b.drop_first());
        } else {
            let ua = a[0] as u32;
            let ub = b[0] as u32;
            vstd::utf8::char_u32_cast(a[0], ua);
            vstd::utf8::char_u32_cast(b[0], ub);
            assert(ua != ub);
        }
    } else if a.len() == 0 && b.len() == 0 {
        assert(a =~= b);
    }
}

proof fn lemma_pair_lt_irrefl(p: PairView)
    ensures
        !pair_lt(p, p),
{
    lemma_seq_lt_irrefl(p.0);
    lemma_seq_lt_irrefl(p.1);
}

proof fn lemma_pair_lt_trans(p: PairView, q: PairView, r: PairView)
    requires
        pair_lt(p, q),
        pair_lt(q, r),
    ensures
        pair_lt(p, r),
{
    if seq_lt(p.0, q.0) && seq_lt(q.0, r.0) {
        lemma_seq_lt_trans(p.0, q.0, r.0);
    } else if !seq_lt(p.0, q.0) && !seq_lt(q.0, r.0) {
        lemma_seq_lt_trans(p.1, q.1, r.1);
    }
}

proof fn lemma_pair_lt_total(p: PairView, q: PairView)
    requires
        p != q,
    ensures
        pair_lt(p, q) || pair_lt(q, p),
{
    if p.0 != q.0 {
        lemma_seq_lt_total(p.0, q.0);
    } else {
        lemma_seq_lt_total(p.1, q.1);
    }
}

/// Two strictly sorted sequences with the same elements are the same.
pub proof fn lemma_sorted_unique(s1: Seq<PairView>, s2: Seq<PairView>)
    requires
        strictly_sorted(s1),
        strictly_sorted(s2),
        elems(s1) == elems(s2),
    ensures
        s1 == s2,
    decreases s1.len(),
{
    if s1.len() == 0 {
        if s2.len() > 0 {
            assert(elems(s2).contains(s2[0]));
        }
        assert(s1 =~= s2);
    } else {
        assert(elems(s1).contains(s1[0]));
        assert(s2.len() > 0);
        assert(elems(s2).contains(s2[0]));
        let j = choose|j: int| 0 <= j < s2.len() && s2[j] == s1[0];
        let i = choose|i: int| 0 <= i < s1.len() && s1[i] == s2[0];
        if s1[0] != s2[0] {
            assert(pair_lt(s2[0], s2[j]));
            assert(pair_lt(s1[0], s1[i]));
            lemma_pair_lt_trans(s1[0], s2[0], s1[0]);
            lemma_pair_lt_irrefl(s1[0]);
        }
        let t1 = s1.drop_first();
        let t2 = s2.drop_first();
        assert forall|x: PairView| elems(t1).contains(x) <==> elems(t2).contains(x) by {
            if t1.contains(x) {
                let k = choose|k: int| 0 <= k < t1.len() && t1[k] == x;
                assert(s1[k + 1] == x);
                assert(pair_lt(s1[0], s1[k + 1]));
                lemma_pair_lt_irrefl(x);
                assert(elems(s1).contains(x));
                let m = choose|m: int| 0 <= m < s2.len() && s2[m] == x;
                assert(m != 0);
                assert(t2[m - 1] == x);
            }
            if t2.contains(x) {
                let k = choose|k: int| 0 <= k < t2.len() && t2[k] == x;
                assert(s2[k + 1] == x);
                assert(pair_lt(s2[0], s2[k + 1]));
                lemma_pair_lt_irrefl(x);
                assert(elems(s2).contains(x));
                let m = choose|m: int| 0 <= m < s1.len() && s1[m] == x;
                assert(m != 0);
                assert(t1[m - 1] == x);
            }
        }
        assert(elems(t1) =~= elems(t2));
        assert forall|a: int, b: int| 0 <= a < b < t1.len() implies pair_lt(#[trigger] t1[a], #[trigger] t1[b]) by {
            assert(t1[a] == s1[a + 1] && t1[b] == s1[b + 1]);
        }
        assert forall|a: int, b: int| 0 <= a < b < t2.len() implies pair_lt(#[trigger] t2[a], #[trigger] t2[b]) by {
            assert(t2[a] == s2[a + 1] && t2[b] == s2[b + 1]);
        }
        lemma_sorted_unique(t1, t2);
        assert(s1 =~= seq![s1[0]] + t1);
        assert(s2 =~= seq![s2[0]] + t2);
    }
}

/// Where `x` goes in a sorted sequence: after every element below it.
pub open spec fn insert_pos(t: Seq<PairView>, x: PairView) -> int
    decreases t.len(),
{
    if t.len() == 0 {
        0
    } else if pair_lt(t[0], x) {
        1 + insert_pos(t.drop_first(), x)
    } else {
        0
    }
}

proof fn lemma_insert_pos(t: Seq<PairView>, x: PairView)
    ensures
        0 <= insert_pos(t, x) <= t.len(),
        forall|k: int| 0 <= k < insert_pos(t, x) ==> pair_lt(#[trigger] t[k], x),
        insert_pos(t, x) < t.len() ==> !pair_lt(t[insert_pos(t, x)], x),
    decreases t.len(),
{
    if t.len() > 0 && pair_lt(t[0], x) {
        lemma_insert_pos(t.drop_first(), x);
        assert forall|k: int| 0 <= k < insert_pos(t, x) implies pair_lt(#[trigger] t[k], x) by {
            if k > 0 {
                assert(t[k] == t.drop_first()[k - 1]);
            }
        }
    }
}

proof fn lemma_insert_sorted(t: Seq<PairView>, j: int, x: PairView)
    requires
        strictly_sorted(t),
        0 <= j <= t.len(),
        forall|k: int| 0 <= k < j ==> pair_lt(#[trigger] t[k], x),
        j < t.len() ==> !pair_lt(t[j], x) && t[j] != x,
    ensures
        strictly_sorted(t.insert(j, x)),
        elems(t.insert(j, x)) == elems(t).insert(x),
{
    let after = t.insert(j, x);
    if j < t.len() {
        lemma_pair_lt_total(t[j], x);
    }
    assert forall|a: int, b: int| 0 <= a < b < after.len() implies pair_lt(#[trigger] after[a], #[trigger] after[b]) by {
        if a < j && b == j {
        } else if a < j && b > j {
            lemma_pair_lt_trans(t[a], x, t[j]);
            if b - 1 > j {
                lemma_pair_lt_trans(t[a], t[j], t[b - 1]);
            }
        } else if a == j {
            if b - 1 > j {
                lemma_pair_lt_trans(x, t[j], t[b - 1]);
            }
        } else if a > j {
            assert(after[a] == t[a - 1] && after[b] == t[b - 1]);
        } else {
            assert(after[a] == t[a] && after[b] == t[b]);
        }
    }
    assert forall|y: PairView| elems(after).contains(y) <==> elems(t).insert(x).contains(y) by {
        if after.contains(y) {
            let k = choose|k: int| 0 <= k < after.len() && after[k] == y;
            if k < j {
                assert(t[k] == y);
            } else if k > j {
                assert(t[k - 1] == y);
            }
        }
        if t.contains(y) {
            let k = choose|k: int| 0 <= k < t.len() && t[k] == y;
            if k < j {
                assert(after[k] == y);
            } else {
                assert(after[k + 1] == y);
            }
        }
        if y == x {
            assert(after[j] == y);
        }
    }
    assert(elems(after) =~= elems(t).insert(x));
}

/// Every sequence of pairs has a canonical order: the chosen sequence is
/// strictly sorted and holds exactly its pairs.
pub proof fn lemma_canonical_exists(s: Seq<PairView>)
    ensures
        strictly_sorted(canonical(elems(s))),
        elems(canonical(elems(s))) == elems(s),
    decreases s.len(),
{
    if s.len() == 0 {
        let e = Seq::<PairView>::empty();
        assert(elems(e) =~= elems(s));
        assert(strictly_sorted(e));
    } else {
        let d = s.drop_last();
        let x = s.last();
        lemma_canonical_exists(d);
        let t = canonical(elems(d));
        assert forall|y: PairView| elems(s).contains(y) <==> elems(d).insert(x).contains(y) by {
            if s.contains(y) {
                let k = choose|k: int| 0 <= k < s.len() && s[k] == y;
                if k < d.len() {
                    assert(d[k] == y);
                }
            }
            if d.contains(y) {
                let k = choose|k: int| 0 <= k < d.len() && d[k] == y;
                assert(s[k] == y);
            }
            if y == x {
                assert(s[s.len() - 1] == y);
            }
        }
        assert(elems(s) =~= elems(d).insert(x));
        if elems(t).contains(x) {
            assert(elems(t) =~= elems(s));
        } else {
            lemma_insert_pos(t, x);
            let j = insert_pos(t, x);
            if j < t.len() {
                assert(elems(t).contains(t[j]));
            }
            lemma_insert_sorted(t, j, x);
            assert(elems(t.insert(j, x)) =~= elems(s));
        }
    }
}

/// Annotation lists whose canonical orders agree hold the same pairs.
pub proof fn lemma_canonical_injective(s1: Seq<PairView>, s2: Seq<PairView>)
    requires
        canonical(elems(s1)) == canonical(elems(s2)),
    ensures
        elems(s1) == elems(s2),
{
    lemma_canonical_exists(s1);
    lemma_canonical_exists(s2);
}

/// Whether `a` comes before `b` in lexicographic order.
pub fn str_lt(a: &str, b: &str) -> (r: bool)
    ensures
        r == seq_lt(a@, b@),
{
    let la = a.unicode_len();
    let lb = b.unicode_len();
    let mut i: usize = 0;
    proof {
        assert(a@.skip(0) =~= a@);
        assert(b@.skip(0) =~= b@);
    }
    while i < la && i < lb
        invariant
            la as nat == a@.len(),
            lb as nat == b@.len(),
            i <= la,
            i <= lb,
            seq_lt(a@, b@) == seq_lt(a@.skip(i as int), b@.skip(i as int)),
        decreases la - i,
    {
        let ca = a.get_char(i);
        let cb = b.get_char(i);
        proof {
            assert(a@.skip(i as int)[0] == ca);
            assert(b@.skip(i as int)[0] == cb);
            assert(a@.skip(i as int).drop_first() =~= a@.skip(i + 1));
            assert(b@.skip(i as int).drop_first() =~= b@.skip(i + 1));
        }
        if ca != cb {
            return (ca as u32) < (cb as u32);
        }
        i = i + 1;
    }
    i == la && i < lb
}

/// The view of an annotation pair.
pub open spec fn pair_view(p: (String, String)) -> PairView {
    (p.0@, p.1@)
}

/// The views of a sequence of annotation pairs.
pub open spec fn pair_views(s: Seq<(String, String)>) -> Seq<PairView> {
    s.map_values(|p: (String, String)| pair_view(p))
}

fn pair_less(p: &(String, String), q: &(String, String)) -> (r: bool)
    ensures
        r == pair_lt(pair_view(*p), pair_view(*q)),
{
    if str_lt(p.0.as_str(), q.0.as_str()) {
        true
    } else if p.0 == q.0 {
        str_lt(p.1.as_str(), q.1.as_str())
    } else {
        false
    }
}

/// The annotation pairs in canonical order: sorted by name then value,
/// each pair once. Any two lists holding the same pairs give the same
/// result.
pub fn canonical_pairs(pairs: &Vec<(String, String)>) -> (r: Vec<(String, String)>)
    ensures
        pair_views(r@) == canonical(elems(pair_views(pairs@))),
{
    let mut out: Vec<(String, String)> = Vec::new();
    let mut i: usize = 0;
    while i < pairs.len()
        invariant
            i <= pairs@.len(),
            strictly_sorted(pair_views(out@)),
            elems(pair_views(out@)) == elems(pair_views(pairs@.subrange(0, i as int))),
        decreases pairs@.len() - i,
    {
        let p = &pairs[i];
        let ghost pv = pair_view(*p);
        let ghost before = pair_views(out@);
        let mut j: usize = 0;
        while j < out.len()
            invariant
                j <= out@.len(),
                before == pair_views(out@),
                pv == pair_view(*p),
                forall|k: int| 0 <= k < j ==> pair_lt(#[trigger] before[k], pv),
            ensures
                j <= out@.len(),
                before == pair_views(out@),
                forall|k: int| 0 <= k < j ==> pair_lt(#[trigger] before[k], pv),
                j < out@.len() ==> !pair_lt(before[j as int], pv),
            decreases out@.len() - j,
        {
            if !pair_less(&out[j], p) {
                proof {
                    assert(before[j as int] == pair_view(out@[j as int]));
                }
                break;
            }
            proof {
                assert(before[j as int] == pair_view(out@[j as int]));
                assert(pair_lt(before[j as int], pv));
            }
            j = j + 1;
        }
        let dup = j < out.len() && out[j].0 == p.0 && out[j].1 == p.1;
        proof {
            if j < out@.len() {
                assert(before[j as int] == pair_view(out@[j as int]));
            }
        }
        if !dup {
            out.insert(j, (p.0.clone(), p.1.clone()));
            proof {
                assert(pair_views(out@) =~= before.insert(j as int, pv));
                lemma_insert_sorted(before, j as int, pv);
            }
        } else {
            proof {
                assert(before[j as int] == pv);
                assert(elems(before).contains(pv));
                assert(elems(before) =~= elems(before).insert(pv));
            }
        }
        proof {
            let s0 = pair_views(pairs@.subrange(0, i as int));
            let s1 = pair_views(pairs@.subrange(0, i + 1));
            assert(s1 =~= s0.push(pv));
            assert forall|x: PairView| elems(s1).contains(x) <==> elems(s0).insert(pv).contains(x) by {
                if s1.contains(x) {
                    let k = choose|k: int| 0 <= k < s1.len() && s1[k] == x;
                    if k < s0.len() {
                        assert(s0[k] == x);
                    }
                }
                if s0.contains(x) {
                    let k = choose|k: int| 0 <= k < s0.len() && s0[k] == x;
                    assert(s1[k] == x);
                }
                if x == pv {
                    assert(s1[i as int] == x);
                }
            }
            assert(elems(s1) =~= elems(s0).insert(pv));
        }
        i = i + 1;
    }
    proof {
        assert(pairs@.subrange(0, pairs@.len() as int) =~= pairs@);
        let set = elems(pair_views(pairs@));
        let v = pair_views(out@);
        assert(strictly_sorted(v) && elems(v) == set);
        let c = canonical(set);
        assert(strictly_sorted(c) && elems(c) == set);
        lemma_sorted_unique(v, c);
    }
    out
}

} // verus!
