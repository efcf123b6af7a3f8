use vstd::prelude::*;
use vstd::string::{StrSliceExecFns, StringExecFns};

use crate::order::{canonical, canonical_pairs, elems, lemma_canonical_injective, pair_views, PairView};

verus! {

/// A keyless identity a signature must come from.
pub struct KeylessInfo {
    pub issuer: String,
    pub subject: String,
}

/// The characters of a string, each preceded by `.`.
pub open spec fn text_body(s: Seq<char>) -> Seq<char>
    decreases s.len(),
{
    if s.len() == 0 {
        Seq::empty()
    } else {
        text_body(s.drop_last()) + seq!['.', s.last()]
    }
}

/// A string in a cache key: its characters, each preceded by `.`, then `!`.
/// No encoded string is a prefix of another, whatever characters they hold.
pub open spec fn text_enc(s: Seq<char>) -> Seq<char> {
    text_body(s) + seq!['!']
}

/// Each string of a list preceded by `+`.
pub open spec fn list_body(l: Seq<Seq<char>>) -> Seq<char>
    decreases l.len(),
{
    if l.len() == 0 {
        Seq::empty()
    } else {
        list_body(l.drop_last()) + seq!['+'] + text_enc(l.last())
    }
}

/// A list of strings in a cache key, ended by `|`.
pub open spec fn list_enc(l: Seq<Seq<char>>) -> Seq<char> {
    list_body(l) + seq!['|']
}

/// Each pair of a list preceded by `+`.
pub open spec fn pairs_body(l: Seq<PairView>) -> Seq<char>
    decreases l.len(),
{
    if l.len() == 0 {
        Seq::empty()
    } else {
        pairs_body(l.drop_last()) + seq!['+'] + text_enc(l.last().0) + text_enc(l.last().1)
    }
}

/// A list of pairs in a cache key, ended by `|`.
pub open spec fn pairs_enc(l: Seq<PairView>) -> Seq<char> {
    pairs_body(l) + seq!['|']
}

/// The views of a list of strings.
pub open spec fn text_views(l: Seq<String>) -> Seq<Seq<char>> {
    l.map_values(|s: String| s@)
}

/// The views of keyless identities, as (issuer, subject) pairs.
pub open spec fn keyless_views(l: Seq<KeylessInfo>) -> Seq<PairView> {
    l.map_values(|k: KeylessInfo| (k.issuer@, k.subject@))
}

/// The annotations part of a cache key: the pairs in canonical order, so
/// that it depends on which pairs are given and not on their order.
/// Absent annotations differ from empty ones.
pub open spec fn annotations_part(annotations: Option<Seq<(String, String)>>) -> Seq<char> {
    match annotations {
        None => seq!['-'],
        Some(p) => seq!['{'] + pairs_enc(canonical(elems(pair_views(p)))),
    }
}

/// The view of optional annotations.
pub open spec fn annotations_view(annotations: Option<Vec<(String, String)>>) -> Option<Seq<(String, String)>> {
    match annotations {
        None => None,
        Some(v) => Some(v@),
    }
}

/// The cache key of a public-key verification.
pub open spec fn pub_key_key(image: Seq<char>, keys: Seq<String>, annotations: Option<Seq<(String, String)>>) -> Seq<char> {
    text_enc(image) + list_enc(text_views(keys)) + annotations_part(annotations)
}

/// The cache key of a keyless verification.
pub open spec fn keyless_key(image: Seq<char>, ids: Seq<KeylessInfo>, annotations: Option<Seq<(String, String)>>) -> Seq<char> {
    text_enc(image) + pairs_enc(keyless_views(ids)) + annotations_part(annotations)
}

proof fn lemma_text_front(s: Seq<char>)
    requires
        s.len() > 0,
    ensures
        text_enc(s) == seq!['.', s[0]] + text_enc(s.drop_first()),
    decreases s.len(),
{
    if s.len() == 1 {
        assert(s.drop_last() =~= Seq::<char>::empty());
        assert(s.drop_first() =~= Seq::<char>::empty());
        assert(text_enc(s) =~= seq!['.', s[0]] + text_enc(s.drop_first()));
    } else {
        lemma_text_front(s.drop_last());
        assert(s.drop_last().drop_first() =~= s.drop_first().drop_last());
        assert(s.drop_first().last() == s.last());
        assert(text_body(s.drop_last()) =~= text_enc(s.drop_last()).drop_last());
        assert((seq!['.', s[0]] + text_enc(s.drop_last().drop_first())).drop_last()
            =~= seq!['.', s[0]] + text_body(s.drop_last().drop_first()));
        assert(text_body(s.drop_last()) =~= seq!['.', s[0]] + text_body(s.drop_first().drop_last()));
        assert(text_enc(s) =~= seq!['.', s[0]] + text_enc(s.drop_first()));
    }
}

/// An encoded string followed by anything determines the string and what
/// follows.
pub proof fn lemma_text_unique(s1: Seq<char>, s2: Seq<char>, r1: Seq<char>, r2: Seq<char>)
    requires
        text_enc(s1) + r1 == text_enc(s2) + r2,
    ensures
        s1 == s2,
        r1 == r2,
    decreases s1.len(),
{
    let x = text_enc(s1) + r1;
    if s1.len() == 0 {
        assert(x[0] == '!');
        if s2.len() > 0 {
            lemma_text_front(s2);
            assert((text_enc(s2) + r2)[0] == '.');
        }
        assert(s1 =~= s2);
        assert(r1 =~= x.drop_first());
        assert(r2 =~= (text_enc(s2) + r2).drop_first());
    } else {
        lemma_text_front(s1);
        assert(x[0] == '.');
        if s2.len() == 0 {
            assert((text_enc(s2) + r2)[0] == '!');
        }
        lemma_text_front(s2);
        assert(x[1] == s1[0]);
        assert((text_enc(s2) + r2)[1] == s2[0]);
        assert(x.subrange(2, x.len() as int) =~= text_enc(s1.drop_first()) + r1);
        assert(x.subrange(2, x.len() as int) =~= text_enc(s2.drop_first()) + r2);
        lemma_text_unique(s1.drop_first(), s2.drop_first(), r1, r2);
        assert(s1 =~= seq![s1[0]] + s1.drop_first());
        assert(s2 =~= seq![s2[0]] + s2.drop_first());
    }
}

proof fn lemma_list_front(l: Seq<Seq<char>>)
    requires
        l.len() > 0,
    ensures
        list_enc(l) == seq!['+'] + text_enc(l[0]) + list_enc(l.drop_first()),
    decreases l.len(),
{
    if l.len() == 1 {
        assert(l.drop_last() =~= Seq::<Seq<char>>::empty());
        assert(l.drop_first() =~= Seq::<Seq<char>>::empty());
        assert(list_enc(l) =~= seq!['+'] + text_enc(l[0]) + list_enc(l.drop_first()));
    } else {
        lemma_list_front(l.drop_last());
        assert(l.drop_last().drop_first() =~= l.drop_first().drop_last());
        assert(l.drop_first().last() == l.last());
        assert(list_body(l.drop_last()) =~= list_enc(l.drop_last()).drop_last());
        assert((seq!['+'] + text_enc(l[0]) + list_enc(l.drop_last().drop_first())).drop_last()
            =~= seq!['+'] + text_enc(l[0]) + list_body(l.drop_last().drop_first()));
        assert(list_body(l.drop_last()) =~= seq!['+'] + text_enc(l[0]) + list_body(l.drop_first().drop_last()));
        assert(list_enc(l) =~= seq!['+'] + text_enc(l[0]) + list_enc(l.drop_first()));
    }
}

/// An encoded list of strings followed by anything determines the list and
/// what follows.
pub proof fn lemma_list_unique(l1: Seq<Seq<char>>, l2: Seq<Seq<char>>, r1: Seq<char>, r2: Seq<char>)
    requires
        list_enc(l1) + r1 == list_enc(l2) + r2,
    ensures
        l1 == l2,
        r1 == r2,
    decreases l1.len(),
{
    let x = list_enc(l1) + r1;
    let y = list_enc(l2) + r2;
    if l1.len() == 0 {
        assert(x[0] == '|');
        if l2.len() > 0 {
            lemma_list_front(l2);
            assert(y[0] == '+');
        }
        assert(l1 =~= l2);
        assert(r1 =~= x.drop_first());
        assert(r2 =~= y.drop_first());
    } else {
        lemma_list_front(l1);
        assert(x[0] == '+');
        if l2.len() == 0 {
            assert(y[0] == '|');
        }
        lemma_list_front(l2);
        assert(x.drop_first() =~= text_enc(l1[0]) + (list_enc(l1.drop_first()) + r1));
        assert(y.drop_first() =~= text_enc(l2[0]) + (list_enc(l2.drop_first()) + r2));
        lemma_text_unique(l1[0], l2[0], list_enc(l1.drop_first()) + r1, list_enc(l2.drop_first()) + r2);
        lemma_list_unique(l1.drop_first(), l2.drop_first(), r1, r2);
        assert(l1 =~= seq![l1[0]] + l1.drop_first());
        assert(l2 =~= seq![l2[0]] + l2.drop_first());
    }
}

proof fn lemma_pairs_front(l: Seq<PairView>)
    requires
        l.len() > 0,
    ensures
        pairs_enc(l) == seq!['+'] + text_enc(l[0].0) + text_enc(l[0].1) + pairs_enc(l.drop_first()),
    decreases l.len(),
{
    if l.len() == 1 {
        assert(l.drop_last() =~= Seq::<PairView>::empty());
        assert(l.drop_first() =~= Seq::<PairView>::empty());
        assert(pairs_enc(l) =~= seq!['+'] + text_enc(l[0].0) + text_enc(l[0].1) + pairs_enc(l.drop_first()));
    } else {
        lemma_pairs_front(l.drop_last());
        assert(l.drop_last().drop_first() =~= l.drop_first().drop_last());
        assert(l.drop_first().last() == l.last());
        assert(pairs_body(l.drop_last()) =~= pairs_enc(l.drop_last()).drop_last());
        assert((seq!['+'] + text_enc(l[0].0) + text_enc(l[0].1) + pairs_enc(l.drop_last().drop_first())).drop_last()
            =~= seq!['+'] + text_enc(l[0].0) + text_enc(l[0].1) + pairs_body(l.drop_last().drop_first()));
        assert(pairs_body(l.drop_last()) =~= seq!['+'] + text_enc(l[0].0) + text_enc(l[0].1) + pairs_body(l.drop_first().drop_last()));
        assert(pairs_enc(l) =~= seq!['+'] + text_enc(l[0].0) + text_enc(l[0].1) + pairs_enc(l.drop_first()));
    }
}

/// An encoded list of pairs followed by anything determines the list and
/// what follows.
pub proof fn lemma_pairs_unique(l1: Seq<PairView>, l2: Seq<PairView>, r1: Seq<char>, r2: Seq<char>)
    requires
        pairs_enc(l1) + r1 == pairs_enc(l2) + r2,
    ensures
        l1 == l2,
        r1 == r2,
    decreases l1.len(),
{
    let x = pairs_enc(l1) + r1;
    let y = pairs_enc(l2) + r2;
    if l1.len() == 0 {
        assert(x[0] == '|');
        if l2.len() > 0 {
            lemma_pairs_front(l2);
            assert(y[0] == '+');
        }
        assert(l1 =~= l2);
        assert(r1 =~= x.drop_first());
        assert(r2 =~= y.drop_first());
    } else {
        lemma_pairs_front(l1);
        assert(x[0] == '+');
        if l2.len() == 0 {
            assert(y[0] == '|');
        }
        lemma_pairs_front(l2);
        let t1 = text_enc(l1[0].1) + (pairs_enc(l1.drop_first()) + r1);
        let t2 = text_enc(l2[0].1) + (pairs_enc(l2.drop_first()) + r2);
        assert(x.drop_first() =~= text_enc(l1[0].0) + t1);
        assert(y.drop_first() =~= text_enc(l2[0].0) + t2);
        lemma_text_unique(l1[0].0, l2[0].0, t1, t2);
        lemma_text_unique(l1[0].1, l2[0].1, pairs_enc(l1.drop_first()) + r1, pairs_enc(l2.drop_first()) + r2);
        lemma_pairs_unique(l1.drop_first(), l2.drop_first(), r1, r2);
        assert(l1[0] == l2[0]);
        assert(l1 =~= seq![l1[0]] + l1.drop_first());
        assert(l2 =~= seq![l2[0]] + l2.drop_first());
    }
}

proof fn lemma_annotations_unique(a1: Option<Seq<(String, String)>>, a2: Option<Seq<(String, String)>>)
    requires
        annotations_part(a1) == annotations_part(a2),
    ensures
        a1 is None <==> a2 is None,
        a1 is Some && a2 is Some ==> elems(pair_views(a1->Some_0)) == elems(pair_views(a2->Some_0)),
{
    assert(annotations_part(a1)[0] == (if a1 is None { '-' } else { '{' }));
    assert(annotations_part(a2)[0] == (if a2 is None { '-' } else { '{' }));
    if a1 is Some && a2 is Some {
        let c1 = canonical(elems(pair_views(a1->Some_0)));
        let c2 = canonical(elems(pair_views(a2->Some_0)));
        assert(pairs_enc(c1) + Seq::<char>::empty() =~= annotations_part(a1).drop_first());
        assert(pairs_enc(c2) + Seq::<char>::empty() =~= annotations_part(a2).drop_first());
        lemma_pairs_unique(c1, c2, Seq::empty(), Seq::empty());
        lemma_canonical_injective(pair_views(a1->Some_0), pair_views(a2->Some_0));
    }
}

/// Different public-key verifications have different cache keys: equal
/// keys come from the same image, the same public keys in the same order,
/// and the same set of annotation pairs, or both without
/// annotations.
pub proof fn lemma_pub_key_key_unique(
    i1: Seq<char>, k1: Seq<String>, a1: Option<Seq<(String, String)>>,
    i2: Seq<char>, k2: Seq<String>, a2: Option<Seq<(String, String)>>,
)
    requires
        pub_key_key(i1, k1, a1) == pub_key_key(i2, k2, a2),
    ensures
        i1 == i2,
        text_views(k1) == text_views(k2),
        a1 is None <==> a2 is None,
        a1 is Some && a2 is Some ==> elems(pair_views(a1->Some_0)) == elems(pair_views(a2->Some_0)),
{
    let r1 = list_enc(text_views(k1)) + annotations_part(a1);
    let r2 = list_enc(text_views(k2)) + annotations_part(a2);
    assert(pub_key_key(i1, k1, a1) =~= text_enc(i1) + r1);
    assert(pub_key_key(i2, k2, a2) =~= text_enc(i2) + r2);
    lemma_text_unique(i1, i2, r1, r2);
    lemma_list_unique(text_views(k1), text_views(k2), annotations_part(a1), annotations_part(a2));
    lemma_annotations_unique(a1, a2);
}

/// Different keyless verifications have different cache keys: equal keys
/// come from the same image, the same identities in the same order, and
/// the same set of annotation pairs, or both without
/// annotations.
pub proof fn lemma_keyless_key_unique(
    i1: Seq<char>, k1: Seq<KeylessInfo>, a1: Option<Seq<(String, String)>>,
    i2: Seq<char>, k2: Seq<KeylessInfo>, a2: Option<Seq<(String, String)>>,
)
    requires
        keyless_key(i1, k1, a1) == keyless_key(i2, k2, a2),
    ensures
        i1 == i2,
        keyless_views(k1) == keyless_views(k2),
        a1 is None <==> a2 is None,
        a1 is Some && a2 is Some ==> elems(pair_views(a1->Some_0)) == elems(pair_views(a2->Some_0)),
{
    let r1 = pairs_enc(keyless_views(k1)) + annotations_part(a1);
    let r2 = pairs_enc(keyless_views(k2)) + annotations_part(a2);
    assert(keyless_key(i1, k1, a1) =~= text_enc(i1) + r1);
    assert(keyless_key(i2, k2, a2) =~= text_enc(i2) + r2);
    lemma_text_unique(i1, i2, r1, r2);
    lemma_pairs_unique(keyless_views(k1), keyless_views(k2), annotations_part(a1), annotations_part(a2));
    lemma_annotations_unique(a1, a2);
}

/// The order in which annotations are given does not change a cache key:
/// two lists holding the same pairs give the same key.
pub proof fn lemma_annotation_order_irrelevant(
    image: Seq<char>,
    keys: Seq<String>,
    ids: Seq<KeylessInfo>,
    a1: Seq<(String, String)>,
    a2: Seq<(String, String)>,
)
    requires
        elems(pair_views(a1)) == elems(pair_views(a2)),
    ensures
        pub_key_key(image, keys, Some(a1)) == pub_key_key(image, keys, Some(a2)),
        keyless_key(image, ids, Some(a1)) == keyless_key(image, ids, Some(a2)),
{
}

fn append_text(out: &mut String, s: &str)
    ensures
        final(out)@ == old(out)@ + text_enc(s@),
{
    proof {
        reveal_strlit(".");
        reveal_strlit("!");
        reveal_strlit("+");
        reveal_strlit("|");
        reveal_strlit("-");
        reveal_strlit("{");
    }
    let ghost start = out@;
    let n = s.unicode_len();
    let mut i: usize = 0;
    while i < n
        invariant
            n as nat == s@.len(),
            i <= n,
            out@ == start + text_body(s@.subrange(0, i as int)),
        decreases n - i,
    {
        out.append(".");
        out.append(s.substring_char(i, i + 1));
        proof {
            let t = s@.subrange(0, i + 1);
            reveal_strlit(".");
            reveal_strlit("+");
            assert(t.drop_last() =~= s@.subrange(0, i as int));
            assert(t.last() == s@[i as int]);
            assert(out@ =~= start + text_body(t));
        }
        i = i + 1;
    }
    out.append("!");
    proof {
        assert(s@.subrange(0, n as int) =~= s@);
        assert(out@ =~= start + text_enc(s@));
    }
}

fn append_pairs(out: &mut String, pairs: &Vec<(String, String)>)
    ensures
        final(out)@ == old(out)@ + pairs_enc(pair_views(pairs@)),
{
    proof {
        reveal_strlit(".");
        reveal_strlit("!");
        reveal_strlit("+");
        reveal_strlit("|");
        reveal_strlit("-");
        reveal_strlit("{");
    }
    let ghost start = out@;
    let mut i: usize = 0;
    while i < pairs.len()
        invariant
            i <= pairs@.len(),
            out@ == start + pairs_body(pair_views(pairs@).subrange(0, i as int)),
        decreases pairs@.len() - i,
    {
        out.append("+");
        append_text(out, pairs[i].0.as_str());
        append_text(out, pairs[i].1.as_str());
        proof {
            let t = pair_views(pairs@).subrange(0, i + 1);
            reveal_strlit(".");
            reveal_strlit("+");
            assert(t.drop_last() =~= pair_views(pairs@).subrange(0, i as int));
            assert(t.last() == (pairs@[i as int].0@, pairs@[i as int].1@));
            assert(out@ =~= start + pairs_body(t));
        }
        i = i + 1;
    }
    out.append("|");
    proof {
        assert(pair_views(pairs@).subrange(0, pairs@.len() as int) =~= pair_views(pairs@));
        assert(out@ =~= start + pairs_enc(pair_views(pairs@)));
    }
}

fn append_annotations(out: &mut String, annotations: &Option<Vec<(String, String)>>)
    ensures
        final(out)@ == old(out)@ + annotations_part(annotations_view(*annotations)),
{
    proof {
        reveal_strlit(".");
        reveal_strlit("!");
        reveal_strlit("+");
        reveal_strlit("|");
        reveal_strlit("-");
        reveal_strlit("{");
    }
    match annotations {
        None => out.append("-"),
        Some(given) => {
            let ghost start = out@;
            let pairs = canonical_pairs(given);
            out.append("{");
            append_pairs(out, &pairs);
            proof {
                assert(out@ =~= start + annotations_part(annotations_view(*annotations)));
            }
        },
    }
}

/// The cache key of a manifest digest lookup: the image reference itself.
pub fn oci_digest_key(image: &str) -> (r: String)
    ensures
        r@ == image@,
{
    image.to_string()
}

/// The cache key of a verification against public keys, built from the
/// image, the keys in order and the annotations.
pub fn pub_key_verification_key(
    image: &str,
    pub_keys: &Vec<String>,
    annotations: &Option<Vec<(String, String)>>,
) -> (r: String)
    ensures
        r@ == pub_key_key(image@, pub_keys@, annotations_view(*annotations)),
{
    proof {
        reveal_strlit(".");
        reveal_strlit("!");
        reveal_strlit("+");
        reveal_strlit("|");
        reveal_strlit("-");
        reveal_strlit("{");
    }
    let mut out = String::new();
    append_text(&mut out, image);
    let ghost mid = out@;
    let mut i: usize = 0;
    while i < pub_keys.len()
        invariant
            i <= pub_keys@.len(),
            out@ == mid + list_body(text_views(pub_keys@).subrange(0, i as int)),
        decreases pub_keys@.len() - i,
    {
        out.append("+");
        append_text(&mut out, pub_keys[i].as_str());
        proof {
            let t = text_views(pub_keys@).subrange(0, i + 1);
            reveal_strlit(".");
            reveal_strlit("+");
            assert(t.drop_last() =~= text_views(pub_keys@).subrange(0, i as int));
            assert(t.last() == pub_keys@[i as int]@);
            assert(out@ =~= mid + list_body(t));
        }
        i = i + 1;
    }
    out.append("|");
    proof {
        assert(text_views(pub_keys@).subrange(0, pub_keys@.len() as int) =~= text_views(pub_keys@));
    }
    append_annotations(&mut out, annotations);
    proof {
        assert(out@ =~= pub_key_key(image@, pub_keys@, annotations_view(*annotations)));
    }
    out
}

/// The cache key of a keyless verification, built from the image, the
/// identities in order and the annotations.
pub fn keyless_verification_key(
    image: &str,
    keyless: &Vec<KeylessInfo>,
    annotations: &Option<Vec<(String, String)>>,
) -> (r: String)
    ensures
        r@ == keyless_key(image@, keyless@, annotations_view(*annotations)),
{
    proof {
        reveal_strlit(".");
        reveal_strlit("!");
        reveal_strlit("+");
        reveal_strlit("|");
        reveal_strlit("-");
        reveal_strlit("{");
    }
    let mut out = String::new();
    append_text(&mut out, image);
    let ghost mid = out@;
    let mut i: usize = 0;
    while i < keyless.len()
        invariant
            i <= keyless@.len(),
            out@ == mid + pairs_body(keyless_views(keyless@).subrange(0, i as int)),
        decreases keyless@.len() - i,
    {
        out.append("+");
        append_text(&mut out, keyless[i].issuer.as_str());
        append_text(&mut out, keyless[i].subject.as_str());
        proof {
            let t = keyless_views(keyless@).subrange(0, i + 1);
            reveal_strlit(".");
            reveal_strlit("+");
            assert(t.drop_last() =~= keyless_views(keyless@).subrange(0, i as int));
            assert(t.last() == (keyless@[i as int].issuer@, keyless@[i as int].subject@));
            assert(out@ =~= mid + pairs_body(t));
        }
        i = i + 1;
    }
    out.append("|");
    proof {
        assert(keyless_views(keyless@).subrange(0, keyless@.len() as int) =~= keyless_views(keyless@));
    }
    append_annotations(&mut out, annotations);
    proof {
        assert(out@ =~= keyless_key(image@, keyless@, annotations_view(*annotations)));
    }
    out
}

} // verus!
