//! General facts about sequences used by the loop proofs of the library.
use vstd::prelude::*;

verus! {

broadcast use vstd::seq_lib::group_seq_properties;

/// Filtering a prefix one element longer.
pub proof fn lemma_filter_take_step<A>(s: Seq<A>, p: spec_fn(A) -> bool, i: int)
    requires
        0 <= i < s.len(),
    ensures
        s.take(i + 1).filter(p) == if p(s[i]) {
            s.take(i).filter(p).push(s[i])
        } else {
            s.take(i).filter(p)
        },
{
    assert(s.take(i + 1) =~= s.take(i).push(s[i]));
    s.take(i).lemma_filter_push(s[i], p);
}

/// The whole sequence as a prefix of itself.
pub proof fn lemma_take_all<A>(s: Seq<A>)
    ensures
        s.take(s.len() as int) == s,
{
    assert(s.take(s.len() as int) =~= s);
}

/// If nothing before `i` satisfies `p` and `s[i]` does, then `s[i]` heads the filter.
pub proof fn lemma_first_hit<A>(s: Seq<A>, p: spec_fn(A) -> bool, i: int)
    requires
        0 <= i < s.len(),
        s.take(i).filter(p).len() == 0,
        p(s[i]),
    ensures
        s.filter(p).len() > 0,
        s.filter(p)[0] == s[i],
{
    lemma_filter_take_step(s, p, i);
    assert(s.take(i + 1) + s.skip(i + 1) =~= s);
    Seq::filter_distributes_over_add(s.take(i + 1), s.skip(i + 1), p);
    assert(s.take(i + 1).filter(p) =~= seq![s[i]]);
}

/// A filter over a sequence where nothing satisfies the predicate is empty.
pub proof fn lemma_filter_none<A>(s: Seq<A>, p: spec_fn(A) -> bool)
    requires
        forall|k: int| 0 <= k < s.len() ==> !p(#[trigger] s[k]),
    ensures
        s.filter(p).len() == 0,
    decreases s.len(),
{
    reveal(Seq::filter);
    if s.len() > 0 {
        lemma_filter_none(s.drop_last(), p);
    }
}

/// The first element of a sequence satisfying `p`, if any.
pub open spec fn first_such<A>(s: Seq<A>, p: spec_fn(A) -> bool) -> Option<A> {
    if s.filter(p).len() > 0 {
        Some(s.filter(p)[0])
    } else {
        None
    }
}

/// Whether some element of `s` satisfies `p`.
pub open spec fn any_such<A>(s: Seq<A>, p: spec_fn(A) -> bool) -> bool {
    exists|k: int| 0 <= k < s.len() && p(#[trigger] s[k])
}

/// `first_such` is `None` exactly when nothing satisfies the predicate.
pub proof fn lemma_first_such_none<A>(s: Seq<A>, p: spec_fn(A) -> bool)
    ensures
        first_such(s, p) is None <==> !any_such(s, p),
        first_such(s, p) matches Some(x) ==> p(x),
{
    if any_such(s, p) {
        let k = choose|k: int| 0 <= k < s.len() && p(#[trigger] s[k]);
        s.lemma_filter_contains(p, k);
    } else {
        lemma_filter_none(s, p);
    }
    if s.filter(p).len() > 0 {
        s.lemma_filter_pred(p, 0);
    }
}


/// `filter_map` over a split sequence is the concatenation of the two parts.
pub proof fn lemma_filter_map_split<A, B>(s: Seq<A>, f: spec_fn(A) -> Option<B>, k: int)
    requires
        0 <= k <= s.len(),
    ensures
        s.filter_map(f) == s.take(k).filter_map(f) + s.skip(k).filter_map(f),
    decreases s.len() - k,
{
    if k == s.len() {
        assert(s.take(k) =~= s);
        assert(s.skip(k) =~= Seq::<A>::empty());
        assert(s.filter_map(f) + Seq::<B>::empty() =~= s.filter_map(f));
    } else {
        lemma_filter_map_split(s, f, k + 1);
        s.lemma_filter_map_take_succ(f, k);
        let rest = s.skip(k);
        assert(rest.len() > 0);
        assert(rest.take(1) + rest.skip(1) =~= rest);
        lemma_filter_map_split(rest, f, 1);
        assert(rest.skip(1) =~= s.skip(k + 1));
        assert(rest.take(1) =~= seq![s[k]]);
        assert(rest.take(1).take(0) =~= Seq::<A>::empty());
        rest.take(1).lemma_filter_map_take_succ(f, 0);
        assert(rest.take(1).take(1) =~= rest.take(1));
    }
}

/// An element of a prefix's `filter_map` is an element of the whole `filter_map`, at the same place.
pub proof fn lemma_filter_map_prefix_index<A, B>(s: Seq<A>, f: spec_fn(A) -> Option<B>, k: int, m: int)
    requires
        0 <= k <= s.len(),
        0 <= m < s.take(k).filter_map(f).len(),
    ensures
        m < s.filter_map(f).len(),
        s.filter_map(f)[m] == s.take(k).filter_map(f)[m],
{
    lemma_filter_map_split(s, f, k);
}

/// An input that maps to a value puts that value in the `filter_map`.
pub proof fn lemma_filter_map_has<A, B>(s: Seq<A>, f: spec_fn(A) -> Option<B>, t: A, e: B)
    requires
        s.contains(t),
        f(t) == Some(e),
    ensures
        s.filter_map(f).contains(e),
    decreases s.len(),
{
    let rest = s.drop_last();
    if s.last() == t {
        assert(s.filter_map(f) == rest.filter_map(f) + seq![e]);
        assert(s.filter_map(f)[rest.filter_map(f).len() as int] == e);
    } else {
        let i = choose|i: int| 0 <= i < s.len() && s[i] == t;
        assert(i < s.len() - 1);
        assert(rest[i] == t);
        assert(rest.contains(t));
        lemma_filter_map_has(rest, f, t, e);
        let j = choose|j: int| 0 <= j < rest.filter_map(f).len() && rest.filter_map(f)[j] == e;
        match f(s.last()) {
            Some(x) => {
                assert(s.filter_map(f) == rest.filter_map(f) + seq![x]);
                assert(s.filter_map(f)[j] == e);
            },
            None => {},
        }
    }
}


/// The present values of `s`, in order.
pub open spec fn somes<A>(s: Seq<Option<A>>) -> Seq<A>
    decreases s.len(),
{
    if s.len() == 0 {
        Seq::empty()
    } else {
        match s.last() {
            Some(x) => somes(s.drop_last()).push(x),
            None => somes(s.drop_last()),
        }
    }
}

/// Keeps the present values of `v`, in order.
pub fn collect_somes<A>(v: Vec<Option<A>>) -> (r: Vec<A>)
    ensures
        r@ == somes(v@),
{
    let ghost orig = v@;
    let mut v = v;
    assert(orig.len() <= usize::MAX) by {
        assert(v.len() <= usize::MAX);
    }
    let mut r: Vec<A> = Vec::new();
    let mut i: usize = 0;
    assert(orig.take(0) =~= Seq::<Option<A>>::empty());
    assert(orig.skip(0) =~= orig);
    while v.len() > 0
        invariant
            i <= orig.len(),
            orig.len() <= usize::MAX,
            v@ == orig.skip(i as int),
            r@ == somes(orig.take(i as int)),
        decreases v@.len(),
    {
        let x = v.remove(0);
        assert(orig.take(i + 1).drop_last() =~= orig.take(i as int));
        assert(orig.take(i + 1).last() == orig[i as int]);
        assert(orig.skip(i as int).skip(1) =~= orig.skip(i + 1));
        match x {
            Some(a) => {
                r.push(a);
            },
            None => {},
        }
        i = i + 1;
    }
    assert(orig.take(i as int) =~= orig);
    r
}

} // verus!
