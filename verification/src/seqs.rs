//! Facts about sequences that the rest of the crate uses.

use vstd::prelude::*;

verus! {

/// Where exactly the first `n` items satisfy `p`, filtering by `p` keeps those
/// and filtering by its negation keeps the others.
pub proof fn lemma_filter_prefix<A>(s: Seq<A>, p: spec_fn(A) -> bool, q: spec_fn(A) -> bool, n: int)
    requires
        0 <= n <= s.len(),
        forall|i: int| 0 <= i < n ==> p(#[trigger] s[i]) && !q(s[i]),
        forall|i: int| n <= i < s.len() ==> !p(#[trigger] s[i]) && q(s[i]),
    ensures
        s.filter(p) == s.take(n),
        s.filter(q) == s.skip(n),
    decreases s.len(),
{
    reveal(Seq::filter);
    if s.len() > 0 {
        let front = s.drop_last();
        if n == s.len() {
            lemma_filter_prefix(front, p, q, n - 1);
            assert(front.filter(p).push(s.last()) =~= s.take(n));
            assert(front.skip(n - 1) =~= s.skip(n));
        } else {
            lemma_filter_prefix(front, p, q, n);
            assert(front.take(n) =~= s.take(n));
            assert(front.skip(n).push(s.last()) =~= s.skip(n));
        }
    } else {
        assert(s.take(n) =~= Seq::<A>::empty());
        assert(s.skip(n) =~= Seq::<A>::empty());
    }
}

/// A filter that every item passes keeps the sequence.
pub proof fn lemma_filter_all<A>(s: Seq<A>, p: spec_fn(A) -> bool)
    requires
        forall|i: int| 0 <= i < s.len() ==> p(#[trigger] s[i]),
    ensures
        s.filter(p) == s,
    decreases s.len(),
{
    reveal(Seq::filter);
    if s.len() > 0 {
        lemma_filter_all(s.drop_last(), p);
        assert(s.drop_last().push(s.last()) =~= s);
    }
}

/// Filtering out the one item at `k` removes it.
pub proof fn lemma_filter_one_out<A>(s: Seq<A>, p: spec_fn(A) -> bool, k: int)
    requires
        0 <= k < s.len(),
        forall|i: int| 0 <= i < s.len() ==> p(#[trigger] s[i]) == (i != k),
    ensures
        s.filter(p) == s.remove(k),
    decreases s.len(),
{
    reveal(Seq::filter);
    let front = s.drop_last();
    if k == s.len() - 1 {
        assert forall|i: int| 0 <= i < front.len() implies p(#[trigger] front[i]) by {
            assert(front[i] == s[i]);
        }
        lemma_filter_all(front, p);
        assert(front =~= s.remove(k));
    } else {
        assert forall|i: int| 0 <= i < front.len() implies p(#[trigger] front[i]) == (i != k) by {
            assert(front[i] == s[i]);
        }
        lemma_filter_one_out(front, p, k);
        assert(front.remove(k).push(s.last()) =~= s.remove(k));
    }
}

/// What a sequence contains after a push, and that a push of something new repeats
/// nothing.
pub proof fn lemma_push<A>(s: Seq<A>, a: A)
    ensures
        forall|x: A| #[trigger] s.push(a).contains(x) <==> s.contains(x) || x == a,
        s.no_duplicates() && !s.contains(a) ==> s.push(a).no_duplicates(),
{
    assert forall|x: A| #[trigger] s.push(a).contains(x) <==> s.contains(x) || x == a by {
        if s.contains(x) {
            let i = choose|i: int| 0 <= i < s.len() && s[i] == x;
            assert(s.push(a)[i] == x);
        }
        if x == a {
            assert(s.push(a)[s.len() as int] == x);
        }
        if s.push(a).contains(x) && x != a {
            let i = choose|i: int| 0 <= i < s.push(a).len() && s.push(a)[i] == x;
            assert(s[i] == x);
        }
    }
    if s.no_duplicates() && !s.contains(a) {
        let t = s.push(a);
        assert forall|i: int, j: int| 0 <= i < t.len() && 0 <= j < t.len() && i != j implies t[i]
            != t[j] by {
            if i == s.len() {
                assert(s.contains(s[j]));
            } else if j == s.len() {
                assert(s.contains(s[i]));
            }
        }
    }
}

/// What a sequence contains without its first item.
pub proof fn lemma_drop_first<A>(s: Seq<A>)
    requires
        s.len() > 0,
    ensures
        s.contains(s[0]),
        forall|x: A|
            #[trigger] s.drop_first().contains(x) ==> s.contains(x),
        forall|x: A|
            #[trigger] s.contains(x) && x != s[0] ==> s.drop_first().contains(x),
        s.no_duplicates() ==> s.drop_first().no_duplicates() && !s.drop_first().contains(s[0]),
{
    let t = s.drop_first();
    assert forall|x: A| #[trigger] t.contains(x) implies s.contains(x) by {
        let i = choose|i: int| 0 <= i < t.len() && t[i] == x;
        assert(s[i + 1] == x);
    }
    assert forall|x: A| #[trigger] s.contains(x) && x != s[0] implies t.contains(x) by {
        let i = choose|i: int| 0 <= i < s.len() && s[i] == x;
        assert(t[i - 1] == x);
    }
    if s.no_duplicates() {
        assert forall|i: int, j: int| 0 <= i < t.len() && 0 <= j < t.len() && i != j implies t[i]
            != t[j] by {
            assert(t[i] == s[i + 1]);
            assert(t[j] == s[j + 1]);
        }
        if t.contains(s[0]) {
            let i = choose|i: int| 0 <= i < t.len() && t[i] == s[0];
            assert(s[i + 1] == s[0]);
        }
    }
}

/// What a sequence contains without its last item.
pub proof fn lemma_drop_last<A>(s: Seq<A>)
    requires
        s.len() > 0,
    ensures
        s.contains(s.last()),
        forall|x: A| #[trigger] s.drop_last().contains(x) ==> s.contains(x),
        forall|x: A| #[trigger] s.contains(x) && x != s.last() ==> s.drop_last().contains(x),
        s.no_duplicates() ==> s.drop_last().no_duplicates() && !s.drop_last().contains(s.last()),
{
    let t = s.drop_last();
    assert(s[s.len() - 1] == s.last());
    assert forall|x: A| #[trigger] t.contains(x) implies s.contains(x) by {
        let i = choose|i: int| 0 <= i < t.len() && t[i] == x;
        assert(s[i] == x);
    }
    assert forall|x: A| #[trigger] s.contains(x) && x != s.last() implies t.contains(x) by {
        let i = choose|i: int| 0 <= i < s.len() && s[i] == x;
        assert(t[i] == x);
    }
}

/// What a filter kept satisfies it and was there before.
pub proof fn lemma_filter_keeps<A>(s: Seq<A>, p: spec_fn(A) -> bool, i: int)
    requires
        0 <= i < s.filter(p).len(),
    ensures
        p(s.filter(p)[i]),
        exists|j: int| 0 <= j < s.len() && s[j] == s.filter(p)[i],
    decreases s.len(),
{
    reveal(Seq::filter);
    if s.len() > 0 {
        let front = s.drop_last();
        if i < front.filter(p).len() {
            lemma_filter_keeps(front, p, i);
            let j = choose|j: int| 0 <= j < front.len() && front[j] == front.filter(p)[i];
            assert(s[j] == s.filter(p)[i]);
        } else {
            assert(s[s.len() - 1] == s.filter(p)[i]);
        }
    }
}

/// A filter keeps what satisfies it.
pub proof fn lemma_filter_has<A>(s: Seq<A>, p: spec_fn(A) -> bool, k: int)
    requires
        0 <= k < s.len(),
        p(s[k]),
    ensures
        s.filter(p).contains(s[k]),
    decreases s.len(),
{
    reveal(Seq::filter);
    let front = s.drop_last();
    if k == s.len() - 1 {
        let kept = s.filter(p);
        assert(kept[kept.len() - 1] == s[k]);
    } else {
        lemma_filter_has(front, p, k);
        let i = choose|i: int| 0 <= i < front.filter(p).len() && front.filter(p)[i] == s[k];
        assert(s.filter(p)[i] == s[k]);
    }
}

/// A filter repeats nothing that the sequence does not repeat.
pub proof fn lemma_filter_no_duplicates<A>(s: Seq<A>, p: spec_fn(A) -> bool)
    requires
        s.no_duplicates(),
    ensures
        s.filter(p).no_duplicates(),
    decreases s.len(),
{
    reveal(Seq::filter);
    if s.len() > 0 {
        let front = s.drop_last();
        lemma_filter_no_duplicates(front, p);
        lemma_drop_last(s);
        let kept = front.filter(p);
        if kept.contains(s.last()) {
            let i = choose|i: int| 0 <= i < kept.len() && kept[i] == s.last();
            lemma_filter_keeps(front, p, i);
        }
        lemma_push(kept, s.last());
    }
}

} // verus!
