//! Facts about filtering a sequence as it grows.

use vstd::prelude::*;

verus! {

/// Filtering a sequence with one more element keeps that element exactly
/// when it passes.
pub proof fn lemma_filter_push<A>(s: Seq<A>, x: A, p: spec_fn(A) -> bool)
    ensures
        s.push(x).filter(p) == (if p(x) {
            s.filter(p).push(x)
        } else {
            s.filter(p)
        }),
{
    reveal(Seq::filter);
    assert(s.push(x).drop_last() =~= s);
}

/// Filtering an empty sequence gives an empty sequence.
pub proof fn lemma_filter_empty<A>(s: Seq<A>, p: spec_fn(A) -> bool)
    requires
        s.len() == 0,
    ensures
        s.filter(p) == Seq::<A>::empty(),
{
    reveal(Seq::filter);
    assert(s =~= Seq::<A>::empty());
}

} // verus!
