//! Facts about sequences that the loops of the crate rest on.

use vstd::prelude::*;

verus! {

/// The first `n` elements of `s`, or all of `s` where it has fewer.
pub open spec fn first_n<A>(s: Seq<A>, n: nat) -> Seq<A> {
    if s.len() <= n {
        s
    } else {
        s.take(n as int)
    }
}

/// Filtering one element more either appends that element or changes nothing.
pub proof fn lemma_filter_next<A>(s: Seq<A>, p: spec_fn(A) -> bool, i: int)
    requires
        0 <= i < s.len(),
    ensures
        s.take(i + 1).filter(p) == if p(s[i]) {
            s.take(i).filter(p).push(s[i])
        } else {
            s.take(i).filter(p)
        },
        s.take(0).filter(p) == Seq::<A>::empty(),
{
    reveal(Seq::filter);
    assert(s.take(i + 1).drop_last() =~= s.take(i));
    assert(s.take(0).filter(p) =~= Seq::<A>::empty());
}

/// What passes the filter among the first `i` elements stands at the front
/// of what passes it among all.
pub proof fn lemma_filter_prefix<A>(s: Seq<A>, p: spec_fn(A) -> bool, i: int)
    requires
        0 <= i <= s.len(),
    ensures
        s.take(i).filter(p).len() <= s.filter(p).len(),
        s.filter(p).take(s.take(i).filter(p).len() as int) == s.take(i).filter(p),
{
    Seq::filter_distributes_over_add(s.take(i), s.skip(i), p);
    assert(s.take(i) + s.skip(i) =~= s);
    assert((s.take(i).filter(p) + s.skip(i).filter(p)).take(s.take(i).filter(p).len() as int)
        =~= s.take(i).filter(p));
}

} // verus!
