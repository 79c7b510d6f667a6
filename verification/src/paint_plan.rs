//! Shared pieces of the paint planners: what the platform glue reports about
//! settings the library does not hold itself (lengths and other fractional
//! numbers), and how a plan of steps is built and replayed.

use vstd::prelude::*;

verus! {

/// An optional setting the glue compares itself: whether the element sets a
/// value, and whether that value differs from the one remembered from the
/// previous paint.
#[derive(Clone, Copy, Debug, PartialEq, Eq, Structural)]
pub struct OpaqueSetting {
    pub present: bool,
    pub changed: bool,
}

/// `s` followed by `x` when `cond` holds, else `s`.
pub open spec fn push_if<T>(s: Seq<T>, cond: bool, x: T) -> Seq<T> {
    if cond {
        s.push(x)
    } else {
        s
    }
}

/// Replaying `s` then `x` is replaying `s` and then applying `x`.
pub proof fn lemma_fold_push<T, M>(s: Seq<T>, x: T, n: M, f: spec_fn(M, T) -> M)
    ensures
        s.push(x).fold_left(n, f) == f(s.fold_left(n, f), x),
{
    assert(s.push(x).drop_last() =~= s);
}

/// Replaying a conditionally extended plan.
pub proof fn lemma_fold_push_if<T, M>(s: Seq<T>, cond: bool, x: T, n: M, f: spec_fn(M, T) -> M)
    ensures
        push_if(s, cond, x).fold_left(n, f) == (if cond {
            f(s.fold_left(n, f), x)
        } else {
            s.fold_left(n, f)
        }),
{
    if cond {
        lemma_fold_push(s, x, n, f);
    }
}

/// Replaying a plan of one step.
pub proof fn lemma_fold_single<T, M>(x: T, n: M, f: spec_fn(M, T) -> M)
    ensures
        seq![x].fold_left(n, f) == f(n, x),
{
    lemma_fold_push(Seq::<T>::empty(), x, n, f);
    assert(Seq::<T>::empty().push(x) =~= seq![x]);
}

} // verus!
