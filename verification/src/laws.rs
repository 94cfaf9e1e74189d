//! What the contracts of [`PipeDrop`](crate::PipeDrop) give a caller, stated
//! over the terms in which the contracts are written: an outcome of the
//! function (`f.ensures`) and the release of the value (`has_resolved`).
use vstd::prelude::*;

verus! {

/// A release ends the loan. Let the value of a step by shared borrow be an
/// exclusive borrow `v` itself. When the step has returned, the lender holds
/// what `v` held when the step began: the function could look at it and not
/// write to it, and nothing can write through `v` after the step.
pub proof fn lemma_release_ends_the_loan<T, Y, F: FnOnce(&&mut T) -> Y>(v: &mut T, f: F, y: Y)
    requires
        f.ensures((&v,), y) && has_resolved(v),
    ensures
        *final(v) == *old(v),
{
}

/// A chain releases its values in the order in which they were made. Let `b`
/// be what a step by shared borrow returned for `a` and `f`, and `c` what a
/// second such step returned for `b` and `g`. Then `a` and `b` are both
/// released once `c` exists, each by the step that borrowed it, and `c` is
/// what `g` makes of what `f` makes of `a`.
pub proof fn lemma_chain_releases_in_order<A, B, C, F: FnOnce(&A) -> B, G: FnOnce(&B) -> C>(
    a: A,
    f: F,
    b: B,
    g: G,
    c: C,
)
    requires
        f.ensures((&a,), b) && has_resolved(a),
        g.ensures((&b,), c) && has_resolved(b),
    ensures
        has_resolved(a) && has_resolved(b),
        exists|m: B| f.ensures((&a,), m) && has_resolved(m) && g.ensures((&m,), c),
{
}

/// Running a chain again gives the same values. Where `f` and `g` have one
/// outcome for each input, two runs of the chain from the same origin `a`
/// agree on the value in the middle and on the value at the end.
pub proof fn lemma_rerun_agrees<A, B, C, F: FnOnce(&A) -> B, G: FnOnce(&B) -> C>(
    a: A,
    f: F,
    g: G,
    b1: B,
    c1: C,
    b2: B,
    c2: C,
)
    requires
        forall|p: B, q: B| f.ensures((&a,), p) && f.ensures((&a,), q) ==> p == q,
        forall|m: B, p: C, q: C| g.ensures((&m,), p) && g.ensures((&m,), q) ==> p == q,
        f.ensures((&a,), b1) && g.ensures((&b1,), c1),
        f.ensures((&a,), b2) && g.ensures((&b2,), c2),
    ensures
        b1 == b2,
        c1 == c2,
{
}

} // verus!
