//! Borrow a value, compute from the borrow, and give the value up at once.
//!
//! [`PipeDrop`] is implemented for every type. Each of its methods takes a
//! value by move, lends it to a function that runs once, and returns what the
//! function made of it. The value does not outlive the call: when the method
//! returns, the value is released and every borrow that it held has ended. In
//! a chain of such steps each value is therefore released as soon as the next
//! one has been made from it, and not at the end of the enclosing scope.
//!
//! The methods differ in how the borrow is formed: from the value itself,
//! from what it converts to (`AsRef`, `AsMut`, `Borrow`, `BorrowMut`), or from
//! what it dereferences to (`Deref`, `DerefMut`); shared or exclusive.
//!
//! The contracts speak of a call that returns. A failure inside the function
//! is not caught: it unwinds through the step, which releases the value on the
//! way as it would any local.
use core::borrow::Borrow;
use core::borrow::BorrowMut;
use core::ops::Deref;
use core::ops::DerefMut;
use vstd::prelude::*;

pub mod laws;

verus! {

/// Calls `AsRef::as_ref`. The conversion is the code of the type `V`: nothing
/// is claimed of the borrow that comes back.
#[verifier::external_body]
fn as_ref_of<V: AsRef<X>, X: ?Sized>(v: &V) -> (x: &X) {
    v.as_ref()
}

/// Calls `AsMut::as_mut`. The conversion is the code of the type `V`: nothing
/// is claimed of the borrow that comes back, nor of what it leaves in `v`.
#[verifier::external_body]
fn as_mut_of<V: AsMut<X>, X: ?Sized>(v: &mut V) -> (x: &mut X) {
    v.as_mut()
}

/// Calls `Borrow::borrow`. The conversion is the code of the type `V`: nothing
/// is claimed of the borrow that comes back.
#[verifier::external_body]
fn borrow_of<V: Borrow<X>, X: ?Sized>(v: &V) -> (x: &X) {
    v.borrow()
}

/// Calls `BorrowMut::borrow_mut`. The conversion is the code of the type `V`:
/// nothing is claimed of the borrow that comes back, nor of what it leaves in
/// `v`.
#[verifier::external_body]
fn borrow_mut_of<V: BorrowMut<X>, X: ?Sized>(v: &mut V) -> (x: &mut X) {
    v.borrow_mut()
}

/// `x` is a borrow that `AsRef::as_ref` can hand out for `v`. No more is known
/// of `x` than that: a function that is to run on it accepts every `x`.
pub closed spec fn as_ref_yields<V: AsRef<X>, X: ?Sized>(v: &V, x: &X) -> bool {
    call_ensures(as_ref_of::<V, X>, (v,), x)
}

/// `x` is a borrow that `AsMut::as_mut` can hand out for the exclusive borrow
/// `v`. No more is known of `x` than that.
pub closed spec fn as_mut_yields<V: AsMut<X>, X: ?Sized>(v: &mut V, x: &mut X) -> bool {
    call_ensures(as_mut_of::<V, X>, (v,), x)
}

/// `x` is a borrow that `Borrow::borrow` can hand out for `v`. No more is
/// known of `x` than that.
pub closed spec fn borrow_yields<V: Borrow<X>, X: ?Sized>(v: &V, x: &X) -> bool {
    call_ensures(borrow_of::<V, X>, (v,), x)
}

/// `x` is a borrow that `BorrowMut::borrow_mut` can hand out for the exclusive
/// borrow `v`. No more is known of `x` than that.
pub closed spec fn borrow_mut_yields<V: BorrowMut<X>, X: ?Sized>(v: &mut V, x: &mut X) -> bool {
    call_ensures(borrow_mut_of::<V, X>, (v,), x)
}

/// `x` is a borrow that `Deref::deref` can hand out for `v`. Where the
/// dereference of `V` has a contract, as that of `Vec` and `String` has, `x`
/// is bound by it.
#[verifier::inline]
pub open spec fn deref_yields<V: Deref<Target = X>, X: ?Sized>(v: &V, x: &X) -> bool {
    call_ensures(<V as Deref>::deref, (v,), x)
}

/// `x` is a borrow that `DerefMut::deref_mut` can hand out for the exclusive
/// borrow `v`. Where the dereference of `V` has a contract, `x` is bound by
/// it.
#[verifier::inline]
pub open spec fn deref_mut_yields<V: DerefMut<Target = X>, X: ?Sized>(
    v: &mut V,
    x: &mut X,
) -> bool {
    call_ensures(<V as DerefMut>::deref_mut, (v,), x)
}

/// Steps that borrow a value, run a function once on the borrow, and release
/// the value before they return.
///
/// Every method takes `self` by move, so the caller cannot name the value
/// again, and promises two things of a call that returns `y`:
///
/// * `y` is an outcome of `f` on a borrow of `self` as it was handed in, or on
///   the borrow that `self` converts or dereferences to. The step adds
///   nothing of its own, and hands on whatever `f` returns, a failure that
///   `f` reports as a value included.
/// * `self` is released (`has_resolved`): every borrow that it held has
///   ended, so what it had borrowed can be used again right after the step. A
///   step by exclusive borrow releases the value as `f` left it.
///
/// The steps by exclusive borrow ask that `f` accepts every exclusive borrow
/// that holds `self`, whatever is written through it later.
pub trait PipeDrop: Sized {
    /// Applies `f` to `&self`, then releases `self`.
    fn pipe_ref_drop<F, Y>(self, f: F) -> (y: Y) where F: FnOnce(&Self) -> Y
        requires
            f.requires((&self,)),
        ensures
            f.ensures((&self,), y),
            has_resolved(self),
    {
        f(&self)
    }

    /// Applies `f` to `&mut self`, then releases `self` as `f` left it.
    fn pipe_mut_drop<F, Y>(self, f: F) -> (y: Y) where F: FnOnce(&mut Self) -> Y
        requires
            forall|r: &mut Self| *r == self ==> f.requires((r,)),
        ensures
            exists|r: &mut Self| *r == self && f.ensures((r,), y) && has_resolved(*final(r)),
    {
        let mut owned = self;
        f(&mut owned)
    }

    /// Applies `f` to `self.as_ref()`, then releases `self`.
    fn pipe_as_ref_drop<F, X, Y>(self, f: F) -> (y: Y) where
        Self: AsRef<X>,
        X: ?Sized,
        F: FnOnce(&X) -> Y,

        requires
            forall|x: &X| as_ref_yields(&self, x) ==> f.requires((x,)),
        ensures
            exists|x: &X| as_ref_yields(&self, x) && f.ensures((x,), y),
            has_resolved(self),
    {
        // The conversion is called as a function value: its outcome is then
        // known by `call_ensures`, of which the predicate speaks.
        let convert = as_ref_of::<Self, X>;
        assert forall|v: &Self, x: &X| #[trigger] call_ensures(convert, (v,), x) implies
            as_ref_yields(v, x) by {}
        f(convert(&self))
    }

    /// Applies `f` to `self.as_mut()`, then releases `self` as `f` left it.
    fn pipe_as_mut_drop<F, X, Y>(self, f: F) -> (y: Y) where
        Self: AsMut<X>,
        X: ?Sized,
        F: FnOnce(&mut X) -> Y,

        requires
            forall|r: &mut Self, x: &mut X| *r == self && as_mut_yields(r, x) ==> f.requires((x,)),
        ensures
            exists|r: &mut Self, x: &mut X|
                *r == self && as_mut_yields(r, x) && f.ensures((x,), y)
                    && has_resolved(*final(r)),
    {
        let mut owned = self;
        let convert = as_mut_of::<Self, X>;
        assert forall|r: &mut Self, x: &mut X| #[trigger] call_ensures(convert, (r,), x) implies
            as_mut_yields(r, x) by {}
        f(convert(&mut owned))
    }

    /// Applies `f` to `self.deref()`, then releases `self`.
    fn pipe_deref_drop<F, X, Y>(self, f: F) -> (y: Y) where
        Self: Deref<Target = X>,
        X: ?Sized,
        F: FnOnce(&X) -> Y,

        requires
            forall|x: &X| deref_yields(&self, x) ==> f.requires((x,)),
        ensures
            exists|x: &X| deref_yields(&self, x) && f.ensures((x,), y),
            has_resolved(self),
    {
        f(self.deref())
    }

    /// Applies `f` to `self.deref_mut()`, then releases `self` as `f` left
    /// it.
    fn pipe_deref_mut_drop<F, X, Y>(self, f: F) -> (y: Y) where
        Self: DerefMut<Target = X>,
        X: ?Sized,
        F: FnOnce(&mut X) -> Y,

        requires
            forall|r: &mut Self, x: &mut X|
                *r == self && deref_mut_yields(r, x) ==> f.requires((x,)),
        ensures
            exists|r: &mut Self, x: &mut X|
                *r == self && deref_mut_yields(r, x) && f.ensures((x,), y)
                    && has_resolved(*final(r)),
    {
        let mut owned = self;
        f(owned.deref_mut())
    }

    /// Applies `f` to `self.borrow()`, then releases `self`.
    fn pipe_borrow_drop<F, X, Y>(self, f: F) -> (y: Y) where
        Self: Borrow<X>,
        X: ?Sized,
        F: FnOnce(&X) -> Y,

        requires
            forall|x: &X| borrow_yields(&self, x) ==> f.requires((x,)),
        ensures
            exists|x: &X| borrow_yields(&self, x) && f.ensures((x,), y),
            has_resolved(self),
    {
        let convert = borrow_of::<Self, X>;
        assert forall|v: &Self, x: &X| #[trigger] call_ensures(convert, (v,), x) implies
            borrow_yields(v, x) by {}
        f(convert(&self))
    }

    /// Applies `f` to `self.borrow_mut()`, then releases `self` as `f` left
    /// it.
    fn pipe_borrow_mut_drop<F, X, Y>(self, f: F) -> (y: Y) where
        Self: BorrowMut<X>,
        X: ?Sized,
        F: FnOnce(&mut X) -> Y,

        requires
            forall|r: &mut Self, x: &mut X|
                *r == self && borrow_mut_yields(r, x) ==> f.requires((x,)),
        ensures
            exists|r: &mut Self, x: &mut X|
                *r == self && borrow_mut_yields(r, x) && f.ensures((x,), y)
                    && has_resolved(*final(r)),
    {
        let mut owned = self;
        let convert = borrow_mut_of::<Self, X>;
        assert forall|r: &mut Self, x: &mut X| #[trigger] call_ensures(convert, (r,), x) implies
            borrow_mut_yields(r, x) by {}
        f(convert(&mut owned))
    }
}

impl<V> PipeDrop for V {
}

} // verus!
