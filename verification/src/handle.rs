//! Ownership handles through which an erased base is reached.
//!
//! A wrapper ([`Downcasted`](crate::Downcasted)) does not hold the erased
//! base directly: it holds some handle — owning, shared, or borrowing — and
//! reaches the base through it.  [`Handle`] is the read path every handle
//! offers; [`HandleMut`] is the exclusive write path of handles that grant
//! it; [`Duplicate`] is the value-preserving duplication that shared
//! handles grant.
//!
//! The handles themselves come from the host environment: `Box`, `Rc`,
//! `Arc` and plain borrows are covered here, and a handle of a handle
//! composes (a shared handle around an owning handle is again a handle).

use std::rc::Rc;
use std::sync::Arc;

use vstd::prelude::*;

verus! {

/// Read access through a handle: borrowing the value the handle holds.
pub trait Handle {
    /// The type of the value held.
    type Base;

    /// The value this handle holds.
    spec fn base(&self) -> Self::Base;

    /// Borrows the held value.
    fn borrow_base(&self) -> (base: &Self::Base)
        ensures
            *base == self.base(),
    ;
}

/// Exclusive access through a handle: writing the value the handle holds.
/// Only handles that enforce exclusivity themselves (an owning `Box`, a
/// plain `&mut` borrow) offer it.
pub trait HandleMut: Handle {
    /// Borrows the held value exclusively.
    fn borrow_base_mut(&mut self) -> (base: &mut Self::Base)
        ensures
            *base == old(self).base(),
            final(self).base() == *final(base),
    ;
}

/// Value-preserving duplication: a second handle to the very same value.
/// Shared-ownership handles offer it; duplicating one cannot change what it
/// holds.
pub trait Duplicate: Sized {
    /// Returns a second handle holding the same value.
    fn duplicate(&self) -> (other: Self)
        ensures
            other == *self,
    ;
}

/// Relies on `<Rc<T> as Clone>::clone`: the clone is a second pointer to
/// the very same allocation, so it holds the same value.
#[verifier::external_body]
fn clone_rc<T>(rc: &Rc<T>) -> (other: Rc<T>)
    ensures
        other == *rc,
{
    rc.clone()
}

impl<B> Handle for Box<B> {
    type Base = B;

    open spec fn base(&self) -> B {
        **self
    }

    fn borrow_base(&self) -> &B {
        &**self
    }
}

impl<B> HandleMut for Box<B> {
    fn borrow_base_mut(&mut self) -> &mut B {
        &mut **self
    }
}

impl<B> Handle for Rc<B> {
    type Base = B;

    open spec fn base(&self) -> B {
        **self
    }

    fn borrow_base(&self) -> &B {
        &**self
    }
}

impl<B> Duplicate for Rc<B> {
    fn duplicate(&self) -> Self {
        clone_rc(self)
    }
}

/// Relies on `<Arc<T> as Clone>::clone`: the clone is a second pointer to
/// the very same allocation, so it holds the same value.
#[verifier::external_body]
fn clone_arc<T>(arc: &Arc<T>) -> (other: Arc<T>)
    ensures
        other == *arc,
{
    arc.clone()
}

impl<B> Handle for Arc<B> {
    type Base = B;

    open spec fn base(&self) -> B {
        **self
    }

    fn borrow_base(&self) -> &B {
        &**self
    }
}

impl<B> Duplicate for Arc<B> {
    fn duplicate(&self) -> Self {
        clone_arc(self)
    }
}

impl<'a, B> Handle for &'a B {
    type Base = B;

    open spec fn base(&self) -> B {
        **self
    }

    fn borrow_base(&self) -> &B {
        *self
    }
}

impl<'a, B> Duplicate for &'a B {
    fn duplicate(&self) -> Self {
        *self
    }
}

} // verus!
