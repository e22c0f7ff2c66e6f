//! Wrappers that pay the identity check once.
//!
//! A [`Downcasted`] wrapper holds an ownership handle to an erased base and
//! records, at construction, that the base's runtime type is the concrete
//! type `T`.  Construction is the single checkpoint: it is the only
//! fallible operation, and once it has succeeded every dereference skips
//! the identity test and reinterprets directly — which is exactly what the
//! unchecked primitives' preconditions permit, since the invariant
//! [`Downcasted::wf`] carries the established identity forward.
//!
//! [`Downcasted2`] is the same wrapper one indirection deeper, for an
//! erased base reached through a handle of a handle (say, a shared handle
//! around an owning handle): every operation dereferences twice before
//! reinterpreting.

use std::marker::PhantomData;

use vstd::prelude::*;

use crate::cast::Downcast;
use crate::error::DowncastError;
use crate::handle::Duplicate;
use crate::handle::Handle;
use crate::handle::HandleMut;
use crate::identity::Any;
use crate::identity::TypeTag;
use crate::mismatch::TypeMismatch;

verus! {

/// A handle to an erased base whose runtime type is already known to be
/// `T`.  Dereferencing never re-checks and never fails.
pub struct Downcasted<T, O> where T: TypeTag, O: Handle, O::Base: Downcast<T> {
    object: O,
    marker: PhantomData<T>,
}

impl<T, O> Downcasted<T, O> where T: TypeTag, O: Handle, O::Base: Downcast<T> {
    /// The handle this wrapper holds.
    pub closed spec fn spec_object(&self) -> O {
        self.object
    }

    /// The invariant established at construction: the handle's target has
    /// runtime type `T`.  Both constructors establish it and every method
    /// preserves it.
    pub open spec fn wf(&self) -> bool {
        self.spec_object().base().dyn_id() == T::spec_tag()
    }

    /// The concrete `T` value seen through the wrapper.
    pub open spec fn spec_value(&self) -> T {
        self.spec_object().base().as_concrete()
    }

    /// The fallible conversion: runs the identity test once; wraps the
    /// handle on success, and hands it back unchanged inside a
    /// [`DowncastError`] on failure.
    pub fn try_new(object: O) -> (result: Result<Self, DowncastError<O>>)
        ensures
            object.base().dyn_id() == T::spec_tag() ==> (result matches Ok(wrapped)
                && wrapped.spec_object() == object
                && wrapped.wf()),
            object.base().dyn_id() != T::spec_tag() ==> (result matches Err(err)
                && err.spec_object() == object
                && err.spec_mismatch().spec_expected() == T::spec_tag_name()
                && err.spec_mismatch().spec_found() == object.base().dyn_name()),
    {
        if <O::Base as Downcast<T>>::is_type(object.borrow_base()) {
            Ok(Downcasted { object, marker: PhantomData })
        } else {
            let mismatch = TypeMismatch::new::<T, O::Base>(object.borrow_base());
            Err(DowncastError::new(mismatch, object))
        }
    }

    /// The unconditional conversion, for call sites that have already
    /// established the identity through other means: a handle whose target
    /// is not a `T` is a contract violation and is excluded outright.
    pub fn new(object: O) -> (wrapped: Self)
        requires
            object.base().dyn_id() == T::spec_tag(),
        ensures
            wrapped.spec_object() == object,
            wrapped.wf(),
    {
        Downcasted { object, marker: PhantomData }
    }

    /// Dereferences, without re-checking: the view as `T` that
    /// [`Downcast::downcast_ref`] on the target would have returned.
    pub fn get(&self) -> (concrete: &T)
        requires
            self.wf(),
        ensures
            *concrete == self.spec_value(),
    {
        <O::Base as Downcast<T>>::unchecked_ref(self.object.borrow_base())
    }

    /// Releases the wrapper and returns the handle, the recorded type
    /// information discarded.
    pub fn into_inner(self) -> (object: O)
        ensures
            object == self.spec_object(),
    {
        self.object
    }
}

impl<T, O> Downcasted<T, O> where T: TypeTag, O: HandleMut, O::Base: Downcast<T> {
    /// Dereferences exclusively, without re-checking.  Writing through the
    /// returned view rewrites the concrete value; the target's runtime type
    /// stays `T`, so the wrapper remains valid.
    pub fn get_mut(&mut self) -> (concrete: &mut T)
        requires
            old(self).wf(),
        ensures
            *concrete == old(self).spec_value(),
            final(self).wf(),
            final(self).spec_value() == *final(concrete),
    {
        <O::Base as Downcast<T>>::unchecked_mut(self.object.borrow_base_mut())
    }
}

impl<T, O> Downcasted<T, O> where T: TypeTag, O: Handle + Duplicate, O::Base: Downcast<T> {
    /// Duplicates the wrapper by duplicating the handle.  The identity test
    /// is not re-run: duplicating an already-validated handle cannot change
    /// the runtime type of its target.
    pub fn duplicate(&self) -> (other: Self)
        requires
            self.wf(),
        ensures
            other.spec_object() == self.spec_object(),
            other.wf(),
            other.spec_value() == self.spec_value(),
    {
        Downcasted { object: self.object.duplicate(), marker: PhantomData }
    }
}

/// A [`Downcasted`] one indirection deeper: the erased base is reached
/// through a handle of a handle, and every operation dereferences twice
/// before reinterpreting.
pub struct Downcasted2<T, O> where
    T: TypeTag,
    O: Handle,
    O::Base: Handle,
    <O::Base as Handle>::Base: Downcast<T>,
{
    object: O,
    marker: PhantomData<T>,
}

impl<T, O> Downcasted2<T, O> where
    T: TypeTag,
    O: Handle,
    O::Base: Handle,
    <O::Base as Handle>::Base: Downcast<T>,
{
    /// The outer handle this wrapper holds.
    pub closed spec fn spec_object(&self) -> O {
        self.object
    }

    /// The invariant established at construction: the target two
    /// indirections down has runtime type `T`.
    pub open spec fn wf(&self) -> bool {
        self.spec_object().base().base().dyn_id() == T::spec_tag()
    }

    /// The concrete `T` value seen through the wrapper.
    pub open spec fn spec_value(&self) -> T {
        self.spec_object().base().base().as_concrete()
    }

    /// The fallible conversion: as [`Downcasted::try_new`], one indirection
    /// deeper.
    pub fn try_new(object: O) -> (result: Result<Self, DowncastError<O>>)
        ensures
            object.base().base().dyn_id() == T::spec_tag() ==> (result matches Ok(wrapped)
                && wrapped.spec_object() == object
                && wrapped.wf()),
            object.base().base().dyn_id() != T::spec_tag() ==> (result matches Err(err)
                && err.spec_object() == object
                && err.spec_mismatch().spec_expected() == T::spec_tag_name()
                && err.spec_mismatch().spec_found() == object.base().base().dyn_name()),
    {
        let base = object.borrow_base().borrow_base();
        if <<O::Base as Handle>::Base as Downcast<T>>::is_type(base) {
            Ok(Downcasted2 { object, marker: PhantomData })
        } else {
            let mismatch = TypeMismatch::new::<T, <O::Base as Handle>::Base>(base);
            Err(DowncastError::new(mismatch, object))
        }
    }

    /// The unconditional conversion: as [`Downcasted::new`], one
    /// indirection deeper.
    pub fn new(object: O) -> (wrapped: Self)
        requires
            object.base().base().dyn_id() == T::spec_tag(),
        ensures
            wrapped.spec_object() == object,
            wrapped.wf(),
    {
        Downcasted2 { object, marker: PhantomData }
    }

    /// Dereferences, without re-checking, through both indirections.
    pub fn get(&self) -> (concrete: &T)
        requires
            self.wf(),
        ensures
            *concrete == self.spec_value(),
    {
        <<O::Base as Handle>::Base as Downcast<T>>::unchecked_ref(
            self.object.borrow_base().borrow_base(),
        )
    }

    /// Releases the wrapper and returns the outer handle.
    pub fn into_inner(self) -> (object: O)
        ensures
            object == self.spec_object(),
    {
        self.object
    }
}

impl<T, O> Downcasted2<T, O> where
    T: TypeTag,
    O: HandleMut,
    O::Base: HandleMut,
    <O::Base as Handle>::Base: Downcast<T>,
{
    /// Dereferences exclusively, without re-checking, through both
    /// indirections.
    pub fn get_mut(&mut self) -> (concrete: &mut T)
        requires
            old(self).wf(),
        ensures
            *concrete == old(self).spec_value(),
            final(self).wf(),
            final(self).spec_value() == *final(concrete),
    {
        <<O::Base as Handle>::Base as Downcast<T>>::unchecked_mut(
            self.object.borrow_base_mut().borrow_base_mut(),
        )
    }
}

impl<T, O> Downcasted2<T, O> where
    T: TypeTag,
    O: Handle + Duplicate,
    O::Base: Handle,
    <O::Base as Handle>::Base: Downcast<T>,
{
    /// Duplicates the wrapper by duplicating the outer handle, without
    /// re-running the identity test.
    pub fn duplicate(&self) -> (other: Self)
        requires
            self.wf(),
        ensures
            other.spec_object() == self.spec_object(),
            other.wf(),
            other.spec_value() == self.spec_value(),
    {
        Downcasted2 { object: self.object.duplicate(), marker: PhantomData }
    }
}

} // verus!
