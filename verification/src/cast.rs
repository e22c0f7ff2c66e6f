//! The downcast capability of a type-erased base abstraction.

use vstd::prelude::*;

use crate::error::DowncastError;
use crate::identity::Any;
use crate::identity::TypeTag;
use crate::mismatch::TypeMismatch;

verus! {

/// The capability of recovering the concrete type `T` from a type-erased
/// base value.
///
/// An implementing base supplies which `T` value it holds (the spec-level
/// [`Downcast::as_concrete`]) and the three unchecked reinterpretation
/// primitives ([`Downcast::unchecked_ref`], [`Downcast::unchecked_mut`]
/// and [`Downcast::unchecked_into`]).  The primitives demand, as a precondition,
/// that the base's runtime type identity equals `T`'s — so, unlike a raw
/// pointer cast, they cannot be misused: every caller must have established
/// the identity first.  The checked entry points [`Downcast::is_type`],
/// [`Downcast::downcast_ref`], [`Downcast::downcast_mut`] and
/// [`Downcast::downcast`] run the identity test themselves and are the
/// default, safe surface for ordinary callers.
pub trait Downcast<T>: Any + Sized where T: TypeTag {
    /// The `T` value this erased value holds.  Meaningful only when the
    /// erased value's runtime type is `T`, which is exactly when the
    /// unchecked primitives may run.
    spec fn as_concrete(&self) -> T;

    /// The unchecked borrowed reinterpretation: a view of this erased value
    /// as a `T`, valid only once the identity test has succeeded.
    fn unchecked_ref(&self) -> (concrete: &T)
        requires
            self.dyn_id() == T::spec_tag(),
        ensures
            *concrete == self.as_concrete(),
    ;

    /// The unchecked exclusive reinterpretation: a mutable view of this
    /// erased value as a `T`, valid only once the identity test has
    /// succeeded.  Writing through the view rewrites the erased value to
    /// hold exactly the written `T`.
    fn unchecked_mut(&mut self) -> (concrete: &mut T)
        requires
            old(self).dyn_id() == T::spec_tag(),
        ensures
            *concrete == old(self).as_concrete(),
            final(self).dyn_id() == T::spec_tag(),
            final(self).as_concrete() == *final(concrete),
    ;

    /// The unchecked owning reinterpretation: consumes this erased value and
    /// returns the `T` it holds, valid only once the identity test has
    /// succeeded.
    fn unchecked_into(self) -> (concrete: T)
        requires
            self.dyn_id() == T::spec_tag(),
        ensures
            concrete == self.as_concrete(),
    ;

    /// True exactly when this erased value's runtime type is `T`.
    fn is_type(&self) -> (answer: bool)
        ensures
            answer == (self.dyn_id() == T::spec_tag()),
    {
        self.identity() == T::tag()
    }

    /// A borrowed view of this erased value as a `T`, when its runtime type
    /// is `T`; a [`TypeMismatch`] naming the expected and the found type
    /// otherwise.
    fn downcast_ref(&self) -> (result: Result<&T, TypeMismatch>)
        ensures
            self.dyn_id() == T::spec_tag() ==> (result matches Ok(concrete)
                && *concrete == self.as_concrete()),
            self.dyn_id() != T::spec_tag() ==> (result matches Err(mismatch)
                && mismatch.spec_expected() == T::spec_tag_name()
                && mismatch.spec_found() == self.dyn_name()),
    {
        if self.is_type() {
            Ok(self.unchecked_ref())
        } else {
            Err(TypeMismatch::new::<T, Self>(self))
        }
    }

    /// An exclusive view of this erased value as a `T`, when its runtime
    /// type is `T`; a [`TypeMismatch`] otherwise, leaving the value
    /// untouched.
    fn downcast_mut(&mut self) -> (result: Result<&mut T, TypeMismatch>)
        ensures
            old(self).dyn_id() == T::spec_tag() ==> (result matches Ok(concrete)
                && *concrete == old(self).as_concrete()
                && final(self).dyn_id() == T::spec_tag()
                && final(self).as_concrete() == *final(concrete)),
            old(self).dyn_id() != T::spec_tag() ==> (result matches Err(mismatch)
                && mismatch.spec_expected() == T::spec_tag_name()
                && mismatch.spec_found() == old(self).dyn_name()
                && *final(self) == *old(self)),
    {
        if self.is_type() {
            Ok(self.unchecked_mut())
        } else {
            Err(TypeMismatch::new::<T, Self>(self))
        }
    }

    /// Consumes this erased value and returns the `T` it holds, when its
    /// runtime type is `T`; a [`DowncastError`] otherwise, handing the
    /// erased value back unchanged so that nothing is lost on failure.
    fn downcast(self) -> (result: Result<T, DowncastError<Self>>)
        ensures
            self.dyn_id() == T::spec_tag() ==> (result matches Ok(concrete)
                && concrete == self.as_concrete()),
            self.dyn_id() != T::spec_tag() ==> (result matches Err(err)
                && err.spec_object() == self
                && err.spec_mismatch().spec_expected() == T::spec_tag_name()
                && err.spec_mismatch().spec_found() == self.dyn_name()),
    {
        if self.is_type() {
            Ok(self.unchecked_into())
        } else {
            let mismatch = TypeMismatch::new::<T, Self>(&self);
            Err(DowncastError::new(mismatch, self))
        }
    }
}

} // verus!
