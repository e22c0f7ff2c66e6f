//! The library's laws, stated and proved once and for all.
//!
//! Each proof function here records a guarantee that spans more than one
//! operation, over the same spec functions that the operations' own
//! contracts use.  `f.ensures((args,), result)` holds of every `result`
//! that a call `f(args)` can return, so a law stated through it covers
//! every actual call.

use vstd::prelude::*;

use crate::cast::Downcast;
use crate::error::DowncastError;
use crate::handle::Duplicate;
use crate::handle::Handle;
use crate::identity::Any;
use crate::identity::TypeTag;
use crate::wrapped::Downcasted;

verus! {

/// A value of runtime type `T` is recognised as a `T` and as nothing else:
/// on it, the identity test for `T` answers true, and the identity test
/// for any concrete type `U` with a different tag answers false.
pub proof fn lemma_identity_test_is_exact<T, U, O>(object: &O, for_t: bool, for_u: bool) where
    T: TypeTag,
    U: TypeTag,
    O: Downcast<T> + Downcast<U>,

    requires
        object.dyn_id() == T::spec_tag(),
        T::spec_tag() != U::spec_tag(),
        <O as Downcast<T>>::is_type.ensures((object,), for_t),
        <O as Downcast<U>>::is_type.ensures((object,), for_u),
    ensures
        for_t,
        !for_u,
{
}

/// A failed ownership-transferring downcast loses nothing: on a value of
/// runtime type `T`, downcasting to a `U` with a different tag returns an
/// error that carries the value back unchanged, and retrying the recovered
/// value with the correct target `T` succeeds with the value's own concrete
/// content.
pub proof fn lemma_failed_downcast_recovers<T, U, O>(
    object: O,
    failed: Result<U, DowncastError<O>>,
    retried: Result<T, DowncastError<O>>,
) where T: TypeTag, U: TypeTag, O: Downcast<T> + Downcast<U>
    requires
        object.dyn_id() == T::spec_tag(),
        T::spec_tag() != U::spec_tag(),
        <O as Downcast<U>>::downcast.ensures((object,), failed),
        <O as Downcast<T>>::downcast.ensures((object,), retried),
    ensures
        failed matches Err(err) && err.spec_object() == object,
        retried matches Ok(concrete) && concrete == <O as Downcast<T>>::as_concrete(&object),
{
}

/// Constructing a wrapper from a handle of the wrong runtime type always
/// fails, and the error hands the original handle back unchanged.
pub proof fn lemma_mismatched_wrapper_fails<T, O>(
    object: O,
    result: Result<Downcasted<T, O>, DowncastError<O>>,
) where T: TypeTag, O: Handle, O::Base: Downcast<T>
    requires
        object.base().dyn_id() != T::spec_tag(),
        Downcasted::<T, O>::try_new.ensures((object,), result),
    ensures
        result matches Err(err) && err.spec_object() == object,
{
}

/// Dereferencing a validly constructed wrapper, any number of times,
/// returns one and the same value: exactly the one a direct checked
/// downcast of the handle's target would return.
pub proof fn lemma_deref_agrees_with_direct<'a, T, O>(
    wrapped: &Downcasted<T, O>,
    first: &'a T,
    second: &'a T,
    direct: Result<&'a T, crate::mismatch::TypeMismatch>,
) where T: TypeTag, O: Handle, O::Base: Downcast<T>
    requires
        wrapped.wf(),
        Downcasted::<T, O>::get.ensures((wrapped,), first),
        Downcasted::<T, O>::get.ensures((wrapped,), second),
        <O::Base as Downcast<T>>::downcast_ref.ensures((&wrapped.spec_object().base(),), direct),
    ensures
        *first == *second,
        direct matches Ok(concrete) && *concrete == *first,
{
}

/// Duplicating a wrapper yields a second wrapper that is itself valid and
/// whose dereference returns a value equal to the first's.
pub proof fn lemma_duplicate_reads_equal<T, O>(
    original: &Downcasted<T, O>,
    copy: Downcasted<T, O>,
    read_original: &T,
    read_copy: &T,
) where T: TypeTag, O: Handle + Duplicate, O::Base: Downcast<T>
    requires
        original.wf(),
        Downcasted::<T, O>::duplicate.ensures((original,), copy),
        Downcasted::<T, O>::get.ensures((original,), read_original),
        Downcasted::<T, O>::get.ensures((&copy,), read_copy),
    ensures
        copy.wf(),
        *read_original == *read_copy,
{
}

} // verus!
