//! The error an ownership-transferring downcast produces.

use vstd::prelude::*;

use crate::mismatch::TypeMismatch;

verus! {

/// The failure of a downcast that consumed its type-erased handle: a
/// [`TypeMismatch`] describing what went wrong, together with the original
/// handle, so that the caller loses nothing on the failure path.
pub struct DowncastError<O> {
    mismatch: TypeMismatch,
    object: O,
}

impl<O> DowncastError<O> {
    /// The mismatch this error carries.
    pub closed spec fn spec_mismatch(&self) -> TypeMismatch {
        self.mismatch
    }

    /// The handle this error carries.
    pub closed spec fn spec_object(&self) -> O {
        self.object
    }

    /// Packs a mismatch description together with the handle that failed the
    /// identity test.
    pub fn new(mismatch: TypeMismatch, object: O) -> (err: Self)
        ensures
            err.spec_mismatch() == mismatch,
            err.spec_object() == object,
    {
        Self { mismatch, object }
    }

    /// The mismatch that caused the failure.
    pub fn type_mismatch(&self) -> (mismatch: TypeMismatch)
        ensures
            mismatch == self.spec_mismatch(),
    {
        self.mismatch
    }

    /// Releases the error and hands the original handle back, unchanged.
    pub fn into_object(self) -> (object: O)
        ensures
            object == self.spec_object(),
    {
        self.object
    }

    /// The failure described in one sentence: the carried mismatch's
    /// message.
    pub fn message(&self) -> (msg: String)
        ensures
            msg@ == "Type mismatch: Expected '"@ + self.spec_mismatch().spec_expected()
                + "', found '"@ + self.spec_mismatch().spec_found() + "'!"@,
    {
        self.mismatch.message()
    }
}

} // verus!
