//! The descriptive value a failed identity test produces.

use vstd::prelude::*;

use crate::identity::Any;
use crate::identity::TypeTag;

verus! {

/// An immutable pair of diagnostic type names, created at the moment a
/// downcast's identity test fails: the name of the type the caller expected,
/// and the name of the concrete runtime type that was actually found.
///
/// Purely descriptive: the names are for diagnostics and carry no identity
/// semantics.
#[derive(Debug, Clone, Copy)]
pub struct TypeMismatch {
    expected: &'static str,
    found: &'static str,
}

impl TypeMismatch {
    /// The name of the type the caller expected.
    pub closed spec fn spec_expected(&self) -> Seq<char> {
        self.expected@
    }

    /// The name of the concrete runtime type that was found instead.
    pub closed spec fn spec_found(&self) -> Seq<char> {
        self.found@
    }

    /// Records that the value `found_obj`, whose runtime type is whatever it
    /// is, was expected to be of the concrete type `T`.
    pub fn new<T, O>(found_obj: &O) -> (mismatch: Self) where T: TypeTag, O: Any + ?Sized
        ensures
            mismatch.spec_expected() == T::spec_tag_name(),
            mismatch.spec_found() == found_obj.dyn_name(),
    {
        TypeMismatch {
            expected: T::tag_name(),
            found: found_obj.name(),
        }
    }

    /// The expected type's name.
    pub fn expected(&self) -> (name: &'static str)
        ensures
            name@ == self.spec_expected(),
    {
        self.expected
    }

    /// The found type's name.
    pub fn found(&self) -> (name: &'static str)
        ensures
            name@ == self.spec_found(),
    {
        self.found
    }

    /// The mismatch described in one sentence.
    pub fn message(&self) -> (msg: String)
        ensures
            msg@ == "Type mismatch: Expected '"@ + self.spec_expected() + "', found '"@
                + self.spec_found() + "'!"@,
    {
        let mut msg = String::from_str("Type mismatch: Expected '");
        msg.append(self.expected);
        msg.append("', found '");
        msg.append(self.found);
        msg.append("'!");
        msg
    }
}

} // verus!
