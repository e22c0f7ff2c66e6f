//! The type-identity facility.
//!
//! Every value that takes part in the erased-base abstraction reports the
//! identity of its concrete runtime type through [`Any`].  A concrete target
//! type additionally carries a static identity through [`TypeTag`], so that
//! an expected type can be compared against the runtime identity of an
//! erased value.
//!
//! A type identifier is an opaque, equality-comparable value with no meaning
//! beyond identity.  Implementers must give every distinct concrete type a
//! distinct tag; nothing else about the number matters.  A type name is a
//! human-readable string for diagnostics only and must never be used for
//! identity decisions.

use vstd::prelude::*;

verus! {

/// The dynamic side of type identity: what is the concrete runtime type of
/// this value?
///
/// For a concrete type the answer is a constant.  For an erased base (an
/// abstraction over several concrete types) the answer depends on which
/// concrete value is held.
pub trait Any {
    /// The identity of this value's concrete runtime type.
    spec fn dyn_id(&self) -> int;

    /// The diagnostic name of this value's concrete runtime type.
    spec fn dyn_name(&self) -> Seq<char>;

    /// Returns the identifier of this value's concrete runtime type.
    ///
    /// Stable across calls on the same value, and equal across values of the
    /// same concrete type.
    fn identity(&self) -> (id: u64)
        ensures
            id as int == self.dyn_id(),
    ;

    /// Returns the diagnostic name of this value's concrete runtime type.
    fn name(&self) -> (name: &'static str)
        ensures
            name@ == self.dyn_name(),
    ;
}

/// The static side of type identity: a concrete type's own tag and name,
/// available without a value at hand.
///
/// Every value of a concrete type has its type's static identity; the proof
/// obligation [`TypeTag::tag_is_dyn_id`] ties the two sides together.
pub trait TypeTag: Any {
    /// The static identity of this type.
    spec fn spec_tag() -> int;

    /// The static diagnostic name of this type.
    spec fn spec_tag_name() -> Seq<char>;

    /// Returns the identifier of this type.
    fn tag() -> (id: u64)
        ensures
            id as int == Self::spec_tag(),
    ;

    /// Returns the diagnostic name of this type.
    fn tag_name() -> (name: &'static str)
        ensures
            name@ == Self::spec_tag_name(),
    ;

    /// A value of a concrete type has exactly its type's identity and name.
    proof fn tag_is_dyn_id(&self)
        ensures
            self.dyn_id() == Self::spec_tag(),
            self.dyn_name() == Self::spec_tag_name(),
    ;
}

} // verus!
