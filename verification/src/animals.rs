//! A small registered base abstraction, ready to use.
//!
//! [`Animal`] is an erased base over two registered concrete types,
//! [`Bird`] and [`Fish`].  It shows what an adopting base supplies — the
//! identity accessors and the three reinterpretation primitives — and gives
//! the rest of the library something concrete to exercise.

use vstd::prelude::*;

use crate::cast::Downcast;
use crate::identity::Any;
use crate::identity::TypeTag;

verus! {

/// The tag registered for [`Bird`].  Tags are opaque: all that matters is
/// that distinct concrete types carry distinct tags.
pub const BIRD_TAG: u64 = 1;

/// The tag registered for [`Fish`].
pub const FISH_TAG: u64 = 2;

/// A concrete type registered with the [`Animal`] base.
#[derive(Debug, Clone, Copy, PartialEq, Eq, Structural)]
pub struct Bird {
    /// How many flights this bird has made.
    pub flights: u64,
}

/// Another concrete type registered with the [`Animal`] base.
#[derive(Debug, Clone, Copy, PartialEq, Eq, Structural)]
pub struct Fish {
    /// How deep this fish has been, in metres.
    pub depth: u64,
}

/// The erased base: a value that is some animal, of a concrete runtime type
/// hidden behind the common abstraction.
#[derive(Debug, Clone, Copy, PartialEq, Eq, Structural)]
pub enum Animal {
    /// The erased value is a [`Bird`].
    Bird(Bird),
    /// The erased value is a [`Fish`].
    Fish(Fish),
}

impl Any for Bird {
    open spec fn dyn_id(&self) -> int {
        BIRD_TAG as int
    }

    open spec fn dyn_name(&self) -> Seq<char> {
        "Bird"@
    }

    fn identity(&self) -> u64 {
        BIRD_TAG
    }

    fn name(&self) -> &'static str {
        "Bird"
    }
}

impl TypeTag for Bird {
    open spec fn spec_tag() -> int {
        BIRD_TAG as int
    }

    open spec fn spec_tag_name() -> Seq<char> {
        "Bird"@
    }

    fn tag() -> u64 {
        BIRD_TAG
    }

    fn tag_name() -> &'static str {
        "Bird"
    }

    proof fn tag_is_dyn_id(&self) {
    }
}

impl Any for Fish {
    open spec fn dyn_id(&self) -> int {
        FISH_TAG as int
    }

    open spec fn dyn_name(&self) -> Seq<char> {
        "Fish"@
    }

    fn identity(&self) -> u64 {
        FISH_TAG
    }

    fn name(&self) -> &'static str {
        "Fish"
    }
}

impl TypeTag for Fish {
    open spec fn spec_tag() -> int {
        FISH_TAG as int
    }

    open spec fn spec_tag_name() -> Seq<char> {
        "Fish"@
    }

    fn tag() -> u64 {
        FISH_TAG
    }

    fn tag_name() -> &'static str {
        "Fish"
    }

    proof fn tag_is_dyn_id(&self) {
    }
}

impl Any for Animal {
    open spec fn dyn_id(&self) -> int {
        match self {
            Animal::Bird(bird) => bird.dyn_id(),
            Animal::Fish(fish) => fish.dyn_id(),
        }
    }

    open spec fn dyn_name(&self) -> Seq<char> {
        match self {
            Animal::Bird(bird) => bird.dyn_name(),
            Animal::Fish(fish) => fish.dyn_name(),
        }
    }

    fn identity(&self) -> u64 {
        match self {
            Animal::Bird(bird) => bird.identity(),
            Animal::Fish(fish) => fish.identity(),
        }
    }

    fn name(&self) -> &'static str {
        match self {
            Animal::Bird(bird) => bird.name(),
            Animal::Fish(fish) => fish.name(),
        }
    }
}

impl Downcast<Bird> for Animal {
    open spec fn as_concrete(&self) -> Bird {
        match self {
            Animal::Bird(bird) => *bird,
            Animal::Fish(_) => vstd::pervasive::arbitrary(),
        }
    }

    fn unchecked_ref(&self) -> &Bird {
        match self {
            Animal::Bird(bird) => bird,
            Animal::Fish(_) => vstd::pervasive::unreached(),
        }
    }

    fn unchecked_mut(&mut self) -> &mut Bird {
        match self {
            Animal::Bird(bird) => bird,
            Animal::Fish(_) => vstd::pervasive::unreached(),
        }
    }

    fn unchecked_into(self) -> Bird {
        match self {
            Animal::Bird(bird) => bird,
            Animal::Fish(_) => vstd::pervasive::unreached(),
        }
    }
}

impl Downcast<Fish> for Animal {
    open spec fn as_concrete(&self) -> Fish {
        match self {
            Animal::Fish(fish) => *fish,
            Animal::Bird(_) => vstd::pervasive::arbitrary(),
        }
    }

    fn unchecked_ref(&self) -> &Fish {
        match self {
            Animal::Fish(fish) => fish,
            Animal::Bird(_) => vstd::pervasive::unreached(),
        }
    }

    fn unchecked_mut(&mut self) -> &mut Fish {
        match self {
            Animal::Fish(fish) => fish,
            Animal::Bird(_) => vstd::pervasive::unreached(),
        }
    }

    fn unchecked_into(self) -> Fish {
        match self {
            Animal::Fish(fish) => fish,
            Animal::Bird(_) => vstd::pervasive::unreached(),
        }
    }
}

} // verus!
