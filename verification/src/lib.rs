//! Runtime type recovery for type-erased values.
//!
//! A value may be held behind a common base abstraction that hides its
//! concrete type.  This library provides the pieces needed to recover the
//! concrete type safely: a type-identity facility ([`Any`] and [`TypeTag`]),
//! a checked downcast capability ([`Downcast`]), the error values a failed
//! downcast produces ([`TypeMismatch`] and [`DowncastError`]), and wrapper
//! handles that pay the identity check once and then dereference freely
//! ([`Downcasted`] and [`Downcasted2`]).

mod animals;
mod cast;
mod error;
mod handle;
mod identity;
pub mod laws;
mod mismatch;
mod wrapped;

pub use animals::Animal;
pub use animals::Bird;
pub use animals::Fish;
pub use animals::BIRD_TAG;
pub use animals::FISH_TAG;
pub use cast::Downcast;
pub use error::DowncastError;
pub use handle::Duplicate;
pub use handle::Handle;
pub use handle::HandleMut;
pub use identity::Any;
pub use identity::TypeTag;
pub use mismatch::TypeMismatch;
pub use wrapped::Downcasted;
pub use wrapped::Downcasted2;
