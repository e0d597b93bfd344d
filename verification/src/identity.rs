//! Capability traits for named and identified values.

use vstd::prelude::*;

verus! {

/// A named type.
///
/// A type implements this trait to provide a display name, possibly defined
/// internally in the type. `spec_name` is the mathematical value of that
/// name; `name` must return exactly it.
pub trait Name {
    /// The name, as a sequence of characters.
    spec fn spec_name(&self) -> Seq<char>;

    /// Returns the object's name.
    fn name(&self) -> (r: &str)
        ensures
            r@ == self.spec_name(),
    ;
}

/// An identified type.
///
/// A type implements this trait to provide a stable numeric id. `spec_id` is
/// the mathematical value of that id; `id` must return exactly it.
pub trait Id {
    /// The id, as a mathematical value.
    spec fn spec_id(&self) -> u32;

    /// Returns the object's id.
    fn id(&self) -> (r: u32)
        ensures
            r == self.spec_id(),
    ;
}

} // verus!
