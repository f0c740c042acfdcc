use vstd::prelude::*;

verus! {

/// The argument of a method that only this crate can name, so that only this
/// crate can implement the trait that declares it.
pub struct Sealed;

} // verus!
