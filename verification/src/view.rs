//! The view type and the way from a slice to it.

use vstd::prelude::*;
use crate::internal::Sealed;

verus! {

/// A reversed view of the slice that it borrows.
///
/// `RevSlice<&[T]>` is a shared view and `RevSlice<&mut [T]>` an exclusive one,
/// with the aliasing rules of the reference inside. The field is the slice
/// itself, in its own order; the type adds no invariant to it.
///
/// In contracts, `@` is what the view shows: the elements of the slice, last
/// one first.
#[derive(Debug)]
pub struct RevSlice<S>(pub S);

impl<'a, T> View for RevSlice<&'a [T]> {
    type V = Seq<T>;

    open spec fn view(&self) -> Seq<T> {
        self.0@.reverse()
    }
}

impl<'a, T> View for RevSlice<&'a mut [T]> {
    type V = Seq<T>;

    open spec fn view(&self) -> Seq<T> {
        self.0@.reverse()
    }
}

impl<'a, T> Clone for RevSlice<&'a [T]> {
    /// Another view of the same slice.
    fn clone(&self) -> (copy: Self)
        ensures
            copy == *self,
    {
        RevSlice(self.0)
    }
}

impl<'a, T> Copy for RevSlice<&'a [T]> {

}

/// Adds `.rev()` and `.rev_mut()` to slices.
///
/// The trait is sealed: slices are its only implementors.
pub trait SliceExt {
    /// The element type of the slice.
    type Element;

    /// The elements of the slice, in its own order.
    spec fn elements(&self) -> Seq<Self::Element>;

    /// A shared reversed view of the whole slice.
    fn rev(&self) -> (r: RevSlice<&[Self::Element]>)
        ensures
            r.0@ == self.elements(),
            r@ == self.elements().reverse(),
    ;

    /// An exclusive reversed view of the whole slice. What is written through
    /// the view is written to the slice.
    fn rev_mut(&mut self) -> (r: RevSlice<&mut [Self::Element]>)
        ensures
            r.0@ == old(self).elements(),
            r@ == old(self).elements().reverse(),
            final(self).elements() == final(r.0)@,
    ;

    /// Closes the trait: no other crate can name the argument's type.
    fn sealed(_seal: Sealed);
}

impl<T> SliceExt for [T] {
    type Element = T;

    open spec fn elements(&self) -> Seq<T> {
        self@
    }

    fn rev(&self) -> (r: RevSlice<&[T]>) {
        RevSlice(self)
    }

    fn rev_mut(&mut self) -> (r: RevSlice<&mut [T]>) {
        RevSlice(self)
    }

    fn sealed(_seal: Sealed) {
    }
}

} // verus!
