//! Equality and order of shared views.
//!
//! Both go by what the views show: two views are equal if they show equal
//! elements in the same order, and they are ordered as their elements are, the
//! first that differ deciding.

use vstd::prelude::*;
use core::cmp::Ordering;
use vstd::std_specs::cmp::PartialEqSpec;
use vstd::std_specs::cmp::PartialOrdSpec;
use crate::view::RevSlice;

verus! {

/// What is left of `s` from `index` on.
spec fn from_index<T>(s: Seq<T>, index: usize) -> Seq<T> {
    s.skip(index as int)
}

/// The order of two sequences by their elements: that of the first two
/// elements that are not equal, or else that of the lengths. Where two
/// elements cannot be compared, neither can the sequences.
pub open spec fn lexicographic<T: PartialOrd>(a: Seq<T>, b: Seq<T>) -> Option<Ordering>
    decreases a.len(),
{
    if a.len() == 0 && b.len() == 0 {
        Some(Ordering::Equal)
    } else if a.len() == 0 {
        Some(Ordering::Less)
    } else if b.len() == 0 {
        Some(Ordering::Greater)
    } else {
        match a.first().partial_cmp_spec(&b.first()) {
            Some(Ordering::Equal) => lexicographic(a.drop_first(), b.drop_first()),
            unequal => unequal,
        }
    }
}

impl<'a, T: PartialEq> PartialEq for RevSlice<&'a [T]> {
    /// Whether the two views show equal elements in the same order.
    fn eq(&self, other: &Self) -> (equal: bool) {
        let len = self.0.len();
        if len != other.0.len() {
            return false;
        }
        let mut index: usize = 0;
        while index < len
            invariant
                len == self@.len(),
                len == other@.len(),
                index <= len,
                T::obeys_eq_spec() ==> forall|i: int|
                    0 <= i < index ==> self@[i].eq_spec(&other@[i]),
            decreases len - index,
        {
            if !(self[index] == other[index]) {
                return false;
            }
            index += 1;
        }
        true
    }
}

impl<'a, T: PartialEq> vstd::std_specs::cmp::PartialEqSpecImpl for RevSlice<&'a [T]> {
    /// `==` on views does what `eq_spec` says wherever `==` on the elements
    /// does what theirs says.
    open spec fn obeys_eq_spec() -> bool {
        T::obeys_eq_spec()
    }

    /// The same length, and equal elements at every position.
    open spec fn eq_spec(&self, other: &Self) -> bool {
        &&& self@.len() == other@.len()
        &&& forall|i: int| 0 <= i < self@.len() ==> self@[i].eq_spec(&other@[i])
    }
}

impl<'a, T: Eq> Eq for RevSlice<&'a [T]> {

}

impl<'a, T: PartialOrd> PartialOrd for RevSlice<&'a [T]> {
    /// The order of what the two views show, element by element.
    fn partial_cmp(&self, other: &Self) -> (order: Option<Ordering>) {
        let len = self.0.len();
        let other_len = other.0.len();
        let mut index: usize = 0;
        proof {
            assert(from_index(self@, index) =~= self@);
            assert(from_index(other@, index) =~= other@);
        }
        while index < len && index < other_len
            invariant
                len == self@.len(),
                other_len == other@.len(),
                index <= len,
                index <= other_len,
                T::obeys_partial_cmp_spec() ==> lexicographic(self@, other@) == lexicographic(
                    from_index(self@, index),
                    from_index(other@, index),
                ),
            decreases len - index,
        {
            let ghost before = index;
            match self[index].partial_cmp(&other[index]) {
                Some(Ordering::Equal) => {},
                unequal => {
                    return unequal;
                },
            }
            index += 1;
            proof {
                assert(from_index(self@, before).drop_first() =~= from_index(self@, index));
                assert(from_index(other@, before).drop_first() =~= from_index(other@, index));
            }
        }
        if len < other_len {
            Some(Ordering::Less)
        } else if len > other_len {
            Some(Ordering::Greater)
        } else {
            Some(Ordering::Equal)
        }
    }
}

impl<'a, T: PartialOrd> vstd::std_specs::cmp::PartialOrdSpecImpl for RevSlice<&'a [T]> {
    /// Comparing views does what `partial_cmp_spec` says wherever comparing
    /// the elements does what theirs says.
    open spec fn obeys_partial_cmp_spec() -> bool {
        T::obeys_partial_cmp_spec()
    }

    /// The order of what the views show, not of what their slices hold.
    open spec fn partial_cmp_spec(&self, other: &Self) -> Option<Ordering> {
        lexicographic(self@, other@)
    }
}

} // verus!
