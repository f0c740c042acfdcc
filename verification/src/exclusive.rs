//! What an exclusive view offers: the writing operations of a slice, with
//! every position and range counted from the back.
//!
//! A method that takes `&mut self` lends out the view, or parts of it, for as
//! long as its result lives. Its contract says what the result shows at first,
//! what the view shows once the loan has ended, in terms of what the result
//! shows by then, and, in its last clause, that the view still stands for the
//! same slice.

use vstd::prelude::*;
use core::ops::Index;
use core::ops::IndexMut;
use core::ops::Range;
use crate::flip::flip_fencepost;
use crate::flip::flip_index;
use crate::flip::flip_range;
use crate::flip::index_in_bounds;
use crate::flip::range_in_bounds;
use crate::flip::split_in_bounds;
use crate::laws::lemma_reverse_concat;
use crate::laws::lemma_reverse_twice;
use crate::laws::lemma_update_mapping;
use crate::view::RevSlice;

verus! {

impl<'a, T> RevSlice<&'a mut [T]> {
    /// The slice that the view borrows, in its own order, to be read.
    pub fn rev(&self) -> (slice: &[T])
        ensures
            slice@ == self@.reverse(),
    {
        proof {
            lemma_reverse_twice(self.0@);
        }
        &*self.0
    }

    /// The slice that the view borrows, in its own order, to be written: the
    /// same slice, not a copy.
    pub fn rev_mut(&mut self) -> (slice: &mut [T])
        ensures
            slice@ == old(self).0@,
            slice@ == old(self)@.reverse(),
            final(self)@ == final(slice)@.reverse(),
            final(final(self).0)@ == final(old(self).0)@,
    {
        proof {
            lemma_reverse_twice(self.0@);
        }
        &mut *self.0
    }

    /// A shared view of what this view shows, for the reading operations.
    pub fn as_ref(&self) -> (shared: RevSlice<&[T]>)
        ensures
            shared@ == self@,
    {
        RevSlice(&*self.0)
    }

    /// The number of elements.
    pub fn len(&self) -> (len: usize)
        ensures
            len == self@.len(),
    {
        self.0.len()
    }

    /// Whether the view has no elements.
    pub fn is_empty(&self) -> (empty: bool)
        ensures
            empty <==> self@.len() == 0,
    {
        self.0.is_empty()
    }

    /// The first element that the view shows, to be written, or `None` if the
    /// view is empty. The other elements stay as they are.
    pub fn first_mut(&mut self) -> (item: Option<&mut T>)
        ensures
            item is None <==> old(self)@.len() == 0,
            item is None ==> final(self)@ == old(self)@,
            item matches Some(x) ==> {
                &&& *x == old(self)@.first()
                &&& final(self)@ == old(self)@.update(0, *final(x))
            },
            final(final(self).0)@ == final(old(self).0)@,
    {
        proof {
            assert forall|x: T| old(self)@.len() > 0 implies #[trigger] old(self).0@.update(
                old(self)@.len() - 1,
                x,
            ).reverse() == old(self)@.update(0, x) by {
                lemma_update_mapping(old(self).0@, old(self)@.len() - 1, x);
            }
        }
        self.0.last_mut()
    }

    /// The last element that the view shows, to be written, or `None` if the
    /// view is empty. The other elements stay as they are.
    pub fn last_mut(&mut self) -> (item: Option<&mut T>)
        ensures
            item is None <==> old(self)@.len() == 0,
            item is None ==> final(self)@ == old(self)@,
            item matches Some(x) ==> {
                &&& *x == old(self)@.last()
                &&& final(self)@ == old(self)@.update(old(self)@.len() - 1, *final(x))
            },
            final(final(self).0)@ == final(old(self).0)@,
    {
        proof {
            assert forall|x: T| old(self)@.len() > 0 implies #[trigger] old(self).0@.update(
                0,
                x,
            ).reverse() == old(self)@.update(old(self)@.len() - 1, x) by {
                lemma_update_mapping(old(self).0@, 0, x);
            }
        }
        self.0.first_mut()
    }

    /// The first element that the view shows, to be written, and an exclusive
    /// view of the others, or `None` if the view is empty.
    pub fn split_first_mut(&mut self) -> (parts: Option<(&mut T, RevSlice<&mut [T]>)>)
        ensures
            parts is None <==> old(self)@.len() == 0,
            parts is None ==> final(self)@ == old(self)@,
            parts matches Some((item, rest)) ==> {
                &&& *item == old(self)@.first()
                &&& rest@ == old(self)@.drop_first()
                &&& final(self)@ == seq![*final(item)] + final(rest.0)@.reverse()
            },
            final(final(self).0)@ == final(old(self).0)@,
    {
        let len = self.0.len();
        if len == 0 {
            return None;
        }
        let (rest, last) = self.0.split_at_mut(len - 1);
        proof {
            assert(rest@.reverse() =~= old(self)@.drop_first());
        }
        let ghost last_before = last@;
        match last.first_mut() {
            Some(item) => {
                proof {
                    let last_after = last_before.update(0, *final(item));
                    lemma_reverse_concat(final(rest)@, last_after);
                    assert(last_after.reverse() =~= seq![*final(item)]);
                }
                Some((item, RevSlice(rest)))
            },
            None => None,
        }
    }

    /// The last element that the view shows, to be written, and an exclusive
    /// view of the others, or `None` if the view is empty.
    pub fn split_last_mut(&mut self) -> (parts: Option<(&mut T, RevSlice<&mut [T]>)>)
        ensures
            parts is None <==> old(self)@.len() == 0,
            parts is None ==> final(self)@ == old(self)@,
            parts matches Some((item, rest)) ==> {
                &&& *item == old(self)@.last()
                &&& rest@ == old(self)@.drop_last()
                &&& final(self)@ == final(rest.0)@.reverse() + seq![*final(item)]
            },
            final(final(self).0)@ == final(old(self).0)@,
    {
        if self.0.len() == 0 {
            return None;
        }
        let (first, rest) = self.0.split_at_mut(1);
        proof {
            assert(rest@.reverse() =~= old(self)@.drop_last());
        }
        let ghost first_before = first@;
        match first.first_mut() {
            Some(item) => {
                proof {
                    let first_after = first_before.update(0, *final(item));
                    lemma_reverse_concat(first_after, final(rest)@);
                    assert(first_after.reverse() =~= seq![*final(item)]);
                }
                Some((item, RevSlice(rest)))
            },
            None => None,
        }
    }

    /// Divides the view at `mid` into two exclusive views: the first `mid`
    /// elements that it shows, and the rest. The two never overlap, so both can
    /// be written through at once. Either part may be empty.
    pub fn split_at_mut(&mut self, mid: usize) -> (parts: (
        RevSlice<&mut [T]>,
        RevSlice<&mut [T]>,
    ))
        requires
            split_in_bounds(old(self)@.len(), mid as int),
        ensures
            parts.0@ == old(self)@.subrange(0, mid as int),
            parts.1@ == old(self)@.subrange(mid as int, old(self)@.len() as int),
            final(self)@ == final(parts.0.0)@.reverse() + final(parts.1.0)@.reverse(),
            final(final(self).0)@ == final(old(self).0)@,
    {
        let rmid = flip_fencepost(self.0.len(), mid);
        let (a, b) = self.0.split_at_mut(rmid);
        proof {
            assert(b@.reverse() =~= old(self)@.subrange(0, mid as int));
            assert(a@.reverse() =~= old(self)@.subrange(mid as int, old(self)@.len() as int));
            lemma_reverse_concat(final(a)@, final(b)@);
        }
        (RevSlice(b), RevSlice(a))
    }

    /// The exclusive view of the elements that this view shows at `range`.
    /// The elements outside the range stay as they are.
    pub fn index_range_mut(&mut self, range: Range<usize>) -> (part: RevSlice<&mut [T]>)
        requires
            range_in_bounds(old(self)@.len(), range.start as int, range.end as int),
        ensures
            part@ == old(self)@.subrange(range.start as int, range.end as int),
            final(self)@ == old(self)@.subrange(0, range.start as int) + final(part.0)@.reverse()
                + old(self)@.subrange(range.end as int, old(self)@.len() as int),
            final(final(self).0)@ == final(old(self).0)@,
    {
        let rrange = flip_range(self.0.len(), range);
        let (head, after) = self.0.split_at_mut(rrange.end);
        let (before, part) = head.split_at_mut(rrange.start);
        proof {
            assert(part@.reverse() =~= old(self)@.subrange(range.start as int, range.end as int));
            assert(after@.reverse() =~= old(self)@.subrange(0, range.start as int));
            assert(before@.reverse() =~= old(self)@.subrange(
                range.end as int,
                old(self)@.len() as int,
            ));
            lemma_reverse_concat(before@, final(part)@);
            lemma_reverse_concat(before@ + final(part)@, after@);
            assert(after@.reverse() + (final(part)@.reverse() + before@.reverse())
                =~= after@.reverse() + final(part)@.reverse() + before@.reverse());
        }
        RevSlice(part)
    }
}

impl<'a, T> Index<usize> for RevSlice<&'a mut [T]> {
    type Output = T;

    /// The element that the view shows at `index`.
    fn index(&self, index: usize) -> (item: &T)
        ensures
            *item == self@[index as int],
    {
        let rindex = flip_index(self.0.len(), index);
        &self.0[rindex]
    }
}

impl<'a, T> vstd::std_specs::core::IndexSpecImpl<usize> for RevSlice<&'a mut [T]> {
    /// Indexing asks for a position that the view has.
    open spec fn index_req(&self, index: &usize) -> bool {
        index_in_bounds(self@.len(), *index as int)
    }
}

impl<'a, T> IndexMut<usize> for RevSlice<&'a mut [T]> {
    /// The element that the view shows at `index`, to be written. The other
    /// elements stay as they are.
    fn index_mut(&mut self, index: usize) -> (item: &mut T)
        requires
            index_in_bounds(old(self)@.len(), index as int),
        ensures
            *item == old(self)@[index as int],
            final(self)@ == old(self)@.update(index as int, *final(item)),
            final(final(self).0)@ == final(old(self).0)@,
    {
        let rindex = flip_index(self.0.len(), index);
        proof {
            assert forall|x: T| #[trigger]
                old(self).0@.update(rindex as int, x).reverse() == old(self)@.update(
                    index as int,
                    x,
                ) by {
                lemma_update_mapping(old(self).0@, rindex as int, x);
            }
        }
        &mut self.0[rindex]
    }
}

} // verus!
