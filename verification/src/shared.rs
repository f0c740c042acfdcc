//! What a shared view offers: the reading operations of a slice, with every
//! position and range counted from the back.

use vstd::prelude::*;
use core::ops::Index;
use core::ops::Range;
use crate::flip::flip_fencepost;
use crate::flip::flip_index;
use crate::flip::flip_range;
use crate::flip::index_in_bounds;
use crate::flip::range_in_bounds;
use crate::flip::split_in_bounds;
use crate::laws::lemma_reverse_twice;
use crate::view::RevSlice;

verus! {

impl<'a, T> RevSlice<&'a [T]> {
    /// The slice that the view borrows, in its own order: the same slice, not
    /// a copy, and the reverse of what the view shows.
    pub fn rev(&self) -> (slice: &'a [T])
        ensures
            slice@ == self.0@,
            slice@ == self@.reverse(),
    {
        proof {
            lemma_reverse_twice(self.0@);
        }
        self.0
    }

    /// The number of elements.
    pub fn len(&self) -> (len: usize)
        ensures
            len == self@.len(),
    {
        self.0.len()
    }

    /// Whether the view has no elements.
    pub fn is_empty(&self) -> (empty: bool)
        ensures
            empty <==> self@.len() == 0,
    {
        self.0.is_empty()
    }

    /// The first element that the view shows, or `None` if it is empty.
    pub fn first(&self) -> (item: Option<&'a T>)
        ensures
            item is None <==> self@.len() == 0,
            item matches Some(x) ==> *x == self@.first(),
    {
        let slice: &'a [T] = self.0;
        slice.last()
    }

    /// The last element that the view shows, or `None` if it is empty.
    pub fn last(&self) -> (item: Option<&'a T>)
        ensures
            item is None <==> self@.len() == 0,
            item matches Some(x) ==> *x == self@.last(),
    {
        let slice: &'a [T] = self.0;
        slice.first()
    }

    /// The first element that the view shows and a view of the others, or
    /// `None` if the view is empty.
    pub fn split_first(&self) -> (parts: Option<(&'a T, RevSlice<&'a [T]>)>)
        ensures
            parts is None <==> self@.len() == 0,
            parts matches Some((item, rest)) ==> {
                &&& *item == self@.first()
                &&& rest@ == self@.drop_first()
            },
    {
        let len = self.0.len();
        if len == 0 {
            return None;
        }
        let (rest, item) = self.0.split_at(len - 1);
        assert(rest@.reverse() =~= self@.drop_first());
        Some((&item[0], RevSlice(rest)))
    }

    /// The last element that the view shows and a view of the others, or
    /// `None` if the view is empty.
    pub fn split_last(&self) -> (parts: Option<(&'a T, RevSlice<&'a [T]>)>)
        ensures
            parts is None <==> self@.len() == 0,
            parts matches Some((item, rest)) ==> {
                &&& *item == self@.last()
                &&& rest@ == self@.drop_last()
            },
    {
        if self.0.len() == 0 {
            return None;
        }
        let (item, rest) = self.0.split_at(1);
        assert(rest@.reverse() =~= self@.drop_last());
        Some((&item[0], RevSlice(rest)))
    }

    /// Divides the view at `mid`: the first `mid` elements that it shows, and
    /// the rest. Either part may be empty.
    pub fn split_at(&self, mid: usize) -> (parts: (RevSlice<&'a [T]>, RevSlice<&'a [T]>))
        requires
            split_in_bounds(self@.len(), mid as int),
        ensures
            parts.0@ == self@.subrange(0, mid as int),
            parts.1@ == self@.subrange(mid as int, self@.len() as int),
    {
        let rmid = flip_fencepost(self.0.len(), mid);
        let (a, b) = self.0.split_at(rmid);
        assert(b@.reverse() =~= self@.subrange(0, mid as int));
        assert(a@.reverse() =~= self@.subrange(mid as int, self@.len() as int));
        (RevSlice(b), RevSlice(a))
    }

    /// The view of the elements that this view shows at `range`.
    pub fn index_range(&self, range: Range<usize>) -> (part: RevSlice<&'a [T]>)
        requires
            range_in_bounds(self@.len(), range.start as int, range.end as int),
        ensures
            part@ == self@.subrange(range.start as int, range.end as int),
    {
        let rrange = flip_range(self.0.len(), range);
        let slice: &'a [T] = self.0;
        let part = RevSlice(&slice[rrange]);
        assert(part@ =~= self@.subrange(range.start as int, range.end as int));
        part
    }
}

impl<'a, T> Index<usize> for RevSlice<&'a [T]> {
    type Output = T;

    /// The element that the view shows at `index`.
    fn index(&self, index: usize) -> (item: &T)
        ensures
            *item == self@[index as int],
    {
        let rindex = flip_index(self.0.len(), index);
        &self.0[rindex]
    }
}

impl<'a, T> vstd::std_specs::core::IndexSpecImpl<usize> for RevSlice<&'a [T]> {
    /// Indexing asks for a position that the view has.
    open spec fn index_req(&self, index: &usize) -> bool {
        index_in_bounds(self@.len(), *index as int)
    }
}

} // verus!
