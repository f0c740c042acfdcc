//! Iteration over a view, in the order in which it shows its elements.

use vstd::prelude::*;
use crate::view::RevSlice;

verus! {

/// An iterator over the elements of a shared view.
///
/// The field is the view of the elements still to come, and `@` in contracts
/// is what that view shows.
pub struct Iter<'a, T> {
    pub rest: RevSlice<&'a [T]>,
}

impl<'a, T> View for Iter<'a, T> {
    type V = Seq<T>;

    open spec fn view(&self) -> Seq<T> {
        self.rest@
    }
}

impl<'a, T> Iterator for Iter<'a, T> {
    type Item = &'a T;

    /// Hands out the next element, if one is left.
    fn next(&mut self) -> (item: Option<&'a T>)
        ensures
            item is None <==> old(self)@.len() == 0,
            item is None ==> final(self)@ == old(self)@,
            item matches Some(x) ==> *x == old(self)@.first() && final(self)@
                == old(self)@.drop_first(),
    {
        match self.rest.split_first() {
            Some((item, rest)) => {
                self.rest = rest;
                proof {
                    assert(final(self)@.as_ref() =~= old(self)@.as_ref().drop_first());
                }
                Some(item)
            },
            None => None,
        }
    }
}

impl<'a, T> vstd::std_specs::iter::IteratorSpecImpl for Iter<'a, T> {
    open spec fn obeys_prophetic_iter_laws(&self) -> bool {
        true
    }

    open spec fn remaining(&self) -> Seq<&'a T> {
        self@.as_ref()
    }

    open spec fn will_return_none(&self) -> bool {
        true
    }

    open spec fn decrease(&self) -> Option<nat> {
        Some(self@.len())
    }

    open spec fn initial_value_relation(&self, init: &Self) -> bool {
        self@ == init@
    }

    open spec fn peek(&self, index: int) -> Option<&'a T> {
        if 0 <= index < self@.len() {
            Some(&self@[index])
        } else {
            None
        }
    }
}

impl<'a, T> RevSlice<&'a [T]> {
    /// What [`iter`](Self::iter) returns, for use in contracts.
    pub open spec fn spec_iter(&self) -> Iter<'a, T> {
        Iter { rest: *self }
    }

    /// An iterator over the elements in the order in which the view shows
    /// them: over the slice from its last element to its first. Every call
    /// starts afresh.
    #[verifier::when_used_as_spec(spec_iter)]
    pub fn iter(&self) -> (it: Iter<'a, T>)
        ensures
            it == self.spec_iter(),
            it@ == self@,
    {
        Iter { rest: *self }
    }
}

/// An iterator over the elements of an exclusive view, each handed out to be
/// written.
///
/// The field is the view of the elements still to come, and `@` in contracts
/// is what that view shows.
pub struct IterMut<'a, T> {
    pub rest: RevSlice<&'a mut [T]>,
}

impl<'a, T> View for IterMut<'a, T> {
    type V = Seq<T>;

    open spec fn view(&self) -> Seq<T> {
        self.rest@
    }
}

impl<'a, T> Iterator for IterMut<'a, T> {
    type Item = &'a mut T;

    /// Hands out the next element to be written, if one is left. No element
    /// is handed out twice. The slice under the iterator will hold in the end
    /// what is written to this element and to those still to come.
    fn next(&mut self) -> (item: Option<&'a mut T>)
        ensures
            item is None <==> old(self)@.len() == 0,
            item is None ==> {
                &&& final(self)@ == old(self)@
                &&& final(final(self).rest.0)@ == final(old(self).rest.0)@
            },
            item matches Some(x) ==> {
                &&& *x == old(self)@.first()
                &&& final(self)@ == old(self)@.drop_first()
                &&& final(old(self).rest.0)@.reverse() == seq![*final(x)]
                    + final(final(self).rest.0)@.reverse()
            },
    {
        let mut whole: &'a mut [T] = &mut [];
        core::mem::swap(&mut self.rest.0, &mut whole);
        let len = whole.len();
        if len == 0 {
            return None;
        }
        let (rest, last) = whole.split_at_mut(len - 1);
        proof {
            assert(rest@.reverse() =~= old(self)@.drop_first());
        }
        let ghost last_before = last@;
        self.rest.0 = rest;
        match last.first_mut() {
            Some(item) => {
                proof {
                    assert((final(self.rest.0)@ + last_before.update(0, *final(item))).reverse()
                        =~= seq![*final(item)] + final(self.rest.0)@.reverse());
                }
                Some(item)
            },
            None => None,
        }
    }
}

impl<'a, T> vstd::std_specs::iter::IteratorSpecImpl for IterMut<'a, T> {
    /// What is handed out can be written, so that no sequence fixed in advance
    /// describes it: the contract of `next` says what is handed out.
    open spec fn obeys_prophetic_iter_laws(&self) -> bool {
        false
    }

    open spec fn remaining(&self) -> Seq<&'a mut T> {
        Seq::empty()
    }

    open spec fn will_return_none(&self) -> bool {
        true
    }

    open spec fn decrease(&self) -> Option<nat> {
        Some(self@.len())
    }

    open spec fn initial_value_relation(&self, init: &Self) -> bool {
        true
    }

    open spec fn peek(&self, index: int) -> Option<&'a mut T> {
        None
    }
}

impl<'a, T> RevSlice<&'a mut [T]> {
    /// An iterator over the elements in the order in which the view shows
    /// them, each to be written.
    pub fn iter_mut(&mut self) -> (it: IterMut<'_, T>)
        ensures
            it@ == old(self)@,
            final(self)@ == final(it.rest.0)@.reverse(),
            final(final(self).0)@ == final(old(self).0)@,
    {
        IterMut { rest: RevSlice(&mut *self.0) }
    }
}

impl<'a, T> IntoIterator for RevSlice<&'a [T]> {
    type Item = &'a T;

    type IntoIter = Iter<'a, T>;

    /// The iterator that [`iter`](RevSlice::iter) gives.
    fn into_iter(self) -> (it: Iter<'a, T>)
        ensures
            it == self.spec_iter(),
            it@ == self@,
    {
        self.iter()
    }
}

impl<'a, T> IntoIterator for RevSlice<&'a mut [T]> {
    type Item = &'a mut T;

    type IntoIter = IterMut<'a, T>;

    /// An iterator over all that the view shows, each element to be written.
    /// The view itself goes into the iterator.
    fn into_iter(self) -> (it: IterMut<'a, T>)
        ensures
            it.rest == self,
            it@ == self@,
    {
        IterMut { rest: self }
    }
}

} // verus!
