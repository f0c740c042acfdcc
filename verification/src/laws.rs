//! What holds of reversed views in general, stated over sequences.
//!
//! A view shows `s.reverse()` where its slice holds `s`, and the contracts of
//! the operations speak of what the view shows. The lemmas here carry such a
//! statement over to the slice and back.

use vstd::prelude::*;
use vstd::std_specs::iter::IteratorSpec;
use crate::flip::flipped_fencepost;
use crate::flip::flipped_index;
use crate::flip::index_in_bounds;
use crate::flip::range_in_bounds;
use crate::flip::split_in_bounds;
use crate::view::RevSlice;

verus! {

/// Reversing twice gives the sequence back: the slice under a view of a slice
/// is that slice, and a view of a view's slice shows what the slice holds.
pub proof fn lemma_reverse_twice<T>(s: Seq<T>)
    ensures
        s.reverse().reverse() == s,
{
    assert(s.reverse().reverse() =~= s);
}

/// Two views show the same exactly when their slices hold the same.
pub proof fn lemma_reverse_injective<T>(s: Seq<T>, t: Seq<T>)
    ensures
        s.reverse() == t.reverse() <==> s == t,
{
    lemma_reverse_twice(s);
    lemma_reverse_twice(t);
}

/// The view shows at `index` the element that the slice holds at the flipped
/// position.
pub proof fn lemma_index_mapping<T>(s: Seq<T>, index: int)
    requires
        index_in_bounds(s.len(), index),
    ensures
        index_in_bounds(s.len(), flipped_index(s.len(), index)),
        s.reverse()[index] == s[flipped_index(s.len(), index)],
        flipped_index(s.len(), flipped_index(s.len(), index)) == index,
{
}

/// A range of the view is the reverse of the flipped range of the slice, and
/// as long as the range asked for.
pub proof fn lemma_range_mapping<T>(s: Seq<T>, start: int, end: int)
    requires
        range_in_bounds(s.len(), start, end),
    ensures
        range_in_bounds(
            s.len(),
            flipped_fencepost(s.len(), end),
            flipped_fencepost(s.len(), start),
        ),
        s.reverse().subrange(start, end) == s.subrange(
            flipped_fencepost(s.len(), end),
            flipped_fencepost(s.len(), start),
        ).reverse(),
        s.reverse().subrange(start, end).len() == end - start,
{
    assert(s.reverse().subrange(start, end) =~= s.subrange(
        flipped_fencepost(s.len(), end),
        flipped_fencepost(s.len(), start),
    ).reverse());
}

/// Reversing a concatenation reverses each part and makes them change places.
pub proof fn lemma_reverse_concat<T>(a: Seq<T>, b: Seq<T>)
    ensures
        (a + b).reverse() == b.reverse() + a.reverse(),
{
    assert((a + b).reverse() =~= b.reverse() + a.reverse());
}

/// The two parts of a view split at `mid` make up the view when put one
/// after the other; their slices make up the slice of the view when put the
/// other way round.
pub proof fn lemma_split_consistency<T>(s: Seq<T>, mid: int)
    requires
        split_in_bounds(s.len(), mid),
    ensures
        s.reverse().subrange(0, mid) + s.reverse().subrange(mid, s.len() as int) == s.reverse(),
        s.reverse().subrange(mid, s.len() as int).reverse() + s.reverse().subrange(
            0,
            mid,
        ).reverse() == s,
        s.reverse().subrange(0, mid).reverse() == s.subrange(
            flipped_fencepost(s.len(), mid),
            s.len() as int,
        ),
        s.reverse().subrange(mid, s.len() as int).reverse() == s.subrange(
            0,
            flipped_fencepost(s.len(), mid),
        ),
{
    let front = s.reverse().subrange(0, mid);
    let back = s.reverse().subrange(mid, s.len() as int);
    assert(front + back =~= s.reverse());
    assert(back.reverse() + front.reverse() =~= s);
    assert(front.reverse() =~= s.subrange(flipped_fencepost(s.len(), mid), s.len() as int));
    assert(back.reverse() =~= s.subrange(0, flipped_fencepost(s.len(), mid)));
}

/// Writing `value` at `index` of the view writes it at the flipped position
/// of the slice, and writing to the slice shows in the view in the same way.
pub proof fn lemma_update_mapping<T>(s: Seq<T>, index: int, value: T)
    requires
        index_in_bounds(s.len(), index),
    ensures
        s.reverse().update(index, value).reverse() == s.update(
            flipped_index(s.len(), index),
            value,
        ),
        s.update(index, value).reverse() == s.reverse().update(
            flipped_index(s.len(), index),
            value,
        ),
        s.update(flipped_index(s.len(), index), value)[flipped_index(
            s.len(),
            index,
        )] == value,
{
    assert(s.reverse().update(index, value).reverse() =~= s.update(
        flipped_index(s.len(), index),
        value,
    ));
    assert(s.update(index, value).reverse() =~= s.reverse().update(
        flipped_index(s.len(), index),
        value,
    ));
}

/// Where the bounds lie. The position and the range just past the end are
/// out of bounds, and so is a split past the end. A split at 0 or at the
/// length is in bounds, and gives an empty part and the whole view.
pub proof fn lemma_bounds<T>(s: Seq<T>)
    ensures
        !index_in_bounds(s.len(), s.len() as int),
        !range_in_bounds(s.len(), s.len() as int, s.len() as int + 1),
        !split_in_bounds(s.len(), s.len() as int + 1),
        split_in_bounds(s.len(), 0),
        split_in_bounds(s.len(), s.len() as int),
        s.reverse().subrange(0, 0) == Seq::<T>::empty(),
        s.reverse().subrange(0, s.len() as int) == s.reverse(),
        s.reverse().subrange(s.len() as int, s.len() as int) == Seq::<T>::empty(),
{
    assert(s.reverse().subrange(0, 0) =~= Seq::<T>::empty());
    assert(s.reverse().subrange(0, s.len() as int) =~= s.reverse());
    assert(s.reverse().subrange(s.len() as int, s.len() as int) =~= Seq::<T>::empty());
}

/// An empty view has no position in bounds, and no range but the empty one.
pub proof fn lemma_empty_bounds(index: int, start: int, end: int)
    ensures
        !index_in_bounds(0, index),
        range_in_bounds(0, start, end) <==> start == 0 && end == 0,
        split_in_bounds(0, index) <==> index == 0,
{
}

/// Iterating over a view goes over its slice from the last element to the
/// first: the iterator that a view gives has as many elements to come as the
/// slice has, and the one at `index` is the one at the flipped position of the
/// slice.
pub proof fn lemma_iteration_order<'a, T>(view: RevSlice<&'a [T]>, index: int)
    ensures
        view.spec_iter()@ == view.0@.reverse(),
        view.spec_iter()@.len() == view.0@.len(),
        index_in_bounds(view.0@.len(), index) ==> {
            &&& view.spec_iter()@[index] == view.0@[flipped_index(view.0@.len(), index)]
            &&& view.spec_iter().peek(index) == Some(
                &view.0@[flipped_index(view.0@.len(), index)],
            )
        },
        !index_in_bounds(view.0@.len(), index) ==> view.spec_iter().peek(index) is None,
{
}

} // verus!
