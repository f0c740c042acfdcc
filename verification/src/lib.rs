//! A reversed view of a slice.
//!
//! Import [`SliceExt`] to get `.rev()` and `.rev_mut()` on slices. The
//! [`RevSlice`] they return borrows the slice and reads it back to front:
//! position 0 of the view is the last element of the slice. Nothing is copied
//! or moved; every operation flips its coordinates once and hands over to the
//! slice underneath.
//!
//! The view of a `RevSlice` in contracts (`@`) is the sequence of its elements
//! in the order in which the view presents them.
//!
//! ```
//! use rev_slice::SliceExt;
//!
//! let a = [1, 2, 4, 9, 16, 25];
//! let r = a.rev();
//! assert_eq!(r[0], 25);
//! assert_eq!(r.index_range(1..3).rev(), &[9, 16]);
//! assert_eq!(r.split_first().unwrap().0, &25);
//!
//! let mut it = r.iter().cloned().skip(2);
//! assert_eq!(it.next(), Some(9));
//! assert_eq!(it.next(), Some(4));
//! assert_eq!(it.next(), Some(2));
//! ```

pub mod compare;
pub mod exclusive;
pub mod flip;
mod internal;
pub mod iter;
pub mod laws;
pub mod shared;
pub mod view;

pub use crate::iter::Iter;
pub use crate::iter::IterMut;
pub use crate::view::RevSlice;
pub use crate::view::SliceExt;
