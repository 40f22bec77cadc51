//! membuf: a verified typed buffer primitive.
//!
//! A building block for container types: a heap buffer sized to hold
//! `capacity` elements of an element type, tracking the capacity and which
//! slots currently hold a value, without managing element lifetimes beyond
//! that.  [`MemBuf`] is the lower-level handle with an explicit, consuming
//! `deallocate`; [`UniqueBuf`] wraps it as an owning handle whose storage is
//! released automatically when it goes out of scope.

use vstd::prelude::*;

pub mod raw;
mod unique;

pub use unique::UniqueBuf;

verus! {

use crate::raw::read_at;
use crate::raw::resized;
use crate::raw::unwritten;

/// A heap buffer with room for a number of elements of `T`, tracking its
/// capacity and the contents of each slot.
///
/// The buffer owns its storage: reallocation and deallocation require the
/// handle itself, so no aliasing handle can be left pointing at a region
/// that was moved or freed.  Deallocation is explicit — [`MemBuf::deallocate`]
/// consumes the handle — which makes this the flexible building block;
/// [`crate::UniqueBuf`] adds automatic release on scope exit.
///
/// The view of a buffer is the sequence of its slots, one per element of
/// capacity: `None` for a slot that was never written, `Some(v)` for a slot
/// holding `v`.
pub struct MemBuf<T> {
    data: Vec<Option<T>>,
}

impl<T> View for MemBuf<T> {
    type V = Seq<Option<T>>;

    closed spec fn view(&self) -> Seq<Option<T>> {
        self.data@
    }
}

impl<T> MemBuf<T> {
    /// Create a new, empty buffer: capacity 0, no heap allocation.
    pub fn new() -> (r: MemBuf<T>)
        ensures
            r@ == Seq::<Option<T>>::empty(),
    {
        MemBuf { data: crate::raw::empty() }
    }

    /// Create a buffer with room for `cap` elements, every slot unwritten.
    /// Capacity 0 yields the empty buffer.
    pub fn allocate(cap: usize) -> (r: MemBuf<T>)
        ensures
            r@ == unwritten::<T>(cap as nat),
            r@.len() == cap,
    {
        if cap == 0 {
            proof {
                assert(Seq::<Option<T>>::empty() =~= unwritten::<T>(0));
            }
            MemBuf::new()
        } else {
            MemBuf { data: crate::raw::allocate(cap) }
        }
    }

    /// Resize this buffer to fit `cap` elements.  Slots below both the old
    /// and the new capacity keep their contents; slots gained by growing
    /// start out unwritten; slots beyond `cap` are discarded.
    pub fn reallocate(&mut self, cap: usize)
        ensures
            final(self)@ == resized(old(self)@, cap as nat),
            final(self)@.len() == cap,
    {
        if self.data.len() == 0 || cap == 0 {
            proof {
                assert(unwritten::<T>(cap as nat) =~= resized(old(self)@, cap as nat));
            }
            *self = MemBuf::allocate(cap);
        } else {
            let old_cap = self.data.len();
            // Swap the region out against the empty sentinel, so the handle
            // holds capacity 0 while the old region is consumed by the
            // resize, and never claims a region it no longer owns.
            let mut region: Vec<Option<T>> = crate::raw::empty();
            core::mem::swap(&mut self.data, &mut region);
            self.data = crate::raw::reallocate(region, old_cap, cap);
        }
    }

    /// The number of elements this buffer has room for.
    pub fn capacity(&self) -> (r: usize)
        ensures
            r == self@.len(),
    {
        self.data.len()
    }

    /// Store `value` in slot `index`.  The slot must lie below the current
    /// capacity; every other slot keeps its contents.
    pub fn write(&mut self, index: usize, value: T)
        requires
            index < old(self)@.len(),
        ensures
            final(self)@ == old(self)@.update(index as int, Some(value)),
    {
        self.data[index] = Some(value);
    }

    /// Read slot `index`: the value stored there, or `None` when the slot
    /// lies beyond the capacity or was never written.
    pub fn read(&self, index: usize) -> (r: Option<&T>)
        ensures
            match r {
                Some(v) => read_at(self@, index as int) == Some(*v),
                None => read_at(self@, index as int) is None,
            },
    {
        if index < self.data.len() {
            match &self.data[index] {
                Some(v) => Some(v),
                None => None,
            }
        } else {
            None
        }
    }

    /// Release the buffer's storage.  Consumes the handle, so no further
    /// operation can touch the freed region; for a capacity-0 buffer there
    /// is no region and nothing happens.
    pub fn deallocate(self) {
        let cap = self.data.len();
        if cap > 0 {
            crate::raw::deallocate(self.data, cap);
        }
    }

    /// Adopt a previously built region of `capacity` slots as a buffer.
    pub fn from_raw(buffer: Vec<Option<T>>, capacity: usize) -> (r: MemBuf<T>)
        requires
            buffer@.len() == capacity,
        ensures
            r@ == buffer@,
    {
        MemBuf { data: buffer }
    }
}

/// Law: writing `value` at a valid offset `i` and then reading offset `i`
/// back yields exactly `value`, whatever the buffer held before — fresh and
/// resized buffers alike.  Every other offset reads as it did before the
/// write.
pub proof fn lemma_write_then_read<T>(s: Seq<Option<T>>, i: int, value: T)
    requires
        0 <= i < s.len(),
    ensures
        read_at(s.update(i, Some(value)), i) == Some(value),
        forall|j: int| j != i ==> read_at(s.update(i, Some(value)), j) == read_at(s, j),
{
}

} // verus!
