//! The owning buffer handle.

use vstd::prelude::*;

use crate::MemBuf;

verus! {

use crate::raw::read_at;
use crate::raw::resized;
use crate::raw::unwritten;

/// An owning buffer handle: wraps exactly one [`MemBuf`] and releases its
/// storage automatically when it goes out of scope, exactly once, with
/// nothing to free for a capacity-0 buffer.
///
/// Because the handle cannot be duplicated, no aliasing handle can observe
/// a reallocation or deallocation performed through it, so every operation
/// here is safe to call; this is the standard building block for
/// higher-level containers.
pub struct UniqueBuf<T> {
    inner: MemBuf<T>,
}

impl<T> View for UniqueBuf<T> {
    type V = Seq<Option<T>>;

    closed spec fn view(&self) -> Seq<Option<T>> {
        self.inner@
    }
}

impl<T> UniqueBuf<T> {
    /// Create a new, empty buffer: capacity 0, no heap allocation.
    pub fn new() -> (r: UniqueBuf<T>)
        ensures
            r@ == Seq::<Option<T>>::empty(),
    {
        UniqueBuf { inner: MemBuf::new() }
    }

    /// Create a buffer with room for `cap` elements, every slot unwritten.
    /// Capacity 0 yields the empty buffer.
    pub fn allocate(cap: usize) -> (r: UniqueBuf<T>)
        ensures
            r@ == unwritten::<T>(cap as nat),
            r@.len() == cap,
    {
        UniqueBuf { inner: MemBuf::allocate(cap) }
    }

    /// Resize this buffer to fit `cap` elements.  Slots below both the old
    /// and the new capacity keep their contents; slots gained by growing
    /// start out unwritten; slots beyond `cap` are discarded.
    pub fn reallocate(&mut self, cap: usize)
        ensures
            final(self)@ == resized(old(self)@, cap as nat),
            final(self)@.len() == cap,
    {
        self.inner.reallocate(cap);
    }

    /// The number of elements this buffer has room for.
    pub fn capacity(&self) -> (r: usize)
        ensures
            r == self@.len(),
    {
        self.inner.capacity()
    }

    /// Store `value` in slot `index`.  The slot must lie below the current
    /// capacity; every other slot keeps its contents.
    pub fn write(&mut self, index: usize, value: T)
        requires
            index < old(self)@.len(),
        ensures
            final(self)@ == old(self)@.update(index as int, Some(value)),
    {
        self.inner.write(index, value);
    }

    /// Read slot `index`: the value stored there, or `None` when the slot
    /// lies beyond the capacity or was never written.
    pub fn read(&self, index: usize) -> (r: Option<&T>)
        ensures
            match r {
                Some(v) => read_at(self@, index as int) == Some(*v),
                None => read_at(self@, index as int) is None,
            },
    {
        self.inner.read(index)
    }

    /// Adopt an existing buffer as an owning handle; the caller gives up
    /// its own right to deallocate it.
    pub fn from_raw(buffer: MemBuf<T>) -> (r: UniqueBuf<T>)
        ensures
            r@ == buffer@,
    {
        UniqueBuf { inner: buffer }
    }
}

} // verus!
