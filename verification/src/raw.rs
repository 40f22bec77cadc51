//! Raw region routines: the allocation layer underneath the buffer handles.
//!
//! A region is a vector of slots, one per element of capacity; a slot is
//! `None` until a value is written into it.  The empty region — a vector of
//! length zero, which the standard library guarantees performs no heap
//! allocation — plays the role of the sentinel for capacity-0 buffers.
//! Byte-level sizing of the backing storage is carried out by the vector
//! itself, which aborts the process when a request cannot be represented or
//! satisfied; neither fault is ever surfaced as a recoverable error.  The
//! element-size arithmetic, with its capacity-overflow check, is exposed by
//! [`allocation_size`] and [`unchecked_allocation_size`].

use vstd::prelude::*;

verus! {

use vstd::layout::size_of;

/// The contents of a freshly allocated region of `cap` slots: no slot has
/// been written yet.
pub open spec fn unwritten<T>(cap: nat) -> Seq<Option<T>> {
    Seq::new(cap, |i: int| None::<T>)
}

/// The contents of a region after it is resized to `cap` slots: slots below
/// both the old and the new capacity keep their contents, slots beyond the
/// old capacity start out unwritten, and slots beyond the new capacity are
/// gone.
pub open spec fn resized<T>(s: Seq<Option<T>>, cap: nat) -> Seq<Option<T>> {
    Seq::new(cap, |i: int| if 0 <= i < s.len() { s[i] } else { None })
}

/// What a read of slot `i` yields: the value written there, or `None` when
/// the slot is out of bounds or was never written.
pub open spec fn read_at<T>(s: Seq<Option<T>>, i: int) -> Option<T> {
    if 0 <= i < s.len() {
        s[i]
    } else {
        None
    }
}

/// The empty region: capacity 0, no heap allocation.
pub fn empty<T>() -> (r: Vec<Option<T>>)
    ensures
        r@ == Seq::<Option<T>>::empty(),
{
    Vec::new()
}

/// Allocate a fresh region with room for `cap` elements, every slot
/// unwritten.  Capacity 0 is routed to [`empty`] by the callers.
pub fn allocate<T>(cap: usize) -> (r: Vec<Option<T>>)
    requires
        cap > 0,
    ensures
        r@ == unwritten::<T>(cap as nat),
        r@.len() == cap,
{
    let mut r: Vec<Option<T>> = Vec::new();
    while r.len() < cap
        invariant
            r@.len() <= cap,
            forall|i: int| 0 <= i < r@.len() ==> r@[i] is None,
        decreases cap - r@.len(),
    {
        r.push(None);
    }
    proof {
        assert(r@ =~= unwritten::<T>(cap as nat));
    }
    r
}

/// Resize a region allocated by [`allocate`] or a previous call to
/// `reallocate` from `old_cap` slots to `new_cap` slots, keeping the
/// contents of every slot below both capacities.
pub fn reallocate<T>(region: Vec<Option<T>>, old_cap: usize, new_cap: usize) -> (r: Vec<Option<T>>)
    requires
        old_cap > 0,
        new_cap > 0,
        region@.len() == old_cap,
    ensures
        r@ == resized(region@, new_cap as nat),
        r@.len() == new_cap,
{
    let mut r = region;
    if new_cap <= r.len() {
        r.truncate(new_cap);
    } else {
        while r.len() < new_cap
            invariant
                region@.len() <= r@.len() <= new_cap,
                r@.subrange(0, region@.len() as int) == region@,
                forall|i: int| region@.len() <= i < r@.len() ==> r@[i] is None,
            decreases new_cap - r@.len(),
        {
            r.push(None);
        }
    }
    proof {
        assert(r@ =~= resized(region@, new_cap as nat));
    }
    r
}

/// Release a region of `cap` slots.  The region is consumed; its storage is
/// returned to the heap when the vector is dropped here.
pub fn deallocate<T>(region: Vec<Option<T>>, cap: usize)
    requires
        cap > 0,
        region@.len() == cap,
{
    let _ = region;
}

/// The number of bytes a region of `cap` elements of `T` occupies, with the
/// capacity-overflow check: `None` exactly when `size_of::<T>() * cap` does
/// not fit in the platform size type.
pub fn allocation_size<T>(cap: usize) -> (r: Option<usize>)
    ensures
        size_of::<T>() * cap <= usize::MAX ==> r == Some((size_of::<T>() * cap) as usize),
        size_of::<T>() * cap > usize::MAX ==> r is None,
{
    core::mem::size_of::<T>().checked_mul(cap)
}

/// The number of bytes a region of `cap` elements of `T` occupies, without
/// the overflow check: for capacities a live region was already created
/// with, overflow is impossible by construction.
pub fn unchecked_allocation_size<T>(cap: usize) -> (r: usize)
    requires
        size_of::<T>() * cap <= usize::MAX,
    ensures
        r == size_of::<T>() * cap,
{
    core::mem::size_of::<T>() * cap
}

/// Law: a zero-sized element type occupies no memory at any capacity — even
/// the largest — so its byte size is always 0 and the capacity-overflow
/// check can never fire for it; [`allocation_size`] therefore returns
/// `Some(0)` for every capacity.
pub proof fn lemma_zero_sized_allocation_size<T>(cap: nat)
    requires
        size_of::<T>() == 0,
    ensures
        size_of::<T>() * cap == 0,
        size_of::<T>() * cap <= usize::MAX,
{
    vstd::arithmetic::mul::lemma_mul_basics(cap as int);
}

/// Law: a resize preserves every slot at offsets below both the old and the
/// new capacity.
pub proof fn lemma_reallocate_preserves_prefix<T>(s: Seq<Option<T>>, cap: nat, i: int)
    requires
        0 <= i < s.len(),
        i < cap,
    ensures
        resized(s, cap)[i] == s[i],
{
}

/// Law: resizing a region from its capacity `s.len()` to any capacity `b`
/// and then back preserves every slot at offsets below `min(s.len(), b)`.
pub proof fn lemma_reallocate_round_trip<T>(s: Seq<Option<T>>, b: nat)
    ensures
        forall|i: int|
            0 <= i < s.len() && i < b ==> resized(resized(s, b), s.len())[i] == s[i],
{
}

} // verus!
