//! The ring buffer that holds the pulse timestamps, and what is taken on
//! trust about it.
//!
//! The buffer is `ringbuffer::ConstGenericRingBuffer`. Nothing in this file is
//! proved: each function states what the `ringbuffer` crate does, over two
//! names, [`ring_items`] and [`ring_written`].

use ringbuffer::ConstGenericRingBuffer;
use ringbuffer::RingBuffer;
use vstd::prelude::*;

verus! {

/// How many timestamps the buffer holds at most.
pub const CAPACITY: usize = 100;

/// `ringbuffer::ConstGenericRingBuffer`, a ring buffer of fixed capacity that
/// lives in its owner, without allocation. Its fields stay hidden: what it
/// holds is spoken of through [`ring_items`] and [`ring_written`] alone.
#[verifier::external_type_specification]
#[verifier::external_body]
#[verifier::reject_recursive_types(T)]
pub struct ExConstGenericRingBuffer<T, const CAP: usize>(ConstGenericRingBuffer<T, CAP>);

/// The items in the buffer, the one enqueued longest ago first.
pub uninterp spec fn ring_items(ring: ConstGenericRingBuffer<u64, CAPACITY>) -> Seq<u64>;

/// How many items the buffer has taken since it was made. The buffer keeps
/// this count as its write cursor, a `usize` that it only ever increments.
pub uninterp spec fn ring_written(ring: ConstGenericRingBuffer<u64, CAPACITY>) -> nat;

/// `ConstGenericRingBuffer::new`: an empty buffer with both cursors at zero.
#[verifier::external_body]
pub(crate) fn ring_new() -> (ring: ConstGenericRingBuffer<u64, CAPACITY>)
    ensures
        ring_items(ring) == Seq::<u64>::empty(),
        ring_written(ring) == 0,
{
    ConstGenericRingBuffer::new()
}

/// `RingBuffer::len`: the number of items in the buffer.
#[verifier::external_body]
pub(crate) fn ring_len(ring: &ConstGenericRingBuffer<u64, CAPACITY>) -> (n: usize)
    ensures
        n == ring_items(*ring).len(),
{
    ring.len()
}

/// `RingBuffer::is_full`: whether the buffer holds as many items as its
/// capacity.
#[verifier::external_body]
pub(crate) fn ring_is_full(ring: &ConstGenericRingBuffer<u64, CAPACITY>) -> (full: bool)
    ensures
        full == (ring_items(*ring).len() == CAPACITY),
{
    ring.is_full()
}

/// `RingBuffer::front`: the item enqueued longest ago, or nothing when the
/// buffer is empty.
#[verifier::external_body]
pub(crate) fn ring_front(ring: &ConstGenericRingBuffer<u64, CAPACITY>) -> (item: Option<u64>)
    ensures
        item == if ring_items(*ring).len() == 0 {
            None
        } else {
            Some(ring_items(*ring).first())
        },
{
    ring.front().copied()
}

/// `RingBuffer::back`: the item enqueued most recently, or nothing when the
/// buffer is empty. The crate adds the read cursor and an offset as `isize`,
/// so the write cursor has to fit in one, on a 32-bit machine too.
#[verifier::external_body]
pub(crate) fn ring_back(ring: &ConstGenericRingBuffer<u64, CAPACITY>) -> (item: Option<u64>)
    requires
        ring_written(*ring) <= 0x7fff_ffff,
    ensures
        item == if ring_items(*ring).len() == 0 {
            None
        } else {
            Some(ring_items(*ring).last())
        },
{
    ring.back().copied()
}

/// `RingBuffer::dequeue`: takes the item enqueued longest ago out of the
/// buffer and returns it; an empty buffer stays as it is. The write cursor
/// does not move.
#[verifier::external_body]
pub(crate) fn ring_dequeue(ring: &mut ConstGenericRingBuffer<u64, CAPACITY>) -> (item: Option<u64>)
    ensures
        ring_written(*final(ring)) == ring_written(*old(ring)),
        ring_items(*old(ring)).len() == 0 ==> item.is_none() && ring_items(*final(ring))
            == ring_items(*old(ring)),
        ring_items(*old(ring)).len() > 0 ==> item == Some(ring_items(*old(ring)).first())
            && ring_items(*final(ring)) == ring_items(*old(ring)).drop_first(),
{
    ring.dequeue()
}

/// `RingBuffer::enqueue`: appends an item. A full buffer first gives up the
/// item enqueued longest ago, which is returned. The write cursor goes up by
/// one, so it must not stand at the largest `usize`.
#[verifier::external_body]
pub(crate) fn ring_enqueue(ring: &mut ConstGenericRingBuffer<u64, CAPACITY>, value: u64) -> (dropped:
    Option<u64>)
    requires
        ring_written(*old(ring)) < usize::MAX,
    ensures
        ring_written(*final(ring)) == ring_written(*old(ring)) + 1,
        ring_items(*old(ring)).len() == CAPACITY ==> dropped == Some(
            ring_items(*old(ring)).first(),
        ) && ring_items(*final(ring)) == ring_items(*old(ring)).drop_first().push(value),
        ring_items(*old(ring)).len() != CAPACITY ==> dropped.is_none() && ring_items(*final(ring))
            == ring_items(*old(ring)).push(value),
{
    ring.enqueue(value)
}

/// `RingBuffer::to_vec`: a copy of the items, the one enqueued longest ago
/// first.
#[verifier::external_body]
pub(crate) fn ring_to_vec(ring: &ConstGenericRingBuffer<u64, CAPACITY>) -> (items: Vec<u64>)
    ensures
        items@ == ring_items(*ring),
{
    ring.to_vec()
}

} // verus!
