use vstd::prelude::*;

use bytes::BytesMut;
use crossbeam::queue::SegQueue;

verus! {

#[verifier::external_type_specification]
#[verifier::external_body]
pub struct ExBytesMut(BytesMut);

#[verifier::external_type_specification]
#[verifier::external_body]
#[verifier::reject_recursive_types(T)]
pub struct ExSegQueue<T>(SegQueue<T>);

/// The bytes that a `BytesMut` holds.
pub uninterp spec fn buffer_bytes(b: BytesMut) -> Seq<u8>;

/// How many bytes a `BytesMut` can hold without reallocating.
pub uninterp spec fn buffer_capacity(b: BytesMut) -> nat;

/// Relies on BytesMut::with_capacity: an empty buffer that can hold at least
/// `capacity` bytes.
pub assume_specification[ BytesMut::with_capacity ](capacity: usize) -> (r: BytesMut)
    ensures
        buffer_bytes(r).len() == 0,
        buffer_capacity(r) >= capacity,
;

/// Relies on BytesMut::capacity: reports the buffer's capacity.
pub assume_specification[ BytesMut::capacity ](b: &BytesMut) -> (r: usize)
    ensures
        r == buffer_capacity(*b),
;

/// Relies on BytesMut::clear: removes all data and keeps the capacity.
pub assume_specification[ BytesMut::clear ](b: &mut BytesMut)
    ensures
        buffer_bytes(*final(b)).len() == 0,
        buffer_capacity(*final(b)) == buffer_capacity(*old(b)),
;

/// The buffers that a queue holds, oldest first.
pub uninterp spec fn queue_items(q: SegQueue<BytesMut>) -> Seq<BytesMut>;

/// Relies on SegQueue::new: an empty queue.
#[verifier::external_body]
fn queue_new() -> (r: SegQueue<BytesMut>)
    ensures
        queue_items(r) == Seq::<BytesMut>::empty(),
{
    SegQueue::new()
}

/// Relies on SegQueue::push_mut: with exclusive access, `value` joins the
/// back of the queue.
#[verifier::external_body]
fn queue_push_mut(q: &mut SegQueue<BytesMut>, value: BytesMut)
    ensures
        queue_items(*final(q)) == queue_items(*old(q)).push(value),
{
    q.push_mut(value);
}

/// Relies on SegQueue::push: enqueues through a shared reference, so other
/// holders of the queue may observe it at any time; nothing is stated of the contents.
pub assume_specification<T>[ SegQueue::<T>::push ](q: &SegQueue<T>, value: T);

/// Relies on SegQueue::pop: dequeues one element if the queue holds any.
pub assume_specification<T>[ SegQueue::<T>::pop ](q: &SegQueue<T>) -> (r: Option<T>);

/// A pool of fixed-size byte buffers shared by all connections.
///
/// Every buffer that goes back into the queue has been cleared and still has
/// at least `buffer_size` bytes of capacity. The pool is not a hard cap: when it
/// runs dry a fresh buffer is allocated.
pub struct MemoryPool {
    pool: SegQueue<BytesMut>,
    buffer_size: usize,
    initial_buffers: usize,
    filled: Ghost<Seq<BytesMut>>,
}

/// Clears `buffer` and keeps it for reuse when its capacity still reaches
/// `buffer_size`; a buffer that has shrunk is given up.
pub fn recycle(buffer: BytesMut, buffer_size: usize) -> (r: Option<BytesMut>)
    ensures
        r is Some <==> buffer_capacity(buffer) >= buffer_size,
        r matches Some(b) ==> buffer_bytes(b).len() == 0 && buffer_capacity(b) == buffer_capacity(
            buffer,
        ),
{
    let mut buffer = buffer;
    buffer.clear();
    if buffer.capacity() >= buffer_size {
        Some(buffer)
    } else {
        None
    }
}

impl MemoryPool {
    /// The recorded count is the number of buffers the pool was filled with.
    #[verifier::type_invariant]
    spec fn filled_count_matches(&self) -> bool {
        self.initial_buffers == self.filled@.len()
    }

    pub closed spec fn spec_buffer_size(&self) -> usize {
        self.buffer_size
    }

    pub closed spec fn spec_initial_buffers(&self) -> usize {
        self.initial_buffers
    }

    /// The buffers the pool was filled with when it was made, in order. A
    /// record of construction: the shared queue changes afterwards.
    pub closed spec fn spec_filled(&self) -> Seq<BytesMut> {
        self.filled@
    }

    /// A pool of `total_size / buffer_size` buffers of `buffer_size` bytes each.
    pub fn new(total_size: usize, buffer_size: usize) -> (r: Self)
        requires
            buffer_size > 0,
        ensures
            r.spec_buffer_size() == buffer_size,
            r.spec_initial_buffers() == total_size / buffer_size,
            r.spec_filled().len() == total_size / buffer_size,
            forall|k: int|
                0 <= k < r.spec_filled().len() ==> buffer_bytes(#[trigger] r.spec_filled()[k]).len()
                    == 0 && buffer_capacity(r.spec_filled()[k]) >= buffer_size,
    {
        let mut pool = queue_new();
        let num_buffers = total_size / buffer_size;
        let mut i: usize = 0;
        while i < num_buffers
            invariant
                0 <= i <= num_buffers,
                queue_items(pool).len() == i,
                forall|k: int|
                    0 <= k < i ==> buffer_bytes(#[trigger] queue_items(pool)[k]).len() == 0
                        && buffer_capacity(queue_items(pool)[k]) >= buffer_size,
            decreases num_buffers - i,
        {
            queue_push_mut(&mut pool, BytesMut::with_capacity(buffer_size));
            i = i + 1;
        }
        let ghost filled = queue_items(pool);
        MemoryPool { pool, buffer_size, initial_buffers: num_buffers, filled: Ghost(filled) }
    }

    /// The configured size of one buffer.
    pub fn buffer_size(&self) -> (r: usize)
        ensures
            r == self.spec_buffer_size(),
    {
        self.buffer_size
    }

    /// How many buffers the pool was filled with when it was made.
    pub fn initial_buffers(&self) -> (r: usize)
        ensures
            r == self.spec_initial_buffers(),
            r == self.spec_filled().len(),
    {
        proof {
            use_type_invariant(self);
        }
        self.initial_buffers
    }

    /// An empty buffer of at least the configured size: a queued one when there
    /// is one, a fresh one otherwise. Never waits.
    pub fn acquire(&self) -> (r: BytesMut)
        ensures
            buffer_bytes(r).len() == 0,
            buffer_capacity(r) >= self.spec_buffer_size(),
    {
        match self.pool.pop() {
            Some(buffer) => match recycle(buffer, self.buffer_size) {
                Some(b) => b,
                None => BytesMut::with_capacity(self.buffer_size),
            },
            None => BytesMut::with_capacity(self.buffer_size),
        }
    }

    /// Hands `buffer` back: it is cleared and queued again, unless its capacity
    /// has fallen below the configured size, in which case it is dropped.
    pub fn release(&self, buffer: BytesMut) {
        match recycle(buffer, self.buffer_size) {
            Some(b) => self.pool.push(b),
            None => {},
        }
    }
}

} // verus!
