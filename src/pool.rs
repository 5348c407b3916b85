//! Pools that recycle frames of one shape and raw byte buffers.
use crate::frame::{data_size, valid_shape, zero_duration, zeroed, Frame, FrameMetadata};
use crate::traits::PixelFormat;
use std::collections::VecDeque;
use vstd::prelude::*;

verus! {

/// Whether `f` is a fresh frame of the given shape: zero-filled payload and
/// default metadata.
pub open spec fn fresh_frame(f: Frame, width: u32, height: u32, format: PixelFormat) -> bool {
    &&& f.width == width
    &&& f.height == height
    &&& f.format == format
    &&& f.data@ == Seq::new(data_size(width, height, format), |i: int| 0u8)
    &&& f.metadata == FrameMetadata::spec_default()
}

/// A pool of ready-made frames of one fixed shape.
pub struct FramePool {
    capacity: usize,
    width: u32,
    height: u32,
    format: PixelFormat,
    available: VecDeque<Frame>,
    in_use_count: usize,
}

impl FramePool {
    /// Frames ready to hand out, in the order they will be handed out.
    pub closed spec fn free_frames(&self) -> Seq<Frame> {
        self.available@
    }

    pub closed spec fn spec_capacity(&self) -> nat {
        self.capacity as nat
    }

    pub closed spec fn spec_in_use(&self) -> nat {
        self.in_use_count as nat
    }

    pub closed spec fn spec_width(&self) -> u32 {
        self.width
    }

    pub closed spec fn spec_height(&self) -> u32 {
        self.height
    }

    pub closed spec fn spec_format(&self) -> PixelFormat {
        self.format
    }

    /// Whether `f` has the pool's shape.
    pub open spec fn accepts(&self, f: Frame) -> bool {
        f.width == self.spec_width() && f.height == self.spec_height() && f.format
            == self.spec_format()
    }

    /// Frames free plus frames handed out equal the capacity.
    pub open spec fn conserved(&self) -> bool {
        self.free_frames().len() + self.spec_in_use() == self.spec_capacity()
    }

    /// What `get` does: the first free frame leaves the pool, with its
    /// metadata reset, and counts as in use; with no free frame nothing
    /// happens.
    pub open spec fn acquired(pre: FramePool, post: FramePool, r: Option<Frame>) -> bool {
        &&& post.spec_capacity() == pre.spec_capacity()
        &&& post.spec_width() == pre.spec_width()
        &&& post.spec_height() == pre.spec_height()
        &&& post.spec_format() == pre.spec_format()
        &&& if pre.free_frames().len() == 0 {
            &&& r is None
            &&& post.free_frames() == pre.free_frames()
            &&& post.spec_in_use() == pre.spec_in_use()
        } else {
            let f = pre.free_frames()[0];
            &&& r is Some
            &&& r.unwrap().width == f.width
            &&& r.unwrap().height == f.height
            &&& r.unwrap().format == f.format
            &&& r.unwrap().data == f.data
            &&& r.unwrap().metadata == FrameMetadata::spec_default()
            &&& post.free_frames() == pre.free_frames().drop_first()
            &&& post.spec_in_use() == if pre.spec_in_use() == usize::MAX {
                pre.spec_in_use()
            } else {
                pre.spec_in_use() + 1
            }
        }
    }

    /// What `return_frame` does: a frame of the pool's shape goes to the back
    /// of the free frames and one frame fewer counts as in use; a frame of
    /// another shape is dropped and nothing changes.
    pub open spec fn released(pre: FramePool, post: FramePool, f: Frame) -> bool {
        &&& post.spec_capacity() == pre.spec_capacity()
        &&& post.spec_width() == pre.spec_width()
        &&& post.spec_height() == pre.spec_height()
        &&& post.spec_format() == pre.spec_format()
        &&& if pre.accepts(f) {
            &&& post.free_frames() == pre.free_frames().push(f)
            &&& post.spec_in_use() == if pre.spec_in_use() == 0 {
                0
            } else {
                (pre.spec_in_use() - 1) as nat
            }
        } else {
            &&& post.free_frames() == pre.free_frames()
            &&& post.spec_in_use() == pre.spec_in_use()
        }
    }

    /// Creates a pool of `capacity` fresh frames of the given shape. When the
    /// shape is not a valid frame shape no frame can be made and the pool
    /// starts empty.
    pub fn new(capacity: usize, width: u32, height: u32, format: PixelFormat) -> (r: Self)
        ensures
            r.spec_capacity() == capacity,
            r.spec_width() == width,
            r.spec_height() == height,
            r.spec_format() == format,
            r.spec_in_use() == 0,
            valid_shape(width, height, format) ==> r.free_frames().len() == capacity,
            !valid_shape(width, height, format) ==> r.free_frames().len() == 0,
            forall|i: int|
                0 <= i < r.free_frames().len() ==> fresh_frame(
                    #[trigger] r.free_frames()[i],
                    width,
                    height,
                    format,
                ),
    {
        let mut available: VecDeque<Frame> = VecDeque::new();
        let mut i: usize = 0;
        while i < capacity
            invariant
                i <= capacity,
                valid_shape(width, height, format) ==> available@.len() == i,
                !valid_shape(width, height, format) ==> available@.len() == 0,
                forall|j: int|
                    0 <= j < available@.len() ==> fresh_frame(
                        #[trigger] available@[j],
                        width,
                        height,
                        format,
                    ),
            decreases capacity - i,
        {
            match Frame::new(width, height, format, zero_duration()) {
                Ok(frame) => {
                    available.push_back(frame);
                },
                Err(_) => {},
            }
            i = i + 1;
        }
        FramePool { capacity, width, height, format, available, in_use_count: 0 }
    }

    /// Hands out the first free frame, its timestamp and metadata reset, or
    /// `None` when every frame is in use.
    pub fn get(&mut self) -> (r: Option<Frame>)
        ensures
            FramePool::acquired(*old(self), *final(self), r),
    {
        match self.available.pop_front() {
            Some(mut frame) => {
                frame.timestamp = zero_duration();
                frame.metadata = FrameMetadata::default();
                self.in_use_count = self.in_use_count.saturating_add(1);
                Some(frame)
            },
            None => None,
        }
    }

    /// Takes a frame back. Only a frame of the pool's shape is kept; any
    /// other frame is dropped.
    pub fn return_frame(&mut self, frame: Frame)
        ensures
            FramePool::released(*old(self), *final(self), frame),
    {
        if frame.width == self.width && frame.height == self.height && frame.format == self.format {
            self.available.push_back(frame);
            self.in_use_count = self.in_use_count.saturating_sub(1);
        }
    }

    /// Sets a new capacity. Growing adds fresh frames for the difference;
    /// shrinking drops free frames from the back, at most the difference and
    /// never a frame in use.
    pub fn resize(&mut self, new_capacity: usize)
        ensures
            final(self).spec_capacity() == new_capacity,
            final(self).spec_in_use() == old(self).spec_in_use(),
            final(self).spec_width() == old(self).spec_width(),
            final(self).spec_height() == old(self).spec_height(),
            final(self).spec_format() == old(self).spec_format(),
            new_capacity >= old(self).spec_capacity() ==> {
                let added = if valid_shape(
                    old(self).spec_width(),
                    old(self).spec_height(),
                    old(self).spec_format(),
                ) {
                    new_capacity - old(self).spec_capacity()
                } else {
                    0
                };
                &&& final(self).free_frames().len() == old(self).free_frames().len() + added
                &&& final(self).free_frames().subrange(0, old(self).free_frames().len() as int)
                    == old(self).free_frames()
                &&& forall|i: int|
                    old(self).free_frames().len() <= i < final(self).free_frames().len()
                        ==> fresh_frame(
                        #[trigger] final(self).free_frames()[i],
                        old(self).spec_width(),
                        old(self).spec_height(),
                        old(self).spec_format(),
                    )
            },
            new_capacity < old(self).spec_capacity() ==> {
                let removed = old(self).spec_capacity() - new_capacity;
                let kept = if old(self).free_frames().len() >= removed {
                    old(self).free_frames().len() - removed
                } else {
                    0
                };
                final(self).free_frames() == old(self).free_frames().subrange(0, kept)
            },
    {
        let ghost start = self.available@;
        if new_capacity > self.capacity {
            let additional = new_capacity - self.capacity;
            let mut i: usize = 0;
            while i < additional
                invariant
                    i <= additional,
                    self.available@.subrange(0, start.len() as int) == start,
                    start.len() <= self.available@.len(),
                    valid_shape(self.width, self.height, self.format) ==> self.available@.len()
                        == start.len() + i,
                    !valid_shape(self.width, self.height, self.format) ==> self.available@.len()
                        == start.len(),
                    forall|j: int|
                        start.len() <= j < self.available@.len() ==> fresh_frame(
                            #[trigger] self.available@[j],
                            self.width,
                            self.height,
                            self.format,
                        ),
                    self.width == old(self).width,
                    self.height == old(self).height,
                    self.format == old(self).format,
                    self.capacity == old(self).capacity,
                    self.in_use_count == old(self).in_use_count,
                    start == old(self).available@,
                decreases additional - i,
            {
                let ghost before = self.available@;
                match Frame::new(self.width, self.height, self.format, zero_duration()) {
                    Ok(frame) => {
                        self.available.push_back(frame);
                        assert(self.available@.subrange(0, start.len() as int)
                            =~= before.subrange(0, start.len() as int));
                    },
                    Err(_) => {},
                }
                i = i + 1;
            }
        } else if new_capacity < self.capacity {
            let to_remove = self.capacity - new_capacity;
            let mut i: usize = 0;
            while i < to_remove && self.available.len() > 0
                invariant
                    i <= to_remove,
                    to_remove == old(self).capacity - new_capacity,
                    start == old(self).available@,
                    self.available@ == start.subrange(
                        0,
                        if start.len() >= i {
                            start.len() - i
                        } else {
                            0
                        },
                    ),
                    self.width == old(self).width,
                    self.height == old(self).height,
                    self.format == old(self).format,
                    self.capacity == old(self).capacity,
                    self.in_use_count == old(self).in_use_count,
                decreases to_remove - i,
            {
                self.available.pop_back();
                i = i + 1;
            }
            proof {
                let kept = if start.len() >= to_remove {
                    start.len() - to_remove
                } else {
                    0
                };
                if self.available@.len() == 0 {
                    assert(self.available@ =~= start.subrange(0, kept));
                }
            }
        }
        self.capacity = new_capacity;
        proof {
            if new_capacity == old(self).capacity {
                assert(start.subrange(0, start.len() as int) =~= start);
            }
        }
    }

    /// The pool's capacity.
    pub fn capacity(&self) -> (r: usize)
        ensures
            r == self.spec_capacity(),
    {
        self.capacity
    }

    /// Number of free frames.
    pub fn available(&self) -> (r: usize)
        ensures
            r == self.free_frames().len(),
    {
        self.available.len()
    }

    /// Number of frames handed out and not yet returned.
    pub fn in_use(&self) -> (r: usize)
        ensures
            r == self.spec_in_use(),
    {
        self.in_use_count
    }
}

/// Relies on `Vec::capacity`: a vector has room for at least the elements it
/// holds.
#[verifier::external_body]
fn room_of(buffer: &Vec<u8>) -> (r: usize)
    ensures
        r >= buffer@.len(),
{
    buffer.capacity()
}

/// `s` cut to `n` bytes, or extended to `n` with zero bytes.
pub open spec fn resized(s: Seq<u8>, n: nat) -> Seq<u8> {
    if n <= s.len() {
        s.subrange(0, n as int)
    } else {
        s + Seq::new((n - s.len()) as nat, |i: int| 0u8)
    }
}

/// Bytes in one mebibyte.
pub const POOL_MB: usize = 1048576;

/// Most free buffers a memory pool keeps.
pub const MAX_FREE_BUFFERS: usize = 100;

/// Counters of a memory pool.
pub struct PoolStats {
    pub allocations: u64,
    pub deallocations: u64,
    pub pool_hits: u64,
    pub pool_misses: u64,
}

/// A pool of raw byte buffers under a budget in bytes.
pub struct MemoryPool {
    budget_bytes: usize,
    allocated_bytes: usize,
    available_buffers: Vec<Vec<u8>>,
    stats: PoolStats,
}

impl MemoryPool {
    /// The budget, in bytes.
    pub closed spec fn budget(&self) -> nat {
        self.budget_bytes as nat
    }

    /// Bytes charged to the budget by fresh allocations so far.
    pub closed spec fn charged(&self) -> nat {
        self.allocated_bytes as nat
    }

    /// Free buffers, in the pool's order.
    pub closed spec fn free_buffers(&self) -> Seq<Vec<u8>> {
        self.available_buffers@
    }

    pub closed spec fn spec_stats(&self) -> (u64, u64, u64, u64) {
        (self.stats.allocations, self.stats.deallocations, self.stats.pool_hits, self.stats.pool_misses)
    }

    pub closed spec fn wf(&self) -> bool {
        self.allocated_bytes <= self.budget_bytes
    }

    /// What `allocate(size)` does, with `r` its result. A free buffer with
    /// room for `size` bytes leaves the pool cut or zero-extended to `size`
    /// (a pool hit); otherwise, when `size` more bytes fit what is left of
    /// the budget, a fresh zeroed buffer is made and charged (a pool miss);
    /// otherwise nothing is handed out. A free buffer that already holds
    /// `size` bytes or more is always reused.
    pub open spec fn allocated(pre: MemoryPool, post: MemoryPool, size: usize, r: Option<Vec<u8>>) -> bool {
        &&& post.budget() == pre.budget()
        &&& post.spec_stats().0 == crate::cache::bumped(pre.spec_stats().0)
        &&& post.spec_stats().1 == pre.spec_stats().1
        &&& (r matches Some(b) ==> b@.len() == size)
        &&& ((exists|i: int|
            0 <= i < pre.free_buffers().len() && post.free_buffers() == pre.free_buffers().update(
                i,
                pre.free_buffers().last(),
            ).drop_last() && (r matches Some(b) && b@ == resized(
                pre.free_buffers()[i]@,
                size as nat,
            )) && post.charged() == pre.charged() && post.spec_stats().2 == crate::cache::bumped(
                pre.spec_stats().2,
            ) && post.spec_stats().3 == pre.spec_stats().3) || (post.free_buffers()
            == pre.free_buffers() && post.spec_stats().2 == pre.spec_stats().2 && (forall|i: int|
            0 <= i < pre.free_buffers().len() ==> (#[trigger] pre.free_buffers()[i])@.len() < size)
            && if pre.charged() + size <= pre.budget() {
            &&& (r matches Some(b) && b@ == Seq::new(size as nat, |j: int| 0u8))
            &&& post.charged() == pre.charged() + size
            &&& post.spec_stats().3 == crate::cache::bumped(pre.spec_stats().3)
        } else {
            &&& r is None
            &&& post.charged() == pre.charged()
            &&& post.spec_stats().3 == pre.spec_stats().3
        }))
    }

    /// What `deallocate(buffer)` does: the buffer joins the free buffers
    /// unless the pool already keeps its most, and one more return is
    /// counted; the budget and the charge stay.
    pub open spec fn deallocated(pre: MemoryPool, post: MemoryPool, buffer: Vec<u8>) -> bool {
        &&& post.budget() == pre.budget()
        &&& post.charged() == pre.charged()
        &&& post.spec_stats() == (
            pre.spec_stats().0,
            crate::cache::bumped(pre.spec_stats().1),
            pre.spec_stats().2,
            pre.spec_stats().3,
        )
        &&& post.free_buffers() == if pre.free_buffers().len() < MAX_FREE_BUFFERS {
            pre.free_buffers().push(buffer)
        } else {
            pre.free_buffers()
        }
    }

    /// Creates an empty pool with a budget of `total_size_mb` mebibytes.
    pub fn new(total_size_mb: usize) -> (r: Self)
        requires
            total_size_mb * POOL_MB <= usize::MAX,
        ensures
            r.wf(),
            r.budget() == total_size_mb * POOL_MB,
            r.charged() == 0,
            r.free_buffers() == Seq::<Vec<u8>>::empty(),
            r.spec_stats() == (0u64, 0u64, 0u64, 0u64),
    {
        MemoryPool::with_budget_bytes(total_size_mb * POOL_MB)
    }

    /// Creates an empty pool with a budget of `budget_bytes` bytes.
    pub fn with_budget_bytes(budget_bytes: usize) -> (r: Self)
        ensures
            r.wf(),
            r.budget() == budget_bytes,
            r.charged() == 0,
            r.free_buffers() == Seq::<Vec<u8>>::empty(),
            r.spec_stats() == (0u64, 0u64, 0u64, 0u64),
    {
        MemoryPool {
            budget_bytes,
            allocated_bytes: 0,
            available_buffers: Vec::new(),
            stats: PoolStats { allocations: 0, deallocations: 0, pool_hits: 0, pool_misses: 0 },
        }
    }

    /// Hands out a buffer of exactly `size` bytes, or `None`, in which case
    /// the caller allocates outside the pool; see `allocated`.
    pub fn allocate(&mut self, size: usize) -> (r: Option<Vec<u8>>)
        requires
            old(self).wf(),
        ensures
            final(self).wf(),
            MemoryPool::allocated(*old(self), *final(self), size, r),
    {
        self.stats.allocations = self.stats.allocations.saturating_add(1);
        let mut i: usize = 0;
        let n = self.available_buffers.len();
        while i < n
            invariant
                n == self.available_buffers@.len(),
                i <= n,
                forall|j: int| 0 <= j < i ==> (#[trigger] self.available_buffers@[j])@.len() < size,
                self.available_buffers@ == old(self).available_buffers@,
                self.budget_bytes == old(self).budget_bytes,
                self.allocated_bytes == old(self).allocated_bytes,
                self.allocated_bytes <= self.budget_bytes,
                self.stats.allocations == crate::cache::bumped(old(self).stats.allocations),
                self.stats.deallocations == old(self).stats.deallocations,
                self.stats.pool_hits == old(self).stats.pool_hits,
                self.stats.pool_misses == old(self).stats.pool_misses,
            decreases n - i,
        {
            if room_of(&self.available_buffers[i]) >= size {
                let mut buffer = self.available_buffers.swap_remove(i);
                let ghost before = buffer@;
                buffer.resize(size, 0u8);
                assert(buffer@ =~= resized(before, size as nat));
                self.stats.pool_hits = self.stats.pool_hits.saturating_add(1);
                return Some(buffer);
            }
            i = i + 1;
        }
        if size <= self.budget_bytes - self.allocated_bytes {
            self.allocated_bytes = self.allocated_bytes + size;
            self.stats.pool_misses = self.stats.pool_misses.saturating_add(1);
            Some(zeroed(size))
        } else {
            None
        }
    }

    /// Takes a buffer back; see `deallocated`.
    pub fn deallocate(&mut self, buffer: Vec<u8>)
        requires
            old(self).wf(),
        ensures
            final(self).wf(),
            MemoryPool::deallocated(*old(self), *final(self), buffer),
    {
        self.stats.deallocations = self.stats.deallocations.saturating_add(1);
        if self.available_buffers.len() < MAX_FREE_BUFFERS {
            self.available_buffers.push(buffer);
        }
    }

    /// Allocations requested, buffers returned and pool hits.
    pub fn stats(&self) -> (r: (u64, u64, u64))
        ensures
            r == (self.spec_stats().0, self.spec_stats().1, self.spec_stats().2),
    {
        (self.stats.allocations, self.stats.deallocations, self.stats.pool_hits)
    }

    /// Number of free buffers kept.
    pub fn free_count(&self) -> (r: usize)
        ensures
            r == self.free_buffers().len(),
    {
        self.available_buffers.len()
    }
}

/// A fresh pool of a valid shape has every frame free.
pub proof fn lemma_new_pool_conserved(p: FramePool)
    requires
        valid_shape(p.spec_width(), p.spec_height(), p.spec_format()),
        p.spec_in_use() == 0,
        p.free_frames().len() == p.spec_capacity(),
    ensures
        p.conserved(),
{
}

/// Handing out a frame, or taking back a frame of the pool's shape while
/// some frame is out, keeps the free frames plus the frames in use equal to
/// the capacity; a frame of another shape changes nothing.
pub proof fn lemma_pool_conservation(pre: FramePool, post: FramePool, r: Option<Frame>, f: Frame)
    requires
        pre.conserved(),
    ensures
        FramePool::acquired(pre, post, r) ==> post.conserved(),
        FramePool::released(pre, post, f) && (pre.accepts(f) ==> pre.spec_in_use() > 0)
            ==> post.conserved(),
{
}

/// With every frame handed out, a request gets nothing; once one frame
/// comes back, exactly one request succeeds and the next one gets nothing
/// again.
pub proof fn lemma_pool_exhaustion(
    empty: FramePool,
    refused: FramePool,
    r0: Option<Frame>,
    f: Frame,
    refilled: FramePool,
    taken: FramePool,
    r1: Option<Frame>,
    drained: FramePool,
    r2: Option<Frame>,
)
    requires
        empty.free_frames().len() == 0,
        FramePool::acquired(empty, refused, r0),
        FramePool::released(empty, refilled, f),
        empty.accepts(f),
        FramePool::acquired(refilled, taken, r1),
        FramePool::acquired(taken, drained, r2),
    ensures
        r0 is None,
        refused.free_frames().len() == 0,
        r1 is Some,
        r2 is None,
        drained.free_frames().len() == 0,
{
    assert(refilled.free_frames().len() == 1);
    assert(taken.free_frames().len() == 0);
}

/// One event of workers that share a pool: a request, with what it got, or
/// the return of a frame that a request got.
pub enum PoolEvent {
    Got(Option<Frame>),
    Returned(Frame),
}

/// Whether `post` follows from `pre` by `e`.
pub open spec fn pool_step(pre: FramePool, post: FramePool, e: PoolEvent) -> bool {
    match e {
        PoolEvent::Got(r) => FramePool::acquired(pre, post, r),
        PoolEvent::Returned(f) => FramePool::released(pre, post, f) && pre.accepts(f)
            && pre.spec_in_use() > 0,
    }
}

/// Number of requests in `events` that got a frame.
pub open spec fn count_got(events: Seq<PoolEvent>) -> nat
    decreases events.len(),
{
    if events.len() == 0 {
        0
    } else {
        count_got(events.drop_last()) + if events.last() matches PoolEvent::Got(Some(_)) {
            1nat
        } else {
            0nat
        }
    }
}

/// Number of returns in `events`.
pub open spec fn count_returned(events: Seq<PoolEvent>) -> nat
    decreases events.len(),
{
    if events.len() == 0 {
        0
    } else {
        count_returned(events.drop_last()) + if events.last() is Returned {
            1nat
        } else {
            0nat
        }
    }
}

/// Along any sequence of requests and returns of frames that requests got,
/// the free frames plus the frames in use stay equal to the capacity, and
/// each count moves by the number of frames got and returned.
pub proof fn lemma_pool_trace(states: Seq<FramePool>, events: Seq<PoolEvent>)
    requires
        states.len() == events.len() + 1,
        states[0].conserved(),
        forall|i: int| 0 <= i < events.len() ==> pool_step(states[i], states[i + 1], #[trigger] events[i]),
    ensures
        states.last().conserved(),
        states.last().spec_capacity() == states[0].spec_capacity(),
        states.last().free_frames().len() + count_got(events) == states[0].free_frames().len()
            + count_returned(events),
        states.last().spec_in_use() + count_returned(events) == states[0].spec_in_use()
            + count_got(events),
    decreases events.len(),
{
    if events.len() > 0 {
        let n = events.len() - 1;
        let s2 = states.drop_last();
        let e2 = events.drop_last();
        assert forall|i: int| 0 <= i < e2.len() implies pool_step(s2[i], s2[i + 1], #[trigger] e2[i]) by {
            assert(pool_step(states[i], states[i + 1], events[i]));
        }
        lemma_pool_trace(s2, e2);
        assert(pool_step(states[n], states[n + 1], events[n]));
        assert(s2.last() == states[n]);
        assert(states.last() == states[n + 1]);
    }
}

/// Workers that share a pool, each returning every frame it got, leave it
/// as they found it once all of them are done: the same free count and the
/// same in-use count, with the two still adding up to the capacity.
pub proof fn lemma_balanced_workers_restore(states: Seq<FramePool>, events: Seq<PoolEvent>)
    requires
        states.len() == events.len() + 1,
        states[0].conserved(),
        forall|i: int| 0 <= i < events.len() ==> pool_step(states[i], states[i + 1], #[trigger] events[i]),
        count_got(events) == count_returned(events),
    ensures
        states.last().free_frames().len() == states[0].free_frames().len(),
        states.last().spec_in_use() == states[0].spec_in_use(),
        states.last().spec_capacity() == states[0].spec_capacity(),
        states.last().conserved(),
{
    lemma_pool_trace(states, events);
}

} // verus!
