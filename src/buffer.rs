//! The frame buffer: a sequential ring of the most recent frames in front of
//! an LRU cache, a raw-buffer pool, and the metrics that describe them. The
//! decisions of ingestion, lookups and prefetching are made here; moving
//! frames and requests between tasks is left to the caller.
use crate::cache::{
    all_entries, bumped, evict_for, inserted, lemma_inserted_satisfies, lemma_lookup_satisfies,
    lemma_remove_key_satisfies, keys_unique, lemma_evict_keeps_last, lemma_lookup_refresh,
    lemma_lookup_unique, lemma_remove_key_push_other, lookup, remove_key, FrameCache, FramePayload,
    KeyView,
};
use crate::frame::zeroed;
use crate::pool::MemoryPool;
use std::collections::VecDeque;
use std::sync::Arc;
use vstd::prelude::*;

verus! {

/// Source identifier under which the buffer caches its frames.
pub const STREAM_SOURCE: &'static str = "stream";

/// Pixel format of a buffered frame.
#[derive(Debug, Clone, Copy, PartialEq, Eq, Structural)]
pub enum PixelFormat {
    RGB24,
    RGBA32,
    YUV420P,
    YUV422P,
    YUV444P,
}

impl PixelFormat {
    pub open spec fn spec_bytes_per_pixel(&self) -> nat {
        match self {
            PixelFormat::RGB24 => 3,
            PixelFormat::RGBA32 => 4,
            PixelFormat::YUV420P => 3,
            PixelFormat::YUV422P => 4,
            PixelFormat::YUV444P => 6,
        }
    }

    /// Bytes per pixel, rounded up for the subsampled formats.
    pub fn bytes_per_pixel(&self) -> (r: usize)
        ensures
            r == self.spec_bytes_per_pixel(),
    {
        match self {
            PixelFormat::RGB24 => 3,
            PixelFormat::RGBA32 => 4,
            PixelFormat::YUV420P => 3,
            PixelFormat::YUV422P => 4,
            PixelFormat::YUV444P => 6,
        }
    }
}

/// A decoded frame in the buffer. The payload is shared between handles.
#[derive(Clone, Debug)]
pub struct Frame {
    pub frame_number: u64,
    pub pts: i64,
    pub data: Arc<Vec<u8>>,
    pub width: u32,
    pub height: u32,
    pub format: PixelFormat,
}

impl Frame {
    /// Another handle on the same frame; the payload is shared, not copied.
    pub fn share(&self) -> (r: Frame)
        ensures
            r == *self,
    {
        Frame {
            frame_number: self.frame_number,
            pts: self.pts,
            data: Arc::clone(&self.data),
            width: self.width,
            height: self.height,
            format: self.format,
        }
    }
}

impl FramePayload for Frame {
    open spec fn payload_bytes(&self) -> nat {
        self.data@.len()
    }

    fn byte_len(&self) -> (r: usize) {
        self.data.len()
    }
}

/// Settings of a frame buffer.
#[derive(Clone, Copy, Debug)]
pub struct FrameBufferConfig {
    /// Frames the ring holds.
    pub ring_buffer_size: usize,
    /// Budget of the cache, in mebibytes.
    pub cache_size: usize,
    /// Frames requested ahead of each prefetch request.
    pub prefetch_count: usize,
    /// Budget of the raw-buffer pool, in bytes.
    pub memory_pool_size: usize,
    /// Capacity of the channel that brings decoded frames.
    pub channel_capacity: usize,
}

impl Default for FrameBufferConfig {
    fn default() -> (r: Self)
        ensures
            r.ring_buffer_size == 30,
            r.cache_size == 100,
            r.prefetch_count == 10,
            r.memory_pool_size == 500 * 1024 * 1024,
            r.channel_capacity == 50,
    {
        FrameBufferConfig {
            ring_buffer_size: 30,
            cache_size: 100,
            prefetch_count: 10,
            memory_pool_size: 500 * 1024 * 1024,
            channel_capacity: 50,
        }
    }
}

/// Counters of a frame buffer, as one snapshot.
#[derive(Clone, Copy, Debug, PartialEq, Eq, Structural)]
pub struct FrameBufferMetrics {
    pub frames_processed: u64,
    pub cache_hits: u64,
    pub cache_misses: u64,
    pub ring_buffer_hits: u64,
    pub ring_buffer_misses: u64,
    pub prefetch_requests: u64,
    pub pool_allocations: u64,
    pub direct_allocations: u64,
}

impl FrameBufferMetrics {
    pub open spec fn zero() -> FrameBufferMetrics {
        FrameBufferMetrics {
            frames_processed: 0,
            cache_hits: 0,
            cache_misses: 0,
            ring_buffer_hits: 0,
            ring_buffer_misses: 0,
            prefetch_requests: 0,
            pool_allocations: 0,
            direct_allocations: 0,
        }
    }

    /// No counter of `self` is above the same counter of `later`.
    pub open spec fn le(self, later: FrameBufferMetrics) -> bool {
        &&& self.frames_processed <= later.frames_processed
        &&& self.cache_hits <= later.cache_hits
        &&& self.cache_misses <= later.cache_misses
        &&& self.ring_buffer_hits <= later.ring_buffer_hits
        &&& self.ring_buffer_misses <= later.ring_buffer_misses
        &&& self.prefetch_requests <= later.prefetch_requests
        &&& self.pool_allocations <= later.pool_allocations
        &&& self.direct_allocations <= later.direct_allocations
    }
}

impl Default for FrameBufferMetrics {
    fn default() -> (r: Self)
        ensures
            r == FrameBufferMetrics::zero(),
    {
        FrameBufferMetrics {
            frames_processed: 0,
            cache_hits: 0,
            cache_misses: 0,
            ring_buffer_hits: 0,
            ring_buffer_misses: 0,
            prefetch_requests: 0,
            pool_allocations: 0,
            direct_allocations: 0,
        }
    }
}

/// Cache key of frame number `n`.
pub open spec fn stream_key(n: u64) -> KeyView {
    (STREAM_SOURCE@, n)
}

/// The first frame numbered `n` in `ring`.
pub open spec fn ring_find(ring: Seq<Frame>, n: u64) -> Option<Frame>
    decreases ring.len(),
{
    if ring.len() == 0 {
        None
    } else if ring[0].frame_number == n {
        Some(ring[0])
    } else {
        ring_find(ring.subrange(1, ring.len() as int), n)
    }
}

proof fn lemma_ring_first(ring: Seq<Frame>, n: u64, i: int)
    requires
        0 <= i < ring.len(),
        ring[i].frame_number == n,
        forall|j: int| 0 <= j < i ==> ring[j].frame_number != n,
    ensures
        ring_find(ring, n) == Some(ring[i]),
    decreases i,
{
    if i > 0 {
        lemma_ring_first(ring.subrange(1, ring.len() as int), n, i - 1);
    }
}

proof fn lemma_ring_none(ring: Seq<Frame>, n: u64)
    requires
        forall|j: int| 0 <= j < ring.len() ==> ring[j].frame_number != n,
    ensures
        ring_find(ring, n) == None::<Frame>,
    decreases ring.len(),
{
    if ring.len() > 0 {
        lemma_ring_none(ring.subrange(1, ring.len() as int), n);
    }
}

/// Whether a cache entry is stored under its own frame's number.
pub open spec fn keyed_by_number(e: (KeyView, Frame)) -> bool {
    e.0 == stream_key(e.1.frame_number)
}

proof fn lemma_ring_find_number(ring: Seq<Frame>, n: u64)
    ensures
        ring_find(ring, n) matches Some(f) ==> f.frame_number == n,
    decreases ring.len(),
{
    if ring.len() > 0 && ring[0].frame_number != n {
        lemma_ring_find_number(ring.subrange(1, ring.len() as int), n);
    }
}

/// Frames that lookups of `a..=b` find in `st`, in frame-number order.
pub open spec fn range_found(st: FrameBuffer, a: int, b: int) -> Seq<Frame>
    decreases b + 1 - a,
{
    if a > b || a < 0 || a > u64::MAX {
        Seq::empty()
    } else {
        let rest = range_found(st, a + 1, b);
        match st.peek(a as u64) {
            Some(f) => seq![f] + rest,
            None => rest,
        }
    }
}

/// Frame numbers of `a..=b` that lookups in `st` miss, in order.
pub open spec fn range_missed(st: FrameBuffer, a: int, b: int) -> Seq<u64>
    decreases b + 1 - a,
{
    if a > b || a < 0 || a > u64::MAX {
        Seq::empty()
    } else {
        let rest = range_missed(st, a + 1, b);
        match st.peek(a as u64) {
            Some(_) => rest,
            None => seq![a as u64] + rest,
        }
    }
}

/// When every frame a lookup finds carries the number it was looked up by,
/// the frames found over `a..=b` carry numbers in `a..=b`, strictly
/// ascending, so there are at most as many as numbers in the range.
pub proof fn lemma_range_sorted(st: FrameBuffer, a: int, b: int)
    requires
        forall|n: u64| #[trigger] st.peek(n) is Some ==> st.peek(n).unwrap().frame_number == n,
    ensures
        forall|i: int|
            0 <= i < range_found(st, a, b).len() ==> a <= (#[trigger] range_found(
                st,
                a,
                b,
            )[i]).frame_number <= b,
        forall|i: int, j: int|
            0 <= i < j < range_found(st, a, b).len() ==> (#[trigger] range_found(st, a, b)[i]).frame_number
                < (#[trigger] range_found(st, a, b)[j]).frame_number,
        range_found(st, a, b).len() <= if a <= b {
            b - a + 1
        } else {
            0
        },
    decreases b + 1 - a,
{
    if !(a > b || a < 0 || a > u64::MAX) {
        lemma_range_sorted(st, a + 1, b);
        let rest = range_found(st, a + 1, b);
        let r = range_found(st, a, b);
        if st.peek(a as u64) is Some {
            let f = st.peek(a as u64).unwrap();
            assert(r == seq![f] + rest);
            assert forall|i: int| 0 <= i < r.len() implies a <= (#[trigger] r[i]).frame_number <= b by {
                if i > 0 {
                    assert(r[i] == rest[i - 1]);
                }
            }
            assert forall|i: int, j: int| 0 <= i < j < r.len() implies (#[trigger] r[i]).frame_number
                < (#[trigger] r[j]).frame_number by {
                assert(r[j] == rest[j - 1]);
                if i > 0 {
                    assert(r[i] == rest[i - 1]);
                }
            }
        }
    }
}

/// Result of reading a range of frames: the frames found, and the prefetch
/// requests to send: each missed frame number, then the frame after the
/// range.
pub struct RangeRead {
    pub frames: Vec<Frame>,
    pub requests: Vec<u64>,
}

/// Follow-up requests for a prefetch request of frame `n`: the next `count`
/// frame numbers, as far as they exist.
pub fn prefetch_burst(n: u64, count: usize) -> (r: Vec<u64>)
    ensures
        r@ == Seq::new(
            if count as int <= u64::MAX - n {
                count as nat
            } else {
                (u64::MAX - n) as nat
            },
            |i: int| (n + i + 1) as u64,
        ),
{
    let mut r: Vec<u64> = Vec::new();
    let mut i: usize = 0;
    while i < count && (i as u64) < u64::MAX - n
        invariant
            i <= count,
            i <= u64::MAX - n,
            r@ == Seq::new(i as nat, |j: int| (n + j + 1) as u64),
        decreases count - i,
    {
        r.push(n + (i as u64) + 1);
        i = i + 1;
        assert(r@ =~= Seq::new(i as nat, |j: int| (n + j + 1) as u64));
    }
    assert(r@ =~= Seq::new(
        if count as int <= u64::MAX - n {
            count as nat
        } else {
            (u64::MAX - n) as nat
        },
        |j: int| (n + j + 1) as u64,
    ));
    r
}

/// A frame buffer: the ring, the cache, the raw-buffer pool and the
/// counters. Callers that share it across tasks hold it behind a lock.
pub struct FrameBuffer {
    config: FrameBufferConfig,
    ring: VecDeque<Frame>,
    cache: FrameCache<Frame>,
    memory_pool: MemoryPool,
    metrics: FrameBufferMetrics,
}

impl FrameBuffer {
    pub closed spec fn ring(&self) -> Seq<Frame> {
        self.ring@
    }

    pub closed spec fn ring_capacity(&self) -> nat {
        self.config.ring_buffer_size as nat
    }

    pub closed spec fn cache_entries(&self) -> Seq<(KeyView, Frame)> {
        self.cache.entries()
    }

    pub closed spec fn cache_capacity(&self) -> nat {
        self.cache.capacity()
    }

    pub closed spec fn counters(&self) -> FrameBufferMetrics {
        self.metrics
    }

    pub closed spec fn spec_config(&self) -> FrameBufferConfig {
        self.config
    }

    pub closed spec fn pool(&self) -> MemoryPool {
        self.memory_pool
    }

    pub closed spec fn wf(&self) -> bool {
        &&& self.cache.wf()
        &&& self.memory_pool.wf()
        &&& self.ring@.len() <= self.config.ring_buffer_size
        &&& all_entries(self.cache.entries(), |e: (KeyView, Frame)| keyed_by_number(e))
    }

    /// Every frame a lookup finds carries the number it was looked up by.
    pub proof fn lemma_peek_numbers(&self)
        requires
            self.wf(),
        ensures
            forall|n: u64| #[trigger] self.peek(n) is Some ==> self.peek(n).unwrap().frame_number == n,
    {
        assert forall|n: u64| #[trigger] self.peek(n) is Some implies self.peek(n).unwrap().frame_number
            == n by {
            lemma_ring_find_number(self.ring(), n);
            if ring_find(self.ring(), n) is None {
                lemma_lookup_satisfies(
                    self.cache.entries(),
                    stream_key(n),
                    |e: (KeyView, Frame)| keyed_by_number(e),
                );
            }
        }
    }

    /// What a lookup of frame `n` finds: the ring first, then the cache.
    pub open spec fn peek(&self, n: u64) -> Option<Frame> {
        match ring_find(self.ring(), n) {
            Some(f) => Some(f),
            None => lookup(self.cache_entries(), stream_key(n)),
        }
    }

    /// What ingesting `frame` does: when the ring is full its oldest frame
    /// moves into the cache, the new frame joins the back of the ring (a
    /// ring of capacity zero holds nothing) and is inserted into the cache
    /// too, and one more frame counts as processed.
    pub open spec fn ingested(pre: FrameBuffer, post: FrameBuffer, frame: Frame) -> bool {
        let full = pre.ring().len() > 0 && pre.ring().len() >= pre.ring_capacity();
        let kept = if full {
            pre.ring().drop_first()
        } else {
            pre.ring()
        };
        let cached = if full {
            inserted(
                pre.cache_entries(),
                stream_key(pre.ring()[0].frame_number),
                pre.ring()[0],
                pre.cache_capacity(),
            )
        } else {
            pre.cache_entries()
        };
        &&& post.ring() == if pre.ring_capacity() == 0 {
            kept
        } else {
            kept.push(frame)
        }
        &&& post.cache_entries() == inserted(
            cached,
            stream_key(frame.frame_number),
            frame,
            pre.cache_capacity(),
        )
        &&& post.counters() == (FrameBufferMetrics {
            frames_processed: bumped(pre.counters().frames_processed),
            ..pre.counters()
        })
        &&& post.ring_capacity() == pre.ring_capacity()
        &&& post.cache_capacity() == pre.cache_capacity()
        &&& post.spec_config() == pre.spec_config()
        &&& post.pool() == pre.pool()
    }

    /// Creates an empty buffer.
    pub fn new(config: FrameBufferConfig) -> (r: Self)
        requires
            config.cache_size * crate::cache::BYTES_PER_MB <= usize::MAX,
        ensures
            r.wf(),
            r.spec_config() == config,
            r.ring() == Seq::<Frame>::empty(),
            r.ring_capacity() == config.ring_buffer_size,
            r.cache_entries() == Seq::<(KeyView, Frame)>::empty(),
            r.cache_capacity() == config.cache_size * crate::cache::BYTES_PER_MB,
            r.counters() == FrameBufferMetrics::zero(),
            r.pool().budget() == config.memory_pool_size,
            r.pool().charged() == 0,
    {
        FrameBuffer {
            config,
            ring: VecDeque::new(),
            cache: FrameCache::new(config.cache_size),
            memory_pool: MemoryPool::with_budget_bytes(config.memory_pool_size),
            metrics: FrameBufferMetrics::default(),
        }
    }

    /// Appends a decoded frame; see `ingested`.
    pub fn ingest(&mut self, frame: Frame)
        requires
            old(self).wf(),
        ensures
            final(self).wf(),
            FrameBuffer::ingested(*old(self), *final(self), frame),
    {
        if self.ring.len() > 0 && self.ring.len() >= self.config.ring_buffer_size {
            match self.ring.pop_front() {
                Some(oldest) => {
                    let n = oldest.frame_number;
                    self.cache.insert(STREAM_SOURCE, n, oldest);
                },
                None => {},
            }
        }
        if self.config.ring_buffer_size > 0 {
            self.ring.push_back(frame.share());
        }
        let n = frame.frame_number;
        proof {
            let p = |e: (KeyView, Frame)| keyed_by_number(e);
            if old(self).ring@.len() > 0 && old(self).ring@.len() >= old(self).config.ring_buffer_size {
                lemma_inserted_satisfies(
                    old(self).cache.entries(),
                    stream_key(old(self).ring@[0].frame_number),
                    old(self).ring@[0],
                    old(self).cache.capacity(),
                    p,
                );
            }
            lemma_inserted_satisfies(
                self.cache.entries(),
                stream_key(n),
                frame,
                self.cache.capacity(),
                p,
            );
        }
        self.cache.insert(STREAM_SOURCE, n, frame);
        self.metrics.frames_processed = self.metrics.frames_processed.saturating_add(1);
    }

    /// The ring position of the first frame numbered `n`.
    fn ring_position(&self, n: u64) -> (r: Option<usize>)
        ensures
            match r {
                Some(i) => i < self.ring@.len() && ring_find(self.ring(), n) == Some(
                    self.ring@[i as int],
                ),
                None => ring_find(self.ring(), n) is None,
            },
    {
        let mut i: usize = 0;
        while i < self.ring.len()
            invariant
                i <= self.ring@.len(),
                forall|j: int| 0 <= j < i ==> self.ring@[j].frame_number != n,
            decreases self.ring@.len() - i,
        {
            if self.ring[i].frame_number == n {
                proof {
                    lemma_ring_first(self.ring@, n, i as int);
                }
                return Some(i);
            }
            i = i + 1;
        }
        proof {
            lemma_ring_none(self.ring@, n);
        }
        None
    }

    /// Looks up frame `n`: the ring first, then the cache. Never waits. A
    /// ring hit, a cache hit or a miss is counted; a miss also counts a
    /// prefetch request, which the caller is to send for `n`. What any later
    /// lookup finds is unchanged.
    pub fn get_frame(&mut self, n: u64) -> (r: Option<Frame>)
        requires
            old(self).wf(),
        ensures
            final(self).wf(),
            r == old(self).peek(n),
            final(self).ring() == old(self).ring(),
            final(self).ring_capacity() == old(self).ring_capacity(),
            final(self).cache_capacity() == old(self).cache_capacity(),
            final(self).spec_config() == old(self).spec_config(),
            final(self).pool() == old(self).pool(),
            forall|m: u64| #[trigger] final(self).peek(m) == old(self).peek(m),
            match (ring_find(old(self).ring(), n), lookup(old(self).cache_entries(), stream_key(n))) {
                (Some(_), _) => {
                    &&& final(self).cache_entries() == old(self).cache_entries()
                    &&& final(self).counters() == (FrameBufferMetrics {
                        ring_buffer_hits: bumped(old(self).counters().ring_buffer_hits),
                        ..old(self).counters()
                    })
                },
                (None, Some(f)) => {
                    &&& final(self).cache_entries() == remove_key(
                        old(self).cache_entries(),
                        stream_key(n),
                    ).push((stream_key(n), f))
                    &&& final(self).counters() == (FrameBufferMetrics {
                        ring_buffer_misses: bumped(old(self).counters().ring_buffer_misses),
                        cache_hits: bumped(old(self).counters().cache_hits),
                        ..old(self).counters()
                    })
                },
                (None, None) => {
                    &&& final(self).cache_entries() == old(self).cache_entries()
                    &&& final(self).counters() == (FrameBufferMetrics {
                        ring_buffer_misses: bumped(old(self).counters().ring_buffer_misses),
                        cache_misses: bumped(old(self).counters().cache_misses),
                        prefetch_requests: bumped(old(self).counters().prefetch_requests),
                        ..old(self).counters()
                    })
                },
            },
    {
        match self.ring_position(n) {
            Some(i) => {
                self.metrics.ring_buffer_hits = self.metrics.ring_buffer_hits.saturating_add(1);
                return Some(self.ring[i].share());
            },
            None => {},
        }
        self.metrics.ring_buffer_misses = self.metrics.ring_buffer_misses.saturating_add(1);
        let ghost before = self.cache.entries();
        proof {
            crate::cache::lemma_cache_within_budget(self.cache);
        }
        let found = match self.cache.get(STREAM_SOURCE, n) {
            Some(f) => Some(f.share()),
            None => None,
        };
        match found {
            Some(f) => {
                self.metrics.cache_hits = self.metrics.cache_hits.saturating_add(1);
                proof {
                    lemma_lookup_refresh(before, stream_key(n), f);
                    let p = |e: (KeyView, Frame)| keyed_by_number(e);
                    lemma_lookup_satisfies(before, stream_key(n), p);
                    lemma_remove_key_satisfies(before, stream_key(n), p);
                    let r = remove_key(before, stream_key(n));
                    assert forall|i: int| 0 <= i < r.push((stream_key(n), f)).len() implies p(
                        #[trigger] r.push((stream_key(n), f))[i],
                    ) by {
                        if i < r.len() {
                            assert(r.push((stream_key(n), f))[i] == r[i]);
                        }
                    }
                }
                Some(f)
            },
            None => {
                self.metrics.cache_misses = self.metrics.cache_misses.saturating_add(1);
                self.metrics.prefetch_requests = self.metrics.prefetch_requests.saturating_add(1);
                None
            },
        }
    }

    /// Looks up every frame of `start..=end` and returns those found, in
    /// order, with the prefetch requests to send: the missed frame numbers,
    /// then `end + 1` to prime the frames after the range.
    pub fn get_frame_range(&mut self, start: u64, end: u64) -> (r: RangeRead)
        requires
            old(self).wf(),
        ensures
            final(self).wf(),
            r.frames@ == range_found(*old(self), start as int, end as int),
            forall|i: int|
                0 <= i < r.frames@.len() ==> start <= (#[trigger] r.frames@[i]).frame_number <= end,
            forall|i: int, j: int|
                0 <= i < j < r.frames@.len() ==> (#[trigger] r.frames@[i]).frame_number
                    < (#[trigger] r.frames@[j]).frame_number,
            r.frames@.len() <= if start <= end {
                end - start + 1
            } else {
                0
            },
            r.requests@ == range_missed(*old(self), start as int, end as int) + if end < u64::MAX {
                seq![(end + 1) as u64]
            } else {
                Seq::empty()
            },
            final(self).ring() == old(self).ring(),
            final(self).ring_capacity() == old(self).ring_capacity(),
            final(self).cache_capacity() == old(self).cache_capacity(),
            final(self).spec_config() == old(self).spec_config(),
            final(self).pool() == old(self).pool(),
            forall|m: u64| #[trigger] final(self).peek(m) == old(self).peek(m),
            old(self).counters().le(final(self).counters()),
    {
        let ghost st0 = *self;
        proof {
            st0.lemma_peek_numbers();
            lemma_range_sorted(st0, start as int, end as int);
        }
        let mut frames: Vec<Frame> = Vec::new();
        let mut requests: Vec<u64> = Vec::new();
        let mut n = start;
        let mut done = start > end;
        while !done
            invariant
                old(self).wf() ==> self.wf(),
                self.wf(),
                st0 == *old(self),
                done ==> frames@ == range_found(st0, start as int, end as int) && requests@
                    == range_missed(st0, start as int, end as int),
                !done ==> start <= n <= end && frames@ + range_found(st0, n as int, end as int)
                    == range_found(st0, start as int, end as int) && requests@ + range_missed(
                    st0,
                    n as int,
                    end as int,
                ) == range_missed(st0, start as int, end as int),
                self.ring() == st0.ring(),
                self.ring_capacity() == st0.ring_capacity(),
                self.cache_capacity() == st0.cache_capacity(),
                self.spec_config() == st0.spec_config(),
                self.pool() == st0.pool(),
                forall|m: u64| #[trigger] self.peek(m) == st0.peek(m),
                st0.counters().le(self.counters()),
            decreases if done {
                0int
            } else {
                end - n + 1
            },
        {
            let ghost before = frames@;
            let ghost before_req = requests@;
            let found = self.get_frame(n);
            match found {
                Some(f) => {
                    frames.push(f);
                    assert(frames@ + range_found(st0, n + 1, end as int) =~= before + range_found(
                        st0,
                        n as int,
                        end as int,
                    ));
                    assert(requests@ + range_missed(st0, n + 1, end as int) =~= before_req
                        + range_missed(st0, n as int, end as int));
                },
                None => {
                    requests.push(n);
                    assert(frames@ + range_found(st0, n + 1, end as int) =~= before + range_found(
                        st0,
                        n as int,
                        end as int,
                    ));
                    assert(requests@ + range_missed(st0, n + 1, end as int) =~= before_req
                        + range_missed(st0, n as int, end as int));
                },
            }
            if n == end {
                done = true;
                assert(range_found(st0, n + 1, end as int) =~= Seq::<Frame>::empty());
                assert(range_missed(st0, n + 1, end as int) =~= Seq::<u64>::empty());
                assert(frames@ =~= frames@ + Seq::<Frame>::empty());
                assert(requests@ =~= requests@ + Seq::<u64>::empty());
            } else {
                n = n + 1;
            }
        }
        if end < u64::MAX {
            requests.push(end + 1);
        } else {
            assert(requests@ =~= requests@ + Seq::<u64>::empty());
        }
        RangeRead { frames, requests }
    }

    /// Hands out a buffer of `size` bytes from the pool, or, when the pool
    /// cannot serve it, a fresh zeroed one made outside it. Either way is
    /// counted.
    pub fn allocate_frame_data(&mut self, size: usize) -> (r: Vec<u8>)
        requires
            old(self).wf(),
        ensures
            final(self).wf(),
            r@.len() == size,
            final(self).ring() == old(self).ring(),
            final(self).cache_entries() == old(self).cache_entries(),
            final(self).cache_capacity() == old(self).cache_capacity(),
            final(self).spec_config() == old(self).spec_config(),
            exists|served: Option<Vec<u8>>|
                MemoryPool::allocated(old(self).pool(), final(self).pool(), size, served) && match served {
                    Some(b) => {
                        &&& r == b
                        &&& final(self).counters() == (FrameBufferMetrics {
                            pool_allocations: bumped(old(self).counters().pool_allocations),
                            ..old(self).counters()
                        })
                    },
                    None => {
                        &&& r@ == Seq::new(size as nat, |i: int| 0u8)
                        &&& final(self).counters() == (FrameBufferMetrics {
                            direct_allocations: bumped(old(self).counters().direct_allocations),
                            ..old(self).counters()
                        })
                    },
                },
    {
        let served = self.memory_pool.allocate(size);
        let ghost got = served;
        assert(MemoryPool::allocated(old(self).pool(), self.pool(), size, got));
        match served {
            Some(buffer) => {
                self.metrics.pool_allocations = self.metrics.pool_allocations.saturating_add(1);
                assert(MemoryPool::allocated(old(self).pool(), self.pool(), size, got));
                buffer
            },
            None => {
                self.metrics.direct_allocations = self.metrics.direct_allocations.saturating_add(
                    1,
                );
                assert(MemoryPool::allocated(old(self).pool(), self.pool(), size, got));
                zeroed(size)
            },
        }
    }

    /// Gives a buffer back to the pool.
    pub fn deallocate_frame_data(&mut self, data: Vec<u8>)
        requires
            old(self).wf(),
        ensures
            final(self).wf(),
            final(self).ring() == old(self).ring(),
            final(self).cache_entries() == old(self).cache_entries(),
            final(self).cache_capacity() == old(self).cache_capacity(),
            final(self).spec_config() == old(self).spec_config(),
            final(self).counters() == old(self).counters(),
            MemoryPool::deallocated(old(self).pool(), final(self).pool(), data),
    {
        self.memory_pool.deallocate(data);
    }

    /// A snapshot of the counters.
    pub fn get_metrics(&self) -> (r: FrameBufferMetrics)
        ensures
            r == self.counters(),
    {
        self.metrics
    }

    /// Sets every counter to zero and changes nothing else.
    pub fn reset_metrics(&mut self)
        requires
            old(self).wf(),
        ensures
            final(self).wf(),
            final(self).counters() == FrameBufferMetrics::zero(),
            final(self).ring() == old(self).ring(),
            final(self).cache_entries() == old(self).cache_entries(),
            final(self).cache_capacity() == old(self).cache_capacity(),
            final(self).spec_config() == old(self).spec_config(),
            final(self).pool() == old(self).pool(),
    {
        self.metrics = FrameBufferMetrics::default();
    }

    /// Frame numbers in the ring, oldest first.
    pub fn ring_frame_numbers(&self) -> (r: Vec<u64>)
        ensures
            r@.len() == self.ring().len(),
            forall|i: int| 0 <= i < r@.len() ==> r@[i] == #[trigger] self.ring()[i].frame_number,
    {
        let mut r: Vec<u64> = Vec::new();
        let mut i: usize = 0;
        while i < self.ring.len()
            invariant
                i <= self.ring@.len(),
                r@.len() == i,
                forall|j: int| 0 <= j < i ==> r@[j] == #[trigger] self.ring@[j].frame_number,
            decreases self.ring@.len() - i,
        {
            r.push(self.ring[i].frame_number);
            i = i + 1;
        }
        r
    }

    /// Number of frames in the cache.
    pub fn cached_count(&self) -> (r: usize)
        requires
            self.wf(),
        ensures
            r == self.cache_entries().len(),
    {
        self.cache.len()
    }

    /// The settings the buffer was made with.
    pub fn config(&self) -> (r: FrameBufferConfig)
        ensures
            r == self.spec_config(),
    {
        self.config
    }
}

proof fn lemma_ring_fill(states: Seq<FrameBuffer>, frames: Seq<Frame>, k: int)
    requires
        states.len() == frames.len() + 1,
        0 <= k < frames.len(),
        k <= states[0].ring_capacity(),
        states[0].ring().len() == 0,
        forall|i: int|
            0 <= i < frames.len() ==> FrameBuffer::ingested(
                states[i],
                states[i + 1],
                #[trigger] frames[i],
            ),
    ensures
        states[k].ring() == frames.subrange(0, k),
        states[k].ring_capacity() == states[0].ring_capacity(),
        states[k].cache_capacity() == states[0].cache_capacity(),
    decreases k,
{
    if k == 0 {
        assert(frames.subrange(0, 0) =~= Seq::<Frame>::empty());
    } else {
        lemma_ring_fill(states, frames, k - 1);
        assert(FrameBuffer::ingested(states[k - 1], states[k], frames[k - 1]));
        assert(frames.subrange(0, k - 1).push(frames[k - 1]) =~= frames.subrange(0, k));
    }
}

/// Ingesting one frame more than the ring holds into an empty ring leaves
/// the most recent `capacity` frames in the ring, and the first frame,
/// moved out of the ring into the cache, is still found there, as long as
/// the frame numbers differ from the first one and the first and the last
/// frame fit the cache budget together.
pub proof fn lemma_ring_rollover(states: Seq<FrameBuffer>, frames: Seq<Frame>)
    requires
        states.len() == frames.len() + 1,
        frames.len() == states[0].ring_capacity() + 1,
        states[0].ring_capacity() > 0,
        states[0].ring().len() == 0,
        forall|i: int| 0 <= i < states.len() ==> (#[trigger] states[i]).wf(),
        forall|i: int|
            0 <= i < frames.len() ==> FrameBuffer::ingested(
                states[i],
                states[i + 1],
                #[trigger] frames[i],
            ),
        forall|i: int| 0 < i < frames.len() ==> (#[trigger] frames[i]).frame_number != frames[0].frame_number,
        frames[0].payload_bytes() + frames.last().payload_bytes() <= states[0].cache_capacity(),
    ensures
        states.last().ring() == frames.drop_first(),
        lookup(states.last().cache_entries(), stream_key(frames[0].frame_number)) == Some(
            frames[0],
        ),
        states.last().peek(frames[0].frame_number) == Some(frames[0]),
{
    let c = frames.len() - 1;
    lemma_ring_fill(states, frames, c);
    let pre = states[c];
    let post = states[c + 1];
    assert(FrameBuffer::ingested(pre, post, frames[c]));
    assert(pre.ring()[0] == frames[0]);
    assert(post.ring() =~= frames.drop_first());
    // the cache: the first frame is re-inserted, then the last one
    let cap = pre.cache_capacity();
    let k0 = stream_key(frames[0].frame_number);
    let kc = stream_key(frames[c].frame_number);
    let s1 = inserted(pre.cache_entries(), k0, frames[0], cap);
    let e1 = evict_for(remove_key(pre.cache_entries(), k0), frames[0].payload_bytes(), cap);
    assert(s1 == e1.push((k0, frames[0])));
    assert(k0 != kc);
    lemma_remove_key_push_other(e1, (k0, frames[0]), kc);
    let r = remove_key(s1, kc);
    assert(r == remove_key(e1, kc).push((k0, frames[0])));
    lemma_evict_keeps_last(r, frames[c].payload_bytes(), cap);
    let ev = evict_for(r, frames[c].payload_bytes(), cap);
    let s2 = ev.push((kc, frames[c]));
    assert(post.cache_entries() == s2);
    crate::cache::lemma_cache_within_budget(post.cache);
    assert(keys_unique(s2));
    assert(s2[ev.len() - 1] == (k0, frames[0]));
    lemma_lookup_unique(s2, ev.len() - 1);
    assert forall|j: int| 0 <= j < post.ring().len() implies post.ring()[j].frame_number
        != frames[0].frame_number by {
        assert(post.ring()[j] == frames[j + 1]);
    }
    lemma_ring_none(post.ring(), frames[0].frame_number);
    assert(states.last() == post);
}

} // verus!
