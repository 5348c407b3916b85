use frame_engine::buffer::{
    prefetch_burst, Frame, FrameBufferConfig, FrameBufferMetrics, FrameBuffer, PixelFormat,
};
use std::sync::Arc;

fn frame(n: u64, bytes: usize) -> Frame {
    Frame {
        frame_number: n,
        pts: n as i64 * 33_000,
        data: Arc::new(vec![n as u8; bytes]),
        width: 4,
        height: 4,
        format: PixelFormat::RGB24,
    }
}

fn config(ring: usize, cache_mb: usize) -> FrameBufferConfig {
    FrameBufferConfig {
        ring_buffer_size: ring,
        cache_size: cache_mb,
        prefetch_count: 3,
        memory_pool_size: 4 * 1024 * 1024,
        channel_capacity: 8,
    }
}

#[test]
fn default_config_values() {
    let c = FrameBufferConfig::default();
    assert_eq!(c.ring_buffer_size, 30);
    assert_eq!(c.cache_size, 100);
    assert_eq!(c.prefetch_count, 10);
    assert_eq!(c.memory_pool_size, 500 * 1024 * 1024);
    assert_eq!(c.channel_capacity, 50);
    assert_eq!(PixelFormat::YUV444P.bytes_per_pixel(), 6);
    assert_eq!(PixelFormat::YUV422P.bytes_per_pixel(), 4);
}

#[test]
fn ring_rollover_moves_oldest_into_cache() {
    let mut store = FrameBuffer::new(config(3, 1));
    for n in 0..4 {
        store.ingest(frame(n, 100));
    }
    assert_eq!(store.ring_frame_numbers(), vec![1, 2, 3]);
    let before = store.get_metrics();
    let f0 = store.get_frame(0).unwrap();
    assert_eq!(f0.frame_number, 0);
    assert_eq!(f0.data[0], 0);
    let after = store.get_metrics();
    assert_eq!(after.cache_hits, before.cache_hits + 1);
    assert_eq!(after.ring_buffer_misses, before.ring_buffer_misses + 1);
    assert_eq!(after.frames_processed, 4);
}

#[test]
fn ring_hits_come_first() {
    let mut store = FrameBuffer::new(config(2, 1));
    store.ingest(frame(10, 8));
    let f = store.get_frame(10).unwrap();
    assert_eq!(f.pts, 330_000);
    let m = store.get_metrics();
    assert_eq!(m.ring_buffer_hits, 1);
    assert_eq!(m.cache_hits, 0);
}

#[test]
fn miss_counts_a_prefetch_request() {
    let mut store = FrameBuffer::new(config(2, 1));
    assert!(store.get_frame(42).is_none());
    let m = store.get_metrics();
    assert_eq!(m.ring_buffer_misses, 1);
    assert_eq!(m.cache_misses, 1);
    assert_eq!(m.prefetch_requests, 1);
    store.reset_metrics();
    assert_eq!(store.get_metrics(), FrameBufferMetrics::default());
}

#[test]
fn range_reads_found_frames_and_requests_the_rest() {
    let mut store = FrameBuffer::new(config(2, 1));
    for n in [3u64, 5, 6] {
        store.ingest(frame(n, 16));
    }
    let r = store.get_frame_range(3, 7);
    let numbers: Vec<u64> = r.frames.iter().map(|f| f.frame_number).collect();
    assert_eq!(numbers, vec![3, 5, 6]);
    assert_eq!(r.requests, vec![4, 7, 8]);
    let r = store.get_frame_range(u64::MAX - 1, u64::MAX);
    assert!(r.frames.is_empty());
    assert_eq!(r.requests, vec![u64::MAX - 1, u64::MAX]);
    let r = store.get_frame_range(9, 8);
    assert!(r.frames.is_empty());
    assert_eq!(r.requests, vec![9]);
}

#[test]
fn prefetch_bursts() {
    assert_eq!(prefetch_burst(10, 3), vec![11, 12, 13]);
    assert_eq!(prefetch_burst(u64::MAX - 2, 5), vec![u64::MAX - 1, u64::MAX]);
    assert!(prefetch_burst(7, 0).is_empty());
}

#[test]
fn frame_data_comes_from_the_pool_then_directly() {
    let mut store = FrameBuffer::new(config(2, 1));
    let a = store.allocate_frame_data(3 * 1024 * 1024);
    assert_eq!(a.len(), 3 * 1024 * 1024);
    let b = store.allocate_frame_data(2 * 1024 * 1024);
    assert_eq!(b.len(), 2 * 1024 * 1024);
    let m = store.get_metrics();
    assert_eq!(m.pool_allocations, 1);
    assert_eq!(m.direct_allocations, 1);
    store.deallocate_frame_data(a);
    let c = store.allocate_frame_data(1000);
    assert_eq!(c.len(), 1000);
    assert_eq!(store.get_metrics().pool_allocations, 2);
}

#[test]
fn zero_capacity_ring_only_caches() {
    let mut store = FrameBuffer::new(config(0, 1));
    store.ingest(frame(1, 8));
    assert!(store.ring_frame_numbers().is_empty());
    assert_eq!(store.cached_count(), 1);
    assert!(store.get_frame(1).is_some());
}

#[test]
fn frame_data_returns_to_the_pool() {
    let mut store = FrameBuffer::new(config(2, 1));
    let a = store.allocate_frame_data(1000);
    store.deallocate_frame_data(a);
    // the returned buffer serves the next request, which costs no budget
    let _b = store.allocate_frame_data(4 * 1024 * 1024 - 1000);
    let _c = store.allocate_frame_data(1000);
    assert_eq!(store.get_metrics().pool_allocations, 3);
    assert_eq!(store.get_metrics().direct_allocations, 0);
    let _d = store.allocate_frame_data(1);
    assert_eq!(store.get_metrics().direct_allocations, 1);
}

#[test]
fn ranges_come_in_ascending_order() {
    let mut store = FrameBuffer::new(config(3, 1));
    for n in [9u64, 2, 5, 7, 4] {
        store.ingest(frame(n, 8));
    }
    let r = store.get_frame_range(1, 10);
    let numbers: Vec<u64> = r.frames.iter().map(|f| f.frame_number).collect();
    assert_eq!(numbers, vec![2, 4, 5, 7, 9]);
}
