use frame_engine::cache::FrameCache;
use frame_engine::frame::Frame;
use frame_engine::traits::PixelFormat;
use std::time::Duration;

fn mb(bytes: usize) -> f32 {
    bytes as f32 / (1024.0 * 1024.0)
}

fn hit_rate(hits: u64, misses: u64) -> f64 {
    if hits + misses > 0 {
        (hits as f64 / (hits + misses) as f64) * 100.0
    } else {
        0.0
    }
}

#[test]
fn test_cache_basic_operations() {
    let mut cache = FrameCache::new(100);

    let frame1 = Frame::new(640, 480, PixelFormat::RGB24, Duration::from_millis(0)).unwrap();
    let frame2 = Frame::new(640, 480, PixelFormat::RGB24, Duration::from_millis(33)).unwrap();

    cache.insert("video1", 0, frame1.clone());
    cache.insert("video1", 1, frame2.clone());

    assert!(cache.get("video1", 0).is_some());
    assert!(cache.get("video1", 1).is_some());
    assert!(cache.get("video1", 2).is_none());
    assert!(cache.get("video2", 0).is_none());
}

#[test]
fn test_cache_eviction() {
    let mut cache = FrameCache::new(5);

    let frames: Vec<_> = (0..10)
        .map(|i| Frame::new(640, 480, PixelFormat::RGB24, Duration::from_millis(i * 33)).unwrap())
        .collect();

    for (i, frame) in frames.iter().enumerate() {
        cache.insert("video", i as u64, frame.clone());
    }

    assert!(mb(cache.current_size_bytes()) <= 5.0);

    assert!(cache.get("video", 9).is_some());
    assert!(cache.get("video", 8).is_some());

    assert!(cache.get("video", 0).is_none());
}

#[test]
fn test_cache_clear() {
    let mut cache = FrameCache::new(50);

    for i in 0..5 {
        let frame = Frame::new(320, 240, PixelFormat::RGB24, Duration::from_millis(i * 33)).unwrap();
        cache.insert("video", i, frame);
    }

    assert!(mb(cache.current_size_bytes()) > 0.0);

    cache.clear();
    assert_eq!(mb(cache.current_size_bytes()), 0.0);

    for i in 0..5 {
        assert!(cache.get("video", i).is_none());
    }
}

#[test]
fn test_cache_stats() {
    let mut cache = FrameCache::new(100);

    let frame = Frame::new(1920, 1080, PixelFormat::RGB24, Duration::ZERO).unwrap();
    cache.insert("video", 0, frame.clone());

    let stats = cache.stats();
    assert_eq!(stats.total_frames, 1);
    assert!(mb(stats.size_bytes) > 0.0);
    assert_eq!(hit_rate(stats.hits, stats.misses), 0.0);

    cache.get("video", 0);
    cache.get("video", 0);
    cache.get("video", 1);

    let stats = cache.stats();
    assert!(hit_rate(stats.hits, stats.misses) > 0.0);
}

#[test]
fn test_frame_cache_basic() {
    let mut cache = FrameCache::new(100);

    let frame1 = Frame::new(640, 480, PixelFormat::RGB24, Duration::from_millis(0)).unwrap();
    let frame2 = Frame::new(640, 480, PixelFormat::RGB24, Duration::from_millis(33)).unwrap();

    cache.insert("video1", 0, frame1.clone());
    cache.insert("video1", 1, frame2.clone());

    assert!(cache.get("video1", 0).is_some());
    assert!(cache.get("video1", 1).is_some());
    assert!(cache.get("video1", 2).is_none());
    assert!(cache.get("video2", 0).is_none());
}

#[test]
fn test_frame_cache_eviction() {
    let mut cache = FrameCache::new(10);

    let frame_size = 640 * 480 * 3;
    let max_frames = (10 * 1024 * 1024) / frame_size;

    for i in 0..max_frames + 5 {
        let frame = Frame::new(640, 480, PixelFormat::RGB24, Duration::from_millis(i as u64)).unwrap();
        cache.insert("video", i as u64, frame);
    }

    assert!(cache.get("video", 0).is_none());
    assert!(cache.get("video", 1).is_none());

    assert!(cache.get("video", (max_frames + 4) as u64).is_some());
}

#[test]
fn test_frame_cache_hit_rate() {
    let mut cache = FrameCache::new(50);

    for i in 0..10 {
        let frame = Frame::new(320, 240, PixelFormat::RGB24, Duration::from_millis(i)).unwrap();
        cache.insert("test", i, frame);
    }

    let mut hits = 0;
    let total_accesses = 20;

    for i in 0..total_accesses {
        if cache.get("test", i % 15).is_some() {
            hits += 1;
        }
    }

    let hit_rate = hits as f64 / total_accesses as f64;
    assert!(hit_rate > 0.5);
}

#[test]
fn test_frame_cache_clear() {
    let mut cache = FrameCache::new(100);

    for i in 0..5 {
        let frame = Frame::new(320, 240, PixelFormat::RGB24, Duration::from_millis(i)).unwrap();
        cache.insert("video", i, frame);
    }

    assert!(cache.get("video", 0).is_some());

    cache.clear();

    for i in 0..5 {
        assert!(cache.get("video", i).is_none());
    }
}

#[test]
fn test_frame_cache_multiple_videos() {
    let mut cache = FrameCache::new(100);

    for video_id in 0..3 {
        for frame_id in 0..5 {
            let frame = Frame::new(320, 240, PixelFormat::RGB24, Duration::from_millis(frame_id)).unwrap();
            cache.insert(&format!("video{}", video_id), frame_id, frame);
        }
    }

    for video_id in 0..3 {
        for frame_id in 0..5 {
            assert!(cache.get(&format!("video{}", video_id), frame_id).is_some());
        }
    }
}

#[test]
fn test_cache_memory_tracking() {
    let mut cache = FrameCache::new(50);

    assert_eq!(cache.current_size_bytes(), 0);

    let frame_size = 640 * 480 * 3;
    for i in 0..5 {
        let frame = Frame::new(640, 480, PixelFormat::RGB24, Duration::from_millis(i)).unwrap();
        cache.insert("video", i, frame);
    }

    assert!(cache.current_size_bytes() >= frame_size * 5);
    assert!(cache.current_size_bytes() <= cache.capacity_bytes());
}

/// A frame of exactly `bytes` payload bytes (a Gray8 strip one pixel high).
fn frame_of(bytes: u32) -> Frame {
    Frame::new(bytes, 1, PixelFormat::Gray8, Duration::ZERO).unwrap()
}

/// Half a mebibyte of payload.
fn half_mb_frame() -> Frame {
    Frame::new(8192, 64, PixelFormat::Gray8, Duration::ZERO).unwrap()
}

#[test]
fn lru_refreshed_entry_survives() {
    // a budget of one mebibyte holds exactly two half-mebibyte frames
    let mut cache = FrameCache::new(1);
    cache.insert("A", 0, half_mb_frame());
    cache.insert("B", 0, half_mb_frame());
    assert!(cache.get("A", 0).is_some());
    cache.insert("C", 0, half_mb_frame());
    assert!(!cache.contains("B", 0));
    assert!(cache.contains("A", 0));
    assert!(cache.contains("C", 0));
    assert_eq!(cache.len(), 2);
}

#[test]
fn oversized_entry_evicts_everything() {
    let mut cache = FrameCache::new(1);
    cache.insert("v", 0, frame_of(1000));
    cache.insert("v", 1, frame_of(2000));
    cache.insert("v", 2, Frame::new(2048, 1024, PixelFormat::Gray8, Duration::ZERO).unwrap());
    assert_eq!(cache.len(), 1);
    assert!(cache.contains("v", 2));
    assert_eq!(cache.current_size_bytes(), 2048 * 1024);
    assert!(cache.current_size_bytes() > cache.capacity_bytes());
    cache.insert("v", 3, frame_of(10));
    assert_eq!(cache.len(), 1);
    assert_eq!(cache.current_size_bytes(), 10);
}

#[test]
fn reinsert_replaces_the_entry() {
    let mut cache = FrameCache::new(1);
    cache.insert("v", 7, frame_of(100));
    cache.insert("v", 7, frame_of(300));
    assert_eq!(cache.len(), 1);
    assert_eq!(cache.current_size_bytes(), 300);
    assert_eq!(cache.get("v", 7).unwrap().data.len(), 300);
}

#[test]
fn hit_and_miss_counts() {
    let mut cache = FrameCache::new(1);
    cache.insert("v", 0, frame_of(10));
    cache.get("v", 5);
    let s = cache.stats();
    assert_eq!((s.hits, s.misses), (0, 1));
    cache.get("v", 0);
    let s = cache.stats();
    assert_eq!((s.hits, s.misses), (1, 1));
    cache.get("v", 0);
    cache.get("w", 0);
    let s = cache.stats();
    assert_eq!((s.hits, s.misses), (2, 2));
    assert!((hit_rate(s.hits, s.misses) - 50.0).abs() < 1e-9);
    cache.clear();
    let s = cache.stats();
    assert_eq!((s.hits, s.misses, s.total_frames, s.size_bytes), (0, 0, 0, 0));
}
