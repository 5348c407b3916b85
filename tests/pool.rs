use frame_engine::frame::Frame;
use frame_engine::pool::{FramePool, MemoryPool};
use frame_engine::traits::PixelFormat;
use std::time::Duration;

#[test]
fn test_pool_creation() {
    let pool = FramePool::new(10, 1920, 1080, PixelFormat::RGB24);
    assert_eq!(pool.capacity(), 10);
    assert_eq!(pool.available(), 10);
    assert_eq!(pool.in_use(), 0);
}

#[test]
fn test_pool_get_and_return() {
    let pool = std::sync::Arc::new(std::sync::Mutex::new(FramePool::new(5, 640, 480, PixelFormat::RGB24)));

    let frame = {
        let mut pool_guard = pool.lock().unwrap();
        pool_guard.get()
    };

    assert!(frame.is_some());
    {
        let pool_guard = pool.lock().unwrap();
        assert_eq!(pool_guard.available(), 4);
        assert_eq!(pool_guard.in_use(), 1);
    }

    {
        let mut pool_guard = pool.lock().unwrap();
        pool_guard.return_frame(frame.unwrap());
        assert_eq!(pool_guard.available(), 5);
        assert_eq!(pool_guard.in_use(), 0);
    }
}

#[test]
fn test_pool_exhaustion() {
    let mut pool = FramePool::new(3, 320, 240, PixelFormat::YUV420P);

    let frames: Vec<_> = (0..3).map(|_| pool.get().unwrap()).collect();
    assert_eq!(pool.available(), 0);

    assert!(pool.get().is_none());

    pool.return_frame(frames[0].clone());
    assert_eq!(pool.available(), 1);

    assert!(pool.get().is_some());
}

#[test]
fn test_pool_resize() {
    let mut pool = FramePool::new(5, 640, 480, PixelFormat::RGB24);

    let _frames: Vec<_> = (0..3).map(|_| pool.get().unwrap()).collect();

    pool.resize(10);
    assert_eq!(pool.capacity(), 10);
    assert_eq!(pool.available(), 7);

    pool.resize(2);
    assert_eq!(pool.capacity(), 2);
    assert_eq!(pool.in_use(), 3);
}

#[test]
fn test_frame_pool_creation() {
    let pool = FramePool::new(10, 1920, 1080, PixelFormat::RGB24);

    assert_eq!(pool.capacity(), 10);
    assert_eq!(pool.available(), 10);
    assert_eq!(pool.in_use(), 0);
}

#[test]
fn test_frame_pool_get_return() {
    let mut pool = FramePool::new(5, 640, 480, PixelFormat::RGB24);

    let frame1 = pool.get().unwrap();
    let frame2 = pool.get().unwrap();

    assert_eq!(pool.available(), 3);
    assert_eq!(pool.in_use(), 2);

    pool.return_frame(frame1);
    assert_eq!(pool.available(), 4);
    assert_eq!(pool.in_use(), 1);

    pool.return_frame(frame2);
    assert_eq!(pool.available(), 5);
    assert_eq!(pool.in_use(), 0);
}

#[test]
fn test_frame_pool_exhaustion() {
    let mut pool = FramePool::new(3, 320, 240, PixelFormat::RGB24);

    let _f1 = pool.get().unwrap();
    let _f2 = pool.get().unwrap();
    let _f3 = pool.get().unwrap();

    assert!(pool.get().is_none());
    assert_eq!(pool.available(), 0);
    assert_eq!(pool.in_use(), 3);
}

#[test]
fn test_frame_pool_resize() {
    let mut pool = FramePool::new(5, 640, 480, PixelFormat::RGB24);

    pool.resize(10);
    assert_eq!(pool.capacity(), 10);
    assert_eq!(pool.available(), 10);

    pool.resize(3);
    assert_eq!(pool.capacity(), 3);
    assert_eq!(pool.available(), 3);
}

#[test]
fn pool_frames_have_the_pool_shape_and_reset_metadata() {
    let mut pool = FramePool::new(2, 1920, 1080, PixelFormat::YUV420P);
    let mut frame = pool.get().unwrap();
    assert_eq!(frame.data.len(), 1920 * 1080 * 3 / 2);
    assert_eq!(frame.timestamp, Duration::ZERO);
    frame.metadata.key_frame = true;
    frame.timestamp = Duration::from_millis(40);
    pool.return_frame(frame);
    let _other = pool.get().unwrap();
    let recycled = pool.get().unwrap();
    assert!(!recycled.metadata.key_frame);
    assert_eq!(recycled.timestamp, Duration::ZERO);
}

#[test]
fn pool_conservation_over_a_sequence() {
    let mut pool = FramePool::new(4, 64, 64, PixelFormat::RGBA);
    let mut held = Vec::new();
    for step in 0..40 {
        if step % 3 == 2 {
            if let Some(f) = held.pop() {
                pool.return_frame(f);
            }
        } else if let Some(f) = pool.get() {
            held.push(f);
        }
        assert_eq!(pool.available() + pool.in_use(), pool.capacity());
    }
}

#[test]
fn pool_drops_frames_of_another_shape() {
    let mut pool = FramePool::new(2, 64, 64, PixelFormat::RGBA);
    let _a = pool.get().unwrap();
    let foreign = Frame::new(32, 64, PixelFormat::RGBA, Duration::ZERO).unwrap();
    pool.return_frame(foreign);
    assert_eq!(pool.available(), 1);
    assert_eq!(pool.in_use(), 1);
    let wrong_format = Frame::new(64, 64, PixelFormat::RGB24, Duration::ZERO).unwrap();
    pool.return_frame(wrong_format);
    assert_eq!(pool.available(), 1);
}

#[test]
fn pool_shrink_below_in_use_keeps_in_use() {
    let mut pool = FramePool::new(6, 16, 16, PixelFormat::Gray8);
    let held: Vec<_> = (0..4).map(|_| pool.get().unwrap()).collect();
    pool.resize(1);
    assert_eq!(pool.in_use(), 4);
    assert_eq!(pool.available(), 0);
    assert_eq!(pool.capacity(), 1);
    for f in held {
        pool.return_frame(f);
    }
    assert_eq!(pool.in_use(), 0);
    assert_eq!(pool.available(), 4);
}

#[test]
fn pool_with_invalid_shape_is_empty() {
    let mut pool = FramePool::new(3, 0, 480, PixelFormat::RGB24);
    assert_eq!(pool.capacity(), 3);
    assert_eq!(pool.available(), 0);
    assert!(pool.get().is_none());
}

#[test]
fn interleaved_workers_restore_the_pool() {
    // Several workers, each acquiring then releasing, interleaved step by step.
    let mut pool = FramePool::new(5, 32, 32, PixelFormat::RGB24);
    let workers = 8;
    let rounds = 6;
    let mut held: Vec<Option<Frame>> = (0..workers).map(|_| None).collect();
    for _ in 0..rounds {
        for w in 0..workers {
            held[w] = pool.get();
        }
        for w in (0..workers).rev() {
            if let Some(f) = held[w].take() {
                pool.return_frame(f);
            }
        }
    }
    assert_eq!(pool.available(), 5);
    assert_eq!(pool.in_use(), 0);
}

#[test]
fn memory_pool_reuses_and_budgets() {
    let mut pool = MemoryPool::new(2);
    let a = pool.allocate(1024 * 1024).unwrap();
    assert_eq!(a.len(), 1024 * 1024);
    assert!(a.iter().all(|b| *b == 0));
    let b = pool.allocate(1024 * 1024).unwrap();
    assert_eq!(b.len(), 1024 * 1024);
    // the budget of two mebibytes is used up
    assert!(pool.allocate(1024 * 1024).is_none());
    pool.deallocate(a);
    assert_eq!(pool.free_count(), 1);
    let c = pool.allocate(100).unwrap();
    assert_eq!(c.len(), 100);
    assert_eq!(pool.free_count(), 0);
    let (allocations, deallocations, hits) = pool.stats();
    assert_eq!(allocations, 4);
    assert_eq!(deallocations, 1);
    assert_eq!(hits, 1);
    // every byte counts against the budget, however small the buffer
    assert!(pool.allocate(10).is_none());
}

#[test]
fn memory_pool_keeps_at_most_a_hundred_free_buffers() {
    let mut pool = MemoryPool::new(0);
    for _ in 0..105 {
        pool.deallocate(vec![0u8; 8]);
    }
    assert_eq!(pool.free_count(), 100);
}

#[test]
fn memory_pool_charges_small_buffers() {
    let mut pool = MemoryPool::with_budget_bytes(1000);
    assert_eq!(pool.allocate(600).unwrap().len(), 600);
    assert!(pool.allocate(600).is_none());
    assert_eq!(pool.allocate(400).unwrap().len(), 400);
    assert!(pool.allocate(1).is_none());
}
