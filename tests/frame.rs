use frame_engine::error::VideoError;
use frame_engine::frame::{ColorSpace, Frame, FrameBuilder};
use frame_engine::traits::PixelFormat;
use std::sync::Arc;
use std::time::Duration;

#[test]
fn test_frame_new_valid() {
    let frame = Frame::new(1920, 1080, PixelFormat::RGB24, Duration::from_secs(0));
    assert!(frame.is_ok());

    let frame = frame.unwrap();
    assert_eq!(frame.width, 1920);
    assert_eq!(frame.height, 1080);
    assert_eq!(frame.format, PixelFormat::RGB24);
    assert_eq!(frame.timestamp, Duration::from_secs(0));
}

#[test]
fn frame_new_invalid() {
    for (w, h) in [(0u32, 1080u32), (1920, 0), (100_000, 100_000), (16385, 1)] {
        match Frame::new(w, h, PixelFormat::RGB24, Duration::from_secs(0)) {
            Err(VideoError::InvalidParameters(_)) => {}
            _ => panic!("expected invalid parameters"),
        }
    }
    assert!(Frame::new(16384, 16384, PixelFormat::RGBA, Duration::ZERO).is_ok());
}

#[test]
fn test_frame_validate_success() {
    let frame = Frame::new(640, 480, PixelFormat::RGB24, Duration::from_secs(0)).unwrap();
    assert!(frame.validate());
}

#[test]
fn test_frame_validate_corrupted_data() {
    let mut frame = Frame::new(640, 480, PixelFormat::RGB24, Duration::from_secs(0)).unwrap();
    Arc::make_mut(&mut frame.data).truncate(100);
    assert!(!frame.validate());
}

#[test]
fn test_frame_validate_zero_dimensions() {
    let mut frame = Frame::new(640, 480, PixelFormat::RGB24, Duration::from_secs(0)).unwrap();
    frame.width = 0;
    assert!(!frame.validate());
}

#[test]
fn test_frame_metadata_default() {
    let frame = Frame::new(640, 480, PixelFormat::RGB24, Duration::from_secs(1)).unwrap();

    assert_eq!(frame.metadata.pts, None);
    assert_eq!(frame.metadata.dts, None);
    assert_eq!(frame.metadata.duration, None);
    assert_eq!(frame.metadata.key_frame, false);
    assert_eq!(frame.metadata.color_space, ColorSpace::BT709);
}

#[test]
fn frame_sizes_per_format() {
    let size = |f| Frame::new(1920, 1080, f, Duration::ZERO).unwrap().data_size();
    assert_eq!(size(PixelFormat::RGB24), 1920 * 1080 * 3);
    assert_eq!(size(PixelFormat::RGBA), 1920 * 1080 * 4);
    assert_eq!(size(PixelFormat::YUV420P), 1920 * 1080 * 3 / 2);
    assert_eq!(size(PixelFormat::YUV422P), 1920 * 1080 * 2);
    assert_eq!(size(PixelFormat::Gray8), 1920 * 1080);
    let f = Frame::new(3, 3, PixelFormat::NV12, Duration::ZERO).unwrap();
    assert_eq!(f.expected_data_size(), 13);
    assert!(f.data.iter().all(|b| *b == 0));
}

#[test]
fn test_frame_builder_basic() {
    let frame = FrameBuilder::new()
        .width(1280)
        .height(720)
        .format(PixelFormat::YUV420P)
        .timestamp(Duration::from_millis(100))
        .build();
    let frame = frame.unwrap();
    assert_eq!(frame.width, 1280);
    assert_eq!(frame.height, 720);
    assert_eq!(frame.format, PixelFormat::YUV420P);
    assert_eq!(frame.timestamp, Duration::from_millis(100));
}

#[test]
fn frame_builder_metadata_and_errors() {
    let frame = FrameBuilder::new()
        .width(64)
        .height(64)
        .format(PixelFormat::RGBA)
        .timestamp(Duration::from_millis(5))
        .pts(Some(1000))
        .dts(Some(900))
        .key_frame(true)
        .color_space(ColorSpace::BT2020)
        .build()
        .unwrap();
    assert_eq!(frame.metadata.pts, Some(1000));
    assert_eq!(frame.metadata.dts, Some(900));
    assert!(frame.metadata.key_frame);
    assert_eq!(frame.metadata.color_space, ColorSpace::BT2020);

    match FrameBuilder::new().height(10).build() {
        Err(e) => assert_eq!(e.to_string(), "Invalid parameters: Width not set"),
        Ok(_) => panic!("width is missing"),
    }
    match FrameBuilder::new().width(10).height(10).format(PixelFormat::RGB24).build() {
        Err(e) => assert_eq!(e.to_string(), "Invalid parameters: Timestamp not set"),
        Ok(_) => panic!("timestamp is missing"),
    }
}
