use frame_engine::encoder::{HardwareEncoder, VideoCodec};
use frame_engine::error::{CodecError, FFmpegErrorExt, FormatError, ResourceError, VideoError};
use frame_engine::export::ExportError;
use frame_engine::job::{JobPriority, JobStatus};
use frame_engine::presets::ExportPreset;
use frame_engine::timeline::{Result, Timeline, TimelineError};
use frame_engine::traits::PixelFormat;
use std::time::Duration;

#[test]
fn test_error_creation() {
    let err = VideoError::codec_not_found("h264");
    assert!(err.is_codec_error());

    let err = VideoError::unsupported("hardware encoding");
    match err {
        VideoError::Unsupported(msg) => assert_eq!(msg, "hardware encoding"),
        _ => panic!("Wrong error type"),
    }
}

#[test]
fn test_error_display() {
    let err = VideoError::Codec(CodecError::NotFound("vp9".to_string()));
    assert_eq!(err.to_string(), "Codec error: Codec not found: vp9");

    let err = VideoError::Format(FormatError::InvalidPixelFormat("xyz".to_string()));
    assert_eq!(err.to_string(), "Format error: Invalid pixel format: xyz");
}

#[test]
fn test_ffmpeg_error_conversion() {
    let err = (-22).to_video_error("Failed to open file");
    match err {
        VideoError::FFmpeg(ffmpeg_err) => {
            assert_eq!(ffmpeg_err.code, -22);
            assert!(ffmpeg_err.message.contains("Failed to open file"));
        }
        _ => panic!("Wrong error type"),
    }
}

#[test]
fn test_error_classification() {
    let err = VideoError::Timeout("Operation took too long".to_string());
    assert!(err.is_recoverable());

    let err = VideoError::Codec(CodecError::NotFound("test".to_string()));
    assert!(!err.is_recoverable());
    assert!(err.is_codec_error());

    let err = VideoError::Io(std::io::Error::new(std::io::ErrorKind::NotFound, "file"));
    assert!(err.is_io_error());
}

#[test]
fn ffmpeg_error_messages_are_exact() {
    match (-22).to_video_error("Failed to open file") {
        VideoError::FFmpeg(e) => {
            assert_eq!(e.message, "Failed to open file (error code: -22)");
            assert_eq!(e.to_string(), "code -22: Failed to open file (error code: -22)");
        }
        _ => panic!("Wrong error type"),
    }
    match 5.to_video_error("probe") {
        VideoError::Unknown(m) => assert_eq!(m, "Unexpected success code 5 in context: probe"),
        _ => panic!("Wrong error type"),
    }
    let e = (-1).to_video_error("x");
    assert_eq!(e.to_string(), "FFmpeg error: code -1: x (error code: -1)");
}

#[test]
fn error_messages_of_each_family() {
    assert_eq!(VideoError::config("bad").to_string(), "Configuration error: bad");
    assert_eq!(VideoError::format("odd").to_string(), "Format error: Unknown format: odd");
    assert_eq!(
        VideoError::Resource(ResourceError::OutOfMemory).to_string(),
        "Resource error: Out of memory"
    );
    assert_eq!(
        VideoError::Codec(CodecError::AlreadyInitialized).to_string(),
        "Codec error: Codec already initialized"
    );
    let io = VideoError::Io(std::io::Error::new(std::io::ErrorKind::NotFound, "file"));
    assert_eq!(io.to_string(), "IO error: file");
    assert!(VideoError::Resource(ResourceError::NotAvailable("gpu".to_string())).is_recoverable());
    assert!(!VideoError::Decoder("x".to_string()).is_io_error());
}

#[test]
fn test_pixel_format_equality() {
    assert_eq!(PixelFormat::RGB24, PixelFormat::RGB24);
    assert_ne!(PixelFormat::RGB24, PixelFormat::RGBA);
}

#[test]
fn pixel_format_sizes() {
    assert_eq!(PixelFormat::RGB24.bytes_per_pixel(), 3);
    assert_eq!(PixelFormat::RGBA.bytes_per_pixel(), 4);
    assert_eq!(PixelFormat::YUV420P.bytes_per_pixel(), 3);
    assert_eq!(PixelFormat::NV12.bytes_per_pixel(), 3);
    assert_eq!(PixelFormat::Gray8.bytes_per_pixel(), 1);
}

#[test]
fn test_gpu_effect_initialization() {}

#[test]
fn test_shader_compilation() {}

#[test]
fn test_video_codec_from_string() {
    assert_eq!(VideoCodec::from_string("h264").unwrap(), VideoCodec::H264);
    assert_eq!(VideoCodec::from_string("H265").unwrap(), VideoCodec::H265);
    assert_eq!(VideoCodec::from_string("vp9").unwrap(), VideoCodec::VP9);
    assert_eq!(VideoCodec::from_string("av1").unwrap(), VideoCodec::AV1);
    assert!(VideoCodec::from_string("invalid").is_err());
}

#[test]
fn codec_names_in_any_case() {
    assert_eq!(VideoCodec::from_string("HEVC").unwrap(), VideoCodec::H265);
    assert_eq!(VideoCodec::from_string("LibVPX-VP9").unwrap(), VideoCodec::VP9);
    match VideoCodec::from_string("MPEG2") {
        Err(ExportError::UnsupportedCodec(name)) => assert_eq!(name, "MPEG2"),
        _ => panic!("expected an unsupported codec"),
    }
    assert_eq!(VideoCodec::AV1.to_ffmpeg_codec(), "libaom-av1");
    assert!(VideoCodec::H264.supports_hardware_encoding());
    assert!(!VideoCodec::VP9.supports_hardware_encoding());
}

#[test]
fn hardware_encoder_names() {
    assert_eq!(HardwareEncoder::NVENC.get_codec_name(VideoCodec::H265), Some("hevc_nvenc"));
    assert_eq!(HardwareEncoder::AMF.get_codec_name(VideoCodec::H264), Some("h264_amf"));
    assert_eq!(HardwareEncoder::QuickSync.get_codec_name(VideoCodec::VP9), None);
    assert_eq!(HardwareEncoder::NoEncoder.get_codec_name(VideoCodec::H264), None);
    assert_eq!(HardwareEncoder::select(true, true), HardwareEncoder::VideoToolbox);
    assert_eq!(HardwareEncoder::select(false, true), HardwareEncoder::NVENC);
    assert_eq!(HardwareEncoder::select(false, false), HardwareEncoder::NoEncoder);
}

#[test]
fn test_preset_categories() {
    let categories = ExportPreset::by_category();
    assert!(!categories.is_empty());

    let all_presets = ExportPreset::all();
    let categorized_count: usize = categories.iter().map(|(_, presets)| presets.len()).sum();

    assert!(categorized_count >= all_presets.len() - 1);
}

#[test]
fn preset_texts() {
    assert_eq!(ExportPreset::Twitter.display_name(), "Twitter/X");
    assert_eq!(ExportPreset::WebM.description(), "VP9 WebM for modern browsers");
    assert_eq!(ExportPreset::DNxHD.file_extension(), "mov");
    assert_eq!(ExportPreset::WebM.file_extension(), "webm");
    assert_eq!(ExportPreset::TikTok.file_extension(), "mp4");
    assert_eq!(ExportPreset::all().len(), 15);
    assert_eq!(ExportPreset::by_category()[3].0, "Web & Mobile");
}

#[test]
fn job_status_classes() {
    assert!(JobStatus::Rendering.is_active());
    assert!(!JobStatus::Queued.is_active());
    assert!(JobStatus::Cancelled.is_terminal());
    assert!(!JobStatus::Finalizing.is_terminal());
    assert!(JobPriority::Critical > JobPriority::High);
    assert!(JobPriority::Low < JobPriority::Normal);
}

#[test]
fn test_result_type() {
    fn test_function() -> Result<i32> {
        Ok(42)
    }

    let result = test_function();
    assert!(result.is_ok());
    assert_eq!(result.unwrap(), 42);
}

#[test]
fn lib_test_timeline_creation() {
    let mut timeline = Timeline::new("My Project".to_string());
    timeline.add_track("Video Track 1".to_string());

    assert_eq!(timeline.tracks.len(), 1);
    assert_eq!(timeline.tracks[0].name, "Video Track 1");
}

#[test]
fn timeline_tests_test_timeline_creation() {
    let timeline = Timeline::new("Test Timeline".to_string());

    assert_eq!(timeline.name, "Test Timeline");
    assert_eq!(timeline.duration, Duration::from_secs(0));
    assert_eq!(timeline.tracks.len(), 0);
    assert!(!timeline.id.is_nil());
}

#[test]
fn test_track_addition() {
    let mut timeline = Timeline::new("Test".to_string());

    let track = timeline.add_track("Video Track 1".to_string());
    assert_eq!(track.name, "Video Track 1");
    assert!(track.enabled);
    assert!(!track.locked);
    assert_eq!(track.clips.len(), 0);

    assert_eq!(timeline.tracks.len(), 1);
}

#[test]
fn test_multiple_tracks() {
    let mut timeline = Timeline::new("Multi-track Test".to_string());

    timeline.add_track("Video 1".to_string());
    timeline.add_track("Audio 1".to_string());
    timeline.add_track("Video 2".to_string());

    assert_eq!(timeline.tracks.len(), 3);
    assert_eq!(timeline.tracks[0].name, "Video 1");
    assert_eq!(timeline.tracks[1].name, "Audio 1");
    assert_eq!(timeline.tracks[2].name, "Video 2");
    let e: Result<()> = Err(TimelineError::ClipOverlap);
    assert!(e.is_err());
}
