//! Pixel formats, stream descriptions and the interfaces of the media
//! backends.
use crate::error::VideoError;
use std::collections::HashMap;
use std::time::Duration;
use vstd::prelude::*;

verus! {

/// Relies on `Clone` of `std::time::Duration`, a `Copy` type: the clone is the
/// same value.
pub assume_specification[ <std::time::Duration as std::clone::Clone>::clone ](
    d: &std::time::Duration,
) -> (r: std::time::Duration)
    ensures
        r == *d,
;

/// Pixel format of a frame.
#[derive(Debug, Clone, Copy, PartialEq, Eq, Structural)]
pub enum PixelFormat {
    RGB24,
    RGBA,
    BGR24,
    BGRA,
    YUV420P,
    YUV422P,
    YUV444P,
    NV12,
    NV21,
    Gray8,
}

impl PixelFormat {
    pub open spec fn spec_bytes_per_pixel(&self) -> nat {
        match self {
            PixelFormat::RGB24 | PixelFormat::BGR24 | PixelFormat::YUV444P => 3,
            PixelFormat::RGBA | PixelFormat::BGRA => 4,
            PixelFormat::YUV420P | PixelFormat::NV12 | PixelFormat::NV21 => 3,
            PixelFormat::YUV422P => 3,
            PixelFormat::Gray8 => 1,
        }
    }

    /// Bytes per pixel, rounded up for the planar and subsampled formats.
    pub fn bytes_per_pixel(&self) -> (r: usize)
        ensures
            r == self.spec_bytes_per_pixel(),
    {
        match self {
            PixelFormat::RGB24 | PixelFormat::BGR24 | PixelFormat::YUV444P => 3,
            PixelFormat::RGBA | PixelFormat::BGRA => 4,
            PixelFormat::YUV420P | PixelFormat::NV12 | PixelFormat::NV21 => 3,
            PixelFormat::YUV422P => 3,
            PixelFormat::Gray8 => 1,
        }
    }
}

/// Type of a filter parameter.
#[derive(Debug, Clone, Copy, PartialEq, Eq, Structural)]
pub enum FilterParameterType {
    Float,
    Integer,
    String,
    Boolean,
}

/// Video stream details.
#[derive(Debug, Clone, Copy, PartialEq, Eq)]
pub struct VideoStreamInfo {
    pub width: u32,
    pub height: u32,
    pub pixel_format: PixelFormat,
    pub frame_rate: (u32, u32),
}

/// Audio stream details.
#[derive(Debug, Clone, PartialEq, Eq)]
pub struct AudioStreamInfo {
    pub channels: u32,
    pub sample_rate: u32,
    pub channel_layout: String,
}

/// Kind of a stream.
#[derive(Debug, Clone, PartialEq, Eq)]
pub enum StreamType {
    Video(VideoStreamInfo),
    Audio(AudioStreamInfo),
    Subtitle,
    Data,
}

/// Information on a media container.
#[derive(Debug, Clone)]
pub struct MediaInfo {
    pub duration: Option<Duration>,
    pub format_name: String,
    pub bit_rate: Option<u64>,
    pub metadata: HashMap<String, String>,
}

/// Information on one stream of a container.
#[derive(Debug)]
pub struct StreamInfo {
    pub index: usize,
    pub stream_type: StreamType,
    pub codec_name: String,
    pub time_base: (u32, u32),
    pub metadata: HashMap<String, String>,
}

/// One packet of a stream.
#[derive(Debug, Clone)]
pub struct Packet {
    pub stream_index: usize,
    pub timestamp: Duration,
    pub duration: Duration,
    pub data: Vec<u8>,
    pub is_keyframe: bool,
}

/// Conversion between pixel formats, supplied by a backend.
pub trait PixelFormatConverter {
    fn convert(
        &self,
        input: &[u8],
        input_format: PixelFormat,
        output_format: PixelFormat,
        width: u32,
        height: u32,
    ) -> std::result::Result<Vec<u8>, VideoError>;

    fn supports_conversion(&self, from: PixelFormat, to: PixelFormat) -> bool;
}

/// Reading packets out of a container, supplied by a backend.
pub trait VideoDemuxer {
    fn open(&mut self, path: &str) -> std::result::Result<MediaInfo, VideoError>;

    fn read_packet(&mut self) -> std::result::Result<Option<Packet>, VideoError>;

    fn seek(&mut self, stream_index: usize, timestamp: Duration) -> std::result::Result<
        (),
        VideoError,
    >;

    fn streams(&self) -> &[StreamInfo];
}

/// Writing packets into a container, supplied by a backend.
pub trait VideoMuxer {
    fn create(&mut self, path: &str, format: &str) -> std::result::Result<(), VideoError>;

    fn add_stream(&mut self, stream_info: &StreamInfo) -> std::result::Result<usize, VideoError>;

    fn write_packet(&mut self, packet: &Packet) -> std::result::Result<(), VideoError>;

    fn finalize(&mut self) -> std::result::Result<(), VideoError>;
}

} // verus!
