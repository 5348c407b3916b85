//! Video frames: pixel payload, shape and metadata.
use crate::cache::FramePayload;
use crate::error::{Result, VideoError};
use crate::traits::PixelFormat;
use std::sync::Arc;
use std::time::Duration;
use vstd::prelude::*;

verus! {

/// Largest width or height of a frame.
pub const MAX_DIMENSION: u32 = 16384;

/// Largest payload of a frame, in bytes.
pub const MAX_FRAME_BYTES: u128 = 1073741824;

/// Color space of a frame.
#[derive(Debug, Clone, Copy, PartialEq, Eq, Structural)]
pub enum ColorSpace {
    BT601,
    BT709,
    BT2020,
    SRGB,
}

impl Default for ColorSpace {
    fn default() -> (r: Self)
        ensures
            r == ColorSpace::BT709,
    {
        ColorSpace::BT709
    }
}

/// Timing and coding details of a frame.
#[derive(Debug, Clone)]
pub struct FrameMetadata {
    pub pts: Option<i64>,
    pub dts: Option<i64>,
    pub duration: Option<Duration>,
    pub key_frame: bool,
    pub color_space: ColorSpace,
}

impl FrameMetadata {
    /// Metadata with nothing set: no timestamps, no duration, not a key
    /// frame, BT.709.
    pub open spec fn spec_default() -> FrameMetadata {
        FrameMetadata {
            pts: None,
            dts: None,
            duration: None,
            key_frame: false,
            color_space: ColorSpace::BT709,
        }
    }
}

impl Default for FrameMetadata {
    fn default() -> (r: Self)
        ensures
            r == FrameMetadata::spec_default(),
    {
        FrameMetadata {
            pts: None,
            dts: None,
            duration: None,
            key_frame: false,
            color_space: ColorSpace::BT709,
        }
    }
}

/// Payload size in bytes of a `width` x `height` frame in `format`.
pub open spec fn data_size(width: u32, height: u32, format: PixelFormat) -> nat {
    let area = width as nat * height as nat;
    match format {
        PixelFormat::RGB24 | PixelFormat::BGR24 => area * 3,
        PixelFormat::RGBA | PixelFormat::BGRA => area * 4,
        PixelFormat::YUV420P | PixelFormat::NV12 | PixelFormat::NV21 => area * 3 / 2,
        PixelFormat::YUV422P => area * 2,
        PixelFormat::YUV444P => area * 3,
        PixelFormat::Gray8 => area,
    }
}

/// Whether a frame of this shape can be made.
pub open spec fn valid_shape(width: u32, height: u32, format: PixelFormat) -> bool {
    &&& width > 0
    &&& height > 0
    &&& width <= MAX_DIMENSION
    &&& height <= MAX_DIMENSION
    &&& data_size(width, height, format) <= MAX_FRAME_BYTES
}

/// A video frame. The pixel payload is shared between copies of the frame.
#[derive(Debug, Clone)]
pub struct Frame {
    pub timestamp: Duration,
    pub width: u32,
    pub height: u32,
    pub format: PixelFormat,
    pub data: Arc<Vec<u8>>,
    pub metadata: FrameMetadata,
}

impl FramePayload for Frame {
    open spec fn payload_bytes(&self) -> nat {
        self.data@.len()
    }

    fn byte_len(&self) -> (r: usize) {
        self.data.len()
    }
}

/// Relies on `std::time::Duration::ZERO`: the zero-length duration.
#[verifier::external_body]
pub(crate) fn zero_duration() -> Duration {
    Duration::ZERO
}

/// `n` zero bytes.
pub fn zeroed(n: usize) -> (r: Vec<u8>)
    ensures
        r@ == Seq::new(n as nat, |i: int| 0u8),
{
    let mut v: Vec<u8> = Vec::with_capacity(n);
    let mut i: usize = 0;
    while i < n
        invariant
            i <= n,
            v@ == Seq::new(i as nat, |j: int| 0u8),
        decreases n - i,
    {
        v.push(0u8);
        i = i + 1;
        assert(v@ =~= Seq::new(i as nat, |j: int| 0u8));
    }
    v
}

/// Payload size for the shape, computed without overflow.
fn calculate_data_size(width: u32, height: u32, format: PixelFormat) -> (r: u128)
    ensures
        r == data_size(width, height, format),
{
    let w = width as u128;
    let h = height as u128;
    assert(w * h <= 0xffff_ffff_ffff_ffffu128) by (nonlinear_arith)
        requires
            w <= 0xffff_ffffu128,
            h <= 0xffff_ffffu128,
    ;
    let area = w * h;
    match format {
        PixelFormat::RGB24 | PixelFormat::BGR24 => area * 3,
        PixelFormat::RGBA | PixelFormat::BGRA => area * 4,
        PixelFormat::YUV420P | PixelFormat::NV12 | PixelFormat::NV21 => area * 3 / 2,
        PixelFormat::YUV422P => area * 2,
        PixelFormat::YUV444P => area * 3,
        PixelFormat::Gray8 => area,
    }
}

impl Frame {
    /// Creates a zero-filled frame. Fails with `InvalidParameters` when a
    /// dimension is zero or above the maximum, or the payload would exceed
    /// its limit.
    pub fn new(width: u32, height: u32, format: PixelFormat, timestamp: Duration) -> (r: Result<
        Self,
    >)
        ensures
            valid_shape(width, height, format) <==> r.is_ok(),
            r matches Ok(f) ==> {
                &&& f.width == width
                &&& f.height == height
                &&& f.format == format
                &&& f.timestamp == timestamp
                &&& f.data@ == Seq::new(data_size(width, height, format), |i: int| 0u8)
                &&& f.metadata == FrameMetadata::spec_default()
            },
            r matches Err(e) ==> e is InvalidParameters,
    {
        if width == 0 || height == 0 {
            return Err(VideoError::InvalidParameters("Frame dimensions must be non-zero".to_owned()));
        }
        if width > MAX_DIMENSION || height > MAX_DIMENSION {
            return Err(
                VideoError::InvalidParameters(
                    "Frame dimensions exceed maximum (16384x16384)".to_owned(),
                ),
            );
        }
        let size = calculate_data_size(width, height, format);
        if size > MAX_FRAME_BYTES {
            return Err(VideoError::InvalidParameters("Frame data size exceeds 1GB limit".to_owned()));
        }
        let data = zeroed(size as usize);
        Ok(
            Frame {
                timestamp,
                width,
                height,
                format,
                data: Arc::new(data),
                metadata: FrameMetadata::default(),
            },
        )
    }

    /// Size of the payload in bytes.
    pub fn data_size(&self) -> (r: usize)
        ensures
            r == self.data@.len(),
    {
        self.data.len()
    }

    /// Payload size that the frame's shape calls for.
    pub fn expected_data_size(&self) -> (r: usize)
        requires
            data_size(self.width, self.height, self.format) <= usize::MAX,
        ensures
            r == data_size(self.width, self.height, self.format),
    {
        calculate_data_size(self.width, self.height, self.format) as usize
    }

    /// Whether both dimensions are non-zero and the payload has the size the
    /// shape calls for.
    pub fn validate(&self) -> (r: bool)
        ensures
            r == (self.width > 0 && self.height > 0 && self.data@.len() == data_size(
                self.width,
                self.height,
                self.format,
            )),
    {
        self.width > 0 && self.height > 0 && self.data.len() as u128 == calculate_data_size(
            self.width,
            self.height,
            self.format,
        )
    }
}

/// Builder for frames with chosen metadata.
pub struct FrameBuilder {
    pub width: Option<u32>,
    pub height: Option<u32>,
    pub format: Option<PixelFormat>,
    pub timestamp: Option<Duration>,
    pub pts: Option<i64>,
    pub dts: Option<i64>,
    pub key_frame: bool,
    pub color_space: ColorSpace,
}

impl FrameBuilder {
    /// A builder with nothing chosen: no shape or timestamps, not a key
    /// frame, BT.709.
    pub fn new() -> (r: Self)
        ensures
            r.width is None,
            r.height is None,
            r.format is None,
            r.timestamp is None,
            r.pts is None,
            r.dts is None,
            !r.key_frame,
            r.color_space == ColorSpace::BT709,
    {
        FrameBuilder {
            width: None,
            height: None,
            format: None,
            timestamp: None,
            pts: None,
            dts: None,
            key_frame: false,
            color_space: ColorSpace::BT709,
        }
    }

    pub fn width(self, width: u32) -> (r: Self)
        ensures
            r == (FrameBuilder { width: Some(width), ..self }),
    {
        FrameBuilder { width: Some(width), ..self }
    }

    pub fn height(self, height: u32) -> (r: Self)
        ensures
            r == (FrameBuilder { height: Some(height), ..self }),
    {
        FrameBuilder { height: Some(height), ..self }
    }

    pub fn format(self, format: PixelFormat) -> (r: Self)
        ensures
            r == (FrameBuilder { format: Some(format), ..self }),
    {
        FrameBuilder { format: Some(format), ..self }
    }

    pub fn timestamp(self, timestamp: Duration) -> (r: Self)
        ensures
            r == (FrameBuilder { timestamp: Some(timestamp), ..self }),
    {
        FrameBuilder { timestamp: Some(timestamp), ..self }
    }

    pub fn pts(self, pts: Option<i64>) -> (r: Self)
        ensures
            r == (FrameBuilder { pts, ..self }),
    {
        FrameBuilder { pts, ..self }
    }

    pub fn dts(self, dts: Option<i64>) -> (r: Self)
        ensures
            r == (FrameBuilder { dts, ..self }),
    {
        FrameBuilder { dts, ..self }
    }

    pub fn key_frame(self, key_frame: bool) -> (r: Self)
        ensures
            r == (FrameBuilder { key_frame, ..self }),
    {
        FrameBuilder { key_frame, ..self }
    }

    pub fn color_space(self, color_space: ColorSpace) -> (r: Self)
        ensures
            r == (FrameBuilder { color_space, ..self }),
    {
        FrameBuilder { color_space, ..self }
    }

    /// Whether every required setting was chosen and they make a valid frame.
    pub open spec fn buildable(&self) -> bool {
        &&& self.width is Some
        &&& self.height is Some
        &&& self.format is Some
        &&& self.timestamp is Some
        &&& valid_shape(self.width.unwrap(), self.height.unwrap(), self.format.unwrap())
    }

    /// Makes the frame. Fails with `InvalidParameters` when the width, the
    /// height, the format or the timestamp was not chosen (checked in that
    /// order), or when the shape is invalid.
    pub fn build(self) -> (r: Result<Frame>)
        ensures
            r.is_ok() <==> self.buildable(),
            r matches Ok(f) ==> {
                &&& f.width == self.width.unwrap()
                &&& f.height == self.height.unwrap()
                &&& f.format == self.format.unwrap()
                &&& f.timestamp == self.timestamp.unwrap()
                &&& f.data@ == Seq::new(
                    data_size(f.width, f.height, f.format),
                    |i: int| 0u8,
                )
                &&& f.metadata == (FrameMetadata {
                    pts: self.pts,
                    dts: self.dts,
                    duration: None,
                    key_frame: self.key_frame,
                    color_space: self.color_space,
                })
            },
            r matches Err(e) ==> e is InvalidParameters,
    {
        let width = match self.width {
            Some(w) => w,
            None => {
                return Err(VideoError::InvalidParameters("Width not set".to_owned()));
            },
        };
        let height = match self.height {
            Some(h) => h,
            None => {
                return Err(VideoError::InvalidParameters("Height not set".to_owned()));
            },
        };
        let format = match self.format {
            Some(f) => f,
            None => {
                return Err(VideoError::InvalidParameters("Format not set".to_owned()));
            },
        };
        let timestamp = match self.timestamp {
            Some(t) => t,
            None => {
                return Err(VideoError::InvalidParameters("Timestamp not set".to_owned()));
            },
        };
        let mut frame = match Frame::new(width, height, format, timestamp) {
            Ok(f) => f,
            Err(e) => {
                return Err(e);
            },
        };
        frame.metadata.pts = self.pts;
        frame.metadata.dts = self.dts;
        frame.metadata.key_frame = self.key_frame;
        frame.metadata.color_space = self.color_space;
        Ok(frame)
    }
}

} // verus!
