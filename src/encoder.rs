//! Video codecs and hardware encoders.
use crate::export::{ExportError, Result};
use crate::text::str_eq;
use vstd::prelude::*;

verus! {

/// What `str::to_lowercase` makes of a string.
pub uninterp spec fn lower_of(s: Seq<char>) -> Seq<char>;

/// Relies on `str::to_lowercase`: the lowercase form of the text, which
/// depends on the characters alone.
#[verifier::external_body]
fn lowercase(s: &str) -> (r: String)
    ensures
        r@ == lower_of(s@),
{
    s.to_lowercase()
}

/// A supported video codec.
#[derive(Debug, Clone, Copy, PartialEq, Eq, Structural)]
pub enum VideoCodec {
    H264,
    H265,
    VP9,
    AV1,
}

/// The codec a lowercase name stands for: its short name or its FFmpeg
/// encoder name (`hevc` too for H.265).
pub open spec fn codec_named(t: Seq<char>) -> Option<VideoCodec> {
    if t == "h264"@ || t == "libx264"@ {
        Some(VideoCodec::H264)
    } else if t == "h265"@ || t == "libx265"@ || t == "hevc"@ {
        Some(VideoCodec::H265)
    } else if t == "vp9"@ || t == "libvpx-vp9"@ {
        Some(VideoCodec::VP9)
    } else if t == "av1"@ || t == "libaom-av1"@ {
        Some(VideoCodec::AV1)
    } else {
        None
    }
}

impl VideoCodec {
    /// The codec for `name`, given `lowered`, its lowercase form. An unknown
    /// name is an `UnsupportedCodec` error that holds `name` as given.
    pub fn from_lowercase(name: &str, lowered: &str) -> (r: Result<Self>)
        ensures
            match codec_named(lowered@) {
                Some(c) => r matches Ok(v) && v == c,
                None => r matches Err(ExportError::UnsupportedCodec(m)) && m@ == name@,
            },
    {
        if str_eq(lowered, "h264") || str_eq(lowered, "libx264") {
            Ok(VideoCodec::H264)
        } else if str_eq(lowered, "h265") || str_eq(lowered, "libx265") || str_eq(lowered, "hevc") {
            Ok(VideoCodec::H265)
        } else if str_eq(lowered, "vp9") || str_eq(lowered, "libvpx-vp9") {
            Ok(VideoCodec::VP9)
        } else if str_eq(lowered, "av1") || str_eq(lowered, "libaom-av1") {
            Ok(VideoCodec::AV1)
        } else {
            Err(ExportError::UnsupportedCodec(name.to_owned()))
        }
    }

    /// The codec named by `s`, in any letter case.
    pub fn from_string(s: &str) -> (r: Result<Self>)
        ensures
            match codec_named(lower_of(s@)) {
                Some(c) => r matches Ok(v) && v == c,
                None => r matches Err(ExportError::UnsupportedCodec(m)) && m@ == s@,
            },
    {
        let lowered = lowercase(s);
        VideoCodec::from_lowercase(s, lowered.as_str())
    }

    pub open spec fn spec_ffmpeg_codec(&self) -> Seq<char> {
        match self {
            VideoCodec::H264 => "libx264"@,
            VideoCodec::H265 => "libx265"@,
            VideoCodec::VP9 => "libvpx-vp9"@,
            VideoCodec::AV1 => "libaom-av1"@,
        }
    }

    /// The FFmpeg encoder name of the codec.
    pub fn to_ffmpeg_codec(&self) -> (r: &'static str)
        ensures
            r@ == self.spec_ffmpeg_codec(),
    {
        match self {
            VideoCodec::H264 => "libx264",
            VideoCodec::H265 => "libx265",
            VideoCodec::VP9 => "libvpx-vp9",
            VideoCodec::AV1 => "libaom-av1",
        }
    }

    /// Whether hardware encoders can produce the codec: H.264 and H.265.
    pub fn supports_hardware_encoding(&self) -> (r: bool)
        ensures
            r == (*self == VideoCodec::H264 || *self == VideoCodec::H265),
    {
        match self {
            VideoCodec::H264 | VideoCodec::H265 => true,
            _ => false,
        }
    }
}

/// A family of hardware video encoders.
#[derive(Debug, Clone, Copy, PartialEq, Eq, Structural)]
pub enum HardwareEncoder {
    NoEncoder,
    NVENC,
    QuickSync,
    AMF,
    VideoToolbox,
}

impl HardwareEncoder {
    /// The encoder to use given what the machine offers: VideoToolbox on
    /// macOS, else NVENC when an NVIDIA GPU answered, else none.
    pub fn select(is_macos: bool, nvidia_available: bool) -> (r: Self)
        ensures
            r == if is_macos {
                HardwareEncoder::VideoToolbox
            } else if nvidia_available {
                HardwareEncoder::NVENC
            } else {
                HardwareEncoder::NoEncoder
            },
    {
        if is_macos {
            HardwareEncoder::VideoToolbox
        } else if nvidia_available {
            HardwareEncoder::NVENC
        } else {
            HardwareEncoder::NoEncoder
        }
    }

    pub open spec fn spec_codec_name(&self, codec: VideoCodec) -> Option<Seq<char>> {
        match (*self, codec) {
            (HardwareEncoder::NVENC, VideoCodec::H264) => Some("h264_nvenc"@),
            (HardwareEncoder::NVENC, VideoCodec::H265) => Some("hevc_nvenc"@),
            (HardwareEncoder::QuickSync, VideoCodec::H264) => Some("h264_qsv"@),
            (HardwareEncoder::QuickSync, VideoCodec::H265) => Some("hevc_qsv"@),
            (HardwareEncoder::AMF, VideoCodec::H264) => Some("h264_amf"@),
            (HardwareEncoder::AMF, VideoCodec::H265) => Some("hevc_amf"@),
            (HardwareEncoder::VideoToolbox, VideoCodec::H264) => Some("h264_videotoolbox"@),
            (HardwareEncoder::VideoToolbox, VideoCodec::H265) => Some("hevc_videotoolbox"@),
            _ => None,
        }
    }

    /// The FFmpeg encoder name of `codec` on this hardware, if it has one.
    pub fn get_codec_name(&self, codec: VideoCodec) -> (r: Option<&'static str>)
        ensures
            match self.spec_codec_name(codec) {
                Some(n) => r matches Some(s) && s@ == n,
                None => r is None,
            },
    {
        match (self, codec) {
            (HardwareEncoder::NVENC, VideoCodec::H264) => Some("h264_nvenc"),
            (HardwareEncoder::NVENC, VideoCodec::H265) => Some("hevc_nvenc"),
            (HardwareEncoder::QuickSync, VideoCodec::H264) => Some("h264_qsv"),
            (HardwareEncoder::QuickSync, VideoCodec::H265) => Some("hevc_qsv"),
            (HardwareEncoder::AMF, VideoCodec::H264) => Some("h264_amf"),
            (HardwareEncoder::AMF, VideoCodec::H265) => Some("hevc_amf"),
            (HardwareEncoder::VideoToolbox, VideoCodec::H264) => Some("h264_videotoolbox"),
            (HardwareEncoder::VideoToolbox, VideoCodec::H265) => Some("hevc_videotoolbox"),
            _ => None,
        }
    }
}

} // verus!
