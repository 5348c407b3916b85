//! Error types for video processing, with their messages and their
//! classification.
use crate::text::{decimal_text, int_text, joined};
use vstd::prelude::*;

verus! {

#[verifier::external_type_specification]
#[verifier::external_body]
pub struct ExIoError(std::io::Error);

/// Codec-specific errors.
#[derive(Debug)]
pub enum CodecError {
    NotFound(String),
    InitializationFailed(String),
    Unsupported(String),
    InvalidParameter(String),
    AlreadyInitialized,
    NotInitialized,
}

/// Format-specific errors.
#[derive(Debug)]
pub enum FormatError {
    Unknown(String),
    InvalidParameters(String),
    NotSupported(String),
    ConversionFailed(String),
    InvalidPixelFormat(String),
}

/// Filter-specific errors.
#[derive(Debug)]
pub enum FilterError {
    NotFound(String),
    InitializationFailed(String),
    InvalidParameter(String),
    GraphError(String),
    ProcessingFailed(String),
}

/// Resource-related errors.
#[derive(Debug)]
pub enum ResourceError {
    OutOfMemory,
    LimitExceeded(String),
    NotAvailable(String),
    AllocationFailed(String),
}

/// An error reported by the FFmpeg backend: its numeric code and a message.
#[derive(Debug)]
pub struct FFmpegError {
    pub code: i32,
    pub message: String,
}

/// Main error type for video processing operations.
#[derive(Debug)]
pub enum VideoError {
    Codec(CodecError),
    Decoder(String),
    Encoder(String),
    Frame(String),
    InvalidFrameData(String),
    InvalidParameters(String),
    Format(FormatError),
    Io(std::io::Error),
    Filter(FilterError),
    Pipeline(String),
    Configuration(String),
    Unsupported(String),
    Resource(ResourceError),
    Timeout(String),
    Unknown(String),
    FFmpeg(FFmpegError),
}

/// Result type of video operations.
pub type Result<T> = std::result::Result<T, VideoError>;

impl CodecError {
    pub open spec fn message(&self) -> Seq<char> {
        match self {
            CodecError::NotFound(s) => "Codec not found: "@ + s@,
            CodecError::InitializationFailed(s) => "Codec initialization failed: "@ + s@,
            CodecError::Unsupported(s) => "Unsupported codec: "@ + s@,
            CodecError::InvalidParameter(s) => "Codec parameter error: "@ + s@,
            CodecError::AlreadyInitialized => "Codec already initialized"@,
            CodecError::NotInitialized => "Codec not initialized"@,
        }
    }

    /// The human-readable message.
    pub fn to_string(&self) -> (r: String)
        ensures
            r@ == self.message(),
    {
        match self {
            CodecError::NotFound(s) => joined("Codec not found: ", s.as_str()),
            CodecError::InitializationFailed(s) => joined(
                "Codec initialization failed: ",
                s.as_str(),
            ),
            CodecError::Unsupported(s) => joined("Unsupported codec: ", s.as_str()),
            CodecError::InvalidParameter(s) => joined("Codec parameter error: ", s.as_str()),
            CodecError::AlreadyInitialized => "Codec already initialized".to_owned(),
            CodecError::NotInitialized => "Codec not initialized".to_owned(),
        }
    }
}

impl FormatError {
    pub open spec fn message(&self) -> Seq<char> {
        match self {
            FormatError::Unknown(s) => "Unknown format: "@ + s@,
            FormatError::InvalidParameters(s) => "Invalid format parameters: "@ + s@,
            FormatError::NotSupported(s) => "Format not supported: "@ + s@,
            FormatError::ConversionFailed(s) => "Format conversion failed: "@ + s@,
            FormatError::InvalidPixelFormat(s) => "Invalid pixel format: "@ + s@,
        }
    }

    /// The human-readable message.
    pub fn to_string(&self) -> (r: String)
        ensures
            r@ == self.message(),
    {
        match self {
            FormatError::Unknown(s) => joined("Unknown format: ", s.as_str()),
            FormatError::InvalidParameters(s) => joined("Invalid format parameters: ", s.as_str()),
            FormatError::NotSupported(s) => joined("Format not supported: ", s.as_str()),
            FormatError::ConversionFailed(s) => joined("Format conversion failed: ", s.as_str()),
            FormatError::InvalidPixelFormat(s) => joined("Invalid pixel format: ", s.as_str()),
        }
    }
}

impl FilterError {
    pub open spec fn message(&self) -> Seq<char> {
        match self {
            FilterError::NotFound(s) => "Filter not found: "@ + s@,
            FilterError::InitializationFailed(s) => "Filter initialization failed: "@ + s@,
            FilterError::InvalidParameter(s) => "Invalid filter parameter: "@ + s@,
            FilterError::GraphError(s) => "Filter graph error: "@ + s@,
            FilterError::ProcessingFailed(s) => "Filter processing failed: "@ + s@,
        }
    }

    /// The human-readable message.
    pub fn to_string(&self) -> (r: String)
        ensures
            r@ == self.message(),
    {
        match self {
            FilterError::NotFound(s) => joined("Filter not found: ", s.as_str()),
            FilterError::InitializationFailed(s) => joined(
                "Filter initialization failed: ",
                s.as_str(),
            ),
            FilterError::InvalidParameter(s) => joined("Invalid filter parameter: ", s.as_str()),
            FilterError::GraphError(s) => joined("Filter graph error: ", s.as_str()),
            FilterError::ProcessingFailed(s) => joined("Filter processing failed: ", s.as_str()),
        }
    }
}

impl ResourceError {
    pub open spec fn message(&self) -> Seq<char> {
        match self {
            ResourceError::OutOfMemory => "Out of memory"@,
            ResourceError::LimitExceeded(s) => "Resource limit exceeded: "@ + s@,
            ResourceError::NotAvailable(s) => "Resource not available: "@ + s@,
            ResourceError::AllocationFailed(s) => "Resource allocation failed: "@ + s@,
        }
    }

    /// The human-readable message.
    pub fn to_string(&self) -> (r: String)
        ensures
            r@ == self.message(),
    {
        match self {
            ResourceError::OutOfMemory => "Out of memory".to_owned(),
            ResourceError::LimitExceeded(s) => joined("Resource limit exceeded: ", s.as_str()),
            ResourceError::NotAvailable(s) => joined("Resource not available: ", s.as_str()),
            ResourceError::AllocationFailed(s) => joined(
                "Resource allocation failed: ",
                s.as_str(),
            ),
        }
    }
}

impl FFmpegError {
    pub open spec fn text(&self) -> Seq<char> {
        "code "@ + decimal_text(self.code as int) + ": "@ + self.message@
    }

    /// The human-readable message: `code <code>: <message>`.
    pub fn to_string(&self) -> (r: String)
        ensures
            r@ == self.text(),
    {
        let code = int_text(self.code);
        let head = joined("code ", code.as_str());
        let head = joined(head.as_str(), ": ");
        joined(head.as_str(), self.message.as_str())
    }
}

impl VideoError {
    /// The message of every variant but `Io`, whose text comes from the
    /// operating system's error.
    pub open spec fn message(&self) -> Seq<char> {
        match self {
            VideoError::Codec(e) => "Codec error: "@ + e.message(),
            VideoError::Decoder(s) => "Decoder error: "@ + s@,
            VideoError::Encoder(s) => "Encoder error: "@ + s@,
            VideoError::Frame(s) => "Frame error: "@ + s@,
            VideoError::InvalidFrameData(s) => "Invalid frame data: "@ + s@,
            VideoError::InvalidParameters(s) => "Invalid parameters: "@ + s@,
            VideoError::Format(e) => "Format error: "@ + e.message(),
            VideoError::Io(_) => "IO error: "@,
            VideoError::Filter(e) => "Filter error: "@ + e.message(),
            VideoError::Pipeline(s) => "Pipeline error: "@ + s@,
            VideoError::Configuration(s) => "Configuration error: "@ + s@,
            VideoError::Unsupported(s) => "Unsupported operation: "@ + s@,
            VideoError::Resource(e) => "Resource error: "@ + e.message(),
            VideoError::Timeout(s) => "Operation timed out: "@ + s@,
            VideoError::Unknown(s) => "Unknown error: "@ + s@,
            VideoError::FFmpeg(e) => "FFmpeg error: "@ + e.text(),
        }
    }

    /// The human-readable message. For `Io` it is `IO error: ` followed by
    /// the operating system error's own text.
    pub fn to_string(&self) -> (r: String)
        ensures
            !(self is Io) ==> r@ == self.message(),
            self is Io ==> r@.len() >= "IO error: "@.len() && r@.subrange(
                0,
                "IO error: "@.len() as int,
            ) == "IO error: "@,
    {
        match self {
            VideoError::Codec(e) => joined("Codec error: ", e.to_string().as_str()),
            VideoError::Decoder(s) => joined("Decoder error: ", s.as_str()),
            VideoError::Encoder(s) => joined("Encoder error: ", s.as_str()),
            VideoError::Frame(s) => joined("Frame error: ", s.as_str()),
            VideoError::InvalidFrameData(s) => joined("Invalid frame data: ", s.as_str()),
            VideoError::InvalidParameters(s) => joined("Invalid parameters: ", s.as_str()),
            VideoError::Format(e) => joined("Format error: ", e.to_string().as_str()),
            VideoError::Io(e) => {
                let r = joined("IO error: ", e.to_string().as_str());
                assert(r@.subrange(0, "IO error: "@.len() as int) =~= "IO error: "@);
                r
            },
            VideoError::Filter(e) => joined("Filter error: ", e.to_string().as_str()),
            VideoError::Pipeline(s) => joined("Pipeline error: ", s.as_str()),
            VideoError::Configuration(s) => joined("Configuration error: ", s.as_str()),
            VideoError::Unsupported(s) => joined("Unsupported operation: ", s.as_str()),
            VideoError::Resource(e) => joined("Resource error: ", e.to_string().as_str()),
            VideoError::Timeout(s) => joined("Operation timed out: ", s.as_str()),
            VideoError::Unknown(s) => joined("Unknown error: ", s.as_str()),
            VideoError::FFmpeg(e) => joined("FFmpeg error: ", e.to_string().as_str()),
        }
    }

    /// A codec-not-found error naming `codec`.
    pub fn codec_not_found(codec: &str) -> (r: Self)
        ensures
            r matches VideoError::Codec(CodecError::NotFound(s)) && s@ == codec@,
    {
        VideoError::Codec(CodecError::NotFound(codec.to_owned()))
    }

    /// An unsupported-operation error naming `operation`.
    pub fn unsupported(operation: &str) -> (r: Self)
        ensures
            r matches VideoError::Unsupported(s) && s@ == operation@,
    {
        VideoError::Unsupported(operation.to_owned())
    }

    /// A configuration error with `message`.
    pub fn config(message: &str) -> (r: Self)
        ensures
            r matches VideoError::Configuration(s) && s@ == message@,
    {
        VideoError::Configuration(message.to_owned())
    }

    /// An unknown-format error with `message`.
    pub fn format(message: &str) -> (r: Self)
        ensures
            r matches VideoError::Format(FormatError::Unknown(s)) && s@ == message@,
    {
        VideoError::Format(FormatError::Unknown(message.to_owned()))
    }

    pub open spec fn recoverable(&self) -> bool {
        self is Timeout || self matches VideoError::Resource(ResourceError::NotAvailable(_))
    }

    /// Whether retrying may succeed: a timeout, or a resource that is not
    /// available right now.
    pub fn is_recoverable(&self) -> (r: bool)
        ensures
            r == self.recoverable(),
    {
        match self {
            VideoError::Timeout(_) => true,
            VideoError::Resource(ResourceError::NotAvailable(_)) => true,
            _ => false,
        }
    }

    /// Whether this is a codec error.
    pub fn is_codec_error(&self) -> (r: bool)
        ensures
            r == self is Codec,
    {
        match self {
            VideoError::Codec(_) => true,
            _ => false,
        }
    }

    /// Whether this is an IO error.
    pub fn is_io_error(&self) -> (r: bool)
        ensures
            r == self is Io,
    {
        match self {
            VideoError::Io(_) => true,
            _ => false,
        }
    }
}

/// Conversion of FFmpeg return codes into errors.
pub trait FFmpegErrorExt {
    /// Turns the code into an error that names `context`.
    fn to_video_error(self, context: &str) -> VideoError;
}

/// The message of the error made from a non-negative code, which FFmpeg
/// reports on success.
pub open spec fn success_code_text(code: int, context: Seq<char>) -> Seq<char> {
    "Unexpected success code "@ + decimal_text(code) + " in context: "@ + context
}

/// The message of the error made from a negative FFmpeg code.
pub open spec fn failure_code_text(code: int, context: Seq<char>) -> Seq<char> {
    context + " (error code: "@ + decimal_text(code) + ")"@
}

/// The error for FFmpeg return code `code` in `context`: a negative code is
/// an FFmpeg failure that keeps the code, a non-negative one is unexpected.
pub fn ffmpeg_code_error(code: i32, context: &str) -> (r: VideoError)
    ensures
        code >= 0 ==> (r matches VideoError::Unknown(s) && s@ == success_code_text(
            code as int,
            context@,
        )),
        code < 0 ==> (r matches VideoError::FFmpeg(e) && e.code == code && e.message@
            == failure_code_text(code as int, context@)),
{
    let digits = int_text(code);
    if code >= 0 {
        let a = joined("Unexpected success code ", digits.as_str());
        let b = joined(a.as_str(), " in context: ");
        VideoError::Unknown(joined(b.as_str(), context))
    } else {
        let a = joined(context, " (error code: ");
        let b = joined(a.as_str(), digits.as_str());
        VideoError::FFmpeg(FFmpegError { code, message: joined(b.as_str(), ")") })
    }
}

impl FFmpegErrorExt for i32 {
    fn to_video_error(self, context: &str) -> VideoError {
        ffmpeg_code_error(self, context)
    }
}

} // verus!
