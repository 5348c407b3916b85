//! Export errors and output settings.
use crate::text::joined;
use vstd::prelude::*;

verus! {

/// Errors of an export.
#[derive(Debug)]
pub enum ExportError {
    ExportFailed(String),
    InvalidSettings,
    UnsupportedCodec(String),
    IoError(std::io::Error),
}

/// Result type of export operations.
pub type Result<T> = std::result::Result<T, ExportError>;

impl ExportError {
    /// The message of every variant but `IoError`, whose text comes from
    /// the operating system's error.
    pub open spec fn message(&self) -> Seq<char> {
        match self {
            ExportError::ExportFailed(s) => "Export failed: "@ + s@,
            ExportError::InvalidSettings => "Invalid export settings"@,
            ExportError::UnsupportedCodec(s) => "Codec not supported: "@ + s@,
            ExportError::IoError(_) => "IO error: "@,
        }
    }

    /// The human-readable message. For `IoError` it is `IO error: `
    /// followed by the operating system error's own text.
    pub fn to_string(&self) -> (r: String)
        ensures
            !(self is IoError) ==> r@ == self.message(),
            self is IoError ==> r@.len() >= "IO error: "@.len() && r@.subrange(
                0,
                "IO error: "@.len() as int,
            ) == "IO error: "@,
    {
        match self {
            ExportError::ExportFailed(s) => joined("Export failed: ", s.as_str()),
            ExportError::InvalidSettings => "Invalid export settings".to_owned(),
            ExportError::UnsupportedCodec(s) => joined("Codec not supported: ", s.as_str()),
            ExportError::IoError(e) => {
                let r = joined("IO error: ", e.to_string().as_str());
                assert(r@.subrange(0, "IO error: "@.len() as int) =~= "IO error: "@);
                r
            },
        }
    }
}

/// Container format of an export.
#[derive(Debug, Clone, Copy, PartialEq, Eq, Structural)]
pub enum ExportFormat {
    Mp4,
    Webm,
    Mov,
    Avi,
    Mkv,
}

/// Quality level of an export; `Custom` holds a level from 0 to 100.
#[derive(Debug, Clone, Copy, PartialEq, Eq, Structural)]
pub enum Quality {
    Low,
    Medium,
    High,
    Ultra,
    Custom(u8),
}

} // verus!
