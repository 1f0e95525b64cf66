//! The per-file error taxonomy. Every failure of one file is captured in
//! one of these; none aborts the batch.

use vstd::prelude::*;

verus! {

/// Why one file failed.
#[derive(Debug, Clone, PartialEq, Eq)]
pub enum ConvertError {
    /// The input was unreadable or not recognized image data.
    Decode(String),
    /// No output format was specified and none could be derived from the
    /// input extension; the payload is the offending path.
    UnsupportedFormat(String),
    /// A codec failed during quantization, palette handling,
    /// re-optimization or raw encode.
    Encode(String),
    /// Directory creation, file write or metadata access failed.
    Io(String),
    /// The file was not processed because the batch was cancelled.
    Cancelled,
}

/// The message a `ConvertError` carries to the host.
pub open spec fn spec_error_message(e: ConvertError) -> Seq<char> {
    match e {
        ConvertError::Decode(m) => "Failed to open image: "@ + m@,
        ConvertError::UnsupportedFormat(p) => "Cannot detect format from: "@ + p@,
        ConvertError::Encode(m) => m@,
        ConvertError::Io(m) => m@,
        ConvertError::Cancelled => "Cancelled"@,
    }
}

impl ConvertError {
    /// Renders the error as the message recorded in a file's result.
    pub fn message(&self) -> (r: String)
        ensures
            r@ == spec_error_message(*self),
    {
        match self {
            ConvertError::Decode(m) => {
                let mut s = String::from_str("Failed to open image: ");
                s.append(m.as_str());
                s
            },
            ConvertError::UnsupportedFormat(p) => {
                let mut s = String::from_str("Cannot detect format from: ");
                s.append(p.as_str());
                s
            },
            ConvertError::Encode(m) => m.clone(),
            ConvertError::Io(m) => m.clone(),
            ConvertError::Cancelled => String::from_str("Cancelled"),
        }
    }
}

} // verus!
