//! Format registry: output format tags, their canonical extensions, and
//! extension-based format detection. Operation modes and what they enable.

use vstd::prelude::*;
use crate::pathnames::{lower_seq, spec_ext, spec_file_name, eq_lower, ext_of, file_name};

verus! {

/// Which combination of resize and quality-based optimization applies.
#[derive(Debug, Clone, Copy, PartialEq, Eq, Structural)]
pub enum OperationMode {
    /// Compress with a quality setting, no resize.
    Optimize,
    /// Resize only.
    Resize,
    /// Lossless format conversion, no quality degradation.
    Convert,
    /// Optimize and resize.
    OptimizeResize,
    /// Convert, optimize and resize.
    All,
}

/// A supported output format tag.
#[derive(Debug, Clone, Copy, PartialEq, Eq, Structural)]
pub enum OutputFormat {
    Png,
    Webp,
    Jpeg,
    Tiff,
    Qoi,
    Bmp,
}

impl OperationMode {
    /// The resize policy is active for these modes.
    pub open spec fn spec_should_resize(self) -> bool {
        self is Resize || self is OptimizeResize || self is All
    }

    /// Quality-based optimization is active for these modes.
    pub open spec fn spec_should_optimize(self) -> bool {
        self is Optimize || self is OptimizeResize || self is All
    }

    /// Whether this mode resizes the image.
    pub fn should_resize(self) -> (r: bool)
        ensures
            r == self.spec_should_resize(),
    {
        match self {
            OperationMode::Resize | OperationMode::OptimizeResize | OperationMode::All => true,
            _ => false,
        }
    }

    /// Whether this mode applies quality-based optimization.
    pub fn should_optimize(self) -> (r: bool)
        ensures
            r == self.spec_should_optimize(),
    {
        match self {
            OperationMode::Optimize | OperationMode::OptimizeResize | OperationMode::All => true,
            _ => false,
        }
    }

    /// The filename suffix appended under the no-overwrite naming rule.
    pub open spec fn spec_suffix(self) -> Seq<char> {
        match self {
            OperationMode::Optimize => "optimized"@,
            OperationMode::Resize => "resized"@,
            OperationMode::Convert => "converted"@,
            OperationMode::OptimizeResize => "optimized_resized"@,
            OperationMode::All => "processed"@,
        }
    }

    /// The mode-specific suffix used when building a non-overwriting output name.
    pub fn suffix(self) -> (r: &'static str)
        ensures
            r@ == self.spec_suffix(),
            r@.len() >= 1,
    {
        proof {
            reveal_strlit("optimized");
            reveal_strlit("resized");
            reveal_strlit("converted");
            reveal_strlit("optimized_resized");
            reveal_strlit("processed");
        }
        match self {
            OperationMode::Optimize => "optimized",
            OperationMode::Resize => "resized",
            OperationMode::Convert => "converted",
            OperationMode::OptimizeResize => "optimized_resized",
            OperationMode::All => "processed",
        }
    }
}

impl OutputFormat {
    /// The canonical file extension of each format.
    pub open spec fn spec_extension(self) -> Seq<char> {
        match self {
            OutputFormat::Png => "png"@,
            OutputFormat::Webp => "webp"@,
            OutputFormat::Jpeg => "jpg"@,
            OutputFormat::Tiff => "tiff"@,
            OutputFormat::Qoi => "qoi"@,
            OutputFormat::Bmp => "bmp"@,
        }
    }

    /// Canonical extension for this format; JPEG maps to "jpg".
    pub fn extension(&self) -> (r: &'static str)
        ensures
            r@ == self.spec_extension(),
            r@.len() >= 1,
    {
        proof {
            reveal_strlit("png");
            reveal_strlit("webp");
            reveal_strlit("jpg");
            reveal_strlit("tiff");
            reveal_strlit("qoi");
            reveal_strlit("bmp");
        }
        match self {
            OutputFormat::Png => "png",
            OutputFormat::Webp => "webp",
            OutputFormat::Jpeg => "jpg",
            OutputFormat::Tiff => "tiff",
            OutputFormat::Qoi => "qoi",
            OutputFormat::Bmp => "bmp",
        }
    }

    /// Which format a file extension denotes, compared ignoring ASCII case.
    /// `jpg` and `jpeg` both denote JPEG; `tiff` and `tif` both denote TIFF.
    pub open spec fn spec_from_ext(e: Seq<char>) -> Option<OutputFormat> {
        if lower_seq(e) == "png"@ {
            Some(OutputFormat::Png)
        } else if lower_seq(e) == "webp"@ {
            Some(OutputFormat::Webp)
        } else if lower_seq(e) == "jpg"@ || lower_seq(e) == "jpeg"@ {
            Some(OutputFormat::Jpeg)
        } else if lower_seq(e) == "tiff"@ || lower_seq(e) == "tif"@ {
            Some(OutputFormat::Tiff)
        } else if lower_seq(e) == "qoi"@ {
            Some(OutputFormat::Qoi)
        } else if lower_seq(e) == "bmp"@ {
            Some(OutputFormat::Bmp)
        } else {
            None
        }
    }

    /// Derives a format from a file extension, ignoring ASCII case.
    pub fn from_ext(e: &str) -> (r: Option<OutputFormat>)
        ensures
            r == OutputFormat::spec_from_ext(e@),
    {
        if eq_lower(e, "png") {
            Some(OutputFormat::Png)
        } else if eq_lower(e, "webp") {
            Some(OutputFormat::Webp)
        } else if eq_lower(e, "jpg") || eq_lower(e, "jpeg") {
            Some(OutputFormat::Jpeg)
        } else if eq_lower(e, "tiff") || eq_lower(e, "tif") {
            Some(OutputFormat::Tiff)
        } else if eq_lower(e, "qoi") {
            Some(OutputFormat::Qoi)
        } else if eq_lower(e, "bmp") {
            Some(OutputFormat::Bmp)
        } else {
            None
        }
    }

    /// Which format a path's file extension denotes, if any.
    pub open spec fn spec_from_path(p: Seq<char>) -> Option<OutputFormat> {
        match spec_ext(spec_file_name(p)) {
            Some(e) => OutputFormat::spec_from_ext(e),
            None => None,
        }
    }

    /// Derives a format from a path's file extension, ignoring ASCII case.
    pub fn from_path(path: &str) -> (r: Option<OutputFormat>)
        ensures
            r == OutputFormat::spec_from_path(path@),
    {
        let name = file_name(path);
        match ext_of(name) {
            Some(e) => OutputFormat::from_ext(e),
            None => None,
        }
    }
}

/// Whether a path's extension is on the image allow-list a directory scan
/// uses: exactly the extensions some supported format recognizes.
pub fn is_supported_image_path(path: &str) -> (r: bool)
    ensures
        r == (OutputFormat::spec_from_path(path@) is Some),
{
    match OutputFormat::from_path(path) {
        Some(_) => true,
        None => false,
    }
}

/// The format tags the engine offers, as canonical extensions, in a fixed
/// order.
pub fn get_supported_formats() -> (r: Vec<String>)
    ensures
        r@.len() == 6,
        r@[0]@ == "png"@,
        r@[1]@ == "webp"@,
        r@[2]@ == "jpg"@,
        r@[3]@ == "tiff"@,
        r@[4]@ == "qoi"@,
        r@[5]@ == "bmp"@,
{
    let mut v: Vec<String> = Vec::new();
    v.push(String::from_str("png"));
    v.push(String::from_str("webp"));
    v.push(String::from_str("jpg"));
    v.push(String::from_str("tiff"));
    v.push(String::from_str("qoi"));
    v.push(String::from_str("bmp"));
    v
}

} // verus!
