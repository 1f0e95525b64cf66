//! The conversion pipeline: one file through format resolution, decode,
//! resize policy, output naming and encoder dispatch. Works on in-memory
//! bytes; reading the input and writing the output are the host's steps.

use vstd::prelude::*;
use crate::encoders::{encode_for_format, spec_encoded_of};
use crate::errors::ConvertError;
use crate::formats::{OperationMode, OutputFormat};
use crate::pathnames::{
    file_name, is_sep, join_path, last_dot_idx, lemma_file_name_sep_free,
    lemma_last_dot_idx_char, lemma_parent_of_join, lemma_parent_shape, lemma_sep_free_concat,
    parent_of, sep_free, spec_file_name, spec_join, spec_parent, spec_stem, stem_of,
};
use crate::pixels::{decode_image, decoded_of};
use crate::resize::{maybe_resize, spec_maybe_resized, spec_target_dims, ResizeSettings};

verus! {

/// What one successful conversion yields: where the file belongs, its
/// encoded bytes, and the pixel dimensions of the (possibly resized)
/// image as held in memory.
pub struct ConvertOutput {
    pub output_path: String,
    pub data: Vec<u8>,
    pub width: u32,
    pub height: u32,
}

/// The format a conversion targets: the explicitly requested one, or the
/// one the input path's extension denotes.
pub open spec fn spec_resolved_format(
    format: Option<OutputFormat>,
    input_path: Seq<char>,
) -> Option<OutputFormat> {
    match format {
        Some(f) => Some(f),
        None => OutputFormat::spec_from_path(input_path),
    }
}

/// Resolves the output format: an explicit request wins, detection from
/// the input path's extension is the fallback.
pub fn resolve_output_format(format: Option<OutputFormat>, input_path: &str) -> (r: Option<
    OutputFormat,
>)
    ensures
        r == spec_resolved_format(format, input_path@),
{
    match format {
        Some(f) => Some(f),
        None => OutputFormat::from_path(input_path),
    }
}

/// The output file name: the input stem, the mode-specific suffix unless
/// overwriting, and the target format's canonical extension.
pub open spec fn spec_output_name(
    stem: Seq<char>,
    mode: OperationMode,
    overwrite: bool,
    fmt: OutputFormat,
) -> Seq<char> {
    if overwrite {
        stem + "."@ + fmt.spec_extension()
    } else {
        stem + "_"@ + mode.spec_suffix() + "."@ + fmt.spec_extension()
    }
}

/// Builds the output file name for one input file name.
pub fn output_file_name(name: &str, mode: OperationMode, overwrite: bool, fmt: OutputFormat) -> (r:
    String)
    ensures
        r@ == spec_output_name(spec_stem(name@), mode, overwrite, fmt),
{
    proof {
        reveal_strlit("_");
        reveal_strlit(".");
    }
    let stem = stem_of(name);
    let mut out = stem.to_owned();
    if !overwrite {
        out.append("_");
        out.append(mode.suffix());
    }
    out.append(".");
    out.append(fmt.extension());
    out
}

/// Under the no-overwrite rule the output file name never collides with
/// the input file name: a `_suffix` stands where the input had its last
/// `.`, or the name grew.
pub proof fn lemma_output_name_differs(name: Seq<char>, mode: OperationMode, fmt: OutputFormat)
    ensures
        spec_output_name(spec_stem(name), mode, false, fmt) != name,
{
    reveal_strlit("_");
    reveal_strlit(".");
    reveal_strlit("optimized");
    reveal_strlit("resized");
    reveal_strlit("converted");
    reveal_strlit("optimized_resized");
    reveal_strlit("processed");
    reveal_strlit("png");
    reveal_strlit("webp");
    reveal_strlit("jpg");
    reveal_strlit("tiff");
    reveal_strlit("qoi");
    reveal_strlit("bmp");
    let out = spec_output_name(spec_stem(name), mode, false, fmt);
    let dot = last_dot_idx(name);
    lemma_last_dot_idx_char(name);
    crate::pathnames::lemma_last_dot_idx_range(name);
    if dot <= 0 {
        assert(out.len() > name.len());
    } else {
        let stem = spec_stem(name);
        let ab = stem + "_"@;
        let abc = ab + mode.spec_suffix();
        let abcd = abc + "."@;
        let full = abcd + fmt.spec_extension();
        assert(out == full);
        assert(stem.len() == dot);
        assert(ab[dot] == '_');
        assert(abc[dot] == '_');
        assert(abcd[dot] == '_');
        assert(full[dot] == '_');
        assert(name[dot] == '.');
        if out.len() == name.len() {
            assert(out != name) by {
                if out == name {
                    assert(out[dot] == name[dot]);
                }
            }
        }
    }
}

/// An output name never holds a separator: the stem comes from the
/// input's file name, and every suffix, extension and joint is
/// separator-free.
pub proof fn lemma_output_name_sep_free(
    p: Seq<char>,
    mode: OperationMode,
    overwrite: bool,
    fmt: OutputFormat,
)
    ensures
        sep_free(spec_output_name(spec_stem(spec_file_name(p)), mode, overwrite, fmt)),
{
    reveal_strlit("_");
    reveal_strlit(".");
    reveal_strlit("optimized");
    reveal_strlit("resized");
    reveal_strlit("converted");
    reveal_strlit("optimized_resized");
    reveal_strlit("processed");
    reveal_strlit("png");
    reveal_strlit("webp");
    reveal_strlit("jpg");
    reveal_strlit("tiff");
    reveal_strlit("qoi");
    reveal_strlit("bmp");
    let fname = spec_file_name(p);
    let stem = spec_stem(fname);
    lemma_file_name_sep_free(p);
    crate::pathnames::lemma_last_dot_idx_range(fname);
    assert(sep_free(stem)) by {
        if last_dot_idx(fname) > 0 {
            assert forall|i: int| 0 <= i < stem.len() implies !is_sep(#[trigger] stem[i]) by {
                assert(stem[i] == fname[i]);
            }
        }
    }
    assert(sep_free(mode.spec_suffix()));
    assert(sep_free(fmt.spec_extension()));
    assert(sep_free("_"@));
    assert(sep_free("."@));
    if overwrite {
        lemma_sep_free_concat(stem, "."@);
        lemma_sep_free_concat(stem + "."@, fmt.spec_extension());
    } else {
        lemma_sep_free_concat(stem, "_"@);
        lemma_sep_free_concat(stem + "_"@, mode.spec_suffix());
        lemma_sep_free_concat(stem + "_"@ + mode.spec_suffix(), "."@);
        lemma_sep_free_concat(stem + "_"@ + mode.spec_suffix() + "."@, fmt.spec_extension());
    }
}

/// Under overwrite with an empty requested output directory, the output
/// lands in the input file's own parent directory: the parent of the
/// derived output path equals the parent of the input path.
pub proof fn lemma_overwrite_empty_dir_targets_parent(
    p: Seq<char>,
    mode: OperationMode,
    overwrite: bool,
    fmt: OutputFormat,
)
    ensures
        spec_parent(
            spec_join(
                spec_effective_dir(true, Seq::<char>::empty(), p),
                spec_output_name(spec_stem(spec_file_name(p)), mode, overwrite, fmt),
            ),
        ) == spec_parent(p),
{
    let name = spec_output_name(spec_stem(spec_file_name(p)), mode, overwrite, fmt);
    let dir = spec_parent(p);
    lemma_output_name_sep_free(p, mode, overwrite, fmt);
    lemma_parent_shape(p);
    assert(spec_effective_dir(true, Seq::<char>::empty(), p) == dir);
    lemma_parent_of_join(dir, name);
}

/// The directory a file's output goes to: the request's output directory,
/// or — when overwriting with an empty output directory — the input
/// file's own parent directory.
pub open spec fn spec_effective_dir(
    overwrite: bool,
    output_dir: Seq<char>,
    input_path: Seq<char>,
) -> Seq<char> {
    if overwrite && output_dir.len() == 0 {
        spec_parent(input_path)
    } else {
        output_dir
    }
}

/// Picks the directory one file's output is written to.
pub fn effective_output_dir(overwrite: bool, output_dir: &str, input_path: &str) -> (r: String)
    ensures
        r@ == spec_effective_dir(overwrite, output_dir@, input_path@),
{
    if overwrite && output_dir.unicode_len() == 0 {
        parent_of(input_path).to_owned()
    } else {
        output_dir.to_owned()
    }
}

/// What one file's conversion encodes to, for a resolved format: the
/// dispatched encoder's bytes for the decoded, policy-resized image;
/// nothing where the bytes do not decode or that encode fails.
pub open spec fn spec_convert_encoded(
    input: Seq<u8>,
    fmt: OutputFormat,
    mode: OperationMode,
    quality: Option<u8>,
    rs: ResizeSettings,
) -> Option<Seq<u8>> {
    match decoded_of(input) {
        None => None,
        Some(dec) => {
            let (w, h, px) = dec;
            let (nw, nh) = spec_target_dims(w, h, mode, rs);
            spec_encoded_of(
                fmt,
                mode.spec_should_optimize(),
                quality,
                spec_maybe_resized(px, w, h, mode, rs),
                nw as u32,
                nh as u32,
            )
        },
    }
}

/// Converts one decoded input: resolves the output format (failing with
/// `UnsupportedFormat` before any decode is attempted), decodes the bytes
/// (failing with `Decode`), applies the resize policy, derives the output
/// path, and dispatches to the format's encoder (failing with `Encode`).
/// It succeeds exactly when the format resolves, the bytes decode, and
/// the dispatched encode succeeds.
///
/// On success the output holds exactly the dispatched encoder's bytes for
/// the resized image, the derived output path, and the in-memory pixel
/// dimensions.
pub fn convert_image(
    input_bytes: &Vec<u8>,
    input_path: &str,
    output_dir: &str,
    format: Option<OutputFormat>,
    overwrite: bool,
    operation_mode: OperationMode,
    quality: Option<u8>,
    rs: ResizeSettings,
) -> (r: Result<ConvertOutput, ConvertError>)
    ensures
        (r matches Err(e) && e is UnsupportedFormat) <==> spec_resolved_format(
            format,
            input_path@,
        ) is None,
        (r matches Err(e) && e is Decode) <==> (spec_resolved_format(format, input_path@) is Some
            && decoded_of(input_bytes@) is None),
        (r matches Err(e) && e is Encode) <==> (spec_resolved_format(format, input_path@) matches
            Some(fmt) && decoded_of(input_bytes@) is Some && spec_convert_encoded(
            input_bytes@,
            fmt,
            operation_mode,
            quality,
            rs,
        ) is None),
        r matches Err(e) ==> e is UnsupportedFormat || e is Decode || e is Encode,
        r is Ok <==> (spec_resolved_format(format, input_path@) matches Some(fmt)
            && spec_convert_encoded(input_bytes@, fmt, operation_mode, quality, rs) is Some),
        r matches Ok(out) ==> Some(out.data@) == spec_convert_encoded(
            input_bytes@,
            spec_resolved_format(format, input_path@).unwrap(),
            operation_mode,
            quality,
            rs,
        ),
        r matches Ok(out) ==> {
            &&& spec_resolved_format(format, input_path@) matches Some(fmt)
            &&& decoded_of(input_bytes@) matches Some(dec)
            &&& {
                let (w, h, px) = dec;
                let (nw, nh) = spec_target_dims(w, h, operation_mode, rs);
                &&& out.width == nw
                &&& out.height == nh
                &&& out.output_path@ == spec_join(
                    output_dir@,
                    spec_output_name(
                        spec_stem(spec_file_name(input_path@)),
                        operation_mode,
                        overwrite,
                        spec_resolved_format(format, input_path@).unwrap(),
                    ),
                )
                &&& Some(out.data@) == spec_encoded_of(
                    spec_resolved_format(format, input_path@).unwrap(),
                    operation_mode.spec_should_optimize(),
                    quality,
                    spec_maybe_resized(px, w, h, operation_mode, rs),
                    nw as u32,
                    nh as u32,
                )
            }
        },
{
    let fmt = match resolve_output_format(format, input_path) {
        Some(f) => f,
        None => {
            let mut p = String::new();
            p.append(input_path);
            return Err(ConvertError::UnsupportedFormat(p));
        },
    };
    let img = match decode_image(input_bytes) {
        Ok(i) => i,
        Err(e) => {
            return Err(ConvertError::Decode(e));
        },
    };
    let ghost w0 = img.width;
    let ghost h0 = img.height;
    let ghost px0 = img.pixels@;
    let resized = maybe_resize(img, operation_mode, rs);
    let name = file_name(input_path);
    let fname = output_file_name(name, operation_mode, overwrite, fmt);
    let out_path = join_path(output_dir, fname.as_str());
    let optimize = operation_mode.should_optimize();
    let data = match encode_for_format(&resized, fmt, optimize, quality) {
        Ok(d) => d,
        Err(e) => {
            return Err(ConvertError::Encode(e));
        },
    };
    Ok(ConvertOutput { output_path: out_path, data, width: resized.width, height: resized.height })
}

} // verus!
