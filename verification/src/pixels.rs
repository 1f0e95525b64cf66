//! The decoded pixel buffer: an 8-bit RGBA image held as plain bytes,
//! and the decoder that produces one from encoded file bytes.

use vstd::prelude::*;

verus! {

/// A decoded image: 8-bit RGBA, row-major, 4 bytes per pixel.
pub struct RawImage {
    pub width: u32,
    pub height: u32,
    pub pixels: Vec<u8>,
}

impl RawImage {
    /// The pixel buffer holds exactly 4 bytes for each pixel.
    pub open spec fn wf(&self) -> bool {
        self.pixels@.len() == 4 * (self.width as int) * (self.height as int)
    }

    /// Builds an image from its parts, refusing a buffer of the wrong size.
    pub fn new(width: u32, height: u32, pixels: Vec<u8>) -> (r: Option<RawImage>)
        ensures
            match r {
                Some(img) => img.wf() && img.width == width && img.height == height && img.pixels@
                    == pixels@,
                None => pixels@.len() != 4 * (width as int) * (height as int),
            },
    {
        proof {
            vstd::arithmetic::mul::lemma_mul_upper_bound(
                width as int,
                u32::MAX as int,
                height as int,
                u32::MAX as int,
            );
        }
        let wh: u64 = (width as u64) * (height as u64);
        let len: u64 = pixels.len() as u64;
        if len % 4 == 0 && len / 4 == wh {
            proof {
                assert(pixels@.len() == 4 * (width as int) * (height as int)) by (nonlinear_arith)
                    requires
                        len % 4 == 0,
                        len / 4 == wh,
                        len == pixels@.len(),
                        wh == (width as int) * (height as int),
                ;
            }
            Some(RawImage { width, height, pixels })
        } else {
            proof {
                assert(pixels@.len() != 4 * (width as int) * (height as int)) by (nonlinear_arith)
                    requires
                        len % 4 != 0 || len / 4 != wh,
                        len == pixels@.len(),
                        wh == (width as int) * (height as int),
                ;
            }
            None
        }
    }
}

/// Width and height of an image, in pixels.
#[derive(Debug, Clone, Copy, PartialEq, Eq, Structural)]
pub struct ImageDimensions {
    pub width: u32,
    pub height: u32,
}

/// What decoding a byte stream yields: the dimensions and RGBA pixels of
/// the image it encodes, or nothing when the bytes are not a readable
/// image. Decoding is a function of the bytes alone.
pub uninterp spec fn decoded_of(bytes: Seq<u8>) -> Option<(u32, u32, Seq<u8>)>;

/// Relies on image::load_from_memory and DynamicImage::to_rgba8: the
/// decoded image is a function of the input bytes alone, converted to an
/// RGBA buffer of 4 bytes per pixel of the decoded dimensions.
#[verifier::external_body]
pub(crate) fn decode_rgba(bytes: &Vec<u8>) -> (r: Result<RawImage, String>)
    ensures
        match r {
            Ok(img) => img.wf() && decoded_of(bytes@) == Some(
                (img.width, img.height, img.pixels@),
            ),
            Err(_) => decoded_of(bytes@) is None,
        },
{
    match image::load_from_memory(bytes) {
        Ok(img) => {
            let rgba = img.to_rgba8();
            let (w, h) = rgba.dimensions();
            Ok(RawImage { width: w, height: h, pixels: rgba.into_raw() })
        },
        Err(e) => Err(format!("{}", e)),
    }
}

/// Decodes file bytes into an RGBA image.
pub fn decode_image(bytes: &Vec<u8>) -> (r: Result<RawImage, String>)
    ensures
        match r {
            Ok(img) => img.wf() && decoded_of(bytes@) == Some(
                (img.width, img.height, img.pixels@),
            ),
            Err(_) => decoded_of(bytes@) is None,
        },
{
    decode_rgba(bytes)
}

/// Probes the dimensions of an image given its file bytes.
pub fn get_image_dimensions(bytes: &Vec<u8>) -> (r: Result<ImageDimensions, String>)
    ensures
        match r {
            Ok(d) => decoded_of(bytes@) matches Some(t) && d.width == t.0 && d.height == t.1,
            Err(_) => decoded_of(bytes@) is None,
        },
{
    match decode_rgba(bytes) {
        Ok(img) => Ok(ImageDimensions { width: img.width, height: img.height }),
        Err(e) => Err(e),
    }
}

} // verus!
