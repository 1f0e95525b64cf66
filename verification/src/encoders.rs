//! Encoder set: one encoding strategy per output format. Lossy and
//! lossless WebP, quantized-and-optimized or plain PNG, JPEG, QOI, and
//! generic container encodes for TIFF and BMP. Every encoder takes an RGBA
//! pixel buffer and returns the encoded file bytes.

use vstd::prelude::*;
use imagequant::RGBA;
use crate::formats::OutputFormat;
use crate::pixels::RawImage;

verus! {

/// The quality that takes effect: the requested one, or the format's
/// default when absent, clamped to at most 100.
pub open spec fn spec_eff_quality(q: Option<u8>, default: u8) -> u8 {
    let v = match q {
        Some(v) => v,
        None => default,
    };
    if v > 100 {
        100
    } else {
        v
    }
}

/// Clamps a requested quality to 0..=100, defaulting when absent.
pub fn eff_quality(q: Option<u8>, default: u8) -> (r: u8)
    ensures
        r == spec_eff_quality(q, default),
        r <= 100,
{
    let v = match q {
        Some(v) => v,
        None => default,
    };
    if v > 100 {
        100
    } else {
        v
    }
}

/// What lossy WebP encoding yields for an RGBA image and a quality, or
/// nothing where the encode fails: both are functions of the pixels, the
/// dimensions and the quality alone.
pub uninterp spec fn webp_lossy_of(px: Seq<u8>, w: u32, h: u32, q: u8) -> Option<Seq<u8>>;

/// What lossless WebP encoding yields for an RGBA image, or nothing where
/// the encode fails.
pub uninterp spec fn webp_lossless_of(px: Seq<u8>, w: u32, h: u32) -> Option<Seq<u8>>;

/// What JPEG encoding yields for an RGBA image and a quality; defined
/// wherever both dimensions lie in 1..=65535, the exact range the encoder
/// accepts.
pub uninterp spec fn jpeg_of(px: Seq<u8>, w: u32, h: u32, q: u8) -> Seq<u8>;

/// What QOI encoding yields for an RGBA image; defined wherever the pixel
/// count lies in 1..=400_000_000, the exact range the encoder accepts.
pub uninterp spec fn qoi_of(px: Seq<u8>, w: u32, h: u32) -> Seq<u8>;

/// What a plain lossless PNG encode yields for an RGBA image, or nothing
/// where the encode fails.
pub uninterp spec fn png_of(px: Seq<u8>, w: u32, h: u32) -> Option<Seq<u8>>;

/// What a TIFF container encode yields for an RGBA image, or nothing
/// where the encode fails.
pub uninterp spec fn tiff_of(px: Seq<u8>, w: u32, h: u32) -> Option<Seq<u8>>;

/// What a BMP container encode yields for an RGBA image, or nothing where
/// the encode fails.
pub uninterp spec fn bmp_of(px: Seq<u8>, w: u32, h: u32) -> Option<Seq<u8>>;

/// What palette quantization yields for an RGBA image and a quality — the
/// palette as interleaved RGBA bytes, and one palette index per pixel —
/// or nothing where quantization fails.
pub uninterp spec fn quantized_of(px: Seq<u8>, w: u32, h: u32, q: u8) -> Option<
    (Seq<u8>, Seq<u8>),
>;

/// What writing an indexed-color PNG yields for dimensions, an RGB
/// palette, an optional transparency table, and one palette index per
/// pixel; nothing where the write fails.
pub uninterp spec fn indexed_png_of(
    w: u32,
    h: u32,
    palette_rgb: Seq<u8>,
    trns: Option<Seq<u8>>,
    idx: Seq<u8>,
) -> Option<Seq<u8>>;

/// What the lossless PNG re-optimization pass yields for given PNG bytes,
/// or nothing where the pass fails.
pub uninterp spec fn oxipng_of(data: Seq<u8>) -> Option<Seq<u8>>;

/// Relies on webp::Encoder::from_rgba and encode_simple in lossy mode:
/// the encoding, and whether it succeeds, are functions of the pixels,
/// dimensions and quality alone. from_rgba panics on a buffer shorter
/// than 4 bytes per pixel, which the well-formedness bound rules out, and
/// the stride arithmetic in the picture setup overflows an i32 for widths
/// of 2^29 and more, so both dimensions are held to libwebp's own 16383
/// limit, beyond which every encode fails anyway.
#[verifier::external_body]
fn webp_encode_lossy(img: &RawImage, quality: u8) -> (r: Result<Vec<u8>, String>)
    requires
        img.wf(),
        quality <= 100,
        img.width <= 16383,
        img.height <= 16383,
    ensures
        match r {
            Ok(v) => webp_lossy_of(img.pixels@, img.width, img.height, quality) == Some(v@),
            Err(_) => webp_lossy_of(img.pixels@, img.width, img.height, quality) is None,
        },
{
    let enc = webp::Encoder::from_rgba(img.pixels.as_slice(), img.width, img.height);
    match enc.encode_simple(false, quality.into()) {
        Ok(m) => Ok(m.to_vec()),
        Err(e) => Err(format!("Failed to encode WebP: {:?}", e)),
    }
}

/// Relies on webp::Encoder::from_rgba and encode_simple in lossless mode:
/// the encoding, and whether it succeeds, are functions of the pixels and
/// dimensions alone. The quality argument is ignored in lossless mode.
/// The dimension bound rules out the same stride overflow as in the lossy
/// wrapper.
#[verifier::external_body]
fn webp_encode_lossless(img: &RawImage) -> (r: Result<Vec<u8>, String>)
    requires
        img.wf(),
        img.width <= 16383,
        img.height <= 16383,
    ensures
        match r {
            Ok(v) => webp_lossless_of(img.pixels@, img.width, img.height) == Some(v@),
            Err(_) => webp_lossless_of(img.pixels@, img.width, img.height) is None,
        },
{
    let enc = webp::Encoder::from_rgba(img.pixels.as_slice(), img.width, img.height);
    match enc.encode_simple(true, 75u8.into()) {
        Ok(m) => Ok(m.to_vec()),
        Err(e) => Err(format!("Failed to encode WebP: {:?}", e)),
    }
}

/// Relies on image::codecs::jpeg::JpegEncoder::new_with_quality and
/// encode: the RGBA buffer is reduced to RGB and encoded, a function of
/// the pixels, dimensions and quality alone. The encoder itself clamps
/// quality below 1 up to 1, and — writing to an in-memory buffer, with no
/// EXIF or ICC data set — fails exactly when a dimension lies outside
/// 1..=65535.
#[verifier::external_body]
fn jpeg_encode(img: &RawImage, quality: u8) -> (r: Result<Vec<u8>, String>)
    requires
        img.wf(),
        quality <= 100,
    ensures
        r is Ok <==> (1 <= img.width <= 65535 && 1 <= img.height <= 65535),
        r matches Ok(v) ==> v@ == jpeg_of(img.pixels@, img.width, img.height, quality),
{
    let buf = image::RgbaImage::from_raw(img.width, img.height, img.pixels.clone()).unwrap();
    let rgb = image::DynamicImage::ImageRgba8(buf).to_rgb8();
    let mut out: Vec<u8> = Vec::new();
    let mut enc = image::codecs::jpeg::JpegEncoder::new_with_quality(&mut out, quality);
    match enc.encode(rgb.as_raw(), img.width, img.height, image::ExtendedColorType::Rgb8) {
        Ok(()) => Ok(out),
        Err(e) => Err(format!("Failed to encode JPEG: {}", e)),
    }
}

/// Relies on qoi::encode_to_vec: the encoding is a function of the pixels
/// and dimensions alone, and — given 4 bytes per pixel — it fails exactly
/// when the pixel count is zero or above 400,000,000, the header's own
/// bounds.
#[verifier::external_body]
fn qoi_encode(img: &RawImage) -> (r: Result<Vec<u8>, String>)
    requires
        img.wf(),
    ensures
        r is Ok <==> 0 < (img.width as int) * (img.height as int) <= 400_000_000,
        r matches Ok(v) ==> v@ == qoi_of(img.pixels@, img.width, img.height),
{
    match qoi::encode_to_vec(&img.pixels, img.width, img.height) {
        Ok(v) => Ok(v),
        Err(e) => Err(format!("Failed to encode QOI: {}", e)),
    }
}

/// Relies on image::DynamicImage::write_to with a fixed target format:
/// the container encoding, and whether it succeeds, are functions of the
/// pixels, the dimensions and the format alone. A small integer picks the
/// target format, so one trusted body serves PNG, TIFF and BMP.
#[verifier::external_body]
fn image_container_encode(img: &RawImage, fmt_tag: u8) -> (r: Result<Vec<u8>, String>)
    requires
        img.wf(),
        fmt_tag == 0 || fmt_tag == 1 || fmt_tag == 2,
    ensures
        r matches Ok(v) ==> match fmt_tag {
            0u8 => png_of(img.pixels@, img.width, img.height) == Some(v@),
            1u8 => tiff_of(img.pixels@, img.width, img.height) == Some(v@),
            _ => bmp_of(img.pixels@, img.width, img.height) == Some(v@),
        },
        r is Err ==> match fmt_tag {
            0u8 => png_of(img.pixels@, img.width, img.height) is None,
            1u8 => tiff_of(img.pixels@, img.width, img.height) is None,
            _ => bmp_of(img.pixels@, img.width, img.height) is None,
        },
{
    let buf = image::RgbaImage::from_raw(img.width, img.height, img.pixels.clone()).unwrap();
    let dynimg = image::DynamicImage::ImageRgba8(buf);
    let format = match fmt_tag {
        0 => image::ImageFormat::Png,
        1 => image::ImageFormat::Tiff,
        _ => image::ImageFormat::Bmp,
    };
    let mut out = std::io::Cursor::new(Vec::new());
    match dynimg.write_to(&mut out, format) {
        Ok(()) => Ok(out.into_inner()),
        Err(e) => Err(format!("Failed to save image: {}", e)),
    }
}

/// Relies on imagequant (liq attributes, new_image, quantize, remapped):
/// quantization with quality range 0..=quality, speed 5 and full ordered
/// dithering, and whether it succeeds, are functions of the pixels,
/// dimensions and quality alone. The palette holds at most 256 RGBA
/// entries; the bitmap holds one byte per pixel.
#[verifier::external_body]
fn quantize_rgba(img: &RawImage, quality: u8) -> (r: Result<(Vec<u8>, Vec<u8>), String>)
    requires
        img.wf(),
        quality <= 100,
    ensures
        match r {
            Ok(p) => {
                &&& quantized_of(img.pixels@, img.width, img.height, quality) == Some(
                    (p.0@, p.1@),
                )
                &&& p.0@.len() % 4 == 0
                &&& p.0@.len() <= 1024
                &&& p.1@.len() == (img.width as int) * (img.height as int)
            },
            Err(_) => quantized_of(img.pixels@, img.width, img.height, quality) is None,
        },
{
    (|| {
        let mut liq = imagequant::new();
        liq.set_quality(0, quality)?;
        liq.set_speed(5)?;
        let px: Vec<RGBA> = img.pixels.chunks_exact(4).map(
            |p| RGBA::from(<[u8; 4]>::try_from(p).unwrap()),
        ).collect();
        let mut qimg = liq.new_image(px, img.width as usize, img.height as usize, 0u8.into())?;
        let mut res = liq.quantize(&mut qimg)?;
        res.set_dithering_level(true.into())?;
        res.remapped(&mut qimg)
    })().map(|(p, x)| (p.into_iter().flat_map(<[u8; 4]>::from).collect(), x)).map_err(
        |e| format!("Failed to quantize: {e}"),
    )
}

/// Relies on png::Encoder: writes an 8-bit indexed-color PNG with the
/// given palette, optional transparency table and index bitmap. The
/// write, and whether it succeeds, are functions of its arguments alone.
#[verifier::external_body]
fn write_indexed_png(
    w: u32,
    h: u32,
    palette_rgb: &Vec<u8>,
    trns: &Option<Vec<u8>>,
    idx: &Vec<u8>,
) -> (r: Result<Vec<u8>, String>)
    ensures
        ({
            let named = indexed_png_of(
                w,
                h,
                palette_rgb@,
                match trns {
                    Some(t) => Some(t@),
                    None => None,
                },
                idx@,
            );
            match r {
                Ok(v) => named == Some(v@),
                Err(_) => named is None,
            }
        }),
{
    let mut png_data: Vec<u8> = Vec::new();
    {
        let writer = std::io::BufWriter::new(&mut png_data);
        let mut enc = png::Encoder::new(writer, w, h);
        enc.set_color(png::ColorType::Indexed);
        enc.set_depth(png::BitDepth::Eight);
        enc.set_palette(palette_rgb.clone());
        if let Some(t) = trns {
            enc.set_trns(t.clone());
        }
        let mut wr = enc.write_header().map_err(|e| format!("Failed to write PNG header: {}", e))?;
        wr.write_image_data(idx).map_err(|e| format!("Failed to write PNG data: {}", e))?;
    }
    Ok(png_data)
}

/// Relies on oxipng::optimize_from_memory at maximum compression, with
/// safe chunk stripping and alpha optimization: the recompressed PNG, and
/// whether the pass succeeds, are functions of the input bytes alone.
#[verifier::external_body]
fn oxipng_optimize(data: &Vec<u8>) -> (r: Result<Vec<u8>, String>)
    ensures
        match r {
            Ok(v) => oxipng_of(data@) == Some(v@),
            Err(_) => oxipng_of(data@) is None,
        },
{
    let options = oxipng::Options {
        strip: oxipng::StripChunks::Safe,
        optimize_alpha: true,
        ..oxipng::Options::max_compression()
    };
    match oxipng::optimize_from_memory(data, &options) {
        Ok(v) => Ok(v),
        Err(e) => Err(format!("Failed to optimize PNG: {}", e)),
    }
}

/// The RGB bytes of an interleaved RGBA palette: every fourth byte dropped.
pub open spec fn spec_rgb_of(pal: Seq<u8>) -> Seq<u8> {
    Seq::new((pal.len() / 4 * 3) as nat, |i: int| pal[4 * (i / 3) + i % 3])
}

/// The alpha byte of one RGBA palette entry.
pub open spec fn pal_alpha(pal: Seq<u8>, k: int) -> u8 {
    pal[4 * k + 3]
}

/// Whether any palette entry is not fully opaque.
pub open spec fn spec_has_alpha(pal: Seq<u8>) -> bool {
    exists|k: int| 0 <= k < pal.len() / 4 && pal_alpha(pal, k) != 255
}

/// One palette entry's RGB bytes stand at their place in the palette's
/// RGB table.
pub open spec fn rgb_entry_matches(rgb: Seq<u8>, pal: Seq<u8>, j: int) -> bool {
    &&& rgb[3 * j] == pal[4 * j]
    &&& rgb[3 * j + 1] == pal[4 * j + 1]
    &&& rgb[3 * j + 2] == pal[4 * j + 2]
}

/// The transparency table of an RGBA palette: the alpha of each entry,
/// present only when some entry is not fully opaque.
pub open spec fn spec_trns_of(pal: Seq<u8>) -> Option<Seq<u8>> {
    if spec_has_alpha(pal) {
        Some(Seq::new((pal.len() / 4) as nat, |i: int| pal[4 * i + 3]))
    } else {
        None
    }
}

/// What the full PNG optimization path yields: quantize, write an
/// indexed-color PNG (with a transparency table exactly when the palette
/// needs one), then re-optimize losslessly. Nothing when any stage fails;
/// no stage is skipped.
pub open spec fn spec_png_compressed(px: Seq<u8>, w: u32, h: u32, q: u8) -> Option<Seq<u8>> {
    match quantized_of(px, w, h, q) {
        None => None,
        Some(quantized) => {
            let (pal, idx) = quantized;
            match indexed_png_of(w, h, spec_rgb_of(pal), spec_trns_of(pal), idx) {
                None => None,
                Some(data) => oxipng_of(data),
            }
        },
    }
}

/// Encodes an image as lossy WebP with the given quality (clamped to
/// 100). Succeeds exactly when both dimensions are at most 16383 —
/// libwebp's limit — and the encode itself goes through.
pub fn save_webp_lossy(img: &RawImage, quality: u8) -> (r: Result<Vec<u8>, String>)
    requires
        img.wf(),
    ensures
        r is Ok <==> (img.width <= 16383 && img.height <= 16383 && webp_lossy_of(
            img.pixels@,
            img.width,
            img.height,
            spec_eff_quality(Some(quality), 75),
        ) is Some),
        r matches Ok(v) ==> webp_lossy_of(
            img.pixels@,
            img.width,
            img.height,
            spec_eff_quality(Some(quality), 75),
        ) == Some(v@),
{
    if img.width > 16383 || img.height > 16383 {
        return Err(String::from_str("Failed to encode WebP: dimensions exceed 16383"));
    }
    let q = eff_quality(Some(quality), 75);
    webp_encode_lossy(img, q)
}

/// Encodes an image as lossless WebP. Succeeds exactly when both
/// dimensions are at most 16383 — libwebp's limit — and the encode itself
/// goes through.
pub fn save_webp_lossless(img: &RawImage) -> (r: Result<Vec<u8>, String>)
    requires
        img.wf(),
    ensures
        r is Ok <==> (img.width <= 16383 && img.height <= 16383 && webp_lossless_of(
            img.pixels@,
            img.width,
            img.height,
        ) is Some),
        r matches Ok(v) ==> webp_lossless_of(img.pixels@, img.width, img.height) == Some(v@),
{
    if img.width > 16383 || img.height > 16383 {
        return Err(String::from_str("Failed to encode WebP: dimensions exceed 16383"));
    }
    webp_encode_lossless(img)
}

/// Encodes an image as JPEG with the given quality (clamped to 100).
/// Succeeds exactly when both dimensions lie in 1..=65535.
pub fn save_jpeg(img: &RawImage, quality: u8) -> (r: Result<Vec<u8>, String>)
    requires
        img.wf(),
    ensures
        r is Ok <==> (1 <= img.width <= 65535 && 1 <= img.height <= 65535),
        r matches Ok(v) ==> v@ == jpeg_of(
            img.pixels@,
            img.width,
            img.height,
            spec_eff_quality(Some(quality), 85),
        ),
{
    let q = eff_quality(Some(quality), 85);
    jpeg_encode(img, q)
}

/// Encodes an image as QOI; always lossless, quality does not apply.
/// Succeeds exactly when the pixel count lies in 1..=400_000_000.
pub fn save_qoi(img: &RawImage) -> (r: Result<Vec<u8>, String>)
    requires
        img.wf(),
    ensures
        r is Ok <==> 0 < (img.width as int) * (img.height as int) <= 400_000_000,
        r matches Ok(v) ==> v@ == qoi_of(img.pixels@, img.width, img.height),
{
    qoi_encode(img)
}

/// Encodes an image as a plain lossless PNG, without quantization.
/// Succeeds exactly when the PNG encode does.
pub fn save_png_plain(img: &RawImage) -> (r: Result<Vec<u8>, String>)
    requires
        img.wf(),
    ensures
        r is Ok <==> png_of(img.pixels@, img.width, img.height) is Some,
        r matches Ok(v) ==> png_of(img.pixels@, img.width, img.height) == Some(v@),
{
    image_container_encode(img, 0)
}

/// Encodes an image as TIFF; quality does not apply. Succeeds exactly
/// when the TIFF encode does.
pub fn save_tiff(img: &RawImage) -> (r: Result<Vec<u8>, String>)
    requires
        img.wf(),
    ensures
        r is Ok <==> tiff_of(img.pixels@, img.width, img.height) is Some,
        r matches Ok(v) ==> tiff_of(img.pixels@, img.width, img.height) == Some(v@),
{
    image_container_encode(img, 1)
}

/// Encodes an image as BMP; quality does not apply. Succeeds exactly when
/// the BMP encode does.
pub fn save_bmp(img: &RawImage) -> (r: Result<Vec<u8>, String>)
    requires
        img.wf(),
    ensures
        r is Ok <==> bmp_of(img.pixels@, img.width, img.height) is Some,
        r matches Ok(v) ==> bmp_of(img.pixels@, img.width, img.height) == Some(v@),
{
    image_container_encode(img, 2)
}

/// Encodes an image as a quantized, re-optimized PNG: quantizes to at
/// most `quality` (clamped to 100), writes an indexed-color PNG whose
/// transparency table is present exactly when a palette entry is not fully
/// opaque, and runs the lossless re-optimization pass. Succeeds exactly
/// when every stage does; no stage is skipped, and each stage's failure
/// surfaces as a descriptive error.
pub fn save_png_compressed(img: &RawImage, quality: u8) -> (r: Result<Vec<u8>, String>)
    requires
        img.wf(),
    ensures
        r is Ok <==> spec_png_compressed(
            img.pixels@,
            img.width,
            img.height,
            spec_eff_quality(Some(quality), 90),
        ) is Some,
        r matches Ok(v) ==> spec_png_compressed(
            img.pixels@,
            img.width,
            img.height,
            spec_eff_quality(Some(quality), 90),
        ) == Some(v@),
{
    let q = eff_quality(Some(quality), 90);
    let (pal, idx) = match quantize_rgba(img, q) {
        Ok(p) => p,
        Err(e) => {
            return Err(e);
        },
    };
    let n_entries: usize = pal.len() / 4;

    let mut rgb: Vec<u8> = Vec::new();
    let mut k: usize = 0;
    while k < n_entries
        invariant
            n_entries == pal@.len() / 4,
            pal@.len() % 4 == 0,
            pal@.len() <= 1024,
            pal@.len() == pal.len(),
            k <= n_entries,
            rgb@.len() == 3 * k,
            forall|j: int| 0 <= j < k ==> #[trigger] rgb_entry_matches(rgb@, pal@, j),
        decreases n_entries - k,
    {
        proof {
            assert(4 * (k as int) + 3 < pal@.len() || 4 * (k as int) + 4 == pal@.len());
        }
        let ghost rgb0 = rgb@;
        rgb.push(pal[4 * k]);
        rgb.push(pal[4 * k + 1]);
        rgb.push(pal[4 * k + 2]);
        proof {
            assert forall|j: int| 0 <= j < k + 1 implies #[trigger] rgb_entry_matches(
                rgb@,
                pal@,
                j,
            ) by {
                if j < k {
                    assert(rgb_entry_matches(rgb0, pal@, j));
                    assert(rgb@[3 * j] == rgb0[3 * j]);
                    assert(rgb@[3 * j + 1] == rgb0[3 * j + 1]);
                    assert(rgb@[3 * j + 2] == rgb0[3 * j + 2]);
                } else {
                    assert(rgb@[3 * j] == pal@[4 * j]);
                    assert(rgb@[3 * j + 1] == pal@[4 * j + 1]);
                    assert(rgb@[3 * j + 2] == pal@[4 * j + 2]);
                }
            }
        }
        k = k + 1;
    }
    proof {
        assert(rgb@ =~= spec_rgb_of(pal@)) by {
            assert(rgb@.len() == spec_rgb_of(pal@).len());
            assert forall|i: int| 0 <= i < rgb@.len() implies rgb@[i] == spec_rgb_of(pal@)[i] by {
                let j = i / 3;
                let m = i % 3;
                assert(i == 3 * j + m);
                assert(0 <= j < n_entries);
                assert(rgb_entry_matches(rgb@, pal@, j));
            }
        }
    }

    let mut has_alpha = false;
    let mut k2: usize = 0;
    while k2 < n_entries
        invariant
            n_entries == pal@.len() / 4,
            pal@.len() % 4 == 0,
            pal@.len() <= 1024,
            pal@.len() == pal.len(),
            k2 <= n_entries,
            has_alpha == exists|j: int| 0 <= j < k2 && pal_alpha(pal@, j) != 255,
        decreases n_entries - k2,
    {
        proof {
            assert(4 * (k2 as int) + 3 < pal@.len() || 4 * (k2 as int) + 4 == pal@.len());
        }
        if pal[4 * k2 + 3] != 255 {
            proof {
                assert(pal_alpha(pal@, k2 as int) != 255);
            }
            has_alpha = true;
        }
        k2 = k2 + 1;
    }

    let trns: Option<Vec<u8>> = if has_alpha {
        let mut t: Vec<u8> = Vec::new();
        let mut k3: usize = 0;
        while k3 < n_entries
            invariant
                n_entries == pal@.len() / 4,
                pal@.len() % 4 == 0,
                pal@.len() <= 1024,
                pal@.len() == pal.len(),
                k3 <= n_entries,
                t@.len() == k3,
                forall|j: int| 0 <= j < k3 ==> t@[j] == pal_alpha(pal@, j),
            decreases n_entries - k3,
        {
            proof {
                assert(4 * (k3 as int) + 3 < pal@.len() || 4 * (k3 as int) + 4 == pal@.len());
            }
            t.push(pal[4 * k3 + 3]);
            proof {
                assert(t@[k3 as int] == pal_alpha(pal@, k3 as int));
            }
            k3 = k3 + 1;
        }
        proof {
            assert(t@ =~= Seq::new((pal@.len() / 4) as nat, |i: int| pal@[4 * i + 3]));
        }
        Some(t)
    } else {
        None
    };
    proof {
        assert(match trns {
            Some(t) => Some(t@),
            None => None,
        } == spec_trns_of(pal@));
    }

    let png_data = match write_indexed_png(img.width, img.height, &rgb, &trns, &idx) {
        Ok(v) => v,
        Err(e) => {
            return Err(e);
        },
    };
    match oxipng_optimize(&png_data) {
        Ok(v) => Ok(v),
        Err(e) => Err(e),
    }
}

/// The bytes one file's encode yields, per format and optimization state,
/// or nothing where that encode fails: lossy WebP (default quality 75) or
/// quantized PNG (default 90) or JPEG (default 85) when optimizing;
/// lossless WebP, plain PNG or JPEG at fixed quality 95 when not; QOI,
/// TIFF and BMP always encode the same way.
pub open spec fn spec_encoded_of(
    fmt: OutputFormat,
    optimize: bool,
    quality: Option<u8>,
    px: Seq<u8>,
    w: u32,
    h: u32,
) -> Option<Seq<u8>> {
    match fmt {
        OutputFormat::Webp => if w > 16383 || h > 16383 {
            None
        } else if optimize {
            webp_lossy_of(px, w, h, spec_eff_quality(quality, 75))
        } else {
            webp_lossless_of(px, w, h)
        },
        OutputFormat::Png => if optimize {
            spec_png_compressed(px, w, h, spec_eff_quality(quality, 90))
        } else {
            png_of(px, w, h)
        },
        OutputFormat::Jpeg => if 1 <= w <= 65535 && 1 <= h <= 65535 {
            if optimize {
                Some(jpeg_of(px, w, h, spec_eff_quality(quality, 85)))
            } else {
                Some(jpeg_of(px, w, h, 95))
            }
        } else {
            None
        },
        OutputFormat::Qoi => if 0 < w * h <= 400_000_000 {
            Some(qoi_of(px, w, h))
        } else {
            None
        },
        OutputFormat::Tiff => tiff_of(px, w, h),
        OutputFormat::Bmp => bmp_of(px, w, h),
    }
}

/// Dispatches one image to the matching encoding strategy. Succeeds
/// exactly when that strategy's encode does.
pub fn encode_for_format(
    img: &RawImage,
    fmt: OutputFormat,
    optimize: bool,
    quality: Option<u8>,
) -> (r: Result<Vec<u8>, String>)
    requires
        img.wf(),
    ensures
        r is Ok <==> spec_encoded_of(
            fmt,
            optimize,
            quality,
            img.pixels@,
            img.width,
            img.height,
        ) is Some,
        r matches Ok(v) ==> spec_encoded_of(
            fmt,
            optimize,
            quality,
            img.pixels@,
            img.width,
            img.height,
        ) == Some(v@),
{
    match fmt {
        OutputFormat::Webp => {
            if optimize {
                save_webp_lossy(img, eff_quality(quality, 75))
            } else {
                save_webp_lossless(img)
            }
        },
        OutputFormat::Png => {
            if optimize {
                save_png_compressed(img, eff_quality(quality, 90))
            } else {
                save_png_plain(img)
            }
        },
        OutputFormat::Jpeg => {
            if optimize {
                save_jpeg(img, eff_quality(quality, 85))
            } else {
                save_jpeg(img, 95)
            }
        },
        OutputFormat::Qoi => save_qoi(img),
        OutputFormat::Tiff => save_tiff(img),
        OutputFormat::Bmp => save_bmp(img),
    }
}

} // verus!
