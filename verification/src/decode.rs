use vstd::prelude::*;
use vstd::arithmetic::div_mod::lemma_fundamental_div_mod;
use crate::errors::PipelineError;
use crate::grid::{Pixel, PixelGrid};

verus! {

/// Fixed width every image is resized to; it bounds the cost of the color
/// reduction regardless of the source resolution.
pub const TARGET_WIDTH: u32 = 50;

/// Tallest grid the pipeline will build: keeps the RGB buffer length
/// 3 * TARGET_WIDTH * height addressable and the pixel count within the
/// accumulator headroom on any machine.
pub const MAX_GRID_HEIGHT: u32 = 0xFFFF_FFFF / 150;

/// Dimensions (width, height) of the image decoded from a byte sequence, or
/// None when the bytes are not a supported image; a function of the bytes
/// alone.
pub uninterp spec fn decoded_dims(bytes: Seq<u8>) -> Option<(u32, u32)>;

/// The RGB bytes, three per pixel in row-major order, of the image decoded
/// from `bytes` and resampled to exactly `w` by `h` pixels with the
/// pipeline's Lanczos filter; a function of the arguments alone.
pub uninterp spec fn resized_rgb(bytes: Seq<u8>, w: u32, h: u32) -> Seq<u8>;

/// Relies on image::load_from_memory, which auto-detects the container
/// format from the byte stream, and on image::DynamicImage::width / height:
/// whether the bytes decode, and to what dimensions, depends on the bytes
/// alone.
#[verifier::external_body]
fn probe_image(bytes: &Vec<u8>) -> (r: Option<(u32, u32)>)
    ensures
        r == decoded_dims(bytes@),
{
    match image::load_from_memory(bytes.as_slice()) {
        Ok(img) => Some((img.width(), img.height())),
        Err(_) => None,
    }
}

/// Relies on image::load_from_memory (succeeds exactly when the bytes
/// decode), image::DynamicImage::resize_exact with the Lanczos3 filter
/// (yields an image of exactly the requested dimensions),
/// image::DynamicImage::to_rgb8 and image::ImageBuffer::into_raw (the raw
/// buffer of an RGB image holds exactly three bytes per pixel, row-major).
/// Decoding and resampling depend on the bytes and the target size alone.
#[verifier::external_body]
fn decode_resize_rgb(bytes: &Vec<u8>, w: u32, h: u32) -> (r: Option<Vec<u8>>)
    requires
        1 <= w,
        1 <= h,
        3 * (w as int) * (h as int) <= usize::MAX as int,
    ensures
        r is Some <==> decoded_dims(bytes@) is Some,
        r matches Some(p) ==> p@ == resized_rgb(bytes@, w, h) && p@.len() == 3 * (w as nat) * (
        h as nat),
{
    match image::load_from_memory(bytes.as_slice()) {
        Ok(img) => Some(
            img.resize_exact(w, h, image::imageops::FilterType::Lanczos3).to_rgb8().into_raw(),
        ),
        Err(_) => None,
    }
}

/// Aspect-preserving height at the target width: h * TARGET_WIDTH / w
/// rounded to the nearest integer, halves up.
pub open spec fn aspect_height(w: int, h: int) -> int {
    (2 * TARGET_WIDTH * h + w) / (2 * w)
}

/// The height of the grid the pipeline builds: the aspect-preserving
/// height, floored at one pixel row.
pub open spec fn grid_height(w: int, h: int) -> int {
    if aspect_height(w, h) < 1 {
        1
    } else {
        aspect_height(w, h)
    }
}

/// Decoded dimensions the pipeline accepts: at least one pixel each way,
/// and a resized grid that stays within the machine bounds.
pub open spec fn dims_ok(w: int, h: int) -> bool {
    1 <= w && 1 <= h && grid_height(w, h) <= MAX_GRID_HEIGHT
}

/// Whether a byte sequence decodes into a grid the pipeline accepts.
pub open spec fn decode_ok(bytes: Seq<u8>) -> bool {
    match decoded_dims(bytes) {
        Some(d) => dims_ok(d.0 as int, d.1 as int),
        None => false,
    }
}

/// Computes grid_height in machine arithmetic.
pub fn resized_height(w: u32, h: u32) -> (r: u64)
    requires
        1 <= w,
    ensures
        r as int == grid_height(w as int, h as int),
{
    proof {
        assert(TARGET_WIDTH == 50);
        assert(2 * (TARGET_WIDTH as int) * (h as int) == 100 * (h as int));
    }
    let num: u64 = 2 * (TARGET_WIDTH as u64) * (h as u64) + (w as u64);
    let th: u64 = num / (2 * (w as u64));
    if th < 1 {
        1
    } else {
        th
    }
}

/// The pixel sequence packed in an RGB byte buffer, three bytes per pixel.
pub open spec fn group_rgb(s: Seq<u8>) -> Seq<Pixel> {
    Seq::new(
        s.len() / 3,
        |i: int| Pixel { r: s[3 * i], g: s[3 * i + 1], b: s[3 * i + 2] },
    )
}

/// The pixels of the grid the decode step yields for a byte sequence;
/// meaningful when decode_ok holds of the bytes.
pub open spec fn decoded_grid_pixels(bytes: Seq<u8>) -> Seq<Pixel> {
    let d = decoded_dims(bytes)->Some_0;
    group_rgb(resized_rgb(bytes, TARGET_WIDTH, grid_height(d.0 as int, d.1 as int) as u32))
}

/// Unpacks an RGB byte buffer into pixels.
fn rgb_vec_to_pixels(raw: &Vec<u8>) -> (r: Vec<Pixel>)
    requires
        raw@.len() % 3 == 0,
    ensures
        r@ == group_rgb(raw@),
{
    proof {
        lemma_fundamental_div_mod(raw@.len() as int, 3);
    }
    let n: usize = raw.len() / 3;
    let mut out: Vec<Pixel> = Vec::new();
    let mut i: usize = 0;
    while i < n
        invariant
            n == raw@.len() / 3,
            3 * n == raw@.len(),
            raw@.len() <= usize::MAX,
            i <= n,
            out@ == group_rgb(raw@).subrange(0, i as int),
        decreases n - i,
    {
        proof {
            assert(3 * (i as int) + 2 < raw@.len());
        }
        let p = Pixel { r: raw[3 * i], g: raw[3 * i + 1], b: raw[3 * i + 2] };
        out.push(p);
        i = i + 1;
        assert(out@ =~= group_rgb(raw@).subrange(0, i as int));
    }
    assert(group_rgb(raw@).subrange(0, n as int) =~= group_rgb(raw@));
    out
}

/// Turns raw image bytes into the pixel grid the reducer works on: the
/// container format is auto-detected from the bytes, the image is resampled
/// to TARGET_WIDTH pixels wide and the aspect-preserving rounded height
/// (floored at one row), and the pixels are unpacked as 8-bit RGB. Fails
/// with DecodeError exactly when the bytes do not decode as a supported
/// image, or decode to dimensions outside the machine bounds.
pub fn decode_and_resize(bytes: &Vec<u8>) -> (r: Result<PixelGrid, PipelineError>)
    ensures
        match r {
            Ok(g) => decode_ok(bytes@) && g.wf() && g.width == TARGET_WIDTH && ({
                let d = decoded_dims(bytes@)->Some_0;
                g.height as int == grid_height(d.0 as int, d.1 as int)
            }) && g.pixels@ == decoded_grid_pixels(bytes@) && g.pixels@.len() > 0,
            Err(e) => e == PipelineError::DecodeError && !decode_ok(bytes@),
        },
{
    match probe_image(bytes) {
        None => Err(PipelineError::DecodeError),
        Some((w, h)) => {
            if w < 1 || h < 1 {
                return Err(PipelineError::DecodeError);
            }
            let th64 = resized_height(w, h);
            if th64 > MAX_GRID_HEIGHT as u64 {
                return Err(PipelineError::DecodeError);
            }
            let th = th64 as u32;
            match decode_resize_rgb(bytes, TARGET_WIDTH, th) {
                None => {
                    // unreachable: the probe above decoded these same bytes
                    proof {
                        assert(false);
                    }
                    Err(PipelineError::DecodeError)
                },
                Some(raw) => {
                    proof {
                        assert(raw@.len() % 3 == 0);
                    }
                    let pixels = rgb_vec_to_pixels(&raw);
                    proof {
                        assert(pixels@.len() == 50 * (th as int));
                    }
                    Ok(PixelGrid { width: TARGET_WIDTH, height: th, pixels })
                },
            }
        },
    }
}

/// The color the pipeline computes for a raw image: the mean color of its
/// decoded, resized pixel grid. Meaningful when decode_ok holds of the
/// bytes.
pub open spec fn computed_color(bytes: Seq<u8>) -> Seq<char> {
    crate::reduce::average_color_spec(decoded_grid_pixels(bytes))
}

/// Determinism: the color computed for a byte sequence is a function of the
/// bytes alone, so equal byte sequences yield equal colors on every call.
pub proof fn lemma_computed_color_deterministic(b1: Seq<u8>, b2: Seq<u8>)
    requires
        b1 == b2,
    ensures
        computed_color(b1) == computed_color(b2),
{
}

/// Resize aspect preservation: for accepted dimensions with w at most
/// 2 * TARGET_WIDTH * h, the grid height is exactly the nearest integer to
/// h * TARGET_WIDTH / w (halves up): it is off from the exact ratio by at
/// most half a pixel, witnessed by the bracketing inequalities below.
pub proof fn lemma_grid_height_is_round(w: int, h: int)
    requires
        1 <= w,
        1 <= h,
        w <= 2 * TARGET_WIDTH * h,
    ensures
        grid_height(w, h) == aspect_height(w, h),
        2 * w * aspect_height(w, h) <= 2 * TARGET_WIDTH * h + w,
        2 * TARGET_WIDTH * h + w < 2 * w * aspect_height(w, h) + 2 * w,
{
    let num = 2 * TARGET_WIDTH * h + w;
    let den = 2 * w;
    lemma_fundamental_div_mod(num, den);
    assert(0 <= num % den < den) by (nonlinear_arith)
        requires
            den > 0,
    ;
    assert(num == den * (num / den) + num % den);
    assert(den * (num / den) <= num);
    assert(num < den * (num / den) + den);
    assert(den * (num / den) == 2 * w * aspect_height(w, h));
    assert(aspect_height(w, h) >= 1) by {
        assert(num >= den);
        assert(den * (num / den) + num % den >= den);
        if num / den < 1 {
            assert(num / den <= 0);
            assert(den * (num / den) <= 0) by (nonlinear_arith)
                requires
                    den > 0,
                    num / den <= 0,
            ;
            assert(num < den);
        }
    }
}

} // verus!
