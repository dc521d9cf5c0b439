//! Post-processing of a rasterized page: quantize the RGBA pixel buffer to
//! 8-bit grayscale with the image crate's fixed luma weighting, and encode
//! it losslessly.
//!
//! Nothing here resizes: a buffer that does not match the stated dimensions
//! is refused, and degenerate dimensions are clamped one layer up, before
//! any pixel exists.

use vstd::prelude::*;

use crate::error::RenderError;

verus! {

/// The grayscale bytes the image crate's RGBA-to-luma conversion produces;
/// a function of the pixel bytes alone.
pub uninterp spec fn luma_of(rgba: Seq<u8>) -> Seq<u8>;

/// The encoded image the image crate's PNG encoder produces for a grayscale
/// buffer of the given dimensions; a function of its arguments alone.
pub uninterp spec fn png_of(gray: Seq<u8>, width: int, height: int) -> Seq<u8>;

/// Relies on the image crate's `into_luma8`: a fixed, documented luma
/// weighting applied pixel by pixel, keeping the dimensions.
#[verifier::external_body]
fn grayscale_of_rgba(rgba: &Vec<u8>, width: u32, height: u32) -> (r: Vec<u8>)
    requires
        rgba@.len() == 4 * width * height,
    ensures
        r@ == luma_of(rgba@),
        r@.len() == width * height,
{
    let buffer: image::ImageBuffer<image::Rgba<u8>, Vec<u8>> = image::ImageBuffer::from_vec(
        width,
        height,
        rgba.clone(),
    ).unwrap();
    image::DynamicImage::ImageRgba8(buffer).into_luma8().into_raw()
}

/// Relies on the image crate's PNG encoder: lossless and deterministic for
/// a given buffer. Its only refusals are zero dimensions and a buffer that
/// does not match them, both excluded here, and writing into a vector
/// cannot fail, so the encode always succeeds on the admitted inputs.
#[verifier::external_body]
fn encode_png_gray(gray: &Vec<u8>, width: u32, height: u32) -> (r: Vec<u8>)
    requires
        gray@.len() == width * height,
        width >= 1,
        height >= 1,
    ensures
        r@ == png_of(gray@, width as int, height as int),
{
    let buffer: image::ImageBuffer<image::Luma<u8>, Vec<u8>> =
        image::ImageBuffer::from_vec(width, height, gray.clone()).unwrap();
    let mut out: Vec<u8> = Vec::new();
    image::DynamicImage::ImageLuma8(buffer)
        .write_to(&mut std::io::Cursor::new(&mut out), image::ImageFormat::Png)
        .unwrap();
    out
}

/// Turn one rasterized page into an encoded grayscale image.
///
/// A pixel buffer that does not match its stated dimensions, or an empty
/// page, is a rasterization failure; otherwise the result is exactly the
/// encoded luma reduction of the buffer.
pub fn encode_page_image(rgba: Vec<u8>, width: u32, height: u32) -> (r: Result<
    Vec<u8>,
    RenderError,
>)
    ensures
        (width == 0 || height == 0 || rgba@.len() != 4 * width * height) ==> (r matches Err(e)
            && e == RenderError::RasterizeFailure),
        (width >= 1 && height >= 1 && rgba@.len() == 4 * width * height) ==> (r matches Ok(b)
            && b@ == png_of(luma_of(rgba@), width as int, height as int)),
{
    if width == 0 || height == 0 {
        return Err(RenderError::RasterizeFailure);
    }
    proof {
        assert((width as int) * (height as int) <= 0xffffffff * 0xffffffff) by (nonlinear_arith)
            requires
                0 <= width as int <= 0xffffffff,
                0 <= height as int <= 0xffffffff,
        ;
    }
    let pixels: u128 = (width as u128) * (height as u128);
    let expected: u128 = 4u128 * pixels;
    proof {
        assert(4 * ((width as int) * (height as int)) == 4 * (width as int) * (height as int))
            by (nonlinear_arith);
    }
    if (rgba.len() as u128) != expected {
        return Err(RenderError::RasterizeFailure);
    }
    let gray = grayscale_of_rgba(&rgba, width, height);
    Ok(encode_png_gray(&gray, width, height))
}

/// Determinism of the post-processing stage: on a pixel buffer that
/// matches its dimensions, two runs that meet `encode_page_image`'s
/// contract both succeed, with byte-identical output.
pub proof fn lemma_encode_deterministic(
    r1: Result<Vec<u8>, RenderError>,
    r2: Result<Vec<u8>, RenderError>,
    rgba: Seq<u8>,
    width: u32,
    height: u32,
)
    requires
        width >= 1,
        height >= 1,
        rgba.len() == 4 * width * height,
        (r1 matches Ok(b) && b@ == png_of(luma_of(rgba), width as int, height as int)),
        (r2 matches Ok(b) && b@ == png_of(luma_of(rgba), width as int, height as int)),
    ensures
        (r1 matches Ok(b1) && r2 matches Ok(b2) && b1@ == b2@),
{
}

/// Resolve the requested canvas dimensions against the configured defaults,
/// clamping each to at least one pixel so a degenerate size never reaches
/// the rasterizer.
pub fn resolve_dimensions(
    requested_width: Option<u32>,
    requested_height: Option<u32>,
    default_width: u32,
    default_height: u32,
) -> (r: (u32, u32))
    ensures
        r.0 >= 1,
        r.1 >= 1,
        r.0 == ({
            let w = match requested_width {
                Some(w) => w,
                None => default_width,
            };
            if w == 0 {
                1u32
            } else {
                w
            }
        }),
        r.1 == ({
            let h = match requested_height {
                Some(h) => h,
                None => default_height,
            };
            if h == 0 {
                1u32
            } else {
                h
            }
        }),
{
    let w = match requested_width {
        Some(w) => w,
        None => default_width,
    };
    let h = match requested_height {
        Some(h) => h,
        None => default_height,
    };
    let w = if w == 0 {
        1
    } else {
        w
    };
    let h = if h == 0 {
        1
    } else {
        h
    };
    (w, h)
}

} // verus!
