//! Resampling, blurring and layering of pictures, as the `image` crate does
//! them. The four operations are calls into that crate: what is stated of
//! them here is trusted, not proved.

use crate::raster::{ImageBuffer, Raster};
use vstd::prelude::*;

verus! {

/// How colours are picked when a picture changes size.
#[derive(Clone, Copy, Debug, PartialEq, Eq, Structural)]
pub enum Resampling {
    /// Each pixel takes the colour of the nearest source pixel: fast, coarse.
    Nearest,
    /// Each pixel is a windowed-sinc average over three lobes: slow, sharp.
    Lanczos3,
}

/// Whether a grid of `columns` by `rows` pixels leaves room for the scratch
/// space that resampling and blurring take: up to 32 bytes for each pixel, and
/// up to 16384 bytes for each column.
pub open spec fn workable(columns: int, rows: int) -> bool {
    32 * columns * rows <= usize::MAX && 16384 * columns <= usize::MAX
}

/// Tells whether a grid of `columns` by `rows` pixels is workable.
pub fn is_workable(columns: u32, rows: u32) -> (ok: bool)
    ensures
        ok == workable(columns as int, rows as int),
{
    assert(32 * (columns * rows) <= 32 * (0xFFFF_FFFF * 0xFFFF_FFFF) && 32 * (columns * rows)
        == 32 * columns * rows) by (nonlinear_arith)
        requires
            columns <= 0xFFFF_FFFF,
            rows <= 0xFFFF_FFFF,
    ;
    let cells: u128 = (columns as u128) * (rows as u128);
    32 * cells <= usize::MAX as u128 && 16384 * (columns as u128) <= usize::MAX as u128
}

/// The picture that `image::DynamicImage::resize` makes of `source` for the
/// bounds `max_width` and `max_height`.
pub uninterp spec fn fitted(
    source: Raster,
    max_width: u32,
    max_height: u32,
    filter: Resampling,
) -> Raster;

/// The picture that `image::DynamicImage::resize_exact` makes of `source` for
/// the size `width` by `height`.
pub uninterp spec fn stretched(
    source: Raster,
    width: u32,
    height: u32,
    filter: Resampling,
) -> Raster;

/// The picture that `image::DynamicImage::blur` makes of `source` with a
/// Gaussian of standard deviation `sigma`.
pub uninterp spec fn blurred(source: Raster, sigma: u8) -> Raster;

/// Calls `image::DynamicImage::resize` on an 8-bit RGB picture.
///
/// Trusted: the result keeps the proportions of `source` as far as whole
/// pixels allow and is the largest such picture inside the bounds, so neither
/// side exceeds its bound and at least one side meets it; where the bounds
/// have the proportions of `source` exactly, both sides meet them. The pixels
/// are a function of the arguments alone.
#[verifier::external_body]
pub(crate) fn resize_to_fit(
    source: &ImageBuffer,
    max_width: u32,
    max_height: u32,
    filter: Resampling,
) -> (out: ImageBuffer)
    requires
        source.wf(),
        max_width > 0,
        max_height > 0,
        workable(source@.width as int, max_height as int),
        workable(max_width as int, max_height as int),
    ensures
        out@ == fitted(source@, max_width, max_height, filter),
        out.wf(),
        out@.width <= max_width,
        out@.height <= max_height,
        out@.width == max_width || out@.height == max_height,
        source@.width * max_height == source@.height * max_width ==> out@.width == max_width
            && out@.height == max_height,
{
    let kind = match filter {
        Resampling::Nearest => image::imageops::FilterType::Nearest,
        Resampling::Lanczos3 => image::imageops::FilterType::Lanczos3,
    };
    let pixels = image::RgbImage::from_raw(source.width, source.height, source.data.clone());
    let scaled = image::DynamicImage::ImageRgb8(pixels.unwrap())
        .resize(max_width, max_height, kind)
        .into_rgb8();
    ImageBuffer { width: scaled.width(), height: scaled.height(), data: scaled.into_raw() }
}

/// Calls `image::DynamicImage::resize_exact` on an 8-bit RGB picture.
///
/// Trusted: the result has exactly the size asked for, whatever the
/// proportions of `source`, and its pixels are a function of the arguments
/// alone.
#[verifier::external_body]
pub(crate) fn stretch(source: &ImageBuffer, width: u32, height: u32, filter: Resampling) -> (out:
    ImageBuffer)
    requires
        source.wf(),
        width > 0,
        height > 0,
        workable(source@.width as int, height as int),
        workable(width as int, height as int),
    ensures
        out@ == stretched(source@, width, height, filter),
        out.wf(),
        out@.width == width,
        out@.height == height,
{
    let kind = match filter {
        Resampling::Nearest => image::imageops::FilterType::Nearest,
        Resampling::Lanczos3 => image::imageops::FilterType::Lanczos3,
    };
    let pixels = image::RgbImage::from_raw(source.width, source.height, source.data.clone());
    let scaled = image::DynamicImage::ImageRgb8(pixels.unwrap())
        .resize_exact(width, height, kind)
        .into_rgb8();
    ImageBuffer { width: scaled.width(), height: scaled.height(), data: scaled.into_raw() }
}

/// Calls `image::DynamicImage::blur` on an 8-bit RGB picture, with `sigma`
/// as the standard deviation of the Gaussian. The crate takes a `sigma` of
/// zero for its smallest kernel.
///
/// Trusted: the result has the size of `source`, and its pixels are a
/// function of the arguments alone.
#[verifier::external_body]
pub(crate) fn blur(source: &ImageBuffer, sigma: u8) -> (out: ImageBuffer)
    requires
        source.wf(),
        workable(source@.width as int, source@.height as int),
    ensures
        out@ == blurred(source@, sigma),
        out.wf(),
        out@.width == source@.width,
        out@.height == source@.height,
{
    let pixels = image::RgbImage::from_raw(source.width, source.height, source.data.clone());
    let soft = image::DynamicImage::ImageRgb8(pixels.unwrap()).blur(sigma.into()).into_rgb8();
    ImageBuffer { width: soft.width(), height: soft.height(), data: soft.into_raw() }
}

/// Calls `image::imageops::overlay` on two 8-bit RGB pictures: `top` is laid
/// over `bottom` with its upper left corner in column `x` of row `y`.
///
/// Trusted: `bottom` keeps its size; each of its pixels that `top` covers
/// takes the colour of the pixel of `top` above it, and every other pixel
/// stays as it was. Parts of `top` that fall outside `bottom` are dropped.
#[verifier::external_body]
pub(crate) fn overlay(bottom: &mut ImageBuffer, top: &ImageBuffer, x: i64, y: i64)
    requires
        old(bottom).wf(),
        top.wf(),
    ensures
        final(bottom).wf(),
        final(bottom)@.width == old(bottom)@.width,
        final(bottom)@.height == old(bottom)@.height,
        forall|i: int, j: int, c: int|
            old(bottom)@.contains(i, j) && 0 <= c < 3 ==> #[trigger] final(bottom)@.sample(i, j, c)
                == if top@.contains(i - x, j - y) {
                top@.sample(i - x, j - y, c)
            } else {
                old(bottom)@.sample(i, j, c)
            },
{
    let data = std::mem::take(&mut bottom.data);
    let mut canvas = image::RgbImage::from_raw(bottom.width, bottom.height, data).unwrap();
    let layer = image::ImageBuffer::<image::Rgb<u8>, &[u8]>::from_raw(
        top.width,
        top.height,
        top.data.as_slice(),
    );
    image::imageops::overlay(&mut canvas, &layer.unwrap(), x, y);
    bottom.data = canvas.into_raw();
}

} // verus!
