//! The wallpaper compositor: one picture in, one canvas of the requested size
//! out.

use crate::geometry::{centered, centered_offset, Dimensions};
use crate::imaging::{
    blur, blurred, fitted, is_workable, overlay, resize_to_fit, stretch, stretched, workable,
    Resampling,
};
use crate::raster::{ImageBuffer, Raster};
use vstd::prelude::*;

verus! {

/// The standard deviation of the Gaussian that softens the background, unless
/// the caller names another.
pub const DEFAULT_BLUR_SIGMA: u8 = 50;

/// Whether `picture`, centred on `canvas`, covers column `x` of row `y`.
pub open spec fn covers(canvas: Raster, picture: Raster, x: int, y: int) -> bool {
    picture.contains(
        x - centered(canvas.width as int, picture.width as int),
        y - centered(canvas.height as int, picture.height as int),
    )
}

/// `foreground` centred over `background`: a picture of the size of
/// `background` that shows `foreground` wherever it reaches and `background`
/// everywhere else.
pub open spec fn layered(background: Raster, foreground: Raster) -> Raster {
    Raster {
        width: background.width,
        height: background.height,
        samples: Seq::new(
            background.samples.len(),
            |k: int|
                {
                    let x = background.column_of(k);
                    let y = background.row_of(k);
                    if covers(background, foreground, x, y) {
                        foreground.sample(
                            x - centered(background.width as int, foreground.width as int),
                            y - centered(background.height as int, foreground.height as int),
                            k % 3,
                        )
                    } else {
                        background.samples[k]
                    }
                },
        ),
    }
}

/// The wallpaper of `source` on a canvas of size `dims`: the source scaled
/// sharply to fit the canvas, centred over the source stretched coarsely to
/// the whole canvas and blurred with `sigma`.
pub open spec fn composed(source: Raster, dims: Dimensions, sigma: u8) -> Raster {
    layered(
        blurred(
            stretched(source, dims.width(), dims.height(), Resampling::Nearest),
            sigma,
        ),
        foreground(source, dims),
    )
}

/// The sharp picture on a wallpaper of `source` for a canvas of size `dims`:
/// the source scaled to fit the canvas.
pub open spec fn foreground(source: Raster, dims: Dimensions) -> Raster {
    fitted(source, dims.width(), dims.height(), Resampling::Lanczos3)
}

/// Whether the picture `source` can be worked to a canvas of size `dims` in
/// the memory that can be addressed.
pub open spec fn can_compose(source: Raster, dims: Dimensions) -> bool {
    &&& workable(source.width as int, dims.height() as int)
    &&& workable(dims.width() as int, dims.height() as int)
}

/// Whether a canvas of size `dims` has the proportions of `source` exactly.
pub open spec fn same_proportions(source: Raster, dims: Dimensions) -> bool {
    source.width * dims.height() == source.height * dims.width()
}

/// Pixel by pixel, a layered picture shows the foreground where the centred
/// foreground reaches, shifted by the centring offsets, and the background
/// elsewhere.
pub proof fn layered_shows(background: Raster, foreground: Raster, x: int, y: int, c: int)
    requires
        background.wf(),
        background.contains(x, y),
        0 <= c < 3,
    ensures
        layered(background, foreground).wf(),
        layered(background, foreground).sample(x, y, c) == if covers(
            background,
            foreground,
            x,
            y,
        ) {
            foreground.sample(
                x - centered(background.width as int, foreground.width as int),
                y - centered(background.height as int, foreground.height as int),
                c,
            )
        } else {
            background.sample(x, y, c)
        },
{
    background.index_in_range(x, y, c);
}

/// A foreground of the size of the canvas starts at the canvas's corner and
/// hides the background altogether.
pub proof fn full_size_foreground_fills_canvas(background: Raster, foreground: Raster)
    requires
        background.wf(),
        foreground.wf(),
        foreground.width == background.width,
        foreground.height == background.height,
    ensures
        centered(background.width as int, foreground.width as int) == 0,
        centered(background.height as int, foreground.height as int) == 0,
        layered(background, foreground) == foreground,
{
    let whole = layered(background, foreground);
    assert forall|x: int, y: int, c: int| whole.contains(x, y) && 0 <= c < 3 implies whole.sample(
        x,
        y,
        c,
    ) == foreground.sample(x, y, c) by {
        layered_shows(background, foreground, x, y, c);
    }
    whole.equal_by_samples(foreground);
}

/// Lays `foreground` centred over `background` on a fresh canvas of the size
/// of `background`.
pub fn compose_layers(background: &ImageBuffer, foreground: &ImageBuffer) -> (canvas: ImageBuffer)
    requires
        background.wf(),
        foreground.wf(),
        foreground@.width <= background@.width,
        foreground@.height <= background@.height,
    ensures
        canvas.wf(),
        canvas@ == layered(background@, foreground@),
{
    let mut canvas = ImageBuffer::blank(background.dimensions());
    overlay(&mut canvas, background, 0, 0);
    let left: u32 = centered_offset(background.width(), foreground.width());
    let top: u32 = centered_offset(background.height(), foreground.height());
    overlay(&mut canvas, foreground, left as i64, top as i64);
    proof {
        let whole = layered(background@, foreground@);
        assert forall|x: int, y: int, c: int|
            canvas@.contains(x, y) && 0 <= c < 3 implies canvas@.sample(x, y, c) == whole.sample(
            x,
            y,
            c,
        ) by {
            layered_shows(background@, foreground@, x, y, c);
        }
        canvas@.equal_by_samples(whole);
    }
    canvas
}

/// Tells whether the picture `source` can be worked to a canvas of size
/// `dims` in the memory that can be addressed.
pub fn fits_in_memory(source: &ImageBuffer, dims: Dimensions) -> (fits: bool)
    ensures
        fits == can_compose(source@, dims),
{
    is_workable(source.width(), dims.height()) && is_workable(dims.width(), dims.height())
}

/// Makes the wallpaper of `source` for a canvas of size `dims`, with a
/// background blurred by `sigma`.
///
/// The canvas has exactly the size asked for. The sharp picture on it fits
/// the canvas and reaches from edge to edge in at least one direction. Where
/// the canvas has the proportions of `source`, the sharp picture fills it
/// from corner to corner and nothing of the background shows.
pub fn compose_with_blur(source: &ImageBuffer, dims: Dimensions, sigma: u8) -> (canvas:
    ImageBuffer)
    requires
        source.wf(),
        dims.wf(),
        can_compose(source@, dims),
    ensures
        canvas.wf(),
        canvas@ == composed(source@, dims, sigma),
        canvas@.width == dims.width(),
        canvas@.height == dims.height(),
        foreground(source@, dims).width <= canvas@.width,
        foreground(source@, dims).height <= canvas@.height,
        foreground(source@, dims).width == canvas@.width || foreground(source@, dims).height
            == canvas@.height,
        same_proportions(source@, dims) ==> canvas@ == foreground(source@, dims),
{
    let sharp = resize_to_fit(source, dims.width(), dims.height(), Resampling::Lanczos3);
    let coarse = stretch(source, dims.width(), dims.height(), Resampling::Nearest);
    let soft = blur(&coarse, sigma);
    proof {
        if same_proportions(source@, dims) {
            full_size_foreground_fills_canvas(soft@, sharp@);
        }
    }
    compose_layers(&soft, &sharp)
}

/// Makes the wallpaper of `source` for a canvas of size `dims`, with the
/// default blur.
pub fn compose(source: &ImageBuffer, dims: Dimensions) -> (canvas: ImageBuffer)
    requires
        source.wf(),
        dims.wf(),
        can_compose(source@, dims),
    ensures
        canvas.wf(),
        canvas@ == composed(source@, dims, DEFAULT_BLUR_SIGMA),
        canvas@.width == dims.width(),
        canvas@.height == dims.height(),
        foreground(source@, dims).width <= canvas@.width,
        foreground(source@, dims).height <= canvas@.height,
        foreground(source@, dims).width == canvas@.width || foreground(source@, dims).height
            == canvas@.height,
        same_proportions(source@, dims) ==> canvas@ == foreground(source@, dims),
{
    compose_with_blur(source, dims, DEFAULT_BLUR_SIGMA)
}

} // verus!
