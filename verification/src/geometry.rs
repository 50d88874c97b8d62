//! Canvas sizes and the placement of a picture inside a canvas.

use vstd::prelude::*;

verus! {

/// The size of a canvas: a width and a height in pixels, both positive.
#[derive(Clone, Copy, Debug, PartialEq, Eq, Structural)]
pub struct Dimensions {
    pub(crate) width: u32,
    pub(crate) height: u32,
}

impl Dimensions {
    /// The width in pixels.
    pub closed spec fn spec_width(&self) -> u32 {
        self.width
    }

    /// The height in pixels.
    pub closed spec fn spec_height(&self) -> u32 {
        self.height
    }

    /// Both sides are positive.
    pub open spec fn wf(&self) -> bool {
        self.spec_width() > 0 && self.spec_height() > 0
    }

    /// A canvas size, or `None` when a side is zero.
    pub fn new(width: u32, height: u32) -> (dims: Option<Dimensions>)
        ensures
            dims.is_some() <==> width > 0 && height > 0,
            dims matches Some(d) ==> d.wf() && d.spec_width() == width && d.spec_height()
                == height,
    {
        if width > 0 && height > 0 {
            Some(Dimensions { width, height })
        } else {
            None
        }
    }

    #[verifier::when_used_as_spec(spec_width)]
    pub fn width(&self) -> (w: u32)
        ensures
            w == self.spec_width(),
    {
        self.width
    }

    #[verifier::when_used_as_spec(spec_height)]
    pub fn height(&self) -> (h: u32)
        ensures
            h == self.spec_height(),
    {
        self.height
    }
}

/// The gap left before a span of `inner` pixels centred in `outer` pixels:
/// half of what is left over, rounded down.
pub open spec fn centered(outer: int, inner: int) -> int {
    (outer - inner) / 2
}

/// Where a span of `inner` pixels starts when it is centred in `outer` pixels.
pub fn centered_offset(outer: u32, inner: u32) -> (offset: u32)
    requires
        inner <= outer,
    ensures
        offset == centered(outer as int, inner as int),
{
    (outer - inner) / 2
}

/// Centring rounds down: the gap before the span is never larger than the gap
/// after it, and the two differ by at most one pixel. Both gaps are zero
/// exactly when the span fills the whole.
pub proof fn centering_rounds_down(outer: int, inner: int)
    requires
        0 <= inner <= outer,
    ensures
        0 <= centered(outer, inner),
        centered(outer, inner) + inner <= outer,
        centered(outer, inner) <= outer - inner - centered(outer, inner) <= centered(
            outer,
            inner,
        ) + 1,
        inner == outer ==> centered(outer, inner) == 0,
{
}

} // verus!
