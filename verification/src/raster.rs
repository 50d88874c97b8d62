//! Decoded pictures: a grid of pixels with three colour channels each.

use crate::geometry::Dimensions;
use vstd::prelude::*;

verus! {

/// Colour channels per pixel: red, green, blue.
pub const CHANNELS: usize = 3;

/// What a picture is: its size and its samples, row after row from the top,
/// pixel after pixel from the left, three samples per pixel.
pub struct Raster {
    pub width: nat,
    pub height: nat,
    pub samples: Seq<u8>,
}

impl Raster {
    /// The grid is not empty, each side fits in 32 bits, and there are
    /// exactly three samples for each pixel.
    pub open spec fn wf(self) -> bool {
        &&& 0 < self.width <= u32::MAX
        &&& 0 < self.height <= u32::MAX
        &&& self.samples.len() == 3 * self.width * self.height
    }

    /// Whether column `x` of row `y` lies inside the grid.
    pub open spec fn contains(self, x: int, y: int) -> bool {
        0 <= x < self.width && 0 <= y < self.height
    }

    /// Where channel `c` of the pixel in column `x` of row `y` stands among
    /// the samples.
    pub open spec fn index_of(self, x: int, y: int, c: int) -> int {
        (y * self.width + x) * 3 + c
    }

    /// Channel `c` of the pixel in column `x` of row `y`.
    pub open spec fn sample(self, x: int, y: int, c: int) -> u8 {
        self.samples[self.index_of(x, y, c)]
    }

    /// The column of the pixel that sample `k` belongs to.
    pub open spec fn column_of(self, k: int) -> int {
        (k / 3) % (self.width as int)
    }

    /// The row of the pixel that sample `k` belongs to.
    pub open spec fn row_of(self, k: int) -> int {
        (k / 3) / (self.width as int)
    }

    /// Every sample of a pixel inside the grid has its place among the
    /// samples.
    pub proof fn index_in_range(self, x: int, y: int, c: int)
        requires
            self.wf(),
            self.contains(x, y),
            0 <= c < 3,
        ensures
            0 <= self.index_of(x, y, c) < self.samples.len(),
            self.column_of(self.index_of(x, y, c)) == x,
            self.row_of(self.index_of(x, y, c)) == y,
            self.index_of(x, y, c) % 3 == c,
    {
        let w = self.width as int;
        let h = self.height as int;
        let p = y * w + x;
        assert(0 <= y * w && y * w + w <= h * w) by (nonlinear_arith)
            requires
                0 <= y < h,
                0 < w,
        ;
        assert(3 * (h * w) == 3 * w * h) by (nonlinear_arith);
        assert((p * 3 + c) / 3 == p && (p * 3 + c) % 3 == c) by (nonlinear_arith)
            requires
                0 <= c < 3,
        ;
        assert((y * w + x) / w == y && (y * w + x) % w == x) by (nonlinear_arith)
            requires
                0 <= x < w,
        ;
    }

    /// Every sample belongs to exactly one channel of one pixel inside the
    /// grid.
    pub proof fn sample_has_pixel(self, k: int)
        requires
            self.wf(),
            0 <= k < self.samples.len(),
        ensures
            self.contains(self.column_of(k), self.row_of(k)),
            0 <= k % 3 < 3,
            self.index_of(self.column_of(k), self.row_of(k), k % 3) == k,
    {
        let w = self.width as int;
        let h = self.height as int;
        let p = k / 3;
        assert(p * 3 + k % 3 == k && 0 <= k % 3 < 3 && 0 <= p) by (nonlinear_arith)
            requires
                p == k / 3,
                0 <= k,
        ;
        assert(p < w * h) by (nonlinear_arith)
            requires
                p * 3 + k % 3 == k,
                0 <= k % 3,
                k < 3 * w * h,
        ;
        assert((p / w) * w + p % w == p && 0 <= p % w < w && 0 <= p / w) by (nonlinear_arith)
            requires
                0 <= p,
                0 < w,
        ;
        assert(p / w < h) by (nonlinear_arith)
            requires
                (p / w) * w + p % w == p,
                0 <= p % w,
                p < w * h,
                0 < w,
        ;
    }

    /// Two pictures of one size that agree on every channel of every pixel
    /// are the same picture.
    pub proof fn equal_by_samples(self, other: Raster)
        requires
            self.wf(),
            other.wf(),
            self.width == other.width,
            self.height == other.height,
            forall|x: int, y: int, c: int|
                self.contains(x, y) && 0 <= c < 3 ==> self.sample(x, y, c) == other.sample(
                    x,
                    y,
                    c,
                ),
        ensures
            self == other,
    {
        assert forall|k: int| 0 <= k < self.samples.len() implies self.samples[k]
            == other.samples[k] by {
            self.sample_has_pixel(k);
            let x = self.column_of(k);
            let y = self.row_of(k);
            assert(self.sample(x, y, k % 3) == other.sample(x, y, k % 3));
        }
        assert(self.samples =~= other.samples);
    }
}

/// A decoded picture. Its pixels never change once it is made.
#[derive(Debug)]
pub struct ImageBuffer {
    pub(crate) width: u32,
    pub(crate) height: u32,
    pub(crate) data: Vec<u8>,
}

impl View for ImageBuffer {
    type V = Raster;

    closed spec fn view(&self) -> Raster {
        Raster { width: self.width as nat, height: self.height as nat, samples: self.data@ }
    }
}

impl Clone for ImageBuffer {
    /// A copy with the same size and the same samples.
    fn clone(&self) -> (copy: ImageBuffer)
        ensures
            copy@ == self@,
    {
        let data = self.data.clone();
        assert(data@ =~= self.data@);
        ImageBuffer { width: self.width, height: self.height, data }
    }
}

impl ImageBuffer {
    /// The picture is not empty and holds three samples for each pixel.
    pub open spec fn wf(&self) -> bool {
        self@.wf()
    }

    /// A picture of `width` by `height` pixels over `data`, which holds the
    /// samples row after row. `None` when a side is zero or `data` has not
    /// exactly three samples for each pixel.
    pub fn from_raw(width: u32, height: u32, data: Vec<u8>) -> (image: Option<ImageBuffer>)
        ensures
            image.is_some() <==> width > 0 && height > 0 && data@.len() == 3 * width * height,
            image matches Some(img) ==> img.wf() && img@ == (Raster {
                width: width as nat,
                height: height as nat,
                samples: data@,
            }),
    {
        if width == 0 || height == 0 {
            return None;
        }
        assert(3 * (width * height) <= 3 * (0xFFFF_FFFF * 0xFFFF_FFFF)) by (nonlinear_arith)
            requires
                width <= 0xFFFF_FFFF,
                height <= 0xFFFF_FFFF,
        ;
        let cells: u128 = (width as u128) * (height as u128);
        assert(3 * (width * height) == 3 * width * height) by (nonlinear_arith);
        if data.len() as u128 == cells * 3 {
            Some(ImageBuffer { width, height, data })
        } else {
            None
        }
    }

    /// A black picture of the given size.
    pub fn blank(dims: Dimensions) -> (image: ImageBuffer)
        requires
            dims.wf(),
            3 * dims.width() * dims.height() <= usize::MAX,
        ensures
            image.wf(),
            image@.width == dims.width(),
            image@.height == dims.height(),
            forall|k: int| 0 <= k < image@.samples.len() ==> image@.samples[k] == 0,
    {
        let width = dims.width();
        let height = dims.height();
        assert(width * height <= usize::MAX && 3 * (width * height) == 3 * width * height)
            by (nonlinear_arith)
            requires
                3 * width * height <= usize::MAX,
                0 < width,
                0 < height,
        ;
        let cells: usize = (width as usize) * (height as usize);
        let data = vec![0u8; cells * 3];
        ImageBuffer { width, height, data }
    }

    /// The width in pixels.
    pub fn width(&self) -> (w: u32)
        ensures
            w == self@.width,
    {
        self.width
    }

    /// The height in pixels.
    pub fn height(&self) -> (h: u32)
        ensures
            h == self@.height,
    {
        self.height
    }

    /// The size of the picture.
    pub fn dimensions(&self) -> (dims: Dimensions)
        requires
            self.wf(),
        ensures
            dims.wf(),
            dims.width() == self@.width,
            dims.height() == self@.height,
            3 * dims.width() * dims.height() <= usize::MAX,
    {
        assert(self.data.len() == self@.samples.len());
        Dimensions::new(self.width, self.height).unwrap()
    }

    /// The samples, row after row.
    pub fn as_raw(&self) -> (samples: &Vec<u8>)
        ensures
            samples@ == self@.samples,
    {
        &self.data
    }

    /// Gives up the picture for its samples.
    pub fn into_raw(self) -> (samples: Vec<u8>)
        ensures
            samples@ == self@.samples,
    {
        self.data
    }

    /// The red, green and blue samples of the pixel in column `x` of row `y`.
    pub fn pixel(&self, x: u32, y: u32) -> (rgb: (u8, u8, u8))
        requires
            self.wf(),
            self@.contains(x as int, y as int),
        ensures
            rgb.0 == self@.sample(x as int, y as int, 0),
            rgb.1 == self@.sample(x as int, y as int, 1),
            rgb.2 == self@.sample(x as int, y as int, 2),
    {
        let len = self.data.len();
        proof {
            self@.index_in_range(x as int, y as int, 0);
            self@.index_in_range(x as int, y as int, 2);
            assert(0 <= y * self.width) by (nonlinear_arith);
            assert(self@.index_of(x as int, y as int, 2) == (y * self.width + x) * 3 + 2);
            assert((y * self.width + x) * 3 + 2 < len);
        }
        let first: usize = ((y as usize) * (self.width as usize) + (x as usize)) * 3;
        (self.data[first], self.data[first + 1], self.data[first + 2])
    }
}

} // verus!
