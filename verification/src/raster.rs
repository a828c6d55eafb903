//! Pictures as grids of character cells: every cell shows two pixels, one
//! above the other, as the foreground and background colours of a half block.

use image::imageops::{resize, FilterType};
use image::RgbImage;
use vstd::prelude::*;

verus! {

/// The character whose upper half is drawn in the foreground colour.
pub const UPPER_HALF_BLOCK: char = '\u{2580}';

/// A colour.
#[derive(Clone, Copy, Debug, PartialEq, Eq, Structural)]
pub struct Rgb {
    pub r: u8,
    pub g: u8,
    pub b: u8,
}

/// One character cell of a picture.
#[derive(Clone, Copy, Debug, PartialEq, Eq, Structural)]
pub struct Cell {
    /// The colour of the upper pixel.
    pub fg: Rgb,
    /// The colour of the lower pixel.
    pub bg: Rgb,
    /// The character drawn in the cell.
    pub symbol: char,
}

/// What a [`Bitmap`] stands for: rows of pixels from the top, each pixel as
/// its red, green and blue sample.
pub struct Picture {
    pub width: nat,
    pub height: nat,
    pub samples: Seq<u8>,
}

impl Picture {
    /// Whether there is exactly one pixel for every place.
    pub open spec fn wf(self) -> bool {
        self.samples.len() == 3 * self.width * self.height
    }

    /// The pixel in column `x` of row `y`.
    pub open spec fn pixel(self, x: int, y: int) -> Rgb {
        let at = 3 * (y * self.width + x);
        Rgb { r: self.samples[at], g: self.samples[at + 1], b: self.samples[at + 2] }
    }

    /// The number of cell rows that the picture fills: two pixel rows to a
    /// cell row, and a cell row of its own for an odd last one.
    pub open spec fn rows(self) -> nat {
        (self.height + 1) / 2
    }

    /// The cell in column `x` of cell row `y`: the pixel in row `2y` above the
    /// one in row `2y + 1`, or above itself where the picture ends before.
    pub open spec fn cell(self, x: int, y: int) -> Cell {
        let top = self.pixel(x, 2 * y);
        let bottom = if 2 * y + 1 < self.height {
            self.pixel(x, 2 * y + 1)
        } else {
            top
        };
        Cell { fg: top, bg: bottom, symbol: UPPER_HALF_BLOCK }
    }

    /// The picture that fills an area of `width` by `height` cells: this one
    /// resampled to one pixel across and two pixels down for every cell.
    pub open spec fn fitted(self, width: nat, height: nat) -> Picture {
        Picture {
            width,
            height: 2 * height,
            samples: resampled(self.samples, self.width, self.height, width, 2 * height),
        }
    }

    /// The picture as rows of cells.
    pub open spec fn halfblocks(self) -> Seq<Seq<Cell>> {
        Seq::new(self.rows(), |y: int| Seq::new(self.width, |x: int| self.cell(x, y)))
    }
}

/// The cells of rows of cells.
pub open spec fn cells_of(rows: Seq<Vec<Cell>>) -> Seq<Seq<Cell>> {
    Seq::new(rows.len(), |y: int| rows[y]@)
}

/// The samples of a picture of `width` by `height` pixels after it has been
/// resampled to `new_width` by `new_height` pixels, each new pixel taken from
/// the nearest old one.
pub uninterp spec fn resampled(
    samples: Seq<u8>,
    width: nat,
    height: nat,
    new_width: nat,
    new_height: nat,
) -> Seq<u8>;

/// Whether this machine can hold what resampling a picture of `source_width`
/// pixels a row to `width` by `height` pixels allocates: the result, and on
/// the way a picture of the old width and the new height with four
/// four-byte samples to the pixel.
pub open spec fn resample_fits(source_width: nat, width: nat, height: nat) -> bool {
    &&& 16 * source_width * height <= isize::MAX
    &&& 3 * width * height <= isize::MAX
}

/// A picture held as its samples.
#[derive(Debug, PartialEq, Eq)]
pub struct Bitmap {
    width: u32,
    height: u32,
    samples: Vec<u8>,
}

impl View for Bitmap {
    type V = Picture;

    closed spec fn view(&self) -> Picture {
        Picture { width: self.width as nat, height: self.height as nat, samples: self.samples@ }
    }
}

/// Places within a picture lie within its samples.
proof fn lemma_offset(x: int, y: int, width: int, height: int)
    requires
        0 <= x < width,
        0 <= y < height,
    ensures
        0 <= 3 * (y * width + x),
        3 * (y * width + x) + 2 < 3 * width * height,
{
    assert(y * width + x + 1 <= height * width) by (nonlinear_arith)
        requires
            0 <= x < width,
            0 <= y < height,
    ;
    assert(0 <= y * width) by (nonlinear_arith)
        requires
            0 <= y,
            0 <= width,
    ;
    assert(3 * width * height == 3 * (height * width)) by (nonlinear_arith);
}

impl Bitmap {
    #[verifier::type_invariant]
    closed spec fn valid(&self) -> bool {
        self@.wf()
    }

    /// The picture of `width` by `height` pixels with the given samples, if
    /// there is exactly one pixel for every place.
    pub fn new(width: u32, height: u32, samples: Vec<u8>) -> (bitmap: Option<Bitmap>)
        ensures
            bitmap is Some <==> samples@.len() == 3 * width * height,
            bitmap matches Some(b) ==> b@ == (Picture {
                width: width as nat,
                height: height as nat,
                samples: samples@,
            }),
    {
        assert((width as u128) * (height as u128) <= 0xffff_ffff * 0xffff_ffff) by (nonlinear_arith)
            requires
                width <= 0xffff_ffff,
                height <= 0xffff_ffff,
        ;
        let pixels: u128 = (width as u128) * (height as u128);
        assert(3 * pixels == 3 * width * height) by (nonlinear_arith)
            requires
                pixels == width * height,
        ;
        if samples.len() as u128 == 3 * pixels {
            Some(Bitmap { width, height, samples })
        } else {
            None
        }
    }

    /// The number of pixels in a row.
    pub fn width(&self) -> (width: u32)
        ensures
            width == self@.width,
    {
        self.width
    }

    /// The number of rows of pixels.
    pub fn height(&self) -> (height: u32)
        ensures
            height == self@.height,
    {
        self.height
    }

    /// The pixel in column `x` of row `y`.
    pub fn pixel(&self, x: u32, y: u32) -> (colour: Rgb)
        requires
            x < self@.width,
            y < self@.height,
        ensures
            colour == self@.pixel(x as int, y as int),
            self@.wf(),
    {
        proof {
            use_type_invariant(self);
            lemma_offset(x as int, y as int, self.width as int, self.height as int);
            assert(self.samples.len() <= usize::MAX);
        }
        let at: usize = 3 * (y as usize * self.width as usize + x as usize);
        Rgb { r: self.samples[at], g: self.samples[at + 1], b: self.samples[at + 2] }
    }

    /// Whether the picture can be resampled to `width` by `height` pixels on
    /// this machine.
    pub fn can_resample(&self, width: u32, height: u32) -> (possible: bool)
        ensures
            possible == resample_fits(self@.width, width as nat, height as nat),
    {
        assert(16 * (self.width as u128) * (height as u128) <= 16 * 0xffff_ffff * 0xffff_ffff)
            by (nonlinear_arith)
            requires
                self.width <= 0xffff_ffff,
                height <= 0xffff_ffff,
        ;
        assert(3 * (width as u128) * (height as u128) <= 3 * 0xffff_ffff * 0xffff_ffff)
            by (nonlinear_arith)
            requires
                width <= 0xffff_ffff,
                height <= 0xffff_ffff,
        ;
        let scratch: u128 = 16 * (self.width as u128) * (height as u128);
        let result: u128 = 3 * (width as u128) * (height as u128);
        scratch <= isize::MAX as u128 && result <= isize::MAX as u128
    }

    /// The picture as rows of cells.
    pub fn halfblock(&self) -> (grid: Vec<Vec<Cell>>)
        ensures
            cells_of(grid@) == self@.halfblocks(),
    {
        let rows: u32 = self.height / 2 + self.height % 2;
        let mut grid: Vec<Vec<Cell>> = Vec::new();
        let mut y: u32 = 0;
        while y < rows
            invariant
                y <= rows == self@.rows(),
                grid@.len() == y,
                forall|j: int|
                    0 <= j < y ==> #[trigger] grid@[j]@ == Seq::new(
                        self@.width,
                        |x: int| self@.cell(x, j),
                    ),
            decreases rows - y,
        {
            let mut row: Vec<Cell> = Vec::new();
            let mut x: u32 = 0;
            while x < self.width
                invariant
                    x <= self.width,
                    y < rows == self@.rows(),
                    row@.len() == x,
                    forall|i: int| 0 <= i < x ==> #[trigger] row@[i] == self@.cell(i, y as int),
                decreases self.width - x,
            {
                let top = self.pixel(x, 2 * y);
                let bottom = if 2 * y + 1 < self.height {
                    self.pixel(x, 2 * y + 1)
                } else {
                    top
                };
                row.push(Cell { fg: top, bg: bottom, symbol: UPPER_HALF_BLOCK });
                x += 1;
            }
            grid.push(row);
            y += 1;
        }
        grid
    }
}

/// `image::imageops::resize` with the nearest-pixel filter, on the picture as
/// an `RgbImage`. The result has exactly the dimensions asked for, with three
/// samples to the pixel, and its samples depend on the picture and those
/// dimensions alone. The crate panics where it cannot allocate what
/// [`resample_fits`] speaks of.
#[verifier::external_body]
fn resample(source: &Bitmap, width: u32, height: u32) -> (resized: Bitmap)
    requires
        source@.wf(),
        resample_fits(source@.width, width as nat, height as nat),
    ensures
        resized@.wf(),
        resized@ == (Picture {
            width: width as nat,
            height: height as nat,
            samples: resampled(
                source@.samples,
                source@.width,
                source@.height,
                width as nat,
                height as nat,
            ),
        }),
{
    let image = RgbImage::from_raw(source.width, source.height, source.samples.clone()).unwrap();
    let resized = resize(&image, width, height, FilterType::Nearest);
    Bitmap { width, height, samples: resized.into_raw() }
}

/// A picture to be drawn into an area of character cells.
#[derive(Debug, PartialEq, Eq)]
pub struct ImageWidget {
    img: Bitmap,
}

impl View for ImageWidget {
    type V = Picture;

    closed spec fn view(&self) -> Picture {
        self.img@
    }
}

impl ImageWidget {
    /// A widget that draws `img`.
    pub fn new(img: Bitmap) -> (widget: ImageWidget)
        ensures
            widget@ == img@,
    {
        ImageWidget { img }
    }

    /// Whether the picture can be drawn into `width` by `height` cells on this
    /// machine.
    pub fn fits(&self, width: u16, height: u16) -> (possible: bool)
        ensures
            possible == resample_fits(self@.width, width as nat, 2 * height as nat),
    {
        self.img.can_resample(width as u32, 2 * (height as u32))
    }

    /// The cells that draw the picture into an area of `width` by `height`
    /// cells: `height` rows of `width` cells each.
    pub fn render(&self, width: u16, height: u16) -> (grid: Vec<Vec<Cell>>)
        requires
            resample_fits(self@.width, width as nat, 2 * height as nat),
        ensures
            cells_of(grid@) == self@.fitted(width as nat, height as nat).halfblocks(),
            grid@.len() == height,
            forall|y: int| 0 <= y < height ==> (#[trigger] grid@[y])@.len() == width,
    {
        proof {
            use_type_invariant(&self.img);
        }
        let resized = resample(&self.img, width as u32, 2 * (height as u32));
        let grid = resized.halfblock();
        assert(cells_of(grid@).len() == resized@.rows() == height);
        assert forall|y: int| 0 <= y < height implies (#[trigger] grid@[y])@.len() == width by {
            assert(cells_of(grid@)[y].len() == width);
        }
        grid
    }
}

} // verus!
