//! The grayscale image that every sharpness metric reads, and its
//! mathematical model.

use vstd::prelude::*;

verus! {

/// The largest number of pixels an image may hold. Every sum a metric forms
/// over an image of at most this many pixels fits in 128 bits.
pub const MAX_PIXELS: u64 = 0xFFFF_FFFF;

/// The mathematical model of a grayscale image: its dimensions and its
/// pixels in row-major order, the origin at the top left.
pub struct Raster {
    pub width: nat,
    pub height: nat,
    pub pixels: Seq<u8>,
}

impl Raster {
    /// A raster that a metric can be evaluated on: neither dimension is zero,
    /// one byte per pixel, and no more than `MAX_PIXELS` pixels.
    pub open spec fn valid(self) -> bool {
        &&& 0 < self.width
        &&& 0 < self.height
        &&& self.width * self.height <= MAX_PIXELS
        &&& self.pixels.len() == self.width * self.height
    }

    /// The number of pixels.
    pub open spec fn area(self) -> nat {
        self.width * self.height
    }

    /// The column of the pixel stored at position `i`.
    pub open spec fn col(self, i: int) -> int {
        i % (self.width as int)
    }

    /// The row of the pixel stored at position `i`.
    pub open spec fn row(self, i: int) -> int {
        i / (self.width as int)
    }

    /// The position at which the pixel in column `x` of row `y` is stored.
    pub open spec fn offset(self, x: int, y: int) -> int {
        y * self.width + x
    }

    /// The column nearest to `x` that lies inside the image.
    pub open spec fn clamp_col(self, x: int) -> int {
        if x < 0 {
            0
        } else if x >= self.width {
            self.width - 1
        } else {
            x
        }
    }

    /// The row nearest to `y` that lies inside the image.
    pub open spec fn clamp_row(self, y: int) -> int {
        if y < 0 {
            0
        } else if y >= self.height {
            self.height - 1
        } else {
            y
        }
    }

    /// The intensity at column `x` of row `y`. Outside the image the nearest
    /// edge pixel is repeated, so every filter sees a full neighbourhood.
    pub open spec fn at(self, x: int, y: int) -> int {
        self.pixels[self.offset(self.clamp_col(x), self.clamp_row(y))] as int
    }
}

/// A valid raster has at least one pixel.
pub proof fn lemma_area_positive(r: Raster)
    requires
        r.valid(),
    ensures
        0 < r.area() <= MAX_PIXELS,
        r.area() == r.pixels.len(),
{
    assert(0 < r.width * r.height) by (nonlinear_arith)
        requires
            0 < r.width,
            0 < r.height,
    ;
}

/// Positions and coordinates of a valid raster correspond one to one.
pub proof fn lemma_offset_in_range(r: Raster, x: int, y: int)
    requires
        r.valid(),
        0 <= x < r.width,
        0 <= y < r.height,
    ensures
        0 <= r.offset(x, y) < r.area(),
        r.col(r.offset(x, y)) == x,
        r.row(r.offset(x, y)) == y,
{
    let w = r.width as int;
    let h = r.height as int;
    assert(y * w + x < w * h) by (nonlinear_arith)
        requires
            0 <= x < w,
            0 <= y < h,
    {
        assert(y * w + w <= h * w);
    }
    assert(0 <= y * w) by (nonlinear_arith)
        requires
            0 <= y,
            0 < w,
    ;
    vstd::arithmetic::div_mod::lemma_fundamental_div_mod_converse(y * w + x, w, y, x);
}

/// Why a grayscale image could not be produced.
#[derive(Debug)]
pub enum DecodeError {
    /// The width or the height is zero.
    ZeroArea,
    /// The image has more than `MAX_PIXELS` pixels.
    TooLarge,
    /// The buffer does not hold exactly one byte per pixel.
    SizeMismatch,
    /// The encoded bytes are not an image that the decoder reads; the text is
    /// the decoder's own account.
    Unreadable(String),
}

impl DecodeError {
    /// The error in words.
    pub open spec fn description(self) -> Seq<char> {
        match self {
            DecodeError::ZeroArea => "image has zero area"@,
            DecodeError::TooLarge => "image has too many pixels"@,
            DecodeError::SizeMismatch => "pixel buffer does not match the dimensions"@,
            DecodeError::Unreadable(text) => text@,
        }
    }

    /// The error in words, for a diagnostic.
    pub fn describe(&self) -> (text: String)
        ensures
            text@ == self.description(),
    {
        match self {
            DecodeError::ZeroArea => "image has zero area".to_owned(),
            DecodeError::TooLarge => "image has too many pixels".to_owned(),
            DecodeError::SizeMismatch => "pixel buffer does not match the dimensions".to_owned(),
            DecodeError::Unreadable(text) => text.clone(),
        }
    }
}

/// Why a buffer of `len` bytes is no image of the given dimensions, if it is
/// not: a zero dimension first, then too many pixels, then a buffer of the
/// wrong length.
pub open spec fn rejection(width: u32, height: u32, len: nat) -> Option<DecodeError> {
    if width == 0 || height == 0 {
        Some(DecodeError::ZeroArea)
    } else if width * height > MAX_PIXELS {
        Some(DecodeError::TooLarge)
    } else if len != width * height {
        Some(DecodeError::SizeMismatch)
    } else {
        None
    }
}

/// An 8-bit grayscale image: `width * height` intensities in row-major order.
/// Once constructed it never changes.
#[derive(Debug)]
pub struct GrayscaleImage {
    width: u32,
    height: u32,
    pixels: Vec<u8>,
}

impl View for GrayscaleImage {
    type V = Raster;

    closed spec fn view(&self) -> Raster {
        Raster { width: self.width as nat, height: self.height as nat, pixels: self.pixels@ }
    }
}

impl GrayscaleImage {
    #[verifier::type_invariant]
    spec fn well_formed(&self) -> bool {
        self@.valid()
    }

    /// Takes ownership of a pixel buffer. It is accepted exactly when both
    /// dimensions are positive, the pixel count is at most `MAX_PIXELS`, and
    /// the buffer holds one byte per pixel.
    pub fn new(width: u32, height: u32, pixels: Vec<u8>) -> (r: Result<GrayscaleImage, DecodeError>)
        ensures
            match rejection(width, height, pixels@.len()) {
                Some(reason) => r == Err::<GrayscaleImage, DecodeError>(reason),
                None => r matches Ok(img) && img@ == (Raster {
                    width: width as nat,
                    height: height as nat,
                    pixels: pixels@,
                }) && img@.valid(),
            },
    {
        if width == 0 || height == 0 {
            return Err(DecodeError::ZeroArea);
        }
        assert(width * height <= 0xFFFF_FFFF * 0xFFFF_FFFF) by (nonlinear_arith)
            requires
                width <= 0xFFFF_FFFF,
                height <= 0xFFFF_FFFF,
        ;
        let area: u64 = (width as u64) * (height as u64);
        if area > MAX_PIXELS {
            return Err(DecodeError::TooLarge);
        }
        if pixels.len() as u64 != area {
            return Err(DecodeError::SizeMismatch);
        }
        Ok(GrayscaleImage { width, height, pixels })
    }

    /// The number of columns.
    pub fn width(&self) -> (w: u32)
        ensures
            w == self@.width,
            self@.valid(),
    {
        proof {
            use_type_invariant(self);
        }
        self.width
    }

    /// The number of rows.
    pub fn height(&self) -> (h: u32)
        ensures
            h == self@.height,
            self@.valid(),
    {
        proof {
            use_type_invariant(self);
        }
        self.height
    }

    /// The pixels in row-major order.
    pub fn pixels(&self) -> (p: &Vec<u8>)
        ensures
            p@ == self@.pixels,
            self@.valid(),
    {
        proof {
            use_type_invariant(self);
        }
        &self.pixels
    }

    /// The intensity at column `x` of row `y`.
    pub fn get_pixel(&self, x: u32, y: u32) -> (p: u8)
        requires
            x < self@.width,
            y < self@.height,
        ensures
            p == self@.at(x as int, y as int),
    {
        proof {
            use_type_invariant(self);
            lemma_offset_in_range(self@, x as int, y as int);
        }
        let i: u64 = (y as u64) * (self.width as u64) + (x as u64);
        self.pixels[i as usize]
    }
}

} // verus!
