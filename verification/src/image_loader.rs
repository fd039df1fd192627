//! Where images come from: synthetic patterns and encoded bytes.

use crate::cli::Cli;
use crate::grayscale::{DecodeError, GrayscaleImage, Raster, MAX_PIXELS};
use crate::image_analysis::Micros;
use vstd::prelude::*;

verus! {

/// The side of the synthetic images that a run analyzes.
pub const SYNTHETIC_SIDE: u32 = 256;

/// Where an image is taken from.
#[derive(Debug, PartialEq, Eq)]
pub enum ImageSource {
    /// A checkerboard whose squares are single pixels.
    SyntheticCheckerboard { width: u32, height: u32 },
    /// A solid white image.
    SyntheticWhite { width: u32, height: u32 },
    /// The encoded image in the named file.
    File(String),
    /// The encoded image on the standard input.
    Stdin,
}

impl Clone for ImageSource {
    fn clone(&self) -> (copy: Self)
        ensures
            copy == *self,
    {
        match self {
            ImageSource::SyntheticCheckerboard { width, height } => {
                ImageSource::SyntheticCheckerboard { width: *width, height: *height }
            },
            ImageSource::SyntheticWhite { width, height } => ImageSource::SyntheticWhite {
                width: *width,
                height: *height,
            },
            ImageSource::File(filename) => ImageSource::File(filename.clone()),
            ImageSource::Stdin => ImageSource::Stdin,
        }
    }
}

/// The kinds of input that are analyzed as a single image.
#[derive(Debug, PartialEq, Eq)]
pub enum ImageInputMode {
    SyntheticCheckerboard,
    SyntheticWhite,
    StdinBytes,
    File(String),
}

/// The intensity of a checkerboard at column `x` of row `y`: black where
/// `x + y` is even, white where it is odd.
pub open spec fn checkerboard_pixel(x: int, y: int) -> u8 {
    if (x + y) % 2 == 0 {
        0
    } else {
        255
    }
}

/// The checkerboard of the given dimensions.
pub open spec fn checkerboard(width: nat, height: nat) -> Raster {
    Raster {
        width,
        height,
        pixels: Seq::new(
            width * height,
            |i: int| checkerboard_pixel(i % (width as int), i / (width as int)),
        ),
    }
}

/// The image of the given dimensions whose pixels all have one intensity.
pub open spec fn solid(width: nat, height: nat, value: u8) -> Raster {
    Raster { width, height, pixels: Seq::new(width * height, |i: int| value) }
}

/// A decoded image of the `image` crate, of any pixel type. Nothing is
/// claimed of what it holds.
#[verifier::external_type_specification]
#[verifier::external_body]
pub struct ExDynamicImage(image::DynamicImage);

/// The error type of the `image` crate. Nothing is claimed of what it holds.
#[verifier::external_type_specification]
#[verifier::external_body]
pub struct ExImageError(image::ImageError);

/// An image file format known to the `image` crate. Nothing is claimed of
/// what it holds.
#[verifier::external_type_specification]
#[verifier::external_body]
pub struct ExImageFormat(image::ImageFormat);

/// `image::load_from_memory` guesses the format of an encoded image from its
/// first bytes and decodes it. It returns; nothing is claimed of the result.
pub assume_specification[ image::load_from_memory ](buffer: &[u8]) -> (r: image::ImageResult<
    image::DynamicImage,
>)
;

/// `image::load_from_memory_with_format` decodes an encoded image of the
/// given format. It returns; nothing is claimed of the result.
pub assume_specification[ image::load_from_memory_with_format ](
    buf: &[u8],
    format: image::ImageFormat,
) -> (r: image::ImageResult<image::DynamicImage>)
;

/// `image::DynamicImage::grayscale` reduces a decoded image to its
/// luminance, keeping the depth of its samples. It returns; nothing is
/// claimed of the result.
pub assume_specification[ image::DynamicImage::grayscale ](
    decoded: &image::DynamicImage,
) -> (r: image::DynamicImage)
;

/// `image::ImageFormat::from_path` picks the format that a path's extension
/// stands for. It returns; nothing is claimed of the result.
#[verifier::external_body]
fn format_from_path(filename: &str) -> (r: Result<image::ImageFormat, image::ImageError>) {
    image::ImageFormat::from_path(filename)
}

/// `image::DynamicImage::to_luma8` converts a decoded image to 8-bit
/// grayscale; handed out are its width, its height and its buffer. Nothing
/// is claimed of them: `GrayscaleImage::new` checks what comes back.
#[verifier::external_body]
fn to_luma8(decoded: &image::DynamicImage) -> (parts: (u32, u32, Vec<u8>)) {
    let gray = decoded.to_luma8();
    (gray.width(), gray.height(), gray.into_raw())
}

/// The text that the `Display` impl of `image::ImageError` writes. Nothing
/// is claimed of it.
#[verifier::external_body]
fn error_text(error: &image::ImageError) -> (text: String) {
    error.to_string()
}

/// What a decoder made of some bytes: the width, the height and the 8-bit
/// grayscale buffer, or the decoder's account of why it failed.
pub type Decoded = Result<(u32, u32, Vec<u8>), String>;

/// Turns what a decoder produced into an image. A decoded buffer is held to
/// the rules of `GrayscaleImage::new`; a decoder's failure is reported as
/// unreadable, its account put after `failure`.
pub fn accept_decoded(decoded: Decoded, failure: &str) -> (r: Result<GrayscaleImage, DecodeError>)
    ensures
        match decoded {
            Ok((width, height, pixels)) => match crate::grayscale::rejection(
                width,
                height,
                pixels@.len(),
            ) {
                Some(reason) => r == Err::<GrayscaleImage, DecodeError>(reason),
                None => r matches Ok(img) && img@ == (Raster {
                    width: width as nat,
                    height: height as nat,
                    pixels: pixels@,
                }),
            },
            Err(reason) => r matches Err(DecodeError::Unreadable(text)) && text@ == failure@
                + reason@,
        },
        r matches Ok(img) ==> img@.valid(),
{
    match decoded {
        Ok((width, height, pixels)) => GrayscaleImage::new(width, height, pixels),
        Err(reason) => {
            let mut text = failure.to_owned();
            text.append(reason.as_str());
            Err(DecodeError::Unreadable(text))
        },
    }
}

/// The decoder's account of its failure, where it failed.
pub open spec fn failure_reason(decoded: Decoded) -> Seq<char> {
    match decoded {
        Ok(_) => Seq::empty(),
        Err(reason) => reason@,
    }
}

/// Converts a decoding result of the `image` crate to plain values.
fn plain(loaded: Result<image::DynamicImage, image::ImageError>) -> (decoded: Decoded)
    ensures
        decoded is Ok <==> loaded is Ok,
{
    match loaded { Ok(image) => Ok(to_luma8(&image)), Err(error) => Err(error_text(&error)) }
}

/// Decodes the contents of a file in the format that its name's extension
/// stands for.
fn load_by_extension(filename: &str, contents: &Vec<u8>) -> (loaded: Result<
    image::DynamicImage,
    image::ImageError,
>) {
    match format_from_path(filename) {
        Ok(format) => image::load_from_memory_with_format(contents.as_slice(), format),
        Err(error) => Err(error),
    }
}

/// Decodes the contents of the named file for classification: the image is
/// reduced to its luminance and then to 8 bits. The format is the one that
/// the file name's extension stands for. A decoder's failure is reported in
/// the decoder's own words. Whatever the decoder makes of the bytes, an
/// image that is returned is a valid one.
pub fn open_grayscale(filename: &str, contents: &Vec<u8>) -> (r: Result<
    GrayscaleImage,
    DecodeError,
>)
    ensures
        r matches Ok(img) ==> img@.valid(),
{
    let loaded = match load_by_extension(filename, contents) {
        Ok(decoded) => Ok(decoded.grayscale()),
        Err(error) => Err(error),
    };
    accept_decoded(plain(loaded), "")
}

impl ImageSource {
    /// Decodes the contents of the named file. The format is the one that
    /// the file name's extension stands for. Whatever the decoder makes of
    /// the bytes, an image that is returned is a valid one.
    pub fn from_file(filename: &str, contents: &Vec<u8>) -> (r: Result<
        GrayscaleImage,
        DecodeError,
    >)
        ensures
            r matches Ok(img) ==> img@.valid(),
            r matches Err(DecodeError::Unreadable(text)) ==> ("Failed to decode image "@
                + filename@ + ": "@).is_prefix_of(text@),
    {
        let loaded = load_by_extension(filename, contents);
        let mut failure = "Failed to decode image ".to_owned();
        failure.append(filename);
        failure.append(": ");
        let decoded = plain(loaded);
        proof {
            crate::text::lemma_leads(failure@, failure_reason(decoded));
        }
        accept_decoded(decoded, failure.as_str())
    }

    /// Decodes an encoded image that was read from the standard input. The
    /// format is guessed from the first bytes. Whatever the decoder makes of
    /// the bytes, an image that is returned is a valid one.
    pub fn from_stdin_bytes(contents: &Vec<u8>) -> (r: Result<GrayscaleImage, DecodeError>)
        ensures
            r matches Ok(img) ==> img@.valid(),
            r matches Err(DecodeError::Unreadable(text))
                ==> "Failed to decode image from stdin: "@.is_prefix_of(text@),
    {
        let decoded = plain(image::load_from_memory(contents.as_slice()));
        let failure = "Failed to decode image from stdin: ";
        proof {
            crate::text::lemma_leads(failure@, failure_reason(decoded));
        }
        accept_decoded(decoded, failure)
    }

    /// The checkerboard of the given dimensions, whose squares are single
    /// pixels. It is refused where a dimension is zero or the pixels are
    /// more than `MAX_PIXELS`.
    pub fn from_checkerboard(width: u32, height: u32) -> (r: Result<GrayscaleImage, DecodeError>)
        ensures
            match crate::grayscale::rejection(width, height, (width * height) as nat) {
                Some(reason) => r == Err::<GrayscaleImage, DecodeError>(reason),
                None => r matches Ok(img) && img@ == checkerboard(width as nat, height as nat),
            },
            r matches Ok(img) ==> img@.valid(),
    {
        if width == 0 || height == 0 {
            return Err(DecodeError::ZeroArea);
        }
        assert(width * height <= 0xFFFF_FFFF * 0xFFFF_FFFF) by (nonlinear_arith)
            requires
                width <= 0xFFFF_FFFF,
                height <= 0xFFFF_FFFF,
        ;
        if (width as u64) * (height as u64) > MAX_PIXELS {
            return Err(DecodeError::TooLarge);
        }
        let ghost board = checkerboard(width as nat, height as nat);
        assert(board.valid());
        let mut pixels: Vec<u8> = Vec::new();
        let mut y: u32 = 0;
        while y < height
            invariant
                board == checkerboard(width as nat, height as nat),
                board.valid(),
                y <= height,
                pixels@.len() == y * width,
                forall|i: int| 0 <= i < pixels@.len() ==> pixels@[i] == board.pixels[i],
            decreases height - y,
        {
            let mut x: u32 = 0;
            while x < width
                invariant
                    board == checkerboard(width as nat, height as nat),
                    board.valid(),
                    y < height,
                    x <= width,
                    pixels@.len() == y * width + x,
                    forall|i: int| 0 <= i < pixels@.len() ==> pixels@[i] == board.pixels[i],
                decreases width - x,
            {
                proof {
                    crate::grayscale::lemma_offset_in_range(board, x as int, y as int);
                }
                let sum: u64 = x as u64 + y as u64;
                let value: u8 = if sum % 2 == 0 {
                    0
                } else {
                    255
                };
                pixels.push(value);
                x = x + 1;
            }
            assert((y + 1) * width == y * width + width) by (nonlinear_arith);
            y = y + 1;
        }
        assert(height * width == width * height) by (nonlinear_arith);
        assert(pixels@ =~= board.pixels);
        GrayscaleImage::new(width, height, pixels)
    }

    /// The solid white image of the given dimensions. It is refused where a
    /// dimension is zero or the pixels are more than `MAX_PIXELS`.
    pub fn from_white(width: u32, height: u32) -> (r: Result<GrayscaleImage, DecodeError>)
        ensures
            match crate::grayscale::rejection(width, height, (width * height) as nat) {
                Some(reason) => r == Err::<GrayscaleImage, DecodeError>(reason),
                None => r matches Ok(img) && img@ == solid(width as nat, height as nat, 255),
            },
            r matches Ok(img) ==> img@.valid(),
    {
        if width == 0 || height == 0 {
            return Err(DecodeError::ZeroArea);
        }
        assert(width * height <= 0xFFFF_FFFF * 0xFFFF_FFFF) by (nonlinear_arith)
            requires
                width <= 0xFFFF_FFFF,
                height <= 0xFFFF_FFFF,
        ;
        let area: u64 = (width as u64) * (height as u64);
        if area > MAX_PIXELS {
            return Err(DecodeError::TooLarge);
        }
        let pixels: Vec<u8> = vec![255u8; area as usize];
        assert(pixels@ =~= solid(width as nat, height as nat, 255).pixels);
        GrayscaleImage::new(width, height, pixels)
    }
}

/// Produces the image of a source. `contents` holds the bytes that were read
/// for it, from the file or from the standard input; a synthetic source
/// needs none.
pub fn load_image(source: ImageSource, contents: &Vec<u8>) -> (r: Result<
    GrayscaleImage,
    DecodeError,
>)
    ensures
        r matches Ok(img) ==> img@.valid(),
        source matches ImageSource::SyntheticCheckerboard { width, height } ==> match crate::grayscale::rejection(
            width,
            height,
            (width * height) as nat,
        ) {
            Some(reason) => r == Err::<GrayscaleImage, DecodeError>(reason),
            None => r matches Ok(img) && img@ == checkerboard(width as nat, height as nat),
        },
        source matches ImageSource::SyntheticWhite { width, height } ==> match crate::grayscale::rejection(
            width,
            height,
            (width * height) as nat,
        ) {
            Some(reason) => r == Err::<GrayscaleImage, DecodeError>(reason),
            None => r matches Ok(img) && img@ == solid(width as nat, height as nat, 255),
        },
{
    let r = match source {
        ImageSource::SyntheticCheckerboard { width, height } => ImageSource::from_checkerboard(
            width,
            height,
        ),
        ImageSource::SyntheticWhite { width, height } => ImageSource::from_white(width, height),
        ImageSource::File(filename) => ImageSource::from_file(filename.as_str(), contents),
        ImageSource::Stdin => ImageSource::from_stdin_bytes(contents),
    };
    r
}

/// The source that an input mode stands for; synthetic images are
/// `SYNTHETIC_SIDE` pixels wide and high.
pub open spec fn source_of(mode: ImageInputMode) -> ImageSource {
    match mode {
        ImageInputMode::SyntheticCheckerboard => ImageSource::SyntheticCheckerboard {
            width: SYNTHETIC_SIDE,
            height: SYNTHETIC_SIDE,
        },
        ImageInputMode::SyntheticWhite => ImageSource::SyntheticWhite {
            width: SYNTHETIC_SIDE,
            height: SYNTHETIC_SIDE,
        },
        ImageInputMode::StdinBytes => ImageSource::Stdin,
        ImageInputMode::File(filename) => ImageSource::File(filename),
    }
}

/// The source of an input mode together with its image, or nothing where
/// the image cannot be had. `contents` holds the bytes that were read for
/// the mode. A synthetic mode always has its image.
pub fn analyze_image_input(
    mode: ImageInputMode,
    cli: &Cli,
    laplacian_threshold: Micros,
    contents: &Vec<u8>,
) -> (r: Option<(ImageSource, GrayscaleImage)>)
    ensures
        r matches Some(pair) ==> pair.0 == source_of(mode) && pair.1@.valid(),
        mode is SyntheticCheckerboard ==> (r matches Some(pair) && pair.1@ == checkerboard(
            SYNTHETIC_SIDE as nat,
            SYNTHETIC_SIDE as nat,
        )),
        mode is SyntheticWhite ==> (r matches Some(pair) && pair.1@ == solid(
            SYNTHETIC_SIDE as nat,
            SYNTHETIC_SIDE as nat,
            255,
        )),
{
    let source = match mode {
        ImageInputMode::SyntheticCheckerboard => ImageSource::SyntheticCheckerboard {
            width: SYNTHETIC_SIDE,
            height: SYNTHETIC_SIDE,
        },
        ImageInputMode::SyntheticWhite => ImageSource::SyntheticWhite {
            width: SYNTHETIC_SIDE,
            height: SYNTHETIC_SIDE,
        },
        ImageInputMode::StdinBytes => ImageSource::Stdin,
        ImageInputMode::File(filename) => ImageSource::File(filename),
    };
    match load_image(source.clone(), contents) {
        Ok(img) => Some((source, img)),
        Err(_) => None,
    }
}

} // verus!
