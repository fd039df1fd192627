//! The choice of the image source from the options.

use crate::cli::Cli;
use crate::image_loader::{ImageSource, SYNTHETIC_SIDE};
use vstd::prelude::*;

verus! {

/// The error type of `std::io`. Nothing is claimed of what it holds.
#[verifier::external_type_specification]
#[verifier::external_body]
pub struct ExIoError(std::io::Error);

/// The source that the options select: a synthetic checkerboard before a
/// synthetic white image, before a named file, before the standard input.
pub open spec fn selected_source(cli: Cli) -> ImageSource {
    if cli.synthetic_checkerboard {
        ImageSource::SyntheticCheckerboard { width: SYNTHETIC_SIDE, height: SYNTHETIC_SIDE }
    } else if cli.synthetic_white {
        ImageSource::SyntheticWhite { width: SYNTHETIC_SIDE, height: SYNTHETIC_SIDE }
    } else {
        match cli.file {
            Some(filename) => ImageSource::File(filename),
            None => ImageSource::Stdin,
        }
    }
}

/// Selects the image source from the options. It always succeeds.
pub fn select_image_source(cli: &Cli) -> (r: Result<ImageSource, std::io::Error>)
    ensures
        r == Ok::<ImageSource, std::io::Error>(selected_source(*cli)),
{
    if cli.synthetic_checkerboard {
        Ok(ImageSource::SyntheticCheckerboard { width: SYNTHETIC_SIDE, height: SYNTHETIC_SIDE })
    } else if cli.synthetic_white {
        Ok(ImageSource::SyntheticWhite { width: SYNTHETIC_SIDE, height: SYNTHETIC_SIDE })
    } else {
        match &cli.file {
            Some(filename) => Ok(ImageSource::File(filename.clone())),
            None => Ok(ImageSource::Stdin),
        }
    }
}

} // verus!
