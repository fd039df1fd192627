//! The options of one run, as plain values.

use crate::image_analysis::Micros;
use vstd::prelude::*;

verus! {

/// The options of one run. Thresholds are in millionths.
#[derive(Debug)]
pub struct Cli {
    /// Input file to analyze.
    pub file: Option<String>,
    /// Generate and analyze a synthetic checkerboard image.
    pub synthetic_checkerboard: bool,
    /// Generate and analyze a synthetic solid white image.
    pub synthetic_white: bool,
    /// Verbose, human-readable output.
    pub verbose: bool,
    /// Threshold of the Laplacian metric.
    pub threshold: Option<Micros>,
    /// Pass the blurry images; the default.
    pub blur: bool,
    /// Pass the sharp images.
    pub sharp: bool,
    /// Tab-separated output with every detail of each file.
    pub ascii: bool,
    /// Copy the input records to the output unchanged.
    pub passthrough: bool,
    /// Read a single encoded image from the input.
    pub std_in_bytes: bool,
    /// Threshold of the Tenengrad metric.
    pub tenengrad_threshold: Option<Micros>,
    /// Threshold of the secondary Laplacian metric.
    pub opencv_laplacian_threshold: Option<Micros>,
    /// Path of a configuration file.
    pub config: Option<String>,
}

/// Which images a filter run passes on.
#[derive(Clone, Copy, Debug, PartialEq, Eq, Structural)]
pub enum Mode {
    /// Those that every metric calls blurry.
    Blur,
    /// Those that some metric calls sharp.
    Sharp,
}

/// How a classification is rendered.
#[derive(Clone, Copy, Debug, PartialEq, Eq, Structural)]
pub enum OutputStyle {
    /// The path and the overall verdict.
    Terse,
    /// A block of lines with every detail.
    Verbose,
    /// One tab-separated record.
    Ascii,
}

impl Mode {
    /// Whether an image with this overall verdict is passed on.
    pub open spec fn keeps(self, overall_blurry: bool) -> bool {
        match self {
            Mode::Blur => overall_blurry,
            Mode::Sharp => !overall_blurry,
        }
    }

    /// Whether an image with this overall verdict is passed on.
    pub fn passes(&self, overall_blurry: bool) -> (kept: bool)
        ensures
            kept == self.keeps(overall_blurry),
    {
        match self {
            Mode::Blur => overall_blurry,
            Mode::Sharp => !overall_blurry,
        }
    }
}

impl Cli {
    /// The filter mode that the options select: sharp only when it was asked
    /// for and blur was not.
    pub open spec fn selected_mode(self) -> Mode {
        if self.blur || !self.sharp {
            Mode::Blur
        } else {
            Mode::Sharp
        }
    }

    /// The output style that the options select; tab-separated wins over
    /// verbose.
    pub open spec fn selected_style(self) -> OutputStyle {
        if self.ascii {
            OutputStyle::Ascii
        } else if self.verbose {
            OutputStyle::Verbose
        } else {
            OutputStyle::Terse
        }
    }

    /// The filter mode that the options select.
    pub fn mode(&self) -> (m: Mode)
        ensures
            m == self.selected_mode(),
    {
        if self.blur || (!self.blur && !self.sharp) {
            Mode::Blur
        } else {
            Mode::Sharp
        }
    }

    /// The output style that the options select.
    pub fn style(&self) -> (s: OutputStyle)
        ensures
            s == self.selected_style(),
    {
        if self.ascii {
            OutputStyle::Ascii
        } else if self.verbose {
            OutputStyle::Verbose
        } else {
            OutputStyle::Terse
        }
    }
}

} // verus!
