//! The gradient-energy metric.

use crate::blur_detector::BlurDetector;
use crate::grayscale::{GrayscaleImage, Raster};
use crate::image_analysis::{tenengrad_sharpness, Micros};
use vstd::prelude::*;

verus! {

/// Calls an image blurry when its mean squared Sobel gradient magnitude lies
/// below the threshold. The comparison runs the same way as for the Laplacian
/// metrics: a lower score means more blur.
#[derive(Clone, Copy, Debug, PartialEq, Eq, Structural)]
pub struct TenengradDetector {
    /// The threshold, in millionths.
    pub threshold: Micros,
}

impl TenengradDetector {
    pub fn new(threshold: Micros) -> (d: Self)
        ensures
            d.threshold == threshold,
    {
        Self { threshold }
    }
}

impl BlurDetector for TenengradDetector {
    open spec fn score(&self, r: Raster) -> int {
        crate::image_analysis::tenengrad_micros(r)
    }

    open spec fn cutoff(&self) -> Micros {
        self.threshold
    }

    open spec fn label(&self) -> Seq<char> {
        "Tenengrad"@
    }

    fn detect(&self, img: &GrayscaleImage) -> (r: (Micros, bool)) {
        let val = tenengrad_sharpness(img);
        (val, val < self.threshold)
    }

    fn name(&self) -> (n: &'static str) {
        "Tenengrad"
    }

    fn threshold(&self) -> (t: Micros) {
        self.threshold
    }
}

} // verus!
