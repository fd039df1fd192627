//! The primary metric: variance of the Laplacian response.

use crate::blur_detector::BlurDetector;
use crate::grayscale::{GrayscaleImage, Raster};
use crate::image_analysis::{analyze_blur_variance, Micros};
use vstd::prelude::*;

verus! {

/// Calls an image blurry when the variance of its Laplacian response lies
/// below the threshold.
#[derive(Clone, Copy, Debug, PartialEq, Eq, Structural)]
pub struct LaplacianVarianceDetector {
    /// The threshold, in millionths.
    pub threshold: Micros,
}

impl LaplacianVarianceDetector {
    pub fn new(threshold: Micros) -> (d: Self)
        ensures
            d.threshold == threshold,
    {
        Self { threshold }
    }
}

impl BlurDetector for LaplacianVarianceDetector {
    open spec fn score(&self, r: Raster) -> int {
        crate::image_analysis::laplacian_variance_micros(r)
    }

    open spec fn cutoff(&self) -> Micros {
        self.threshold
    }

    open spec fn label(&self) -> Seq<char> {
        "Laplacian"@
    }

    fn detect(&self, img: &GrayscaleImage) -> (r: (Micros, bool)) {
        analyze_blur_variance(img, self.threshold)
    }

    fn name(&self) -> (n: &'static str) {
        "Laplacian"
    }

    fn threshold(&self) -> (t: Micros) {
        self.threshold
    }
}

} // verus!
