//! The secondary Laplacian metric, whose filtering is done by a separate
//! image-processing backend.

use crate::grayscale::MAX_PIXELS;
use crate::image_analysis::Micros;
use crate::stats::population_variance;
use vstd::prelude::*;

verus! {

/// Calls an image blurry when the variance of the backend's Laplacian
/// response lies below the threshold. The backend filters the image; this
/// detector takes the response, one value per pixel, and does the rest.
#[derive(Clone, Copy, Debug, PartialEq, Eq, Structural)]
pub struct OpenCvLaplacianDetector {
    /// The threshold, in millionths.
    pub threshold: Micros,
}

impl OpenCvLaplacianDetector {
    pub fn new(threshold: Micros) -> (d: Self)
        ensures
            d.threshold == threshold,
    {
        Self { threshold }
    }

    /// Whether a response can be scored: it is not empty and holds no more
    /// than `MAX_PIXELS` values.
    pub open spec fn scorable(response: Seq<i16>) -> bool {
        0 < response.len() <= MAX_PIXELS
    }

    /// The metric's stable name.
    pub open spec fn label() -> Seq<char> {
        "OpenCVLaplacian"@
    }

    /// The population variance of `response`, in millionths, and whether it
    /// lies below the threshold; nothing for a response that cannot be
    /// scored.
    pub fn detect(&self, response: &Vec<i16>) -> (r: Option<(Micros, bool)>)
        ensures
            r is Some <==> Self::scorable(response@),
            r matches Some(verdict) ==> verdict.0 == crate::stats::variance_micros(response@)
                && verdict.1 == (verdict.0 < self.threshold),
    {
        match population_variance(response) {
            Some(variance) => Some((variance, variance < self.threshold)),
            None => None,
        }
    }

    /// The metric's stable name.
    pub fn name(&self) -> (n: &'static str)
        ensures
            n@ == Self::label(),
    {
        "OpenCVLaplacian"
    }

    /// The threshold, in millionths.
    pub fn threshold(&self) -> (t: Micros)
        ensures
            t == self.threshold,
    {
        self.threshold
    }
}

} // verus!
