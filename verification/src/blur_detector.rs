//! What every sharpness metric offers.

use crate::grayscale::{GrayscaleImage, Raster};
use crate::image_analysis::Micros;
use vstd::prelude::*;

verus! {

/// A sharpness metric: a score computed from an image alone, held against a
/// threshold that the metric carries. A lower score means more blur. The only
/// state is the threshold, so one detector serves any number of images.
pub trait BlurDetector {
    /// The score of an image, in millionths.
    spec fn score(&self, r: Raster) -> int;

    /// The threshold, in millionths.
    spec fn cutoff(&self) -> Micros;

    /// The metric's stable name.
    spec fn label(&self) -> Seq<char>;

    /// Scores `img` and says whether the score lies below the threshold.
    fn detect(&self, img: &GrayscaleImage) -> (r: (Micros, bool))
        ensures
            r.0 == self.score(img@),
            r.1 == (r.0 < self.cutoff()),
    ;

    /// The metric's stable name.
    fn name(&self) -> (n: &'static str)
        ensures
            n@ == self.label(),
    ;

    /// The threshold, in millionths.
    fn threshold(&self) -> (t: Micros)
        ensures
            t == self.cutoff(),
    ;
}

} // verus!
