//! One metric's verdict on one image.

use crate::image_analysis::Micros;
use vstd::prelude::*;

verus! {

/// The outcome of one sharpness metric on one image.
#[derive(Debug)]
pub struct BlurResult {
    /// The metric's stable name.
    pub name: String,
    /// The score, in millionths.
    pub value: Micros,
    /// The threshold the score was held against, in millionths.
    pub threshold: Micros,
    /// Whether the score lies below the threshold.
    pub is_blurry: bool,
}

/// The mathematical model of a `BlurResult`.
pub struct Reading {
    pub name: Seq<char>,
    pub value: int,
    pub threshold: int,
    pub is_blurry: bool,
}

impl View for BlurResult {
    type V = Reading;

    open spec fn view(&self) -> Reading {
        Reading {
            name: self.name@,
            value: self.value as int,
            threshold: self.threshold as int,
            is_blurry: self.is_blurry,
        }
    }
}

impl Reading {
    /// The reading that a metric named `name` gives for a score and a
    /// threshold: blurry exactly when the score is below the threshold, so a
    /// score equal to the threshold counts as sharp.
    pub open spec fn of(name: Seq<char>, value: int, threshold: int) -> Reading {
        Reading { name, value, threshold, is_blurry: value < threshold }
    }

    /// The verdict agrees with the score and the threshold.
    pub open spec fn consistent(self) -> bool {
        self.is_blurry == (self.value < self.threshold)
    }
}

/// The models of a list of results, in the same order.
pub open spec fn readings_of(results: Seq<BlurResult>) -> Seq<Reading> {
    Seq::new(results.len(), |i: int| results[i]@)
}

/// Whether every reading says blurry. True of no readings at all: with no
/// metric to contradict it, an image counts as blurry.
pub open spec fn all_blurry(readings: Seq<Reading>) -> bool {
    forall|i: int| 0 <= i < readings.len() ==> (#[trigger] readings[i]).is_blurry
}

impl BlurResult {
    /// Records a score against a threshold under a metric's name.
    pub fn new(name: &str, value: Micros, threshold: Micros) -> (r: BlurResult)
        ensures
            r@ == Reading::of(name@, value as int, threshold as int),
    {
        BlurResult { name: name.to_owned(), value, threshold, is_blurry: value < threshold }
    }
}

} // verus!
