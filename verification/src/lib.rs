//! Blur classification of grayscale images by several independent sharpness
//! metrics, and the filter that applies it to a stream of image paths.
//!
//! An image counts as blurry only when every metric of the suite calls it
//! blurry. Scores and thresholds are exact: unsigned integers that count
//! millionths.

pub mod blur_detector;
pub mod blur_laplacian;
pub mod blur_opencv;
pub mod blur_result;
pub mod blur_tenengrad;
pub mod cli;
pub mod config;
pub mod detector_helpers;
pub mod dispatcher;
pub mod grayscale;
pub mod image_analysis;
pub mod image_loader;
pub mod image_source_helpers;
pub mod metadata;
pub mod output_helpers;
pub mod stats;
pub mod stream;
pub mod text;

use crate::blur_result::{BlurResult, Reading};
use crate::detector_helpers::Detector;
use crate::grayscale::{GrayscaleImage, Raster};
use vstd::prelude::*;

verus! {

/// What is known of one classified image: whether every metric called it
/// blurry, the readings in the order of the suite, the size of the encoded
/// image in bytes, the width, the height, and the focal length.
pub type Classification = (bool, Vec<BlurResult>, u64, u32, u32, Option<String>);

/// Why an image could not be classified.
#[derive(Debug, PartialEq, Eq)]
pub enum ProcessError {
    /// A metric of the suite scores a backend's response, and no response
    /// with one value per pixel was supplied.
    MetricUnavailable,
}

/// Whether some metric of the suite scores a backend's response.
pub open spec fn suite_needs_backend(detectors: Seq<Detector>) -> bool {
    exists|i: int| 0 <= i < detectors.len() && (#[trigger] detectors[i]).needs_backend()
}

/// Whether the suite can classify an image with this backend response at
/// hand.
pub open spec fn can_classify(
    detectors: Seq<Detector>,
    r: Raster,
    backend: Option<Seq<i16>>,
) -> bool {
    !suite_needs_backend(detectors) || crate::detector_helpers::backend_fits(r, backend)
}

/// The readings of every metric of the suite, in the order of the suite.
pub open spec fn suite_readings(detectors: Seq<Detector>, r: Raster, response: Seq<i16>) -> Seq<
    Reading,
> {
    Seq::new(detectors.len(), |i: int| detectors[i].reading(r, response))
}

/// Whether `c` is the classification of an image by a suite: the readings
/// are those of the suite's metrics in order, the overall verdict is their
/// conjunction, and the rest is what was known of the image beforehand.
pub open spec fn classifies(
    c: Classification,
    detectors: Seq<Detector>,
    r: Raster,
    response: Seq<i16>,
    size: u64,
    focal: Option<Seq<char>>,
) -> bool {
    &&& crate::blur_result::readings_of(c.1@) == suite_readings(detectors, r, response)
    &&& c.0 == crate::blur_result::all_blurry(crate::blur_result::readings_of(c.1@))
    &&& c.2 == size
    &&& c.3 == r.width
    &&& c.4 == r.height
    &&& crate::text::optional(c.5) == focal
}

/// Every reading of a suite is blurry exactly when its score lies below its
/// threshold; a score equal to the threshold is sharp.
pub proof fn lemma_readings_consistent(detectors: Seq<Detector>, r: Raster, response: Seq<i16>)
    ensures
        forall|i: int|
            0 <= i < detectors.len() ==> (#[trigger] suite_readings(
                detectors,
                r,
                response,
            )[i]).consistent(),
        forall|i: int|
            0 <= i < detectors.len() && detectors[i].score(r, response) == detectors[i].cutoff()
                ==> !(#[trigger] suite_readings(detectors, r, response)[i]).is_blurry,
{
}

/// A suite without metrics calls every image blurry: there is no metric to
/// contradict it.
pub proof fn lemma_empty_suite_is_blurry(r: Raster, response: Seq<i16>)
    ensures
        crate::blur_result::all_blurry(suite_readings(Seq::empty(), r, response)),
{
}

/// The overall verdict does not depend on the order of the metrics: it is
/// blurry exactly when no metric of the suite calls the image sharp.
pub proof fn lemma_overall_is_conjunction(detectors: Seq<Detector>, r: Raster, response: Seq<i16>)
    ensures
        crate::blur_result::all_blurry(suite_readings(detectors, r, response)) == all_below(
            detectors,
            r,
            response,
        ),
{
    let readings = suite_readings(detectors, r, response);
    if crate::blur_result::all_blurry(readings) {
        assert forall|i: int| 0 <= i < detectors.len() implies (#[trigger] detectors[i]).score(
            r,
            response,
        ) < detectors[i].cutoff() by {
            assert(readings[i].is_blurry);
        }
    }
}

/// Whether every metric of the suite scores the image below its threshold.
pub open spec fn all_below(detectors: Seq<Detector>, r: Raster, response: Seq<i16>) -> bool {
    forall|i: int|
        0 <= i < detectors.len() ==> (#[trigger] detectors[i]).score(r, response)
            < detectors[i].cutoff()
}

/// Where every metric of one suite scores below its threshold, so does
/// every metric of a suite that holds the same metrics.
proof fn lemma_all_below_carries_over(
    first: Seq<Detector>,
    second: Seq<Detector>,
    r: Raster,
    response: Seq<i16>,
)
    requires
        first.to_multiset() == second.to_multiset(),
        all_below(first, r, response),
    ensures
        all_below(second, r, response),
{
    broadcast use vstd::seq_lib::group_to_multiset_ensures;

    assert forall|j: int| 0 <= j < second.len() implies (#[trigger] second[j]).score(r, response)
        < second[j].cutoff() by {
        assert(second.contains(second[j]));
        assert(second.to_multiset().count(second[j]) > 0);
        assert(first.contains(second[j]));
        let i = choose|i: int| 0 <= i < first.len() && first[i] == second[j];
        assert(first[i].score(r, response) < first[i].cutoff());
    }
}

/// The order of the metrics bears on the order of the readings only: two
/// suites that hold the same metrics, in whatever order, give one overall
/// verdict.
pub proof fn lemma_order_is_irrelevant(
    first: Seq<Detector>,
    second: Seq<Detector>,
    r: Raster,
    response: Seq<i16>,
)
    requires
        first.to_multiset() == second.to_multiset(),
    ensures
        crate::blur_result::all_blurry(suite_readings(first, r, response))
            == crate::blur_result::all_blurry(suite_readings(second, r, response)),
{
    lemma_overall_is_conjunction(first, r, response);
    lemma_overall_is_conjunction(second, r, response);
    if all_below(first, r, response) {
        lemma_all_below_carries_over(first, second, r, response);
    }
    if all_below(second, r, response) {
        lemma_all_below_carries_over(second, first, r, response);
    }
}

/// Classifying one image by one suite twice gives the same result both
/// times: the verdict, the readings and what was known beforehand agree.
pub proof fn lemma_classification_repeatable(
    first: Classification,
    second: Classification,
    detectors: Seq<Detector>,
    r: Raster,
    response: Seq<i16>,
    size: u64,
    focal: Option<Seq<char>>,
)
    requires
        classifies(first, detectors, r, response, size, focal),
        classifies(second, detectors, r, response, size, focal),
    ensures
        first.0 == second.0,
        crate::blur_result::readings_of(first.1@) == crate::blur_result::readings_of(second.1@),
        first.2 == second.2,
        first.3 == second.3,
        first.4 == second.4,
        crate::text::optional(first.5) == crate::text::optional(second.5),
{
}

/// Runs every metric of the suite on an image and records what was known of
/// the image beforehand: `size`, the length of its encoding in bytes, and
/// `focal`, its focal length. It fails exactly when a metric needs the
/// backend's response and `backend` holds none with one value per pixel.
pub fn process_image(
    img: &GrayscaleImage,
    size: u64,
    focal: Option<String>,
    detectors: &Vec<Detector>,
    backend: &Option<Vec<i16>>,
) -> (r: Result<Classification, ProcessError>)
    ensures
        r is Ok <==> can_classify(
            detectors@,
            img@,
            crate::detector_helpers::backend_model(*backend),
        ),
        r matches Ok(c) ==> classifies(
            c,
            detectors@,
            img@,
            crate::detector_helpers::backend_values(*backend),
            size,
            crate::text::optional(focal),
        ),
        r matches Ok(c) ==> forall|i: int|
            0 <= i < c.1@.len() ==> (#[trigger] c.1@[i])@.consistent(),
{
    let width = img.width();
    let height = img.height();
    let ghost response = crate::detector_helpers::backend_values(*backend);
    let mut results: Vec<BlurResult> = Vec::new();
    let mut all_blurry: bool = true;
    let mut i: usize = 0;
    while i < detectors.len()
        invariant
            i <= detectors@.len(),
            results@.len() == i,
            response == crate::detector_helpers::backend_values(*backend),
            forall|j: int|
                0 <= j < i ==> (#[trigger] results@[j])@ == detectors@[j].reading(img@, response),
            forall|j: int|
                0 <= j < i ==> !(#[trigger] detectors@[j]).needs_backend()
                    || crate::detector_helpers::backend_fits(
                    img@,
                    crate::detector_helpers::backend_model(*backend),
                ),
            all_blurry == (forall|j: int| 0 <= j < i ==> (#[trigger] results@[j]).is_blurry),
        decreases detectors@.len() - i,
    {
        match detectors[i].evaluate(img, backend) {
            Some(result) => {
                let ghost prior = results@;
                let ghost agreed = all_blurry;
                let ghost verdict = result.is_blurry;
                all_blurry = all_blurry && result.is_blurry;
                results.push(result);
                proof {
                    assert(forall|j: int| 0 <= j < i ==> results@[j] == prior[j]);
                    if !agreed {
                        let j = choose|j: int| 0 <= j < i && !(#[trigger] prior[j]).is_blurry;
                        assert(!results@[j].is_blurry);
                    } else if !verdict {
                        assert(!results@[i as int].is_blurry);
                    }
                }
            },
            None => {
                assert(detectors@[i as int].needs_backend());
                return Err(ProcessError::MetricUnavailable);
            },
        }
        i = i + 1;
    }
    proof {
        let readings = crate::blur_result::readings_of(results@);
        assert(readings =~= suite_readings(detectors@, img@, response));
        assert(all_blurry == crate::blur_result::all_blurry(readings)) by {
            if all_blurry {
                assert forall|j: int| 0 <= j < readings.len() implies (
                #[trigger] readings[j]).is_blurry by {
                    assert(results@[j].is_blurry);
                }
            } else {
                let j = choose|j: int| 0 <= j < i && !(#[trigger] results@[j]).is_blurry;
                assert(!readings[j].is_blurry);
            }
        }
    }
    Ok((all_blurry, results, size, width, height, focal))
}

/// Runs every metric of the suite on an image that was made in memory: its
/// size is recorded as zero and its focal length as unknown.
pub fn process_image_buffer(
    img: &GrayscaleImage,
    detectors: &Vec<Detector>,
    backend: &Option<Vec<i16>>,
) -> (r: Result<Classification, ProcessError>)
    ensures
        r is Ok <==> can_classify(
            detectors@,
            img@,
            crate::detector_helpers::backend_model(*backend),
        ),
        r matches Ok(c) ==> classifies(
            c,
            detectors@,
            img@,
            crate::detector_helpers::backend_values(*backend),
            0,
            None,
        ),
        r matches Ok(c) ==> forall|i: int|
            0 <= i < c.1@.len() ==> (#[trigger] c.1@[i])@.consistent(),
{
    process_image(img, 0, None, detectors, backend)
}

} // verus!
