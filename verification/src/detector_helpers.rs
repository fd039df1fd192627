//! The suite of metrics that an image is run through.

use crate::blur_detector::BlurDetector;
use crate::blur_laplacian::LaplacianVarianceDetector;
use crate::blur_opencv::OpenCvLaplacianDetector;
use crate::blur_result::{BlurResult, Reading};
use crate::blur_tenengrad::TenengradDetector;
use crate::grayscale::{GrayscaleImage, Raster};
use crate::image_analysis::Micros;
use vstd::prelude::*;

verus! {

/// One configured metric of a suite.
#[derive(Debug)]
pub enum Detector {
    /// Variance of the Laplacian response, filtered here.
    Laplacian(LaplacianVarianceDetector),
    /// Mean squared Sobel gradient magnitude.
    Tenengrad(TenengradDetector),
    /// Variance of the Laplacian response that a backend filtered.
    OpenCv(OpenCvLaplacianDetector),
}

/// Whether a backend response belongs to an image: one value per pixel.
pub open spec fn backend_fits(r: Raster, backend: Option<Seq<i16>>) -> bool {
    backend matches Some(response) && response.len() == r.area()
}

/// The response inside `backend`, or no values where there is none.
pub open spec fn backend_values(backend: Option<Vec<i16>>) -> Seq<i16> {
    match backend {
        Some(response) => response@,
        None => Seq::empty(),
    }
}

/// The model of an optional backend response.
pub open spec fn backend_model(backend: Option<Vec<i16>>) -> Option<Seq<i16>> {
    match backend {
        Some(response) => Some(response@),
        None => None,
    }
}

impl Detector {
    /// The metric's stable name.
    pub open spec fn label(self) -> Seq<char> {
        match self {
            Detector::Laplacian(d) => d.label(),
            Detector::Tenengrad(d) => d.label(),
            Detector::OpenCv(_) => OpenCvLaplacianDetector::label(),
        }
    }

    /// The threshold, in millionths.
    pub open spec fn cutoff(self) -> Micros {
        match self {
            Detector::Laplacian(d) => d.threshold,
            Detector::Tenengrad(d) => d.threshold,
            Detector::OpenCv(d) => d.threshold,
        }
    }

    /// Whether the metric scores a backend's response rather than the image.
    pub open spec fn needs_backend(self) -> bool {
        self is OpenCv
    }

    /// The score of an image whose backend response is `response`.
    pub open spec fn score(self, r: Raster, response: Seq<i16>) -> int {
        match self {
            Detector::Laplacian(d) => d.score(r),
            Detector::Tenengrad(d) => d.score(r),
            Detector::OpenCv(_) => crate::stats::variance_micros(response),
        }
    }

    /// The reading of an image whose backend response is `response`.
    pub open spec fn reading(self, r: Raster, response: Seq<i16>) -> Reading {
        Reading::of(self.label(), self.score(r, response), self.cutoff() as int)
    }

    /// The metric's stable name.
    pub fn name(&self) -> (n: &'static str)
        ensures
            n@ == self.label(),
    {
        match self {
            Detector::Laplacian(d) => d.name(),
            Detector::Tenengrad(d) => d.name(),
            Detector::OpenCv(d) => d.name(),
        }
    }

    /// The threshold, in millionths.
    pub fn threshold(&self) -> (t: Micros)
        ensures
            t == self.cutoff(),
    {
        match self {
            Detector::Laplacian(d) => d.threshold,
            Detector::Tenengrad(d) => d.threshold,
            Detector::OpenCv(d) => d.threshold,
        }
    }

    /// Runs the metric on `img`. A metric that needs the backend's response
    /// has no result unless `backend` holds one value per pixel; every other
    /// metric always has one.
    pub fn evaluate(&self, img: &GrayscaleImage, backend: &Option<Vec<i16>>) -> (r: Option<
        BlurResult,
    >)
        ensures
            r is Some <==> (!self.needs_backend() || backend_fits(img@, backend_model(*backend))),
            r matches Some(result) ==> result@ == self.reading(img@, backend_values(*backend)),
    {
        match self {
            Detector::Laplacian(d) => {
                let (value, _) = d.detect(img);
                Some(BlurResult::new(d.name(), value, d.threshold))
            },
            Detector::Tenengrad(d) => {
                let (value, _) = d.detect(img);
                Some(BlurResult::new(d.name(), value, d.threshold))
            },
            Detector::OpenCv(d) => {
                let area: u64 = (img.width() as u64) * (img.height() as u64);
                match backend {
                    Some(response) => {
                        if response.len() as u64 != area {
                            return None;
                        }
                        proof {
                            crate::grayscale::lemma_area_positive(img@);
                        }
                        match d.detect(response) {
                            Some((value, _)) => Some(BlurResult::new(d.name(), value, d.threshold)),
                            None => None,
                        }
                    },
                    None => None,
                }
            },
        }
    }
}

/// The secondary metric agrees with the primary one wherever its backend
/// filters as this library does: on the same response both give the same
/// score, and with equal thresholds the same verdict.
pub proof fn lemma_backends_agree(
    primary: LaplacianVarianceDetector,
    secondary: OpenCvLaplacianDetector,
    r: Raster,
)
    ensures
        Detector::OpenCv(secondary).score(r, crate::image_analysis::laplacian_response(r))
            == Detector::Laplacian(primary).score(r, crate::image_analysis::laplacian_response(r)),
        primary.threshold == secondary.threshold ==> Detector::OpenCv(secondary).reading(
            r,
            crate::image_analysis::laplacian_response(r),
        ).is_blurry == Detector::Laplacian(primary).reading(
            r,
            crate::image_analysis::laplacian_response(r),
        ).is_blurry,
{
}

/// The suite for the given thresholds, in millionths: the Laplacian metric,
/// the Tenengrad metric and, where its backend is available, the secondary
/// Laplacian metric, in this order. Without a threshold for the secondary
/// metric the suite is built without it.
pub fn build_detectors(
    laplacian_threshold: Micros,
    tenengrad_threshold: Micros,
    opencv_laplacian_threshold: Option<Micros>,
) -> (detectors: Vec<Detector>)
    ensures
        detectors@.len() == if opencv_laplacian_threshold is Some {
            3int
        } else {
            2int
        },
        detectors@[0] == Detector::Laplacian(
            LaplacianVarianceDetector { threshold: laplacian_threshold },
        ),
        detectors@[1] == Detector::Tenengrad(TenengradDetector { threshold: tenengrad_threshold }),
        opencv_laplacian_threshold matches Some(t) ==> detectors@[2] == Detector::OpenCv(
            OpenCvLaplacianDetector { threshold: t },
        ),
{
    let mut detectors: Vec<Detector> = Vec::new();
    detectors.push(Detector::Laplacian(LaplacianVarianceDetector::new(laplacian_threshold)));
    detectors.push(Detector::Tenengrad(TenengradDetector::new(tenengrad_threshold)));
    match opencv_laplacian_threshold {
        Some(threshold) => {
            detectors.push(Detector::OpenCv(OpenCvLaplacianDetector::new(threshold)));
        },
        None => {},
    }
    detectors
}

} // verus!
