use grepfuzz::blur_result::BlurResult;
use grepfuzz::config::{DetectorConfig, GrepfuzzConfig, Thresholds};
use grepfuzz::cli::{Cli, Mode, OutputStyle};
use grepfuzz::detector_helpers::{build_detectors, Detector};
use grepfuzz::grayscale::GrayscaleImage;
use grepfuzz::image_analysis::laplacian_filter;
use grepfuzz::{process_image, process_image_buffer, ProcessError};

fn plain_cli() -> Cli {
    Cli {
        file: None,
        synthetic_checkerboard: false,
        synthetic_white: false,
        verbose: false,
        threshold: None,
        blur: true,
        sharp: false,
        ascii: false,
        passthrough: false,
        std_in_bytes: false,
        tenengrad_threshold: None,
        opencv_laplacian_threshold: None,
        config: None,
    }
}

fn ramp() -> GrayscaleImage {
    GrayscaleImage::new(3, 3, vec![10, 20, 30, 40, 50, 60, 70, 80, 200]).unwrap()
}

fn summary(results: &[BlurResult]) -> Vec<(String, u64, u64, bool)> {
    results.iter().map(|r| (r.name.clone(), r.value, r.threshold, r.is_blurry)).collect()
}

#[test]
fn reading_is_blurry_below_the_threshold_only() {
    let below = BlurResult::new("Laplacian", 199_999, 200_000);
    assert!(below.is_blurry);
    let equal = BlurResult::new("Laplacian", 200_000, 200_000);
    assert!(!equal.is_blurry);
    let above = BlurResult::new("Laplacian", 200_001, 200_000);
    assert!(!above.is_blurry);
    assert_eq!(equal.name, "Laplacian");
    assert_eq!((equal.value, equal.threshold), (200_000, 200_000));
}

#[test]
fn suite_is_built_in_order() {
    let detectors = build_detectors(200_000, 100_000_000, Some(55_000_000));
    assert_eq!(detectors.len(), 3);
    assert_eq!(detectors[0].name(), "Laplacian");
    assert_eq!(detectors[1].name(), "Tenengrad");
    assert_eq!(detectors[2].name(), "OpenCVLaplacian");
    assert_eq!(detectors[0].threshold(), 200_000);
    assert_eq!(detectors[1].threshold(), 100_000_000);
    assert_eq!(detectors[2].threshold(), 55_000_000);
    assert!(matches!(detectors[0], Detector::Laplacian(_)));
    assert!(matches!(detectors[1], Detector::Tenengrad(_)));
    assert!(matches!(detectors[2], Detector::OpenCv(_)));
}

#[test]
fn suite_is_built_without_an_unavailable_metric() {
    let detectors = build_detectors(1, 2, None);
    assert_eq!(detectors.len(), 2);
    assert_eq!(detectors[0].name(), "Laplacian");
    assert_eq!(detectors[1].name(), "Tenengrad");
}

#[test]
fn overall_verdict_is_the_conjunction() {
    let img = ramp();
    // Laplacian variance 9711.111111, Tenengrad 132711.111111
    let cases: [(u64, u64, bool, bool); 4] = [
        (9_711_111_112, 132_711_111_112, true, true),
        (9_711_111_112, 132_711_111_111, true, false),
        (9_711_111_111, 132_711_111_112, false, true),
        (9_711_111_111, 132_711_111_111, false, false),
    ];
    for (laplacian, tenengrad, first, second) in cases {
        let detectors = build_detectors(laplacian, tenengrad, None);
        let (overall, results, size, width, height, focal) =
            process_image_buffer(&img, &detectors, &None).unwrap();
        assert_eq!(
            summary(&results),
            vec![
                ("Laplacian".to_string(), 9_711_111_111, laplacian, first),
                ("Tenengrad".to_string(), 132_711_111_111, tenengrad, second),
            ]
        );
        assert_eq!(overall, first && second);
        assert_eq!(overall, results.iter().all(|r| r.is_blurry));
        assert_eq!((size, width, height, focal), (0, 3, 3, None));
    }
}

#[test]
fn empty_suite_calls_everything_blurry() {
    let (overall, results, _, width, height, _) =
        process_image_buffer(&ramp(), &Vec::new(), &None).unwrap();
    assert!(overall);
    assert!(results.is_empty());
    assert_eq!((width, height), (3, 3));
}

#[test]
fn classifying_twice_gives_the_same_result() {
    let img = ramp();
    let detectors = build_detectors(200_000, 100_000_000, Some(55_000_000));
    let backend = Some(laplacian_filter(&img));
    let first = process_image_buffer(&img, &detectors, &backend).unwrap();
    let second = process_image_buffer(&img, &detectors, &backend).unwrap();
    assert_eq!(first.0, second.0);
    assert_eq!(summary(&first.1), summary(&second.1));
    assert_eq!((first.2, first.3, first.4, first.5), (second.2, second.3, second.4, second.5));
}

#[test]
fn secondary_metric_scores_the_backend_response() {
    let img = ramp();
    let detectors = build_detectors(1, 1, Some(9_711_111_112));
    let backend = Some(laplacian_filter(&img));
    let (overall, results, ..) = process_image_buffer(&img, &detectors, &backend).unwrap();
    assert!(!overall);
    assert_eq!(
        summary(&results)[2],
        ("OpenCVLaplacian".to_string(), 9_711_111_111, 9_711_111_112, true)
    );
    let doubled: Vec<i16> = laplacian_filter(&img).iter().map(|v| 2 * v).collect();
    let (_, results, ..) = process_image_buffer(&img, &detectors, &Some(doubled)).unwrap();
    assert_eq!(
        summary(&results)[2],
        ("OpenCVLaplacian".to_string(), 38_844_444_444, 9_711_111_112, false)
    );
}

#[test]
fn missing_backend_response_is_an_error() {
    let img = ramp();
    let detectors = build_detectors(1, 1, Some(1));
    assert_eq!(
        process_image_buffer(&img, &detectors, &None).err(),
        Some(ProcessError::MetricUnavailable)
    );
    assert_eq!(
        process_image_buffer(&img, &detectors, &Some(vec![0; 8])).err(),
        Some(ProcessError::MetricUnavailable)
    );
    assert_eq!(
        process_image(&img, 1, None, &detectors, &Some(vec![0; 10])).err(),
        Some(ProcessError::MetricUnavailable)
    );
    assert!(process_image_buffer(&img, &detectors, &Some(vec![0; 9])).is_ok());
    assert!(process_image_buffer(&img, &build_detectors(1, 1, None), &Some(vec![0; 2])).is_ok());
}

#[test]
fn process_image_records_size_and_focal_length() {
    let img = ramp();
    let detectors = build_detectors(9_711_111_112, 132_711_111_112, None);
    let (overall, results, size, width, height, focal) =
        process_image(&img, 4096, Some("50 mm".to_string()), &detectors, &None).unwrap();
    assert!(overall);
    assert_eq!(results.len(), 2);
    assert_eq!((size, width, height), (4096, 3, 3));
    assert_eq!(focal, Some("50 mm".to_string()));
}

#[test]
fn default_configuration() {
    let config = GrepfuzzConfig::default();
    assert_eq!(
        config.detectors,
        DetectorConfig {
            laplacian_threshold: Some(200_000),
            tenengrad_threshold: Some(100_000_000),
            opencv_laplacian_threshold: Some(55_000_000),
        }
    );
}

#[test]
fn options_override_the_configuration() {
    let mut cli = plain_cli();
    let (config, warning) = GrepfuzzConfig::from_cli(&cli, None);
    assert_eq!(config, GrepfuzzConfig::default());
    assert_eq!(warning, None);

    cli.threshold = Some(300_000);
    cli.opencv_laplacian_threshold = Some(7);
    let (config, warning) = GrepfuzzConfig::from_cli(&cli, None);
    assert_eq!(
        config.detectors,
        DetectorConfig {
            laplacian_threshold: Some(300_000),
            tenengrad_threshold: Some(100_000_000),
            opencv_laplacian_threshold: Some(7),
        }
    );
    assert_eq!(warning, None);

    let file = GrepfuzzConfig {
        detectors: DetectorConfig {
            laplacian_threshold: Some(1),
            tenengrad_threshold: None,
            opencv_laplacian_threshold: Some(3),
        },
    };
    // no file is named, so what was loaded is not used
    let (config, _) = GrepfuzzConfig::from_cli(&cli, Some(Ok(file)));
    assert_eq!(config.detectors.tenengrad_threshold, Some(100_000_000));

    cli.config = Some("grepfuzz.toml".to_string());
    let (config, warning) = GrepfuzzConfig::from_cli(&cli, Some(Ok(file)));
    assert_eq!(
        config.detectors,
        DetectorConfig {
            laplacian_threshold: Some(300_000),
            tenengrad_threshold: None,
            opencv_laplacian_threshold: Some(7),
        }
    );
    assert_eq!(warning, None);
    assert_eq!(
        config.thresholds(),
        Thresholds { laplacian: 300_000, tenengrad: 1_000_000_000, secondary_laplacian: 7 }
    );
}

#[test]
fn unreadable_configuration_falls_back_with_a_warning() {
    let mut cli = plain_cli();
    cli.config = Some("missing.toml".to_string());
    cli.tenengrad_threshold = Some(5);
    let (config, warning) =
        GrepfuzzConfig::from_cli(&cli, Some(Err("Failed to read config file: gone".to_string())));
    assert_eq!(
        config.detectors,
        DetectorConfig {
            laplacian_threshold: Some(200_000),
            tenengrad_threshold: Some(5),
            opencv_laplacian_threshold: Some(55_000_000),
        }
    );
    assert_eq!(
        warning,
        Some(
            "Failed to load config: Failed to read config file: gone. Using defaults.".to_string()
        )
    );
}

#[test]
fn open_thresholds_fall_back() {
    let config = GrepfuzzConfig {
        detectors: DetectorConfig {
            laplacian_threshold: None,
            tenengrad_threshold: None,
            opencv_laplacian_threshold: None,
        },
    };
    assert_eq!(
        config.thresholds(),
        Thresholds { laplacian: 100_000, tenengrad: 1_000_000_000, secondary_laplacian: 100_000 }
    );
    assert_eq!(
        GrepfuzzConfig::default().thresholds(),
        Thresholds {
            laplacian: 200_000,
            tenengrad: 100_000_000,
            secondary_laplacian: 55_000_000
        }
    );
}

#[test]
fn filter_mode_and_style_follow_the_options() {
    let mut cli = plain_cli();
    assert_eq!(cli.mode(), Mode::Blur);
    assert_eq!(cli.style(), OutputStyle::Terse);
    cli.blur = false;
    assert_eq!(cli.mode(), Mode::Blur);
    cli.sharp = true;
    assert_eq!(cli.mode(), Mode::Sharp);
    cli.blur = true;
    assert_eq!(cli.mode(), Mode::Blur);
    cli.verbose = true;
    assert_eq!(cli.style(), OutputStyle::Verbose);
    cli.ascii = true;
    assert_eq!(cli.style(), OutputStyle::Ascii);
}

#[test]
fn filter_mode_keeps_its_side() {
    assert!(Mode::Blur.passes(true));
    assert!(!Mode::Blur.passes(false));
    assert!(!Mode::Sharp.passes(true));
    assert!(Mode::Sharp.passes(false));
}
