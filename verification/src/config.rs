//! Thresholds: the defaults, a configuration file's values and the
//! overrides given with the options.

use crate::cli::Cli;
use crate::image_analysis::Micros;
use vstd::prelude::*;

verus! {

/// The default threshold of the Laplacian metric: 0.2.
pub const DEFAULT_LAPLACIAN_THRESHOLD: Micros = 200_000;

/// The default threshold of the Tenengrad metric: 100.
pub const DEFAULT_TENENGRAD_THRESHOLD: Micros = 100_000_000;

/// The default threshold of the secondary Laplacian metric: 55.
pub const DEFAULT_OPENCV_LAPLACIAN_THRESHOLD: Micros = 55_000_000;

/// The threshold of the Laplacian metric where none is configured: 0.1.
pub const FALLBACK_LAPLACIAN_THRESHOLD: Micros = 100_000;

/// The threshold of the Tenengrad metric where none is configured: 1000.
pub const FALLBACK_TENENGRAD_THRESHOLD: Micros = 1_000_000_000;

/// The threshold of the secondary Laplacian metric where none is
/// configured: 0.1.
pub const FALLBACK_OPENCV_LAPLACIAN_THRESHOLD: Micros = 100_000;

/// The thresholds of the metrics, in millionths, each of which may be left
/// open.
#[derive(Clone, Copy, Debug, PartialEq, Eq, Structural)]
pub struct DetectorConfig {
    pub laplacian_threshold: Option<Micros>,
    pub tenengrad_threshold: Option<Micros>,
    pub opencv_laplacian_threshold: Option<Micros>,
}

/// The configuration of a run.
#[derive(Clone, Copy, Debug, PartialEq, Eq, Structural)]
pub struct GrepfuzzConfig {
    pub detectors: DetectorConfig,
}

/// One threshold per metric, in millionths, fixed for a whole run.
#[derive(Clone, Copy, Debug, PartialEq, Eq, Structural)]
pub struct Thresholds {
    pub laplacian: Micros,
    pub tenengrad: Micros,
    pub secondary_laplacian: Micros,
}

/// The first value where there is one, else the second.
pub open spec fn first_of(preferred: Option<Micros>, other: Option<Micros>) -> Option<Micros> {
    match preferred {
        Some(_) => preferred,
        None => other,
    }
}

/// The first value where there is one, else the second.
fn prefer(preferred: Option<Micros>, other: Option<Micros>) -> (r: Option<Micros>)
    ensures
        r == first_of(preferred, other),
{
    match preferred {
        Some(_) => preferred,
        None => other,
    }
}

/// The value where there is one, else the fallback.
pub open spec fn value_or(value: Option<Micros>, fallback: Micros) -> Micros {
    match value {
        Some(v) => v,
        None => fallback,
    }
}

/// The configuration that holds where nothing else is given.
pub open spec fn default_config() -> GrepfuzzConfig {
    GrepfuzzConfig {
        detectors: DetectorConfig {
            laplacian_threshold: Some(DEFAULT_LAPLACIAN_THRESHOLD),
            tenengrad_threshold: Some(DEFAULT_TENENGRAD_THRESHOLD),
            opencv_laplacian_threshold: Some(DEFAULT_OPENCV_LAPLACIAN_THRESHOLD),
        },
    }
}

impl Default for GrepfuzzConfig {
    fn default() -> (config: Self)
        ensures
            config == default_config(),
    {
        GrepfuzzConfig {
            detectors: DetectorConfig {
                laplacian_threshold: Some(DEFAULT_LAPLACIAN_THRESHOLD),
                tenengrad_threshold: Some(DEFAULT_TENENGRAD_THRESHOLD),
                opencv_laplacian_threshold: Some(DEFAULT_OPENCV_LAPLACIAN_THRESHOLD),
            },
        }
    }
}

impl GrepfuzzConfig {
    /// The configuration to start from: the loaded file's where the options
    /// name a file and it was loaded, else the defaults.
    pub open spec fn base(cli: Cli, loaded: Option<Result<GrepfuzzConfig, String>>) -> GrepfuzzConfig {
        match (cli.config, loaded) {
            (Some(_), Some(Ok(config))) => config,
            _ => default_config(),
        }
    }

    /// The configuration of a run: each threshold given with the options,
    /// else the one of `base`.
    pub open spec fn merged(cli: Cli, base: GrepfuzzConfig) -> GrepfuzzConfig {
        GrepfuzzConfig {
            detectors: DetectorConfig {
                laplacian_threshold: first_of(cli.threshold, base.detectors.laplacian_threshold),
                tenengrad_threshold: first_of(
                    cli.tenengrad_threshold,
                    base.detectors.tenengrad_threshold,
                ),
                opencv_laplacian_threshold: first_of(
                    cli.opencv_laplacian_threshold,
                    base.detectors.opencv_laplacian_threshold,
                ),
            },
        }
    }

    /// The warning that is owed when the configuration file could not be
    /// loaded.
    pub open spec fn load_warning(cli: Cli, loaded: Option<Result<GrepfuzzConfig, String>>) -> Option<
        Seq<char>,
    > {
        match (cli.config, loaded) {
            (Some(_), Some(Err(reason))) => Some(
                "Failed to load config: "@ + reason@ + ". Using defaults."@,
            ),
            _ => None,
        }
    }

    /// Merges the options over the configuration file. `loaded` is what came
    /// of reading the file that the options name: the configuration, or why
    /// it could not be had. Where it could not, the defaults are used and the
    /// second result is the warning to show.
    pub fn from_cli(cli: &Cli, loaded: Option<Result<GrepfuzzConfig, String>>) -> (r: (
        GrepfuzzConfig,
        Option<String>,
    ))
        ensures
            r.0 == Self::merged(*cli, Self::base(*cli, loaded)),
            crate::text::optional(r.1) == Self::load_warning(*cli, loaded),
    {
        let mut warning: Option<String> = None;
        let config = match (&cli.config, loaded) {
            (Some(_), Some(Ok(config))) => config,
            (Some(_), Some(Err(reason))) => {
                let mut text = "Failed to load config: ".to_owned();
                text.append(reason.as_str());
                text.append(". Using defaults.");
                warning = Some(text);
                GrepfuzzConfig::default()
            },
            _ => GrepfuzzConfig::default(),
        };
        let merged = GrepfuzzConfig {
            detectors: DetectorConfig {
                laplacian_threshold: prefer(cli.threshold, config.detectors.laplacian_threshold),
                tenengrad_threshold: prefer(
                    cli.tenengrad_threshold,
                    config.detectors.tenengrad_threshold,
                ),
                opencv_laplacian_threshold: prefer(
                    cli.opencv_laplacian_threshold,
                    config.detectors.opencv_laplacian_threshold,
                ),
            },
        };
        (merged, warning)
    }

    /// The thresholds of a run: each configured one, else its fallback.
    pub fn thresholds(&self) -> (t: Thresholds)
        ensures
            t.laplacian == value_or(
                self.detectors.laplacian_threshold,
                FALLBACK_LAPLACIAN_THRESHOLD,
            ),
            t.tenengrad == value_or(
                self.detectors.tenengrad_threshold,
                FALLBACK_TENENGRAD_THRESHOLD,
            ),
            t.secondary_laplacian == value_or(
                self.detectors.opencv_laplacian_threshold,
                FALLBACK_OPENCV_LAPLACIAN_THRESHOLD,
            ),
    {
        Thresholds {
            laplacian: match self.detectors.laplacian_threshold {
                Some(v) => v,
                None => FALLBACK_LAPLACIAN_THRESHOLD,
            },
            tenengrad: match self.detectors.tenengrad_threshold {
                Some(v) => v,
                None => FALLBACK_TENENGRAD_THRESHOLD,
            },
            secondary_laplacian: match self.detectors.opencv_laplacian_threshold {
                Some(v) => v,
                None => FALLBACK_OPENCV_LAPLACIAN_THRESHOLD,
            },
        }
    }
}

} // verus!
