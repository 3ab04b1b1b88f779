//! Values read from the configuration file; every one may be absent.
use crate::settings::{
    default_output_file, default_source_directory, default_verbose, first_of, text_or, Codec,
    ScaleAlgorithm, Settings, VideoSettings,
};
use vstd::prelude::*;

verus! {

/// Video settings of the configuration file.
#[derive(Clone, Copy, Debug, PartialEq, Eq, Structural)]
pub struct VideoConfig {
    /// Bitrate in kilobits per second.
    pub bitrate: Option<u32>,
    /// Frame rate in frames per second.
    pub fps: Option<u64>,
    /// Width of the output video.
    pub width: Option<u32>,
    /// Height of the output video.
    pub height: Option<u32>,
    /// Stretch frames to the exact size instead of fitting them.
    pub ignore_aspect_ratio: Option<bool>,
    /// Video codec to use.
    pub codec: Option<Codec>,
    /// Image scaling algorithm to use.
    pub scaling_algorithm: Option<ScaleAlgorithm>,
}

impl VideoConfig {
    /// These values laid over `base`: each present value replaces the base one.
    pub open spec fn spec_over(self, base: VideoSettings) -> VideoSettings {
        VideoSettings {
            bitrate: self.bitrate.unwrap_or(base.bitrate),
            fps: self.fps.unwrap_or(base.fps),
            width: first_of(self.width, base.width),
            height: first_of(self.height, base.height),
            ignore_aspect_ratio: self.ignore_aspect_ratio.unwrap_or(base.ignore_aspect_ratio),
            codec: self.codec.unwrap_or(base.codec),
            scaling_algorithm: self.scaling_algorithm.unwrap_or(base.scaling_algorithm),
        }
    }
}

/// Settings of the configuration file.
#[derive(Clone, Debug)]
pub struct Config {
    /// Path of the source directory.
    pub source_directory: Option<String>,
    /// Path of the output file.
    pub output_file: Option<String>,
    /// Log filter.
    pub verbose: Option<String>,
    pub video_settings: VideoConfig,
}

impl Config {
    /// Completes these values with the built-in defaults.
    pub fn into_settings(self) -> (s: Settings)
        ensures
            s.source_directory@ == text_or(self.source_directory, default_source_directory()),
            s.output_file@ == text_or(self.output_file, default_output_file()),
            s.verbose@ == text_or(self.verbose, default_verbose()),
            s.video_settings == self.video_settings.spec_over(VideoSettings::spec_default()),
    {
        let default = Settings::default();
        let video = self.video_settings;
        Settings {
            source_directory: self.source_directory.unwrap_or(default.source_directory),
            output_file: self.output_file.unwrap_or(default.output_file),
            verbose: self.verbose.unwrap_or(default.verbose),
            video_settings: VideoSettings {
                bitrate: video.bitrate.unwrap_or(default.video_settings.bitrate),
                fps: video.fps.unwrap_or(default.video_settings.fps),
                width: video.width,
                height: video.height,
                ignore_aspect_ratio: video.ignore_aspect_ratio.unwrap_or(
                    default.video_settings.ignore_aspect_ratio,
                ),
                codec: video.codec.unwrap_or(default.video_settings.codec),
                scaling_algorithm: video.scaling_algorithm.unwrap_or(
                    default.video_settings.scaling_algorithm,
                ),
            },
        }
    }
}

} // verus!
