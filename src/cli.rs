//! Options given on the command line.
use crate::settings::{first_of, Codec, ScaleAlgorithm, VideoSettings};
use vstd::prelude::*;

verus! {

/// Video options of the command line.
#[derive(Clone, Copy, Debug, PartialEq, Eq, Structural)]
pub struct VideoOptions {
    /// Bitrate in kilobits per second.
    pub bitrate: Option<u32>,
    /// Frame rate in frames per second.
    pub fps: Option<u64>,
    /// Width of the output video.
    pub width: Option<u32>,
    /// Height of the output video.
    pub height: Option<u32>,
    /// Stretch frames to the exact size instead of fitting them.
    pub ignore_aspect_ratio: bool,
    /// Video codec to use.
    pub codec: Option<Codec>,
    /// Image scaling algorithm to use.
    pub scaling_algorithm: Option<ScaleAlgorithm>,
}

impl VideoOptions {
    /// These options laid over `base`: each given option replaces the base value.
    pub open spec fn spec_over(self, base: VideoSettings) -> VideoSettings {
        VideoSettings {
            bitrate: self.bitrate.unwrap_or(base.bitrate),
            fps: self.fps.unwrap_or(base.fps),
            width: first_of(self.width, base.width),
            height: first_of(self.height, base.height),
            ignore_aspect_ratio: self.ignore_aspect_ratio || base.ignore_aspect_ratio,
            codec: self.codec.unwrap_or(base.codec),
            scaling_algorithm: self.scaling_algorithm.unwrap_or(base.scaling_algorithm),
        }
    }
}

/// Command line of the program: a source directory and optional settings.
#[derive(Clone, Debug)]
pub struct Options {
    /// Path of the source directory.
    pub source_directory: String,
    /// Path of the output file.
    pub output_file: Option<String>,
    /// Log filter.
    pub verbose: Option<String>,
    pub video_options: VideoOptions,
}

impl Options {
    /// The options of a command line that names only the source directory.
    pub fn new(source_directory: String) -> (o: Self)
        ensures
            o.source_directory == source_directory,
            o.output_file is None,
            o.verbose is None,
            o.video_options == (VideoOptions {
                bitrate: None,
                fps: None,
                width: None,
                height: None,
                ignore_aspect_ratio: false,
                codec: None,
                scaling_algorithm: None,
            }),
    {
        Options {
            source_directory,
            output_file: None,
            verbose: None,
            video_options: VideoOptions {
                bitrate: None,
                fps: None,
                width: None,
                height: None,
                ignore_aspect_ratio: false,
                codec: None,
                scaling_algorithm: None,
            },
        }
    }
}

} // verus!
