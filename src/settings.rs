//! Run settings: built-in defaults, the configuration file's values and the
//! command line's options, merged with the command line first.
use crate::cli::Options;
use crate::config::Config;
use vstd::prelude::*;

verus! {

/// Image scaling algorithms offered for resizing frames.
#[derive(Clone, Copy, Debug, PartialEq, Eq, Structural)]
pub enum ScaleAlgorithm {
    /// Nearest neighbor
    Nearest,
    /// Linear filter
    Triangle,
    /// Cubic filter
    CatmullRom,
    /// Gaussian filter
    Gaussian,
    /// Lanczos with window 3
    Lanczos3,
}

/// Video codecs offered for encoding.
#[derive(Clone, Copy, Debug, PartialEq, Eq, Structural)]
pub enum Codec {
    Vp8,
    Vp9,
}

/// Resolved video settings of one run.
#[derive(Clone, Copy, Debug, PartialEq, Eq, Structural)]
pub struct VideoSettings {
    /// Bitrate in kilobits per second.
    pub bitrate: u32,
    /// Frame rate in frames per second.
    pub fps: u64,
    /// Width of the output video; the first image's width when absent.
    pub width: Option<u32>,
    /// Height of the output video; the first image's height when absent.
    pub height: Option<u32>,
    /// Stretch frames to the exact size instead of fitting them.
    pub ignore_aspect_ratio: bool,
    /// Video codec to use.
    pub codec: Codec,
    /// Image scaling algorithm to use.
    pub scaling_algorithm: ScaleAlgorithm,
}

pub const DEFAULT_BITRATE: u32 = 25000;

pub const DEFAULT_FPS: u64 = 30;

impl VideoSettings {
    /// The built-in video settings.
    pub open spec fn spec_default() -> VideoSettings {
        VideoSettings {
            bitrate: DEFAULT_BITRATE,
            fps: DEFAULT_FPS,
            width: None,
            height: None,
            ignore_aspect_ratio: false,
            codec: Codec::Vp9,
            scaling_algorithm: ScaleAlgorithm::Nearest,
        }
    }
}

impl Default for VideoSettings {
    fn default() -> (s: Self)
        ensures
            s == VideoSettings::spec_default(),
    {
        VideoSettings {
            bitrate: DEFAULT_BITRATE,
            fps: DEFAULT_FPS,
            width: None,
            height: None,
            ignore_aspect_ratio: false,
            codec: Codec::Vp9,
            scaling_algorithm: ScaleAlgorithm::Nearest,
        }
    }
}

/// The first value that is present, else `fallback`.
pub open spec fn first_of<T>(o: Option<T>, fallback: Option<T>) -> Option<T> {
    match o {
        Some(v) => Some(v),
        None => fallback,
    }
}

/// The text of `o` when present, else `fallback`.
pub open spec fn text_or(o: Option<String>, fallback: Seq<char>) -> Seq<char> {
    match o {
        Some(t) => t@,
        None => fallback,
    }
}

pub open spec fn default_source_directory() -> Seq<char> {
    "."@
}

pub open spec fn default_output_file() -> Seq<char> {
    "output.webm"@
}

pub open spec fn default_verbose() -> Seq<char> {
    "WARN"@
}

/// All settings of one run.
#[derive(Clone, Debug)]
pub struct Settings {
    /// Path of the source directory.
    pub source_directory: String,
    /// Path of the output file.
    pub output_file: String,
    /// Log filter.
    pub verbose: String,
    pub video_settings: VideoSettings,
}

impl Default for Settings {
    fn default() -> (s: Self)
        ensures
            s.source_directory@ == default_source_directory(),
            s.output_file@ == default_output_file(),
            s.verbose@ == default_verbose(),
            s.video_settings == VideoSettings::spec_default(),
    {
        Settings {
            source_directory: ".".to_owned(),
            output_file: "output.webm".to_owned(),
            verbose: "WARN".to_owned(),
            video_settings: VideoSettings::default(),
        }
    }
}

/// Video settings before the command line applies: the configuration file's
/// over the built-in ones.
pub open spec fn base_video_settings(config: Option<Config>) -> VideoSettings {
    match config {
        Some(c) => c.video_settings.spec_over(VideoSettings::spec_default()),
        None => VideoSettings::spec_default(),
    }
}

pub open spec fn config_output_file(config: Option<Config>) -> Option<String> {
    match config {
        Some(c) => c.output_file,
        None => None,
    }
}

pub open spec fn config_verbose(config: Option<Config>) -> Option<String> {
    match config {
        Some(c) => c.verbose,
        None => None,
    }
}

impl Settings {
    /// Merges the command line, the configuration file (when one was read) and
    /// the built-in defaults, in that order of precedence.
    pub fn new(config: Option<Config>, cli_options: Options) -> (s: Self)
        ensures
            s.source_directory == cli_options.source_directory,
            s.output_file@ == text_or(
                first_of(cli_options.output_file, config_output_file(config)),
                default_output_file(),
            ),
            s.verbose@ == text_or(
                first_of(cli_options.verbose, config_verbose(config)),
                default_verbose(),
            ),
            s.video_settings == cli_options.video_options.spec_over(base_video_settings(config)),
    {
        let base = match config {
            Some(c) => c.into_settings(),
            None => Settings::default(),
        };
        let cli = cli_options.video_options;
        let video = base.video_settings;
        Settings {
            source_directory: cli_options.source_directory,
            output_file: match cli_options.output_file {
                Some(f) => f,
                None => base.output_file,
            },
            verbose: match cli_options.verbose {
                Some(v) => v,
                None => base.verbose,
            },
            video_settings: VideoSettings {
                bitrate: cli.bitrate.unwrap_or(video.bitrate),
                fps: cli.fps.unwrap_or(video.fps),
                width: match cli.width {
                    Some(w) => Some(w),
                    None => video.width,
                },
                height: match cli.height {
                    Some(h) => Some(h),
                    None => video.height,
                },
                ignore_aspect_ratio: cli.ignore_aspect_ratio || video.ignore_aspect_ratio,
                codec: cli.codec.unwrap_or(video.codec),
                scaling_algorithm: cli.scaling_algorithm.unwrap_or(video.scaling_algorithm),
            },
        }
    }

    /// The log filter of a run: the one the environment sets (`from_env`), else
    /// the verbose setting unless it is empty.
    pub fn log_filter(&self, from_env: Option<String>) -> (r: Option<String>)
        ensures
            from_env is Some ==> r == from_env,
            from_env is None && self.verbose@.len() == 0 ==> r is None,
            from_env is None && self.verbose@.len() > 0 ==> r is Some && r->0@ == self.verbose@,
    {
        match from_env {
            Some(e) => Some(e),
            None => {
                if self.verbose.as_str().is_empty() {
                    None
                } else {
                    Some(self.verbose.clone())
                }
            },
        }
    }
}

} // verus!
