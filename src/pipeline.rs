//! Decisions of the frame pipeline: the output size of a run, how each frame
//! is resized, and the timestamps handed to the encoder and the muxer.
use crate::error::Error;
use crate::settings::VideoSettings;
use vstd::prelude::*;

verus! {

/// Output size of a run: the configured width and height, each taken from the
/// first image where it is not configured.
pub open spec fn output_size(settings: VideoSettings, first_width: u32, first_height: u32) -> (
    u32,
    u32,
) {
    (settings.width.unwrap_or(first_width), settings.height.unwrap_or(first_height))
}

/// Starts a run from the listing of the source directory: the size of each
/// image, in order, or the error that reading the directory gave.
/// The I/O error comes back unchanged, an empty listing is an error naming the
/// directory, and otherwise the run's output size is returned.
pub fn start_run(
    settings: &VideoSettings,
    source_directory: &String,
    listing: Result<Vec<(u32, u32)>, std::io::Error>,
) -> (r: Result<(u32, u32), Error>)
    ensures
        match listing {
            Err(e) => r == Err::<(u32, u32), Error>(Error::IO(e)),
            Ok(sizes) => if sizes@.len() == 0 {
                r == Err::<(u32, u32), Error>(Error::NoImages(*source_directory))
            } else {
                r == Ok::<(u32, u32), Error>(
                    output_size(*settings, sizes@[0].0, sizes@[0].1),
                )
            },
        },
{
    match listing {
        Err(e) => Err(Error::IO(e)),
        Ok(sizes) => {
            if sizes.len() == 0 {
                Err(Error::NoImages(source_directory.clone()))
            } else {
                let (w, h) = sizes[0];
                Ok((settings.width.unwrap_or(w), settings.height.unwrap_or(h)))
            }
        },
    }
}

/// How a frame is brought to the output size.
#[derive(Clone, Copy, Debug, PartialEq, Eq, Structural)]
pub enum Resize {
    /// Already the output size: used as it is.
    Keep,
    /// Resized to fit inside the output size, keeping its aspect ratio.
    Fit,
    /// Stretched to exactly the output size.
    Stretch,
}

pub open spec fn spec_resize_mode(
    target_width: u32,
    target_height: u32,
    width: u32,
    height: u32,
    ignore_aspect_ratio: bool,
) -> Resize {
    if width == target_width && height == target_height {
        Resize::Keep
    } else if ignore_aspect_ratio {
        Resize::Stretch
    } else {
        Resize::Fit
    }
}

/// How a `width` by `height` frame is brought to the output size.
pub fn resize_mode(
    target_width: u32,
    target_height: u32,
    width: u32,
    height: u32,
    ignore_aspect_ratio: bool,
) -> (r: Resize)
    ensures
        r == spec_resize_mode(target_width, target_height, width, height, ignore_aspect_ratio),
{
    if width == target_width && height == target_height {
        Resize::Keep
    } else if ignore_aspect_ratio {
        Resize::Stretch
    } else {
        Resize::Fit
    }
}

/// Presentation time of frame `index` in milliseconds: the frame duration is
/// truncated to whole milliseconds before it is multiplied by the index.
pub open spec fn frame_time_ms(fps: int, index: int) -> int {
    (1000int / fps) * index
}

/// Presentation time of frame `index` in milliseconds at `fps` frames per second.
pub fn frame_timestamp_ms(fps: u64, index: u64) -> (ms: u64)
    requires
        fps > 0,
        frame_time_ms(fps as int, index as int) <= u64::MAX,
    ensures
        ms == frame_time_ms(fps as int, index as int),
{
    1000 / fps * index
}

/// At 30 frames per second frame `i` is shown at `33 * i` ms: the duration is
/// truncated first, so the times drift from `1000 * i / 30`.
pub proof fn lemma_frame_time_at_30_fps(i: int)
    ensures
        frame_time_ms(30, i) == 33 * i,
{
}

/// Converts an encoded packet's timestamp from milliseconds to nanoseconds.
pub fn packet_timestamp_ns(pts: i64) -> (ns: u64)
    requires
        0 <= pts,
        pts * 1_000_000 <= u64::MAX,
    ensures
        ns == pts * 1_000_000,
{
    pts as u64 * 1_000_000
}

/// What is done with one frame: how it is resized, and when it is shown.
#[derive(Clone, Copy, Debug, PartialEq, Eq, Structural)]
pub struct FramePlan {
    pub resize: Resize,
    pub timestamp_ms: u64,
}

/// Plans frame `index`, a `width` by `height` image, of a run whose output size
/// is `target_width` by `target_height`.
pub fn plan_frame(
    settings: &VideoSettings,
    target_width: u32,
    target_height: u32,
    index: u64,
    width: u32,
    height: u32,
) -> (p: FramePlan)
    requires
        settings.fps > 0,
        frame_time_ms(settings.fps as int, index as int) <= u64::MAX,
    ensures
        p.resize == spec_resize_mode(
            target_width,
            target_height,
            width,
            height,
            settings.ignore_aspect_ratio,
        ),
        p.timestamp_ms == frame_time_ms(settings.fps as int, index as int),
{
    FramePlan {
        resize: resize_mode(target_width, target_height, width, height, settings.ignore_aspect_ratio),
        timestamp_ms: frame_timestamp_ms(settings.fps, index),
    }
}

} // verus!
