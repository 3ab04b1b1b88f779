//! Turns a sequence of still images into the frames of a video: pixel-format
//! conversion from interleaved RGB to planar YUV420, run settings, and the
//! decisions of the frame pipeline.

pub mod cli;
pub mod config;
pub mod convert;
pub mod error;
pub mod images;
pub mod pipeline;
pub mod settings;
