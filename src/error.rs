//! Errors that end a run.
use vstd::prelude::*;

verus! {

/// Declares std's `io::Error` so that a run's error can carry it unchanged;
/// nothing is assumed of what it holds.
#[verifier::external_type_specification]
#[verifier::external_body]
pub struct ExIoError(std::io::Error);

/// Why a run failed.
#[derive(Debug)]
pub enum Error {
    /// Reading the source or writing the output failed.
    IO(std::io::Error),
    /// The encoder failed while encoding or draining; holds its message.
    Encoder(String),
    /// The encoder could not be set up; holds the message.
    EncoderCustom(String),
    /// The source directory holds no image; holds its path.
    NoImages(String),
}

} // verus!
