//! The error type for Gridvid operations.

use vstd::prelude::*;

verus! {

/// OpenH264 limits a frame's width×height to this value.
pub const OPENH264_MAX_SIZE: usize = 9437184;

/// `std::io::Error` is declared here so that library errors can carry it;
/// the library itself performs no I/O.
#[verifier::external_type_specification]
#[verifier::external_body]
pub struct ExIoError(std::io::Error);

/// The error type for Gridvid operations.
///
/// Several variants represent common encoding errors that can be caught
/// early in the pipeline.
#[derive(Debug)]
pub enum Error {
    /// Error resulting from an I/O operation.
    IoError(std::io::Error),
    /// Error resulting from an OpenH264 operation.
    Openh264Error(openh264::Error),
    /// Frame width×height > [OPENH264_MAX_SIZE].
    ///
    /// Wraps: `(frame_width, frame_height)`
    OversizedFrame((usize, usize)),
    /// Frame dimensions are invalid: an OpenH264 frame requires width and
    /// height to both be above 0 and a multiple of 2.
    ///
    /// Wraps: `(frame_width, frame_height)`
    InvalidFrameDimensions((usize, usize)),
    /// Video has zero frames.
    NoFrames,
    /// Frame dimensions differ from the video's locked resolution.
    ///
    /// Wraps: `(frame_number, (frame_width, frame_height), (video_width, video_height))`
    FrameSizeMismatch(usize, (usize, usize), (usize, usize)),
    /// Grid columns must all be of the same height.
    ///
    /// Wraps: non-compliant frame number
    InconsistentGridHeight(usize),
}

} // verus!
