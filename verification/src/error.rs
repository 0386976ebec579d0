//! Errors of the encoder's own checks.
use vstd::prelude::*;

verus! {

/// An error that the encoder's own checks report, before any work is handed
/// to FFmpeg.
#[derive(Debug, Clone, Copy, PartialEq, Eq, Structural)]
pub enum Error {
    /// A frame's dimensions or pixel format differ from those the encoder
    /// was set up for.
    InvalidFrameFormat,
    /// A subtitle was given to an encoder that has no subtitle track.
    SubtitleTrackNotConfigured,
}

} // verus!
