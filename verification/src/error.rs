use vstd::prelude::*;

verus! {

/// Errors of the playback engine.
///
/// The file-level errors (`MediaFileNotFound`, `MediaFileProbeError`) are
/// fatal for the file and returned when a playback session is established;
/// `MediaFileSeekError` is recoverable (a failed seek leaves playback where
/// it was); `SendError` stands for a channel whose peer has shut down.
#[derive(Debug, PartialEq)]
pub enum Error {
    MediaFileNotFound,
    MediaFileProbeError,
    MediaFileSeekError,
    AudioDecodingError(String),
    AudioOutputError(String),
    ResamplingError(i32),
    IoError(String),
    SendError,
}

impl Error {
    /// A short human-readable description of the error.
    pub fn message(&self) -> (m: &'static str)
        ensures
            (self matches Error::MediaFileNotFound) ==> m@ == "Audio file not found"@,
            (self matches Error::MediaFileProbeError) ==> m@ == "Audio file failed to probe"@,
            (self matches Error::MediaFileSeekError) ==> m@ == "Audio file failed to seek"@,
            (self matches Error::AudioDecodingError(_)) ==> m@ == "Audio decoding failed"@,
            (self matches Error::AudioOutputError(_)) ==> m@ == "Audio output failed"@,
            (self matches Error::ResamplingError(_)) ==> m@ == "Resampling failed"@,
            (self matches Error::IoError(_)) ==> m@ == "Audio file I/O failed"@,
            (self matches Error::SendError) ==> m@ == "Failed to send into a channel"@,
    {
        match self {
            Error::MediaFileNotFound => "Audio file not found",
            Error::MediaFileProbeError => "Audio file failed to probe",
            Error::MediaFileSeekError => "Audio file failed to seek",
            Error::AudioDecodingError(_) => "Audio decoding failed",
            Error::AudioOutputError(_) => "Audio output failed",
            Error::ResamplingError(_) => "Resampling failed",
            Error::IoError(_) => "Audio file I/O failed",
            Error::SendError => "Failed to send into a channel",
        }
    }
}

} // verus!
