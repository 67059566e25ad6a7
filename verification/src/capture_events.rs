//! What the user interface is told about a recording.

use vstd::prelude::*;

verus! {

/// The microphone stopped delivering audio.
pub const MICROPHONE_STALLED_ERROR: &'static str = "microphone_stalled";

/// Audio of the recording was lost.
pub const AUDIO_DROPPED_WARNING: &'static str = "audio_dropped";

/// A recording failed.
#[derive(Clone, Debug)]
pub struct RecordingErrorEvent {
    pub error_type: String,
    pub detail: Option<String>,
}

impl RecordingErrorEvent {
    /// A failure of a kind, with its explanation where there is one.
    pub fn new(error_type: String, detail: Option<String>) -> (event: Self)
        ensures
            event.error_type == error_type,
            event.detail == detail,
    {
        Self { error_type, detail }
    }
}

/// A recording goes on, but not as it should.
#[derive(Clone, Debug)]
pub struct RecordingWarningEvent {
    pub warning_type: String,
    pub dropped_samples: u64,
}

impl RecordingWarningEvent {
    /// So many samples were lost.
    pub fn audio_dropped(dropped_samples: u64) -> (event: Self)
        ensures
            event.warning_type@ == AUDIO_DROPPED_WARNING@,
            event.dropped_samples == dropped_samples,
    {
        Self { warning_type: AUDIO_DROPPED_WARNING.to_string(), dropped_samples }
    }
}

} // verus!
