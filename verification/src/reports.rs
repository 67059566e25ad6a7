//! What a recording tells its owner when audio is lost or the stream fails.

use vstd::prelude::*;

verus! {

/// Audio of a recording was lost, for the first time; the recording goes on.
#[derive(Clone, Copy, Debug, PartialEq, Eq, Structural)]
pub struct OverrunWarning {
    pub generation: u64,
    pub dropped_samples: u64,
}

/// Why a stream has to be rebuilt.
#[derive(Clone, Copy, Debug, PartialEq, Eq, Structural)]
pub enum FailureCause {
    /// The audio backend reported an error.
    BackendError,
    /// The callback was not called for too long.
    CallbackStalled,
}

/// A recording that had begun to capture failed.
#[derive(Clone, Copy, Debug, PartialEq, Eq, Structural)]
pub struct CaptureFailure {
    pub generation: u64,
    pub cause: FailureCause,
}

impl FailureCause {
    /// The explanation for the user.
    pub fn detail(&self) -> (text: &'static str)
        ensures
            text@ == self.detail_text(),
    {
        match self {
            FailureCause::BackendError =>
                "The microphone backend reported an error; the stream will be rebuilt",
            FailureCause::CallbackStalled =>
                "The microphone stopped delivering audio; the stream will be rebuilt",
        }
    }

    /// The explanation for the user.
    pub open spec fn detail_text(self) -> Seq<char> {
        match self {
            FailureCause::BackendError =>
                "The microphone backend reported an error; the stream will be rebuilt"@,
            FailureCause::CallbackStalled =>
                "The microphone stopped delivering audio; the stream will be rebuilt"@,
        }
    }
}

/// The warning for newly lost samples: only for the first loss of a recording, and only while
/// there is one.
pub open spec fn overrun_warning(
    samples: u64,
    capture_generation: Option<u64>,
    total: u64,
    warning_sent: bool,
) -> Option<OverrunWarning> {
    match capture_generation {
        Some(generation) if samples > 0 && !warning_sent => Some(
            OverrunWarning { generation, dropped_samples: total.saturating_add(samples) },
        ),
        _ => None,
    }
}

/// Adds newly lost samples to the total of the recording and returns the warning to give.
pub fn observe_recording_overrun(
    samples: u64,
    capture_generation: Option<u64>,
    total_dropped_samples: &mut u64,
    warning_sent: &mut bool,
) -> (warning: Option<OverrunWarning>)
    ensures
        *final(total_dropped_samples) == old(total_dropped_samples).saturating_add(samples),
        *final(warning_sent) == (*old(warning_sent) || samples > 0),
        warning == overrun_warning(
            samples,
            capture_generation,
            *old(total_dropped_samples),
            *old(warning_sent),
        ),
{
    if samples == 0 {
        return None;
    }
    *total_dropped_samples = total_dropped_samples.saturating_add(samples);
    if *warning_sent {
        return None;
    }
    *warning_sent = true;
    match capture_generation {
        Some(generation) => Some(
            OverrunWarning { generation, dropped_samples: *total_dropped_samples },
        ),
        None => None,
    }
}

/// The failure to report: only of a recording whose first samples had come.
pub open spec fn capture_failure(
    recording: bool,
    capture_generation: Option<u64>,
    awaiting_ready: bool,
    cause: FailureCause,
) -> Option<CaptureFailure> {
    match capture_generation {
        Some(generation) if recording && !awaiting_ready => Some(
            CaptureFailure { generation, cause },
        ),
        _ => None,
    }
}

/// Settles who learns of a failed stream. While the first samples are still awaited, the one who
/// waits for them is let go and cleans up; after that the failure itself is reported.
pub fn report_capture_failure(
    recording: bool,
    capture_generation: Option<u64>,
    awaiting_ready: &mut bool,
    cause: FailureCause,
) -> (failure: Option<CaptureFailure>)
    ensures
        !*final(awaiting_ready),
        failure == capture_failure(recording, capture_generation, *old(awaiting_ready), cause),
{
    let recording_was_ready: bool = recording && !*awaiting_ready;
    *awaiting_ready = false;
    if !recording_was_ready {
        return None;
    }
    match capture_generation {
        Some(generation) => Some(CaptureFailure { generation, cause }),
        None => None,
    }
}

/// A warning is given for the first loss of a recording and for no other, to that recording and
/// with all that it has lost, as far as it can be counted.
pub proof fn the_first_loss_is_warned_of(
    samples: u64,
    capture_generation: Option<u64>,
    total: u64,
    warning_sent: bool,
)
    ensures
        ({
            let warning = overrun_warning(samples, capture_generation, total, warning_sent);
            &&& warning is Some <==> samples != 0 && !warning_sent && capture_generation is Some
            &&& warning matches Some(given) ==> {
                &&& Some(given.generation) == capture_generation
                &&& total + samples <= u64::MAX ==> given.dropped_samples == total + samples
                &&& total + samples > u64::MAX ==> given.dropped_samples == u64::MAX
            }
        }),
{
}

/// A failure is reported exactly of a recording whose first samples had come, under its own
/// generation and with its own cause.
pub proof fn a_failure_is_reported_of_an_established_recording(
    recording: bool,
    capture_generation: Option<u64>,
    awaiting_ready: bool,
    cause: FailureCause,
)
    ensures
        ({
            let failure = capture_failure(recording, capture_generation, awaiting_ready, cause);
            &&& failure is Some <==> recording && capture_generation is Some && !awaiting_ready
            &&& failure matches Some(told) ==> Some(told.generation) == capture_generation
                && told.cause == cause
        }),
{
}

/// The user is told whether the backend failed or the microphone fell silent.
pub proof fn the_user_is_told_the_cause(cause: FailureCause)
    ensures
        cause is BackendError ==> cause.detail_text()
            == "The microphone backend reported an error; the stream will be rebuilt"@,
        cause is CallbackStalled ==> cause.detail_text()
            == "The microphone stopped delivering audio; the stream will be rebuilt"@,
{
}

} // verus!
