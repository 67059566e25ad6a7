//! What can go wrong with a recorder, and how it is put to the user.

use vstd::prelude::*;
use vstd::string::*;

use crate::text::is_microphone_access_denied;
#[allow(unused_imports)]
use crate::text::{
    ascii_lowercase, contains_text, denies_access, lowercase, occurs_at, reports_no_device,
    text_within_a_part,
};
#[allow(unused_imports)]
use vstd::utf8::is_ascii_chars;

verus! {

/// How a duration is written: what its `Debug` form makes of so many milliseconds.
pub uninterp spec fn duration_text(milliseconds: u64) -> Seq<char>;

/// `std::time::Duration`'s `Debug` form, which depends on the duration alone.
#[verifier::external_body]
fn write_duration(milliseconds: u64) -> (text: String)
    ensures
        text@ == duration_text(milliseconds),
{
    format!("{:?}", std::time::Duration::from_millis(milliseconds))
}

/// The kind of an error, as callers tell them apart.
#[derive(Clone, Copy, Debug, PartialEq, Eq, Structural)]
pub enum ErrorKind {
    NotFound,
    PermissionDenied,
    TimedOut,
    Other,
}

/// A step of bringing up the stream.
#[derive(Clone, Copy, Debug, PartialEq, Eq, Structural)]
pub enum InitStage {
    Config,
    Format,
    Build,
    Play,
}

impl InitStage {
    /// What a failure at this step is reported with.
    pub open spec fn prefix_text(self) -> Seq<char> {
        match self {
            InitStage::Config => "Failed to fetch preferred config: "@,
            InitStage::Format => "Unsupported sample format: "@,
            InitStage::Build => "Failed to build input stream: "@,
            InitStage::Play => "Failed to start microphone stream: "@,
        }
    }

    /// The report of a failure at this step, with the backend's own words.
    pub fn report(&self, detail: &str) -> (message: String)
        ensures
            message@ == self.prefix_text() + detail@,
    {
        let prefix: &'static str = match self {
            InitStage::Config => "Failed to fetch preferred config: ",
            InitStage::Format => "Unsupported sample format: ",
            InitStage::Build => "Failed to build input stream: ",
            InitStage::Play => "Failed to start microphone stream: ",
        };
        prefix.to_string().concat(detail)
    }
}

/// An error of a recorder. Times are in milliseconds.
#[derive(Debug)]
pub enum RecorderError {
    /// The recorder is not open.
    NotOpen,
    /// The command could not be sent: the worker is gone.
    CommandNotSent,
    /// A worker did not answer earlier, and may still hold what this recorder needs.
    ReplacementRequired,
    /// There is no microphone.
    NoInputDevice,
    /// The stream could not be brought up.
    InitFailed(String),
    /// The stream did not come up in time.
    InitTimedOut(u64),
    /// The worker ended before the stream was up.
    InitAborted,
    /// The samples did not come in time.
    StopTimedOut(u64),
    /// The worker ended before it handed over the samples.
    StopAborted,
    /// The worker did not end in time.
    CloseTimedOut(u64),
}

impl RecorderError {
    /// The kind of the error.
    pub open spec fn error_kind(self) -> ErrorKind {
        match self {
            RecorderError::NoInputDevice => ErrorKind::NotFound,
            RecorderError::InitFailed(message) => if denies_access(lowercase(message@)) {
                ErrorKind::PermissionDenied
            } else {
                ErrorKind::Other
            },
            RecorderError::InitTimedOut(_)
            | RecorderError::StopTimedOut(_)
            | RecorderError::CloseTimedOut(_) => ErrorKind::TimedOut,
            _ => ErrorKind::Other,
        }
    }

    /// The kind of the error. A stream that could not be brought up was refused where its
    /// message says so.
    pub fn kind(&self) -> (kind: ErrorKind)
        ensures
            kind == self.error_kind(),
    {
        match self {
            RecorderError::NoInputDevice => ErrorKind::NotFound,
            RecorderError::InitFailed(message) => if is_microphone_access_denied(
                message.as_str(),
            ) {
                ErrorKind::PermissionDenied
            } else {
                ErrorKind::Other
            },
            RecorderError::InitTimedOut(_)
            | RecorderError::StopTimedOut(_)
            | RecorderError::CloseTimedOut(_) => ErrorKind::TimedOut,
            _ => ErrorKind::Other,
        }
    }

    /// The message for the user.
    pub open spec fn message_text(self) -> Seq<char> {
        match self {
            RecorderError::NotOpen => "Recorder is not open"@,
            RecorderError::CommandNotSent => "sending on a closed channel"@,
            RecorderError::ReplacementRequired =>
                "Recorder worker was unresponsive and must be replaced"@,
            RecorderError::NoInputDevice => "No input device found"@,
            RecorderError::InitFailed(message) => message@,
            RecorderError::InitTimedOut(timeout) => "Timed out after "@ + duration_text(timeout)
                + " initializing the microphone worker"@,
            RecorderError::InitAborted => "Microphone worker exited during initialization"@,
            RecorderError::StopTimedOut(timeout) => "Timed out after "@ + duration_text(timeout)
                + " stopping microphone capture"@,
            RecorderError::StopAborted =>
                "Microphone worker exited before returning captured samples"@,
            RecorderError::CloseTimedOut(timeout) => "Timed out after "@ + duration_text(timeout)
                + " shutting down microphone worker"@,
        }
    }

    /// The message for the user.
    pub fn message(&self) -> (text: String)
        ensures
            text@ == self.message_text(),
    {
        match self {
            RecorderError::NotOpen => "Recorder is not open".to_string(),
            RecorderError::CommandNotSent => "sending on a closed channel".to_string(),
            RecorderError::ReplacementRequired =>
                "Recorder worker was unresponsive and must be replaced".to_string(),
            RecorderError::NoInputDevice => "No input device found".to_string(),
            RecorderError::InitFailed(message) => message.clone(),
            RecorderError::InitTimedOut(timeout) => timed_out(
                *timeout,
                " initializing the microphone worker",
            ),
            RecorderError::InitAborted =>
                "Microphone worker exited during initialization".to_string(),
            RecorderError::StopTimedOut(timeout) => timed_out(
                *timeout,
                " stopping microphone capture",
            ),
            RecorderError::StopAborted =>
                "Microphone worker exited before returning captured samples".to_string(),
            RecorderError::CloseTimedOut(timeout) => timed_out(
                *timeout,
                " shutting down microphone worker",
            ),
        }
    }
}

/// The message of a wait that was given up.
fn timed_out(timeout: u64, waited_for: &str) -> (text: String)
    ensures
        text@ == "Timed out after "@ + duration_text(timeout) + waited_for@,
{
    "Timed out after ".to_string().concat(write_duration(timeout).as_str()).concat(waited_for)
}

/// The recorder's own error about a missing microphone is recognised as such, and so is a
/// configuration that CoreAudio could not give, whatever else its words are.
pub proof fn a_missing_microphone_is_recognised(detail: Seq<char>)
    requires
        is_ascii_chars(detail),
        contains_text(ascii_lowercase(detail), "coreaudio"@),
    ensures
        is_ascii_chars(RecorderError::NoInputDevice.message_text()),
        reports_no_device(ascii_lowercase(RecorderError::NoInputDevice.message_text())),
        is_ascii_chars(InitStage::Config.prefix_text() + detail),
        reports_no_device(ascii_lowercase(InitStage::Config.prefix_text() + detail)),
{
    reveal_strlit("No input device found");
    reveal_strlit("no input device found");
    reveal_strlit("Failed to fetch preferred config: ");
    reveal_strlit("failed to fetch preferred config");
    let own = ascii_lowercase("No input device found"@);
    assert(own.subrange(0, 21) =~= "no input device found"@);
    assert(occurs_at(own, "no input device found"@, 0));
    let prefix = "Failed to fetch preferred config: "@;
    let message = ascii_lowercase(prefix + detail);
    assert(message.subrange(0, 32) =~= "failed to fetch preferred config"@);
    assert(occurs_at(message, "failed to fetch preferred config"@, 0));
    assert(message =~= ascii_lowercase(prefix) + ascii_lowercase(detail) + Seq::empty());
    text_within_a_part(
        ascii_lowercase(prefix),
        ascii_lowercase(detail),
        Seq::empty(),
        "coreaudio"@,
    );
}

/// Which errors are of which kind: only a missing device is not found, every wait that ran out is
/// a timeout, and access is refused exactly where the words of a failed start say so.
pub proof fn each_error_has_its_kind(error: RecorderError)
    ensures
        error.error_kind() is NotFound <==> error is NoInputDevice,
        error.error_kind() is TimedOut <==> error is InitTimedOut || error is StopTimedOut || error
            is CloseTimedOut,
        error.error_kind() is PermissionDenied <==> error is InitFailed && {
            let words = lowercase(error->InitFailed_0@);
            ||| contains_text(words, "access is denied"@)
            ||| contains_text(words, "permission denied"@)
            ||| contains_text(words, "0x80070005"@)
        },
{
}

/// What the user reads of each error.
pub proof fn each_error_has_its_words(error: RecorderError, timeout: u64, words: String)
    ensures
        RecorderError::NotOpen.message_text() == "Recorder is not open"@,
        RecorderError::CommandNotSent.message_text() == "sending on a closed channel"@,
        RecorderError::ReplacementRequired.message_text()
            == "Recorder worker was unresponsive and must be replaced"@,
        RecorderError::NoInputDevice.message_text() == "No input device found"@,
        RecorderError::InitFailed(words).message_text() == words@,
        RecorderError::InitAborted.message_text()
            == "Microphone worker exited during initialization"@,
        RecorderError::StopAborted.message_text()
            == "Microphone worker exited before returning captured samples"@,
        RecorderError::InitTimedOut(timeout).message_text() == "Timed out after "@ + duration_text(
            timeout,
        ) + " initializing the microphone worker"@,
        RecorderError::StopTimedOut(timeout).message_text() == "Timed out after "@ + duration_text(
            timeout,
        ) + " stopping microphone capture"@,
        RecorderError::CloseTimedOut(timeout).message_text() == "Timed out after "@ + duration_text(
            timeout,
        ) + " shutting down microphone worker"@,
{
}

/// What a failure to bring up the stream is reported with, by its step.
pub proof fn each_step_has_its_words()
    ensures
        InitStage::Config.prefix_text() == "Failed to fetch preferred config: "@,
        InitStage::Format.prefix_text() == "Unsupported sample format: "@,
        InitStage::Build.prefix_text() == "Failed to build input stream: "@,
        InitStage::Play.prefix_text() == "Failed to start microphone stream: "@,
{
}

} // verus!
