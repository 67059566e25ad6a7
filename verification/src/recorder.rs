//! The recorder as its owner sees it: opened, started, stopped and closed.

use vstd::prelude::*;

use crate::error::RecorderError;
use crate::stream_config::{best_range, ConfigCache, StreamConfig, StreamConfigRange};
#[allow(unused_imports)]
use crate::stream_config::{is_preferred, offered};
use crate::timing::{STOP_RESPONSE_TIMEOUT, WORKER_INIT_TIMEOUT, WORKER_SHUTDOWN_TIMEOUT};
use crate::vad::{VadConfig, VadPolicy};
use crate::worker::Cmd;

verus! {

/// What a recorder holds, and what it has learnt of its stream.
#[derive(Clone, Copy, Debug, PartialEq, Eq, Structural)]
pub struct AudioRecorder {
    /// A device is held.
    pub device_held: bool,
    /// Commands can be sent to a worker.
    pub commands_open: bool,
    /// A worker is attached.
    pub worker_attached: bool,
    /// The worker's end can be waited for.
    pub end_awaitable: bool,
    /// The detector's tails, where there is a detector.
    pub vad: Option<VadConfig>,
    /// A worker did not answer in time. It may still hold the detector, so this recorder must be
    /// discarded and never opened again.
    pub replacement_needed: bool,
    /// The input channel to use; all are averaged without one.
    pub selected_channel: Option<usize>,
    /// The stream can no longer capture.
    pub stream_error: bool,
}

/// How opening goes on.
#[derive(Clone, Copy, Debug, PartialEq, Eq, Structural)]
pub enum OpenStep {
    /// The stream is up already.
    AlreadyOpen,
    /// The stream failed and has to be closed before it can be opened anew.
    CloseFirst,
    /// A worker is to be brought up.
    Build,
}

/// What became of a worker that was brought up.
#[derive(Debug)]
pub enum InitReply {
    Ready,
    Failed(String),
    TimedOut,
    Disconnected,
}

/// What became of a request to stop.
#[derive(Debug)]
pub enum StopReply {
    NotSent,
    Samples(Vec<u32>),
    TimedOut,
    Disconnected,
}

/// What closing has to do before it can be settled.
#[derive(Clone, Copy, Debug, PartialEq, Eq, Structural)]
pub struct ClosePlan {
    /// Ask the worker to end.
    pub send_shutdown: bool,
    /// Wait for it to do so.
    pub await_end: bool,
}

impl AudioRecorder {
    /// A recorder that was never opened.
    pub open spec fn unopened() -> Self {
        AudioRecorder {
            device_held: false,
            commands_open: false,
            worker_attached: false,
            end_awaitable: false,
            vad: None,
            replacement_needed: false,
            selected_channel: None,
            stream_error: false,
        }
    }

    /// A recorder that was never opened. It has no detector and averages all channels.
    pub fn new() -> (recorder: Self)
        ensures
            recorder == Self::unopened(),
    {
        AudioRecorder {
            device_held: false,
            commands_open: false,
            worker_attached: false,
            end_awaitable: false,
            vad: None,
            replacement_needed: false,
            selected_channel: None,
            stream_error: false,
        }
    }

    /// The recorder with a detector, and the tails that the two policies set it to.
    pub fn with_vad(
        self,
        offline_hangover_frames: usize,
        streaming_hangover_frames: usize,
    ) -> (recorder: Self)
        ensures
            recorder == (AudioRecorder {
                vad: Some(VadConfig { offline_hangover_frames, streaming_hangover_frames }),
                ..self
            }),
    {
        AudioRecorder {
            vad: Some(VadConfig { offline_hangover_frames, streaming_hangover_frames }),
            ..self
        }
    }

    /// The recorder with an input channel selected, or none.
    pub fn with_selected_channel(self, channel: Option<u16>) -> (recorder: Self)
        ensures
            recorder == self.selecting(channel),
    {
        let mut recorder = self;
        recorder.set_selected_channel(channel);
        recorder
    }

    /// The recorder with an input channel selected, or none.
    pub open spec fn selecting(self, channel: Option<u16>) -> Self {
        AudioRecorder {
            selected_channel: match channel {
                Some(index) => Some(index as usize),
                None => None,
            },
            ..self
        }
    }

    /// Selects an input channel for the next stream, or none.
    pub fn set_selected_channel(&mut self, channel: Option<u16>)
        ensures
            *final(self) == old(self).selecting(channel),
    {
        self.selected_channel = match channel {
            Some(index) => Some(index as usize),
            None => None,
        };
    }

    /// The stream has to be rebuilt.
    pub open spec fn reopen_needed(self, worker_finished: bool) -> bool {
        self.stream_error || self.worker_attached && worker_finished
    }

    /// Whether the stream has to be rebuilt: it has failed, or its worker has ended. A recorder
    /// without a worker has nothing to rebuild.
    pub fn needs_reopen(&self, worker_finished: bool) -> (needed: bool)
        ensures
            needed == self.reopen_needed(worker_finished),
    {
        self.stream_error || (self.worker_attached && worker_finished)
    }

    /// Whether this recorder must be discarded.
    pub fn replacement_required(&self) -> (required: bool)
        ensures
            required == self.replacement_needed,
    {
        self.replacement_needed
    }

    /// The first step of opening, and the recorder after it.
    pub open spec fn opening(self, worker_finished: bool) -> (Self, Result<
        OpenStep,
        RecorderError,
    >) {
        if self.worker_attached {
            if self.reopen_needed(worker_finished) {
                (self, Ok(OpenStep::CloseFirst))
            } else {
                (self, Ok(OpenStep::AlreadyOpen))
            }
        } else if self.replacement_needed {
            (self, Err(RecorderError::ReplacementRequired))
        } else {
            (AudioRecorder { stream_error: false, ..self }, Ok(OpenStep::Build))
        }
    }

    /// Begins to open the recorder. A stream that is up stays; one that failed is closed first,
    /// after which [`Self::reopen`] goes on. A refusal clears the remembered configuration.
    pub fn open(&mut self, worker_finished: bool, cache: &mut ConfigCache) -> (step: Result<
        OpenStep,
        RecorderError,
    >)
        ensures
            (*final(self), step) == old(self).opening(worker_finished),
            final(cache)@ == ConfigCache::settled(old(cache)@, step is Ok),
    {
        let step = self.begin_open(worker_finished);
        cache.settle(step.is_ok());
        step
    }

    /// The first step of opening.
    fn begin_open(&mut self, worker_finished: bool) -> (step: Result<OpenStep, RecorderError>)
        ensures
            (*final(self), step) == old(self).opening(worker_finished),
    {
        if self.worker_attached {
            if self.needs_reopen(worker_finished) {
                return Ok(OpenStep::CloseFirst);
            }
            return Ok(OpenStep::AlreadyOpen);
        }
        if self.replacement_needed {
            return Err(RecorderError::ReplacementRequired);
        }
        self.stream_error = false;
        Ok(OpenStep::Build)
    }

    /// The outcome of closing a failed stream in order to open it anew, and the recorder after it.
    pub open spec fn reopening(self, worker_finished: bool, end_timed_out: bool) -> (Self, Result<
        OpenStep,
        RecorderError,
    >) {
        let (after, closing) = self.closed(WORKER_SHUTDOWN_TIMEOUT, worker_finished, end_timed_out);
        match closing {
            Ok(_) => after.opening(false),
            Err(error) => (after, Err(error)),
        }
    }

    /// Goes on to open a recorder whose stream had failed, after what the plan for closing asked
    /// for. A worker that did not end, or an earlier one that did not answer, is in the way of it
    /// and clears the remembered configuration.
    pub fn reopen(
        &mut self,
        worker_finished: bool,
        end_timed_out: bool,
        cache: &mut ConfigCache,
    ) -> (step: Result<OpenStep, RecorderError>)
        ensures
            (*final(self), step) == old(self).reopening(worker_finished, end_timed_out),
            final(cache)@ == ConfigCache::settled(old(cache)@, step is Ok),
    {
        match self.close(worker_finished, end_timed_out) {
            Ok(_) => self.open(false, cache),
            Err(error) => {
                cache.settle(false);
                Err(error)
            },
        }
    }

    /// The device to open: `true` for the one asked for, `false` for the system's default.
    pub open spec fn device_choice(asked_for: bool, has_default: bool) -> Result<
        bool,
        RecorderError,
    > {
        if asked_for {
            Ok(true)
        } else if has_default {
            Ok(false)
        } else {
            Err(RecorderError::NoInputDevice)
        }
    }

    /// Whether the device to open is the one asked for; else it is the system's default. Without
    /// either there is none, which clears the remembered configuration.
    pub fn choose_device(asked_for: bool, has_default: bool, cache: &mut ConfigCache) -> (chosen:
        Result<bool, RecorderError>)
        ensures
            chosen == Self::device_choice(asked_for, has_default),
            final(cache)@ == ConfigCache::settled(old(cache)@, chosen is Ok),
    {
        if asked_for {
            Ok(true)
        } else if has_default {
            Ok(false)
        } else {
            cache.settle(false);
            Err(RecorderError::NoInputDevice)
        }
    }

    /// The configuration that a device is opened with. `supported` is what the device offers,
    /// where it tells.
    pub fn get_preferred_config(
        default_config: StreamConfig,
        supported: Option<&[StreamConfigRange]>,
    ) -> (config: StreamConfig)
        ensures
            is_preferred(default_config, offered(supported), config),
    {
        match supported {
            None => default_config,
            Some(ranges) => match best_range(ranges, default_config.sample_rate) {
                Some(index) => ranges[index].with_sample_rate(default_config.sample_rate),
                None => default_config,
            },
        }
    }

    /// The channels of the configuration that a device is opened with.
    pub fn preferred_input_channel_count(
        default_config: StreamConfig,
        supported: Option<&[StreamConfigRange]>,
    ) -> (channels: u16)
        ensures
            exists|config: StreamConfig|
                #[trigger] is_preferred(default_config, offered(supported), config) && channels
                    == config.channels,
    {
        let config = Self::get_preferred_config(default_config, supported);
        config.channels
    }

    /// The recorder after a worker did not answer.
    pub open spec fn distrusted(self) -> Self {
        AudioRecorder { stream_error: true, replacement_needed: true, ..self }
    }

    /// The outcome of bringing up a worker, and the recorder after it.
    pub open spec fn opened(self, reply: InitReply) -> (Self, Result<(), RecorderError>) {
        match reply {
            InitReply::Ready => (
                AudioRecorder {
                    device_held: true,
                    commands_open: true,
                    worker_attached: true,
                    end_awaitable: true,
                    ..self
                },
                Ok(()),
            ),
            InitReply::Failed(message) => (self, Err(RecorderError::InitFailed(message))),
            InitReply::TimedOut => (
                self.distrusted(),
                Err(RecorderError::InitTimedOut(WORKER_INIT_TIMEOUT)),
            ),
            InitReply::Disconnected => (self, Err(RecorderError::InitAborted)),
        }
    }

    /// Settles the opening once the worker that was brought up has answered, or has not. A worker
    /// that is late may be stuck in the audio system: it is let go. Any failure clears the
    /// remembered configuration.
    pub fn finish_open(&mut self, reply: InitReply, cache: &mut ConfigCache) -> (result: Result<
        (),
        RecorderError,
    >)
        ensures
            (*final(self), result) == old(self).opened(reply),
            final(cache)@ == ConfigCache::settled(old(cache)@, reply is Ready),
            result is Ok <==> reply is Ready,
    {
        let result = self.take_reply(reply);
        cache.settle(result.is_ok());
        result
    }

    /// Takes what became of the worker that was brought up.
    fn take_reply(&mut self, reply: InitReply) -> (result: Result<(), RecorderError>)
        ensures
            (*final(self), result) == old(self).opened(reply),
    {
        match reply {
            InitReply::Ready => {
                self.device_held = true;
                self.commands_open = true;
                self.worker_attached = true;
                self.end_awaitable = true;
                Ok(())
            },
            InitReply::Failed(message) => Err(RecorderError::InitFailed(message)),
            InitReply::TimedOut => {
                self.distrust();
                Err(RecorderError::InitTimedOut(WORKER_INIT_TIMEOUT))
            },
            InitReply::Disconnected => Err(RecorderError::InitAborted),
        }
    }

    fn distrust(&mut self)
        ensures
            *final(self) == old(self).distrusted(),
    {
        self.stream_error = true;
        self.replacement_needed = true;
    }

    /// The command that starts a recording, where there is a worker to send it to.
    pub open spec fn starting(self, vad_policy: VadPolicy, capture_generation: u64) -> Result<
        Cmd,
        RecorderError,
    > {
        if self.commands_open {
            Ok(Cmd::Start { policy: vad_policy, generation: capture_generation })
        } else {
            Err(RecorderError::NotOpen)
        }
    }

    /// The command that starts a recording, where there is a worker to send it to.
    pub fn start(&self, vad_policy: VadPolicy, capture_generation: u64) -> (cmd: Result<
        Cmd,
        RecorderError,
    >)
        ensures
            cmd == self.starting(vad_policy, capture_generation),
    {
        if self.commands_open {
            Ok(Cmd::Start { policy: vad_policy, generation: capture_generation })
        } else {
            Err(RecorderError::NotOpen)
        }
    }

    /// The outcome of a stop, and the recorder after it. The reply counts only where there was a
    /// worker to ask.
    pub open spec fn stopped(self, timeout: u64, reply: StopReply) -> (Self, Result<
        Vec<u32>,
        RecorderError,
    >) {
        if !self.commands_open {
            (self, Err(RecorderError::NotOpen))
        } else {
            match reply {
                StopReply::Samples(samples) => (self, Ok(samples)),
                StopReply::NotSent => (self.distrusted(), Err(RecorderError::CommandNotSent)),
                StopReply::TimedOut => (
                    self.distrusted(),
                    Err(RecorderError::StopTimedOut(timeout)),
                ),
                StopReply::Disconnected => (self.distrusted(), Err(RecorderError::StopAborted)),
            }
        }
    }

    /// Settles a stop that was given the usual time.
    pub fn stop(&mut self, reply: StopReply) -> (samples: Result<Vec<u32>, RecorderError>)
        ensures
            (*final(self), samples) == old(self).stopped(STOP_RESPONSE_TIMEOUT, reply),
    {
        self.stop_with_timeout(STOP_RESPONSE_TIMEOUT, reply)
    }

    /// Settles a stop: the samples, or why there are none. A worker that does not hand them over
    /// is not trusted again.
    pub fn stop_with_timeout(&mut self, timeout: u64, reply: StopReply) -> (samples: Result<
        Vec<u32>,
        RecorderError,
    >)
        ensures
            (*final(self), samples) == old(self).stopped(timeout, reply),
    {
        if !self.commands_open {
            return Err(RecorderError::NotOpen);
        }
        match reply {
            StopReply::Samples(samples) => Ok(samples),
            StopReply::NotSent => {
                self.distrust();
                Err(RecorderError::CommandNotSent)
            },
            StopReply::TimedOut => {
                self.distrust();
                Err(RecorderError::StopTimedOut(timeout))
            },
            StopReply::Disconnected => {
                self.distrust();
                Err(RecorderError::StopAborted)
            },
        }
    }

    /// What closing has to do first.
    pub open spec fn closing_plan(self, worker_finished: bool) -> ClosePlan {
        ClosePlan {
            send_shutdown: self.commands_open,
            await_end: self.worker_attached && !worker_finished && self.end_awaitable,
        }
    }

    /// What closing has to do first. The end of a worker that has ended need not be waited for.
    pub fn plan_close(&self, worker_finished: bool) -> (plan: ClosePlan)
        ensures
            plan == self.closing_plan(worker_finished),
    {
        ClosePlan {
            send_shutdown: self.commands_open,
            await_end: self.worker_attached && !worker_finished && self.end_awaitable,
        }
    }

    /// The worker is known to have ended. Where its end was waited for, `end_timed_out` tells
    /// that it did not come.
    pub open spec fn worker_ended(self, worker_finished: bool, end_timed_out: bool) -> bool {
        worker_finished || self.end_awaitable && !end_timed_out
    }

    /// The recorder with nothing attached.
    pub open spec fn detached(self) -> Self {
        AudioRecorder {
            device_held: false,
            commands_open: false,
            worker_attached: false,
            end_awaitable: false,
            ..self
        }
    }

    /// The outcome of closing, and the recorder after it.
    pub open spec fn closed(
        self,
        timeout: u64,
        worker_finished: bool,
        end_timed_out: bool,
    ) -> (Self, Result<(), RecorderError>) {
        if self.worker_attached && !self.worker_ended(worker_finished, end_timed_out) {
            (self.detached().distrusted(), Err(RecorderError::CloseTimedOut(timeout)))
        } else {
            (self.detached(), Ok(()))
        }
    }

    /// Settles a closing that was given the usual time.
    pub fn close(&mut self, worker_finished: bool, end_timed_out: bool) -> (result: Result<
        (),
        RecorderError,
    >)
        ensures
            (*final(self), result) == old(self).closed(
                WORKER_SHUTDOWN_TIMEOUT,
                worker_finished,
                end_timed_out,
            ),
    {
        self.close_with_timeout(WORKER_SHUTDOWN_TIMEOUT, worker_finished, end_timed_out)
    }

    /// Settles a closing, after what its plan asked for. Nothing stays attached; a worker that did
    /// not end is let go and not trusted again.
    pub fn close_with_timeout(
        &mut self,
        timeout: u64,
        worker_finished: bool,
        end_timed_out: bool,
    ) -> (result: Result<(), RecorderError>)
        ensures
            (*final(self), result) == old(self).closed(timeout, worker_finished, end_timed_out),
    {
        self.commands_open = false;
        let attached: bool = self.worker_attached;
        let ended: bool = worker_finished || (self.end_awaitable && !end_timed_out);
        self.worker_attached = false;
        self.end_awaitable = false;
        self.device_held = false;
        if attached && !ended {
            self.distrust();
            return Err(RecorderError::CloseTimedOut(timeout));
        }
        Ok(())
    }
}

/// One use of a recorder.
pub ghost enum RecorderUse {
    SelectChannel(Option<u16>),
    Open { worker_finished: bool },
    Reopen { worker_finished: bool, end_timed_out: bool },
    FinishOpen(InitReply),
    Stop { timeout: u64, reply: StopReply },
    Close { timeout: u64, worker_finished: bool, end_timed_out: bool },
    /// The stream reports that it can no longer capture.
    StreamFails,
}

impl AudioRecorder {
    /// After one use.
    pub open spec fn after(self, used: RecorderUse) -> Self {
        match used {
            RecorderUse::SelectChannel(channel) => self.selecting(channel),
            RecorderUse::Open { worker_finished } => self.opening(worker_finished).0,
            RecorderUse::Reopen { worker_finished, end_timed_out } => self.reopening(
                worker_finished,
                end_timed_out,
            ).0,
            RecorderUse::FinishOpen(reply) => self.opened(reply).0,
            RecorderUse::Stop { timeout, reply } => self.stopped(timeout, reply).0,
            RecorderUse::Close { timeout, worker_finished, end_timed_out } => self.closed(
                timeout,
                worker_finished,
                end_timed_out,
            ).0,
            RecorderUse::StreamFails => AudioRecorder { stream_error: true, ..self },
        }
    }

    /// After several uses.
    pub open spec fn run(self, uses: Seq<RecorderUse>) -> Self
        decreases uses.len(),
    {
        if uses.len() == 0 {
            self
        } else {
            self.run(uses.drop_last()).after(uses.last())
        }
    }
}

/// A recorder whose worker once failed to answer is never opened again, whatever else is done
/// with it: no worker is brought up for it any more.
pub proof fn an_unresponsive_worker_bars_the_recorder_for_good(
    recorder: AudioRecorder,
    uses: Seq<RecorderUse>,
    worker_finished: bool,
)
    requires
        recorder.replacement_needed,
    ensures
        recorder.run(uses).replacement_needed,
        recorder.stream_error ==> recorder.run(uses).stream_error && recorder.run(uses).opening(
            worker_finished,
        ).1 != Ok::<OpenStep, RecorderError>(OpenStep::AlreadyOpen),
        recorder.run(uses).opening(worker_finished).1 != Ok::<OpenStep, RecorderError>(
            OpenStep::Build,
        ),
        !recorder.run(uses).worker_attached ==> recorder.run(uses).opening(worker_finished).1
            == Err::<OpenStep, RecorderError>(RecorderError::ReplacementRequired),
    decreases uses.len(),
{
    if uses.len() > 0 {
        an_unresponsive_worker_bars_the_recorder_for_good(
            recorder,
            uses.drop_last(),
            worker_finished,
        );
    }
}

/// A recorder that has to be replaced is never taken for one that is open: whatever was done with
/// a recorder, its stream counts as failed from the moment it has to be replaced, so that opening
/// it either closes it or is refused.
pub proof fn a_recorder_to_replace_never_counts_as_open(
    recorder: AudioRecorder,
    uses: Seq<RecorderUse>,
    worker_finished: bool,
)
    requires
        !recorder.replacement_needed,
    ensures
        recorder.run(uses).replacement_needed ==> {
            &&& recorder.run(uses).stream_error
            &&& recorder.run(uses).reopen_needed(worker_finished)
            &&& recorder.run(uses).opening(worker_finished).1 == if recorder.run(
                uses,
            ).worker_attached {
                Ok::<OpenStep, RecorderError>(OpenStep::CloseFirst)
            } else {
                Err::<OpenStep, RecorderError>(RecorderError::ReplacementRequired)
            }
        },
    decreases uses.len(),
{
    if uses.len() > 0 {
        a_recorder_to_replace_never_counts_as_open(recorder, uses.drop_last(), worker_finished);
    }
}

/// Whenever a worker fails to answer, be it while it comes up, when it is to stop or when it is
/// to end, the recorder has to be replaced and its stream rebuilt.
pub proof fn every_missing_answer_requires_a_replacement(
    recorder: AudioRecorder,
    timeout: u64,
    reply: StopReply,
    worker_finished: bool,
)
    ensures
        ({
            let late = recorder.opened(InitReply::TimedOut).0;
            late.replacement_needed && late.reopen_needed(worker_finished)
        }),
        recorder.commands_open && !(reply is Samples) ==> {
            let (after, result) = recorder.stopped(timeout, reply);
            result is Err && after.replacement_needed && after.reopen_needed(worker_finished)
        },
        recorder.worker_attached ==> {
            let (after, result) = recorder.closed(timeout, false, true);
            result is Err && after.replacement_needed && after.reopen_needed(worker_finished)
        },
{
}

/// Closing leaves nothing attached, whether the worker ended or not.
pub proof fn closing_always_detaches(
    recorder: AudioRecorder,
    timeout: u64,
    worker_finished: bool,
    end_timed_out: bool,
)
    ensures
        ({
            let after = recorder.closed(timeout, worker_finished, end_timed_out).0;
            !after.device_held && !after.commands_open && !after.worker_attached
                && !after.end_awaitable
        }),
{
}

/// A failed stream whose worker ended can be rebuilt: it is closed, and a new one brought up, with
/// the failure forgotten; then commands are taken again and opening once more changes nothing.
pub proof fn a_failed_stream_can_be_rebuilt(recorder: AudioRecorder, timeout: u64)
    requires
        recorder.worker_attached,
        recorder.stream_error,
        !recorder.replacement_needed,
    ensures
        ({
            let closed = recorder.closed(timeout, true, false);
            let rebuilt = closed.0.opening(false);
            let ready = rebuilt.0.opened(InitReply::Ready);
            &&& recorder.opening(true).1 == Ok::<OpenStep, RecorderError>(OpenStep::CloseFirst)
            &&& closed.1 is Ok
            &&& recorder.reopening(true, false) == rebuilt
            &&& rebuilt.1 == Ok::<OpenStep, RecorderError>(OpenStep::Build)
            &&& ready.1 is Ok && ready.0.commands_open && !ready.0.reopen_needed(false)
            &&& ready.0.opening(false) == (
                ready.0,
                Ok::<OpenStep, RecorderError>(OpenStep::AlreadyOpen),
            )
        }),
{
}

/// A recorder that was never opened has nothing to rebuild and nothing to stop.
pub proof fn an_unopened_recorder_is_at_rest(
    worker_finished: bool,
    timeout: u64,
    reply: StopReply,
)
    ensures
        !AudioRecorder::unopened().reopen_needed(worker_finished),
        AudioRecorder::unopened().stopped(timeout, reply) == (
            AudioRecorder::unopened(),
            Err::<Vec<u32>, RecorderError>(RecorderError::NotOpen),
        ),
{
}

/// Selecting a channel changes the selection and nothing else.
pub proof fn selecting_changes_only_the_selection(recorder: AudioRecorder, channel: Option<u16>)
    ensures
        ({
            let after = recorder.selecting(channel);
            &&& channel is None <==> after.selected_channel is None
            &&& channel matches Some(index) ==> after.selected_channel->0 == index
            &&& after == (AudioRecorder { selected_channel: after.selected_channel, ..recorder })
        }),
{
}

/// A recorder that was never opened holds nothing, has failed at nothing and averages all
/// channels.
pub proof fn an_unopened_recorder_holds_nothing()
    ensures
        ({
            let recorder = AudioRecorder::unopened();
            &&& !recorder.device_held && !recorder.commands_open && !recorder.worker_attached
            &&& !recorder.end_awaitable && recorder.vad is None && !recorder.replacement_needed
            &&& recorder.selected_channel is None && !recorder.stream_error
        }),
{
}

/// A stream has to be rebuilt if it has failed, or if its worker has ended; a recorder without a
/// worker cannot have one that ended.
pub proof fn when_a_stream_has_to_be_rebuilt(recorder: AudioRecorder, worker_finished: bool)
    ensures
        recorder.reopen_needed(worker_finished) <==> recorder.stream_error || (
        recorder.worker_attached && worker_finished),
{
}

/// What opening begins with: a worker that is well is left alone, one that is not is closed first;
/// without a worker one is brought up, unless an earlier one did not answer. Only where one is
/// brought up does the recorder change: it forgets the failure.
pub proof fn how_opening_begins(recorder: AudioRecorder, worker_finished: bool)
    ensures
        ({
            let (after, step) = recorder.opening(worker_finished);
            let well = !recorder.stream_error && !worker_finished;
            &&& step == Ok::<OpenStep, RecorderError>(OpenStep::AlreadyOpen)
                <==> recorder.worker_attached && well
            &&& step == Ok::<OpenStep, RecorderError>(OpenStep::CloseFirst)
                <==> recorder.worker_attached && !well
            &&& step == Ok::<OpenStep, RecorderError>(OpenStep::Build)
                <==> !recorder.worker_attached && !recorder.replacement_needed
            &&& step is Err <==> !recorder.worker_attached && recorder.replacement_needed
            &&& step is Err ==> step->Err_0 == RecorderError::ReplacementRequired
            &&& after.stream_error == (recorder.stream_error && step
                != Ok::<OpenStep, RecorderError>(OpenStep::Build))
            &&& after == (AudioRecorder { stream_error: after.stream_error, ..recorder })
        }),
{
}

/// What opening ends with: a worker that is ready is attached, with its device, its commands and
/// its end; any other reply attaches nothing and is an error of its own, and only a worker that
/// is late bars the recorder.
pub proof fn how_opening_ends(recorder: AudioRecorder, reply: InitReply)
    ensures
        ({
            let (after, result) = recorder.opened(reply);
            &&& result is Ok <==> reply is Ready
            &&& reply is Ready ==> after.device_held && after.commands_open
                && after.worker_attached && after.end_awaitable
            &&& !(reply is Ready) ==> after.device_held == recorder.device_held
                && after.commands_open == recorder.commands_open && after.worker_attached
                == recorder.worker_attached && after.end_awaitable == recorder.end_awaitable
            &&& after.replacement_needed == (recorder.replacement_needed || reply is TimedOut)
            &&& after.stream_error == (recorder.stream_error || reply is TimedOut)
            &&& after.vad == recorder.vad && after.selected_channel == recorder.selected_channel
            &&& reply matches InitReply::Failed(words) ==> result == Err::<(), RecorderError>(
                RecorderError::InitFailed(words),
            )
            &&& reply is TimedOut ==> result == Err::<(), RecorderError>(
                RecorderError::InitTimedOut(12_000),
            )
            &&& reply is Disconnected ==> result == Err::<(), RecorderError>(
                RecorderError::InitAborted,
            )
        }),
{
}

/// What a stop comes to: an open recorder gives the samples it was handed, unchanged, and stays as
/// it is; without them it is barred, with an error that tells why. One that is not open says so.
pub proof fn how_a_stop_ends(recorder: AudioRecorder, timeout: u64, reply: StopReply)
    ensures
        ({
            let (after, result) = recorder.stopped(timeout, reply);
            let barred = recorder.commands_open && !(reply is Samples);
            &&& !recorder.commands_open ==> result == Err::<Vec<u32>, RecorderError>(
                RecorderError::NotOpen,
            )
            &&& recorder.commands_open ==> (reply matches StopReply::Samples(samples) ==> result
                == Ok::<Vec<u32>, RecorderError>(samples))
            &&& recorder.commands_open && reply is NotSent ==> result
                == Err::<Vec<u32>, RecorderError>(RecorderError::CommandNotSent)
            &&& recorder.commands_open && reply is TimedOut ==> result
                == Err::<Vec<u32>, RecorderError>(RecorderError::StopTimedOut(timeout))
            &&& recorder.commands_open && reply is Disconnected ==> result
                == Err::<Vec<u32>, RecorderError>(RecorderError::StopAborted)
            &&& after == (AudioRecorder {
                stream_error: recorder.stream_error || barred,
                replacement_needed: recorder.replacement_needed || barred,
                ..recorder
            })
        }),
{
}

/// What closing comes to: it fails exactly if there is a worker that is not known to have ended,
/// which then bars the recorder. The worker has ended if it was found so, or if its end could be
/// waited for and came. Neither the detector nor the selected channel is touched.
pub proof fn how_closing_ends(
    recorder: AudioRecorder,
    timeout: u64,
    worker_finished: bool,
    end_timed_out: bool,
)
    ensures
        ({
            let (after, result) = recorder.closed(timeout, worker_finished, end_timed_out);
            let stuck = recorder.worker_attached && !worker_finished && (!recorder.end_awaitable
                || end_timed_out);
            &&& result is Err <==> stuck
            &&& result is Err ==> result->Err_0 == RecorderError::CloseTimedOut(timeout)
            &&& after == (AudioRecorder {
                device_held: false,
                commands_open: false,
                worker_attached: false,
                end_awaitable: false,
                stream_error: recorder.stream_error || stuck,
                replacement_needed: recorder.replacement_needed || stuck,
                ..recorder
            })
        }),
{
}

/// A failed stream is closed and opened anew in one: a worker that is stuck, or a recorder that
/// has to be replaced, is in the way, and otherwise a worker is brought up, with the failure
/// forgotten and nothing attached.
pub proof fn how_a_failed_stream_is_opened_anew(
    recorder: AudioRecorder,
    worker_finished: bool,
    end_timed_out: bool,
)
    ensures
        ({
            let (after, step) = recorder.reopening(worker_finished, end_timed_out);
            let stuck = recorder.worker_attached && !worker_finished && (!recorder.end_awaitable
                || end_timed_out);
            &&& stuck ==> step == Err::<OpenStep, RecorderError>(
                RecorderError::CloseTimedOut(4_000),
            )
            &&& !stuck && recorder.replacement_needed ==> step == Err::<OpenStep, RecorderError>(
                RecorderError::ReplacementRequired,
            )
            &&& !stuck && !recorder.replacement_needed ==> step == Ok::<OpenStep, RecorderError>(
                OpenStep::Build,
            ) && !after.stream_error
            &&& !after.worker_attached && !after.commands_open && !after.device_held
            &&& after.replacement_needed == (recorder.replacement_needed || stuck)
            &&& step is Err ==> after.stream_error == (recorder.stream_error || stuck)
            &&& after.vad == recorder.vad && after.selected_channel == recorder.selected_channel
        }),
{
}

/// The device asked for is opened whatever the default is; without a request the default is, and
/// without either there is no input device.
pub proof fn the_device_asked_for_comes_first(asked_for: bool, has_default: bool)
    ensures
        ({
            let choice = AudioRecorder::device_choice(asked_for, has_default);
            &&& choice == Ok::<bool, RecorderError>(true) <==> asked_for
            &&& choice == Ok::<bool, RecorderError>(false) <==> has_default && !asked_for
            &&& choice is Err ==> choice->Err_0 == RecorderError::NoInputDevice
        }),
{
}

/// A recording is started exactly where commands are taken, and as it was asked for.
pub proof fn a_start_is_sent_as_asked_for(
    recorder: AudioRecorder,
    vad_policy: VadPolicy,
    capture_generation: u64,
)
    ensures
        ({
            let command = recorder.starting(vad_policy, capture_generation);
            &&& command is Ok <==> recorder.commands_open
            &&& command is Err ==> command->Err_0 == RecorderError::NotOpen
            &&& command matches Ok(cmd) ==> cmd is Start && cmd->policy == vad_policy
                && cmd->generation == capture_generation
        }),
{
}

/// Closing waits for the end of the worker exactly where its outcome depends on it, and asks the
/// worker to end exactly where commands are taken.
pub proof fn closing_waits_where_it_matters(
    recorder: AudioRecorder,
    timeout: u64,
    worker_finished: bool,
)
    ensures
        recorder.closing_plan(worker_finished).await_end <==> recorder.closed(
            timeout,
            worker_finished,
            true,
        ).1 is Err && recorder.closed(timeout, worker_finished, false).1 is Ok,
        recorder.closing_plan(worker_finished).send_shutdown == recorder.commands_open,
{
}

} // verus!
