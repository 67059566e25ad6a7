//! The worker that turns commands and drained samples into a recording.
//!
//! The worker owns no channel, clock or atomic. Its [`Phase`] says what it needs to know next;
//! [`CaptureWorker::step`] takes the answer as an [`Event`], and returns the [`Effects`] that are
//! to be carried out, before anything else is asked.

use vstd::prelude::*;

use crate::reports::{
    observe_recording_overrun, report_capture_failure, CaptureFailure, FailureCause,
    OverrunWarning,
};
#[allow(unused_imports)]
use crate::reports::{capture_failure, overrun_warning};
use crate::timing::{
    HEARTBEAT_CHECK_INTERVAL, PAUSE_ACK_TIMEOUT, RUNNING_MISSED_HEARTBEATS,
    STARTUP_MISSED_HEARTBEATS,
};
use crate::vad::{asks_detector, handle_frame, EmittedFrame, VadConfig, VadFrame, VadPolicy};
#[allow(unused_imports)]
use crate::vad::{detector_asked, emitted_view, kept_frame, with_kept};
#[allow(unused_imports)]
use crate::worker_laws::{Input, Model, Output};

verus! {

/// What the owner of a recorder asks of the worker.
#[derive(Clone, Copy, Debug, PartialEq, Eq, Structural)]
pub enum Cmd {
    /// Begin a recording. The generation tells its reports from those of others.
    Start { policy: VadPolicy, generation: u64 },
    /// End the recording and hand over its samples.
    Stop,
    /// End the worker.
    Shutdown,
}

/// What the worker needs next.
#[derive(Clone, Copy, Debug, PartialEq, Eq, Structural)]
pub enum Phase {
    /// A command, or that none came within the poll interval.
    Receive,
    /// A further command, or that none is waiting.
    Poll,
    /// Stop: the overrun count, taken and started anew.
    StopOverrun,
    /// Stop: whether the callback has acknowledged, and the time since the pause was requested.
    PauseWait,
    /// Stop: the ring drained once, and a moment's sleep.
    PauseDrain,
    /// Stop: whether the callback has acknowledged, read once more after the wait.
    PauseRead,
    /// Stop: the ring drained once more.
    FinalDrain { timed_out: bool },
    /// Stop: the frames that the resampler still holds.
    FinishFrames { timed_out: bool },
    /// The ring drained once.
    Drain,
    /// The overrun count, taken and started anew.
    Overrun,
    /// Whether the backend reported an error.
    StreamError,
    /// The time since the last heartbeat check.
    HeartbeatClock,
    /// The heartbeat; the time since the last check starts anew.
    HeartbeatRead,
    /// Nothing: the worker has ended.
    Ended,
}

/// The answer to what the worker needed.
#[derive(Clone, Copy, Debug, PartialEq, Eq, Structural)]
pub enum Event {
    Command(Cmd),
    NoCommand,
    Disconnected,
    Overrun(u64),
    Pause { acknowledged: bool, elapsed: u64 },
    Acknowledged(bool),
    Drained(usize),
    Finished,
    StreamError(bool),
    Elapsed(u64),
    Heartbeat(u64),
}

/// The set-up of a new recording: the overrun count, the level meter and the resampler start
/// anew, and so does the detector where it takes part, with the tail given here.
#[derive(Clone, Copy, Debug, PartialEq, Eq, Structural)]
pub struct BeginCapture {
    pub hangover: Option<usize>,
}

/// What a step asks to be carried out.
#[derive(Clone, Copy, Debug, PartialEq, Eq, Structural)]
pub struct Effects {
    /// Set up a new recording.
    pub begin: Option<BeginCapture>,
    /// Warn of lost audio.
    pub warning: Option<OverrunWarning>,
    /// Let go of the one who waits for the first samples.
    pub drop_ready: bool,
    /// Withdraw the last acknowledgement and request a pause.
    pub request_pause: bool,
    /// Request a pause that nobody waits for.
    pub silence: bool,
    /// Mark the stream as failed.
    pub raise_stream_error: bool,
    /// Report a failure.
    pub failure: Option<CaptureFailure>,
    /// Hand over the samples of the recording.
    pub reply: bool,
    /// Let the callback write again.
    pub resume: bool,
}

impl Effects {
    /// Nothing to carry out.
    pub open spec fn none() -> Self {
        Effects {
            begin: None,
            warning: None,
            drop_ready: false,
            request_pause: false,
            silence: false,
            raise_stream_error: false,
            failure: None,
            reply: false,
            resume: false,
        }
    }

    fn new() -> (effects: Self)
        ensures
            effects == Self::none(),
    {
        Effects {
            begin: None,
            warning: None,
            drop_ready: false,
            request_pause: false,
            silence: false,
            raise_stream_error: false,
            failure: None,
            reply: false,
            resume: false,
        }
    }
}

/// What the worker remembers, but for the samples.
#[derive(Clone, Copy, Debug)]
pub struct WorkerState {
    pub phase: Phase,
    /// The detector's tails, where there is a detector.
    pub vad: Option<VadConfig>,
    pub recording: bool,
    pub capture_generation: Option<u64>,
    pub vad_policy: VadPolicy,
    /// Somebody waits for the first samples of the recording.
    pub awaiting_ready: bool,
    pub total_dropped_samples: u64,
    pub overrun_warning_sent: bool,
    /// The stream has delivered samples, recording or not.
    pub first_chunk_seen: bool,
    pub last_heartbeat: u64,
    pub missed_heartbeat_checks: usize,
}

impl WorkerState {
    /// The worker of a stream that has just begun to run.
    pub open spec fn initial(vad: Option<VadConfig>, heartbeat: u64) -> Self {
        WorkerState {
            phase: Phase::Receive,
            vad,
            recording: false,
            capture_generation: None,
            vad_policy: VadPolicy::Offline,
            awaiting_ready: false,
            total_dropped_samples: 0,
            overrun_warning_sent: false,
            first_chunk_seen: false,
            last_heartbeat: heartbeat,
            missed_heartbeat_checks: 0,
        }
    }

    /// The pause of a stop has been requested, and the samples are not yet handed over.
    pub open spec fn pausing(self) -> bool {
        match self.phase {
            Phase::PauseWait
            | Phase::PauseDrain
            | Phase::PauseRead
            | Phase::FinalDrain { .. }
            | Phase::FinishFrames { .. } => true,
            _ => false,
        }
    }

    /// A stop has been received, and the samples are not yet handed over.
    pub open spec fn stopping(self) -> bool {
        self.pausing() || self.phase == Phase::StopOverrun
    }

    /// Samples that are drained now belong to a recording. A stop still collects what was
    /// captured before the callback paused.
    pub open spec fn captures(self) -> bool {
        self.recording || self.pausing()
    }

    /// The missed checks, in a row, at which the stream is given up.
    pub open spec fn missed_limit(self) -> usize {
        if self.first_chunk_seen {
            RUNNING_MISSED_HEARTBEATS
        } else {
            STARTUP_MISSED_HEARTBEATS
        }
    }

    /// What holds of a worker at all times.
    pub open spec fn wf(self) -> bool {
        &&& self.pausing() ==> !self.recording
        &&& !self.pausing() ==> (self.recording <==> self.capture_generation is Some)
        &&& self.awaiting_ready ==> self.recording && self.phase != Phase::Ended
        &&& self.overrun_warning_sent <==> self.total_dropped_samples > 0
        &&& self.missed_heartbeat_checks <= STARTUP_MISSED_HEARTBEATS
        &&& self.phase != Phase::Ended ==> self.missed_heartbeat_checks < STARTUP_MISSED_HEARTBEATS
    }

    /// The next thing to find out.
    pub open spec fn to(self, phase: Phase) -> Self {
        WorkerState { phase, ..self }
    }

    /// A new recording, under a policy and a generation.
    pub open spec fn started(self, policy: VadPolicy, generation: u64) -> Self {
        WorkerState {
            phase: Phase::Poll,
            recording: true,
            capture_generation: Some(generation),
            vad_policy: policy,
            awaiting_ready: true,
            total_dropped_samples: 0,
            overrun_warning_sent: false,
            ..self
        }
    }

    /// The tail to set the detector to for a recording, where the detector takes part in it.
    pub open spec fn hangover_to_set(self, policy: VadPolicy) -> Option<usize> {
        match self.vad {
            Some(config) if policy != VadPolicy::Disabled => Some(config.hangover(policy)),
            _ => None,
        }
    }

    /// After samples were lost.
    pub open spec fn overrun(self, samples: u64) -> Self {
        WorkerState {
            total_dropped_samples: self.total_dropped_samples.saturating_add(samples),
            overrun_warning_sent: self.overrun_warning_sent || samples > 0,
            ..self
        }
    }

    /// The warning that newly lost samples bring.
    pub open spec fn warning(self, samples: u64) -> Option<OverrunWarning> {
        overrun_warning(
            samples,
            self.capture_generation,
            self.total_dropped_samples,
            self.overrun_warning_sent,
        )
    }

    /// After the worker has ended. Nobody waits for its samples any more.
    pub open spec fn ended(self) -> Self {
        WorkerState { phase: Phase::Ended, awaiting_ready: false, ..self }
    }

    /// The end of a worker whose stream failed, and what is to be told.
    pub open spec fn failed(self, cause: FailureCause) -> (Self, Effects) {
        (
            self.ended(),
            Effects {
                drop_ready: self.awaiting_ready,
                raise_stream_error: cause == FailureCause::CallbackStalled,
                failure: capture_failure(
                    self.recording,
                    self.capture_generation,
                    self.awaiting_ready,
                    cause,
                ),
                ..Effects::none()
            },
        )
    }

    /// After a command.
    pub open spec fn commanded(self, cmd: Cmd) -> (Self, Effects) {
        match cmd {
            Cmd::Start { policy, generation } => (
                self.started(policy, generation),
                Effects {
                    begin: Some(BeginCapture { hangover: self.hangover_to_set(policy) }),
                    drop_ready: self.awaiting_ready,
                    ..Effects::none()
                },
            ),
            Cmd::Stop => (self.to(Phase::StopOverrun), Effects::none()),
            Cmd::Shutdown => (
                self.ended(),
                Effects { silence: true, drop_ready: self.awaiting_ready, ..Effects::none() },
            ),
        }
    }

    /// After a look at the heartbeat: another miss, or a sign of life.
    pub open spec fn heartbeat_checked(self, heartbeat: u64) -> Self {
        WorkerState {
            last_heartbeat: heartbeat,
            missed_heartbeat_checks: if heartbeat == self.last_heartbeat {
                (self.missed_heartbeat_checks + 1) as usize
            } else {
                0
            },
            ..self
        }
    }

    /// After the wait for a command, or the look for a further one. The ring is drained when
    /// there is none left.
    pub open spec fn after_wait(self, event: Event) -> (Self, Effects) {
        match event {
            Event::Command(cmd) => self.commanded(cmd),
            Event::NoCommand => (
                self.to(
                    if self.phase == Phase::Receive {
                        Phase::Poll
                    } else {
                        Phase::Drain
                    },
                ),
                Effects::none(),
            ),
            Event::Disconnected => (
                self.ended(),
                Effects { drop_ready: self.awaiting_ready, ..Effects::none() },
            ),
            _ => (self, Effects::none()),
        }
    }

    /// After an event within a stop.
    pub open spec fn next_in_stop(self, event: Event) -> (Self, Effects) {
        match self.phase {
            Phase::StopOverrun => match event {
                Event::Overrun(samples) => (
                    WorkerState {
                        phase: Phase::PauseWait,
                        recording: false,
                        awaiting_ready: false,
                        ..self.overrun(samples)
                    },
                    Effects {
                        warning: self.warning(samples),
                        drop_ready: self.awaiting_ready,
                        request_pause: true,
                        ..Effects::none()
                    },
                ),
                _ => (self, Effects::none()),
            },
            Phase::PauseWait => match event {
                Event::Pause { acknowledged, elapsed } => (
                    if acknowledged || elapsed >= PAUSE_ACK_TIMEOUT {
                        self.to(Phase::PauseRead)
                    } else {
                        self.to(Phase::PauseDrain)
                    },
                    Effects::none(),
                ),
                _ => (self, Effects::none()),
            },
            Phase::PauseDrain => match event {
                Event::Drained(_) => (self.to(Phase::PauseWait), Effects::none()),
                _ => (self, Effects::none()),
            },
            Phase::PauseRead => match event {
                Event::Acknowledged(acknowledged) => (
                    self.to(Phase::FinalDrain { timed_out: !acknowledged }),
                    Effects { raise_stream_error: !acknowledged, ..Effects::none() },
                ),
                _ => (self, Effects::none()),
            },
            Phase::FinalDrain { timed_out } => match event {
                Event::Drained(count) => (
                    if count > 0 {
                        self
                    } else {
                        self.to(Phase::FinishFrames { timed_out })
                    },
                    Effects::none(),
                ),
                _ => (self, Effects::none()),
            },
            Phase::FinishFrames { timed_out } => match event {
                Event::Finished => (
                    WorkerState {
                        phase: if timed_out {
                            Phase::Ended
                        } else {
                            Phase::Poll
                        },
                        capture_generation: None,
                        ..self
                    },
                    Effects { reply: true, resume: !timed_out, ..Effects::none() },
                ),
                _ => (self, Effects::none()),
            },
            _ => (self, Effects::none()),
        }
    }

    /// After an event within a round without commands.
    pub open spec fn next_in_round(self, event: Event) -> (Self, Effects) {
        match self.phase {
            Phase::Drain => match event {
                Event::Drained(_) => (self.to(Phase::Overrun), Effects::none()),
                _ => (self, Effects::none()),
            },
            Phase::Overrun => match event {
                Event::Overrun(samples) => if self.recording {
                    (
                        self.overrun(samples).to(Phase::StreamError),
                        Effects { warning: self.warning(samples), ..Effects::none() },
                    )
                } else {
                    (self.to(Phase::StreamError), Effects::none())
                },
                _ => (self, Effects::none()),
            },
            Phase::StreamError => match event {
                Event::StreamError(failed) => if failed {
                    self.failed(FailureCause::BackendError)
                } else {
                    (self.to(Phase::HeartbeatClock), Effects::none())
                },
                _ => (self, Effects::none()),
            },
            Phase::HeartbeatClock => match event {
                Event::Elapsed(elapsed) => (
                    if elapsed >= HEARTBEAT_CHECK_INTERVAL {
                        self.to(Phase::HeartbeatRead)
                    } else {
                        self.to(Phase::Receive)
                    },
                    Effects::none(),
                ),
                _ => (self, Effects::none()),
            },
            Phase::HeartbeatRead => match event {
                Event::Heartbeat(heartbeat) => {
                    let checked = self.heartbeat_checked(heartbeat);
                    if checked.missed_heartbeat_checks >= self.missed_limit() {
                        checked.failed(FailureCause::CallbackStalled)
                    } else {
                        (checked.to(Phase::Receive), Effects::none())
                    }
                },
                _ => (self, Effects::none()),
            },
            _ => (self, Effects::none()),
        }
    }

    /// What an event makes of the worker, and what is to be carried out. An event that does not
    /// answer what the worker needs changes nothing.
    pub open spec fn next(self, event: Event) -> (Self, Effects) {
        if self.phase == Phase::Receive || self.phase == Phase::Poll {
            self.after_wait(event)
        } else if self.stopping() {
            self.next_in_stop(event)
        } else {
            self.next_in_round(event)
        }
    }

    /// Whatever happens, the worker stays well-formed; it forgets its recording only as it hands
    /// over the samples.
    pub proof fn next_keeps_wf(self, event: Event)
        requires
            self.wf(),
        ensures
            self.next(event).0.wf(),
            self.next(event).0.capture_generation is None ==> self.capture_generation is None
                || self.next(event).1.reply,
    {
    }
}

/// The samples that are handed over, if any.
pub open spec fn samples_of(samples: Option<Vec<u32>>) -> Option<Seq<u32>> {
    match samples {
        Some(samples) => Some(samples@),
        None => None,
    }
}

/// The worker: what it remembers, and the samples of the recording so far.
#[derive(Debug)]
pub struct CaptureWorker {
    pub state: WorkerState,
    pub processed_samples: Vec<u32>,
}

impl CaptureWorker {
    /// What holds of a worker at all times: outside a recording it holds no samples.
    pub open spec fn wf(self) -> bool {
        &&& self.state.wf()
        &&& self.state.capture_generation is None ==> self.processed_samples@.len() == 0
    }

    /// The worker of a stream that has just begun to run, with the heartbeat as it is then.
    pub fn new(vad: Option<VadConfig>, heartbeat: u64) -> (worker: Self)
        ensures
            worker.wf(),
            worker.state == WorkerState::initial(vad, heartbeat),
            worker.processed_samples@ == Seq::<u32>::empty(),
    {
        CaptureWorker {
            state: WorkerState {
                phase: Phase::Receive,
                vad,
                recording: false,
                capture_generation: None,
                vad_policy: VadPolicy::Offline,
                awaiting_ready: false,
                total_dropped_samples: 0,
                overrun_warning_sent: false,
                first_chunk_seen: false,
                last_heartbeat: heartbeat,
                missed_heartbeat_checks: 0,
            },
            processed_samples: Vec::new(),
        }
    }

    /// Takes the answer to what the worker needed. Returns what is to be carried out, with the
    /// samples of the recording where they are to be handed over.
    pub fn step(&mut self, event: Event) -> (outcome: (Effects, Option<Vec<u32>>))
        requires
            old(self).wf(),
        ensures
            final(self).wf(),
            (final(self).state, outcome.0) == old(self).state.next(event),
            outcome.1 is Some <==> outcome.0.reply,
            outcome.1 matches Some(samples) ==> samples@ == old(self).processed_samples@,
            final(self).processed_samples@ == if outcome.0.reply || outcome.0.begin is Some {
                Seq::empty()
            } else {
                old(self).processed_samples@
            },
            (
                Model::of(*final(self)),
                Output {
                    effects: outcome.0,
                    handed_over: samples_of(outcome.1),
                    ..Output::none()
                },
            ) == Model::of(*old(self)).after(Input::Step(event)),
    {
        proof {
            self.state.next_keeps_wf(event);
        }
        match self.state.phase {
            Phase::Receive | Phase::Poll => (self.step_command(event), None),
            Phase::StopOverrun
            | Phase::PauseWait
            | Phase::PauseDrain
            | Phase::PauseRead
            | Phase::FinalDrain { .. }
            | Phase::FinishFrames { .. } => self.step_stop(event),
            Phase::Drain
            | Phase::Overrun
            | Phase::StreamError
            | Phase::HeartbeatClock
            | Phase::HeartbeatRead => (self.step_round(event), None),
            Phase::Ended => (Effects::new(), None),
        }
    }

    /// Takes a command, or that there is none.
    fn step_command(&mut self, event: Event) -> (effects: Effects)
        requires
            old(self).state.phase == Phase::Receive || old(self).state.phase == Phase::Poll,
        ensures
            (final(self).state, effects) == old(self).state.after_wait(event),
            final(self).processed_samples@ == if effects.begin is Some {
                Seq::empty()
            } else {
                old(self).processed_samples@
            },
            !effects.reply,
    {
        match event {
            Event::Command(cmd) => self.obey(cmd),
            Event::NoCommand => self.go(
                match self.state.phase {
                    Phase::Receive => Phase::Poll,
                    _ => Phase::Drain,
                },
            ),
            Event::Disconnected => self.end(),
            _ => Effects::new(),
        }
    }

    /// Goes on with a stop.
    fn step_stop(&mut self, event: Event) -> (outcome: (Effects, Option<Vec<u32>>))
        requires
            old(self).state.stopping(),
        ensures
            (final(self).state, outcome.0) == old(self).state.next_in_stop(event),
            outcome.1 is Some <==> outcome.0.reply,
            outcome.1 matches Some(samples) ==> samples@ == old(self).processed_samples@,
            final(self).processed_samples@ == if outcome.0.reply {
                Seq::empty()
            } else {
                old(self).processed_samples@
            },
            outcome.0.begin is None,
    {
        match self.state.phase {
            Phase::StopOverrun => match event {
                Event::Overrun(samples) => (self.begin_pause(samples), None),
                _ => (Effects::new(), None),
            },
            Phase::PauseWait => match event {
                Event::Pause { acknowledged, elapsed } => if acknowledged
                    || elapsed >= PAUSE_ACK_TIMEOUT {
                    (self.go(Phase::PauseRead), None)
                } else {
                    (self.go(Phase::PauseDrain), None)
                },
                _ => (Effects::new(), None),
            },
            Phase::PauseDrain => match event {
                Event::Drained(_) => (self.go(Phase::PauseWait), None),
                _ => (Effects::new(), None),
            },
            Phase::PauseRead => match event {
                Event::Acknowledged(acknowledged) => {
                    self.state.phase = Phase::FinalDrain { timed_out: !acknowledged };
                    let mut effects = Effects::new();
                    effects.raise_stream_error = !acknowledged;
                    (effects, None)
                },
                _ => (Effects::new(), None),
            },
            Phase::FinalDrain { timed_out } => match event {
                Event::Drained(count) => if count > 0 {
                    (Effects::new(), None)
                } else {
                    (self.go(Phase::FinishFrames { timed_out }), None)
                },
                _ => (Effects::new(), None),
            },
            Phase::FinishFrames { timed_out } => match event {
                Event::Finished => self.hand_over(timed_out),
                _ => (Effects::new(), None),
            },
            _ => (Effects::new(), None),
        }
    }

    /// Goes on with a round without commands.
    fn step_round(&mut self, event: Event) -> (effects: Effects)
        requires
            old(self).state.wf(),
        ensures
            (final(self).state, effects) == old(self).state.next_in_round(event),
            final(self).processed_samples@ == old(self).processed_samples@,
            !effects.reply,
            effects.begin is None,
    {
        match self.state.phase {
            Phase::Drain => match event {
                Event::Drained(_) => self.go(Phase::Overrun),
                _ => Effects::new(),
            },
            Phase::Overrun => match event {
                Event::Overrun(samples) => {
                    let mut effects = Effects::new();
                    if self.state.recording {
                        effects.warning = self.lose(samples);
                    }
                    self.state.phase = Phase::StreamError;
                    effects
                },
                _ => Effects::new(),
            },
            Phase::StreamError => match event {
                Event::StreamError(failed) => if failed {
                    self.fail(FailureCause::BackendError)
                } else {
                    self.go(Phase::HeartbeatClock)
                },
                _ => Effects::new(),
            },
            Phase::HeartbeatClock => match event {
                Event::Elapsed(elapsed) => if elapsed >= HEARTBEAT_CHECK_INTERVAL {
                    self.go(Phase::HeartbeatRead)
                } else {
                    self.go(Phase::Receive)
                },
                _ => Effects::new(),
            },
            Phase::HeartbeatRead => match event {
                Event::Heartbeat(heartbeat) => self.check_heartbeat(heartbeat),
                _ => Effects::new(),
            },
            _ => Effects::new(),
        }
    }

    /// Asks for the next thing.
    fn go(&mut self, phase: Phase) -> (effects: Effects)
        ensures
            final(self).state == old(self).state.to(phase),
            final(self).processed_samples@ == old(self).processed_samples@,
            effects == Effects::none(),
    {
        self.state.phase = phase;
        Effects::new()
    }

    /// Ends the worker, and lets go of whoever waits for the first samples.
    fn end(&mut self) -> (effects: Effects)
        ensures
            final(self).state == old(self).state.ended(),
            final(self).processed_samples@ == old(self).processed_samples@,
            effects == (Effects { drop_ready: old(self).state.awaiting_ready, ..Effects::none() }),
    {
        let mut effects = Effects::new();
        effects.drop_ready = self.state.awaiting_ready;
        self.state.awaiting_ready = false;
        self.state.phase = Phase::Ended;
        effects
    }

    /// Carries out a command as far as the worker's memory goes.
    fn obey(&mut self, cmd: Cmd) -> (effects: Effects)
        ensures
            (final(self).state, effects) == old(self).state.commanded(cmd),
            final(self).processed_samples@ == if effects.begin is Some {
                Seq::empty()
            } else {
                old(self).processed_samples@
            },
    {
        let mut effects = Effects::new();
        match cmd {
            Cmd::Start { policy, generation } => {
                let hangover: Option<usize> = match self.state.vad {
                    Some(config) => if policy != VadPolicy::Disabled {
                        Some(config.hangover_for(policy))
                    } else {
                        None
                    },
                    None => None,
                };
                effects.begin = Some(BeginCapture { hangover });
                effects.drop_ready = self.state.awaiting_ready;
                self.state.awaiting_ready = true;
                self.state.capture_generation = Some(generation);
                self.state.total_dropped_samples = 0;
                self.state.overrun_warning_sent = false;
                self.state.vad_policy = policy;
                self.processed_samples.clear();
                self.state.recording = true;
                self.state.phase = Phase::Poll;
            },
            Cmd::Stop => {
                self.state.phase = Phase::StopOverrun;
            },
            Cmd::Shutdown => {
                effects = self.end();
                effects.silence = true;
            },
        }
        effects
    }

    /// Counts lost samples.
    fn lose(&mut self, samples: u64) -> (warning: Option<OverrunWarning>)
        ensures
            final(self).state == old(self).state.overrun(samples),
            final(self).processed_samples@ == old(self).processed_samples@,
            warning == old(self).state.warning(samples),
    {
        let mut total: u64 = self.state.total_dropped_samples;
        let mut warning_sent: bool = self.state.overrun_warning_sent;
        let warning = observe_recording_overrun(
            samples,
            self.state.capture_generation,
            &mut total,
            &mut warning_sent,
        );
        self.state.total_dropped_samples = total;
        self.state.overrun_warning_sent = warning_sent;
        warning
    }

    /// Ends the recording and has the callback paused.
    fn begin_pause(&mut self, samples: u64) -> (effects: Effects)
        requires
            old(self).state.phase == Phase::StopOverrun,
        ensures
            (final(self).state, effects) == old(self).state.next_in_stop(Event::Overrun(samples)),
            final(self).processed_samples@ == old(self).processed_samples@,
    {
        let mut effects = Effects::new();
        effects.warning = self.lose(samples);
        effects.drop_ready = self.state.awaiting_ready;
        effects.request_pause = true;
        self.state.recording = false;
        self.state.awaiting_ready = false;
        self.state.phase = Phase::PauseWait;
        effects
    }

    /// Hands over the samples. A worker whose callback did not pause ends.
    fn hand_over(&mut self, timed_out: bool) -> (outcome: (Effects, Option<Vec<u32>>))
        requires
            old(self).state.phase == (Phase::FinishFrames { timed_out }),
        ensures
            (final(self).state, outcome.0) == old(self).state.next_in_stop(Event::Finished),
            outcome.1 matches Some(samples) && samples@ == old(self).processed_samples@,
            final(self).processed_samples@ == Seq::<u32>::empty(),
    {
        let mut effects = Effects::new();
        effects.reply = true;
        effects.resume = !timed_out;
        self.state.capture_generation = None;
        self.state.phase = if timed_out {
            Phase::Ended
        } else {
            Phase::Poll
        };
        let mut samples: Vec<u32> = Vec::new();
        std::mem::swap(&mut samples, &mut self.processed_samples);
        (effects, Some(samples))
    }

    /// Ends a worker whose stream failed.
    fn fail(&mut self, cause: FailureCause) -> (effects: Effects)
        ensures
            (final(self).state, effects) == old(self).state.failed(cause),
            final(self).processed_samples@ == old(self).processed_samples@,
    {
        let mut effects = Effects::new();
        effects.drop_ready = self.state.awaiting_ready;
        effects.raise_stream_error = cause == FailureCause::CallbackStalled;
        let mut awaiting_ready: bool = self.state.awaiting_ready;
        effects.failure = report_capture_failure(
            self.state.recording,
            self.state.capture_generation,
            &mut awaiting_ready,
            cause,
        );
        self.state.awaiting_ready = awaiting_ready;
        self.state.phase = Phase::Ended;
        effects
    }

    /// Looks whether the callback was called since the last check.
    fn check_heartbeat(&mut self, heartbeat: u64) -> (effects: Effects)
        requires
            old(self).state.wf(),
            old(self).state.phase == Phase::HeartbeatRead,
        ensures
            (final(self).state, effects) == old(self).state.next_in_round(Event::Heartbeat(heartbeat)),
            final(self).processed_samples@ == old(self).processed_samples@,
    {
        if heartbeat == self.state.last_heartbeat {
            self.state.missed_heartbeat_checks = self.state.missed_heartbeat_checks + 1;
        } else {
            self.state.last_heartbeat = heartbeat;
            self.state.missed_heartbeat_checks = 0;
        }
        let missed_limit: usize = if self.state.first_chunk_seen {
            RUNNING_MISSED_HEARTBEATS
        } else {
            STARTUP_MISSED_HEARTBEATS
        };
        if self.state.missed_heartbeat_checks >= missed_limit {
            self.fail(FailureCause::CallbackStalled)
        } else {
            self.state.phase = Phase::Receive;
            Effects::new()
        }
    }

    /// Whether drained samples belong to a recording.
    fn captures(&self) -> (captures: bool)
        ensures
            captures == self.state.captures(),
    {
        self.state.recording || match self.state.phase {
            Phase::PauseWait
            | Phase::PauseDrain
            | Phase::PauseRead
            | Phase::FinalDrain { .. }
            | Phase::FinishFrames { .. } => true,
            _ => false,
        }
    }

    /// Takes note of a run of drained samples. Returns the recording that it is to be metered
    /// and resampled for, if any.
    pub fn process_raw_chunk(&mut self) -> (generation: Option<u64>)
        requires
            old(self).wf(),
        ensures
            final(self).wf(),
            final(self).state == (WorkerState { first_chunk_seen: true, ..old(self).state }),
            final(self).processed_samples@ == old(self).processed_samples@,
            generation == if old(self).state.captures() {
                old(self).state.capture_generation
            } else {
                None
            },
            (Model::of(*final(self)), Output { run_for: generation, ..Output::none() })
                == Model::of(*old(self)).after(Input::Chunk),
    {
        self.state.first_chunk_seen = true;
        if self.captures() {
            self.state.capture_generation
        } else {
            None
        }
    }

    /// Whether the next frame is put before the detector, where there is one.
    pub fn asks_detector(&self) -> (asks: bool)
        ensures
            asks == detector_asked(
                self.state.captures(),
                self.state.capture_generation,
                self.state.vad_policy,
            ),
    {
        asks_detector(self.captures(), self.state.capture_generation, self.state.vad_policy)
    }

    /// Adds a resampled frame to the recording, or not, and returns what was added.
    pub fn add_frame(
        &mut self,
        samples: &[u32],
        vad: Option<Result<VadFrame, String>>,
    ) -> (emitted: Option<EmittedFrame>)
        requires
            old(self).wf(),
        ensures
            final(self).wf(),
            final(self).state == old(self).state,
            emitted_view(emitted) == kept_frame(
                samples@,
                old(self).state.captures(),
                old(self).state.capture_generation,
                old(self).state.vad_policy,
                vad,
            ),
            final(self).processed_samples@ == with_kept(
                old(self).processed_samples@,
                emitted_view(emitted),
            ),
            (
                Model::of(*final(self)),
                Output { kept: emitted_view(emitted), ..Output::none() },
            ) == Model::of(*old(self)).after(Input::Frame(samples@, vad)),
    {
        let captures: bool = self.captures();
        handle_frame(
            samples,
            captures,
            self.state.capture_generation,
            self.state.vad_policy,
            vad,
            &mut self.processed_samples,
        )
    }

    /// Takes note that a run of samples of a recording is processed. Returns whether somebody
    /// waits to hear of it, which is so once per recording; silence counts.
    pub fn chunk_captured(&mut self) -> (ready: bool)
        requires
            old(self).wf(),
        ensures
            final(self).wf(),
            ready == old(self).state.awaiting_ready,
            final(self).state == (WorkerState { awaiting_ready: false, ..old(self).state }),
            final(self).processed_samples@ == old(self).processed_samples@,
            (Model::of(*final(self)), Output { ready, ..Output::none() }) == Model::of(
                *old(self),
            ).after(Input::Captured),
    {
        let ready: bool = self.state.awaiting_ready;
        self.state.awaiting_ready = false;
        ready
    }
}

} // verus!
