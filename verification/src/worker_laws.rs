//! What holds of every course a worker can take.

use vstd::prelude::*;

#[allow(unused_imports)]
use crate::reports::{CaptureFailure, FailureCause};
#[allow(unused_imports)]
use crate::timing::{
    HEARTBEAT_CHECK_INTERVAL, PAUSE_ACK_TIMEOUT, RUNNING_MISSED_HEARTBEATS,
    STARTUP_MISSED_HEARTBEATS,
};
#[allow(unused_imports)]
use crate::vad::{kept_frame, with_kept, VadConfig, VadFrame, VadPolicy};
#[allow(unused_imports)]
use crate::worker::{samples_of, CaptureWorker, Cmd, Effects, Event, Phase, WorkerState};

verus! {

/// One use of a worker: a step, a run of drained samples, the end of such a run, or a frame with
/// the detector's answer.
pub ghost enum Input {
    Step(Event),
    Chunk,
    Captured,
    Frame(Seq<u32>, Option<Result<VadFrame, String>>),
}

/// A worker: what it remembers, and its samples.
#[verifier::ext_equal]
pub ghost struct Model {
    pub state: WorkerState,
    pub samples: Seq<u32>,
}

/// What one use brings.
pub ghost struct Output {
    pub effects: Effects,
    /// The first samples were announced.
    pub ready: bool,
    /// The recording that a run of drained samples is for.
    pub run_for: Option<u64>,
    /// The samples that were kept.
    pub kept: Option<(u64, Seq<u32>)>,
    /// The samples that were handed over.
    pub handed_over: Option<Seq<u32>>,
}

impl Output {
    /// Nothing.
    pub open spec fn none() -> Self {
        Output {
            effects: Effects::none(),
            ready: false,
            run_for: None,
            kept: None,
            handed_over: None,
        }
    }
}

impl Model {
    /// The model of a worker. Each of the worker's methods promises what it does to it.
    pub open spec fn of(worker: CaptureWorker) -> Self {
        Model { state: worker.state, samples: worker.processed_samples@ }
    }

    /// As for a worker.
    pub open spec fn wf(self) -> bool {
        &&& self.state.wf()
        &&& self.state.capture_generation is None ==> self.samples.len() == 0
    }

    /// After one use, and what the use brings.
    pub open spec fn after(self, input: Input) -> (Self, Output) {
        match input {
            Input::Step(event) => {
                let (state, effects) = self.state.next(event);
                let samples = if effects.reply || effects.begin is Some {
                    Seq::empty()
                } else {
                    self.samples
                };
                let handed_over = if effects.reply {
                    Some(self.samples)
                } else {
                    None
                };
                (Model { state, samples }, Output { effects, handed_over, ..Output::none() })
            },
            Input::Chunk => (
                Model { state: WorkerState { first_chunk_seen: true, ..self.state }, ..self },
                Output {
                    run_for: if self.state.captures() {
                        self.state.capture_generation
                    } else {
                        None
                    },
                    ..Output::none()
                },
            ),
            Input::Captured => (
                Model { state: WorkerState { awaiting_ready: false, ..self.state }, ..self },
                Output { ready: self.state.awaiting_ready, ..Output::none() },
            ),
            Input::Frame(samples, vad) => {
                let kept = kept_frame(
                    samples,
                    self.state.captures(),
                    self.state.capture_generation,
                    self.state.vad_policy,
                    vad,
                );
                (
                    Model { samples: with_kept(self.samples, kept), ..self },
                    Output { kept, ..Output::none() },
                )
            },
        }
    }

    /// After several uses.
    pub open spec fn run(self, inputs: Seq<Input>) -> Self
        decreases inputs.len(),
    {
        if inputs.len() == 0 {
            self
        } else {
            self.run(inputs.drop_last()).after(inputs.last()).0
        }
    }

    /// What the use at a place of a course brings.
    pub open spec fn output(self, inputs: Seq<Input>, place: int) -> Output {
        self.run(inputs.take(place)).after(inputs[place]).1
    }

    /// No recording is begun in a course.
    pub open spec fn begins_none(self, inputs: Seq<Input>) -> bool {
        forall|place: int|
            0 <= place < inputs.len() ==> (#[trigger] self.output(inputs, place)).effects.begin is None
    }

    /// No samples are handed over in a course.
    pub open spec fn replies_none(self, inputs: Seq<Input>) -> bool {
        forall|place: int|
            0 <= place < inputs.len() ==> !(#[trigger] self.output(inputs, place)).effects.reply
    }

    /// The warnings of a course.
    pub open spec fn warnings(self, inputs: Seq<Input>) -> nat
        decreases inputs.len(),
    {
        if inputs.len() == 0 {
            0
        } else {
            let earlier = self.warnings(inputs.drop_last());
            if self.run(inputs.drop_last()).after(inputs.last()).1.effects.warning is Some {
                earlier + 1
            } else {
                earlier
            }
        }
    }

    /// How often, in a course, somebody who waits for the first samples hears that they have
    /// come, or is let go.
    pub open spec fn readiness_answers(self, inputs: Seq<Input>) -> nat
        decreases inputs.len(),
    {
        if inputs.len() == 0 {
            0
        } else {
            let earlier = self.readiness_answers(inputs.drop_last());
            let output = self.run(inputs.drop_last()).after(inputs.last()).1;
            if output.ready || output.effects.drop_ready {
                earlier + 1
            } else {
                earlier
            }
        }
    }

    /// The samples that a use counts as lost: those of a stop, and those of a round within a
    /// recording. What the ring loses while nobody records is of no account.
    pub open spec fn loss(self, input: Input) -> nat {
        match input {
            Input::Step(Event::Overrun(samples)) => if self.state.phase == Phase::StopOverrun
                || self.state.phase == Phase::Overrun && self.state.recording {
                samples as nat
            } else {
                0
            },
            _ => 0,
        }
    }

    /// The samples that a course counts as lost.
    pub open spec fn losses(self, inputs: Seq<Input>) -> nat
        decreases inputs.len(),
    {
        if inputs.len() == 0 {
            0
        } else {
            self.losses(inputs.drop_last()) + self.run(inputs.drop_last()).loss(inputs.last())
        }
    }

    /// The samples that were kept in a course, in order.
    pub open spec fn kept(self, inputs: Seq<Input>) -> Seq<u32>
        decreases inputs.len(),
    {
        if inputs.len() == 0 {
            Seq::empty()
        } else {
            with_kept(
                self.kept(inputs.drop_last()),
                self.run(inputs.drop_last()).after(inputs.last()).1.kept,
            )
        }
    }
}

/// The last use of a course, and the course before it.
proof fn last_use(model: Model, inputs: Seq<Input>)
    requires
        inputs.len() > 0,
    ensures
        model.output(inputs, inputs.len() - 1) == model.run(inputs.drop_last()).after(
            inputs.last(),
        ).1,
        model.begins_none(inputs) ==> model.begins_none(inputs.drop_last()) && model.run(
            inputs.drop_last(),
        ).after(inputs.last()).1.effects.begin is None,
        model.replies_none(inputs) ==> model.replies_none(inputs.drop_last()) && !model.run(
            inputs.drop_last(),
        ).after(inputs.last()).1.effects.reply,
{
    assert(inputs.take(inputs.len() - 1) =~= inputs.drop_last());
    assert forall|place: int| 0 <= place < inputs.len() - 1 implies model.output(inputs, place)
        == #[trigger] model.output(inputs.drop_last(), place) by {
        assert(inputs.take(place) =~= inputs.drop_last().take(place));
    }
    if model.begins_none(inputs) {
        assert forall|place: int| 0 <= place < inputs.len() - 1 implies (
        #[trigger] model.output(inputs.drop_last(), place)).effects.begin is None by {
            assert(model.output(inputs, place).effects.begin is None);
        }
    }
    if model.replies_none(inputs) {
        assert forall|place: int| 0 <= place < inputs.len() - 1 implies !(
        #[trigger] model.output(inputs.drop_last(), place)).effects.reply by {
            assert(!model.output(inputs, place).effects.reply);
        }
    }
}

/// A worker stays well-formed, whatever it is put to.
pub proof fn worker_stays_well_formed(model: Model, inputs: Seq<Input>)
    requires
        model.wf(),
    ensures
        model.run(inputs).wf(),
    decreases inputs.len(),
{
    if inputs.len() > 0 {
        worker_stays_well_formed(model, inputs.drop_last());
        let before = model.run(inputs.drop_last());
        match inputs.last() {
            Input::Step(event) => {
                before.state.next_keeps_wf(event);
            },
            _ => {},
        }
    }
}

/// Within one recording, lost audio is warned of at most once, and not at all once a warning has
/// been given.
pub proof fn warns_at_most_once_per_recording(model: Model, inputs: Seq<Input>)
    requires
        model.begins_none(inputs),
    ensures
        model.warnings(inputs) <= 1,
        model.state.overrun_warning_sent ==> model.warnings(inputs) == 0,
        model.warnings(inputs) > 0 || model.state.overrun_warning_sent ==> model.run(
            inputs,
        ).state.overrun_warning_sent,
    decreases inputs.len(),
{
    if inputs.len() > 0 {
        last_use(model, inputs);
        warns_at_most_once_per_recording(model, inputs.drop_last());
        warning_step(model.run(inputs.drop_last()), inputs.last());
    }
}

/// A use that begins no recording keeps note of a warning, and gives one only where none was.
proof fn warning_step(model: Model, input: Input)
    requires
        model.after(input).1.effects.begin is None,
    ensures
        model.state.overrun_warning_sent ==> model.after(input).0.state.overrun_warning_sent,
        model.after(input).1.effects.warning is Some ==> !model.state.overrun_warning_sent
            && model.after(input).0.state.overrun_warning_sent,
{
}

/// Within one recording the total is the sum of all losses, as far as it can be counted.
pub proof fn the_total_adds_up_the_losses(model: Model, inputs: Seq<Input>)
    requires
        model.begins_none(inputs),
    ensures
        model.run(inputs).state.total_dropped_samples == if model.state.total_dropped_samples
            + model.losses(inputs) <= u64::MAX {
            model.state.total_dropped_samples + model.losses(inputs)
        } else {
            u64::MAX as int
        },
    decreases inputs.len(),
{
    if inputs.len() > 0 {
        last_use(model, inputs);
        the_total_adds_up_the_losses(model, inputs.drop_last());
        loss_step(model.run(inputs.drop_last()), inputs.last());
    }
}

/// A use that begins no recording adds its loss to the total.
proof fn loss_step(model: Model, input: Input)
    requires
        model.after(input).1.effects.begin is None,
    ensures
        model.after(input).0.state.total_dropped_samples == if model.state.total_dropped_samples
            + model.loss(input) <= u64::MAX {
            model.state.total_dropped_samples + model.loss(input)
        } else {
            u64::MAX as int
        },
{
}

/// Within one recording, who waits for the first samples gets one answer at most, and gets one
/// as soon as nobody is waited for any more.
pub proof fn readiness_is_answered_once(model: Model, inputs: Seq<Input>)
    requires
        model.begins_none(inputs),
    ensures
        model.readiness_answers(inputs) <= 1,
        model.readiness_answers(inputs) == 1 <==> model.state.awaiting_ready && !model.run(
            inputs,
        ).state.awaiting_ready,
        model.run(inputs).state.awaiting_ready ==> model.state.awaiting_ready,
    decreases inputs.len(),
{
    if inputs.len() > 0 {
        last_use(model, inputs);
        readiness_is_answered_once(model, inputs.drop_last());
        readiness_step(model.run(inputs.drop_last()), inputs.last());
    }
}

/// A use that begins no recording answers exactly if it ends the wait.
proof fn readiness_step(model: Model, input: Input)
    requires
        model.after(input).1.effects.begin is None,
    ensures
        ({
            let output = model.after(input).1;
            let after = model.after(input).0;
            &&& output.ready || output.effects.drop_ready <==> model.state.awaiting_ready
                && !after.state.awaiting_ready
            &&& after.state.awaiting_ready ==> model.state.awaiting_ready
        }),
{
}

/// While nothing is begun or handed over, the samples grow by exactly the kept frames, in order.
pub proof fn samples_are_those_kept(model: Model, inputs: Seq<Input>)
    requires
        model.begins_none(inputs),
        model.replies_none(inputs),
    ensures
        model.run(inputs).samples == model.samples + model.kept(inputs),
    decreases inputs.len(),
{
    if inputs.len() > 0 {
        last_use(model, inputs);
        samples_are_those_kept(model, inputs.drop_last());
        match model.run(inputs.drop_last()).after(inputs.last()).1.kept {
            Some((_, samples)) => {
                assert((model.samples + model.kept(inputs.drop_last())) + samples
                    =~= model.samples + (model.kept(inputs.drop_last()) + samples));
            },
            None => {},
        }
    } else {
        assert(model.samples + model.kept(inputs) =~= model.samples);
    }
}

/// What a stop hands over is what was kept since the start, in order and complete; nothing of it
/// stays.
pub proof fn a_stop_hands_over_what_was_kept_since_the_start(
    model: Model,
    cmd: Cmd,
    inputs: Seq<Input>,
    last: Input,
)
    requires
        model.state.phase == Phase::Receive || model.state.phase == Phase::Poll,
        cmd is Start,
        ({
            let begun = model.after(Input::Step(Event::Command(cmd))).0;
            &&& begun.begins_none(inputs)
            &&& begun.replies_none(inputs)
            &&& begun.run(inputs).after(last).1.effects.reply
        }),
    ensures
        ({
            let begun = model.after(Input::Step(Event::Command(cmd))).0;
            let (after, output) = begun.run(inputs).after(last);
            &&& output.handed_over == Some(begun.kept(inputs))
            &&& after.samples == Seq::<u32>::empty()
        }),
{
    let begun = model.after(Input::Step(Event::Command(cmd))).0;
    samples_are_those_kept(begun, inputs);
    assert(begun.samples + begun.kept(inputs) =~= begun.kept(inputs));
}

/// The ring is drained for a round only once no command is left waiting, so that samples in
/// flight when a start comes belong to the recording.
pub proof fn commands_go_before_the_drain(state: WorkerState, event: Event)
    requires
        state.phase != Phase::Drain,
        state.next(event).0.phase == Phase::Drain,
    ensures
        state.phase == Phase::Poll,
        event == Event::NoCommand,
{
}

/// A recording begins without samples, and starts its own counts.
pub proof fn recording_begins_empty(model: Model, cmd: Cmd)
    requires
        model.state.phase == Phase::Receive || model.state.phase == Phase::Poll,
        cmd is Start,
    ensures
        ({
            let (after, output) = model.after(Input::Step(Event::Command(cmd)));
            &&& output.effects.begin is Some
            &&& after.samples == Seq::<u32>::empty()
            &&& after.state.total_dropped_samples == 0
            &&& !after.state.overrun_warning_sent
            &&& after.state.awaiting_ready
        }),
{
}

/// Outside a recording nothing is kept.
pub proof fn nothing_is_kept_outside_a_recording(model: Model, input: Input)
    requires
        model.state.capture_generation is None || !model.state.captures(),
    ensures
        model.after(input).1.kept is None,
        model.after(input).0.samples.len() <= model.samples.len(),
{
}

/// Every stop is answered exactly once, and before a further command is taken: a stop under way
/// takes no command and goes on until it hands over the samples; nothing else hands them over.
pub proof fn a_stop_is_answered_before_the_next_command(state: WorkerState, event: Event)
    ensures
        !state.stopping() ==> !state.next(event).1.reply,
        state.stopping() ==> (state.next(event).1.reply <==> !state.next(event).0.stopping()),
        state.stopping() && event is Command ==> state.next(event) == (state, Effects::none()),
        state.stopping() ==> state.next(event).1.begin is None,
{
}

/// A callback that does not pause in time costs the stream: the failure is marked, the samples
/// are handed over all the same, and the worker ends without letting the callback write again.
pub proof fn an_unpaused_stream_is_given_up(state: WorkerState)
    ensures
        state.phase == Phase::PauseRead ==> {
            let (after, effects) = state.next(Event::Acknowledged(false));
            effects.raise_stream_error && after.phase == Phase::FinalDrain { timed_out: true }
        },
        state.phase == (Phase::FinalDrain { timed_out: true }) ==> state.next(
            Event::Drained(0),
        ).0.phase == (Phase::FinishFrames { timed_out: true }),
        state.phase == (Phase::FinishFrames { timed_out: true }) ==> {
            let (after, effects) = state.next(Event::Finished);
            effects.reply && !effects.resume && after.phase == Phase::Ended
        },
{
}

/// The pause is waited for until it is acknowledged or its time is up, and no longer.
pub proof fn the_pause_wait_is_bounded(state: WorkerState, acknowledged: bool, elapsed: u64)
    requires
        state.phase == Phase::PauseWait,
    ensures
        state.next(Event::Pause { acknowledged, elapsed }).0.phase == Phase::PauseDrain <==> (
        !acknowledged && elapsed < PAUSE_ACK_TIMEOUT),
        state.next(Event::Pause { acknowledged, elapsed }).0.phase == Phase::PauseRead <==> (
        acknowledged || elapsed >= PAUSE_ACK_TIMEOUT),
{
}

/// However a worker ends, whoever still waits for the first samples is let go as it does, and
/// hears of none after that.
pub proof fn the_end_lets_go_of_who_waits(model: Model, input: Input, later: Input)
    requires
        model.wf(),
        model.state.phase != Phase::Ended,
        model.after(input).0.state.phase == Phase::Ended,
    ensures
        model.after(input).1.effects.drop_ready == model.state.awaiting_ready,
        !model.after(input).0.state.awaiting_ready,
        !model.after(input).0.after(later).1.ready,
        !model.after(input).0.after(later).0.state.awaiting_ready,
{
}

/// A worker that has ended does nothing more.
pub proof fn the_end_is_final(state: WorkerState, event: Event)
    requires
        state.phase == Phase::Ended,
    ensures
        state.next(event) == (state, Effects::none()),
{
}

/// When the stream of a recording fails, exactly one party learns of it: who waits for the first
/// samples is let go, and once they had come the failure is reported. Without a recording nobody
/// does.
pub proof fn a_failure_reaches_one_party(state: WorkerState, cause: FailureCause)
    requires
        state.wf(),
        !state.pausing(),
    ensures
        ({
            let effects = state.failed(cause).1;
            &&& state.recording ==> (effects.drop_ready <==> effects.failure is None)
            &&& !state.recording ==> !effects.drop_ready && effects.failure is None
            &&& effects.drop_ready <==> state.awaiting_ready
        }),
{
}

/// A round in which no command comes, nothing is drained or lost, and the callback is silent. The
/// clock shows `elapsed` since the last check; the heartbeat is read where the worker asks for it.
pub open spec fn silent_round(state: WorkerState, elapsed: u64) -> (WorkerState, Effects) {
    let polled = state.next(Event::NoCommand).0.next(Event::NoCommand).0;
    let drained = polled.next(Event::Drained(0)).0.next(Event::Overrun(0)).0;
    let timed = drained.next(Event::StreamError(false)).0.next(Event::Elapsed(elapsed));
    if timed.0.phase == Phase::HeartbeatRead {
        timed.0.next(Event::Heartbeat(state.last_heartbeat))
    } else {
        timed
    }
}

/// After rounds of silence, each with what its clock shows.
pub open spec fn silent_rounds(state: WorkerState, clocks: Seq<u64>) -> WorkerState
    decreases clocks.len(),
{
    if clocks.len() == 0 {
        state
    } else {
        silent_round(silent_rounds(state, clocks.drop_last()), clocks.last()).0
    }
}

/// The rounds whose clock shows that a check is due.
pub open spec fn checks_due(clocks: Seq<u64>) -> nat
    decreases clocks.len(),
{
    if clocks.len() == 0 {
        0
    } else if clocks.last() >= HEARTBEAT_CHECK_INTERVAL {
        checks_due(clocks.drop_last()) + 1
    } else {
        checks_due(clocks.drop_last())
    }
}

/// However late each round comes, every one in which a check is due counts one miss while the
/// callback is silent. The stream is given up at the limit and not before, and who recorded
/// learns of it.
pub proof fn silence_ends_the_worker_at_the_limit(state: WorkerState, clocks: Seq<u64>)
    requires
        state.wf(),
        state.phase == Phase::Receive,
        state.missed_heartbeat_checks < if state.first_chunk_seen {
            RUNNING_MISSED_HEARTBEATS
        } else {
            STARTUP_MISSED_HEARTBEATS
        },
    ensures
        ({
            let limit: int = if state.first_chunk_seen {
                RUNNING_MISSED_HEARTBEATS as int
            } else {
                STARTUP_MISSED_HEARTBEATS as int
            };
            let missed = state.missed_heartbeat_checks + checks_due(clocks);
            &&& missed < limit ==> silent_rounds(state, clocks) == (WorkerState {
                missed_heartbeat_checks: missed as usize,
                ..state
            })
            &&& missed == limit && clocks.len() > 0 && clocks.last() >= HEARTBEAT_CHECK_INTERVAL
                ==> {
                let (after, effects) = silent_round(
                    silent_rounds(state, clocks.drop_last()),
                    clocks.last(),
                );
                &&& after.phase == Phase::Ended
                &&& effects.raise_stream_error
                &&& effects.drop_ready == state.awaiting_ready
                &&& state.recording && !state.awaiting_ready ==> effects.failure == Some(
                    CaptureFailure {
                        generation: state.capture_generation->0,
                        cause: FailureCause::CallbackStalled,
                    },
                )
            }
        }),
    decreases clocks.len(),
{
    if clocks.len() > 0 {
        silence_ends_the_worker_at_the_limit(state, clocks.drop_last());
        let limit: int = if state.first_chunk_seen {
            RUNNING_MISSED_HEARTBEATS as int
        } else {
            STARTUP_MISSED_HEARTBEATS as int
        };
        if state.missed_heartbeat_checks + checks_due(clocks.drop_last()) < limit {
            silent_round_counts(silent_rounds(state, clocks.drop_last()), clocks.last());
        }
    }
}

/// One round of silence.
proof fn silent_round_counts(state: WorkerState, elapsed: u64)
    requires
        state.wf(),
        state.phase == Phase::Receive,
    ensures
        ({
            let missed = WorkerState {
                missed_heartbeat_checks: (state.missed_heartbeat_checks + 1) as usize,
                ..state
            };
            silent_round(state, elapsed) == if elapsed < HEARTBEAT_CHECK_INTERVAL {
                (state, Effects::none())
            } else if missed.missed_heartbeat_checks >= state.missed_limit() {
                missed.failed(FailureCause::CallbackStalled)
            } else {
                (missed, Effects::none())
            }
        }),
{
    let to_poll = state.to(Phase::Poll);
    assert(state.next(Event::NoCommand).0 == to_poll);
    assert(to_poll.next(Event::NoCommand).0 == state.to(Phase::Drain));
    assert(state.to(Phase::Drain).next(Event::Drained(0)).0 == state.to(Phase::Overrun));
    assert(state.to(Phase::Overrun).next(Event::Overrun(0)).0 == state.to(Phase::StreamError));
    assert(state.to(Phase::StreamError).next(Event::StreamError(false)).0 == state.to(
        Phase::HeartbeatClock,
    ));
    if elapsed >= HEARTBEAT_CHECK_INTERVAL {
        assert(state.to(Phase::HeartbeatClock).next(Event::Elapsed(elapsed)).0 == state.to(
            Phase::HeartbeatRead,
        ));
    } else {
        assert(state.to(Phase::HeartbeatClock).next(Event::Elapsed(elapsed)) == (
            state,
            Effects::none(),
        ));
    }
}

/// A sign of life starts the count anew.
pub proof fn a_heartbeat_forgives_silence(state: WorkerState, heartbeat: u64)
    requires
        state.phase == Phase::HeartbeatRead,
        heartbeat != state.last_heartbeat,
    ensures
        state.next(Event::Heartbeat(heartbeat)).0 == (WorkerState {
            phase: Phase::Receive,
            last_heartbeat: heartbeat,
            missed_heartbeat_checks: 0,
            ..state
        }),
        state.next(Event::Heartbeat(heartbeat)).1 == Effects::none(),
{
}

/// What a recording under a policy gets from one use of its worker: a frame goes in whole, unless
/// a detector that the policy asks has answered; then its answer goes in.
pub open spec fn contribution(policy: VadPolicy, input: Input) -> Seq<u32> {
    match input {
        Input::Frame(samples, answer) => match answer {
            Some(Ok(VadFrame::Speech(speech))) if policy != VadPolicy::Disabled => speech@,
            Some(Ok(VadFrame::Noise)) if policy != VadPolicy::Disabled => Seq::empty(),
            _ => samples,
        },
        _ => Seq::empty(),
    }
}

/// What a recording gets from a course, in order.
pub open spec fn contributions(policy: VadPolicy, inputs: Seq<Input>) -> Seq<u32>
    decreases inputs.len(),
{
    if inputs.len() == 0 {
        Seq::empty()
    } else {
        contributions(policy, inputs.drop_last()) + contribution(policy, inputs.last())
    }
}

/// From a start until the samples are handed over, whatever else happens and however far a stop
/// has come, every run of drained samples is for that recording, and every frame that is put to
/// the worker goes into it: whole without detection, and otherwise as the detector says.
pub proof fn everything_until_the_hand_over_is_recorded(
    model: Model,
    policy: VadPolicy,
    generation: u64,
    inputs: Seq<Input>,
    frame: Seq<u32>,
    answer: Option<Result<VadFrame, String>>,
)
    requires
        model.state.phase == Phase::Receive || model.state.phase == Phase::Poll,
        ({
            let begun = model.after(
                Input::Step(Event::Command(Cmd::Start { policy, generation })),
            ).0;
            begun.begins_none(inputs) && begun.replies_none(inputs)
        }),
    ensures
        ({
            let begun = model.after(
                Input::Step(Event::Command(Cmd::Start { policy, generation })),
            ).0;
            let now = begun.run(inputs);
            let noise = answer == Some(Ok::<VadFrame, String>(VadFrame::Noise));
            &&& now.after(Input::Chunk).1.run_for == Some(generation)
            &&& now.after(Input::Frame(frame, answer)).1.kept == if policy != VadPolicy::Disabled
                && noise {
                None
            } else {
                Some((generation, contribution(policy, Input::Frame(frame, answer))))
            }
        }),
{
    let begun = model.after(Input::Step(Event::Command(Cmd::Start { policy, generation }))).0;
    a_recording_goes_on(begun, policy, generation, inputs);
}

/// A recording that is under way, or being stopped.
spec fn under_way(state: WorkerState, policy: VadPolicy, generation: u64) -> bool {
    &&& state.capture_generation == Some(generation)
    &&& state.vad_policy == policy
    &&& state.recording || state.phase == Phase::PauseWait || state.phase == Phase::PauseDrain
        || state.phase == Phase::PauseRead || state.phase is FinalDrain || state.phase
        is FinishFrames
}

/// Without a start or a hand-over a recording goes on.
proof fn a_recording_goes_on(
    begun: Model,
    policy: VadPolicy,
    generation: u64,
    inputs: Seq<Input>,
)
    requires
        under_way(begun.state, policy, generation),
        begun.begins_none(inputs),
        begun.replies_none(inputs),
    ensures
        under_way(begun.run(inputs).state, policy, generation),
    decreases inputs.len(),
{
    if inputs.len() > 0 {
        last_use(begun, inputs);
        a_recording_goes_on(begun, policy, generation, inputs.drop_last());
    }
}

/// A stop hands over everything that was put to the recording since its start, in order: all
/// frames without detection, and otherwise what the detector made of them.
pub proof fn a_stop_hands_over_all_that_was_put_to_the_recording(
    model: Model,
    policy: VadPolicy,
    generation: u64,
    inputs: Seq<Input>,
    last: Input,
)
    requires
        model.state.phase == Phase::Receive || model.state.phase == Phase::Poll,
        ({
            let begun = model.after(
                Input::Step(Event::Command(Cmd::Start { policy, generation })),
            ).0;
            &&& begun.begins_none(inputs)
            &&& begun.replies_none(inputs)
            &&& begun.run(inputs).after(last).1.effects.reply
        }),
    ensures
        model.after(Input::Step(Event::Command(Cmd::Start { policy, generation }))).0.run(
            inputs,
        ).after(last).1.handed_over == Some(contributions(policy, inputs)),
{
    let begun = model.after(Input::Step(Event::Command(Cmd::Start { policy, generation }))).0;
    the_recording_is_what_was_put_to_it(begun, policy, generation, inputs);
    assert(Seq::<u32>::empty() + contributions(policy, inputs) =~= contributions(policy, inputs));
}

/// While a recording is under way it grows by what is put to it.
proof fn the_recording_is_what_was_put_to_it(
    begun: Model,
    policy: VadPolicy,
    generation: u64,
    inputs: Seq<Input>,
)
    requires
        under_way(begun.state, policy, generation),
        begun.begins_none(inputs),
        begun.replies_none(inputs),
    ensures
        begun.run(inputs).samples == begun.samples + contributions(policy, inputs),
    decreases inputs.len(),
{
    if inputs.len() > 0 {
        last_use(begun, inputs);
        the_recording_is_what_was_put_to_it(begun, policy, generation, inputs.drop_last());
        a_recording_goes_on(begun, policy, generation, inputs.drop_last());
        let earlier = contributions(policy, inputs.drop_last());
        let added = contribution(policy, inputs.last());
        assert((begun.samples + earlier) + added =~= begun.samples + (earlier + added));
    } else {
        assert(begun.samples + contributions(policy, inputs) =~= begun.samples);
    }
}

/// A worker begins idle: it listens for commands, with no recording and nothing counted.
pub proof fn a_worker_begins_idle(vad: Option<VadConfig>, heartbeat: u64)
    ensures
        ({
            let state = WorkerState::initial(vad, heartbeat);
            &&& state.wf()
            &&& state.phase == Phase::Receive && state.vad == vad
            &&& !state.recording && state.capture_generation is None && !state.awaiting_ready
            &&& state.total_dropped_samples == 0 && !state.overrun_warning_sent
            &&& !state.first_chunk_seen
            &&& state.last_heartbeat == heartbeat && state.missed_heartbeat_checks == 0
        }),
{
}

/// The worker takes a command only while it listens.
pub open spec fn listens(state: WorkerState) -> bool {
    state.phase == Phase::Receive || state.phase == Phase::Poll
}

/// The worker finds the callback silent once too often: it reads no new heartbeat, and with this
/// miss the limit is reached.
pub open spec fn finds_a_stall(state: WorkerState, event: Event) -> bool {
    &&& state.phase == Phase::HeartbeatRead
    &&& event == Event::Heartbeat(state.last_heartbeat)
    &&& state.missed_heartbeat_checks + 1 >= if state.first_chunk_seen {
        RUNNING_MISSED_HEARTBEATS
    } else {
        STARTUP_MISSED_HEARTBEATS
    }
}

/// Only a start begins a recording and only the hand-over ends it; a stop leaves the samples in
/// place and only stops the waiting for the first ones. No step changes the detector, or takes
/// note of samples.
pub proof fn what_begins_and_ends_a_recording(state: WorkerState, event: Event)
    requires
        state.wf(),
    ensures
        ({
            let after = state.next(event).0;
            let pauses = state.phase == Phase::StopOverrun && event is Overrun;
            let hands_over = state.phase is FinishFrames && event == Event::Finished;
            &&& after.vad == state.vad && after.first_chunk_seen == state.first_chunk_seen
            &&& match event {
                Event::Command(Cmd::Start { policy, generation }) if listens(state) => {
                    &&& after.recording && after.awaiting_ready
                    &&& after.capture_generation == Some(generation)
                    &&& after.vad_policy == policy
                },
                _ => {
                    &&& after.recording == (state.recording && !pauses)
                    &&& after.awaiting_ready == (state.awaiting_ready && !pauses && after.phase
                        != Phase::Ended)
                    &&& after.capture_generation == if hands_over {
                        None
                    } else {
                        state.capture_generation
                    }
                    &&& after.vad_policy == state.vad_policy
                },
            }
        }),
{
}

/// What is lost counts in a recording and as a stop begins, and nowhere else; a start sets the
/// count back. A warning comes with the first loss that counts, once, to the recording that
/// suffered it and with the count so far.
pub proof fn only_the_losses_of_a_recording_count(state: WorkerState, event: Event)
    ensures
        ({
            let (after, effects) = state.next(event);
            let starts = listens(state) && event is Command && event->Command_0 is Start;
            let lost: int = match event {
                Event::Overrun(samples) if state.phase == Phase::StopOverrun || state.phase
                    == Phase::Overrun && state.recording => samples as int,
                _ => 0,
            };
            let sum = state.total_dropped_samples + lost;
            &&& after.total_dropped_samples == if starts {
                0
            } else if sum > u64::MAX {
                u64::MAX as int
            } else {
                sum
            }
            &&& after.overrun_warning_sent == (!starts && (state.overrun_warning_sent || lost > 0))
            &&& effects.warning is Some <==> lost > 0 && !state.overrun_warning_sent
                && state.capture_generation is Some
            &&& effects.warning matches Some(warning) ==> {
                &&& Some(warning.generation) == state.capture_generation
                &&& warning.dropped_samples == after.total_dropped_samples
            }
        }),
{
}

/// The heartbeat is compared only when it is read: a new one is remembered and clears the misses,
/// the old one is a miss.
pub proof fn a_heartbeat_is_compared_when_it_is_read(state: WorkerState, event: Event)
    requires
        state.wf(),
    ensures
        ({
            let after = state.next(event).0;
            let read = state.phase == Phase::HeartbeatRead && event is Heartbeat;
            let beat = event->Heartbeat_0;
            &&& !read ==> after.last_heartbeat == state.last_heartbeat
                && after.missed_heartbeat_checks == state.missed_heartbeat_checks
            &&& read ==> after.last_heartbeat == beat
            &&& read && beat != state.last_heartbeat ==> after.missed_heartbeat_checks == 0
            &&& read && beat == state.last_heartbeat ==> after.missed_heartbeat_checks
                == state.missed_heartbeat_checks + 1
        }),
{
}

/// How each station of a round is reached. In particular the heartbeat is read if and only if the
/// clock shows that the interval has passed, by however much.
pub proof fn how_a_round_goes_on(state: WorkerState, event: Event)
    requires
        state.wf(),
    ensures
        ({
            let from = state.phase;
            let to = state.next(event).0.phase;
            let starts = event is Command && event->Command_0 is Start;
            &&& to == Phase::Poll && from != Phase::Poll <==> {
                ||| from == Phase::Receive && (event == Event::NoCommand || starts)
                ||| from == (Phase::FinishFrames { timed_out: false }) && event == Event::Finished
            }
            &&& to == Phase::Drain && from != Phase::Drain <==> from == Phase::Poll && event
                == Event::NoCommand
            &&& to == Phase::Overrun && from != Phase::Overrun <==> from == Phase::Drain && event
                is Drained
            &&& to == Phase::StreamError && from != Phase::StreamError <==> from == Phase::Overrun
                && event is Overrun
            &&& to == Phase::HeartbeatClock && from != Phase::HeartbeatClock <==> from
                == Phase::StreamError && event == Event::StreamError(false)
            &&& to == Phase::HeartbeatRead && from != Phase::HeartbeatRead <==> from
                == Phase::HeartbeatClock && event is Elapsed && event->Elapsed_0
                >= HEARTBEAT_CHECK_INTERVAL
            &&& to == Phase::Receive && from != Phase::Receive <==> {
                ||| from == Phase::HeartbeatClock && event is Elapsed && event->Elapsed_0
                    < HEARTBEAT_CHECK_INTERVAL
                ||| from == Phase::HeartbeatRead && event is Heartbeat && !finds_a_stall(
                    state,
                    event,
                )
            }
        }),
{
}

/// How each station of a stop is reached, and how a worker ends.
pub proof fn how_a_stop_goes_on(state: WorkerState, event: Event)
    requires
        state.wf(),
    ensures
        ({
            let from = state.phase;
            let to = state.next(event).0.phase;
            &&& to == Phase::StopOverrun && from != Phase::StopOverrun <==> listens(state) && event
                == Event::Command(Cmd::Stop)
            &&& to == Phase::PauseWait && from != Phase::PauseWait <==> {
                ||| from == Phase::StopOverrun && event is Overrun
                ||| from == Phase::PauseDrain && event is Drained
            }
            &&& to == Phase::PauseDrain && from != Phase::PauseDrain <==> from == Phase::PauseWait
                && event is Pause && !event->Pause_acknowledged && event->Pause_elapsed
                < PAUSE_ACK_TIMEOUT
            &&& to == Phase::PauseRead && from != Phase::PauseRead <==> from == Phase::PauseWait
                && event is Pause && (event->Pause_acknowledged || event->Pause_elapsed
                >= PAUSE_ACK_TIMEOUT)
            &&& to is FinalDrain && !(from is FinalDrain) <==> from == Phase::PauseRead && event
                is Acknowledged
            &&& to is FinalDrain && from == Phase::PauseRead ==> to->FinalDrain_timed_out
                == !event->Acknowledged_0
            &&& to is FinalDrain && from is FinalDrain ==> to == from
            &&& to is FinishFrames && !(from is FinishFrames) <==> from is FinalDrain && event
                == Event::Drained(0)
            &&& to is FinishFrames && from is FinalDrain ==> to->FinishFrames_timed_out
                == from->FinalDrain_timed_out
            &&& to is FinishFrames && from is FinishFrames ==> to == from
            &&& to == Phase::Ended && from != Phase::Ended <==> {
                ||| listens(state) && (event == Event::Command(Cmd::Shutdown) || event
                    == Event::Disconnected)
                ||| from == (Phase::FinishFrames { timed_out: true }) && event == Event::Finished
                ||| from == Phase::StreamError && event == Event::StreamError(true)
                ||| finds_a_stall(state, event)
            }
        }),
{
}

/// When each effect is asked for, and when it is not.
pub proof fn effects_come_in_their_place(state: WorkerState, event: Event)
    requires
        state.wf(),
    ensures
        ({
            let (after, effects) = state.next(event);
            let backend = state.phase == Phase::StreamError && event == Event::StreamError(true);
            let stall = finds_a_stall(state, event);
            let starts = listens(state) && event is Command && event->Command_0 is Start;
            &&& effects.begin is Some <==> starts
            &&& effects.drop_ready == (state.awaiting_ready && (starts || !after.awaiting_ready))
            &&& effects.request_pause == (state.phase == Phase::StopOverrun && event is Overrun)
            &&& effects.silence == (listens(state) && event == Event::Command(Cmd::Shutdown))
            &&& effects.raise_stream_error == (stall || state.phase == Phase::PauseRead && event
                == Event::Acknowledged(false))
            &&& effects.failure is Some <==> (backend || stall) && state.recording
                && !state.awaiting_ready
            &&& effects.failure matches Some(failure) ==> {
                &&& Some(failure.generation) == state.capture_generation
                &&& failure.cause is BackendError <==> backend
            }
            &&& effects.reply == (state.phase is FinishFrames && event == Event::Finished)
            &&& effects.resume == (state.phase == (Phase::FinishFrames { timed_out: false })
                && event == Event::Finished)
        }),
{
}

/// A start sets the detector to the tail of its policy, where there is a detector and the policy
/// asks it.
pub proof fn a_start_sets_the_detector(state: WorkerState, policy: VadPolicy, generation: u64)
    requires
        listens(state),
    ensures
        ({
            let cmd = Cmd::Start { policy, generation };
            let hangover = state.next(Event::Command(cmd)).1.begin->0.hangover;
            &&& state.vad is None || policy == VadPolicy::Disabled ==> hangover is None
            &&& state.vad is Some && policy == VadPolicy::Streaming ==> hangover == Some(
                state.vad->0.streaming_hangover_frames,
            )
            &&& state.vad is Some && policy == VadPolicy::Offline ==> hangover == Some(
                state.vad->0.offline_hangover_frames,
            )
        }),
{
}

/// Samples belong to a recording from its start until they are handed over.
pub proof fn when_samples_belong_to_a_recording(state: WorkerState)
    ensures
        state.captures() <==> {
            ||| state.recording
            ||| state.phase == Phase::PauseWait
            ||| state.phase == Phase::PauseDrain
            ||| state.phase == Phase::PauseRead
            ||| state.phase is FinalDrain
            ||| state.phase is FinishFrames
        },
{
}

/// What is handed over is seen whole.
pub proof fn a_hand_over_is_seen_whole(samples: Vec<u32>)
    ensures
        samples_of(Some(samples)) == Some(samples@),
        samples_of(None) is None,
{
}

} // verus!
