//! The pause that a stop asks of the callback, under every order in which the two can act.
//!
//! The callback and the worker act in turns of any length. Each look at a mark that they share is
//! an act of its own, and so is each mark that is set and each write to the ring.

use vstd::prelude::*;

#[allow(unused_imports)]
use crate::transport::CaptureTransportState;
#[allow(unused_imports)]
use crate::worker::{Cmd, Effects, Event, Phase, WorkerState};
#[allow(unused_imports)]
use crate::worker_laws::{Input, Model};

verus! {

/// Where the callback is.
pub ghost enum Callback {
    /// It is not running.
    Away,
    /// It has found no request and may write.
    Writing,
    /// It has found a request, and has yet to acknowledge it.
    Acknowledging,
}

/// A mark that the worker sets.
pub ghost enum Mark {
    /// The last acknowledgement no longer counts.
    Withdraw,
    /// The callback is to pause.
    Request,
    /// The callback may write again.
    Release,
}

/// The marks that effects set, in order.
pub open spec fn marks(effects: Effects) -> Seq<Mark> {
    if effects.request_pause {
        seq![Mark::Withdraw, Mark::Request]
    } else if effects.resume {
        seq![Mark::Withdraw, Mark::Release]
    } else if effects.silence {
        seq![Mark::Request]
    } else {
        Seq::empty()
    }
}

/// What is shared, after a mark.
pub open spec fn marked(transport: CaptureTransportState, mark: Mark) -> CaptureTransportState {
    match mark {
        Mark::Withdraw => CaptureTransportState { pause_acknowledged: false, ..transport },
        Mark::Request => CaptureTransportState { pause_requested: true, ..transport },
        Mark::Release => CaptureTransportState { pause_requested: false, ..transport },
    }
}

/// A running stream: what callback and worker share, and where each of them is.
pub ghost struct Line {
    pub transport: CaptureTransportState,
    pub worker: WorkerState,
    /// The marks that the worker has yet to set before it goes on.
    pub unset: Seq<Mark>,
    pub callback: Callback,
    /// Every sample that was written to the ring.
    pub written: Seq<u32>,
    /// The number of them that the worker has drained; the ring keeps their order.
    pub drained: int,
    /// The samples that were drained for the recording under way, in order.
    pub recorded: Seq<u32>,
}

/// One act of the callback or the worker.
pub ghost enum Act {
    /// The callback is called, and looks for a request.
    Enter,
    /// The callback writes to the ring.
    Write(Seq<u32>),
    /// The callback has written, and looks for a request once more.
    Leave,
    /// The callback acknowledges the request that it found.
    Acknowledge,
    /// The worker learns what it needs and decides.
    Work(Event),
    /// The worker sets its next mark.
    SetMark,
}

impl Line {
    /// A stream that has just begun to run.
    pub open spec fn fresh(self) -> bool {
        &&& self.transport == CaptureTransportState::fresh()
        &&& self.worker.phase == Phase::Receive
        &&& self.unset.len() == 0
        &&& self.callback is Away
        &&& 0 <= self.drained <= self.written.len()
    }

    /// What the worker is told is so: an acknowledgement is read from what is shared, and a drain
    /// takes all that waits.
    pub open spec fn truthful(self, event: Event) -> bool {
        match event {
            Event::Pause { acknowledged, .. } => acknowledged == self.transport.pause_acknowledged,
            Event::Acknowledged(acknowledged) => acknowledged == self.transport.pause_acknowledged,
            Event::Drained(count) => count == self.written.len() - self.drained,
            _ => true,
        }
    }

    /// The recording that a run of samples which is drained now is for, as the worker tells it.
    pub open spec fn run_for(self) -> Option<u64> {
        Model { state: self.worker, samples: Seq::empty() }.after(Input::Chunk).1.run_for
    }

    /// The act can come next.
    pub open spec fn allows(self, act: Act) -> bool {
        match act {
            Act::Enter => self.callback is Away,
            Act::Write(_) => self.callback is Writing,
            Act::Leave => self.callback is Writing,
            Act::Acknowledge => self.callback is Acknowledging,
            Act::Work(event) => self.unset.len() == 0 && self.truthful(event),
            Act::SetMark => self.unset.len() > 0,
        }
    }

    /// After an act.
    pub open spec fn after(self, act: Act) -> Self {
        match act {
            Act::Enter => Line {
                transport: self.transport.counted(),
                callback: if self.transport.pause_requested {
                    Callback::Acknowledging
                } else {
                    Callback::Writing
                },
                ..self
            },
            Act::Write(samples) => Line { written: self.written + samples, ..self },
            Act::Leave => Line {
                callback: if self.transport.pause_requested {
                    Callback::Acknowledging
                } else {
                    Callback::Away
                },
                ..self
            },
            Act::Acknowledge => Line {
                transport: CaptureTransportState { pause_acknowledged: true, ..self.transport },
                callback: Callback::Away,
                ..self
            },
            Act::Work(event) => {
                let (worker, effects) = self.worker.next(event);
                Line {
                    recorded: if effects.begin is Some {
                        Seq::empty()
                    } else if event is Drained && self.run_for() is Some {
                        self.recorded + self.written.skip(self.drained)
                    } else {
                        self.recorded
                    },
                    worker,
                    unset: marks(effects),
                    drained: if event is Drained {
                        self.written.len() as int
                    } else {
                        self.drained
                    },
                    ..self
                }
            },
            Act::SetMark => Line {
                transport: marked(self.transport, self.unset[0]),
                unset: self.unset.skip(1),
                ..self
            },
        }
    }

    /// After several acts.
    pub open spec fn run(self, acts: Seq<Act>) -> Self
        decreases acts.len(),
    {
        if acts.len() == 0 {
            self
        } else {
            self.run(acts.drop_last()).after(acts.last())
        }
    }

    /// Every act of a course can come when it does.
    pub open spec fn possible(self, acts: Seq<Act>) -> bool
        decreases acts.len(),
    {
        acts.len() == 0 || self.possible(acts.drop_last()) && self.run(acts.drop_last()).allows(
            acts.last(),
        )
    }

    /// The callback was caught up on: it had found the request of an earlier pause and was held
    /// up before it acknowledged it, until a later stop had withdrawn that acknowledgement; then
    /// it gave it after all, returned and was called again to write, before the later stop has
    /// made its own request. That acknowledgement speaks of no write that is now under way.
    pub open spec fn overtaken(self) -> bool {
        &&& self.worker.pausing()
        &&& self.unset == seq![Mark::Request]
        &&& self.transport.pause_acknowledged
        &&& self.callback is Writing
    }

    /// In no place of a course does the worker make a request while the callback is caught up on.
    pub open spec fn never_overtaken(self, acts: Seq<Act>) -> bool
        decreases acts.len(),
    {
        acts.len() == 0 || self.never_overtaken(acts.drop_last()) && !(acts.last() is SetMark
            && self.run(acts.drop_last()).overtaken())
    }

    /// After `before`, nothing in `course` begins a recording or hands one over.
    pub open spec fn undisturbed(self, before: Seq<Act>, course: Seq<Act>) -> bool
        decreases course.len(),
    {
        course.len() == 0 || self.undisturbed(before, course.drop_last()) && (course.last() matches
            Act::Work(event) ==> {
            let effects = self.run(before + course.drop_last()).worker.next(event).1;
            effects.begin is None && !effects.reply
        })
    }

    /// The worker has seen the acknowledgement of its request.
    pub open spec fn paused(self) -> bool {
        self.worker.phase == (Phase::FinalDrain { timed_out: false }) || self.worker.phase == (
        Phase::FinishFrames { timed_out: false })
    }

    /// The marks that can be left to set.
    spec fn marks_in_order(self) -> bool {
        if self.worker.pausing() {
            self.unset.len() == 0 || self.worker.phase == Phase::PauseWait && (self.unset == seq![
                Mark::Withdraw,
                Mark::Request,
            ] || self.unset == seq![Mark::Request])
        } else {
            self.unset.len() == 0 || self.worker.phase == Phase::Ended || self.unset == seq![
                Mark::Withdraw,
                Mark::Release,
            ] || self.unset == seq![Mark::Release]
        }
    }

    /// What holds at all times.
    pub closed spec fn sound(self) -> bool {
        &&& 0 <= self.drained <= self.written.len()
        &&& self.marks_in_order()
        &&& self.worker.pausing() && self.unset.len() == 0 ==> {
            &&& self.transport.pause_requested
            &&& self.transport.pause_acknowledged ==> !(self.callback is Writing)
        }
        &&& self.paused() ==> self.transport.pause_acknowledged
        &&& self.worker.phase == (Phase::FinishFrames { timed_out: false }) ==> self.drained
            == self.written.len()
    }
}

/// Setting the marks of a pause, with nothing in between, asks for it; setting those of its end
/// ends it.
pub proof fn marks_amount_to_a_pause_and_its_end(transport: CaptureTransportState)
    ensures
        marked(marked(transport, Mark::Withdraw), Mark::Request) == transport.pausing(),
        marked(marked(transport, Mark::Withdraw), Mark::Release) == transport.resumed(),
{
}

/// One act keeps a sound stream sound.
proof fn an_act_keeps_soundness(line: Line, act: Act)
    requires
        line.sound(),
        line.allows(act),
        !(act is SetMark && line.overtaken()),
    ensures
        line.after(act).sound(),
{
    if act is SetMark {
        assert(line.unset.skip(1).len() == line.unset.len() - 1);
        if line.unset.len() == 2 {
            assert(line.unset.skip(1) =~= seq![line.unset[1]]);
        }
    }
}

/// However callback and worker take turns, the stream stays sound.
proof fn every_course_is_sound(line: Line, acts: Seq<Act>)
    requires
        line.fresh(),
        line.possible(acts),
        line.never_overtaken(acts),
    ensures
        line.run(acts).sound(),
    decreases acts.len(),
{
    if acts.len() > 0 {
        every_course_is_sound(line, acts.drop_last());
        an_act_keeps_soundness(line.run(acts.drop_last()), acts.last());
    }
}

/// A stop whose pause was acknowledged hands over its samples only when everything that the
/// callback ever wrote has been drained, and no write is under way.
pub proof fn a_stop_drains_every_sample_before_it_replies(line: Line, acts: Seq<Act>, event: Event)
    requires
        line.fresh(),
        line.possible(acts),
        line.never_overtaken(acts),
        line.run(acts).allows(Act::Work(event)),
        line.run(acts).worker.next(event).1.reply,
        line.run(acts).worker.next(event).1.resume,
    ensures
        line.run(acts).drained == line.run(acts).written.len(),
        !(line.run(acts).callback is Writing),
{
    every_course_is_sound(line, acts);
}

/// Once the worker has seen the acknowledgement, the callback adds nothing to the ring until it
/// is let on: no write is under way, and a callback that comes begins none.
pub proof fn nothing_is_written_behind_an_acknowledged_pause(line: Line, acts: Seq<Act>, act: Act)
    requires
        line.fresh(),
        line.possible(acts),
        line.never_overtaken(acts),
        line.run(acts).allows(act),
        line.run(acts).paused(),
    ensures
        !(line.run(acts).callback is Writing),
        !(line.run(acts).after(act).callback is Writing),
        line.run(acts).after(act).written == line.run(acts).written,
{
    every_course_is_sound(line, acts);
}

/// A stop is not completed by what an earlier one left behind: it withdraws any acknowledgement
/// before it makes its request, and after that only an act of the callback can give one.
pub proof fn no_stale_acknowledgement_completes_a_stop(line: Line, act: Act)
    requires
        line.allows(act),
    ensures
        (act matches Act::Work(event) && line.worker.next(event).1.request_pause) ==> line.after(
            act,
        ).unset == seq![Mark::Withdraw, Mark::Request],
        act is SetMark && line.unset[0] is Withdraw ==> !line.after(act).transport.pause_acknowledged,
        line.after(act).transport.pause_acknowledged && !line.transport.pause_acknowledged
            ==> act is Acknowledge,
{
}

/// A stop whose pause was acknowledged hands over a recording that every sample went into which
/// the callback wrote since the start, and which was still in the ring at the start: none is
/// lost, doubled or out of order, whenever the stop came and whatever was in the ring by then.
pub proof fn a_recording_takes_every_sample_since_its_start(
    line: Line,
    before: Seq<Act>,
    cmd: Cmd,
    course: Seq<Act>,
    event: Event,
)
    requires
        line.fresh(),
        before.len() > 0,
        before.last() == Act::Work(Event::Command(cmd)),
        cmd is Start,
        line.run(before.drop_last()).worker.phase == Phase::Receive || line.run(
            before.drop_last(),
        ).worker.phase == Phase::Poll,
        line.possible(before + course),
        line.never_overtaken(before + course),
        line.undisturbed(before, course),
        line.run(before + course).allows(Act::Work(event)),
        line.run(before + course).worker.next(event).1.reply,
        line.run(before + course).worker.next(event).1.resume,
    ensures
        line.run(before + course).recorded == line.run(before + course).written.skip(
            line.run(before).drained,
        ),
{
    drained_samples_are_recorded(line, before, cmd, course);
    every_course_is_sound(line, before + course);
    let end = line.run(before + course);
    assert(end.written.subrange(line.run(before).drained, end.drained) =~= end.written.skip(
        line.run(before).drained,
    ));
}

/// What was drained since the start is what was recorded.
proof fn drained_samples_are_recorded(line: Line, before: Seq<Act>, cmd: Cmd, course: Seq<Act>)
    requires
        line.fresh(),
        before.len() > 0,
        before.last() == Act::Work(Event::Command(cmd)),
        cmd is Start,
        line.run(before.drop_last()).worker.phase == Phase::Receive || line.run(
            before.drop_last(),
        ).worker.phase == Phase::Poll,
        line.possible(before + course),
        line.never_overtaken(before + course),
        line.undisturbed(before, course),
    ensures
        ({
            let start = line.run(before).drained;
            let end = line.run(before + course);
            &&& 0 <= start <= end.drained <= end.written.len()
            &&& end.recorded == end.written.subrange(start, end.drained)
            &&& end.worker.capture_generation is Some
            &&& end.worker.recording || end.worker.pausing()
        }),
    decreases course.len(),
{
    let start = line.run(before).drained;
    every_course_is_sound(line, before + course);
    let end = line.run(before + course);
    if course.len() == 0 {
        assert(before + course =~= before);
        assert(end.recorded =~= end.written.subrange(start, end.drained));
    } else {
        assert((before + course).drop_last() =~= before + course.drop_last());
        assert((before + course).last() == course.last());
        drained_samples_are_recorded(line, before, cmd, course.drop_last());
        let earlier = line.run(before + course.drop_last());
        assert(earlier.run_for() is Some);
        assert(end == earlier.after(course.last()));
        assert(end.recorded =~= end.written.subrange(start, end.drained));
    }
}

} // verus!
