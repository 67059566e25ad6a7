//! What the real-time callback and the worker tell each other.

use vstd::prelude::*;

verus! {

/// The flags and counters that the callback and the worker share, as one of them reads them.
#[derive(Clone, Copy, Debug, PartialEq, Eq, Structural)]
pub struct CaptureTransportState {
    /// The worker asks the callback to write nothing more.
    pub pause_requested: bool,
    /// The callback has seen the request and has no write under way.
    pub pause_acknowledged: bool,
    /// Counts the callbacks, and wraps around.
    pub callback_heartbeat: u64,
    /// Frames that found no room in the ring since the worker last took the count.
    pub overrun_samples: u64,
}

impl Default for CaptureTransportState {
    fn default() -> (state: Self)
        ensures
            state == Self::fresh(),
    {
        CaptureTransportState {
            pause_requested: false,
            pause_acknowledged: false,
            callback_heartbeat: 0,
            overrun_samples: 0,
        }
    }
}

impl CaptureTransportState {
    /// The state before the first callback and the first command.
    pub open spec fn fresh() -> Self {
        CaptureTransportState {
            pause_requested: false,
            pause_acknowledged: false,
            callback_heartbeat: 0,
            overrun_samples: 0,
        }
    }

    /// After a callback has been counted.
    pub open spec fn counted(self) -> Self {
        CaptureTransportState {
            callback_heartbeat: self.callback_heartbeat.wrapping_add(1),
            ..self
        }
    }

    /// After the callback has looked for a request with no write under way.
    pub open spec fn acknowledged_if_requested(self) -> Self {
        CaptureTransportState {
            pause_acknowledged: self.pause_acknowledged || self.pause_requested,
            ..self
        }
    }

    /// After `frames` more frames found no room.
    pub open spec fn overrun_by(self, frames: u64) -> Self {
        CaptureTransportState {
            overrun_samples: self.overrun_samples.wrapping_add(frames),
            ..self
        }
    }

    /// After a callback that found no request, lost `frames` frames, and then found what
    /// `requested` says.
    pub open spec fn written_through(self, frames: u64, requested: bool) -> Self {
        CaptureTransportState {
            pause_requested: requested,
            ..self.counted().overrun_by(frames)
        }.acknowledged_if_requested()
    }

    /// After the worker has withdrawn the last acknowledgement and asked for a pause.
    pub open spec fn pausing(self) -> Self {
        CaptureTransportState { pause_requested: true, pause_acknowledged: false, ..self }
    }

    /// After the worker has let the callback write again.
    pub open spec fn resumed(self) -> Self {
        CaptureTransportState { pause_requested: false, pause_acknowledged: false, ..self }
    }

    /// Asks the callback to pause. An acknowledgement of an earlier request does not count.
    pub fn request_pause(&mut self)
        ensures
            *final(self) == old(self).pausing(),
    {
        self.pause_acknowledged = false;
        self.pause_requested = true;
    }

    /// Lets the callback write again.
    pub fn resume(&mut self)
        ensures
            *final(self) == old(self).resumed(),
    {
        self.pause_acknowledged = false;
        self.pause_requested = false;
    }

    /// Takes the count of frames that found no room, and starts it anew.
    pub fn take_overrun(&mut self) -> (frames: u64)
        ensures
            frames == old(self).overrun_samples,
            *final(self) == (CaptureTransportState { overrun_samples: 0, ..*old(self) }),
    {
        let frames: u64 = self.overrun_samples;
        self.overrun_samples = 0;
        frames
    }
}

/// All that a callback does to what it shares is to count itself and the lost frames, and to
/// acknowledge a request that it found: it makes no request, and takes no acknowledgement back.
pub proof fn a_callback_only_counts_and_acknowledges(
    before: CaptureTransportState,
    frames: u64,
    requested: bool,
)
    ensures
        before.pause_requested ==> before.counted().acknowledged_if_requested() == (
        CaptureTransportState {
            callback_heartbeat: before.callback_heartbeat.wrapping_add(1),
            pause_acknowledged: true,
            ..before
        }),
        before.written_through(frames, requested) == (CaptureTransportState {
            callback_heartbeat: before.callback_heartbeat.wrapping_add(1),
            overrun_samples: before.overrun_samples.wrapping_add(frames),
            pause_acknowledged: before.pause_acknowledged || requested,
            pause_requested: requested,
        }),
{
}

/// Acknowledges a pause that was requested while the callback wrote: what it wrote is in the
/// ring by now, ahead of the worker's last drain.
pub fn acknowledge_pause_after_write(transport: &mut CaptureTransportState)
    ensures
        *final(transport) == old(transport).acknowledged_if_requested(),
{
    if transport.pause_requested {
        transport.pause_acknowledged = true;
    }
}

/// Asking for a pause leaves a request without an acknowledgement, and letting go of it leaves
/// neither; the counts are not touched. At first there is nothing.
pub proof fn a_pause_is_asked_for_and_let_go_of(before: CaptureTransportState)
    ensures
        ({
            let asked = before.pausing();
            &&& asked.pause_requested && !asked.pause_acknowledged
            &&& asked.callback_heartbeat == before.callback_heartbeat
            &&& asked.overrun_samples == before.overrun_samples
        }),
        ({
            let free = before.resumed();
            &&& !free.pause_requested && !free.pause_acknowledged
            &&& free.callback_heartbeat == before.callback_heartbeat
            &&& free.overrun_samples == before.overrun_samples
        }),
        ({
            let first = CaptureTransportState::fresh();
            &&& !first.pause_requested && !first.pause_acknowledged
            &&& first.callback_heartbeat == 0 && first.overrun_samples == 0
        }),
{
}

/// A look for a request acknowledges exactly if there is one or an acknowledgement stands, and
/// changes nothing else.
pub proof fn a_look_acknowledges_exactly_a_request(before: CaptureTransportState)
    ensures
        ({
            let after = before.acknowledged_if_requested();
            &&& after.pause_acknowledged <==> before.pause_acknowledged || before.pause_requested
            &&& after.pause_requested == before.pause_requested
            &&& after.callback_heartbeat == before.callback_heartbeat
            &&& after.overrun_samples == before.overrun_samples
        }),
{
}

} // verus!
