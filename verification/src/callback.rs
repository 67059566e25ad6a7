//! The body of the real-time input callback.

use vstd::prelude::*;
use vstd::slice::slice_subrange;

use rtrb::Producer;

use crate::recorder::AudioRecorder;
use crate::ring::{look_for_free_slots, write_chunk};
use crate::transport::{acknowledge_pause_after_write, CaptureTransportState};
#[allow(unused_imports)]
use crate::ring::{capacity_of, known_free, producer_ring, written};

verus! {

/// `sample` is the one that the ring holds for a frame of `data`: the frame's only sample, the
/// one of the selected channel, or the average over all channels.
pub open spec fn stands_for_frame<T, C: Fn(T) -> u32, A: Fn(&[T]) -> u32>(
    data: Seq<T>,
    channels: int,
    use_channel: Option<usize>,
    to_sample: C,
    average: A,
    frame: int,
    sample: u32,
) -> bool {
    if channels == 1 {
        call_ensures(to_sample, (data[frame],), sample)
    } else {
        match use_channel {
            Some(channel) => call_ensures(to_sample, (data[frame * channels + channel],), sample),
            None => exists|samples: &[T]|
                samples@ == data.subrange(frame * channels, (frame + 1) * channels)
                    && #[trigger] call_ensures(average, (samples,), sample),
        }
    }
}

/// Every input sample can be converted.
pub open spec fn converts_all<T, C: Fn(T) -> u32>(to_sample: C) -> bool {
    forall|sample: T| call_requires(to_sample, (sample,))
}

/// Every frame of so many channels can be mixed.
pub open spec fn averages_all<T, A: Fn(&[T]) -> u32>(average: A, channels: int) -> bool {
    forall|samples: &[T]| samples@.len() == channels ==> call_requires(average, (samples,))
}

/// The request can be looked for, whatever is in the ring.
pub open spec fn looks_always<P: FnOnce(&Producer<u32>) -> bool>(pause_requested_now: P) -> bool {
    forall|producer: &Producer<u32>| call_requires(pause_requested_now, (producer,))
}

/// The samples of the frame are all there.
spec fn frame_lies_within(len: int, channels: int, frame: int) -> bool {
    &&& 0 <= frame * channels
    &&& (frame + 1) * channels == frame * channels + channels
    &&& frame * channels + channels <= len
}

proof fn frame_bounds(len: int, channels: int, frame: int)
    by (nonlinear_arith)
    requires
        channels > 0,
        0 <= frame < len / channels,
    ensures
        0 <= frame * channels,
        (frame + 1) * channels == frame * channels + channels,
        frame * channels + channels <= len,
{
}

impl AudioRecorder {
    /// Takes one buffer of interleaved input: counts the callback, and unless a pause is
    /// requested writes one sample per frame to the ring, counts the frames that find no room,
    /// and looks for a pause request once more.
    ///
    /// `to_sample` converts an input sample, `average` mixes a whole frame, and
    /// `pause_requested_now` reads the worker's request; it is given the producer as the write has
    /// left it, so that the look cannot come before the write.
    pub fn write_input_to_ring<
        T: Copy,
        C: Fn(T) -> u32,
        A: Fn(&[T]) -> u32,
        P: FnOnce(&Producer<u32>) -> bool,
    >(
        data: &[T],
        channels: usize,
        use_channel: Option<usize>,
        to_sample: C,
        average: A,
        producer: &mut Producer<u32>,
        transport: &mut CaptureTransportState,
        pause_requested_now: P,
    )
        requires
            !old(transport).pause_requested ==> {
                &&& channels > 0
                &&& channels > 1 && data@.len() >= channels ==> (use_channel matches Some(channel)
                    ==> channel < channels)
                &&& converts_all(to_sample)
                &&& averages_all(average, channels as int)
                &&& looks_always(pause_requested_now)
            },
        ensures
            old(transport).pause_requested ==> {
                &&& *final(producer) == *old(producer)
                &&& *final(transport) == old(transport).counted().acknowledged_if_requested()
            },
            !old(transport).pause_requested ==> {
                let before = written(*old(producer));
                let after = written(*final(producer));
                let frames = data@.len() as int / channels as int;
                let kept = after.len() - before.len();
                &&& producer_ring(*final(producer)) == producer_ring(*old(producer))
                &&& capacity_of(*final(producer)) == capacity_of(*old(producer))
                &&& 0 <= kept <= frames
                &&& kept < frames ==> known_free(*final(producer)) == 0
                &&& known_free(*old(producer)) <= known_free(*final(producer)) + kept
                    <= capacity_of(*old(producer))
                &&& after.take(before.len() as int) == before
                &&& forall|frame: int|
                    0 <= frame < kept ==> stands_for_frame(
                        data@,
                        channels as int,
                        use_channel,
                        to_sample,
                        average,
                        frame,
                        #[trigger] after[before.len() + frame],
                    )
                &&& channels == 1 ==> forall|frame: int|
                    0 <= frame < kept ==> call_ensures(
                        to_sample,
                        (data@[frame],),
                        #[trigger] after[before.len() + frame],
                    )
                &&& channels > 1 && use_channel is Some ==> forall|frame: int|
                    0 <= frame < kept ==> call_ensures(
                        to_sample,
                        (data@[frame * channels + use_channel->0],),
                        #[trigger] after[before.len() + frame],
                    )
                &&& exists|requested: bool|
                    {
                        &&& #[trigger] call_ensures(
                            pause_requested_now,
                            (&*final(producer),),
                            requested,
                        )
                        &&& *final(transport) == old(transport).written_through(
                            (frames - kept) as u64,
                            requested,
                        )
                    }
            },
    {
        transport.callback_heartbeat = transport.callback_heartbeat.wrapping_add(1);
        if transport.pause_requested {
            transport.pause_acknowledged = true;
            return;
        }
        let frame_count: usize = data.len() / channels;
        let free: usize = look_for_free_slots(producer);
        let writable: usize = if free < frame_count {
            free
        } else {
            frame_count
        };
        proof {
            assert forall|frame: int| 0 <= frame < writable implies frame_lies_within(
                data@.len() as int,
                channels as int,
                frame,
            ) by {
                frame_bounds(data@.len() as int, channels as int, frame);
            }
            assert(writable > 0 ==> frame_lies_within(data@.len() as int, channels as int, 0));
        }
        if channels == 1 {
            write_chunk(
                producer,
                writable,
                |frame: usize| -> (sample: u32)
                    requires
                        frame_lies_within(data@.len() as int, channels as int, frame as int),
                        channels == 1,
                        converts_all(to_sample),
                    ensures
                        stands_for_frame(
                            data@,
                            channels as int,
                            use_channel,
                            to_sample,
                            average,
                            frame as int,
                            sample,
                        )
                    { to_sample(data[frame]) },
            );
        } else if let Some(channel) = use_channel {
            write_chunk(
                producer,
                writable,
                |frame: usize| -> (sample: u32)
                    requires
                        frame_lies_within(data@.len() as int, channels as int, frame as int),
                        channels > channel,
                        channels > 1,
                        use_channel == Some(channel),
                        converts_all(to_sample),
                    ensures
                        stands_for_frame(
                            data@,
                            channels as int,
                            use_channel,
                            to_sample,
                            average,
                            frame as int,
                            sample,
                        )
                    { to_sample(data[frame * channels + channel]) },
            );
        } else {
            write_chunk(
                producer,
                writable,
                |frame: usize| -> (sample: u32)
                    requires
                        frame_lies_within(data@.len() as int, channels as int, frame as int),
                        channels > 1,
                        use_channel is None,
                        averages_all(average, channels as int),
                    ensures
                        stands_for_frame(
                            data@,
                            channels as int,
                            use_channel,
                            to_sample,
                            average,
                            frame as int,
                            sample,
                        )
                    {
                        let start: usize = frame * channels;
                        average(slice_subrange(data, start, start + channels))
                    },
            );
        }
        let dropped: usize = frame_count - writable;
        if dropped > 0 {
            transport.overrun_samples = transport.overrun_samples.wrapping_add(dropped as u64);
        }
        transport.pause_requested = pause_requested_now(&*producer);
        acknowledge_pause_after_write(transport);
    }
}

/// With one channel the ring holds the conversion of each input sample, whatever is selected.
pub proof fn a_single_channel_is_taken_as_it_is<T, C: Fn(T) -> u32, A: Fn(&[T]) -> u32>(
    data: Seq<T>,
    use_channel: Option<usize>,
    to_sample: C,
    average: A,
    frame: int,
    sample: u32,
)
    ensures
        stands_for_frame(data, 1, use_channel, to_sample, average, frame, sample) <==> call_ensures(
            to_sample,
            (data[frame],),
            sample,
        ),
{
}

/// With a channel selected the ring holds the conversion of that channel's sample of each frame.
/// The samples of the other channels have no influence: input that differs only there is written
/// alike.
pub proof fn only_the_selected_channel_is_heard<T, C: Fn(T) -> u32, A: Fn(&[T]) -> u32>(
    data: Seq<T>,
    other: Seq<T>,
    channels: int,
    channel: usize,
    to_sample: C,
    average: A,
    frame: int,
    sample: u32,
)
    requires
        channels > 1,
        channel < channels,
        forall|at: int|
            0 <= at < data.len() && at % channels == channel ==> #[trigger] data[at] == other[at],
        0 <= frame < data.len() as int / channels,
    ensures
        stands_for_frame(data, channels, Some(channel), to_sample, average, frame, sample)
            <==> call_ensures(to_sample, (data[frame * channels + channel],), sample),
        stands_for_frame(data, channels, Some(channel), to_sample, average, frame, sample)
            == stands_for_frame(other, channels, Some(channel), to_sample, average, frame, sample),
{
    frame_bounds(data.len() as int, channels, frame);
    let at = frame * channels + channel;
    vstd::arithmetic::div_mod::lemma_fundamental_div_mod_converse(
        at,
        channels,
        frame,
        channel as int,
    );
    assert(data[at] == other[at]);
}

/// Without a channel selected the ring holds the mix of each whole frame: of exactly the samples
/// of that frame, one per channel, in their order.
pub proof fn without_a_selection_whole_frames_are_mixed<T, C: Fn(T) -> u32, A: Fn(&[T]) -> u32>(
    data: Seq<T>,
    channels: int,
    to_sample: C,
    average: A,
    frame: int,
    samples: &[T],
    sample: u32,
)
    requires
        channels > 1,
        0 <= frame < data.len() as int / channels,
        samples@.len() == channels,
        forall|channel: int|
            0 <= channel < channels ==> #[trigger] samples@[channel] == data[frame * channels
                + channel],
        call_ensures(average, (samples,), sample),
    ensures
        stands_for_frame(data, channels, None, to_sample, average, frame, sample),
{
    frame_bounds(data.len() as int, channels, frame);
    assert(samples@ =~= data.subrange(frame * channels, (frame + 1) * channels));
}

/// A sample that stands for a frame, where no channel is selected, is a mix of exactly that
/// frame's samples.
pub proof fn a_mix_is_of_one_whole_frame<T, C: Fn(T) -> u32, A: Fn(&[T]) -> u32>(
    data: Seq<T>,
    channels: int,
    to_sample: C,
    average: A,
    frame: int,
    sample: u32,
)
    requires
        channels > 1,
        0 <= frame < data.len() as int / channels,
        stands_for_frame(data, channels, None, to_sample, average, frame, sample),
    ensures
        exists|samples: &[T]|
            {
                &&& #[trigger] call_ensures(average, (samples,), sample)
                &&& samples@.len() == channels
                &&& forall|channel: int|
                    0 <= channel < channels ==> samples@[channel] == #[trigger] data[frame
                        * channels + channel]
            },
{
    frame_bounds(data.len() as int, channels, frame);
    let samples = choose|samples: &[T]|
        samples@ == data.subrange(frame * channels, (frame + 1) * channels)
            && #[trigger] call_ensures(average, (samples,), sample);
    assert(call_ensures(average, (samples,), sample));
}

} // verus!
