//! Which 16 kHz frames of a recording are kept.

use vstd::prelude::*;
use vstd::slice::slice_to_vec;

verus! {

/// How 16 kHz mono frames are filtered for one recording.
#[derive(Clone, Copy, Debug, PartialEq, Eq, Structural)]
pub enum VadPolicy {
    /// Every frame is forwarded.
    Disabled,
    /// The detector is tuned for offline transcription.
    Offline,
    /// The detector keeps a longer tail after speech, for models that transcribe as audio comes.
    Streaming,
}

/// The tails that a detector keeps after speech, in frames of 30 ms. One detector serves both
/// policies, and is set anew for each recording.
#[derive(Clone, Copy, Debug, PartialEq, Eq, Structural)]
pub struct VadConfig {
    pub offline_hangover_frames: usize,
    pub streaming_hangover_frames: usize,
}

impl VadConfig {
    /// The tail for a policy. No detector is asked under `Disabled`, which gets the offline tail.
    pub fn hangover_for(&self, policy: VadPolicy) -> (frames: usize)
        ensures
            frames == self.hangover(policy),
    {
        match policy {
            VadPolicy::Streaming => self.streaming_hangover_frames,
            VadPolicy::Offline | VadPolicy::Disabled => self.offline_hangover_frames,
        }
    }

    /// The tail for a policy.
    pub open spec fn hangover(self, policy: VadPolicy) -> usize {
        if policy == VadPolicy::Streaming {
            self.streaming_hangover_frames
        } else {
            self.offline_hangover_frames
        }
    }
}

/// What a detector makes of a frame. Speech carries the samples to keep, which may hold earlier
/// frames too.
#[derive(Debug)]
pub enum VadFrame {
    Speech(Vec<u32>),
    Noise,
}

/// Samples that were kept, and the recording they belong to.
#[derive(Debug)]
pub struct EmittedFrame {
    pub generation: u64,
    pub samples: Vec<u32>,
}

/// The generation and the samples of a kept frame.
pub open spec fn emitted_view(emitted: Option<EmittedFrame>) -> Option<(u64, Seq<u32>)> {
    match emitted {
        Some(frame) => Some((frame.generation, frame.samples@)),
        None => None,
    }
}

/// What is kept of a frame. `vad` is the answer of the detector, where there is one: a detector
/// that fails keeps the frame.
pub open spec fn kept_frame(
    samples: Seq<u32>,
    recording: bool,
    capture_generation: Option<u64>,
    vad_policy: VadPolicy,
    vad: Option<Result<VadFrame, String>>,
) -> Option<(u64, Seq<u32>)> {
    match capture_generation {
        Some(generation) if recording => {
            if vad_policy == VadPolicy::Disabled {
                Some((generation, samples))
            } else {
                match vad {
                    Some(Ok(VadFrame::Speech(speech))) => Some((generation, speech@)),
                    Some(Ok(VadFrame::Noise)) => None,
                    Some(Err(_)) => Some((generation, samples)),
                    None => Some((generation, samples)),
                }
            }
        },
        _ => None,
    }
}

/// The buffer of a recording after one frame.
pub open spec fn with_kept(buffer: Seq<u32>, kept: Option<(u64, Seq<u32>)>) -> Seq<u32> {
    match kept {
        Some((_, samples)) => buffer + samples,
        None => buffer,
    }
}

/// A frame is put before the detector.
pub open spec fn detector_asked(
    recording: bool,
    capture_generation: Option<u64>,
    vad_policy: VadPolicy,
) -> bool {
    recording && capture_generation is Some && vad_policy != VadPolicy::Disabled
}

/// Whether a frame is put before the detector at all. The detector carries state from frame to
/// frame, so it must not see the others.
pub fn asks_detector(
    recording: bool,
    capture_generation: Option<u64>,
    vad_policy: VadPolicy,
) -> (asks: bool)
    ensures
        asks == detector_asked(recording, capture_generation, vad_policy),
{
    recording && capture_generation.is_some() && vad_policy != VadPolicy::Disabled
}

/// Keeps a frame, or not, and returns what was kept, for the live transcription.
pub fn handle_frame(
    samples: &[u32],
    recording: bool,
    capture_generation: Option<u64>,
    vad_policy: VadPolicy,
    vad: Option<Result<VadFrame, String>>,
    out_buf: &mut Vec<u32>,
) -> (emitted: Option<EmittedFrame>)
    ensures
        emitted_view(emitted) == kept_frame(
            samples@,
            recording,
            capture_generation,
            vad_policy,
            vad,
        ),
        final(out_buf)@ == with_kept(old(out_buf)@, emitted_view(emitted)),
{
    if !recording {
        return None;
    }
    let generation: u64 = match capture_generation {
        Some(generation) => generation,
        None => {
            return None;
        },
    };
    let kept: Vec<u32> = if vad_policy == VadPolicy::Disabled {
        slice_to_vec(samples)
    } else {
        match vad {
            Some(Ok(VadFrame::Speech(speech))) => speech,
            Some(Ok(VadFrame::Noise)) => {
                return None;
            },
            Some(Err(_)) => slice_to_vec(samples),
            None => slice_to_vec(samples),
        }
    };
    out_buf.extend_from_slice(kept.as_slice());
    assert(out_buf@ =~= old(out_buf)@ + kept@);
    Some(EmittedFrame { generation, samples: kept })
}

/// Within a recording whose policy asks the detector, a frame goes by the detector's answer, under
/// either of the two policies alike: speech is kept exactly as the detector gave it, under the
/// generation of the recording; noise, and only noise, leaves nothing; a detector that fails or is
/// not there keeps the frame as it is.
pub proof fn the_detector_decides_what_is_kept(
    samples: Seq<u32>,
    generation: u64,
    policy: VadPolicy,
    vad: Option<Result<VadFrame, String>>,
)
    requires
        policy == VadPolicy::Offline || policy == VadPolicy::Streaming,
    ensures
        ({
            let kept = kept_frame(samples, true, Some(generation), policy, vad);
            &&& kept is None <==> vad == Some(Ok::<VadFrame, String>(VadFrame::Noise))
            &&& kept matches Some((owner, audio)) ==> owner == generation && audio == match vad {
                Some(Ok(VadFrame::Speech(speech))) => speech@,
                _ => samples,
            }
        }),
        kept_frame(samples, true, Some(generation), VadPolicy::Offline, vad) == kept_frame(
            samples,
            true,
            Some(generation),
            VadPolicy::Streaming,
            vad,
        ),
{
}

/// Without a detecting policy a frame of a recording is kept whole, whatever a detector would say;
/// outside a recording no frame is kept.
pub proof fn without_detection_every_frame_of_a_recording_is_kept(
    samples: Seq<u32>,
    recording: bool,
    capture_generation: Option<u64>,
    policy: VadPolicy,
    vad: Option<Result<VadFrame, String>>,
)
    ensures
        ({
            let kept = kept_frame(samples, recording, capture_generation, policy, vad);
            &&& !recording || capture_generation is None ==> kept is None
            &&& recording && capture_generation is Some && policy == VadPolicy::Disabled ==> kept
                == Some((capture_generation->0, samples))
        }),
{
}

/// What is kept goes to the end of the recording, and nothing that is there already changes.
pub proof fn kept_samples_go_to_the_end(buffer: Seq<u32>, kept: Option<(u64, Seq<u32>)>)
    ensures
        ({
            let after = with_kept(buffer, kept);
            &&& buffer.is_prefix_of(after)
            &&& kept is None ==> after == buffer
            &&& kept matches Some((_, samples)) ==> after.skip(buffer.len() as int) == samples
        }),
{
    let after = with_kept(buffer, kept);
    assert(after.take(buffer.len() as int) =~= buffer);
    if let Some((_, samples)) = kept {
        assert(after.skip(buffer.len() as int) =~= samples);
    }
}

/// A frame is emitted as what was kept: under its generation, with its samples.
pub proof fn an_emitted_frame_is_seen_whole(frame: EmittedFrame)
    ensures
        emitted_view(Some(frame)) == Some((frame.generation, frame.samples@)),
        emitted_view(None) is None,
{
}

/// The longer tail is for streaming, and for nothing else.
pub proof fn each_policy_has_its_tail(config: VadConfig, policy: VadPolicy)
    ensures
        policy == VadPolicy::Streaming ==> config.hangover(policy)
            == config.streaming_hangover_frames,
        policy != VadPolicy::Streaming ==> config.hangover(policy)
            == config.offline_hangover_frames,
{
}

/// The detector is asked about exactly the frames whose fate depends on its answer.
pub proof fn the_detector_is_asked_where_it_matters(
    samples: Seq<u32>,
    recording: bool,
    capture_generation: Option<u64>,
    policy: VadPolicy,
    one: Option<Result<VadFrame, String>>,
    other: Option<Result<VadFrame, String>>,
)
    ensures
        !detector_asked(recording, capture_generation, policy) ==> kept_frame(
            samples,
            recording,
            capture_generation,
            policy,
            one,
        ) == kept_frame(samples, recording, capture_generation, policy, other),
        detector_asked(recording, capture_generation, policy) ==> kept_frame(
            samples,
            recording,
            capture_generation,
            policy,
            Some(Ok(VadFrame::Noise)),
        ) != kept_frame(samples, recording, capture_generation, policy, None),
{
}

} // verus!
