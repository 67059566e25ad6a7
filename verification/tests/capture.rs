use audio_capture::recorder::AudioRecorder;
use audio_capture::reports::{
    observe_recording_overrun, report_capture_failure, CaptureFailure, FailureCause,
    OverrunWarning,
};
use audio_capture::ring::{
    drain_all_samples, drain_available_samples, new_audio_ring, release_samples,
};
use audio_capture::timing;
use audio_capture::transport::{acknowledge_pause_after_write, CaptureTransportState};
use audio_capture::vad::{asks_detector, handle_frame, VadConfig, VadFrame, VadPolicy};
use audio_capture::worker::{CaptureWorker, Cmd, Effects, Event, Phase};
use rtrb::{Consumer, Producer, RingBuffer};

const FRAME: usize = 480;

fn write(
    data: &[f32],
    channels: usize,
    use_channel: Option<usize>,
    producer: &mut Producer<u32>,
    transport: &mut CaptureTransportState,
) {
    write_with(data, channels, use_channel, producer, transport, false)
}

fn write_with(
    data: &[f32],
    channels: usize,
    use_channel: Option<usize>,
    producer: &mut Producer<u32>,
    transport: &mut CaptureTransportState,
    requested_after: bool,
) {
    AudioRecorder::write_input_to_ring(
        data,
        channels,
        use_channel,
        |sample: f32| sample.to_bits(),
        |frame: &[f32]| (frame.iter().sum::<f32>() / frame.len() as f32).to_bits(),
        producer,
        transport,
        |_: &Producer<u32>| requested_after,
    )
}

fn pop(consumer: &mut Consumer<u32>, count: usize) -> Vec<f32> {
    let mut bits = vec![0u32; count];
    consumer.pop_entire_slice(&mut bits).expect("samples");
    bits.into_iter().map(f32::from_bits).collect()
}

fn floats(bits: &[u32]) -> Vec<f32> {
    bits.iter().map(|sample| f32::from_bits(*sample)).collect()
}

/// A worker with everything around it, driven by hand.
struct Stream {
    worker: CaptureWorker,
    transport: CaptureTransportState,
    producer: Producer<u32>,
    consumer: Consumer<u32>,
    frame: Vec<u32>,
    stream_error: bool,
    ready: usize,
    dropped_ready: usize,
    warnings: Vec<(u64, u64)>,
    failures: Vec<CaptureFailure>,
    hangovers: Vec<Option<usize>>,
    live: Vec<(u64, Vec<u32>)>,
    replies: Vec<Vec<u32>>,
}

impl Stream {
    fn new(capacity: usize, vad: Option<VadConfig>) -> Self {
        let (producer, consumer) = RingBuffer::<u32>::new(capacity);
        Stream {
            worker: CaptureWorker::new(vad, 0),
            transport: CaptureTransportState::default(),
            producer,
            consumer,
            frame: Vec::new(),
            stream_error: false,
            ready: 0,
            dropped_ready: 0,
            warnings: Vec::new(),
            failures: Vec::new(),
            hangovers: Vec::new(),
            live: Vec::new(),
            replies: Vec::new(),
        }
    }

    fn callback(&mut self, data: &[f32]) {
        let requested = self.transport.pause_requested;
        write_with(data, 1, None, &mut self.producer, &mut self.transport, requested)
    }

    fn emit(&mut self, frame: Vec<u32>) {
        if let Some(emitted) = self.worker.add_frame(&frame, None) {
            self.live.push((emitted.generation, emitted.samples));
        }
    }

    fn drain(&mut self) -> usize {
        let runs = drain_available_samples(&mut self.consumer);
        let mut count = 0;
        for run in runs {
            count += run.len();
            if self.worker.process_raw_chunk().is_some() {
                for sample in run {
                    self.frame.push(sample);
                    if self.frame.len() == FRAME {
                        let frame = std::mem::take(&mut self.frame);
                        self.emit(frame);
                    }
                }
                if self.worker.chunk_captured() {
                    self.ready += 1;
                }
            }
        }
        assert!(release_samples(&mut self.consumer, count));
        count
    }

    fn step(&mut self, event: Event) -> Effects {
        let (effects, reply) = self.worker.step(event);
        if let Some(warning) = effects.warning {
            self.warnings.push((warning.generation, warning.dropped_samples));
        }
        if effects.drop_ready {
            self.dropped_ready += 1;
        }
        if let Some(begin) = effects.begin {
            self.transport.take_overrun();
            self.frame.clear();
            self.hangovers.push(begin.hangover);
        }
        if effects.request_pause {
            self.transport.request_pause();
        }
        if effects.silence {
            self.transport.pause_requested = true;
        }
        if effects.raise_stream_error {
            self.stream_error = true;
        }
        if let Some(failure) = effects.failure {
            self.failures.push(failure);
        }
        if let Some(samples) = reply {
            self.replies.push(samples);
        }
        if effects.resume {
            self.transport.resume();
        }
        effects
    }

    /// Answers what the worker needs, with the given command where it takes one. `elapsed` is what
    /// every clock shows. Returns false once a command was wanted and there was none.
    fn answer(&mut self, command: &mut Option<Cmd>, elapsed: u64) -> bool {
        let event = match self.worker.state.phase {
            Phase::Receive | Phase::Poll => match command.take() {
                Some(cmd) => Event::Command(cmd),
                None => Event::NoCommand,
            },
            Phase::StopOverrun | Phase::Overrun => Event::Overrun(self.transport.take_overrun()),
            Phase::PauseWait => Event::Pause {
                acknowledged: self.transport.pause_acknowledged,
                elapsed,
            },
            Phase::PauseRead => Event::Acknowledged(self.transport.pause_acknowledged),
            Phase::PauseDrain | Phase::FinalDrain { .. } | Phase::Drain => {
                let count = self.drain();
                Event::Drained(count)
            }
            Phase::FinishFrames { .. } => {
                if !self.frame.is_empty() {
                    let mut frame = std::mem::take(&mut self.frame);
                    frame.resize(FRAME, 0);
                    self.emit(frame);
                }
                Event::Finished
            }
            Phase::StreamError => Event::StreamError(self.stream_error),
            Phase::HeartbeatClock => Event::Elapsed(elapsed),
            Phase::HeartbeatRead => Event::Heartbeat(self.transport.callback_heartbeat),
            Phase::Ended => return false,
        };
        self.step(event);
        true
    }

    /// One round: a command, if any, and all that follows until the next one is waited for.
    fn round(&mut self, command: Option<Cmd>, elapsed: u64) {
        let mut command = command;
        loop {
            if !self.answer(&mut command, elapsed) || self.worker.state.phase == Phase::Receive {
                return;
            }
            if self.worker.state.phase == Phase::PauseWait && !self.transport.pause_acknowledged {
                return;
            }
        }
    }
}

fn start(generation: u64) -> Option<Cmd> {
    Some(Cmd::Start { policy: VadPolicy::Disabled, generation })
}

#[test]
fn post_write_pause_check_acknowledges_a_new_request() {
    let mut transport = CaptureTransportState::default();
    assert!(!transport.pause_acknowledged);

    // A stop arrives after the callback's first look, while it writes.
    transport.pause_requested = true;
    acknowledge_pause_after_write(&mut transport);

    assert!(transport.pause_acknowledged);
}

#[test]
fn a_request_during_the_write_is_acknowledged_behind_it() {
    let (mut producer, mut consumer) = RingBuffer::<u32>::new(4);
    let mut transport = CaptureTransportState::default();
    write_with(&[1.0, 2.0], 1, None, &mut producer, &mut transport, true);
    assert!(transport.pause_requested);
    assert!(transport.pause_acknowledged);
    assert_eq!(pop(&mut consumer, 2), vec![1.0, 2.0]);
    write(&[3.0], 1, None, &mut producer, &mut transport);
    assert_eq!(consumer.slots(), 0);
}

#[test]
fn without_a_request_nothing_is_acknowledged() {
    let mut transport = CaptureTransportState::default();
    acknowledge_pause_after_write(&mut transport);
    assert_eq!(transport, CaptureTransportState::default());
}

#[test]
fn callback_writes_mono_samples_without_allocation_transport() {
    let (mut producer, mut consumer) = RingBuffer::<u32>::new(8);
    let mut transport = CaptureTransportState::default();

    write(&[0.25f32, -0.5, 1.0], 1, None, &mut producer, &mut transport);

    let output = pop(&mut consumer, 3);
    assert_eq!(output, [0.25, -0.5, 1.0]);
    assert_eq!(transport.callback_heartbeat, 1);
}

#[test]
fn callback_downmixes_or_selects_multichannel_input() {
    let mut transport = CaptureTransportState::default();
    let (mut average_tx, mut average_rx) = RingBuffer::<u32>::new(4);
    write(&[1.0f32, 3.0, -1.0, 1.0], 2, None, &mut average_tx, &mut transport);
    let averaged = pop(&mut average_rx, 2);
    assert_eq!(averaged, [2.0, 0.0]);

    let (mut selected_tx, mut selected_rx) = RingBuffer::<u32>::new(4);
    write(&[1.0f32, 3.0, -1.0, 1.0], 2, Some(1), &mut selected_tx, &mut transport);
    let selected = pop(&mut selected_rx, 2);
    assert_eq!(selected, [3.0, 1.0]);
}

#[test]
fn callback_acknowledges_pause_without_writing() {
    let (mut producer, consumer) = RingBuffer::<u32>::new(4);
    let mut transport = CaptureTransportState::default();
    transport.pause_requested = true;

    write(&[1.0f32, 2.0], 1, None, &mut producer, &mut transport);

    assert_eq!(consumer.slots(), 0);
    assert!(transport.pause_acknowledged);
    assert_eq!(transport.callback_heartbeat, 1);
}

#[test]
fn callback_partially_fills_ring_and_counts_only_dropped_audio() {
    let (mut producer, mut consumer) = RingBuffer::<u32>::new(2);
    let mut transport = CaptureTransportState::default();

    write(&[1.0f32, 2.0, 3.0], 1, None, &mut producer, &mut transport);

    let captured = pop(&mut consumer, 2);
    assert_eq!(captured, [1.0, 2.0]);
    assert_eq!(transport.overrun_samples, 1);
}

#[test]
fn lost_frames_are_counted_not_samples() {
    let (mut producer, mut consumer) = RingBuffer::<u32>::new(2);
    let mut transport = CaptureTransportState::default();
    let data = [1.0, 3.0, 5.0, 7.0, 9.0, 11.0, 100.0];
    write(&data, 2, None, &mut producer, &mut transport);
    assert_eq!(pop(&mut consumer, 2), [2.0, 6.0]);
    assert_eq!(transport.overrun_samples, 1);
    assert_eq!(transport.callback_heartbeat, 1);
    assert!(!transport.pause_acknowledged);
}

#[test]
fn a_full_ring_drops_the_whole_buffer() {
    let (mut producer, mut consumer) = RingBuffer::<u32>::new(1);
    let mut transport = CaptureTransportState::default();
    write(&[1.0], 1, None, &mut producer, &mut transport);
    write(&[2.0, 3.0, 4.0, 5.0, 6.0], 2, Some(0), &mut producer, &mut transport);
    assert_eq!(transport.overrun_samples, 2);
    assert_eq!(transport.callback_heartbeat, 2);
    assert_eq!(pop(&mut consumer, 1), [1.0]);
}

#[test]
fn counters_wrap_around() {
    let (mut producer, _consumer) = RingBuffer::<u32>::new(1);
    let mut transport = CaptureTransportState::default();
    transport.callback_heartbeat = u64::MAX;
    transport.overrun_samples = u64::MAX;
    write(&[1.0, 2.0], 1, None, &mut producer, &mut transport);
    assert_eq!(transport.callback_heartbeat, 0);
    assert_eq!(transport.overrun_samples, 0);
}

#[test]
fn ring_wraparound_preserves_both_read_slices_in_order() {
    let (mut producer, mut consumer) = RingBuffer::<u32>::new(5);
    let mut transport = CaptureTransportState::default();
    let initial: Vec<u32> = [1.0f32, 2.0, 3.0, 4.0].iter().map(|s| s.to_bits()).collect();
    producer.push_entire_slice(&initial).expect("initial samples");
    let mut discarded = [0u32; 3];
    consumer.pop_entire_slice(&mut discarded).expect("advance ring head");

    write(&[5.0f32, 6.0, 7.0, 8.0], 1, None, &mut producer, &mut transport);

    let runs = drain_available_samples(&mut consumer);
    assert_eq!(runs.len(), 2);
    assert!(!runs[0].is_empty());
    assert!(!runs[1].is_empty());
    let ordered = floats(&runs.concat());
    assert_eq!(ordered, [4.0, 5.0, 6.0, 7.0, 8.0]);

    // The samples stay until they are released.
    assert_eq!(consumer.slots(), 5);
    assert!(release_samples(&mut consumer, 5));
    assert_eq!(consumer.slots(), 0);
    assert!(!release_samples(&mut consumer, 1));
    assert!(drain_available_samples(&mut consumer).is_empty());
}

#[test]
fn a_partial_release_keeps_the_rest() {
    let (mut producer, mut consumer) = RingBuffer::<u32>::new(8);
    producer.push_entire_slice(&[1, 2, 3, 4]).expect("room");
    assert_eq!(drain_available_samples(&mut consumer), vec![vec![1, 2, 3, 4]]);
    assert!(release_samples(&mut consumer, 3));
    assert_eq!(drain_available_samples(&mut consumer), vec![vec![4]]);
}

#[test]
fn a_new_ring_is_empty_and_holds_five_seconds() {
    let (producer, consumer) = new_audio_ring(100);
    assert_eq!(consumer.slots(), 0);
    assert_eq!(producer.slots(), 500);
    let (producer, _consumer) = new_audio_ring(0);
    assert_eq!(producer.slots(), 0);
}

#[test]
fn samples_come_out_as_they_went_in() {
    let (mut producer, mut consumer) = new_audio_ring(10);
    let mut transport = CaptureTransportState::default();
    write(&[0.25, -0.5], 1, None, &mut producer, &mut transport);
    write(&[1.0], 1, None, &mut producer, &mut transport);
    assert_eq!(floats(&drain_available_samples(&mut consumer).concat()), [0.25, -0.5, 1.0]);
    assert!(release_samples(&mut consumer, 2));
    write(&[2.0; 100], 1, None, &mut producer, &mut transport);
    let rest = floats(&drain_available_samples(&mut consumer).concat());
    assert_eq!(rest.len(), 50);
    assert_eq!(rest[0], 1.0);
    assert!(rest[1..].iter().all(|sample| *sample == 2.0));
    assert_eq!(transport.overrun_samples, 51);
}

#[test]
fn a_held_producer_has_all_its_samples_drained() {
    let (mut producer, mut consumer) = new_audio_ring(2);
    assert!(drain_all_samples(&producer, &mut consumer).is_empty());
    let mut transport = CaptureTransportState::default();
    write(&[1.0, 2.0, 3.0], 1, None, &mut producer, &mut transport);
    assert_eq!(floats(&drain_all_samples(&producer, &mut consumer).concat()), [1.0, 2.0, 3.0]);
    assert!(release_samples(&mut consumer, 2));
    write(&[4.0; 9], 1, None, &mut producer, &mut transport);
    let runs = drain_all_samples(&producer, &mut consumer);
    assert_eq!(runs.len(), 2);
    assert_eq!(
        floats(&runs.concat()),
        [3.0, 4.0, 4.0, 4.0, 4.0, 4.0, 4.0, 4.0, 4.0, 4.0]
    );
}

#[test]
fn the_second_look_comes_behind_the_write() {
    let (mut producer, _consumer) = RingBuffer::<u32>::new(4);
    let mut transport = CaptureTransportState::default();
    AudioRecorder::write_input_to_ring(
        &[7u32, 8, 9],
        1,
        None,
        |sample: u32| sample,
        |_: &[u32]| 0,
        &mut producer,
        &mut transport,
        |producer: &Producer<u32>| producer.slots() == 1,
    );
    assert!(transport.pause_acknowledged);
}

#[test]
fn the_end_of_the_worker_lets_go_of_who_waits() {
    for ending in [Event::Command(Cmd::Shutdown), Event::Disconnected] {
        let mut stream = Stream::new(16, None);
        stream.round(start(1), 0);
        assert!(stream.worker.state.awaiting_ready);
        let effects = stream.step(ending);
        assert!(effects.drop_ready);
        assert_eq!(stream.worker.state.phase, Phase::Ended);
        assert_eq!(stream.dropped_ready, 1);
        assert!(!stream.worker.chunk_captured());
    }
    let mut idle = Stream::new(16, None);
    assert!(!idle.step(Event::Disconnected).drop_ready);
}

#[test]
fn overruns_are_totalled_and_warned_of_once() {
    let mut total = 0u64;
    let mut sent = false;
    assert_eq!(observe_recording_overrun(0, Some(7), &mut total, &mut sent), None);
    assert!(!sent);
    assert_eq!(
        observe_recording_overrun(600, Some(7), &mut total, &mut sent),
        Some(OverrunWarning { generation: 7, dropped_samples: 600 })
    );
    assert_eq!(observe_recording_overrun(5, Some(7), &mut total, &mut sent), None);
    assert_eq!(total, 605);
    assert_eq!(observe_recording_overrun(u64::MAX, Some(7), &mut total, &mut sent), None);
    assert_eq!(total, u64::MAX);
    let mut total = 0u64;
    let mut sent = false;
    assert_eq!(observe_recording_overrun(3, None, &mut total, &mut sent), None);
    assert!(sent);
}

#[test]
fn failures_reach_the_waiter_or_the_owner() {
    let mut awaiting = true;
    assert_eq!(
        report_capture_failure(true, Some(1), &mut awaiting, FailureCause::BackendError),
        None
    );
    assert!(!awaiting);
    assert_eq!(
        report_capture_failure(true, Some(1), &mut awaiting, FailureCause::BackendError),
        Some(CaptureFailure { generation: 1, cause: FailureCause::BackendError })
    );
    assert_eq!(
        report_capture_failure(false, Some(1), &mut awaiting, FailureCause::BackendError),
        None
    );
    assert_eq!(
        report_capture_failure(true, None, &mut awaiting, FailureCause::BackendError),
        None
    );
    assert_eq!(
        FailureCause::BackendError.detail(),
        "The microphone backend reported an error; the stream will be rebuilt"
    );
}

#[test]
fn frames_are_kept_as_the_policy_says() {
    let mut buffer = vec![9u32];
    assert!(!asks_detector(true, Some(1), VadPolicy::Disabled));
    assert!(asks_detector(true, Some(1), VadPolicy::Offline));
    assert!(!asks_detector(false, Some(1), VadPolicy::Offline));
    assert!(!asks_detector(true, None, VadPolicy::Offline));

    let frame = handle_frame(
        &[1, 2],
        true,
        Some(4),
        VadPolicy::Disabled,
        Some(Ok(VadFrame::Noise)),
        &mut buffer,
    )
    .expect("kept");
    assert_eq!((frame.generation, frame.samples), (4, vec![1, 2]));
    let speech = Some(Ok(VadFrame::Speech(vec![7, 8, 9])));
    let frame = handle_frame(&[1, 2], true, Some(4), VadPolicy::Streaming, speech, &mut buffer)
        .expect("speech");
    assert_eq!(frame.samples, vec![7, 8, 9]);
    let noise = Some(Ok(VadFrame::Noise));
    assert!(handle_frame(&[3], true, Some(4), VadPolicy::Offline, noise, &mut buffer).is_none());
    let failed = Some(Err("broken".to_string()));
    assert!(handle_frame(&[4], true, Some(4), VadPolicy::Offline, failed, &mut buffer).is_some());
    assert!(handle_frame(&[5], true, Some(4), VadPolicy::Offline, None, &mut buffer).is_some());
    assert!(handle_frame(&[6], false, Some(4), VadPolicy::Offline, None, &mut buffer).is_none());
    assert!(handle_frame(&[6], true, None, VadPolicy::Offline, None, &mut buffer).is_none());
    assert_eq!(buffer, vec![9, 1, 2, 7, 8, 9, 4, 5]);
}

#[test]
fn shutdown_is_processed_without_audio_samples() {
    let mut stream = Stream::new(48_000, None);
    stream.round(Some(Cmd::Shutdown), 0);
    assert_eq!(stream.worker.state.phase, Phase::Ended, "shutdown waited for an audio sample");
    assert!(stream.transport.pause_requested);
    assert_eq!(stream.step(Event::Command(Cmd::Stop)), stream.step(Event::Drained(1)));
    assert!(stream.replies.is_empty());
}

#[test]
fn a_closed_channel_ends_the_worker() {
    let mut waiting = Stream::new(8, None);
    waiting.step(Event::Disconnected);
    assert_eq!(waiting.worker.state.phase, Phase::Ended);
    let mut polling = Stream::new(8, None);
    polling.step(Event::NoCommand);
    polling.step(Event::Disconnected);
    assert_eq!(polling.worker.state.phase, Phase::Ended);
    assert!(!polling.transport.pause_requested);
}

#[test]
fn active_overrun_warns_once_and_consumer_keeps_recording() {
    let mut stream = Stream::new(480, None);
    stream.round(start(7), 0);
    stream.callback(&vec![0.25f32; 480]);
    stream.round(None, 0);
    assert_eq!(stream.ready, 1, "capture ready");

    stream.callback(&vec![0.5f32; 480]);
    stream.callback(&vec![0.75f32; 600]);
    stream.round(None, 0);
    assert_eq!(stream.warnings, vec![(7, 600)]);
    assert!(!stream.stream_error);
    assert_ne!(stream.worker.state.phase, Phase::Ended, "overrun terminated the consumer");

    stream.callback(&vec![0.75f32; 600]);
    stream.round(None, 0);
    stream.round(Some(Cmd::Stop), 0);
    assert!(stream.transport.pause_requested, "pause was not requested");
    stream.callback(&[99.0f32]);
    stream.round(None, 0);
    assert_eq!(stream.replies.len(), 1);
    assert_eq!(stream.worker.state.total_dropped_samples, 720);
    assert_eq!(stream.warnings.len(), 1, "warning emitted more than once");
    stream.round(Some(Cmd::Shutdown), 0);
    assert_eq!(stream.worker.state.phase, Phase::Ended);
}

#[test]
fn idle_overruns_are_forgotten() {
    let mut stream = Stream::new(4, None);
    stream.callback(&[0.0; 10]);
    stream.round(None, 0);
    stream.callback(&[0.0; 10]);
    stream.round(start(1), 0);
    stream.round(None, 0);
    assert!(stream.warnings.is_empty());
    assert_eq!(stream.worker.state.total_dropped_samples, 0);
}

#[test]
fn stop_acknowledgment_drains_all_samples_before_replying() {
    let mut stream = Stream::new(16_000, None);
    stream.round(start(1), 0);
    stream.callback(&[0.25f32, -0.5, 1.0]);
    stream.round(None, 0);
    assert_eq!(stream.ready, 1, "capture ready");

    stream.round(Some(Cmd::Stop), 0);
    assert!(stream.transport.pause_requested, "pause was not requested");
    // A command that arrives meanwhile is not taken before the stop is answered.
    assert_eq!(stream.worker.state.phase, Phase::PauseWait);
    stream.step(Event::Command(Cmd::Shutdown));
    assert_eq!(stream.worker.state.phase, Phase::PauseWait);
    // The first callback after the stop acknowledges without adding samples.
    stream.callback(&[99.0f32]);
    stream.round(Some(Cmd::Shutdown), 0);

    let samples = floats(&stream.replies[0]);
    assert_eq!(&samples[..3], &[0.25, -0.5, 1.0]);
    assert!(!samples.contains(&99.0));
    assert_eq!(stream.worker.state.phase, Phase::Ended);
}

#[test]
fn stop_then_start_reuses_worker_without_stale_pause_acknowledgment() {
    let mut stream = Stream::new(16_000, None);
    stream.round(start(1), 0);
    stream.callback(&vec![0.25f32; 480]);
    stream.round(None, 0);
    assert_eq!(stream.ready, 1, "first capture ready");

    stream.round(Some(Cmd::Stop), 0);
    assert!(stream.transport.pause_requested, "first pause was not requested");
    stream.callback(&[99.0f32]);
    stream.round(None, 0);
    assert_eq!(stream.replies.len(), 1, "first stop reply");

    stream.round(start(2), 0);
    assert!(!stream.transport.pause_requested, "worker did not resume");
    stream.callback(&vec![0.5f32; 480]);
    stream.round(None, 0);
    assert_eq!(stream.ready, 2, "second capture ready");

    stream.round(Some(Cmd::Stop), 0);
    assert!(stream.transport.pause_requested, "second pause was not requested");
    stream.round(None, 20);
    assert_eq!(stream.replies.len(), 1, "stale acknowledgment completed the second Stop");
    stream.callback(&[99.0f32]);
    stream.round(None, 0);
    let second = floats(&stream.replies[1]);
    assert!(second.contains(&0.5));
    assert!(!second.contains(&0.25));
    assert!(!second.contains(&99.0));

    stream.round(Some(Cmd::Shutdown), 0);
    assert_eq!(stream.worker.state.phase, Phase::Ended);
}

#[test]
fn samples_that_arrive_while_the_pause_is_awaited_are_kept() {
    let mut stream = Stream::new(16_000, None);
    stream.round(start(3), 0);
    stream.round(Some(Cmd::Stop), 0);
    assert_eq!(stream.dropped_ready, 1);
    // A write that was under way when the pause was requested.
    stream.transport.pause_requested = false;
    write_with(&[0.125, 0.5], 1, None, &mut stream.producer, &mut stream.transport, true);
    stream.round(None, 0);
    assert_eq!(&floats(&stream.replies[0])[..2], &[0.125, 0.5]);
    assert_eq!(stream.live, vec![(3, stream.replies[0].clone())]);
    assert_eq!(stream.ready, 0);
}

#[test]
fn a_callback_that_never_pauses_costs_the_stream() {
    let mut stream = Stream::new(16_000, None);
    stream.round(start(1), 0);
    stream.callback(&[0.25]);
    stream.round(None, 0);
    stream.round(Some(Cmd::Stop), 0);
    stream.round(None, timing::PAUSE_ACK_TIMEOUT - 1);
    assert!(stream.replies.is_empty());
    let mut none = None;
    while stream.answer(&mut none, timing::PAUSE_ACK_TIMEOUT) {}
    assert!(stream.stream_error);
    assert_eq!(stream.worker.state.phase, Phase::Ended);
    assert_eq!(floats(&stream.replies[0])[0], 0.25);
    assert!(stream.transport.pause_requested);
}

#[test]
fn a_stop_without_a_recording_is_answered_with_nothing() {
    let mut stream = Stream::new(16, None);
    stream.round(Some(Cmd::Stop), 0);
    stream.callback(&[1.0]);
    stream.round(None, 0);
    assert_eq!(stream.replies, vec![Vec::<u32>::new()]);
    assert_eq!(stream.worker.state.capture_generation, None);
}

#[test]
fn a_new_start_discards_the_recording_under_way() {
    let mut stream = Stream::new(16_000, None);
    stream.round(start(1), 0);
    stream.round(start(2), 0);
    assert_eq!(stream.dropped_ready, 1);
    stream.callback(&vec![0.25f32; 480]);
    stream.round(None, 0);
    assert_eq!(stream.worker.processed_samples.len(), 480);
    stream.round(start(3), 0);
    assert!(stream.worker.processed_samples.is_empty());
    assert_eq!(stream.worker.state.capture_generation, Some(3));
}

#[test]
fn the_detector_is_set_for_the_policy() {
    let vad = VadConfig { offline_hangover_frames: 4, streaming_hangover_frames: 9 };
    let mut stream = Stream::new(16, Some(vad));
    for policy in [VadPolicy::Offline, VadPolicy::Streaming, VadPolicy::Disabled] {
        stream.round(Some(Cmd::Start { policy, generation: 1 }), 0);
    }
    assert_eq!(stream.hangovers, vec![Some(4), Some(9), None]);
    let mut without = Stream::new(16, None);
    without.round(Some(Cmd::Start { policy: VadPolicy::Offline, generation: 1 }), 0);
    assert_eq!(without.hangovers, vec![None]);
    assert!(without.worker.asks_detector());
}

#[test]
fn idle_samples_are_discarded() {
    let mut stream = Stream::new(16_000, None);
    stream.callback(&vec![0.25f32; 480]);
    stream.round(None, 0);
    assert!(stream.worker.state.first_chunk_seen);
    assert!(stream.worker.processed_samples.is_empty());
    assert!(stream.live.is_empty());
    assert!(stream.worker.add_frame(&[1], None).is_none());
}

#[test]
fn established_callback_stall_reports_error_and_ends_worker() {
    let mut stream = Stream::new(16_000, None);
    stream.round(start(1), 0);
    stream.callback(&[0.25f32]);
    stream.round(None, 0);
    assert_eq!(stream.ready, 1, "capture ready");

    // The first check still finds the callback's heartbeat.
    let mut checks = 0;
    while stream.worker.state.phase != Phase::Ended {
        stream.round(None, timing::HEARTBEAT_CHECK_INTERVAL);
        checks += 1;
    }
    assert_eq!(checks, 31);
    assert_eq!(stream.failures.len(), 1);
    assert_eq!(stream.failures[0].generation, 1);
    assert!(stream.failures[0].cause.detail().contains("stopped delivering audio"));
    assert!(stream.stream_error);
}

#[test]
fn a_stream_that_never_starts_gets_longer() {
    let mut stream = Stream::new(16, None);
    stream.round(start(1), 0);
    let mut checks = 0;
    while stream.worker.state.phase != Phase::Ended {
        stream.round(None, timing::HEARTBEAT_CHECK_INTERVAL);
        checks += 1;
    }
    assert_eq!(checks, 100);
    assert!(stream.failures.is_empty());
    assert_eq!(stream.dropped_ready, 1);
    assert!(stream.stream_error);
}

#[test]
fn a_heartbeat_starts_the_count_anew() {
    let mut stream = Stream::new(16, None);
    for _ in 0..99 {
        stream.round(None, timing::HEARTBEAT_CHECK_INTERVAL);
    }
    assert_eq!(stream.worker.state.missed_heartbeat_checks, 99);
    stream.transport.callback_heartbeat = 5;
    stream.round(None, timing::HEARTBEAT_CHECK_INTERVAL);
    assert_eq!(stream.worker.state.missed_heartbeat_checks, 0);
    stream.round(None, timing::HEARTBEAT_CHECK_INTERVAL - 1);
    assert_eq!(stream.worker.state.missed_heartbeat_checks, 0);
}

#[test]
fn a_backend_error_ends_the_worker() {
    let mut stream = Stream::new(16_000, None);
    stream.round(start(4), 0);
    stream.callback(&[0.25f32]);
    stream.round(None, 0);
    stream.stream_error = true;
    stream.round(None, 0);
    assert_eq!(stream.worker.state.phase, Phase::Ended);
    assert_eq!(
        stream.failures,
        vec![CaptureFailure { generation: 4, cause: FailureCause::BackendError }]
    );
}

#[test]
fn an_idle_stream_fails_silently() {
    let mut stream = Stream::new(16, None);
    stream.stream_error = true;
    stream.round(None, 0);
    assert_eq!(stream.worker.state.phase, Phase::Ended);
    assert!(stream.failures.is_empty());
    assert_eq!(stream.dropped_ready, 0);
}
