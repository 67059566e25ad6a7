use audio_capture::error::{ErrorKind, InitStage, RecorderError};
use audio_capture::opening::{InitEvent, InitPhase, StreamInit};
use audio_capture::recorder::{AudioRecorder, InitReply, OpenStep, StopReply};
use audio_capture::stream_config::{
    best_range, effective_channel, get_cpal_host, window_size, AudioHost, BufferSizes, ConfigCache,
    SampleFormat, StreamConfig, StreamConfigRange,
};
use audio_capture::text::{is_microphone_access_denied, is_no_input_device_error};
use audio_capture::timing;
use audio_capture::vad::VadPolicy;
use audio_capture::worker::Cmd;
use std::time::{Duration, Instant};

fn remembering() -> ConfigCache {
    let mut cache = ConfigCache::new();
    cache.remember("Mic".to_string(), default_config(), false);
    cache
}

fn opened() -> AudioRecorder {
    let mut recorder = AudioRecorder::new();
    let mut cache = remembering();
    assert!(matches!(recorder.open(false, &mut cache), Ok(OpenStep::Build)));
    assert!(recorder.finish_open(InitReply::Ready, &mut cache).is_ok());
    recorder
}

fn range(min: u32, max: u32, channels: u16, sample_format: SampleFormat) -> StreamConfigRange {
    StreamConfigRange {
        channels,
        min_sample_rate: min,
        max_sample_rate: max,
        buffer_sizes: BufferSizes::Range { min: 64, max: 4096 },
        sample_format,
    }
}

fn default_config() -> StreamConfig {
    StreamConfig {
        channels: 1,
        sample_rate: 48_000,
        buffer_sizes: BufferSizes::Unknown,
        sample_format: SampleFormat::U16,
    }
}

#[test]
fn unopened_recorder_does_not_need_reopen() {
    let recorder = AudioRecorder::new();
    assert!(!recorder.needs_reopen(false));
    assert!(!recorder.needs_reopen(true));
}

#[test]
fn stream_error_requires_reopen() {
    let mut recorder = AudioRecorder::new();
    recorder.stream_error = true;
    assert!(recorder.needs_reopen(false));
}

#[test]
fn stop_timeout_is_bounded_and_requires_a_fresh_recorder() {
    let mut recorder = AudioRecorder::new();
    recorder.commands_open = true;

    let started = Instant::now();
    let error = recorder
        .stop_with_timeout(20, StopReply::TimedOut)
        .expect_err("consumer never replies");

    assert_eq!(error.kind(), ErrorKind::TimedOut);
    assert_eq!(error.message(), "Timed out after 20ms stopping microphone capture");
    assert!(started.elapsed() < Duration::from_secs(1));
    assert!(recorder.replacement_required());
}

#[test]
fn shutdown_timeout_detaches_and_requires_a_fresh_recorder() {
    let mut recorder = AudioRecorder::new();
    recorder.end_awaitable = true;
    recorder.worker_attached = true;
    assert!(recorder.plan_close(false).await_end);
    assert!(!recorder.plan_close(false).send_shutdown);

    let error = recorder
        .close_with_timeout(20, false, true)
        .expect_err("worker is intentionally wedged");

    assert_eq!(error.kind(), ErrorKind::TimedOut);
    assert_eq!(error.message(), "Timed out after 20ms shutting down microphone worker");
    assert!(!recorder.worker_attached);
    assert!(recorder.replacement_required());
}

#[test]
fn timeout_ladder_preserves_inner_before_outer_ordering() {
    assert!(timing::PAUSE_ACK_TIMEOUT < timing::STOP_RESPONSE_TIMEOUT);
    assert!(timing::STOP_RESPONSE_TIMEOUT < timing::WORKER_SHUTDOWN_TIMEOUT);
    assert!(timing::INITIAL_CALLBACK_TIMEOUT < timing::MICROPHONE_READY_TIMEOUT);
    assert!(timing::ESTABLISHED_CALLBACK_TIMEOUT < timing::INITIAL_CALLBACK_TIMEOUT);
}

#[test]
fn timing_constants_keep_their_values() {
    assert_eq!(timing::CONSUMER_POLL_INTERVAL, 10);
    assert_eq!(timing::HEARTBEAT_CHECK_INTERVAL, 100);
    assert_eq!(timing::PAUSE_ACK_TIMEOUT, 2_000);
    assert_eq!(timing::STOP_RESPONSE_TIMEOUT, 3_000);
    assert_eq!(timing::WORKER_SHUTDOWN_TIMEOUT, 4_000);
    assert_eq!(timing::WORKER_INIT_TIMEOUT, 12_000);
    assert_eq!(
        timing::STARTUP_MISSED_HEARTBEATS as u64,
        timing::INITIAL_CALLBACK_TIMEOUT / timing::HEARTBEAT_CHECK_INTERVAL
    );
    assert_eq!(
        timing::RUNNING_MISSED_HEARTBEATS as u64,
        timing::ESTABLISHED_CALLBACK_TIMEOUT / timing::HEARTBEAT_CHECK_INTERVAL
    );
}

#[test]
fn opening_an_open_recorder_changes_nothing() {
    let mut cache = remembering();
    let mut recorder = opened();
    let before = recorder;
    assert!(matches!(recorder.open(false, &mut cache), Ok(OpenStep::AlreadyOpen)));
    assert_eq!(recorder, before);
    assert!(cache.entry.is_some());
}

#[test]
fn a_failed_stream_is_closed_and_rebuilt() {
    let mut cache = remembering();
    let mut recorder = opened();
    recorder.stream_error = true;
    assert!(matches!(recorder.open(true, &mut cache), Ok(OpenStep::CloseFirst)));
    let plan = recorder.plan_close(true);
    assert!(plan.send_shutdown);
    assert!(!plan.await_end);
    assert!(matches!(recorder.reopen(true, false, &mut cache), Ok(OpenStep::Build)));
    assert!(!recorder.device_held);
    assert!(cache.entry.is_some());
    assert!(!recorder.stream_error);
    assert!(recorder.finish_open(InitReply::Ready, &mut cache).is_ok());
    assert!(!recorder.needs_reopen(false));
}

#[test]
fn a_worker_that_does_not_end_is_in_the_way_of_opening() {
    let mut cache = remembering();
    let mut recorder = opened();
    recorder.stream_error = true;
    assert!(matches!(recorder.open(false, &mut cache), Ok(OpenStep::CloseFirst)));
    assert!(cache.entry.is_some());
    let error = recorder.reopen(false, true, &mut cache).expect_err("stuck");
    assert_eq!(error.kind(), ErrorKind::TimedOut);
    assert_eq!(error.message(), "Timed out after 4s shutting down microphone worker");
    assert!(recorder.replacement_required());
    assert!(cache.entry.is_none());
}

#[test]
fn a_recorder_to_replace_is_closed_and_then_refused() {
    let mut cache = remembering();
    let mut recorder = opened();
    assert!(recorder.stop(StopReply::TimedOut).is_err());
    assert!(recorder.needs_reopen(false));
    assert!(matches!(recorder.open(false, &mut cache), Ok(OpenStep::CloseFirst)));
    let refused = recorder.reopen(true, false, &mut cache).expect_err("barred");
    assert!(matches!(refused, RecorderError::ReplacementRequired));
    assert!(cache.entry.is_none());
    assert!(!recorder.worker_attached);
}

#[test]
fn a_finished_worker_needs_reopen() {
    let mut cache = remembering();
    let mut recorder = opened();
    assert!(recorder.needs_reopen(true));
    assert!(matches!(recorder.open(true, &mut cache), Ok(OpenStep::CloseFirst)));
}

#[test]
fn a_late_worker_bars_the_recorder() {
    let mut cache = remembering();
    let mut recorder = AudioRecorder::new();
    assert!(matches!(recorder.open(false, &mut cache), Ok(OpenStep::Build)));
    let error = recorder.finish_open(InitReply::TimedOut, &mut cache).expect_err("late");
    assert_eq!(error.kind(), ErrorKind::TimedOut);
    assert_eq!(error.message(), "Timed out after 12s initializing the microphone worker");
    assert!(recorder.replacement_required());
    assert!(cache.entry.is_none());
    let mut cache = remembering();
    let refused = recorder.open(false, &mut cache).expect_err("barred");
    assert!(matches!(refused, RecorderError::ReplacementRequired));
    assert_eq!(refused.kind(), ErrorKind::Other);
    assert_eq!(refused.message(), "Recorder worker was unresponsive and must be replaced");
    assert!(cache.entry.is_none());
    assert!(recorder.close(false, false).is_ok());
    assert!(recorder.open(false, &mut cache).is_err());
}

#[test]
fn failures_to_come_up_are_told_apart() {
    let mut cache = remembering();
    let mut recorder = AudioRecorder::new();
    let denied = recorder
        .finish_open(InitReply::Failed(InitStage::Build.report("Access is denied. (0x80070005)")), &mut cache)
        .expect_err("denied");
    assert_eq!(denied.kind(), ErrorKind::PermissionDenied);
    assert_eq!(denied.message(), "Failed to build input stream: Access is denied. (0x80070005)");
    let other = recorder
        .finish_open(InitReply::Failed(InitStage::Play.report("no such device")), &mut cache)
        .expect_err("other");
    assert_eq!(other.kind(), ErrorKind::Other);
    assert_eq!(other.message(), "Failed to start microphone stream: no such device");
    let gone = recorder.finish_open(InitReply::Disconnected, &mut cache).expect_err("gone");
    assert_eq!(gone.kind(), ErrorKind::Other);
    assert_eq!(gone.message(), "Microphone worker exited during initialization");
    assert!(cache.entry.is_none());
    assert!(!recorder.replacement_required());
    assert!(!recorder.commands_open);
}

#[test]
fn a_closed_recorder_takes_no_commands() {
    let mut recorder = AudioRecorder::new();
    let error = recorder.start(VadPolicy::Offline, 3).expect_err("not open");
    assert_eq!(error.kind(), ErrorKind::Other);
    assert_eq!(error.message(), "Recorder is not open");
    let error = recorder.stop(StopReply::Samples(vec![1])).expect_err("not open");
    assert!(matches!(error, RecorderError::NotOpen));
    assert!(!recorder.replacement_required());
}

#[test]
fn an_open_recorder_starts_and_stops() {
    let mut recorder = opened();
    assert_eq!(
        recorder.start(VadPolicy::Streaming, 9).expect("open"),
        Cmd::Start { policy: VadPolicy::Streaming, generation: 9 }
    );
    assert_eq!(recorder.stop(StopReply::Samples(vec![1, 2, 3])).expect("samples"), vec![1, 2, 3]);
    assert!(!recorder.replacement_required());
}

#[test]
fn every_failed_stop_requires_a_fresh_recorder() {
    let mut unsent = opened();
    let error = unsent.stop(StopReply::NotSent).expect_err("unsent");
    assert_eq!(error.message(), "sending on a closed channel");
    assert!(unsent.replacement_required() && unsent.stream_error);

    let mut late = opened();
    let error = late.stop(StopReply::TimedOut).expect_err("late");
    assert_eq!(error.message(), "Timed out after 3s stopping microphone capture");
    assert!(late.replacement_required() && late.stream_error);

    let mut gone = opened();
    let error = gone.stop(StopReply::Disconnected).expect_err("gone");
    assert_eq!(error.kind(), ErrorKind::Other);
    assert_eq!(error.message(), "Microphone worker exited before returning captured samples");
    assert!(gone.replacement_required() && gone.stream_error);
}

#[test]
fn closing_waits_for_a_running_worker() {
    let mut recorder = opened();
    let plan = recorder.plan_close(false);
    assert!(plan.send_shutdown && plan.await_end);
    assert!(recorder.close(false, false).is_ok());
    assert!(!recorder.worker_attached && !recorder.commands_open && !recorder.end_awaitable);
    assert!(!recorder.replacement_required());
    assert!(recorder.close(false, true).is_ok());
}

#[test]
fn channels_and_detector_are_configured() {
    let recorder = AudioRecorder::new().with_vad(4, 9).with_selected_channel(Some(2));
    let vad = recorder.vad.expect("detector");
    assert_eq!(vad.hangover_for(VadPolicy::Offline), 4);
    assert_eq!(vad.hangover_for(VadPolicy::Disabled), 4);
    assert_eq!(vad.hangover_for(VadPolicy::Streaming), 9);
    assert_eq!(recorder.selected_channel, Some(2));
    let mut recorder = recorder;
    recorder.set_selected_channel(None);
    assert_eq!(recorder.selected_channel, None);
}

#[test]
fn a_selected_channel_falls_back_when_the_device_lacks_it() {
    assert_eq!(effective_channel(Some(1), 2), Some(1));
    assert_eq!(effective_channel(Some(2), 2), None);
    assert_eq!(effective_channel(None, 2), None);
}

#[test]
fn a_stream_is_planned_for_the_selected_channel() {
    let cache = ConfigCache::new();
    let mut init = StreamInit::begin(&cache, "Mic".to_string(), Some(1));
    let mut config = default_config();
    config.sample_format = SampleFormat::I16;
    config.channels = 2;
    let mut cache = cache;
    assert_eq!(init.phase, InitPhase::Fetch);
    assert_eq!(init.step(InitEvent::Config(Ok(config)), &mut cache), None);
    assert_eq!(init.phase, InitPhase::Build { config, channel: Some(1), cached: false });
    let mut init = StreamInit::begin(&cache, "Mic".to_string(), Some(1));
    config.channels = 1;
    assert_eq!(init.step(InitEvent::Config(Ok(config)), &mut cache), None);
    assert_eq!(init.phase, InitPhase::Build { config, channel: None, cached: false });
}

#[test]
fn an_accepted_configuration_skips_the_device() {
    let mut cache = ConfigCache::new();
    let mut config = default_config();
    config.sample_format = SampleFormat::F32;
    let mut init = StreamInit::begin(&cache, "Mic".to_string(), None);
    assert_eq!(init.step(InitEvent::Config(Ok(config)), &mut cache), None);
    assert_eq!(init.step(InitEvent::Built(Ok(())), &mut cache), None);
    assert_eq!(init.phase, InitPhase::Play { config, cached: false });
    assert_eq!(cache.lookup(&"Mic".to_string()), None);
    assert_eq!(init.step(InitEvent::Playing(Ok(())), &mut cache), None);
    assert_eq!(init.phase, InitPhase::Up { config });
    assert_eq!(cache.lookup(&"Mic".to_string()), Some(config));

    let again = StreamInit::begin(&cache, "Mic".to_string(), None);
    assert_eq!(again.phase, InitPhase::Build { config, channel: None, cached: true });
    assert_eq!(StreamInit::begin(&cache, "Other".to_string(), None).phase, InitPhase::Fetch);
    assert_eq!(StreamInit::begin(&cache, String::new(), None).phase, InitPhase::Fetch);

    let mut failing = again;
    let report = failing.step(InitEvent::Built(Err("busy".to_string())), &mut cache);
    assert_eq!(report.as_deref(), Some("Failed to build input stream: busy"));
    assert_eq!(failing.phase, InitPhase::Failed);
    assert_eq!(StreamInit::begin(&cache, "Mic".to_string(), None).phase, InitPhase::Fetch);
}

#[test]
fn a_nameless_device_is_not_remembered() {
    let mut cache = ConfigCache::new();
    let mut config = default_config();
    config.sample_format = SampleFormat::U8;
    let mut init = StreamInit::begin(&cache, String::new(), None);
    assert_eq!(init.step(InitEvent::Config(Ok(config)), &mut cache), None);
    assert_eq!(init.step(InitEvent::Built(Ok(())), &mut cache), None);
    assert_eq!(init.step(InitEvent::Playing(Ok(())), &mut cache), None);
    assert_eq!(init.phase, InitPhase::Up { config });
    assert!(cache.entry.is_none());
}

#[test]
fn every_step_of_opening_reports_its_own_failure() {
    let mut cache = ConfigCache::new();
    let mut init = StreamInit::begin(&cache, "Mic".to_string(), None);
    assert_eq!(
        init.step(InitEvent::Config(Err("gone".to_string())), &mut cache).as_deref(),
        Some("Failed to fetch preferred config: gone")
    );
    assert_eq!(init.step(InitEvent::Built(Ok(())), &mut cache), None);
    assert_eq!(init.phase, InitPhase::Failed);

    let mut config = default_config();
    config.sample_format = SampleFormat::I8;
    let mut init = StreamInit::begin(&cache, "Mic".to_string(), None);
    assert_eq!(init.step(InitEvent::Config(Ok(config)), &mut cache), None);
    assert_eq!(init.step(InitEvent::Built(Ok(())), &mut cache), None);
    assert_eq!(
        init.step(InitEvent::Playing(Err("mute".to_string())), &mut cache).as_deref(),
        Some("Failed to start microphone stream: mute")
    );
}

#[test]
fn unsupported_formats_are_refused() {
    let mut cache = ConfigCache::new();
    cache.remember("Old".to_string(), default_config(), false);
    let mut init = StreamInit::begin(&cache, "Mic".to_string(), None);
    assert_eq!(init.step(InitEvent::Config(Ok(default_config())), &mut cache), None);
    assert_eq!(init.phase, InitPhase::NameFormat);
    assert!(cache.entry.is_some());
    let message = init
        .step(InitEvent::FormatName("U16".to_string()), &mut cache)
        .expect("refused");
    assert_eq!(message, "Unsupported sample format: U16");
    assert!(cache.entry.is_none());
    let error = RecorderError::InitFailed(message);
    assert_eq!(error.kind(), ErrorKind::Other);
    assert_eq!(error.message(), "Unsupported sample format: U16");
    for format in [
        SampleFormat::U8,
        SampleFormat::I8,
        SampleFormat::I16,
        SampleFormat::I32,
        SampleFormat::F32,
    ] {
        assert!(format.is_supported());
    }
    for format in [
        SampleFormat::I24,
        SampleFormat::I64,
        SampleFormat::U16,
        SampleFormat::U32,
        SampleFormat::U64,
        SampleFormat::F64,
        SampleFormat::Unknown,
    ] {
        assert!(!format.is_supported());
    }
}

#[test]
fn the_best_format_at_the_default_rate_is_preferred() {
    let ranges = [
        range(8_000, 16_000, 1, SampleFormat::F32),
        range(44_100, 48_000, 2, SampleFormat::I32),
        range(44_100, 96_000, 4, SampleFormat::I16),
        range(8_000, 96_000, 6, SampleFormat::I16),
    ];
    assert_eq!(best_range(&ranges, 48_000), Some(2));
    let config = AudioRecorder::get_preferred_config(default_config(), Some(&ranges));
    assert_eq!(config.channels, 4);
    assert_eq!(config.sample_rate, 48_000);
    assert_eq!(config.sample_format, SampleFormat::I16);
    assert_eq!(config.buffer_sizes, BufferSizes::Range { min: 64, max: 4096 });
    assert_eq!(
        AudioRecorder::preferred_input_channel_count(default_config(), Some(&ranges)),
        4
    );
}

#[test]
fn the_default_configuration_is_the_fallback() {
    let ranges = [range(8_000, 16_000, 2, SampleFormat::F32)];
    assert_eq!(best_range(&ranges, 48_000), None);
    assert_eq!(AudioRecorder::get_preferred_config(default_config(), Some(&ranges)), default_config());
    assert_eq!(AudioRecorder::get_preferred_config(default_config(), None), default_config());
    assert_eq!(AudioRecorder::preferred_input_channel_count(default_config(), None), 1);
}

#[test]
fn a_device_is_chosen_or_missed() {
    let mut cache = remembering();
    assert!(matches!(AudioRecorder::choose_device(true, false, &mut cache), Ok(true)));
    assert!(matches!(AudioRecorder::choose_device(false, true, &mut cache), Ok(false)));
    assert!(cache.entry.is_some());
    let error = AudioRecorder::choose_device(false, false, &mut cache).expect_err("none");
    assert_eq!(error.kind(), ErrorKind::NotFound);
    assert_eq!(error.message(), "No input device found");
    assert!(is_no_input_device_error(&error.message()));
    assert!(cache.entry.is_none());
}

#[test]
fn accepted_configurations_are_remembered_by_device() {
    let mut cache = ConfigCache::new();
    let mic = "Mic".to_string();
    assert_eq!(cache.lookup(&mic), None);
    cache.remember(mic.clone(), default_config(), false);
    assert_eq!(cache.lookup(&mic), Some(default_config()));
    assert_eq!(cache.lookup(&"Other".to_string()), None);
    let mut changed = default_config();
    changed.channels = 7;
    cache.remember(mic.clone(), changed, true);
    assert_eq!(cache.lookup(&mic), Some(default_config()));
    cache.remember(String::new(), changed, false);
    assert_eq!(cache.lookup(&mic), Some(default_config()));
    assert_eq!(cache.lookup(&String::new()), None);
    cache.forget();
    assert_eq!(cache.lookup(&mic), None);
}

#[test]
fn window_sizes_follow_the_sample_rate() {
    assert_eq!(window_size(48_000), 2048);
    assert_eq!(window_size(16_000), 512);
    assert_eq!(window_size(8_000), 256);
    assert_eq!(window_size(44_100), 1024);
    assert_eq!(window_size(0), 256);
    assert_eq!(window_size(11_520), 256);
    assert_eq!(window_size(11_535), 512);
    assert_eq!(window_size(u32::MAX), 2048);
    for rate in (0..200_000u32).step_by(7) {
        let target = (f64::from(rate) / 30.0).round() as usize;
        let expected = [256usize, 512, 1024, 2048]
            .into_iter()
            .min_by_key(|w| w.abs_diff(target))
            .unwrap();
        assert_eq!(window_size(rate), expected);
    }
}

#[test]
fn pipewire_is_preferred_on_linux() {
    assert_eq!(get_cpal_host(true, true, true), AudioHost::PipeWire);
    assert_eq!(get_cpal_host(true, false, true), AudioHost::Alsa);
    assert_eq!(get_cpal_host(true, false, false), AudioHost::Default);
    assert_eq!(get_cpal_host(false, true, true), AudioHost::Default);
}

#[test]
fn detects_access_is_denied() {
    assert!(is_microphone_access_denied("Access is denied"));
}

#[test]
fn detects_permission_denied() {
    assert!(is_microphone_access_denied("permission denied"));
}

#[test]
fn detects_windows_error_code() {
    assert!(is_microphone_access_denied("WASAPI error: 0x80070005"));
}

#[test]
fn does_not_match_unrelated_errors() {
    assert!(!is_microphone_access_denied("device not found"));
}

#[test]
fn detects_no_input_device() {
    assert!(is_no_input_device_error("No input device found"));
}

#[test]
fn detects_coreaudio_config_error() {
    assert!(is_no_input_device_error(
        "Failed to fetch preferred config: A backend-specific error has occurred: An unknown error unknown to the coreaudio-rs API occurred"
    ));
}

#[test]
fn does_not_match_other_errors_for_no_device() {
    assert!(!is_no_input_device_error("permission denied"));
    assert!(!is_no_input_device_error("device not found"));
}

#[test]
fn half_a_coreaudio_error_is_not_enough() {
    assert!(!is_no_input_device_error("coreaudio is busy"));
    assert!(!is_no_input_device_error("Failed to fetch preferred config: busy"));
    assert!(is_no_input_device_error(&InitStage::Config.report("CoreAudio said no")));
}

#[test]
fn letter_case_is_ignored() {
    assert!(is_microphone_access_denied("PERMISSION DENIED by the system"));
    assert!(is_no_input_device_error("NO INPUT DEVICE FOUND"));
}
