//! Intervals and limits of the capture path, in milliseconds unless said otherwise.

use vstd::prelude::*;

verus! {

/// Seconds of audio that the ring between callback and worker can hold.
pub const AUDIO_RING_SECONDS: usize = 5;

/// Longest wait of the worker for a command before it drains the ring.
pub const CONSUMER_POLL_INTERVAL: u64 = 10;

/// Time between two looks at the callback heartbeat.
pub const HEARTBEAT_CHECK_INTERVAL: u64 = 100;

/// How long a device may take until its first callback.
pub const INITIAL_CALLBACK_TIMEOUT: u64 = 10_000;

/// How long a device that has delivered samples may stay silent.
pub const ESTABLISHED_CALLBACK_TIMEOUT: u64 = 3_000;

/// Missed heartbeat checks, in a row, that end a stream which never delivered a sample.
pub const STARTUP_MISSED_HEARTBEATS: usize = 100;

/// Missed heartbeat checks, in a row, that end a stream which has delivered samples.
pub const RUNNING_MISSED_HEARTBEATS: usize = 30;

/// How long the worker waits for the callback to acknowledge a pause.
pub const PAUSE_ACK_TIMEOUT: u64 = 2_000;

/// How long a caller waits for the samples of a stopped recording.
pub const STOP_RESPONSE_TIMEOUT: u64 = 3_000;

/// How long a caller waits for the worker to end.
pub const WORKER_SHUTDOWN_TIMEOUT: u64 = 4_000;

/// How long a caller waits for the worker to come up.
pub const WORKER_INIT_TIMEOUT: u64 = 12_000;

/// How long a caller waits for the first captured sample.
pub const MICROPHONE_READY_TIMEOUT: u64 = 12_000;

/// Every outer wait leaves time for the inner operation to report its own failure first.
pub proof fn timeouts_nest()
    ensures
        PAUSE_ACK_TIMEOUT < STOP_RESPONSE_TIMEOUT < WORKER_SHUTDOWN_TIMEOUT,
        ESTABLISHED_CALLBACK_TIMEOUT < INITIAL_CALLBACK_TIMEOUT < MICROPHONE_READY_TIMEOUT,
{
}

/// The callback timeouts are whole numbers of heartbeat checks, and the limits count them.
pub proof fn heartbeat_limits_count_checks()
    ensures
        STARTUP_MISSED_HEARTBEATS * HEARTBEAT_CHECK_INTERVAL == INITIAL_CALLBACK_TIMEOUT,
        RUNNING_MISSED_HEARTBEATS * HEARTBEAT_CHECK_INTERVAL == ESTABLISHED_CALLBACK_TIMEOUT,
{
}

/// The limits that users of the capture path meet.
pub proof fn limits_in_milliseconds()
    ensures
        PAUSE_ACK_TIMEOUT == 2_000,
        STOP_RESPONSE_TIMEOUT == 3_000,
        WORKER_SHUTDOWN_TIMEOUT == 4_000,
        WORKER_INIT_TIMEOUT == 12_000 && MICROPHONE_READY_TIMEOUT == 12_000,
        INITIAL_CALLBACK_TIMEOUT == 10_000 && ESTABLISHED_CALLBACK_TIMEOUT == 3_000,
        CONSUMER_POLL_INTERVAL == 10 && HEARTBEAT_CHECK_INTERVAL == 100,
        AUDIO_RING_SECONDS == 5,
{
}

} // verus!
