//! Microphone capture: the decisions of a recorder, its worker and its real-time callback.
//!
//! Samples are held as `u32` bit patterns of single-precision values, so that every rule here is
//! stated over integers; devices, threads, channels, atomics and signal processing live outside.

pub mod callback;
pub mod capture_events;
pub mod error;
pub mod handshake;
pub mod keyboard;
pub mod opening;
pub mod recorder;
pub mod reports;
pub mod ring;
pub mod stream_config;
pub mod text;
pub mod timing;
pub mod transport;
pub mod vad;
pub mod worker;
pub mod worker_laws;
