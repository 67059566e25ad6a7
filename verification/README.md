# audio_capture

Microphone capture whose decisions are verified with Verus.

- `src/` holds the verified library: the body of the real-time callback and the ring it writes to
  (`callback`, `ring`, `transport`), the worker that collects a recording (`worker`, `vad`,
  `reports`), how a stream is configured and brought up (`stream_config`, `opening`), the recorder
  as its owner sees it (`recorder`, `error`, `text`, `timing`), what the user interface is told
  (`capture_events`), and key presses for a virtual keyboard (`keyboard`). `worker_laws` and
  `handshake` state what holds of every course that the worker, and worker and callback together,
  can take.
- `app/` runs it on real devices: threads, channels, atomics, audio and input devices, and the
  signal processing, which is floating point.
- `tests/` runs the library on concrete values.

Samples are held as the `u32` bit patterns of single-precision values. What is trusted rather than
proved stands beside the functions marked `external_body` and the one `assume_specification`, each
with a comment that names the outside function.
