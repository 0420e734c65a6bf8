//! Core of a dual-source audio capture pipeline.
//!
//! Two independently clocked hardware sources (a microphone and a
//! system-output loopback) push samples through single-producer channels; a
//! consumer polled once per display refresh drains both channels into bounded
//! sliding windows and derives a residual stream (microphone minus the oldest
//! buffered system-output sample). Sample amplitudes are fixed-point `i64`
//! values; the presentation layer converts to and from its own float samples.

pub mod channel;
pub mod pipeline;
pub mod sample;
pub mod window;

pub use channel::SampleChannel;
pub use pipeline::{residual_sample, AudioCore, DeviceError, SenderToken, SourceId, StreamId};
pub use sample::{AMP_LIMIT, SAMPLE_UNIT};
pub use window::{SlidingWindow, DEFAULT_WINDOW_CAPACITY};
