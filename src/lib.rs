//! Media pipeline orders and temporal event detection over per-frame analysis tags.
//!
//! Times are integer milliseconds and frame indices throughout. An interval's length is
//! `end - start`, and duration bounds include their limits.

/// Frame periods, frame times and the end of a clip.
pub mod timing;
/// Intervals and duration bounds.
pub mod interval;
/// Start/end tag pairing: silence, black frames, fades, dual mono.
pub mod pairing;
/// Black-and-silence correlation.
pub mod correlate;
/// Scene segmentation.
pub mod scene;
/// The 1000 Hz tone tracker.
pub mod tone;
/// Active-area (crop) transitions.
pub mod crop;
/// "Media offline" card detection.
pub mod ocr;
/// Loudness readings.
pub mod loudness;
/// Pairing groups of audio tracks.
pub mod tracks;
/// Ratios of integers.
pub mod rational;
/// Orders and the wiring of their graphs.
pub mod order;
/// The analysis graph that each check runs.
pub mod graphs;
/// Numbered labels and tag names.
pub mod names;
/// Decisions of the execution loop.
pub mod execution;
/// Audio re-framing and timestamp rescaling for encoders.
pub mod encoding;
/// Per-stream probe results.
pub mod probe;
/// Laws that hold across the detectors.
pub mod laws;
