//! Real-time voice-transcription pipeline core: capture mixer with acoustic
//! echo cancellation, dual-mode voice-activity detection with lookback and
//! word-break discovery, a segment ring buffer, and a bounded transcription
//! queue.
//!
//! Audio samples are carried as fixed-point values: an `i32` sample of
//! magnitude [`sample::SAMPLE_UNIT`] stands for a full-scale amplitude of one.
//! All segmentation and detection decisions are exact integer computations on
//! that representation; conversion from the capture format happens at the
//! process boundary.

use vstd::prelude::*;

pub mod control;
pub mod features;
pub mod hotkey;
pub mod mixer;
pub mod pipeline;
pub mod queue;
pub mod resample;
pub mod ring;
pub mod types;
pub mod vad;
pub mod viz;
pub mod sample;
pub mod transcribe;

verus! {

/// Capacity of the segment ring buffer: thirty seconds of stereo audio at
/// 48 kHz.
pub const RING_BUFFER_CAPACITY: usize = 2880000;

} // verus!
