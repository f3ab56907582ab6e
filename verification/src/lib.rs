//! Streaming windowed-transcription core for a live-captioning pipeline.
//!
//! A producer pushes audio samples into a bounded [`accumulator::SampleAccumulator`];
//! a periodic trigger (modelled by [`trigger::TriggerSlot`]) tells the
//! [`carry::WindowExtractor`] to snapshot the accumulated audio, decide the
//! carry-over for the next window, and mark whether the resulting caption
//! corrects the previous one; caption events flow to the sink through the
//! FIFO [`caption::CaptionChannel`].
//!
//! Samples are carried as the raw 32-bit pattern of a PCM value: the core
//! moves samples around but never interprets them.

pub mod accumulator;
pub mod caption;
pub mod carry;
pub mod config;
pub mod trigger;
