//! Configuration of the streaming pipeline and its conversion from
//! millisecond durations to sample counts.

use vstd::prelude::*;

verus! {

/// Time-based options of the pipeline. All durations are converted to
/// sample counts as `sample_rate * ms / 1000`.
pub struct StreamConfig {
    /// Length of one transcription window, in milliseconds.
    pub window_length_ms: usize,
    /// Period of the transcription trigger, in milliseconds.
    pub step_ms: u64,
    /// Audio kept from the end of a full window into the next, in
    /// milliseconds.
    pub keep_ms: usize,
    /// Samples per second of the audio stream.
    pub sample_rate: usize,
}

impl StreamConfig {
    /// Number of samples in one transcription window.
    pub open spec fn spec_window_samples(&self) -> int {
        self.sample_rate * self.window_length_ms / 1000
    }

    /// Number of samples carried over from a full window into the next.
    pub open spec fn spec_keep_samples(&self) -> int {
        self.sample_rate * self.keep_ms / 1000
    }

    /// Capacity of the sample accumulator: twice the window length.
    pub open spec fn spec_capacity(&self) -> int {
        2 * self.spec_window_samples()
    }

    pub fn window_samples(&self) -> (n: usize)
        requires
            self.sample_rate * self.window_length_ms <= usize::MAX,
        ensures
            n == self.spec_window_samples(),
    {
        self.sample_rate * self.window_length_ms / 1000
    }

    pub fn keep_samples(&self) -> (n: usize)
        requires
            self.sample_rate * self.keep_ms <= usize::MAX,
        ensures
            n == self.spec_keep_samples(),
    {
        self.sample_rate * self.keep_ms / 1000
    }

    pub fn capacity(&self) -> (n: usize)
        requires
            self.sample_rate * self.window_length_ms <= usize::MAX,
            2 * self.spec_window_samples() <= usize::MAX,
        ensures
            n == self.spec_capacity(),
    {
        2 * self.window_samples()
    }
}

impl Default for StreamConfig {
    /// The default configuration: a 10 s window, a 2 s step, 200 ms of
    /// carry-over, 16 kHz audio.
    fn default() -> (c: Self)
        ensures
            c.window_length_ms == 10000,
            c.step_ms == 2000,
            c.keep_ms == 200,
            c.sample_rate == 16000,
    {
        StreamConfig { window_length_ms: 10000, step_ms: 2000, keep_ms: 200, sample_rate: 16000 }
    }
}

} // verus!
