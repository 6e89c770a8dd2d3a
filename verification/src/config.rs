use vstd::prelude::*;

verus! {

/// The knobs of one synthesis run.  The beat length is kept as an exact
/// rational number of seconds (`beat_num / beat_den`), so that per-note
/// sample counts can be computed without rounding drift.
#[derive(Debug, Clone, Copy, PartialEq, Eq, Structural)]
pub struct Config {
    /// Samples per second of the output stream.
    pub sample_rate: u32,
    /// Numerator of the beat length in seconds.
    pub beat_num: u32,
    /// Denominator of the beat length in seconds.
    pub beat_den: u32,
    /// How many transposed passes over the melody make up the run.
    pub passes: u16,
    /// Semitones added per pass index.
    pub transpose_step: i16,
    /// Semitones subtracted from every pass's transposition.
    pub transpose_offset: i16,
    /// Integer factor applied to every note length before playing it.
    pub duration_scale: u16,
}

impl Config {
    /// Well-formedness: all rates and ratios are positive, and the number of
    /// samples in one second's worth of beats stays within machine range.
    pub open spec fn wf(self) -> bool {
        &&& self.sample_rate >= 1
        &&& self.beat_num >= 1
        &&& self.beat_den >= 1
        &&& self.sample_rate * self.beat_num <= u32::MAX
        &&& self.duration_scale >= 1
    }

    /// The default run: 44100 Hz output, quarter-second beats, thirteen
    /// passes stepping up three semitones each (offset by two), and every
    /// note length doubled.
    pub fn standard() -> (c: Config)
        ensures
            c == (Config {
                sample_rate: 44100,
                beat_num: 1,
                beat_den: 4,
                passes: 13,
                transpose_step: 3,
                transpose_offset: 2,
                duration_scale: 2,
            }),
            c.wf(),
    {
        Config {
            sample_rate: 44100,
            beat_num: 1,
            beat_den: 4,
            passes: 13,
            transpose_step: 3,
            transpose_offset: 2,
            duration_scale: 2,
        }
    }

    /// The same run with the other supported beat preset, half-second beats.
    pub fn half_second_beat() -> (c: Config)
        ensures
            c == (Config {
                sample_rate: 44100,
                beat_num: 1,
                beat_den: 2,
                passes: 13,
                transpose_step: 3,
                transpose_offset: 2,
                duration_scale: 2,
            }),
            c.wf(),
    {
        Config {
            sample_rate: 44100,
            beat_num: 1,
            beat_den: 2,
            passes: 13,
            transpose_step: 3,
            transpose_offset: 2,
            duration_scale: 2,
        }
    }
}

} // verus!
