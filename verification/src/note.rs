use vstd::prelude::*;

verus! {

/// A pitch as a signed count of equal-tempered semitones relative to the
/// tuning reference; offset 0 is the tuning note itself.
pub type Pitch = i16;

/// A note length as a positive count of beats.
pub type Duration = u16;

/// One melody note: a semitone offset and a length in beats.
#[derive(Debug, Clone, Copy, PartialEq, Eq, Structural)]
pub struct Note(pub Pitch, pub Duration);

/// Number of semitones in one octave of the equal-tempered scale.
#[allow(non_snake_case)]
pub fn NOTES_IN_SCALE() -> (n: u64)
    ensures
        n == 12,
{
    12
}

impl Note {
    /// Shift the pitch by `change` semitones, leaving the length alone.
    pub fn transpose(self, change: Pitch) -> (r: Note)
        requires
            i16::MIN <= self.0 + change <= i16::MAX,
        ensures
            r.0 == self.0 + change,
            r.1 == self.1,
    {
        Note(self.0 + change, self.1)
    }

    /// Stretch the length by an integer factor, leaving the pitch alone.
    pub fn scale_time(self, factor: Duration) -> (r: Note)
        requires
            self.1 * factor <= u16::MAX,
        ensures
            r.0 == self.0,
            r.1 == self.1 * factor,
    {
        Note(self.0, self.1 * factor)
    }
}

} // verus!
