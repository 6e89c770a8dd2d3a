use vstd::prelude::*;
use vstd::arithmetic::div_mod::{lemma_mod_add_multiples_vanish, lemma_mod_bound};

verus! {

/// The Shepard compositor folds a pitch into one canonical two-octave band
/// around the tuning note and blends five octave-shifted copies of it, each
/// weighted by a triangular window that falls to zero two octaves away from
/// the tuning note.  Pitches reaching this module are whole semitone
/// offsets, so the fold and the window are exact integer arithmetic; only
/// the conversion of a semitone offset to Hertz is left to the caller.
///
/// Folding `(octaves + 1) mod 2 - 1` in the octave domain is
/// `(semitones + 12) mod 24 - 12` in the semitone domain; the result lies
/// in `[-12, 12)`, i.e. the anchor frequency lies in
/// `[tuning / 2, tuning * 2)`.
pub open spec fn spec_fold(p: int) -> int {
    (p + 12) % 24 - 12
}

/// Numerator, over the fixed denominator 120, of the triangular blending
/// window at `q` semitones from the tuning note:
/// `(2 - |q| / 12) * 0.1 == (24 - |q|) / 120`, and exactly zero at and
/// beyond two octaves.
pub open spec fn spec_weight_num(q: int) -> int {
    if -24 <= q <= 24 {
        24 - vstd::math::abs(q)
    } else {
        0
    }
}

/// One octave-shifted copy of the folded tone: its semitone offset from
/// the tuning note and its window weight as a numerator over 120.
#[derive(Debug, Clone, Copy, PartialEq, Eq, Structural)]
pub struct ShepardComponent {
    pub semitones: i32,
    pub weight_num: i32,
}

/// Fold a semitone offset into the canonical band `[-12, 12)` around the
/// tuning note.
pub fn fold_octave(p: i32) -> (f: i32)
    ensures
        f == spec_fold(p as int),
        -12 <= f < 12,
{
    proof {
        lemma_mod_bound(p as int + 12, 24);
    }
    let m: i64 = match (p as i64 + 12).checked_rem_euclid(24) {
        Some(v) => v,
        None => 0,
    };
    (m - 12) as i32
}

/// The triangular window weight at `q` semitones from the tuning note, as
/// a numerator over the fixed denominator 120.
pub fn shepard_weight(q: i32) -> (w: i32)
    ensures
        w == spec_weight_num(q as int),
{
    if q > 24 || q < -24 {
        0
    } else if q < 0 {
        24 + q
    } else {
        24 - q
    }
}

/// The five octave-spaced components blended for a tone at semitone offset
/// `p`: the folded anchor, then the anchor shifted down one octave, up one
/// octave, down two octaves, and up two octaves, each with its window
/// weight.  The outermost two always sit at or beyond the band edge on one
/// side, so at most the folding keeps their weight nonzero on the other.
pub fn shepard_components(p: i32) -> (v: Vec<ShepardComponent>)
    ensures
        v@.len() == 5,
        v@[0].semitones == spec_fold(p as int),
        v@[1].semitones == spec_fold(p as int) - 12,
        v@[2].semitones == spec_fold(p as int) + 12,
        v@[3].semitones == spec_fold(p as int) - 24,
        v@[4].semitones == spec_fold(p as int) + 24,
        forall|k: int| 0 <= k < 5 ==> (#[trigger] v@[k]).weight_num == spec_weight_num(v@[k].semitones as int),
{
    let a: i32 = fold_octave(p);
    let mut v: Vec<ShepardComponent> = Vec::new();
    v.push(ShepardComponent { semitones: a, weight_num: shepard_weight(a) });
    v.push(ShepardComponent { semitones: a - 12, weight_num: shepard_weight(a - 12) });
    v.push(ShepardComponent { semitones: a + 12, weight_num: shepard_weight(a + 12) });
    v.push(ShepardComponent { semitones: a - 24, weight_num: shepard_weight(a - 24) });
    v.push(ShepardComponent { semitones: a + 24, weight_num: shepard_weight(a + 24) });
    v
}

/// The fold is octave-ambiguous in the sense the compositor needs: a tone
/// two octaves up (the frequency multiplied by four) folds to the same
/// anchor.
pub proof fn lemma_fold_two_octaves_up(p: int)
    ensures
        spec_fold(p + 24) == spec_fold(p),
{
    lemma_mod_add_multiples_vanish(p + 12, 24);
}

/// The window is exactly zero at the band edges, two octaves above and two
/// octaves below the tuning note.
pub proof fn lemma_weight_zero_at_band_edges()
    ensures
        spec_weight_num(24) == 0,
        spec_weight_num(-24) == 0,
{
}

} // verus!
