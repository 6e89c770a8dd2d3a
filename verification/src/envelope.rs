use vstd::prelude::*;

verus! {

/// The amplitude envelope of a note, evaluated at a sample tick and scaled
/// by `80 * rate` so that every piece is exact integer arithmetic.
///
/// With `t = i / rate` seconds of elapsed time inside a note lasting
/// `D = n / rate` seconds, the envelope is the piecewise curve
///
/// - `t / 0.025`                          while `t < 0.025`  (ramp 0 to 1),
/// - `0.8 + 0.2 * (t - 0.025) / 0.025`    while `t < 0.05`   (ramp 0.8 to 1),
/// - `0.8`                                while `t < D - 0.0125`,
/// - `(D - t) / 0.0125 * 0.8`             afterwards          (decay to 0),
///
/// and multiplying through by `80 * rate` turns the four pieces into
/// `3200 * i`, `48 * rate + 640 * i`, `64 * rate` and `5120 * (n - i)`,
/// with the branch conditions becoming `40 * i < rate`, `20 * i < rate`
/// and `80 * i + rate < 80 * n`.  The drop from 1 at the end of the first
/// ramp down to 0.8 at the start of the second is a deliberate quirk of
/// the shaping curve and is kept, not smoothed.
pub open spec fn spec_envelope_scaled(i: int, n: int, rate: int) -> int {
    if 40 * i < rate {
        3200 * i
    } else if 20 * i < rate {
        48 * rate + 640 * i
    } else if 80 * i + rate < 80 * n {
        64 * rate
    } else {
        5120 * (n - i)
    }
}

/// The envelope at tick `i` of a note `n` ticks long, scaled by
/// `80 * rate`; the caller recovers the amplitude by dividing the result
/// by `80 * rate`.
pub fn envelope_scaled(i: u64, n: u64, rate: u32) -> (e: i128)
    requires
        rate >= 1,
    ensures
        e == spec_envelope_scaled(i as int, n as int, rate as int),
{
    let it: u128 = i as u128;
    let nt: u128 = n as u128;
    let r: u128 = rate as u128;
    if 40 * it < r {
        (3200 * it) as i128
    } else if 20 * it < r {
        (48 * r + 640 * it) as i128
    } else if 80 * it + r < 80 * nt {
        (64 * r) as i128
    } else {
        5120 * (nt as i128 - it as i128)
    }
}

/// The envelope starts at exactly zero.
pub proof fn lemma_envelope_starts_at_zero(n: int, rate: int)
    requires
        rate >= 1,
    ensures
        spec_envelope_scaled(0, n, rate) == 0,
{
}

/// The attack boundary is discontinuous.  Throughout the first ramp the
/// envelope stays strictly below full amplitude (scaled: `80 * rate`),
/// which it approaches tick by tick; yet at a tick landing exactly on the
/// 25 ms boundary the second ramp has already begun and the envelope is
/// exactly 0.8 (scaled: `64 * rate`).
pub proof fn lemma_envelope_attack_discontinuity(i: int, n: int, rate: int)
    requires
        rate >= 1,
        40 * i == rate,
    ensures
        spec_envelope_scaled(i, n, rate) == 64 * rate,
        forall|j: int|
            0 <= j && 40 * j < rate ==> #[trigger] spec_envelope_scaled(j, n, rate) == 3200 * j
                && 3200 * j < 80 * rate,
{
}

} // verus!
