use vstd::prelude::*;
use vstd::arithmetic::div_mod::{
    lemma_add_mod_noop, lemma_mod_bound, lemma_mod_sub_multiples_vanish, lemma_small_mod,
};

verus! {

/// The byte that the quantizer produces for a displacement whose value,
/// multiplied by 127 and truncated toward zero, is `scaled`.
///
/// Classic bias-127 unsigned 8-bit PCM with deliberate wraparound: the
/// scaled displacement is reduced modulo 256 (the signed-byte wraparound)
/// and then 127 is added with unsigned 8-bit wraparound.  Both steps
/// together are one Euclidean remainder.
pub open spec fn spec_sample(scaled: int) -> int {
    (scaled + 127) % 256
}

/// Quantize a displacement to one unsigned 8-bit sample.
///
/// `scaled` is the displacement multiplied by 127 and truncated toward
/// zero.  Out-of-range values wrap around rather than saturate; that
/// distortion is part of the sound and must not be clamped away.
pub fn to_sample(scaled: i64) -> (r: u8)
    ensures
        r == spec_sample(scaled as int),
{
    proof {
        lemma_mod_bound(scaled as int, 256);
    }
    let low: i64 = match scaled.checked_rem_euclid(256) {
        Some(v) => v,
        None => 0,
    };
    assert(low == scaled as int % 256 && 0 <= low < 256);
    let b: u8 = low as u8;
    let r: u8 = b.wrapping_add(127);
    proof {
        if low + 127 <= 255 {
            lemma_small_mod((low + 127) as nat, 256nat);
        } else {
            lemma_mod_sub_multiples_vanish(low + 127, 256);
            lemma_small_mod((low + 127 - 256) as nat, 256nat);
        }
        lemma_add_mod_noop(scaled as int, 127, 256);
        lemma_small_mod(127nat, 256nat);
    }
    r
}

} // verus!
