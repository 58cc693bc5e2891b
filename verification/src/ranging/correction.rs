//! Correction of measured ranges for the range bias
//!
//! The correction depends on the measured range, the channel and the PRF. A
//! table of correction factors lists pairs of an upper bound of the measured
//! range, in cm, and the correction that applies up to it, in cm.

use vstd::prelude::*;

verus! {

/// The table covers the whole range of `u16`: its last upper bound is
/// `u16::MAX`.
pub open spec fn covers_u16(correction: Seq<(u16, i16)>) -> bool {
    &&& correction.len() > 0
    &&& correction.last().0 == u16::MAX
}

/// Entry `i` is the first whose upper bound is at least `measured_range_cm`.
pub open spec fn first_covering(correction: Seq<(u16, i16)>, measured_range_cm: u16, i: int) -> bool {
    &&& 0 <= i < correction.len()
    &&& measured_range_cm <= correction[i].0
    &&& forall|j: int| 0 <= j < i ==> correction[j].0 < measured_range_cm
}

/// `value` clamped to the range of `u16`
pub open spec fn clamp_u16(value: int) -> int {
    if value < 0 {
        0
    } else if value > u16::MAX {
        u16::MAX as int
    } else {
        value
    }
}

/// Correct a measurement based on range bias.
///
/// Applies the correction of the first entry whose upper bound is at least
/// the measured range, and clamps the result to the range of `u16`. The
/// correction factors must cover the entire range of `measured_range_cm`: the
/// last item must have an upper bound of `u16::MAX`.
pub fn correct_range_bias(correction: &[(u16, i16)], measured_range_cm: u16) -> (r: u16)
    requires
        covers_u16(correction@),
    ensures
        exists|i: int|
            #[trigger] first_covering(correction@, measured_range_cm, i) && r == clamp_u16(
                measured_range_cm + correction@[i].1,
            ),
{
    let mut k: usize = 0;
    while k < correction.len()
        invariant
            covers_u16(correction@),
            k <= correction@.len(),
            forall|j: int| 0 <= j < k ==> correction@[j].0 < measured_range_cm,
        decreases correction@.len() - k,
    {
        let (dist, corr) = correction[k];
        if measured_range_cm <= dist {
            let val = measured_range_cm as i32 + corr as i32;
            // Clamp to sane u16 values
            let clamped = if val < 0 {
                0
            } else if val > u16::MAX as i32 {
                u16::MAX
            } else {
                val as u16
            };
            assert(first_covering(correction@, measured_range_cm, k as int));
            return clamped;
        }
        k = k + 1;
    }
    // The last upper bound is `u16::MAX`, so the loop has returned.
    proof {
        assert(correction@[correction@.len() - 1].0 < measured_range_cm);
    }
    0
}

/// Correction factors for channel 2 at 64 MHz PRF, as (upper bound in cm,
/// correction in cm)
pub open spec fn spec_ch_2_prf_64() -> Seq<(u16, i16)> {
    seq![(25u16, -17i16), (50u16, -16i16), (75u16, -14i16), (100u16, -13i16), (150u16, -11i16), (225u16, -10i16), (300u16, -9i16), (350u16, -8i16), (425u16, -7i16), (475u16, -6i16), (525u16, -5i16), (600u16, -4i16), (650u16, -3i16), (700u16, -2i16), (775u16, -1i16), (825u16, 0i16), (925u16, 1i16), (1050u16, 2i16), (1225u16, 3i16), (1700u16, 4i16), (2225u16, 5i16), (2625u16, 6i16), (3450u16, 7i16), (65535u16, 8i16)]
}

/// Correction factors for channel 2 at 64 MHz PRF, as (upper bound in cm,
/// correction in cm)
pub fn ch_2_prf_64() -> (r: Vec<(u16, i16)>)
    ensures
        r@ == spec_ch_2_prf_64(),
        covers_u16(r@),
{
    vec![(25, -17), (50, -16), (75, -14), (100, -13), (150, -11), (225, -10), (300, -9), (350, -8), (425, -7), (475, -6), (525, -5), (600, -4), (650, -3), (700, -2), (775, -1), (825, 0), (925, 1), (1050, 2), (1225, 3), (1700, 4), (2225, 5), (2625, 6), (3450, 7), (65535, 8)]
}

/// Correction factors for channel 3 at 64 MHz PRF, as (upper bound in cm,
/// correction in cm)
pub open spec fn spec_ch_3_prf_64() -> Seq<(u16, i16)> {
    seq![(25u16, -17i16), (50u16, -15i16), (75u16, -14i16), (100u16, -12i16), (125u16, -11i16), (200u16, -10i16), (250u16, -9i16), (325u16, -8i16), (375u16, -7i16), (425u16, -6i16), (475u16, -5i16), (525u16, -4i16), (575u16, -3i16), (625u16, -2i16), (675u16, -1i16), (750u16, 0i16), (825u16, 1i16), (925u16, 2i16), (1100u16, 3i16), (1500u16, 4i16), (1975u16, 5i16), (2325u16, 6i16), (3050u16, 7i16), (65535u16, 8i16)]
}

/// Correction factors for channel 3 at 64 MHz PRF, as (upper bound in cm,
/// correction in cm)
pub fn ch_3_prf_64() -> (r: Vec<(u16, i16)>)
    ensures
        r@ == spec_ch_3_prf_64(),
        covers_u16(r@),
{
    vec![(25, -17), (50, -15), (75, -14), (100, -12), (125, -11), (200, -10), (250, -9), (325, -8), (375, -7), (425, -6), (475, -5), (525, -4), (575, -3), (625, -2), (675, -1), (750, 0), (825, 1), (925, 2), (1100, 3), (1500, 4), (1975, 5), (2325, 6), (3050, 7), (65535, 8)]
}

/// Correction factors for channel 5 at 64 MHz PRF, as (upper bound in cm,
/// correction in cm)
pub open spec fn spec_ch_5_prf_64() -> Seq<(u16, i16)> {
    seq![(25u16, -17i16), (50u16, -14i16), (75u16, -12i16), (100u16, -11i16), (150u16, -10i16), (175u16, -9i16), (225u16, -8i16), (250u16, -7i16), (300u16, -6i16), (325u16, -5i16), (375u16, -4i16), (400u16, -3i16), (425u16, -2i16), (475u16, -1i16), (525u16, 0i16), (575u16, 1i16), (650u16, 2i16), (750u16, 3i16), (1050u16, 4i16), (1375u16, 5i16), (1625u16, 6i16), (2125u16, 7i16), (65535u16, 8i16)]
}

/// Correction factors for channel 5 at 64 MHz PRF, as (upper bound in cm,
/// correction in cm)
pub fn ch_5_prf_64() -> (r: Vec<(u16, i16)>)
    ensures
        r@ == spec_ch_5_prf_64(),
        covers_u16(r@),
{
    vec![(25, -17), (50, -14), (75, -12), (100, -11), (150, -10), (175, -9), (225, -8), (250, -7), (300, -6), (325, -5), (375, -4), (400, -3), (425, -2), (475, -1), (525, 0), (575, 1), (650, 2), (750, 3), (1050, 4), (1375, 5), (1625, 6), (2125, 7), (65535, 8)]
}

} // verus!
