//! Finding the calibration point that applies to a distance

use vstd::prelude::*;
use crate::configs::{PulseRepetitionFrequency, UwbChannel};
use crate::ranging::{contains_mm, correction_at, lemma_next_range, lower_mm_at};
use crate::ranging::tables::{
    calibration_table, lemma_calibration_table_valid, spec_calibration_table, table_valid,
    CalibrationPoint,
};

verus! {

impl CalibrationPoint {
    /// Used for binary searching. Tells if the given value is below, in or above the range.
    fn is_in_range(&self, distance_mm: i64) -> (r: core::cmp::Ordering)
        ensures
            (r is Less) == (distance_mm < self.lower_bound_cm * 10),
            (r is Greater) == (self.lower_bound_cm * 10 <= distance_mm && (self.upper_bound_cm matches Some(
                u,
            ) && distance_mm > u * 10)),
            (r is Equal) == contains_mm(*self, distance_mm),
    {
        // Test for below lower bound
        if distance_mm < self.lower_mm() {
            return core::cmp::Ordering::Less;
        }
        // Test for above upper bound
        if let Some(upper) = self.upper_mm() {
            if distance_mm > upper {
                return core::cmp::Ordering::Greater;
            }
        }
        // It's >= than the lower bound and (either <= than the upper bound, or
        // there's no upper bound)
        core::cmp::Ordering::Equal
    }

}

/// Finds the correction for `distance_mm` in the calibration table for
/// `channel` and `prf`, by a binary search for the range that holds it.
pub(crate) fn calculate_distance_fudge(distance_mm: i64, channel: UwbChannel, prf: PulseRepetitionFrequency) -> (r: i64)
    requires
        distance_mm >= 0,
    ensures
        exists|i: usize| #[trigger] correction_at(spec_calibration_table(channel, prf), i, distance_mm, r),
{
    let table = calibration_table(channel, prf);
    proof {
        lemma_calibration_table_valid(channel, prf);
    }
    let mut lo: usize = 0;
    let mut hi: usize = table.len();
    loop
        invariant
            table@ == spec_calibration_table(channel, prf),
            table_valid(table@),
            distance_mm >= 0,
            lo < hi <= table@.len(),
            lower_mm_at(table@, lo) <= distance_mm,
            hi < table@.len() ==> distance_mm < lower_mm_at(table@, hi),
        decreases hi - lo,
    {
        let mid = lo + (hi - lo) / 2;
        proof {
            lemma_next_range(table@, mid);
        }
        match table[mid].is_in_range(distance_mm) {
            core::cmp::Ordering::Less => {
                hi = mid;
            },
            core::cmp::Ordering::Greater => {
                proof {
                    if mid + 1 == hi && hi < table@.len() {
                        assert(false);
                    }
                }
                lo = mid + 1;
            },
            core::cmp::Ordering::Equal => {
                let r = table[mid].get_adjustment_mm();
                assert(correction_at(table@, mid, distance_mm, r));
                return r;
            },
        }
    }
}

} // verus!
