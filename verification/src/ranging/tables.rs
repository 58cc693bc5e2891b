//! The range bias calibration tables
//!
//! For each channel and pulse repetition frequency, a table of distance
//! ranges, each with the correction that applies to distances in it. The
//! ranges follow each other without gaps, starting at 0, and the last one has
//! no upper bound.

use vstd::prelude::*;
use crate::configs::{PulseRepetitionFrequency, UwbChannel};

verus! {

/// A range of distances and the correction that applies to it
#[derive(Clone, Copy, Debug)]
pub struct CalibrationPoint {
    /// This is how much to take off the range
    pub value_cm: u8,
    /// Lower bound for this point
    pub lower_bound_cm: u16,
    /// Upper bound for this point
    pub upper_bound_cm: Option<u16>,
}

/// From entry `i` on, each range ends where the next one starts, the
/// corrections do not decrease from one range to the next, and the last one
/// has no upper bound.
pub open spec fn ranges_follow_from(t: Seq<CalibrationPoint>, i: nat) -> bool
    decreases t.len() - i,
{
    if i + 1 >= t.len() {
        i + 1 == t.len() && t[i as int].upper_bound_cm is None
    } else {
        &&& t[i as int].upper_bound_cm == Some(t[i as int + 1].lower_bound_cm)
        &&& t[i as int].lower_bound_cm < t[i as int + 1].lower_bound_cm
        &&& t[i as int].value_cm <= t[i as int + 1].value_cm
        &&& ranges_follow_from(t, i + 1)
    }
}

/// The table's ranges start at 0 and follow each other without gaps, with
/// corrections that do not decrease; the last one has no upper bound.
pub open spec fn table_valid(t: Seq<CalibrationPoint>) -> bool {
    &&& t.len() >= 1
    &&& t[0].lower_bound_cm == 0
    &&& ranges_follow_from(t, 0)
}

/// The calibration points for Channel1 at 16 MHz
pub open spec fn spec_channel1_prf16() -> Seq<CalibrationPoint> {
    seq![
        CalibrationPoint { value_cm: 0, lower_bound_cm: 0, upper_bound_cm: Some(25) },
        CalibrationPoint { value_cm: 1, lower_bound_cm: 25, upper_bound_cm: Some(75) },
        CalibrationPoint { value_cm: 2, lower_bound_cm: 75, upper_bound_cm: Some(100) },
        CalibrationPoint { value_cm: 3, lower_bound_cm: 100, upper_bound_cm: Some(125) },
        CalibrationPoint { value_cm: 4, lower_bound_cm: 125, upper_bound_cm: Some(175) },
        CalibrationPoint { value_cm: 5, lower_bound_cm: 175, upper_bound_cm: Some(225) },
        CalibrationPoint { value_cm: 6, lower_bound_cm: 225, upper_bound_cm: Some(275) },
        CalibrationPoint { value_cm: 7, lower_bound_cm: 275, upper_bound_cm: Some(300) },
        CalibrationPoint { value_cm: 8, lower_bound_cm: 300, upper_bound_cm: Some(325) },
        CalibrationPoint { value_cm: 9, lower_bound_cm: 325, upper_bound_cm: Some(375) },
        CalibrationPoint { value_cm: 10, lower_bound_cm: 375, upper_bound_cm: Some(450) },
        CalibrationPoint { value_cm: 11, lower_bound_cm: 450, upper_bound_cm: Some(500) },
        CalibrationPoint { value_cm: 12, lower_bound_cm: 500, upper_bound_cm: Some(575) },
        CalibrationPoint { value_cm: 13, lower_bound_cm: 575, upper_bound_cm: Some(625) },
        CalibrationPoint { value_cm: 14, lower_bound_cm: 625, upper_bound_cm: Some(700) },
        CalibrationPoint { value_cm: 15, lower_bound_cm: 700, upper_bound_cm: Some(750) },
        CalibrationPoint { value_cm: 16, lower_bound_cm: 750, upper_bound_cm: Some(825) },
        CalibrationPoint { value_cm: 17, lower_bound_cm: 825, upper_bound_cm: Some(900) },
        CalibrationPoint { value_cm: 18, lower_bound_cm: 900, upper_bound_cm: Some(1000) },
        CalibrationPoint { value_cm: 19, lower_bound_cm: 1000, upper_bound_cm: Some(1075) },
        CalibrationPoint { value_cm: 20, lower_bound_cm: 1075, upper_bound_cm: Some(1175) },
        CalibrationPoint { value_cm: 21, lower_bound_cm: 1175, upper_bound_cm: Some(1250) },
        CalibrationPoint { value_cm: 22, lower_bound_cm: 1250, upper_bound_cm: Some(1350) },
        CalibrationPoint { value_cm: 23, lower_bound_cm: 1350, upper_bound_cm: Some(1450) },
        CalibrationPoint { value_cm: 24, lower_bound_cm: 1450, upper_bound_cm: Some(1575) },
        CalibrationPoint { value_cm: 25, lower_bound_cm: 1575, upper_bound_cm: Some(1650) },
        CalibrationPoint { value_cm: 26, lower_bound_cm: 1650, upper_bound_cm: Some(1775) },
        CalibrationPoint { value_cm: 27, lower_bound_cm: 1775, upper_bound_cm: Some(1900) },
        CalibrationPoint { value_cm: 28, lower_bound_cm: 1900, upper_bound_cm: Some(2050) },
        CalibrationPoint { value_cm: 29, lower_bound_cm: 2050, upper_bound_cm: Some(2225) },
        CalibrationPoint { value_cm: 30, lower_bound_cm: 2225, upper_bound_cm: Some(2450) },
        CalibrationPoint { value_cm: 31, lower_bound_cm: 2450, upper_bound_cm: Some(2725) },
        CalibrationPoint { value_cm: 32, lower_bound_cm: 2725, upper_bound_cm: Some(3175) },
        CalibrationPoint { value_cm: 33, lower_bound_cm: 3175, upper_bound_cm: Some(3875) },
        CalibrationPoint { value_cm: 34, lower_bound_cm: 3875, upper_bound_cm: Some(5550) },
        CalibrationPoint { value_cm: 35, lower_bound_cm: 5550, upper_bound_cm: None },
    ]
}

/// The calibration points for Channel2 at 16 MHz
pub open spec fn spec_channel2_prf16() -> Seq<CalibrationPoint> {
    seq![
        CalibrationPoint { value_cm: 0, lower_bound_cm: 0, upper_bound_cm: Some(25) },
        CalibrationPoint { value_cm: 1, lower_bound_cm: 25, upper_bound_cm: Some(50) },
        CalibrationPoint { value_cm: 2, lower_bound_cm: 50, upper_bound_cm: Some(100) },
        CalibrationPoint { value_cm: 3, lower_bound_cm: 100, upper_bound_cm: Some(125) },
        CalibrationPoint { value_cm: 4, lower_bound_cm: 125, upper_bound_cm: Some(150) },
        CalibrationPoint { value_cm: 5, lower_bound_cm: 150, upper_bound_cm: Some(200) },
        CalibrationPoint { value_cm: 6, lower_bound_cm: 200, upper_bound_cm: Some(225) },
        CalibrationPoint { value_cm: 7, lower_bound_cm: 225, upper_bound_cm: Some(250) },
        CalibrationPoint { value_cm: 8, lower_bound_cm: 250, upper_bound_cm: Some(300) },
        CalibrationPoint { value_cm: 9, lower_bound_cm: 300, upper_bound_cm: Some(325) },
        CalibrationPoint { value_cm: 10, lower_bound_cm: 325, upper_bound_cm: Some(375) },
        CalibrationPoint { value_cm: 11, lower_bound_cm: 375, upper_bound_cm: Some(450) },
        CalibrationPoint { value_cm: 12, lower_bound_cm: 450, upper_bound_cm: Some(500) },
        CalibrationPoint { value_cm: 13, lower_bound_cm: 500, upper_bound_cm: Some(550) },
        CalibrationPoint { value_cm: 14, lower_bound_cm: 550, upper_bound_cm: Some(600) },
        CalibrationPoint { value_cm: 15, lower_bound_cm: 600, upper_bound_cm: Some(675) },
        CalibrationPoint { value_cm: 16, lower_bound_cm: 675, upper_bound_cm: Some(725) },
        CalibrationPoint { value_cm: 17, lower_bound_cm: 725, upper_bound_cm: Some(800) },
        CalibrationPoint { value_cm: 18, lower_bound_cm: 800, upper_bound_cm: Some(875) },
        CalibrationPoint { value_cm: 19, lower_bound_cm: 875, upper_bound_cm: Some(950) },
        CalibrationPoint { value_cm: 20, lower_bound_cm: 950, upper_bound_cm: Some(1025) },
        CalibrationPoint { value_cm: 21, lower_bound_cm: 1025, upper_bound_cm: Some(1100) },
        CalibrationPoint { value_cm: 22, lower_bound_cm: 1100, upper_bound_cm: Some(1175) },
        CalibrationPoint { value_cm: 23, lower_bound_cm: 1175, upper_bound_cm: Some(1275) },
        CalibrationPoint { value_cm: 24, lower_bound_cm: 1275, upper_bound_cm: Some(1375) },
        CalibrationPoint { value_cm: 25, lower_bound_cm: 1375, upper_bound_cm: Some(1450) },
        CalibrationPoint { value_cm: 26, lower_bound_cm: 1450, upper_bound_cm: Some(1550) },
        CalibrationPoint { value_cm: 27, lower_bound_cm: 1550, upper_bound_cm: Some(1650) },
        CalibrationPoint { value_cm: 28, lower_bound_cm: 1650, upper_bound_cm: Some(1775) },
        CalibrationPoint { value_cm: 29, lower_bound_cm: 1775, upper_bound_cm: Some(1950) },
        CalibrationPoint { value_cm: 30, lower_bound_cm: 1950, upper_bound_cm: Some(2125) },
        CalibrationPoint { value_cm: 31, lower_bound_cm: 2125, upper_bound_cm: Some(2400) },
        CalibrationPoint { value_cm: 32, lower_bound_cm: 2400, upper_bound_cm: Some(2775) },
        CalibrationPoint { value_cm: 33, lower_bound_cm: 2775, upper_bound_cm: Some(3375) },
        CalibrationPoint { value_cm: 34, lower_bound_cm: 3375, upper_bound_cm: Some(4850) },
        CalibrationPoint { value_cm: 35, lower_bound_cm: 4850, upper_bound_cm: Some(6000) },
        CalibrationPoint { value_cm: 36, lower_bound_cm: 6000, upper_bound_cm: None },
    ]
}

/// The calibration points for Channel3 at 16 MHz
pub open spec fn spec_channel3_prf16() -> Seq<CalibrationPoint> {
    seq![
        CalibrationPoint { value_cm: 0, lower_bound_cm: 0, upper_bound_cm: Some(25) },
        CalibrationPoint { value_cm: 1, lower_bound_cm: 25, upper_bound_cm: Some(50) },
        CalibrationPoint { value_cm: 2, lower_bound_cm: 50, upper_bound_cm: Some(75) },
        CalibrationPoint { value_cm: 3, lower_bound_cm: 75, upper_bound_cm: Some(100) },
        CalibrationPoint { value_cm: 4, lower_bound_cm: 100, upper_bound_cm: Some(125) },
        CalibrationPoint { value_cm: 5, lower_bound_cm: 125, upper_bound_cm: Some(175) },
        CalibrationPoint { value_cm: 6, lower_bound_cm: 175, upper_bound_cm: Some(200) },
        CalibrationPoint { value_cm: 7, lower_bound_cm: 200, upper_bound_cm: Some(225) },
        CalibrationPoint { value_cm: 8, lower_bound_cm: 225, upper_bound_cm: Some(250) },
        CalibrationPoint { value_cm: 9, lower_bound_cm: 250, upper_bound_cm: Some(300) },
        CalibrationPoint { value_cm: 10, lower_bound_cm: 300, upper_bound_cm: Some(350) },
        CalibrationPoint { value_cm: 11, lower_bound_cm: 350, upper_bound_cm: Some(400) },
        CalibrationPoint { value_cm: 12, lower_bound_cm: 400, upper_bound_cm: Some(450) },
        CalibrationPoint { value_cm: 13, lower_bound_cm: 450, upper_bound_cm: Some(500) },
        CalibrationPoint { value_cm: 14, lower_bound_cm: 500, upper_bound_cm: Some(550) },
        CalibrationPoint { value_cm: 15, lower_bound_cm: 550, upper_bound_cm: Some(600) },
        CalibrationPoint { value_cm: 16, lower_bound_cm: 600, upper_bound_cm: Some(650) },
        CalibrationPoint { value_cm: 17, lower_bound_cm: 650, upper_bound_cm: Some(700) },
        CalibrationPoint { value_cm: 18, lower_bound_cm: 700, upper_bound_cm: Some(775) },
        CalibrationPoint { value_cm: 19, lower_bound_cm: 775, upper_bound_cm: Some(825) },
        CalibrationPoint { value_cm: 20, lower_bound_cm: 825, upper_bound_cm: Some(900) },
        CalibrationPoint { value_cm: 21, lower_bound_cm: 900, upper_bound_cm: Some(975) },
        CalibrationPoint { value_cm: 22, lower_bound_cm: 975, upper_bound_cm: Some(1050) },
        CalibrationPoint { value_cm: 23, lower_bound_cm: 1050, upper_bound_cm: Some(1125) },
        CalibrationPoint { value_cm: 24, lower_bound_cm: 1125, upper_bound_cm: Some(1225) },
        CalibrationPoint { value_cm: 25, lower_bound_cm: 1225, upper_bound_cm: Some(1300) },
        CalibrationPoint { value_cm: 26, lower_bound_cm: 1300, upper_bound_cm: Some(1375) },
        CalibrationPoint { value_cm: 27, lower_bound_cm: 1375, upper_bound_cm: Some(1475) },
        CalibrationPoint { value_cm: 28, lower_bound_cm: 1475, upper_bound_cm: Some(1575) },
        CalibrationPoint { value_cm: 29, lower_bound_cm: 1575, upper_bound_cm: Some(1725) },
        CalibrationPoint { value_cm: 30, lower_bound_cm: 1725, upper_bound_cm: Some(1900) },
        CalibrationPoint { value_cm: 31, lower_bound_cm: 1900, upper_bound_cm: Some(2125) },
        CalibrationPoint { value_cm: 32, lower_bound_cm: 2125, upper_bound_cm: Some(2450) },
        CalibrationPoint { value_cm: 33, lower_bound_cm: 2450, upper_bound_cm: Some(3000) },
        CalibrationPoint { value_cm: 34, lower_bound_cm: 3000, upper_bound_cm: Some(4325) },
        CalibrationPoint { value_cm: 35, lower_bound_cm: 4325, upper_bound_cm: Some(5325) },
        CalibrationPoint { value_cm: 36, lower_bound_cm: 5325, upper_bound_cm: None },
    ]
}

/// The calibration points for Channel4 at 16 MHz
pub open spec fn spec_channel4_prf16() -> Seq<CalibrationPoint> {
    seq![
        CalibrationPoint { value_cm: 0, lower_bound_cm: 0, upper_bound_cm: Some(175) },
        CalibrationPoint { value_cm: 2, lower_bound_cm: 175, upper_bound_cm: Some(200) },
        CalibrationPoint { value_cm: 3, lower_bound_cm: 200, upper_bound_cm: Some(225) },
        CalibrationPoint { value_cm: 5, lower_bound_cm: 225, upper_bound_cm: Some(250) },
        CalibrationPoint { value_cm: 6, lower_bound_cm: 250, upper_bound_cm: Some(275) },
        CalibrationPoint { value_cm: 8, lower_bound_cm: 275, upper_bound_cm: Some(300) },
        CalibrationPoint { value_cm: 9, lower_bound_cm: 300, upper_bound_cm: Some(325) },
        CalibrationPoint { value_cm: 10, lower_bound_cm: 325, upper_bound_cm: Some(350) },
        CalibrationPoint { value_cm: 11, lower_bound_cm: 350, upper_bound_cm: Some(375) },
        CalibrationPoint { value_cm: 12, lower_bound_cm: 375, upper_bound_cm: Some(400) },
        CalibrationPoint { value_cm: 13, lower_bound_cm: 400, upper_bound_cm: Some(425) },
        CalibrationPoint { value_cm: 14, lower_bound_cm: 425, upper_bound_cm: Some(450) },
        CalibrationPoint { value_cm: 15, lower_bound_cm: 450, upper_bound_cm: Some(475) },
        CalibrationPoint { value_cm: 16, lower_bound_cm: 475, upper_bound_cm: Some(500) },
        CalibrationPoint { value_cm: 17, lower_bound_cm: 500, upper_bound_cm: Some(525) },
        CalibrationPoint { value_cm: 18, lower_bound_cm: 525, upper_bound_cm: Some(550) },
        CalibrationPoint { value_cm: 19, lower_bound_cm: 550, upper_bound_cm: Some(575) },
        CalibrationPoint { value_cm: 20, lower_bound_cm: 575, upper_bound_cm: Some(600) },
        CalibrationPoint { value_cm: 21, lower_bound_cm: 600, upper_bound_cm: Some(650) },
        CalibrationPoint { value_cm: 22, lower_bound_cm: 650, upper_bound_cm: Some(675) },
        CalibrationPoint { value_cm: 23, lower_bound_cm: 675, upper_bound_cm: Some(700) },
        CalibrationPoint { value_cm: 24, lower_bound_cm: 700, upper_bound_cm: Some(750) },
        CalibrationPoint { value_cm: 25, lower_bound_cm: 750, upper_bound_cm: Some(775) },
        CalibrationPoint { value_cm: 26, lower_bound_cm: 775, upper_bound_cm: Some(800) },
        CalibrationPoint { value_cm: 27, lower_bound_cm: 800, upper_bound_cm: Some(850) },
        CalibrationPoint { value_cm: 28, lower_bound_cm: 850, upper_bound_cm: Some(900) },
        CalibrationPoint { value_cm: 29, lower_bound_cm: 900, upper_bound_cm: Some(950) },
        CalibrationPoint { value_cm: 30, lower_bound_cm: 950, upper_bound_cm: Some(1000) },
        CalibrationPoint { value_cm: 31, lower_bound_cm: 1000, upper_bound_cm: Some(1050) },
        CalibrationPoint { value_cm: 32, lower_bound_cm: 1050, upper_bound_cm: Some(1100) },
        CalibrationPoint { value_cm: 33, lower_bound_cm: 1100, upper_bound_cm: Some(1150) },
        CalibrationPoint { value_cm: 34, lower_bound_cm: 1150, upper_bound_cm: Some(1200) },
        CalibrationPoint { value_cm: 35, lower_bound_cm: 1200, upper_bound_cm: Some(1250) },
        CalibrationPoint { value_cm: 36, lower_bound_cm: 1250, upper_bound_cm: Some(1300) },
        CalibrationPoint { value_cm: 37, lower_bound_cm: 1300, upper_bound_cm: Some(1375) },
        CalibrationPoint { value_cm: 38, lower_bound_cm: 1375, upper_bound_cm: Some(1425) },
        CalibrationPoint { value_cm: 39, lower_bound_cm: 1425, upper_bound_cm: Some(1475) },
        CalibrationPoint { value_cm: 40, lower_bound_cm: 1475, upper_bound_cm: Some(1525) },
        CalibrationPoint { value_cm: 41, lower_bound_cm: 1525, upper_bound_cm: Some(1575) },
        CalibrationPoint { value_cm: 42, lower_bound_cm: 1575, upper_bound_cm: Some(1650) },
        CalibrationPoint { value_cm: 43, lower_bound_cm: 1650, upper_bound_cm: Some(1700) },
        CalibrationPoint { value_cm: 44, lower_bound_cm: 1700, upper_bound_cm: Some(1775) },
        CalibrationPoint { value_cm: 45, lower_bound_cm: 1775, upper_bound_cm: Some(1850) },
        CalibrationPoint { value_cm: 46, lower_bound_cm: 1850, upper_bound_cm: Some(1950) },
        CalibrationPoint { value_cm: 47, lower_bound_cm: 1950, upper_bound_cm: Some(2025) },
        CalibrationPoint { value_cm: 48, lower_bound_cm: 2025, upper_bound_cm: Some(2125) },
        CalibrationPoint { value_cm: 49, lower_bound_cm: 2125, upper_bound_cm: Some(2225) },
        CalibrationPoint { value_cm: 50, lower_bound_cm: 2225, upper_bound_cm: Some(2350) },
        CalibrationPoint { value_cm: 51, lower_bound_cm: 2350, upper_bound_cm: Some(2475) },
        CalibrationPoint { value_cm: 52, lower_bound_cm: 2475, upper_bound_cm: Some(2600) },
        CalibrationPoint { value_cm: 53, lower_bound_cm: 2600, upper_bound_cm: Some(2750) },
        CalibrationPoint { value_cm: 54, lower_bound_cm: 2750, upper_bound_cm: Some(2900) },
        CalibrationPoint { value_cm: 55, lower_bound_cm: 2900, upper_bound_cm: Some(3075) },
        CalibrationPoint { value_cm: 56, lower_bound_cm: 3075, upper_bound_cm: Some(3250) },
        CalibrationPoint { value_cm: 57, lower_bound_cm: 3250, upper_bound_cm: Some(3475) },
        CalibrationPoint { value_cm: 58, lower_bound_cm: 3475, upper_bound_cm: Some(3750) },
        CalibrationPoint { value_cm: 59, lower_bound_cm: 3750, upper_bound_cm: Some(4100) },
        CalibrationPoint { value_cm: 60, lower_bound_cm: 4100, upper_bound_cm: Some(4550) },
        CalibrationPoint { value_cm: 61, lower_bound_cm: 4550, upper_bound_cm: Some(5175) },
        CalibrationPoint { value_cm: 62, lower_bound_cm: 5175, upper_bound_cm: Some(5950) },
        CalibrationPoint { value_cm: 63, lower_bound_cm: 5950, upper_bound_cm: None },
    ]
}

/// The calibration points for Channel5 at 16 MHz
pub open spec fn spec_channel5_prf16() -> Seq<CalibrationPoint> {
    seq![
        CalibrationPoint { value_cm: 0, lower_bound_cm: 0, upper_bound_cm: Some(25) },
        CalibrationPoint { value_cm: 2, lower_bound_cm: 25, upper_bound_cm: Some(50) },
        CalibrationPoint { value_cm: 3, lower_bound_cm: 50, upper_bound_cm: Some(75) },
        CalibrationPoint { value_cm: 4, lower_bound_cm: 75, upper_bound_cm: Some(100) },
        CalibrationPoint { value_cm: 5, lower_bound_cm: 100, upper_bound_cm: Some(125) },
        CalibrationPoint { value_cm: 6, lower_bound_cm: 125, upper_bound_cm: Some(150) },
        CalibrationPoint { value_cm: 8, lower_bound_cm: 150, upper_bound_cm: Some(175) },
        CalibrationPoint { value_cm: 9, lower_bound_cm: 175, upper_bound_cm: Some(200) },
        CalibrationPoint { value_cm: 10, lower_bound_cm: 200, upper_bound_cm: Some(225) },
        CalibrationPoint { value_cm: 11, lower_bound_cm: 225, upper_bound_cm: Some(275) },
        CalibrationPoint { value_cm: 12, lower_bound_cm: 275, upper_bound_cm: Some(300) },
        CalibrationPoint { value_cm: 13, lower_bound_cm: 300, upper_bound_cm: Some(350) },
        CalibrationPoint { value_cm: 14, lower_bound_cm: 350, upper_bound_cm: Some(375) },
        CalibrationPoint { value_cm: 15, lower_bound_cm: 375, upper_bound_cm: Some(400) },
        CalibrationPoint { value_cm: 16, lower_bound_cm: 400, upper_bound_cm: Some(450) },
        CalibrationPoint { value_cm: 17, lower_bound_cm: 450, upper_bound_cm: Some(500) },
        CalibrationPoint { value_cm: 18, lower_bound_cm: 500, upper_bound_cm: Some(525) },
        CalibrationPoint { value_cm: 19, lower_bound_cm: 525, upper_bound_cm: Some(575) },
        CalibrationPoint { value_cm: 20, lower_bound_cm: 575, upper_bound_cm: Some(625) },
        CalibrationPoint { value_cm: 21, lower_bound_cm: 625, upper_bound_cm: Some(675) },
        CalibrationPoint { value_cm: 22, lower_bound_cm: 675, upper_bound_cm: Some(725) },
        CalibrationPoint { value_cm: 23, lower_bound_cm: 725, upper_bound_cm: Some(775) },
        CalibrationPoint { value_cm: 24, lower_bound_cm: 775, upper_bound_cm: Some(850) },
        CalibrationPoint { value_cm: 25, lower_bound_cm: 850, upper_bound_cm: Some(900) },
        CalibrationPoint { value_cm: 26, lower_bound_cm: 900, upper_bound_cm: Some(950) },
        CalibrationPoint { value_cm: 27, lower_bound_cm: 950, upper_bound_cm: Some(1025) },
        CalibrationPoint { value_cm: 28, lower_bound_cm: 1025, upper_bound_cm: Some(1100) },
        CalibrationPoint { value_cm: 29, lower_bound_cm: 1100, upper_bound_cm: Some(1200) },
        CalibrationPoint { value_cm: 30, lower_bound_cm: 1200, upper_bound_cm: Some(1325) },
        CalibrationPoint { value_cm: 31, lower_bound_cm: 1325, upper_bound_cm: Some(1475) },
        CalibrationPoint { value_cm: 32, lower_bound_cm: 1475, upper_bound_cm: Some(1700) },
        CalibrationPoint { value_cm: 33, lower_bound_cm: 1700, upper_bound_cm: Some(2075) },
        CalibrationPoint { value_cm: 34, lower_bound_cm: 2075, upper_bound_cm: Some(3000) },
        CalibrationPoint { value_cm: 35, lower_bound_cm: 3000, upper_bound_cm: Some(3700) },
        CalibrationPoint { value_cm: 36, lower_bound_cm: 3700, upper_bound_cm: None },
    ]
}

/// The calibration points for Channel7 at 16 MHz
pub open spec fn spec_channel7_prf16() -> Seq<CalibrationPoint> {
    seq![
        CalibrationPoint { value_cm: 0, lower_bound_cm: 0, upper_bound_cm: Some(100) },
        CalibrationPoint { value_cm: 1, lower_bound_cm: 100, upper_bound_cm: Some(125) },
        CalibrationPoint { value_cm: 4, lower_bound_cm: 125, upper_bound_cm: Some(150) },
        CalibrationPoint { value_cm: 6, lower_bound_cm: 150, upper_bound_cm: Some(175) },
        CalibrationPoint { value_cm: 9, lower_bound_cm: 175, upper_bound_cm: Some(200) },
        CalibrationPoint { value_cm: 10, lower_bound_cm: 200, upper_bound_cm: Some(225) },
        CalibrationPoint { value_cm: 12, lower_bound_cm: 225, upper_bound_cm: Some(250) },
        CalibrationPoint { value_cm: 14, lower_bound_cm: 250, upper_bound_cm: Some(275) },
        CalibrationPoint { value_cm: 16, lower_bound_cm: 275, upper_bound_cm: Some(300) },
        CalibrationPoint { value_cm: 17, lower_bound_cm: 300, upper_bound_cm: Some(325) },
        CalibrationPoint { value_cm: 19, lower_bound_cm: 325, upper_bound_cm: Some(350) },
        CalibrationPoint { value_cm: 20, lower_bound_cm: 350, upper_bound_cm: Some(375) },
        CalibrationPoint { value_cm: 21, lower_bound_cm: 375, upper_bound_cm: Some(400) },
        CalibrationPoint { value_cm: 22, lower_bound_cm: 400, upper_bound_cm: Some(425) },
        CalibrationPoint { value_cm: 24, lower_bound_cm: 425, upper_bound_cm: Some(450) },
        CalibrationPoint { value_cm: 25, lower_bound_cm: 450, upper_bound_cm: Some(475) },
        CalibrationPoint { value_cm: 26, lower_bound_cm: 475, upper_bound_cm: Some(500) },
        CalibrationPoint { value_cm: 27, lower_bound_cm: 500, upper_bound_cm: Some(525) },
        CalibrationPoint { value_cm: 28, lower_bound_cm: 525, upper_bound_cm: Some(550) },
        CalibrationPoint { value_cm: 29, lower_bound_cm: 550, upper_bound_cm: Some(575) },
        CalibrationPoint { value_cm: 30, lower_bound_cm: 575, upper_bound_cm: Some(625) },
        CalibrationPoint { value_cm: 31, lower_bound_cm: 625, upper_bound_cm: Some(650) },
        CalibrationPoint { value_cm: 32, lower_bound_cm: 650, upper_bound_cm: Some(675) },
        CalibrationPoint { value_cm: 33, lower_bound_cm: 675, upper_bound_cm: Some(725) },
        CalibrationPoint { value_cm: 34, lower_bound_cm: 725, upper_bound_cm: Some(750) },
        CalibrationPoint { value_cm: 35, lower_bound_cm: 750, upper_bound_cm: Some(775) },
        CalibrationPoint { value_cm: 36, lower_bound_cm: 775, upper_bound_cm: Some(800) },
        CalibrationPoint { value_cm: 37, lower_bound_cm: 800, upper_bound_cm: Some(850) },
        CalibrationPoint { value_cm: 38, lower_bound_cm: 850, upper_bound_cm: Some(875) },
        CalibrationPoint { value_cm: 39, lower_bound_cm: 875, upper_bound_cm: Some(900) },
        CalibrationPoint { value_cm: 40, lower_bound_cm: 900, upper_bound_cm: Some(950) },
        CalibrationPoint { value_cm: 41, lower_bound_cm: 950, upper_bound_cm: Some(975) },
        CalibrationPoint { value_cm: 42, lower_bound_cm: 975, upper_bound_cm: Some(1000) },
        CalibrationPoint { value_cm: 43, lower_bound_cm: 1000, upper_bound_cm: Some(1050) },
        CalibrationPoint { value_cm: 44, lower_bound_cm: 1050, upper_bound_cm: Some(1100) },
        CalibrationPoint { value_cm: 45, lower_bound_cm: 1100, upper_bound_cm: Some(1150) },
        CalibrationPoint { value_cm: 46, lower_bound_cm: 1150, upper_bound_cm: Some(1200) },
        CalibrationPoint { value_cm: 47, lower_bound_cm: 1200, upper_bound_cm: Some(1250) },
        CalibrationPoint { value_cm: 48, lower_bound_cm: 1250, upper_bound_cm: Some(1300) },
        CalibrationPoint { value_cm: 49, lower_bound_cm: 1300, upper_bound_cm: Some(1375) },
        CalibrationPoint { value_cm: 50, lower_bound_cm: 1375, upper_bound_cm: Some(1450) },
        CalibrationPoint { value_cm: 51, lower_bound_cm: 1450, upper_bound_cm: Some(1525) },
        CalibrationPoint { value_cm: 52, lower_bound_cm: 1525, upper_bound_cm: Some(1600) },
        CalibrationPoint { value_cm: 53, lower_bound_cm: 1600, upper_bound_cm: Some(1700) },
        CalibrationPoint { value_cm: 54, lower_bound_cm: 1700, upper_bound_cm: Some(1800) },
        CalibrationPoint { value_cm: 55, lower_bound_cm: 1800, upper_bound_cm: Some(1875) },
        CalibrationPoint { value_cm: 56, lower_bound_cm: 1875, upper_bound_cm: Some(2000) },
        CalibrationPoint { value_cm: 57, lower_bound_cm: 2000, upper_bound_cm: Some(2125) },
        CalibrationPoint { value_cm: 58, lower_bound_cm: 2125, upper_bound_cm: Some(2300) },
        CalibrationPoint { value_cm: 59, lower_bound_cm: 2300, upper_bound_cm: Some(2525) },
        CalibrationPoint { value_cm: 60, lower_bound_cm: 2525, upper_bound_cm: Some(2800) },
        CalibrationPoint { value_cm: 61, lower_bound_cm: 2800, upper_bound_cm: Some(3175) },
        CalibrationPoint { value_cm: 62, lower_bound_cm: 3175, upper_bound_cm: Some(3675) },
        CalibrationPoint { value_cm: 63, lower_bound_cm: 3675, upper_bound_cm: Some(4200) },
        CalibrationPoint { value_cm: 64, lower_bound_cm: 4200, upper_bound_cm: Some(4550) },
        CalibrationPoint { value_cm: 65, lower_bound_cm: 4550, upper_bound_cm: Some(4850) },
        CalibrationPoint { value_cm: 66, lower_bound_cm: 4850, upper_bound_cm: Some(5125) },
        CalibrationPoint { value_cm: 67, lower_bound_cm: 5125, upper_bound_cm: None },
    ]
}

/// The calibration points for Channel1 at 64 MHz
pub open spec fn spec_channel1_prf64() -> Seq<CalibrationPoint> {
    seq![
        CalibrationPoint { value_cm: 0, lower_bound_cm: 0, upper_bound_cm: Some(25) },
        CalibrationPoint { value_cm: 1, lower_bound_cm: 25, upper_bound_cm: Some(50) },
        CalibrationPoint { value_cm: 3, lower_bound_cm: 50, upper_bound_cm: Some(75) },
        CalibrationPoint { value_cm: 4, lower_bound_cm: 75, upper_bound_cm: Some(100) },
        CalibrationPoint { value_cm: 5, lower_bound_cm: 100, upper_bound_cm: Some(125) },
        CalibrationPoint { value_cm: 6, lower_bound_cm: 125, upper_bound_cm: Some(175) },
        CalibrationPoint { value_cm: 7, lower_bound_cm: 175, upper_bound_cm: Some(250) },
        CalibrationPoint { value_cm: 8, lower_bound_cm: 250, upper_bound_cm: Some(325) },
        CalibrationPoint { value_cm: 9, lower_bound_cm: 325, upper_bound_cm: Some(400) },
        CalibrationPoint { value_cm: 10, lower_bound_cm: 400, upper_bound_cm: Some(475) },
        CalibrationPoint { value_cm: 11, lower_bound_cm: 475, upper_bound_cm: Some(550) },
        CalibrationPoint { value_cm: 12, lower_bound_cm: 550, upper_bound_cm: Some(600) },
        CalibrationPoint { value_cm: 13, lower_bound_cm: 600, upper_bound_cm: Some(675) },
        CalibrationPoint { value_cm: 14, lower_bound_cm: 675, upper_bound_cm: Some(750) },
        CalibrationPoint { value_cm: 15, lower_bound_cm: 750, upper_bound_cm: Some(800) },
        CalibrationPoint { value_cm: 16, lower_bound_cm: 800, upper_bound_cm: Some(875) },
        CalibrationPoint { value_cm: 17, lower_bound_cm: 875, upper_bound_cm: Some(950) },
        CalibrationPoint { value_cm: 18, lower_bound_cm: 950, upper_bound_cm: Some(1075) },
        CalibrationPoint { value_cm: 19, lower_bound_cm: 1075, upper_bound_cm: Some(1200) },
        CalibrationPoint { value_cm: 20, lower_bound_cm: 1200, upper_bound_cm: Some(1400) },
        CalibrationPoint { value_cm: 21, lower_bound_cm: 1400, upper_bound_cm: Some(1950) },
        CalibrationPoint { value_cm: 22, lower_bound_cm: 1950, upper_bound_cm: Some(2525) },
        CalibrationPoint { value_cm: 23, lower_bound_cm: 2525, upper_bound_cm: Some(3000) },
        CalibrationPoint { value_cm: 24, lower_bound_cm: 3000, upper_bound_cm: Some(3925) },
        CalibrationPoint { value_cm: 25, lower_bound_cm: 3925, upper_bound_cm: None },
    ]
}

/// The calibration points for Channel2 at 64 MHz
pub open spec fn spec_channel2_prf64() -> Seq<CalibrationPoint> {
    seq![
        CalibrationPoint { value_cm: 0, lower_bound_cm: 0, upper_bound_cm: Some(25) },
        CalibrationPoint { value_cm: 1, lower_bound_cm: 25, upper_bound_cm: Some(50) },
        CalibrationPoint { value_cm: 3, lower_bound_cm: 50, upper_bound_cm: Some(75) },
        CalibrationPoint { value_cm: 4, lower_bound_cm: 75, upper_bound_cm: Some(100) },
        CalibrationPoint { value_cm: 6, lower_bound_cm: 100, upper_bound_cm: Some(150) },
        CalibrationPoint { value_cm: 7, lower_bound_cm: 150, upper_bound_cm: Some(225) },
        CalibrationPoint { value_cm: 8, lower_bound_cm: 225, upper_bound_cm: Some(300) },
        CalibrationPoint { value_cm: 9, lower_bound_cm: 300, upper_bound_cm: Some(350) },
        CalibrationPoint { value_cm: 10, lower_bound_cm: 350, upper_bound_cm: Some(425) },
        CalibrationPoint { value_cm: 11, lower_bound_cm: 425, upper_bound_cm: Some(475) },
        CalibrationPoint { value_cm: 12, lower_bound_cm: 475, upper_bound_cm: Some(525) },
        CalibrationPoint { value_cm: 13, lower_bound_cm: 525, upper_bound_cm: Some(600) },
        CalibrationPoint { value_cm: 14, lower_bound_cm: 600, upper_bound_cm: Some(650) },
        CalibrationPoint { value_cm: 15, lower_bound_cm: 650, upper_bound_cm: Some(700) },
        CalibrationPoint { value_cm: 16, lower_bound_cm: 700, upper_bound_cm: Some(775) },
        CalibrationPoint { value_cm: 17, lower_bound_cm: 775, upper_bound_cm: Some(825) },
        CalibrationPoint { value_cm: 18, lower_bound_cm: 825, upper_bound_cm: Some(925) },
        CalibrationPoint { value_cm: 19, lower_bound_cm: 925, upper_bound_cm: Some(1050) },
        CalibrationPoint { value_cm: 20, lower_bound_cm: 1050, upper_bound_cm: Some(1225) },
        CalibrationPoint { value_cm: 21, lower_bound_cm: 1225, upper_bound_cm: Some(1700) },
        CalibrationPoint { value_cm: 22, lower_bound_cm: 1700, upper_bound_cm: Some(2225) },
        CalibrationPoint { value_cm: 23, lower_bound_cm: 2225, upper_bound_cm: Some(2625) },
        CalibrationPoint { value_cm: 24, lower_bound_cm: 2625, upper_bound_cm: Some(3450) },
        CalibrationPoint { value_cm: 25, lower_bound_cm: 3450, upper_bound_cm: None },
    ]
}

/// The calibration points for Channel3 at 64 MHz
pub open spec fn spec_channel3_prf64() -> Seq<CalibrationPoint> {
    seq![
        CalibrationPoint { value_cm: 0, lower_bound_cm: 0, upper_bound_cm: Some(25) },
        CalibrationPoint { value_cm: 2, lower_bound_cm: 25, upper_bound_cm: Some(50) },
        CalibrationPoint { value_cm: 3, lower_bound_cm: 50, upper_bound_cm: Some(75) },
        CalibrationPoint { value_cm: 5, lower_bound_cm: 75, upper_bound_cm: Some(100) },
        CalibrationPoint { value_cm: 6, lower_bound_cm: 100, upper_bound_cm: Some(125) },
        CalibrationPoint { value_cm: 7, lower_bound_cm: 125, upper_bound_cm: Some(200) },
        CalibrationPoint { value_cm: 8, lower_bound_cm: 200, upper_bound_cm: Some(250) },
        CalibrationPoint { value_cm: 9, lower_bound_cm: 250, upper_bound_cm: Some(325) },
        CalibrationPoint { value_cm: 10, lower_bound_cm: 325, upper_bound_cm: Some(375) },
        CalibrationPoint { value_cm: 11, lower_bound_cm: 375, upper_bound_cm: Some(425) },
        CalibrationPoint { value_cm: 12, lower_bound_cm: 425, upper_bound_cm: Some(475) },
        CalibrationPoint { value_cm: 13, lower_bound_cm: 475, upper_bound_cm: Some(525) },
        CalibrationPoint { value_cm: 14, lower_bound_cm: 525, upper_bound_cm: Some(575) },
        CalibrationPoint { value_cm: 15, lower_bound_cm: 575, upper_bound_cm: Some(625) },
        CalibrationPoint { value_cm: 16, lower_bound_cm: 625, upper_bound_cm: Some(675) },
        CalibrationPoint { value_cm: 17, lower_bound_cm: 675, upper_bound_cm: Some(750) },
        CalibrationPoint { value_cm: 18, lower_bound_cm: 750, upper_bound_cm: Some(825) },
        CalibrationPoint { value_cm: 19, lower_bound_cm: 825, upper_bound_cm: Some(925) },
        CalibrationPoint { value_cm: 20, lower_bound_cm: 925, upper_bound_cm: Some(1100) },
        CalibrationPoint { value_cm: 21, lower_bound_cm: 1100, upper_bound_cm: Some(1500) },
        CalibrationPoint { value_cm: 22, lower_bound_cm: 1500, upper_bound_cm: Some(1975) },
        CalibrationPoint { value_cm: 23, lower_bound_cm: 1975, upper_bound_cm: Some(2325) },
        CalibrationPoint { value_cm: 24, lower_bound_cm: 2325, upper_bound_cm: Some(3050) },
        CalibrationPoint { value_cm: 25, lower_bound_cm: 3050, upper_bound_cm: None },
    ]
}

/// The calibration points for Channel4 at 64 MHz
pub open spec fn spec_channel4_prf64() -> Seq<CalibrationPoint> {
    seq![
        CalibrationPoint { value_cm: 0, lower_bound_cm: 0, upper_bound_cm: Some(175) },
        CalibrationPoint { value_cm: 1, lower_bound_cm: 175, upper_bound_cm: Some(200) },
        CalibrationPoint { value_cm: 3, lower_bound_cm: 200, upper_bound_cm: Some(225) },
        CalibrationPoint { value_cm: 5, lower_bound_cm: 225, upper_bound_cm: Some(250) },
        CalibrationPoint { value_cm: 6, lower_bound_cm: 250, upper_bound_cm: Some(275) },
        CalibrationPoint { value_cm: 7, lower_bound_cm: 275, upper_bound_cm: Some(300) },
        CalibrationPoint { value_cm: 8, lower_bound_cm: 300, upper_bound_cm: Some(325) },
        CalibrationPoint { value_cm: 10, lower_bound_cm: 325, upper_bound_cm: Some(350) },
        CalibrationPoint { value_cm: 11, lower_bound_cm: 350, upper_bound_cm: Some(375) },
        CalibrationPoint { value_cm: 12, lower_bound_cm: 375, upper_bound_cm: Some(400) },
        CalibrationPoint { value_cm: 14, lower_bound_cm: 400, upper_bound_cm: Some(425) },
        CalibrationPoint { value_cm: 15, lower_bound_cm: 425, upper_bound_cm: Some(450) },
        CalibrationPoint { value_cm: 16, lower_bound_cm: 450, upper_bound_cm: Some(475) },
        CalibrationPoint { value_cm: 18, lower_bound_cm: 475, upper_bound_cm: Some(500) },
        CalibrationPoint { value_cm: 19, lower_bound_cm: 500, upper_bound_cm: Some(525) },
        CalibrationPoint { value_cm: 20, lower_bound_cm: 525, upper_bound_cm: Some(550) },
        CalibrationPoint { value_cm: 21, lower_bound_cm: 550, upper_bound_cm: Some(600) },
        CalibrationPoint { value_cm: 22, lower_bound_cm: 600, upper_bound_cm: Some(625) },
        CalibrationPoint { value_cm: 23, lower_bound_cm: 625, upper_bound_cm: Some(675) },
        CalibrationPoint { value_cm: 24, lower_bound_cm: 675, upper_bound_cm: Some(700) },
        CalibrationPoint { value_cm: 25, lower_bound_cm: 700, upper_bound_cm: Some(725) },
        CalibrationPoint { value_cm: 26, lower_bound_cm: 725, upper_bound_cm: Some(750) },
        CalibrationPoint { value_cm: 27, lower_bound_cm: 750, upper_bound_cm: Some(800) },
        CalibrationPoint { value_cm: 28, lower_bound_cm: 800, upper_bound_cm: Some(825) },
        CalibrationPoint { value_cm: 29, lower_bound_cm: 825, upper_bound_cm: Some(850) },
        CalibrationPoint { value_cm: 30, lower_bound_cm: 850, upper_bound_cm: Some(875) },
        CalibrationPoint { value_cm: 31, lower_bound_cm: 875, upper_bound_cm: Some(925) },
        CalibrationPoint { value_cm: 32, lower_bound_cm: 925, upper_bound_cm: Some(975) },
        CalibrationPoint { value_cm: 33, lower_bound_cm: 975, upper_bound_cm: Some(1025) },
        CalibrationPoint { value_cm: 34, lower_bound_cm: 1025, upper_bound_cm: Some(1075) },
        CalibrationPoint { value_cm: 35, lower_bound_cm: 1075, upper_bound_cm: Some(1125) },
        CalibrationPoint { value_cm: 36, lower_bound_cm: 1125, upper_bound_cm: Some(1200) },
        CalibrationPoint { value_cm: 37, lower_bound_cm: 1200, upper_bound_cm: Some(1250) },
        CalibrationPoint { value_cm: 38, lower_bound_cm: 1250, upper_bound_cm: Some(1325) },
        CalibrationPoint { value_cm: 39, lower_bound_cm: 1325, upper_bound_cm: Some(1400) },
        CalibrationPoint { value_cm: 40, lower_bound_cm: 1400, upper_bound_cm: Some(1500) },
        CalibrationPoint { value_cm: 41, lower_bound_cm: 1500, upper_bound_cm: Some(1600) },
        CalibrationPoint { value_cm: 42, lower_bound_cm: 1600, upper_bound_cm: Some(1700) },
        CalibrationPoint { value_cm: 43, lower_bound_cm: 1700, upper_bound_cm: Some(1850) },
        CalibrationPoint { value_cm: 44, lower_bound_cm: 1850, upper_bound_cm: Some(2025) },
        CalibrationPoint { value_cm: 45, lower_bound_cm: 2025, upper_bound_cm: Some(2225) },
        CalibrationPoint { value_cm: 46, lower_bound_cm: 2225, upper_bound_cm: Some(2450) },
        CalibrationPoint { value_cm: 47, lower_bound_cm: 2450, upper_bound_cm: Some(2725) },
        CalibrationPoint { value_cm: 48, lower_bound_cm: 2725, upper_bound_cm: Some(3050) },
        CalibrationPoint { value_cm: 49, lower_bound_cm: 3050, upper_bound_cm: Some(3400) },
        CalibrationPoint { value_cm: 50, lower_bound_cm: 3400, upper_bound_cm: Some(3650) },
        CalibrationPoint { value_cm: 51, lower_bound_cm: 3650, upper_bound_cm: Some(3850) },
        CalibrationPoint { value_cm: 52, lower_bound_cm: 3850, upper_bound_cm: Some(4050) },
        CalibrationPoint { value_cm: 53, lower_bound_cm: 4050, upper_bound_cm: Some(4450) },
        CalibrationPoint { value_cm: 54, lower_bound_cm: 4450, upper_bound_cm: Some(5500) },
        CalibrationPoint { value_cm: 55, lower_bound_cm: 5500, upper_bound_cm: Some(6225) },
        CalibrationPoint { value_cm: 56, lower_bound_cm: 6225, upper_bound_cm: None },
    ]
}

/// The calibration points for Channel5 at 64 MHz
pub open spec fn spec_channel5_prf64() -> Seq<CalibrationPoint> {
    seq![
        CalibrationPoint { value_cm: 0, lower_bound_cm: 0, upper_bound_cm: Some(25) },
        CalibrationPoint { value_cm: 3, lower_bound_cm: 25, upper_bound_cm: Some(50) },
        CalibrationPoint { value_cm: 5, lower_bound_cm: 50, upper_bound_cm: Some(75) },
        CalibrationPoint { value_cm: 6, lower_bound_cm: 75, upper_bound_cm: Some(100) },
        CalibrationPoint { value_cm: 7, lower_bound_cm: 100, upper_bound_cm: Some(150) },
        CalibrationPoint { value_cm: 8, lower_bound_cm: 150, upper_bound_cm: Some(175) },
        CalibrationPoint { value_cm: 9, lower_bound_cm: 175, upper_bound_cm: Some(225) },
        CalibrationPoint { value_cm: 10, lower_bound_cm: 225, upper_bound_cm: Some(250) },
        CalibrationPoint { value_cm: 11, lower_bound_cm: 250, upper_bound_cm: Some(300) },
        CalibrationPoint { value_cm: 12, lower_bound_cm: 300, upper_bound_cm: Some(325) },
        CalibrationPoint { value_cm: 13, lower_bound_cm: 325, upper_bound_cm: Some(375) },
        CalibrationPoint { value_cm: 14, lower_bound_cm: 375, upper_bound_cm: Some(400) },
        CalibrationPoint { value_cm: 15, lower_bound_cm: 400, upper_bound_cm: Some(425) },
        CalibrationPoint { value_cm: 16, lower_bound_cm: 425, upper_bound_cm: Some(475) },
        CalibrationPoint { value_cm: 17, lower_bound_cm: 475, upper_bound_cm: Some(525) },
        CalibrationPoint { value_cm: 18, lower_bound_cm: 525, upper_bound_cm: Some(575) },
        CalibrationPoint { value_cm: 19, lower_bound_cm: 575, upper_bound_cm: Some(650) },
        CalibrationPoint { value_cm: 20, lower_bound_cm: 650, upper_bound_cm: Some(750) },
        CalibrationPoint { value_cm: 21, lower_bound_cm: 750, upper_bound_cm: Some(1050) },
        CalibrationPoint { value_cm: 22, lower_bound_cm: 1050, upper_bound_cm: Some(1375) },
        CalibrationPoint { value_cm: 23, lower_bound_cm: 1375, upper_bound_cm: Some(1625) },
        CalibrationPoint { value_cm: 24, lower_bound_cm: 1625, upper_bound_cm: Some(2125) },
        CalibrationPoint { value_cm: 25, lower_bound_cm: 2125, upper_bound_cm: None },
    ]
}

/// The calibration points for Channel7 at 64 MHz
pub open spec fn spec_channel7_prf64() -> Seq<CalibrationPoint> {
    seq![
        CalibrationPoint { value_cm: 0, lower_bound_cm: 0, upper_bound_cm: Some(100) },
        CalibrationPoint { value_cm: 1, lower_bound_cm: 100, upper_bound_cm: Some(125) },
        CalibrationPoint { value_cm: 4, lower_bound_cm: 125, upper_bound_cm: Some(150) },
        CalibrationPoint { value_cm: 6, lower_bound_cm: 150, upper_bound_cm: Some(175) },
        CalibrationPoint { value_cm: 8, lower_bound_cm: 175, upper_bound_cm: Some(200) },
        CalibrationPoint { value_cm: 10, lower_bound_cm: 200, upper_bound_cm: Some(225) },
        CalibrationPoint { value_cm: 12, lower_bound_cm: 225, upper_bound_cm: Some(250) },
        CalibrationPoint { value_cm: 15, lower_bound_cm: 250, upper_bound_cm: Some(275) },
        CalibrationPoint { value_cm: 17, lower_bound_cm: 275, upper_bound_cm: Some(300) },
        CalibrationPoint { value_cm: 18, lower_bound_cm: 300, upper_bound_cm: Some(325) },
        CalibrationPoint { value_cm: 20, lower_bound_cm: 325, upper_bound_cm: Some(350) },
        CalibrationPoint { value_cm: 21, lower_bound_cm: 350, upper_bound_cm: Some(375) },
        CalibrationPoint { value_cm: 22, lower_bound_cm: 375, upper_bound_cm: Some(400) },
        CalibrationPoint { value_cm: 24, lower_bound_cm: 400, upper_bound_cm: Some(425) },
        CalibrationPoint { value_cm: 25, lower_bound_cm: 425, upper_bound_cm: Some(450) },
        CalibrationPoint { value_cm: 26, lower_bound_cm: 450, upper_bound_cm: Some(475) },
        CalibrationPoint { value_cm: 28, lower_bound_cm: 475, upper_bound_cm: Some(500) },
        CalibrationPoint { value_cm: 29, lower_bound_cm: 500, upper_bound_cm: Some(525) },
        CalibrationPoint { value_cm: 30, lower_bound_cm: 525, upper_bound_cm: Some(550) },
        CalibrationPoint { value_cm: 31, lower_bound_cm: 550, upper_bound_cm: Some(575) },
        CalibrationPoint { value_cm: 32, lower_bound_cm: 575, upper_bound_cm: Some(600) },
        CalibrationPoint { value_cm: 33, lower_bound_cm: 600, upper_bound_cm: Some(625) },
        CalibrationPoint { value_cm: 34, lower_bound_cm: 625, upper_bound_cm: Some(650) },
        CalibrationPoint { value_cm: 35, lower_bound_cm: 650, upper_bound_cm: Some(700) },
        CalibrationPoint { value_cm: 36, lower_bound_cm: 700, upper_bound_cm: Some(725) },
        CalibrationPoint { value_cm: 37, lower_bound_cm: 725, upper_bound_cm: Some(775) },
        CalibrationPoint { value_cm: 38, lower_bound_cm: 775, upper_bound_cm: Some(825) },
        CalibrationPoint { value_cm: 39, lower_bound_cm: 825, upper_bound_cm: Some(875) },
        CalibrationPoint { value_cm: 40, lower_bound_cm: 875, upper_bound_cm: Some(925) },
        CalibrationPoint { value_cm: 41, lower_bound_cm: 925, upper_bound_cm: Some(975) },
        CalibrationPoint { value_cm: 42, lower_bound_cm: 975, upper_bound_cm: Some(1050) },
        CalibrationPoint { value_cm: 43, lower_bound_cm: 1050, upper_bound_cm: Some(1150) },
        CalibrationPoint { value_cm: 44, lower_bound_cm: 1150, upper_bound_cm: Some(1250) },
        CalibrationPoint { value_cm: 45, lower_bound_cm: 1250, upper_bound_cm: Some(1350) },
        CalibrationPoint { value_cm: 46, lower_bound_cm: 1350, upper_bound_cm: Some(1500) },
        CalibrationPoint { value_cm: 47, lower_bound_cm: 1500, upper_bound_cm: Some(1675) },
        CalibrationPoint { value_cm: 48, lower_bound_cm: 1675, upper_bound_cm: Some(1875) },
        CalibrationPoint { value_cm: 49, lower_bound_cm: 1875, upper_bound_cm: Some(2075) },
        CalibrationPoint { value_cm: 50, lower_bound_cm: 2075, upper_bound_cm: Some(2250) },
        CalibrationPoint { value_cm: 51, lower_bound_cm: 2250, upper_bound_cm: Some(2375) },
        CalibrationPoint { value_cm: 52, lower_bound_cm: 2375, upper_bound_cm: Some(2500) },
        CalibrationPoint { value_cm: 53, lower_bound_cm: 2500, upper_bound_cm: Some(2750) },
        CalibrationPoint { value_cm: 54, lower_bound_cm: 2750, upper_bound_cm: Some(3375) },
        CalibrationPoint { value_cm: 55, lower_bound_cm: 3375, upper_bound_cm: Some(3825) },
        CalibrationPoint { value_cm: 56, lower_bound_cm: 3825, upper_bound_cm: Some(4300) },
        CalibrationPoint { value_cm: 57, lower_bound_cm: 4300, upper_bound_cm: Some(4800) },
        CalibrationPoint { value_cm: 58, lower_bound_cm: 4800, upper_bound_cm: None },
    ]
}

/// The calibration table for `channel` and `prf`
pub open spec fn spec_calibration_table(channel: UwbChannel, prf: PulseRepetitionFrequency) -> Seq<
    CalibrationPoint,
> {
    match (channel, prf) {
        (UwbChannel::Channel1, PulseRepetitionFrequency::Mhz16) => spec_channel1_prf16(),
        (UwbChannel::Channel2, PulseRepetitionFrequency::Mhz16) => spec_channel2_prf16(),
        (UwbChannel::Channel3, PulseRepetitionFrequency::Mhz16) => spec_channel3_prf16(),
        (UwbChannel::Channel4, PulseRepetitionFrequency::Mhz16) => spec_channel4_prf16(),
        (UwbChannel::Channel5, PulseRepetitionFrequency::Mhz16) => spec_channel5_prf16(),
        (UwbChannel::Channel7, PulseRepetitionFrequency::Mhz16) => spec_channel7_prf16(),
        (UwbChannel::Channel1, PulseRepetitionFrequency::Mhz64) => spec_channel1_prf64(),
        (UwbChannel::Channel2, PulseRepetitionFrequency::Mhz64) => spec_channel2_prf64(),
        (UwbChannel::Channel3, PulseRepetitionFrequency::Mhz64) => spec_channel3_prf64(),
        (UwbChannel::Channel4, PulseRepetitionFrequency::Mhz64) => spec_channel4_prf64(),
        (UwbChannel::Channel5, PulseRepetitionFrequency::Mhz64) => spec_channel5_prf64(),
        (UwbChannel::Channel7, PulseRepetitionFrequency::Mhz64) => spec_channel7_prf64(),
    }
}

/// Every calibration table is valid.
pub proof fn lemma_calibration_table_valid(channel: UwbChannel, prf: PulseRepetitionFrequency)
    ensures
        table_valid(spec_calibration_table(channel, prf)),
{
    match (channel, prf) {
        (UwbChannel::Channel1, PulseRepetitionFrequency::Mhz16) => {
            reveal_with_fuel(ranges_follow_from, 37);
        },
        (UwbChannel::Channel2, PulseRepetitionFrequency::Mhz16) => {
            reveal_with_fuel(ranges_follow_from, 38);
        },
        (UwbChannel::Channel3, PulseRepetitionFrequency::Mhz16) => {
            reveal_with_fuel(ranges_follow_from, 38);
        },
        (UwbChannel::Channel4, PulseRepetitionFrequency::Mhz16) => {
            reveal_with_fuel(ranges_follow_from, 62);
        },
        (UwbChannel::Channel5, PulseRepetitionFrequency::Mhz16) => {
            reveal_with_fuel(ranges_follow_from, 36);
        },
        (UwbChannel::Channel7, PulseRepetitionFrequency::Mhz16) => {
            reveal_with_fuel(ranges_follow_from, 59);
        },
        (UwbChannel::Channel1, PulseRepetitionFrequency::Mhz64) => {
            reveal_with_fuel(ranges_follow_from, 26);
        },
        (UwbChannel::Channel2, PulseRepetitionFrequency::Mhz64) => {
            reveal_with_fuel(ranges_follow_from, 25);
        },
        (UwbChannel::Channel3, PulseRepetitionFrequency::Mhz64) => {
            reveal_with_fuel(ranges_follow_from, 25);
        },
        (UwbChannel::Channel4, PulseRepetitionFrequency::Mhz64) => {
            reveal_with_fuel(ranges_follow_from, 53);
        },
        (UwbChannel::Channel5, PulseRepetitionFrequency::Mhz64) => {
            reveal_with_fuel(ranges_follow_from, 24);
        },
        (UwbChannel::Channel7, PulseRepetitionFrequency::Mhz64) => {
            reveal_with_fuel(ranges_follow_from, 48);
        },
    }
}

/// The calibration table for `channel` and `prf`
pub fn calibration_table(channel: UwbChannel, prf: PulseRepetitionFrequency) -> (t: Vec<CalibrationPoint>)
    ensures
        t@ == spec_calibration_table(channel, prf),
{
    match (channel, prf) {
        (UwbChannel::Channel1, PulseRepetitionFrequency::Mhz16) => vec![
            CalibrationPoint { value_cm: 0, lower_bound_cm: 0, upper_bound_cm: Some(25) },
            CalibrationPoint { value_cm: 1, lower_bound_cm: 25, upper_bound_cm: Some(75) },
            CalibrationPoint { value_cm: 2, lower_bound_cm: 75, upper_bound_cm: Some(100) },
            CalibrationPoint { value_cm: 3, lower_bound_cm: 100, upper_bound_cm: Some(125) },
            CalibrationPoint { value_cm: 4, lower_bound_cm: 125, upper_bound_cm: Some(175) },
            CalibrationPoint { value_cm: 5, lower_bound_cm: 175, upper_bound_cm: Some(225) },
            CalibrationPoint { value_cm: 6, lower_bound_cm: 225, upper_bound_cm: Some(275) },
            CalibrationPoint { value_cm: 7, lower_bound_cm: 275, upper_bound_cm: Some(300) },
            CalibrationPoint { value_cm: 8, lower_bound_cm: 300, upper_bound_cm: Some(325) },
            CalibrationPoint { value_cm: 9, lower_bound_cm: 325, upper_bound_cm: Some(375) },
            CalibrationPoint { value_cm: 10, lower_bound_cm: 375, upper_bound_cm: Some(450) },
            CalibrationPoint { value_cm: 11, lower_bound_cm: 450, upper_bound_cm: Some(500) },
            CalibrationPoint { value_cm: 12, lower_bound_cm: 500, upper_bound_cm: Some(575) },
            CalibrationPoint { value_cm: 13, lower_bound_cm: 575, upper_bound_cm: Some(625) },
            CalibrationPoint { value_cm: 14, lower_bound_cm: 625, upper_bound_cm: Some(700) },
            CalibrationPoint { value_cm: 15, lower_bound_cm: 700, upper_bound_cm: Some(750) },
            CalibrationPoint { value_cm: 16, lower_bound_cm: 750, upper_bound_cm: Some(825) },
            CalibrationPoint { value_cm: 17, lower_bound_cm: 825, upper_bound_cm: Some(900) },
            CalibrationPoint { value_cm: 18, lower_bound_cm: 900, upper_bound_cm: Some(1000) },
            CalibrationPoint { value_cm: 19, lower_bound_cm: 1000, upper_bound_cm: Some(1075) },
            CalibrationPoint { value_cm: 20, lower_bound_cm: 1075, upper_bound_cm: Some(1175) },
            CalibrationPoint { value_cm: 21, lower_bound_cm: 1175, upper_bound_cm: Some(1250) },
            CalibrationPoint { value_cm: 22, lower_bound_cm: 1250, upper_bound_cm: Some(1350) },
            CalibrationPoint { value_cm: 23, lower_bound_cm: 1350, upper_bound_cm: Some(1450) },
            CalibrationPoint { value_cm: 24, lower_bound_cm: 1450, upper_bound_cm: Some(1575) },
            CalibrationPoint { value_cm: 25, lower_bound_cm: 1575, upper_bound_cm: Some(1650) },
            CalibrationPoint { value_cm: 26, lower_bound_cm: 1650, upper_bound_cm: Some(1775) },
            CalibrationPoint { value_cm: 27, lower_bound_cm: 1775, upper_bound_cm: Some(1900) },
            CalibrationPoint { value_cm: 28, lower_bound_cm: 1900, upper_bound_cm: Some(2050) },
            CalibrationPoint { value_cm: 29, lower_bound_cm: 2050, upper_bound_cm: Some(2225) },
            CalibrationPoint { value_cm: 30, lower_bound_cm: 2225, upper_bound_cm: Some(2450) },
            CalibrationPoint { value_cm: 31, lower_bound_cm: 2450, upper_bound_cm: Some(2725) },
            CalibrationPoint { value_cm: 32, lower_bound_cm: 2725, upper_bound_cm: Some(3175) },
            CalibrationPoint { value_cm: 33, lower_bound_cm: 3175, upper_bound_cm: Some(3875) },
            CalibrationPoint { value_cm: 34, lower_bound_cm: 3875, upper_bound_cm: Some(5550) },
            CalibrationPoint { value_cm: 35, lower_bound_cm: 5550, upper_bound_cm: None },
        ],
        (UwbChannel::Channel2, PulseRepetitionFrequency::Mhz16) => vec![
            CalibrationPoint { value_cm: 0, lower_bound_cm: 0, upper_bound_cm: Some(25) },
            CalibrationPoint { value_cm: 1, lower_bound_cm: 25, upper_bound_cm: Some(50) },
            CalibrationPoint { value_cm: 2, lower_bound_cm: 50, upper_bound_cm: Some(100) },
            CalibrationPoint { value_cm: 3, lower_bound_cm: 100, upper_bound_cm: Some(125) },
            CalibrationPoint { value_cm: 4, lower_bound_cm: 125, upper_bound_cm: Some(150) },
            CalibrationPoint { value_cm: 5, lower_bound_cm: 150, upper_bound_cm: Some(200) },
            CalibrationPoint { value_cm: 6, lower_bound_cm: 200, upper_bound_cm: Some(225) },
            CalibrationPoint { value_cm: 7, lower_bound_cm: 225, upper_bound_cm: Some(250) },
            CalibrationPoint { value_cm: 8, lower_bound_cm: 250, upper_bound_cm: Some(300) },
            CalibrationPoint { value_cm: 9, lower_bound_cm: 300, upper_bound_cm: Some(325) },
            CalibrationPoint { value_cm: 10, lower_bound_cm: 325, upper_bound_cm: Some(375) },
            CalibrationPoint { value_cm: 11, lower_bound_cm: 375, upper_bound_cm: Some(450) },
            CalibrationPoint { value_cm: 12, lower_bound_cm: 450, upper_bound_cm: Some(500) },
            CalibrationPoint { value_cm: 13, lower_bound_cm: 500, upper_bound_cm: Some(550) },
            CalibrationPoint { value_cm: 14, lower_bound_cm: 550, upper_bound_cm: Some(600) },
            CalibrationPoint { value_cm: 15, lower_bound_cm: 600, upper_bound_cm: Some(675) },
            CalibrationPoint { value_cm: 16, lower_bound_cm: 675, upper_bound_cm: Some(725) },
            CalibrationPoint { value_cm: 17, lower_bound_cm: 725, upper_bound_cm: Some(800) },
            CalibrationPoint { value_cm: 18, lower_bound_cm: 800, upper_bound_cm: Some(875) },
            CalibrationPoint { value_cm: 19, lower_bound_cm: 875, upper_bound_cm: Some(950) },
            CalibrationPoint { value_cm: 20, lower_bound_cm: 950, upper_bound_cm: Some(1025) },
            CalibrationPoint { value_cm: 21, lower_bound_cm: 1025, upper_bound_cm: Some(1100) },
            CalibrationPoint { value_cm: 22, lower_bound_cm: 1100, upper_bound_cm: Some(1175) },
            CalibrationPoint { value_cm: 23, lower_bound_cm: 1175, upper_bound_cm: Some(1275) },
            CalibrationPoint { value_cm: 24, lower_bound_cm: 1275, upper_bound_cm: Some(1375) },
            CalibrationPoint { value_cm: 25, lower_bound_cm: 1375, upper_bound_cm: Some(1450) },
            CalibrationPoint { value_cm: 26, lower_bound_cm: 1450, upper_bound_cm: Some(1550) },
            CalibrationPoint { value_cm: 27, lower_bound_cm: 1550, upper_bound_cm: Some(1650) },
            CalibrationPoint { value_cm: 28, lower_bound_cm: 1650, upper_bound_cm: Some(1775) },
            CalibrationPoint { value_cm: 29, lower_bound_cm: 1775, upper_bound_cm: Some(1950) },
            CalibrationPoint { value_cm: 30, lower_bound_cm: 1950, upper_bound_cm: Some(2125) },
            CalibrationPoint { value_cm: 31, lower_bound_cm: 2125, upper_bound_cm: Some(2400) },
            CalibrationPoint { value_cm: 32, lower_bound_cm: 2400, upper_bound_cm: Some(2775) },
            CalibrationPoint { value_cm: 33, lower_bound_cm: 2775, upper_bound_cm: Some(3375) },
            CalibrationPoint { value_cm: 34, lower_bound_cm: 3375, upper_bound_cm: Some(4850) },
            CalibrationPoint { value_cm: 35, lower_bound_cm: 4850, upper_bound_cm: Some(6000) },
            CalibrationPoint { value_cm: 36, lower_bound_cm: 6000, upper_bound_cm: None },
        ],
        (UwbChannel::Channel3, PulseRepetitionFrequency::Mhz16) => vec![
            CalibrationPoint { value_cm: 0, lower_bound_cm: 0, upper_bound_cm: Some(25) },
            CalibrationPoint { value_cm: 1, lower_bound_cm: 25, upper_bound_cm: Some(50) },
            CalibrationPoint { value_cm: 2, lower_bound_cm: 50, upper_bound_cm: Some(75) },
            CalibrationPoint { value_cm: 3, lower_bound_cm: 75, upper_bound_cm: Some(100) },
            CalibrationPoint { value_cm: 4, lower_bound_cm: 100, upper_bound_cm: Some(125) },
            CalibrationPoint { value_cm: 5, lower_bound_cm: 125, upper_bound_cm: Some(175) },
            CalibrationPoint { value_cm: 6, lower_bound_cm: 175, upper_bound_cm: Some(200) },
            CalibrationPoint { value_cm: 7, lower_bound_cm: 200, upper_bound_cm: Some(225) },
            CalibrationPoint { value_cm: 8, lower_bound_cm: 225, upper_bound_cm: Some(250) },
            CalibrationPoint { value_cm: 9, lower_bound_cm: 250, upper_bound_cm: Some(300) },
            CalibrationPoint { value_cm: 10, lower_bound_cm: 300, upper_bound_cm: Some(350) },
            CalibrationPoint { value_cm: 11, lower_bound_cm: 350, upper_bound_cm: Some(400) },
            CalibrationPoint { value_cm: 12, lower_bound_cm: 400, upper_bound_cm: Some(450) },
            CalibrationPoint { value_cm: 13, lower_bound_cm: 450, upper_bound_cm: Some(500) },
            CalibrationPoint { value_cm: 14, lower_bound_cm: 500, upper_bound_cm: Some(550) },
            CalibrationPoint { value_cm: 15, lower_bound_cm: 550, upper_bound_cm: Some(600) },
            CalibrationPoint { value_cm: 16, lower_bound_cm: 600, upper_bound_cm: Some(650) },
            CalibrationPoint { value_cm: 17, lower_bound_cm: 650, upper_bound_cm: Some(700) },
            CalibrationPoint { value_cm: 18, lower_bound_cm: 700, upper_bound_cm: Some(775) },
            CalibrationPoint { value_cm: 19, lower_bound_cm: 775, upper_bound_cm: Some(825) },
            CalibrationPoint { value_cm: 20, lower_bound_cm: 825, upper_bound_cm: Some(900) },
            CalibrationPoint { value_cm: 21, lower_bound_cm: 900, upper_bound_cm: Some(975) },
            CalibrationPoint { value_cm: 22, lower_bound_cm: 975, upper_bound_cm: Some(1050) },
            CalibrationPoint { value_cm: 23, lower_bound_cm: 1050, upper_bound_cm: Some(1125) },
            CalibrationPoint { value_cm: 24, lower_bound_cm: 1125, upper_bound_cm: Some(1225) },
            CalibrationPoint { value_cm: 25, lower_bound_cm: 1225, upper_bound_cm: Some(1300) },
            CalibrationPoint { value_cm: 26, lower_bound_cm: 1300, upper_bound_cm: Some(1375) },
            CalibrationPoint { value_cm: 27, lower_bound_cm: 1375, upper_bound_cm: Some(1475) },
            CalibrationPoint { value_cm: 28, lower_bound_cm: 1475, upper_bound_cm: Some(1575) },
            CalibrationPoint { value_cm: 29, lower_bound_cm: 1575, upper_bound_cm: Some(1725) },
            CalibrationPoint { value_cm: 30, lower_bound_cm: 1725, upper_bound_cm: Some(1900) },
            CalibrationPoint { value_cm: 31, lower_bound_cm: 1900, upper_bound_cm: Some(2125) },
            CalibrationPoint { value_cm: 32, lower_bound_cm: 2125, upper_bound_cm: Some(2450) },
            CalibrationPoint { value_cm: 33, lower_bound_cm: 2450, upper_bound_cm: Some(3000) },
            CalibrationPoint { value_cm: 34, lower_bound_cm: 3000, upper_bound_cm: Some(4325) },
            CalibrationPoint { value_cm: 35, lower_bound_cm: 4325, upper_bound_cm: Some(5325) },
            CalibrationPoint { value_cm: 36, lower_bound_cm: 5325, upper_bound_cm: None },
        ],
        (UwbChannel::Channel4, PulseRepetitionFrequency::Mhz16) => vec![
            CalibrationPoint { value_cm: 0, lower_bound_cm: 0, upper_bound_cm: Some(175) },
            CalibrationPoint { value_cm: 2, lower_bound_cm: 175, upper_bound_cm: Some(200) },
            CalibrationPoint { value_cm: 3, lower_bound_cm: 200, upper_bound_cm: Some(225) },
            CalibrationPoint { value_cm: 5, lower_bound_cm: 225, upper_bound_cm: Some(250) },
            CalibrationPoint { value_cm: 6, lower_bound_cm: 250, upper_bound_cm: Some(275) },
            CalibrationPoint { value_cm: 8, lower_bound_cm: 275, upper_bound_cm: Some(300) },
            CalibrationPoint { value_cm: 9, lower_bound_cm: 300, upper_bound_cm: Some(325) },
            CalibrationPoint { value_cm: 10, lower_bound_cm: 325, upper_bound_cm: Some(350) },
            CalibrationPoint { value_cm: 11, lower_bound_cm: 350, upper_bound_cm: Some(375) },
            CalibrationPoint { value_cm: 12, lower_bound_cm: 375, upper_bound_cm: Some(400) },
            CalibrationPoint { value_cm: 13, lower_bound_cm: 400, upper_bound_cm: Some(425) },
            CalibrationPoint { value_cm: 14, lower_bound_cm: 425, upper_bound_cm: Some(450) },
            CalibrationPoint { value_cm: 15, lower_bound_cm: 450, upper_bound_cm: Some(475) },
            CalibrationPoint { value_cm: 16, lower_bound_cm: 475, upper_bound_cm: Some(500) },
            CalibrationPoint { value_cm: 17, lower_bound_cm: 500, upper_bound_cm: Some(525) },
            CalibrationPoint { value_cm: 18, lower_bound_cm: 525, upper_bound_cm: Some(550) },
            CalibrationPoint { value_cm: 19, lower_bound_cm: 550, upper_bound_cm: Some(575) },
            CalibrationPoint { value_cm: 20, lower_bound_cm: 575, upper_bound_cm: Some(600) },
            CalibrationPoint { value_cm: 21, lower_bound_cm: 600, upper_bound_cm: Some(650) },
            CalibrationPoint { value_cm: 22, lower_bound_cm: 650, upper_bound_cm: Some(675) },
            CalibrationPoint { value_cm: 23, lower_bound_cm: 675, upper_bound_cm: Some(700) },
            CalibrationPoint { value_cm: 24, lower_bound_cm: 700, upper_bound_cm: Some(750) },
            CalibrationPoint { value_cm: 25, lower_bound_cm: 750, upper_bound_cm: Some(775) },
            CalibrationPoint { value_cm: 26, lower_bound_cm: 775, upper_bound_cm: Some(800) },
            CalibrationPoint { value_cm: 27, lower_bound_cm: 800, upper_bound_cm: Some(850) },
            CalibrationPoint { value_cm: 28, lower_bound_cm: 850, upper_bound_cm: Some(900) },
            CalibrationPoint { value_cm: 29, lower_bound_cm: 900, upper_bound_cm: Some(950) },
            CalibrationPoint { value_cm: 30, lower_bound_cm: 950, upper_bound_cm: Some(1000) },
            CalibrationPoint { value_cm: 31, lower_bound_cm: 1000, upper_bound_cm: Some(1050) },
            CalibrationPoint { value_cm: 32, lower_bound_cm: 1050, upper_bound_cm: Some(1100) },
            CalibrationPoint { value_cm: 33, lower_bound_cm: 1100, upper_bound_cm: Some(1150) },
            CalibrationPoint { value_cm: 34, lower_bound_cm: 1150, upper_bound_cm: Some(1200) },
            CalibrationPoint { value_cm: 35, lower_bound_cm: 1200, upper_bound_cm: Some(1250) },
            CalibrationPoint { value_cm: 36, lower_bound_cm: 1250, upper_bound_cm: Some(1300) },
            CalibrationPoint { value_cm: 37, lower_bound_cm: 1300, upper_bound_cm: Some(1375) },
            CalibrationPoint { value_cm: 38, lower_bound_cm: 1375, upper_bound_cm: Some(1425) },
            CalibrationPoint { value_cm: 39, lower_bound_cm: 1425, upper_bound_cm: Some(1475) },
            CalibrationPoint { value_cm: 40, lower_bound_cm: 1475, upper_bound_cm: Some(1525) },
            CalibrationPoint { value_cm: 41, lower_bound_cm: 1525, upper_bound_cm: Some(1575) },
            CalibrationPoint { value_cm: 42, lower_bound_cm: 1575, upper_bound_cm: Some(1650) },
            CalibrationPoint { value_cm: 43, lower_bound_cm: 1650, upper_bound_cm: Some(1700) },
            CalibrationPoint { value_cm: 44, lower_bound_cm: 1700, upper_bound_cm: Some(1775) },
            CalibrationPoint { value_cm: 45, lower_bound_cm: 1775, upper_bound_cm: Some(1850) },
            CalibrationPoint { value_cm: 46, lower_bound_cm: 1850, upper_bound_cm: Some(1950) },
            CalibrationPoint { value_cm: 47, lower_bound_cm: 1950, upper_bound_cm: Some(2025) },
            CalibrationPoint { value_cm: 48, lower_bound_cm: 2025, upper_bound_cm: Some(2125) },
            CalibrationPoint { value_cm: 49, lower_bound_cm: 2125, upper_bound_cm: Some(2225) },
            CalibrationPoint { value_cm: 50, lower_bound_cm: 2225, upper_bound_cm: Some(2350) },
            CalibrationPoint { value_cm: 51, lower_bound_cm: 2350, upper_bound_cm: Some(2475) },
            CalibrationPoint { value_cm: 52, lower_bound_cm: 2475, upper_bound_cm: Some(2600) },
            CalibrationPoint { value_cm: 53, lower_bound_cm: 2600, upper_bound_cm: Some(2750) },
            CalibrationPoint { value_cm: 54, lower_bound_cm: 2750, upper_bound_cm: Some(2900) },
            CalibrationPoint { value_cm: 55, lower_bound_cm: 2900, upper_bound_cm: Some(3075) },
            CalibrationPoint { value_cm: 56, lower_bound_cm: 3075, upper_bound_cm: Some(3250) },
            CalibrationPoint { value_cm: 57, lower_bound_cm: 3250, upper_bound_cm: Some(3475) },
            CalibrationPoint { value_cm: 58, lower_bound_cm: 3475, upper_bound_cm: Some(3750) },
            CalibrationPoint { value_cm: 59, lower_bound_cm: 3750, upper_bound_cm: Some(4100) },
            CalibrationPoint { value_cm: 60, lower_bound_cm: 4100, upper_bound_cm: Some(4550) },
            CalibrationPoint { value_cm: 61, lower_bound_cm: 4550, upper_bound_cm: Some(5175) },
            CalibrationPoint { value_cm: 62, lower_bound_cm: 5175, upper_bound_cm: Some(5950) },
            CalibrationPoint { value_cm: 63, lower_bound_cm: 5950, upper_bound_cm: None },
        ],
        (UwbChannel::Channel5, PulseRepetitionFrequency::Mhz16) => vec![
            CalibrationPoint { value_cm: 0, lower_bound_cm: 0, upper_bound_cm: Some(25) },
            CalibrationPoint { value_cm: 2, lower_bound_cm: 25, upper_bound_cm: Some(50) },
            CalibrationPoint { value_cm: 3, lower_bound_cm: 50, upper_bound_cm: Some(75) },
            CalibrationPoint { value_cm: 4, lower_bound_cm: 75, upper_bound_cm: Some(100) },
            CalibrationPoint { value_cm: 5, lower_bound_cm: 100, upper_bound_cm: Some(125) },
            CalibrationPoint { value_cm: 6, lower_bound_cm: 125, upper_bound_cm: Some(150) },
            CalibrationPoint { value_cm: 8, lower_bound_cm: 150, upper_bound_cm: Some(175) },
            CalibrationPoint { value_cm: 9, lower_bound_cm: 175, upper_bound_cm: Some(200) },
            CalibrationPoint { value_cm: 10, lower_bound_cm: 200, upper_bound_cm: Some(225) },
            CalibrationPoint { value_cm: 11, lower_bound_cm: 225, upper_bound_cm: Some(275) },
            CalibrationPoint { value_cm: 12, lower_bound_cm: 275, upper_bound_cm: Some(300) },
            CalibrationPoint { value_cm: 13, lower_bound_cm: 300, upper_bound_cm: Some(350) },
            CalibrationPoint { value_cm: 14, lower_bound_cm: 350, upper_bound_cm: Some(375) },
            CalibrationPoint { value_cm: 15, lower_bound_cm: 375, upper_bound_cm: Some(400) },
            CalibrationPoint { value_cm: 16, lower_bound_cm: 400, upper_bound_cm: Some(450) },
            CalibrationPoint { value_cm: 17, lower_bound_cm: 450, upper_bound_cm: Some(500) },
            CalibrationPoint { value_cm: 18, lower_bound_cm: 500, upper_bound_cm: Some(525) },
            CalibrationPoint { value_cm: 19, lower_bound_cm: 525, upper_bound_cm: Some(575) },
            CalibrationPoint { value_cm: 20, lower_bound_cm: 575, upper_bound_cm: Some(625) },
            CalibrationPoint { value_cm: 21, lower_bound_cm: 625, upper_bound_cm: Some(675) },
            CalibrationPoint { value_cm: 22, lower_bound_cm: 675, upper_bound_cm: Some(725) },
            CalibrationPoint { value_cm: 23, lower_bound_cm: 725, upper_bound_cm: Some(775) },
            CalibrationPoint { value_cm: 24, lower_bound_cm: 775, upper_bound_cm: Some(850) },
            CalibrationPoint { value_cm: 25, lower_bound_cm: 850, upper_bound_cm: Some(900) },
            CalibrationPoint { value_cm: 26, lower_bound_cm: 900, upper_bound_cm: Some(950) },
            CalibrationPoint { value_cm: 27, lower_bound_cm: 950, upper_bound_cm: Some(1025) },
            CalibrationPoint { value_cm: 28, lower_bound_cm: 1025, upper_bound_cm: Some(1100) },
            CalibrationPoint { value_cm: 29, lower_bound_cm: 1100, upper_bound_cm: Some(1200) },
            CalibrationPoint { value_cm: 30, lower_bound_cm: 1200, upper_bound_cm: Some(1325) },
            CalibrationPoint { value_cm: 31, lower_bound_cm: 1325, upper_bound_cm: Some(1475) },
            CalibrationPoint { value_cm: 32, lower_bound_cm: 1475, upper_bound_cm: Some(1700) },
            CalibrationPoint { value_cm: 33, lower_bound_cm: 1700, upper_bound_cm: Some(2075) },
            CalibrationPoint { value_cm: 34, lower_bound_cm: 2075, upper_bound_cm: Some(3000) },
            CalibrationPoint { value_cm: 35, lower_bound_cm: 3000, upper_bound_cm: Some(3700) },
            CalibrationPoint { value_cm: 36, lower_bound_cm: 3700, upper_bound_cm: None },
        ],
        (UwbChannel::Channel7, PulseRepetitionFrequency::Mhz16) => vec![
            CalibrationPoint { value_cm: 0, lower_bound_cm: 0, upper_bound_cm: Some(100) },
            CalibrationPoint { value_cm: 1, lower_bound_cm: 100, upper_bound_cm: Some(125) },
            CalibrationPoint { value_cm: 4, lower_bound_cm: 125, upper_bound_cm: Some(150) },
            CalibrationPoint { value_cm: 6, lower_bound_cm: 150, upper_bound_cm: Some(175) },
            CalibrationPoint { value_cm: 9, lower_bound_cm: 175, upper_bound_cm: Some(200) },
            CalibrationPoint { value_cm: 10, lower_bound_cm: 200, upper_bound_cm: Some(225) },
            CalibrationPoint { value_cm: 12, lower_bound_cm: 225, upper_bound_cm: Some(250) },
            CalibrationPoint { value_cm: 14, lower_bound_cm: 250, upper_bound_cm: Some(275) },
            CalibrationPoint { value_cm: 16, lower_bound_cm: 275, upper_bound_cm: Some(300) },
            CalibrationPoint { value_cm: 17, lower_bound_cm: 300, upper_bound_cm: Some(325) },
            CalibrationPoint { value_cm: 19, lower_bound_cm: 325, upper_bound_cm: Some(350) },
            CalibrationPoint { value_cm: 20, lower_bound_cm: 350, upper_bound_cm: Some(375) },
            CalibrationPoint { value_cm: 21, lower_bound_cm: 375, upper_bound_cm: Some(400) },
            CalibrationPoint { value_cm: 22, lower_bound_cm: 400, upper_bound_cm: Some(425) },
            CalibrationPoint { value_cm: 24, lower_bound_cm: 425, upper_bound_cm: Some(450) },
            CalibrationPoint { value_cm: 25, lower_bound_cm: 450, upper_bound_cm: Some(475) },
            CalibrationPoint { value_cm: 26, lower_bound_cm: 475, upper_bound_cm: Some(500) },
            CalibrationPoint { value_cm: 27, lower_bound_cm: 500, upper_bound_cm: Some(525) },
            CalibrationPoint { value_cm: 28, lower_bound_cm: 525, upper_bound_cm: Some(550) },
            CalibrationPoint { value_cm: 29, lower_bound_cm: 550, upper_bound_cm: Some(575) },
            CalibrationPoint { value_cm: 30, lower_bound_cm: 575, upper_bound_cm: Some(625) },
            CalibrationPoint { value_cm: 31, lower_bound_cm: 625, upper_bound_cm: Some(650) },
            CalibrationPoint { value_cm: 32, lower_bound_cm: 650, upper_bound_cm: Some(675) },
            CalibrationPoint { value_cm: 33, lower_bound_cm: 675, upper_bound_cm: Some(725) },
            CalibrationPoint { value_cm: 34, lower_bound_cm: 725, upper_bound_cm: Some(750) },
            CalibrationPoint { value_cm: 35, lower_bound_cm: 750, upper_bound_cm: Some(775) },
            CalibrationPoint { value_cm: 36, lower_bound_cm: 775, upper_bound_cm: Some(800) },
            CalibrationPoint { value_cm: 37, lower_bound_cm: 800, upper_bound_cm: Some(850) },
            CalibrationPoint { value_cm: 38, lower_bound_cm: 850, upper_bound_cm: Some(875) },
            CalibrationPoint { value_cm: 39, lower_bound_cm: 875, upper_bound_cm: Some(900) },
            CalibrationPoint { value_cm: 40, lower_bound_cm: 900, upper_bound_cm: Some(950) },
            CalibrationPoint { value_cm: 41, lower_bound_cm: 950, upper_bound_cm: Some(975) },
            CalibrationPoint { value_cm: 42, lower_bound_cm: 975, upper_bound_cm: Some(1000) },
            CalibrationPoint { value_cm: 43, lower_bound_cm: 1000, upper_bound_cm: Some(1050) },
            CalibrationPoint { value_cm: 44, lower_bound_cm: 1050, upper_bound_cm: Some(1100) },
            CalibrationPoint { value_cm: 45, lower_bound_cm: 1100, upper_bound_cm: Some(1150) },
            CalibrationPoint { value_cm: 46, lower_bound_cm: 1150, upper_bound_cm: Some(1200) },
            CalibrationPoint { value_cm: 47, lower_bound_cm: 1200, upper_bound_cm: Some(1250) },
            CalibrationPoint { value_cm: 48, lower_bound_cm: 1250, upper_bound_cm: Some(1300) },
            CalibrationPoint { value_cm: 49, lower_bound_cm: 1300, upper_bound_cm: Some(1375) },
            CalibrationPoint { value_cm: 50, lower_bound_cm: 1375, upper_bound_cm: Some(1450) },
            CalibrationPoint { value_cm: 51, lower_bound_cm: 1450, upper_bound_cm: Some(1525) },
            CalibrationPoint { value_cm: 52, lower_bound_cm: 1525, upper_bound_cm: Some(1600) },
            CalibrationPoint { value_cm: 53, lower_bound_cm: 1600, upper_bound_cm: Some(1700) },
            CalibrationPoint { value_cm: 54, lower_bound_cm: 1700, upper_bound_cm: Some(1800) },
            CalibrationPoint { value_cm: 55, lower_bound_cm: 1800, upper_bound_cm: Some(1875) },
            CalibrationPoint { value_cm: 56, lower_bound_cm: 1875, upper_bound_cm: Some(2000) },
            CalibrationPoint { value_cm: 57, lower_bound_cm: 2000, upper_bound_cm: Some(2125) },
            CalibrationPoint { value_cm: 58, lower_bound_cm: 2125, upper_bound_cm: Some(2300) },
            CalibrationPoint { value_cm: 59, lower_bound_cm: 2300, upper_bound_cm: Some(2525) },
            CalibrationPoint { value_cm: 60, lower_bound_cm: 2525, upper_bound_cm: Some(2800) },
            CalibrationPoint { value_cm: 61, lower_bound_cm: 2800, upper_bound_cm: Some(3175) },
            CalibrationPoint { value_cm: 62, lower_bound_cm: 3175, upper_bound_cm: Some(3675) },
            CalibrationPoint { value_cm: 63, lower_bound_cm: 3675, upper_bound_cm: Some(4200) },
            CalibrationPoint { value_cm: 64, lower_bound_cm: 4200, upper_bound_cm: Some(4550) },
            CalibrationPoint { value_cm: 65, lower_bound_cm: 4550, upper_bound_cm: Some(4850) },
            CalibrationPoint { value_cm: 66, lower_bound_cm: 4850, upper_bound_cm: Some(5125) },
            CalibrationPoint { value_cm: 67, lower_bound_cm: 5125, upper_bound_cm: None },
        ],
        (UwbChannel::Channel1, PulseRepetitionFrequency::Mhz64) => vec![
            CalibrationPoint { value_cm: 0, lower_bound_cm: 0, upper_bound_cm: Some(25) },
            CalibrationPoint { value_cm: 1, lower_bound_cm: 25, upper_bound_cm: Some(50) },
            CalibrationPoint { value_cm: 3, lower_bound_cm: 50, upper_bound_cm: Some(75) },
            CalibrationPoint { value_cm: 4, lower_bound_cm: 75, upper_bound_cm: Some(100) },
            CalibrationPoint { value_cm: 5, lower_bound_cm: 100, upper_bound_cm: Some(125) },
            CalibrationPoint { value_cm: 6, lower_bound_cm: 125, upper_bound_cm: Some(175) },
            CalibrationPoint { value_cm: 7, lower_bound_cm: 175, upper_bound_cm: Some(250) },
            CalibrationPoint { value_cm: 8, lower_bound_cm: 250, upper_bound_cm: Some(325) },
            CalibrationPoint { value_cm: 9, lower_bound_cm: 325, upper_bound_cm: Some(400) },
            CalibrationPoint { value_cm: 10, lower_bound_cm: 400, upper_bound_cm: Some(475) },
            CalibrationPoint { value_cm: 11, lower_bound_cm: 475, upper_bound_cm: Some(550) },
            CalibrationPoint { value_cm: 12, lower_bound_cm: 550, upper_bound_cm: Some(600) },
            CalibrationPoint { value_cm: 13, lower_bound_cm: 600, upper_bound_cm: Some(675) },
            CalibrationPoint { value_cm: 14, lower_bound_cm: 675, upper_bound_cm: Some(750) },
            CalibrationPoint { value_cm: 15, lower_bound_cm: 750, upper_bound_cm: Some(800) },
            CalibrationPoint { value_cm: 16, lower_bound_cm: 800, upper_bound_cm: Some(875) },
            CalibrationPoint { value_cm: 17, lower_bound_cm: 875, upper_bound_cm: Some(950) },
            CalibrationPoint { value_cm: 18, lower_bound_cm: 950, upper_bound_cm: Some(1075) },
            CalibrationPoint { value_cm: 19, lower_bound_cm: 1075, upper_bound_cm: Some(1200) },
            CalibrationPoint { value_cm: 20, lower_bound_cm: 1200, upper_bound_cm: Some(1400) },
            CalibrationPoint { value_cm: 21, lower_bound_cm: 1400, upper_bound_cm: Some(1950) },
            CalibrationPoint { value_cm: 22, lower_bound_cm: 1950, upper_bound_cm: Some(2525) },
            CalibrationPoint { value_cm: 23, lower_bound_cm: 2525, upper_bound_cm: Some(3000) },
            CalibrationPoint { value_cm: 24, lower_bound_cm: 3000, upper_bound_cm: Some(3925) },
            CalibrationPoint { value_cm: 25, lower_bound_cm: 3925, upper_bound_cm: None },
        ],
        (UwbChannel::Channel2, PulseRepetitionFrequency::Mhz64) => vec![
            CalibrationPoint { value_cm: 0, lower_bound_cm: 0, upper_bound_cm: Some(25) },
            CalibrationPoint { value_cm: 1, lower_bound_cm: 25, upper_bound_cm: Some(50) },
            CalibrationPoint { value_cm: 3, lower_bound_cm: 50, upper_bound_cm: Some(75) },
            CalibrationPoint { value_cm: 4, lower_bound_cm: 75, upper_bound_cm: Some(100) },
            CalibrationPoint { value_cm: 6, lower_bound_cm: 100, upper_bound_cm: Some(150) },
            CalibrationPoint { value_cm: 7, lower_bound_cm: 150, upper_bound_cm: Some(225) },
            CalibrationPoint { value_cm: 8, lower_bound_cm: 225, upper_bound_cm: Some(300) },
            CalibrationPoint { value_cm: 9, lower_bound_cm: 300, upper_bound_cm: Some(350) },
            CalibrationPoint { value_cm: 10, lower_bound_cm: 350, upper_bound_cm: Some(425) },
            CalibrationPoint { value_cm: 11, lower_bound_cm: 425, upper_bound_cm: Some(475) },
            CalibrationPoint { value_cm: 12, lower_bound_cm: 475, upper_bound_cm: Some(525) },
            CalibrationPoint { value_cm: 13, lower_bound_cm: 525, upper_bound_cm: Some(600) },
            CalibrationPoint { value_cm: 14, lower_bound_cm: 600, upper_bound_cm: Some(650) },
            CalibrationPoint { value_cm: 15, lower_bound_cm: 650, upper_bound_cm: Some(700) },
            CalibrationPoint { value_cm: 16, lower_bound_cm: 700, upper_bound_cm: Some(775) },
            CalibrationPoint { value_cm: 17, lower_bound_cm: 775, upper_bound_cm: Some(825) },
            CalibrationPoint { value_cm: 18, lower_bound_cm: 825, upper_bound_cm: Some(925) },
            CalibrationPoint { value_cm: 19, lower_bound_cm: 925, upper_bound_cm: Some(1050) },
            CalibrationPoint { value_cm: 20, lower_bound_cm: 1050, upper_bound_cm: Some(1225) },
            CalibrationPoint { value_cm: 21, lower_bound_cm: 1225, upper_bound_cm: Some(1700) },
            CalibrationPoint { value_cm: 22, lower_bound_cm: 1700, upper_bound_cm: Some(2225) },
            CalibrationPoint { value_cm: 23, lower_bound_cm: 2225, upper_bound_cm: Some(2625) },
            CalibrationPoint { value_cm: 24, lower_bound_cm: 2625, upper_bound_cm: Some(3450) },
            CalibrationPoint { value_cm: 25, lower_bound_cm: 3450, upper_bound_cm: None },
        ],
        (UwbChannel::Channel3, PulseRepetitionFrequency::Mhz64) => vec![
            CalibrationPoint { value_cm: 0, lower_bound_cm: 0, upper_bound_cm: Some(25) },
            CalibrationPoint { value_cm: 2, lower_bound_cm: 25, upper_bound_cm: Some(50) },
            CalibrationPoint { value_cm: 3, lower_bound_cm: 50, upper_bound_cm: Some(75) },
            CalibrationPoint { value_cm: 5, lower_bound_cm: 75, upper_bound_cm: Some(100) },
            CalibrationPoint { value_cm: 6, lower_bound_cm: 100, upper_bound_cm: Some(125) },
            CalibrationPoint { value_cm: 7, lower_bound_cm: 125, upper_bound_cm: Some(200) },
            CalibrationPoint { value_cm: 8, lower_bound_cm: 200, upper_bound_cm: Some(250) },
            CalibrationPoint { value_cm: 9, lower_bound_cm: 250, upper_bound_cm: Some(325) },
            CalibrationPoint { value_cm: 10, lower_bound_cm: 325, upper_bound_cm: Some(375) },
            CalibrationPoint { value_cm: 11, lower_bound_cm: 375, upper_bound_cm: Some(425) },
            CalibrationPoint { value_cm: 12, lower_bound_cm: 425, upper_bound_cm: Some(475) },
            CalibrationPoint { value_cm: 13, lower_bound_cm: 475, upper_bound_cm: Some(525) },
            CalibrationPoint { value_cm: 14, lower_bound_cm: 525, upper_bound_cm: Some(575) },
            CalibrationPoint { value_cm: 15, lower_bound_cm: 575, upper_bound_cm: Some(625) },
            CalibrationPoint { value_cm: 16, lower_bound_cm: 625, upper_bound_cm: Some(675) },
            CalibrationPoint { value_cm: 17, lower_bound_cm: 675, upper_bound_cm: Some(750) },
            CalibrationPoint { value_cm: 18, lower_bound_cm: 750, upper_bound_cm: Some(825) },
            CalibrationPoint { value_cm: 19, lower_bound_cm: 825, upper_bound_cm: Some(925) },
            CalibrationPoint { value_cm: 20, lower_bound_cm: 925, upper_bound_cm: Some(1100) },
            CalibrationPoint { value_cm: 21, lower_bound_cm: 1100, upper_bound_cm: Some(1500) },
            CalibrationPoint { value_cm: 22, lower_bound_cm: 1500, upper_bound_cm: Some(1975) },
            CalibrationPoint { value_cm: 23, lower_bound_cm: 1975, upper_bound_cm: Some(2325) },
            CalibrationPoint { value_cm: 24, lower_bound_cm: 2325, upper_bound_cm: Some(3050) },
            CalibrationPoint { value_cm: 25, lower_bound_cm: 3050, upper_bound_cm: None },
        ],
        (UwbChannel::Channel4, PulseRepetitionFrequency::Mhz64) => vec![
            CalibrationPoint { value_cm: 0, lower_bound_cm: 0, upper_bound_cm: Some(175) },
            CalibrationPoint { value_cm: 1, lower_bound_cm: 175, upper_bound_cm: Some(200) },
            CalibrationPoint { value_cm: 3, lower_bound_cm: 200, upper_bound_cm: Some(225) },
            CalibrationPoint { value_cm: 5, lower_bound_cm: 225, upper_bound_cm: Some(250) },
            CalibrationPoint { value_cm: 6, lower_bound_cm: 250, upper_bound_cm: Some(275) },
            CalibrationPoint { value_cm: 7, lower_bound_cm: 275, upper_bound_cm: Some(300) },
            CalibrationPoint { value_cm: 8, lower_bound_cm: 300, upper_bound_cm: Some(325) },
            CalibrationPoint { value_cm: 10, lower_bound_cm: 325, upper_bound_cm: Some(350) },
            CalibrationPoint { value_cm: 11, lower_bound_cm: 350, upper_bound_cm: Some(375) },
            CalibrationPoint { value_cm: 12, lower_bound_cm: 375, upper_bound_cm: Some(400) },
            CalibrationPoint { value_cm: 14, lower_bound_cm: 400, upper_bound_cm: Some(425) },
            CalibrationPoint { value_cm: 15, lower_bound_cm: 425, upper_bound_cm: Some(450) },
            CalibrationPoint { value_cm: 16, lower_bound_cm: 450, upper_bound_cm: Some(475) },
            CalibrationPoint { value_cm: 18, lower_bound_cm: 475, upper_bound_cm: Some(500) },
            CalibrationPoint { value_cm: 19, lower_bound_cm: 500, upper_bound_cm: Some(525) },
            CalibrationPoint { value_cm: 20, lower_bound_cm: 525, upper_bound_cm: Some(550) },
            CalibrationPoint { value_cm: 21, lower_bound_cm: 550, upper_bound_cm: Some(600) },
            CalibrationPoint { value_cm: 22, lower_bound_cm: 600, upper_bound_cm: Some(625) },
            CalibrationPoint { value_cm: 23, lower_bound_cm: 625, upper_bound_cm: Some(675) },
            CalibrationPoint { value_cm: 24, lower_bound_cm: 675, upper_bound_cm: Some(700) },
            CalibrationPoint { value_cm: 25, lower_bound_cm: 700, upper_bound_cm: Some(725) },
            CalibrationPoint { value_cm: 26, lower_bound_cm: 725, upper_bound_cm: Some(750) },
            CalibrationPoint { value_cm: 27, lower_bound_cm: 750, upper_bound_cm: Some(800) },
            CalibrationPoint { value_cm: 28, lower_bound_cm: 800, upper_bound_cm: Some(825) },
            CalibrationPoint { value_cm: 29, lower_bound_cm: 825, upper_bound_cm: Some(850) },
            CalibrationPoint { value_cm: 30, lower_bound_cm: 850, upper_bound_cm: Some(875) },
            CalibrationPoint { value_cm: 31, lower_bound_cm: 875, upper_bound_cm: Some(925) },
            CalibrationPoint { value_cm: 32, lower_bound_cm: 925, upper_bound_cm: Some(975) },
            CalibrationPoint { value_cm: 33, lower_bound_cm: 975, upper_bound_cm: Some(1025) },
            CalibrationPoint { value_cm: 34, lower_bound_cm: 1025, upper_bound_cm: Some(1075) },
            CalibrationPoint { value_cm: 35, lower_bound_cm: 1075, upper_bound_cm: Some(1125) },
            CalibrationPoint { value_cm: 36, lower_bound_cm: 1125, upper_bound_cm: Some(1200) },
            CalibrationPoint { value_cm: 37, lower_bound_cm: 1200, upper_bound_cm: Some(1250) },
            CalibrationPoint { value_cm: 38, lower_bound_cm: 1250, upper_bound_cm: Some(1325) },
            CalibrationPoint { value_cm: 39, lower_bound_cm: 1325, upper_bound_cm: Some(1400) },
            CalibrationPoint { value_cm: 40, lower_bound_cm: 1400, upper_bound_cm: Some(1500) },
            CalibrationPoint { value_cm: 41, lower_bound_cm: 1500, upper_bound_cm: Some(1600) },
            CalibrationPoint { value_cm: 42, lower_bound_cm: 1600, upper_bound_cm: Some(1700) },
            CalibrationPoint { value_cm: 43, lower_bound_cm: 1700, upper_bound_cm: Some(1850) },
            CalibrationPoint { value_cm: 44, lower_bound_cm: 1850, upper_bound_cm: Some(2025) },
            CalibrationPoint { value_cm: 45, lower_bound_cm: 2025, upper_bound_cm: Some(2225) },
            CalibrationPoint { value_cm: 46, lower_bound_cm: 2225, upper_bound_cm: Some(2450) },
            CalibrationPoint { value_cm: 47, lower_bound_cm: 2450, upper_bound_cm: Some(2725) },
            CalibrationPoint { value_cm: 48, lower_bound_cm: 2725, upper_bound_cm: Some(3050) },
            CalibrationPoint { value_cm: 49, lower_bound_cm: 3050, upper_bound_cm: Some(3400) },
            CalibrationPoint { value_cm: 50, lower_bound_cm: 3400, upper_bound_cm: Some(3650) },
            CalibrationPoint { value_cm: 51, lower_bound_cm: 3650, upper_bound_cm: Some(3850) },
            CalibrationPoint { value_cm: 52, lower_bound_cm: 3850, upper_bound_cm: Some(4050) },
            CalibrationPoint { value_cm: 53, lower_bound_cm: 4050, upper_bound_cm: Some(4450) },
            CalibrationPoint { value_cm: 54, lower_bound_cm: 4450, upper_bound_cm: Some(5500) },
            CalibrationPoint { value_cm: 55, lower_bound_cm: 5500, upper_bound_cm: Some(6225) },
            CalibrationPoint { value_cm: 56, lower_bound_cm: 6225, upper_bound_cm: None },
        ],
        (UwbChannel::Channel5, PulseRepetitionFrequency::Mhz64) => vec![
            CalibrationPoint { value_cm: 0, lower_bound_cm: 0, upper_bound_cm: Some(25) },
            CalibrationPoint { value_cm: 3, lower_bound_cm: 25, upper_bound_cm: Some(50) },
            CalibrationPoint { value_cm: 5, lower_bound_cm: 50, upper_bound_cm: Some(75) },
            CalibrationPoint { value_cm: 6, lower_bound_cm: 75, upper_bound_cm: Some(100) },
            CalibrationPoint { value_cm: 7, lower_bound_cm: 100, upper_bound_cm: Some(150) },
            CalibrationPoint { value_cm: 8, lower_bound_cm: 150, upper_bound_cm: Some(175) },
            CalibrationPoint { value_cm: 9, lower_bound_cm: 175, upper_bound_cm: Some(225) },
            CalibrationPoint { value_cm: 10, lower_bound_cm: 225, upper_bound_cm: Some(250) },
            CalibrationPoint { value_cm: 11, lower_bound_cm: 250, upper_bound_cm: Some(300) },
            CalibrationPoint { value_cm: 12, lower_bound_cm: 300, upper_bound_cm: Some(325) },
            CalibrationPoint { value_cm: 13, lower_bound_cm: 325, upper_bound_cm: Some(375) },
            CalibrationPoint { value_cm: 14, lower_bound_cm: 375, upper_bound_cm: Some(400) },
            CalibrationPoint { value_cm: 15, lower_bound_cm: 400, upper_bound_cm: Some(425) },
            CalibrationPoint { value_cm: 16, lower_bound_cm: 425, upper_bound_cm: Some(475) },
            CalibrationPoint { value_cm: 17, lower_bound_cm: 475, upper_bound_cm: Some(525) },
            CalibrationPoint { value_cm: 18, lower_bound_cm: 525, upper_bound_cm: Some(575) },
            CalibrationPoint { value_cm: 19, lower_bound_cm: 575, upper_bound_cm: Some(650) },
            CalibrationPoint { value_cm: 20, lower_bound_cm: 650, upper_bound_cm: Some(750) },
            CalibrationPoint { value_cm: 21, lower_bound_cm: 750, upper_bound_cm: Some(1050) },
            CalibrationPoint { value_cm: 22, lower_bound_cm: 1050, upper_bound_cm: Some(1375) },
            CalibrationPoint { value_cm: 23, lower_bound_cm: 1375, upper_bound_cm: Some(1625) },
            CalibrationPoint { value_cm: 24, lower_bound_cm: 1625, upper_bound_cm: Some(2125) },
            CalibrationPoint { value_cm: 25, lower_bound_cm: 2125, upper_bound_cm: None },
        ],
        (UwbChannel::Channel7, PulseRepetitionFrequency::Mhz64) => vec![
            CalibrationPoint { value_cm: 0, lower_bound_cm: 0, upper_bound_cm: Some(100) },
            CalibrationPoint { value_cm: 1, lower_bound_cm: 100, upper_bound_cm: Some(125) },
            CalibrationPoint { value_cm: 4, lower_bound_cm: 125, upper_bound_cm: Some(150) },
            CalibrationPoint { value_cm: 6, lower_bound_cm: 150, upper_bound_cm: Some(175) },
            CalibrationPoint { value_cm: 8, lower_bound_cm: 175, upper_bound_cm: Some(200) },
            CalibrationPoint { value_cm: 10, lower_bound_cm: 200, upper_bound_cm: Some(225) },
            CalibrationPoint { value_cm: 12, lower_bound_cm: 225, upper_bound_cm: Some(250) },
            CalibrationPoint { value_cm: 15, lower_bound_cm: 250, upper_bound_cm: Some(275) },
            CalibrationPoint { value_cm: 17, lower_bound_cm: 275, upper_bound_cm: Some(300) },
            CalibrationPoint { value_cm: 18, lower_bound_cm: 300, upper_bound_cm: Some(325) },
            CalibrationPoint { value_cm: 20, lower_bound_cm: 325, upper_bound_cm: Some(350) },
            CalibrationPoint { value_cm: 21, lower_bound_cm: 350, upper_bound_cm: Some(375) },
            CalibrationPoint { value_cm: 22, lower_bound_cm: 375, upper_bound_cm: Some(400) },
            CalibrationPoint { value_cm: 24, lower_bound_cm: 400, upper_bound_cm: Some(425) },
            CalibrationPoint { value_cm: 25, lower_bound_cm: 425, upper_bound_cm: Some(450) },
            CalibrationPoint { value_cm: 26, lower_bound_cm: 450, upper_bound_cm: Some(475) },
            CalibrationPoint { value_cm: 28, lower_bound_cm: 475, upper_bound_cm: Some(500) },
            CalibrationPoint { value_cm: 29, lower_bound_cm: 500, upper_bound_cm: Some(525) },
            CalibrationPoint { value_cm: 30, lower_bound_cm: 525, upper_bound_cm: Some(550) },
            CalibrationPoint { value_cm: 31, lower_bound_cm: 550, upper_bound_cm: Some(575) },
            CalibrationPoint { value_cm: 32, lower_bound_cm: 575, upper_bound_cm: Some(600) },
            CalibrationPoint { value_cm: 33, lower_bound_cm: 600, upper_bound_cm: Some(625) },
            CalibrationPoint { value_cm: 34, lower_bound_cm: 625, upper_bound_cm: Some(650) },
            CalibrationPoint { value_cm: 35, lower_bound_cm: 650, upper_bound_cm: Some(700) },
            CalibrationPoint { value_cm: 36, lower_bound_cm: 700, upper_bound_cm: Some(725) },
            CalibrationPoint { value_cm: 37, lower_bound_cm: 725, upper_bound_cm: Some(775) },
            CalibrationPoint { value_cm: 38, lower_bound_cm: 775, upper_bound_cm: Some(825) },
            CalibrationPoint { value_cm: 39, lower_bound_cm: 825, upper_bound_cm: Some(875) },
            CalibrationPoint { value_cm: 40, lower_bound_cm: 875, upper_bound_cm: Some(925) },
            CalibrationPoint { value_cm: 41, lower_bound_cm: 925, upper_bound_cm: Some(975) },
            CalibrationPoint { value_cm: 42, lower_bound_cm: 975, upper_bound_cm: Some(1050) },
            CalibrationPoint { value_cm: 43, lower_bound_cm: 1050, upper_bound_cm: Some(1150) },
            CalibrationPoint { value_cm: 44, lower_bound_cm: 1150, upper_bound_cm: Some(1250) },
            CalibrationPoint { value_cm: 45, lower_bound_cm: 1250, upper_bound_cm: Some(1350) },
            CalibrationPoint { value_cm: 46, lower_bound_cm: 1350, upper_bound_cm: Some(1500) },
            CalibrationPoint { value_cm: 47, lower_bound_cm: 1500, upper_bound_cm: Some(1675) },
            CalibrationPoint { value_cm: 48, lower_bound_cm: 1675, upper_bound_cm: Some(1875) },
            CalibrationPoint { value_cm: 49, lower_bound_cm: 1875, upper_bound_cm: Some(2075) },
            CalibrationPoint { value_cm: 50, lower_bound_cm: 2075, upper_bound_cm: Some(2250) },
            CalibrationPoint { value_cm: 51, lower_bound_cm: 2250, upper_bound_cm: Some(2375) },
            CalibrationPoint { value_cm: 52, lower_bound_cm: 2375, upper_bound_cm: Some(2500) },
            CalibrationPoint { value_cm: 53, lower_bound_cm: 2500, upper_bound_cm: Some(2750) },
            CalibrationPoint { value_cm: 54, lower_bound_cm: 2750, upper_bound_cm: Some(3375) },
            CalibrationPoint { value_cm: 55, lower_bound_cm: 3375, upper_bound_cm: Some(3825) },
            CalibrationPoint { value_cm: 56, lower_bound_cm: 3825, upper_bound_cm: Some(4300) },
            CalibrationPoint { value_cm: 57, lower_bound_cm: 4300, upper_bound_cm: Some(4800) },
            CalibrationPoint { value_cm: 58, lower_bound_cm: 4800, upper_bound_cm: None },
        ],
    }
}

} // verus!
