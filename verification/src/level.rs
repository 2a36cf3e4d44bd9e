//! Volume levels as fixed-point numbers.
//!
//! A level is counted in millionths of full scale: `1_000_000` stands for the
//! scalar `1.0`, `950_000` for `0.95`. Readings come from the device as they
//! are and may lie outside the valid range; a target is always inside it.

use vstd::prelude::*;
use crate::error::ControlError;

verus! {

/// The scalar `1.0` in millionths.
pub const FULL_SCALE: i64 = 1_000_000;

/// The dead band around the target: one percent of full scale.
pub const TOLERANCE: i64 = 10_000;

/// One percentage point in millionths.
pub const POINT: i64 = 10_000;

/// Whether `raw` millionths lie in `[0.0, 1.0]`.
pub open spec fn in_range(raw: int) -> bool {
    0 <= raw <= FULL_SCALE
}

/// The distance between a reading and a target, in millionths.
pub open spec fn deviation(current: int, target: int) -> int {
    if current >= target {
        current - target
    } else {
        target - current
    }
}

/// Whether a reading lies outside the dead band around the target.
pub open spec fn drifted(current: int, target: int) -> bool {
    deviation(current, target) > TOLERANCE
}

/// The whole percentage points in `raw` millionths, fractions cut off.
pub open spec fn whole_percent(raw: int) -> int {
    raw / POINT as int
}

/// The whole percentage nearest to `raw` millionths, halves rounded up.
pub open spec fn nearest_percent(raw: int) -> int {
    (raw + POINT / 2) / POINT as int
}

/// A target level: a value inside `[0.0, 1.0]`, in millionths.
#[derive(Clone, Copy, Debug, PartialEq, Eq, Structural)]
pub struct Level {
    micros: u32,
}

impl View for Level {
    type V = int;

    closed spec fn view(&self) -> int {
        self.micros as int
    }
}

impl Level {
    #[verifier::type_invariant]
    spec fn within_scale(self) -> bool {
        self.micros <= FULL_SCALE
    }

    /// Every level that executable code holds is valid; this is what holds of it.
    pub open spec fn wf(self) -> bool {
        in_range(self@)
    }

    /// Accepts `raw` millionths as a target if they lie in `[0.0, 1.0]`.
    pub fn new(raw: i64) -> (r: Result<Level, ControlError>)
        ensures
            in_range(raw as int) ==> (r matches Ok(level) && level@ == raw && level.wf()),
            !in_range(raw as int) ==> r == Err::<Level, ControlError>(ControlError::InvalidRange),
    {
        if 0 <= raw && raw <= FULL_SCALE {
            Ok(Level { micros: raw as u32 })
        } else {
            Err(ControlError::InvalidRange)
        }
    }

    /// The level of a whole percentage, as given on the command line.
    pub fn from_percent(percent: u8) -> (r: Result<Level, ControlError>)
        ensures
            percent <= 100 ==> (r matches Ok(level) && level@ == percent * POINT && level.wf()),
            percent > 100 ==> r == Err::<Level, ControlError>(ControlError::InvalidRange),
    {
        if percent <= 100 {
            Ok(Level { micros: percent as u32 * 10_000 })
        } else {
            Err(ControlError::InvalidRange)
        }
    }

    /// The level in millionths.
    pub fn micros(&self) -> (m: u32)
        ensures
            m == self@,
            self.wf(),
    {
        proof {
            use_type_invariant(self);
        }
        self.micros
    }

    /// The whole percentage points of this level, fractions cut off.
    pub fn percent(&self) -> (p: u8)
        ensures
            p == whole_percent(self@),
            p <= 100,
    {
        proof {
            use_type_invariant(self);
        }
        (self.micros / 10_000) as u8
    }

    /// The percentage nearest to this level, halves rounded up.
    pub fn rounded_percent(&self) -> (p: u8)
        ensures
            p == nearest_percent(self@),
            p <= 100,
    {
        proof {
            use_type_invariant(self);
        }
        ((self.micros + 5_000) / 10_000) as u8
    }
}

/// The distance between a reading and the target, in millionths.
pub fn distance(current: i64, target: Level) -> (d: u64)
    ensures
        d == deviation(current as int, target@),
{
    let t: i128 = target.micros() as i128;
    let c: i128 = current as i128;
    if c >= t {
        (c - t) as u64
    } else {
        (t - c) as u64
    }
}

/// Whether the reading calls for a corrective write.
pub fn needs_correction(current: i64, target: Level) -> (b: bool)
    ensures
        b == drifted(current as int, target@),
{
    distance(current, target) > TOLERANCE as u64
}

/// The size of a drift in whole percentage points.
pub fn drift_points(current: i64, target: Level) -> (points: u64)
    ensures
        points == whole_percent(deviation(current as int, target@)),
{
    distance(current, target) / 10_000
}

/// The whole percentage nearest to a reading, halves rounded up.
pub fn reading_percent(reading: i64) -> (percent: i64)
    ensures
        percent == nearest_percent(reading as int),
{
    let shifted: i128 = reading as i128 + 5_000;
    let percent: i128 = if shifted >= 0 {
        shifted / 10_000
    } else {
        -((9_999 - shifted) / 10_000)
    };
    percent as i64
}

} // verus!
