//! The numeric half of the position readout: a repeating timer that
//! throttles the readout to a fixed cadence, and the exact
//! two-decimal decomposition of a micro-unit quantity. Turning the
//! decomposed digits into display text is the host's job.

use vstd::prelude::*;
use crate::units::MAX_DT;
use crate::units::POS_RANGE;

verus! {

/// The readout refresh period: a tenth of a second, in micro-seconds.
pub const REPORT_PERIOD: i64 = 100_000;

/// A repeating timer: accumulates frame time and fires whenever the
/// period has elapsed, keeping the overshoot.
#[derive(Clone, Copy, PartialEq, Eq, Structural, Debug)]
pub struct ReportTimer {
    pub elapsed: i64,
}

impl ReportTimer {
    /// The accumulated time always stays below one period.
    pub open spec fn wf(&self) -> bool {
        0 <= self.elapsed < REPORT_PERIOD
    }

    /// A fresh timer with nothing accumulated.
    pub fn new() -> (r: ReportTimer)
        ensures
            r.elapsed == 0,
            r.wf(),
    {
        ReportTimer { elapsed: 0 }
    }

    /// Advance the timer by one frame's time; report whether the
    /// period was reached, and keep only the remainder past whole
    /// periods.
    pub fn tick(&mut self, dt: i64) -> (fired: bool)
        requires
            old(self).wf(),
            0 <= dt <= MAX_DT,
        ensures
            fired == (old(self).elapsed + dt >= REPORT_PERIOD),
            final(self).elapsed == (old(self).elapsed + dt) % (REPORT_PERIOD as int),
            final(self).wf(),
    {
        let total: i64 = self.elapsed + dt;
        if total >= REPORT_PERIOD {
            let rem: u64 = (total as u64) % (REPORT_PERIOD as u64);
            self.elapsed = rem as i64;
            true
        } else {
            self.elapsed = total;
            false
        }
    }
}

/// A two-decimal reading of a micro-unit quantity: sign, whole part,
/// and hundredths, rounded half away from zero.
#[derive(Clone, Copy, PartialEq, Eq, Structural, Debug)]
pub struct Decimal2 {
    pub negative: bool,
    pub whole: i64,
    pub hundredths: i64,
}

/// The magnitude of a value.
pub open spec fn magnitude(v: int) -> int {
    if v < 0 {
        -v
    } else {
        v
    }
}

/// The magnitude of `v` micro-units in hundredths of a unit, rounded
/// half away from zero.
pub open spec fn centi_round(v: int) -> int {
    (magnitude(v) + 5_000) / 10_000
}

/// Decompose a micro-unit quantity into the sign, whole part and
/// hundredths that a two-decimal readout shows.
pub fn two_decimals(v: i64) -> (r: Decimal2)
    requires
        -POS_RANGE <= v <= POS_RANGE,
    ensures
        r.negative == (v < 0),
        r.whole == centi_round(v as int) / 100,
        r.hundredths == centi_round(v as int) % 100,
        0 <= r.whole,
        0 <= r.hundredths < 100,
{
    let mag: i64 = if v < 0 {
        -v
    } else {
        v
    };
    let c: u64 = ((mag as u64) + 5_000) / 10_000;
    let whole: i64 = (c / 100) as i64;
    let hundredths: i64 = (c % 100) as i64;
    Decimal2 { negative: v < 0, whole, hundredths }
}

} // verus!
