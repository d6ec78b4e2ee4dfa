//! Unit tags for the record's presentation.
//!
//! Conversion arithmetic between units is floating point work and lives
//! with the presentation shell; the tags themselves, and which unit each
//! record field carries, are fixed here.
use vstd::prelude::*;

verus! {

/// Temperature units: the record carries Celsius.
#[derive(Clone, Copy, Debug, PartialEq, Eq, Structural)]
pub enum TempUnit {
    F,
    C,
}

impl TempUnit {
    /// The unit's conventional symbol, without the degree sign.
    pub fn label(&self) -> (r: &'static str)
        ensures
            *self is C ==> r@ == "C"@,
            *self is F ==> r@ == "F"@,
    {
        match self {
            TempUnit::C => "C",
            TempUnit::F => "F",
        }
    }
}

/// Split a non-negative duration into whole hours, leftover minutes and
/// leftover seconds, for rendering.
pub fn duration_parts(total_seconds: i64) -> (r: (i64, i64, i64))
    requires
        total_seconds >= 0,
    ensures
        r.0 == total_seconds / 3600,
        r.1 == (total_seconds / 60) % 60,
        r.2 == total_seconds % 60,
        r.0 * 3600 + r.1 * 60 + r.2 == total_seconds,
{
    let hours = total_seconds / 3600;
    let minutes = (total_seconds / 60) % 60;
    let seconds = total_seconds % 60;
    proof {
        assert(hours * 3600 + minutes * 60 + seconds == total_seconds) by (nonlinear_arith)
            requires
                total_seconds >= 0,
                hours == total_seconds / 3600,
                minutes == (total_seconds / 60) % 60,
                seconds == total_seconds % 60,
        ;
    }
    (hours, minutes, seconds)
}

/// Speed units: the record carries meters per second.
#[derive(Clone, Copy, Debug, PartialEq, Eq, Structural)]
pub enum SpeedUnit {
    MetersPerSecond,
    MilesPerHour,
}

impl SpeedUnit {
    /// The unit's conventional symbol.
    pub fn label(&self) -> (r: &'static str)
        ensures
            *self is MetersPerSecond ==> r@ == "m/s"@,
            *self is MilesPerHour ==> r@ == "mph"@,
    {
        match self {
            SpeedUnit::MetersPerSecond => "m/s",
            SpeedUnit::MilesPerHour => "mph",
        }
    }
}

} // verus!
