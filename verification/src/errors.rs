//! Error taxonomy of the core.
//!
//! Transient sensor faults and display faults are absorbed at the boundary
//! where they arise (translated to "no event" or a dropped frame), so the
//! verified core never propagates one; the variants name the peripheral a
//! fault came from for the driver layer's logging.

use vstd::prelude::*;

verus! {

/// Which peripheral a run-time fault came from.
#[derive(Clone, Copy, Debug, PartialEq, Eq, Structural)]
pub enum TwatchError {
    Clock,
    Display,
    Pmu,
    I2c,
    Accel,
}

impl TwatchError {
    /// The fault's name, for the driver layer's logs.
    pub fn as_str(&self) -> (r: &'static str)
        ensures
            *self == TwatchError::Clock ==> r@ == "clock error"@,
            *self == TwatchError::Display ==> r@ == "display error"@,
            *self == TwatchError::Pmu ==> r@ == "power management error"@,
            *self == TwatchError::I2c ==> r@ == "bus error"@,
            *self == TwatchError::Accel ==> r@ == "accelerometer error"@,
    {
        match self {
            TwatchError::Clock => "clock error",
            TwatchError::Display => "display error",
            TwatchError::Pmu => "power management error",
            TwatchError::I2c => "bus error",
            TwatchError::Accel => "accelerometer error",
        }
    }
}

} // verus!
