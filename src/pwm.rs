//! Validity of radio-control PWM readings.

use vstd::prelude::*;

verus! {

/// Smallest pulse width accepted as a pointing command.
pub const PWM_MIN: u16 = 1000;

/// Largest pulse width accepted as a pointing command.
pub const PWM_MAX: u16 = 2000;

/// Reading that a receiver reports when it has no signal.
pub const PWM_NO_SIGNAL: u16 = 0;

/// Reading that stands for a channel that is not set at all.
pub const PWM_UNSET: u16 = 65535;

/// A reading is usable when it lies in the closed range `[PWM_MIN, PWM_MAX]`.
pub open spec fn valid_pwm(v: int) -> bool {
    PWM_MIN <= v <= PWM_MAX
}

/// Returns whether `pwm` lies in the closed range `[PWM_MIN, PWM_MAX]`.
pub fn is_valid_pwm(pwm: u16) -> (r: bool)
    ensures
        r == valid_pwm(pwm as int),
{
    pwm >= PWM_MIN && pwm <= PWM_MAX
}

/// Why a single reading is, or is not, usable.
#[derive(Clone, Copy, Debug, PartialEq, Eq, Structural)]
pub enum PwmStatus {
    Valid,
    /// The receiver reports no signal on the channel.
    NoSignal,
    /// The channel is not set.
    Unset,
    /// Any other reading outside the accepted range.
    OutOfRange,
}

/// The status of one reading, as a function of its value.
pub open spec fn status_of(v: int) -> PwmStatus {
    if valid_pwm(v) {
        PwmStatus::Valid
    } else if v == PWM_NO_SIGNAL {
        PwmStatus::NoSignal
    } else if v == PWM_UNSET {
        PwmStatus::Unset
    } else {
        PwmStatus::OutOfRange
    }
}

/// Classifies one reading; the two sentinels are told apart from other
/// out-of-range values so that diagnostics can name the cause.
pub fn pwm_status(pwm: u16) -> (r: PwmStatus)
    ensures
        r == status_of(pwm as int),
        (r == PwmStatus::Valid) == valid_pwm(pwm as int),
{
    if is_valid_pwm(pwm) {
        PwmStatus::Valid
    } else if pwm == PWM_NO_SIGNAL {
        PwmStatus::NoSignal
    } else if pwm == PWM_UNSET {
        PwmStatus::Unset
    } else {
        PwmStatus::OutOfRange
    }
}

/// The two readings that drive the tracker: azimuth and elevation.
#[derive(Clone, Copy, Debug, PartialEq, Eq, Structural)]
pub struct PwmPair {
    pub azimuth: u16,
    pub elevation: u16,
}

impl PwmPair {
    /// A pair may be forwarded only when both readings are valid.
    pub open spec fn is_valid(&self) -> bool {
        valid_pwm(self.azimuth as int) && valid_pwm(self.elevation as int)
    }

    pub fn new(azimuth: u16, elevation: u16) -> (r: PwmPair)
        ensures
            r.azimuth == azimuth,
            r.elevation == elevation,
    {
        PwmPair { azimuth, elevation }
    }

    /// Returns whether both readings are valid; one bad reading rejects the
    /// whole pair.
    pub fn both_valid(&self) -> (r: bool)
        ensures
            r == self.is_valid(),
    {
        is_valid_pwm(self.azimuth) && is_valid_pwm(self.elevation)
    }
}

} // verus!
