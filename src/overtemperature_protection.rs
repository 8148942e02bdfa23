use crate::ekit::EKitSystemRunMode;
use crate::temperature::{base_value, celsius, Temperature};
use vstd::prelude::*;

verus! {

/// Cooldown is entered once the output temperature is at or above this many
/// hundredths of a degree Celsius.
pub const COOLDOWN_ENTER_HUNDREDTHS_CELSIUS: i32 = 9000;

/// Cooldown is left once the output temperature is at or below this many
/// hundredths of a degree Celsius.
pub const COOLDOWN_EXIT_HUNDREDTHS_CELSIUS: i32 = 5000;

/// The temperature at or above which protection becomes active.
pub open spec fn cooldown_enter() -> Temperature {
    celsius(COOLDOWN_ENTER_HUNDREDTHS_CELSIUS)
}

/// The temperature at or below which protection stops being active.
pub open spec fn cooldown_exit() -> Temperature {
    celsius(COOLDOWN_EXIT_HUNDREDTHS_CELSIUS)
}

/// Overtemperature protection: a hysteresis on the e-kit's output temperature.
///
/// `was_active` holds what `is_active` was before the last reading, so that the
/// single step from active to inactive can be seen.
#[derive(Clone, Copy, PartialEq, Eq, Structural, Debug)]
pub struct OvertemperatureProtection {
    pub is_active: bool,
    pub was_active: bool,
}

/// Whether protection is active after a reading, given whether it was active before.
///
/// A missing reading counts as the worst case.
pub open spec fn next_active(is_active: bool, reading: Option<Temperature>) -> bool {
    match reading {
        None => true,
        Some(t) => if is_active {
            !(base_value(t) <= base_value(cooldown_exit()))
        } else {
            base_value(t) >= base_value(cooldown_enter())
        },
    }
}

/// The run mode that protection in state `p` imposes, if any.
pub open spec fn forced_mode(p: OvertemperatureProtection) -> Option<EKitSystemRunMode> {
    if p.is_active {
        Some(EKitSystemRunMode::Cooldown)
    } else if p.was_active {
        Some(EKitSystemRunMode::Off)
    } else {
        None
    }
}

impl OvertemperatureProtection {
    /// The protection state after one reading of the output temperature.
    pub open spec fn after_reading(self, reading: Option<Temperature>) -> OvertemperatureProtection {
        OvertemperatureProtection {
            is_active: next_active(self.is_active, reading),
            was_active: self.is_active,
        }
    }

    /// The protection state after it has been entered by force.
    pub open spec fn entered(self) -> OvertemperatureProtection {
        OvertemperatureProtection { is_active: true, was_active: self.was_active }
    }

    /// Returns an inactive overtemperature protection.
    pub fn inactive() -> (p: OvertemperatureProtection)
        ensures
            !p.is_active,
            !p.was_active,
    {
        OvertemperatureProtection { is_active: false, was_active: false }
    }

    /// Enters overtemperature protection, whatever the temperature.
    pub fn enter(&mut self)
        ensures
            *final(self) == old(self).entered(),
    {
        self.is_active = true;
    }

    /// Exits overtemperature protection, whatever the temperature.
    pub fn exit(&mut self)
        ensures
            final(self).was_active == old(self).is_active,
            !final(self).is_active,
    {
        self.was_active = self.is_active;
        self.is_active = false;
    }

    /// Signals that the e-kit output temperature has changed; `None` means that it
    /// could not be read.
    pub fn output_temperature_changed(&mut self, output_temperature: Option<Temperature>)
        ensures
            *final(self) == old(self).after_reading(output_temperature),
    {
        self.was_active = self.is_active;
        self.is_active = match output_temperature {
            Some(temperature) => {
                if self.is_active {
                    !temperature.is_at_most(&celsius(COOLDOWN_EXIT_HUNDREDTHS_CELSIUS))
                } else {
                    temperature.is_at_least(&celsius(COOLDOWN_ENTER_HUNDREDTHS_CELSIUS))
                }
            },
            None => true,
        };
    }

    /// Returns the run mode that protection forces: `Cooldown` while active, `Off`
    /// on the first reading after it stopped being active, and otherwise none.
    pub fn forced_run_mode(&self) -> (r: Option<EKitSystemRunMode>)
        ensures
            r == forced_mode(*self),
    {
        if self.is_active {
            Some(EKitSystemRunMode::Cooldown)
        } else if self.was_active {
            Some(EKitSystemRunMode::Off)
        } else {
            None
        }
    }
}

} // verus!
