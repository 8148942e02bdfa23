use crate::ekit::EKitUserRunMode;
use crate::temperature::{base_value, Temperature};
use vstd::prelude::*;

verus! {

/// Below this difference, in hundredths of a degree Celsius, between the requested
/// and the actual temperature the e-kit runs at half capacity; at or above it, at full.
pub const FULL_CAPACITY_THRESHOLD_HUNDREDTHS_CELSIUS: i32 = 150;

/// The run mode suggested for reaching `requested` from `actual`.
pub open spec fn suggested_mode(requested: Temperature, actual: Temperature) -> EKitUserRunMode {
    if base_value(actual) >= base_value(requested) {
        EKitUserRunMode::Off
    } else if base_value(requested) - base_value(actual) < 9 * FULL_CAPACITY_THRESHOLD_HUNDREDTHS_CELSIUS {
        EKitUserRunMode::Half
    } else {
        EKitUserRunMode::Full
    }
}

/// Holds the requested room temperature and suggests the e-kit run mode.
pub struct Thermostat {
    requested_temperature: Temperature,
}

impl View for Thermostat {
    type V = Temperature;

    /// The requested temperature.
    closed spec fn view(&self) -> Temperature {
        self.requested_temperature
    }
}

impl Thermostat {
    pub fn new(requested_temperature: Temperature) -> (t: Thermostat)
        ensures
            t@ == requested_temperature,
    {
        Thermostat { requested_temperature }
    }

    /// Returns the requested temperature.
    pub fn requested_temperature(&self) -> (r: Temperature)
        ensures
            r == self@,
    {
        self.requested_temperature
    }

    /// Sets the requested temperature.
    pub fn set_requested_temperature(&mut self, temperature: Temperature)
        ensures
            final(self)@ == temperature,
    {
        self.requested_temperature = temperature;
    }

    /// Returns the suggested run mode for the given actual temperature: off once it
    /// is reached, half capacity when it is less than the threshold away, else full.
    pub fn suggested_ekit_run_mode(&self, actual_temperature: Temperature) -> (r: EKitUserRunMode)
        ensures
            r == suggested_mode(self@, actual_temperature),
    {
        let requested = self.requested_temperature.base_value();
        let actual = actual_temperature.base_value();
        if actual >= requested {
            EKitUserRunMode::Off
        } else if requested - actual < 9 * (FULL_CAPACITY_THRESHOLD_HUNDREDTHS_CELSIUS as i64) {
            EKitUserRunMode::Half
        } else {
            EKitUserRunMode::Full
        }
    }
}

} // verus!
