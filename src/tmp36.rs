use crate::adc::AdcInputPin;
use crate::temperature::{celsius, Temperature};
use vstd::prelude::*;

verus! {

/// The temperature, in hundredths of a degree Celsius, of a raw TMP36 reading.
///
/// The reading is a voltage in units of 1/1024; the sensor gives 0.5 at 0 °C and
/// rises by 0.01 per degree. The result is rounded down.
pub open spec fn tmp36_hundredths(adc: u16) -> int {
    (adc as int * 10000) / 1024 - 5000
}

/// A TMP36 temperature sensor read through an analog input line.
pub struct TMP36 {
    input: AdcInputPin,
}

impl View for TMP36 {
    type V = u16;

    /// The raw value the sensor's line reads.
    closed spec fn view(&self) -> u16 {
        self.input@
    }
}

impl TMP36 {
    pub fn connected_to(input: AdcInputPin) -> (s: TMP36)
        ensures
            s@ == input@,
    {
        TMP36 { input }
    }

    /// Converts a raw reading to a temperature in degrees Celsius.
    pub fn adc_to_temperature(adc: u16) -> (t: Temperature)
        ensures
            t == celsius(tmp36_hundredths(adc) as i32),
    {
        let hundredths = (adc as i32) * 10000 / 1024 - 5000;
        celsius(hundredths)
    }

    /// Measures the temperature.
    pub fn temperature(&mut self) -> (t: Temperature)
        ensures
            t == celsius(tmp36_hundredths(old(self)@) as i32),
            final(self)@ == old(self)@,
    {
        let val = self.input.read();
        Self::adc_to_temperature(val)
    }
}

} // verus!
