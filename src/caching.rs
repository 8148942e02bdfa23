use crate::temperature::Temperature;
use vstd::prelude::*;

verus! {

/// The most recent temperature reading, and the last one that succeeded.
pub struct CachedTemperature {
    most_recent_temperature: Option<Temperature>,
    last_known_temperature: Option<Temperature>,
}

impl View for CachedTemperature {
    /// The most recent reading, and the last successful one.
    type V = (Option<Temperature>, Option<Temperature>);

    closed spec fn view(&self) -> (Option<Temperature>, Option<Temperature>) {
        (self.most_recent_temperature, self.last_known_temperature)
    }
}

impl CachedTemperature {
    pub fn new(temperature: Option<Temperature>) -> (c: CachedTemperature)
        ensures
            c@ == (temperature, temperature),
    {
        CachedTemperature {
            most_recent_temperature: temperature,
            last_known_temperature: temperature,
        }
    }

    /// Returns the most recent temperature.
    pub fn most_recent_temperature(&self) -> (r: Option<Temperature>)
        ensures
            r == self@.0,
    {
        self.most_recent_temperature
    }

    /// Returns the last known temperature. This may or may not be the most recent
    /// temperature.
    pub fn last_known_temperature(&self) -> (r: Option<Temperature>)
        ensures
            r == (if self@.0 is Some { self@.0 } else { self@.1 }),
    {
        match self.most_recent_temperature {
            Some(t) => Some(t),
            None => self.last_known_temperature,
        }
    }

    /// Records a new reading; `None` means that it failed.
    pub fn update(&mut self, temperature: Option<Temperature>)
        ensures
            final(self)@ == (temperature, if temperature is Some {
                temperature
            } else {
                old(self)@.1
            }),
    {
        if let Some(temperature) = temperature {
            self.most_recent_temperature = Some(temperature);
            self.last_known_temperature = Some(temperature);
        } else {
            self.most_recent_temperature = None;
        }
    }
}

} // verus!
