use crate::gpio::DigitalOutputPin;
use vstd::prelude::*;

verus! {

/// A relay switched by a digital output line: closed while the line is high.
pub struct Relay {
    pin: DigitalOutputPin,
}

impl View for Relay {
    type V = bool;

    /// `true` while the relay is closed, i.e. current flows.
    closed spec fn view(&self) -> bool {
        self.pin@
    }
}

impl Relay {
    /// Returns a new relay connected to the given pin.
    pub fn connected_to(pin: DigitalOutputPin) -> (r: Relay)
        ensures
            r@ == pin@,
    {
        Relay { pin }
    }

    /// Returns `true` if the relay is currently closed, i.e. current is currently flowing.
    pub fn is_closed(&self) -> (r: bool)
        ensures
            r == self@,
    {
        self.pin.is_high()
    }

    /// Closes the relay, i.e. lets current flow.
    pub fn close(&mut self)
        ensures
            final(self)@,
    {
        self.pin.set_high();
    }

    /// Opens the relay, i.e. stops the current flow.
    pub fn open(&mut self)
        ensures
            !final(self)@,
    {
        self.pin.set_low();
    }
}

} // verus!
