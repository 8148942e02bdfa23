use crate::relay::Relay;
use vstd::prelude::*;

verus! {

/// The heating coil, powered through a relay.
pub struct HeatingCoil {
    relay: Relay,
}

impl View for HeatingCoil {
    type V = bool;

    /// `true` while the heating coil is turned on.
    closed spec fn view(&self) -> bool {
        self.relay@
    }
}

impl HeatingCoil {
    pub fn new(relay: Relay) -> (r: HeatingCoil)
        ensures
            r@ == relay@,
    {
        HeatingCoil { relay }
    }

    /// Returns `true` if the heating coil is currently turned on.
    pub fn is_turned_on(&self) -> (r: bool)
        ensures
            r == self@,
    {
        self.relay.is_closed()
    }

    /// Turns on the heating coil.
    pub fn turn_on(&mut self)
        ensures
            final(self)@,
    {
        self.relay.close();
    }

    /// Turns off the heating coil.
    pub fn turn_off(&mut self)
        ensures
            !final(self)@,
    {
        self.relay.open();
    }
}

} // verus!
