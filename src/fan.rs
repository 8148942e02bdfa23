use crate::relay::Relay;
use vstd::prelude::*;

verus! {

/// The fan, powered through a relay.
pub struct Fan {
    relay: Relay,
}

impl View for Fan {
    type V = bool;

    /// `true` while the fan is turned on.
    closed spec fn view(&self) -> bool {
        self.relay@
    }
}

impl Fan {
    pub fn new(relay: Relay) -> (r: Fan)
        ensures
            r@ == relay@,
    {
        Fan { relay }
    }

    /// Returns `true` if the fan is currently turned on.
    pub fn is_turned_on(&self) -> (r: bool)
        ensures
            r == self@,
    {
        self.relay.is_closed()
    }

    /// Turns on the fan.
    pub fn turn_on(&mut self)
        ensures
            final(self)@,
    {
        self.relay.close();
    }

    /// Turns off the fan.
    pub fn turn_off(&mut self)
        ensures
            !final(self)@,
    {
        self.relay.open();
    }
}

} // verus!
