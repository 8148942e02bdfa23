use vstd::prelude::*;

verus! {

/// A digital output line, held as the level it was last set to.
pub struct DigitalOutputPin {
    is_high: bool,
}

impl View for DigitalOutputPin {
    type V = bool;

    /// `true` while the line is set high.
    closed spec fn view(&self) -> bool {
        self.is_high
    }
}

impl DigitalOutputPin {
    /// Returns a line that starts at the given level.
    pub fn test(is_high: bool) -> (p: DigitalOutputPin)
        ensures
            p@ == is_high,
    {
        DigitalOutputPin { is_high }
    }

    /// Returns `true` if the pin is currently set high.
    pub fn is_high(&self) -> (r: bool)
        ensures
            r == self@,
    {
        self.is_high
    }

    /// Returns `true` if the pin output is set high.
    pub fn is_set_high(&self) -> (r: bool)
        ensures
            r == self@,
    {
        self.is_high
    }

    /// Sets the pin output high.
    pub fn set_high(&mut self)
        ensures
            final(self)@,
    {
        self.is_high = true;
    }

    /// Sets the pin output low.
    pub fn set_low(&mut self)
        ensures
            !final(self)@,
    {
        self.is_high = false;
    }
}

} // verus!
