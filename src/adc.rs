use vstd::prelude::*;

verus! {

/// An analog input line, held as the raw value it reads.
pub struct AdcInputPin {
    value: u16,
}

impl View for AdcInputPin {
    type V = u16;

    /// The raw value the line reads.
    closed spec fn view(&self) -> u16 {
        self.value
    }
}

impl AdcInputPin {
    /// Returns a line that reads the given raw value.
    pub fn test(value: u16) -> (p: AdcInputPin)
        ensures
            p@ == value,
    {
        AdcInputPin { value }
    }

    /// Reads the raw value of the line.
    pub fn read(&mut self) -> (r: u16)
        ensures
            r == old(self)@,
            final(self)@ == old(self)@,
    {
        self.value
    }
}

} // verus!
