use vstd::arithmetic::div_mod::{lemma_fundamental_div_mod, lemma_hoist_over_denominator};
use vstd::prelude::*;

verus! {

/// The scale a temperature value is written in.
#[derive(Clone, Copy, PartialEq, Eq, Structural, Debug)]
pub enum UnitTemperature {
    Kelvin,
    Celsius,
    Fahrenheit,
}

impl UnitTemperature {
    pub fn kelvin() -> (u: UnitTemperature)
        ensures
            u == UnitTemperature::Kelvin,
    {
        UnitTemperature::Kelvin
    }

    pub fn celsius() -> (u: UnitTemperature)
        ensures
            u == UnitTemperature::Celsius,
    {
        UnitTemperature::Celsius
    }

    pub fn fahrenheit() -> (u: UnitTemperature)
        ensures
            u == UnitTemperature::Fahrenheit,
    {
        UnitTemperature::Fahrenheit
    }
}

/// A temperature, held as a whole number of hundredths of a degree of its unit.
///
/// Temperatures compare by the physical quantity they denote, whatever their units:
/// `celsius(0)` equals `Temperature::new(27315, UnitTemperature::Kelvin)`.
#[derive(Clone, Copy, Debug)]
pub struct Temperature {
    pub value: i32,
    pub unit: UnitTemperature,
}

/// The temperature in units of 1/900 kelvin.
///
/// One hundredth of a degree Celsius or kelvin is 9 such units, one hundredth of a
/// degree Fahrenheit is 5, so every value of every unit maps onto this scale exactly.
pub open spec fn base_value(t: Temperature) -> int {
    match t.unit {
        UnitTemperature::Kelvin => 9 * t.value,
        UnitTemperature::Celsius => 9 * (t.value + 27315),
        UnitTemperature::Fahrenheit => 5 * (t.value + 45967),
    }
}

/// The base value of one hundredth of a degree of `unit`.
pub open spec fn unit_step(unit: UnitTemperature) -> int {
    match unit {
        UnitTemperature::Fahrenheit => 5,
        _ => 9,
    }
}

/// The value, in hundredths of a degree of `unit`, of the highest temperature
/// written in `unit` that is not above `t`.
pub open spec fn converted_value(t: Temperature, unit: UnitTemperature) -> int {
    match unit {
        UnitTemperature::Kelvin => base_value(t) / 9,
        UnitTemperature::Celsius => base_value(t) / 9 - 27315,
        UnitTemperature::Fahrenheit => base_value(t) / 5 - 45967,
    }
}

/// The value of the sum of two temperatures: in their unit if they share one,
/// else in hundredths of a kelvin, rounded down.
pub open spec fn sum_value(a: Temperature, b: Temperature) -> int {
    if a.unit == b.unit {
        a.value + b.value
    } else {
        (base_value(a) + base_value(b)) / 9
    }
}

/// The value of the difference of two temperatures: in their unit if they share
/// one, else in hundredths of a kelvin, rounded down.
pub open spec fn difference_value(a: Temperature, b: Temperature) -> int {
    if a.unit == b.unit {
        a.value - b.value
    } else {
        (base_value(a) - base_value(b)) / 9
    }
}

/// The unit of a sum or difference of two temperatures.
pub open spec fn combined_unit(a: Temperature, b: Temperature) -> UnitTemperature {
    if a.unit == b.unit {
        a.unit
    } else {
        UnitTemperature::Kelvin
    }
}

pub open spec fn fits_i32(v: int) -> bool {
    i32::MIN <= v <= i32::MAX
}

/// 45 * 2^31: a multiple of both 9 and 5, above twice the magnitude of every base value.
const BASE_OFFSET: i64 = 96636764160;

/// `n / d` rounded down, for `n` within the offset.
fn floor_div(n: i64, d: i64) -> (q: i64)
    requires
        d == 9 || d == 5,
        -BASE_OFFSET <= n <= BASE_OFFSET,
    ensures
        q == n as int / d as int,
{
    let shifted = (n + BASE_OFFSET) as u64;
    let offset_quotient = BASE_OFFSET as u64 / d as u64;
    assert(offset_quotient as int * d as int == BASE_OFFSET as int) by {
        assert(96636764160u64 / 9 == 10737418240u64);
        assert(96636764160u64 / 5 == 19327352832u64);
    }
    proof {
        lemma_hoist_over_denominator(n as int, offset_quotient as int, d as nat);
    }
    (shifted / d as u64) as i64 - offset_quotient as i64
}

/// A temperature of `hundredths` hundredths of a degree Celsius.
pub open spec fn celsius_spec(hundredths: i32) -> Temperature {
    Temperature { value: hundredths, unit: UnitTemperature::Celsius }
}

/// Returns a temperature of `hundredths` hundredths of a degree Celsius.
#[verifier::when_used_as_spec(celsius_spec)]
pub fn celsius(hundredths: i32) -> (t: Temperature)
    ensures
        t == celsius_spec(hundredths),
{
    Temperature { value: hundredths, unit: UnitTemperature::Celsius }
}

impl Temperature {
    pub fn new(value: i32, unit: UnitTemperature) -> (t: Temperature)
        ensures
            t.value == value,
            t.unit == unit,
    {
        Temperature { value, unit }
    }

    /// Returns the temperature in units of 1/900 kelvin.
    pub fn base_value(&self) -> (r: i64)
        ensures
            r == base_value(*self),
    {
        let v = self.value as i64;
        match self.unit {
            UnitTemperature::Kelvin => 9 * v,
            UnitTemperature::Celsius => 9 * (v + 27315),
            UnitTemperature::Fahrenheit => 5 * (v + 45967),
        }
    }

    /// Converts to `unit`, rounding down to the hundredth of a degree.
    pub fn converted_to(&self, unit: UnitTemperature) -> (r: Temperature)
        requires
            fits_i32(converted_value(*self, unit)),
        ensures
            r.unit == unit,
            r.value == converted_value(*self, unit),
            base_value(r) <= base_value(*self) < base_value(r) + unit_step(unit),
            self.unit == unit ==> r.value == self.value,
    {
        let b = self.base_value();
        let value = match unit {
            UnitTemperature::Kelvin => floor_div(b, 9),
            UnitTemperature::Celsius => floor_div(b, 9) - 27315,
            UnitTemperature::Fahrenheit => floor_div(b, 5) - 45967,
        };
        proof {
            lemma_fundamental_div_mod(base_value(*self), unit_step(unit));
        }
        Temperature { value: value as i32, unit }
    }

    /// Adds two temperatures: in their unit if they share one, else in kelvin.
    pub fn add(&self, rhs: &Temperature) -> (r: Temperature)
        requires
            fits_i32(sum_value(*self, *rhs)),
        ensures
            r.unit == combined_unit(*self, *rhs),
            r.value == sum_value(*self, *rhs),
    {
        if self.unit == rhs.unit {
            Temperature { value: self.value + rhs.value, unit: self.unit }
        } else {
            let value = floor_div(self.base_value() + rhs.base_value(), 9);
            Temperature { value: value as i32, unit: UnitTemperature::Kelvin }
        }
    }

    /// Subtracts `rhs`: in the unit both share, else in kelvin.
    pub fn sub(&self, rhs: &Temperature) -> (r: Temperature)
        requires
            fits_i32(difference_value(*self, *rhs)),
        ensures
            r.unit == combined_unit(*self, *rhs),
            r.value == difference_value(*self, *rhs),
    {
        if self.unit == rhs.unit {
            Temperature { value: self.value - rhs.value, unit: self.unit }
        } else {
            let value = floor_div(self.base_value() - rhs.base_value(), 9);
            Temperature { value: value as i32, unit: UnitTemperature::Kelvin }
        }
    }

    /// Returns `true` if this temperature is lower than or equal to `other`.
    pub fn is_at_most(&self, other: &Temperature) -> (r: bool)
        ensures
            r == (base_value(*self) <= base_value(*other)),
    {
        self.base_value() <= other.base_value()
    }

    /// Returns `true` if this temperature is higher than or equal to `other`.
    pub fn is_at_least(&self, other: &Temperature) -> (r: bool)
        ensures
            r == (base_value(*self) >= base_value(*other)),
    {
        self.base_value() >= other.base_value()
    }
}

impl PartialEq for Temperature {
    fn eq(&self, other: &Temperature) -> (r: bool)
        ensures
            r == (base_value(*self) == base_value(*other)),
    {
        self.base_value() == other.base_value()
    }
}

impl vstd::std_specs::cmp::PartialEqSpecImpl for Temperature {
    open spec fn obeys_eq_spec() -> bool {
        true
    }

    open spec fn eq_spec(&self, other: &Temperature) -> bool {
        base_value(*self) == base_value(*other)
    }
}

} // verus!
