//! The units a temperature can be displayed in.

use vstd::prelude::*;

verus! {

/// A temperature unit.
#[derive(Clone, Copy, Debug, PartialEq, Eq, Structural)]
pub enum Unit {
    Fahrenheit,
    Celsius,
    Kelvin,
}

impl Unit {
    /// The unit that follows this one when the user asks for the next:
    /// Fahrenheit, then Kelvin, then Celsius, then Fahrenheit again.
    pub open spec fn spec_next(self) -> Unit {
        match self {
            Unit::Fahrenheit => Unit::Kelvin,
            Unit::Kelvin => Unit::Celsius,
            Unit::Celsius => Unit::Fahrenheit,
        }
    }

    /// Returns the unit that follows this one.
    #[verifier::when_used_as_spec(spec_next)]
    pub fn next(self) -> (unit: Unit)
        ensures
            unit == self.spec_next(),
    {
        match self {
            Unit::Fahrenheit => Unit::Kelvin,
            Unit::Kelvin => Unit::Celsius,
            Unit::Celsius => Unit::Fahrenheit,
        }
    }
}

/// Asking for the next unit three times comes back to where one started, and
/// not before.
pub proof fn lemma_units_cycle(unit: Unit)
    ensures
        unit.spec_next() != unit,
        unit.spec_next().spec_next() != unit,
        unit.spec_next().spec_next().spec_next() == unit,
{
}

} // verus!
