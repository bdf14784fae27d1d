//! Units of measure as the header encodes them.

use vstd::prelude::*;

verus! {

/// units of measure for a given dimension
#[derive(Copy, Clone, Debug, PartialEq, Eq, Structural)]
pub enum UnitOfMeasure {
    /// feet
    Feet,
    /// meters
    Meters,
}

impl UnitOfMeasure {
    /// The unit that a header code stands for, where it stands for one.
    pub open spec fn of_code(code: u32) -> Option<UnitOfMeasure> {
        if code == 0 {
            Some(UnitOfMeasure::Feet)
        } else if code == 1 {
            Some(UnitOfMeasure::Meters)
        } else {
            None
        }
    }

    /// The code that the header holds for this unit.
    pub open spec fn code(self) -> u32 {
        match self {
            UnitOfMeasure::Feet => 0,
            UnitOfMeasure::Meters => 1,
        }
    }

    /// Decodes a unit code: 0 is feet, 1 is meters, no other code is a unit.
    pub fn from_code(code: u32) -> (unit: Option<UnitOfMeasure>)
        ensures
            unit == Self::of_code(code),
            unit is Some <==> code <= 1,
            unit is Some ==> unit->0.code() == code,
    {
        match code {
            0 => Some(UnitOfMeasure::Feet),
            1 => Some(UnitOfMeasure::Meters),
            _ => None,
        }
    }
}

} // verus!
