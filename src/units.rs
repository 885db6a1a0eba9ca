//! Electrical quantities in the integer units the hardware works in.

use vstd::prelude::*;

verus! {

/// A voltage in nanovolts.
#[derive(Clone, Copy, Debug, PartialEq, Eq, Structural)]
pub struct Nanovolts(pub u32);

/// A voltage in millivolts.
#[derive(Clone, Copy, Debug, PartialEq, Eq, Structural)]
pub struct Millivolts(pub u16);

/// A current in milliamps.
#[derive(Clone, Copy, Debug, PartialEq, Eq, Structural)]
pub struct Milliamps(pub u16);

impl From<Nanovolts> for Millivolts {
    /// Truncates to whole millivolts.
    fn from(value: Nanovolts) -> (r: Millivolts)
        ensures
            r.0 == value.0 / 1_000_000,
    {
        Millivolts((value.0 / 1_000_000) as u16)
    }
}

impl vstd::std_specs::convert::FromSpecImpl<Nanovolts> for Millivolts {
    open spec fn obeys_from_spec() -> bool {
        true
    }

    open spec fn from_spec(v: Nanovolts) -> Millivolts {
        Millivolts((v.0 / 1_000_000) as u16)
    }
}

} // verus!
