//! The reset line of the I/O board: what is to be written to it when it is
//! switched.

use vstd::prelude::*;

verus! {

/// What is to be written to a line when it is switched from `current` to
/// `wanted`: 1 when it goes on; 0 when it was on, whatever is wanted;
/// nothing when it was off and stays so.
pub open spec fn spec_line_value(current: bool, wanted: bool) -> Option<u8> {
    if wanted && !current {
        Some(1u8)
    } else if current {
        Some(0u8)
    } else {
        None
    }
}

/// What is to be written to a line when it is switched.
#[verifier::when_used_as_spec(spec_line_value)]
pub fn line_value(current: bool, wanted: bool) -> (value: Option<u8>)
    ensures
        value == spec_line_value(current, wanted),
{
    if wanted && !current {
        Some(1)
    } else if current {
        Some(0)
    } else {
        None
    }
}

/// The state of the reset line.
#[derive(Clone, Copy, PartialEq, Eq, Structural, Debug)]
pub struct Rst {
    pub state: bool,
}

impl Rst {
    /// A reset line that was read as `state`.
    pub fn new(state: bool) -> (rst: Rst)
        ensures
            rst.state == state,
    {
        Rst { state }
    }

    /// Switches the line and says what is to be written to it.
    pub fn switch(&mut self, state: bool) -> (value: Option<u8>)
        ensures
            value == spec_line_value(old(self).state, state),
            final(self).state == state,
    {
        let value = line_value(self.state, state);
        self.state = state;
        value
    }
}

} // verus!
