//! The power switch of the peripherals: what is to be written to its line
//! when it is switched, if there is a line.

use crate::rst::{line_value, spec_line_value};
use vstd::prelude::*;

verus! {

/// The state of the power switch.
#[derive(Clone, Copy, PartialEq, Eq, Structural, Debug)]
pub struct Pwr {
    pub state: bool,
    /// Whether there is a line to write to.
    pub has_line: bool,
}

impl Pwr {
    /// A power switch with a line that was read as `state`, or one without
    /// a line, which counts as on.
    pub fn new(line: Option<bool>) -> (pwr: Pwr)
        ensures
            pwr == (match line {
                Some(state) => Pwr { state, has_line: true },
                None => Pwr { state: true, has_line: false },
            }),
    {
        match line {
            Some(state) => Pwr { state, has_line: true },
            None => Pwr { state: true, has_line: false },
        }
    }

    /// Whether there is a line to write to.
    pub fn enabled(&self) -> (enabled: bool)
        ensures
            enabled == self.has_line,
    {
        self.has_line
    }

    /// Switches the power and says what is to be written to the line.
    pub fn switch(&mut self, state: bool) -> (value: Option<u8>)
        ensures
            value == if old(self).has_line {
                spec_line_value(old(self).state, state)
            } else {
                None
            },
            final(self).state == state,
            final(self).has_line == old(self).has_line,
    {
        let value = if self.has_line {
            line_value(self.state, state)
        } else {
            None
        };
        self.state = state;
        value
    }
}

} // verus!
