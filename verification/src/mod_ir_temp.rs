//! The infrared thermometer: whether the surroundings or the object it
//! looks at are too hot, and when that is worth telling.

use vstd::prelude::*;

verus! {

/// What is to be told after a measurement.
#[derive(Clone, Copy, PartialEq, Eq, Structural, Debug)]
pub enum IrTempStateChange {
    Nothing,
    ChangedToAmbientToHot,
    ChangedToObjectToHot,
    ChanedToBothToHot,
    ChangedToCancelled,
}

/// Whether a temperature is above its threshold.
#[derive(Clone, Copy, PartialEq, Eq, Structural, Debug)]
pub enum IrTempState {
    Normal,
    TooHot,
}

/// The states that were told last.
#[derive(Clone, Copy, PartialEq, Eq, Structural, Debug)]
pub struct ModIR {
    pub active_ambient_state: IrTempState,
    pub active_object_state: IrTempState,
}

impl ModIR {
    /// What is to be told when the two states are measured. Nothing, if
    /// they are as told last. If both are too hot, that. Else a temperature
    /// that became too hot, the surroundings before the object. Else, if both
    /// are normal, the end of the warning. A temperature that became normal
    /// while the other stays too hot is not told and not taken note of.
    pub open spec fn spec_change(self, ambient_state: IrTempState, object_state: IrTempState) -> IrTempStateChange {
        if self.active_ambient_state == ambient_state && self.active_object_state == object_state {
            IrTempStateChange::Nothing
        } else if ambient_state == IrTempState::TooHot && object_state == IrTempState::TooHot {
            IrTempStateChange::ChanedToBothToHot
        } else if self.active_ambient_state != ambient_state && ambient_state == IrTempState::TooHot {
            IrTempStateChange::ChangedToAmbientToHot
        } else if self.active_object_state != object_state && object_state == IrTempState::TooHot {
            IrTempStateChange::ChangedToObjectToHot
        } else if ambient_state == IrTempState::Normal && object_state == IrTempState::Normal {
            IrTempStateChange::ChangedToCancelled
        } else {
            IrTempStateChange::Nothing
        }
    }

    /// The states that count as told after a measurement.
    pub open spec fn spec_after(self, ambient_state: IrTempState, object_state: IrTempState) -> ModIR {
        match self.spec_change(ambient_state, object_state) {
            IrTempStateChange::Nothing => self,
            IrTempStateChange::ChangedToAmbientToHot => ModIR { active_ambient_state: ambient_state, ..self },
            IrTempStateChange::ChangedToObjectToHot => ModIR { active_object_state: object_state, ..self },
            _ => ModIR { active_ambient_state: ambient_state, active_object_state: object_state },
        }
    }

    /// A thermometer that has told nothing yet.
    pub fn new_default() -> (ir: ModIR)
        ensures
            ir == (ModIR {
                active_ambient_state: IrTempState::Normal,
                active_object_state: IrTempState::Normal,
            }),
    {
        ModIR { active_ambient_state: IrTempState::Normal, active_object_state: IrTempState::Normal }
    }

    /// Takes note of the two states that were measured and says what is
    /// to be told.
    pub fn set_handle_output(&mut self, ambient_state: IrTempState, object_state: IrTempState) -> (change:
        IrTempStateChange)
        ensures
            change == old(self).spec_change(ambient_state, object_state),
            *final(self) == old(self).spec_after(ambient_state, object_state),
    {
        if self.active_ambient_state == ambient_state && self.active_object_state == object_state {
            IrTempStateChange::Nothing
        } else if ambient_state == IrTempState::TooHot && object_state == IrTempState::TooHot {
            self.active_ambient_state = ambient_state;
            self.active_object_state = object_state;
            IrTempStateChange::ChanedToBothToHot
        } else if self.active_ambient_state != ambient_state && ambient_state == IrTempState::TooHot {
            self.active_ambient_state = ambient_state;
            IrTempStateChange::ChangedToAmbientToHot
        } else if self.active_object_state != object_state && object_state == IrTempState::TooHot {
            self.active_object_state = object_state;
            IrTempStateChange::ChangedToObjectToHot
        } else if ambient_state == IrTempState::Normal && object_state == IrTempState::Normal {
            self.active_ambient_state = ambient_state;
            self.active_object_state = object_state;
            IrTempStateChange::ChangedToCancelled
        } else {
            IrTempStateChange::Nothing
        }
    }
}

/// A measurement that repeats the one before is never told.
pub proof fn lemma_repeat_is_silent(ir: ModIR, ambient_state: IrTempState, object_state: IrTempState)
    ensures
        ir.spec_after(ambient_state, object_state).spec_change(ambient_state, object_state)
            is Nothing || ir.spec_change(ambient_state, object_state) is Nothing,
{
}

} // verus!
