//! The front door: three inputs of an I/O board, read as one byte, for the
//! light and bell switches far outside and the light switch inside.

use crate::buttons::CommandToButtons;
use vstd::prelude::*;
use vstd::string::StringExecFns;

verus! {

/// Input of the light switch far outside.
pub const IN1: u8 = 0x1;

/// Input of the bell switch far outside.
pub const IN3: u8 = 0x4;

/// Input of the light switch inside.
pub const IN4: u8 = 0x8;

/// Failed readings in a row after which the task gives up.
pub const GIVE_UP_AFTER: u8 = 58;

/// What one reading of the inputs found.
#[derive(Clone, Copy, PartialEq, Eq, Structural, Debug)]
pub enum HaustuerChange {
    Nothing,
    LightFarOutdoor,
    BellFarOutdoor,
    LightIndoor,
    /// The board could not be read.
    Failed,
}

/// Which inputs were seen as set, and how many readings failed in a row.
#[derive(Clone, Copy, PartialEq, Eq, Structural, Debug)]
pub struct Haustuer {
    pub light_far_outdoor: bool,
    pub bell_far_outdoor: bool,
    pub light_indoor: bool,
    pub how_many_err: u8,
}

impl Haustuer {
    /// Whether one more failed reading makes the task give up.
    pub open spec fn spec_gives_up(self) -> bool {
        self.how_many_err + 1 >= GIVE_UP_AFTER
    }

    /// What a reading means: a failure, else the first input in the order
    /// light outside, bell, light inside that is set and was not set before.
    pub open spec fn spec_change(self, pins: Option<u8>) -> HaustuerChange {
        match pins {
            None => HaustuerChange::Failed,
            Some(pins) => if pins & IN1 == IN1 && !self.light_far_outdoor {
                HaustuerChange::LightFarOutdoor
            } else if pins & IN3 == IN3 && !self.bell_far_outdoor {
                HaustuerChange::BellFarOutdoor
            } else if pins & IN4 == IN4 && !self.light_indoor {
                HaustuerChange::LightIndoor
            } else {
                HaustuerChange::Nothing
            },
        }
    }

    /// What is remembered after a reading. A failure is counted. A
    /// reading ends the run of failures; an input that is told is noted
    /// together with those before it, the inputs after it are looked at next
    /// time.
    pub open spec fn spec_after(self, pins: Option<u8>) -> Haustuer {
        match pins {
            None => Haustuer { how_many_err: (self.how_many_err + 1) as u8, ..self },
            Some(pins) => {
                let read = Haustuer { how_many_err: 0, ..self };
                let a = Haustuer { light_far_outdoor: pins & IN1 == IN1, ..read };
                let b = Haustuer { bell_far_outdoor: pins & IN3 == IN3, ..a };
                let c = Haustuer { light_indoor: pins & IN4 == IN4, ..b };
                match self.spec_change(Some(pins)) {
                    HaustuerChange::LightFarOutdoor => a,
                    HaustuerChange::BellFarOutdoor => b,
                    _ => c,
                }
            },
        }
    }

    /// A front door of which nothing was seen yet.
    pub fn new() -> (door: Haustuer)
        ensures
            door == (Haustuer {
                light_far_outdoor: false,
                bell_far_outdoor: false,
                light_indoor: false,
                how_many_err: 0,
            }),
    {
        Haustuer { light_far_outdoor: false, bell_far_outdoor: false, light_indoor: false, how_many_err: 0 }
    }

    /// Whether one more failed reading makes the task give up.
    #[verifier::when_used_as_spec(spec_gives_up)]
    pub fn gives_up(self) -> (gives_up: bool)
        ensures
            gives_up == self.spec_gives_up(),
    {
        self.how_many_err >= GIVE_UP_AFTER - 1
    }

    /// Takes note of a reading of the inputs, or of its failure, and says
    /// what it found. The failure at which the task gives up is not taken.
    pub fn handle(&mut self, pins: Option<u8>) -> (change: HaustuerChange)
        requires
            pins is None ==> !old(self).spec_gives_up(),
        ensures
            change == old(self).spec_change(pins),
            *final(self) == old(self).spec_after(pins),
    {
        let pins = match pins {
            None => {
                self.how_many_err += 1;
                return HaustuerChange::Failed;
            },
            Some(pins) => pins,
        };
        self.how_many_err = 0;
        if pins & IN1 == IN1 {
            if !self.light_far_outdoor {
                self.light_far_outdoor = true;
                return HaustuerChange::LightFarOutdoor;
            }
        } else {
            self.light_far_outdoor = false;
        }
        if pins & IN3 == IN3 {
            if !self.bell_far_outdoor {
                self.bell_far_outdoor = true;
                return HaustuerChange::BellFarOutdoor;
            }
        } else {
            self.bell_far_outdoor = false;
        }
        if pins & IN4 == IN4 {
            if !self.light_indoor {
                self.light_indoor = true;
                return HaustuerChange::LightIndoor;
            }
        } else {
            self.light_indoor = false;
        }
        HaustuerChange::Nothing
    }
}

/// What the matrix is asked to do when a switch of the front door was
/// used: the light switch outside switches the outer light, the one inside
/// both lights, and the bell switch rings the bell.
pub fn command_for(change: HaustuerChange) -> (command: Option<CommandToButtons>)
    ensures
        match change {
            HaustuerChange::LightFarOutdoor => command matches Some(
                CommandToButtons::SwitchLights(false, true, false, note),
            ) && note@ == "💡 Pressed at entrance switch. Switch lights."@,
            HaustuerChange::BellFarOutdoor => command matches Some(CommandToButtons::RingBell(5, 5)),
            HaustuerChange::LightIndoor => command matches Some(
                CommandToButtons::SwitchLights(true, true, false, note),
            ) && note@ == "💡 Pressed in entrance. Switch all lights."@,
            _ => command is None,
        },
{
    match change {
        HaustuerChange::LightFarOutdoor => Some(
            CommandToButtons::SwitchLights(
                false,
                true,
                false,
                String::from_str("💡 Pressed at entrance switch. Switch lights."),
            ),
        ),
        HaustuerChange::BellFarOutdoor => Some(CommandToButtons::RingBell(5, 5)),
        HaustuerChange::LightIndoor => Some(
            CommandToButtons::SwitchLights(
                true,
                true,
                false,
                String::from_str("💡 Pressed in entrance. Switch all lights."),
            ),
        ),
        _ => None,
    }
}

} // verus!
