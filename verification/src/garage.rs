//! The garage: four push buttons and the switch at the end position of the
//! door, each read as a line that is 0 while it is closed.

use crate::buttons::CommandToButtons;
use vstd::prelude::*;
use vstd::string::StringExecFns;

verus! {

/// What one reading of the lines found.
#[derive(Clone, Copy, PartialEq, Eq, Structural, Debug)]
pub enum GarageChange {
    Nothing,
    PressedTasterEingangOben,
    PressedTasterEingangUnten,
    PressedTasterTorOben,
    PressedTasterTorUnten,
    ReachedTorEndposition,
    LeftTorEndposition,
}

/// The values of the five lines.
#[derive(Clone, Copy, PartialEq, Eq, Structural, Debug)]
pub struct GarageLines {
    pub schalter_tor_endposition: u8,
    pub taster_eingang_oben: u8,
    pub taster_eingang_unten: u8,
    pub taster_tor_oben: u8,
    pub taster_tor_unten: u8,
}

/// What was last seen of the lines: whether each was closed.
#[derive(Clone, Copy, PartialEq, Eq, Structural, Debug)]
pub struct Garage {
    /// Whether the lines are there at all.
    pub enabled: bool,
    pub taster_eingang_oben: bool,
    pub taster_eingang_unten: bool,
    pub taster_tor_oben: bool,
    pub taster_tor_unten: bool,
    pub schalter_tor_endposition: bool,
}

/// Whether a button counts as pressed now: its line reads 0 and it was not
/// pressed before.
pub open spec fn line_pressed(now: u8, prev: bool) -> bool {
    now == 0 && !prev
}

/// What is remembered of a button after a reading: pressed while its line
/// reads 0, released once it reads 1, and as before on any other value.
pub open spec fn line_after(now: u8, prev: bool) -> bool {
    if now == 0 {
        true
    } else if now == 1 {
        false
    } else {
        prev
    }
}

impl Garage {
    /// A garage of which nothing was seen yet.
    pub fn new(enabled: bool) -> (garage: Garage)
        ensures
            garage == (Garage {
                enabled,
                taster_eingang_oben: false,
                taster_eingang_unten: false,
                taster_tor_oben: false,
                taster_tor_unten: false,
                schalter_tor_endposition: false,
            }),
    {
        Garage {
            enabled,
            taster_eingang_oben: false,
            taster_eingang_unten: false,
            taster_tor_oben: false,
            taster_tor_unten: false,
            schalter_tor_endposition: false,
        }
    }

    /// Takes note of a line and says whether its button was pressed just
    /// now.
    pub fn handle_line(now: u8, prev: &mut bool) -> (pressed: bool)
        ensures
            pressed == line_pressed(now, *old(prev)),
            *final(prev) == line_after(now, *old(prev)),
    {
        let mut ret = false;
        if now == 0 && !*prev {
            *prev = true;
            ret = true;
        }
        if now == 1 && *prev {
            *prev = false;
        }
        ret
    }

    /// What a reading of the lines means. The switch of the door comes
    /// first; then the buttons in their order, and the first that was pressed
    /// just now is told.
    pub open spec fn spec_change(self, lines: GarageLines) -> GarageChange {
        if !self.enabled {
            GarageChange::Nothing
        } else if lines.schalter_tor_endposition == 0 && !self.schalter_tor_endposition {
            GarageChange::ReachedTorEndposition
        } else if lines.schalter_tor_endposition == 1 && self.schalter_tor_endposition {
            GarageChange::LeftTorEndposition
        } else if line_pressed(lines.taster_eingang_oben, self.taster_eingang_oben) {
            GarageChange::PressedTasterEingangOben
        } else if line_pressed(lines.taster_eingang_unten, self.taster_eingang_unten) {
            GarageChange::PressedTasterEingangUnten
        } else if line_pressed(lines.taster_tor_oben, self.taster_tor_oben) {
            GarageChange::PressedTasterTorOben
        } else if line_pressed(lines.taster_tor_unten, self.taster_tor_unten) {
            GarageChange::PressedTasterTorUnten
        } else {
            GarageChange::Nothing
        }
    }

    /// What is remembered after a reading. A change of the door's switch
    /// is noted and nothing else; a button that is told is noted together
    /// with the buttons before it, those after it are looked at next time.
    pub open spec fn spec_after(self, lines: GarageLines) -> Garage {
        let a = Garage { taster_eingang_oben: line_after(lines.taster_eingang_oben, self.taster_eingang_oben), ..self };
        let b = Garage { taster_eingang_unten: line_after(lines.taster_eingang_unten, self.taster_eingang_unten), ..a };
        let c = Garage { taster_tor_oben: line_after(lines.taster_tor_oben, self.taster_tor_oben), ..b };
        let d = Garage { taster_tor_unten: line_after(lines.taster_tor_unten, self.taster_tor_unten), ..c };
        match self.spec_change(lines) {
            GarageChange::ReachedTorEndposition => Garage { schalter_tor_endposition: true, ..self },
            GarageChange::LeftTorEndposition => Garage { schalter_tor_endposition: false, ..self },
            GarageChange::PressedTasterEingangOben => a,
            GarageChange::PressedTasterEingangUnten => b,
            GarageChange::PressedTasterTorOben => c,
            GarageChange::PressedTasterTorUnten => d,
            GarageChange::Nothing => if self.enabled {
                d
            } else {
                self
            },
        }
    }

    /// Takes note of a reading of the lines and says what it found.
    pub fn handle(&mut self, lines: GarageLines) -> (change: GarageChange)
        ensures
            change == old(self).spec_change(lines),
            *final(self) == old(self).spec_after(lines),
    {
        if !self.enabled {
            return GarageChange::Nothing;
        }
        let s: u8 = lines.schalter_tor_endposition;
        if s == 0 && !self.schalter_tor_endposition {
            self.schalter_tor_endposition = true;
            return GarageChange::ReachedTorEndposition;
        } else if s == 1 && self.schalter_tor_endposition {
            self.schalter_tor_endposition = false;
            return GarageChange::LeftTorEndposition;
        }
        if Garage::handle_line(lines.taster_eingang_oben, &mut self.taster_eingang_oben) {
            return GarageChange::PressedTasterEingangOben;
        }
        if Garage::handle_line(lines.taster_eingang_unten, &mut self.taster_eingang_unten) {
            return GarageChange::PressedTasterEingangUnten;
        }
        if Garage::handle_line(lines.taster_tor_oben, &mut self.taster_tor_oben) {
            return GarageChange::PressedTasterTorOben;
        }
        if Garage::handle_line(lines.taster_tor_unten, &mut self.taster_tor_unten) {
            return GarageChange::PressedTasterTorUnten;
        }
        GarageChange::Nothing
    }
}

/// What the matrix is asked to do when a button of the garage was pressed:
/// the upper button at the entrance switches the light inside, the upper
/// one at the door both lights, and each lower button opens the door. The
/// switch of the door asks nothing of the matrix.
pub fn command_for(change: GarageChange) -> (command: Option<CommandToButtons>)
    ensures
        match change {
            GarageChange::PressedTasterEingangOben => command matches Some(
                CommandToButtons::SwitchLights(true, false, false, note),
            ) && note@ == "💡 Pressed at entrance top switch. Switch lights in garage"@,
            GarageChange::PressedTasterTorOben => command matches Some(
                CommandToButtons::SwitchLights(true, true, false, note),
            ) && note@ == "💡 Pressed top switch at garage door. Switch lights in and out garage"@,
            GarageChange::PressedTasterEingangUnten | GarageChange::PressedTasterTorUnten => command
                matches Some(CommandToButtons::OpenDoor),
            _ => command is None,
        },
{
    match change {
        GarageChange::PressedTasterEingangOben => Some(
            CommandToButtons::SwitchLights(
                true,
                false,
                false,
                String::from_str("💡 Pressed at entrance top switch. Switch lights in garage"),
            ),
        ),
        GarageChange::PressedTasterTorOben => Some(
            CommandToButtons::SwitchLights(
                true,
                true,
                false,
                String::from_str("💡 Pressed top switch at garage door. Switch lights in and out garage"),
            ),
        ),
        GarageChange::PressedTasterEingangUnten | GarageChange::PressedTasterTorUnten => Some(
            CommandToButtons::OpenDoor,
        ),
        _ => None,
    }
}

} // verus!
