//! The button matrix: what was last seen on the two boards, which LEDs are to
//! stay lit, and the four countdowns for door, light, bell and the lockout
//! after a wrong input.
//!
//! The matrix never touches the bus. It is told what was read and answers
//! with the writes that are due, in the order in which they are to be made.

use crate::bus::{
    init_writes, maybe, off_writes, relays_off, relays_on, set_ports, spec_relays_off,
    spec_relays_on, spec_set_ports, Board, BusError, BusWrite, Ports, ALL_BUTTONS, BUTTON_1,
    BUTTON_2, BUTTON_3, BUTTON_4, BUTTON_BELL, BUTTON_LIGHT, LED_1, LED_2, LED_3, LED_4, LED_BELL,
    LED_LIGHT, PINS1_INIT, PINS2_INIT, RELAY_BELL, RELAY_DOOR, RELAY_LICHT_AUSSEN,
    RELAY_LICHT_INNEN, SET_PORTS, SET_PULLUPS, SET_RELAYS_OFF, SET_TRIS, ALL_RELAYS,
};
use vstd::prelude::*;
use vstd::string::StringExecFns;

verus! {

/// Shortest half-period of the bell, in ticks.
pub const BELL_MINIMUM_PERIOD: u32 = 20;

/// The bell counter that never runs out by itself.
pub const BELL_FOREVER: u32 = 0xFFFF_FFFF;

/// Ticks for which the door relay stays energised.
pub const DOOR_OPEN_TICKS: u32 = 150;

/// Ticks for which a wrong input is shown and bell and door are held.
pub const WRONG_INPUT_TICKS: u8 = 150;

/// Ticks in one second of light timeout.
pub const TICKS_PER_SECOND: u32 = 100;

/// Added to the light timeout when the outer light takes part.
pub const OUTSIDE_MARGIN: u32 = 10;

/// Taken off the light timeout when only the inner light is switched.
pub const INSIDE_MARGIN: u32 = 1;

/// A second request within this many ticks of switching on makes the light
/// permanent.
pub const FRESH_PRESS_WINDOW: u32 = 200;

/// Light timeout left when a permanent light is released.
pub const LIGHTS_OFF_SOON: u32 = 30;

/// Light timeout at which the outer light goes off, ahead of the inner one.
pub const OUTER_LIGHT_OFF_AT: u32 = 10;

/// The run of failed readings above which the next failure has the boards
/// set up anew: four failures in a row are passed over, the fifth is
/// reported.
pub const FAILURE_LIMIT: u8 = 3;

/// Smallest and largest light timeout, in seconds, that the arithmetic of the
/// light timer can hold: the switch inside needs the window in which a light
/// can be made permanent to fit into the timeout with its margin.
pub const MIN_LIGHT_SECONDS: u32 = 2;

pub const MAX_LIGHT_SECONDS: u32 = 42_949_672;

/// What one poll of the matrix found.
#[derive(Clone, Copy, PartialEq, Eq, Structural, Debug)]
pub enum StateChange {
    Nothing,
    Pressed(u8),
    Released(u8),
    LightsOff,
}

/// What other parts of the system may ask of the matrix.
pub enum CommandToButtons {
    OpenDoor,
    /// Period and number of rings.
    RingBell(u32, u32),
    /// Period.
    RingBellAlarm(u32),
    /// Inside, outside, permanent, and a note for the notification.
    SwitchLights(bool, bool, bool, String),
}

/// Which lights a request was about.
#[derive(Clone, Copy, PartialEq, Eq, Structural, Debug)]
pub enum Which {
    In,
    Out,
    InAndOut,
}

/// What a request to switch the lights came to.
#[derive(Clone, Copy, PartialEq, Eq, Structural, Debug)]
pub enum LightsOutcome {
    /// The light was permanent; it is released and goes off soon.
    TurnedOff(Which),
    /// The light was switched on just before; it now stays on.
    MadePermanent(Which),
    /// The light was on; its time starts anew.
    Extended(Which),
    /// The light was off, or nearly; it is switched on.
    TurnedOn(Which),
}

/// The lights named by the two flags of a request.
pub open spec fn spec_which(inside: bool, outside: bool) -> Which {
    if inside && outside {
        Which::InAndOut
    } else if inside {
        Which::In
    } else {
        Which::Out
    }
}

/// The LED bit if the LED is to be lit, no bit otherwise.
pub open spec fn spec_led(lit: bool, bit: u8) -> u8 {
    if lit {
        bit
    } else {
        0u8
    }
}

/// The buttons that went down between two readings of a board: bits that
/// were 1 and now read 0.
pub open spec fn pressed_bits(before: u8, now: u8) -> u8 {
    before & !now & ALL_BUTTONS
}

/// The buttons that came up between two readings of a board: bits that
/// were 0 and now read 1.
pub open spec fn released_bits(before: u8, now: u8) -> u8 {
    now & !before & ALL_BUTTONS
}

/// The output byte of the first board: the buttons as read, and the LED of
/// each of the first three buttons that is held down or flagged.
pub open spec fn output1(now1: u8, led1: bool, led2: bool, led3: bool) -> u8 {
    now1 | spec_led(now1 & BUTTON_1 == 0 || led1, LED_1) | spec_led(
        now1 & BUTTON_2 == 0 || led2,
        LED_2,
    ) | spec_led(now1 & BUTTON_3 == 0 || led3, LED_3)
}

/// The output byte of the second board: its buttons as read, the LED of the
/// fourth code button, which sits on the first board, and the LEDs of the
/// light and bell buttons.
pub open spec fn output2(now1: u8, now2: u8, led4: bool, led_light: bool, led_bell: bool) -> u8 {
    now2 | spec_led(now1 & BUTTON_4 == 0 || led4, LED_4) | spec_led(
        now2 & BUTTON_LIGHT == 0 || led_light,
        LED_LIGHT,
    ) | spec_led(now2 & BUTTON_BELL == 0 || led_bell, LED_BELL)
}

/// The matrix as a mathematical value.
pub struct ButtonsView {
    pub sequence: Seq<u8>,
    pub pins1: u8,
    pub pins2: u8,
    pub led1: bool,
    pub led2: bool,
    pub led3: bool,
    pub led4: bool,
    pub led_light: bool,
    pub led_bell: bool,
    pub door_timeout: nat,
    pub init_light_timeout: nat,
    pub light_timeout: nat,
    pub light_permanent: bool,
    pub bell_enable: bool,
    pub bell_timeout: nat,
    pub bell_timeout_init: nat,
    pub bell_counter: nat,
    pub failed_counter: nat,
    pub wrong_input_timeout: nat,
}

/// A state together with the write that led to it, if there was one.
pub struct Step {
    pub state: ButtonsView,
    pub write: Option<BusWrite>,
}

/// The outcome of one poll.
pub struct Poll {
    pub state: ButtonsView,
    pub change: Result<StateChange, BusError>,
    pub writes: Seq<BusWrite>,
}

impl ButtonsView {
    /// What holds of every matrix: the light timeout with the margin of the
    /// outer light is long enough for the window in which a light can be
    /// made permanent and short enough to be counted, the margin of the
    /// inner light can be taken off it, and a bell that is to ring has a
    /// period.
    pub open spec fn wf(self) -> bool {
        &&& INSIDE_MARGIN <= self.init_light_timeout
        &&& FRESH_PRESS_WINDOW <= self.init_light_timeout + OUTSIDE_MARGIN
        &&& self.init_light_timeout + OUTSIDE_MARGIN <= u32::MAX
        &&& self.bell_counter > 0 ==> self.bell_timeout_init > 0
    }

    /// Whether the lights can be switched as asked: the request names a
    /// light, and where it may make the light permanent, the window for that
    /// fits into the timeout that the request sets.
    pub open spec fn can_switch(self, inside: bool, outside: bool, permanent: bool) -> bool {
        &&& inside || outside
        &&& permanent && !self.light_permanent ==> FRESH_PRESS_WINDOW <= self.light_target(outside)
    }

    /// The matrix before its first poll.
    pub open spec fn initial(light_timeout: nat, bell_enable: bool) -> ButtonsView {
        ButtonsView {
            sequence: Seq::empty(),
            pins1: PINS1_INIT,
            pins2: PINS2_INIT,
            led1: false,
            led2: false,
            led3: false,
            led4: false,
            led_light: false,
            led_bell: false,
            door_timeout: 0,
            init_light_timeout: light_timeout * TICKS_PER_SECOND as nat,
            light_timeout: 0,
            light_permanent: false,
            bell_enable,
            bell_timeout: 0,
            bell_timeout_init: 0,
            bell_counter: 0,
            failed_counter: 0,
            wrong_input_timeout: 0,
        }
    }

    /// Every LED flag cleared and the countdowns of door, light, bell and
    /// lockout at rest.
    pub open spec fn everything_off(self) -> ButtonsView {
        ButtonsView {
            led1: false,
            led2: false,
            led3: false,
            led4: false,
            led_light: false,
            led_bell: false,
            door_timeout: 0,
            light_timeout: 0,
            bell_counter: 0,
            bell_timeout: 0,
            wrong_input_timeout: 0,
            ..self
        }
    }

    /// The matrix after the boards were set up anew.
    pub open spec fn reset(self) -> ButtonsView {
        ButtonsView { pins1: PINS1_INIT, pins2: PINS2_INIT, ..self.everything_off() }
    }

    /// The door relay is energised for the full time, however much of an
    /// earlier opening was left.
    pub open spec fn open_door(self) -> ButtonsView {
        ButtonsView { led_bell: true, door_timeout: DOOR_OPEN_TICKS as nat, ..self }
    }

    /// The lockout is armed and the LEDs of the four code buttons and of the
    /// light button are lit.
    pub open spec fn show_wrong_input(self) -> ButtonsView {
        ButtonsView {
            wrong_input_timeout: WRONG_INPUT_TICKS as nat,
            led_light: true,
            led1: true,
            led2: true,
            led3: true,
            led4: true,
            ..self
        }
    }

    /// Whether the bell can be programmed with this period and number of
    /// rings: the period lasts at least one tick and the counters fit.
    pub open spec fn can_ring(period: nat, counter: nat) -> bool {
        &&& 0 < period
        &&& period * BELL_MINIMUM_PERIOD <= u32::MAX
        &&& counter * 2 + 1 <= u32::MAX
    }

    /// The bell rings `counter` times more after the ring that starts at once:
    /// the relay will change `2 * counter + 1` times, each after `period`
    /// shortest periods. A bell that is not enabled stays as it is.
    pub open spec fn ring_bell(self, period: nat, counter: nat) -> ButtonsView {
        if self.bell_enable {
            ButtonsView {
                led_bell: true,
                bell_counter: counter * 2 + 1,
                bell_timeout_init: period * BELL_MINIMUM_PERIOD as nat,
                bell_timeout: period * BELL_MINIMUM_PERIOD as nat,
                ..self
            }
        } else {
            self
        }
    }

    /// The bell rings with the given period until it is programmed anew.
    pub open spec fn ring_bell_alarm(self, period: nat) -> ButtonsView {
        ButtonsView {
            led_light: true,
            bell_counter: BELL_FOREVER as nat,
            bell_timeout_init: period * BELL_MINIMUM_PERIOD as nat,
            bell_timeout: period * BELL_MINIMUM_PERIOD as nat,
            ..self
        }
    }

    /// The light timeout that a request sets: the configured one, a little
    /// longer with the outer light, a little shorter without.
    pub open spec fn light_target(self, outside: bool) -> nat {
        if outside {
            self.init_light_timeout + OUTSIDE_MARGIN as nat
        } else {
            (self.init_light_timeout - INSIDE_MARGIN) as nat
        }
    }

    /// What a request to switch the lights comes to.
    pub open spec fn lights_outcome(self, inside: bool, outside: bool, permanent: bool) -> LightsOutcome {
        let which = spec_which(inside, outside);
        if self.light_permanent {
            LightsOutcome::TurnedOff(which)
        } else if permanent && self.light_timeout > self.light_target(outside) - FRESH_PRESS_WINDOW {
            LightsOutcome::MadePermanent(which)
        } else if self.light_timeout > 1 {
            LightsOutcome::Extended(which)
        } else {
            LightsOutcome::TurnedOn(which)
        }
    }

    /// The matrix after a request to switch the lights.
    pub open spec fn switch_lights(self, inside: bool, outside: bool, permanent: bool) -> ButtonsView {
        match self.lights_outcome(inside, outside, permanent) {
            LightsOutcome::TurnedOff(_) => ButtonsView {
                light_permanent: false,
                light_timeout: LIGHTS_OFF_SOON as nat,
                ..self
            },
            LightsOutcome::MadePermanent(_) => ButtonsView { light_permanent: true, ..self },
            LightsOutcome::Extended(_) => ButtonsView { light_timeout: self.light_target(outside), ..self },
            LightsOutcome::TurnedOn(_) => ButtonsView {
                light_timeout: self.light_target(outside),
                led_light: true,
                ..self
            },
        }
    }

    /// The write that goes with a request to switch the lights: the inner
    /// light is switched on if it was asked for, unless the request released
    /// a permanent light.
    pub open spec fn lights_write(self, inside: bool, outside: bool, permanent: bool) -> Option<BusWrite> {
        if inside && !(self.lights_outcome(inside, outside, permanent) is TurnedOff) {
            Some(spec_relays_on(Board::Board21, RELAY_LICHT_INNEN))
        } else {
            None
        }
    }

    /// Whether this tick ends the light: the countdown of a light that is not
    /// permanent stands at its last tick.
    pub open spec fn light_completes(self) -> bool {
        !self.light_permanent && self.light_timeout == 1
    }

    /// One tick of the light. A permanent light stands still. Otherwise the
    /// countdown runs: the outer light goes on when the countdown passes the
    /// configured timeout and off when ten ticks are left; at the last tick
    /// the inner light goes off and with it the LED of the light button.
    pub open spec fn light_tick(self) -> Step {
        if self.light_permanent {
            Step { state: self, write: None }
        } else if self.light_timeout == self.init_light_timeout {
            Step {
                state: ButtonsView { light_timeout: (self.light_timeout - 1) as nat, ..self },
                write: Some(spec_relays_on(Board::Board20, RELAY_LICHT_AUSSEN)),
            }
        } else if self.light_timeout == OUTER_LIGHT_OFF_AT {
            Step {
                state: ButtonsView { light_timeout: (self.light_timeout - 1) as nat, ..self },
                write: Some(spec_relays_off(Board::Board20, RELAY_LICHT_AUSSEN)),
            }
        } else if self.light_timeout == 1 {
            Step {
                state: ButtonsView { light_timeout: 0, led_light: false, ..self },
                write: Some(spec_relays_off(Board::Board21, RELAY_LICHT_INNEN)),
            }
        } else if self.light_timeout > 0 {
            Step { state: ButtonsView { light_timeout: (self.light_timeout - 1) as nat, ..self }, write: None }
        } else {
            Step { state: self, write: None }
        }
    }

    /// Whether bell and door are held this tick because a wrong input is
    /// still being shown.
    pub open spec fn locked_out(self) -> bool {
        self.wrong_input_timeout > 0
    }

    /// One tick of the lockout. At its last tick the LEDs that showed the
    /// wrong input go out.
    pub open spec fn lockout_tick(self) -> ButtonsView {
        if self.wrong_input_timeout == 1 {
            ButtonsView {
                led_light: false,
                led1: false,
                led2: false,
                led3: false,
                led4: false,
                wrong_input_timeout: 0,
                ..self
            }
        } else if self.wrong_input_timeout > 1 {
            ButtonsView { wrong_input_timeout: (self.wrong_input_timeout - 1) as nat, ..self }
        } else {
            self
        }
    }

    /// One tick of the bell. When a half-period has run out, the next one
    /// starts, the relay changes and the counter goes down by one: with an
    /// even counter the relay goes on, with an odd one off.
    pub open spec fn bell_tick(self) -> Step {
        if !self.bell_enable || self.bell_counter == 0 {
            Step { state: self, write: None }
        } else if self.bell_timeout == 0 {
            if self.bell_counter % 2 == 0 {
                Step {
                    state: ButtonsView {
                        bell_timeout: (self.bell_timeout_init - 1) as nat,
                        bell_counter: (self.bell_counter - 1) as nat,
                        ..self
                    },
                    write: Some(spec_relays_on(Board::Board21, RELAY_BELL)),
                }
            } else {
                Step {
                    state: ButtonsView {
                        bell_timeout: (self.bell_timeout_init - 1) as nat,
                        bell_counter: (self.bell_counter - 1) as nat,
                        led_bell: false,
                        ..self
                    },
                    write: Some(spec_relays_off(Board::Board21, RELAY_BELL)),
                }
            }
        } else {
            Step { state: ButtonsView { bell_timeout: (self.bell_timeout - 1) as nat, ..self }, write: None }
        }
    }

    /// One tick of the door. At the last tick the relay is released.
    pub open spec fn door_tick(self) -> Step {
        if self.door_timeout == 1 {
            Step {
                state: ButtonsView { led_bell: false, door_timeout: 0, ..self },
                write: Some(spec_relays_off(Board::Board20, RELAY_DOOR)),
            }
        } else if self.door_timeout > 0 {
            Step { state: ButtonsView { door_timeout: (self.door_timeout - 1) as nat, ..self }, write: None }
        } else {
            Step { state: self, write: None }
        }
    }

    /// What a reading of both boards means for whoever polls: a button of
    /// the second board that went down, else one that came up, else the end
    /// of the light, else nothing.
    pub open spec fn change_on(self, ports: Ports) -> StateChange {
        let now2 = ports.board21 & ALL_BUTTONS;
        if pressed_bits(self.pins2, now2) != 0 {
            StateChange::Pressed(pressed_bits(self.pins2, now2))
        } else if released_bits(self.pins2, now2) != 0 {
            StateChange::Released(released_bits(self.pins2, now2))
        } else if self.light_completes() {
            StateChange::LightsOff
        } else {
            StateChange::Nothing
        }
    }

    /// The sequence after a reading: a change of the code buttons appends
    /// their new state.
    pub open spec fn recorded(self, ports: Ports) -> Seq<u8> {
        let now1 = ports.board20 & ALL_BUTTONS;
        if now1 != self.pins1 & ALL_BUTTONS {
            self.sequence.push(now1)
        } else {
            self.sequence
        }
    }

    /// The matrix after the light took its tick: it takes one on every
    /// reading of both boards, whatever the buttons did.
    pub open spec fn after_light(self, ports: Ports) -> Step {
        self.light_tick()
    }

    /// The matrix after light and lockout took their ticks.
    pub open spec fn after_lockout(self, ports: Ports) -> ButtonsView {
        self.after_light(ports).state.lockout_tick()
    }

    /// The matrix after light, lockout and bell took their ticks. A lockout
    /// holds the bell.
    pub open spec fn after_bell(self, ports: Ports) -> Step {
        if self.after_light(ports).state.locked_out() {
            Step { state: self.after_lockout(ports), write: None }
        } else {
            self.after_lockout(ports).bell_tick()
        }
    }

    /// The matrix after all four countdowns took their ticks. A lockout
    /// holds the door.
    pub open spec fn after_door(self, ports: Ports) -> Step {
        if self.after_light(ports).state.locked_out() {
            Step { state: self.after_bell(ports).state, write: None }
        } else {
            self.after_bell(ports).state.door_tick()
        }
    }

    /// The matrix with the output bytes that go with a reading: the buttons
    /// as read, and the LED of each button that is held down or flagged.
    pub open spec fn driven(self, ports: Ports) -> ButtonsView {
        let now1 = ports.board20 & ALL_BUTTONS;
        let now2 = ports.board21 & ALL_BUTTONS;
        ButtonsView {
            pins1: output1(now1, self.led1, self.led2, self.led3),
            pins2: output2(now1, now2, self.led4, self.led_light, self.led_bell),
            ..self
        }
    }

    /// The matrix after a reading of both boards: the countdowns took their
    /// ticks, the output bytes follow buttons and flags, the sequence holds
    /// what the code buttons did, and the run of failed readings is over.
    pub open spec fn scanned(self, ports: Ports) -> ButtonsView {
        ButtonsView {
            sequence: self.recorded(ports),
            failed_counter: 0,
            ..self.after_door(ports).state.driven(ports)
        }
    }

    /// The write of the output byte of the first board, due when the byte
    /// differs from the one written last.
    pub open spec fn ports1_write(self, ports: Ports) -> Option<BusWrite> {
        if self.scanned(ports).pins1 != self.pins1 {
            Some(spec_set_ports(Board::Board20, self.scanned(ports).pins1))
        } else {
            None
        }
    }

    /// The write of the output byte of the second board, due when the byte
    /// differs from the one written last.
    pub open spec fn ports2_write(self, ports: Ports) -> Option<BusWrite> {
        if self.scanned(ports).pins2 != self.pins2 {
            Some(spec_set_ports(Board::Board21, self.scanned(ports).pins2))
        } else {
            None
        }
    }

    /// The writes that a reading of both boards calls for: the relays of
    /// light, bell and door as their countdowns demand, then the output bytes
    /// of the two boards.
    pub open spec fn scan_writes(self, ports: Ports) -> Seq<BusWrite> {
        maybe(self.after_light(ports).write) + maybe(self.after_bell(ports).write) + maybe(
            self.after_door(ports).write,
        ) + maybe(self.ports1_write(ports)) + maybe(self.ports2_write(ports))
    }

    /// One poll. A board that cannot be read is passed over while the
    /// failures in a row are few; after that both boards are set up anew and
    /// the failure is reported. A reading of both boards ends the run of
    /// failures.
    pub open spec fn poll(self, input: Result<Ports, Board>) -> Poll {
        match input {
            Err(board) => if self.failed_counter > FAILURE_LIMIT {
                Poll { state: self.reset(), change: Err(BusError { board }), writes: init_writes() }
            } else {
                Poll {
                    state: ButtonsView { failed_counter: self.failed_counter + 1, ..self },
                    change: Ok(StateChange::Nothing),
                    writes: Seq::empty(),
                }
            },
            Ok(ports) => Poll {
                state: self.scanned(ports),
                change: Ok(self.change_on(ports)),
                writes: self.scan_writes(ports),
            },
        }
    }
}

/// The button matrix.
pub struct Buttons {
    /// The states of the code buttons since the last verdict, oldest first.
    pub sequence: Vec<u8>,
    /// The output byte of the first board as computed last.
    pub pins1: u8,
    /// The output byte of the second board as computed last.
    pub pins2: u8,
    pub led1: bool,
    pub led2: bool,
    pub led3: bool,
    pub led4: bool,
    pub led_light: bool,
    pub led_bell: bool,
    /// Ticks for which the door relay stays energised; 0 when it is not.
    pub door_timeout: u32,
    /// The configured light timeout, in ticks.
    pub init_light_timeout: u32,
    /// Ticks of light that are left; 0 when the light is off.
    pub light_timeout: u32,
    /// Whether the light stays on until it is asked for again.
    pub light_permanent: bool,
    pub bell_enable: bool,
    /// Ticks left of the current half-period of the bell.
    pub bell_timeout: u32,
    /// Ticks of one half-period of the bell.
    pub bell_timeout_init: u32,
    /// Changes of the bell relay that are still to come.
    pub bell_counter: u32,
    /// Failed readings in a row.
    pub failed_counter: u8,
    /// Ticks for which a wrong input is still shown; 0 when none is.
    pub wrong_input_timeout: u8,
}

impl View for Buttons {
    type V = ButtonsView;

    open spec fn view(&self) -> ButtonsView {
        ButtonsView {
            sequence: self.sequence@,
            pins1: self.pins1,
            pins2: self.pins2,
            led1: self.led1,
            led2: self.led2,
            led3: self.led3,
            led4: self.led4,
            led_light: self.led_light,
            led_bell: self.led_bell,
            door_timeout: self.door_timeout as nat,
            init_light_timeout: self.init_light_timeout as nat,
            light_timeout: self.light_timeout as nat,
            light_permanent: self.light_permanent,
            bell_enable: self.bell_enable,
            bell_timeout: self.bell_timeout as nat,
            bell_timeout_init: self.bell_timeout_init as nat,
            bell_counter: self.bell_counter as nat,
            failed_counter: self.failed_counter as nat,
            wrong_input_timeout: self.wrong_input_timeout as nat,
        }
    }
}

impl Which {
    /// The lights in words.
    pub open spec fn spec_text(self) -> Seq<char> {
        match self {
            Which::In => "in"@,
            Which::Out => "out"@,
            Which::InAndOut => "in and out"@,
        }
    }

    /// The lights in words.
    pub fn text(self) -> (text: &'static str)
        ensures
            text@ == self.spec_text(),
    {
        match self {
            Which::In => "in",
            Which::Out => "out",
            Which::InAndOut => "in and out",
        }
    }
}

impl LightsOutcome {
    /// The outcome in words.
    pub open spec fn spec_description(self) -> Seq<char> {
        match self {
            LightsOutcome::TurnedOff(which) => "Light "@ + which.spec_text() + " not permanent anymore"@,
            LightsOutcome::MadePermanent(_) => "Light now permanently on"@,
            LightsOutcome::Extended(_) => "Time extended."@,
            LightsOutcome::TurnedOn(which) => "Light "@ + which.spec_text() + " switched on"@,
        }
    }

    /// The outcome in words, as it is told.
    pub fn description(self) -> (text: String)
        ensures
            text@ == self.spec_description(),
    {
        match self {
            LightsOutcome::TurnedOff(which) => {
                let mut text = String::from_str("Light ");
                text.append(which.text());
                text.append(" not permanent anymore");
                text
            },
            LightsOutcome::MadePermanent(_) => String::from_str("Light now permanently on"),
            LightsOutcome::Extended(_) => String::from_str("Time extended."),
            LightsOutcome::TurnedOn(which) => {
                let mut text = String::from_str("Light ");
                text.append(which.text());
                text.append(" switched on");
                text
            },
        }
    }
}

/// What a poll hands back: what was found, and the writes that are due.
pub struct Polled {
    pub change: Result<StateChange, BusError>,
    pub writes: Vec<BusWrite>,
}

/// The lights named by the two flags of a request.
#[verifier::when_used_as_spec(spec_which)]
pub fn which(inside: bool, outside: bool) -> (which: Which)
    ensures
        which == spec_which(inside, outside),
{
    if inside && outside {
        Which::InAndOut
    } else if inside {
        Which::In
    } else {
        Which::Out
    }
}

fn led(lit: bool, bit: u8) -> (bits: u8)
    ensures
        bits == spec_led(lit, bit),
{
    if lit {
        bit
    } else {
        0u8
    }
}

fn push_maybe(writes: &mut Vec<BusWrite>, write: Option<BusWrite>)
    ensures
        final(writes)@ == old(writes)@ + maybe(write),
{
    match write {
        Some(w) => {
            writes.push(w);
            assert(writes@ =~= old(writes)@ + maybe(write));
        },
        None => {
            assert(writes@ =~= old(writes)@ + maybe(write));
        },
    }
}

impl Buttons {
    /// Whether the matrix is well formed. It is, unless its fields were
    /// written to from outside.
    pub fn is_wf(&self) -> (ok: bool)
        ensures
            ok == self@.wf(),
    {
        INSIDE_MARGIN <= self.init_light_timeout && FRESH_PRESS_WINDOW - OUTSIDE_MARGIN
            <= self.init_light_timeout && self.init_light_timeout <= 0xFFFF_FFFF - OUTSIDE_MARGIN && (
        self.bell_counter == 0 || self.bell_timeout_init > 0)
    }

    /// Whether the lights can be switched as asked, as the matrix stands.
    pub fn can_switch(&self, inside: bool, outside: bool, permanent: bool) -> (ok: bool)
        requires
            self@.wf(),
        ensures
            ok == self@.can_switch(inside, outside, permanent),
    {
        (inside || outside) && (!permanent || self.light_permanent || outside || FRESH_PRESS_WINDOW
            + INSIDE_MARGIN <= self.init_light_timeout)
    }

    /// Whether a light timeout of so many seconds can be configured.
    pub open spec fn spec_accepts_light_timeout(light_timeout: u32) -> bool {
        MIN_LIGHT_SECONDS <= light_timeout <= MAX_LIGHT_SECONDS
    }

    /// Whether a light timeout of so many seconds can be configured.
    #[verifier::when_used_as_spec(spec_accepts_light_timeout)]
    pub fn accepts_light_timeout(light_timeout: u32) -> (ok: bool)
        ensures
            ok == Self::spec_accepts_light_timeout(light_timeout),
    {
        MIN_LIGHT_SECONDS <= light_timeout && light_timeout <= MAX_LIGHT_SECONDS
    }

    /// A matrix at rest, with the light timeout in seconds, and the writes
    /// that set up both boards.
    pub fn new(light_timeout: u32, bell_enable: bool) -> (made: (Buttons, Vec<BusWrite>))
        requires
            Self::spec_accepts_light_timeout(light_timeout),
        ensures
            made.0@ == ButtonsView::initial(light_timeout as nat, bell_enable),
            made.0@.wf(),
            made.1@ == init_writes(),
    {
        let mut s = Buttons {
            sequence: Vec::new(),
            pins1: PINS1_INIT,
            pins2: PINS2_INIT,
            led1: false,
            led2: false,
            led3: false,
            led4: false,
            led_light: false,
            led_bell: false,
            door_timeout: 0,
            init_light_timeout: light_timeout * TICKS_PER_SECOND,
            light_timeout: 0,
            light_permanent: false,
            bell_enable,
            bell_timeout: 0,
            bell_timeout_init: 0,
            bell_counter: 0,
            failed_counter: 0,
            wrong_input_timeout: 0,
        };
        let writes = s.init();
        (s, writes)
    }

    /// Sets up both boards: the buttons as inputs with pull-ups, then
    /// everything off.
    fn init(&mut self) -> (writes: Vec<BusWrite>)
        ensures
            final(self)@ == old(self)@.everything_off(),
            writes@ == init_writes(),
    {
        let mut writes: Vec<BusWrite> = Vec::new();
        writes.push(BusWrite { board: Board::Board20, register: SET_TRIS, value: ALL_BUTTONS });
        writes.push(BusWrite { board: Board::Board21, register: SET_TRIS, value: ALL_BUTTONS });
        writes.push(BusWrite { board: Board::Board20, register: SET_PULLUPS, value: ALL_BUTTONS });
        writes.push(BusWrite { board: Board::Board21, register: SET_PULLUPS, value: ALL_BUTTONS });
        let mut off = self.turn_everything_off();
        writes.append(&mut off);
        assert(writes@ =~= init_writes());
        writes
    }

    /// Clears every LED flag, brings the countdowns of door, light, bell and
    /// lockout to rest, and hands out the writes that switch off every relay
    /// and LED.
    pub fn turn_everything_off(&mut self) -> (writes: Vec<BusWrite>)
        ensures
            final(self)@ == old(self)@.everything_off(),
            old(self)@.wf() ==> final(self)@.wf(),
            writes@ == off_writes(),
    {
        self.led1 = false;
        self.led2 = false;
        self.led3 = false;
        self.led4 = false;
        self.led_light = false;
        self.led_bell = false;

        self.door_timeout = 0;
        self.light_timeout = 0;
        self.bell_counter = 0;
        self.bell_timeout = 0;
        self.wrong_input_timeout = 0;

        let mut writes: Vec<BusWrite> = Vec::new();
        writes.push(BusWrite { board: Board::Board20, register: SET_RELAYS_OFF, value: ALL_RELAYS });
        writes.push(BusWrite { board: Board::Board21, register: SET_RELAYS_OFF, value: ALL_RELAYS });
        writes.push(BusWrite { board: Board::Board20, register: SET_PORTS, value: ALL_BUTTONS });
        writes.push(BusWrite { board: Board::Board21, register: SET_PORTS, value: ALL_BUTTONS });
        assert(writes@ =~= off_writes());
        writes
    }

    fn handle_door(&mut self, writes: &mut Vec<BusWrite>)
        ensures
            final(self)@ == old(self)@.door_tick().state,
            final(writes)@ == old(writes)@ + maybe(old(self)@.door_tick().write),
    {
        if self.door_timeout == 1 {
            push_maybe(writes, Some(relays_off(Board::Board20, RELAY_DOOR)));
            self.led_bell = false;
            self.door_timeout = 0;
        } else if self.door_timeout > 0 {
            self.door_timeout -= 1;
            push_maybe(writes, None);
        } else {
            push_maybe(writes, None);
        }
    }

    fn handle_light(&mut self, writes: &mut Vec<BusWrite>) -> (completed: bool)
        requires
            old(self)@.wf(),
        ensures
            final(self)@ == old(self)@.light_tick().state,
            final(writes)@ == old(writes)@ + maybe(old(self)@.light_tick().write),
            completed == old(self)@.light_completes(),
    {
        if self.light_permanent {
            push_maybe(writes, None);
            false
        } else if self.light_timeout == self.init_light_timeout {
            push_maybe(writes, Some(relays_on(Board::Board20, RELAY_LICHT_AUSSEN)));
            self.light_timeout -= 1;
            false
        } else if self.light_timeout == OUTER_LIGHT_OFF_AT {
            push_maybe(writes, Some(relays_off(Board::Board20, RELAY_LICHT_AUSSEN)));
            self.light_timeout -= 1;
            false
        } else if self.light_timeout == 1 {
            push_maybe(writes, Some(relays_off(Board::Board21, RELAY_LICHT_INNEN)));
            self.led_light = false;
            self.light_timeout = 0;
            true
        } else if self.light_timeout > 0 {
            push_maybe(writes, None);
            self.light_timeout -= 1;
            false
        } else {
            push_maybe(writes, None);
            false
        }
    }

    fn handle_bell(&mut self, writes: &mut Vec<BusWrite>)
        requires
            old(self)@.wf(),
        ensures
            final(self)@ == old(self)@.bell_tick().state,
            final(writes)@ == old(writes)@ + maybe(old(self)@.bell_tick().write),
    {
        if !self.bell_enable || self.bell_counter == 0 {
            push_maybe(writes, None);
            return ;
        }
        if self.bell_timeout == 0 {
            self.bell_timeout = self.bell_timeout_init;
            if self.bell_counter % 2 == 0 {
                push_maybe(writes, Some(relays_on(Board::Board21, RELAY_BELL)));
            } else {
                push_maybe(writes, Some(relays_off(Board::Board21, RELAY_BELL)));
                self.led_bell = false;
            }
            self.bell_counter -= 1;
        } else {
            push_maybe(writes, None);
        }
        self.bell_timeout -= 1;
    }

    /// One tick of the lockout; tells whether bell and door may run.
    fn handle_wrong_input(&mut self) -> (free: bool)
        ensures
            final(self)@ == old(self)@.lockout_tick(),
            free == !old(self)@.locked_out(),
    {
        if self.wrong_input_timeout == 1 {
            self.led_light = false;
            self.led1 = false;
            self.led2 = false;
            self.led3 = false;
            self.led4 = false;
            self.wrong_input_timeout = 0;
            false
        } else if self.wrong_input_timeout > 1 {
            self.wrong_input_timeout -= 1;
            false
        } else {
            true
        }
    }

    /// Sets up both boards anew and forgets what was last seen on them.
    fn do_reset(&mut self) -> (writes: Vec<BusWrite>)
        ensures
            final(self)@ == old(self)@.reset(),
            writes@ == init_writes(),
    {
        self.pins1 = PINS1_INIT;
        self.pins2 = PINS2_INIT;
        self.init()
    }

    /// The countdowns of light, lockout, bell and door take their ticks.
    fn run_countdowns(&mut self, ports: Ports, writes: &mut Vec<BusWrite>) -> (change: StateChange)
        requires
            old(self)@.wf(),
        ensures
            final(self)@ == old(self)@.after_door(ports).state,
            final(self)@.wf(),
            final(writes)@ == old(writes)@ + maybe(old(self)@.after_light(ports).write) + maybe(
                old(self)@.after_bell(ports).write,
            ) + maybe(old(self)@.after_door(ports).write),
            change == old(self)@.change_on(ports),
    {
        let now2: u8 = ports.board21 & ALL_BUTTONS;
        let pressed: u8 = self.pins2 & !now2 & ALL_BUTTONS;
        let released: u8 = now2 & !self.pins2 & ALL_BUTTONS;
        let completed = self.handle_light(writes);
        let change = if pressed != 0 {
            StateChange::Pressed(pressed)
        } else if released != 0 {
            StateChange::Released(released)
        } else if completed {
            StateChange::LightsOff
        } else {
            StateChange::Nothing
        };
        assert(self@ == old(self)@.after_light(ports).state);
        assert(writes@ == old(writes)@ + maybe(old(self)@.after_light(ports).write));

        if self.handle_wrong_input() {
            assert(self@ == old(self)@.after_lockout(ports));
            self.handle_bell(writes);
            assert(self@ == old(self)@.after_bell(ports).state);
            self.handle_door(writes);
        } else {
            push_maybe(writes, None);
            push_maybe(writes, None);
        }
        change
    }

    /// The output bytes follow buttons and flags; a byte that differs from
    /// the one written last is written.
    fn drive_outputs(&mut self, ports: Ports, writes: &mut Vec<BusWrite>)
        ensures
            final(self)@ == old(self)@.driven(ports),
            final(writes)@ == old(writes)@ + maybe(
                if old(self)@.driven(ports).pins1 != old(self).pins1 {
                    Some(spec_set_ports(Board::Board20, old(self)@.driven(ports).pins1))
                } else {
                    None
                },
            ) + maybe(
                if old(self)@.driven(ports).pins2 != old(self).pins2 {
                    Some(spec_set_ports(Board::Board21, old(self)@.driven(ports).pins2))
                } else {
                    None
                },
            ),
    {
        let now1: u8 = ports.board20 & ALL_BUTTONS;
        let now2: u8 = ports.board21 & ALL_BUTTONS;
        let out1: u8 = now1 | led(now1 & BUTTON_1 == 0 || self.led1, LED_1) | led(
            now1 & BUTTON_2 == 0 || self.led2,
            LED_2,
        ) | led(now1 & BUTTON_3 == 0 || self.led3, LED_3);
        let out2: u8 = now2 | led(now1 & BUTTON_4 == 0 || self.led4, LED_4) | led(
            now2 & BUTTON_LIGHT == 0 || self.led_light,
            LED_LIGHT,
        ) | led(now2 & BUTTON_BELL == 0 || self.led_bell, LED_BELL);

        if out1 != self.pins1 {
            push_maybe(writes, Some(set_ports(Board::Board20, out1)));
            self.pins1 = out1;
        } else {
            push_maybe(writes, None);
        }
        if out2 != self.pins2 {
            push_maybe(writes, Some(set_ports(Board::Board21, out2)));
            self.pins2 = out2;
        } else {
            push_maybe(writes, None);
        }
    }

    /// A poll for which both boards could be read.
    fn scan(&mut self, ports: Ports) -> (polled: Polled)
        requires
            old(self)@.wf(),
        ensures
            final(self)@ == old(self)@.scanned(ports),
            final(self)@.wf(),
            polled.change == Ok::<StateChange, BusError>(old(self)@.change_on(ports)),
            polled.writes@ == old(self)@.scan_writes(ports),
    {
        let mut writes: Vec<BusWrite> = Vec::new();
        let now1: u8 = ports.board20 & ALL_BUTTONS;
        let record: bool = now1 != (self.pins1 & ALL_BUTTONS);

        let change = self.run_countdowns(ports, &mut writes);
        assert(self.pins1 == old(self).pins1 && self.pins2 == old(self).pins2);
        self.drive_outputs(ports, &mut writes);
        if record {
            self.sequence.push(now1);
        }
        self.failed_counter = 0;
        assert(writes@ =~= old(self)@.scan_writes(ports));
        Polled { change: Ok(change), writes }
    }

    /// One poll of the matrix, to be made every tick with what was read from
    /// the input registers of the two boards, or with the board that could
    /// not be read.
    pub fn handle(&mut self, input: Result<Ports, Board>) -> (polled: Polled)
        requires
            old(self)@.wf(),
        ensures
            final(self)@ == old(self)@.poll(input).state,
            final(self)@.wf(),
            polled.change == old(self)@.poll(input).change,
            polled.writes@ == old(self)@.poll(input).writes,
    {
        match input {
            Err(board) => {
                if self.failed_counter > FAILURE_LIMIT {
                    let writes = self.do_reset();
                    Polled { change: Err(BusError { board }), writes }
                } else {
                    self.failed_counter += 1;
                    Polled { change: Ok(StateChange::Nothing), writes: Vec::new() }
                }
            },
            Ok(ports) => self.scan(ports),
        }
    }

    /// Opens the door: the relay is energised for the full time, whether or
    /// not it still was.
    pub fn open_door(&mut self) -> (write: BusWrite)
        ensures
            final(self)@ == old(self)@.open_door(),
            old(self)@.wf() ==> final(self)@.wf(),
            write == spec_relays_on(Board::Board20, RELAY_DOOR),
    {
        self.led_bell = true;
        self.door_timeout = DOOR_OPEN_TICKS;
        relays_on(Board::Board20, RELAY_DOOR)
    }

    /// Shows a wrong input and holds bell and door while it is shown.
    pub fn show_wrong_input(&mut self)
        ensures
            final(self)@ == old(self)@.show_wrong_input(),
            old(self)@.wf() ==> final(self)@.wf(),
    {
        self.wrong_input_timeout = WRONG_INPUT_TICKS;
        self.led_light = true;
        self.led1 = true;
        self.led2 = true;
        self.led3 = true;
        self.led4 = true;
    }

    /// Whether the bell can be programmed with this period and number of
    /// rings.
    pub fn can_ring(period: u32, counter: u32) -> (ok: bool)
        ensures
            ok == ButtonsView::can_ring(period as nat, counter as nat),
    {
        0 < period && period <= 0xFFFF_FFFF / BELL_MINIMUM_PERIOD && counter <= (0xFFFF_FFFF - 1) / 2
    }

    /// Starts the bell with the given period; it rings until the bell is
    /// programmed anew.
    pub fn ring_bell_alarm(&mut self, period: u32) -> (write: BusWrite)
        requires
            ButtonsView::can_ring(period as nat, 0),
        ensures
            final(self)@ == old(self)@.ring_bell_alarm(period as nat),
            old(self)@.wf() ==> final(self)@.wf(),
            write == spec_relays_on(Board::Board21, RELAY_BELL),
    {
        self.led_light = true;
        self.bell_counter = BELL_FOREVER;
        self.bell_timeout_init = period * BELL_MINIMUM_PERIOD;
        self.bell_timeout = self.bell_timeout_init;
        relays_on(Board::Board21, RELAY_BELL)
    }

    /// Starts the bell with the given period: one ring at once and `counter`
    /// more. Does nothing when the bell is not enabled.
    pub fn ring_bell(&mut self, period: u32, counter: u32) -> (write: Option<BusWrite>)
        requires
            old(self).bell_enable ==> ButtonsView::can_ring(period as nat, counter as nat),
        ensures
            final(self)@ == old(self)@.ring_bell(period as nat, counter as nat),
            old(self)@.wf() ==> final(self)@.wf(),
            write == if old(self).bell_enable {
                Some(spec_relays_on(Board::Board21, RELAY_BELL))
            } else {
                None
            },
    {
        if !self.bell_enable {
            return None;
        }
        self.led_bell = true;
        self.bell_counter = counter * 2 + 1;
        self.bell_timeout_init = period * BELL_MINIMUM_PERIOD;
        self.bell_timeout = self.bell_timeout_init;
        Some(relays_on(Board::Board21, RELAY_BELL))
    }

    /// Switches the lights and tells what that came to. A permanent light is
    /// released and goes off soon. A light that was switched on a moment ago
    /// becomes permanent if that is asked for. Otherwise the time of the light
    /// starts anew.
    pub fn switch_lights(&mut self, inside: bool, outside: bool, permanent: bool) -> (done: (
        LightsOutcome,
        Option<BusWrite>,
    ))
        requires
            old(self)@.wf(),
            old(self)@.can_switch(inside, outside, permanent),
        ensures
            final(self)@ == old(self)@.switch_lights(inside, outside, permanent),
            final(self)@.wf(),
            done.0 == old(self)@.lights_outcome(inside, outside, permanent),
            done.1 == old(self)@.lights_write(inside, outside, permanent),
    {
        let lights = which(inside, outside);
        let target: u32 = if outside {
            self.init_light_timeout + OUTSIDE_MARGIN
        } else {
            self.init_light_timeout - INSIDE_MARGIN
        };
        let outcome = if self.light_permanent {
            self.light_permanent = false;
            self.light_timeout = LIGHTS_OFF_SOON;
            return (LightsOutcome::TurnedOff(lights), None);
        } else if permanent && self.light_timeout > target - FRESH_PRESS_WINDOW {
            self.light_permanent = true;
            LightsOutcome::MadePermanent(lights)
        } else if self.light_timeout > 1 {
            self.light_timeout = target;
            LightsOutcome::Extended(lights)
        } else {
            self.light_timeout = target;
            self.led_light = true;
            LightsOutcome::TurnedOn(lights)
        };
        let write = if inside {
            Some(relays_on(Board::Board21, RELAY_LICHT_INNEN))
        } else {
            None
        };
        (outcome, write)
    }
}

/// Whether `button` is the bit of exactly one button of a board.
pub open spec fn is_button(button: u8) -> bool {
    button == 0x01 || button == 0x02 || button == 0x04 || button == 0x08
}

/// The matrix after a run of polls, each with a reading of both boards.
pub open spec fn state_after(start: ButtonsView, reads: Seq<Ports>) -> ButtonsView
    decreases reads.len(),
{
    if reads.len() == 0 {
        start
    } else {
        state_after(start, reads.drop_last()).scanned(reads.last())
    }
}

/// A button is among those reported as pressed exactly if its bit was 1 and
/// now reads 0; it is among those reported as released exactly if its bit
/// was 0 and now reads 1.
pub proof fn lemma_transitions(before: u8, now: u8, button: u8)
    requires
        is_button(button),
    ensures
        pressed_bits(before, now) & button != 0 <==> before & button != 0 && now & button == 0,
        released_bits(before, now) & button != 0 <==> before & button == 0 && now & button != 0,
        pressed_bits(before, now) & !ALL_BUTTONS == 0,
        released_bits(before, now) & !ALL_BUTTONS == 0,
{
    assert((before & !now & 0x0Fu8) & button != 0 <==> before & button != 0 && now & button == 0)
        by (bit_vector)
        requires
            button == 0x01 || button == 0x02 || button == 0x04 || button == 0x08,
    ;
    assert((now & !before & 0x0Fu8) & button != 0 <==> before & button == 0 && now & button != 0)
        by (bit_vector)
        requires
            button == 0x01 || button == 0x02 || button == 0x04 || button == 0x08,
    ;
    assert((before & !now & 0x0Fu8) & !0x0Fu8 == 0) by (bit_vector);
    assert((now & !before & 0x0Fu8) & !0x0Fu8 == 0) by (bit_vector);
}

/// After a reading, the matrix remembers the buttons of both boards as they
/// were read.
pub proof fn lemma_remembers_reading(before: ButtonsView, ports: Ports)
    ensures
        before.scanned(ports).pins1 & ALL_BUTTONS == ports.board20 & ALL_BUTTONS,
        before.scanned(ports).pins2 & ALL_BUTTONS == ports.board21 & ALL_BUTTONS,
{
    let timed = before.after_door(ports).state;
    let now1 = ports.board20 & ALL_BUTTONS;
    let now2 = ports.board21 & ALL_BUTTONS;
    let a = spec_led(now1 & BUTTON_1 == 0 || timed.led1, LED_1);
    let b = spec_led(now1 & BUTTON_2 == 0 || timed.led2, LED_2);
    let c = spec_led(now1 & BUTTON_3 == 0 || timed.led3, LED_3);
    let d = spec_led(now1 & BUTTON_4 == 0 || timed.led4, LED_4);
    let e = spec_led(now2 & BUTTON_LIGHT == 0 || timed.led_light, LED_LIGHT);
    let f = spec_led(now2 & BUTTON_BELL == 0 || timed.led_bell, LED_BELL);
    let raw1 = ports.board20;
    let raw2 = ports.board21;
    assert(((raw1 & 0x0Fu8) | a | b | c) & 0x0Fu8 == raw1 & 0x0Fu8) by (bit_vector)
        requires
            a == 0 || a == 0x10u8,
            b == 0 || b == 0x20u8,
            c == 0 || c == 0x40u8,
    ;
    assert(((raw2 & 0x0Fu8) | d | e | f) & 0x0Fu8 == raw2 & 0x0Fu8) by (bit_vector)
        requires
            d == 0 || d == 0x10u8,
            e == 0 || e == 0x20u8,
            f == 0 || f == 0x40u8,
    ;
}

/// Debounce, for one poll: on a reading of both boards the poll reports
/// `Pressed` exactly if a button of the second board went down, with exactly
/// the buttons that went down; it reports `Released` exactly if none went
/// down and one came up, with exactly the buttons that came up. A reading
/// that shows the buttons as they were remembered reports neither.
pub proof fn lemma_debounce_step(before: ButtonsView, ports: Ports)
    ensures
        before.change_on(ports) is Pressed <==> pressed_bits(before.pins2, ports.board21 & ALL_BUTTONS)
            != 0,
        before.change_on(ports) matches StateChange::Pressed(code) ==> code == pressed_bits(
            before.pins2,
            ports.board21 & ALL_BUTTONS,
        ),
        before.change_on(ports) is Released <==> pressed_bits(before.pins2, ports.board21 & ALL_BUTTONS)
            == 0 && released_bits(before.pins2, ports.board21 & ALL_BUTTONS) != 0,
        before.change_on(ports) matches StateChange::Released(code) ==> code == released_bits(
            before.pins2,
            ports.board21 & ALL_BUTTONS,
        ),
        before.pins2 & ALL_BUTTONS == ports.board21 & ALL_BUTTONS ==> !(before.change_on(ports) is Pressed)
            && !(before.change_on(ports) is Released),
{
    let old2 = before.pins2;
    let raw2 = ports.board21;
    assert(old2 & 0x0Fu8 == raw2 & 0x0Fu8 ==> old2 & !(raw2 & 0x0Fu8) & 0x0Fu8 == 0 && (raw2 & 0x0Fu8)
        & !old2 & 0x0Fu8 == 0) by (bit_vector);
}

/// Debounce, over any run of polls: at every poll after the first, a button
/// of the second board is reported as pressed exactly if it read 1 at the
/// poll before and reads 0 now, and as released exactly if it read 0 before
/// and reads 1 now while no button went down. So each change of a button is
/// reported at the one poll that sees it, and a reading that repeats the
/// one before reports no button.
pub proof fn lemma_debounce(start: ButtonsView, reads: Seq<Ports>, at: int, button: u8)
    requires
        0 < at < reads.len(),
        is_button(button),
    ensures
        ({
            let change = state_after(start, reads.take(at)).change_on(reads[at]);
            let before = reads[at - 1].board21;
            let now = reads[at].board21;
            let down = change matches StateChange::Pressed(code) && code & button != 0;
            let up = change matches StateChange::Released(code) && code & button != 0;
            &&& down <==> before & button != 0 && now & button == 0
            &&& up <==> before & button == 0 && now & button != 0 && pressed_bits(
                before,
                now & ALL_BUTTONS,
            ) == 0
            &&& before & ALL_BUTTONS == now & ALL_BUTTONS ==> !(change is Pressed) && !(change is Released)
        }),
{
    let earlier = state_after(start, reads.take(at - 1));
    let state = state_after(start, reads.take(at));
    assert(reads.take(at).drop_last() =~= reads.take(at - 1));
    assert(reads.take(at).last() == reads[at - 1]);
    assert(state == earlier.scanned(reads[at - 1]));
    lemma_remembers_reading(earlier, reads[at - 1]);
    lemma_debounce_step(state, reads[at]);
    let remembered = state.pins2;
    let before = reads[at - 1].board21;
    let now = reads[at].board21;
    lemma_transitions(remembered, now & ALL_BUTTONS, button);
    assert(remembered & 0x0Fu8 == before & 0x0Fu8 ==> (remembered & button != 0 <==> before & button
        != 0)) by (bit_vector)
        requires
            button == 0x01 || button == 0x02 || button == 0x04 || button == 0x08,
    ;
    assert((now & 0x0Fu8) & button != 0 <==> now & button != 0) by (bit_vector)
        requires
            button == 0x01 || button == 0x02 || button == 0x04 || button == 0x08,
    ;
    assert(remembered & 0x0Fu8 == before & 0x0Fu8 ==> remembered & !(now & 0x0Fu8) & 0x0Fu8 == before
        & !(now & 0x0Fu8) & 0x0Fu8) by (bit_vector);
    assert(remembered & 0x0Fu8 == before & 0x0Fu8 && before & 0x0Fu8 == now & 0x0Fu8 ==> remembered
        & 0x0Fu8 == now & 0x0Fu8) by (bit_vector);
    assert(0u8 & button == 0) by (bit_vector);
}

/// Opening the door sets the door countdown to its full time whatever was
/// left of it, so that opening a door that is open restarts the time: it
/// neither adds to what was left nor leaves it.
pub proof fn lemma_open_door_restarts(before: ButtonsView)
    ensures
        before.open_door().door_timeout == DOOR_OPEN_TICKS,
        before.open_door().open_door() == before.open_door(),
        forall|other: ButtonsView|
            (ButtonsView { door_timeout: other.door_timeout, ..before }).open_door()
                == #[trigger] before.open_door(),
{
}

/// A poll keeps a matrix well formed.
pub proof fn lemma_poll_keeps_wf(before: ButtonsView, input: Result<Ports, Board>)
    requires
        before.wf(),
    ensures
        before.poll(input).state.wf(),
{
}

/// What is left of lockout and door together after one poll with a reading
/// of both boards: one tick less, as the door waits for the lockout and then
/// runs down itself.
pub proof fn lemma_door_step(before: ButtonsView, ports: Ports)
    ensures
        before.scanned(ports).wrong_input_timeout + before.scanned(ports).door_timeout == if before.wrong_input_timeout
            + before.door_timeout > 0 {
            before.wrong_input_timeout + before.door_timeout - 1
        } else {
            0
        },
{
}

/// The door relay does not stay energised: after as many polls with a
/// reading as lockout and door countdown together had ticks left, the door
/// countdown is at rest, whatever was read.
pub proof fn lemma_door_runs_out(start: ButtonsView, reads: Seq<Ports>)
    ensures
        state_after(start, reads).wrong_input_timeout + state_after(start, reads).door_timeout == if start.wrong_input_timeout
            + start.door_timeout >= reads.len() {
            start.wrong_input_timeout + start.door_timeout - reads.len()
        } else {
            0
        },
        reads.len() >= start.wrong_input_timeout + start.door_timeout ==> state_after(
            start,
            reads,
        ).door_timeout == 0,
    decreases reads.len(),
{
    if reads.len() > 0 {
        lemma_door_runs_out(start, reads.drop_last());
        lemma_door_step(state_after(start, reads.drop_last()), reads.last());
    }
}

/// The light runs on every reading of both boards, whatever the buttons
/// do: a light that is on and not permanent has one tick less after it.
pub proof fn lemma_light_step(before: ButtonsView, ports: Ports)
    requires
        !before.light_permanent,
        before.light_timeout > 0,
    ensures
        before.scanned(ports).light_timeout == before.light_timeout - 1,
        before.poll(Ok(ports)).state.light_timeout == before.light_timeout - 1,
{
}

/// The matrix after so many ticks of the bell.
pub open spec fn bell_after(start: ButtonsView, ticks: nat) -> ButtonsView
    decreases ticks,
{
    if ticks == 0 {
        start
    } else {
        bell_after(start.bell_tick().state, (ticks - 1) as nat)
    }
}

/// The writes that so many ticks of the bell call for, in their order.
pub open spec fn bell_writes(start: ButtonsView, ticks: nat) -> Seq<BusWrite>
    decreases ticks,
{
    if ticks == 0 {
        Seq::empty()
    } else {
        maybe(start.bell_tick().write) + bell_writes(start.bell_tick().state, (ticks - 1) as nat)
    }
}

/// The change of the bell relay that is due when so many changes are still
/// to come: off with an odd number, on with an even one.
pub open spec fn bell_change(counter: nat) -> BusWrite {
    if counter % 2 == 0 {
        spec_relays_on(Board::Board21, RELAY_BELL)
    } else {
        spec_relays_off(Board::Board21, RELAY_BELL)
    }
}

/// The changes of the bell relay that a counter stands for, in their order:
/// they alternate and end with the relay off.
pub open spec fn bell_changes(counter: nat) -> Seq<BusWrite>
    decreases counter,
{
    if counter == 0 {
        Seq::empty()
    } else {
        seq![bell_change(counter)] + bell_changes((counter - 1) as nat)
    }
}

/// The tick at which a half-period of the bell has run out: the counter goes
/// down by one, the next half-period starts, and the relay changes once, off
/// with an odd counter (and the LED of the bell goes out), on with an even
/// one.
pub proof fn lemma_bell_runs_out(before: ButtonsView)
    requires
        before.bell_enable,
        before.bell_counter > 0,
        before.bell_timeout == 0,
        before.bell_timeout_init >= 1,
    ensures
        before.bell_tick().state.bell_counter == before.bell_counter - 1,
        before.bell_tick().state.bell_timeout == before.bell_timeout_init - 1,
        before.bell_tick().write == Some(bell_change(before.bell_counter)),
        before.bell_tick().state.led_bell == (before.bell_counter % 2 == 0 && before.led_bell),
{
}

/// Ticks of the bell one after the other: a run of ticks is its first part
/// followed by the rest.
pub proof fn lemma_bell_ticks_add(start: ButtonsView, first: nat, rest: nat)
    ensures
        bell_after(start, first + rest) == bell_after(bell_after(start, first), rest),
        bell_writes(start, first + rest) == bell_writes(start, first) + bell_writes(
            bell_after(start, first),
            rest,
        ),
    decreases first,
{
    if first == 0 {
        assert(bell_writes(start, rest) =~= Seq::<BusWrite>::empty() + bell_writes(start, rest));
    } else {
        let next = start.bell_tick().state;
        lemma_bell_ticks_add(next, (first - 1) as nat, rest);
        assert((first + rest - 1) as nat == (first - 1) as nat + rest);
        assert(bell_writes(start, first + rest) =~= bell_writes(start, first) + bell_writes(
            bell_after(start, first),
            rest,
        ));
    }
}

/// One half-period of the bell: with `bell_timeout` ticks left of it, one
/// tick more brings exactly one change of the relay, the one that is due,
/// and leaves one change less to come.
pub proof fn lemma_bell_half_period(start: ButtonsView)
    requires
        start.bell_enable,
        start.bell_counter > 0,
        start.bell_timeout_init >= 1,
    ensures
        bell_after(start, start.bell_timeout + 1) == (ButtonsView {
            bell_counter: (start.bell_counter - 1) as nat,
            bell_timeout: (start.bell_timeout_init - 1) as nat,
            led_bell: start.bell_counter % 2 == 0 && start.led_bell,
            ..start
        }),
        bell_writes(start, start.bell_timeout + 1) == seq![bell_change(start.bell_counter)],
    decreases start.bell_timeout,
{
    let next = start.bell_tick().state;
    if start.bell_timeout == 0 {
        assert(bell_after(next, 0) == next);
        assert(bell_writes(next, 0) =~= Seq::<BusWrite>::empty());
        assert(bell_writes(start, 1) =~= seq![bell_change(start.bell_counter)]);
    } else {
        lemma_bell_half_period(next);
        assert(bell_writes(start, start.bell_timeout + 1) =~= seq![bell_change(start.bell_counter)]);
    }
}

/// A bell that was programmed rings out: after the rest of the half-period
/// under way and one full half-period for each further change, the relay
/// has changed as often as the counter said, alternating and ending off,
/// the counter stands at 0 and the LED of the bell is out. After that the
/// bell changes nothing.
pub proof fn lemma_bell_rings_out(start: ButtonsView)
    requires
        start.bell_enable,
        start.bell_counter > 0,
        start.bell_timeout_init >= 1,
    ensures
        ({
            let ticks = start.bell_timeout + 1 + (start.bell_counter - 1) * start.bell_timeout_init;
            &&& ticks >= 1
            &&& bell_writes(start, ticks as nat) == bell_changes(start.bell_counter)
            &&& bell_changes(start.bell_counter).len() == start.bell_counter
            &&& bell_changes(start.bell_counter).last() == spec_relays_off(Board::Board21, RELAY_BELL)
            &&& bell_after(start, ticks as nat).bell_counter == 0
            &&& !bell_after(start, ticks as nat).led_bell
            &&& bell_after(start, ticks as nat).bell_tick() == (Step {
                state: bell_after(start, ticks as nat),
                write: None,
            })
        }),
    decreases start.bell_counter,
{
    let first = start.bell_timeout + 1;
    let next = bell_after(start, first);
    lemma_bell_half_period(start);
    if start.bell_counter == 1 {
        assert((start.bell_counter - 1) * start.bell_timeout_init == 0) by (nonlinear_arith)
            requires
                start.bell_counter == 1,
        ;
        assert(bell_changes(0) =~= Seq::<BusWrite>::empty());
        assert(bell_changes(1) =~= seq![bell_change(1)]);
    } else {
        lemma_bell_rings_out(next);
        let rest = next.bell_timeout + 1 + (next.bell_counter - 1) * next.bell_timeout_init;
        assert(rest >= 1);
        assert((start.bell_counter - 1) * start.bell_timeout_init == start.bell_timeout_init + (
        start.bell_counter - 2) * start.bell_timeout_init) by (nonlinear_arith);
        assert(first + rest == start.bell_timeout + 1 + (start.bell_counter - 1) * start.bell_timeout_init);
        lemma_bell_ticks_add(start, first, rest as nat);
        assert(bell_changes(start.bell_counter) =~= seq![bell_change(start.bell_counter)] + bell_changes(
            next.bell_counter,
        ));
        assert(bell_changes(start.bell_counter).last() == bell_changes(next.bell_counter).last());
    }
}

} // verus!
