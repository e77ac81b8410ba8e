//! The bus as the matrix sees it: two addressable I/O expanders with a few
//! byte registers each, and the wiring of buttons, LEDs and relays to their
//! bits. The values are those of the hardware and must not change.

use vstd::prelude::*;

verus! {

/// Register: direction of the GPIO pins.
pub const SET_TRIS: u8 = 0x01;

/// Register: output level of the GPIO pins.
pub const SET_PORTS: u8 = 0x02;

/// Register: input level of the GPIO pins.
pub const GET_PORTS: u8 = 0x03;

/// Register: pull-ups of the GPIO pins.
pub const SET_PULLUPS: u8 = 0x04;

/// Register: switches on the relays of the given mask.
pub const SET_RELAYS_ON: u8 = 0x41;

/// Register: switches off the relays of the given mask.
pub const SET_RELAYS_OFF: u8 = 0x42;

/// Bus address of the first board.
pub const BOARD20: u16 = 0x20;

/// Bus address of the second board.
pub const BOARD21: u16 = 0x21;

// First board: the four code buttons, three of their LEDs, door and outer light.
pub const BUTTON_1: u8 = 0x01;

pub const BUTTON_2: u8 = 0x02;

pub const BUTTON_3: u8 = 0x04;

pub const BUTTON_4: u8 = 0x08;

/// The input pins of a board: its low four bits. A pressed button reads 0.
pub const ALL_BUTTONS: u8 = 0x0F;

pub const LED_1: u8 = 0x10;

pub const LED_2: u8 = 0x20;

pub const LED_3: u8 = 0x40;

pub const RELAY_DOOR: u8 = 0x01;

pub const RELAY_LICHT_AUSSEN: u8 = 0x02;

/// Both relays of a board.
pub const ALL_RELAYS: u8 = 0x03;

/// What the first board is taken to have shown before the first reading: no
/// button pressed, so that the first reading starts no sequence.
pub const PINS1_INIT: u8 = 0x6F;

// Second board: light and bell buttons, the switches, the remaining LEDs,
// bell and inner light.
pub const BUTTON_LIGHT: u8 = 0x01;

pub const BUTTON_BELL: u8 = 0x02;

pub const TASTER_AUSSEN: u8 = 0x01;

pub const TASTER_INNEN: u8 = 0x04;

pub const TASTER_GLOCKE: u8 = 0x08;

pub const LED_4: u8 = 0x10;

pub const LED_LIGHT: u8 = 0x20;

pub const LED_BELL: u8 = 0x40;

pub const RELAY_BELL: u8 = 0x01;

pub const RELAY_LICHT_INNEN: u8 = 0x02;

/// What the second board is taken to have shown before the first reading.
pub const PINS2_INIT: u8 = 0x60;

/// One of the two boards.
#[derive(Clone, Copy, PartialEq, Eq, Structural, Debug)]
pub enum Board {
    Board20,
    Board21,
}

impl Board {
    /// The address of the board on the bus.
    pub open spec fn spec_address(self) -> u16 {
        match self {
            Board::Board20 => BOARD20,
            Board::Board21 => BOARD21,
        }
    }

    /// The address of the board on the bus.
    #[verifier::when_used_as_spec(spec_address)]
    pub fn address(self) -> (address: u16)
        ensures
            address == self.spec_address(),
    {
        match self {
            Board::Board20 => BOARD20,
            Board::Board21 => BOARD21,
        }
    }
}

/// One byte to be written to a register of a board.
#[derive(Clone, Copy, PartialEq, Eq, Structural, Debug)]
pub struct BusWrite {
    pub board: Board,
    pub register: u8,
    pub value: u8,
}

/// A reading of the input registers of both boards.
#[derive(Clone, Copy, PartialEq, Eq, Structural, Debug)]
pub struct Ports {
    pub board20: u8,
    pub board21: u8,
}

/// A board could not be read.
#[derive(Clone, Copy, PartialEq, Eq, Structural, Debug)]
pub struct BusError {
    pub board: Board,
}

/// The write that switches on the relays of `mask` on `board`.
pub open spec fn spec_relays_on(board: Board, mask: u8) -> BusWrite {
    BusWrite { board, register: SET_RELAYS_ON, value: mask }
}

/// The write that switches off the relays of `mask` on `board`.
pub open spec fn spec_relays_off(board: Board, mask: u8) -> BusWrite {
    BusWrite { board, register: SET_RELAYS_OFF, value: mask }
}

/// The write that sets the output pins of `board`; input pins are masked out.
pub open spec fn spec_set_ports(board: Board, pins: u8) -> BusWrite {
    BusWrite { board, register: SET_PORTS, value: pins & !ALL_BUTTONS }
}

/// The write that switches on the relays of `mask` on `board`.
#[verifier::when_used_as_spec(spec_relays_on)]
pub fn relays_on(board: Board, mask: u8) -> (write: BusWrite)
    ensures
        write == spec_relays_on(board, mask),
{
    BusWrite { board, register: SET_RELAYS_ON, value: mask }
}

/// The write that switches off the relays of `mask` on `board`.
#[verifier::when_used_as_spec(spec_relays_off)]
pub fn relays_off(board: Board, mask: u8) -> (write: BusWrite)
    ensures
        write == spec_relays_off(board, mask),
{
    BusWrite { board, register: SET_RELAYS_OFF, value: mask }
}

/// The write that sets the output pins of `board`; input pins are masked out.
#[verifier::when_used_as_spec(spec_set_ports)]
pub fn set_ports(board: Board, pins: u8) -> (write: BusWrite)
    ensures
        write == spec_set_ports(board, pins),
{
    BusWrite { board, register: SET_PORTS, value: pins & !ALL_BUTTONS }
}

/// The eight writes that bring both boards to their starting state: the
/// buttons as inputs with pull-ups, every relay off, every LED off.
pub open spec fn init_writes() -> Seq<BusWrite> {
    seq![
        BusWrite { board: Board::Board20, register: SET_TRIS, value: ALL_BUTTONS },
        BusWrite { board: Board::Board21, register: SET_TRIS, value: ALL_BUTTONS },
        BusWrite { board: Board::Board20, register: SET_PULLUPS, value: ALL_BUTTONS },
        BusWrite { board: Board::Board21, register: SET_PULLUPS, value: ALL_BUTTONS },
    ] + off_writes()
}

/// The four writes that switch off every relay and every LED.
pub open spec fn off_writes() -> Seq<BusWrite> {
    seq![
        BusWrite { board: Board::Board20, register: SET_RELAYS_OFF, value: ALL_RELAYS },
        BusWrite { board: Board::Board21, register: SET_RELAYS_OFF, value: ALL_RELAYS },
        BusWrite { board: Board::Board20, register: SET_PORTS, value: ALL_BUTTONS },
        BusWrite { board: Board::Board21, register: SET_PORTS, value: ALL_BUTTONS },
    ]
}

/// A write that may be missing, as a sequence of none or one.
pub open spec fn maybe(write: Option<BusWrite>) -> Seq<BusWrite> {
    match write {
        Some(w) => seq![w],
        None => Seq::empty(),
    }
}

} // verus!
