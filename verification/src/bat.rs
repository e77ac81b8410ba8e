//! The battery: when its capacity falls below a threshold this is told, and
//! the threshold is lowered so that it is told again only when the capacity
//! has fallen further.

use crate::text::{is_space, nats, numbers_in, parse_numbers, space, words};
use vstd::prelude::*;
use vstd::string::*;

verus! {

/// The threshold of a battery that was full.
pub const START_CAPACITY_THRESHOLD: u8 = 80;

/// By how much the threshold is lowered after a warning.
pub const THRESHOLD_STEP: u8 = 10;

/// The capacity of a full battery, in percent.
pub const FULL_CAPACITY: u8 = 100;

/// What a new capacity leads to.
#[derive(Clone, Copy, PartialEq, Eq, Structural, Debug)]
pub enum BatChange {
    /// Nothing is to be told.
    Nothing,
    /// The capacity fell below the threshold: capacity and threshold.
    Low(u8, u8),
    /// The battery is full again: the capacity.
    Full(u8),
}

/// The battery as a mathematical value.
pub struct BatView {
    pub capacity: nat,
    pub capacity_threshold: nat,
}

/// The outcome of a new capacity.
pub struct BatUpdate {
    pub state: BatView,
    pub change: BatChange,
}

impl BatView {
    /// What holds of every battery: the threshold is a multiple of the step
    /// and not above the starting threshold.
    pub open spec fn wf(self) -> bool {
        self.capacity_threshold % (THRESHOLD_STEP as nat) == 0 && self.capacity_threshold
            <= START_CAPACITY_THRESHOLD
    }

    /// A capacity that did not change leads to nothing. One that fell below
    /// the threshold is told and lowers the threshold by one step. One
    /// that reached a full battery is told and restores the threshold.
    pub open spec fn update(self, new_capacity: u8) -> BatUpdate {
        if new_capacity == self.capacity {
            BatUpdate { state: self, change: BatChange::Nothing }
        } else if new_capacity < self.capacity_threshold {
            BatUpdate {
                state: BatView {
                    capacity: new_capacity as nat,
                    capacity_threshold: if self.capacity_threshold > THRESHOLD_STEP {
                        (self.capacity_threshold - THRESHOLD_STEP) as nat
                    } else {
                        0
                    },
                },
                change: BatChange::Low(new_capacity, self.capacity_threshold as u8),
            }
        } else if new_capacity == FULL_CAPACITY {
            BatUpdate {
                state: BatView {
                    capacity: new_capacity as nat,
                    capacity_threshold: START_CAPACITY_THRESHOLD as nat,
                },
                change: BatChange::Full(new_capacity),
            }
        } else {
            BatUpdate {
                state: BatView { capacity: new_capacity as nat, ..self },
                change: BatChange::Nothing,
            }
        }
    }
}

/// The battery.
pub struct Bat {
    capacity: u8,
    capacity_threshold: u8,
}

impl View for Bat {
    type V = BatView;

    closed spec fn view(&self) -> BatView {
        BatView { capacity: self.capacity as nat, capacity_threshold: self.capacity_threshold as nat }
    }
}

impl Bat {
    #[verifier::type_invariant]
    spec fn inv(&self) -> bool {
        self.capacity_threshold % THRESHOLD_STEP == 0 && self.capacity_threshold <= START_CAPACITY_THRESHOLD
    }

    /// A battery that is taken to be full.
    pub fn new() -> (bat: Bat)
        ensures
            bat@ == (BatView { capacity: 100, capacity_threshold: START_CAPACITY_THRESHOLD as nat }),
            bat@.wf(),
    {
        Bat { capacity: FULL_CAPACITY, capacity_threshold: START_CAPACITY_THRESHOLD }
    }

    /// The capacity that was seen last.
    pub fn last_capacity(&self) -> (capacity: u8)
        ensures
            capacity == self@.capacity,
    {
        self.capacity
    }

    /// The threshold below which the capacity is told.
    pub fn threshold(&self) -> (threshold: u8)
        ensures
            threshold == self@.capacity_threshold,
            self@.wf(),
    {
        proof {
            use_type_invariant(self);
        }
        self.capacity_threshold
    }

    /// Takes note of the capacity that was read and says what is to be told.
    pub fn update(&mut self, new_capacity: u8) -> (change: BatChange)
        ensures
            final(self)@ == old(self)@.update(new_capacity).state,
            change == old(self)@.update(new_capacity).change,
            final(self)@.wf(),
    {
        proof {
            use_type_invariant(&*self);
        }
        if new_capacity == self.capacity {
            return BatChange::Nothing;
        }
        if new_capacity < self.capacity_threshold {
            let threshold: u8 = self.capacity_threshold;
            *self = Bat {
                capacity: new_capacity,
                capacity_threshold: if threshold > THRESHOLD_STEP {
                    threshold - THRESHOLD_STEP
                } else {
                    0
                },
            };
            BatChange::Low(new_capacity, threshold)
        } else if new_capacity == FULL_CAPACITY {
            *self = Bat { capacity: new_capacity, capacity_threshold: START_CAPACITY_THRESHOLD };
            BatChange::Full(new_capacity)
        } else {
            *self = Bat { capacity: new_capacity, capacity_threshold: self.capacity_threshold };
            BatChange::Nothing
        }
    }
}

/// However the capacity moves, no warning is given twice at one threshold:
/// after a warning the threshold is lower than the capacity that caused it
/// was allowed to be.
pub proof fn lemma_warning_lowers_threshold(bat: BatView, new_capacity: u8)
    requires
        bat.wf(),
    ensures
        bat.update(new_capacity).state.wf(),
        bat.update(new_capacity).change is Low ==> bat.update(new_capacity).state.capacity_threshold
            < bat.capacity_threshold,
{
}

/// The capacity that the text of the battery's file stands for: a number
/// from 0 to 255 at the very start of the text, with nothing but white space
/// after it.
pub open spec fn capacity_of(text: Seq<char>) -> Option<u8> {
    if text.len() > 0 && !is_space(text[0]) && words(text, false).len() == 1 {
        match numbers_in(text, false, 255) {
            Some(numbers) => Some(numbers[0] as u8),
            None => None,
        }
    } else {
        None
    }
}

/// Reads the capacity from the text of the battery's file.
pub fn parse_capacity(text: &str) -> (capacity: Option<u8>)
    ensures
        capacity == capacity_of(text@),
{
    if text.unicode_len() == 0 || space(text.get_char(0)) {
        return None;
    }
    match parse_numbers(text, false, 255) {
        None => {
            assert(numbers_in(text@, false, 255) is None);
            None
        },
        Some(numbers) => {
            let ghost wanted = numbers_in(text@, false, 255)->0;
            assert(nats(numbers@).len() == wanted.len());
            if numbers.len() != 1 {
                return None;
            }
            assert(nats(numbers@)[0] == wanted[0]);
            Some(numbers[0] as u8)
        },
    }
}

} // verus!
