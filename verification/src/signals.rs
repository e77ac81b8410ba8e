//! What the signals of the operating system ask for.

use crate::audio::AudioEvent;
use crate::buttons::CommandToButtons;
use vstd::prelude::*;

verus! {

/// Period of the bell for a fire alarm that was found in the state.
pub const FIRE_ALARM_PERIOD: u32 = 10;

/// Period of the bell for an alarm that was signalled.
pub const ALARM_PERIOD: u32 = 20;

/// Period of the bell for a ring that was signalled.
pub const RING_PERIOD: u32 = 20;

/// A signal that asks for sound.
#[derive(Clone, Copy, PartialEq, Eq, Structural, Debug)]
pub enum Signal {
    /// A fire alarm was found in the state when it was read anew.
    FireAlarm,
    /// The alarm signal.
    Alarm,
    /// The second user signal: ring the bell.
    Ring,
}

/// Remembers whether a fire alarm that stands in the state was raised
/// already.
#[derive(Clone, Copy, PartialEq, Eq, Structural, Debug)]
pub struct AlarmLatch {
    pub alarm_not_active: bool,
}

impl AlarmLatch {
    /// No alarm was raised yet.
    pub fn new() -> (latch: AlarmLatch)
        ensures
            latch.alarm_not_active,
    {
        AlarmLatch { alarm_not_active: true }
    }

    /// Takes note of whether the state holds a fire alarm and says whether
    /// it is to be raised: it is when it is new. An alarm that left the
    /// state can be raised again.
    pub fn reload(&mut self, alarm_in_state: bool) -> (raise: bool)
        ensures
            raise == (alarm_in_state && old(self).alarm_not_active),
            final(self).alarm_not_active == !alarm_in_state,
    {
        if alarm_in_state {
            let raise = self.alarm_not_active;
            self.alarm_not_active = false;
            raise
        } else {
            self.alarm_not_active = true;
            false
        }
    }
}

/// What the matrix is asked to do for a signal, if there is a matrix.
pub fn command_for(signal: Signal, buttons_enabled: bool) -> (command: Option<CommandToButtons>)
    ensures
        !buttons_enabled ==> command is None,
        buttons_enabled ==> match signal {
            Signal::FireAlarm => command matches Some(CommandToButtons::RingBellAlarm(10)),
            Signal::Alarm => command matches Some(CommandToButtons::RingBellAlarm(20)),
            Signal::Ring => command matches Some(CommandToButtons::RingBell(20, 0)),
        },
{
    if !buttons_enabled {
        return None;
    }
    match signal {
        Signal::FireAlarm => Some(CommandToButtons::RingBellAlarm(FIRE_ALARM_PERIOD)),
        Signal::Alarm => Some(CommandToButtons::RingBellAlarm(ALARM_PERIOD)),
        Signal::Ring => Some(CommandToButtons::RingBell(RING_PERIOD, 0)),
    }
}

/// The sound that goes with a signal, if one does. A fire alarm that was
/// found in the state sounds only where the garage is.
pub fn sound_for(signal: Signal, garage_enabled: bool) -> (sound: Option<AudioEvent>)
    ensures
        sound == match signal {
            Signal::FireAlarm => if garage_enabled {
                Some(AudioEvent::FireAlarm)
            } else {
                None
            },
            Signal::Alarm => Some(AudioEvent::FireAlarm),
            Signal::Ring => Some(AudioEvent::Bell),
        },
{
    match signal {
        Signal::FireAlarm => if garage_enabled {
            Some(AudioEvent::FireAlarm)
        } else {
            None
        },
        Signal::Alarm => Some(AudioEvent::FireAlarm),
        Signal::Ring => Some(AudioEvent::Bell),
    }
}

} // verus!
