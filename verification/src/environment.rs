//! The air: what the gas sensor says of carbon dioxide and of volatile
//! compounds, how good the air is by that, and when the sensor is due.

use vstd::prelude::*;

verus! {

/// Below this value of CO2 the air is good again.
pub const LOW_CO2_OK_QUALITY: u16 = 3000;

/// Above this value of CO2 good air becomes moderate.
pub const HIGH_CO2_OK_QUALITY: u16 = 3500;

/// Below this value of CO2 bad air becomes moderate again.
pub const LOW_CO2_BAD_QUALITY: u16 = 4000;

/// Above this value of CO2 moderate air becomes bad.
pub const HIGH_CO2_BAD_QUALITY: u16 = 4500;

/// From this value of volatile compounds on a fire is spoken of.
pub const VOC_LOW_QUALITY: u16 = 9000;

/// From this value of volatile compounds on the bell rings.
pub const VOC_BELL_QUALITY: u16 = 11000;

/// From this value of volatile compounds on the alarm sounds.
pub const VOC_ALARM_QUALITY: u16 = 13000;

/// Ticks after which a sensor that was reset is started.
pub const RESET_INTERVAL: u16 = 5;

/// The bits of the status that tell whether a measurement is valid.
pub const STATUS_MASK: u8 = 0xF1;

/// What those bits read for a valid measurement.
pub const STATUS_VALID: u8 = 0x90;

/// How good the air is.
#[derive(Clone, Copy, PartialEq, Eq, Structural, Debug)]
pub enum AirQualityChange {
    Error,
    Good,
    Moderate,
    Bad,
    FireChat,
    FireBell,
    FireAlarm,
}

/// What the gas sensor said last, and how good the air is by that.
#[derive(Clone, Copy, PartialEq, Eq, Structural, Debug)]
pub struct AirQuality {
    pub co2: u16,
    pub voc: u16,
    pub air_quality: AirQualityChange,
}

/// The value that two bytes stand for, the upper byte first.
pub open spec fn word_of(upper: u8, lower: u8) -> u16 {
    (upper as u16 * 256 + lower as u16) as u16
}

/// How good the air is by a measurement, given how good it was. Volatile
/// compounds come first: each of their levels is entered when it is
/// reached and the air was not at it. Then, air that is not good becomes so
/// when CO2 is low. Else good air becomes moderate and moderate air bad as
/// CO2 passes the upper bounds, and bad air moderate as it falls below the
/// lower one. In all other cases the air stays as it was.
pub open spec fn quality_for(quality: AirQualityChange, co2: u16, voc: u16) -> AirQualityChange {
    if quality != AirQualityChange::FireAlarm && voc >= VOC_ALARM_QUALITY {
        AirQualityChange::FireAlarm
    } else if quality != AirQualityChange::FireBell && voc >= VOC_BELL_QUALITY {
        AirQualityChange::FireBell
    } else if quality != AirQualityChange::FireChat && voc >= VOC_LOW_QUALITY {
        AirQualityChange::FireChat
    } else if quality != AirQualityChange::Good && co2 < LOW_CO2_OK_QUALITY {
        AirQualityChange::Good
    } else if quality == AirQualityChange::Good && co2 > HIGH_CO2_OK_QUALITY {
        AirQualityChange::Moderate
    } else if quality == AirQualityChange::Moderate && co2 > HIGH_CO2_BAD_QUALITY {
        AirQualityChange::Bad
    } else if quality == AirQualityChange::Bad && co2 < LOW_CO2_BAD_QUALITY {
        AirQualityChange::Moderate
    } else {
        quality
    }
}

fn join(upper: u8, lower: u8) -> (word: u16)
    ensures
        word == word_of(upper, lower),
{
    let high: u16 = upper as u16;
    let low: u16 = lower as u16;
    let word: u16 = (high << 8) | low;
    assert(((high << 8) | low) == high * 256 + low) by (bit_vector)
        requires
            high <= 0xFF,
            low <= 0xFF,
    ;
    word
}

impl AirQuality {
    /// Good air, and nothing measured yet.
    pub fn new() -> (air: AirQuality)
        ensures
            air == (AirQuality { co2: 0, voc: 0, air_quality: AirQualityChange::Good }),
    {
        AirQuality { co2: 0, voc: 0, air_quality: AirQualityChange::Good }
    }

    /// Takes the values of CO2 and of volatile compounds from the first
    /// four bytes of a measurement and says whether the air changed.
    pub fn calculate_air_quality(&mut self, data: &Vec<u8>) -> (is_changed: bool)
        requires
            data.len() >= 4,
        ensures
            final(self).co2 == word_of(data[0], data[1]),
            final(self).voc == word_of(data[2], data[3]),
            final(self).air_quality == quality_for(
                old(self).air_quality,
                word_of(data[0], data[1]),
                word_of(data[2], data[3]),
            ),
            is_changed == (final(self).air_quality != old(self).air_quality),
    {
        self.co2 = join(data[0], data[1]);
        self.voc = join(data[2], data[3]);
        let quality = self.air_quality;
        if quality != AirQualityChange::FireAlarm && self.voc >= VOC_ALARM_QUALITY {
            self.air_quality = AirQualityChange::FireAlarm;
        } else if quality != AirQualityChange::FireBell && self.voc >= VOC_BELL_QUALITY {
            self.air_quality = AirQualityChange::FireBell;
        } else if quality != AirQualityChange::FireChat && self.voc >= VOC_LOW_QUALITY {
            self.air_quality = AirQualityChange::FireChat;
        } else if quality != AirQualityChange::Good && self.co2 < LOW_CO2_OK_QUALITY {
            self.air_quality = AirQualityChange::Good;
        } else if quality == AirQualityChange::Good && self.co2 > HIGH_CO2_OK_QUALITY {
            self.air_quality = AirQualityChange::Moderate;
        } else if quality == AirQualityChange::Moderate && self.co2 > HIGH_CO2_BAD_QUALITY {
            self.air_quality = AirQualityChange::Bad;
        } else if quality == AirQualityChange::Bad && self.co2 < LOW_CO2_BAD_QUALITY {
            self.air_quality = AirQualityChange::Moderate;
        } else {
            return false;
        }
        true
    }
}

/// Whether the status of the sensor tells of a valid measurement.
pub fn status_valid(status: u8) -> (valid: bool)
    ensures
        valid == (status & STATUS_MASK == STATUS_VALID),
{
    status & STATUS_MASK == STATUS_VALID
}

/// What is due at a tick.
#[derive(Clone, Copy, PartialEq, Eq, Structural, Debug)]
pub enum Due {
    Nothing,
    /// The sensor is to be started.
    Start,
    /// The sensor is to be read.
    Measure,
}

/// The schedule as a mathematical value.
pub struct ScheduleView {
    pub read_counter: nat,
    pub first_time: bool,
    pub data_interval: nat,
}

impl ScheduleView {
    /// What is due at the next tick: a sensor that was not started yet is
    /// started at its fifth tick; one that was started is read whenever
    /// the interval has passed.
    pub open spec fn due(self) -> Due {
        if !self.first_time && self.read_counter + 1 == self.data_interval {
            Due::Measure
        } else if self.first_time && self.read_counter + 1 == RESET_INTERVAL {
            Due::Start
        } else {
            Due::Nothing
        }
    }

    /// The schedule after the next tick: the ticks are counted from the
    /// last time that something was due.
    pub open spec fn tick(self) -> ScheduleView {
        match self.due() {
            Due::Nothing => ScheduleView { read_counter: self.read_counter + 1, ..self },
            Due::Start => ScheduleView { read_counter: 0, first_time: false, ..self },
            Due::Measure => ScheduleView { read_counter: 0, ..self },
        }
    }
}

/// When the sensor is due.
pub struct Schedule {
    read_counter: u16,
    first_time: bool,
    data_interval: u16,
}

impl View for Schedule {
    type V = ScheduleView;

    closed spec fn view(&self) -> ScheduleView {
        ScheduleView {
            read_counter: self.read_counter as nat,
            first_time: self.first_time,
            data_interval: self.data_interval as nat,
        }
    }
}

impl Schedule {
    #[verifier::type_invariant]
    spec fn inv(&self) -> bool {
        &&& self.data_interval >= 1
        &&& self.first_time ==> self.read_counter < RESET_INTERVAL
        &&& !self.first_time ==> self.read_counter < self.data_interval
    }

    /// The schedule of a sensor that was just reset, to be read every
    /// `data_interval` ticks once it is started.
    pub fn new(data_interval: u16) -> (schedule: Schedule)
        requires
            data_interval >= 1,
        ensures
            schedule@ == (ScheduleView {
                read_counter: 0,
                first_time: true,
                data_interval: data_interval as nat,
            }),
    {
        Schedule { read_counter: 0, first_time: true, data_interval }
    }

    /// Counts a tick and says what is due at it.
    pub fn tick(&mut self) -> (due: Due)
        ensures
            due == old(self)@.due(),
            final(self)@ == old(self)@.tick(),
    {
        proof {
            use_type_invariant(&*self);
        }
        let counted: u16 = self.read_counter + 1;
        if !self.first_time && counted == self.data_interval {
            *self = Schedule { read_counter: 0, first_time: false, data_interval: self.data_interval };
            Due::Measure
        } else if self.first_time && counted == RESET_INTERVAL {
            *self = Schedule { read_counter: 0, first_time: false, data_interval: self.data_interval };
            Due::Start
        } else {
            *self = Schedule {
                read_counter: counted,
                first_time: self.first_time,
                data_interval: self.data_interval,
            };
            Due::Nothing
        }
    }
}

} // verus!
