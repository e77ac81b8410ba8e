//! Register values of the weather station.

use vstd::prelude::*;

verus! {

/// What the station reports in place of a signed 32-bit value it cannot measure.
pub const ERROR_CODE_S32: u32 = 0x7FFF_FFFF;

/// What the station reports in place of an unsigned 32-bit value it cannot measure.
pub const ERROR_CODE_U32: u32 = 0xFFFF_FFFF;

/// The 32-bit word made of two registers, the first holding the upper half.
pub open spec fn word_of(vec: (u16, u16)) -> int {
    vec.0 as int * 0x1_0000 + vec.1 as int
}

/// The value of a word read as two's complement.
pub open spec fn signed_of(word: int) -> int {
    if word >= 0x8000_0000 {
        word - 0x1_0000_0000
    } else {
        word
    }
}

fn join(vec: (u16, u16)) -> (word: u32)
    ensures
        word as int == word_of(vec),
{
    let hi: u32 = vec.0 as u32;
    let lo: u32 = vec.1 as u32;
    let word: u32 = (hi << 16) | lo;
    assert(((hi << 16) | lo) == hi * 0x1_0000 + lo) by (bit_vector)
        requires
            hi <= 0xFFFF,
            lo <= 0xFFFF,
    ;
    word
}

/// Reads two registers as one signed value, most significant register first.
/// The station's error code for signed values is reported as `Err`.
pub fn conv_vec_to_value_s(vec: (u16, u16)) -> (res: Result<i32, ()>)
    ensures
        word_of(vec) == ERROR_CODE_S32 <==> res is Err,
        res matches Ok(value) ==> value as int == signed_of(word_of(vec)),
{
    let usign_val: u32 = join(vec);
    if usign_val == ERROR_CODE_S32 {
        Err(())
    } else {
        let value: i32 = usign_val as i32;
        assert(value as int == if usign_val >= 0x8000_0000u32 {
            usign_val as int - 0x1_0000_0000
        } else {
            usign_val as int
        }) by (bit_vector)
            requires
                value == usign_val as i32,
        ;
        Ok(value)
    }
}

/// Reads two registers as one unsigned value, most significant register first.
/// The station's error code for unsigned values is reported as `Err`.
pub fn conv_vec_to_value_u(vec: (u16, u16)) -> (res: Result<u32, ()>)
    ensures
        word_of(vec) == ERROR_CODE_U32 <==> res is Err,
        res matches Ok(value) ==> value as int == word_of(vec),
{
    let usign_val: u32 = join(vec);
    if usign_val == ERROR_CODE_U32 {
        Err(())
    } else {
        Ok(usign_val)
    }
}

/// Temperatures are in tenths of a degree Celsius, wind speeds in tenths of a
/// metre per second, as the station reports them.
///
/// Below this temperature a warning is not taken back.
pub const LOW_CANCEL_TEMP: i32 = 50;

/// Above this temperature a warning is not taken back.
pub const HIGH_CANCEL_TEMP: i32 = 200;

/// From this temperature on the window is to be closed.
pub const CLOSE_WINDOW_TEMP: i32 = 220;

/// Above this temperature calm air means a heat warning.
pub const NO_WIND_TEMP: i32 = 300;

/// Below this wind speed the air counts as calm.
pub const NO_WIND_SPEED: u32 = 3;

/// Above this temperature there is a heat warning whatever the wind.
pub const HIGH_WARNING_TEMP: i32 = 350;

/// Below this temperature there is a frost warning.
pub const LOW_WARNING_TEMP: i32 = 0;

/// Above this wind speed there is a wind warning.
pub const STRONG_WIND_SPEED: u32 = 108;

/// Below this wind speed a warning can be taken back.
pub const OK_WIND_SPEED: u32 = 80;

/// The warning that is in force.
#[derive(Clone, Copy, PartialEq, Eq, Structural, Debug)]
pub enum Warning {
    CloseWindow,
    HighTemp,
    LowTemp,
    StrongWind,
    ErrorTemp,
    ErrorWind,
    ErrorBoth,
    Nothing,
}

/// The warning that goes with a measurement, given the warning in force. A
/// value that could not be measured is a warning of its own. Moderate
/// values end every warning. Otherwise strong wind comes first, then heat,
/// then frost, then heat in calm air, then the window; heat in calm air is
/// not repeated while the heat warning is in force, and the window is not
/// mentioned while heat or frost are. If none of these applies, the warning
/// in force stays.
pub open spec fn warning_for(active: Warning, temp: Option<i32>, wind: Option<u32>) -> Warning {
    match (temp, wind) {
        (None, None) => Warning::ErrorBoth,
        (None, Some(_)) => Warning::ErrorTemp,
        (Some(_), None) => Warning::ErrorWind,
        (Some(temp), Some(wind)) => if temp > LOW_CANCEL_TEMP && temp < HIGH_CANCEL_TEMP && wind
            < OK_WIND_SPEED {
            Warning::Nothing
        } else if wind > STRONG_WIND_SPEED {
            Warning::StrongWind
        } else if temp > HIGH_WARNING_TEMP {
            Warning::HighTemp
        } else if temp < LOW_WARNING_TEMP {
            Warning::LowTemp
        } else if temp > NO_WIND_TEMP && wind < NO_WIND_SPEED && active != Warning::HighTemp {
            Warning::HighTemp
        } else if temp >= CLOSE_WINDOW_TEMP && active != Warning::LowTemp && active != Warning::HighTemp {
            Warning::CloseWindow
        } else {
            active
        },
    }
}

/// The weather station, as far as its warnings go.
pub struct ClimaSensorUS {
    pub warning_active: Warning,
}

impl ClimaSensorUS {
    /// Puts the warning that goes with a measurement in force and hands it
    /// out if it differs from the one that was in force.
    pub fn set_warning_active(warning_active: &mut Warning, temp: Option<i32>, wind: Option<u32>) -> (changed:
        Option<Warning>)
        ensures
            *final(warning_active) == warning_for(*old(warning_active), temp, wind),
            changed == if warning_for(*old(warning_active), temp, wind) != *old(warning_active) {
                Some(warning_for(*old(warning_active), temp, wind))
            } else {
                None
            },
    {
        let active = *warning_active;
        let new_warning = match (temp, wind) {
            (None, None) => Warning::ErrorBoth,
            (None, Some(_)) => Warning::ErrorTemp,
            (Some(_), None) => Warning::ErrorWind,
            (Some(temp), Some(wind)) => {
                if temp > LOW_CANCEL_TEMP && temp < HIGH_CANCEL_TEMP && wind < OK_WIND_SPEED {
                    Warning::Nothing
                } else if wind > STRONG_WIND_SPEED {
                    Warning::StrongWind
                } else if temp > HIGH_WARNING_TEMP {
                    Warning::HighTemp
                } else if temp < LOW_WARNING_TEMP {
                    Warning::LowTemp
                } else if temp > NO_WIND_TEMP && wind < NO_WIND_SPEED && active != Warning::HighTemp {
                    Warning::HighTemp
                } else if temp >= CLOSE_WINDOW_TEMP && active != Warning::LowTemp && active
                    != Warning::HighTemp {
                    Warning::CloseWindow
                } else {
                    active
                }
            },
        };
        if active != new_warning {
            *warning_active = new_warning;
            Some(new_warning)
        } else {
            None
        }
    }
}

/// A measurement that is repeated is told at most once.
pub proof fn lemma_warning_settles(active: Warning, temp: Option<i32>, wind: Option<u32>)
    ensures
        warning_for(warning_for(active, temp, wind), temp, wind) == warning_for(active, temp, wind),
{
}

} // verus!
