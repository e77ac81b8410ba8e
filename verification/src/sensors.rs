//! The smoke sensors: what a line of their readings can lead to.

use crate::text::{nats, numbers_in, parse_numbers};
use vstd::prelude::*;

verus! {

/// What a line of readings leads to: nothing, a message to the chat, or an
/// alarm, each with its text.
#[derive(Debug, Clone, PartialEq)]
pub enum SensorsChange {
    Nothing,
    Chat(String),
    Alarm(String),
}

/// How many sensors there are, and so how many readings a line holds.
pub const SENSORS: usize = 12;

/// The readings that a line stands for: its numbers, if there are as many
/// as there are sensors and each is a number of 16 bits.
pub open spec fn readings_of(line: Seq<char>) -> Option<Seq<u16>> {
    match numbers_in(line, false, 0xFFFF) {
        Some(numbers) => if numbers.len() == SENSORS {
            Some(numbers.map_values(|n: nat| n as u16))
        } else {
            None
        },
        None => None,
    }
}

/// Reads the readings of the sensors from a line: one number for each
/// sensor, parted by white space.
pub fn parse_readings(line: &str) -> (readings: Option<Vec<u16>>)
    ensures
        readings is Some <==> readings_of(line@) is Some,
        readings matches Some(values) ==> values@ == readings_of(line@)->0,
{
    match parse_numbers(line, false, 0xFFFF) {
        None => None,
        Some(numbers) => {
            let ghost wanted = numbers_in(line@, false, 0xFFFF)->0;
            assert(nats(numbers@).len() == wanted.len());
            if numbers.len() != SENSORS {
                return None;
            }
            assert forall|k: int| 0 <= k < numbers.len() implies numbers[k] <= 0xFFFF by {
                assert(nats(numbers@)[k] == wanted[k]);
            }
            let mut values: Vec<u16> = Vec::new();
            let mut i: usize = 0;
            while i < numbers.len()
                invariant
                    i <= numbers.len(),
                    forall|k: int| 0 <= k < numbers.len() ==> numbers[k] <= 0xFFFF,
                    values.len() == i,
                    forall|k: int| 0 <= k < i ==> values[k] == numbers[k],
                decreases numbers.len() - i,
            {
                values.push(numbers[i] as u16);
                i = i + 1;
            }
            assert(values@ =~= wanted.map_values(|n: nat| n as u16)) by {
                assert forall|k: int| 0 <= k < values.len() implies values@[k] == wanted.map_values(
                    |n: nat| n as u16,
                )[k] by {
                    assert(nats(numbers@)[k] == wanted[k]);
                }
            }
            Some(values)
        },
    }
}

/// What a sensor has led to and not yet taken back.
#[derive(Clone, Copy, PartialEq, Eq, Structural, Debug)]
pub enum Triggered {
    Nothing,
    Chat,
    Alarm,
}

/// How the moving average of a sensor's readings stands against the one
/// before. The averages are kept and compared where the readings come from;
/// here is what follows from the comparison.
#[derive(Clone, Copy, PartialEq, Eq, Structural, Debug)]
pub struct Trend {
    /// The average rose by the jump that rings the bell.
    pub bell_jump: bool,
    /// The average rose by the jump that raises the alarm.
    pub alarm_jump: bool,
    /// The average fell.
    pub fell: bool,
}

/// One sensor: whether it is watched, its thresholds if it has them, its
/// last reading, and what it has led to.
#[derive(Clone, Copy, PartialEq, Eq, Structural, Debug)]
pub struct Sensor {
    /// Whether the sensor is in use; one without a place is passed over.
    pub watched: bool,
    /// The reading from which a message is due.
    pub chat: Option<u16>,
    /// The reading from which an alarm is due.
    pub alarm: Option<u16>,
    /// The last reading that was taken.
    pub value: u16,
    pub triggered: Triggered,
}

/// Why a sensor asks for a message or an alarm.
#[derive(Clone, Copy, PartialEq, Eq, Structural, Debug)]
pub enum Reason {
    /// The average jumped.
    ChatJump,
    /// The average jumped far.
    AlarmJump,
    /// The average jumped again after a message.
    SecondJump,
    /// The reading reached the threshold of the message.
    ChatThreshold,
    /// The reading reached the threshold of the alarm.
    AlarmThreshold,
    /// The reading reached the threshold of the alarm after a message.
    AlarmAfterChat,
}

impl Reason {
    /// Whether the reason asks for an alarm rather than a message.
    pub open spec fn spec_is_alarm(self) -> bool {
        self == Reason::AlarmJump || self == Reason::SecondJump || self == Reason::AlarmThreshold || self
            == Reason::AlarmAfterChat
    }

    /// Whether the reason lies in a jump of the average rather than in a
    /// threshold.
    pub open spec fn spec_is_jump(self) -> bool {
        self == Reason::ChatJump || self == Reason::AlarmJump || self == Reason::SecondJump
    }

    /// The reason in the words of the notification.
    pub open spec fn spec_text(self) -> Seq<char> {
        match self {
            Reason::ChatJump => "chat jump"@,
            Reason::AlarmJump => "alarm jump"@,
            Reason::SecondJump => "2xChat => Alarm"@,
            Reason::ChatThreshold => "from none -> chat"@,
            Reason::AlarmThreshold => "from none -> alarm"@,
            Reason::AlarmAfterChat => "from chat -> alarm threshold"@,
        }
    }

    /// Whether the reason asks for an alarm rather than a message.
    #[verifier::when_used_as_spec(spec_is_alarm)]
    pub fn is_alarm(self) -> (alarm: bool)
        ensures
            alarm == self.spec_is_alarm(),
    {
        match self {
            Reason::AlarmJump | Reason::SecondJump | Reason::AlarmThreshold | Reason::AlarmAfterChat => true,
            _ => false,
        }
    }

    /// Whether the reason lies in a jump of the average rather than in a
    /// threshold.
    #[verifier::when_used_as_spec(spec_is_jump)]
    pub fn is_jump(self) -> (jump: bool)
        ensures
            jump == self.spec_is_jump(),
    {
        match self {
            Reason::ChatJump | Reason::AlarmJump | Reason::SecondJump => true,
            _ => false,
        }
    }

    /// The reason in the words of the notification.
    pub fn text(self) -> (text: &'static str)
        ensures
            text@ == self.spec_text(),
    {
        match self {
            Reason::ChatJump => "chat jump",
            Reason::AlarmJump => "alarm jump",
            Reason::SecondJump => "2xChat => Alarm",
            Reason::ChatThreshold => "from none -> chat",
            Reason::AlarmThreshold => "from none -> alarm",
            Reason::AlarmAfterChat => "from chat -> alarm threshold",
        }
    }
}

/// What a trend or a reading makes of what a sensor had led to, and the
/// reason if it asks for something new.
pub struct Judged {
    pub triggered: Triggered,
    pub found: Option<Reason>,
}

/// What the trend of the average makes of a sensor. A sensor in alarm stays
/// so. After a message, a jump raises the alarm and a falling average takes
/// the message back. Else a jump asks for a message, and a far jump that is
/// no jump for an alarm.
pub open spec fn after_trend(triggered: Triggered, trend: Trend) -> Judged {
    match triggered {
        Triggered::Alarm => Judged { triggered, found: None },
        Triggered::Chat => if trend.bell_jump {
            Judged { triggered: Triggered::Alarm, found: Some(Reason::SecondJump) }
        } else if trend.fell {
            Judged { triggered: Triggered::Nothing, found: None }
        } else {
            Judged { triggered, found: None }
        },
        Triggered::Nothing => if trend.bell_jump {
            Judged { triggered: Triggered::Chat, found: Some(Reason::ChatJump) }
        } else if trend.alarm_jump {
            Judged { triggered: Triggered::Alarm, found: Some(Reason::AlarmJump) }
        } else {
            Judged { triggered, found: None }
        },
    }
}

/// What a reading makes of a sensor with both thresholds. A sensor in alarm
/// stays so. A reading at the threshold of the alarm raises it. After a
/// message, a reading below the threshold of the message takes it back; with
/// none, a reading at that threshold asks for one.
pub open spec fn after_reading(triggered: Triggered, chat: u16, alarm: u16, value: u16) -> Judged {
    match triggered {
        Triggered::Alarm => Judged { triggered, found: None },
        Triggered::Chat => if value >= alarm {
            Judged { triggered: Triggered::Alarm, found: Some(Reason::AlarmAfterChat) }
        } else if value < chat {
            Judged { triggered: Triggered::Nothing, found: None }
        } else {
            Judged { triggered, found: None }
        },
        Triggered::Nothing => if value >= alarm {
            Judged { triggered: Triggered::Alarm, found: Some(Reason::AlarmThreshold) }
        } else if value >= chat {
            Judged { triggered: Triggered::Chat, found: Some(Reason::ChatThreshold) }
        } else {
            Judged { triggered, found: None }
        },
    }
}

/// What a line of readings comes to for one sensor.
pub struct Step {
    /// The sensor afterwards.
    pub sensor: Sensor,
    /// The reason, if the sensor asks for something new.
    pub found: Option<Reason>,
    /// Whether the reading was taken, and with it the new average.
    pub averaged: bool,
}

impl Sensor {
    /// What a reading and the trend of the average come to. A sensor that is
    /// not watched is passed over. The trend is judged first, if there was
    /// an average before to compare with; an alarm by it ends the matter, and
    /// the reading is not taken. Else the reading is taken and held against
    /// the thresholds, if the sensor has both; what they find goes before
    /// what the trend found.
    pub open spec fn spec_step(self, compared: bool, value: u16, trend: Trend) -> Step {
        if !self.watched {
            Step { sensor: self, found: None, averaged: false }
        } else {
            let first = if compared {
                after_trend(self.triggered, trend)
            } else {
                Judged { triggered: self.triggered, found: None }
            };
            if first.found matches Some(reason) && reason.spec_is_alarm() {
                Step { sensor: Sensor { triggered: first.triggered, ..self }, found: first.found, averaged: false }
            } else {
                let second = match (self.chat, self.alarm) {
                    (Some(chat), Some(alarm)) => after_reading(first.triggered, chat, alarm, value),
                    _ => Judged { triggered: first.triggered, found: None },
                };
                Step {
                    sensor: Sensor { value, triggered: second.triggered, ..self },
                    found: if second.found is Some {
                        second.found
                    } else {
                        first.found
                    },
                    averaged: true,
                }
            }
        }
    }

    /// What a reading and the trend of the average come to for this sensor.
    #[verifier::when_used_as_spec(spec_step)]
    pub fn step(self, compared: bool, value: u16, trend: Trend) -> (step: Step)
        ensures
            step == self.spec_step(compared, value, trend),
    {
        if !self.watched {
            return Step { sensor: self, found: None, averaged: false };
        }
        let mut triggered = self.triggered;
        let mut found: Option<Reason> = None;
        if compared {
            match self.triggered {
                Triggered::Alarm => {},
                Triggered::Chat => {
                    if trend.bell_jump {
                        let sensor = Sensor { triggered: Triggered::Alarm, ..self };
                        return Step { sensor, found: Some(Reason::SecondJump), averaged: false };
                    } else if trend.fell {
                        triggered = Triggered::Nothing;
                    }
                },
                Triggered::Nothing => {
                    if trend.bell_jump {
                        triggered = Triggered::Chat;
                        found = Some(Reason::ChatJump);
                    } else if trend.alarm_jump {
                        let sensor = Sensor { triggered: Triggered::Alarm, ..self };
                        return Step { sensor, found: Some(Reason::AlarmJump), averaged: false };
                    }
                },
            }
        }
        match (self.chat, self.alarm, triggered) {
            (Some(_), Some(alarm), Triggered::Chat) if value >= alarm => {
                triggered = Triggered::Alarm;
                found = Some(Reason::AlarmAfterChat);
            },
            (Some(chat), Some(_), Triggered::Chat) if value < chat => {
                triggered = Triggered::Nothing;
            },
            (Some(_), Some(alarm), Triggered::Nothing) if value >= alarm => {
                triggered = Triggered::Alarm;
                found = Some(Reason::AlarmThreshold);
            },
            (Some(chat), Some(_), Triggered::Nothing) if value >= chat => {
                triggered = Triggered::Chat;
                found = Some(Reason::ChatThreshold);
            },
            _ => {},
        }
        Step { sensor: Sensor { value, triggered, ..self }, found, averaged: true }
    }
}

/// A sensor that asks for something, and why.
#[derive(Clone, Copy, PartialEq, Eq, Structural, Debug)]
pub struct Finding {
    pub sensor: usize,
    pub reason: Reason,
}

/// How far a line of readings has been gone through.
pub struct Run {
    /// The sensors as they stand.
    pub sensors: Seq<Sensor>,
    /// The last sensor that asked for something.
    pub found: Option<Finding>,
    /// Whether an alarm ended the run.
    pub stopped: bool,
    /// For each sensor gone through, whether its reading was taken.
    pub averaged: Seq<bool>,
}

/// A line of readings gone through for the first `upto` sensors, in their
/// order: each sensor takes its step; the last that asks for something is
/// the one found; and an alarm ends the run, so that the sensors after it
/// are left as they were.
pub open spec fn run(sensors: Seq<Sensor>, compared: bool, values: Seq<u16>, trends: Seq<Trend>, upto: nat) -> Run
    decreases upto,
{
    if upto == 0 {
        Run { sensors, found: None, stopped: false, averaged: Seq::empty() }
    } else {
        let at = (upto - 1) as int;
        let before = run(sensors, compared, values, trends, (upto - 1) as nat);
        if before.stopped {
            Run { averaged: before.averaged.push(false), ..before }
        } else {
            let step = before.sensors[at].spec_step(compared, values[at], trends[at]);
            Run {
                sensors: before.sensors.update(at, step.sensor),
                found: match step.found {
                    Some(reason) => Some(Finding { sensor: at as usize, reason }),
                    None => before.found,
                },
                stopped: step.found matches Some(reason) && reason.spec_is_alarm(),
                averaged: before.averaged.push(step.averaged),
            }
        }
    }
}

/// What a line of readings came to.
pub struct Updated {
    /// The sensor that asks for something, if one does: the one in alarm,
    /// else the last that asks for a message.
    pub found: Option<Finding>,
    /// For each sensor, whether its reading was taken, and with it the new
    /// average.
    pub averaged: Vec<bool>,
}

/// The sensors, and whether a line of readings was gone through to its end
/// before, so that there are averages to compare with.
pub struct Sensors {
    pub init: bool,
    pub sensors: Vec<Sensor>,
}

impl Sensors {
    /// The sensors before their first line of readings.
    pub fn new(sensors: Vec<Sensor>) -> (made: Sensors)
        ensures
            !made.init,
            made.sensors == sensors,
    {
        Sensors { init: false, sensors }
    }

    /// Goes through a line of readings, one reading and one trend for each
    /// sensor. A line that was gone through to its end leaves averages to
    /// compare with.
    pub fn update(&mut self, values: &Vec<u16>, trends: &Vec<Trend>) -> (updated: Updated)
        requires
            values.len() == old(self).sensors.len(),
            trends.len() == old(self).sensors.len(),
        ensures
            final(self).sensors@ == run(
                old(self).sensors@,
                old(self).init,
                values@,
                trends@,
                old(self).sensors.len() as nat,
            ).sensors,
            final(self).init == (old(self).init || !run(
                old(self).sensors@,
                old(self).init,
                values@,
                trends@,
                old(self).sensors.len() as nat,
            ).stopped),
            updated.found == run(
                old(self).sensors@,
                old(self).init,
                values@,
                trends@,
                old(self).sensors.len() as nat,
            ).found,
            updated.averaged@ == run(
                old(self).sensors@,
                old(self).init,
                values@,
                trends@,
                old(self).sensors.len() as nat,
            ).averaged,
    {
        let ghost start = self.sensors@;
        let compared = self.init;
        let n = self.sensors.len();
        let mut found: Option<Finding> = None;
        let mut averaged: Vec<bool> = Vec::new();
        let mut stopped = false;
        let mut i: usize = 0;
        while i < n
            invariant
                i <= n,
                n == self.sensors.len(),
                n == values.len(),
                n == trends.len(),
                n == start.len(),
                self.init == compared,
                (Run { sensors: self.sensors@, found, stopped, averaged: averaged@ }) == run(
                    start,
                    compared,
                    values@,
                    trends@,
                    i as nat,
                ),
            decreases n - i,
        {
            if stopped {
                averaged.push(false);
            } else {
                let step = self.sensors[i].step(compared, values[i], trends[i]);
                self.sensors.set(i, step.sensor);
                if let Some(reason) = step.found {
                    found = Some(Finding { sensor: i, reason });
                    stopped = reason.is_alarm();
                }
                averaged.push(step.averaged);
            }
            i = i + 1;
        }
        if !stopped {
            self.init = true;
        }
        Updated { found, averaged }
    }
}

/// A line of readings leaves as many sensors as there were and says of each
/// whether its reading was taken.
pub proof fn lemma_run_lengths(sensors: Seq<Sensor>, compared: bool, values: Seq<u16>, trends: Seq<Trend>, upto: nat)
    requires
        upto <= sensors.len(),
    ensures
        run(sensors, compared, values, trends, upto).sensors.len() == sensors.len(),
        run(sensors, compared, values, trends, upto).averaged.len() == upto,
    decreases upto,
{
    if upto > 0 {
        lemma_run_lengths(sensors, compared, values, trends, (upto - 1) as nat);
    }
}

/// An alarm is raised once: a sensor in alarm stays in alarm and asks for
/// nothing more, whatever it reads.
pub proof fn lemma_alarm_is_raised_once(sensor: Sensor, compared: bool, value: u16, trend: Trend)
    requires
        sensor.triggered == Triggered::Alarm,
    ensures
        sensor.spec_step(compared, value, trend).found is None,
        sensor.spec_step(compared, value, trend).sensor.triggered == Triggered::Alarm,
{
}

/// A run is ended exactly by an alarm: it stopped if and only if what it
/// found is an alarm, and then the sensor found is in alarm.
pub proof fn lemma_alarm_ends_run(sensors: Seq<Sensor>, compared: bool, values: Seq<u16>, trends: Seq<Trend>, upto: nat)
    requires
        upto <= sensors.len() <= usize::MAX,
    ensures
        ({
            let run = run(sensors, compared, values, trends, upto);
            &&& run.stopped <==> (run.found matches Some(finding) && finding.reason.spec_is_alarm())
            &&& run.found matches Some(finding) ==> finding.sensor < upto
            &&& run.stopped ==> (run.found matches Some(finding) && run.sensors[finding.sensor as int].triggered
                == Triggered::Alarm)
        }),
    decreases upto,
{
    if upto > 0 {
        lemma_alarm_ends_run(sensors, compared, values, trends, (upto - 1) as nat);
        lemma_run_lengths(sensors, compared, values, trends, (upto - 1) as nat);
    }
}

} // verus!
