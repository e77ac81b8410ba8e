//! What can be played, and where the sound files are.

use crate::text::same_text;
use vstd::prelude::*;

verus! {

/// A sound to be played.
#[derive(Clone, Copy, PartialEq, Eq, Structural, Debug)]
pub enum AudioEvent {
    Bell,
    FireAlarm,
}

/// The paths of the sound files.
pub struct Audio {
    pub bell_path: String,
    pub fire_alarm_path: String,
}

impl Audio {
    pub fn new(bell_path: String, fire_alarm_path: String) -> (audio: Audio)
        ensures
            audio.bell_path == bell_path,
            audio.fire_alarm_path == fire_alarm_path,
    {
        Audio { bell_path, fire_alarm_path }
    }
}

/// What is to be done for a sound.
pub struct AudioPlan {
    /// The file to be played.
    pub file: String,
    /// Whether the file is played over and over.
    pub repeat: bool,
    /// Whether the other machine is told to sound the alarm too.
    pub tell_other_machine: bool,
}

impl Audio {
    /// What is to be done for a sound: the bell is played once; the fire
    /// alarm is played over and over and passed on to the other machine.
    pub fn plan(&self, event: AudioEvent) -> (plan: AudioPlan)
        ensures
            plan.file@ == (if event == AudioEvent::Bell {
                self.bell_path@
            } else {
                self.fire_alarm_path@
            }),
            plan.repeat == (event == AudioEvent::FireAlarm),
            plan.tell_other_machine == (event == AudioEvent::FireAlarm),
    {
        match event {
            AudioEvent::Bell => AudioPlan {
                file: self.bell_path.clone(),
                repeat: false,
                tell_other_machine: false,
            },
            AudioEvent::FireAlarm => AudioPlan {
                file: self.fire_alarm_path.clone(),
                repeat: true,
                tell_other_machine: true,
            },
        }
    }
}

/// Whether a file is played at all: the null device stands for no sound.
pub fn is_played(file: &str) -> (played: bool)
    ensures
        played == (file@ != "/dev/null"@),
{
    !same_text(file, "/dev/null")
}

} // verus!
