//! One tick of the background task: a pending command is applied, the matrix
//! is polled, what it found is acted on, and the sequence of code buttons is
//! judged. The task itself, with its queues and its clock, lives outside;
//! here is what it decides.

use crate::audio::AudioEvent;
use crate::bus::{
    Board, BusError, BusWrite, Ports, BUTTON_BELL, TASTER_AUSSEN, TASTER_GLOCKE, TASTER_INNEN,
};
use crate::buttons::{Buttons, ButtonsView, CommandToButtons, LightsOutcome, StateChange};
use crate::clock::{local_time_of_day, local_timestamp};
use crate::nextcloud::NextcloudChat;
use crate::validator::{judge, Validation, Validator, Verdict};
use vstd::prelude::*;

verus! {

/// The time of day from which the bell may ring: 07:00, in seconds since
/// midnight.
pub const BELL_OPENS: u32 = 25_200;

/// The time of day until which the bell may ring: 21:00, in seconds since
/// midnight.
pub const BELL_CLOSES: u32 = 75_600;

/// Seconds in a day.
pub const SECONDS_PER_DAY: u32 = 86_400;

/// What the task knows of the time: the local time of day in seconds since
/// midnight, the time as a timestamp, and when the sun rises and sets today.
#[derive(Clone, Copy, PartialEq, Eq, Structural, Debug)]
pub struct Clock {
    pub time: u32,
    pub now: i64,
    pub sunrise: i64,
    pub sunset: i64,
}

/// Whether the bell may ring at a time of day, in seconds since midnight:
/// from 07:00 to 21:00, both included, and not a second later.
pub open spec fn spec_rings_at(time: u32) -> bool {
    BELL_OPENS <= time <= BELL_CLOSES
}

/// Whether the bell may ring at a time of day, in seconds since midnight.
#[verifier::when_used_as_spec(spec_rings_at)]
pub fn rings_at(time: u32) -> (allowed: bool)
    ensures
        allowed == spec_rings_at(time),
{
    BELL_OPENS <= time && time <= BELL_CLOSES
}

impl Clock {
    /// Whether the bell may ring at this time of day.
    pub open spec fn spec_bell_allowed(self) -> bool {
        spec_rings_at(self.time)
    }

    /// Whether it is dark: before sunrise or after sunset.
    pub open spec fn spec_dark(self) -> bool {
        self.now < self.sunrise || self.now > self.sunset
    }

    /// Whether the bell may ring at this time of day.
    #[verifier::when_used_as_spec(spec_bell_allowed)]
    pub fn bell_allowed(self) -> (allowed: bool)
        ensures
            allowed == self.spec_bell_allowed(),
    {
        rings_at(self.time)
    }

    /// Whether it is dark: before sunrise or after sunset.
    #[verifier::when_used_as_spec(spec_dark)]
    pub fn dark(self) -> (dark: bool)
        ensures
            dark == self.spec_dark(),
    {
        self.now < self.sunrise || self.now > self.sunset
    }
}

/// A button was reported as pressed for which no action is wired.
#[derive(Clone, Copy, PartialEq, Eq, Structural, Debug)]
pub struct LogicError {
    pub code: u8,
}

/// Something to tell the people who look after the house.
#[derive(Debug, PartialEq)]
pub enum Notice {
    /// A command switched the lights; the note came with the command.
    CommandLights(LightsOutcome, String),
    /// The bell button was pressed and the bell rings.
    BellButton,
    /// The bell button was pressed outside the hours of the bell, at this
    /// time of day.
    BellButtonSilent(u32),
    /// The switch inside was pressed.
    SwitchInside(LightsOutcome),
    /// The light button was pressed.
    LightButton(LightsOutcome),
    /// The bell switch outside was pressed and the bell rings.
    BellSwitch,
    /// The bell switch outside was pressed outside the hours of the bell,
    /// at this time of day.
    BellSwitchSilent(u32),
    /// The light went off.
    LightsOff,
    /// A board could not be read and both were set up anew.
    BusFault(Board),
    /// The door was opened for this user.
    OpenedFor(String),
    /// The lights were switched for the user who came in.
    EntryLights(LightsOutcome),
    /// The lights were left alone for the user who came in, as it is day.
    Daytime(i64, i64, i64),
    /// A sequence was given up on.
    Timeout(Vec<u8>),
    /// A sequence grew too long.
    SequenceTooLong(Vec<u8>),
}

/// A `Notice` as a mathematical value.
pub enum NoticeView {
    CommandLights(LightsOutcome, Seq<char>),
    BellButton,
    BellButtonSilent(u32),
    SwitchInside(LightsOutcome),
    LightButton(LightsOutcome),
    BellSwitch,
    BellSwitchSilent(u32),
    LightsOff,
    BusFault(Board),
    OpenedFor(Seq<char>),
    EntryLights(LightsOutcome),
    Daytime(i64, i64, i64),
    Timeout(Seq<u8>),
    SequenceTooLong(Seq<u8>),
}

impl View for Notice {
    type V = NoticeView;

    open spec fn view(&self) -> NoticeView {
        match self {
            Notice::CommandLights(outcome, note) => NoticeView::CommandLights(*outcome, note@),
            Notice::BellButton => NoticeView::BellButton,
            Notice::BellButtonSilent(time) => NoticeView::BellButtonSilent(*time),
            Notice::SwitchInside(outcome) => NoticeView::SwitchInside(*outcome),
            Notice::LightButton(outcome) => NoticeView::LightButton(*outcome),
            Notice::BellSwitch => NoticeView::BellSwitch,
            Notice::BellSwitchSilent(time) => NoticeView::BellSwitchSilent(*time),
            Notice::LightsOff => NoticeView::LightsOff,
            Notice::BusFault(board) => NoticeView::BusFault(*board),
            Notice::OpenedFor(user) => NoticeView::OpenedFor(user@),
            Notice::EntryLights(outcome) => NoticeView::EntryLights(*outcome),
            Notice::Daytime(now, sunrise, sunset) => NoticeView::Daytime(*now, *sunrise, *sunset),
            Notice::Timeout(sequence) => NoticeView::Timeout(sequence@),
            Notice::SequenceTooLong(sequence) => NoticeView::SequenceTooLong(sequence@),
        }
    }
}

impl NoticeView {
    /// The conversation that a notice belongs to: what the lights do goes to
    /// the one for lights, trouble with the bus to the one that is watched,
    /// everything else to the general one.
    pub open spec fn chat(self) -> NextcloudChat {
        match self {
            NoticeView::CommandLights(_, _) => NextcloudChat::Licht,
            NoticeView::SwitchInside(_) => NextcloudChat::Licht,
            NoticeView::LightButton(_) => NextcloudChat::Licht,
            NoticeView::LightsOff => NextcloudChat::Licht,
            NoticeView::EntryLights(_) => NextcloudChat::Licht,
            NoticeView::Daytime(_, _, _) => NextcloudChat::Licht,
            NoticeView::BusFault(_) => NextcloudChat::Ping,
            _ => NextcloudChat::Default,
        }
    }
}

impl Notice {
    /// The conversation that the notice belongs to.
    pub fn chat(&self) -> (chat: NextcloudChat)
        ensures
            chat == self@.chat(),
    {
        match self {
            Notice::CommandLights(_, _) => NextcloudChat::Licht,
            Notice::SwitchInside(_) => NextcloudChat::Licht,
            Notice::LightButton(_) => NextcloudChat::Licht,
            Notice::LightsOff => NextcloudChat::Licht,
            Notice::EntryLights(_) => NextcloudChat::Licht,
            Notice::Daytime(_, _, _) => NextcloudChat::Licht,
            Notice::BusFault(_) => NextcloudChat::Ping,
            _ => NextcloudChat::Default,
        }
    }
}

/// Something the task is to do, having decided it.
#[derive(Debug, PartialEq)]
pub enum Effect {
    /// Write a byte to a board.
    Bus(BusWrite),
    /// Have a sound played.
    Audio(AudioEvent),
    /// Send a notice.
    Notify(Notice),
}

/// An `Effect` as a mathematical value.
pub enum EffectView {
    Bus(BusWrite),
    Audio(AudioEvent),
    Notify(NoticeView),
}

impl View for Effect {
    type V = EffectView;

    open spec fn view(&self) -> EffectView {
        match self {
            Effect::Bus(write) => EffectView::Bus(*write),
            Effect::Audio(event) => EffectView::Audio(*event),
            Effect::Notify(notice) => EffectView::Notify(notice@),
        }
    }
}

/// A list of effects as a mathematical value.
pub open spec fn views(effects: Seq<Effect>) -> Seq<EffectView> {
    effects.map_values(|effect: Effect| effect@)
}

/// Bus writes as effects.
pub open spec fn bus(writes: Seq<BusWrite>) -> Seq<EffectView> {
    writes.map_values(|write: BusWrite| EffectView::Bus(write))
}

/// A notice as a list of one effect.
pub open spec fn notify(notice: NoticeView) -> Seq<EffectView> {
    seq![EffectView::Notify(notice)]
}

/// The matrix at some point of a tick, and the effects decided since the
/// point before.
pub struct Stage {
    pub buttons: ButtonsView,
    pub effects: Seq<EffectView>,
}

/// The outcome of acting on what a poll found.
pub struct Reaction {
    pub buttons: ButtonsView,
    pub effects: Seq<EffectView>,
    pub fault: Option<LogicError>,
}

/// The outcome of a tick.
pub struct Ticked {
    pub buttons: ButtonsView,
    pub timeout: nat,
    pub effects: Seq<EffectView>,
    pub fault: Option<LogicError>,
}

/// The effects of ringing the bell: the relay goes on if the bell is enabled.
pub open spec fn ring_effects(buttons: ButtonsView) -> Seq<EffectView> {
    if buttons.bell_enable {
        bus(seq![crate::bus::spec_relays_on(Board::Board21, crate::bus::RELAY_BELL)])
    } else {
        Seq::empty()
    }
}

/// The effects of switching the lights, before the notice.
pub open spec fn lights_effects(buttons: ButtonsView, inside: bool, outside: bool, permanent: bool) -> Seq<
    EffectView,
> {
    bus(crate::bus::maybe(buttons.lights_write(inside, outside, permanent)))
}

/// Whether a command can be applied to the matrix: a bell that is enabled
/// can be programmed as asked, and the lights can be switched as asked.
pub open spec fn accepts(buttons: ButtonsView, command: Option<CommandToButtons>) -> bool {
    match command {
        Some(CommandToButtons::RingBell(period, counter)) => buttons.bell_enable ==> ButtonsView::can_ring(
            period as nat,
            counter as nat,
        ),
        Some(CommandToButtons::RingBellAlarm(period)) => ButtonsView::can_ring(period as nat, 0),
        Some(CommandToButtons::SwitchLights(inside, outside, permanent, _)) => buttons.can_switch(
            inside,
            outside,
            permanent,
        ),
        _ => true,
    }
}

/// First step of a tick: the pending command, if there is one, is applied.
pub open spec fn commanded(buttons: ButtonsView, command: Option<CommandToButtons>) -> Stage {
    match command {
        None => Stage { buttons, effects: Seq::empty() },
        Some(CommandToButtons::OpenDoor) => Stage {
            buttons: buttons.open_door(),
            effects: bus(seq![crate::bus::spec_relays_on(Board::Board20, crate::bus::RELAY_DOOR)]),
        },
        Some(CommandToButtons::RingBell(period, counter)) => Stage {
            buttons: buttons.ring_bell(period as nat, counter as nat),
            effects: ring_effects(buttons),
        },
        Some(CommandToButtons::RingBellAlarm(period)) => Stage {
            buttons: buttons.ring_bell_alarm(period as nat),
            effects: bus(seq![crate::bus::spec_relays_on(Board::Board21, crate::bus::RELAY_BELL)]),
        },
        Some(CommandToButtons::SwitchLights(inside, outside, permanent, note)) => Stage {
            buttons: buttons.switch_lights(inside, outside, permanent),
            effects: lights_effects(buttons, inside, outside, permanent) + notify(
                NoticeView::CommandLights(buttons.lights_outcome(inside, outside, permanent), note@),
            ),
        },
    }
}

/// Whether an action is wired to a button of the second board.
pub open spec fn is_wired(code: u8) -> bool {
    code == BUTTON_BELL || code == TASTER_INNEN || code == TASTER_AUSSEN || code == TASTER_GLOCKE
}

/// A press of a bell button: from 07:00 to 21:00 the bell rings with the
/// given period, five times after the first; at any other time of day the
/// press is shown as a wrong input.
pub open spec fn bell_pressed(
    buttons: ButtonsView,
    time: u32,
    period: nat,
    sound: bool,
    rang: NoticeView,
    silent: NoticeView,
) -> Reaction {
    if spec_rings_at(time) {
        Reaction {
            buttons: buttons.ring_bell(period, 5),
            effects: ring_effects(buttons) + (if sound {
                seq![EffectView::Audio(AudioEvent::Bell)]
            } else {
                Seq::empty()
            }) + notify(rang),
            fault: None,
        }
    } else {
        Reaction { buttons: buttons.show_wrong_input(), effects: notify(silent), fault: None }
    }
}

/// Third step of a tick: what the poll found is acted on. A pressed button
/// does what is wired to it; a button that is not wired is a fault. The end
/// of the light and a fault of the bus are told.
pub open spec fn reacted(buttons: ButtonsView, change: Result<StateChange, BusError>, time: u32) -> Reaction {
    match change {
        Ok(StateChange::Pressed(code)) => if code == BUTTON_BELL {
            bell_pressed(buttons, time, 2, true, NoticeView::BellButton, NoticeView::BellButtonSilent(time))
        } else if code == TASTER_INNEN {
            Reaction {
                buttons: buttons.switch_lights(true, true, true),
                effects: lights_effects(buttons, true, true, true) + notify(
                    NoticeView::SwitchInside(buttons.lights_outcome(true, true, true)),
                ),
                fault: None,
            }
        } else if code == TASTER_AUSSEN {
            Reaction {
                buttons: buttons.switch_lights(false, true, false),
                effects: lights_effects(buttons, false, true, false) + notify(
                    NoticeView::LightButton(buttons.lights_outcome(false, true, false)),
                ),
                fault: None,
            }
        } else if code == TASTER_GLOCKE {
            bell_pressed(buttons, time, 5, false, NoticeView::BellSwitch, NoticeView::BellSwitchSilent(time))
        } else {
            Reaction { buttons, effects: Seq::empty(), fault: Some(LogicError { code }) }
        },
        Ok(StateChange::LightsOff) => Reaction {
            buttons,
            effects: notify(NoticeView::LightsOff),
            fault: None,
        },
        Ok(_) => Reaction { buttons, effects: Seq::empty(), fault: None },
        Err(error) => Reaction {
            buttons,
            effects: notify(NoticeView::BusFault(error.board)),
            fault: None,
        },
    }
}

/// The reading of an idle matrix that now and then shows up as a sequence
/// of its own; giving up on it is not worth a penalty.
pub open spec fn is_noise(sequence: Seq<u8>) -> bool {
    sequence == seq![0u8, 15u8]
}

/// The penalty for a sequence that came to nothing: the wrong input is
/// shown, the bell gives one long ring, and the sequence is told.
pub open spec fn penalty(buttons: ButtonsView, notice: NoticeView) -> Stage {
    Stage {
        buttons: buttons.show_wrong_input().ring_bell(20, 0),
        effects: ring_effects(buttons) + notify(notice),
    }
}

/// Fourth step of a tick: what a verdict on the sequence leads to. For a
/// user the door is opened. A sequence that was given up on or grew too long
/// costs the penalty, unless it was but noise that was given up on.
pub open spec fn sentenced(buttons: ButtonsView, verdict: Verdict, sequence: Seq<u8>) -> Stage {
    match verdict {
        Verdict::Validated(user) => Stage {
            buttons: buttons.open_door(),
            effects: bus(seq![crate::bus::spec_relays_on(Board::Board20, crate::bus::RELAY_DOOR)]) + notify(
                NoticeView::OpenedFor(user),
            ),
        },
        Verdict::Timeout => if is_noise(sequence) {
            Stage { buttons, effects: Seq::empty() }
        } else {
            penalty(buttons, NoticeView::Timeout(sequence))
        },
        Verdict::SequenceTooLong => penalty(buttons, NoticeView::SequenceTooLong(sequence)),
        Verdict::Nothing => Stage { buttons, effects: Seq::empty() },
    }
}

/// Last step of a tick in which the door was opened for a user: both lights
/// are switched if it is dark; by day they are left alone, and that is
/// told.
pub open spec fn entered(buttons: ButtonsView, clock: Clock) -> Stage {
    if clock.spec_dark() {
        Stage {
            buttons: buttons.switch_lights(true, true, false),
            effects: lights_effects(buttons, true, true, false) + notify(
                NoticeView::EntryLights(buttons.lights_outcome(true, true, false)),
            ),
        }
    } else {
        Stage { buttons, effects: notify(NoticeView::Daytime(clock.now, clock.sunrise, clock.sunset)) }
    }
}

/// The outcome of a tick up to the door.
pub struct Arrived {
    pub buttons: ButtonsView,
    pub timeout: nat,
    pub effects: Seq<EffectView>,
    pub fault: Option<LogicError>,
    /// Whether the door was opened for a user.
    pub opened: bool,
}

/// A tick up to the door: command, poll, reaction, verdict. A fault ends the
/// tick before the sequence is judged.
pub open spec fn arrived(
    buttons: ButtonsView,
    users: Map<Seq<u8>, Seq<char>>,
    timeout: nat,
    command: Option<CommandToButtons>,
    input: Result<Ports, Board>,
    time: u32,
) -> Arrived {
    let told = commanded(buttons, command);
    let polled = told.buttons.poll(input);
    let acted = reacted(polled.state, polled.change, time);
    let so_far = told.effects + bus(polled.writes) + acted.effects;
    if acted.fault is Some {
        Arrived { buttons: acted.buttons, timeout, effects: so_far, fault: acted.fault, opened: false }
    } else {
        let judgement = judge(users, timeout, acted.buttons.sequence);
        let done = sentenced(
            ButtonsView { sequence: judgement.sequence, ..acted.buttons },
            judgement.verdict,
            acted.buttons.sequence,
        );
        Arrived {
            buttons: done.buttons,
            timeout: judgement.timeout,
            effects: so_far + done.effects,
            fault: None,
            opened: judgement.verdict is Validated,
        }
    }
}

/// One tick: up to the door, and through it if it was opened.
pub open spec fn tick(
    buttons: ButtonsView,
    users: Map<Seq<u8>, Seq<char>>,
    timeout: nat,
    command: Option<CommandToButtons>,
    input: Result<Ports, Board>,
    clock: Clock,
) -> Ticked {
    let at_door = arrived(buttons, users, timeout, command, input, clock.time);
    if at_door.opened {
        let inside = entered(at_door.buttons, clock);
        Ticked {
            buttons: inside.buttons,
            timeout: at_door.timeout,
            effects: at_door.effects + inside.effects,
            fault: None,
        }
    } else {
        Ticked {
            buttons: at_door.buttons,
            timeout: at_door.timeout,
            effects: at_door.effects,
            fault: at_door.fault,
        }
    }
}

/// A command is applied before the poll: a tick with a command is the tick
/// without one on the matrix that the command left, with the effects of the
/// command in front.
pub proof fn lemma_command_comes_first(
    buttons: ButtonsView,
    users: Map<Seq<u8>, Seq<char>>,
    timeout: nat,
    command: Option<CommandToButtons>,
    input: Result<Ports, Board>,
    time: u32,
)
    ensures
        ({
            let told = commanded(buttons, command);
            let with = arrived(buttons, users, timeout, command, input, time);
            let without = arrived(told.buttons, users, timeout, None, input, time);
            &&& with.buttons == without.buttons
            &&& with.timeout == without.timeout
            &&& with.effects == told.effects + without.effects
            &&& with.fault == without.fault
            &&& with.opened == without.opened
        }),
{
    let told = commanded(buttons, command);
    let with = arrived(buttons, users, timeout, command, input, time);
    let without = arrived(told.buttons, users, timeout, None, input, time);
    assert(with.effects =~= told.effects + without.effects);
}

/// The bell keeps its hours: a press of the bell button before 07:00 or
/// after 21:00 rings nothing and is shown as a wrong input; from 07:00 to
/// 21:00 it rings the bell.
pub proof fn lemma_bell_keeps_its_hours(buttons: ButtonsView, time: u32)
    ensures
        !(BELL_OPENS <= time <= BELL_CLOSES) ==> reacted(buttons, Ok(StateChange::Pressed(BUTTON_BELL)), time)
            == (Reaction {
            buttons: buttons.show_wrong_input(),
            effects: notify(NoticeView::BellButtonSilent(time)),
            fault: None,
        }),
        BELL_OPENS <= time <= BELL_CLOSES ==> reacted(
            buttons,
            Ok(StateChange::Pressed(BUTTON_BELL)),
            time,
        ).buttons == buttons.ring_bell(2, 5),
{
}

/// What a tick hands back: the effects in the order in which they were
/// decided, and the fault that ended the tick, if one did.
pub struct Tick {
    pub effects: Vec<Effect>,
    pub fault: Option<LogicError>,
}

/// What a tick up to the door hands back: the effects in the order in which
/// they were decided, the fault that ended it, if one did, and whether the
/// door was opened for a user.
pub struct Arrival {
    pub effects: Vec<Effect>,
    pub fault: Option<LogicError>,
    pub opened: bool,
}

fn emit(effects: &mut Vec<Effect>, effect: Effect)
    ensures
        views(final(effects)@) == views(old(effects)@) + seq![effect@],
{
    effects.push(effect);
    assert(views(effects@) =~= views(old(effects)@) + seq![effect@]);
}

fn emit_write(effects: &mut Vec<Effect>, write: Option<BusWrite>)
    ensures
        views(final(effects)@) == views(old(effects)@) + bus(crate::bus::maybe(write)),
{
    match write {
        Some(w) => {
            emit(effects, Effect::Bus(w));
            assert(views(effects@) =~= views(old(effects)@) + bus(crate::bus::maybe(write)));
        },
        None => {
            assert(views(effects@) =~= views(old(effects)@) + bus(crate::bus::maybe(write)));
        },
    }
}

fn emit_writes(effects: &mut Vec<Effect>, writes: &Vec<BusWrite>)
    ensures
        views(final(effects)@) == views(old(effects)@) + bus(writes@),
{
    let mut i: usize = 0;
    assert(views(effects@) =~= views(old(effects)@) + bus(writes@.take(0)));
    while i < writes.len()
        invariant
            i <= writes.len(),
            views(effects@) == views(old(effects)@) + bus(writes@.take(i as int)),
        decreases writes.len() - i,
    {
        let ghost before = views(effects@);
        emit(effects, Effect::Bus(writes[i]));
        i = i + 1;
        assert(views(effects@) =~= views(old(effects)@) + bus(writes@.take(i as int))) by {
            assert(writes@.take(i as int) =~= writes@.take(i - 1).push(writes@[i - 1]));
        }
    }
    assert(writes@.take(i as int) =~= writes@);
}

fn emit_notice(effects: &mut Vec<Effect>, notice: Notice)
    ensures
        views(final(effects)@) == views(old(effects)@) + notify(notice@),
{
    emit(effects, Effect::Notify(notice));
}

/// A copy of a sequence of codes.
fn copy_codes(codes: &Vec<u8>) -> (copy: Vec<u8>)
    ensures
        copy@ == codes@,
{
    let mut copy: Vec<u8> = Vec::new();
    let mut i: usize = 0;
    while i < codes.len()
        invariant
            i <= codes.len(),
            copy@ == codes@.take(i as int),
        decreases codes.len() - i,
    {
        copy.push(codes[i]);
        i = i + 1;
        assert(copy@ =~= codes@.take(i as int));
    }
    assert(codes@.take(i as int) =~= codes@);
    copy
}

/// Whether the sequence is the reading of an idle matrix that is let off.
fn noise(sequence: &Vec<u8>) -> (is: bool)
    ensures
        is == is_noise(sequence@),
{
    let is = sequence.len() == 2 && sequence[0] == 0 && sequence[1] == 15;
    assert(is ==> sequence@ =~= seq![0u8, 15u8]);
    is
}

impl Buttons {
    /// Whether the command can be applied as the matrix stands.
    pub fn accepts(&self, command: &Option<CommandToButtons>) -> (ok: bool)
        requires
            self@.wf(),
        ensures
            ok == accepts(self@, *command),
    {
        match command {
            Some(CommandToButtons::RingBell(period, counter)) => !self.bell_enable || Buttons::can_ring(
                *period,
                *counter,
            ),
            Some(CommandToButtons::RingBellAlarm(period)) => Buttons::can_ring(*period, 0),
            Some(CommandToButtons::SwitchLights(inside, outside, permanent, _)) => self.can_switch(
                *inside,
                *outside,
                *permanent,
            ),
            _ => true,
        }
    }

    fn ring(&mut self, period: u32, counter: u32, effects: &mut Vec<Effect>)
        requires
            old(self)@.wf(),
            old(self).bell_enable ==> ButtonsView::can_ring(period as nat, counter as nat),
        ensures
            final(self)@ == old(self)@.ring_bell(period as nat, counter as nat),
            final(self)@.wf(),
            views(final(effects)@) == views(old(effects)@) + ring_effects(old(self)@),
    {
        let write = self.ring_bell(period, counter);
        emit_write(effects, write);
        assert(bus(crate::bus::maybe(write)) =~= ring_effects(old(self)@));
    }

    fn lights(&mut self, inside: bool, outside: bool, permanent: bool, effects: &mut Vec<Effect>) -> (outcome:
        LightsOutcome)
        requires
            old(self)@.wf(),
            old(self)@.can_switch(inside, outside, permanent),
        ensures
            final(self)@ == old(self)@.switch_lights(inside, outside, permanent),
            final(self)@.wf(),
            outcome == old(self)@.lights_outcome(inside, outside, permanent),
            views(final(effects)@) == views(old(effects)@) + lights_effects(
                old(self)@,
                inside,
                outside,
                permanent,
            ),
    {
        let done = self.switch_lights(inside, outside, permanent);
        emit_write(effects, done.1);
        done.0
    }

    fn door(&mut self, effects: &mut Vec<Effect>)
        requires
            old(self)@.wf(),
        ensures
            final(self)@ == old(self)@.open_door(),
            final(self)@.wf(),
            views(final(effects)@) == views(old(effects)@) + bus(
                seq![crate::bus::spec_relays_on(Board::Board20, crate::bus::RELAY_DOOR)],
            ),
    {
        let write = self.open_door();
        emit(effects, Effect::Bus(write));
        assert(seq![EffectView::Bus(write)] =~= bus(seq![write]));
    }

    /// The pending command, if there is one, is applied.
    fn apply(&mut self, command: Option<CommandToButtons>, effects: &mut Vec<Effect>)
        requires
            old(self)@.wf(),
            accepts(old(self)@, command),
        ensures
            final(self)@ == commanded(old(self)@, command).buttons,
            final(self)@.wf(),
            views(final(effects)@) == views(old(effects)@) + commanded(old(self)@, command).effects,
    {
        match command {
            None => {
                assert(views(effects@) =~= views(old(effects)@) + Seq::<EffectView>::empty());
            },
            Some(CommandToButtons::OpenDoor) => {
                self.door(effects);
            },
            Some(CommandToButtons::RingBell(period, counter)) => {
                self.ring(period, counter, effects);
            },
            Some(CommandToButtons::RingBellAlarm(period)) => {
                let write = self.ring_bell_alarm(period);
                emit(effects, Effect::Bus(write));
                assert(seq![EffectView::Bus(write)] =~= bus(seq![write]));
            },
            Some(CommandToButtons::SwitchLights(inside, outside, permanent, note)) => {
                let outcome = self.lights(inside, outside, permanent, effects);
                emit_notice(effects, Notice::CommandLights(outcome, note));
                assert(views(effects@) =~= views(old(effects)@) + commanded(old(self)@, command).effects);
            },
        }
    }

    fn press_bell(&mut self, time: u32, period: u32, sound: bool, rang: Notice, silent: Notice, effects: &mut Vec<
        Effect,
    >)
        requires
            old(self)@.wf(),
            ButtonsView::can_ring(period as nat, 5),
        ensures
            final(self)@ == bell_pressed(old(self)@, time, period as nat, sound, rang@, silent@).buttons,
            final(self)@.wf(),
            views(final(effects)@) == views(old(effects)@) + bell_pressed(
                old(self)@,
                time,
                period as nat,
                sound,
                rang@,
                silent@,
            ).effects,
    {
        if rings_at(time) {
            self.ring(period, 5, effects);
            if sound {
                emit(effects, Effect::Audio(AudioEvent::Bell));
            }
            emit_notice(effects, rang);
        } else {
            self.show_wrong_input();
            emit_notice(effects, silent);
        }
        assert(views(effects@) =~= views(old(effects)@) + bell_pressed(
            old(self)@,
            time,
            period as nat,
            sound,
            rang@,
            silent@,
        ).effects);
    }

    /// What the poll found is acted on.
    fn react(&mut self, change: Result<StateChange, BusError>, time: u32, effects: &mut Vec<Effect>) -> (fault:
        Option<LogicError>)
        requires
            old(self)@.wf(),
        ensures
            final(self)@ == reacted(old(self)@, change, time).buttons,
            final(self)@.wf(),
            fault == reacted(old(self)@, change, time).fault,
            views(final(effects)@) == views(old(effects)@) + reacted(old(self)@, change, time).effects,
    {
        let mut fault: Option<LogicError> = None;
        match change {
            Ok(StateChange::Pressed(code)) => {
                if code == BUTTON_BELL {
                    self.press_bell(time, 2, true, Notice::BellButton, Notice::BellButtonSilent(time), effects);
                } else if code == TASTER_INNEN {
                    let outcome = self.lights(true, true, true, effects);
                    emit_notice(effects, Notice::SwitchInside(outcome));
                } else if code == TASTER_AUSSEN {
                    let outcome = self.lights(false, true, false, effects);
                    emit_notice(effects, Notice::LightButton(outcome));
                } else if code == TASTER_GLOCKE {
                    self.press_bell(time, 5, false, Notice::BellSwitch, Notice::BellSwitchSilent(time), effects);
                } else {
                    fault = Some(LogicError { code });
                }
            },
            Ok(StateChange::LightsOff) => {
                emit_notice(effects, Notice::LightsOff);
            },
            Ok(_) => {},
            Err(error) => {
                emit_notice(effects, Notice::BusFault(error.board));
            },
        }
        assert(views(effects@) =~= views(old(effects)@) + reacted(old(self)@, change, time).effects);
        fault
    }

    fn punish(&mut self, notice: Notice, effects: &mut Vec<Effect>)
        requires
            old(self)@.wf(),
        ensures
            final(self)@ == penalty(old(self)@, notice@).buttons,
            final(self)@.wf(),
            views(final(effects)@) == views(old(effects)@) + penalty(old(self)@, notice@).effects,
    {
        self.show_wrong_input();
        self.ring(20, 0, effects);
        emit_notice(effects, notice);
        assert(views(effects@) =~= views(old(effects)@) + penalty(old(self)@, notice@).effects);
    }

    /// What the verdict on the sequence leads to.
    fn sentence(&mut self, verdict: Validation, sequence: Vec<u8>, effects: &mut Vec<Effect>)
        requires
            old(self)@.wf(),
        ensures
            final(self)@ == sentenced(old(self)@, verdict@, sequence@).buttons,
            final(self)@.wf(),
            views(final(effects)@) == views(old(effects)@) + sentenced(old(self)@, verdict@, sequence@).effects,
    {
        match verdict {
            Validation::Validated(user) => {
                self.door(effects);
                emit_notice(effects, Notice::OpenedFor(user));
            },
            Validation::Timeout => {
                if !noise(&sequence) {
                    self.punish(Notice::Timeout(sequence), effects);
                }
            },
            Validation::SequenceTooLong => {
                self.punish(Notice::SequenceTooLong(sequence), effects);
            },
            Validation::Nothing => {},
        }
        assert(views(effects@) =~= views(old(effects)@) + sentenced(old(self)@, verdict@, sequence@).effects);
    }

    /// The lights after the door was opened for a user.
    fn light_entry(&mut self, clock: Clock, effects: &mut Vec<Effect>)
        requires
            old(self)@.wf(),
        ensures
            final(self)@ == entered(old(self)@, clock).buttons,
            final(self)@.wf(),
            views(final(effects)@) == views(old(effects)@) + entered(old(self)@, clock).effects,
    {
        if clock.dark() {
            let outcome = self.lights(true, true, false, effects);
            emit_notice(effects, Notice::EntryLights(outcome));
        } else {
            emit_notice(effects, Notice::Daytime(clock.now, clock.sunrise, clock.sunset));
        }
        assert(views(effects@) =~= views(old(effects)@) + entered(old(self)@, clock).effects);
    }

    /// Applies a command, if there is one, and hands out what is to be done
    /// for it. This is the first step of a tick, for a task that carries
    /// the command out before it reads the boards.
    pub fn command(&mut self, command: Option<CommandToButtons>) -> (effects: Vec<Effect>)
        requires
            old(self)@.wf(),
            accepts(old(self)@, command),
        ensures
            final(self)@ == commanded(old(self)@, command).buttons,
            final(self)@.wf(),
            views(effects@) == commanded(old(self)@, command).effects,
    {
        let mut effects: Vec<Effect> = Vec::new();
        assert(views(effects@) =~= Seq::<EffectView>::empty());
        self.apply(command, &mut effects);
        assert(views(effects@) =~= commanded(old(self)@, command).effects);
        effects
    }

    /// Takes note of a write to a board that failed: the failure counts as
    /// a failed reading of that board does, so that after too many in a row
    /// both boards are set up anew and the failure is told.
    pub fn write_failed(&mut self, board: Board) -> (effects: Vec<Effect>)
        requires
            old(self)@.wf(),
        ensures
            final(self)@ == old(self)@.poll(Err(board)).state,
            final(self)@.wf(),
            views(effects@) == bus(old(self)@.poll(Err(board)).writes) + reacted(
                old(self)@.poll(Err(board)).state,
                old(self)@.poll(Err(board)).change,
                0,
            ).effects,
    {
        let mut effects: Vec<Effect> = Vec::new();
        assert(views(effects@) =~= Seq::<EffectView>::empty());
        let polled = self.handle(Err(board));
        emit_writes(&mut effects, &polled.writes);
        let fault = self.react(polled.change, 0, &mut effects);
        assert(views(effects@) =~= bus(old(self)@.poll(Err(board)).writes) + reacted(
            old(self)@.poll(Err(board)).state,
            old(self)@.poll(Err(board)).change,
            0,
        ).effects);
        effects
    }

    /// One tick of the task up to the door, at a given time of day in
    /// seconds since midnight: the pending command is applied, the matrix is
    /// polled with what was read, what it found is acted on, and the
    /// sequence is judged. The effects are to be carried out in their order;
    /// a fault says that the task cannot go on. Where the door was opened
    /// for a user, `enter_at` is to follow.
    pub fn arrive_at(
        &mut self,
        validator: &mut Validator,
        command: Option<CommandToButtons>,
        input: Result<Ports, Board>,
        time: u32,
    ) -> (out: Arrival)
        requires
            old(self)@.wf(),
            accepts(old(self)@, command),
        ensures
            final(self)@ == arrived(
                old(self)@,
                old(validator)@.users,
                old(validator)@.timeout,
                command,
                input,
                time,
            ).buttons,
            final(self)@.wf(),
            final(validator)@.users == old(validator)@.users,
            final(validator)@.timeout == arrived(
                old(self)@,
                old(validator)@.users,
                old(validator)@.timeout,
                command,
                input,
                time,
            ).timeout,
            views(out.effects@) == arrived(
                old(self)@,
                old(validator)@.users,
                old(validator)@.timeout,
                command,
                input,
                time,
            ).effects,
            out.fault == arrived(
                old(self)@,
                old(validator)@.users,
                old(validator)@.timeout,
                command,
                input,
                time,
            ).fault,
            out.opened == arrived(
                old(self)@,
                old(validator)@.users,
                old(validator)@.timeout,
                command,
                input,
                time,
            ).opened,
    {
        let ghost told = commanded(old(self)@, command);
        let ghost polled_model = told.buttons.poll(input);
        let ghost acted = reacted(polled_model.state, polled_model.change, time);
        let mut effects: Vec<Effect> = Vec::new();
        assert(views(effects@) =~= Seq::<EffectView>::empty());
        self.apply(command, &mut effects);
        assert(views(effects@) =~= told.effects);
        let polled = self.handle(input);
        emit_writes(&mut effects, &polled.writes);
        let fault = self.react(polled.change, time, &mut effects);
        assert(views(effects@) =~= told.effects + bus(polled_model.writes) + acted.effects);
        if fault.is_some() {
            return Arrival { effects, fault, opened: false };
        }
        let sequence = copy_codes(&self.sequence);
        let verdict = validator.validate(&mut self.sequence);
        assert(self@ == (ButtonsView {
            sequence: judge(old(validator)@.users, old(validator)@.timeout, acted.buttons.sequence).sequence,
            ..acted.buttons
        }));
        let opened = match verdict {
            Validation::Validated(_) => true,
            _ => false,
        };
        self.sentence(verdict, sequence, &mut effects);
        Arrival { effects, fault: None, opened }
    }

    /// The end of a tick in which the door was opened for a user, at a given
    /// time: the lights are switched if it is dark.
    pub fn enter_at(&mut self, clock: Clock) -> (effects: Vec<Effect>)
        requires
            old(self)@.wf(),
        ensures
            final(self)@ == entered(old(self)@, clock).buttons,
            final(self)@.wf(),
            views(effects@) == entered(old(self)@, clock).effects,
    {
        let mut effects: Vec<Effect> = Vec::new();
        assert(views(effects@) =~= Seq::<EffectView>::empty());
        self.light_entry(clock, &mut effects);
        assert(views(effects@) =~= entered(old(self)@, clock).effects);
        effects
    }

    /// One tick of the task at a given time: up to the door, and through it
    /// if it was opened.
    pub fn tick_at(
        &mut self,
        validator: &mut Validator,
        command: Option<CommandToButtons>,
        input: Result<Ports, Board>,
        clock: Clock,
    ) -> (out: Tick)
        requires
            old(self)@.wf(),
            accepts(old(self)@, command),
        ensures
            final(self)@ == tick(
                old(self)@,
                old(validator)@.users,
                old(validator)@.timeout,
                command,
                input,
                clock,
            ).buttons,
            final(self)@.wf(),
            final(validator)@.users == old(validator)@.users,
            final(validator)@.timeout == tick(
                old(self)@,
                old(validator)@.users,
                old(validator)@.timeout,
                command,
                input,
                clock,
            ).timeout,
            views(out.effects@) == tick(
                old(self)@,
                old(validator)@.users,
                old(validator)@.timeout,
                command,
                input,
                clock,
            ).effects,
            out.fault == tick(
                old(self)@,
                old(validator)@.users,
                old(validator)@.timeout,
                command,
                input,
                clock,
            ).fault,
    {
        let at_door = self.arrive_at(validator, command, input, clock.time);
        let mut effects = at_door.effects;
        if at_door.opened {
            self.light_entry(clock, &mut effects);
            Tick { effects, fault: None }
        } else {
            Tick { effects, fault: at_door.fault }
        }
    }

    /// One tick of the task up to the door, now: as `arrive_at`, with the
    /// time of day taken from the clock of the machine.
    pub fn arrive(
        &mut self,
        validator: &mut Validator,
        command: Option<CommandToButtons>,
        input: Result<Ports, Board>,
    ) -> (out: Arrival)
        requires
            old(self)@.wf(),
            accepts(old(self)@, command),
        ensures
            final(self)@.wf(),
            final(validator)@.users == old(validator)@.users,
            exists|time: u32|
                {
                    &&& time < SECONDS_PER_DAY
                    &&& final(self)@ == (#[trigger] arrived(
                        old(self)@,
                        old(validator)@.users,
                        old(validator)@.timeout,
                        command,
                        input,
                        time,
                    )).buttons
                    &&& final(validator)@.timeout == arrived(
                        old(self)@,
                        old(validator)@.users,
                        old(validator)@.timeout,
                        command,
                        input,
                        time,
                    ).timeout
                    &&& views(out.effects@) == arrived(
                        old(self)@,
                        old(validator)@.users,
                        old(validator)@.timeout,
                        command,
                        input,
                        time,
                    ).effects
                    &&& out.fault == arrived(
                        old(self)@,
                        old(validator)@.users,
                        old(validator)@.timeout,
                        command,
                        input,
                        time,
                    ).fault
                    &&& out.opened == arrived(
                        old(self)@,
                        old(validator)@.users,
                        old(validator)@.timeout,
                        command,
                        input,
                        time,
                    ).opened
                },
    {
        let time = local_time_of_day();
        self.arrive_at(validator, command, input, time)
    }

    /// The end of a tick in which the door was opened for a user, now: as
    /// `enter_at`, with the time taken from the clock of the machine.
    pub fn enter(&mut self, sunrise: i64, sunset: i64) -> (effects: Vec<Effect>)
        requires
            old(self)@.wf(),
        ensures
            final(self)@.wf(),
            exists|clock: Clock|
                {
                    &&& clock.time < SECONDS_PER_DAY
                    &&& clock.sunrise == sunrise
                    &&& clock.sunset == sunset
                    &&& final(self)@ == (#[trigger] entered(old(self)@, clock)).buttons
                    &&& views(effects@) == entered(old(self)@, clock).effects
                },
    {
        let clock = Clock { time: local_time_of_day(), now: local_timestamp(), sunrise, sunset };
        self.enter_at(clock)
    }

    /// One tick of the task, now: as `tick_at`, with the time of day and the time
    /// taken from the clock of the machine.
    pub fn tick(
        &mut self,
        validator: &mut Validator,
        command: Option<CommandToButtons>,
        input: Result<Ports, Board>,
        sunrise: i64,
        sunset: i64,
    ) -> (out: Tick)
        requires
            old(self)@.wf(),
            accepts(old(self)@, command),
        ensures
            final(self)@.wf(),
            final(validator)@.users == old(validator)@.users,
            exists|clock: Clock|
                {
                    &&& clock.time < SECONDS_PER_DAY
                    &&& clock.sunrise == sunrise
                    &&& clock.sunset == sunset
                    &&& final(self)@ == (#[trigger] tick(
                        old(self)@,
                        old(validator)@.users,
                        old(validator)@.timeout,
                        command,
                        input,
                        clock,
                    )).buttons
                    &&& final(validator)@.timeout == tick(
                        old(self)@,
                        old(validator)@.users,
                        old(validator)@.timeout,
                        command,
                        input,
                        clock,
                    ).timeout
                    &&& views(out.effects@) == tick(
                        old(self)@,
                        old(validator)@.users,
                        old(validator)@.timeout,
                        command,
                        input,
                        clock,
                    ).effects
                    &&& out.fault == tick(
                        old(self)@,
                        old(validator)@.users,
                        old(validator)@.timeout,
                        command,
                        input,
                        clock,
                    ).fault
                },
    {
        let clock = Clock { time: local_time_of_day(), now: local_timestamp(), sunrise, sunset };
        self.tick_at(validator, command, input, clock)
    }
}

} // verus!
