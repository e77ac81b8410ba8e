use chrono::Timelike;
use opensesame::audio::AudioEvent;
use opensesame::bus::{
    relays_on, Board, BusWrite, Ports, RELAY_BELL, RELAY_DOOR, RELAY_LICHT_INNEN, SET_PORTS,
};
use opensesame::buttons::{Buttons, CommandToButtons, LightsOutcome, Which};
use opensesame::nextcloud::NextcloudChat;
use opensesame::orchestrator::{rings_at, Clock, Effect, LogicError, Notice};
use opensesame::validator::{User, Validator};

fn read(board20: u8, board21: u8) -> Result<Ports, Board> {
    Ok(Ports { board20, board21 })
}

fn idle() -> Result<Ports, Board> {
    read(0x0F, 0x0F)
}

fn noon() -> Clock {
    Clock { time: 12 * 3600, now: 1_000_000, sunrise: 900_000, sunset: 1_100_000 }
}

fn night() -> Clock {
    Clock { time: 23 * 3600, now: 1_200_000, sunrise: 900_000, sunset: 1_100_000 }
}

fn users() -> Validator {
    Validator::new(vec![User {
        sequence: vec![14, 15, 13, 15, 11, 15, 7, 15],
        name: "1234".to_string(),
    }])
}

fn settled(bell_enable: bool) -> Buttons {
    let (mut buttons, _) = Buttons::new(3, bell_enable);
    buttons.handle(idle());
    buttons
}

fn ports(board: Board, value: u8) -> Effect {
    Effect::Bus(BusWrite { board, register: SET_PORTS, value })
}

#[test]
fn an_idle_tick_decides_nothing() {
    let mut buttons = settled(true);
    let mut validator = users();
    for _ in 0..2000 {
        let out = buttons.tick_at(&mut validator, None, idle(), noon());
        assert!(out.effects.is_empty());
        assert_eq!(out.fault, None);
    }
    assert_eq!(validator.timeout(), 0);
}

#[test]
fn commands_are_applied_before_the_poll() {
    let mut buttons = settled(true);
    let mut validator = users();
    let out = buttons.tick_at(&mut validator, Some(CommandToButtons::OpenDoor), idle(), noon());
    assert_eq!(
        out.effects,
        vec![
            Effect::Bus(relays_on(Board::Board20, RELAY_DOOR)),
            ports(Board::Board21, 0x40),
        ]
    );
    // the poll of the same tick has counted already
    assert_eq!(buttons.door_timeout, 149);

    let out = buttons.tick_at(&mut validator, Some(CommandToButtons::RingBell(5, 5)), idle(), noon());
    assert_eq!(out.effects, vec![Effect::Bus(relays_on(Board::Board21, RELAY_BELL))]);
    assert_eq!(buttons.bell_counter, 11);
    assert_eq!(buttons.bell_timeout_init, 100);
    assert_eq!(buttons.bell_timeout, 99);

    let out = buttons.tick_at(&mut validator, Some(CommandToButtons::RingBellAlarm(10)), idle(), noon());
    assert_eq!(
        out.effects,
        vec![
            Effect::Bus(relays_on(Board::Board21, RELAY_BELL)),
            ports(Board::Board21, 0x60),
        ]
    );
    assert_eq!(buttons.bell_counter, u32::MAX);
}

#[test]
fn a_command_for_light_is_told_with_its_note() {
    let mut buttons = settled(true);
    let mut validator = users();
    let command = CommandToButtons::SwitchLights(true, false, false, "from the garage".to_string());
    assert!(buttons.accepts(&Some(CommandToButtons::OpenDoor)));
    let out = buttons.tick_at(&mut validator, Some(command), idle(), noon());
    assert_eq!(
        out.effects,
        vec![
            Effect::Bus(relays_on(Board::Board21, RELAY_LICHT_INNEN)),
            Effect::Notify(Notice::CommandLights(
                LightsOutcome::TurnedOn(Which::In),
                "from the garage".to_string()
            )),
            ports(Board::Board21, 0x20),
        ]
    );
    assert_eq!(buttons.light_timeout, 298);
}

#[test]
fn accepts_tells_which_commands_can_be_applied() {
    let with_bell = settled(true);
    let without_bell = settled(false);
    assert!(with_bell.accepts(&None));
    assert!(with_bell.accepts(&Some(CommandToButtons::RingBell(20, 0))));
    assert!(!with_bell.accepts(&Some(CommandToButtons::RingBell(0, 0))));
    assert!(without_bell.accepts(&Some(CommandToButtons::RingBell(0, 0))));
    assert!(!without_bell.accepts(&Some(CommandToButtons::RingBellAlarm(0))));
    assert!(with_bell.accepts(&Some(CommandToButtons::RingBellAlarm(20))));
    assert!(with_bell.accepts(&Some(CommandToButtons::SwitchLights(false, true, false, String::new()))));
    assert!(!with_bell.accepts(&Some(CommandToButtons::SwitchLights(false, false, true, String::new()))));
}

#[test]
fn the_bell_button_rings_by_day() {
    let mut buttons = settled(true);
    let mut validator = users();
    let out = buttons.tick_at(&mut validator, None, read(0x0F, 0x0D), noon());
    assert_eq!(
        out.effects,
        vec![
            ports(Board::Board21, 0x40),
            Effect::Bus(relays_on(Board::Board21, RELAY_BELL)),
            Effect::Audio(AudioEvent::Bell),
            Effect::Notify(Notice::BellButton),
        ]
    );
    assert_eq!(out.fault, None);
    assert_eq!(buttons.bell_counter, 11);
    assert_eq!(buttons.bell_timeout_init, 40);
    // held down: nothing more
    let out = buttons.tick_at(&mut validator, None, read(0x0F, 0x0D), noon());
    assert!(out.effects.is_empty());
}

#[test]
fn the_bell_button_is_refused_by_night() {
    let mut buttons = settled(true);
    let mut validator = users();
    let out = buttons.tick_at(&mut validator, None, read(0x0F, 0x0D), night());
    assert_eq!(
        out.effects,
        vec![ports(Board::Board21, 0x40), Effect::Notify(Notice::BellButtonSilent(23 * 3600))]
    );
    assert_eq!(buttons.bell_counter, 0);
    assert_eq!(buttons.wrong_input_timeout, 150);
    assert!(buttons.led1 && buttons.led_light);
}

#[test]
fn the_bell_rings_from_seven_to_twenty_one_o_clock() {
    let day = 24 * 3600u32;
    let mut times: Vec<u32> = (0..day).step_by(60).collect();
    times.extend([7 * 3600 - 1, 7 * 3600 + 1, 21 * 3600 - 1, 21 * 3600 + 1, 21 * 3600 + 59, day - 1]);
    for time in times {
        let allowed = 7 * 3600 <= time && time <= 21 * 3600;
        let clock = Clock { time, now: 0, sunrise: 0, sunset: 0 };
        assert_eq!(clock.bell_allowed(), allowed);
        let mut buttons = settled(true);
        let mut validator = users();
        let out = buttons.tick_at(&mut validator, None, read(0x0F, 0x07), clock);
        if allowed {
            assert_eq!(out.effects.last(), Some(&Effect::Notify(Notice::BellSwitch)));
            assert_eq!(buttons.bell_timeout_init, 100);
            assert_eq!(buttons.bell_counter, 11);
            assert_eq!(buttons.wrong_input_timeout, 0);
        } else {
            assert_eq!(out.effects.last(), Some(&Effect::Notify(Notice::BellSwitchSilent(time))));
            assert_eq!(buttons.bell_counter, 0);
            assert_eq!(buttons.wrong_input_timeout, 150);
        }
    }
}

#[test]
fn the_bell_is_silent_after_twenty_one_o_clock() {
    for (hour, minute) in [(21u32, 1u32), (21, 30), (21, 59), (6, 59)] {
        let clock = Clock { time: hour * 3600 + minute * 60, now: 0, sunrise: 0, sunset: 0 };
        let mut buttons = settled(true);
        let mut validator = users();
        let out = buttons.tick_at(&mut validator, None, read(0x0F, 0x0D), clock);
        assert_eq!(out.effects.last(), Some(&Effect::Notify(Notice::BellButtonSilent(clock.time))));
        assert!(!out.effects.contains(&Effect::Audio(AudioEvent::Bell)));
        assert_eq!(buttons.bell_counter, 0);
        assert_eq!(buttons.wrong_input_timeout, 150);
    }
    for (hour, minute) in [(7u32, 0u32), (20, 59), (21, 0)] {
        let clock = Clock { time: hour * 3600 + minute * 60, now: 0, sunrise: 0, sunset: 0 };
        let mut buttons = settled(true);
        let mut validator = users();
        let out = buttons.tick_at(&mut validator, None, read(0x0F, 0x0D), clock);
        assert_eq!(out.effects.last(), Some(&Effect::Notify(Notice::BellButton)));
        assert!(out.effects.contains(&Effect::Audio(AudioEvent::Bell)));
        assert_eq!(buttons.bell_counter, 11);
    }
}

#[test]
fn the_bell_switch_rings_without_sound() {
    let mut buttons = settled(true);
    let mut validator = users();
    let out = buttons.tick_at(&mut validator, None, read(0x0F, 0x07), noon());
    assert_eq!(
        out.effects,
        vec![
            ports(Board::Board21, 0x00),
            Effect::Bus(relays_on(Board::Board21, RELAY_BELL)),
            Effect::Notify(Notice::BellSwitch),
        ]
    );
}

#[test]
fn the_light_switches_switch_the_lights() {
    let mut buttons = settled(true);
    let mut validator = users();
    let out = buttons.tick_at(&mut validator, None, read(0x0F, 0x0B), noon());
    assert_eq!(
        out.effects,
        vec![
            ports(Board::Board21, 0x00),
            Effect::Bus(relays_on(Board::Board21, RELAY_LICHT_INNEN)),
            Effect::Notify(Notice::SwitchInside(LightsOutcome::TurnedOn(Which::InAndOut))),
        ]
    );
    assert_eq!(buttons.light_timeout, 310);

    let mut buttons = settled(true);
    let out = buttons.tick_at(&mut validator, None, read(0x0F, 0x0E), noon());
    assert_eq!(
        out.effects,
        vec![
            ports(Board::Board21, 0x20),
            Effect::Notify(Notice::LightButton(LightsOutcome::TurnedOn(Which::Out))),
        ]
    );
    // pressed again after release, within the window: the inside switch makes it permanent
    buttons.tick_at(&mut validator, None, idle(), noon());
    let out = buttons.tick_at(&mut validator, None, read(0x0F, 0x0B), noon());
    assert_eq!(
        out.effects,
        vec![
            ports(Board::Board21, 0x20),
            Effect::Bus(relays_on(Board::Board21, RELAY_LICHT_INNEN)),
            Effect::Notify(Notice::SwitchInside(LightsOutcome::MadePermanent(Which::InAndOut))),
        ]
    );
}

#[test]
fn the_end_of_the_light_is_told() {
    let mut buttons = settled(true);
    let mut validator = users();
    buttons.switch_lights(false, true, false);
    let mut told = 0;
    for _ in 0..400 {
        let out = buttons.tick_at(&mut validator, None, idle(), noon());
        for effect in out.effects {
            if effect == Effect::Notify(Notice::LightsOff) {
                told += 1;
            }
        }
    }
    assert_eq!(told, 1);
}

#[test]
fn two_buttons_at_once_are_a_fault() {
    let mut buttons = settled(true);
    let mut validator = users();
    buttons.sequence = vec![1, 2, 3];
    let out = buttons.tick_at(&mut validator, Some(CommandToButtons::OpenDoor), read(0x0F, 0x0C), noon());
    assert_eq!(out.fault, Some(LogicError { code: 0x03 }));
    assert_eq!(
        out.effects,
        vec![
            Effect::Bus(relays_on(Board::Board20, RELAY_DOOR)),
            ports(Board::Board21, 0x60),
        ]
    );
    // the sequence was not judged
    assert_eq!(buttons.sequence, vec![1, 2, 3]);
    assert_eq!(validator.timeout(), 0);
}

#[test]
fn a_wired_button_is_never_a_fault() {
    for code in [0x01u8, 0x02, 0x04, 0x08] {
        for clock in [noon(), night()] {
            let mut buttons = settled(true);
            let mut validator = users();
            let out = buttons.tick_at(&mut validator, None, read(0x0F, 0x0F & !code), clock);
            assert_eq!(out.fault, None);
            assert!(!out.effects.is_empty());
        }
    }
}

#[test]
fn a_fault_of_the_bus_is_told_once_the_boards_are_set_up_anew() {
    let mut buttons = settled(true);
    let mut validator = users();
    for _ in 0..4 {
        let out = buttons.tick_at(&mut validator, None, Err(Board::Board20), noon());
        assert!(out.effects.is_empty());
    }
    let out = buttons.tick_at(&mut validator, None, Err(Board::Board20), noon());
    assert_eq!(out.effects.len(), 9);
    assert_eq!(out.effects[8], Effect::Notify(Notice::BusFault(Board::Board20)));
    assert_eq!(out.fault, None);
}

#[test]
fn the_door_opens_for_a_user_and_lights_by_night() {
    let mut buttons = settled(true);
    let mut validator = users();
    let codes = [14u8, 15, 13, 15, 11, 15, 7];
    for code in codes {
        let out = buttons.tick_at(&mut validator, None, read(code, 0x0F), night());
        assert_eq!(out.fault, None);
        for effect in out.effects {
            assert!(matches!(effect, Effect::Bus(_)));
        }
    }
    assert_eq!(buttons.sequence, vec![14, 15, 13, 15, 11, 15, 7]);
    assert_eq!(validator.timeout(), 7);
    let out = buttons.tick_at(&mut validator, None, read(15, 0x0F), night());
    assert_eq!(
        out.effects,
        vec![
            ports(Board::Board20, 0x00),
            ports(Board::Board21, 0x00),
            Effect::Bus(relays_on(Board::Board20, RELAY_DOOR)),
            Effect::Notify(Notice::OpenedFor("1234".to_string())),
            Effect::Bus(relays_on(Board::Board21, RELAY_LICHT_INNEN)),
            Effect::Notify(Notice::EntryLights(LightsOutcome::TurnedOn(Which::InAndOut))),
        ]
    );
    assert!(buttons.sequence.is_empty());
    assert_eq!(validator.timeout(), 0);
    assert_eq!(buttons.door_timeout, 150);
    assert_eq!(buttons.light_timeout, 310);
}

#[test]
fn the_lights_are_left_alone_by_day() {
    let mut buttons = settled(true);
    let mut validator = users();
    buttons.sequence = vec![14, 15, 13, 15, 11, 15, 7, 15];
    let out = buttons.tick_at(&mut validator, None, idle(), noon());
    assert_eq!(
        out.effects,
        vec![
            Effect::Bus(relays_on(Board::Board20, RELAY_DOOR)),
            Effect::Notify(Notice::OpenedFor("1234".to_string())),
            Effect::Notify(Notice::Daytime(1_000_000, 900_000, 1_100_000)),
        ]
    );
    assert_eq!(buttons.light_timeout, 0);
    assert!(!noon().dark());
    assert!(night().dark());
    assert!(Clock { time: 5 * 3600, now: 899_999, sunrise: 900_000, sunset: 1_100_000 }.dark());
    assert!(!Clock { time: 5 * 3600, now: 900_000, sunrise: 900_000, sunset: 1_100_000 }.dark());
    assert!(!Clock { time: 5 * 3600, now: 1_100_000, sunrise: 900_000, sunset: 1_100_000 }.dark());
}

#[test]
fn a_sequence_that_is_given_up_on_costs_a_penalty() {
    let mut buttons = settled(true);
    let mut validator = users();
    buttons.sequence = vec![14, 15];
    for _ in 0..1000 {
        let out = buttons.tick_at(&mut validator, None, idle(), noon());
        assert!(out.effects.is_empty());
    }
    assert_eq!(validator.timeout(), 1000);
    let out = buttons.tick_at(&mut validator, None, idle(), noon());
    assert_eq!(
        out.effects,
        vec![
            Effect::Bus(relays_on(Board::Board21, RELAY_BELL)),
            Effect::Notify(Notice::Timeout(vec![14, 15])),
        ]
    );
    assert!(buttons.sequence.is_empty());
    assert_eq!(validator.timeout(), 0);
    assert_eq!(buttons.wrong_input_timeout, 150);
    assert_eq!(buttons.bell_counter, 1);
    assert_eq!(buttons.bell_timeout_init, 400);
}

#[test]
fn noise_that_is_given_up_on_costs_nothing() {
    let mut buttons = settled(true);
    let mut validator = users();
    buttons.sequence = vec![0, 15];
    for _ in 0..1001 {
        let out = buttons.tick_at(&mut validator, None, idle(), noon());
        assert!(out.effects.is_empty());
    }
    assert!(buttons.sequence.is_empty());
    assert_eq!(validator.timeout(), 0);
    assert_eq!(buttons.wrong_input_timeout, 0);
    assert_eq!(buttons.bell_counter, 0);
}

#[test]
fn a_sequence_that_grows_too_long_costs_a_penalty() {
    let mut buttons = settled(false);
    let mut validator = users();
    buttons.sequence = vec![1, 2, 3, 4, 5, 6, 7, 8, 9, 10];
    let out = buttons.tick_at(&mut validator, None, read(0x0E, 0x0F), noon());
    assert_eq!(
        out.effects,
        vec![
            ports(Board::Board20, 0x10),
            Effect::Notify(Notice::SequenceTooLong(vec![1, 2, 3, 4, 5, 6, 7, 8, 9, 10, 14])),
        ]
    );
    assert!(buttons.sequence.is_empty());
    assert_eq!(buttons.wrong_input_timeout, 150);
    // the bell is not enabled: it stays as it was
    assert_eq!(buttons.bell_counter, 0);
}

#[test]
fn notices_go_to_their_conversations() {
    let lights = LightsOutcome::Extended(Which::Out);
    assert_eq!(Notice::CommandLights(lights, String::new()).chat(), NextcloudChat::Licht);
    assert_eq!(Notice::SwitchInside(lights).chat(), NextcloudChat::Licht);
    assert_eq!(Notice::LightButton(lights).chat(), NextcloudChat::Licht);
    assert_eq!(Notice::EntryLights(lights).chat(), NextcloudChat::Licht);
    assert_eq!(Notice::LightsOff.chat(), NextcloudChat::Licht);
    assert_eq!(Notice::Daytime(1, 2, 3).chat(), NextcloudChat::Licht);
    assert_eq!(Notice::BusFault(Board::Board21).chat(), NextcloudChat::Ping);
    assert_eq!(Notice::BellButton.chat(), NextcloudChat::Default);
    assert_eq!(Notice::BellButtonSilent(0).chat(), NextcloudChat::Default);
    assert_eq!(Notice::BellSwitch.chat(), NextcloudChat::Default);
    assert_eq!(Notice::BellSwitchSilent(0).chat(), NextcloudChat::Default);
    assert_eq!(Notice::OpenedFor("x".to_string()).chat(), NextcloudChat::Default);
    assert_eq!(Notice::Timeout(vec![]).chat(), NextcloudChat::Default);
    assert_eq!(Notice::SequenceTooLong(vec![]).chat(), NextcloudChat::Default);
}

#[test]
fn a_tick_by_the_clock_of_the_machine_follows_its_time_of_day() {
    let before = chrono::Local::now().num_seconds_from_midnight();
    let mut buttons = settled(true);
    let mut validator = users();
    let out = buttons.tick(&mut validator, None, read(0x0F, 0x0D), i64::MIN, i64::MAX);
    let after = chrono::Local::now().num_seconds_from_midnight();
    let rang = out.effects.last() == Some(&Effect::Notify(Notice::BellButton));
    match out.effects.last() {
        Some(Effect::Notify(Notice::BellButtonSilent(time))) => {
            assert!(*time < 86_400);
            assert!(*time < 7 * 3600 || *time > 21 * 3600);
            if before <= after {
                assert!(before <= *time && *time <= after);
            }
        }
        _ => {
            assert!(rang);
            if before <= after {
                assert!(before <= 21 * 3600 && after >= 7 * 3600);
            }
        }
    }
    assert_eq!(out.fault, None);
}

#[test]
fn a_tick_by_the_clock_of_the_machine_knows_day_from_night() {
    let mut validator = users();
    let mut buttons = settled(true);
    buttons.sequence = vec![14, 15, 13, 15, 11, 15, 7, 15];
    // a day that never ends
    let out = buttons.tick(&mut validator, None, idle(), i64::MIN, i64::MAX);
    assert!(matches!(out.effects.last(), Some(Effect::Notify(Notice::Daytime(_, i64::MIN, i64::MAX)))));
    // a sun that set long ago
    let mut buttons = settled(true);
    buttons.sequence = vec![14, 15, 13, 15, 11, 15, 7, 15];
    let out = buttons.tick(&mut validator, None, idle(), 0, 1);
    assert_eq!(
        out.effects.last(),
        Some(&Effect::Notify(Notice::EntryLights(LightsOutcome::TurnedOn(Which::InAndOut))))
    );
}

#[test]
fn a_command_is_carried_out_before_the_poll() {
    let mut whole = settled(true);
    let mut parted = settled(true);
    let mut first = users();
    let mut second = users();
    let out = whole.tick_at(&mut first, Some(CommandToButtons::OpenDoor), read(0x0F, 0x0D), noon());
    let told = parted.command(Some(CommandToButtons::OpenDoor));
    assert_eq!(told, vec![Effect::Bus(relays_on(Board::Board20, RELAY_DOOR))]);
    assert_eq!(parted.door_timeout, 150);
    let rest = parted.arrive_at(&mut second, None, read(0x0F, 0x0D), 12 * 3600);
    let mut together = told;
    together.extend(rest.effects);
    assert_eq!(out.effects, together);
    assert_eq!(out.fault, rest.fault);
    assert!(!rest.opened);
    assert_eq!(whole.door_timeout, parted.door_timeout);
    assert_eq!(whole.bell_counter, parted.bell_counter);
    assert_eq!(whole.pins2, parted.pins2);
    assert!(parted.command(None).is_empty());
}

#[test]
fn a_tick_stops_at_the_door_and_goes_on_through_it() {
    let mut validator = users();
    let mut buttons = settled(true);
    buttons.sequence = vec![14, 15, 13, 15, 11, 15, 7, 15];
    let at_door = buttons.arrive_at(&mut validator, None, idle(), 3 * 3600);
    assert!(at_door.opened);
    assert_eq!(at_door.fault, None);
    assert_eq!(
        at_door.effects,
        vec![
            Effect::Bus(relays_on(Board::Board20, RELAY_DOOR)),
            Effect::Notify(Notice::OpenedFor("1234".to_string())),
        ]
    );
    assert_eq!(buttons.door_timeout, 150);
    assert_eq!(buttons.light_timeout, 0);
    assert!(buttons.sequence.is_empty());
    let inside = buttons.enter_at(night());
    assert_eq!(
        inside,
        vec![
            Effect::Bus(relays_on(Board::Board21, RELAY_LICHT_INNEN)),
            Effect::Notify(Notice::EntryLights(LightsOutcome::TurnedOn(Which::InAndOut))),
        ]
    );
    assert_eq!(buttons.light_timeout, 310);
    let by_day = buttons.enter_at(noon());
    assert_eq!(by_day, vec![Effect::Notify(Notice::Daytime(1_000_000, 900_000, 1_100_000))]);
    assert_eq!(buttons.light_timeout, 310);
    // without a user the door stays shut
    let nothing = buttons.arrive_at(&mut validator, None, idle(), 3 * 3600);
    assert!(!nothing.opened);
}

#[test]
fn the_door_by_the_clock_of_the_machine() {
    let mut validator = users();
    let mut buttons = settled(true);
    buttons.sequence = vec![14, 15, 13, 15, 11, 15, 7, 15];
    let at_door = buttons.arrive(&mut validator, None, idle());
    assert!(at_door.opened);
    assert_eq!(at_door.effects.len(), 2);
    let inside = buttons.enter(i64::MIN, i64::MAX);
    assert!(matches!(inside.last(), Some(Effect::Notify(Notice::Daytime(_, i64::MIN, i64::MAX)))));
    let inside = buttons.enter(0, 1);
    assert!(matches!(inside.last(), Some(Effect::Notify(Notice::EntryLights(_)))));
}

#[test]
fn failed_writes_count_as_failed_readings_do() {
    let mut buttons = settled(true);
    buttons.open_door();
    for failures in 1..=4 {
        assert!(buttons.write_failed(Board::Board20).is_empty());
        assert_eq!(buttons.failed_counter, failures);
        assert_eq!(buttons.door_timeout, 150);
    }
    let effects = buttons.write_failed(Board::Board21);
    assert_eq!(effects.len(), 9);
    assert_eq!(effects[0], Effect::Bus(BusWrite { board: Board::Board20, register: 1, value: 0x0F }));
    assert_eq!(effects[8], Effect::Notify(Notice::BusFault(Board::Board21)));
    assert_eq!(buttons.door_timeout, 0);
    assert_eq!(buttons.pins1, 0x6F);
}

#[test]
fn the_bell_window_in_seconds() {
    assert!(!rings_at(0));
    assert!(!rings_at(25_199));
    assert!(rings_at(25_200));
    assert!(rings_at(75_600));
    assert!(!rings_at(75_601));
    assert!(!rings_at(75_660));
    assert!(!rings_at(86_399));
}
