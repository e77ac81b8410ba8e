use opensesame::audio::{is_played, Audio, AudioEvent};
use opensesame::bat::{parse_capacity, Bat, BatChange};
use opensesame::buttons::CommandToButtons;
use opensesame::clima_sensor_us::{ClimaSensorUS, Warning};
use opensesame::garage::{Garage, GarageChange, GarageLines};
use opensesame::haustuer::{Haustuer, HaustuerChange};
use opensesame::mod_ir_temp::{IrTempState, IrTempStateChange, ModIR};
use opensesame::nextcloud::commands::{Command, CommandType};
use opensesame::environment::{status_valid, AirQuality, AirQualityChange, Due, Schedule};
use opensesame::nextcloud::{
    chat_command, sent_again, unknown_command, ChatAction, NextcloudChat, NextcloudEvent, NextcloudStatus,
};
use opensesame::pwr::Pwr;
use opensesame::rst::{line_value, Rst};
use opensesame::signals::{AlarmLatch, Signal};
use opensesame::text::{parse_numbers, same_text, split_words, trimmed_len};
use opensesame::ping::{Ping, PingEvent};
use opensesame::sensors::{parse_readings, SensorsChange};
use opensesame::types::ModuleError;
use opensesame::watchdog::{Watchdog, SAFE_TIMEOUT};

fn tenths(value: f32) -> i32 {
    (value * 10.0).round() as i32
}

fn measured(warning_active: &mut Warning, temp: f32, wind: f32) -> Option<Warning> {
    ClimaSensorUS::set_warning_active(warning_active, Some(tenths(temp)), Some(tenths(wind) as u32))
}

#[test]
fn clima_sensor_us_test_set_warning_active() {
    let mut warning_active = Warning::Nothing;

    assert!(measured(&mut warning_active, 15.0, 0.1).is_none());
    assert_eq!(warning_active, Warning::Nothing);

    assert!(measured(&mut warning_active, 15.0, 3.5).is_none());
    assert_eq!(warning_active, Warning::Nothing);

    assert!(measured(&mut warning_active, 25.0, 0.1).is_some());
    assert_eq!(warning_active, Warning::CloseWindow);

    assert!(measured(&mut warning_active, 25.0, 3.5).is_none());
    assert_eq!(warning_active, Warning::CloseWindow);

    assert!(measured(&mut warning_active, 33.0, 0.1).is_some());
    assert_eq!(warning_active, Warning::HighTemp);

    assert!(measured(&mut warning_active, 33.0, 3.5).is_none());
    assert_eq!(warning_active, Warning::HighTemp);

    assert!(measured(&mut warning_active, 36.0, 0.1).is_none());
    assert_eq!(warning_active, Warning::HighTemp);

    assert!(measured(&mut warning_active, 36.0, 3.5).is_none());
    assert_eq!(warning_active, Warning::HighTemp);

    assert!(measured(&mut warning_active, 25.3, 3.4).is_none());
    assert_eq!(warning_active, Warning::HighTemp);

    assert!(measured(&mut warning_active, 15.0, 0.1).is_some());
    assert_eq!(warning_active, Warning::Nothing);

    assert!(measured(&mut warning_active, 15.0, 3.5).is_none());
    assert_eq!(warning_active, Warning::Nothing);

    assert!(measured(&mut warning_active, 15.0, 20.5).is_some());
    assert_eq!(warning_active, Warning::StrongWind);

    assert!(measured(&mut warning_active, 15.0, 13.5).is_none());
    assert_eq!(warning_active, Warning::StrongWind);

    assert!(measured(&mut warning_active, 15.0, 5.5).is_some());
    assert_eq!(warning_active, Warning::Nothing);
}

#[test]
fn set_warning_active_tells_what_could_not_be_measured() {
    let mut warning_active = Warning::Nothing;
    assert_eq!(
        ClimaSensorUS::set_warning_active(&mut warning_active, None, Some(10)),
        Some(Warning::ErrorTemp)
    );
    assert_eq!(
        ClimaSensorUS::set_warning_active(&mut warning_active, None, None),
        Some(Warning::ErrorBoth)
    );
    assert_eq!(ClimaSensorUS::set_warning_active(&mut warning_active, None, None), None);
    assert_eq!(
        ClimaSensorUS::set_warning_active(&mut warning_active, Some(150), None),
        Some(Warning::ErrorWind)
    );
    assert_eq!(
        ClimaSensorUS::set_warning_active(&mut warning_active, Some(-1), Some(10)),
        Some(Warning::LowTemp)
    );
    // frost keeps the window out of it
    assert_eq!(ClimaSensorUS::set_warning_active(&mut warning_active, Some(220), Some(10)), None);
    assert_eq!(warning_active, Warning::LowTemp);
}

#[test]
fn set_warning_active_keeps_its_thresholds() {
    let mut w = Warning::StrongWind;
    // moderate means above 5 and below 20 degrees with wind below 8
    assert_eq!(ClimaSensorUS::set_warning_active(&mut w, Some(50), Some(10)), None);
    assert_eq!(ClimaSensorUS::set_warning_active(&mut w, Some(51), Some(80)), None);
    assert_eq!(ClimaSensorUS::set_warning_active(&mut w, Some(51), Some(79)), Some(Warning::Nothing));
    assert_eq!(ClimaSensorUS::set_warning_active(&mut w, Some(200), Some(108)), None);
    assert_eq!(ClimaSensorUS::set_warning_active(&mut w, Some(200), Some(109)), Some(Warning::StrongWind));
    let mut w = Warning::Nothing;
    assert_eq!(ClimaSensorUS::set_warning_active(&mut w, Some(219), Some(10)), None);
    assert_eq!(ClimaSensorUS::set_warning_active(&mut w, Some(220), Some(10)), Some(Warning::CloseWindow));
    assert_eq!(ClimaSensorUS::set_warning_active(&mut w, Some(301), Some(3)), None);
    assert_eq!(ClimaSensorUS::set_warning_active(&mut w, Some(301), Some(2)), Some(Warning::HighTemp));
    let mut w = Warning::Nothing;
    assert_eq!(ClimaSensorUS::set_warning_active(&mut w, Some(350), Some(10)), Some(Warning::CloseWindow));
    assert_eq!(ClimaSensorUS::set_warning_active(&mut w, Some(351), Some(10)), Some(Warning::HighTemp));
    assert_eq!(ClimaSensorUS::set_warning_active(&mut w, Some(0), Some(10)), None);
}

#[test]
fn test_set_handle_output() {
    let mut s = ModIR::new_default();

    assert!(
        s.set_handle_output(IrTempState::Normal, IrTempState::Normal) == IrTempStateChange::Nothing
    );
    assert!(
        s.set_handle_output(IrTempState::TooHot, IrTempState::Normal)
            == IrTempStateChange::ChangedToAmbientToHot
    );
    assert!(
        s.set_handle_output(IrTempState::Normal, IrTempState::Normal)
            == IrTempStateChange::ChangedToCancelled
    );
    assert!(
        s.set_handle_output(IrTempState::TooHot, IrTempState::TooHot)
            == IrTempStateChange::ChanedToBothToHot
    );
    assert!(
        s.set_handle_output(IrTempState::Normal, IrTempState::TooHot) == IrTempStateChange::Nothing
    );
    assert!(
        s.set_handle_output(IrTempState::Normal, IrTempState::Normal)
            == IrTempStateChange::ChangedToCancelled
    );
    assert!(
        s.set_handle_output(IrTempState::Normal, IrTempState::TooHot)
            == IrTempStateChange::ChangedToObjectToHot
    );
    assert!(
        s.set_handle_output(IrTempState::TooHot, IrTempState::TooHot)
            == IrTempStateChange::ChanedToBothToHot
    );
    assert!(
        s.set_handle_output(IrTempState::TooHot, IrTempState::Normal) == IrTempStateChange::Nothing
    );
    assert!(
        s.set_handle_output(IrTempState::TooHot, IrTempState::TooHot) == IrTempStateChange::Nothing
    );
    assert!(
        s.set_handle_output(IrTempState::Normal, IrTempState::Normal)
            == IrTempStateChange::ChangedToCancelled
    );
    assert!(
        s.set_handle_output(IrTempState::TooHot, IrTempState::Normal)
            == IrTempStateChange::ChangedToAmbientToHot
    );
}

#[test]
fn set_handle_output_remembers_only_what_it_told() {
    let mut s = ModIR::new_default();
    s.set_handle_output(IrTempState::TooHot, IrTempState::TooHot);
    assert_eq!(s.active_ambient_state, IrTempState::TooHot);
    assert_eq!(s.active_object_state, IrTempState::TooHot);
    // one of the two is back to normal: not told, not noted
    s.set_handle_output(IrTempState::Normal, IrTempState::TooHot);
    assert_eq!(s.active_ambient_state, IrTempState::TooHot);
    let mut s = ModIR::new_default();
    s.set_handle_output(IrTempState::TooHot, IrTempState::Normal);
    assert_eq!(s.active_ambient_state, IrTempState::TooHot);
    assert_eq!(s.active_object_state, IrTempState::Normal);
}

fn lines(end: u8, eo: u8, eu: u8, to: u8, tu: u8) -> GarageLines {
    GarageLines {
        schalter_tor_endposition: end,
        taster_eingang_oben: eo,
        taster_eingang_unten: eu,
        taster_tor_oben: to,
        taster_tor_unten: tu,
    }
}

#[test]
fn garage_tells_each_press_once() {
    let mut garage = Garage::new(true);
    assert_eq!(garage.handle(lines(1, 1, 1, 1, 1)), GarageChange::Nothing);
    assert_eq!(garage.handle(lines(1, 0, 1, 1, 1)), GarageChange::PressedTasterEingangOben);
    assert_eq!(garage.handle(lines(1, 0, 1, 1, 1)), GarageChange::Nothing);
    assert_eq!(garage.handle(lines(1, 1, 1, 1, 1)), GarageChange::Nothing);
    assert_eq!(garage.handle(lines(1, 0, 1, 1, 1)), GarageChange::PressedTasterEingangOben);
    assert_eq!(garage.handle(lines(1, 0, 0, 1, 1)), GarageChange::PressedTasterEingangUnten);
    assert_eq!(garage.handle(lines(1, 1, 1, 0, 0)), GarageChange::PressedTasterTorOben);
    // the last button was not looked at yet
    assert_eq!(garage.handle(lines(1, 1, 1, 0, 0)), GarageChange::PressedTasterTorUnten);
    assert_eq!(garage.handle(lines(1, 1, 1, 0, 0)), GarageChange::Nothing);
}

#[test]
fn garage_door_switch_comes_first() {
    let mut garage = Garage::new(true);
    assert_eq!(garage.handle(lines(0, 0, 0, 0, 0)), GarageChange::ReachedTorEndposition);
    assert!(garage.schalter_tor_endposition);
    assert!(!garage.taster_eingang_oben);
    assert_eq!(garage.handle(lines(0, 0, 0, 0, 0)), GarageChange::PressedTasterEingangOben);
    assert_eq!(garage.handle(lines(1, 0, 0, 0, 0)), GarageChange::LeftTorEndposition);
    assert_eq!(garage.handle(lines(1, 0, 0, 0, 0)), GarageChange::PressedTasterEingangUnten);
}

#[test]
fn garage_without_lines_finds_nothing() {
    let mut garage = Garage::new(false);
    assert_eq!(garage.handle(lines(0, 0, 0, 0, 0)), GarageChange::Nothing);
    assert_eq!(garage, Garage::new(false));
}

#[test]
fn garage_handle_line_follows_the_line() {
    let mut prev = false;
    assert!(Garage::handle_line(0, &mut prev));
    assert!(prev);
    assert!(!Garage::handle_line(0, &mut prev));
    assert!(!Garage::handle_line(7, &mut prev));
    assert!(prev);
    assert!(!Garage::handle_line(1, &mut prev));
    assert!(!prev);
}

#[test]
fn garage_buttons_ask_for_light_or_door() {
    assert!(matches!(
        opensesame::garage::command_for(GarageChange::PressedTasterEingangUnten),
        Some(CommandToButtons::OpenDoor)
    ));
    assert!(matches!(
        opensesame::garage::command_for(GarageChange::PressedTasterTorUnten),
        Some(CommandToButtons::OpenDoor)
    ));
    match opensesame::garage::command_for(GarageChange::PressedTasterEingangOben) {
        Some(CommandToButtons::SwitchLights(true, false, false, note)) => {
            assert_eq!(note, "💡 Pressed at entrance top switch. Switch lights in garage")
        }
        _ => panic!("no light"),
    }
    match opensesame::garage::command_for(GarageChange::PressedTasterTorOben) {
        Some(CommandToButtons::SwitchLights(true, true, false, note)) => {
            assert_eq!(note, "💡 Pressed top switch at garage door. Switch lights in and out garage")
        }
        _ => panic!("no light"),
    }
    assert!(opensesame::garage::command_for(GarageChange::ReachedTorEndposition).is_none());
    assert!(opensesame::garage::command_for(GarageChange::LeftTorEndposition).is_none());
    assert!(opensesame::garage::command_for(GarageChange::Nothing).is_none());
}

#[test]
fn haustuer_tells_each_switch_once() {
    let mut door = Haustuer::new();
    assert_eq!(door.handle(Some(0x00)), HaustuerChange::Nothing);
    assert_eq!(door.handle(Some(0x01)), HaustuerChange::LightFarOutdoor);
    assert_eq!(door.handle(Some(0x01)), HaustuerChange::Nothing);
    assert_eq!(door.handle(Some(0x02)), HaustuerChange::Nothing);
    assert_eq!(door.handle(Some(0x0D)), HaustuerChange::LightFarOutdoor);
    assert_eq!(door.handle(Some(0x0D)), HaustuerChange::BellFarOutdoor);
    assert_eq!(door.handle(Some(0x0D)), HaustuerChange::LightIndoor);
    assert_eq!(door.handle(Some(0x0D)), HaustuerChange::Nothing);
    assert_eq!(door.handle(Some(0x08)), HaustuerChange::Nothing);
    assert_eq!(door.handle(Some(0x0C)), HaustuerChange::BellFarOutdoor);
}

#[test]
fn haustuer_counts_failures_in_a_row() {
    let mut door = Haustuer::new();
    for failures in 1..=57u8 {
        assert!(!door.gives_up());
        assert_eq!(door.handle(None), HaustuerChange::Failed);
        assert_eq!(door.how_many_err, failures);
    }
    assert!(door.gives_up());
    assert_eq!(door.handle(Some(0)), HaustuerChange::Nothing);
    assert_eq!(door.how_many_err, 0);
    assert!(!door.gives_up());
}

#[test]
fn haustuer_switches_ask_for_light_or_bell() {
    assert!(matches!(
        opensesame::haustuer::command_for(HaustuerChange::BellFarOutdoor),
        Some(CommandToButtons::RingBell(5, 5))
    ));
    match opensesame::haustuer::command_for(HaustuerChange::LightFarOutdoor) {
        Some(CommandToButtons::SwitchLights(false, true, false, note)) => {
            assert_eq!(note, "💡 Pressed at entrance switch. Switch lights.")
        }
        _ => panic!("no light"),
    }
    match opensesame::haustuer::command_for(HaustuerChange::LightIndoor) {
        Some(CommandToButtons::SwitchLights(true, true, false, note)) => {
            assert_eq!(note, "💡 Pressed in entrance. Switch all lights.")
        }
        _ => panic!("no light"),
    }
    assert!(opensesame::haustuer::command_for(HaustuerChange::Failed).is_none());
    assert!(opensesame::haustuer::command_for(HaustuerChange::Nothing).is_none());
}

#[test]
fn bat_warns_once_per_threshold() {
    let mut bat = Bat::new();
    assert_eq!(bat.last_capacity(), 100);
    assert_eq!(bat.threshold(), 80);
    assert_eq!(bat.update(100), BatChange::Nothing);
    assert_eq!(bat.update(90), BatChange::Nothing);
    assert_eq!(bat.update(80), BatChange::Nothing);
    assert_eq!(bat.update(79), BatChange::Low(79, 80));
    assert_eq!(bat.threshold(), 70);
    assert_eq!(bat.update(79), BatChange::Nothing);
    assert_eq!(bat.update(75), BatChange::Nothing);
    assert_eq!(bat.update(69), BatChange::Low(69, 70));
    assert_eq!(bat.update(100), BatChange::Full(100));
    assert_eq!(bat.threshold(), 80);
    assert_eq!(bat.last_capacity(), 100);
}

#[test]
fn bat_threshold_ends_at_zero() {
    let mut bat = Bat::new();
    let mut warnings = vec![];
    for capacity in (0..100u8).rev() {
        if let BatChange::Low(at, threshold) = bat.update(capacity) {
            warnings.push((at, threshold));
        }
    }
    assert_eq!(
        warnings,
        vec![(79, 80), (69, 70), (59, 60), (49, 50), (39, 40), (29, 30), (19, 20), (9, 10)]
    );
    assert_eq!(bat.threshold(), 0);
    assert_eq!(bat.update(1), BatChange::Nothing);
}

#[test]
fn ping_reports_the_latest() {
    let mut ping = Ping::new("today".to_string());
    assert_eq!(ping.ping_counter, 0);
    assert!(ping.handle(PingEvent::UpadeEnv("fine".to_string())).is_none());
    assert!(ping.handle(PingEvent::UpdateEnvStatus(3)).is_none());
    assert!(ping.handle(PingEvent::UpdateEnvError(4)).is_none());
    assert!(ping.handle(PingEvent::UpdateBatCapacity(55)).is_none());
    let report = ping.handle(PingEvent::SendPing).unwrap();
    assert_eq!(report.ping_counter, 0);
    assert_eq!(report.environment, "fine");
    assert_eq!(report.environment_status, 3);
    assert_eq!(report.environment_error, 4);
    assert_eq!(report.bat_capacity, 55);
    assert_eq!(report.startup_time, "today");
    assert_eq!(ping.ping_counter, 1);
    let report = ping.handle(PingEvent::SendPing).unwrap();
    assert_eq!(report.ping_counter, 1);
    assert_eq!(ping.ping_counter, 2);
}

#[test]
fn module_error_keeps_its_reason() {
    let error = ModuleError::new("Exit Ping loop!".to_string());
    assert_eq!(error.reason(), "Exit Ping loop!");
    assert_eq!(error.message(), "ModuleErrorr: reason: Exit Ping loop!");
    assert_eq!(error.clone().message(), error.message());
}

#[test]
fn plain_values_are_what_they_were_given() {
    let audio = Audio::new("bell.ogg".to_string(), "alarm.ogg".to_string());
    assert_eq!(audio.bell_path, "bell.ogg");
    assert_eq!(audio.fire_alarm_path, "alarm.ogg");
    assert_ne!(AudioEvent::Bell, AudioEvent::FireAlarm);
    assert_eq!(SAFE_TIMEOUT, 15 * 1000);
    let _ = Watchdog {};
    let event = NextcloudEvent::Chat(NextcloudChat::Ping, "hello".to_string());
    assert!(matches!(event, NextcloudEvent::Chat(NextcloudChat::Ping, _)));
    assert!(matches!(
        NextcloudEvent::Status(NextcloudStatus::Door, String::new()),
        NextcloudEvent::Status(NextcloudStatus::Door, _)
    ));
    assert_ne!(SensorsChange::Chat("a".to_string()), SensorsChange::Alarm("a".to_string()));
    let command = Command {
        user_prefix: None,
        words: vec!["open".to_string()],
        command_type: CommandType::Action,
    };
    assert_eq!(command.command_type, CommandType::Action);
}

#[test]
fn audio_plans_follow_the_event() {
    let audio = Audio::new("bell.ogg".to_string(), "alarm.ogg".to_string());
    let bell = audio.plan(AudioEvent::Bell);
    assert_eq!(bell.file, "bell.ogg");
    assert!(!bell.repeat);
    assert!(!bell.tell_other_machine);
    let alarm = audio.plan(AudioEvent::FireAlarm);
    assert_eq!(alarm.file, "alarm.ogg");
    assert!(alarm.repeat);
    assert!(alarm.tell_other_machine);
    assert!(is_played("bell.ogg"));
    assert!(!is_played("/dev/null"));
    assert!(is_played("/dev/null "));
}

#[test]
fn parse_capacity_reads_the_file_of_the_battery() {
    assert_eq!(parse_capacity("87\n"), Some(87));
    assert_eq!(parse_capacity("100"), Some(100));
    assert_eq!(parse_capacity("0 \t\n"), Some(0));
    assert_eq!(parse_capacity("+5"), Some(5));
    assert_eq!(parse_capacity("255"), Some(255));
    assert_eq!(parse_capacity("256"), None);
    assert_eq!(parse_capacity(" 87"), None);
    assert_eq!(parse_capacity("8 7"), None);
    assert_eq!(parse_capacity(""), None);
    assert_eq!(parse_capacity("\n"), None);
    assert_eq!(parse_capacity("87%"), None);
}

#[test]
fn parse_readings_wants_one_number_for_each_sensor() {
    assert_eq!(
        parse_readings("152\t237\t279\t275\t177\t166\t90\t440\t59\t370\t423\t9"),
        Some(vec![152, 237, 279, 275, 177, 166, 90, 440, 59, 370, 423, 9])
    );
    assert_eq!(
        parse_readings(" 0 0 0 0 0 0 0 0 0 0 0 65535 "),
        Some(vec![0, 0, 0, 0, 0, 0, 0, 0, 0, 0, 0, 65535])
    );
    assert_eq!(parse_readings("1 2 3 4 5 6 7 8 9 10 11"), None);
    assert_eq!(parse_readings("1 2 3 4 5 6 7 8 9 10 11 12 13"), None);
    assert_eq!(parse_readings("1 2 3 4 5 6 7 8 9 10 11 65536"), None);
    assert_eq!(parse_readings("1 2 3 4 5 6 7 8 9 10 11 x"), None);
    assert_eq!(parse_readings("[1] 2 3 4 5 6 7 8 9 10 11 12"), None);
    assert_eq!(parse_readings(""), None);
}

#[test]
fn text_is_split_and_compared() {
    assert_eq!(split_words("  open   the\tdoor\n"), vec!["open", "the", "door"]);
    assert_eq!(split_words(""), Vec::<String>::new());
    assert_eq!(split_words(" \n "), Vec::<String>::new());
    assert_eq!(split_words("a"), vec!["a"]);
    assert_eq!(split_words("[1, 2]"), vec!["[1,", "2]"]);
    assert_eq!(split_words("ä ö\u{a0}ü"), vec!["ä", "ö", "ü"]);
    assert!(same_text("abc", "abc"));
    assert!(!same_text("abc", "abd"));
    assert!(!same_text("abc", "ab"));
    assert!(same_text("", ""));
    assert_eq!(trimmed_len("ab  "), 2);
    assert_eq!(trimmed_len("  "), 0);
    assert_eq!(trimmed_len(" ä b"), 4);
    assert_eq!(parse_numbers("1 22 333", false, 1000), Some(vec![1, 22, 333]));
    assert_eq!(parse_numbers("1 22 1001", false, 1000), None);
    assert_eq!(parse_numbers("[1]", false, 1000), None);
    assert_eq!(parse_numbers("[1]", true, 1000), Some(vec![1]));
    assert_eq!(parse_numbers("100000000", true, 100_000_000), Some(vec![100_000_000]));
    assert_eq!(parse_numbers("99999999999999999999", true, 100_000_000), None);
}

#[test]
fn command_new_understands_what_a_user_wrote() {
    let command = Command::new("  @Olimex  Open The DOOR!  ").unwrap();
    assert_eq!(command.user_prefix, Some("@olimex".to_string()));
    assert_eq!(command.words, vec!["open", "the", "door"]);
    assert_eq!(command.command_type, CommandType::Action);

    let command = Command::new("Uhrzeit?").unwrap();
    assert_eq!(command.user_prefix, None);
    assert_eq!(command.words, vec!["uhrzeit"]);
    assert_eq!(command.command_type, CommandType::Info);

    let command = Command::new("?").unwrap();
    assert!(command.words.is_empty());
    assert_eq!(command.user_prefix, None);

    let command = Command::new("@me !").unwrap();
    assert_eq!(command.user_prefix, Some("@me".to_string()));
    assert!(command.words.is_empty());

    let command = Command::new("ÖFFNEN!").unwrap();
    assert_eq!(command.words, vec!["öffnen"]);

    let command = Command::new("mail a@b ?").unwrap();
    assert_eq!(command.user_prefix, None);
    assert_eq!(command.words, vec!["mail", "a@b"]);
}

#[test]
fn command_new_refuses_what_does_not_end_as_a_command() {
    for input in ["", "   ", "open", "open! now", "open."] {
        assert_eq!(
            Command::new(input).unwrap_err(),
            "Command must end with either '!' or '?'."
        );
    }
}

#[test]
fn chat_commands_are_told_apart_by_their_first_word() {
    let none = chat_command("hello there");
    assert!(none.actions.is_empty() && !none.fault);
    let none = chat_command("");
    assert!(none.actions.is_empty() && !none.fault);
    assert_eq!(chat_command("\\status").actions, vec![ChatAction::SendStatus]);
    assert_eq!(chat_command("\\status now").actions, vec![ChatAction::SendStatus]);
    assert!(chat_command("\\setpin 1 2").actions.is_empty());
    assert_eq!(
        chat_command("\\opensesame").actions,
        vec![ChatAction::OpeningDoor, ChatAction::OpenDoor]
    );
    assert_eq!(chat_command("\\ring_bell").actions, vec![ChatAction::Bell]);
    assert_eq!(chat_command("\\fire_alarm").actions, vec![ChatAction::FireAlarm]);
    assert_eq!(
        chat_command("\\Status").actions,
        vec![ChatAction::Unknown("Status".to_string())]
    );
    assert_eq!(
        chat_command("\\  open  ").actions,
        vec![ChatAction::Unknown("open".to_string())]
    );
    assert!(!chat_command("\\open").fault);
    assert!(chat_command("\\").fault);
    assert!(chat_command("\\   ").fault);
}

#[test]
fn switchlights_goes_by_its_first_two_arguments() {
    let out = chat_command("\\switchlights true FALSE");
    assert_eq!(out.actions, vec![ChatAction::SwitchLights(true, false)]);
    assert!(!out.fault);
    let out = chat_command("\\switchlights no TrUe extra");
    assert_eq!(out.actions, vec![ChatAction::Usage, ChatAction::SwitchLights(false, true)]);
    assert!(!out.fault);
    let out = chat_command("\\switchlights true");
    assert_eq!(out.actions, vec![ChatAction::Usage]);
    assert!(out.fault);
    let out = chat_command("\\switchlights");
    assert_eq!(out.actions, vec![ChatAction::Usage]);
    assert!(out.fault);
    let out = chat_command("\\switchlights truee true");
    assert_eq!(out.actions, vec![ChatAction::SwitchLights(false, true)]);
}

#[test]
fn texts_of_the_chat_are_put_together() {
    assert_eq!(sent_again("hello"), "hello (sent again)");
    assert_eq!(unknown_command("open"), "Unknown command open!");
}

#[test]
fn lines_are_written_to_when_they_are_switched() {
    assert_eq!(line_value(false, true), Some(1));
    assert_eq!(line_value(true, false), Some(0));
    assert_eq!(line_value(true, true), Some(0));
    assert_eq!(line_value(false, false), None);
    let mut rst = Rst::new(true);
    assert_eq!(rst.switch(false), Some(0));
    assert!(!rst.state);
    assert_eq!(rst.switch(true), Some(1));
    assert!(rst.state);
    let mut pwr = Pwr::new(Some(false));
    assert!(pwr.enabled());
    assert_eq!(pwr.switch(true), Some(1));
    let mut none = Pwr::new(None);
    assert!(!none.enabled());
    assert!(none.state);
    assert_eq!(none.switch(false), None);
    assert!(!none.state);
    assert_eq!(none.switch(true), None);
}

#[test]
fn a_fire_alarm_in_the_state_is_raised_once() {
    let mut latch = AlarmLatch::new();
    assert!(!latch.reload(false));
    assert!(latch.reload(true));
    assert!(!latch.reload(true));
    assert!(!latch.reload(false));
    assert!(latch.reload(true));
}

#[test]
fn signals_ask_for_bell_and_sound() {
    assert!(matches!(
        opensesame::signals::command_for(Signal::FireAlarm, true),
        Some(CommandToButtons::RingBellAlarm(10))
    ));
    assert!(matches!(
        opensesame::signals::command_for(Signal::Alarm, true),
        Some(CommandToButtons::RingBellAlarm(20))
    ));
    assert!(matches!(
        opensesame::signals::command_for(Signal::Ring, true),
        Some(CommandToButtons::RingBell(20, 0))
    ));
    assert!(opensesame::signals::command_for(Signal::Alarm, false).is_none());
    assert_eq!(opensesame::signals::sound_for(Signal::FireAlarm, true), Some(AudioEvent::FireAlarm));
    assert_eq!(opensesame::signals::sound_for(Signal::FireAlarm, false), None);
    assert_eq!(opensesame::signals::sound_for(Signal::Alarm, false), Some(AudioEvent::FireAlarm));
    assert_eq!(opensesame::signals::sound_for(Signal::Ring, false), Some(AudioEvent::Bell));
}

#[test]
fn air_quality_follows_its_thresholds() {
    let mut air = AirQuality::new();
    // CO2 3501, nothing volatile
    assert!(air.calculate_air_quality(&vec![0x0D, 0xAD, 0x00, 0x00, 0x90]));
    assert_eq!(air.co2, 3501);
    assert_eq!(air.voc, 0);
    assert_eq!(air.air_quality, AirQualityChange::Moderate);
    assert!(!air.calculate_air_quality(&vec![0x0D, 0xAC, 0x00, 0x00]));
    assert_eq!(air.co2, 3500);
    // CO2 4501
    assert!(air.calculate_air_quality(&vec![0x11, 0x95, 0x00, 0x00]));
    assert_eq!(air.air_quality, AirQualityChange::Bad);
    // CO2 3999
    assert!(air.calculate_air_quality(&vec![0x0F, 0x9F, 0x00, 0x00]));
    assert_eq!(air.air_quality, AirQualityChange::Moderate);
    // CO2 2999
    assert!(air.calculate_air_quality(&vec![0x0B, 0xB7, 0x00, 0x00]));
    assert_eq!(air.air_quality, AirQualityChange::Good);
    // volatile compounds 9000, 11000, 13000
    assert!(air.calculate_air_quality(&vec![0x00, 0x00, 0x23, 0x28]));
    assert_eq!(air.voc, 9000);
    assert_eq!(air.air_quality, AirQualityChange::FireChat);
    assert!(air.calculate_air_quality(&vec![0x00, 0x00, 0x2A, 0xF8]));
    assert_eq!(air.air_quality, AirQualityChange::FireBell);
    assert!(air.calculate_air_quality(&vec![0x00, 0x00, 0x32, 0xC8]));
    assert_eq!(air.air_quality, AirQualityChange::FireAlarm);
    // at the alarm already: the level below is entered anew
    assert!(air.calculate_air_quality(&vec![0x00, 0x00, 0x32, 0xC8]));
    assert_eq!(air.air_quality, AirQualityChange::FireBell);
    assert!(status_valid(0x90));
    assert!(status_valid(0x9E));
    assert!(!status_valid(0x91));
    assert!(!status_valid(0x10));
}

#[test]
fn the_sensor_is_started_and_then_read_in_its_interval() {
    let mut schedule = Schedule::new(3);
    let mut due = vec![];
    for _ in 0..14 {
        due.push(schedule.tick());
    }
    assert_eq!(
        due,
        vec![
            Due::Nothing, Due::Nothing, Due::Nothing, Due::Nothing, Due::Start,
            Due::Nothing, Due::Nothing, Due::Measure,
            Due::Nothing, Due::Nothing, Due::Measure,
            Due::Nothing, Due::Nothing, Due::Measure,
        ]
    );
    let mut every = Schedule::new(1);
    for _ in 0..4 {
        assert_eq!(every.tick(), Due::Nothing);
    }
    assert_eq!(every.tick(), Due::Start);
    assert_eq!(every.tick(), Due::Measure);
    assert_eq!(every.tick(), Due::Measure);
}
