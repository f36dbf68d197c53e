use svbar::application::AppState;
use svbar::command::{split_command, OVERVIEW_COMMAND};
use svbar::modules::audio::AudioModule;
use svbar::modules::clock::ClockModule;
use svbar::modules::Module;
use svbar::text::{chars_of, decimal_text, find_next, join_from_last};
use svbar::volume::{
    connect_step, parse_percent, read_volume, sink_volume, ConnectStep, ContextState, SinkInfo,
    VolumeError,
};

fn sink(mute: bool, text: &str) -> SinkInfo {
    SinkInfo { mute, volume_text: text.to_string() }
}

#[test]
fn module_display_ordering() {
    let parts = vec!["12 30".to_string(), "45".to_string()];
    assert_eq!(join_from_last(&parts), "45 12 30");
}

#[test]
fn join_of_none_and_of_one() {
    assert_eq!(join_from_last(&Vec::new()), "");
    assert_eq!(join_from_last(&vec!["only".to_string()]), "only");
    let parts = vec!["a".to_string(), "".to_string(), "c".to_string()];
    assert_eq!(join_from_last(&parts), "c  a");
}

#[test]
fn clock_shows_day_hour_minute_second_three_hours_east() {
    let clock = ClockModule::new();
    assert_eq!(clock.display_at(0), "01 03 00 00");
    assert_eq!(clock.display_at(1431648000), "15 03 00 00");
    assert_eq!(clock.display_at(1431648000 + 21 * 3600 + 59 * 60 + 58), "16 00 59 58");
    assert_eq!(clock.display_at(-1), "01 02 59 59");
}

#[test]
fn clock_shows_nothing_for_an_instant_out_of_range() {
    let clock = ClockModule::new();
    assert_eq!(clock.display_at(i64::MAX), "");
    assert_eq!(clock.display_at(i64::MIN), "");
}

#[test]
fn clock_formats_the_first_and_the_last_instant() {
    let clock = ClockModule::new();
    let first = chrono::DateTime::<chrono::Utc>::MIN_UTC.timestamp();
    let last = chrono::DateTime::<chrono::Utc>::MAX_UTC.timestamp();
    assert_eq!(clock.display_at(first).len(), 11);
    assert_eq!(clock.display_at(last).len(), 11);
    assert_eq!(clock.display_at(first - 1), "");
    assert_eq!(clock.display_at(last + 1), "");
}

#[test]
fn clock_of_the_present_has_four_fields() {
    let mut clock = ClockModule::new();
    let text = clock.display();
    let fields: Vec<&str> = text.split(' ').collect();
    assert_eq!(fields.len(), 4);
    for field in &fields {
        assert_eq!(field.len(), 2);
        assert!(field.chars().all(|c| c.is_ascii_digit()));
    }
    assert!(fields[1].parse::<u32>().unwrap() < 24);
    assert!(fields[2].parse::<u32>().unwrap() < 60);
}

#[test]
fn audio_keeps_the_last_reading() {
    let mut audio = AudioModule::new();
    assert_eq!(audio.display(Err(VolumeError::Unchanged)), "0");
    assert_eq!(audio.display(Ok(45)), "45");
    assert_eq!(audio.previous, 45);
    assert_eq!(audio.display(Err(VolumeError::InvalidDigit)), "45");
    assert_eq!(audio.display(Ok(255)), "255");
    assert_eq!(audio.display(Ok(100)), "100");
    assert_eq!(audio.display(Ok(7)), "7");
}

#[test]
fn decimal_text_of_every_byte() {
    for value in 0..=255u8 {
        assert_eq!(decimal_text(value), value.to_string());
    }
}

#[test]
fn bar_text_puts_the_audio_module_first() {
    let mut state = AppState::new();
    assert_eq!(state.modules.len(), 2);
    assert_eq!(state.get_modules_display_at(0, Ok(45)), "45 01 03 00 00");
    assert_eq!(state.get_modules_display_at(60, Err(VolumeError::Empty)), "45 01 03 01 00");
    assert_eq!(state.modules[1], Module::Audio(AudioModule { previous: 45 }));
    assert_eq!(state.modules[0], Module::Clock(ClockModule {}));
}

#[test]
fn bar_text_of_the_present() {
    let mut state = AppState::new();
    let text = state.get_modules_display(Ok(9));
    assert!(text.starts_with("9 "));
    assert_eq!(text.len(), 2 + 11);
    assert_eq!((state.bar_width, state.first_configure), (0, true));
}

#[test]
fn bar_text_follows_registration_order() {
    let mut state = AppState::new();
    state.modules = vec![
        Module::Audio(AudioModule { previous: 1 }),
        Module::Clock(ClockModule::new()),
        Module::Audio(AudioModule { previous: 2 }),
    ];
    assert_eq!(state.get_modules_display_at(0, Err(VolumeError::Unchanged)), "2 01 03 00 00 1");
    state.modules.clear();
    assert_eq!(state.get_modules_display_at(0, Ok(3)), "");
}

#[test]
fn cleanup_counts_the_connections() {
    let mut state = AppState::new();
    assert_eq!(state.module_cleanup(), 1);
    assert_eq!(state.modules.len(), 2);
    state.modules.push(Module::Audio(AudioModule::new()));
    assert_eq!(state.module_cleanup(), 2);
    state.modules.clear();
    assert_eq!(state.module_cleanup(), 0);
}

#[test]
fn module_display_and_clean_up() {
    let mut clock = Module::Clock(ClockModule::new());
    assert_eq!(clock.display(0, Ok(5)), "01 03 00 00");
    assert!(!clock.clean_up());
    let mut audio = Module::Audio(AudioModule::new());
    assert_eq!(audio.display(0, Ok(5)), "5");
    assert!(audio.clean_up());
    assert_eq!(audio, Module::Audio(AudioModule { previous: 5 }));
}

#[test]
fn percent_is_read_without_its_sign() {
    assert_eq!(parse_percent(" 45%"), Ok(45));
    assert_eq!(parse_percent("  0%"), Ok(0));
    assert_eq!(parse_percent("100%"), Ok(100));
    assert_eq!(parse_percent("255%"), Ok(255));
    assert_eq!(parse_percent("\t 7% \n"), Ok(7));
    assert_eq!(parse_percent("007%"), Ok(7));
    assert_eq!(parse_percent("+5%"), Ok(5));
    assert_eq!(parse_percent("12x"), Ok(12));
    assert_eq!(parse_percent("\u{a0}3%\u{3000}"), Ok(3));
}

#[test]
fn percent_errors() {
    assert_eq!(parse_percent(""), Err(VolumeError::Empty));
    assert_eq!(parse_percent("   "), Err(VolumeError::Empty));
    assert_eq!(parse_percent("%"), Err(VolumeError::Empty));
    assert_eq!(parse_percent("256%"), Err(VolumeError::Overflow));
    assert_eq!(parse_percent("1000%"), Err(VolumeError::Overflow));
    assert_eq!(parse_percent("99999999999999999999999%"), Err(VolumeError::Overflow));
    assert_eq!(parse_percent("4x%"), Err(VolumeError::InvalidDigit));
    assert_eq!(parse_percent("99x%"), Err(VolumeError::InvalidDigit));
    assert_eq!(parse_percent("999x%"), Err(VolumeError::Overflow));
    assert_eq!(parse_percent("+%"), Err(VolumeError::InvalidDigit));
    assert_eq!(parse_percent("-5%"), Err(VolumeError::InvalidDigit));
    assert_eq!(parse_percent("4 5%"), Err(VolumeError::InvalidDigit));
    assert_eq!(parse_percent("45 %"), Err(VolumeError::InvalidDigit));
    assert_eq!(parse_percent("٤٥%"), Err(VolumeError::InvalidDigit));
}

#[test]
fn percent_agrees_with_the_standard_parser() {
    let samples = ["0", "9", "10", "99", "100", "255", "256", "300", "+1", "+", "", "1a", "a1", "0255", "2555"];
    for digits in samples {
        let ours = parse_percent(&format!("{digits}%")).ok();
        let theirs = digits.parse::<u8>().ok();
        assert_eq!(ours, theirs);
    }
}

#[test]
fn error_messages() {
    assert_eq!(VolumeError::Unchanged.message(), "Value wasn't changed");
    assert_eq!(VolumeError::Empty.message(), "".parse::<u8>().unwrap_err().to_string());
    assert_eq!(VolumeError::InvalidDigit.message(), "x".parse::<u8>().unwrap_err().to_string());
    assert_eq!(VolumeError::Overflow.message(), "256".parse::<u8>().unwrap_err().to_string());
}

#[test]
fn muted_sink_reads_zero() {
    assert_eq!(sink_volume(&sink(true, " 80%")), Ok(0));
    assert_eq!(sink_volume(&sink(true, "garbage")), Ok(0));
    assert_eq!(sink_volume(&sink(false, " 80%")), Ok(80));
    assert_eq!(sink_volume(&sink(false, "garbage")), Err(VolumeError::InvalidDigit));
}

#[test]
fn last_sink_decides() {
    assert_eq!(read_volume(&[]), Err(VolumeError::Unchanged));
    assert_eq!(read_volume(&[sink(false, " 30%")]), Ok(30));
    assert_eq!(read_volume(&[sink(false, " 30%"), sink(true, " 90%")]), Ok(0));
    assert_eq!(read_volume(&[sink(true, " 30%"), sink(false, " 90%")]), Ok(90));
    assert_eq!(read_volume(&[sink(false, " 30%"), sink(false, "300%")]), Err(VolumeError::Overflow));
}

#[test]
fn get_volume() {
    let sinks = [sink(false, " 45%")];

    match read_volume(&sinks) {
        Ok(value) => println!("{value}"),
        Err(why) => panic!("{why}", why = why.message()),
    }
}

#[test]
fn connection_setup_steps() {
    assert_eq!(connect_step(ContextState::Ready), ConnectStep::Proceed);
    assert_eq!(connect_step(ContextState::Failed), ConnectStep::GiveUp);
    assert_eq!(connect_step(ContextState::Terminated), ConnectStep::GiveUp);
    assert_eq!(connect_step(ContextState::Unconnected), ConnectStep::Iterate);
    assert_eq!(connect_step(ContextState::Connecting), ConnectStep::Iterate);
    assert_eq!(connect_step(ContextState::Authorizing), ConnectStep::Iterate);
    assert_eq!(connect_step(ContextState::SettingName), ConnectStep::Iterate);
}

#[test]
fn overview_command_splits_into_program_and_arguments() {
    assert_eq!(split_command(OVERVIEW_COMMAND), vec!["niri", "msg", "action", "open-overview"]);
}

#[test]
fn split_keeps_empty_words() {
    assert_eq!(split_command(""), vec![""]);
    assert_eq!(split_command("ls"), vec!["ls"]);
    assert_eq!(split_command("a  b"), vec!["a", "", "b"]);
    assert_eq!(split_command(" a "), vec!["", "a", ""]);
    assert_eq!(split_command("é ü\tx"), vec!["é", "ü\tx"]);
    for line in ["", " ", "a b c", "  x  ", "one"] {
        let ours = split_command(line);
        let theirs: Vec<String> = line.split(' ').map(|word| word.to_string()).collect();
        assert_eq!(ours, theirs);
        assert_eq!(ours.join(" "), line);
    }
}

#[test]
fn text_helpers() {
    assert_eq!(chars_of("añb"), vec!['a', 'ñ', 'b']);
    assert_eq!(chars_of(""), Vec::<char>::new());
    let chars = chars_of("ab cd e");
    assert_eq!(find_next(&chars, 0, ' '), 2);
    assert_eq!(find_next(&chars, 2, ' '), 2);
    assert_eq!(find_next(&chars, 3, ' '), 5);
    assert_eq!(find_next(&chars, 6, ' '), 7);
    assert_eq!(find_next(&chars, 7, ' '), 7);
}
