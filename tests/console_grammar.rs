use aefr::bus::Command;
use aefr::console::{parse_console, ConsoleCommand};

#[test]
fn load_with_quoted_path() {
    match parse_console("LOAD 0 \"a.atlas\"") {
        Some(ConsoleCommand::Load { slot, path }) => {
            assert_eq!(slot, 0);
            assert_eq!(path, "a.atlas");
        }
        _ => panic!("expected a load"),
    }
}

#[test]
fn keyword_ignores_case_and_path_keeps_spaces() {
    match parse_console("  load 4   \"my dir/b c.atlas\"  ") {
        Some(ConsoleCommand::Load { slot, path }) => {
            assert_eq!(slot, 4);
            assert_eq!(path, "my dir/b c.atlas");
        }
        _ => panic!("expected a load"),
    }
}

#[test]
fn load_rejects_slot_out_of_range_or_missing_path() {
    assert!(parse_console("LOAD 5 a.atlas").is_none());
    assert!(parse_console("LOAD 12 a.atlas").is_none());
    assert!(parse_console("LOAD x a.atlas").is_none());
    assert!(parse_console("LOAD 1").is_none());
    assert!(parse_console("LOAD 1 \"\"").is_none());
}

#[test]
fn load_accepts_leading_zeros() {
    assert!(matches!(parse_console("LOAD 003 a"), Some(ConsoleCommand::Load { slot: 3, .. })));
}

#[test]
fn anim_defaults_to_looping() {
    match parse_console("ANIM 2 idle") {
        Some(ConsoleCommand::Anim { slot, clip, looping }) => {
            assert_eq!(slot, 2);
            assert_eq!(clip, "idle");
            assert!(looping);
        }
        _ => panic!("expected an anim"),
    }
}

#[test]
fn anim_loop_flag() {
    assert!(matches!(
        parse_console("anim 1 walk FALSE"),
        Some(ConsoleCommand::Anim { looping: false, .. })
    ));
    assert!(matches!(
        parse_console("Anim 1 walk True"),
        Some(ConsoleCommand::Anim { looping: true, .. })
    ));
    assert!(parse_console("ANIM 1").is_none());
}

#[test]
fn audio_and_background_commands() {
    match parse_console("BGM \"music/theme.ogg\"") {
        Some(ConsoleCommand::Bgm { path }) => assert_eq!(path, "music/theme.ogg"),
        _ => panic!("expected bgm"),
    }
    match parse_console("se click.wav") {
        Some(ConsoleCommand::Se { path }) => assert_eq!(path, "click.wav"),
        _ => panic!("expected se"),
    }
    match parse_console("bg room.png") {
        Some(ConsoleCommand::Bg { path }) => assert_eq!(path, "room.png"),
        _ => panic!("expected bg"),
    }
    assert!(matches!(parse_console(" STOP "), Some(ConsoleCommand::Stop)));
    assert!(parse_console("stop now").is_none());
}

#[test]
fn talk_needs_three_parts() {
    match parse_console("TALK Hoshino|Abydos|Good morning.") {
        Some(ConsoleCommand::Talk { name, affiliation, content }) => {
            assert_eq!(name, "Hoshino");
            assert_eq!(affiliation, "Abydos");
            assert_eq!(content, "Good morning.");
        }
        _ => panic!("expected talk"),
    }
    assert!(parse_console("TALK a|b").is_none());
    assert!(parse_console("TALK a|b|c|d").is_none());
}

#[test]
fn blank_and_unknown_lines_are_ignored() {
    assert!(parse_console("").is_none());
    assert!(parse_console("   \t ").is_none());
    assert!(parse_console("dance 1").is_none());
    assert!(parse_console("loadx 1 a").is_none());
}

#[test]
fn console_line_becomes_bus_event() {
    let c = parse_console("LOAD 1 x.atlas").unwrap();
    let cmd: Command<char, u8> = c.into_command();
    match cmd {
        Command::RequestLoad { slot, path } => {
            assert_eq!(slot, 1);
            assert_eq!(path, "x.atlas");
        }
        _ => panic!("expected a request"),
    }
}
