use text_game::{normalize, BattleCommand, Command, Format, YN};

#[test]
fn commands_and_their_short_forms() {
    let cases = [
        ("north", Command::North),
        ("n", Command::North),
        ("south", Command::South),
        ("s", Command::South),
        ("east", Command::East),
        ("e", Command::East),
        ("west", Command::West),
        ("w", Command::West),
        ("help", Command::Help),
        ("location", Command::Location),
        ("l", Command::Location),
        ("loc", Command::Location),
        ("objects", Command::Objects),
        ("o", Command::Objects),
        ("interact", Command::Interact),
        ("i", Command::Interact),
        ("examine", Command::Examine),
        ("save", Command::Save),
        ("quit", Command::Quit),
        ("exit", Command::Quit),
        ("close", Command::Quit),
    ];
    for (word, cmd) in cases {
        assert_eq!(Command::from_str(word.to_string()), Some(cmd), "{}", word);
    }
}

#[test]
fn unknown_command_is_refused() {
    assert_eq!(Command::from_str("jump".to_string()), None);
    assert_eq!(Command::from_str(String::new()), None);
    assert_eq!(Command::from_str("North".to_string()), None);
}

#[test]
fn get_buffer_normalizes_the_line() {
    let mut buffer = Command::Quit;
    assert_eq!(Command::get_buffer(&mut buffer, "  NORTH \n"), Ok(()));
    assert_eq!(buffer, Command::North);
    assert_eq!(Command::get_buffer(&mut buffer, "Loc\r\n"), Ok(()));
    assert_eq!(buffer, Command::Location);
}

#[test]
fn get_buffer_keeps_buffer_on_bad_input() {
    let mut buffer = Command::Help;
    assert_eq!(Command::get_buffer(&mut buffer, "dance\n"), Err(()));
    assert_eq!(buffer, Command::Help);
}

#[test]
fn yes_no_answers() {
    assert_eq!(YN::from_string("y".to_string()), Some(YN::Yes));
    assert_eq!(YN::from_string("yes".to_string()), Some(YN::Yes));
    assert_eq!(YN::from_string("n".to_string()), Some(YN::No));
    assert_eq!(YN::from_string("no".to_string()), Some(YN::No));
    assert_eq!(YN::from_string("maybe".to_string()), None);
}

#[test]
fn battle_commands() {
    assert_eq!(BattleCommand::parse("attack"), Some(BattleCommand::Attack));
    assert_eq!(BattleCommand::parse("  RUN\n"), Some(BattleCommand::Run));
    assert_eq!(BattleCommand::parse("Health"), Some(BattleCommand::Health));
    assert_eq!(BattleCommand::parse("options"), Some(BattleCommand::Options));
    assert_eq!(BattleCommand::parse("help"), Some(BattleCommand::Options));
    assert_eq!(BattleCommand::parse("flee"), None);
}

#[test]
fn format_trims_and_lowers() {
    assert_eq!("  North Door ".to_string().fmt(), "north door");
    assert_eq!("\tHeLLo\n".to_string().fmt(), "hello");
    assert_eq!("inner  Space".to_string().fmt(), "inner  space");
    assert_eq!("   ".to_string().fmt(), "");
}

#[test]
fn normalize_keeps_non_ascii_letters() {
    assert_eq!(normalize("\u{3000}ÉCOLE\u{2003}"), "\u{c9}cole");
}
