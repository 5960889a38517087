use text_game::{Command, MovementCommand};

const ALL: [MovementCommand; 4] = [
    MovementCommand::North,
    MovementCommand::South,
    MovementCommand::East,
    MovementCommand::West,
];

#[test]
fn flip_pairs_opposites() {
    assert_eq!(MovementCommand::North.flip(), MovementCommand::South);
    assert_eq!(MovementCommand::South.flip(), MovementCommand::North);
    assert_eq!(MovementCommand::East.flip(), MovementCommand::West);
    assert_eq!(MovementCommand::West.flip(), MovementCommand::East);
}

#[test]
fn flip_twice_is_identity_and_has_no_fixed_point() {
    for d in ALL {
        assert_eq!(d.flip().flip(), d);
        assert_ne!(d.flip(), d);
    }
}

#[test]
fn flip_in_place_turns_around() {
    let mut d = MovementCommand::East;
    d.flip_in_place();
    assert_eq!(d, MovementCommand::West);
    d.flip_in_place();
    assert_eq!(d, MovementCommand::East);
}

#[test]
fn movement_from_command() {
    assert_eq!(MovementCommand::try_from(Command::North), Ok(MovementCommand::North));
    assert_eq!(MovementCommand::try_from(Command::South), Ok(MovementCommand::South));
    assert_eq!(MovementCommand::try_from(Command::East), Ok(MovementCommand::East));
    assert_eq!(MovementCommand::try_from(Command::West), Ok(MovementCommand::West));
    assert_eq!(MovementCommand::try_from(Command::Help), Err(()));
    assert_eq!(MovementCommand::try_from(Command::Quit), Err(()));
}
