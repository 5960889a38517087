use vstd::prelude::*;
use crate::direction::MovementCommand;
use crate::text::{is_word, normalize, normalized};

verus! {

/// An order typed at the main prompt.
#[derive(Debug, Clone, Copy, PartialEq, Eq, Structural)]
pub enum Command {
    North,
    South,
    East,
    West,
    Help,
    Location,
    Objects,
    Interact,
    Examine,
    Save,
    Quit,
}

/// The command that the (already normalized) word `s` names, if any.
pub open spec fn command_of(s: Seq<char>) -> Option<Command> {
    if s == "north"@ || s == "n"@ {
        Some(Command::North)
    } else if s == "south"@ || s == "s"@ {
        Some(Command::South)
    } else if s == "east"@ || s == "e"@ {
        Some(Command::East)
    } else if s == "west"@ || s == "w"@ {
        Some(Command::West)
    } else if s == "help"@ {
        Some(Command::Help)
    } else if s == "location"@ || s == "l"@ || s == "loc"@ {
        Some(Command::Location)
    } else if s == "objects"@ || s == "o"@ {
        Some(Command::Objects)
    } else if s == "interact"@ || s == "i"@ {
        Some(Command::Interact)
    } else if s == "examine"@ {
        Some(Command::Examine)
    } else if s == "save"@ {
        Some(Command::Save)
    } else if s == "quit"@ || s == "exit"@ || s == "close"@ {
        Some(Command::Quit)
    } else {
        None
    }
}

/// The direction a movement command stands for.
pub open spec fn movement_of(c: Command) -> Option<MovementCommand> {
    match c {
        Command::North => Some(MovementCommand::North),
        Command::South => Some(MovementCommand::South),
        Command::East => Some(MovementCommand::East),
        Command::West => Some(MovementCommand::West),
        _ => None,
    }
}

impl Command {
    /// Reads a command from a normalized word.
    pub fn from_str(string: String) -> (r: Option<Command>)
        ensures
            r == command_of(string@),
    {
        if is_word(&string, "north") || is_word(&string, "n") {
            Some(Command::North)
        } else if is_word(&string, "south") || is_word(&string, "s") {
            Some(Command::South)
        } else if is_word(&string, "east") || is_word(&string, "e") {
            Some(Command::East)
        } else if is_word(&string, "west") || is_word(&string, "w") {
            Some(Command::West)
        } else if is_word(&string, "help") {
            Some(Command::Help)
        } else if is_word(&string, "location") || is_word(&string, "l") || is_word(
            &string,
            "loc",
        ) {
            Some(Command::Location)
        } else if is_word(&string, "objects") || is_word(&string, "o") {
            Some(Command::Objects)
        } else if is_word(&string, "interact") || is_word(&string, "i") {
            Some(Command::Interact)
        } else if is_word(&string, "examine") {
            Some(Command::Examine)
        } else if is_word(&string, "save") {
            Some(Command::Save)
        } else if is_word(&string, "quit") || is_word(&string, "exit") || is_word(
            &string,
            "close",
        ) {
            Some(Command::Quit)
        } else {
            None
        }
    }

    /// Reads a typed line into `buffer`; a line that names no command leaves
    /// `buffer` as it was and is reported as an error.
    pub fn get_buffer(buffer: &mut Command, line: &str) -> (r: Result<(), ()>)
        ensures
            match command_of(normalized(line@)) {
                Some(c) => r is Ok && *final(buffer) == c,
                None => r is Err && *final(buffer) == *old(buffer),
            },
    {
        match Command::from_str(normalize(line)) {
            Some(v) => {
                *buffer = v;
                Ok(())
            },
            None => Err(()),
        }
    }
}

impl MovementCommand {
    /// The direction of a movement command; any other command is refused.
    pub fn try_from(value: Command) -> (r: Result<MovementCommand, ()>)
        ensures
            match movement_of(value) {
                Some(d) => r == Ok::<MovementCommand, ()>(d),
                None => r is Err,
            },
    {
        match value {
            Command::North => Ok(MovementCommand::North),
            Command::South => Ok(MovementCommand::South),
            Command::East => Ok(MovementCommand::East),
            Command::West => Ok(MovementCommand::West),
            _ => Err(()),
        }
    }
}

/// An answer to a yes-or-no question.
#[derive(Debug, Clone, Copy, PartialEq, Eq, Structural)]
pub enum YN {
    Yes,
    No,
}

/// The answer that the normalized word `s` gives, if any.
pub open spec fn answer_of(s: Seq<char>) -> Option<YN> {
    if s == "y"@ || s == "yes"@ {
        Some(YN::Yes)
    } else if s == "n"@ || s == "no"@ {
        Some(YN::No)
    } else {
        None
    }
}

impl YN {
    /// Reads an answer from a normalized word.
    pub fn from_string(string: String) -> (r: Option<YN>)
        ensures
            r == answer_of(string@),
    {
        if is_word(&string, "y") || is_word(&string, "yes") {
            Some(YN::Yes)
        } else if is_word(&string, "n") || is_word(&string, "no") {
            Some(YN::No)
        } else {
            None
        }
    }
}

/// An order typed during a battle.
#[derive(Debug, Clone, Copy, PartialEq, Eq, Structural)]
pub enum BattleCommand {
    Attack,
    Run,
    Health,
    Options,
}

/// The battle command that the normalized word `s` names, if any.
pub open spec fn battle_command_of(s: Seq<char>) -> Option<BattleCommand> {
    if s == "attack"@ {
        Some(BattleCommand::Attack)
    } else if s == "run"@ {
        Some(BattleCommand::Run)
    } else if s == "health"@ {
        Some(BattleCommand::Health)
    } else if s == "options"@ || s == "help"@ {
        Some(BattleCommand::Options)
    } else {
        None
    }
}

impl BattleCommand {
    /// Reads a battle command from a typed line, ignoring case and
    /// surrounding white space.
    pub fn parse(line: &str) -> (r: Option<BattleCommand>)
        ensures
            r == battle_command_of(normalized(line@)),
    {
        let s = normalize(line);
        if is_word(&s, "attack") {
            Some(BattleCommand::Attack)
        } else if is_word(&s, "run") {
            Some(BattleCommand::Run)
        } else if is_word(&s, "health") {
            Some(BattleCommand::Health)
        } else if is_word(&s, "options") || is_word(&s, "help") {
            Some(BattleCommand::Options)
        } else {
            None
        }
    }
}

} // verus!
