use vstd::prelude::*;

verus! {

/// One of the four compass directions a room can be left by.
#[derive(Debug, Clone, Copy, PartialEq, Eq, Structural)]
pub enum MovementCommand {
    North,
    South,
    East,
    West,
}

/// The direction pointing the other way.
pub open spec fn opposite(d: MovementCommand) -> MovementCommand {
    match d {
        MovementCommand::North => MovementCommand::South,
        MovementCommand::South => MovementCommand::North,
        MovementCommand::East => MovementCommand::West,
        MovementCommand::West => MovementCommand::East,
    }
}

impl MovementCommand {
    /// The opposite direction: north and south pair up, as do east and west.
    pub fn flip(&self) -> (r: MovementCommand)
        ensures
            r == opposite(*self),
    {
        match self {
            MovementCommand::North => MovementCommand::South,
            MovementCommand::South => MovementCommand::North,
            MovementCommand::East => MovementCommand::West,
            MovementCommand::West => MovementCommand::East,
        }
    }

    /// Turns the direction around.
    pub fn flip_in_place(&mut self)
        ensures
            *final(self) == opposite(*old(self)),
    {
        *self = self.flip();
    }
}

/// Flipping twice gives the direction back, and no direction is its own
/// opposite.
pub proof fn lemma_flip_involution(d: MovementCommand)
    ensures
        opposite(opposite(d)) == d,
        opposite(d) != d,
{
}

} // verus!
