//! A turn-based text adventure core: a graph of rooms linked by compass
//! directions, objects that act on the player, and a battle state machine.
pub mod battle;
pub mod command;
pub mod cutscene;
pub mod demo;
pub mod direction;
pub mod player;
pub mod table;
pub mod text;
pub mod world;

pub use battle::{
    BattleState, DamageProfile, Enemy, ROLL_RANGE, TurnOutcome, resolve_turn, take_turn,
};
pub use command::{BattleCommand, Command, YN};
pub use cutscene::Cutscene;
pub use direction::MovementCommand;
pub use player::{BASE_HEALTH, Player, Weapon};
pub use table::Table;
pub use text::{Format, normalize};
pub use world::{AreaObject, Behavior, Door, Fight, Interaction, Location, World};
