use vstd::prelude::*;
use crate::command::BattleCommand;
use crate::player::{
    Player, Weapon, add_capped, add_experience, sub_floor, subtract_floor, weapon_damage,
};

verus! {

/// The rolls that decide chance in a battle are drawn from `0..ROLL_RANGE`,
/// so a chance is written in hundredths.
pub const ROLL_RANGE: u8 = 100;

/// How hard an enemy hits, as a function of its health and a roll.
#[derive(Debug, Clone, Copy, PartialEq, Eq, Structural)]
pub struct DamageProfile {
    /// The usual blow.
    pub normal: u16,
    /// The blow dealt when the roll falls below `strong_chance`.
    pub strong: u16,
    /// The chance of a strong blow, in hundredths.
    pub strong_chance: u8,
    /// The blow dealt below `enrage_below` health, whatever the roll; an
    /// `enrage_below` of zero means the enemy never enrages.
    pub enraged: u16,
    pub enrage_below: u16,
}

/// The blow an enemy with `profile` and `health` left deals on `roll`.
pub open spec fn blow(profile: DamageProfile, health: u16, roll: u8) -> u16 {
    if health < profile.enrage_below {
        profile.enraged
    } else if roll < profile.strong_chance {
        profile.strong
    } else {
        profile.normal
    }
}

impl DamageProfile {
    /// The blow dealt with `health` left, on `roll`.
    pub fn blow(&self, health: u16, roll: u8) -> (r: u16)
        ensures
            r == blow(*self, health, roll),
    {
        if health < self.enrage_below {
            self.enraged
        } else if roll < self.strong_chance {
            self.strong
        } else {
            self.normal
        }
    }
}

/// A foe met in one battle.
pub struct Enemy {
    pub name: String,
    pub health: u16,
    pub damage: DamageProfile,
    /// The experience the player earns by winning.
    pub reward: u32,
    /// The chance, in hundredths, that the enemy stops an escape.
    pub flee_resistance: u8,
}

impl Enemy {
    /// An enemy with the given traits.
    pub fn new(
        name: String,
        health: u16,
        damage: DamageProfile,
        reward: u32,
        flee_resistance: u8,
    ) -> (r: Enemy)
        ensures
            r.name@ == name@,
            r.health == health,
            r.damage == damage,
            r.reward == reward,
            r.flee_resistance == flee_resistance,
    {
        Enemy { name, health, damage, reward, flee_resistance }
    }

    /// A second enemy like this one.
    pub fn duplicate(&self) -> (r: Enemy)
        ensures
            r.name@ == self.name@,
            r.health == self.health,
            r.damage == self.damage,
            r.reward == self.reward,
            r.flee_resistance == self.flee_resistance,
    {
        Enemy {
            name: self.name.clone(),
            health: self.health,
            damage: self.damage,
            reward: self.reward,
            flee_resistance: self.flee_resistance,
        }
    }
}

/// Where a battle stands.
#[derive(Debug, Clone, Copy, PartialEq, Eq, Structural)]
pub enum BattleState {
    AwaitingCommand,
    Victory,
    Fled,
    Defeat,
}

/// What one battle command led to.
#[derive(Debug, Clone, Copy, PartialEq, Eq, Structural)]
pub enum TurnOutcome {
    /// Both sides struck and both stand.
    Exchanged { dealt: u16, taken: u16 },
    /// The enemy fell; it strikes no more, and the player earned `experience`.
    Victory { dealt: u16, experience: u32 },
    /// The enemy struck back and the player fell.
    Defeat { dealt: u16, taken: u16 },
    /// The enemy stopped the escape; nobody struck.
    RunFailed,
    /// The player got away.
    Fled,
    /// The player asked for their health; nothing happened.
    ShowHealth,
    /// The player asked for the commands; nothing happened.
    ShowOptions,
}

/// The state a battle is in after `o`.
pub open spec fn state_after(o: TurnOutcome) -> BattleState {
    match o {
        TurnOutcome::Victory { .. } => BattleState::Victory,
        TurnOutcome::Defeat { .. } => BattleState::Defeat,
        TurnOutcome::Fled => BattleState::Fled,
        _ => BattleState::AwaitingCommand,
    }
}

impl TurnOutcome {
    /// The state the battle is in after this outcome.
    pub fn state(&self) -> (r: BattleState)
        ensures
            r == state_after(*self),
    {
        match self {
            TurnOutcome::Victory { .. } => BattleState::Victory,
            TurnOutcome::Defeat { .. } => BattleState::Defeat,
            TurnOutcome::Fled => BattleState::Fled,
            _ => BattleState::AwaitingCommand,
        }
    }

    /// Whether the battle is over.
    pub fn is_over(&self) -> (r: bool)
        ensures
            r == (state_after(*self) != BattleState::AwaitingCommand),
    {
        match self {
            TurnOutcome::Victory { .. } | TurnOutcome::Defeat { .. } | TurnOutcome::Fled => true,
            _ => false,
        }
    }
}

/// One turn: from the command, the player's weapon, health and experience,
/// the enemy, and the two rolls, to the player's health and experience, the
/// enemy's health, and the outcome after it.
pub open spec fn turn(
    cmd: BattleCommand,
    weapon: Weapon,
    health: u16,
    experience: u32,
    enemy: &Enemy,
    flee_roll: u8,
    damage_roll: u8,
) -> (u16, u32, u16, TurnOutcome) {
    match cmd {
        BattleCommand::Attack => {
            let dealt = weapon_damage(weapon);
            let left = sub_floor(enemy.health, dealt);
            if left == 0 {
                (
                    health,
                    add_capped(experience, enemy.reward),
                    0,
                    TurnOutcome::Victory { dealt, experience: enemy.reward },
                )
            } else {
                let taken = blow(enemy.damage, left, damage_roll);
                let after = sub_floor(health, taken);
                if after == 0 {
                    (after, experience, left, TurnOutcome::Defeat { dealt, taken })
                } else {
                    (after, experience, left, TurnOutcome::Exchanged { dealt, taken })
                }
            }
        },
        BattleCommand::Run => {
            if flee_roll < enemy.flee_resistance {
                (health, experience, enemy.health, TurnOutcome::RunFailed)
            } else {
                (health, experience, enemy.health, TurnOutcome::Fled)
            }
        },
        BattleCommand::Health => (health, experience, enemy.health, TurnOutcome::ShowHealth),
        BattleCommand::Options => (health, experience, enemy.health, TurnOutcome::ShowOptions),
    }
}

/// `p1` is `p0` but for health and experience.
pub open spec fn same_player(p0: &Player, p1: &Player) -> bool {
    &&& p1.location == p0.location
    &&& p1.max_health == p0.max_health
    &&& p1.weapon == p0.weapon
    &&& p1.flags@ == p0.flags@
}

/// `e1` is `e0` but for health.
pub open spec fn same_enemy(e0: &Enemy, e1: &Enemy) -> bool {
    &&& e1.name@ == e0.name@
    &&& e1.damage == e0.damage
    &&& e1.reward == e0.reward
    &&& e1.flee_resistance == e0.flee_resistance
}

/// Carries out one battle command with the given rolls. A blow that fells the
/// enemy ends the battle before it can strike back.
pub fn resolve_turn(
    player: &mut Player,
    enemy: &mut Enemy,
    cmd: BattleCommand,
    flee_roll: u8,
    damage_roll: u8,
) -> (r: TurnOutcome)
    requires
        old(player).wf(),
    ensures
        final(player).wf(),
        same_player(old(player), final(player)),
        same_enemy(old(enemy), final(enemy)),
        (final(player).health, final(player).experience, final(enemy).health, r) == turn(
            cmd,
            old(player).weapon,
            old(player).health,
            old(player).experience,
            old(enemy),
            flee_roll,
            damage_roll,
        ),
{
    match cmd {
        BattleCommand::Attack => {
            let dealt = player.weapon.damage();
            enemy.health = subtract_floor(enemy.health, dealt);
            if enemy.health == 0 {
                player.experience = add_experience(player.experience, enemy.reward);
                TurnOutcome::Victory { dealt, experience: enemy.reward }
            } else {
                let taken = enemy.damage.blow(enemy.health, damage_roll);
                player.take_damage(taken);
                if player.health == 0 {
                    TurnOutcome::Defeat { dealt, taken }
                } else {
                    TurnOutcome::Exchanged { dealt, taken }
                }
            }
        },
        BattleCommand::Run => {
            if flee_roll < enemy.flee_resistance {
                TurnOutcome::RunFailed
            } else {
                TurnOutcome::Fled
            }
        },
        BattleCommand::Health => TurnOutcome::ShowHealth,
        BattleCommand::Options => TurnOutcome::ShowOptions,
    }
}

/// Relies on `fastrand::u8`: a value drawn from `0..n`, which it panics on
/// only when the range is empty.
#[verifier::external_body]
fn roll_below(n: u8) -> (r: u8)
    requires
        n > 0,
    ensures
        r < n,
{
    fastrand::u8(0..n)
}

/// Carries out one battle command, drawing the rolls at random.
pub fn take_turn(player: &mut Player, enemy: &mut Enemy, cmd: BattleCommand) -> (r: TurnOutcome)
    requires
        old(player).wf(),
    ensures
        final(player).wf(),
        same_player(old(player), final(player)),
        same_enemy(old(enemy), final(enemy)),
        exists|flee_roll: u8, damage_roll: u8|
            flee_roll < ROLL_RANGE && damage_roll < ROLL_RANGE && (
            final(player).health,
            final(player).experience,
            final(enemy).health,
            r,
            ) == turn(
                cmd,
                old(player).weapon,
                old(player).health,
                old(player).experience,
                old(enemy),
                flee_roll,
                damage_roll,
            ),
{
    let flee_roll = roll_below(ROLL_RANGE);
    let damage_roll = roll_below(ROLL_RANGE);
    resolve_turn(player, enemy, cmd, flee_roll, damage_roll)
}

/// Health on both sides only falls or stays in a turn, and never below zero
/// since it is unsigned; experience only rises.
pub proof fn lemma_turn_monotone(
    cmd: BattleCommand,
    weapon: Weapon,
    health: u16,
    experience: u32,
    enemy: &Enemy,
    flee_roll: u8,
    damage_roll: u8,
)
    ensures
        ({
            let (h, x, eh, _) = turn(
                cmd,
                weapon,
                health,
                experience,
                enemy,
                flee_roll,
                damage_roll,
            );
            h <= health && eh <= enemy.health && x >= experience
        }),
{
}

/// An enemy that resists every escape (a chance of a full hundred hundredths
/// or more) can never be fled from: each attempt fails and nobody is hurt.
pub proof fn lemma_no_escape(
    weapon: Weapon,
    health: u16,
    experience: u32,
    enemy: &Enemy,
    flee_roll: u8,
    damage_roll: u8,
)
    requires
        enemy.flee_resistance >= ROLL_RANGE,
        flee_roll < ROLL_RANGE,
    ensures
        turn(BattleCommand::Run, weapon, health, experience, enemy, flee_roll, damage_roll) == (
            health,
            experience,
            enemy.health,
            TurnOutcome::RunFailed,
        ),
{
}

/// From an enemy with no resistance the player always gets away at once,
/// without a blow in return.
pub proof fn lemma_free_escape(
    weapon: Weapon,
    health: u16,
    experience: u32,
    enemy: &Enemy,
    flee_roll: u8,
    damage_roll: u8,
)
    requires
        enemy.flee_resistance == 0,
    ensures
        turn(BattleCommand::Run, weapon, health, experience, enemy, flee_roll, damage_roll) == (
            health,
            experience,
            enemy.health,
            TurnOutcome::Fled,
        ),
        state_after(TurnOutcome::Fled) == BattleState::Fled,
{
}

/// When the enemy survives an attack and strikes back at least as hard as the
/// player's remaining health, the player is defeated with no health left and
/// the battle is over.
pub proof fn lemma_defeat(
    weapon: Weapon,
    health: u16,
    experience: u32,
    enemy: &Enemy,
    flee_roll: u8,
    damage_roll: u8,
)
    requires
        sub_floor(enemy.health, weapon_damage(weapon)) > 0,
        blow(enemy.damage, sub_floor(enemy.health, weapon_damage(weapon)), damage_roll) >= health,
    ensures
        ({
            let (h, _, _, o) = turn(
                BattleCommand::Attack,
                weapon,
                health,
                experience,
                enemy,
                flee_roll,
                damage_roll,
            );
            h == 0 && o is Defeat && state_after(o) == BattleState::Defeat
        }),
{
}

} // verus!
