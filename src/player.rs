use vstd::prelude::*;
use crate::table::Table;

verus! {

/// `a - b`, or zero where `b` is the larger.
pub open spec fn sub_floor(a: u16, b: u16) -> u16 {
    if a <= b {
        0
    } else {
        (a - b) as u16
    }
}

/// `a + b`, or `u32::MAX` where the sum does not fit.
pub open spec fn add_capped(a: u32, b: u32) -> u32 {
    if a + b > u32::MAX {
        u32::MAX
    } else {
        (a + b) as u32
    }
}

/// Subtracts without going below zero.
pub fn subtract_floor(a: u16, b: u16) -> (r: u16)
    ensures
        r == sub_floor(a, b),
{
    a.saturating_sub(b)
}

/// Adds without wrapping past `u32::MAX`.
pub fn add_experience(a: u32, b: u32) -> (r: u32)
    ensures
        r == add_capped(a, b),
{
    a.saturating_add(b)
}

/// The health a new player starts with, and its ceiling.
pub const BASE_HEALTH: u16 = 10;

/// What the player fights with.
#[derive(Debug, Clone, Copy, PartialEq, Eq, Structural)]
pub enum Weapon {
    Fists,
    Stick,
    Sword,
}

/// The damage one blow with `w` deals.
pub open spec fn weapon_damage(w: Weapon) -> u16 {
    match w {
        Weapon::Fists => 1,
        Weapon::Stick => 2,
        Weapon::Sword => 3,
    }
}

impl Weapon {
    /// The damage one blow deals.
    pub fn damage(&self) -> (r: u16)
        ensures
            r == weapon_damage(*self),
    {
        match self {
            Weapon::Fists => 1,
            Weapon::Stick => 2,
            Weapon::Sword => 3,
        }
    }
}

/// The adventurer: where they stand, how they fare, and what they have done.
pub struct Player {
    /// The handle of the room the player is in.
    pub location: usize,
    pub health: u16,
    pub max_health: u16,
    pub experience: u32,
    pub weapon: Weapon,
    /// Named marks that objects set and test.
    pub flags: Table<bool>,
}

impl Player {
    /// Health stays within its ceiling and the flags are well formed.
    pub open spec fn wf(&self) -> bool {
        &&& self.health <= self.max_health
        &&& self.flags.wf()
    }

    /// A fresh player in room `location`, unarmed, at full health.
    pub fn new(location: usize) -> (r: Player)
        ensures
            r.wf(),
            r.location == location,
            r.health == BASE_HEALTH,
            r.max_health == BASE_HEALTH,
            r.experience == 0,
            r.weapon == Weapon::Fists,
            r.flags@ == Map::<Seq<char>, bool>::empty(),
    {
        Player {
            location,
            health: BASE_HEALTH,
            max_health: BASE_HEALTH,
            experience: 0,
            weapon: Weapon::Fists,
            flags: Table::new(),
        }
    }

    /// Loses `amount` health, stopping at zero.
    pub fn take_damage(&mut self, amount: u16)
        requires
            old(self).wf(),
        ensures
            final(self).wf(),
            final(self).health == sub_floor(old(self).health, amount),
            final(self).location == old(self).location,
            final(self).max_health == old(self).max_health,
            final(self).experience == old(self).experience,
            final(self).weapon == old(self).weapon,
            final(self).flags@ == old(self).flags@,
    {
        self.health = subtract_floor(self.health, amount);
    }

    /// Earns `amount` experience, stopping at the ceiling of the counter.
    pub fn gain_experience(&mut self, amount: u32)
        requires
            old(self).wf(),
        ensures
            final(self).wf(),
            final(self).experience == add_capped(old(self).experience, amount),
            final(self).location == old(self).location,
            final(self).health == old(self).health,
            final(self).max_health == old(self).max_health,
            final(self).weapon == old(self).weapon,
            final(self).flags@ == old(self).flags@,
    {
        self.experience = add_experience(self.experience, amount);
    }

    /// Whether the player has no health left.
    pub fn is_dead(&self) -> (r: bool)
        ensures
            r == (self.health == 0),
    {
        self.health == 0
    }

    /// Sets the flag `name` to `value`.
    pub fn set_flag(&mut self, name: &str, value: bool)
        requires
            old(self).wf(),
        ensures
            final(self).wf(),
            final(self).flags@ == old(self).flags@.insert(name@, value),
            final(self).location == old(self).location,
            final(self).health == old(self).health,
            final(self).max_health == old(self).max_health,
            final(self).experience == old(self).experience,
            final(self).weapon == old(self).weapon,
    {
        self.flags.insert(name.to_owned(), value);
    }

    /// Whether the flag `name` has been set, to any value.
    pub fn has_flag(&self, name: &str) -> (r: bool)
        requires
            self.wf(),
        ensures
            r == self.flags@.contains_key(name@),
    {
        self.flags.get(&name.to_owned()).is_some()
    }
}

/// Taking damage never drives health below zero, and once at zero it stays
/// there whatever more is taken.
pub proof fn lemma_damage_floor(health: u16, amount: u16)
    ensures
        sub_floor(health, amount) <= health,
        health <= amount ==> sub_floor(health, amount) == 0,
        sub_floor(0, amount) == 0,
        sub_floor(sub_floor(health, amount), amount) <= sub_floor(health, amount),
{
}

/// Experience never wraps: it never falls on a gain, and a gain past the
/// ceiling leaves it at the ceiling.
pub proof fn lemma_experience_capped(experience: u32, amount: u32)
    ensures
        add_capped(experience, amount) >= experience,
        add_capped(experience, amount) >= amount,
        experience + amount > u32::MAX ==> add_capped(experience, amount) == u32::MAX,
        add_capped(u32::MAX, amount) == u32::MAX,
{
}

} // verus!
