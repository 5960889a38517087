use vstd::prelude::*;
use crate::battle::{DamageProfile, Enemy, blow};
use crate::cutscene::Cutscene;
use crate::direction::MovementCommand;
use crate::text::{is_white_space, lowered, normalized, trim_end, trim_start, trimmed};
use crate::world::{AreaObject, Behavior, Door, Fight, Location, World};

verus! {

/// The lines of the opening scene.
pub open spec fn opening_lines() -> Seq<(Seq<char>, nat)> {
    seq![
        ("Welcome to the game!\n"@, 2000nat),
        ("You find yourself in a strange clearing."@, 2000nat),
        ("There is a deep cave nearby."@, 1500nat),
    ]
}

/// `o` is the character who explains the short forms of commands.
pub open spec fn is_test_npc(o: AreaObject) -> bool {
    &&& o.name@ == "Test NPC"@
    &&& o.desc@ == "An NPC for testing purposes."@
    &&& match o.behavior {
        Behavior::Talk(c) => c@ == seq![
            ("Test NPC: Hello!"@, 750nat),
            ("Test NPC: Did you know that you can use shortened forms of commands?"@, 1500nat),
            ("Test NPC: For example, you can type n instead of north."@, 1500nat),
            ("Test NPC: You can even type i to interact with things!"@, 1500nat),
        ],
        _ => false,
    }
}

/// The blows of the weak enemy: 2 on a fifth of rolls, else 1, whatever its
/// health.
pub open spec fn goomba_blows() -> DamageProfile {
    DamageProfile { normal: 1, strong: 2, strong_chance: 20, enraged: 0, enrage_below: 0 }
}

/// The blows of the boss: 2 at its last point of health, else 1.
pub open spec fn boss_blows() -> DamageProfile {
    DamageProfile { normal: 1, strong: 1, strong_chance: 0, enraged: 2, enrage_below: 2 }
}

/// `o` is the weak enemy: 5 health, worth 1 experience, stopping four
/// escapes in five, and left in its room after a win.
pub open spec fn is_test_enemy(o: AreaObject) -> bool {
    &&& o.name@ == "Not Goomba"@
    &&& o.desc@ == "An enemy for testing purposes."@
    &&& match o.behavior {
        Behavior::Fight(f) => {
            &&& f.enemy.name@ == "Not Goomba"@
            &&& f.enemy.health == 5
            &&& f.enemy.damage == goomba_blows()
            &&& f.enemy.reward == 1
            &&& f.enemy.flee_resistance == 80
            &&& f.victory_flag is None
            &&& f.victory_scene@ == Seq::<(Seq<char>, nat)>::empty()
            &&& !f.consumed
        },
        _ => false,
    }
}

/// `o` is the boss: 8 health, worth 10 experience, never stopping an
/// escape; a win sets the treasure flag, plays a scene and removes it.
pub open spec fn is_boss(o: AreaObject) -> bool {
    &&& o.name@ == "BOSS"@
    &&& o.desc@ == "THE BOSS"@
    &&& match o.behavior {
        Behavior::Fight(f) => {
            &&& f.enemy.name@ == "BOSS"@
            &&& f.enemy.health == 8
            &&& f.enemy.damage == boss_blows()
            &&& f.enemy.reward == 10
            &&& f.enemy.flee_resistance == 0
            &&& f.victory_flag matches Some(k) && k@ == "treasure1"@
            &&& f.victory_scene@ == seq![("The lock on the north door falls off."@, 1000nat)]
            &&& f.consumed
        },
        _ => false,
    }
}

/// `o` is the door that the treasure flag opens north into the treasure
/// room, which also opens west onto the room `cave`.
pub open spec fn is_treasure_door(o: AreaObject, cave: usize) -> bool {
    &&& o.name@ == "North Door"@
    &&& o.desc@ == "A locked door that leads north."@
    &&& match o.behavior {
        Behavior::Door(d) => {
            &&& d.key_flag@ == "treasure1"@
            &&& d.room_name@ == "Treasure Room"@
            &&& d.direction == MovementCommand::North
            &&& d.side_exit == Some((MovementCommand::West, cave))
            &&& d.opened@ == seq![("The door slowly opens."@, 1000nat)]
            &&& d.locked@ == seq![("You do not have the key to this door."@, 1000nat)]
        },
        _ => false,
    }
}

/// `o` is the object in the clearing that plays the opening scene.
pub open spec fn is_dev_test(o: AreaObject) -> bool {
    &&& o.name@ == "Dev Test"@
    &&& o.desc@ == "This object triggers test code for development purposes."@
    &&& match o.behavior {
        Behavior::Talk(c) => c@ == opening_lines(),
        _ => false,
    }
}

/// The weak enemy's blow depends on the roll alone, never on its health.
pub proof fn lemma_goomba_ignores_health(health: u16, roll: u8)
    ensures
        blow(goomba_blows(), health, roll) == if roll < 20 {
            2u16
        } else {
            1u16
        },
{
}

/// The opening scene.
pub fn get_test_cutscene() -> (r: Cutscene)
    ensures
        r@ == opening_lines(),
{
    let mut c = Cutscene::new();
    c.add("Welcome to the game!\n", 2000);
    c.add("You find yourself in a strange clearing.", 2000);
    c.add("There is a deep cave nearby.", 1500);
    c
}

/// A character who explains the short forms of commands.
pub fn get_test_npc() -> (r: AreaObject)
    ensures
        is_test_npc(r),
{
    let mut c = Cutscene::new();
    c.add("Test NPC: Hello!", 750);
    c.add("Test NPC: Did you know that you can use shortened forms of commands?", 1500);
    c.add("Test NPC: For example, you can type n instead of north.", 1500);
    c.add("Test NPC: You can even type i to interact with things!", 1500);
    let ghost lines = c@;
    let r = AreaObject::new("Test NPC", "An NPC for testing purposes.", Behavior::Talk(c));
    assert(r.behavior == Behavior::Talk(c));
    assert(lines == seq![
        ("Test NPC: Hello!"@, 750nat),
        ("Test NPC: Did you know that you can use shortened forms of commands?"@, 1500nat),
        ("Test NPC: For example, you can type n instead of north."@, 1500nat),
        ("Test NPC: You can even type i to interact with things!"@, 1500nat),
    ]);
    r
}

/// A weak enemy that now and then lands a strong blow and is hard to flee.
pub fn get_test_enemy() -> (r: AreaObject)
    ensures
        is_test_enemy(r),
{
    let damage = DamageProfile {
        normal: 1,
        strong: 2,
        strong_chance: 20,
        enraged: 0,
        enrage_below: 0,
    };
    let fight = Fight {
        enemy: Enemy::new("Not Goomba".to_owned(), 5, damage, 1, 80),
        victory_flag: None,
        victory_scene: Cutscene::new(),
        consumed: false,
    };
    AreaObject::new("Not Goomba", "An enemy for testing purposes.", Behavior::Fight(fight))
}

/// The boss: it hits harder at its last point of health, never stops an
/// escape, and once beaten leaves its room and hands the player the treasure
/// flag.
pub fn boss() -> (r: AreaObject)
    ensures
        is_boss(r),
{
    let damage = DamageProfile {
        normal: 1,
        strong: 1,
        strong_chance: 0,
        enraged: 2,
        enrage_below: 2,
    };
    let mut scene = Cutscene::new();
    scene.add("The lock on the north door falls off.", 1000);
    let fight = Fight {
        enemy: Enemy::new("BOSS".to_owned(), 8, damage, 10, 0),
        victory_flag: Some("treasure1".to_owned()),
        victory_scene: scene,
        consumed: true,
    };
    AreaObject::new("BOSS", "THE BOSS", Behavior::Fight(fight))
}

/// The door north of the boss room, opened by the treasure flag; the room
/// behind it also opens west onto the room `cave`.
pub fn treasure_door(cave: usize) -> (r: AreaObject)
    ensures
        is_treasure_door(r, cave),
{
    let mut opened = Cutscene::new();
    opened.add("The door slowly opens.", 1000);
    let mut locked = Cutscene::new();
    locked.add("You do not have the key to this door.", 1000);
    let door = Door {
        key_flag: "treasure1".to_owned(),
        room_name: "Treasure Room".to_owned(),
        direction: MovementCommand::North,
        side_exit: Some((MovementCommand::West, cave)),
        opened,
        locked,
    };
    AreaObject::new("North Door", "A locked door that leads north.", Behavior::Door(door))
}

/// Text that neither starts nor ends with white space normalizes to as many
/// characters.
proof fn lemma_normalized_len(s: Seq<char>)
    requires
        s.len() > 0,
        !is_white_space(s[0]),
        !is_white_space(s.last()),
    ensures
        normalized(s).len() == s.len(),
{
    assert(trim_start(s) == s);
    assert(trim_end(s) == s);
    assert(trimmed(s) == s);
    assert(lowered(s).len() == s.len());
}

/// The starting world, six rooms with fixed handles: the cave (0), the depths
/// (1), the boss room (2), the village road (3), the village (4) and the
/// clearing (5), where the player starts. The clearing leads west to the
/// road and on to the village, and south to the cave, whose depths lead east
/// to the boss room; every link runs both ways and no other exit exists.
/// Returns the world and the handle of the clearing.
pub fn get_locations() -> (r: (World, usize))
    ensures
        r.0.wf(),
        r.1 == 5,
        ({
            let rooms = r.0@;
            &&& rooms.len() == 6
            &&& rooms[0].name == "Cave"@
            &&& rooms[1].name == "Depths"@
            &&& rooms[2].name == "Boss Room"@
            &&& rooms[3].name == "Village Road"@
            &&& rooms[4].name == "Village"@
            &&& rooms[5].name == "Clearing"@
            // (north, south, west, east)
            &&& rooms[0].exit_set() == (Some(5usize), Some(1usize), None::<usize>, None::<usize>)
            &&& rooms[1].exit_set() == (Some(0usize), None::<usize>, None::<usize>, Some(2usize))
            &&& rooms[2].exit_set() == (None::<usize>, None::<usize>, Some(1usize), None::<usize>)
            &&& rooms[3].exit_set() == (None::<usize>, None::<usize>, Some(4usize), Some(5usize))
            &&& rooms[4].exit_set() == (None::<usize>, None::<usize>, None::<usize>, Some(3usize))
            &&& rooms[5].exit_set() == (None::<usize>, Some(0usize), Some(3usize), None::<usize>)
            &&& rooms[0].objects == Map::<Seq<char>, AreaObject>::empty()
            &&& rooms[1].objects == Map::<Seq<char>, AreaObject>::empty()
            &&& rooms[3].objects == Map::<Seq<char>, AreaObject>::empty()
            &&& rooms[2].objects.dom() == set![normalized("BOSS"@), normalized("North Door"@)]
            &&& is_boss(rooms[2].objects[normalized("BOSS"@)])
            &&& is_treasure_door(rooms[2].objects[normalized("North Door"@)], 0)
            &&& rooms[4].objects.dom() == set![normalized("Test NPC"@)]
            &&& is_test_npc(rooms[4].objects[normalized("Test NPC"@)])
            &&& rooms[5].objects.dom() == set![normalized("Dev Test"@), normalized("Not Goomba"@)]
            &&& is_dev_test(rooms[5].objects[normalized("Dev Test"@)])
            &&& is_test_enemy(rooms[5].objects[normalized("Not Goomba"@)])
        }),
{
    proof {
        reveal_strlit("BOSS");
        reveal_strlit("North Door");
        reveal_strlit("Dev Test");
        reveal_strlit("Not Goomba");
        lemma_normalized_len("BOSS"@);
        lemma_normalized_len("North Door"@);
        lemma_normalized_len("Dev Test"@);
        lemma_normalized_len("Not Goomba"@);
    }
    let mut world = World::new();
    let cave = world.add_room(Location::new("Cave"));
    let depths = world.add_room(Location::new("Depths"));
    let boss_room = world.add_room(Location::new("Boss Room"));
    world.add_object(boss_room, boss());
    world.add_object(boss_room, treasure_door(cave));
    let village_road = world.add_room(Location::new("Village Road"));
    let village = world.add_room(Location::new("Village"));
    world.add_object(village, get_test_npc());
    let spawn = world.add_room(Location::new("Clearing"));
    world.add_object(
        spawn,
        AreaObject::new(
            "Dev Test",
            "This object triggers test code for development purposes.",
            Behavior::Talk(get_test_cutscene()),
        ),
    );
    world.add_object(spawn, get_test_enemy());
    Location::attach(&mut world, spawn, village_road, MovementCommand::West);
    Location::attach(&mut world, village_road, village, MovementCommand::West);
    Location::attach(&mut world, spawn, cave, MovementCommand::South);
    Location::attach(&mut world, cave, depths, MovementCommand::South);
    Location::attach(&mut world, depths, boss_room, MovementCommand::East);
    proof {
        let rooms = world@;
        assert(rooms[2].objects.dom() =~= set![normalized("BOSS"@), normalized("North Door"@)]);
        assert(rooms[4].objects.dom() =~= set![normalized("Test NPC"@)]);
        assert(rooms[5].objects.dom() =~= set![normalized("Dev Test"@), normalized("Not Goomba"@)]);
    }
    (world, spawn)
}

} // verus!
