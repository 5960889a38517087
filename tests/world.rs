use text_game::{
    AreaObject, BattleState, Behavior, Cutscene, DamageProfile, Door, Enemy, Fight, Interaction,
    Location, MovementCommand, Player, World,
};

fn scene(line: &str) -> Cutscene {
    let mut c = Cutscene::new();
    c.add(line, 10);
    c
}

fn two_rooms() -> (World, usize, usize) {
    let mut w = World::new();
    let a = w.add_room(Location::new("Clearing"));
    let b = w.add_room(Location::new("Cave"));
    (w, a, b)
}

fn weak_enemy() -> Enemy {
    let profile = DamageProfile { normal: 1, strong: 1, strong_chance: 0, enraged: 1, enrage_below: 0 };
    Enemy::new("Slime".to_string(), 3, profile, 4, 50)
}

#[test]
fn new_location_has_no_exits() {
    let l = Location::new("Village");
    assert_eq!(l.get_name(), "Village");
    for d in [MovementCommand::North, MovementCommand::South, MovementCommand::East, MovementCommand::West] {
        assert_eq!(l.traverse(&d), None);
    }
    assert!(l.list_objects().is_empty());
}

#[test]
fn setters_lead_each_exit() {
    let mut l = Location::new("Hub");
    l.set_n(1);
    l.set_s(2);
    l.set_w(3);
    l.set_e(4);
    assert_eq!(l.traverse(&MovementCommand::North), Some(1));
    assert_eq!(l.traverse(&MovementCommand::South), Some(2));
    assert_eq!(l.traverse(&MovementCommand::West), Some(3));
    assert_eq!(l.traverse(&MovementCommand::East), Some(4));
}

#[test]
fn attach_links_both_ways() {
    let dirs = [MovementCommand::North, MovementCommand::South, MovementCommand::East, MovementCommand::West];
    for d in dirs {
        let (mut w, a, b) = two_rooms();
        Location::attach(&mut w, a, b, d);
        assert_eq!(Location::travel(&w, a, &d), Some(b));
        assert_eq!(Location::travel(&w, b, &d.flip()), Some(a));
    }
}

#[test]
fn attach_oneway_leaves_the_way_back() {
    let (mut w, a, b) = two_rooms();
    Location::attach_oneway(&mut w, a, b, MovementCommand::South);
    assert_eq!(Location::travel(&w, a, &MovementCommand::South), Some(b));
    assert_eq!(Location::travel(&w, b, &MovementCommand::North), None);

    let c = w.add_room(Location::new("Pit"));
    Location::attach_oneway(&mut w, b, c, MovementCommand::North);
    Location::attach_oneway(&mut w, a, b, MovementCommand::South);
    assert_eq!(Location::travel(&w, b, &MovementCommand::North), Some(c));
}

#[test]
fn travel_without_exit_is_none() {
    let (w, a, _) = two_rooms();
    assert_eq!(Location::travel(&w, a, &MovementCommand::East), None);
}

#[test]
fn removal_is_seen_from_every_path() {
    let mut w = World::new();
    let hall = w.add_room(Location::new("Hall"));
    let west = w.add_room(Location::new("West Wing"));
    let east = w.add_room(Location::new("East Wing"));
    Location::attach(&mut w, west, hall, MovementCommand::East);
    Location::attach(&mut w, east, hall, MovementCommand::West);
    w.add_object(hall, AreaObject::new("Statue", "A stone statue.", Behavior::Talk(scene("..."))));

    let via_west = Location::travel(&w, west, &MovementCommand::East).unwrap();
    assert!(w.get_object(via_west, "statue").is_some());
    let removed = w.remove_object(via_west, "STATUE");
    assert_eq!(removed.map(|o| o.name), Some("Statue".to_string()));

    let via_east = Location::travel(&w, east, &MovementCommand::West).unwrap();
    assert_eq!(via_east, via_west);
    assert!(w.get_object(via_east, "statue").is_none());
    assert!(w.room(via_east).list_objects().is_empty());
}

#[test]
fn lookup_ignores_case_and_padding() {
    let mut l = Location::new("Porch");
    l.add_object(AreaObject::new("North Door", "A door.", Behavior::Talk(scene("creak"))));
    let a = l.get_object("  North Door ").map(|o| o.get_name().clone());
    let b = l.get_object("north door").map(|o| o.get_name().clone());
    assert_eq!(a, Some("North Door".to_string()));
    assert_eq!(a, b);
    assert!(l.get_object("north").is_none());
}

#[test]
fn add_object_replaces_same_name() {
    let mut l = Location::new("Shop");
    l.add_object(AreaObject::new("Lamp", "Old.", Behavior::Talk(scene("a"))));
    l.add_object(AreaObject::new("LAMP", "New.", Behavior::Talk(scene("b"))));
    l.add_object(AreaObject::new("Rug", "Red.", Behavior::Talk(scene("c"))));
    let mut names = l.list_objects();
    names.sort();
    assert_eq!(names, vec!["LAMP".to_string(), "Rug".to_string()]);
    assert_eq!(l.get_object("lamp").unwrap().get_desc(), "New.");
    assert!(l.remove_object("rug").is_some());
    assert!(l.remove_object("rug").is_none());
    assert_eq!(l.list_objects(), vec!["LAMP".to_string()]);
}

#[test]
fn move_player_follows_exits() {
    let (mut w, a, b) = two_rooms();
    Location::attach(&mut w, a, b, MovementCommand::South);
    let mut p = Player::new(a);
    assert!(!w.move_player(&mut p, MovementCommand::North));
    assert_eq!(p.location, a);
    assert!(w.move_player(&mut p, MovementCommand::South));
    assert_eq!(p.location, b);
    assert!(w.move_player(&mut p, MovementCommand::North));
    assert_eq!(p.location, a);
}

#[test]
fn interact_missing_object() {
    let (mut w, a, _) = two_rooms();
    let p = Player::new(a);
    assert!(matches!(w.interact(&p, "ghost"), Interaction::NotFound));
}

#[test]
fn interact_talk_plays_scene() {
    let (mut w, a, _) = two_rooms();
    w.add_object(a, AreaObject::new("Test NPC", "Says hello.", Behavior::Talk(scene("Hello!"))));
    let p = Player::new(a);
    match w.interact(&p, " test npc ") {
        Interaction::Talk(c) => {
            assert_eq!(c.len(), 1);
            assert_eq!(c.message(0), "Hello!");
        }
        _ => panic!("expected a scene"),
    }
    assert!(w.get_object(a, "test npc").is_some());
}

#[test]
fn interact_fight_hands_out_enemy() {
    let (mut w, a, _) = two_rooms();
    let fight = Fight { enemy: weak_enemy(), victory_flag: None, victory_scene: Cutscene::new(), consumed: false };
    w.add_object(a, AreaObject::new("Slime", "Wobbly.", Behavior::Fight(fight)));
    let p = Player::new(a);
    match w.interact(&p, "slime") {
        Interaction::Battle(e) => {
            assert_eq!(e.name, "Slime");
            assert_eq!(e.health, 3);
            assert_eq!(e.reward, 4);
            assert_eq!(e.flee_resistance, 50);
        }
        _ => panic!("expected a battle"),
    }
}

fn door_world() -> (World, usize, Player) {
    let (mut w, a, _) = two_rooms();
    let door = Door {
        key_flag: "treasure1".to_string(),
        room_name: "Treasure Room".to_string(),
        direction: MovementCommand::North,
        side_exit: None,
        opened: scene("The door slowly opens."),
        locked: scene("You do not have the key to this door."),
    };
    w.add_object(a, AreaObject::new("North Door", "A locked door.", Behavior::Door(door)));
    let p = Player::new(a);
    (w, a, p)
}

#[test]
fn locked_door_stays_shut() {
    let (mut w, a, p) = door_world();
    match w.interact(&p, "north door") {
        Interaction::Locked(c) => assert_eq!(c.message(0), "You do not have the key to this door."),
        _ => panic!("expected the door to stay shut"),
    }
    assert_eq!(w.len(), 2);
    assert!(w.get_object(a, "north door").is_some());
    assert_eq!(Location::travel(&w, a, &MovementCommand::North), None);
}

#[test]
fn door_opens_with_key_flag() {
    let (mut w, a, mut p) = door_world();
    p.set_flag("treasure1", true);
    match w.interact(&p, "North Door") {
        Interaction::Opened { scene, room } => {
            assert_eq!(scene.message(0), "The door slowly opens.");
            assert_eq!(room, 2);
            assert_eq!(w.room(room).get_name(), "Treasure Room");
            assert_eq!(Location::travel(&w, a, &MovementCommand::North), Some(room));
            assert_eq!(Location::travel(&w, room, &MovementCommand::South), Some(a));
        }
        _ => panic!("expected the door to open"),
    }
    assert!(w.get_object(a, "north door").is_none());
}

#[test]
fn victory_sets_flag_and_removes_boss() {
    let (mut w, a, _) = two_rooms();
    let fight = Fight {
        enemy: weak_enemy(),
        victory_flag: Some("treasure1".to_string()),
        victory_scene: scene("The lock on the north door falls off."),
        consumed: true,
    };
    w.add_object(a, AreaObject::new("BOSS", "THE BOSS", Behavior::Fight(fight)));
    let mut p = Player::new(a);

    assert!(w.conclude_fight(&mut p, "boss", BattleState::Fled).is_none());
    assert!(w.conclude_fight(&mut p, "boss", BattleState::Defeat).is_none());
    assert!(!p.has_flag("treasure1"));
    assert!(w.get_object(a, "boss").is_some());

    let s = w.conclude_fight(&mut p, "boss", BattleState::Victory).unwrap();
    assert_eq!(s.message(0), "The lock on the north door falls off.");
    assert!(p.has_flag("treasure1"));
    assert!(w.get_object(a, "boss").is_none());
}

#[test]
fn conclude_fight_ignores_other_objects() {
    let (mut w, a, _) = two_rooms();
    w.add_object(a, AreaObject::new("Sign", "Words.", Behavior::Talk(scene("Keep out"))));
    let mut p = Player::new(a);
    assert!(w.conclude_fight(&mut p, "sign", BattleState::Victory).is_none());
    assert!(w.get_object(a, "sign").is_some());
}

#[test]
fn opened_door_gets_side_exit() {
    let (mut w, a, b) = two_rooms();
    let door = Door {
        key_flag: "key".to_string(),
        room_name: "Vault".to_string(),
        direction: MovementCommand::East,
        side_exit: Some((MovementCommand::South, b)),
        opened: scene("open"),
        locked: scene("shut"),
    };
    w.add_object(a, AreaObject::new("Hatch", "Iron.", Behavior::Door(door)));
    let mut p = Player::new(a);
    p.set_flag("key", true);
    match w.interact(&p, "hatch") {
        Interaction::Opened { room, .. } => {
            assert_eq!(Location::travel(&w, a, &MovementCommand::East), Some(room));
            assert_eq!(Location::travel(&w, room, &MovementCommand::West), Some(a));
            assert_eq!(Location::travel(&w, room, &MovementCommand::South), Some(b));
            assert_eq!(Location::travel(&w, b, &MovementCommand::North), Some(room));
        }
        _ => panic!("expected the hatch to open"),
    }
}
