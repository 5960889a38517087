use text_game::demo::{boss, get_locations, get_test_cutscene, get_test_enemy, get_test_npc, treasure_door};
use text_game::{
    resolve_turn, BattleCommand, BattleState, Behavior, Interaction, Location, MovementCommand,
    Player, TurnOutcome, Weapon,
};

#[test]
fn demo_world_layout() {
    let (w, spawn) = get_locations();
    assert_eq!(w.len(), 6);
    assert_eq!(w.room(spawn).get_name(), "Clearing");
    let road = Location::travel(&w, spawn, &MovementCommand::West).unwrap();
    assert_eq!(w.room(road).get_name(), "Village Road");
    let village = Location::travel(&w, road, &MovementCommand::West).unwrap();
    assert_eq!(w.room(village).get_name(), "Village");
    let cave = Location::travel(&w, spawn, &MovementCommand::South).unwrap();
    let depths = Location::travel(&w, cave, &MovementCommand::South).unwrap();
    let boss_room = Location::travel(&w, depths, &MovementCommand::East).unwrap();
    assert_eq!(w.room(boss_room).get_name(), "Boss Room");
    assert_eq!(Location::travel(&w, boss_room, &MovementCommand::North), None);
    let mut names = w.room(boss_room).list_objects();
    names.sort();
    assert_eq!(names, vec!["BOSS".to_string(), "North Door".to_string()]);
    assert!(w.get_object(spawn, "dev test").is_some());
    assert!(w.get_object(spawn, "not goomba").is_some());
    assert!(w.get_object(village, "test npc").is_some());
}

#[test]
fn demo_content() {
    let c = get_test_cutscene();
    assert_eq!(c.len(), 3);
    assert_eq!(c.message(0), "Welcome to the game!\n");
    assert_eq!(c.wait_millis(2), 1500);
    match get_test_npc().behavior {
        Behavior::Talk(c) => assert_eq!(c.message(0), "Test NPC: Hello!"),
        _ => panic!("expected a talk"),
    }
    match get_test_enemy().behavior {
        Behavior::Fight(f) => {
            assert_eq!(f.enemy.health, 5);
            assert_eq!(f.enemy.flee_resistance, 80);
        }
        _ => panic!("expected a fight"),
    }
    match boss().behavior {
        Behavior::Fight(f) => {
            assert_eq!(f.enemy.health, 8);
            assert_eq!(f.victory_flag.as_deref(), Some("treasure1"));
            assert!(f.consumed);
        }
        _ => panic!("expected a fight"),
    }
    match treasure_door(4).behavior {
        Behavior::Door(d) => assert_eq!(d.side_exit, Some((MovementCommand::West, 4))),
        _ => panic!("expected a door"),
    }
}

#[test]
fn beating_the_boss_opens_the_treasure_room() {
    let (mut w, spawn) = get_locations();
    let mut p = Player::new(spawn);
    p.weapon = Weapon::Sword;
    assert!(w.move_player(&mut p, MovementCommand::South));
    let cave = p.location;
    assert!(w.move_player(&mut p, MovementCommand::South));
    assert!(w.move_player(&mut p, MovementCommand::East));
    let boss_room = p.location;
    assert!(matches!(w.interact(&p, "north door"), Interaction::Locked(_)));

    let mut enemy = match w.interact(&p, "boss") {
        Interaction::Battle(e) => e,
        _ => panic!("expected a battle"),
    };
    let mut last = TurnOutcome::ShowHealth;
    while !last.is_over() {
        last = resolve_turn(&mut p, &mut enemy, BattleCommand::Attack, 0, 0);
    }
    assert_eq!(last.state(), BattleState::Victory);
    assert_eq!(p.experience, 10);
    assert!(w.conclude_fight(&mut p, "boss", last.state()).is_some());
    assert!(p.has_flag("treasure1"));

    let room = match w.interact(&p, "North Door") {
        Interaction::Opened { room, .. } => room,
        _ => panic!("expected the door to open"),
    };
    assert_eq!(Location::travel(&w, boss_room, &MovementCommand::North), Some(room));
    assert_eq!(Location::travel(&w, room, &MovementCommand::West), Some(cave));
    assert_eq!(Location::travel(&w, cave, &MovementCommand::East), Some(room));
}

#[test]
fn demo_links_are_two_way_and_ten() {
    let (w, _) = get_locations();
    let dirs = [MovementCommand::North, MovementCommand::South, MovementCommand::East, MovementCommand::West];
    let mut links = 0;
    for room in 0..w.len() {
        for d in dirs {
            if let Some(q) = Location::travel(&w, room, &d) {
                links += 1;
                assert_eq!(Location::travel(&w, q, &d.flip()), Some(room));
            }
        }
    }
    assert_eq!(links, 10);
}

#[test]
fn demo_objects_by_room() {
    let (w, spawn) = get_locations();
    let mut clearing = w.room(spawn).list_objects();
    clearing.sort();
    assert_eq!(clearing, vec!["Dev Test".to_string(), "Not Goomba".to_string()]);
    assert_eq!(w.room(4).list_objects(), vec!["Test NPC".to_string()]);
    for empty in [0, 1, 3] {
        assert!(w.room(empty).list_objects().is_empty());
    }
    let a = w.get_object(2, "  North Door ").map(|o| o.get_desc().clone());
    let b = w.get_object(2, "north door").map(|o| o.get_desc().clone());
    assert_eq!(a, Some("A locked door that leads north.".to_string()));
    assert_eq!(a, b);
}
