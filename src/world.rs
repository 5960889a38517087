use vstd::prelude::*;
use crate::battle::{BattleState, Enemy};
use crate::cutscene::Cutscene;
use crate::direction::{MovementCommand, lemma_flip_involution, opposite};
use crate::player::Player;
use crate::table::Table;
use crate::text::{
    all_white_space, lemma_normalized_ignores_case_and_padding, lowered, normalize, normalized,
};

verus! {

/// An encounter that an object starts, and what winning it brings.
pub struct Fight {
    pub enemy: Enemy,
    /// A flag set on the player after a win.
    pub victory_flag: Option<String>,
    /// The scene played after a win.
    pub victory_scene: Cutscene,
    /// Whether the object leaves its room after a win.
    pub consumed: bool,
}

/// A passage that opens into a new room once the player holds a flag.
pub struct Door {
    /// The flag the door needs.
    pub key_flag: String,
    /// The name of the room behind the door.
    pub room_name: String,
    /// The way from the door's room into the new one.
    pub direction: MovementCommand,
    /// A further exit of the new room, led both ways to an existing room
    /// given by its handle.
    pub side_exit: Option<(MovementCommand, usize)>,
    pub opened: Cutscene,
    pub locked: Cutscene,
}

/// What an object does when the player interacts with it.
pub enum Behavior {
    /// Plays a scene.
    Talk(Cutscene),
    /// Starts a battle.
    Fight(Fight),
    /// Opens into a new room, or stays shut.
    Door(Door),
}

/// A named thing in a room that the player can examine and interact with.
pub struct AreaObject {
    pub name: String,
    pub desc: String,
    pub behavior: Behavior,
}

impl AreaObject {
    /// The key the object is filed under in its room.
    pub open spec fn key(&self) -> Seq<char> {
        normalized(self.name@)
    }

    /// An object with the given name, description and behavior.
    pub fn new(name: &str, desc: &str, behavior: Behavior) -> (r: AreaObject)
        ensures
            r.name@ == name@,
            r.desc@ == desc@,
            r.behavior == behavior,
    {
        AreaObject { name: name.to_owned(), desc: desc.to_owned(), behavior }
    }

    /// The name as it is shown.
    pub fn get_name(&self) -> (r: &String)
        ensures
            r@ == self.name@,
    {
        &self.name
    }

    /// The description.
    pub fn get_desc(&self) -> (r: &String)
        ensures
            r@ == self.desc@,
    {
        &self.desc
    }
}

/// A room as the contracts see it: its name, its four exits as handles of
/// other rooms, and its objects by normalized name.
pub struct RoomView {
    pub name: Seq<char>,
    pub n: Option<usize>,
    pub s: Option<usize>,
    pub w: Option<usize>,
    pub e: Option<usize>,
    pub objects: Map<Seq<char>, AreaObject>,
}

impl RoomView {
    /// The exit towards `d`.
    pub open spec fn exit(self, d: MovementCommand) -> Option<usize> {
        match d {
            MovementCommand::North => self.n,
            MovementCommand::South => self.s,
            MovementCommand::East => self.e,
            MovementCommand::West => self.w,
        }
    }

    /// The four exits, north, south, west and east.
    pub open spec fn exit_set(self) -> (Option<usize>, Option<usize>, Option<usize>, Option<usize>) {
        (self.n, self.s, self.w, self.e)
    }

    /// The room with its exit towards `d` led to `to`.
    pub open spec fn with_exit(self, d: MovementCommand, to: usize) -> RoomView {
        match d {
            MovementCommand::North => RoomView { n: Some(to), ..self },
            MovementCommand::South => RoomView { s: Some(to), ..self },
            MovementCommand::East => RoomView { e: Some(to), ..self },
            MovementCommand::West => RoomView { w: Some(to), ..self },
        }
    }

    /// Each object is filed under its own normalized name.
    pub open spec fn keyed(self) -> bool {
        forall|k: Seq<char>| #[trigger]
            self.objects.contains_key(k) ==> self.objects[k].key() == k
    }
}

/// A node of the world graph.
pub struct Location {
    n: Option<usize>,
    s: Option<usize>,
    w: Option<usize>,
    e: Option<usize>,
    name: String,
    objects: Table<AreaObject>,
}

impl View for Location {
    type V = RoomView;

    closed spec fn view(&self) -> RoomView {
        RoomView {
            name: self.name@,
            n: self.n,
            s: self.s,
            w: self.w,
            e: self.e,
            objects: self.objects@,
        }
    }
}


impl Location {
    /// The object table is well formed and files each object under its key.
    pub closed spec fn wf(&self) -> bool {
        self.objects.wf() && self@.keyed()
    }

    /// The keys of the objects in the order the room lists them.
    pub closed spec fn object_keys(&self) -> Seq<Seq<char>> {
        self.objects.key_seq()
    }

    /// Entry `i` of `names` is the shown name of the object with the room's
    /// key at `i`.
    pub open spec fn shows_at(&self, names: Seq<String>, i: int) -> bool {
        &&& self@.objects.contains_key(self.object_keys()[i])
        &&& names[i]@ == self@.objects[self.object_keys()[i]].name@
    }

    /// A room called `name`, with no exits and no objects.
    pub fn new(name: &str) -> (r: Location)
        ensures
            r.wf(),
            r@.name == name@,
            r@.n is None && r@.s is None && r@.w is None && r@.e is None,
            r@.objects == Map::<Seq<char>, AreaObject>::empty(),
    {
        Location { n: None, s: None, w: None, e: None, name: name.to_owned(), objects: Table::new() }
    }

    /// Leads the north exit to the room `other`.
    pub fn set_n(&mut self, other: usize)
        requires
            old(self).wf(),
        ensures
            final(self).wf(),
            final(self)@ == old(self)@.with_exit(MovementCommand::North, other),
    {
        self.n = Some(other);
    }

    /// Leads the south exit to the room `other`.
    pub fn set_s(&mut self, other: usize)
        requires
            old(self).wf(),
        ensures
            final(self).wf(),
            final(self)@ == old(self)@.with_exit(MovementCommand::South, other),
    {
        self.s = Some(other);
    }

    /// Leads the west exit to the room `other`.
    pub fn set_w(&mut self, other: usize)
        requires
            old(self).wf(),
        ensures
            final(self).wf(),
            final(self)@ == old(self)@.with_exit(MovementCommand::West, other),
    {
        self.w = Some(other);
    }

    /// Leads the east exit to the room `other`.
    pub fn set_e(&mut self, other: usize)
        requires
            old(self).wf(),
        ensures
            final(self).wf(),
            final(self)@ == old(self)@.with_exit(MovementCommand::East, other),
    {
        self.e = Some(other);
    }

    /// The room the exit towards `cmd` leads to, if there is one.
    pub fn traverse(&self, cmd: &MovementCommand) -> (r: Option<usize>)
        ensures
            r == self@.exit(*cmd),
    {
        match cmd {
            MovementCommand::North => self.n,
            MovementCommand::South => self.s,
            MovementCommand::East => self.e,
            MovementCommand::West => self.w,
        }
    }

    /// The room's name.
    pub fn get_name(&self) -> (r: &String)
        ensures
            r@ == self@.name,
    {
        &self.name
    }

    /// Files `obj` under its normalized name, in place of any object there.
    pub fn add_object(&mut self, obj: AreaObject)
        requires
            old(self).wf(),
        ensures
            final(self).wf(),
            final(self)@ == (RoomView { objects: old(self)@.objects.insert(obj.key(), obj), ..old(self)@ }),
    {
        let key = normalize(obj.name.as_str());
        self.objects.insert(key, obj);
    }

    /// Takes out the object that `name` names, ignoring case and surrounding
    /// white space.
    pub fn remove_object(&mut self, name: &str) -> (r: Option<AreaObject>)
        requires
            old(self).wf(),
        ensures
            final(self).wf(),
            final(self)@ == (RoomView { objects: old(self)@.objects.remove(normalized(name@)), ..old(self)@ }),
            r == old(self)@.objects.get(normalized(name@)),
    {
        self.objects.remove(&normalize(name))
    }

    /// The object that `name` names, ignoring case and surrounding white
    /// space.
    pub fn get_object(&self, name: &str) -> (r: Option<&AreaObject>)
        requires
            self.wf(),
        ensures
            match r {
                Some(o) => self@.objects.get(normalized(name@)) == Some(*o),
                None => self@.objects.get(normalized(name@)) is None,
            },
    {
        self.objects.get(&normalize(name))
    }

    /// The shown names of the objects in the room, one per object.
    pub fn list_objects(&self) -> (r: Vec<String>)
        requires
            self.wf(),
        ensures
            r@.len() == self@.objects.len(),
            forall|i: int| 0 <= i < r@.len() ==> self.shows_at(r@, i),
            self.object_keys().no_duplicates(),
            self.object_keys().to_set() == self@.objects.dom(),
    {
        proof {
            self.objects.lemma_keys();
        }
        let mut r: Vec<String> = Vec::new();
        let mut i: usize = 0;
        let count = self.objects.len();
        while i < count
            invariant
                self.wf(),
                count == self.object_keys().len(),
                i <= count,
                r@.len() == i,
                forall|j: int| 0 <= j < i ==> self.shows_at(r@, j),
            decreases count - i,
        {
            let obj = self.objects.value_at(i);
            let name = obj.name.clone();
            let ghost before = r@;
            r.push(name);
            assert forall|j: int| 0 <= j < i + 1 implies self.shows_at(r@, j) by {
                if j < i {
                    assert(self.shows_at(before, j));
                    assert(r@[j] == before[j]);
                }
            }
            i = i + 1;
        }
        r
    }
}


/// Every exit of every room leads to a room of `rooms`.
pub open spec fn links_valid(rooms: Seq<RoomView>) -> bool {
    forall|i: int, d: MovementCommand|
        0 <= i < rooms.len() && (#[trigger] rooms[i].exit(d)) is Some ==> rooms[i].exit(
            d,
        )->0 < rooms.len()
}

/// The rooms after the exit of room `a` towards `d` is led to `b`.
pub open spec fn linked_oneway(
    rooms: Seq<RoomView>,
    a: int,
    b: usize,
    d: MovementCommand,
) -> Seq<RoomView> {
    rooms.update(a, rooms[a].with_exit(d, b))
}

/// The rooms after `a` is led to `b` towards `d`, and `b` back to `a` the
/// other way.
pub open spec fn linked(rooms: Seq<RoomView>, a: usize, b: usize, d: MovementCommand) -> Seq<
    RoomView,
> {
    let first = linked_oneway(rooms, a as int, b, d);
    linked_oneway(first, b as int, a, opposite(d))
}

/// The rooms after the object filed under `key` leaves room `h`.
pub open spec fn without_object(rooms: Seq<RoomView>, h: int, key: Seq<char>) -> Seq<RoomView> {
    rooms.update(h, RoomView { objects: rooms[h].objects.remove(key), ..rooms[h] })
}

proof fn lemma_same_links(a: Seq<RoomView>, b: Seq<RoomView>)
    requires
        links_valid(a),
        a.len() == b.len(),
        forall|i: int| 0 <= i < a.len() ==> (#[trigger] b[i]).exit_set() == a[i].exit_set(),
    ensures
        links_valid(b),
{
    assert forall|i: int, d: MovementCommand|
        0 <= i < b.len() && (#[trigger] b[i].exit(d)) is Some implies b[i].exit(d)->0 < b.len() by {
        assert(b[i].exit_set() == a[i].exit_set());
        assert(a[i].exit(d) == b[i].exit(d));
    }
}

/// A room with no exits and no objects.
pub open spec fn bare_room(name: Seq<char>) -> RoomView {
    RoomView {
        name,
        n: None,
        s: None,
        w: None,
        e: None,
        objects: Map::empty(),
    }
}

/// All the rooms of a game, each reached by its handle: its position here.
/// Exits hold handles, so every way into a room reaches the one room.
pub struct World {
    rooms: Vec<Location>,
}

impl View for World {
    type V = Seq<RoomView>;

    closed spec fn view(&self) -> Seq<RoomView> {
        self.rooms@.map_values(|l: Location| l@)
    }
}

impl World {
    /// Every room is well formed and every exit leads to a room.
    pub closed spec fn wf(&self) -> bool {
        &&& forall|i: int| 0 <= i < self.rooms@.len() ==> (#[trigger] self.rooms@[i]).wf()
        &&& links_valid(self@)
    }

    /// A world with no rooms.
    pub fn new() -> (r: World)
        ensures
            r.wf(),
            r@ == Seq::<RoomView>::empty(),
    {
        let r = World { rooms: Vec::new() };
        assert(r@ =~= Seq::<RoomView>::empty());
        r
    }

    /// The number of rooms.
    pub fn len(&self) -> (r: usize)
        ensures
            r == self@.len(),
    {
        self.rooms.len()
    }

    /// Adds `room` and returns its handle.
    pub fn add_room(&mut self, room: Location) -> (h: usize)
        requires
            old(self).wf(),
            room.wf(),
            forall|d: MovementCommand| (#[trigger] room@.exit(d)) is Some ==> room@.exit(d)->0 <= old(self)@.len(),
        ensures
            final(self).wf(),
            h == old(self)@.len(),
            final(self)@ == old(self)@.push(room@),
    {
        let h = self.rooms.len();
        self.rooms.push(room);
        assert(self@ =~= old(self)@.push(room@));
        h
    }

    /// The room with handle `h`.
    pub fn room(&self, h: usize) -> (r: &Location)
        requires
            self.wf(),
            h < self@.len(),
        ensures
            r.wf(),
            r@ == self@[h as int],
    {
        &self.rooms[h]
    }

    /// Files `obj` in room `h`, in place of any object under its key.
    pub fn add_object(&mut self, h: usize, obj: AreaObject)
        requires
            old(self).wf(),
            h < old(self)@.len(),
        ensures
            final(self).wf(),
            final(self)@ == old(self)@.update(
                h as int,
                RoomView { objects: old(self)@[h as int].objects.insert(obj.key(), obj), ..old(self)@[h as int] },
            ),
    {
        assert(self.rooms@[h as int].wf());
        self.rooms[h].add_object(obj);
        assert(self@ =~= old(self)@.update(
            h as int,
            RoomView { objects: old(self)@[h as int].objects.insert(obj.key(), obj), ..old(self)@[h as int] },
        ));
        proof {
            lemma_same_links(old(self)@, self@);
        }
        assert forall|i: int| 0 <= i < self.rooms@.len() implies (#[trigger] self.rooms@[i]).wf() by {
            if i != h {
                assert(self.rooms@[i] == old(self).rooms@[i]);
            }
        }
    }

    /// Takes the object that `name` names out of room `h`.
    pub fn remove_object(&mut self, h: usize, name: &str) -> (r: Option<AreaObject>)
        requires
            old(self).wf(),
            h < old(self)@.len(),
        ensures
            final(self).wf(),
            final(self)@ == without_object(old(self)@, h as int, normalized(name@)),
            r == old(self)@[h as int].objects.get(normalized(name@)),
    {
        assert(self.rooms@[h as int].wf());
        let r = self.rooms[h].remove_object(name);
        assert(self@ =~= without_object(old(self)@, h as int, normalized(name@)));
        proof {
            lemma_same_links(old(self)@, self@);
        }
        assert forall|i: int| 0 <= i < self.rooms@.len() implies (#[trigger] self.rooms@[i]).wf() by {
            if i != h {
                assert(self.rooms@[i] == old(self).rooms@[i]);
            }
        }
        r
    }

    /// The object that `name` names in room `h`.
    pub fn get_object(&self, h: usize, name: &str) -> (r: Option<&AreaObject>)
        requires
            self.wf(),
            h < self@.len(),
        ensures
            match r {
                Some(o) => self@[h as int].objects.get(normalized(name@)) == Some(*o),
                None => self@[h as int].objects.get(normalized(name@)) is None,
            },
    {
        assert(self.rooms@[h as int].wf());
        self.rooms[h].get_object(name)
    }

    /// Moves the player one room towards `dir`; where no exit leads that
    /// way the player stays and the move is refused.
    pub fn move_player(&self, player: &mut Player, dir: MovementCommand) -> (r: bool)
        requires
            self.wf(),
            old(player).location < self@.len(),
        ensures
            r == self@[old(player).location as int].exit(dir) is Some,
            final(player).location < self@.len(),
            r ==> final(player).location == self@[old(player).location as int].exit(dir)->0,
            !r ==> final(player).location == old(player).location,
            final(player).health == old(player).health,
            final(player).max_health == old(player).max_health,
            final(player).experience == old(player).experience,
            final(player).weapon == old(player).weapon,
            final(player).flags == old(player).flags,
    {
        match Location::travel(self, player.location, &dir) {
            Some(h) => {
                player.location = h;
                true
            },
            None => false,
        }
    }
}

impl Location {
    /// The room reached from room `loc` towards `direction`, if any.
    pub fn travel(locmap: &World, loc: usize, direction: &MovementCommand) -> (r: Option<usize>)
        requires
            locmap.wf(),
            loc < locmap@.len(),
        ensures
            r == locmap@[loc as int].exit(*direction),
            r is Some ==> r->0 < locmap@.len(),
    {
        locmap.rooms[loc].traverse(direction)
    }

    /// Leads the exit of room `loc` towards `dir` to room `other`, and
    /// nothing more.
    pub fn attach_oneway(locmap: &mut World, loc: usize, other: usize, dir: MovementCommand)
        requires
            old(locmap).wf(),
            loc < old(locmap)@.len(),
            other < old(locmap)@.len(),
        ensures
            final(locmap).wf(),
            final(locmap)@ == linked_oneway(old(locmap)@, loc as int, other, dir),
    {
        assert(locmap.rooms@[loc as int].wf());
        match dir {
            MovementCommand::North => locmap.rooms[loc].set_n(other),
            MovementCommand::South => locmap.rooms[loc].set_s(other),
            MovementCommand::East => locmap.rooms[loc].set_e(other),
            MovementCommand::West => locmap.rooms[loc].set_w(other),
        }
        assert(locmap@ =~= linked_oneway(old(locmap)@, loc as int, other, dir));
        assert forall|i: int| 0 <= i < locmap.rooms@.len() implies (#[trigger] locmap.rooms@[i]).wf() by {
            if i != loc {
                assert(locmap.rooms@[i] == old(locmap).rooms@[i]);
            }
        }
        assert forall|i: int, d: MovementCommand|
            0 <= i < locmap@.len() && (#[trigger] locmap@[i].exit(d)) is Some implies locmap@[i].exit(
            d,
        )->0 < locmap@.len() by {
            if i != loc {
                assert(locmap@[i] == old(locmap)@[i]);
            } else if d != dir {
                assert(locmap@[i].exit(d) == old(locmap)@[i].exit(d));
            }
        }
    }

    /// Leads room `loc` to room `other` towards `dir`, and `other` back to
    /// `loc` the opposite way.
    pub fn attach(locmap: &mut World, loc: usize, other: usize, dir: MovementCommand)
        requires
            old(locmap).wf(),
            loc < old(locmap)@.len(),
            other < old(locmap)@.len(),
        ensures
            final(locmap).wf(),
            final(locmap)@ == linked(old(locmap)@, loc, other, dir),
    {
        Location::attach_oneway(locmap, loc, other, dir);
        Location::attach_oneway(locmap, other, loc, dir.flip());
    }
}


/// The rooms after room `room` gets the side exit `side`, where that exit
/// leads to a room of `rooms`.
pub open spec fn with_side_exit(
    rooms: Seq<RoomView>,
    room: usize,
    side: Option<(MovementCommand, usize)>,
) -> Seq<RoomView> {
    match side {
        Some((d, to)) => if to < rooms.len() {
            linked(rooms, room, to, d)
        } else {
            rooms
        },
        None => rooms,
    }
}

/// What interacting with an object asks of the game.
pub enum Interaction {
    /// No object of that name is in the room.
    NotFound,
    /// A scene to play.
    Talk(Cutscene),
    /// A battle to fight against this enemy.
    Battle(Enemy),
    /// A door opened: a scene to play, and the handle of the new room.
    Opened { scene: Cutscene, room: usize },
    /// A door stayed shut: a scene to play.
    Locked(Cutscene),
}

/// The fight that the object under `key` in room `h` starts, if it is one.
pub open spec fn fight_at(rooms: Seq<RoomView>, h: int, key: Seq<char>) -> Option<Fight> {
    match rooms[h].objects.get(key) {
        Some(o) => match o.behavior {
            Behavior::Fight(f) => Some(f),
            _ => None,
        },
        None => None,
    }
}

/// `p1` is `p0` but for its flags.
pub open spec fn same_but_flags(p0: &Player, p1: &Player) -> bool {
    &&& p1.location == p0.location
    &&& p1.health == p0.health
    &&& p1.max_health == p0.max_health
    &&& p1.experience == p0.experience
    &&& p1.weapon == p0.weapon
}

impl World {
    /// Interacts with the object that `name` names in the player's room. A
    /// scene or an enemy is handed back as a copy; a door the player holds
    /// the key flag for leaves the room and opens into a new room, led to the
    /// player's room both ways and given the door's side exit.
    pub fn interact(&mut self, player: &Player, name: &str) -> (r: Interaction)
        requires
            old(self).wf(),
            player.wf(),
            player.location < old(self)@.len(),
        ensures
            final(self).wf(),
            ({
                let h = player.location as int;
                let key = normalized(name@);
                match old(self)@[h].objects.get(key) {
                    None => r is NotFound && final(self)@ == old(self)@,
                    Some(obj) => match obj.behavior {
                        Behavior::Talk(c) => final(self)@ == old(self)@ && match r {
                            Interaction::Talk(c2) => c2@ == c@,
                            _ => false,
                        },
                        Behavior::Fight(f) => final(self)@ == old(self)@ && match r {
                            Interaction::Battle(e) => e.name@ == f.enemy.name@ && e.health
                                == f.enemy.health && e.damage == f.enemy.damage && e.reward
                                == f.enemy.reward && e.flee_resistance == f.enemy.flee_resistance,
                            _ => false,
                        },
                        Behavior::Door(d) => if player.flags@.contains_key(d.key_flag@) {
                            final(self)@ == with_side_exit(
                                linked(
                                    without_object(old(self)@, h, key).push(
                                        bare_room(d.room_name@),
                                    ),
                                    player.location,
                                    old(self)@.len() as usize,
                                    d.direction,
                                ),
                                old(self)@.len() as usize,
                                d.side_exit,
                            ) && match r {
                                Interaction::Opened { scene, room } => scene@ == d.opened@ && room
                                    == old(self)@.len(),
                                _ => false,
                            }
                        } else {
                            final(self)@ == old(self)@ && match r {
                                Interaction::Locked(c) => c@ == d.locked@,
                                _ => false,
                            }
                        },
                    },
                }
            }),
    {
        let h = player.location;
        match self.get_object(h, name) {
            None => Interaction::NotFound,
            Some(obj) => match &obj.behavior {
                Behavior::Talk(c) => Interaction::Talk(c.duplicate()),
                Behavior::Fight(f) => Interaction::Battle(f.enemy.duplicate()),
                Behavior::Door(d) => {
                    if player.has_flag(d.key_flag.as_str()) {
                        let scene = d.opened.duplicate();
                        let room_name = d.room_name.clone();
                        let dir = d.direction;
                        let side = d.side_exit;
                        let _ = self.remove_object(h, name);
                        let fresh = Location::new(room_name.as_str());
                        assert(fresh@ == bare_room(room_name@));
                        let room = self.add_room(fresh);
                        Location::attach(self, h, room, dir);
                        match side {
                            Some((side_dir, to)) => {
                                if to < self.len() {
                                    Location::attach(self, room, to, side_dir);
                                }
                            },
                            None => {},
                        }
                        Interaction::Opened { scene, room }
                    } else {
                        Interaction::Locked(d.locked.duplicate())
                    }
                },
            },
        }
    }

    /// Applies what winning the fight with the object that `name` names in
    /// the player's room brings: its flag is set on the player, it leaves the
    /// room if it is consumed, and its victory scene is handed back. Nothing
    /// happens unless the battle ended in victory and the object starts a
    /// fight.
    pub fn conclude_fight(&mut self, player: &mut Player, name: &str, state: BattleState) -> (r:
        Option<Cutscene>)
        requires
            old(self).wf(),
            old(player).wf(),
            old(player).location < old(self)@.len(),
        ensures
            final(self).wf(),
            final(player).wf(),
            same_but_flags(old(player), final(player)),
            ({
                let h = old(player).location as int;
                let key = normalized(name@);
                match fight_at(old(self)@, h, key) {
                    Some(f) if state == BattleState::Victory => {
                        &&& final(player).flags@ == match f.victory_flag {
                            Some(k) => old(player).flags@.insert(k@, true),
                            None => old(player).flags@,
                        }
                        &&& final(self)@ == if f.consumed {
                            without_object(old(self)@, h, key)
                        } else {
                            old(self)@
                        }
                        &&& match r {
                            Some(c) => c@ == f.victory_scene@,
                            None => false,
                        }
                    },
                    _ => {
                        &&& final(player).flags@ == old(player).flags@
                        &&& final(self)@ == old(self)@
                        &&& r is None
                    },
                }
            }),
    {
        if state != BattleState::Victory {
            return None;
        }
        let h = player.location;
        match self.get_object(h, name) {
            None => None,
            Some(obj) => match &obj.behavior {
                Behavior::Fight(f) => {
                    let scene = f.victory_scene.duplicate();
                    let consumed = f.consumed;
                    match &f.victory_flag {
                        Some(k) => player.set_flag(k.as_str(), true),
                        None => {},
                    }
                    if consumed {
                        let _ = self.remove_object(h, name);
                    }
                    Some(scene)
                },
                _ => None,
            },
        }
    }
}


/// After `attach(a, b, d)`, travelling from `a` towards `d` reaches `b`, and
/// travelling from `b` the opposite way reaches `a`.
pub proof fn lemma_attach_both_ways(rooms: Seq<RoomView>, a: usize, b: usize, d: MovementCommand)
    requires
        a < rooms.len(),
        b < rooms.len(),
    ensures
        linked(rooms, a, b, d)[a as int].exit(d) == Some(b),
        linked(rooms, a, b, d)[b as int].exit(opposite(d)) == Some(a),
        linked(rooms, a, b, d).len() == rooms.len(),
{
    lemma_flip_involution(d);
}

/// After `attach_oneway(a, b, d)`, travelling from `a` towards `d` reaches
/// `b`, while the way back from `b` is whatever it was before.
pub proof fn lemma_attach_one_way(rooms: Seq<RoomView>, a: usize, b: usize, d: MovementCommand)
    requires
        a < rooms.len(),
        b < rooms.len(),
    ensures
        linked_oneway(rooms, a as int, b, d)[a as int].exit(d) == Some(b),
        linked_oneway(rooms, a as int, b, d)[b as int].exit(opposite(d)) == rooms[b as int].exit(
            opposite(d),
        ),
{
    lemma_flip_involution(d);
}

/// Taking an object out of room `h` is seen through every exit that leads to
/// `h`: the exits stay as they were, and each one leading to `h` reaches the
/// room without the object.
pub proof fn lemma_removal_seen_everywhere(rooms: Seq<RoomView>, h: usize, key: Seq<char>)
    requires
        h < rooms.len(),
    ensures
        ({
            let after = without_object(rooms, h as int, key);
            &&& after.len() == rooms.len()
            &&& forall|a: int, d: MovementCommand|
                0 <= a < rooms.len() ==> (#[trigger] after[a].exit(d)) == rooms[a].exit(d)
            &&& forall|a: int, d: MovementCommand|
                0 <= a < rooms.len() && (#[trigger] after[a].exit(d)) == Some(h) ==> {
                    &&& after[after[a].exit(d)->0 as int].objects == rooms[h as int].objects.remove(key)
                    &&& !after[after[a].exit(d)->0 as int].objects.contains_key(key)
                }
        }),
{
    let after = without_object(rooms, h as int, key);
    assert forall|a: int, d: MovementCommand|
        0 <= a < rooms.len() implies (#[trigger] after[a].exit(d)) == rooms[a].exit(d) by {
        if a != h as int {
            assert(after[a] == rooms[a]);
        }
    }
    assert forall|a: int, d: MovementCommand|
        0 <= a < rooms.len() && (#[trigger] after[a].exit(d)) == Some(h) implies {
        &&& after[after[a].exit(d)->0 as int].objects == rooms[h as int].objects.remove(key)
        &&& !after[after[a].exit(d)->0 as int].objects.contains_key(key)
    } by {
        assert(after[h as int].objects == rooms[h as int].objects.remove(key));
    }
}

/// Names that differ only in the case of ASCII letters and in white space
/// around them find the same object in a room.
pub proof fn lemma_lookup_ignores_case_and_padding(
    room: RoomView,
    a: Seq<char>,
    p: Seq<char>,
    b: Seq<char>,
    t: Seq<char>,
)
    requires
        all_white_space(p),
        all_white_space(t),
        lowered(a) == lowered(p + b + t),
    ensures
        room.objects.get(normalized(a)) == room.objects.get(normalized(b)),
{
    lemma_normalized_ignores_case_and_padding(a, p, b, t);
}

} // verus!
