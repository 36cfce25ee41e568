//! The state of the world: where the player is, how they fare, and which
//! room harbours which enemy.

use vstd::prelude::*;
use crate::entities::enemy::{GenericEnemy, GenericEnemyView};
use crate::entities::player::{Player, PlayerView};
use crate::room::RoomType;

verus! {

/// The state of the world.
#[derive(Debug)]
pub struct State {
    pub current_room: RoomType,
    pub player: Player,
    pub enemies: Enemies,
}

/// The state of the world as plain values.
pub struct StateView {
    pub current_room: RoomType,
    pub player: PlayerView,
    pub enemies: Map<RoomType, GenericEnemyView>,
}

impl View for State {
    type V = StateView;

    open spec fn view(&self) -> StateView {
        StateView {
            current_room: self.current_room,
            player: self.player@,
            enemies: self.enemies@,
        }
    }
}

impl StateView {
    /// The state at the start of a session: the player wakes in the
    /// cryobay, in full health, with empty hands, and no enemy is placed.
    pub open spec fn initial() -> StateView {
        StateView {
            current_room: RoomType::Cryobay,
            player: PlayerView { health: 100, attack_strength: 5, items: Seq::empty() },
            enemies: Map::empty(),
        }
    }

    /// The enemy of a room, if it has one.
    pub open spec fn enemy_in(self, room_type: RoomType) -> Option<GenericEnemyView> {
        lookup(self.enemies, room_type)
    }

    /// The enemy of the room the player is in, if it has one.
    pub open spec fn current_enemy(self) -> Option<GenericEnemyView> {
        self.enemy_in(self.current_room)
    }

    /// Whether every enemy that a room harbours is alive.
    pub open spec fn enemies_alive(self) -> bool {
        forall|r: RoomType| #[trigger]
            self.enemies.dom().contains(r) ==> !self.enemies[r].is_dead()
    }
}

impl State {
    /// The state at the start of a session.
    pub fn new() -> (r: Self)
        ensures
            r@ == StateView::initial(),
    {
        State {
            current_room: RoomType::Cryobay,
            player: Player { health: 100, attack_strength: 5, items: Vec::new() },
            enemies: Enemies::new(),
        }
    }

    /// The enemy of a room, if it has one.
    pub fn get_current_enemy(&self, room_type: RoomType) -> (r: Option<&GenericEnemy>)
        ensures
            enemy_ref_view(r) == self@.enemy_in(room_type),
    {
        self.enemies.get(room_type)
    }

    /// The enemy of a room, to be changed in place. Whatever the caller
    /// makes of the enemy is what the room harbours afterwards; nothing
    /// else changes.
    pub fn get_current_enemy_mut(&mut self, room_type: RoomType) -> (r: Option<&mut GenericEnemy>)
        ensures
            r is Some <==> old(self)@.enemies.dom().contains(room_type),
            r is Some ==> r->0@ == old(self)@.enemies[room_type] && final(self)@ == (StateView {
                enemies: old(self)@.enemies.insert(room_type, final(r->0)@),
                ..old(self)@
            }),
            r is None ==> final(self)@ == old(self)@,
    {
        self.enemies.get_mut(room_type)
    }
}

/// The enemies by the room they live in: at most one to a room.
#[derive(Debug)]
pub struct Enemies {
    cryobay: Option<GenericEnemy>,
    slush_lobby: Option<GenericEnemy>,
    cryocontrol: Option<GenericEnemy>,
    corridor: Option<GenericEnemy>,
}

/// The view of an enemy that may be absent.
pub open spec fn enemy_option_view(enemy: Option<GenericEnemy>) -> Option<GenericEnemyView> {
    match enemy {
        Some(e) => Some(e@),
        None => None,
    }
}

/// The view of a borrowed enemy that may be absent.
pub open spec fn enemy_ref_view(enemy: Option<&GenericEnemy>) -> Option<GenericEnemyView> {
    match enemy {
        Some(e) => Some(e@),
        None => None,
    }
}

/// What a map holds under a key, if anything.
pub open spec fn lookup(
    enemies: Map<RoomType, GenericEnemyView>,
    room_type: RoomType,
) -> Option<GenericEnemyView> {
    if enemies.dom().contains(room_type) {
        Some(enemies[room_type])
    } else {
        None
    }
}

impl Enemies {
    spec fn slot(&self, room_type: RoomType) -> Option<GenericEnemy> {
        match room_type {
            RoomType::Cryobay => self.cryobay,
            RoomType::SlushLobby => self.slush_lobby,
            RoomType::Cryocontrol => self.cryocontrol,
            RoomType::Corridor => self.corridor,
        }
    }
}

impl View for Enemies {
    type V = Map<RoomType, GenericEnemyView>;

    closed spec fn view(&self) -> Map<RoomType, GenericEnemyView> {
        Map::new(|r: RoomType| self.slot(r) is Some, |r: RoomType| self.slot(r)->0@)
    }
}

impl Enemies {
    /// No enemy anywhere.
    pub fn new() -> (r: Self)
        ensures
            r@ == Map::<RoomType, GenericEnemyView>::empty(),
    {
        let r = Enemies { cryobay: None, slush_lobby: None, cryocontrol: None, corridor: None };
        assert(r@ =~= Map::<RoomType, GenericEnemyView>::empty());
        r
    }

    /// The enemy of a room, if it has one.
    pub fn get(&self, room_type: RoomType) -> (r: Option<&GenericEnemy>)
        ensures
            enemy_ref_view(r) == lookup(self@, room_type),
    {
        match room_type {
            RoomType::Cryobay => self.cryobay.as_ref(),
            RoomType::SlushLobby => self.slush_lobby.as_ref(),
            RoomType::Cryocontrol => self.cryocontrol.as_ref(),
            RoomType::Corridor => self.corridor.as_ref(),
        }
    }

    /// Whether a room has an enemy.
    pub fn contains_key(&self, room_type: RoomType) -> (r: bool)
        ensures
            r == self@.dom().contains(room_type),
    {
        self.get(room_type).is_some()
    }

    /// Puts an enemy into a room and hands back the one that was there.
    pub fn insert(&mut self, room_type: RoomType, enemy: GenericEnemy) -> (r: Option<GenericEnemy>)
        ensures
            final(self)@ == old(self)@.insert(room_type, enemy@),
            enemy_option_view(r) == lookup(old(self)@, room_type),
    {
        let mut slot = Some(enemy);
        match room_type {
            RoomType::Cryobay => std::mem::swap(&mut self.cryobay, &mut slot),
            RoomType::SlushLobby => std::mem::swap(&mut self.slush_lobby, &mut slot),
            RoomType::Cryocontrol => std::mem::swap(&mut self.cryocontrol, &mut slot),
            RoomType::Corridor => std::mem::swap(&mut self.corridor, &mut slot),
        }
        assert(final(self)@ =~= old(self)@.insert(room_type, enemy@));
        slot
    }

    /// Takes the enemy out of a room and hands it back.
    pub fn remove(&mut self, room_type: RoomType) -> (r: Option<GenericEnemy>)
        ensures
            final(self)@ == old(self)@.remove(room_type),
            enemy_option_view(r) == lookup(old(self)@, room_type),
    {
        let mut slot = None;
        match room_type {
            RoomType::Cryobay => std::mem::swap(&mut self.cryobay, &mut slot),
            RoomType::SlushLobby => std::mem::swap(&mut self.slush_lobby, &mut slot),
            RoomType::Cryocontrol => std::mem::swap(&mut self.cryocontrol, &mut slot),
            RoomType::Corridor => std::mem::swap(&mut self.corridor, &mut slot),
        }
        assert(final(self)@ =~= old(self)@.remove(room_type));
        slot
    }

    /// The enemy of a room, to be changed in place.
    pub fn get_mut(&mut self, room_type: RoomType) -> (r: Option<&mut GenericEnemy>)
        ensures
            r is Some <==> old(self)@.dom().contains(room_type),
            r is Some ==> r->0@ == old(self)@[room_type] && final(self)@ == old(self)@.insert(
                room_type,
                final(r->0)@,
            ),
            r is None ==> final(self)@ == old(self)@,
    {
        match room_type {
            RoomType::Cryobay => self.cryobay.as_mut(),
            RoomType::SlushLobby => self.slush_lobby.as_mut(),
            RoomType::Cryocontrol => self.cryocontrol.as_mut(),
            RoomType::Corridor => self.corridor.as_mut(),
        }
    }
}

} // verus!
