//! The player: health, strength and what they carry.

use vstd::prelude::*;
use crate::entities::enemy::health_after;

verus! {

/// Something the player can pick up and carry.
#[derive(Debug, PartialEq, Eq, Structural, Hash, Clone, Copy)]
pub enum Item {
    KeyCard,
    Crowbar,
}

/// The player.
#[derive(Debug)]
pub struct Player {
    pub health: i32,
    pub attack_strength: i32,
    pub items: Vec<Item>,
}

/// The player as plain values.
pub struct PlayerView {
    pub health: int,
    pub attack_strength: int,
    pub items: Seq<Item>,
}

impl View for Player {
    type V = PlayerView;

    open spec fn view(&self) -> PlayerView {
        PlayerView {
            health: self.health as int,
            attack_strength: self.attack_strength as int,
            items: self.items@,
        }
    }
}

/// The band a health value falls in, by which it is coloured on screen.
#[derive(Debug, PartialEq, Eq, Structural, Hash, Clone, Copy)]
pub enum HealthLevel {
    /// 0 to 30.
    Low,
    /// 31 to 70.
    Medium,
    /// 71 to 100.
    High,
    /// Below 0 or above 100.
    OffScale,
}

/// The band of a health value. Where two bands meet, the lower one wins.
pub open spec fn health_level_of(health: int) -> HealthLevel {
    if 0 <= health <= 30 {
        HealthLevel::Low
    } else if 30 < health <= 70 {
        HealthLevel::Medium
    } else if 70 < health <= 100 {
        HealthLevel::High
    } else {
        HealthLevel::OffScale
    }
}

impl PlayerView {
    /// The player after a blow of `amount`.
    pub open spec fn hurt(self, amount: int) -> PlayerView {
        PlayerView { health: health_after(self.health, amount), ..self }
    }

    /// Whether the player's health is used up.
    pub open spec fn is_dead(self) -> bool {
        self.health <= 0
    }
}

impl Player {
    /// Takes `amount` off the player's health, which stops at the ends of
    /// its range, and says whether the health is used up now.
    pub fn reduce_health(&mut self, amount: i32) -> (dead: bool)
        ensures
            final(self)@ == old(self)@.hurt(amount as int),
            dead == final(self)@.is_dead(),
    {
        let after: i64 = self.health as i64 - amount as i64;
        if after < i32::MIN as i64 {
            self.health = i32::MIN;
        } else if after > i32::MAX as i64 {
            self.health = i32::MAX;
        } else {
            self.health = after as i32;
        }
        self.health <= 0
    }

    /// Whether the player carries `item`.
    pub fn has_item(&self, item: Item) -> (r: bool)
        ensures
            r == self@.items.contains(item),
    {
        let mut i: usize = 0;
        while i < self.items.len()
            invariant
                i <= self.items.len(),
                forall|j: int| 0 <= j < i ==> self.items@[j] != item,
            decreases self.items.len() - i,
        {
            if self.items[i] == item {
                return true;
            }
            i += 1;
        }
        false
    }

    /// The band of the player's health.
    pub fn health_level(&self) -> (r: HealthLevel)
        ensures
            r == health_level_of(self@.health),
    {
        if 0 <= self.health && self.health <= 30 {
            HealthLevel::Low
        } else if 30 < self.health && self.health <= 70 {
            HealthLevel::Medium
        } else if 70 < self.health && self.health <= 100 {
            HealthLevel::High
        } else {
            HealthLevel::OffScale
        }
    }
}

} // verus!
