//! The things that live in the world: the player and the enemies.

pub mod enemy;
pub mod player;

pub use self::enemy::{Enemy, EnemyType, GenericEnemy};
pub use self::player::{Item, Player};
