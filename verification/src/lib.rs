//! The action-dispatch and timer core of a small narrative text adventure.
//!
//! Player commands and elapsed time become actions; actions are drained in
//! FIFO order, offered to the rooms first and to the global rules second,
//! and leave behind state changes and a log of narrated events.

pub mod action;
pub mod commands;
pub mod dispatch;
pub mod drain;
pub mod entities;
pub mod event_queue;
pub mod game_event;
pub mod global_handlers;
pub mod input;
pub mod room;
pub mod rooms;
pub mod shape;
pub mod sound;
pub mod state;
pub mod text;
pub mod timer;

pub use action::{Action, ActionHandled};
pub use dispatch::{App, Rooms};
pub use entities::enemy::{Enemy, EnemyType, GenericEnemy};
pub use entities::player::{Item, Player};
pub use event_queue::EventQueue;
pub use game_event::{GameEvent, GameEventType};
pub use room::{Room, RoomType};
pub use state::State;
pub use timer::{Timer, TimerType};
