//! The four rooms, each with its own puzzle.

pub mod corridor;
pub mod cryobay;
pub mod cryocontrol;
pub mod slush_lobby;

pub use self::corridor::CorridorRoom;
pub use self::cryobay::CryobayRoom;
pub use self::cryocontrol::Cryocontrol;
pub use self::slush_lobby::SlushLobbyRoom;
