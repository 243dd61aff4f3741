//! Decoding of Perfect Cherry Blossom score files and tracking of spell card
//! attempts between successive snapshots of the game's counters.

pub mod bytes;
pub mod cipher;
pub mod game_id;
pub mod records;
pub mod score;
pub mod segment;
pub mod snapshot;
pub mod spell_card;
pub mod stats;
pub mod text;
pub mod th15;
pub mod timestamp;
pub mod types;
pub mod update;
