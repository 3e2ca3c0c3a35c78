//! The game rules of a small networked action game: tick arithmetic, the
//! per-tick decisions taken on player input, ability expiry, sprite selection
//! and the replication plan of player entities.

pub mod tick;
pub mod config;
pub mod components;
pub mod direction;
pub mod input;
pub mod sprite;
pub mod replication;
pub mod client;
