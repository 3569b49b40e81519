//! A small verified record store for a two-table game database.
//!
//! The store keeps `Player` and `Game` rows in a SQLite file and offers four
//! operations: list the players, list the games, create a player with the
//! next free integer id, and create a game bound to a newly created player.
//! The tables are modelled as multisets of plain rows, and every operation's
//! contract says how it reads or changes them.

pub mod game_id;
pub mod records;
pub mod store;

mod db;
