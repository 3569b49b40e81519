//! The two record types the store persists, and the store's error type.

use vstd::prelude::*;

verus! {

/// A row of the `Player` table as a pair of plain values: the integer id and
/// the optional name.
pub type PlayerRow = (i32, Option<Seq<char>>);

/// A row of the `Game` table as a tuple of plain values: the game id, the two
/// optional player ids, and the optional status text.
pub type GameRow = (Seq<char>, Option<i32>, Option<i32>, Option<Seq<char>>);

/// A participant: a unique integer id and an optional display name.
#[derive(Debug)]
pub struct Player {
    pub id: i32,
    pub name: Option<String>,
}

/// A match between up to two players, identified by a six-character code.
/// `created_timestamp` is written to the table but never read back, so the
/// type does not carry it.
#[derive(Debug)]
pub struct Game {
    pub id: String,
    pub player_1_id: Option<i32>,
    pub player_2_id: Option<i32>,
    pub status: Option<String>,
}

impl View for Player {
    type V = PlayerRow;

    open spec fn view(&self) -> PlayerRow {
        (self.id, self.name.deep_view())
    }
}

impl View for Game {
    type V = GameRow;

    open spec fn view(&self) -> GameRow {
        (self.id@, self.player_1_id, self.player_2_id, self.status.deep_view())
    }
}

/// The rows a sequence of players stands for.
pub open spec fn player_views(players: Seq<Player>) -> Seq<PlayerRow> {
    players.map_values(|p: Player| p@)
}

/// The rows a sequence of games stands for.
pub open spec fn game_views(games: Seq<Game>) -> Seq<GameRow> {
    games.map_values(|g: Game| g@)
}

/// What can go wrong when talking to the store.
#[derive(Debug, Clone, Copy, PartialEq, Eq, Structural)]
pub enum StoreError {
    /// The store file could not be opened for read-write access.
    Connection,
    /// A statement failed to run, a row did not decode into the expected
    /// shape, or no further id can be assigned.
    Query,
}

} // verus!
