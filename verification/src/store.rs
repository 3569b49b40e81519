//! The record store: a connection to the database and the four operations on
//! its two tables.
//!
//! Each table is modelled as a multiset of plain rows ([`Store::players`] and
//! [`Store::games`]), since a full scan returns rows in an order SQLite
//! leaves unspecified. The contracts state exactly which rows each operation
//! returns or adds. Success is never owed — any statement can fail at the
//! storage layer — but every contract says what holds of the tables whichever
//! way the call came back.

use vstd::multiset::Multiset;
use vstd::prelude::*;

use crate::db;
use crate::game_id::{generate_random_string, is_game_id};
use crate::records::{Game, GameRow, Player, PlayerRow, StoreError, game_views, player_views};

verus! {

broadcast use vstd::seq_lib::group_to_multiset_ensures;

/// Holds of the id assigned to a player created while the table held `rows`:
/// one more than the largest existing id, or `1` when the table was empty.
pub open spec fn is_next_player_id(rows: Multiset<PlayerRow>, id: i32) -> bool {
    &&& (rows.len() == 0 ==> id == 1)
    &&& (forall|p: PlayerRow| rows.count(p) > 0 ==> p.0 < id)
    &&& (rows.len() > 0 ==> exists|p: PlayerRow| rows.count(p) > 0 && p.0 == id - 1)
}

/// The status text every new game is created with.
pub open spec fn created_status() -> Seq<char> {
    "CREATED"@
}

/// A record store, owning the one connection to the database file.
pub struct Store {
    conn: rusqlite::Connection,
}

impl Store {
    /// The rows of the `Player` table.
    pub closed spec fn players(self) -> Multiset<PlayerRow> {
        db::player_rows(self.conn)
    }

    /// The rows of the `Game` table, without the unread timestamp column.
    pub closed spec fn games(self) -> Multiset<GameRow> {
        db::game_rows(self.conn)
    }

    /// Opens the store at the given path (a plain file name or a SQLite URI)
    /// for read-write access. A store that cannot be opened that way is
    /// reported as a connection error, and the caller must not proceed.
    /// Nothing is known of the rows an opened store holds: they are whatever
    /// the file holds.
    pub fn open(path: &str) -> (r: Result<Store, StoreError>)
        ensures
            r matches Err(e) ==> e == StoreError::Connection,
    {
        match db::open_connection(path) {
            Ok(conn) => Ok(Store { conn }),
            Err(_) => Err(StoreError::Connection),
        }
    }

    /// Creates the `Player` and `Game` tables where they do not exist yet.
    /// A table that already exists keeps its rows; a fresh store afterwards
    /// holds two empty tables.
    pub fn init_schema(&mut self) -> (r: Result<(), StoreError>)
        ensures
            r matches Err(e) ==> e == StoreError::Query,
    {
        match db::create_tables(&mut self.conn) {
            Ok(_) => Ok(()),
            Err(_) => Err(StoreError::Query),
        }
    }

    /// Lists the players: a full scan of the `Player` table, which returns
    /// exactly its rows — each one exactly as often as the table holds it,
    /// and as many in all — in an unspecified order.
    pub fn list_players(&self) -> (r: Result<Vec<Player>, StoreError>)
        ensures
            match r {
                Ok(v) => {
                    &&& player_views(v@).to_multiset() == self.players()
                    &&& v@.len() == self.players().len()
                },
                Err(e) => e == StoreError::Query,
            },
    {
        match db::select_players(&self.conn) {
            Ok(v) => Ok(v),
            Err(_) => Err(StoreError::Query),
        }
    }

    /// Lists the games: a full scan of the `Game` table, which returns
    /// exactly its rows — each one exactly as often as the table holds it,
    /// and as many in all — in an unspecified order.
    pub fn list_games(&self) -> (r: Result<Vec<Game>, StoreError>)
        ensures
            match r {
                Ok(v) => {
                    &&& game_views(v@).to_multiset() == self.games()
                    &&& v@.len() == self.games().len()
                },
                Err(e) => e == StoreError::Query,
            },
    {
        match db::select_games(&self.conn) {
            Ok(v) => Ok(v),
            Err(_) => Err(StoreError::Query),
        }
    }

    /// Creates a player with the given name and returns its id: one more
    /// than the largest id in the table, or `1` when the table was empty.
    /// The read and the insert are two statements with no transaction around
    /// them, so the store must not be shared with a concurrent writer.
    ///
    /// On success the `Player` table gains exactly the new row and the
    /// `Game` table is untouched; a failed call — including the case that
    /// the largest id is already at the integer bound, so that no id is
    /// free — leaves both tables unchanged.
    pub fn create_player(&mut self, name: Option<String>) -> (r: Result<i32, StoreError>)
        ensures
            match r {
                Ok(id) => {
                    &&& is_next_player_id(old(self).players(), id)
                    &&& final(self).players() == old(self).players().insert(
                        (id, name.deep_view()),
                    )
                    &&& final(self).games() == old(self).games()
                },
                Err(e) => {
                    &&& e == StoreError::Query
                    &&& final(self).players() == old(self).players()
                    &&& final(self).games() == old(self).games()
                },
            },
    {
        let max = match db::query_max_player_id(&self.conn) {
            Ok(m) => m,
            Err(_) => {
                return Err(StoreError::Query);
            },
        };
        let id: i32 = match max {
            None => 1,
            Some(m) => {
                if m == i32::MAX {
                    return Err(StoreError::Query);
                }
                m + 1
            },
        };
        match db::insert_player_row(&mut self.conn, id, &name) {
            Ok(_) => Ok(id),
            Err(_) => Err(StoreError::Query),
        }
    }

    /// Creates a player with the given name, then a game whose first player
    /// it is: a fresh random six-character id, no second player, the status
    /// `CREATED`, and a placeholder timestamp. The game id is not checked
    /// against existing rows, so a collision is possible and the table may
    /// come to hold two games with one id.
    ///
    /// The two inserts are not wrapped in a transaction: when the game
    /// insert fails, the already created player stays behind. The error
    /// contract admits exactly that: the `Game` table is unchanged, and the
    /// `Player` table either is unchanged or has gained the one new row.
    pub fn create_game(&mut self, player_1_name: Option<String>) -> (r: Result<(), StoreError>)
        ensures
            match r {
                Ok(_) => exists|gid: Seq<char>, pid: i32|
                    {
                        &&& is_game_id(gid)
                        &&& is_next_player_id(old(self).players(), pid)
                        &&& final(self).players() == old(self).players().insert(
                            (pid, player_1_name.deep_view()),
                        )
                        &&& final(self).games() == old(self).games().insert(
                            (gid, Some(pid), None::<i32>, Some(created_status())),
                        )
                    },
                Err(e) => {
                    &&& e == StoreError::Query
                    &&& final(self).games() == old(self).games()
                    &&& (final(self).players() == old(self).players() || exists|pid: i32|
                        {
                            &&& is_next_player_id(old(self).players(), pid)
                            &&& final(self).players() == old(self).players().insert(
                                (pid, player_1_name.deep_view()),
                            )
                        })
                },
            },
    {
        let ghost players_before = self.players();
        let pid = match self.create_player(player_1_name) {
            Ok(id) => id,
            Err(e) => {
                return Err(e);
            },
        };
        let gid = generate_random_string(6);
        match db::insert_game_row(&mut self.conn, &gid, pid, "CREATED", "TODAY") {
            Ok(_) => {
                proof {
                    let w = (gid@, pid);
                    assert({
                        &&& is_game_id(w.0)
                        &&& is_next_player_id(players_before, w.1)
                        &&& final(self).players() == players_before.insert(
                            (w.1, player_1_name.deep_view()),
                        )
                        &&& final(self).games() == old(self).games().insert(
                            (w.0, Some(w.1), None::<i32>, Some(created_status())),
                        )
                    });
                }
                Ok(())
            },
            Err(_) => Err(StoreError::Query),
        }
    }
}

/// A player just created appears in a listing taken afterwards exactly once,
/// with the id the creation returned and the name it was given: the new id
/// lies above every id the table held, so no other row can carry it.
///
/// `before` is the `Player` table when the player was created, `id` the id
/// the creation returned, `name` the name it was given, and `listed` a
/// listing of the table the creation left behind.
pub proof fn lemma_created_player_listed_once(
    before: Multiset<PlayerRow>,
    id: i32,
    name: Option<Seq<char>>,
    listed: Seq<Player>,
)
    requires
        is_next_player_id(before, id),
        player_views(listed).to_multiset() == before.insert((id, name)),
    ensures
        player_views(listed).to_multiset().count((id, name)) == 1,
        forall|p: PlayerRow|
            player_views(listed).to_multiset().count(p) > 0 && p.0 == id ==> p == (id, name),
        exists|j: int| 0 <= j < listed.len() && listed[j]@ == (id, name),
{
    broadcast use vstd::multiset::group_multiset_axioms;

    let rows = player_views(listed).to_multiset();
    assert(before.count((id, name)) == 0) by {
        if before.count((id, name)) > 0 {
            assert(((id, name)).0 < id);
        }
    }
    assert(rows.count((id, name)) == 1);
    assert forall|p: PlayerRow| rows.count(p) > 0 && p.0 == id implies p == (id, name) by {
        if p != (id, name) {
            assert(before.count(p) == rows.count(p));
            assert(p.0 < id);
        }
    }
    assert(player_views(listed).contains((id, name)));
    let j = choose|j: int| 0 <= j < player_views(listed).len() && player_views(listed)[j] == (
        id,
        name,
    );
    assert(player_views(listed)[j] == listed[j]@);
    assert(0 <= j < listed.len() && listed[j]@ == (id, name));
}

} // verus!
