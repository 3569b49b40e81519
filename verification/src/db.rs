//! The trusted boundary to the SQLite store.
//!
//! Everything here is believed, not proved: each function's body only makes
//! one database call and converts its arguments and result, and its contract
//! states what the call does to the two tables. The tables themselves are
//! modelled by the two uninterpreted functions [`player_rows`] and
//! [`game_rows`], which give the rows a connection currently holds, with no
//! order: a full scan returns rows in an order SQLite leaves unspecified.
//!
//! The model speaks of rows in the shapes the store writes: an integer id
//! with an optional text name, and a text game id with optional player ids
//! and status. A row of some other shape (say, a `Player` with a NULL id)
//! cannot be decoded, and the reading calls report it as an error.

use vstd::multiset::Multiset;
use vstd::prelude::*;

use crate::records::{Game, GameRow, Player, PlayerRow, game_views, player_views};

verus! {

#[verifier::external_type_specification]
#[verifier::external_body]
pub struct ExConnection(rusqlite::Connection);

#[verifier::external_type_specification]
#[verifier::external_body]
pub struct ExError(rusqlite::Error);

/// The rows of the `Player` table held by this connection.
pub uninterp spec fn player_rows(c: rusqlite::Connection) -> Multiset<PlayerRow>;

/// The rows of the `Game` table held by this connection, without the
/// `created_timestamp` column, which no operation reads.
pub uninterp spec fn game_rows(c: rusqlite::Connection) -> Multiset<GameRow>;

/// Relies on `rusqlite::Connection::open_with_flags`: opens the database at
/// the given path (URI names allowed) for read-write access, and fails when
/// it cannot be opened that way. Nothing is known of the rows the opened
/// store holds: they are whatever the file holds.
#[verifier::external_body]
pub(crate) fn open_connection(path: &str) -> Result<rusqlite::Connection, rusqlite::Error> {
    rusqlite::Connection::open_with_flags(
        path,
        rusqlite::OpenFlags::SQLITE_OPEN_READ_WRITE | rusqlite::OpenFlags::SQLITE_OPEN_URI
            | rusqlite::OpenFlags::SQLITE_OPEN_NO_MUTEX,
    )
}

/// Relies on `rusqlite::Connection::execute_batch` running two
/// `CREATE TABLE IF NOT EXISTS` statements: afterwards both tables exist.
/// Nothing is stated of the rows: a table that already existed keeps its
/// rows, a created one is empty, and the model cannot tell the two apart.
#[verifier::external_body]
pub(crate) fn create_tables(conn: &mut rusqlite::Connection) -> Result<(), rusqlite::Error> {
    conn.execute_batch(
        "CREATE TABLE IF NOT EXISTS Player (id INTEGER, name TEXT);
         CREATE TABLE IF NOT EXISTS Game (id TEXT, player_1_id INTEGER, player_2_id INTEGER, status TEXT, created_timestamp TEXT);",
    )
}

/// Relies on `rusqlite::Connection::query_row` running
/// `SELECT max(id) FROM Player`: SQL `max` returns the largest `id` of the
/// table, or NULL — decoded as `None` — when the table is empty.
#[verifier::external_body]
pub(crate) fn query_max_player_id(conn: &rusqlite::Connection) -> (r: Result<
    Option<i32>,
    rusqlite::Error,
>)
    ensures
        match r {
            Ok(None) => player_rows(*conn).len() == 0,
            Ok(Some(m)) => {
                &&& exists|p: PlayerRow| player_rows(*conn).count(p) > 0 && p.0 == m
                &&& forall|p: PlayerRow| player_rows(*conn).count(p) > 0 ==> p.0 <= m
            },
            Err(_) => true,
        },
{
    conn.query_row("SELECT max(id) FROM Player", [], |row| row.get::<_, Option<i32>>(0))
}

/// Relies on `rusqlite::Connection::execute` running
/// `INSERT INTO Player (id, name) VALUES (?1, ?2)`: on success the `Player`
/// table gains exactly this row and the `Game` table is untouched; a failed
/// statement changes neither table.
#[verifier::external_body]
pub(crate) fn insert_player_row(conn: &mut rusqlite::Connection, id: i32, name: &Option<String>) -> (r:
    Result<(), rusqlite::Error>)
    ensures
        match r {
            Ok(_) => {
                &&& player_rows(*final(conn)) == player_rows(*old(conn)).insert(
                    (id, name.deep_view()),
                )
                &&& game_rows(*final(conn)) == game_rows(*old(conn))
            },
            Err(_) => {
                &&& player_rows(*final(conn)) == player_rows(*old(conn))
                &&& game_rows(*final(conn)) == game_rows(*old(conn))
            },
        },
{
    conn.execute("INSERT INTO Player (id, name) VALUES (?1, ?2)", (id, name))?;
    Ok(())
}

/// Relies on `rusqlite::Connection::execute` running
/// `INSERT INTO Game (id, player_1_id, status, created_timestamp)
/// VALUES (?1, ?2, ?3, ?4)`: on success the `Game` table gains exactly one
/// row with this id and first player, no second player and this status, and
/// the `Player` table is untouched; a failed statement changes neither table.
/// The `created_timestamp` column is filled too, but lies outside the model.
#[verifier::external_body]
pub(crate) fn insert_game_row(
    conn: &mut rusqlite::Connection,
    id: &String,
    player_1_id: i32,
    status: &str,
    created_timestamp: &str,
) -> (r: Result<(), rusqlite::Error>)
    ensures
        match r {
            Ok(_) => {
                &&& game_rows(*final(conn)) == game_rows(*old(conn)).insert(
                    (id@, Some(player_1_id), None::<i32>, Some(status@)),
                )
                &&& player_rows(*final(conn)) == player_rows(*old(conn))
            },
            Err(_) => {
                &&& game_rows(*final(conn)) == game_rows(*old(conn))
                &&& player_rows(*final(conn)) == player_rows(*old(conn))
            },
        },
{
    conn.execute(
        "INSERT INTO Game (id, player_1_id, status, created_timestamp) VALUES (?1, ?2, ?3, ?4)",
        (id, player_1_id, status, created_timestamp),
    )?;
    Ok(())
}

/// Relies on `rusqlite`'s `prepare` and `Statement::query_map` running
/// `SELECT id, name FROM Player`: a full scan yields every row of the table
/// exactly once, in an order SQLite leaves unspecified; a row that does not
/// decode as an integer id with an optional text name fails the whole call.
#[verifier::external_body]
pub(crate) fn select_players(conn: &rusqlite::Connection) -> (r: Result<
    Vec<Player>,
    rusqlite::Error,
>)
    ensures
        match r {
            Ok(v) => player_views(v@).to_multiset() == player_rows(*conn),
            Err(_) => true,
        },
{
    let mut stmt = conn.prepare("SELECT id, name FROM Player")?;
    let rows = stmt.query_map([], |row| {
        Ok(Player { id: row.get(0)?, name: row.get(1)? })
    })?;
    let mut players = Vec::new();
    for player in rows {
        players.push(player?);
    }
    Ok(players)
}

/// Relies on `rusqlite`'s `prepare` and `Statement::query_map` running
/// `SELECT id, player_1_id, player_2_id, status FROM Game`: a full scan
/// yields every row of the table exactly once, in an order SQLite leaves
/// unspecified; a row that does not decode into the `Game` shape fails the
/// whole call.
#[verifier::external_body]
pub(crate) fn select_games(conn: &rusqlite::Connection) -> (r: Result<Vec<Game>, rusqlite::Error>)
    ensures
        match r {
            Ok(v) => game_views(v@).to_multiset() == game_rows(*conn),
            Err(_) => true,
        },
{
    let mut stmt = conn.prepare("SELECT id, player_1_id, player_2_id, status FROM Game")?;
    let rows = stmt.query_map([], |row| {
        Ok(Game {
            id: row.get(0)?,
            player_1_id: row.get(1)?,
            player_2_id: row.get(2)?,
            status: row.get(3)?,
        })
    })?;
    let mut games = Vec::new();
    for game in rows {
        games.push(game?);
    }
    Ok(games)
}

} // verus!
