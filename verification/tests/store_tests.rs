use gamestore::game_id::generate_random_string;
use gamestore::records::StoreError;
use gamestore::store::Store;

fn fresh_store() -> Store {
    let mut store = Store::open(":memory:").expect("open in-memory store");
    store.init_schema().expect("create tables");
    store
}

fn is_game_id_char(c: char) -> bool {
    c.is_ascii_uppercase() || c.is_ascii_digit()
}

#[test]
fn empty_store_first_player() {
    let mut store = fresh_store();
    let id = store.create_player(Some("Aaron10".to_owned())).expect("create player");
    assert_eq!(id, 1);

    let players = store.list_players().expect("list players");
    assert_eq!(players.len(), 1);
    assert_eq!(players[0].id, 1);
    assert_eq!(players[0].name.as_deref(), Some("Aaron10"));
}

#[test]
fn existing_player_five_gets_six() {
    // Keep a raw connection open so the shared in-memory database outlives it.
    let raw = rusqlite::Connection::open("file:existing_five?mode=memory&cache=shared")
        .expect("open raw connection");
    raw.execute_batch(
        "CREATE TABLE Player (id INTEGER, name TEXT);
         CREATE TABLE Game (id TEXT, player_1_id INTEGER, player_2_id INTEGER, status TEXT, created_timestamp TEXT);
         INSERT INTO Player (id, name) VALUES (5, 'Eve');",
    )
    .expect("seed the store");

    let mut store =
        Store::open("file:existing_five?mode=memory&cache=shared").expect("open store");
    let id = store.create_player(Some("Bea".to_owned())).expect("create player");
    assert_eq!(id, 6);
}

#[test]
fn sequential_ids_from_one() {
    let mut store = fresh_store();
    assert_eq!(store.create_player(Some("a".to_owned())).expect("first"), 1);
    assert_eq!(store.create_player(Some("b".to_owned())).expect("second"), 2);
    assert_eq!(store.create_player(None).expect("third"), 3);

    let players = store.list_players().expect("list players");
    assert_eq!(players.len(), 3);
    let third: Vec<_> = players.iter().filter(|p| p.id == 3).collect();
    assert_eq!(third.len(), 1);
    assert_eq!(third[0].name, None);
}

#[test]
fn fresh_game_listing() {
    let mut store = fresh_store();
    store.create_game(Some("Aaron10".to_owned())).expect("create game");

    let games = store.list_games().expect("list games");
    assert_eq!(games.len(), 1);
    let game = &games[0];
    assert_eq!(game.id.len(), 6);
    assert!(game.id.chars().all(is_game_id_char));
    assert_eq!(game.player_1_id, Some(1));
    assert_eq!(game.player_2_id, None);
    assert_eq!(game.status.as_deref(), Some("CREATED"));

    let players = store.list_players().expect("list players");
    assert_eq!(players.len(), 1);
    assert_eq!(players[0].id, 1);
    assert_eq!(players[0].name.as_deref(), Some("Aaron10"));
}

#[test]
fn listing_matches_raw_count() {
    let raw = rusqlite::Connection::open("file:raw_count?mode=memory&cache=shared")
        .expect("open raw connection");
    raw.execute_batch(
        "CREATE TABLE Player (id INTEGER, name TEXT);
         CREATE TABLE Game (id TEXT, player_1_id INTEGER, player_2_id INTEGER, status TEXT, created_timestamp TEXT);",
    )
    .expect("create tables");

    let mut store = Store::open("file:raw_count?mode=memory&cache=shared").expect("open store");
    store.create_player(Some("a".to_owned())).expect("first");
    store.create_player(Some("b".to_owned())).expect("second");
    store.create_player(Some("c".to_owned())).expect("third");

    let raw_players: i64 = raw
        .query_row("SELECT count(*) FROM Player", [], |row| row.get(0))
        .expect("count players");
    let raw_games: i64 = raw
        .query_row("SELECT count(*) FROM Game", [], |row| row.get(0))
        .expect("count games");
    assert_eq!(raw_players, 3);
    assert_eq!(raw_games, 0);
    assert_eq!(store.list_players().expect("list players").len(), 3);
    assert_eq!(store.list_games().expect("list games").len(), 0);
}

#[test]
fn created_player_listed_exactly_once() {
    let mut store = fresh_store();
    let first = store.create_player(Some("X".to_owned())).expect("first");
    let second = store.create_player(Some("X".to_owned())).expect("second");
    assert_ne!(first, second);

    let players = store.list_players().expect("list players");
    let with_first_id: Vec<_> = players.iter().filter(|p| p.id == first).collect();
    assert_eq!(with_first_id.len(), 1);
    assert_eq!(with_first_id[0].name.as_deref(), Some("X"));
}

#[test]
fn game_ids_have_length_and_alphabet() {
    let id = generate_random_string(6);
    assert_eq!(id.len(), 6);
    assert!(id.chars().all(is_game_id_char));

    assert_eq!(generate_random_string(0), "");
    let long = generate_random_string(64);
    assert_eq!(long.len(), 64);
    assert!(long.chars().all(is_game_id_char));
}

#[test]
fn no_id_left_above_largest() {
    let raw = rusqlite::Connection::open("file:id_bound?mode=memory&cache=shared")
        .expect("open raw connection");
    raw.execute_batch(
        "CREATE TABLE Player (id INTEGER, name TEXT);
         CREATE TABLE Game (id TEXT, player_1_id INTEGER, player_2_id INTEGER, status TEXT, created_timestamp TEXT);
         INSERT INTO Player (id, name) VALUES (2147483647, 'Max');",
    )
    .expect("seed the store");

    let mut store = Store::open("file:id_bound?mode=memory&cache=shared").expect("open store");
    assert_eq!(store.create_player(Some("late".to_owned())).unwrap_err(), StoreError::Query);
    // The failed creation left the table as it was.
    assert_eq!(store.list_players().expect("list players").len(), 1);
}

#[test]
fn connection_error_on_unopenable_path() {
    // Without a create flag, a file that does not exist cannot be opened.
    let result = Store::open("no_such_gamestore_file.db");
    assert!(matches!(result, Err(StoreError::Connection)));
}

#[test]
fn query_error_without_schema() {
    // The tables were never created, so every operation fails.
    let mut store = Store::open(":memory:").expect("open in-memory store");
    assert_eq!(store.list_players().unwrap_err(), StoreError::Query);
    assert_eq!(store.list_games().unwrap_err(), StoreError::Query);
    assert_eq!(store.create_player(Some("a".to_owned())).unwrap_err(), StoreError::Query);
    assert_eq!(store.create_game(Some("a".to_owned())).unwrap_err(), StoreError::Query);
}
