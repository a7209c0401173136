//! The executor and cursor against a real in-memory corpus store.

use libgurbani::DbConnection;
use libgurbani::DbError;
use libgurbani::QueryParams;
use libgurbani::Record;
use libgurbani::Scripture;

const SCHEMA: &str = "CREATE TABLE scriptures (\
    id INTEGER, scripture TEXT, page INTEGER, line INTEGER, hymn INTEGER, \
    gurmukhi TEXT, transliteration TEXT, translation TEXT, attributes TEXT, \
    gurmukhi_search TEXT, transliteration_search TEXT)";

fn corpus(rows: &[(i32, &str, i64, i64, i64, &str, &str)]) -> DbConnection {
    let conn = rusqlite::Connection::open_in_memory().unwrap();
    conn.execute(SCHEMA, []).unwrap();
    for (id, scripture, page, line, hymn, gurmukhi_search, transliteration_search) in rows {
        conn.execute(
            "INSERT INTO scriptures VALUES (?, ?, ?, ?, ?, ?, ?, ?, ?, ?, ?)",
            (
                id,
                scripture,
                page,
                line,
                hymn,
                format!("g{id}"),
                format!("t{id}"),
                format!("x{id}"),
                "{}",
                gurmukhi_search,
                transliteration_search,
            ),
        )
        .unwrap();
    }
    DbConnection::from_connection(conn)
}

fn drain(db: &DbConnection, params: QueryParams) -> Vec<Record> {
    let mut stmt = db.query(params).unwrap();
    let mut cursor = stmt.query().unwrap();
    let mut records = Vec::new();
    while let Some(record) = cursor.next().unwrap() {
        records.push(record);
    }
    records
}

#[test]
fn round_trip_scripture_and_page() {
    let db = corpus(&[
        (1, "sggs", 1, 1, 1, "a", "a"),
        (2, "sggs", 2, 1, 1, "b", "b"),
        (3, "sggs", 1, 2, 1, "c", "c"),
        (4, "dasam", 1, 1, 1, "d", "d"),
    ]);
    let records = drain(&db, QueryParams::new().scripture(Scripture::SGGS).page(1));
    assert_eq!(records.len(), 2);
    for record in &records {
        assert_eq!(record.scripture, "sggs");
        assert_eq!(record.page, 1);
    }
}

#[test]
fn cursor_exhaustion_is_not_an_error_and_is_sticky() {
    let db = corpus(&[(1, "sggs", 1, 1, 1, "a", "a")]);
    let mut stmt = db.query(QueryParams::new()).unwrap();
    let mut cursor = stmt.query().unwrap();
    assert!(cursor.next().unwrap().is_some());
    assert!(cursor.next().unwrap().is_none());
    assert!(cursor.next().unwrap().is_none());
    assert!(cursor.next().unwrap().is_none());
}

#[test]
fn prefix_search_orders_shorter_matches_first() {
    let db = corpus(&[
        (1, "sggs", 1, 1, 1, "abcde", "x"),
        (2, "sggs", 1, 2, 1, "ab", "y"),
        (3, "sggs", 1, 3, 1, "abc", "z"),
        (4, "sggs", 1, 4, 1, "zzz", "w"),
    ]);
    let records = drain(&db, QueryParams::new().gurmukhi(String::from("ab")));
    let searches: Vec<&str> = records.iter().map(|r| r.gurmukhi_search.as_str()).collect();
    assert_eq!(searches, ["ab", "abc", "abcde"]);
}

#[test]
fn gurmukhi_prefix_example() {
    let db = corpus(&[
        (1, "sggs", 1, 1, 1, "ੴ", "ik"),
        (2, "sggs", 1, 2, 1, "ੴਸਤਿ", "iksat"),
        (3, "sggs", 1, 3, 1, "ਸਤਿ", "sat"),
    ]);
    let records = drain(&db, QueryParams::new().gurmukhi(String::from("ੴ")));
    let searches: Vec<&str> = records.iter().map(|r| r.gurmukhi_search.as_str()).collect();
    assert_eq!(searches, ["ੴ", "ੴਸਤਿ"]);
}

#[test]
fn record_maps_columns_positionally() {
    let db = corpus(&[(7, "sggs", 12, 3, 4, "gs", "ts")]);
    let records = drain(&db, QueryParams::new());
    assert_eq!(records.len(), 1);
    let record = &records[0];
    assert_eq!(record.id, 7);
    assert_eq!(record.scripture, "sggs");
    assert_eq!(record.page, 12);
    assert_eq!(record.line, 3);
    assert_eq!(record.hymn, 4);
    assert_eq!(record.gurmukhi, "g7");
    assert_eq!(record.transliteration, "t7");
    assert_eq!(record.translation, "x7");
    assert_eq!(record.attributes, "{}");
    assert_eq!(record.gurmukhi_search, "gs");
    assert_eq!(record.transliteration_search, "ts");
}

#[test]
fn empty_match_yields_no_records_and_no_error() {
    let db = corpus(&[(1, "sggs", 1, 1, 1, "a", "a")]);
    let records = drain(&db, QueryParams::new().page(999));
    assert_eq!(records.len(), 0);
}

#[test]
fn hostile_filter_matches_nothing_and_leaves_store_intact() {
    let db = corpus(&[
        (1, "sggs", 1, 1, 1, "a", "a"),
        (2, "sggs", 1, 2, 1, "b", "b"),
    ]);
    let hostile = String::from("a'; DROP TABLE scriptures; --");
    let records = drain(&db, QueryParams::new().gurmukhi(hostile));
    assert_eq!(records.len(), 0);
    let survivors = drain(&db, QueryParams::new());
    assert_eq!(survivors.len(), 2);
}

#[test]
fn percent_in_filter_stays_in_bound_value() {
    let db = corpus(&[
        (1, "sggs", 1, 1, 1, "a%b", "x"),
        (2, "sggs", 1, 2, 1, "aXb", "y"),
        (3, "sggs", 1, 3, 1, "zzz", "z"),
    ]);
    let records = drain(&db, QueryParams::new().gurmukhi(String::from("a%")));
    let searches: Vec<&str> = records.iter().map(|r| r.gurmukhi_search.as_str()).collect();
    assert_eq!(searches, ["a%b", "aXb"]);
}

#[test]
fn connect_fails_on_missing_store() {
    match DbConnection::connect() {
        Err(e) => assert_eq!(e, DbError::Open),
        Ok(_) => panic!("opening a missing store must fail"),
    }
}

#[test]
fn missing_table_fails_preparation() {
    let conn = rusqlite::Connection::open_in_memory().unwrap();
    let db = DbConnection::from_connection(conn);
    let outcome = db.query(QueryParams::new());
    assert_eq!(outcome.err(), Some(DbError::Prepare));
}

#[test]
fn mistyped_column_is_a_fatal_mapping_error() {
    let conn = rusqlite::Connection::open_in_memory().unwrap();
    conn.execute(SCHEMA, []).unwrap();
    conn.execute(
        "INSERT INTO scriptures VALUES ('not a number', 's', 1, 1, 1, \
         'g', 't', 'x', 'a', 'gs', 'ts')",
        [],
    )
    .unwrap();
    let db = DbConnection::from_connection(conn);
    let mut stmt = db.query(QueryParams::new()).unwrap();
    let mut cursor = stmt.query().unwrap();
    assert_eq!(cursor.next().unwrap_err(), DbError::Column);
}
