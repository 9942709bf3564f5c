use slashmem::db::sql::Db;
use rusqlite::Connection;
use slashmem::db::episodic::{by_agent, insert, recent, since, InsertEpisodic};
use slashmem::schema::ensure_schema;

fn setup() -> Db {
    let mut db = Db::new(Connection::open_in_memory().unwrap());
    ensure_schema(&mut db).unwrap();
    db
}

#[test]
fn insert_returns_rowid() {
    let mut db = setup();
    let id = insert(&mut db, &InsertEpisodic { content: "did a thing", context: None, agent: None, source: None }).unwrap();
    assert_eq!(id, 1);

    let id2 = insert(
        &mut db,
        &InsertEpisodic { content: "did another thing", context: Some("ctx"), agent: Some("bot-1"), source: Some("ingest") },
    )
    .unwrap();
    assert_eq!(id2, 2);
}

#[test]
fn insert_empty_content_is_valid() {
    let mut db = setup();
    let id = insert(&mut db, &InsertEpisodic { content: "", context: None, agent: None, source: None }).unwrap();
    let rows = recent(&mut db, 10).unwrap();
    assert_eq!(rows.len(), 1);
    assert_eq!(rows[0].id, id);
    assert_eq!(rows[0].content, "");
}

#[test]
fn episodic_recent_returns_newest_first() {
    let mut db = setup();
    db.conn.execute("INSERT INTO episodic (content, timestamp) VALUES ('first', '2025-01-01 00:00:00')", []).unwrap();
    db.conn.execute("INSERT INTO episodic (content, timestamp) VALUES ('second', '2025-01-02 00:00:00')", []).unwrap();
    db.conn.execute("INSERT INTO episodic (content, timestamp) VALUES ('third', '2025-01-03 00:00:00')", []).unwrap();

    let rows = recent(&mut db, 10).unwrap();
    assert_eq!(rows.len(), 3);
    assert_eq!(rows[0].content, "third");
    assert_eq!(rows[1].content, "second");
    assert_eq!(rows[2].content, "first");
}

#[test]
fn episodic_recent_respects_limit() {
    let mut db = setup();
    for i in 0..5 {
        insert(&mut db, &InsertEpisodic { content: &format!("entry {i}"), context: None, agent: None, source: None }).unwrap();
    }
    let rows = recent(&mut db, 2).unwrap();
    assert_eq!(rows.len(), 2);
}

#[test]
fn episodic_recent_empty_table() {
    let mut db = setup();
    let rows = recent(&mut db, 10).unwrap();
    assert!(rows.is_empty());
}

#[test]
fn recent_with_zero_limit_is_empty() {
    let mut db = setup();
    insert(&mut db, &InsertEpisodic { content: "x", context: None, agent: None, source: None }).unwrap();
    assert!(recent(&mut db, 0).unwrap().is_empty());
}

#[test]
fn by_agent_filters_correctly() {
    let mut db = setup();
    insert(&mut db, &InsertEpisodic { content: "from alpha", context: None, agent: Some("alpha"), source: None }).unwrap();
    insert(&mut db, &InsertEpisodic { content: "from beta", context: None, agent: Some("beta"), source: None }).unwrap();
    insert(&mut db, &InsertEpisodic { content: "also alpha", context: None, agent: Some("alpha"), source: None }).unwrap();

    let rows = by_agent(&mut db, "alpha", 10).unwrap();
    assert_eq!(rows.len(), 2);
    assert!(rows.iter().all(|r| r.agent.as_deref() == Some("alpha")));

    let rows = by_agent(&mut db, "beta", 10).unwrap();
    assert_eq!(rows.len(), 1);

    let rows = by_agent(&mut db, "gamma", 10).unwrap();
    assert!(rows.is_empty());
}

#[test]
fn since_filters_by_timestamp() {
    let mut db = setup();
    db.conn.execute("INSERT INTO episodic (content, timestamp) VALUES ('old', '2025-01-01 00:00:00')", []).unwrap();
    db.conn.execute("INSERT INTO episodic (content, timestamp) VALUES ('mid', '2025-06-01 00:00:00')", []).unwrap();
    db.conn.execute("INSERT INTO episodic (content, timestamp) VALUES ('new', '2025-12-01 00:00:00')", []).unwrap();

    let rows = since(&mut db, "2025-05-01 00:00:00", 10).unwrap();
    assert_eq!(rows.len(), 2);
    assert_eq!(rows[0].content, "new");
    assert_eq!(rows[1].content, "mid");
}

#[test]
fn since_returns_empty_when_all_entries_are_older() {
    let mut db = setup();
    db.conn.execute("INSERT INTO episodic (content, timestamp) VALUES ('old', '2025-01-01 00:00:00')", []).unwrap();

    let rows = since(&mut db, "2025-12-01 00:00:00", 10).unwrap();
    assert!(rows.is_empty());
}

#[test]
fn all_optional_fields_round_trip() {
    let mut db = setup();
    let id = insert(
        &mut db,
        &InsertEpisodic { content: "full record", context: Some("test context"), agent: Some("agent-42"), source: Some("cli") },
    )
    .unwrap();

    let rows = recent(&mut db, 1).unwrap();
    assert_eq!(rows.len(), 1);
    let row = &rows[0];
    assert_eq!(row.id, id);
    assert_eq!(row.content, "full record");
    assert_eq!(row.context.as_deref(), Some("test context"));
    assert_eq!(row.agent.as_deref(), Some("agent-42"));
    assert_eq!(row.source.as_deref(), Some("cli"));
    assert!(!row.timestamp.is_empty());
}

#[test]
fn insert_without_table_is_database_error() {
    let mut db = Db::new(Connection::open_in_memory().unwrap());
    let r = insert(&mut db, &InsertEpisodic { content: "x", context: None, agent: None, source: None });
    assert!(matches!(r, Err(slashmem::error::AppError::Database(_))));
    assert!(matches!(recent(&mut db, 5), Err(slashmem::error::AppError::Database(_))));
}
