use slashmem::db::sql::Db;
use rusqlite::Connection;
use slashmem::db::schema::ensure_schema;

fn test_conn() -> Db {
    Db::new(Connection::open_in_memory().unwrap())
}

fn names(conn: &Connection, kind: &str) -> Vec<String> {
    conn.prepare(&format!("SELECT name FROM sqlite_master WHERE type='{kind}' ORDER BY name"))
        .unwrap()
        .query_map([], |row| row.get(0))
        .unwrap()
        .filter_map(|r| r.ok())
        .collect()
}

#[test]
fn ensure_schema_creates_tables() {
    let mut db = test_conn();
    ensure_schema(&mut db).unwrap();
    let tables = names(&db.conn, "table");
    assert!(tables.contains(&"episodic".to_string()));
    assert!(tables.contains(&"procedural".to_string()));
}

#[test]
fn ensure_schema_creates_trigger() {
    let mut db = test_conn();
    ensure_schema(&mut db).unwrap();
    let triggers = names(&db.conn, "trigger");
    assert!(triggers.contains(&"procedural_updated_at".to_string()));
}

#[test]
fn db_schema_ensure_schema_is_idempotent() {
    let mut db = test_conn();
    ensure_schema(&mut db).unwrap();
    ensure_schema(&mut db).unwrap();
}

#[test]
fn trigger_updates_updated_at_on_row_change() {
    let mut db = test_conn();
    ensure_schema(&mut db).unwrap();

    db.conn.execute(
        "INSERT INTO procedural (id, rule, confidence, created_at, updated_at)
         VALUES ('RULE-001', 'test rule', 1.0, '2020-01-01T00:00:00Z', '2020-01-01T00:00:00Z')",
        [],
    )
    .unwrap();

    let (created, updated): (String, String) = db
        .conn.query_row("SELECT created_at, updated_at FROM procedural WHERE id = 'RULE-001'", [], |row| Ok((row.get(0)?, row.get(1)?)))
        .unwrap();
    assert_eq!(created, "2020-01-01T00:00:00Z");
    assert_eq!(updated, "2020-01-01T00:00:00Z");

    db.conn.execute("UPDATE procedural SET rule = 'updated rule' WHERE id = 'RULE-001'", []).unwrap();

    let (created_after, updated_after): (String, String) = db
        .conn.query_row("SELECT created_at, updated_at FROM procedural WHERE id = 'RULE-001'", [], |row| Ok((row.get(0)?, row.get(1)?)))
        .unwrap();

    assert_eq!(created_after, "2020-01-01T00:00:00Z");
    assert_ne!(updated_after, "2020-01-01T00:00:00Z");
    assert!(updated_after.as_str() > "2020-01-01T00:00:00Z");
}

#[test]
fn trigger_fires_on_confidence_update() {
    let mut db = test_conn();
    ensure_schema(&mut db).unwrap();

    db.conn.execute(
        "INSERT INTO procedural (id, rule, confidence, created_at, updated_at)
         VALUES ('RULE-002', 'another rule', 0.8, '2020-01-01T00:00:00Z', '2020-01-01T00:00:00Z')",
        [],
    )
    .unwrap();
    db.conn.execute("UPDATE procedural SET confidence = 0.5 WHERE id = 'RULE-002'", []).unwrap();

    let updated: String = db.conn.query_row("SELECT updated_at FROM procedural WHERE id = 'RULE-002'", [], |row| row.get(0)).unwrap();
    assert_ne!(updated, "2020-01-01T00:00:00Z");
}
