use slashmem::db::sql::Db;
use rusqlite::Connection;
use slashmem::schema::{
    add_column_if_missing, add_column_sql, column_names, ensure_schema, has_column, migrations,
    table_info_sql,
};

fn mem_db() -> Db {
    Db::new(Connection::open_in_memory().unwrap())
}

#[test]
fn ensure_schema_creates_all_tables() {
    let mut db = mem_db();
    ensure_schema(&mut db).unwrap();

    let tables: Vec<String> = db
        .conn.prepare("SELECT name FROM sqlite_master WHERE type='table' ORDER BY name")
        .unwrap()
        .query_map([], |r| r.get(0))
        .unwrap()
        .collect::<Result<_, _>>()
        .unwrap();

    assert!(tables.contains(&"episodic".into()));
    assert!(tables.contains(&"working".into()));
    assert!(tables.contains(&"procedural".into()));
    assert!(tables.contains(&"procedural_fts".into()));
    assert!(tables.contains(&"working_fts".into()));
}

#[test]
fn schema_ensure_schema_is_idempotent() {
    let mut db = mem_db();
    ensure_schema(&mut db).unwrap();
    ensure_schema(&mut db).unwrap();
}

#[test]
fn episodic_columns() {
    let mut db = mem_db();
    ensure_schema(&mut db).unwrap();

    db.conn.execute(
        "INSERT INTO episodic (content, context, agent, source) VALUES (?1,?2,?3,?4)",
        ["hello", "ctx", "agent-0", "test"],
    )
    .unwrap();

    let (id, ts): (i64, String) = db
        .conn.query_row("SELECT id, timestamp FROM episodic WHERE id=1", [], |r| Ok((r.get(0)?, r.get(1)?)))
        .unwrap();
    assert_eq!(id, 1);
    assert!(!ts.is_empty());
}

#[test]
fn working_columns() {
    let mut db = mem_db();
    ensure_schema(&mut db).unwrap();

    db.conn.execute(
        "INSERT INTO working (summary, body, task_id, agent) VALUES (?1,?2,?3,?4)",
        ["sum", "body text", "T-1", "agent-0"],
    )
    .unwrap();

    let created: String = db.conn.query_row("SELECT created_at FROM working WHERE id=1", [], |r| r.get(0)).unwrap();
    assert!(!created.is_empty());
}

#[test]
fn procedural_columns_and_defaults() {
    let mut db = mem_db();
    ensure_schema(&mut db).unwrap();

    db.conn.execute("INSERT INTO procedural (id, rule) VALUES ('r1', 'always test')", []).unwrap();

    let (sc, fc, conf, anti, proven): (i64, i64, f64, i64, i64) = db
        .conn.query_row(
            "SELECT success_count, failure_count, confidence, is_anti_pattern, is_proven FROM procedural WHERE id='r1'",
            [],
            |r| Ok((r.get(0)?, r.get(1)?, r.get(2)?, r.get(3)?, r.get(4)?)),
        )
        .unwrap();

    assert_eq!(sc, 0);
    assert_eq!(fc, 0);
    assert!((conf - 0.5).abs() < f64::EPSILON);
    assert_eq!(anti, 0);
    assert_eq!(proven, 0);
}

fn count(conn: &Connection, sql: &str) -> i64 {
    conn.query_row(sql, [], |r| r.get(0)).unwrap()
}

#[test]
fn procedural_fts_sync() {
    let mut db = mem_db();
    ensure_schema(&mut db).unwrap();

    db.conn.execute("INSERT INTO procedural (id, rule) VALUES ('r1', 'always write tests')", []).unwrap();
    assert_eq!(count(&db.conn, "SELECT COUNT(*) FROM procedural_fts WHERE procedural_fts MATCH 'tests'"), 1);

    db.conn.execute("UPDATE procedural SET rule = 'always write unit tests' WHERE id = 'r1'", []).unwrap();
    assert_eq!(count(&db.conn, "SELECT COUNT(*) FROM procedural_fts WHERE procedural_fts MATCH 'unit'"), 1);

    db.conn.execute("DELETE FROM procedural WHERE id = 'r1'", []).unwrap();
    assert_eq!(count(&db.conn, "SELECT COUNT(*) FROM procedural_fts WHERE procedural_fts MATCH 'unit'"), 0);
}

#[test]
fn working_fts_sync() {
    let mut db = mem_db();
    ensure_schema(&mut db).unwrap();

    db.conn.execute("INSERT INTO working (summary, body) VALUES ('auth refactor', 'moved to JWT tokens')", []).unwrap();
    assert_eq!(count(&db.conn, "SELECT COUNT(*) FROM working_fts WHERE working_fts MATCH 'JWT'"), 1);

    db.conn.execute("UPDATE working SET body = 'switched to OAuth2' WHERE id = 1", []).unwrap();
    assert_eq!(count(&db.conn, "SELECT COUNT(*) FROM working_fts WHERE working_fts MATCH 'JWT'"), 0);
    assert_eq!(count(&db.conn, "SELECT COUNT(*) FROM working_fts WHERE working_fts MATCH 'OAuth2'"), 1);

    db.conn.execute("DELETE FROM working WHERE id = 1", []).unwrap();
    assert_eq!(count(&db.conn, "SELECT COUNT(*) FROM working_fts WHERE working_fts MATCH 'OAuth2'"), 0);
}

#[test]
fn migration_adds_missing_columns() {
    let mut db = mem_db();
    db.conn.execute_batch(
        "CREATE TABLE procedural (
            id TEXT PRIMARY KEY,
            rule TEXT NOT NULL,
            success_count INTEGER NOT NULL DEFAULT 0,
            failure_count INTEGER NOT NULL DEFAULT 0,
            confidence REAL NOT NULL DEFAULT 0.5,
            created_at TEXT NOT NULL DEFAULT (datetime('now')),
            updated_at TEXT NOT NULL DEFAULT (datetime('now'))
        )",
    )
    .unwrap();

    ensure_schema(&mut db).unwrap();

    db.conn.execute(
        "INSERT INTO procedural (id, rule, is_anti_pattern, is_proven, last_validated, source)
         VALUES ('r1', 'test', 1, 0, '2026-01-01', 'migration-test')",
        [],
    )
    .unwrap();

    let (anti, source): (i64, String) = db
        .conn.query_row("SELECT is_anti_pattern, source FROM procedural WHERE id='r1'", [], |r| Ok((r.get(0)?, r.get(1)?)))
        .unwrap();
    assert_eq!(anti, 1);
    assert_eq!(source, "migration-test");
}

#[test]
fn procedural_updated_at_trigger() {
    let mut db = mem_db();
    ensure_schema(&mut db).unwrap();

    db.conn.execute(
        "INSERT INTO procedural (id, rule, updated_at) VALUES ('r1', 'old rule', '2020-01-01 00:00:00')",
        [],
    )
    .unwrap();
    db.conn.execute("UPDATE procedural SET rule = 'new rule' WHERE id = 'r1'", []).unwrap();

    let updated: String = db.conn.query_row("SELECT updated_at FROM procedural WHERE id='r1'", [], |r| r.get(0)).unwrap();
    assert_ne!(updated, "2020-01-01 00:00:00");
}

#[test]
fn add_column_only_when_missing() {
    let mut db = mem_db();
    db.conn.execute_batch("CREATE TABLE t (a TEXT)").unwrap();
    assert_eq!(column_names(&mut db, "t").unwrap(), vec!["a".to_string()]);
    assert!(add_column_if_missing(&mut db, "t", "b", "TEXT").unwrap());
    assert!(!add_column_if_missing(&mut db, "t", "b", "TEXT").unwrap());
    assert!(!add_column_if_missing(&mut db, "t", "a", "TEXT").unwrap());
    assert_eq!(column_names(&mut db, "t").unwrap(), vec!["a".to_string(), "b".to_string()]);
}

#[test]
fn statement_texts() {
    assert_eq!(table_info_sql("working"), "PRAGMA table_info('working')");
    assert_eq!(add_column_sql("episodic", "source", "TEXT"), "ALTER TABLE episodic ADD COLUMN source TEXT");
    let names = vec!["id".to_string(), "rule".to_string()];
    assert!(has_column(&names, "rule"));
    assert!(!has_column(&names, "source"));
    assert!(!has_column(&Vec::new(), "id"));
}

#[test]
fn migrations_list() {
    let ms = migrations();
    assert_eq!(ms.len(), 7);
    assert_eq!((ms[0].table, ms[0].column, ms[0].column_def), ("episodic", "source", "TEXT"));
    assert_eq!((ms[3].table, ms[3].column, ms[3].column_def), ("procedural", "is_anti_pattern", "INTEGER NOT NULL DEFAULT 0"));
    assert_eq!((ms[6].table, ms[6].column, ms[6].column_def), ("procedural", "source", "TEXT"));
}
