use slashmem::db::sql::Db;
use rusqlite::Connection;
use slashmem::db::working::{by_task, insert, recent, search};
use slashmem::schema::ensure_schema;

fn setup() -> Db {
    let mut db = Db::new(Connection::open_in_memory().unwrap());
    ensure_schema(&mut db).unwrap();
    db
}

#[test]
fn working_insert_returns_id() {
    let mut db = setup();
    let id = insert(&mut db, "first entry", None, None, None).unwrap();
    assert_eq!(id, 1);
    let id2 = insert(&mut db, "second entry", None, None, None).unwrap();
    assert_eq!(id2, 2);
}

#[test]
fn insert_with_all_fields() {
    let mut db = setup();
    let id = insert(&mut db, "auth refactor", Some("moved to JWT"), Some("T-42"), Some("agent-0")).unwrap();
    assert!(id > 0);

    let entries = recent(&mut db, 1).unwrap();
    assert_eq!(entries.len(), 1);
    assert_eq!(entries[0].summary, "auth refactor");
    assert_eq!(entries[0].body.as_deref(), Some("moved to JWT"));
    assert_eq!(entries[0].task_id.as_deref(), Some("T-42"));
    assert_eq!(entries[0].agent.as_deref(), Some("agent-0"));
}

#[test]
fn working_recent_returns_newest_first() {
    let mut db = setup();
    db.conn.execute("INSERT INTO working (summary, created_at) VALUES ('old', '2025-01-01 00:00:00')", []).unwrap();
    db.conn.execute("INSERT INTO working (summary, created_at) VALUES ('mid', '2025-06-01 00:00:00')", []).unwrap();
    db.conn.execute("INSERT INTO working (summary, created_at) VALUES ('new', '2025-12-01 00:00:00')", []).unwrap();

    let entries = recent(&mut db, 10).unwrap();
    assert_eq!(entries.len(), 3);
    assert_eq!(entries[0].summary, "new");
    assert_eq!(entries[1].summary, "mid");
    assert_eq!(entries[2].summary, "old");
}

#[test]
fn working_recent_respects_limit() {
    let mut db = setup();
    for i in 0..5 {
        insert(&mut db, &format!("entry {i}"), None, None, None).unwrap();
    }
    let entries = recent(&mut db, 2).unwrap();
    assert_eq!(entries.len(), 2);
}

#[test]
fn working_recent_empty_table() {
    let mut db = setup();
    let entries = recent(&mut db, 10).unwrap();
    assert!(entries.is_empty());
}

#[test]
fn search_finds_by_summary() {
    let mut db = setup();
    insert(&mut db, "deploy pipeline fix", None, None, None).unwrap();
    insert(&mut db, "auth refactor", None, None, None).unwrap();

    let results = search(&mut db, "pipeline", 10).unwrap();
    assert_eq!(results.len(), 1);
    assert_eq!(results[0].summary, "deploy pipeline fix");
}

#[test]
fn search_finds_by_body() {
    let mut db = setup();
    insert(&mut db, "task summary", Some("added canary stage to deploy"), None, None).unwrap();

    let results = search(&mut db, "canary", 10).unwrap();
    assert_eq!(results.len(), 1);
    assert_eq!(results[0].summary, "task summary");
}

#[test]
fn working_search_no_results() {
    let mut db = setup();
    insert(&mut db, "something", None, None, None).unwrap();

    let results = search(&mut db, "nonexistent", 10).unwrap();
    assert!(results.is_empty());
}

#[test]
fn working_search_respects_limit() {
    let mut db = setup();
    for i in 0..5 {
        insert(&mut db, &format!("deploy variant {i}"), None, None, None).unwrap();
    }
    let results = search(&mut db, "deploy", 3).unwrap();
    assert_eq!(results.len(), 3);
}

#[test]
fn search_returns_newest_first() {
    let mut db = setup();
    db.conn.execute(
        "INSERT INTO working (summary, body, created_at) VALUES ('deploy deploy deploy', 'deploy deploy', '2025-01-01 00:00:00')",
        [],
    )
    .unwrap();
    db.conn.execute("INSERT INTO working (summary, created_at) VALUES ('unrelated mid entry', '2025-06-01 00:00:00')", []).unwrap();
    db.conn.execute("INSERT INTO working (summary, created_at) VALUES ('single deploy mention', '2025-12-01 00:00:00')", []).unwrap();

    let results = search(&mut db, "deploy", 10).unwrap();
    assert_eq!(results.len(), 2);
    assert_eq!(results[0].summary, "single deploy mention");
    assert_eq!(results[1].summary, "deploy deploy deploy");
}

#[test]
fn by_task_filters_correctly() {
    let mut db = setup();
    insert(&mut db, "task A work", None, Some("T-1"), None).unwrap();
    insert(&mut db, "task B work", None, Some("T-2"), None).unwrap();
    insert(&mut db, "more task A", None, Some("T-1"), None).unwrap();

    let results = by_task(&mut db, "T-1").unwrap();
    assert_eq!(results.len(), 2);
    assert!(results.iter().all(|e| e.task_id.as_deref() == Some("T-1")));
}

#[test]
fn by_task_empty_result() {
    let mut db = setup();
    insert(&mut db, "something", None, Some("T-1"), None).unwrap();

    let results = by_task(&mut db, "T-999").unwrap();
    assert!(results.is_empty());
}

#[test]
fn by_task_returns_newest_first() {
    let mut db = setup();
    db.conn.execute("INSERT INTO working (summary, task_id, created_at) VALUES ('early', 'T-1', '2025-01-01 00:00:00')", []).unwrap();
    db.conn.execute("INSERT INTO working (summary, task_id, created_at) VALUES ('later', 'T-1', '2025-06-01 00:00:00')", []).unwrap();

    let results = by_task(&mut db, "T-1").unwrap();
    assert_eq!(results.len(), 2);
    assert_eq!(results[0].summary, "later");
    assert_eq!(results[1].summary, "early");
}

#[test]
fn created_at_is_populated() {
    let mut db = setup();
    insert(&mut db, "test entry", None, None, None).unwrap();

    let entries = recent(&mut db, 1).unwrap();
    assert!(!entries[0].created_at.is_empty());
}

#[test]
fn malformed_search_query_is_database_error() {
    let mut db = setup();
    insert(&mut db, "x", None, None, None).unwrap();
    assert!(matches!(search(&mut db, "\"unterminated", 10), Err(slashmem::error::AppError::Database(_))));
}
