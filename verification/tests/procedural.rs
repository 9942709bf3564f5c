use slashmem::db::sql::Db;
use rusqlite::Connection;
use slashmem::db::procedural::{
    changed_any, decay_input, decay_inputs, delete, insert, record_failure, record_success, update_rule,
};
use slashmem::schema::ensure_schema;

fn setup() -> Db {
    let mut db = Db::new(Connection::open_in_memory().unwrap());
    ensure_schema(&mut db).unwrap();
    db
}

/// (rule, success_count, failure_count, last_validated, source) of a stored rule.
fn stored(conn: &Connection, id: &str) -> Option<(String, u32, u32, Option<String>, Option<String>)> {
    conn.query_row(
        "SELECT rule, success_count, failure_count, last_validated, source FROM procedural WHERE id = ?1",
        [id],
        |r| Ok((r.get(0)?, r.get(1)?, r.get(2)?, r.get(3)?, r.get(4)?)),
    )
    .ok()
}

#[test]
fn procedural_insert_returns_id() {
    let mut db = setup();
    let id = insert(&mut db, "rule-1", "Always run tests before deploy", None).unwrap();
    assert_eq!(id, "rule-1");
}

#[test]
fn insert_with_source() {
    let mut db = setup();
    insert(&mut db, "rule-2", "Use prepared statements", Some("code-review")).unwrap();
    let (_, s, f, _, source) = stored(&db.conn, "rule-2").unwrap();
    assert_eq!(source.as_deref(), Some("code-review"));
    assert_eq!(s, 0);
    assert_eq!(f, 0);
}

#[test]
fn insert_duplicate_id_errors() {
    let mut db = setup();
    insert(&mut db, "dup", "first rule", None).unwrap();
    assert!(insert(&mut db, "dup", "second rule", None).is_err());
}

#[test]
fn update_rule_changes_text() {
    let mut db = setup();
    insert(&mut db, "r1", "old text", None).unwrap();
    assert!(update_rule(&mut db, "r1", "new text").unwrap());
    let (rule, _, _, _, _) = stored(&db.conn, "r1").unwrap();
    assert_eq!(rule, "new text");
}

#[test]
fn update_rule_missing_returns_false() {
    let mut db = setup();
    assert!(!update_rule(&mut db, "nope", "text").unwrap());
}

#[test]
fn record_success_increments() {
    let mut db = setup();
    insert(&mut db, "r1", "test rule", None).unwrap();
    record_success(&mut db, "r1").unwrap();
    record_success(&mut db, "r1").unwrap();
    let (_, s, _, last, _) = stored(&db.conn, "r1").unwrap();
    assert_eq!(s, 2);
    assert!(last.is_some());
}

#[test]
fn record_failure_increments() {
    let mut db = setup();
    insert(&mut db, "r1", "test rule", None).unwrap();
    record_failure(&mut db, "r1").unwrap();
    record_failure(&mut db, "r1").unwrap();
    record_failure(&mut db, "r1").unwrap();
    let (_, _, f, _, _) = stored(&db.conn, "r1").unwrap();
    assert_eq!(f, 3);
}

#[test]
fn record_on_missing_returns_false() {
    let mut db = setup();
    assert!(!record_success(&mut db, "nope").unwrap());
    assert!(!record_failure(&mut db, "nope").unwrap());
}

#[test]
fn delete_removes_rule() {
    let mut db = setup();
    insert(&mut db, "r1", "rule", None).unwrap();
    assert!(delete(&mut db, "r1").unwrap());
    assert!(stored(&db.conn, "r1").is_none());
    assert!(!delete(&mut db, "r1").unwrap());
}

#[test]
fn boolean_fields_default_false() {
    let mut db = setup();
    insert(&mut db, "r1", "new rule", None).unwrap();
    let (proven, anti): (i64, i64) = db
        .conn.query_row("SELECT is_proven, is_anti_pattern FROM procedural WHERE id='r1'", [], |r| Ok((r.get(0)?, r.get(1)?)))
        .unwrap();
    assert_eq!(proven, 0);
    assert_eq!(anti, 0);
}

#[test]
fn timestamps_are_populated() {
    let mut db = setup();
    insert(&mut db, "r1", "rule", None).unwrap();
    let (created, updated): (String, String) = db
        .conn.query_row("SELECT created_at, updated_at FROM procedural WHERE id='r1'", [], |r| Ok((r.get(0)?, r.get(1)?)))
        .unwrap();
    assert!(!created.is_empty());
    assert!(!updated.is_empty());
}

#[test]
fn decay_inputs_with_explicit_timestamps() {
    let mut db = setup();
    insert(&mut db, "r1", "decaying rule", None).unwrap();
    db.conn.execute(
        "UPDATE procedural SET success_count = 8, last_validated = '2025-07-01 00:00:00' WHERE id = 'r1'",
        [],
    )
    .unwrap();

    let now = 1_767_225_600; // 2026-01-01T00:00:00Z, 184 days later
    let inputs = decay_inputs(&mut db, now, 0).unwrap();
    assert_eq!(inputs.len(), 1);
    assert_eq!(inputs[0].id, "r1");
    assert_eq!(inputs[0].base, 8);
    assert_eq!(inputs[0].elapsed_secs, 184 * 86_400);
    assert!(!inputs[0].is_anti_pattern);
}

#[test]
fn decay_inputs_mark_anti_patterns() {
    let mut db = setup();
    insert(&mut db, "good", "good rule", None).unwrap();
    insert(&mut db, "bad", "bad rule", None).unwrap();
    for _ in 0..10 {
        record_success(&mut db, "good").unwrap();
    }
    for _ in 0..4 {
        record_failure(&mut db, "bad").unwrap();
    }
    let mut inputs = decay_inputs(&mut db, 4_000_000_000, 0).unwrap();
    inputs.sort_by(|a, b| a.id.cmp(&b.id));
    assert_eq!(inputs.len(), 2);
    assert_eq!(inputs[0].id, "bad");
    assert!(inputs[0].is_anti_pattern);
    assert_eq!(inputs[0].base, -16);
    assert_eq!(inputs[1].id, "good");
    assert!(!inputs[1].is_anti_pattern);
    assert_eq!(inputs[1].base, 10);
}

#[test]
fn never_validated_rule_has_not_decayed() {
    let d = decay_input("r".to_string(), 3, 0, None, 1_000, 0);
    assert_eq!(d.elapsed_secs, 0);
    assert_eq!(d.base, 3);
    let d = decay_input("r".to_string(), 0, 3, Some("garbage".to_string()), 1_000, 0);
    assert_eq!(d.elapsed_secs, 0);
    assert!(d.is_anti_pattern);
    assert_eq!(d.base, -12);
}

#[test]
fn decay_input_for_future_validation_is_clamped() {
    let d = decay_input("r".to_string(), 5, 0, Some("2026-06-01 00:00:00".to_string()), 1_767_225_600, 0);
    assert_eq!(d.elapsed_secs, 0);
    assert_eq!(d.base, 5);
}

#[test]
fn changed_any_reports_rows() {
    assert_eq!(changed_any(Ok(0)).unwrap(), false);
    assert_eq!(changed_any(Ok(3)).unwrap(), true);
    assert!(matches!(
        changed_any(Err(slashmem::error::AppError::Other("x".into()))),
        Err(slashmem::error::AppError::Other(_))
    ));
}
