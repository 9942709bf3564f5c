use slashmem::db::sql::Db;
use rusqlite::Connection;
use slashmem::cli::IngestArgs;
use slashmem::db::{episodic, procedural, working};
use slashmem::ingest::{run_ingest, select_validated};
use slashmem::schema::ensure_schema;

fn test_conn() -> Db {
    let mut db = Db::new(Connection::open_in_memory().unwrap());
    ensure_schema(&mut db).unwrap();
    db
}

fn counts(conn: &Connection, id: &str) -> (u32, u32, Option<String>) {
    conn.query_row(
        "SELECT success_count, failure_count, last_validated FROM procedural WHERE id = ?1",
        [id],
        |r| Ok((r.get(0)?, r.get(1)?, r.get(2)?)),
    )
    .unwrap()
}

#[test]
fn ingest_inserts_episodic_and_working() {
    let mut db = test_conn();
    let args = IngestArgs {
        task: "T-1".into(),
        body: "did stuff".into(),
        agent: "agent-0".into(),
        success: vec![],
        harm: vec![],
    };
    let out = run_ingest(&mut db, &args).unwrap();

    assert!(out.episodic_id.is_some());
    assert!(out.validated_rules.is_empty());
    assert!(out.proposed_rules.is_empty());

    let eps = episodic::recent(&mut db, 1).unwrap();
    assert_eq!(eps.len(), 1);
    assert_eq!(eps[0].content, "did stuff");
    assert_eq!(eps[0].context.as_deref(), Some("T-1"));
    assert_eq!(eps[0].agent.as_deref(), Some("agent-0"));
    assert_eq!(eps[0].source.as_deref(), Some("ingest"));
    assert_eq!(out.episodic_id.as_deref(), Some(eps[0].id.to_string().as_str()));

    let ws = working::recent(&mut db, 1).unwrap();
    assert_eq!(ws.len(), 1);
    assert_eq!(ws[0].summary, "did stuff");
    assert_eq!(ws[0].task_id.as_deref(), Some("T-1"));
    assert_eq!(ws[0].agent.as_deref(), Some("agent-0"));
}

#[test]
fn ingest_records_success() {
    let mut db = test_conn();
    procedural::insert(&mut db, "rule-1", "always test", None).unwrap();

    let args = IngestArgs {
        task: "T-1".into(),
        body: "tested it".into(),
        agent: "a".into(),
        success: vec!["rule-1".into()],
        harm: vec![],
    };
    let out = run_ingest(&mut db, &args).unwrap();
    assert_eq!(out.validated_rules, vec!["rule-1"]);

    let (s, _, last) = counts(&db.conn, "rule-1");
    assert_eq!(s, 1);
    assert!(last.is_some());
}

#[test]
fn ingest_records_harm() {
    let mut db = test_conn();
    procedural::insert(&mut db, "rule-2", "never panic", None).unwrap();

    let args = IngestArgs {
        task: "T-1".into(),
        body: "panicked".into(),
        agent: "a".into(),
        success: vec![],
        harm: vec!["rule-2".into()],
    };
    let out = run_ingest(&mut db, &args).unwrap();
    assert_eq!(out.validated_rules, vec!["rule-2"]);

    let (_, f, last) = counts(&db.conn, "rule-2");
    assert_eq!(f, 1);
    assert!(last.is_some());
}

#[test]
fn ingest_skips_missing_rules() {
    let mut db = test_conn();
    let args = IngestArgs {
        task: "T-1".into(),
        body: "body".into(),
        agent: "a".into(),
        success: vec!["nonexistent".into()],
        harm: vec!["also-missing".into()],
    };
    let out = run_ingest(&mut db, &args).unwrap();
    assert!(out.validated_rules.is_empty());
}

#[test]
fn ingest_success_and_harm_together() {
    let mut db = test_conn();
    procedural::insert(&mut db, "r-ok", "good rule", None).unwrap();
    procedural::insert(&mut db, "r-bad", "bad rule", None).unwrap();

    let args = IngestArgs {
        task: "T-1".into(),
        body: "mixed".into(),
        agent: "a".into(),
        success: vec!["r-ok".into()],
        harm: vec!["r-bad".into()],
    };
    let out = run_ingest(&mut db, &args).unwrap();
    assert_eq!(out.validated_rules, vec!["r-ok", "r-bad"]);

    let (s, f, _) = counts(&db.conn, "r-ok");
    assert_eq!(s, 1);
    assert_eq!(f, 0);

    let (s, f, _) = counts(&db.conn, "r-bad");
    assert_eq!(s, 0);
    assert_eq!(f, 1);
}

#[test]
fn ingest_keeps_given_order_and_duplicates() {
    let mut db = test_conn();
    procedural::insert(&mut db, "a", "rule a", None).unwrap();
    procedural::insert(&mut db, "b", "rule b", None).unwrap();
    let args = IngestArgs {
        task: "T".into(),
        body: "x".into(),
        agent: "g".into(),
        success: vec!["b".into(), "missing".into(), "a".into(), "b".into()],
        harm: vec!["a".into()],
    };
    let out = run_ingest(&mut db, &args).unwrap();
    assert_eq!(out.validated_rules, vec!["b", "a", "b", "a"]);
    assert_eq!(counts(&db.conn, "b").0, 2);
    assert_eq!(counts(&db.conn, "a"), (1, 1, counts(&db.conn, "a").2));
}

#[test]
fn ingest_without_schema_is_database_error() {
    let mut db = Db::new(Connection::open_in_memory().unwrap());
    let args = IngestArgs { task: "T".into(), body: "x".into(), agent: "g".into(), success: vec![], harm: vec![] };
    assert!(matches!(run_ingest(&mut db, &args), Err(slashmem::error::AppError::Database(_))));
}

#[test]
fn select_validated_filters_in_order() {
    let ids: Vec<String> = vec!["x".into(), "y".into(), "z".into()];
    assert_eq!(select_validated(&ids, &vec![true, false, true]), vec!["x", "z"]);
    assert!(select_validated(&ids, &vec![false, false, false]).is_empty());
    assert!(select_validated(&Vec::new(), &Vec::new()).is_empty());
}
