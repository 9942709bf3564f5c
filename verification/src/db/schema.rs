//! The compact schema variant: episodic and procedural tables in WAL mode,
//! with ISO-8601 timestamps and a trigger that stamps `updated_at`.
use vstd::prelude::*;

use crate::db::episodic::fails_only_in_db;
use crate::db::sql::{
    execute, execute_batch, failed_after, lemma_on_plan_done, lemma_on_plan_start,
    lemma_on_plan_step, text_args, Db, SqlCall, SqlRequest,
};
use crate::error::{AppError, Result};

verus! {

/// Statement that switches the database to write-ahead logging.
pub const WAL_SQL: &'static str = "PRAGMA journal_mode=WAL;";

/// SQL to create the episodic table.
pub const CREATE_EPISODIC: &'static str = "
CREATE TABLE IF NOT EXISTS episodic (
    id         INTEGER PRIMARY KEY AUTOINCREMENT,
    content    TEXT    NOT NULL,
    context    TEXT,
    timestamp  TEXT    NOT NULL DEFAULT (strftime('%Y-%m-%dT%H:%M:%SZ', 'now')),
    source     TEXT
)";

/// SQL to create the procedural table.
pub const CREATE_PROCEDURAL: &'static str = "
CREATE TABLE IF NOT EXISTS procedural (
    id          TEXT PRIMARY KEY,
    rule        TEXT    NOT NULL,
    confidence  REAL    NOT NULL DEFAULT 1.0,
    source      TEXT,
    created_at  TEXT    NOT NULL DEFAULT (strftime('%Y-%m-%dT%H:%M:%SZ', 'now')),
    updated_at  TEXT    NOT NULL DEFAULT (strftime('%Y-%m-%dT%H:%M:%SZ', 'now'))
)";

/// SQL trigger to stamp `procedural.updated_at` on row changes.
pub const CREATE_UPDATED_AT_TRIGGER: &'static str = "
CREATE TRIGGER IF NOT EXISTS procedural_updated_at
AFTER UPDATE ON procedural
FOR EACH ROW
BEGIN
    UPDATE procedural
       SET updated_at = strftime('%Y-%m-%dT%H:%M:%SZ', 'now')
     WHERE id = NEW.id;
END";

/// The exchanges of setting up the compact schema: write-ahead logging, the
/// episodic table, the procedural table (the two statements having changed
/// `a` and `b` rows), then the trigger.
pub open spec fn compact_schema_calls(a: int, b: int) -> Seq<SqlCall> {
    seq![
        SqlCall::Batch { sql: WAL_SQL@ },
        SqlCall::Execute { sql: CREATE_EPISODIC@, args: seq![], changed: a },
        SqlCall::Execute { sql: CREATE_PROCEDURAL@, args: seq![], changed: b },
        SqlCall::Batch { sql: CREATE_UPDATED_AT_TRIGGER@ },
    ]
}

/// What setting up the compact schema asks of SQLite, in order.
pub open spec fn compact_schema_plan() -> Seq<SqlRequest> {
    seq![
        SqlRequest::Batch { sql: WAL_SQL@ },
        SqlRequest::Execute { sql: CREATE_EPISODIC@, args: seq![] },
        SqlRequest::Execute { sql: CREATE_PROCEDURAL@, args: seq![] },
        SqlRequest::Batch { sql: CREATE_UPDATED_AT_TRIGGER@ },
    ]
}

/// Switch to write-ahead logging ([`WAL_SQL`]), create the episodic and
/// procedural tables, and install the trigger, in that order, and nothing
/// else; on a failure, nothing after the failed statement.
pub fn ensure_schema(db: &mut Db) -> (r: Result<()>)
    ensures
        fails_only_in_db(r),
        r is Ok ==> exists|a: int, b: int| final(db).log@ == old(db).log@ + compact_schema_calls(a, b),
        r is Err ==> failed_after(old(db).log@, final(db).log@, compact_schema_plan()),
{
    let ghost start = db.log@;
    let ghost plan = compact_schema_plan();
    let no_args: Vec<Option<&str>> = Vec::new();
    assert(text_args(no_args@) =~= seq![]);
    proof { lemma_on_plan_start(start, plan); }

    let ghost before = db.log@;
    let done = execute_batch(&db.conn, &mut db.log, WAL_SQL);
    proof { lemma_on_plan_step(start, before, db.log@.last(), plan); }
    if let Err(e) = done {
        return Err(AppError::Database(e));
    }
    let ghost before = db.log@;
    let changed = execute(&db.conn, &mut db.log, CREATE_EPISODIC, &no_args);
    proof { lemma_on_plan_step(start, before, db.log@.last(), plan); }
    let a = match changed {
        Ok(n) => n,
        Err(e) => return Err(AppError::Database(e)),
    };
    let ghost before = db.log@;
    let changed = execute(&db.conn, &mut db.log, CREATE_PROCEDURAL, &no_args);
    proof { lemma_on_plan_step(start, before, db.log@.last(), plan); }
    let b = match changed {
        Ok(n) => n,
        Err(e) => return Err(AppError::Database(e)),
    };
    let ghost before = db.log@;
    let done = execute_batch(&db.conn, &mut db.log, CREATE_UPDATED_AT_TRIGGER);
    proof { lemma_on_plan_step(start, before, db.log@.last(), plan); }
    if let Err(e) = done {
        return Err(AppError::Database(e));
    }
    proof { lemma_on_plan_done(start, db.log@, plan); }
    assert(db.log@ =~= start + compact_schema_calls(a as int, b as int));
    Ok(())
}

} // verus!
