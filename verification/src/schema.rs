//! The database schema: the three memory tables, their full-text indexes and
//! the triggers that keep those indexes and timestamps in step, plus the
//! column migrations for databases created by older versions.
use vstd::prelude::*;

use crate::db::sql::{
    admits_rows, execute_batch, get_text, lemma_only_requests_trans, lemma_only_requests_weaken,
    lemma_rows_calls_ext, next_row, only_requests, prepare, query_call, query_rows, read_call,
    read_calls, reads_only, rows_calls, Db, SqlArg, SqlCall, SqlRequest,
};
use crate::text::views;

verus! {

broadcast use crate::db::sql::group_sql_log;

/// Core table DDL; every statement is guarded by IF NOT EXISTS.
pub const CREATE_EPISODIC: &'static str = "
CREATE TABLE IF NOT EXISTS episodic (
    id        INTEGER PRIMARY KEY,
    content   TEXT NOT NULL,
    context   TEXT,
    agent     TEXT,
    timestamp TEXT NOT NULL DEFAULT (datetime('now')),
    source    TEXT
)";

pub const CREATE_WORKING: &'static str = "
CREATE TABLE IF NOT EXISTS working (
    id         INTEGER PRIMARY KEY,
    summary    TEXT NOT NULL,
    body       TEXT,
    task_id    TEXT,
    agent      TEXT,
    created_at TEXT NOT NULL DEFAULT (datetime('now'))
)";

pub const CREATE_PROCEDURAL: &'static str = "
CREATE TABLE IF NOT EXISTS procedural (
    id              TEXT PRIMARY KEY,
    rule            TEXT NOT NULL,
    success_count   INTEGER NOT NULL DEFAULT 0,
    failure_count   INTEGER NOT NULL DEFAULT 0,
    confidence      REAL NOT NULL DEFAULT 0.5,
    is_anti_pattern INTEGER NOT NULL DEFAULT 0,
    is_proven       INTEGER NOT NULL DEFAULT 0,
    last_validated  TEXT,
    source          TEXT,
    created_at      TEXT NOT NULL DEFAULT (datetime('now')),
    updated_at      TEXT NOT NULL DEFAULT (datetime('now'))
)";

pub const CREATE_PROCEDURAL_FTS: &'static str = "
CREATE VIRTUAL TABLE IF NOT EXISTS procedural_fts USING fts5(
    rule,
    content='procedural',
    content_rowid='rowid'
)";

pub const CREATE_WORKING_FTS: &'static str = "
CREATE VIRTUAL TABLE IF NOT EXISTS working_fts USING fts5(
    summary,
    body,
    content='working',
    content_rowid='id'
)";

pub const TRIGGER_PROCEDURAL_UPDATED_AT: &'static str = "
CREATE TRIGGER IF NOT EXISTS procedural_updated_at
AFTER UPDATE ON procedural
BEGIN
    UPDATE procedural SET updated_at = datetime('now') WHERE id = NEW.id;
END";

pub const TRIGGER_PROCEDURAL_FTS_INSERT: &'static str = "
CREATE TRIGGER IF NOT EXISTS procedural_fts_insert
AFTER INSERT ON procedural
BEGIN
    INSERT INTO procedural_fts(rowid, rule) VALUES (NEW.rowid, NEW.rule);
END";

pub const TRIGGER_PROCEDURAL_FTS_UPDATE: &'static str = "
CREATE TRIGGER IF NOT EXISTS procedural_fts_update
AFTER UPDATE ON procedural
BEGIN
    INSERT INTO procedural_fts(procedural_fts, rowid, rule) VALUES ('delete', OLD.rowid, OLD.rule);
    INSERT INTO procedural_fts(rowid, rule) VALUES (NEW.rowid, NEW.rule);
END";

pub const TRIGGER_PROCEDURAL_FTS_DELETE: &'static str = "
CREATE TRIGGER IF NOT EXISTS procedural_fts_delete
AFTER DELETE ON procedural
BEGIN
    INSERT INTO procedural_fts(procedural_fts, rowid, rule) VALUES ('delete', OLD.rowid, OLD.rule);
END";

pub const TRIGGER_WORKING_FTS_INSERT: &'static str = "
CREATE TRIGGER IF NOT EXISTS working_fts_insert
AFTER INSERT ON working
BEGIN
    INSERT INTO working_fts(rowid, summary, body) VALUES (NEW.id, NEW.summary, NEW.body);
END";

pub const TRIGGER_WORKING_FTS_UPDATE: &'static str = "
CREATE TRIGGER IF NOT EXISTS working_fts_update
AFTER UPDATE ON working
BEGIN
    INSERT INTO working_fts(working_fts, rowid, summary, body) VALUES ('delete', OLD.id, OLD.summary, OLD.body);
    INSERT INTO working_fts(rowid, summary, body) VALUES (NEW.id, NEW.summary, NEW.body);
END";

pub const TRIGGER_WORKING_FTS_DELETE: &'static str = "
CREATE TRIGGER IF NOT EXISTS working_fts_delete
AFTER DELETE ON working
BEGIN
    INSERT INTO working_fts(working_fts, rowid, summary, body) VALUES ('delete', OLD.id, OLD.summary, OLD.body);
END";

/// A column that may be missing from a database created by an older version.
#[derive(Debug, Clone, Copy, PartialEq)]
pub struct Migration {
    pub table: &'static str,
    pub column: &'static str,
    pub column_def: &'static str,
}

/// The columns added to older databases, as (table, column, definition).
pub open spec fn spec_migrations() -> Seq<(Seq<char>, Seq<char>, Seq<char>)> {
    seq![
        ("episodic"@, "source"@, "TEXT"@),
        ("working"@, "task_id"@, "TEXT"@),
        ("working"@, "agent"@, "TEXT"@),
        ("procedural"@, "is_anti_pattern"@, "INTEGER NOT NULL DEFAULT 0"@),
        ("procedural"@, "is_proven"@, "INTEGER NOT NULL DEFAULT 0"@),
        ("procedural"@, "last_validated"@, "TEXT"@),
        ("procedural"@, "source"@, "TEXT"@),
    ]
}

/// A migration as a triple of character sequences.
pub open spec fn migration_view(m: Migration) -> (Seq<char>, Seq<char>, Seq<char>) {
    (m.table@, m.column@, m.column_def@)
}

fn migration(table: &'static str, column: &'static str, column_def: &'static str) -> (m: Migration)
    ensures
        m.table == table,
        m.column == column,
        m.column_def == column_def,
{
    Migration { table, column, column_def }
}

/// The columns that may be missing on pre-existing databases.
pub fn migrations() -> (ms: Vec<Migration>)
    ensures
        ms@.map_values(|m: Migration| migration_view(m)) == spec_migrations(),
{
    let mut ms: Vec<Migration> = Vec::new();
    ms.push(migration("episodic", "source", "TEXT"));
    ms.push(migration("working", "task_id", "TEXT"));
    ms.push(migration("working", "agent", "TEXT"));
    ms.push(migration("procedural", "is_anti_pattern", "INTEGER NOT NULL DEFAULT 0"));
    ms.push(migration("procedural", "is_proven", "INTEGER NOT NULL DEFAULT 0"));
    ms.push(migration("procedural", "last_validated", "TEXT"));
    ms.push(migration("procedural", "source", "TEXT"));
    assert(ms@.map_values(|m: Migration| migration_view(m)) =~= spec_migrations());
    ms
}

/// The statement that lists a table's columns.
pub open spec fn spec_table_info_sql(table: Seq<char>) -> Seq<char> {
    "PRAGMA table_info('"@ + table + "')"@
}

/// The statement that adds a column to a table.
pub open spec fn spec_add_column_sql(table: Seq<char>, column: Seq<char>, column_def: Seq<char>) -> Seq<char> {
    "ALTER TABLE "@ + table + " ADD COLUMN "@ + column + " "@ + column_def
}

/// The statement that lists a table's columns.
pub fn table_info_sql(table: &str) -> (sql: String)
    ensures
        sql@ == spec_table_info_sql(table@),
{
    String::from_str("PRAGMA table_info('").concat(table).concat("')")
}

/// The statement that adds a column to a table.
pub fn add_column_sql(table: &str, column: &str, column_def: &str) -> (sql: String)
    ensures
        sql@ == spec_add_column_sql(table@, column@, column_def@),
{
    String::from_str("ALTER TABLE ").concat(table).concat(" ADD COLUMN ").concat(column).concat(" ").concat(column_def)
}

/// Whether `column` is among `names`.
pub fn has_column(names: &Vec<String>, column: &str) -> (found: bool)
    ensures
        found == exists|i: int| 0 <= i < names@.len() && #[trigger] names@[i]@ == column@,
        found == views(names@).contains(column@),
{
    let wanted = String::from_str(column);
    let mut i: usize = 0;
    while i < names.len()
        invariant
            0 <= i <= names@.len(),
            wanted@ == column@,
            forall|j: int| 0 <= j < i ==> #[trigger] names@[j]@ != column@,
        decreases names@.len() - i,
    {
        if names[i] == wanted {
            assert(views(names@)[i as int] == column@);
            return true;
        }
        i = i + 1;
    }
    assert forall|j: int| 0 <= j < views(names@).len() implies views(names@)[j] != column@ by {
        assert(names@[j]@ != column@);
    }
    false
}

/// The exchanges of listing the columns of `table`, which came back as `names`.
pub open spec fn column_names_calls(table: Seq<char>, names: Seq<Seq<char>>) -> Seq<SqlCall> {
    seq![SqlCall::Prepare { sql: spec_table_info_sql(table) }, SqlCall::Query { args: seq![] }]
        + read_calls(names.len(), |i: int| seq![SqlCall::Read { column: 1, value: SqlArg::Text(names[i]) }], usize::MAX as int)
}

/// The exchanges of adding `column` to `table` when the listed `names` lack it.
pub open spec fn add_column_calls(table: Seq<char>, column: Seq<char>, column_def: Seq<char>, names: Seq<Seq<char>>) -> Seq<SqlCall> {
    column_names_calls(table, names) + if names.contains(column) {
        Seq::empty()
    } else {
        seq![SqlCall::Batch { sql: spec_add_column_sql(table, column, column_def) }]
    }
}

/// The exchanges of applying the migrations `ms` in order, the `i`th finding
/// the columns `namess[i]`.
pub open spec fn migrations_calls(ms: Seq<(Seq<char>, Seq<char>, Seq<char>)>, namess: Seq<Seq<Seq<char>>>) -> Seq<SqlCall>
    decreases ms.len(),
{
    if ms.len() == 0 {
        Seq::empty()
    } else {
        migrations_calls(ms.drop_last(), namess.drop_last())
            + add_column_calls(ms.last().0, ms.last().1, ms.last().2, namess[ms.len() - 1])
    }
}

/// The exchanges of bringing a database to the current schema: the three
/// tables, each migration (the `i`th finding the columns `namess[i]`), the
/// two full-text tables, then the seven triggers.
pub open spec fn schema_calls(namess: Seq<Seq<Seq<char>>>) -> Seq<SqlCall> {
    seq![
        SqlCall::Batch { sql: CREATE_EPISODIC@ },
        SqlCall::Batch { sql: CREATE_WORKING@ },
        SqlCall::Batch { sql: CREATE_PROCEDURAL@ },
    ] + migrations_calls(spec_migrations(), namess) + seq![
        SqlCall::Batch { sql: CREATE_PROCEDURAL_FTS@ },
        SqlCall::Batch { sql: CREATE_WORKING_FTS@ },
        SqlCall::Batch { sql: TRIGGER_PROCEDURAL_UPDATED_AT@ },
        SqlCall::Batch { sql: TRIGGER_PROCEDURAL_FTS_INSERT@ },
        SqlCall::Batch { sql: TRIGGER_PROCEDURAL_FTS_UPDATE@ },
        SqlCall::Batch { sql: TRIGGER_PROCEDURAL_FTS_DELETE@ },
        SqlCall::Batch { sql: TRIGGER_WORKING_FTS_INSERT@ },
        SqlCall::Batch { sql: TRIGGER_WORKING_FTS_UPDATE@ },
        SqlCall::Batch { sql: TRIGGER_WORKING_FTS_DELETE@ },
    ]
}

/// What listing the columns of `table` may ask of SQLite.
pub open spec fn column_requests(table: Seq<char>) -> spec_fn(SqlRequest) -> bool {
    reads_only(spec_table_info_sql(table), seq![])
}

/// What adding `column` to `table` when missing may ask of SQLite: listing
/// the table's columns, and the statement that adds the column.
pub open spec fn add_column_requests(table: Seq<char>, column: Seq<char>, column_def: Seq<char>) -> spec_fn(SqlRequest) -> bool {
    |q: SqlRequest| column_requests(table)(q) || q == (SqlRequest::Batch { sql: spec_add_column_sql(table, column, column_def) })
}

/// Whether `sql` is one of the statements that create the schema's tables,
/// full-text tables and triggers.
pub open spec fn is_create_statement(sql: Seq<char>) -> bool {
    ||| sql == CREATE_EPISODIC@
    ||| sql == CREATE_WORKING@
    ||| sql == CREATE_PROCEDURAL@
    ||| sql == CREATE_PROCEDURAL_FTS@
    ||| sql == CREATE_WORKING_FTS@
    ||| sql == TRIGGER_PROCEDURAL_UPDATED_AT@
    ||| sql == TRIGGER_PROCEDURAL_FTS_INSERT@
    ||| sql == TRIGGER_PROCEDURAL_FTS_UPDATE@
    ||| sql == TRIGGER_PROCEDURAL_FTS_DELETE@
    ||| sql == TRIGGER_WORKING_FTS_INSERT@
    ||| sql == TRIGGER_WORKING_FTS_UPDATE@
    ||| sql == TRIGGER_WORKING_FTS_DELETE@
}

/// What bringing a database to the current schema may ask of SQLite: the
/// statements that create the schema, and what applying one of the
/// migrations may ask.
pub open spec fn schema_requests() -> spec_fn(SqlRequest) -> bool {
    |q: SqlRequest| {
        ||| q matches SqlRequest::Batch { sql } && is_create_statement(sql)
        ||| exists|i: int| 0 <= i < spec_migrations().len() && #[trigger] add_column_requests(
            spec_migrations()[i].0, spec_migrations()[i].1, spec_migrations()[i].2)(q)
    }
}

/// The listings of columns `namess` all lack `column`.
pub open spec fn no_listing_has(namess: Seq<Seq<Seq<char>>>, column: Seq<char>) -> bool {
    forall|k: int| 0 <= k < namess.len() ==> !(#[trigger] namess[k]).contains(column)
}

/// Bringing the database to the current schema, with the listings of columns
/// `namess`, runs the statement `sql`.
pub open spec fn runs_batch(namess: Seq<Seq<Seq<char>>>, sql: Seq<char>) -> bool {
    schema_calls(namess).contains(SqlCall::Batch { sql })
}

/// Applying migrations runs every exchange of each single migration.
proof fn lemma_migrations_include(ms: Seq<(Seq<char>, Seq<char>, Seq<char>)>, namess: Seq<Seq<Seq<char>>>, k: int, x: SqlCall)
    requires
        namess.len() == ms.len(),
        0 <= k < ms.len(),
        add_column_calls(ms[k].0, ms[k].1, ms[k].2, namess[k]).contains(x),
    ensures
        migrations_calls(ms, namess).contains(x),
    decreases ms.len(),
{
    let last = add_column_calls(ms.last().0, ms.last().1, ms.last().2, namess[ms.len() - 1]);
    let front = migrations_calls(ms.drop_last(), namess.drop_last());
    if k == ms.len() - 1 {
        let j = choose|j: int| 0 <= j < last.len() && last[j] == x;
        assert((front + last)[front.len() + j] == x);
    } else {
        assert(ms.drop_last()[k] == ms[k]);
        assert(namess.drop_last()[k] == namess[k]);
        lemma_migrations_include(ms.drop_last(), namess.drop_last(), k, x);
        let j = choose|j: int| 0 <= j < front.len() && front[j] == x;
        assert((front + last)[j] == x);
    }
}

/// The `k`th migration adds its column when that listing lacks it.
proof fn lemma_schema_alters(namess: Seq<Seq<Seq<char>>>, k: int)
    requires
        namess.len() == spec_migrations().len(),
        0 <= k < namess.len(),
        !namess[k].contains(spec_migrations()[k].1),
    ensures
        runs_batch(namess, spec_add_column_sql(spec_migrations()[k].0, spec_migrations()[k].1, spec_migrations()[k].2)),
{
    let m = spec_migrations()[k];
    let x = SqlCall::Batch { sql: spec_add_column_sql(m.0, m.1, m.2) };
    let calls = add_column_calls(m.0, m.1, m.2, namess[k]);
    assert(calls[calls.len() - 1] == x);
    lemma_migrations_include(spec_migrations(), namess, k, x);
    let mid = migrations_calls(spec_migrations(), namess);
    let j = choose|j: int| 0 <= j < mid.len() && mid[j] == x;
    let pre = seq![
        SqlCall::Batch { sql: CREATE_EPISODIC@ },
        SqlCall::Batch { sql: CREATE_WORKING@ },
        SqlCall::Batch { sql: CREATE_PROCEDURAL@ },
    ];
    assert(schema_calls(namess)[pre.len() + j] == x);
}

/// Bringing an older database to the current schema adds each column that
/// the layers write and that such a database may lack, whenever the
/// database's tables lack it: `source` to episodic records, `task_id` and
/// `agent` to working entries, and the anti-pattern and proven flags, the
/// last validation and the source to rules.
pub proof fn lemma_schema_adds_missing_columns(namess: Seq<Seq<Seq<char>>>)
    requires
        namess.len() == spec_migrations().len(),
    ensures
        no_listing_has(namess, "source"@) ==> runs_batch(namess, "ALTER TABLE episodic ADD COLUMN source TEXT"@),
        no_listing_has(namess, "task_id"@) ==> runs_batch(namess, "ALTER TABLE working ADD COLUMN task_id TEXT"@),
        no_listing_has(namess, "agent"@) ==> runs_batch(namess, "ALTER TABLE working ADD COLUMN agent TEXT"@),
        no_listing_has(namess, "is_anti_pattern"@) ==> runs_batch(namess, "ALTER TABLE procedural ADD COLUMN is_anti_pattern INTEGER NOT NULL DEFAULT 0"@),
        no_listing_has(namess, "is_proven"@) ==> runs_batch(namess, "ALTER TABLE procedural ADD COLUMN is_proven INTEGER NOT NULL DEFAULT 0"@),
        no_listing_has(namess, "last_validated"@) ==> runs_batch(namess, "ALTER TABLE procedural ADD COLUMN last_validated TEXT"@),
        no_listing_has(namess, "source"@) ==> runs_batch(namess, "ALTER TABLE procedural ADD COLUMN source TEXT"@),
{
    reveal_strlit("ALTER TABLE ");
    reveal_strlit(" ADD COLUMN ");
    reveal_strlit(" ");
    reveal_strlit("ALTER TABLE episodic ADD COLUMN source TEXT");
    reveal_strlit("ALTER TABLE procedural ADD COLUMN is_anti_pattern INTEGER NOT NULL DEFAULT 0");
    reveal_strlit("ALTER TABLE procedural ADD COLUMN is_proven INTEGER NOT NULL DEFAULT 0");
    reveal_strlit("ALTER TABLE procedural ADD COLUMN last_validated TEXT");
    reveal_strlit("ALTER TABLE procedural ADD COLUMN source TEXT");
    reveal_strlit("ALTER TABLE working ADD COLUMN agent TEXT");
    reveal_strlit("ALTER TABLE working ADD COLUMN task_id TEXT");
    reveal_strlit("INTEGER NOT NULL DEFAULT 0");
    reveal_strlit("TEXT");
    reveal_strlit("agent");
    reveal_strlit("episodic");
    reveal_strlit("is_anti_pattern");
    reveal_strlit("is_proven");
    reveal_strlit("last_validated");
    reveal_strlit("procedural");
    reveal_strlit("source");
    reveal_strlit("task_id");
    reveal_strlit("working");
    if no_listing_has(namess, "source"@) {
        lemma_schema_alters(namess, 0);
        assert(spec_add_column_sql("episodic"@, "source"@, "TEXT"@) =~= "ALTER TABLE episodic ADD COLUMN source TEXT"@);
    }
    if no_listing_has(namess, "task_id"@) {
        lemma_schema_alters(namess, 1);
        assert(spec_add_column_sql("working"@, "task_id"@, "TEXT"@) =~= "ALTER TABLE working ADD COLUMN task_id TEXT"@);
    }
    if no_listing_has(namess, "agent"@) {
        lemma_schema_alters(namess, 2);
        assert(spec_add_column_sql("working"@, "agent"@, "TEXT"@) =~= "ALTER TABLE working ADD COLUMN agent TEXT"@);
    }
    if no_listing_has(namess, "is_anti_pattern"@) {
        lemma_schema_alters(namess, 3);
        assert(spec_add_column_sql("procedural"@, "is_anti_pattern"@, "INTEGER NOT NULL DEFAULT 0"@) =~= "ALTER TABLE procedural ADD COLUMN is_anti_pattern INTEGER NOT NULL DEFAULT 0"@);
    }
    if no_listing_has(namess, "is_proven"@) {
        lemma_schema_alters(namess, 4);
        assert(spec_add_column_sql("procedural"@, "is_proven"@, "INTEGER NOT NULL DEFAULT 0"@) =~= "ALTER TABLE procedural ADD COLUMN is_proven INTEGER NOT NULL DEFAULT 0"@);
    }
    if no_listing_has(namess, "last_validated"@) {
        lemma_schema_alters(namess, 5);
        assert(spec_add_column_sql("procedural"@, "last_validated"@, "TEXT"@) =~= "ALTER TABLE procedural ADD COLUMN last_validated TEXT"@);
    }
    if no_listing_has(namess, "source"@) {
        lemma_schema_alters(namess, 6);
        assert(spec_add_column_sql("procedural"@, "source"@, "TEXT"@) =~= "ALTER TABLE procedural ADD COLUMN source TEXT"@);
    }
}

/// The names of a table's columns, in the order SQLite lists them: the
/// statement `PRAGMA table_info('<table>')`, and column 1 of each row.
/// Nothing else is run.
pub fn column_names(db: &mut Db, table: &str) -> (r: std::result::Result<Vec<String>, rusqlite::Error>)
    ensures
        r matches Ok(names) ==> final(db).log@ == old(db).log@ + column_names_calls(table@, views(names@)),
        only_requests(old(db).log@, final(db).log@, column_requests(table@)),
{
    let ghost start = db.log@;
    let ghost allowed = column_requests(table@);
    let sql = table_info_sql(table);
    let stmt = prepare(&db.conn, &mut db.log, sql.as_str());
    let mut stmt = stmt?;
    let rows = query_rows(&mut stmt, &mut db.log);
    assert(db.log@.last() == query_call(seq![], rows is Ok));
    let mut rows = rows?;
    let ghost begin = db.log@;
    let mut names: Vec<String> = Vec::new();
    let ghost reads = |n: Seq<String>| |i: int| seq![SqlCall::Read { column: 1, value: SqlArg::Text(n[i]@) }];
    let mut done = false;
    // No result holds usize::MAX rows; the bound gives the loop a measure.
    while !done && names.len() < usize::MAX
        invariant
            allowed == column_requests(table@),
            admits_rows(allowed),
            start == old(db).log@,
            only_requests(start, db.log@, allowed),
            begin == start + seq![SqlCall::Prepare { sql: spec_table_info_sql(table@) }, SqlCall::Query { args: seq![] }],
            reads == (|n: Seq<String>| |i: int| seq![SqlCall::Read { column: 1, value: SqlArg::Text(n[i]@) }]),
            !done ==> db.log@ == begin + rows_calls(names@.len(), reads(names@)),
            done ==> names@.len() < usize::MAX && db.log@ == begin + read_calls(names@.len(), reads(names@), usize::MAX as int),
        decreases usize::MAX - names@.len(), if done { 0int } else { 1int },
    {
        let step = next_row(&mut rows, &mut db.log);
        match step? {
            None => {
                assert(db.log@ =~= begin + read_calls(names@.len(), reads(names@), usize::MAX as int));
                done = true;
            },
            Some(row) => {
                let ghost before_read = db.log@;
                let name = get_text(row, &mut db.log, 1);
                assert(db.log@ == before_read.push(read_call(1, match name { Ok(v) => Some(SqlArg::Text(v@)), Err(_) => None })));
                let name = name?;
                let ghost old_names = names@;
                names.push(name);
                proof {
                    lemma_rows_calls_ext(old_names.len(), reads(old_names), reads(names@));
                    assert(db.log@ =~= begin + rows_calls(names@.len(), reads(names@)));
                }
            },
        }
    }
    proof {
        if !done {
            assert(db.log@ =~= begin + read_calls(names@.len(), reads(names@), usize::MAX as int));
        }
        lemma_rows_calls_ext(
            names@.len(),
            reads(names@),
            |i: int| seq![SqlCall::Read { column: 1, value: SqlArg::Text(views(names@)[i]) }],
        );
    }
    assert(db.log@ =~= start + column_names_calls(table@, views(names@)));
    Ok(names)
}

/// Add a column if it does not already exist: list the table's columns, and
/// when `column` is not among them run `ALTER TABLE <table> ADD COLUMN
/// <column> <column_def>`; nothing else is run. Returns `Ok(true)` if it was
/// added, `Ok(false)` if the table already had it.
pub fn add_column_if_missing(
    db: &mut Db,
    table: &str,
    column: &str,
    column_def: &str,
) -> (r: std::result::Result<bool, rusqlite::Error>)
    ensures
        r matches Ok(added) ==> exists|names: Seq<Seq<char>>|
            final(db).log@ == old(db).log@ + add_column_calls(table@, column@, column_def@, names)
            && added == !names.contains(column@),
        only_requests(old(db).log@, final(db).log@, add_column_requests(table@, column@, column_def@)),
{
    let ghost start = db.log@;
    let ghost allowed = add_column_requests(table@, column@, column_def@);
    let listed = column_names(db, table);
    proof {
        lemma_only_requests_weaken(start, db.log@, column_requests(table@), allowed);
    }
    let names = listed?;
    let ghost listed_names = views(names@);
    if has_column(&names, column) {
        assert(db.log@ =~= start + add_column_calls(table@, column@, column_def@, listed_names));
        return Ok(false);
    }
    let sql = add_column_sql(table, column, column_def);
    execute_batch(&db.conn, &mut db.log, sql.as_str())?;
    assert(db.log@ =~= start + add_column_calls(table@, column@, column_def@, listed_names));
    Ok(true)
}

/// Initialise or migrate the schema to the target state: the three tables,
/// then each migration through [`add_column_if_missing`], then the two
/// full-text tables and the seven triggers, in that order, and nothing else.
///
/// Safe to call on a fresh database or an existing one: every statement is
/// guarded with IF NOT EXISTS or a column-existence check.
pub fn ensure_schema(db: &mut Db) -> (r: std::result::Result<(), rusqlite::Error>)
    ensures
        r is Ok ==> exists|namess: Seq<Seq<Seq<char>>>|
            namess.len() == spec_migrations().len() && final(db).log@ == old(db).log@ + schema_calls(namess),
        r is Err ==> only_requests(old(db).log@, final(db).log@, schema_requests()),
{
    let ghost start = db.log@;
    let ghost allowed = schema_requests();
    execute_batch(&db.conn, &mut db.log, CREATE_EPISODIC)?;
    execute_batch(&db.conn, &mut db.log, CREATE_WORKING)?;
    execute_batch(&db.conn, &mut db.log, CREATE_PROCEDURAL)?;
    let ghost begin = db.log@;
    assert(begin =~= start + seq![
        SqlCall::Batch { sql: CREATE_EPISODIC@ },
        SqlCall::Batch { sql: CREATE_WORKING@ },
        SqlCall::Batch { sql: CREATE_PROCEDURAL@ },
    ]);

    let ms = migrations();
    let ghost mviews = spec_migrations();
    let ghost mut namess: Seq<Seq<Seq<char>>> = Seq::empty();
    let mut i: usize = 0;
    while i < ms.len()
        invariant
            0 <= i <= ms@.len(),
            allowed == schema_requests(),
            start == old(db).log@,
            only_requests(start, db.log@, allowed),
            mviews == spec_migrations(),
            ms@.map_values(|m: Migration| migration_view(m)) == mviews,
            namess.len() == i,
            db.log@ == begin + migrations_calls(mviews.take(i as int), namess),
        decreases ms@.len() - i,
    {
        let m = ms[i];
        assert(migration_view(m) == mviews[i as int]);
        let ghost before = db.log@;
        let step = add_column_if_missing(db, m.table, m.column, m.column_def);
        proof {
            let part = add_column_requests(m.table@, m.column@, m.column_def@);
            assert forall|q: SqlRequest| #[trigger] part(q) implies allowed(q) by {
                assert(add_column_requests(mviews[i as int].0, mviews[i as int].1, mviews[i as int].2)(q));
            }
            lemma_only_requests_weaken(before, db.log@, part, allowed);
            lemma_only_requests_trans(start, before, db.log@, allowed);
            if step is Ok {
                let names = choose|names: Seq<Seq<char>>|
                    db.log@ == before + add_column_calls(m.table@, m.column@, m.column_def@, names)
                    && step->Ok_0 == !names.contains(m.column@);
                let old_namess = namess;
                namess = namess.push(names);
                assert(mviews.take(i + 1).drop_last() =~= mviews.take(i as int));
                assert(namess.drop_last() =~= old_namess);
                assert(db.log@ =~= begin + migrations_calls(mviews.take(i + 1), namess));
            }
        }
        step?;
        i = i + 1;
    }
    assert(mviews.take(ms@.len() as int) =~= mviews);

    execute_batch(&db.conn, &mut db.log, CREATE_PROCEDURAL_FTS)?;
    execute_batch(&db.conn, &mut db.log, CREATE_WORKING_FTS)?;
    execute_batch(&db.conn, &mut db.log, TRIGGER_PROCEDURAL_UPDATED_AT)?;
    execute_batch(&db.conn, &mut db.log, TRIGGER_PROCEDURAL_FTS_INSERT)?;
    execute_batch(&db.conn, &mut db.log, TRIGGER_PROCEDURAL_FTS_UPDATE)?;
    execute_batch(&db.conn, &mut db.log, TRIGGER_PROCEDURAL_FTS_DELETE)?;
    execute_batch(&db.conn, &mut db.log, TRIGGER_WORKING_FTS_INSERT)?;
    execute_batch(&db.conn, &mut db.log, TRIGGER_WORKING_FTS_UPDATE)?;
    execute_batch(&db.conn, &mut db.log, TRIGGER_WORKING_FTS_DELETE)?;
    assert(db.log@ =~= start + schema_calls(namess));
    Ok(())
}

} // verus!
