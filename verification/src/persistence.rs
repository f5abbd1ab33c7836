//! The history database's schema, declared on this side so that the front
//! end never issues DDL of its own.

use vstd::prelude::*;

verus! {

/// One forward schema migration of the history database.
#[derive(Clone, Copy, Debug, PartialEq, Eq)]
pub struct SchemaMigration {
    pub version: i64,
    pub description: &'static str,
    pub sql: &'static str,
}

/// The table of completed and interrupted sessions and its index on the
/// start time.
pub open spec fn sessions_table_sql() -> Seq<char> {
    "CREATE TABLE IF NOT EXISTS sessions (
    id INTEGER PRIMARY KEY AUTOINCREMENT,
    type TEXT NOT NULL CHECK(type IN ('work','short_break','long_break')),
    started_at TEXT NOT NULL,
    completed_at TEXT,
    was_completed INTEGER NOT NULL CHECK(was_completed IN (0,1)),
    planned_duration_seconds INTEGER NOT NULL
);
CREATE INDEX IF NOT EXISTS idx_sessions_started_at ON sessions(started_at);
"@
}

/// The migrations to run, in order: version 1 creates the sessions table.
pub fn migrations() -> (r: Vec<SchemaMigration>)
    ensures
        r@.len() == 1,
        r@[0].version == 1,
        r@[0].description@ == "create sessions table"@,
        r@[0].sql@ == sessions_table_sql(),
{
    let mut r = Vec::new();
    r.push(
        SchemaMigration {
            version: 1,
            description: "create sessions table",
            sql: "CREATE TABLE IF NOT EXISTS sessions (
    id INTEGER PRIMARY KEY AUTOINCREMENT,
    type TEXT NOT NULL CHECK(type IN ('work','short_break','long_break')),
    started_at TEXT NOT NULL,
    completed_at TEXT,
    was_completed INTEGER NOT NULL CHECK(was_completed IN (0,1)),
    planned_duration_seconds INTEGER NOT NULL
);
CREATE INDEX IF NOT EXISTS idx_sessions_started_at ON sessions(started_at);
",
        },
    );
    r
}

} // verus!
