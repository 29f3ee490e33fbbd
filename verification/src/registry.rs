//! The connection registry and the SQL execution engine: a table of live
//! encrypted connections keyed by integer handle, and the engine that
//! classifies one statement, runs it against a registered connection,
//! and folds the outcome into a result envelope.
//!
//! The registry is an owned value, not process-wide state; whoever holds
//! it serializes access (one exclusive lock around the whole registry in
//! the boundary layer).

use std::collections::HashMap;

use vstd::prelude::*;
use vstd::string::StringExecFns;

use crate::classify::classify_is_read;
use crate::classify::is_read_stmt;
use crate::coerce::coerce_cell;
use crate::envelope::SQLResult;
use crate::envelope::failure_result;
use crate::envelope::failure_with_detail;
use crate::envelope::has_prefix;
use crate::envelope::read_result;
use crate::envelope::write_result;
use crate::ext::conn_execute;
use crate::ext::conn_last_insert_rowid;
use crate::ext::conn_open;
use crate::ext::conn_pragma_update;
use crate::ext::conn_prepare;
use crate::ext::row_get_blob;
use crate::ext::row_get_int;
use crate::ext::row_get_real_token;
use crate::ext::row_get_text;
use crate::ext::rows_next;
use crate::ext::sqlite_error_text;
use crate::ext::stmt_column_count;
use crate::ext::stmt_column_name;
use crate::ext::stmt_query;
use crate::jsontext::JsonCell;
use crate::jsontext::cell_wf;
use crate::jsontext::read_payload;
use crate::jsontext::write_payload;

verus! {

broadcast use vstd::std_specs::hash::group_hash_axioms;

/// The table of live connections. The next handle is the current table
/// size plus one, as issued; a handle freed by a close can therefore be
/// issued again by a later open.
pub struct ConnectionRegistry {
    pool: HashMap<i64, rusqlite::Connection>,
}

impl View for ConnectionRegistry {
    type V = Map<i64, rusqlite::Connection>;

    closed spec fn view(&self) -> Map<i64, rusqlite::Connection> {
        self.pool@
    }
}

impl ConnectionRegistry {
    /// An empty registry.
    pub fn new() -> (r: ConnectionRegistry)
        ensures
            r@ == Map::<i64, rusqlite::Connection>::empty(),
    {
        ConnectionRegistry { pool: HashMap::new() }
    }

    /// Opens (or creates) a database file, applies the encryption key
    /// before any schema access, probes accessibility with a no-op
    /// schema statement, and registers the connection under a fresh
    /// handle. Returns the sentinel `-1` when any step fails; the
    /// registry is then unchanged. Whether the steps succeed depends on
    /// the file system and the database engine, so no success is owed.
    pub fn open_encrypted_database(&mut self, path: &str, password: &str) -> (h: i64)
        ensures
            h == -1 ==> final(self)@ == old(self)@,
            h != -1 ==> {
                &&& 1 <= h
                &&& h as int == old(self)@.len() + 1
                &&& final(self)@ == old(self)@.insert(h, final(self)@[h])
            },
    {
        let conn = match conn_open(path) {
            Ok(c) => c,
            Err(_) => {
                return -1;
            },
        };
        if conn_pragma_update(&conn, "key", password).is_err() {
            return -1;
        }
        if conn_pragma_update(&conn, "cipher_compatibility", "4").is_err() {
            return -1;
        }
        if conn_execute(&conn, "CREATE TABLE IF NOT EXISTS _test (id INTEGER)").is_err() {
            return -1;
        }
        let len = self.pool.len();
        if (len as u64) >= (i64::MAX as u64) {
            return -1;
        }
        let id = ((len as u64) + 1) as i64;
        self.pool.insert(id, conn);
        id
    }

    /// Removes and discards the entry for `conn_id`; reports whether an
    /// entry existed. Idempotent: a second close of the same handle
    /// returns false.
    pub fn close_database_connection(&mut self, conn_id: i64) -> (r: bool)
        ensures
            r == old(self)@.contains_key(conn_id),
            final(self)@ == old(self)@.remove(conn_id),
    {
        self.pool.remove(&conn_id).is_some()
    }

    /// Runs one statement against the registered connection and folds
    /// the outcome into an envelope. An unregistered handle fails
    /// immediately with the invalid-connection text, whatever the
    /// statement; a registered one is classified and executed, and every
    /// engine failure comes back as a failure envelope, never a panic.
    pub fn execute_sql(&self, conn_id: i64, sql: &str) -> (r: SQLResult)
        ensures
            r.wf(),
            !self@.contains_key(conn_id) ==> !r.success && (r.error_message matches Some(m) && m@
                == "Invalid connection ID"@),
            r.success ==> self@.contains_key(conn_id),
            r.success && !is_read_stmt(sql@) ==> (r.json_data matches Some(p)
                && exists|changed: nat, rid: int|
                p@ == #[trigger] write_payload(changed, rid) && r.rows_affected == changed),
            r.success && is_read_stmt(sql@) ==> (r.json_data matches Some(p)
                && exists|names: Seq<String>, rows: Seq<Vec<JsonCell>>|
                p@ == #[trigger] read_payload(names, rows) && r.rows_affected == rows.len() && (
                forall|a: int, b: int|
                    0 <= a < rows.len() && 0 <= b < rows[a]@.len() ==> cell_wf(
                        #[trigger] rows[a]@[b],
                    ))),
            !r.success && self@.contains_key(conn_id) && !is_read_stmt(sql@) ==> (
            r.error_message matches Some(m) && has_prefix(m@, "Execution error: "@)),
            !r.success && self@.contains_key(conn_id) && is_read_stmt(sql@) ==> (
            r.error_message matches Some(m) && (has_prefix(m@, "Query prepare error: "@)
                || has_prefix(m@, "Query error: "@) || has_prefix(m@, "Row error: "@))),
    {
        let conn = match self.pool.get(&conn_id) {
            Some(c) => c,
            None => {
                proof {
                    reveal_strlit("Invalid connection ID");
                }
                return failure_result(String::from_str("Invalid connection ID"));
            },
        };
        if classify_is_read(sql) {
            run_read(conn, sql)
        } else {
            run_write(conn, sql)
        }
    }
}

/// A heuristic probe of whether the file at `path` is encrypted: opens
/// it with no key and tries to read the schema table. Any failure —
/// opening, preparing the probe, or starting it — is read as "encrypted";
/// a successful probe as "not encrypted". The answer depends wholly on
/// what is on disk, so nothing more is promised.
pub fn verify_database_encryption(path: &str) -> bool {
    let conn = match conn_open(path) {
        Ok(c) => c,
        Err(_) => {
            return true;
        },
    };
    let mut stmt = match conn_prepare(
        &conn,
        "SELECT name FROM sqlite_master WHERE type='table' LIMIT 1",
    ) {
        Ok(s) => s,
        Err(_) => {
            return true;
        },
    };
    let readable = match stmt_query(&mut stmt) {
        Ok(_) => true,
        Err(_) => false,
    };
    !readable
}

/// Executes a write statement: on success the envelope carries the
/// changed-row count and the most recent insert identifier; on failure,
/// the engine's execution error.
fn run_write(conn: &rusqlite::Connection, sql: &str) -> (r: SQLResult)
    ensures
        r.wf(),
        r.success ==> (r.json_data matches Some(p) && exists|changed: nat, rid: int|
            p@ == #[trigger] write_payload(changed, rid) && r.rows_affected == changed),
        !r.success ==> (r.error_message matches Some(m) && has_prefix(m@, "Execution error: "@)),
{
    match conn_execute(conn, sql) {
        Ok(changed) => {
            let rowid = conn_last_insert_rowid(conn);
            if (changed as u64) <= (i64::MAX as u64) {
                let res = write_result(changed, rowid);
                proof {
                    assert(res.json_data matches Some(p) && p@ == write_payload(
                        changed as nat,
                        rowid as int,
                    ));
                }
                res
            } else {
                proof {
                    reveal_strlit("Execution error: affected row count out of range");
                    reveal_strlit("Execution error: ");
                    assert(has_prefix(
                        "Execution error: affected row count out of range"@,
                        "Execution error: "@,
                    )) by {
                        assert("Execution error: affected row count out of range"@.subrange(
                            0,
                            "Execution error: "@.len() as int,
                        ) =~= "Execution error: "@);
                    }
                }
                failure_result(
                    String::from_str("Execution error: affected row count out of range"),
                )
            }
        },
        Err(e) => {
            let detail = sqlite_error_text(&e);
            proof {
                reveal_strlit("Execution error: ");
            }
            failure_with_detail("Execution error: ", detail)
        },
    }
}

/// Executes a read statement: prepares it, resolves the column names
/// (substituting `unknown` where one cannot be resolved), coerces every
/// cell of every row, and folds the rows into the read payload. A
/// failure while preparing, starting, or reading aborts the whole read:
/// partial results are discarded.
fn run_read(conn: &rusqlite::Connection, sql: &str) -> (r: SQLResult)
    ensures
        r.wf(),
        r.success ==> (r.json_data matches Some(p) && exists|
            names: Seq<String>,
            rows: Seq<Vec<JsonCell>>,
        |
            p@ == #[trigger] read_payload(names, rows) && r.rows_affected == rows.len() && (
            forall|a: int, b: int|
                0 <= a < rows.len() && 0 <= b < rows[a]@.len() ==> cell_wf(
                    #[trigger] rows[a]@[b],
                ))),
        !r.success ==> (r.error_message matches Some(m) && (has_prefix(
            m@,
            "Query prepare error: "@,
        ) || has_prefix(m@, "Query error: "@) || has_prefix(m@, "Row error: "@))),
{
    let mut stmt = match conn_prepare(conn, sql) {
        Ok(s) => s,
        Err(e) => {
            let detail = sqlite_error_text(&e);
            proof {
                reveal_strlit("Query prepare error: ");
            }
            return failure_with_detail("Query prepare error: ", detail);
        },
    };
    let ncols = stmt_column_count(&stmt);
    let mut names: Vec<String> = Vec::new();
    let mut i: usize = 0;
    while i < ncols
        invariant
            i <= ncols,
            names@.len() == i as nat,
        decreases ncols - i,
    {
        let nm = match stmt_column_name(&stmt, i) {
            Some(s) => s,
            None => String::from_str("unknown"),
        };
        names.push(nm);
        i += 1;
    }
    let mut rows = match stmt_query(&mut stmt) {
        Ok(r) => r,
        Err(e) => {
            let detail = sqlite_error_text(&e);
            proof {
                reveal_strlit("Query error: ");
            }
            return failure_with_detail("Query error: ", detail);
        },
    };
    let mut collected: Vec<Vec<JsonCell>> = Vec::new();
    let mut count: u64 = 0;
    while count < 0x7fff_ffff_ffff_ffffu64
        invariant
            names@.len() == ncols as nat,
            count <= 0x7fff_ffff_ffff_ffff,
            collected@.len() == count as nat,
            forall|k: int| 0 <= k < collected@.len() ==> collected@[k]@.len() == names@.len(),
            forall|a: int, b: int|
                0 <= a < collected@.len() && 0 <= b < collected@[a]@.len() ==> cell_wf(
                    #[trigger] collected@[a]@[b],
                ),
        decreases 0x7fff_ffff_ffff_ffff - count,
    {
        match rows_next(&mut rows) {
            Ok(Some(row)) => {
                let mut cells: Vec<JsonCell> = Vec::new();
                let mut j: usize = 0;
                while j < ncols
                    invariant
                        j <= ncols,
                        cells@.len() == j as nat,
                        forall|b: int| 0 <= b < cells@.len() ==> cell_wf(#[trigger] cells@[b]),
                    decreases ncols - j,
                {
                    let text = row_get_text(row, j);
                    let integer = row_get_int(row, j);
                    let real_token = row_get_real_token(row, j);
                    let blob = row_get_blob(row, j);
                    let cell = coerce_cell(text, integer, real_token, blob);
                    proof {
                        reveal_strlit("0");
                        assert(cell_wf(cell));
                    }
                    cells.push(cell);
                    j += 1;
                }
                collected.push(cells);
                count += 1;
            },
            Ok(None) => {
                let res = read_result(&names, &collected);
                proof {
                    assert(res.json_data matches Some(p) && p@ == read_payload(
                        names@,
                        collected@,
                    ));
                }
                return res;
            },
            Err(e) => {
                let detail = sqlite_error_text(&e);
                proof {
                    reveal_strlit("Row error: ");
                }
                return failure_with_detail("Row error: ", detail);
            },
        }
    }
    let res = read_result(&names, &collected);
    proof {
        assert(res.json_data matches Some(p) && p@ == read_payload(names@, collected@));
    }
    res
}

} // verus!
