use base64::Engine;
use crypto_db::jobs::JobRegistry;
use crypto_db::registry::ConnectionRegistry;
use crypto_db::registry::verify_database_encryption;

fn open_mem(reg: &mut ConnectionRegistry) -> i64 {
    let h = reg.open_encrypted_database(":memory:", "secret");
    assert!(h >= 1);
    h
}

#[test]
fn open_close_close_returns_true_then_false() {
    let mut reg = ConnectionRegistry::new();
    let h = open_mem(&mut reg);
    assert_eq!(reg.close_database_connection(h), true);
    assert_eq!(reg.close_database_connection(h), false);
}

#[test]
fn handles_are_issued_from_registry_size() {
    let mut reg = ConnectionRegistry::new();
    let h1 = open_mem(&mut reg);
    let h2 = open_mem(&mut reg);
    assert_eq!(h1, 1);
    assert_eq!(h2, 2);
}

#[test]
fn insert_one_row_reports_count_and_rowid() {
    let mut reg = ConnectionRegistry::new();
    let h = open_mem(&mut reg);
    let r = reg.execute_sql(h, "CREATE TABLE t (id INTEGER PRIMARY KEY, v TEXT)");
    assert!(r.success);
    let r = reg.execute_sql(h, "INSERT INTO t (v) VALUES ('hello')");
    assert!(r.success);
    assert_eq!(r.rows_affected, 1);
    assert_eq!(
        r.json_data.unwrap(),
        "{\"rows_affected\":1,\"last_insert_rowid\":1}"
    );
    assert!(r.error_message.is_none());
}

#[test]
fn update_reports_modified_row_count() {
    let mut reg = ConnectionRegistry::new();
    let h = open_mem(&mut reg);
    reg.execute_sql(h, "CREATE TABLE t (v TEXT)");
    reg.execute_sql(h, "INSERT INTO t VALUES ('a')");
    reg.execute_sql(h, "INSERT INTO t VALUES ('b')");
    let r = reg.execute_sql(h, "UPDATE t SET v = 'z'");
    assert!(r.success);
    assert_eq!(r.rows_affected, 2);
}

#[test]
fn read_of_empty_table_yields_empty_payload() {
    let mut reg = ConnectionRegistry::new();
    let h = open_mem(&mut reg);
    reg.execute_sql(h, "CREATE TABLE t (v TEXT)");
    let r = reg.execute_sql(h, "SELECT v FROM t");
    assert!(r.success);
    assert_eq!(r.rows_affected, 0);
    assert_eq!(r.json_data.unwrap(), "{\"rows\":[],\"count\":0}");
}

#[test]
fn integer_and_text_coerce_differently() {
    let mut reg = ConnectionRegistry::new();
    let h = open_mem(&mut reg);
    reg.execute_sql(h, "CREATE TABLE c (a INTEGER, b TEXT)");
    let r = reg.execute_sql(h, "INSERT INTO c VALUES (42, '42')");
    assert!(r.success);
    let r = reg.execute_sql(h, "SELECT a, b FROM c");
    assert!(r.success);
    assert_eq!(r.rows_affected, 1);
    assert_eq!(
        r.json_data.unwrap(),
        "{\"rows\":[{\"a\":42,\"b\":\"42\"}],\"count\":1}"
    );
}

#[test]
fn blob_round_trips_through_base64() {
    let mut reg = ConnectionRegistry::new();
    let h = open_mem(&mut reg);
    reg.execute_sql(h, "CREATE TABLE b (v BLOB)");
    let r = reg.execute_sql(h, "INSERT INTO b VALUES (X'0102FF')");
    assert!(r.success);
    let r = reg.execute_sql(h, "SELECT v FROM b");
    assert!(r.success);
    assert_eq!(
        r.json_data.unwrap(),
        "{\"rows\":[{\"v\":\"AQL/\"}],\"count\":1}"
    );
    let decoded = base64::engine::general_purpose::STANDARD
        .decode("AQL/")
        .unwrap();
    assert_eq!(decoded, vec![1u8, 2u8, 255u8]);
}

#[test]
fn real_null_and_negative_values_render() {
    let mut reg = ConnectionRegistry::new();
    let h = open_mem(&mut reg);
    let r = reg.execute_sql(h, "SELECT 1.5 AS r, NULL AS n, -7 AS m");
    assert!(r.success);
    assert_eq!(
        r.json_data.unwrap(),
        "{\"rows\":[{\"r\":1.5,\"n\":null,\"m\":-7}],\"count\":1}"
    );
}

#[test]
fn quotes_and_newlines_are_escaped() {
    let mut reg = ConnectionRegistry::new();
    let h = open_mem(&mut reg);
    let r = reg.execute_sql(h, "SELECT 'a\"b' AS q, 'x' || char(10) AS n");
    assert!(r.success);
    assert_eq!(
        r.json_data.unwrap(),
        "{\"rows\":[{\"q\":\"a\\\"b\",\"n\":\"x\\n\"}],\"count\":1}"
    );
}

#[test]
fn several_rows_keep_reading_order() {
    let mut reg = ConnectionRegistry::new();
    let h = open_mem(&mut reg);
    reg.execute_sql(h, "CREATE TABLE s (k INTEGER)");
    reg.execute_sql(h, "INSERT INTO s VALUES (3)");
    reg.execute_sql(h, "INSERT INTO s VALUES (1)");
    reg.execute_sql(h, "INSERT INTO s VALUES (2)");
    let r = reg.execute_sql(h, "SELECT k FROM s ORDER BY k");
    assert!(r.success);
    assert_eq!(r.rows_affected, 3);
    assert_eq!(
        r.json_data.unwrap(),
        "{\"rows\":[{\"k\":1},{\"k\":2},{\"k\":3}],\"count\":3}"
    );
}

#[test]
fn pragma_is_classified_as_read() {
    let mut reg = ConnectionRegistry::new();
    let h = open_mem(&mut reg);
    let r = reg.execute_sql(h, "PRAGMA user_version");
    assert!(r.success);
    assert_eq!(
        r.json_data.unwrap(),
        "{\"rows\":[{\"user_version\":0}],\"count\":1}"
    );
}

#[test]
fn unregistered_handle_fails_with_invalid_connection() {
    let reg = ConnectionRegistry::new();
    let r = reg.execute_sql(99, "SELECT 1");
    assert!(!r.success);
    assert_eq!(r.rows_affected, 0);
    assert!(r.json_data.is_none());
    assert_eq!(r.error_message.unwrap(), "Invalid connection ID");
}

#[test]
fn closed_handle_fails_with_invalid_connection() {
    let mut reg = ConnectionRegistry::new();
    let h = open_mem(&mut reg);
    assert!(reg.close_database_connection(h));
    let r = reg.execute_sql(h, "SELECT 1");
    assert!(!r.success);
    assert_eq!(r.rows_affected, 0);
    assert_eq!(r.error_message.unwrap(), "Invalid connection ID");
}

#[test]
fn malformed_read_reports_prepare_error() {
    let mut reg = ConnectionRegistry::new();
    let h = open_mem(&mut reg);
    let r = reg.execute_sql(h, "SELECT FROM WHERE");
    assert!(!r.success);
    assert_eq!(r.rows_affected, 0);
    assert!(r.error_message.unwrap().starts_with("Query prepare error: "));
}

#[test]
fn malformed_write_reports_execution_error() {
    let mut reg = ConnectionRegistry::new();
    let h = open_mem(&mut reg);
    let r = reg.execute_sql(h, "DELETE FROM no_such_table");
    assert!(!r.success);
    assert_eq!(r.rows_affected, 0);
    assert!(r.error_message.unwrap().starts_with("Execution error: "));
}

#[test]
fn submitted_jobs_deliver_one_envelope_each() {
    let mut reg = ConnectionRegistry::new();
    let h = open_mem(&mut reg);
    let mut jobs: JobRegistry<String> = JobRegistry::new();
    let n = 4;
    let mut ids = Vec::new();
    for k in 0..n {
        ids.push(jobs.submit(format!("cb-{}", k)));
    }
    for id in &ids {
        let envelope = reg.execute_sql(h, "SELECT 1 AS one");
        assert!(envelope.success);
        assert_eq!(
            envelope.json_data.unwrap(),
            "{\"rows\":[{\"one\":1}],\"count\":1}"
        );
        assert!(jobs.complete(*id).is_some());
        assert!(jobs.complete(*id).is_none());
    }
    assert_eq!(jobs.pending(), 0);
}

#[test]
fn cipher_is_linked_and_answers() {
    let mut reg = ConnectionRegistry::new();
    let h = open_mem(&mut reg);
    let r = reg.execute_sql(h, "PRAGMA cipher_version");
    assert!(r.success);
    // one row under an encrypting build; zero would mean the pragma is a no-op
    assert_eq!(r.rows_affected, 1);
}

#[test]
fn keyed_file_probes_as_encrypted() {
    let path = "/tmp/crypto_db_keyed_probe.sqlite";
    let mut reg = ConnectionRegistry::new();
    let h = reg.open_encrypted_database(path, "hunter2");
    assert!(h >= 1);
    let r = reg.execute_sql(h, "INSERT INTO _test VALUES (1)");
    assert!(r.success);
    assert!(reg.close_database_connection(h));
    assert_eq!(verify_database_encryption(path), true);
}

#[test]
fn memory_database_probes_as_not_encrypted() {
    assert_eq!(verify_database_encryption(":memory:"), false);
}

#[test]
fn unreachable_path_probes_as_encrypted() {
    assert_eq!(
        verify_database_encryption("/no_such_directory_anywhere/db.sqlite"),
        true
    );
}
