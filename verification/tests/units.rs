use crypto_db::classify::classify_is_read;
use crypto_db::coerce::coerce_cell;
use crypto_db::envelope::failure_result;
use crypto_db::fib::fibonacci_recursive;
use crypto_db::jobs::JobRegistry;
use crypto_db::jsontext::JsonCell;
use crypto_db::jsontext::i64_token;
use crypto_db::jsontext::u64_token;

#[test]
fn classification_follows_the_leading_keyword() {
    assert!(classify_is_read("SELECT 1"));
    assert!(classify_is_read("  \t\nselect * from t"));
    assert!(classify_is_read("With x AS (SELECT 1) SELECT * FROM x"));
    assert!(classify_is_read("PRAGMA user_version"));
    assert!(!classify_is_read("INSERT INTO t VALUES (1)"));
    assert!(!classify_is_read("UPDATE t SET a = 1"));
    assert!(!classify_is_read("DELETE FROM t"));
    assert!(!classify_is_read(""));
    assert!(!classify_is_read("   "));
    // the rule is a prefix heuristic, not a word match
    assert!(classify_is_read("selection of rows"));
    assert!(classify_is_read("select1"));
}

#[test]
fn coercion_priority_is_text_int_real_blob_null() {
    let c = coerce_cell(Some("x".to_string()), Some(5), None, None);
    assert_eq!(c, JsonCell::Text("x".to_string()));
    let c = coerce_cell(None, Some(5), Some(Some("5.0".to_string())), None);
    assert_eq!(c, JsonCell::Int(5));
    let c = coerce_cell(None, None, Some(Some("1.5".to_string())), Some(vec![1]));
    assert_eq!(c, JsonCell::Real("1.5".to_string()));
    let c = coerce_cell(None, None, Some(None), Some(vec![1]));
    assert_eq!(c, JsonCell::Real("0".to_string()));
    let c = coerce_cell(None, None, None, Some(vec![1, 2]));
    assert_eq!(c, JsonCell::Blob(vec![1, 2]));
    let c = coerce_cell(None, None, None, None);
    assert_eq!(c, JsonCell::Null);
}

#[test]
fn decimal_tokens_render_exactly() {
    assert_eq!(u64_token(0), "0");
    assert_eq!(u64_token(42), "42");
    assert_eq!(u64_token(18446744073709551615), "18446744073709551615");
    assert_eq!(i64_token(-1), "-1");
    assert_eq!(i64_token(-9223372036854775808), "-9223372036854775808");
    assert_eq!(i64_token(9223372036854775807), "9223372036854775807");
}

#[test]
fn failure_envelopes_carry_only_the_error() {
    let r = failure_result("boom".to_string());
    assert!(!r.success);
    assert_eq!(r.rows_affected, 0);
    assert!(r.json_data.is_none());
    assert_eq!(r.error_message.unwrap(), "boom");
}

#[test]
fn submissions_get_fresh_identifiers_and_fire_once() {
    let mut jobs: JobRegistry<String> = JobRegistry::new();
    let n = 5;
    let mut ids = Vec::new();
    for k in 0..n {
        ids.push(jobs.submit(format!("job-{}", k)));
    }
    for a in 0..n {
        for b in 0..a {
            assert_ne!(ids[a], ids[b]);
        }
    }
    assert_eq!(jobs.pending(), n);
    for (k, id) in ids.iter().enumerate() {
        let cb = jobs.complete(*id);
        assert_eq!(cb, Some(format!("job-{}", k)));
        let again = jobs.complete(*id);
        assert_eq!(again, None);
    }
    assert_eq!(jobs.pending(), 0);
}

#[test]
fn job_identifiers_start_at_one() {
    let mut jobs: JobRegistry<u8> = JobRegistry::new();
    assert_eq!(jobs.submit(7), 1);
    assert_eq!(jobs.submit(8), 2);
}

#[test]
fn fibonacci_small_values() {
    assert_eq!(fibonacci_recursive(0), 0);
    assert_eq!(fibonacci_recursive(1), 1);
    assert_eq!(fibonacci_recursive(2), 1);
    assert_eq!(fibonacci_recursive(10), 55);
    assert_eq!(fibonacci_recursive(20), 6765);
}
