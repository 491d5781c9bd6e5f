use submission_store::handler::handle_submission;
use submission_store::store::{start_store, Store};

/// Read every `(encrypted, captcha)` row of the `answers` table at `path`
/// over a connection of its own, in insertion order.
fn rows_at(path: &str) -> Vec<(String, String)> {
    let raw = sqlite::open(path).unwrap();
    let mut statement = raw.prepare("SELECT encrypted, captcha FROM answers").unwrap();
    let mut rows = Vec::new();
    while statement.next().unwrap() == sqlite::State::Row {
        let encrypted = statement.read::<String, _>(0).unwrap();
        let captcha = statement.read::<String, _>(1).unwrap();
        rows.push((encrypted, captcha));
    }
    rows
}

/// Leave no `answers` table at `path`, whatever an earlier run put there.
fn clear(path: &str) {
    let raw = sqlite::open(path).unwrap();
    raw.execute("DROP TABLE IF EXISTS answers").unwrap();
}

#[test]
fn in_memory_store_accepts_submissions() {
    let mut store = Store::open_in_memory().unwrap();
    store.init_schema().unwrap();
    store.store("cipher", "answer").unwrap();
}

#[test]
fn start_store_without_path_is_in_memory() {
    let mut store = start_store(None).unwrap();
    store.store("cipher", "answer").unwrap();
}

#[test]
fn stored_pairs_land_as_exact_rows() {
    let path = "/tmp/submission_store_exact_rows.db";
    clear(path);
    let owned = String::from(path);
    let mut store = start_store(Some(&owned)).unwrap();
    store.store("cipher-one", "answer-one").unwrap();
    store.store("cipher-two", "answer-two").unwrap();
    drop(store);
    let rows = rows_at(path);
    assert_eq!(rows.len(), 2);
    assert_eq!(rows[0], ("cipher-one".to_string(), "answer-one".to_string()));
    assert_eq!(rows[1], ("cipher-two".to_string(), "answer-two".to_string()));
}

#[test]
fn identical_pairs_make_two_rows() {
    let path = "/tmp/submission_store_duplicate_rows.db";
    clear(path);
    let owned = String::from(path);
    let mut store = start_store(Some(&owned)).unwrap();
    store.store("same-cipher", "same-answer").unwrap();
    store.store("same-cipher", "same-answer").unwrap();
    drop(store);
    let rows = rows_at(path);
    assert_eq!(rows.len(), 2);
    assert_eq!(rows[0], ("same-cipher".to_string(), "same-answer".to_string()));
    assert_eq!(rows[1], ("same-cipher".to_string(), "same-answer".to_string()));
}

#[test]
fn hundred_distinct_submissions_give_hundred_rows() {
    let path = "/tmp/submission_store_hundred.db";
    clear(path);
    let owned = String::from(path);
    let mut store = start_store(Some(&owned)).unwrap();
    for i in 0..100 {
        store.store(&format!("cipher-{}", i), &format!("answer-{}", i)).unwrap();
    }
    drop(store);
    let rows = rows_at(path);
    assert_eq!(rows.len(), 100);
    for (i, row) in rows.iter().enumerate() {
        assert_eq!(row.0, format!("cipher-{}", i));
        assert_eq!(row.1, format!("answer-{}", i));
    }
}

#[test]
fn restart_preserves_rows() {
    let path = "/tmp/submission_store_restart.db";
    clear(path);
    let owned = String::from(path);
    let mut store = start_store(Some(&owned)).unwrap();
    store.store("first-cipher", "first-answer").unwrap();
    drop(store);
    let mut store = start_store(Some(&owned)).unwrap();
    store.store("second-cipher", "second-answer").unwrap();
    drop(store);
    let rows = rows_at(path);
    assert_eq!(rows.len(), 2);
    assert_eq!(rows[0], ("first-cipher".to_string(), "first-answer".to_string()));
    assert_eq!(rows[1], ("second-cipher".to_string(), "second-answer".to_string()));
}

#[test]
fn unopenable_database_is_reported() {
    let missing_dir = String::from("/tmp/submission_store_no_such_dir/answers.db");
    assert!(start_store(Some(&missing_dir)).is_err());
    assert!(Store::open_at("/tmp/submission_store_no_such_dir/answers.db").is_err());
}

#[test]
fn handled_submission_is_saved() {
    let path = "/tmp/submission_store_handled.db";
    clear(path);
    let owned = String::from(path);
    let mut store = start_store(Some(&owned)).unwrap();
    let reply = handle_submission(&mut store, "cipher", "answer");
    assert_eq!(reply.status, 201);
    assert_eq!(reply.body, "Saved!");
    drop(store);
    let rows = rows_at(path);
    assert_eq!(rows, vec![("cipher".to_string(), "answer".to_string())]);
}

#[test]
fn storage_failure_becomes_a_500_reply() {
    let path = "/tmp/submission_store_failure.db";
    clear(path);
    let owned = String::from(path);
    let mut store = start_store(Some(&owned)).unwrap();
    // Pull the table away under the store, so that the next insert fails.
    sqlite::open(path).unwrap().execute("DROP TABLE answers").unwrap();
    let reply = handle_submission(&mut store, "cipher", "answer");
    assert_eq!(reply.status, 500);
    assert!(reply.body.contains("answers"));
}
