use passrec::cli::plan_of;
use passrec::cli::query_output;
use passrec::cli::run_query;
use passrec::cli::run_save;
use passrec::cli::FileLoad;
use passrec::cli::Invocation;
use passrec::cli::Plan;
use passrec::cli::SaveOutcome;
use passrec::store::records_of_rows;
use passrec::store::NewRecord;
use passrec::store::Store;
use passrec::store::StoreError;

fn new_record(hash: &str, size: &str, password: &str) -> NewRecord {
    NewRecord {
        hash: hash.to_owned(),
        size: size.to_owned(),
        password: password.to_owned(),
        time_created: "0.0".to_owned(),
    }
}

fn assert_saved(r: Result<SaveOutcome, StoreError>) -> NewRecord {
    match r {
        Ok(SaveOutcome::Saved { id, record }) => {
            assert!(id >= 1);
            record
        },
        other => panic!("save should append a record, got {other:?}"),
    }
}

fn loaded(bytes: &[u8]) -> FileLoad {
    FileLoad::Available { contents: bytes.to_vec(), size: bytes.len() as u64 }
}

#[test]
fn save_then_query_round_trips_the_password() {
    let store = Store::open(":memory:").unwrap();
    let hello = loaded(b"hello");
    assert_saved(run_save(&store, &hello, "secret\n"));
    let out = run_query(&store, &hello).unwrap();
    assert_eq!(out, "Password:\nsecret\n\n");
}

#[test]
fn query_finds_a_byte_for_byte_copy_under_another_name() {
    let store = Store::open(":memory:").unwrap();
    assert_saved(run_save(&store, &loaded(b"hello"), "secret\n"));
    let moved_copy = loaded(b"hello");
    let out = run_query(&store, &moved_copy).unwrap();
    assert_eq!(out, "Password:\nsecret\n\n");
}

#[test]
fn query_after_content_change_is_a_miss() {
    let store = Store::open(":memory:").unwrap();
    assert_saved(run_save(&store, &loaded(b"hello"), "secret\n"));
    let out = run_query(&store, &loaded(b"hXllo")).unwrap();
    assert_eq!(out, "No record for this file!\n");
}

#[test]
fn query_miss_prints_exactly_the_miss_line() {
    let store = Store::open(":memory:").unwrap();
    let out = run_query(&store, &loaded(b"never saved")).unwrap();
    assert_eq!(out, "No record for this file!\n");
}

#[test]
fn unreadable_file_is_reported_and_store_is_left_unchanged() {
    let store = Store::open(":memory:").unwrap();
    assert_saved(run_save(&store, &loaded(b"hello"), "secret\n"));

    let out = run_query(&store, &FileLoad::Unavailable).unwrap();
    assert_eq!(out, "Cannot get the information of the file!\n");

    match run_save(&store, &FileLoad::Unavailable, "other\n").unwrap() {
        SaveOutcome::CannotRead { message } => {
            assert_eq!(message, "Cannot get the information of the file!\n");
        },
        SaveOutcome::Saved { .. } => panic!("an unreadable file must not be saved"),
    }

    let hello = loaded(b"hello");
    let out = run_query(&store, &hello).unwrap();
    assert_eq!(out, "Password:\nsecret\n\n");
    if let FileLoad::Available { contents, size } = &hello {
        let fp = passrec::fingerprint::fingerprint_of(contents, *size);
        let records = store.find_by_identity(&fp.digest, &fp.size).unwrap();
        assert_eq!(records.len(), 1);
    } else {
        unreachable!();
    }
}

#[test]
fn first_save_wins_over_a_later_one() {
    let store = Store::open(":memory:").unwrap();
    let hello = loaded(b"hello");
    assert_saved(run_save(&store, &hello, "alpha\n"));
    assert_saved(run_save(&store, &hello, "beta\n"));
    let out = run_query(&store, &hello).unwrap();
    assert_eq!(out, "Password:\nalpha\n\n");
}

#[test]
fn reopening_a_store_keeps_schema_and_rows() {
    let first = Store::open("file:schema_keep?mode=memory&cache=shared").unwrap();
    let hello = loaded(b"hello");
    assert_saved(run_save(&first, &hello, "secret\n"));

    let second = Store::open("file:schema_keep?mode=memory&cache=shared").unwrap();
    let out = run_query(&second, &hello).unwrap();
    assert_eq!(out, "Password:\nsecret\n\n");
    let out = run_query(&first, &hello).unwrap();
    assert_eq!(out, "Password:\nsecret\n\n");
}

#[test]
fn password_is_stored_verbatim_with_its_line_ending() {
    let store = Store::open(":memory:").unwrap();
    let hello = loaded(b"hello");
    assert_saved(run_save(&store, &hello, "  spaced out \n"));
    let out = run_query(&store, &hello).unwrap();
    assert_eq!(out, "Password:\n  spaced out \n\n");
}

#[test]
fn store_open_failure_is_unavailable() {
    let result = Store::open("/nonexistent_directory_for_sure/db.db3");
    assert!(matches!(result, Err(StoreError::Unavailable)));
}

#[test]
fn store_failures_during_a_subcommand_are_read_or_write_failures() {
    let store = Store::open("file:dropped_table?mode=memory&cache=shared").unwrap();
    let raw = rusqlite::Connection::open("file:dropped_table?mode=memory&cache=shared").unwrap();
    raw.execute("DROP TABLE file", ()).unwrap();

    let hello = loaded(b"hello");
    assert_eq!(run_query(&store, &hello), Err(StoreError::ReadFailure));
    assert_eq!(run_save(&store, &hello, "secret\n"), Err(StoreError::WriteFailure));
}

#[test]
fn inserted_records_carry_ascending_positive_ids_and_a_timestamp() {
    let store = Store::open(":memory:").unwrap();
    let first_id = store.insert(&new_record("aa", "1", "earliest\n")).unwrap();
    let second_id = store.insert(&new_record("aa", "1", "latest\n")).unwrap();
    assert!(first_id >= 1);
    assert!(second_id > first_id);

    let hello = loaded(b"hello");
    assert_saved(run_save(&store, &hello, "secret\n"));
    if let FileLoad::Available { contents, size } = &hello {
        let fp = passrec::fingerprint::fingerprint_of(contents, *size);
        let records = store.find_by_identity(&fp.digest, &fp.size).unwrap();
        assert_eq!(records.len(), 1);
        let time = &records[0].time_created;
        let parts: Vec<&str> = time.split('.').collect();
        assert_eq!(parts.len(), 2);
        assert!(parts[0].parse::<i64>().is_ok());
        let nanos = parts[1].parse::<u32>().unwrap();
        assert!(nanos < 1_000_000_000);
    } else {
        unreachable!();
    }
}

#[test]
fn find_by_identity_returns_all_matches_in_insertion_order() {
    let store = Store::open(":memory:").unwrap();
    store.insert(&new_record("aa", "1", "earliest\n")).unwrap();
    store.insert(&new_record("bb", "1", "other\n")).unwrap();
    store.insert(&new_record("aa", "1", "latest\n")).unwrap();
    let records = store.find_by_identity("aa", "1").unwrap();
    assert_eq!(records.len(), 2);
    assert_eq!(records[0].password, "earliest\n");
    assert_eq!(records[1].password, "latest\n");
    assert!(records[0].id < records[1].id);
    assert!(records.iter().all(|r| r.hash == "aa" && r.size == "1"));
    assert!(store.find_by_identity("aa", "2").unwrap().is_empty());
}

#[test]
fn query_output_formats_hit_and_miss() {
    assert_eq!(query_output(&vec![]), "No record for this file!\n");
    let store = Store::open(":memory:").unwrap();
    store.insert(&new_record("aa", "1", "pw\n")).unwrap();
    let records = store.find_by_identity("aa", "1").unwrap();
    assert_eq!(query_output(&records), "Password:\npw\n\n");
}

#[test]
fn missing_file_option_and_missing_subcommand_are_silent() {
    assert!(matches!(plan_of(Invocation::NoCommand), Plan::Silent));
    assert!(matches!(plan_of(Invocation::Query { file: None }), Plan::Silent));
    assert!(matches!(plan_of(Invocation::Save { file: None }), Plan::Silent));
    let plan = plan_of(Invocation::Query { file: Some("a.zip".to_owned()) });
    match plan {
        Plan::DoQuery { file } => assert_eq!(file, "a.zip"),
        _ => panic!("query with --file must act"),
    }
    let plan = plan_of(Invocation::Save { file: Some("b.zip".to_owned()) });
    match plan {
        Plan::DoSave { file } => assert_eq!(file, "b.zip"),
        _ => panic!("save with --file must act"),
    }
}

#[test]
fn saved_record_carries_identity_and_verbatim_password() {
    let store = Store::open(":memory:").unwrap();
    let record = assert_saved(run_save(&store, &loaded(b"hello"), "  secret \n"));
    let fp = passrec::fingerprint::fingerprint_of(&b"hello".to_vec(), 5);
    assert_eq!(record.hash, fp.digest);
    assert_eq!(record.size, "5");
    assert_eq!(record.password, "  secret \n");
    let parts: Vec<&str> = record.time_created.split('.').collect();
    assert_eq!(parts.len(), 2);
    assert!(parts[0].parse::<i64>().is_ok());
    assert!(parts[1].parse::<u32>().unwrap() < 1_000_000_000);
}

#[test]
fn records_of_rows_copies_every_column() {
    let rows = vec![
        (3i64, "aa".to_owned(), "1".to_owned(), "pw\n".to_owned(), "0.0".to_owned()),
        (7i64, "bb".to_owned(), "2".to_owned(), "qw\n".to_owned(), "5.42".to_owned()),
    ];
    let records = records_of_rows(&rows);
    assert_eq!(records.len(), 2);
    assert_eq!(records[0].id, 3);
    assert_eq!(records[0].hash, "aa");
    assert_eq!(records[0].size, "1");
    assert_eq!(records[0].password, "pw\n");
    assert_eq!(records[0].time_created, "0.0");
    assert_eq!(records[1].id, 7);
    assert_eq!(records[1].hash, "bb");
    assert_eq!(records[1].size, "2");
    assert_eq!(records[1].password, "qw\n");
    assert_eq!(records[1].time_created, "5.42");
}
