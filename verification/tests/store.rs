use kvdb_sled::{Database, DatabaseConfig, DBTransaction, DbError};

fn open_at(dir: &tempfile::TempDir, columns: Option<u8>) -> Database {
    let config = DatabaseConfig {
        columns,
        memory_budget_mb: None,
        path: dir.path().to_str().unwrap().to_string(),
    };
    Database::open(config).unwrap()
}

#[test]
fn it_works() {
    assert_eq!(2 + 2, 4);
}

#[test]
fn round_trip_default_column() {
    let dir = tempfile::TempDir::new().unwrap();
    let mut db = open_at(&dir, None);
    let mut tr = DBTransaction::new();
    tr.put(None, b"x".to_vec(), b"1".to_vec());
    db.write(tr).unwrap();
    assert_eq!(db.get(None, b"x").unwrap(), Some(b"1".to_vec()));
}

#[test]
fn round_trip_logical_column() {
    let dir = tempfile::TempDir::new().unwrap();
    let mut db = open_at(&dir, Some(8));
    let mut tr = DBTransaction::new();
    tr.put(Some(3), b"key".to_vec(), b"value".to_vec());
    db.write(tr).unwrap();
    assert_eq!(db.get(Some(3), b"key").unwrap(), Some(b"value".to_vec()));
}

#[test]
fn columns_are_separate_namespaces() {
    let dir = tempfile::TempDir::new().unwrap();
    let mut db = open_at(&dir, Some(8));
    let mut tr = DBTransaction::new();
    tr.put(Some(2), b"k".to_vec(), b"v2".to_vec());
    db.write(tr).unwrap();
    assert_eq!(db.get(Some(2), b"k").unwrap(), Some(b"v2".to_vec()));
    assert_eq!(db.get(None, b"k").unwrap(), None);
    assert_eq!(db.get(Some(0), b"k").unwrap(), None);
    assert_eq!(db.get(Some(7), b"k").unwrap(), None);
}

#[test]
fn deletion_removes_key() {
    let dir = tempfile::TempDir::new().unwrap();
    let mut db = open_at(&dir, Some(8));
    let mut tr = DBTransaction::new();
    tr.put(Some(1), b"gone".to_vec(), b"soon".to_vec());
    db.write(tr).unwrap();
    let mut tr = DBTransaction::new();
    tr.delete(Some(1), b"gone".to_vec());
    db.write(tr).unwrap();
    assert_eq!(db.get(Some(1), b"gone").unwrap(), None);
}

#[test]
fn transaction_commits_in_full() {
    let dir = tempfile::TempDir::new().unwrap();
    let mut db = open_at(&dir, Some(8));
    let mut tr = DBTransaction::new();
    tr.put(None, b"old".to_vec(), b"stale".to_vec());
    db.write(tr).unwrap();
    // One batch mixing inserts and a delete across several columns.
    let mut tr = DBTransaction::new();
    tr.put(None, b"a".to_vec(), b"0".to_vec());
    tr.put(Some(0), b"b".to_vec(), b"1".to_vec());
    tr.put(Some(7), b"c".to_vec(), b"2".to_vec());
    tr.delete(None, b"old".to_vec());
    db.write(tr).unwrap();
    assert_eq!(db.get(None, b"a").unwrap(), Some(b"0".to_vec()));
    assert_eq!(db.get(Some(0), b"b").unwrap(), Some(b"1".to_vec()));
    assert_eq!(db.get(Some(7), b"c").unwrap(), Some(b"2".to_vec()));
    assert_eq!(db.get(None, b"old").unwrap(), None);
}

#[test]
fn last_insert_of_a_key_wins_within_a_batch() {
    let dir = tempfile::TempDir::new().unwrap();
    let mut db = open_at(&dir, None);
    let mut tr = DBTransaction::new();
    tr.put(None, b"k".to_vec(), b"first".to_vec());
    tr.put(None, b"k".to_vec(), b"second".to_vec());
    db.write(tr).unwrap();
    assert_eq!(db.get(None, b"k").unwrap(), Some(b"second".to_vec()));
}

#[test]
fn insert_then_delete_in_one_batch_leaves_nothing() {
    let dir = tempfile::TempDir::new().unwrap();
    let mut db = open_at(&dir, None);
    let mut tr = DBTransaction::new();
    tr.put(None, b"k".to_vec(), b"v".to_vec());
    tr.delete(None, b"k".to_vec());
    db.write(tr).unwrap();
    assert_eq!(db.get(None, b"k").unwrap(), None);
}

#[test]
fn iteration_yields_every_key_in_order() {
    let dir = tempfile::TempDir::new().unwrap();
    let mut db = open_at(&dir, None);
    let mut tr = DBTransaction::new();
    tr.put(None, b"b".to_vec(), b"2".to_vec());
    tr.put(None, b"a".to_vec(), b"1".to_vec());
    tr.put(None, b"c".to_vec(), b"3".to_vec());
    db.write(tr).unwrap();
    let mut it = db.iter(None);
    let mut seen: Vec<(Vec<u8>, Vec<u8>)> = Vec::new();
    while let Some(kv) = it.next() {
        seen.push(kv);
    }
    assert!(!it.is_interrupted());
    assert_eq!(
        seen,
        vec![
            (b"a".to_vec(), b"1".to_vec()),
            (b"b".to_vec(), b"2".to_vec()),
            (b"c".to_vec(), b"3".to_vec()),
        ]
    );
}

#[test]
fn prefix_scan_yields_exactly_matching_keys() {
    let dir = tempfile::TempDir::new().unwrap();
    let mut db = open_at(&dir, None);
    let mut tr = DBTransaction::new();
    tr.put(None, b"ab".to_vec(), b"one".to_vec());
    tr.put(None, b"abc".to_vec(), b"two".to_vec());
    tr.put(None, b"b".to_vec(), b"three".to_vec());
    db.write(tr).unwrap();
    let mut it = db.iter_from_prefix(None, b"ab");
    let mut seen: Vec<Vec<u8>> = Vec::new();
    while let Some((k, _)) = it.next() {
        seen.push(k);
    }
    assert_eq!(seen, vec![b"ab".to_vec(), b"abc".to_vec()]);
}

#[test]
fn get_by_prefix_returns_first_match() {
    let dir = tempfile::TempDir::new().unwrap();
    let mut db = open_at(&dir, None);
    let mut tr = DBTransaction::new();
    tr.put(None, b"ab".to_vec(), b"one".to_vec());
    tr.put(None, b"abc".to_vec(), b"two".to_vec());
    tr.put(None, b"b".to_vec(), b"three".to_vec());
    db.write(tr).unwrap();
    assert_eq!(db.get_by_prefix(None, b"ab"), Some(b"one".to_vec()));
    assert_eq!(db.get_by_prefix(None, b"zzz"), None);
}

#[test]
fn unsupported_column_count_is_rejected_at_open() {
    let dir = tempfile::TempDir::new().unwrap();
    let config = DatabaseConfig {
        columns: Some(3),
        memory_budget_mb: None,
        path: dir.path().to_str().unwrap().to_string(),
    };
    match Database::open(config) {
        Err(DbError::UnsupportedColumnCount) => {},
        other => panic!("expected UnsupportedColumnCount, got {:?}", other.is_ok()),
    }
}

#[test]
fn open_on_a_plain_file_fails() {
    let file = tempfile::NamedTempFile::new().unwrap();
    let config = DatabaseConfig {
        columns: None,
        memory_budget_mb: None,
        path: file.path().to_str().unwrap().to_string(),
    };
    match Database::open(config) {
        Err(DbError::OpenFailed) => {},
        other => panic!("expected OpenFailed, got {:?}", other.is_ok()),
    }
}

#[test]
fn end_to_end_default_column_lifecycle() {
    let dir = tempfile::TempDir::new().unwrap();
    let mut db = open_at(&dir, Some(0));
    let mut tr = DBTransaction::new();
    tr.put(None, b"x".to_vec(), b"1".to_vec());
    db.write(tr).unwrap();
    assert_eq!(db.get(None, b"x").unwrap(), Some(b"1".to_vec()));
    let mut tr = DBTransaction::new();
    tr.delete(None, b"x".to_vec());
    db.write(tr).unwrap();
    assert_eq!(db.get(None, b"x").unwrap(), None);
}

#[test]
fn write_buffered_applies_the_batch() {
    let dir = tempfile::TempDir::new().unwrap();
    let mut db = open_at(&dir, None);
    let mut tr = DBTransaction::new();
    tr.put(None, b"silent".to_vec(), b"yes".to_vec());
    db.write_buffered(tr);
    assert_eq!(db.get(None, b"silent").unwrap(), Some(b"yes".to_vec()));
}

#[test]
fn flush_succeeds_after_writes() {
    let dir = tempfile::TempDir::new().unwrap();
    let mut db = open_at(&dir, None);
    let mut tr = DBTransaction::new();
    tr.put(None, b"durable".to_vec(), b"bit".to_vec());
    db.write(tr).unwrap();
    db.flush().unwrap();
}

#[test]
fn memory_budget_defaults_and_scales() {
    let a = DatabaseConfig { columns: None, memory_budget_mb: None, path: String::new() };
    assert_eq!(a.memory_budget(), 128 * 1024 * 1024);
    let b = DatabaseConfig { columns: None, memory_budget_mb: Some(10), path: String::new() };
    assert_eq!(b.memory_budget(), 10 * 1024 * 1024);
}

#[test]
fn segment_names_follow_the_convention() {
    assert_eq!(kvdb_sled::db::segment_name(0), b"col0".to_vec());
    assert_eq!(kvdb_sled::db::segment_name(9), b"col9".to_vec());
    assert_eq!(kvdb_sled::db::segment_name(42), b"col42".to_vec());
    assert_eq!(kvdb_sled::db::segment_name(255), b"col255".to_vec());
}

#[test]
fn column_resolution_maps_none_to_zero() {
    assert_eq!(kvdb_sled::ops::to_sled_column(None), 0);
    assert_eq!(kvdb_sled::ops::to_sled_column(Some(0)), 1);
    assert_eq!(kvdb_sled::ops::to_sled_column(Some(7)), 8);
}

#[test]
fn get_missing_key_finds_nothing() {
    let dir = tempfile::TempDir::new().unwrap();
    let db = open_at(&dir, None);
    assert_eq!(db.get(None, b"missing").unwrap(), None);
}

#[test]
fn reopen_keeps_committed_state() {
    let dir = tempfile::TempDir::new().unwrap();
    {
        let mut db = open_at(&dir, None);
        let mut tr = DBTransaction::new();
        tr.put(None, b"kept".to_vec(), b"across".to_vec());
        db.write(tr).unwrap();
        db.flush().unwrap();
    }
    let db = open_at(&dir, None);
    assert_eq!(db.get(None, b"kept").unwrap(), Some(b"across".to_vec()));
}

#[test]
fn empty_key_and_empty_value_round_trip() {
    let dir = tempfile::TempDir::new().unwrap();
    let mut db = open_at(&dir, None);
    let mut tr = DBTransaction::new();
    tr.put(None, b"".to_vec(), b"empty-key".to_vec());
    tr.put(None, b"empty-value".to_vec(), b"".to_vec());
    db.write(tr).unwrap();
    assert_eq!(db.get(None, b"").unwrap(), Some(b"empty-key".to_vec()));
    assert_eq!(db.get(None, b"empty-value").unwrap(), Some(b"".to_vec()));
}

#[test]
fn tiny_memory_budget_is_raised_to_the_engine_minimum() {
    let dir = tempfile::TempDir::new().unwrap();
    let config = DatabaseConfig {
        columns: None,
        memory_budget_mb: Some(0),
        path: dir.path().to_str().unwrap().to_string(),
    };
    let mut db = Database::open(config).unwrap();
    let mut tr = DBTransaction::new();
    tr.put(None, b"tiny".to_vec(), b"cache".to_vec());
    db.write(tr).unwrap();
    assert_eq!(db.get(None, b"tiny").unwrap(), Some(b"cache".to_vec()));
}
