//! The prune of the archive and its throttle.

use std::path::Path;
use std::sync::atomic::{AtomicUsize, Ordering};

use native_core::archive::{
    insert_record, prune_older_than_capped, record_was_new, retention_cutoff, ARCHIVE_PRUNE_BATCH,
    ARCHIVE_RETENTION_HOURS_DEFAULT, PruneRun, RawPayloadRecord,
};
use native_core::catalog::init_archive_table;
use native_core::index::{reconcile_index, IndexLookup, Reconcile};
use native_core::plan::Step;
use native_core::sql::{SqlValue, Statement};
use native_core::throttle::{
    config_path_for_test, configured_retention_hours, configured_retention_hours_at,
    production_config_path, prune_archive_throttled, prune_archive_throttled_at,
    prune_archive_throttled_with, prune_ended, throttle_key, ARCHIVE_PRUNE_RETRY_MS,
    ARCHIVE_PRUNE_THROTTLED_BATCHES, ARCHIVE_PRUNE_THROTTLE_MS, ConfigLoad, ConfigPath,
    PruneThrottle,
};
use native_core::wal::{
    pragma_wal, pragmas_after_wal, pragmas_before_wal, WalOutcome, WalRetry, WalStep,
};
use rusqlite::types::Value;
use rusqlite::{params_from_iter, Connection, OptionalExtension};

/// A value as the database takes it.
fn bound(value: &SqlValue) -> Value {
    match value {
        SqlValue::Null => Value::Null,
        SqlValue::Integer(n) => Value::Integer(*n),
        SqlValue::Real(r) => Value::Real(f64::from_bits(r.bits)),
        SqlValue::Text(t) => Value::Text(t.clone()),
        SqlValue::Blob(b) => Value::Blob(b.clone()),
    }
}

/// Runs a statement and says how many rows it changed.
fn run(conn: &Connection, statement: &Statement) -> rusqlite::Result<usize> {
    if statement.params.is_empty() {
        conn.execute_batch(&statement.sql)?;
        Ok(0)
    } else {
        conn.execute(&statement.sql, params_from_iter(statement.params.iter().map(bound)))
    }
}

fn all(conn: &Connection, statements: &[Statement]) -> rusqlite::Result<()> {
    for statement in statements {
        run(conn, statement)?;
    }
    Ok(())
}

fn columns_of(conn: &Connection, table: &str) -> rusqlite::Result<Vec<String>> {
    conn.prepare(&format!("PRAGMA table_info({table})"))?
        .query_map([], |r| r.get::<_, String>(1))?
        .collect()
}

/// Brings an index to its definition, and says whether it was made anew.
fn settle(conn: &Connection, name: &str, create_sql: &str) -> rusqlite::Result<bool> {
    let found: Option<Option<String>> = conn
        .query_row(
            "SELECT sql FROM sqlite_master WHERE type='index' AND name=?1",
            [name],
            |r| r.get(0),
        )
        .optional()?;
    let lookup = match found {
        None => IndexLookup::Absent,
        Some(None) => IndexLookup::Automatic,
        Some(Some(sql)) => IndexLookup::Defined(sql),
    };
    let todo = reconcile_index(name, create_sql, &lookup);
    match &todo {
        Reconcile::Keep => {}
        Reconcile::Create { run } => conn.execute_batch(run)?,
        Reconcile::Rebuild { run, undo } => {
            if let Err(error) = conn.execute_batch(run) {
                let _ = conn.execute_batch(undo);
                return Err(error);
            }
        }
    }
    Ok(todo.rebuilds())
}

/// Carries out the steps that make tables.
fn apply(conn: &Connection, steps: &[Step]) -> rusqlite::Result<()> {
    for step in steps {
        if let Some(statement) = step.statement() {
            run(conn, &statement)?;
        }
        match step {
            Step::Ensure(table) => {
                all(conn, &table.ensure_columns(&columns_of(conn, table.name())?))?;
            }
            Step::Reconcile(index) => {
                settle(conn, index.name, &index.create())?;
            }
            _ => {}
        }
    }
    Ok(())
}

fn open(path: &Path) -> Connection {
    let conn = Connection::open(path).unwrap();
    conn.execute_batch(pragmas_before_wal()).unwrap();
    let mut retry = WalRetry::start();
    let mode: String = conn.query_row(pragma_wal(), [], |r| r.get(0)).unwrap();
    assert_eq!(retry.set_wal_with_retry(&WalOutcome::Mode(mode)), WalStep::Done);
    conn.execute_batch(pragmas_after_wal()).unwrap();
    conn
}

fn rec(native_id: &str, event_seq: i64, ingest_time: i64) -> RawPayloadRecord {
    RawPayloadRecord {
        account_id_sha: "acct_sha".to_string(),
        source: "message_5.db".to_string(),
        source_native_id: native_id.to_string(),
        event_type: "message".to_string(),
        event_action: "create".to_string(),
        event_seq,
        ingest_time,
        payload_json: r#"{"event_type":"message"}"#.to_string(),
    }
}

/// Stores an event and says whether it was new.
fn put_record(conn: &Connection, rec: &RawPayloadRecord) -> rusqlite::Result<bool> {
    Ok(record_was_new(run(conn, &insert_record(rec))?))
}

/// Runs a prune to its end and says how many events it took out.
fn prune(conn: &Connection, mut pruning: PruneRun) -> rusqlite::Result<usize> {
    while let Some(batch) = pruning.next_batch() {
        let deleted = run(conn, &batch)?;
        pruning.batch_done(deleted);
    }
    Ok(pruning.deleted)
}

/// Prunes if the throttle lets it through, and tells it how the prune has ended.
fn throttled<F>(
    throttle: &mut PruneThrottle,
    conn: &Connection,
    now: i64,
    min_interval: i64,
    retention: F,
) -> rusqlite::Result<Option<usize>>
where
    F: FnOnce() -> Option<u32>,
{
    let key = throttle_key(conn.path().unwrap_or(""), false);
    match prune_archive_throttled_with(throttle, &key, now, min_interval, retention) {
        None => Ok(None),
        Some(pruning) => {
            let done = prune(conn, pruning);
            prune_ended(throttle, &key, now, min_interval, done.is_err());
            done.map(Some)
        }
    }
}

/// The same with a fixed retention.
fn throttled_at(
    throttle: &mut PruneThrottle,
    conn: &Connection,
    now: i64,
    min_interval: i64,
    hours: u32,
) -> rusqlite::Result<Option<usize>> {
    let key = throttle_key(conn.path().unwrap_or(""), false);
    match prune_archive_throttled_at(throttle, &key, now, min_interval, hours) {
        None => Ok(None),
        Some(pruning) => prune(conn, pruning).map(Some),
    }
}

fn stored_events(conn: &Connection) -> i64 {
    conn.query_row("SELECT count(*) FROM raw_payload_archive", [], |r| r.get(0))
        .unwrap()
}

#[test]
fn throttled_prune_waits_then_fires_again() {
    let mut throttle = PruneThrottle::new();
    let dir = tempfile::tempdir().unwrap();
    let conn = open(&dir.path().join("throttle.db"));
    apply(&conn, &init_archive_table()).unwrap();
    let now = 1_800_000_000_000i64;
    let hour: i64 = 60 * 60 * 1000;
    let put = |nid: &str, t: i64| {
        conn.execute(
            "INSERT INTO raw_payload_archive
             (account_id_sha, source, source_native_id, event_type, event_action, event_seq, ingest_time, payload_json)
             VALUES ('sha', 'src', ?1, 'message', 'insert', 1, ?2, '{}')",
            (nid, t),
        )
        .unwrap();
    };

    put("第一条超窗", now - 25 * hour);
    let first = throttled_at(&mut throttle, &conn, now, 5 * 60 * 1000, 24).unwrap();
    assert_eq!(first, Some(1));

    put("间隔内又来一条", now - 26 * hour);
    let second = throttled_at(&mut throttle, &conn, now + 60_000, 5 * 60 * 1000, 24).unwrap();
    assert_eq!(second, None);
    assert_eq!(stored_events(&conn), 1);

    let third = throttled_at(&mut throttle, &conn, now + 6 * 60 * 1000, 5 * 60 * 1000, 24).unwrap();
    assert_eq!(third, Some(1));
}

#[test]
fn throttled_prune_stops_at_the_batch_cap() {
    let mut throttle = PruneThrottle::new();
    let dir = tempfile::tempdir().unwrap();
    let conn = open(&dir.path().join("cap.db"));
    apply(&conn, &init_archive_table()).unwrap();
    let n_old = ARCHIVE_PRUNE_BATCH * ARCHIVE_PRUNE_THROTTLED_BATCHES + 1;
    conn.execute_batch("BEGIN").unwrap();
    {
        let mut insert = conn
            .prepare(
                "INSERT INTO raw_payload_archive
                 (account_id_sha, source, source_native_id, event_type, event_action, event_seq, ingest_time, payload_json)
                 VALUES ('sha', 'src', ?1, 'message', 'insert', 1, 1000, '{}')",
            )
            .unwrap();
        for i in 0..n_old {
            insert.execute([i.to_string()]).unwrap();
        }
    }
    conn.execute_batch("COMMIT").unwrap();

    let deleted = throttled_at(&mut throttle, &conn, 1_800_000_000_000, 0, 24).unwrap();
    assert_eq!(deleted, Some(ARCHIVE_PRUNE_BATCH * ARCHIVE_PRUNE_THROTTLED_BATCHES));
    assert_eq!(stored_events(&conn), 1);
}

#[test]
fn retention_is_fetched_only_after_the_throttle_lets_it_through() {
    let mut throttle = PruneThrottle::new();
    let dir = tempfile::tempdir().unwrap();
    let conn = open(&dir.path().join("lazy.db"));
    apply(&conn, &init_archive_table()).unwrap();
    let now = 1_800_000_000_000i64;
    let fetches = AtomicUsize::new(0);
    let retention = || {
        fetches.fetch_add(1, Ordering::SeqCst);
        Some(24u32)
    };

    throttled(&mut throttle, &conn, now, 5 * 60 * 1000, retention).unwrap();
    assert_eq!(fetches.load(Ordering::SeqCst), 1);

    for i in 1..=50 {
        throttled(&mut throttle, &conn, now + i * 1000, 5 * 60 * 1000, retention).unwrap();
    }
    assert_eq!(fetches.load(Ordering::SeqCst), 1);
}

#[test]
fn throttle_key_is_normalized() {
    let mut throttle = PruneThrottle::new();
    let dir = tempfile::tempdir().unwrap();
    let conn = open(&dir.path().join("case.db"));
    apply(&conn, &init_archive_table()).unwrap();
    let now = 1_800_000_000_000i64;

    assert!(throttled_at(&mut throttle, &conn, now, 5 * 60 * 1000, 24).unwrap().is_some());

    let lower = throttle_key("c:/data/Ärger.db", true);
    let upper = throttle_key("C:/DATA/ÄRGER.DB", true);
    assert_eq!(lower, "c:/data/ärger.db");
    assert_eq!(upper, lower);
    let mut shared = PruneThrottle::new();
    assert!(prune_archive_throttled_at(&mut shared, &lower, now, 5 * 60 * 1000, 24).is_some());
    assert!(prune_archive_throttled_at(&mut shared, &upper, now + 1000, 5 * 60 * 1000, 24).is_none());
    assert_ne!(throttle_key("k.db", false), throttle_key("K.DB", false));

    let mem = Connection::open_in_memory().unwrap();
    apply(&mem, &init_archive_table()).unwrap();
    assert!(throttled_at(&mut throttle, &mem, now, 5 * 60 * 1000, 24).unwrap().is_some());
}

#[test]
fn production_prune_skips_when_config_is_unreadable() {
    let mut throttle = PruneThrottle::new();
    let mut config = ConfigPath::new();
    let dir = tempfile::tempdir().unwrap();
    let conn = open(&dir.path().join("skip.db"));
    apply(&conn, &init_archive_table()).unwrap();
    put_record(&conn, &rec("老得该清了", 0, 1_000)).unwrap();
    let now = 1_800_000_000_000i64;
    let load = |path: String| match path.as_str() {
        "broken.toml" => ConfigLoad::Unreadable,
        "good.toml" => ConfigLoad::Loaded {
            archive_retention_hours: 24,
        },
        _ => panic!("the default file is not in effect"),
    };
    let key = throttle_key(conn.path().unwrap(), false);

    let hook = config_path_for_test(&mut config, "broken.toml");
    assert!(prune_archive_throttled(&mut throttle, &key, now, &config, "default.toml", load).is_none());
    assert_eq!(stored_events(&conn), 1);

    hook.restore(&mut config);
    let _hook = config_path_for_test(&mut config, "good.toml");
    let pruning = prune_archive_throttled(
        &mut throttle,
        &key,
        now + 10 * 60 * 1000,
        &config,
        "default.toml",
        load,
    )
    .unwrap();
    prune(&conn, pruning).unwrap();
    assert_eq!(stored_events(&conn), 0);
}

#[test]
fn a_failed_retention_lookup_backs_off_instead_of_burning_or_hogging_the_slot() {
    let mut throttle = PruneThrottle::new();
    let dir = tempfile::tempdir().unwrap();
    let conn = open(&dir.path().join("slot.db"));
    apply(&conn, &init_archive_table()).unwrap();
    put_record(&conn, &rec("老得该清了", 0, 1_000)).unwrap();
    let now = 1_800_000_000_000i64;

    assert_eq!(throttled(&mut throttle, &conn, now, 5 * 60 * 1000, || None).unwrap(), None);
    assert_eq!(throttled(&mut throttle, &conn, now + 1, 5 * 60 * 1000, || Some(24)).unwrap(), None);
    let retry = ARCHIVE_PRUNE_RETRY_MS;
    assert!(retry * 4 < 5 * 60 * 1000);
    assert_eq!(
        throttled(&mut throttle, &conn, now + retry + 1, 5 * 60 * 1000, || Some(24)).unwrap(),
        Some(1)
    );
}

#[test]
fn a_failed_delete_also_backs_off() {
    let mut throttle = PruneThrottle::new();
    let dir = tempfile::tempdir().unwrap();
    let conn = open(&dir.path().join("failed-delete.db"));
    let now = 1_800_000_000_000i64;
    let retry = ARCHIVE_PRUNE_RETRY_MS;

    assert!(throttled(&mut throttle, &conn, now, 5 * 60 * 1000, || Some(24)).is_err());

    apply(&conn, &init_archive_table()).unwrap();
    put_record(&conn, &rec("老得该清了", 0, 1_000)).unwrap();

    assert_eq!(throttled(&mut throttle, &conn, now + 1, 5 * 60 * 1000, || Some(24)).unwrap(), None);
    assert_eq!(
        throttled(&mut throttle, &conn, now + retry + 1, 5 * 60 * 1000, || Some(24)).unwrap(),
        Some(1)
    );
}

#[test]
fn unreadable_config_means_do_not_prune() {
    let at = |load: ConfigLoad| {
        configured_retention_hours_at("config.toml".to_string(), move |path: String| {
            assert_eq!(path, "config.toml");
            load
        })
    };
    assert_eq!(at(ConfigLoad::FileNotFound), Some(ARCHIVE_RETENTION_HOURS_DEFAULT));
    assert_eq!(
        at(ConfigLoad::Loaded {
            archive_retention_hours: 720
        }),
        Some(720)
    );
    assert_eq!(at(ConfigLoad::Unreadable), None);
}

#[test]
fn configured_retention_reads_the_file_in_effect() {
    let mut config = ConfigPath::new();
    let hours = |config: &ConfigPath| {
        configured_retention_hours(config, "default.toml", |path: String| ConfigLoad::Loaded {
            archive_retention_hours: path.len() as u32,
        })
    };
    assert_eq!(hours(&config), Some(12));
    assert_eq!(production_config_path(&config, "default.toml"), "default.toml");
    let guard = config_path_for_test(&mut config, "x.toml");
    assert_eq!(hours(&config), Some(6));
    assert_eq!(production_config_path(&config, "default.toml"), "x.toml");
    guard.restore(&mut config);
    assert_eq!(hours(&config), Some(12));
}

#[test]
fn a_throttle_keeps_databases_apart() {
    let mut throttle = PruneThrottle::new();
    assert!(throttle.may_prune("a.db", 1_000, ARCHIVE_PRUNE_THROTTLE_MS));
    assert!(throttle.may_prune("b.db", 1_000, ARCHIVE_PRUNE_THROTTLE_MS));
    assert!(!throttle.may_prune("a.db", 1_000 + ARCHIVE_PRUNE_THROTTLE_MS - 1, ARCHIVE_PRUNE_THROTTLE_MS));
    assert!(throttle.may_prune("a.db", 1_000 + ARCHIVE_PRUNE_THROTTLE_MS, ARCHIVE_PRUNE_THROTTLE_MS));
}

#[test]
fn the_cutoff_is_so_many_hours_back() {
    assert_eq!(retention_cutoff(1_800_000_000_000, 24), 1_800_000_000_000 - 86_400_000);
    assert_eq!(retention_cutoff(7, 0), 7);
}

#[test]
fn a_capped_prune_runs_no_more_than_its_batches() {
    let mut pruning = prune_older_than_capped(5_000, 2);
    for _ in 0..2 {
        assert!(pruning.next_batch().is_some());
        pruning.batch_done(ARCHIVE_PRUNE_BATCH);
    }
    assert!(pruning.next_batch().is_none());
    assert_eq!(pruning.deleted, 2 * ARCHIVE_PRUNE_BATCH);

    let mut short = prune_older_than_capped(5_000, 2);
    short.batch_done(3);
    assert!(short.next_batch().is_none());
    assert_eq!(short.deleted, 3);
    assert!(prune_older_than_capped(5_000, 0).next_batch().is_none());
}

#[test]
fn a_retention_that_must_not_be_asked_for_is_not() {
    let mut throttle = PruneThrottle::new();
    assert!(throttle.may_prune("a.db", 1_000_000, ARCHIVE_PRUNE_THROTTLE_MS));
    let run = prune_archive_throttled_with(
        &mut throttle,
        "a.db",
        1_000_001,
        ARCHIVE_PRUNE_THROTTLE_MS,
        || panic!("it is too soon"),
    );
    assert!(run.is_none());
}

#[test]
fn a_prune_that_ended_well_keeps_its_mark() {
    let mut throttle = PruneThrottle::new();
    for failed in [false, true] {
        let key = if failed { "b.db" } else { "a.db" };
        assert!(throttle.may_prune(key, 1_000_000, ARCHIVE_PRUNE_THROTTLE_MS));
        prune_ended(&mut throttle, key, 1_000_000, ARCHIVE_PRUNE_THROTTLE_MS, failed);
        let soon = 1_000_000 + ARCHIVE_PRUNE_RETRY_MS;
        assert!(!throttle.may_prune(key, soon - 1, ARCHIVE_PRUNE_THROTTLE_MS));
        assert_eq!(throttle.may_prune(key, soon, ARCHIVE_PRUNE_THROTTLE_MS), failed);
    }
}

#[test]
fn a_capped_prune_takes_what_its_batches_hold_and_changes_nothing_else() {
    let dir = tempfile::tempdir().unwrap();
    let conn = open(&dir.path().join("capped.db"));
    apply(&conn, &init_archive_table()).unwrap();
    let expired = ARCHIVE_PRUNE_BATCH as i64 + 5;
    conn.execute_batch("BEGIN").unwrap();
    for seq in 0..expired {
        assert!(put_record(&conn, &rec(&format!("old:{seq}"), seq, 1_000)).unwrap());
    }
    assert!(put_record(&conn, &rec("new", 0, 9_000)).unwrap());
    conn.execute_batch("COMMIT").unwrap();

    assert_eq!(prune(&conn, prune_older_than_capped(5_000, 1)).unwrap(), ARCHIVE_PRUNE_BATCH);
    let left: Vec<(String, i64)> = conn
        .prepare("SELECT source_native_id, ingest_time FROM raw_payload_archive ORDER BY ingest_time")
        .unwrap()
        .query_map([], |r| Ok((r.get(0)?, r.get(1)?)))
        .unwrap()
        .collect::<rusqlite::Result<_>>()
        .unwrap();
    assert_eq!(left.len(), 6);
    assert!(left[..5].iter().all(|(id, time)| id.starts_with("old:") && *time == 1_000));
    assert_eq!(left[5], ("new".to_string(), 9_000));

    assert_eq!(prune(&conn, prune_older_than_capped(5_000, 2)).unwrap(), 5);
    assert_eq!(stored_events(&conn), 1);
}

#[test]
fn a_mark_that_is_not_needed_is_not_computed() {
    let mut throttle = PruneThrottle::new();
    let pruning = prune_archive_throttled_with(&mut throttle, "a.db", i64::MAX, -1, || Some(1));
    assert_eq!(pruning.unwrap().cutoff, i64::MAX - 3_600_000);
    prune_ended(&mut throttle, "a.db", i64::MAX, -1, false);
    assert!(throttle.may_prune("a.db", i64::MAX, -1));
    assert!(!throttle.may_prune("a.db", i64::MAX, 1));
}
