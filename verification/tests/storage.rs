//! Rows, tables, indexes and searches on a real database.

use std::collections::hash_map::DefaultHasher;
use std::collections::BTreeSet;
use std::hash::{Hash, Hasher};
use std::path::Path;

use native_core::archive::{
    insert_record, prune_archive_now, prune_older_than, read_archive_since,
    read_archive_since_filtered, record_from_row, record_was_new, ARCHIVE_PRUNE_BATCH,
    ARCHIVE_RETENTION_HOURS_DEFAULT, PruneRun, RawPayloadRecord,
};
use native_core::catalog::{
    init_archive_table, init_capability_backlog_table, init_schema_meta_table,
    init_source_chat_index_table, init_source_chat_to_db_table, init_source_db_catalog_table,
    init_source_db_timerange_table, init_source_query_plans_table, insert_capability_backlog,
    insert_source_chat_index, insert_source_chat_to_db, insert_source_db_catalog,
    insert_source_db_timerange, insert_source_query_plan, V3CapabilityBacklog, V3SourceChatIndex,
    V3SourceChatToDb, V3SourceDbCatalog, V3SourceDbTimerange, V3SourceQueryPlan,
};
use native_core::chatroom::{
    delete_chatroom_member_events, init_chatroom_member_event_table, init_chatroom_member_table,
    init_chatroom_table, insert_chatroom, insert_chatroom_member_event, mark_chatroom_member_left,
    upsert_chatroom_member_add, V3Chatroom, V3ChatroomMember, V3ChatroomMemberEvent,
};
use native_core::contact::{
    init_person_alias_table, init_person_table, insert_person, insert_person_alias, V3Person,
    V3PersonAlias,
};
use native_core::favorite::{
    delete_favorite_media, init_favorite_media_table, init_favorite_table, init_favorite_tag_table,
    insert_favorite, insert_favorite_media, insert_favorite_tag, V3Favorite, V3FavoriteMedia,
    V3FavoriteTag,
};
use native_core::index::{
    archive_rebuilt_indexes, create_ingest_indexes, drop_ingest_indexes, ingest_rebuilt_indexes,
    message_rebuilt_indexes, reconcile_index, IndexLookup, Reconcile,
};
use native_core::message::{
    delete_message_mentions, ensure_message_app_columns, ensure_message_location_columns,
    init_message_app_table, init_message_location_table, init_message_media_table,
    init_message_mention_table, init_message_table, insert_message, insert_message_app,
    insert_message_location, insert_message_media, insert_message_mention, V3Message, V3MessageApp,
    V3MessageLocation, V3MessageMedia, V3MessageMention,
};
use native_core::meta::{
    ensure_thin_rowkey_current, get_l1_generation, get_meta, get_thin_account,
    get_thin_rowkey_version, get_thin_watermark, init_l1_generation, init_thin_meta,
    l1_generation_query, seed_schema_meta, set_meta, set_thin_account, set_thin_rowkey_version,
    set_thin_watermark, thin_account_query, thin_rowkey_version_query, thin_watermark_query,
    META_KEY_ACCOUNT_ID_SHA, META_KEY_APP_VERSION, META_KEY_CREATED_AT, META_KEY_MIGRATION_HISTORY,
    META_KEY_VERSION, MetaRead, SCHEMA_VERSION, THIN_ROWKEY_VERSION, ThinIndex,
};
use native_core::moment::{
    delete_moment_interactions, delete_moment_media, init_moment_interaction_table,
    init_moment_media_table, init_moment_table, insert_moment, insert_moment_interaction,
    insert_moment_media, V3Moment, V3MomentInteraction, V3MomentMedia,
};
use native_core::payment::{
    delete_group_pay_members, init_group_pay_member_table, insert_group_pay_member,
    V3GroupPayMember,
};
use native_core::plan::{init_l1_schema, Step};
use native_core::redact::{DebugRow, Wanted};
use native_core::search::{
    drop_message_fts_triggers, hit_from_row, init_message_fts_triggers, init_thin_fts,
    insert_thin_msg, message_fts_count, message_fts_exists, message_fts_lookup,
    message_fts_trigger_count, message_fts_triggers_exist, optimize_message_fts, optimize_thin_fts,
    rebuild_message_fts, search_messages, search_thin, thin_fts_has_source, thin_fts_source_lookup,
    MessageSearchHit,
};
use native_core::session::{init_session_table, insert_session, V3Session};
use native_core::sql::{Real, SqlValue, Statement};
use native_core::tables::{grown_tables, Table};
use native_core::thin::thin_rowid;
use native_core::wal::{
    pragma_wal, pragmas_after_wal, pragmas_before_wal, WalOutcome, WalRetry, WalStep,
};
use rusqlite::types::Value;
use rusqlite::{params_from_iter, Connection, OptionalExtension};

/// A value as the database takes it.
fn bound(value: &SqlValue) -> Value {
    match value {
        SqlValue::Null => Value::Null,
        SqlValue::Integer(n) => Value::Integer(*n),
        SqlValue::Real(r) => Value::Real(f64::from_bits(r.bits)),
        SqlValue::Text(t) => Value::Text(t.clone()),
        SqlValue::Blob(b) => Value::Blob(b.clone()),
    }
}

/// A value as the database gave it.
fn given(value: Value) -> SqlValue {
    match value {
        Value::Null => SqlValue::Null,
        Value::Integer(n) => SqlValue::Integer(n),
        Value::Real(r) => SqlValue::Real(float(r)),
        Value::Text(t) => SqlValue::Text(t),
        Value::Blob(b) => SqlValue::Blob(b),
    }
}

fn float(number: f64) -> Real {
    Real {
        bits: number.to_bits(),
    }
}

/// Runs a statement and says how many rows it changed.
fn run(conn: &Connection, statement: &Statement) -> rusqlite::Result<usize> {
    if statement.params.is_empty() {
        conn.execute_batch(&statement.sql)?;
        Ok(0)
    } else {
        conn.execute(&statement.sql, params_from_iter(statement.params.iter().map(bound)))
    }
}

fn all(conn: &Connection, statements: &[Statement]) -> rusqlite::Result<()> {
    for statement in statements {
        run(conn, statement)?;
    }
    Ok(())
}

/// Runs a query and gives all rows.
fn rows(conn: &Connection, statement: &Statement) -> rusqlite::Result<Vec<Vec<SqlValue>>> {
    let mut prepared = conn.prepare(&statement.sql)?;
    let width = prepared.column_count();
    let found = prepared.query_map(params_from_iter(statement.params.iter().map(bound)), |r| {
        let mut values = Vec::new();
        for i in 0..width {
            values.push(given(r.get::<_, Value>(i)?));
        }
        Ok(values)
    })?;
    found.collect()
}

fn columns_of(conn: &Connection, table: &str) -> rusqlite::Result<Vec<String>> {
    conn.prepare(&format!("PRAGMA table_info({table})"))?
        .query_map([], |r| r.get::<_, String>(1))?
        .collect()
}

/// Brings an index to its definition, and says whether it was made anew.
fn settle(conn: &Connection, name: &str, create_sql: &str) -> rusqlite::Result<bool> {
    let found: Option<Option<String>> = conn
        .query_row(
            "SELECT sql FROM sqlite_master WHERE type='index' AND name=?1",
            [name],
            |r| r.get(0),
        )
        .optional()?;
    let lookup = match found {
        None => IndexLookup::Absent,
        Some(None) => IndexLookup::Automatic,
        Some(Some(sql)) => IndexLookup::Defined(sql),
    };
    let todo = reconcile_index(name, create_sql, &lookup);
    match &todo {
        Reconcile::Keep => {}
        Reconcile::Create { run } => conn.execute_batch(run)?,
        Reconcile::Rebuild { run, undo } => {
            if let Err(error) = conn.execute_batch(run) {
                let _ = conn.execute_batch(undo);
                return Err(error);
            }
        }
    }
    Ok(todo.rebuilds())
}

/// Carries out the steps that make tables.
fn apply(conn: &Connection, steps: &[Step]) -> rusqlite::Result<()> {
    for step in steps {
        if let Some(statement) = step.statement() {
            run(conn, &statement)?;
        }
        match step {
            Step::Ensure(table) => {
                all(conn, &table.ensure_columns(&columns_of(conn, table.name())?))?;
            }
            Step::Reconcile(index) => {
                settle(conn, index.name, &index.create())?;
            }
            _ => {}
        }
    }
    Ok(())
}

fn open(path: &Path) -> Connection {
    let conn = Connection::open(path).unwrap();
    conn.execute_batch(pragmas_before_wal()).unwrap();
    let mut retry = WalRetry::start();
    let mode: String = conn.query_row(pragma_wal(), [], |r| r.get(0)).unwrap();
    assert_eq!(retry.set_wal_with_retry(&WalOutcome::Mode(mode)), WalStep::Done);
    conn.execute_batch(pragmas_after_wal()).unwrap();
    conn
}

fn open_inited() -> (tempfile::TempDir, Connection) {
    let dir = tempfile::tempdir().unwrap();
    let conn = open(&dir.path().join("l1.db"));
    apply(&conn, &init_archive_table()).unwrap();
    (dir, conn)
}

fn rec(native_id: &str, event_seq: i64, ingest_time: i64) -> RawPayloadRecord {
    RawPayloadRecord {
        account_id_sha: "acct_sha".to_string(),
        source: "message_5.db".to_string(),
        source_native_id: native_id.to_string(),
        event_type: "message".to_string(),
        event_action: "create".to_string(),
        event_seq,
        ingest_time,
        payload_json: r#"{"event_type":"message"}"#.to_string(),
    }
}

/// Stores an event and says whether it was new.
fn put_record(conn: &Connection, rec: &RawPayloadRecord) -> rusqlite::Result<bool> {
    Ok(record_was_new(run(conn, &insert_record(rec))?))
}

fn records(conn: &Connection, statement: &Statement) -> rusqlite::Result<Vec<(i64, RawPayloadRecord)>> {
    Ok(rows(conn, statement)?
        .iter()
        .map(|values| record_from_row(values).unwrap())
        .collect())
}

fn archive_since(conn: &Connection, after: i64) -> rusqlite::Result<Vec<(i64, RawPayloadRecord)>> {
    records(conn, &read_archive_since(after))
}

fn archive_since_filtered(
    conn: &Connection,
    after: i64,
    account: Option<&str>,
    event_type: Option<&str>,
    limit: i64,
) -> rusqlite::Result<Vec<(i64, RawPayloadRecord)>> {
    records(conn, &read_archive_since_filtered(after, account, event_type, limit))
}

/// Runs a prune to its end and says how many events it took out.
fn prune(conn: &Connection, mut pruning: PruneRun) -> rusqlite::Result<usize> {
    while let Some(batch) = pruning.next_batch() {
        let deleted = run(conn, &batch)?;
        pruning.batch_done(deleted);
    }
    Ok(pruning.deleted)
}

fn count(conn: &Connection, statement: &Statement) -> Option<i64> {
    conn.query_row(&statement.sql, [], |r| r.get(0)).ok()
}

fn rebuilt_message_fts(conn: &Connection) -> rusqlite::Result<i64> {
    all(conn, &rebuild_message_fts())?;
    conn.query_row(&message_fts_count().sql, [], |r| r.get(0))
}

fn triggers_exist(conn: &Connection) -> bool {
    message_fts_triggers_exist(count(conn, &message_fts_trigger_count()))
}

fn found_messages(
    conn: &Connection,
    query: &str,
    limit: i64,
    account: Option<&str>,
) -> rusqlite::Result<Vec<MessageSearchHit>> {
    let index_exists = message_fts_exists(count(conn, &message_fts_lookup()));
    let found = rows(conn, &search_messages(query, limit, account, index_exists))?;
    Ok(found.iter().map(|values| hit_from_row(values).unwrap()).collect())
}

fn found_thin(conn: &Connection, query: &str, limit: usize) -> rusqlite::Result<Vec<(String, String, String)>> {
    let text = |value: &SqlValue| match value {
        SqlValue::Text(t) => t.clone(),
        other => panic!("no text: {other:?}"),
    };
    match search_thin(query, limit) {
        None => Ok(Vec::new()),
        Some(statement) => Ok(rows(conn, &statement)?
            .iter()
            .map(|values| (text(&values[0]), text(&values[1]), text(&values[2])))
            .collect()),
    }
}

fn meta_read(conn: &Connection, statement: &Statement) -> rusqlite::Result<MetaRead> {
    match conn.query_row(
        &statement.sql,
        params_from_iter(statement.params.iter().map(bound)),
        |r| r.get::<_, String>(0),
    ) {
        Ok(value) => Ok(MetaRead::Value(value)),
        Err(rusqlite::Error::QueryReturnedNoRows) => Ok(MetaRead::NoRow),
        Err(error) if error.to_string().contains("no such table") => Ok(MetaRead::NoTable),
        Err(error) => Err(error),
    }
}

fn stored_meta(conn: &Connection, key: &str) -> rusqlite::Result<Option<String>> {
    match meta_read(conn, &get_meta(key))? {
        MetaRead::Value(value) => Ok(Some(value)),
        _ => Ok(None),
    }
}

fn thin_watermark(conn: &Connection) -> rusqlite::Result<Option<String>> {
    Ok(get_thin_watermark(meta_read(conn, &thin_watermark_query())?))
}

fn thin_account(conn: &Connection) -> rusqlite::Result<Option<String>> {
    Ok(get_thin_account(meta_read(conn, &thin_account_query())?))
}

fn thin_rowkey_version(conn: &Connection) -> rusqlite::Result<Option<String>> {
    Ok(get_thin_rowkey_version(meta_read(conn, &thin_rowkey_version_query())?))
}

fn migrate_thin_rowkey(conn: &Connection) -> rusqlite::Result<bool> {
    let version = thin_rowkey_version(conn)?;
    let index = if thin_fts_has_source(count(conn, &thin_fts_source_lookup())) {
        ThinIndex::Rows(conn.query_row("SELECT count(*) FROM thin_fts", [], |r| r.get(0))?)
    } else {
        ThinIndex::OldSchema
    };
    let plan = ensure_thin_rowkey_current(&version, index);
    let tx = conn.unchecked_transaction()?;
    all(&tx, &plan.statements)?;
    tx.commit()?;
    Ok(plan.migrated)
}

fn l1_generation(conn: &Connection) -> rusqlite::Result<Option<String>> {
    Ok(get_l1_generation(meta_read(conn, &l1_generation_query())?).unwrap())
}

/// Makes an archive, or refuses a database of another layout.
fn make_l1(conn: &Connection) -> rusqlite::Result<()> {
    apply(conn, &init_schema_meta_table())?;
    let stored = stored_meta(conn, META_KEY_VERSION)?;
    let has_message_table = !columns_of(conn, "message")?.is_empty();
    match init_l1_schema(&stored, has_message_table) {
        Ok(steps) => apply(conn, &steps),
        Err(mismatch) => Err(rusqlite::Error::SqliteFailure(
            rusqlite::ffi::Error::new(rusqlite::ffi::SQLITE_MISMATCH),
            Some(mismatch.message),
        )),
    }
}

/// What a row shows of itself in a log, with a short hash in place of each hidden text.
fn shown(row: &DebugRow) -> String {
    let made: Vec<String> = row
        .wanted()
        .iter()
        .map(|wanted| match wanted {
            Wanted::Nothing => String::new(),
            Wanted::Digest(text) => {
                let mut hasher = DefaultHasher::new();
                text.hash(&mut hasher);
                format!("{:08x}", hasher.finish() as u32)
            }
            Wanted::Rounded(number) => format!("{:.2}", f64::from_bits(number.bits)),
            Wanted::Exact(number) => format!("{:?}", f64::from_bits(number.bits)),
        })
        .collect();
    row.text(&made)
}

fn idx_exists(conn: &Connection, name: &str) -> i64 {
    conn.query_row(
        "SELECT count(*) FROM sqlite_master WHERE type='index' AND name=?1",
        [name],
        |r| r.get(0),
    )
    .unwrap()
}

fn user_index_count(conn: &Connection, tbl: &str) -> i64 {
    conn.query_row(
        "SELECT count(*) FROM sqlite_master WHERE type='index' AND tbl_name=?1 AND name NOT LIKE 'sqlite_autoindex_%'",
        [tbl],
        |r| r.get(0),
    )
    .unwrap()
}

#[test]
fn open_applies_wal_pragma() {
    let (_d, conn) = open_inited();
    let mode: String = conn.query_row("PRAGMA journal_mode", [], |r| r.get(0)).unwrap();
    assert_eq!(mode.to_lowercase(), "wal");
    let page: i64 = conn.query_row("PRAGMA page_size", [], |r| r.get(0)).unwrap();
    assert_eq!(page, 4096);
}

#[test]
fn init_is_idempotent() {
    let (_d, conn) = open_inited();

    apply(&conn, &init_archive_table()).unwrap();
    let n: i64 = conn
        .query_row(
            "SELECT count(*) FROM sqlite_master WHERE type='table' AND name='raw_payload_archive'",
            [],
            |r| r.get(0),
        )
        .unwrap();
    assert_eq!(n, 1);
}

#[test]
fn insert_then_query_back() {
    let (_d, conn) = open_inited();
    assert!(put_record(&conn, &rec("Msg_a:1", 100, 1000)).unwrap());
    let (et, seq, payload): (String, i64, String) = conn
        .query_row(
            "SELECT event_type, event_seq, payload_json FROM raw_payload_archive WHERE source_native_id='Msg_a:1'",
            [],
            |r| Ok((r.get(0)?, r.get(1)?, r.get(2)?)),
        )
        .unwrap();
    assert_eq!(et, "message");
    assert_eq!(seq, 100);
    assert_eq!(payload, r#"{"event_type":"message"}"#);
}

#[test]
fn replay_same_5tuple_deduped() {
    let (_d, conn) = open_inited();
    assert!(put_record(&conn, &rec("Msg_a:1", 100, 1000)).unwrap());

    let mut dup = rec("Msg_a:1", 100, 9999);
    dup.payload_json = r#"{"event_type":"message","x":1}"#.to_string();
    assert!(!put_record(&conn, &dup).unwrap());
    let count: i64 = conn
        .query_row("SELECT count(*) FROM raw_payload_archive", [], |r| r.get(0))
        .unwrap();
    assert_eq!(count, 1);

    let kept: i64 = conn
        .query_row("SELECT ingest_time FROM raw_payload_archive", [], |r| r.get(0))
        .unwrap();
    assert_eq!(kept, 1000);
}

#[test]
fn read_archive_since_filtered_by_account_type_limit() {
    let (_d, conn) = open_inited();

    let mut r = rec("Msg_a:1", 1, 1000);
    r.account_id_sha = "A".into();
    put_record(&conn, &r).unwrap();
    let mut r = rec("Msg_a:2", 2, 1001);
    r.account_id_sha = "A".into();
    put_record(&conn, &r).unwrap();
    let mut r = rec("Msg_b:1", 3, 1002);
    r.account_id_sha = "B".into();
    put_record(&conn, &r).unwrap();
    let mut r = rec("Ct_a:1", 4, 1003);
    r.account_id_sha = "A".into();
    r.event_type = "contact_update".into();
    put_record(&conn, &r).unwrap();

    let all = archive_since_filtered(&conn, 0, None, None, 100).unwrap();
    assert_eq!(all.len(), 4);
    assert!(all.windows(2).all(|w| w[0].0 < w[1].0));

    let a = archive_since_filtered(&conn, 0, Some("A"), None, 100).unwrap();
    assert_eq!(a.len(), 3);
    assert!(a.iter().all(|(_, r)| r.account_id_sha == "A"));

    let am = archive_since_filtered(&conn, 0, Some("A"), Some("message"), 100).unwrap();
    assert_eq!(am.len(), 2);
    assert!(am
        .iter()
        .all(|(_, r)| r.account_id_sha == "A" && r.event_type == "message"));

    let c = archive_since_filtered(&conn, 0, None, Some("contact_update"), 100).unwrap();
    assert_eq!(c.len(), 1);

    let lim = archive_since_filtered(&conn, 0, None, None, 2).unwrap();
    assert_eq!(lim.len(), 2);
    assert_eq!(lim[0].1.source_native_id, "Msg_a:1");
    assert_eq!(lim[1].1.source_native_id, "Msg_a:2");

    let after = archive_since_filtered(&conn, all[1].0, None, None, 100).unwrap();
    assert_eq!(after.len(), 2);
}

#[test]
fn different_seq_not_deduped() {
    let (_d, conn) = open_inited();
    assert!(put_record(&conn, &rec("Msg_a:1", 100, 1000)).unwrap());
    assert!(put_record(&conn, &rec("Msg_a:1", 200, 1000)).unwrap());
    let count: i64 = conn
        .query_row("SELECT count(*) FROM raw_payload_archive", [], |r| r.get(0))
        .unwrap();
    assert_eq!(count, 2);
}

#[test]
fn prune_archive_now_uses_the_given_window() {
    let conn = Connection::open_in_memory().unwrap();
    apply(&conn, &init_archive_table()).unwrap();
    let now = 1_800_000_000_000i64;
    let put = |t: i64, nid: &str| put_record(&conn, &rec(nid, 0, t)).unwrap();

    let hour: i64 = 60 * 60 * 1000;
    put(now - 25 * hour, "25 小时前(超窗)");
    put(now - 23 * hour, "23 小时前(窗内)");
    put(now - 1000, "一秒前");
    put(now, "此刻");

    let deleted = prune(&conn, prune_archive_now(now, ARCHIVE_RETENTION_HOURS_DEFAULT)).unwrap();
    assert_eq!(deleted, 1);

    let left: i64 = conn
        .query_row("SELECT count(*) FROM raw_payload_archive", [], |r| r.get(0))
        .unwrap();
    assert_eq!(left, 3);
}

#[test]
fn prune_archive_now_honors_a_non_default_window() {
    let conn = Connection::open_in_memory().unwrap();
    apply(&conn, &init_archive_table()).unwrap();
    let now = 1_800_000_000_000i64;
    let hour: i64 = 60 * 60 * 1000;
    put_record(&conn, &rec("48 小时前", 0, now - 48 * hour)).unwrap();
    put_record(&conn, &rec("此刻", 0, now)).unwrap();

    let deleted = prune(&conn, prune_archive_now(now, 72)).unwrap();
    assert_eq!(deleted, 0);

    let deleted = prune(&conn, prune_archive_now(now, 1)).unwrap();
    assert_eq!(deleted, 1);
}

#[test]
fn row_exactly_at_the_cutoff_survives() {
    let conn = Connection::open_in_memory().unwrap();
    apply(&conn, &init_archive_table()).unwrap();
    let now = 1_800_000_000_000i64;
    let hour: i64 = 60 * 60 * 1000;
    put_record(&conn, &rec("正好 24 小时整", 0, now - 24 * hour)).unwrap();
    put_record(&conn, &rec("再老一毫秒", 0, now - 24 * hour - 1)).unwrap();

    let deleted = prune(&conn, prune_archive_now(now, ARCHIVE_RETENTION_HOURS_DEFAULT)).unwrap();
    assert_eq!(deleted, 1);

    let left: String = conn
        .query_row("SELECT source_native_id FROM raw_payload_archive", [], |r| r.get(0))
        .unwrap();
    assert_eq!(left, "正好 24 小时整");
}

#[test]
fn prune_clears_everything_past_one_batch() {
    let conn = Connection::open_in_memory().unwrap();
    apply(&conn, &init_archive_table()).unwrap();
    let n_old = ARCHIVE_PRUNE_BATCH + 5;
    conn.execute_batch("BEGIN").unwrap();
    for i in 0..n_old {
        conn.execute(
            "INSERT INTO raw_payload_archive
             (account_id_sha, source, source_native_id, event_type, event_action, event_seq, ingest_time, payload_json)
             VALUES ('sha', 'src', ?1, 'message', 'insert', 1, 1000, '{}')",
            [i.to_string()],
        )
        .unwrap();
    }
    conn.execute_batch("COMMIT").unwrap();
    put_record(&conn, &rec("窗内", 0, 9_000)).unwrap();

    let deleted = prune(&conn, prune_older_than(5_000)).unwrap();
    assert_eq!(deleted, n_old);
    let left: i64 = conn
        .query_row("SELECT count(*) FROM raw_payload_archive", [], |r| r.get(0))
        .unwrap();
    assert_eq!(left, 1);
}

#[test]
fn error_records_are_never_pruned() {
    let conn = Connection::open_in_memory().unwrap();
    apply(&conn, &init_archive_table()).unwrap();
    let put = |nid: &str, action: &str, t: i64| {
        conn.execute(
            "INSERT INTO raw_payload_archive
             (account_id_sha, source, source_native_id, event_type, event_action, event_seq, ingest_time, payload_json)
             VALUES ('sha', 'src', ?1, 'system_event', ?2, 0, ?3, '{}')",
            (nid, action, t),
        )
        .unwrap();
    };
    put("解不出来那条", "error", 1_000);
    put("水位记录", "cursor_update", 1_000);
    put("普通消息", "create", 1_000);

    let deleted = prune(&conn, prune_older_than(5_000)).unwrap();
    assert_eq!(deleted, 2);

    let left: Vec<String> = conn
        .prepare("SELECT source_native_id FROM raw_payload_archive")
        .unwrap()
        .query_map([], |r| r.get(0))
        .unwrap()
        .map(Result::unwrap)
        .collect();
    assert_eq!(left, vec!["解不出来那条".to_string()]);
}

#[test]
fn prune_deletes_old_keeps_recent() {
    let (_d, conn) = open_inited();
    put_record(&conn, &rec("Msg_old:1", 1, 1_000)).unwrap();
    put_record(&conn, &rec("Msg_new:1", 2, 9_000)).unwrap();
    let deleted = prune(&conn, prune_older_than(5_000)).unwrap();
    assert_eq!(deleted, 1);
    let remaining: String = conn
        .query_row("SELECT source_native_id FROM raw_payload_archive", [], |r| r.get(0))
        .unwrap();
    assert_eq!(remaining, "Msg_new:1");
}

#[test]
fn read_archive_since_empty() {
    let (_d, conn) = open_inited();
    assert!(archive_since(&conn, 0).unwrap().is_empty());
}

#[test]
fn read_archive_since_zero_reads_all_in_order() {
    let (_d, conn) = open_inited();
    put_record(&conn, &rec("Msg_a:1", 10, 1000)).unwrap();
    put_record(&conn, &rec("Msg_b:1", 20, 2000)).unwrap();
    put_record(&conn, &rec("Msg_c:1", 30, 3000)).unwrap();
    let rows = archive_since(&conn, 0).unwrap();
    assert_eq!(rows.len(), 3);
    assert!(rows[0].0 < rows[1].0 && rows[1].0 < rows[2].0);

    let (_id, r0) = &rows[0];
    assert_eq!(r0.source_native_id, "Msg_a:1");
    assert_eq!(r0.event_seq, 10);
    assert_eq!(r0.ingest_time, 1000);
    assert_eq!(r0.event_type, "message");
    assert_eq!(r0.event_action, "create");
    assert_eq!(r0.payload_json, r#"{"event_type":"message"}"#);
}

#[test]
fn read_archive_since_cursor_skips_consumed() {
    let (_d, conn) = open_inited();
    put_record(&conn, &rec("Msg_a:1", 10, 1000)).unwrap();
    put_record(&conn, &rec("Msg_b:1", 20, 2000)).unwrap();
    put_record(&conn, &rec("Msg_c:1", 30, 3000)).unwrap();
    let first_id = archive_since(&conn, 0).unwrap()[0].0;
    let rest = archive_since(&conn, first_id).unwrap();
    assert_eq!(rest.len(), 2);
    assert_eq!(rest[0].1.source_native_id, "Msg_b:1");

    let last_id = rest[1].0;
    assert!(archive_since(&conn, last_id).unwrap().is_empty());
}

fn sample_msg(native_id: &str, status: i64) -> V3Message {
    V3Message {
        account_id_sha: "acct_sha".to_string(),
        source: "message_5.db".to_string(),
        source_native_id: native_id.to_string(),
        conv_id_sha: "conv_sha".to_string(),
        server_id: 9_876_543_210,
        server_seq: 100,
        origin_source: 2,
        upload_status: 0,
        download_status: 0,
        create_time: 1_700_000_000_000,
        sort_seq: 555,
        status,
        msg_type: 1,
        msg_type_name: "TEXT".to_string(),
        msg_sub_type: Some(0),
        msg_sub_type_name: None,
        local_type_raw: 1,
        sender_wxid_sha: "sender_sha".to_string(),
        is_chatroom: false,
        text_content_sha: "text_sha".to_string(),
        text_content_len: 12,
        raw_xml_present: false,
        decode_kind: "plain".to_string(),
        sys_type: None,
        account_id: "wxid_acct".to_string(),
        conv_id: "wxid_conv".to_string(),
        sender_wxid: "wxid_sender".to_string(),
        text_content: "你好啊在吗".to_string(),
    }
}

#[test]
fn fts_search_chinese_substring() {
    let (_d, conn) = open_inited();
    apply(&conn, &init_message_table()).unwrap();
    let mk = |id: &str, text: &str| V3Message {
        text_content: text.to_string(),
        ..sample_msg(id, 1)
    };
    run(&conn, &insert_message(&mk("Msg_a:1", "今天天气很欧美，出去玩"))).unwrap();
    run(&conn, &insert_message(&mk("Msg_a:2", "晚上一起吃火锅吗"))).unwrap();
    run(&conn, &insert_message(&mk("Msg_a:3", "欧美风格的照片挺好看"))).unwrap();

    let n = rebuilt_message_fts(&conn).unwrap();
    assert_eq!(n, 3);

    assert_eq!(found_messages(&conn, "欧美", 10, None).unwrap().len(), 2);

    let h = found_messages(&conn, "很欧美", 10, None).unwrap();
    assert_eq!(h.len(), 1);
    assert!(h[0].text_content.contains("很欧美"));

    assert_eq!(found_messages(&conn, "吃火锅", 10, None).unwrap().len(), 1);

    assert!(found_messages(&conn, "不存在的词", 10, None).unwrap().is_empty());

    assert_eq!(rebuilt_message_fts(&conn).unwrap(), 3);
}

#[test]
fn fts_search_without_index_falls_back_to_like() {
    let (_d, conn) = open_inited();
    apply(&conn, &init_message_table()).unwrap();
    run(&conn, &insert_message(&V3Message {
            text_content: "今天很欧美啊".to_string(),
            ..sample_msg("Msg_a:1", 1)
        }))
    .unwrap();

    let hits = found_messages(&conn, "很欧美", 10, None).unwrap();
    assert_eq!(hits.len(), 1);
}

#[test]
fn fts_triggers_incremental_maintain_over_replace() {
    let (_d, conn) = open_inited();
    apply(&conn, &init_message_table()).unwrap();
    all(&conn, &init_message_fts_triggers()).unwrap();
    let mk = |id: &str, text: &str| V3Message {
        text_content: text.to_string(),
        ..sample_msg(id, 1)
    };

    run(&conn, &insert_message(&mk("Msg_a:1", "今天吃火锅很开心"))).unwrap();
    assert_eq!(found_messages(&conn, "吃火锅", 10, None).unwrap().len(), 1);

    let old_rowid: i64 = conn
        .query_row("SELECT rowid FROM message WHERE source_native_id='Msg_a:1'", [], |r| {
            r.get(0)
        })
        .unwrap();
    run(&conn, &insert_message(&mk("Msg_a:1", "改吃烧烤味道也不错"))).unwrap();
    let new_rowid: i64 = conn
        .query_row("SELECT rowid FROM message WHERE source_native_id='Msg_a:1'", [], |r| {
            r.get(0)
        })
        .unwrap();
    assert_ne!(old_rowid, new_rowid);
    assert!(found_messages(&conn, "吃火锅", 10, None).unwrap().is_empty());

    let raw_old: Vec<i64> = conn
        .prepare("SELECT rowid FROM message_fts WHERE message_fts MATCH '吃火锅'")
        .unwrap()
        .query_map([], |r| r.get(0))
        .unwrap()
        .filter_map(std::result::Result::ok)
        .collect();
    assert!(raw_old.is_empty());
    assert_eq!(found_messages(&conn, "吃烧烤", 10, None).unwrap().len(), 1);

    conn.execute("DELETE FROM message WHERE source_native_id='Msg_a:1'", [])
        .unwrap();
    assert!(found_messages(&conn, "吃烧烤", 10, None).unwrap().is_empty());

    run(&conn, &insert_message(&mk("Msg_a:2", "另一条测试消息内容"))).unwrap();
    run(&conn, &insert_message(&mk("Msg_a:3", "第三条消息随便写点"))).unwrap();
    let msg_n: i64 = conn
        .query_row("SELECT count(*) FROM message", [], |r| r.get(0))
        .unwrap();
    let fts_n: i64 = conn
        .query_row("SELECT count(*) FROM message_fts", [], |r| r.get(0))
        .unwrap();
    assert_eq!(msg_n, fts_n);
}

#[test]
fn fts_triggers_drop_stops_maintenance() {
    let (_d, conn) = open_inited();
    apply(&conn, &init_message_table()).unwrap();
    all(&conn, &init_message_fts_triggers()).unwrap();
    assert!(triggers_exist(&conn));
    run(&conn, &drop_message_fts_triggers()).unwrap();
    assert!(!triggers_exist(&conn));

    let mk = |id: &str, text: &str| V3Message {
        text_content: text.to_string(),
        ..sample_msg(id, 1)
    };
    run(&conn, &insert_message(&mk("Msg_a:9", "禁触发器后插入的消息"))).unwrap();
    assert!(found_messages(&conn, "禁触发器", 10, None).unwrap().is_empty());
}

#[test]
fn thin_fts_insert_search_idempotent() {
    let (_d, conn) = open_inited();
    run(&conn, &init_thin_fts()).unwrap();
    let src = "message_0.db";
    all(&conn, &insert_thin_msg(1, src, "Msg_a:1", "今天一起吃火锅很开心")).unwrap();
    all(&conn, &insert_thin_msg(2, src, "Msg_a:2", "明天去爬山看风景")).unwrap();

    let hits = found_thin(&conn, "吃火锅", 10).unwrap();
    assert_eq!(hits.len(), 1);
    assert_eq!(hits[0].0, "Msg_a:1");
    assert_eq!(hits[0].1, src);
    assert!(hits[0].2.contains("吃火锅") || hits[0].2.contains('['));

    assert!(found_thin(&conn, "吃", 10).unwrap().is_empty());

    all(&conn, &insert_thin_msg(1, src, "Msg_a:1", "改成去逛街买东西")).unwrap();
    assert!(found_thin(&conn, "吃火锅", 10).unwrap().is_empty());
    assert_eq!(found_thin(&conn, "去逛街", 10).unwrap().len(), 1);
    let n: i64 = conn
        .query_row("SELECT count(*) FROM thin_fts", [], |r| r.get(0))
        .unwrap();
    assert_eq!(n, 2);
}

#[test]
fn thin_build_daemon_same_rowid_key_dedups() {
    let (_d, conn) = open_inited();
    run(&conn, &init_thin_fts()).unwrap();
    let (s0, s1) = ("message_0.db", "message_1.db");
    let anchor = "Msg_0021db3ef9c0aa11bb22cc33dd44ee55:42";

    all(&conn, &insert_thin_msg(thin_rowid(s0, anchor), s0, anchor, "一起去公园散步聊天")).unwrap();

    all(&conn, &insert_thin_msg(thin_rowid(s0, anchor), s0, anchor, "一起去公园散步聊天")).unwrap();
    let n: i64 = conn
        .query_row("SELECT count(*) FROM thin_fts", [], |r| r.get(0))
        .unwrap();
    assert_eq!(n, 1);
    assert_eq!(found_thin(&conn, "去公园", 10).unwrap().len(), 1);

    all(&conn, &insert_thin_msg(thin_rowid(s1, anchor), s1, anchor, "另一分片同锚的不同消息内容")).unwrap();
    let n2: i64 = conn
        .query_row("SELECT count(*) FROM thin_fts", [], |r| r.get(0))
        .unwrap();
    assert_eq!(n2, 2);
    assert_eq!(found_thin(&conn, "去公园", 10).unwrap().len(), 1);
    assert_eq!(found_thin(&conn, "另一分片", 10).unwrap().len(), 1);

    let both = found_thin(&conn, "散步聊天", 10).unwrap();
    let s1_hit = found_thin(&conn, "不同消息", 10).unwrap();
    assert_eq!(both.len(), 1);
    assert_eq!(both[0].1, s0);
    assert_eq!(s1_hit.len(), 1);
    assert_eq!(s1_hit[0].1, s1);
}

#[test]
fn thin_rowkey_version_guard_clears_stale_index() {
    let (_d, conn) = open_inited();
    run(&conn, &init_thin_meta()).unwrap();

    conn.execute_batch("CREATE VIRTUAL TABLE thin_fts USING fts5(msg_id UNINDEXED, text, tokenize='trigram');")
        .unwrap();
    conn.execute(
        "INSERT INTO thin_fts(rowid, msg_id, text) VALUES (1, 'Msg_a:1', '旧方案索引内容')",
        [],
    )
        .unwrap();
    run(&conn, &set_thin_watermark(r#"{"message_0.db|MSG":5}"#)).unwrap();
    assert!(thin_rowkey_version(&conn).unwrap().is_none());

    assert!(migrate_thin_rowkey(&conn).unwrap());

    all(&conn, &insert_thin_msg(thin_rowid("message_0.db", "Msg_b:2"), "message_0.db", "Msg_b:2", "新方案内容"))
    .unwrap();
    assert_eq!(found_thin(&conn, "新方案", 10).unwrap().len(), 1);
    assert!(found_thin(&conn, "旧方案", 10).unwrap().is_empty());
    assert!(thin_watermark(&conn).unwrap().is_none());
    assert_eq!(thin_rowkey_version(&conn).unwrap().as_deref(), Some(THIN_ROWKEY_VERSION));

    assert!(!migrate_thin_rowkey(&conn).unwrap());
    assert_eq!(found_thin(&conn, "新方案", 10).unwrap().len(), 1);

    let (_d2, c2) = open_inited();
    run(&c2, &init_thin_fts()).unwrap();
    run(&c2, &init_thin_meta()).unwrap();
    assert!(!migrate_thin_rowkey(&c2).unwrap());
    assert_eq!(thin_rowkey_version(&c2).unwrap().as_deref(), Some(THIN_ROWKEY_VERSION));

    let (_d3, c3) = open_inited();
    run(&c3, &init_thin_fts()).unwrap();
    run(&c3, &init_thin_meta()).unwrap();
    all(&c3, &insert_thin_msg(thin_rowid("message_0.db", "Msg_x:1"), "message_0.db", "Msg_x:1", "旧hash方案残留行"))
    .unwrap();
    run(&c3, &set_thin_rowkey_version("1")).unwrap();
    run(&c3, &set_thin_watermark(r#"{"message_0.db|MSG":9}"#)).unwrap();
    assert!(migrate_thin_rowkey(&c3).unwrap());
    assert!(found_thin(&c3, "旧hash", 10).unwrap().is_empty());
    assert!(thin_watermark(&c3).unwrap().is_none());
    assert_eq!(thin_rowkey_version(&c3).unwrap().as_deref(), Some(THIN_ROWKEY_VERSION));
}

#[test]
fn fts_optimize_no_crash_still_searchable() {
    let (_d, conn) = open_inited();
    apply(&conn, &init_message_table()).unwrap();
    all(&conn, &init_message_fts_triggers()).unwrap();
    let mk = |id: &str, text: &str| V3Message {
        text_content: text.to_string(),
        ..sample_msg(id, 1)
    };
    for i in 0..5 {
        run(&conn, &insert_message(&mk(&format!("Msg_a:{i}"), "今天吃火锅很开心"))).unwrap();
    }
    run(&conn, &optimize_message_fts()).unwrap();
    assert_eq!(found_messages(&conn, "吃火锅", 10, None).unwrap().len(), 5);

    run(&conn, &init_thin_fts()).unwrap();
    all(&conn, &insert_thin_msg(1, "message_0.db", "Msg_a:1", "另一条测试消息内容")).unwrap();
    run(&conn, &optimize_thin_fts()).unwrap();
    assert_eq!(found_thin(&conn, "测试消息", 10).unwrap().len(), 1);
}

#[test]
fn message_insert_then_query_back() {
    let (_d, conn) = open_inited();
    apply(&conn, &init_message_table()).unwrap();
    run(&conn, &insert_message(&sample_msg("Msg_a:1", 2))).unwrap();
    let (conv_sha, mtype, len, sub, sseq): (String, i64, i64, Option<i64>, i64) = conn
        .query_row(
            "SELECT conv_id_sha, msg_type, text_content_len, msg_sub_type, server_seq FROM message WHERE source_native_id='Msg_a:1'",
            [],
            |r| Ok((r.get(0)?, r.get(1)?, r.get(2)?, r.get(3)?, r.get(4)?)),
        )
        .unwrap();
    assert_eq!(conv_sha, "conv_sha");
    assert_eq!(mtype, 1);
    assert_eq!(len, 12);
    assert_eq!(sub, Some(0));
    assert_eq!(sseq, 100);
}

#[test]
fn message_upsert_same_pk_refreshes() {
    let (_d, conn) = open_inited();
    apply(&conn, &init_message_table()).unwrap();
    run(&conn, &insert_message(&sample_msg("Msg_a:1", 1))).unwrap();
    run(&conn, &insert_message(&sample_msg("Msg_a:1", 9))).unwrap();
    let count: i64 = conn
        .query_row("SELECT count(*) FROM message", [], |r| r.get(0))
        .unwrap();
    assert_eq!(count, 1);
    let status: i64 = conn.query_row("SELECT status FROM message", [], |r| r.get(0)).unwrap();
    assert_eq!(status, 9);
}

#[test]
fn message_nullable_fields() {
    let (_d, conn) = open_inited();
    apply(&conn, &init_message_table()).unwrap();
    let mut m = sample_msg("Msg_b:1", 1);
    m.msg_sub_type = None;
    m.msg_sub_type_name = None;
    run(&conn, &insert_message(&m)).unwrap();
    let (sub, subname): (Option<i64>, Option<String>) = conn
        .query_row(
            "SELECT msg_sub_type, msg_sub_type_name FROM message WHERE source_native_id='Msg_b:1'",
            [],
            |r| Ok((r.get(0)?, r.get(1)?)),
        )
        .unwrap();
    assert_eq!(sub, None);
    assert_eq!(subname, None);
}

#[test]
fn message_bool_columns_round_trip() {
    let (_d, conn) = open_inited();
    apply(&conn, &init_message_table()).unwrap();
    let mut m = sample_msg("Msg_c:1", 1);
    m.is_chatroom = true;
    m.raw_xml_present = true;
    run(&conn, &insert_message(&m)).unwrap();
    let (is_chatroom, raw_xml): (bool, bool) = conn
        .query_row(
            "SELECT is_chatroom, raw_xml_present FROM message WHERE source_native_id='Msg_c:1'",
            [],
            |r| Ok((r.get(0)?, r.get(1)?)),
        )
        .unwrap();
    assert!(is_chatroom);
    assert!(raw_xml);

    let col_count: i64 = conn
        .query_row("SELECT count(*) FROM pragma_table_info('message')", [], |r| r.get(0))
        .unwrap();
    assert_eq!(col_count, 28);
}

#[test]
fn old_23col_message_migrates_server_seq() {
    let (_d, conn) = open_inited();

    conn.execute_batch(
        "CREATE TABLE message (
            account_id_sha TEXT NOT NULL, source TEXT NOT NULL, source_native_id TEXT NOT NULL,
            conv_id_sha TEXT NOT NULL, server_id INTEGER NOT NULL, create_time INTEGER NOT NULL,
            sort_seq INTEGER NOT NULL, status INTEGER NOT NULL, msg_type INTEGER NOT NULL,
            msg_type_name TEXT NOT NULL, msg_sub_type INTEGER, msg_sub_type_name TEXT,
            local_type_raw INTEGER NOT NULL, sender_wxid_sha TEXT NOT NULL, is_chatroom INTEGER NOT NULL,
            text_content_sha TEXT NOT NULL, text_content_len INTEGER NOT NULL, raw_xml_present INTEGER NOT NULL,
            decode_kind TEXT NOT NULL, account_id TEXT NOT NULL, conv_id TEXT NOT NULL,
            sender_wxid TEXT NOT NULL, text_content TEXT NOT NULL,
            PRIMARY KEY (account_id_sha, source, source_native_id))",
    )
        .unwrap();

    conn.execute(
        "INSERT INTO message (account_id_sha, source, source_native_id, conv_id_sha, server_id,
            create_time, sort_seq, status, msg_type, msg_type_name, local_type_raw, sender_wxid_sha,
            is_chatroom, text_content_sha, text_content_len, raw_xml_present, decode_kind,
            account_id, conv_id, sender_wxid, text_content)
         VALUES ('acct','m.db','Msg_old:1','conv',111,1,1,1,1,'TEXT',1,'snd',0,'tc',3,0,'plain','a','c','s','hi')",
        [],
    )
        .unwrap();
    apply(&conn, &init_message_table()).unwrap();
    let cols: i64 = conn
        .query_row("SELECT count(*) FROM pragma_table_info('message')", [], |r| r.get(0))
        .unwrap();
    assert_eq!(cols, 28);

    let (old_seq, old_sys, old_origin, old_up, old_down): (i64, Option<String>, i64, i64, i64) = conn
        .query_row(
            "SELECT server_seq, sys_type, origin_source, upload_status, download_status \
             FROM message WHERE source_native_id='Msg_old:1'",
            [],
            |r| Ok((r.get(0)?, r.get(1)?, r.get(2)?, r.get(3)?, r.get(4)?)),
        )
        .unwrap();
    assert_eq!(old_seq, 0);
    assert_eq!(old_sys, None);
    assert_eq!((old_origin, old_up, old_down), (0, 0, 0));

    let mut m = sample_msg("Msg_new:1", 1);
    m.server_seq = 826;
    m.origin_source = 11;
    m.upload_status = 22;
    m.download_status = 33;
    run(&conn, &insert_message(&m)).unwrap();
    let (new_seq, new_origin, new_up, new_down): (i64, i64, i64, i64) = conn
        .query_row(
            "SELECT server_seq, origin_source, upload_status, download_status \
             FROM message WHERE source_native_id='Msg_new:1'",
            [],
            |r| Ok((r.get(0)?, r.get(1)?, r.get(2)?, r.get(3)?)),
        )
        .unwrap();
    assert_eq!(new_seq, 826);
    assert_eq!((new_origin, new_up, new_down), (11, 22, 33));
}

#[test]
fn message_plaintext_columns_round_trip() {
    let (_d, conn) = open_inited();
    apply(&conn, &init_message_table()).unwrap();
    let mut m = sample_msg("Msg_p:1", 1);
    m.account_id = "wxid_real_acct".to_string();
    m.conv_id = "wxid_real_conv".to_string();
    m.sender_wxid = "wxid_real_sender".to_string();
    m.text_content = "真实正文内容".to_string();
    run(&conn, &insert_message(&m)).unwrap();
    let (r_acct, r_conv, r_sender, r_text): (String, String, String, String) = conn
        .query_row(
            "SELECT account_id, conv_id, sender_wxid, text_content FROM message WHERE source_native_id='Msg_p:1'",
            [],
            |r| Ok((r.get(0)?, r.get(1)?, r.get(2)?, r.get(3)?)),
        )
        .unwrap();
    assert_eq!(r_acct, "wxid_real_acct");
    assert_eq!(r_conv, "wxid_real_conv");
    assert_eq!(r_sender, "wxid_real_sender");
    assert_eq!(r_text, "真实正文内容");
}

fn sample_person(native_id: &str, remark_len: i64) -> V3Person {
    V3Person {
        account_id_sha: "acct_sha".to_string(),
        source: "contact.db".to_string(),
        source_native_id: native_id.to_string(),
        username_sha: "user_sha".to_string(),
        account_id: "wxid_acct".to_string(),
        username: "wxid_user".to_string(),
        nick_name: "小明".to_string(),
        remark: Some("备注甲".to_string()),
        alias: None,
        nick_name_len: 6,
        remark_len,
        alias_len: 3,
        local_type: 1,
        is_in_chat_room: false,
        quan_pin: None,
        pin_yin_initial: None,
        remark_quan_pin: None,
        remark_pin_yin_initial: None,
        verify_flag: 0,
        delete_flag: 0,
        big_head_url: None,
        small_head_url: None,
        head_img_md5: None,
        description: None,
        flag: 0,
        chat_room_notify: 0,
        chat_room_type: 0,
        sex: 0,
        country: None,
        province: None,
        city: None,
        friend_source: 0,
        is_starred: false,
        is_collapsed: false,
        is_pinned: false,
        blocks_moments: false,
        hide_their_moments: false,
        chat_only: false,
        is_muted: false,
        signature: None,
        moments_cover_url: None,
        labels: None,
        friend_add_time: None,
        openim_company: None,
        openim_realname: None,
    }
}

#[test]
fn person_insert_then_query_back() {
    let (_d, conn) = open_inited();
    apply(&conn, &init_person_table()).unwrap();
    run(&conn, &insert_person(&sample_person("wxid_a", 4))).unwrap();
    let (user_sha, nick_len, ltype): (String, i64, i64) = conn
        .query_row(
            "SELECT username_sha, nick_name_len, local_type FROM person WHERE source_native_id='wxid_a'",
            [],
            |r| Ok((r.get(0)?, r.get(1)?, r.get(2)?)),
        )
        .unwrap();
    assert_eq!(user_sha, "user_sha");
    assert_eq!(nick_len, 6);
    assert_eq!(ltype, 1);
}

#[test]
fn person_upsert_same_pk_refreshes() {
    let (_d, conn) = open_inited();
    apply(&conn, &init_person_table()).unwrap();
    run(&conn, &insert_person(&sample_person("wxid_a", 4))).unwrap();
    run(&conn, &insert_person(&sample_person("wxid_a", 9))).unwrap();
    let count: i64 = conn.query_row("SELECT count(*) FROM person", [], |r| r.get(0)).unwrap();
    assert_eq!(count, 1);
    let remark: i64 = conn
        .query_row(
            "SELECT remark_len FROM person WHERE source_native_id='wxid_a'",
            [],
            |r| r.get(0),
        )
        .unwrap();
    assert_eq!(remark, 9);
}

#[test]
fn person_bool_and_column_count() {
    let (_d, conn) = open_inited();
    apply(&conn, &init_person_table()).unwrap();
    let mut p = sample_person("wxid_b", 2);
    p.is_in_chat_room = true;
    run(&conn, &insert_person(&p)).unwrap();
    let in_room: bool = conn
        .query_row(
            "SELECT is_in_chat_room FROM person WHERE source_native_id='wxid_b'",
            [],
            |r| r.get(0),
        )
        .unwrap();
    assert!(in_room);
    let col_count: i64 = conn
        .query_row("SELECT count(*) FROM pragma_table_info('person')", [], |r| r.get(0))
        .unwrap();
    assert_eq!(col_count, 45);
}

#[test]
fn person_pinyin_roundtrip_and_replace() {
    let (_d, conn) = open_inited();
    apply(&conn, &init_person_table()).unwrap();
    let mut p = sample_person("wxid_pinyin", 2);
    p.quan_pin = Some("xiaoming".to_string());
    p.pin_yin_initial = Some("XM".to_string());
    run(&conn, &insert_person(&p)).unwrap();
    let (qp, py): (Option<String>, Option<String>) = conn
        .query_row(
            "SELECT quan_pin, pin_yin_initial FROM person WHERE source_native_id='wxid_pinyin'",
            [],
            |r| Ok((r.get(0)?, r.get(1)?)),
        )
        .unwrap();
    assert_eq!(qp.as_deref(), Some("xiaoming"));
    assert_eq!(py.as_deref(), Some("XM"));

    p.quan_pin = Some("xiaomingming".to_string());
    run(&conn, &insert_person(&p)).unwrap();
    let qp2: Option<String> = conn
        .query_row(
            "SELECT quan_pin FROM person WHERE source_native_id='wxid_pinyin'",
            [],
            |r| r.get(0),
        )
        .unwrap();
    assert_eq!(qp2.as_deref(), Some("xiaomingming"));
}

#[test]
fn person_verify_delete_flag_roundtrip() {
    let (_d, conn) = open_inited();
    apply(&conn, &init_person_table()).unwrap();
    let mut p = sample_person("wxid_flag", 2);
    p.verify_flag = 2;
    p.delete_flag = 1;
    run(&conn, &insert_person(&p)).unwrap();
    let (vf, df): (i64, i64) = conn
        .query_row(
            "SELECT verify_flag, delete_flag FROM person WHERE source_native_id='wxid_flag'",
            [],
            |r| Ok((r.get(0)?, r.get(1)?)),
        )
        .unwrap();
    assert_eq!(vf, 2);
    assert_eq!(df, 1);
}

#[test]
fn person_head_columns_roundtrip() {
    let (_d, conn) = open_inited();
    apply(&conn, &init_person_table()).unwrap();
    let mut p = sample_person("wxid_head", 2);
    p.big_head_url = Some("https://wx.qlogo.cn/x/0".to_string());
    p.small_head_url = None;
    p.head_img_md5 = Some("abc123".to_string());
    run(&conn, &insert_person(&p)).unwrap();
    let (big, small, md5): (Option<String>, Option<String>, Option<String>) = conn
        .query_row(
            "SELECT big_head_url, small_head_url, head_img_md5 FROM person WHERE source_native_id='wxid_head'",
            [],
            |r| Ok((r.get(0)?, r.get(1)?, r.get(2)?)),
        )
        .unwrap();
    assert_eq!(big.as_deref(), Some("https://wx.qlogo.cn/x/0"));
    assert_eq!(small, None);
    assert_eq!(md5.as_deref(), Some("abc123"));
}

#[test]
fn person_batch5_columns_roundtrip() {
    let (_d, conn) = open_inited();
    apply(&conn, &init_person_table()).unwrap();
    let mut p = sample_person("wxid_b5", 2);
    p.description = Some("个性签名".to_string());
    p.flag = 5;
    p.chat_room_notify = 1;
    p.chat_room_type = 2;
    run(&conn, &insert_person(&p)).unwrap();
    let (desc, flag, notify, rtype): (Option<String>, i64, i64, i64) = conn
        .query_row(
            "SELECT description, flag, chat_room_notify, chat_room_type FROM person WHERE source_native_id='wxid_b5'",
            [],
            |r| Ok((r.get(0)?, r.get(1)?, r.get(2)?, r.get(3)?)),
        )
        .unwrap();
    assert_eq!(desc.as_deref(), Some("个性签名"));
    assert_eq!(flag, 5);
    assert_eq!(notify, 1);
    assert_eq!(rtype, 2);
}

#[test]
fn person_batch7_columns_roundtrip() {
    let (_d, conn) = open_inited();
    apply(&conn, &init_person_table()).unwrap();
    let mut p = sample_person("wxid_b7", 2);
    p.sex = 2;
    p.country = Some("CN".to_string());
    p.province = Some("Zhejiang".to_string());
    p.city = Some("Hangzhou".to_string());
    p.friend_source = 3;
    run(&conn, &insert_person(&p)).unwrap();
    let (sex, country, province, city, src): (i64, Option<String>, Option<String>, Option<String>, i64) = conn
        .query_row(
            "SELECT sex, country, province, city, friend_source FROM person WHERE source_native_id='wxid_b7'",
            [],
            |r| Ok((r.get(0)?, r.get(1)?, r.get(2)?, r.get(3)?, r.get(4)?)),
        )
        .unwrap();
    assert_eq!(sex, 2);
    assert_eq!(country.as_deref(), Some("CN"));
    assert_eq!(province.as_deref(), Some("Zhejiang"));
    assert_eq!(city.as_deref(), Some("Hangzhou"));
    assert_eq!(src, 3);
}

#[test]
fn person_batch_i_columns_roundtrip() {
    let (_d, conn) = open_inited();
    apply(&conn, &init_person_table()).unwrap();
    let mut p = sample_person("wxid_b8", 2);
    p.signature = Some("做自己 不太好也没关系".to_string());
    p.moments_cover_url = Some("http://shmmsns.qpic.cn/mmsns/xxx/0".to_string());
    run(&conn, &insert_person(&p)).unwrap();
    let (sig, cover): (Option<String>, Option<String>) = conn
        .query_row(
            "SELECT signature, moments_cover_url FROM person WHERE source_native_id='wxid_b8'",
            [],
            |r| Ok((r.get(0)?, r.get(1)?)),
        )
        .unwrap();
    assert_eq!(sig.as_deref(), Some("做自己 不太好也没关系"));
    assert_eq!(cover.as_deref(), Some("http://shmmsns.qpic.cn/mmsns/xxx/0"));
}

#[test]
fn person_labels_column_roundtrip() {
    let (_d, conn) = open_inited();
    apply(&conn, &init_person_table()).unwrap();
    let mut p = sample_person("wxid_lbl", 2);
    p.labels = Some("老板,客户".to_string());
    run(&conn, &insert_person(&p)).unwrap();
    let labels: Option<String> = conn
        .query_row("SELECT labels FROM person WHERE source_native_id='wxid_lbl'", [], |r| {
            r.get(0)
        })
        .unwrap();
    assert_eq!(labels.as_deref(), Some("老板,客户"));
}

#[test]
fn person_friend_add_time_roundtrip() {
    let (_d, conn) = open_inited();
    apply(&conn, &init_person_table()).unwrap();

    let mut p = sample_person("wxid_at", 2);
    p.friend_add_time = Some(1_698_674_704);
    run(&conn, &insert_person(&p)).unwrap();
    let at: Option<i64> = conn
        .query_row(
            "SELECT friend_add_time FROM person WHERE source_native_id='wxid_at'",
            [],
            |r| r.get(0),
        )
        .unwrap();
    assert_eq!(at, Some(1_698_674_704));

    run(&conn, &insert_person(&sample_person("wxid_none", 2))).unwrap();
    let none_at: Option<i64> = conn
        .query_row(
            "SELECT friend_add_time FROM person WHERE source_native_id='wxid_none'",
            [],
            |r| r.get(0),
        )
        .unwrap();
    assert_eq!(none_at, None);
}

#[test]
fn old_person_schema_migrates_pinyin_columns() {
    let (_d, conn) = open_inited();
    conn.execute_batch(
        "CREATE TABLE person (
            account_id_sha TEXT NOT NULL, source TEXT NOT NULL, source_native_id TEXT NOT NULL,
            username_sha TEXT NOT NULL, account_id TEXT NOT NULL, username TEXT NOT NULL,
            nick_name TEXT NOT NULL, remark TEXT, alias TEXT, nick_name_len INTEGER NOT NULL,
            remark_len INTEGER NOT NULL, alias_len INTEGER NOT NULL, local_type INTEGER NOT NULL,
            is_in_chat_room INTEGER NOT NULL,
            PRIMARY KEY (account_id_sha, source, username_sha))",
    )
        .unwrap();
    apply(&conn, &init_person_table()).unwrap();
    let cols: i64 = conn
        .query_row("SELECT count(*) FROM pragma_table_info('person')", [], |r| r.get(0))
        .unwrap();
    assert_eq!(cols, 45);
    let mut p = sample_person("wxid_mig", 2);
    p.quan_pin = Some("migrated".to_string());
    run(&conn, &insert_person(&p)).unwrap();
    let qp: Option<String> = conn
        .query_row(
            "SELECT quan_pin FROM person WHERE source_native_id='wxid_mig'",
            [],
            |r| r.get(0),
        )
        .unwrap();
    assert_eq!(qp.as_deref(), Some("migrated"));
}

#[test]
fn old_20col_person_migrates_head_columns() {
    let (_d, conn) = open_inited();
    conn.execute_batch(
        "CREATE TABLE person (
            account_id_sha TEXT NOT NULL, source TEXT NOT NULL, source_native_id TEXT NOT NULL,
            username_sha TEXT NOT NULL, account_id TEXT NOT NULL, username TEXT NOT NULL,
            nick_name TEXT NOT NULL, remark TEXT, alias TEXT, nick_name_len INTEGER NOT NULL,
            remark_len INTEGER NOT NULL, alias_len INTEGER NOT NULL, local_type INTEGER NOT NULL,
            is_in_chat_room INTEGER NOT NULL,
            quan_pin TEXT, pin_yin_initial TEXT, remark_quan_pin TEXT, remark_pin_yin_initial TEXT,
            verify_flag INTEGER NOT NULL DEFAULT 0, delete_flag INTEGER NOT NULL DEFAULT 0,
            PRIMARY KEY (account_id_sha, source, username_sha))",
    )
        .unwrap();
    apply(&conn, &init_person_table()).unwrap();
    let cols: i64 = conn
        .query_row("SELECT count(*) FROM pragma_table_info('person')", [], |r| r.get(0))
        .unwrap();
    assert_eq!(cols, 45);
    let mut p = sample_person("wxid_mig2", 2);
    p.big_head_url = Some("https://wx.qlogo.cn/x/0".to_string());
    run(&conn, &insert_person(&p)).unwrap();
    let big: Option<String> = conn
        .query_row(
            "SELECT big_head_url FROM person WHERE source_native_id='wxid_mig2'",
            [],
            |r| r.get(0),
        )
        .unwrap();
    assert_eq!(big.as_deref(), Some("https://wx.qlogo.cn/x/0"));
}

#[test]
fn old_23col_person_migrates_batch5_columns() {
    let (_d, conn) = open_inited();
    conn.execute_batch(
        "CREATE TABLE person (
            account_id_sha TEXT NOT NULL, source TEXT NOT NULL, source_native_id TEXT NOT NULL,
            username_sha TEXT NOT NULL, account_id TEXT NOT NULL, username TEXT NOT NULL,
            nick_name TEXT NOT NULL, remark TEXT, alias TEXT, nick_name_len INTEGER NOT NULL,
            remark_len INTEGER NOT NULL, alias_len INTEGER NOT NULL, local_type INTEGER NOT NULL,
            is_in_chat_room INTEGER NOT NULL,
            quan_pin TEXT, pin_yin_initial TEXT, remark_quan_pin TEXT, remark_pin_yin_initial TEXT,
            verify_flag INTEGER NOT NULL DEFAULT 0, delete_flag INTEGER NOT NULL DEFAULT 0,
            big_head_url TEXT, small_head_url TEXT, head_img_md5 TEXT,
            PRIMARY KEY (account_id_sha, source, username_sha))",
    )
        .unwrap();
    apply(&conn, &init_person_table()).unwrap();
    let cols: i64 = conn
        .query_row("SELECT count(*) FROM pragma_table_info('person')", [], |r| r.get(0))
        .unwrap();
    assert_eq!(cols, 45);
    let mut p = sample_person("wxid_mig5", 2);
    p.description = Some("签名".to_string());
    p.flag = 7;
    run(&conn, &insert_person(&p)).unwrap();
    let (desc, flag): (Option<String>, i64) = conn
        .query_row(
            "SELECT description, flag FROM person WHERE source_native_id='wxid_mig5'",
            [],
            |r| Ok((r.get(0)?, r.get(1)?)),
        )
        .unwrap();
    assert_eq!(desc.as_deref(), Some("签名"));
    assert_eq!(flag, 7);
}

#[test]
fn old_27col_person_migrates_batch7_columns() {
    let (_d, conn) = open_inited();
    conn.execute_batch(
        "CREATE TABLE person (
            account_id_sha TEXT NOT NULL, source TEXT NOT NULL, source_native_id TEXT NOT NULL,
            username_sha TEXT NOT NULL, account_id TEXT NOT NULL, username TEXT NOT NULL,
            nick_name TEXT NOT NULL, remark TEXT, alias TEXT, nick_name_len INTEGER NOT NULL,
            remark_len INTEGER NOT NULL, alias_len INTEGER NOT NULL, local_type INTEGER NOT NULL,
            is_in_chat_room INTEGER NOT NULL,
            quan_pin TEXT, pin_yin_initial TEXT, remark_quan_pin TEXT, remark_pin_yin_initial TEXT,
            verify_flag INTEGER NOT NULL DEFAULT 0, delete_flag INTEGER NOT NULL DEFAULT 0,
            big_head_url TEXT, small_head_url TEXT, head_img_md5 TEXT,
            description TEXT, flag INTEGER NOT NULL DEFAULT 0,
            chat_room_notify INTEGER NOT NULL DEFAULT 0, chat_room_type INTEGER NOT NULL DEFAULT 0,
            PRIMARY KEY (account_id_sha, source, username_sha))",
    )
        .unwrap();
    apply(&conn, &init_person_table()).unwrap();
    let cols: i64 = conn
        .query_row("SELECT count(*) FROM pragma_table_info('person')", [], |r| r.get(0))
        .unwrap();
    assert_eq!(cols, 45);
    let mut p = sample_person("wxid_mig7", 2);
    p.sex = 2;
    p.province = Some("Zhejiang".to_string());
    run(&conn, &insert_person(&p)).unwrap();
    let (sex, prov): (i64, Option<String>) = conn
        .query_row(
            "SELECT sex, province FROM person WHERE source_native_id='wxid_mig7'",
            [],
            |r| Ok((r.get(0)?, r.get(1)?)),
        )
        .unwrap();
    assert_eq!(sex, 2);
    assert_eq!(prov.as_deref(), Some("Zhejiang"));
}

#[test]
fn person_anchor_collision_keeps_both() {
    let (_d, conn) = open_inited();
    apply(&conn, &init_person_table()).unwrap();
    let mut a = sample_person("Contact_dead", 4);
    a.username_sha = "user_a_sha".to_string();
    let mut b = sample_person("Contact_dead", 7);
    b.username_sha = "user_b_sha".to_string();
    run(&conn, &insert_person(&a)).unwrap();
    run(&conn, &insert_person(&b)).unwrap();
    let count: i64 = conn.query_row("SELECT count(*) FROM person", [], |r| r.get(0)).unwrap();
    assert_eq!(count, 2);
}

#[test]
fn person_plaintext_columns_round_trip() {
    let (_d, conn) = open_inited();
    apply(&conn, &init_person_table()).unwrap();
    let mut p = sample_person("wxid_a", 4);
    p.account_id = "wxid_real_acct".to_string();
    p.username = "wxid_real_user".to_string();
    p.nick_name = "真实昵称".to_string();
    p.remark = Some("真实备注".to_string());
    run(&conn, &insert_person(&p)).unwrap();
    let (acc, user, nick, remark): (String, String, String, Option<String>) = conn
        .query_row(
            "SELECT account_id, username, nick_name, remark FROM person WHERE username_sha='user_sha'",
            [],
            |r| Ok((r.get(0)?, r.get(1)?, r.get(2)?, r.get(3)?)),
        )
        .unwrap();
    assert_eq!(acc, "wxid_real_acct");
    assert_eq!(user, "wxid_real_user");
    assert_eq!(nick, "真实昵称");
    assert_eq!(remark.as_deref(), Some("真实备注"));
}

fn sample_favorite(native_id: &str, server_id: i64, fav_type: i64) -> V3Favorite {
    V3Favorite {
        account_id_sha: "acct_sha".to_string(),
        source: "favorite.db".to_string(),
        source_native_id: native_id.to_string(),
        server_id,
        local_id: 156,
        fav_type,
        update_time: 1_779_354_334,
        from_user_sha: "fromusr_sha".to_string(),
        account_id: "wxid_acct".to_string(),
        from_user: "wxid_source".to_string(),
        real_chat_name: Some("wxid_realsender".to_string()),
        source_id: Some("hash_abc".to_string()),
        content_len: 2048,
        note_text: if fav_type == 18 {
            Some("笔记正文示例".to_string())
        } else {
            None
        },
    }
}

#[test]
fn favorite_insert_then_query_back() {
    let (_d, conn) = open_inited();
    apply(&conn, &init_favorite_table()).unwrap();
    run(&conn, &insert_favorite(&sample_favorite("Favorite_156", 329, 14))).unwrap();
    let (sid, ftype, ut, fromusr, realchat, srcid, clen): (
        i64,
        i64,
        i64,
        String,
        Option<String>,
        Option<String>,
        i64,
    ) = conn
        .query_row(
            "SELECT server_id, fav_type, update_time, from_user, real_chat_name, source_id, content_len \
             FROM favorite WHERE source_native_id='Favorite_156'",
            [],
            |r| {
                Ok((
                    r.get(0)?,
                    r.get(1)?,
                    r.get(2)?,
                    r.get(3)?,
                    r.get(4)?,
                    r.get(5)?,
                    r.get(6)?,
                ))
            },
        )
        .unwrap();
    assert_eq!(sid, 329);
    assert_eq!(ftype, 14);
    assert_eq!(ut, 1_779_354_334);
    assert_eq!(fromusr, "wxid_source");
    assert_eq!(realchat.as_deref(), Some("wxid_realsender"));
    assert_eq!(srcid.as_deref(), Some("hash_abc"));
    assert_eq!(clen, 2048);
}

#[test]
fn favorite_upsert_and_column_count() {
    let (_d, conn) = open_inited();
    apply(&conn, &init_favorite_table()).unwrap();
    run(&conn, &insert_favorite(&sample_favorite("Favorite_1", 1, 14))).unwrap();
    let mut f2 = sample_favorite("Favorite_1", 1, 14);
    f2.update_time = 9_999;
    run(&conn, &insert_favorite(&f2)).unwrap();
    let n: i64 = conn
        .query_row("SELECT count(*) FROM favorite", [], |r| r.get(0))
        .unwrap();
    assert_eq!(n, 1);
    let ut: i64 = conn
        .query_row(
            "SELECT update_time FROM favorite WHERE source_native_id='Favorite_1'",
            [],
            |r| r.get(0),
        )
        .unwrap();
    assert_eq!(ut, 9_999);
    let cols: i64 = conn
        .query_row("SELECT count(*) FROM pragma_table_info('favorite')", [], |r| r.get(0))
        .unwrap();
    assert_eq!(cols, 14);
}

#[test]
fn favorite_debug_no_raw_leak() {
    let dbg = shown(&sample_favorite("Favorite_1", 1, 14).debug_row());
    for raw in ["wxid_source", "wxid_realsender", "wxid_acct"] {
        assert!(!dbg.contains(raw));
    }
    assert!(dbg.contains("from_user_sha8"));
}

fn sample_fav_media(native_id: &str, seq: i64, md5: &str, dt: i64) -> V3FavoriteMedia {
    V3FavoriteMedia {
        account_id_sha: "acct_sha".to_string(),
        source: "favorite.db".to_string(),
        source_native_id: native_id.to_string(),
        seq,
        fav_server_id: 329,
        account_id: "wxid_acct".to_string(),
        data_type: dt,
        media_md5: md5.to_string(),
        media_size: 12_345,
        data_fmt: Some("jpg".to_string()),
    }
}

#[test]
fn favorite_media_multi_row_roundtrip_and_delete() {
    let (_d, conn) = open_inited();
    apply(&conn, &init_favorite_media_table()).unwrap();
    run(&conn, &insert_favorite_media(&sample_fav_media("Favorite_9", 0, &"a".repeat(32), 2))).unwrap();
    run(&conn, &insert_favorite_media(&sample_fav_media("Favorite_9", 1, &"b".repeat(32), 8))).unwrap();
    run(&conn, &insert_favorite_media(&sample_fav_media("Favorite_7", 0, &"c".repeat(32), 2))).unwrap();
    let n9: i64 = conn
        .query_row(
            "SELECT count(*) FROM favorite_media WHERE source_native_id='Favorite_9'",
            [],
            |r| r.get(0),
        )
        .unwrap();
    assert_eq!(n9, 2);
    let (md5, dt): (String, i64) = conn
        .query_row(
            "SELECT media_md5, data_type FROM favorite_media WHERE source_native_id='Favorite_9' AND seq=1",
            [],
            |r| Ok((r.get(0)?, r.get(1)?)),
        )
        .unwrap();
    assert_eq!(md5, "b".repeat(32));
    assert_eq!(dt, 8);

    run(&conn, &delete_favorite_media("acct_sha", "favorite.db", "Favorite_9")).unwrap();
    let after9: i64 = conn
        .query_row(
            "SELECT count(*) FROM favorite_media WHERE source_native_id='Favorite_9'",
            [],
            |r| r.get(0),
        )
        .unwrap();
    let after7: i64 = conn
        .query_row(
            "SELECT count(*) FROM favorite_media WHERE source_native_id='Favorite_7'",
            [],
            |r| r.get(0),
        )
        .unwrap();
    assert_eq!(after9, 0);
    assert_eq!(after7, 1);
    let cols: i64 = conn
        .query_row("SELECT count(*) FROM pragma_table_info('favorite_media')", [], |r| {
            r.get(0)
        })
        .unwrap();
    assert_eq!(cols, 10);
    let dbg = shown(&sample_fav_media("Favorite_9", 0, &"a".repeat(32), 2).debug_row());
    assert!(!dbg.contains("wxid_acct"));
    assert!(dbg.contains("media_md5"));
}

fn sample_favorite_tag(native_id: &str, fav_server_id: i64, name: &str) -> V3FavoriteTag {
    V3FavoriteTag {
        account_id_sha: "acct_sha".to_string(),
        source: "favorite.db".to_string(),
        source_native_id: native_id.to_string(),
        tag_server_id: 1,
        tag_local_id: 1,
        seq: 824_874_138,
        fav_server_id,
        fav_local_id: 92,
        op_code: 1,
        tag_name_len: i64::try_from(name.chars().count()).unwrap(),
        account_id: "wxid_acct".to_string(),
        tag_name: name.to_string(),
    }
}

#[test]
fn favorite_tag_insert_then_query_back() {
    let (_d, conn) = open_inited();
    apply(&conn, &init_favorite_tag_table()).unwrap();
    run(&conn, &insert_favorite_tag(&sample_favorite_tag("FavoriteTag_1_254", 254, "押金"))).unwrap();
    let (tag_sid, fav_sid, name, op): (i64, i64, String, i64) = conn
        .query_row(
            "SELECT tag_server_id, fav_server_id, tag_name, op_code FROM favorite_tag WHERE source_native_id='FavoriteTag_1_254'",
            [],
            |r| Ok((r.get(0)?, r.get(1)?, r.get(2)?, r.get(3)?)),
        )
        .unwrap();
    assert_eq!(tag_sid, 1);
    assert_eq!(fav_sid, 254);
    assert_eq!(name, "押金");
    assert_eq!(op, 1);
    let cols: i64 = conn
        .query_row("SELECT count(*) FROM pragma_table_info('favorite_tag')", [], |r| {
            r.get(0)
        })
        .unwrap();
    assert_eq!(cols, 12);
}

#[test]
fn favorite_tag_debug_no_raw_leak() {
    let dbg = shown(&sample_favorite_tag("FavoriteTag_1_254", 254, "押金").debug_row());
    assert!(!dbg.contains("押金"));
    assert!(!dbg.contains("wxid_acct"));
    assert!(dbg.contains("tag_name_sha8"));
}

fn sample_moment(native_id: &str, tid: i64, mtype: i64) -> V3Moment {
    V3Moment {
        account_id_sha: "acct_sha".to_string(),
        source: "sns.db".to_string(),
        source_native_id: native_id.to_string(),
        tid,
        author_sha: "author_sha".to_string(),
        create_time: 1_779_546_990,
        moment_type: mtype,
        account_id: "wxid_acct".to_string(),
        author: "wxid_author".to_string(),
        author_nickname: Some("发布者昵称".to_string()),
        content_desc: "动态正文".to_string(),
        content_desc_len: 4,
        source_user: None,
        location_label: Some("台州市".to_string()),
        latitude: Some(float(121.382_042)),
        longitude: Some(float(28.576_089_9)),
        title: None,
        link_url: None,
        media_count: 1,
        like_count: 3,
        comment_count: 0,
        source_nickname: None,
        is_bidirectional_fan: 0,
        is_rich_text: 0,
        public_user_name: None,
        app_name: None,
        content_len: 2170,
    }
}

#[test]
fn moment_insert_then_query_back() {
    let (_d, conn) = open_inited();
    apply(&conn, &init_moment_table()).unwrap();
    run(&conn, &insert_moment(&sample_moment("Sns_-3518821952372526549", -3_518_821_952_372_526_549, 1)))
    .unwrap();
    let (tid, mtype, author, desc, lat): (i64, i64, String, String, f64) = conn
        .query_row(
            "SELECT tid, moment_type, author, content_desc, latitude FROM moment WHERE source_native_id='Sns_-3518821952372526549'",
            [],
            |r| Ok((r.get(0)?, r.get(1)?, r.get(2)?, r.get(3)?, r.get(4)?)),
        )
        .unwrap();
    assert_eq!(tid, -3_518_821_952_372_526_549);
    assert_eq!(mtype, 1);
    assert_eq!(author, "wxid_author");
    assert_eq!(desc, "动态正文");
    assert!((lat - 121.382_042).abs() < 1e-6);
    let cols: i64 = conn
        .query_row("SELECT count(*) FROM pragma_table_info('moment')", [], |r| r.get(0))
        .unwrap();
    assert_eq!(cols, 27);
}

#[test]
fn moment_upsert_refreshes_like_count() {
    let (_d, conn) = open_inited();
    apply(&conn, &init_moment_table()).unwrap();
    run(&conn, &insert_moment(&sample_moment("Sns_1", 1, 1))).unwrap();
    let mut m2 = sample_moment("Sns_1", 1, 1);
    m2.like_count = 99;
    run(&conn, &insert_moment(&m2)).unwrap();
    let n: i64 = conn.query_row("SELECT count(*) FROM moment", [], |r| r.get(0)).unwrap();
    assert_eq!(n, 1);
    let likes: i64 = conn
        .query_row(
            "SELECT like_count FROM moment WHERE source_native_id='Sns_1'",
            [],
            |r| r.get(0),
        )
        .unwrap();
    assert_eq!(likes, 99);
}

#[test]
fn moment_null_location_ok() {
    let (_d, conn) = open_inited();
    apply(&conn, &init_moment_table()).unwrap();
    let mut m = sample_moment("Sns_2", 2, 2);
    m.location_label = None;
    m.latitude = None;
    m.longitude = None;
    run(&conn, &insert_moment(&m)).unwrap();
    let lat: Option<f64> = conn
        .query_row("SELECT latitude FROM moment WHERE source_native_id='Sns_2'", [], |r| {
            r.get(0)
        })
        .unwrap();
    assert_eq!(lat, None);
}

#[test]
fn moment_debug_no_raw_leak() {
    let dbg = shown(&sample_moment("Sns_1", 1, 1).debug_row());
    for raw in ["wxid_author", "动态正文", "发布者昵称", "wxid_acct"] {
        assert!(!dbg.contains(raw));
    }
    assert!(dbg.contains("author_sha8") && dbg.contains("content_desc_sha8"));
}

fn sample_moment_media(native_id: &str, seq: i64) -> V3MomentMedia {
    V3MomentMedia {
        account_id_sha: "acct_sha".to_string(),
        source: "sns.db".to_string(),
        source_native_id: native_id.to_string(),
        media_seq: seq,
        media_type: 2,
        account_id: "wxid_acct".to_string(),
        media_id: Some("111".to_string()),
        url: Some("http://full/0".to_string()),
        thumb_url: Some("http://thumb/150".to_string()),
        md5: Some("MD5A".to_string()),
        video_md5: None,
        url_key: Some("K1".to_string()),
        enc_idx: Some("1".to_string()),
        token: Some("TK1".to_string()),
        enc_key: None,
        width: 1920,
        height: 2560,
        total_size: 491_021,
        video_duration: None,
    }
}

#[test]
fn moment_media_insert_then_query_back() {
    let (_d, conn) = open_inited();
    apply(&conn, &init_moment_media_table()).unwrap();
    run(&conn, &insert_moment_media(&sample_moment_media("Sns_1", 0))).unwrap();
    let (mtype, url, md5, key, w): (i64, String, String, String, i64) = conn
        .query_row(
            "SELECT media_type, url, md5, url_key, width FROM moment_media WHERE source_native_id='Sns_1' AND media_seq=0",
            [],
            |r| Ok((r.get(0)?, r.get(1)?, r.get(2)?, r.get(3)?, r.get(4)?)),
        )
        .unwrap();
    assert_eq!(mtype, 2);
    assert_eq!(url, "http://full/0");
    assert_eq!(md5, "MD5A");
    assert_eq!(key, "K1");
    assert_eq!(w, 1920);
    let cols: i64 = conn
        .query_row("SELECT count(*) FROM pragma_table_info('moment_media')", [], |r| {
            r.get(0)
        })
        .unwrap();
    assert_eq!(cols, 19);
}

#[test]
fn delete_moment_media_removes_all_rows() {
    let (_d, conn) = open_inited();
    apply(&conn, &init_moment_media_table()).unwrap();
    for seq in 0..3 {
        run(&conn, &insert_moment_media(&sample_moment_media("Sns_1", seq))).unwrap();
    }
    run(&conn, &insert_moment_media(&sample_moment_media("Sns_2", 0))).unwrap();
    assert_eq!(
        conn.query_row("SELECT count(*) FROM moment_media", [], |r| r.get::<_, i64>(0))
            .unwrap(),
        4
    );
    run(&conn, &delete_moment_media("acct_sha", "sns.db", "Sns_1")).unwrap();
    assert_eq!(conn.query_row("SELECT count(*) FROM moment_media", [], |r| r.get::<_, i64>(0))
            .unwrap(), 1);
}

#[test]
fn moment_media_debug_no_raw_leak() {
    let dbg = shown(&sample_moment_media("Sns_1", 0).debug_row());
    for raw in ["http://full/0", "http://thumb/150", "MD5A", "K1", "wxid_acct"] {
        assert!(!dbg.contains(raw));
    }
    assert!(dbg.contains("url_sha8") && dbg.contains("url_key_sha8"));
}

fn sample_interaction(native_id: &str, seq: i64, kind: &str, is_comment: bool) -> V3MomentInteraction {
    V3MomentInteraction {
        account_id_sha: "acct_sha".to_string(),
        source: "sns.db".to_string(),
        source_native_id: native_id.to_string(),
        interaction_seq: seq,
        kind: kind.to_string(),
        type_raw: if is_comment { 2 } else { 1 },
        from_user_sha: "from_sha".to_string(),
        account_id: "wxid_acct".to_string(),
        from_user: Some("wxid_from".to_string()),
        from_nickname: Some("互动人昵称".to_string()),
        content: if is_comment {
            Some("谢谢大家".to_string())
        } else {
            None
        },
        comment_id: Some("20".to_string()),
        ref_username: if is_comment {
            Some("wxid_replied".to_string())
        } else {
            None
        },
        ref_comment_id: Some("0".to_string()),
        create_time: 1_700_000_002,
    }
}

#[test]
fn moment_interaction_insert_then_query_back() {
    let (_d, conn) = open_inited();
    apply(&conn, &init_moment_interaction_table()).unwrap();
    run(&conn, &insert_moment_interaction(&sample_interaction("Sns_1", 0, "comment", true))).unwrap();
    let (kind, fu, content, refu): (String, String, String, String) = conn
        .query_row(
            "SELECT kind, from_user, content, ref_username FROM moment_interaction WHERE source_native_id='Sns_1' AND interaction_seq=0",
            [],
            |r| Ok((r.get(0)?, r.get(1)?, r.get(2)?, r.get(3)?)),
        )
        .unwrap();
    assert_eq!(kind, "comment");
    assert_eq!(fu, "wxid_from");
    assert_eq!(content, "谢谢大家");
    assert_eq!(refu, "wxid_replied");
    let cols: i64 = conn
        .query_row(
            "SELECT count(*) FROM pragma_table_info('moment_interaction')",
            [],
            |r| r.get(0),
        )
        .unwrap();
    assert_eq!(cols, 15);
}

#[test]
fn moment_interaction_like_content_null() {
    let (_d, conn) = open_inited();
    apply(&conn, &init_moment_interaction_table()).unwrap();
    run(&conn, &insert_moment_interaction(&sample_interaction("Sns_1", 0, "like", false))).unwrap();
    let content: Option<String> = conn
        .query_row(
            "SELECT content FROM moment_interaction WHERE source_native_id='Sns_1'",
            [],
            |r| r.get(0),
        )
        .unwrap();
    assert_eq!(content, None);
}

#[test]
fn delete_moment_interactions_removes_all() {
    let (_d, conn) = open_inited();
    apply(&conn, &init_moment_interaction_table()).unwrap();
    for seq in 0..3 {
        run(&conn, &insert_moment_interaction(&sample_interaction("Sns_1", seq, "like", false))).unwrap();
    }
    run(&conn, &insert_moment_interaction(&sample_interaction("Sns_2", 0, "like", false))).unwrap();
    run(&conn, &delete_moment_interactions("acct_sha", "sns.db", "Sns_1")).unwrap();
    assert_eq!(conn.query_row("SELECT count(*) FROM moment_interaction", [], |r| r.get::<_, i64>(0))
            .unwrap(), 1);
}

#[test]
fn moment_interaction_debug_no_raw_leak() {
    let dbg = shown(&sample_interaction("Sns_1", 0, "comment", true).debug_row());
    for raw in ["wxid_from", "谢谢大家", "互动人昵称", "wxid_replied", "wxid_acct"] {
        assert!(!dbg.contains(raw));
    }
    assert!(dbg.contains("from_user_sha8") && dbg.contains("content_sha8"));
}

#[test]
fn message_app_insert_then_query_back() {
    let (_d, conn) = open_inited();
    apply(&conn, &init_message_app_table()).unwrap();
    let app = V3MessageApp {
        account_id_sha: "acct_sha".to_string(),
        source: "message_0.db".to_string(),
        source_native_id: "Msg_a:1".to_string(),
        app_type: 51,
        media_count: 7,
        account_id: "wxid_acct".to_string(),
        title: None,
        source_name: None,
        url: Some("http://v.qq/x".to_string()),
        app_username: Some("v2_abc".to_string()),
        app_nickname: Some("视频号作者".to_string()),
        app_pagepath: None,

        file_size: 0,
        file_ext: None,
        file_md5: None,
        transfer_fee: None,
        transfer_direction: 0,
        transfer_txid: None,
        refer_svrid: None,
        refer_type: 0,
        refer_content: None,
        forward_item_count: 0,
        red_envelope_wish: None,
        red_envelope_count: 0,
        group_pay_amount: None,
        group_pay_bill_no: None,
        music_desc: None,
        gift_wish: None,
        gift_sku: None,
        live_status: 0,
        live_desc: None,
        pay_scene_text: None,
    };
    run(&conn, &insert_message_app(&app)).unwrap();

    let xfer = V3MessageApp {
        app_type: 2000,
        source_native_id: "Msg_a:2".to_string(),
        transfer_fee: Some("￥10.00".to_string()),
        transfer_direction: 3,
        transfer_txid: Some("100050001".to_string()),
        ..app.clone()
    };
    run(&conn, &insert_message_app(&xfer)).unwrap();

    let hb = V3MessageApp {
        app_type: 2001,
        source_native_id: "Msg_a:3".to_string(),
        red_envelope_wish: Some("恭喜发财大吉大利".to_string()),
        red_envelope_count: 16,
        pay_scene_text: Some("微信红包".to_string()),
        ..app.clone()
    };
    run(&conn, &insert_message_app(&hb)).unwrap();

    let gp = V3MessageApp {
        app_type: 2001,
        source_native_id: "Msg_a:4".to_string(),
        group_pay_amount: Some("应付¥8.00".to_string()),
        group_pay_bill_no: Some("100600001aabbcc".to_string()),
        ..app.clone()
    };
    run(&conn, &insert_message_app(&gp)).unwrap();
    let (at, mc, nick, uname): (i64, i64, Option<String>, Option<String>) = conn
        .query_row(
            "SELECT app_type, media_count, app_nickname, app_username FROM message_app WHERE source_native_id='Msg_a:1'",
            [],
            |r| Ok((r.get(0)?, r.get(1)?, r.get(2)?, r.get(3)?)),
        )
        .unwrap();
    assert_eq!(at, 51);
    assert_eq!(mc, 7);
    assert_eq!(nick.as_deref(), Some("视频号作者"));
    assert_eq!(uname.as_deref(), Some("v2_abc"));
    let (fee, dir): (Option<String>, i64) = conn
        .query_row(
            "SELECT transfer_fee, transfer_direction FROM message_app WHERE source_native_id='Msg_a:2'",
            [],
            |r| Ok((r.get(0)?, r.get(1)?)),
        )
        .unwrap();
    assert_eq!(fee.as_deref(), Some("￥10.00"));
    assert_eq!(dir, 3);
    let (wish, num, scene): (Option<String>, i64, Option<String>) = conn
        .query_row(
            "SELECT red_envelope_wish, red_envelope_count, pay_scene_text FROM message_app WHERE source_native_id='Msg_a:3'",
            [],
            |r| Ok((r.get(0)?, r.get(1)?, r.get(2)?)),
        )
        .unwrap();
    assert_eq!(wish.as_deref(), Some("恭喜发财大吉大利"));
    assert_eq!(num, 16);
    assert_eq!(scene.as_deref(), Some("微信红包"));
    let (amt, bill): (Option<String>, Option<String>) = conn
        .query_row(
            "SELECT group_pay_amount, group_pay_bill_no FROM message_app WHERE source_native_id='Msg_a:4'",
            [],
            |r| Ok((r.get(0)?, r.get(1)?)),
        )
        .unwrap();
    assert_eq!(amt.as_deref(), Some("应付¥8.00"));
    assert_eq!(bill.as_deref(), Some("100600001aabbcc"));
    let cols: i64 = conn
        .query_row("SELECT count(*) FROM pragma_table_info('message_app')", [], |r| {
            r.get(0)
        })
        .unwrap();
    assert_eq!(cols, 32);
}

#[test]
fn message_app_migrate_old_12col_table() {
    let (_d, conn) = open_inited();

    conn.execute_batch(
        "DROP TABLE IF EXISTS message_app;
         CREATE TABLE message_app (
            account_id_sha TEXT NOT NULL, source TEXT NOT NULL, source_native_id TEXT NOT NULL,
            app_type INTEGER NOT NULL, media_count INTEGER NOT NULL, account_id TEXT NOT NULL,
            title TEXT, source_name TEXT, url TEXT, app_username TEXT, app_nickname TEXT, app_pagepath TEXT,
            PRIMARY KEY (account_id_sha, source, source_native_id));",
    )
        .unwrap();
    let names = |c: &Connection| -> Vec<String> {
        c.prepare("PRAGMA table_info(message_app)")
            .unwrap()
            .query_map([], |r| r.get::<_, String>(1))
            .unwrap()
            .collect::<rusqlite::Result<_>>()
            .unwrap()
    };

    let (_d2, fresh) = open_inited();
    apply(&fresh, &init_message_app_table()).unwrap();
    let fresh_names = names(&fresh);
    assert_eq!(fresh_names.len(), 32);
    assert_eq!(names(&conn).len(), 12);
    all(&conn, &ensure_message_app_columns(&names(&conn))).unwrap();
    assert_eq!(names(&conn), fresh_names);
    all(&conn, &ensure_message_app_columns(&names(&conn))).unwrap();
    assert_eq!(names(&conn), fresh_names);
}

#[test]
fn message_media_insert_then_query_back() {
    let (_d, conn) = open_inited();
    apply(&conn, &init_message_media_table()).unwrap();
    let m = V3MessageMedia {
        account_id_sha: "acct_sha".to_string(),
        source: "message_0.db".to_string(),
        source_native_id: "Msg_v:9".to_string(),
        media_kind: "video".to_string(),
        file_size: 936_153,
        play_length: 5,
        account_id: "wxid_acct".to_string(),
        md5: Some("abe2d4b7c2648a9deaf2c177503d759c".to_string()),
        aes_key: Some("d1c637737484578e1806134d3233e2f2".to_string()),
        cdn_url: Some("3057020100vid".to_string()),
        thumb_url: Some("3057020100thumb".to_string()),
        extra_id: Some("newmd5val".to_string()),
    };
    run(&conn, &insert_message_media(&m)).unwrap();
    let (kind, sz, pl, md5): (String, i64, i64, Option<String>) = conn
        .query_row(
            "SELECT media_kind, file_size, play_length, md5 FROM message_media WHERE source_native_id='Msg_v:9'",
            [],
            |r| Ok((r.get(0)?, r.get(1)?, r.get(2)?, r.get(3)?)),
        )
        .unwrap();
    assert_eq!(kind, "video");
    assert_eq!(sz, 936_153);
    assert_eq!(pl, 5);
    assert_eq!(md5.as_deref(), Some("abe2d4b7c2648a9deaf2c177503d759c"));
    let cols: i64 = conn
        .query_row("SELECT count(*) FROM pragma_table_info('message_media')", [], |r| {
            r.get(0)
        })
        .unwrap();
    assert_eq!(cols, 12);
}

#[test]
fn message_location_insert_then_query_back() {
    let (_d, conn) = open_inited();
    apply(&conn, &init_message_location_table()).unwrap();
    let m = V3MessageLocation {
        account_id_sha: "acct_sha".to_string(),
        source: "message_0.db".to_string(),
        source_native_id: "Msg_loc:7".to_string(),
        scale: 15,
        account_id: "wxid_acct".to_string(),
        latitude: float(28.386_938),
        longitude: float(121.395_126),
        label: Some("浙江省台州市".to_string()),
        poiname: Some("台州万达广场".to_string()),
        poiid: Some("qqmap_123".to_string()),
        maptype: 0,
        adcode: Some("331000".to_string()),
        cityname: Some("台州市".to_string()),
    };
    run(&conn, &insert_message_location(&m)).unwrap();
    let (lat, lng, poi): (f64, f64, Option<String>) = conn
        .query_row(
            "SELECT latitude, longitude, poiname FROM message_location WHERE source_native_id='Msg_loc:7'",
            [],
            |r| Ok((r.get(0)?, r.get(1)?, r.get(2)?)),
        )
        .unwrap();
    assert!((lat - 28.386_938).abs() < 1e-6);
    assert!((lng - 121.395_126).abs() < 1e-6);
    assert_eq!(poi.as_deref(), Some("台州万达广场"));
    let cols: i64 = conn
        .query_row("SELECT count(*) FROM pragma_table_info('message_location')", [], |r| {
            r.get(0)
        })
        .unwrap();
    assert_eq!(cols, 13);
}

#[test]
fn message_location_migrate_old_10col_table() {
    let (_d, conn) = open_inited();

    conn.execute_batch(
        "DROP TABLE IF EXISTS message_location;
         CREATE TABLE message_location (
            account_id_sha TEXT NOT NULL, source TEXT NOT NULL, source_native_id TEXT NOT NULL,
            scale INTEGER NOT NULL, account_id TEXT NOT NULL, latitude REAL NOT NULL,
            longitude REAL NOT NULL, label TEXT, poiname TEXT, poiid TEXT,
            PRIMARY KEY (account_id_sha, source, source_native_id));",
    )
        .unwrap();
    let names = |c: &Connection| -> Vec<String> {
        c.prepare("PRAGMA table_info(message_location)")
            .unwrap()
            .query_map([], |r| r.get::<_, String>(1))
            .unwrap()
            .collect::<rusqlite::Result<_>>()
            .unwrap()
    };

    let (_d2, fresh) = open_inited();
    apply(&fresh, &init_message_location_table()).unwrap();
    let fresh_names = names(&fresh);
    assert_eq!(fresh_names.len(), 13);
    assert_eq!(names(&conn).len(), 10);
    all(&conn, &ensure_message_location_columns(&names(&conn))).unwrap();
    assert_eq!(names(&conn), fresh_names);
    all(&conn, &ensure_message_location_columns(&names(&conn))).unwrap();
    assert_eq!(names(&conn), fresh_names);

    run(&conn, &insert_message_location(&V3MessageLocation {
            account_id_sha: "a".to_string(),
            source: "m.db".to_string(),
            source_native_id: "Msg:1".to_string(),
            scale: 15,
            account_id: "wxid".to_string(),
            latitude: float(1.0),
            longitude: float(2.0),
            label: None,
            poiname: None,
            poiid: None,
            maptype: 0,
            adcode: Some("330100".to_string()),
            cityname: Some("杭州市".to_string()),
        }))
    .unwrap();
}

#[test]
fn message_location_debug_no_raw_leak() {
    let m = V3MessageLocation {
        account_id_sha: "acct_sha".to_string(),
        source: "m.db".to_string(),
        source_native_id: "Msg:1".to_string(),
        scale: 15,
        account_id: "wxid_acct".to_string(),
        latitude: float(28.386_938),
        longitude: float(121.395_126),
        label: Some("浙江省台州市黄岩区".to_string()),
        poiname: Some("台州万达广场".to_string()),
        poiid: Some("qqmap_123".to_string()),
        maptype: 0,
        adcode: None,
        cityname: None,
    };
    let dbg = shown(&m.debug_row());
    for raw in ["台州万达广场", "浙江省台州市黄岩区", "28.386938", "121.395126"] {
        assert!(!dbg.contains(raw));
    }
    assert!(dbg.contains("poiname_sha8") && dbg.contains("28.39"));
}

#[test]
fn message_media_debug_no_raw_leak() {
    let m = V3MessageMedia {
        account_id_sha: "acct_sha".to_string(),
        source: "m.db".to_string(),
        source_native_id: "Msg:1".to_string(),
        media_kind: "emoji".to_string(),
        file_size: 100,
        play_length: 0,
        account_id: "wxid_acct".to_string(),
        md5: Some("13f91eb9c2068544ee81a1a88a8b5e79".to_string()),
        aes_key: Some("secretaeskey00000000000000000000".to_string()),
        cdn_url: Some("http://wxapp.tc.qq.com/x".to_string()),
        thumb_url: None,
        extra_id: None,
    };
    let dbg = shown(&m.debug_row());
    for raw in [
        "13f91eb9c2068544ee81a1a88a8b5e79",
        "secretaeskey",
        "wxapp.tc.qq.com",
        "wxid_acct",
    ] {
        assert!(!dbg.contains(raw));
    }
    assert!(dbg.contains("md5_sha8"));
    assert!(dbg.contains("media_kind: \"emoji\""));
}

#[test]
fn message_mention_insert_then_query_back() {
    let (_d, conn) = open_inited();
    apply(&conn, &init_message_mention_table()).unwrap();
    let m = V3MessageMention {
        account_id_sha: "acct_sha".to_string(),
        source: "message_0.db".to_string(),
        source_native_id: "Msg_a:5".to_string(),
        mentioned_wxid_sha: "wxid_at_sha".to_string(),
        is_at_all: false,
        account_id: "wxid_acct".to_string(),
        mentioned_wxid: "wxid_at_target".to_string(),
    };
    run(&conn, &insert_message_mention(&m)).unwrap();
    let (wx, at): (String, bool) = conn
        .query_row(
            "SELECT mentioned_wxid, is_at_all FROM message_mention WHERE source_native_id='Msg_a:5'",
            [],
            |r| Ok((r.get(0)?, r.get(1)?)),
        )
        .unwrap();
    assert_eq!(wx, "wxid_at_target");
    assert!(!at);
    let cols: i64 = conn
        .query_row("SELECT count(*) FROM pragma_table_info('message_mention')", [], |r| {
            r.get(0)
        })
        .unwrap();
    assert_eq!(cols, 7);

    let dbg = shown(&m.debug_row());
    assert!(!dbg.contains("wxid_at_target"));
    assert!(!dbg.contains("wxid_acct"));
    assert!(dbg.contains("mentioned_wxid_sha8"));
}

#[test]
fn delete_message_mentions_removes_all_rows() {
    let (_d, conn) = open_inited();
    apply(&conn, &init_message_mention_table()).unwrap();
    for w in ["a", "b", "c"] {
        run(&conn, &insert_message_mention(&V3MessageMention {
                account_id_sha: "acct_sha".to_string(),
                source: "m.db".to_string(),
                source_native_id: "Msg:1".to_string(),
                mentioned_wxid_sha: format!("sha_{w}"),
                is_at_all: false,
                account_id: "wxid_acct".to_string(),
                mentioned_wxid: format!("wxid_{w}"),
            }))
        .unwrap();
    }
    assert_eq!(
        conn.query_row("SELECT count(*) FROM message_mention", [], |r| r.get::<_, i64>(0))
            .unwrap(),
        3
    );
    run(&conn, &delete_message_mentions("acct_sha", "m.db", "Msg:1")).unwrap();
    assert_eq!(conn.query_row("SELECT count(*) FROM message_mention", [], |r| r.get::<_, i64>(0))
            .unwrap(), 0);
}

fn sample_member_event(seq: i64, wxid: Option<&str>, kind: &str) -> V3ChatroomMemberEvent {
    V3ChatroomMemberEvent {
        account_id_sha: "acct_sha".to_string(),
        source: "message_0.db".to_string(),
        source_native_id: format!("Msg_a:5:{seq}"),
        msg_native_id: "Msg_a:5".to_string(),
        conv_id_sha: "conv_sha".to_string(),
        member_wxid_sha: wxid.map(|_| "mem_sha".to_string()),
        event_kind: kind.to_string(),
        inviter_wxid_sha: Some("inv_sha".to_string()),
        event_time: 1_699_000,
        account_id: "wxid_acct".to_string(),
        conv_id: "12345@chatroom".to_string(),
        member_wxid: wxid.map(str::to_string),
        member_nickname: Some("春风".to_string()),
        inviter_wxid: Some("wxid_inviter".to_string()),
    }
}

#[test]
fn chatroom_member_event_insert_then_query_back() {
    let (_d, conn) = open_inited();
    apply(&conn, &init_chatroom_member_event_table()).unwrap();
    let e = sample_member_event(0, Some("wxid_member_x"), "join");
    run(&conn, &insert_chatroom_member_event(&e)).unwrap();
    let (wx, kind, t): (String, String, i64) = conn
        .query_row(
            "SELECT member_wxid, event_kind, event_time FROM chatroom_member_event WHERE source_native_id='Msg_a:5:0'",
            [],
            |r| Ok((r.get(0)?, r.get(1)?, r.get(2)?)),
        )
        .unwrap();
    assert_eq!(wx, "wxid_member_x");
    assert_eq!(kind, "join");
    assert_eq!(t, 1_699_000);
    let cols: i64 = conn
        .query_row(
            "SELECT count(*) FROM pragma_table_info('chatroom_member_event')",
            [],
            |r| r.get(0),
        )
        .unwrap();
    assert_eq!(cols, 14);

    let dbg = shown(&e.debug_row());
    for raw in ["wxid_member_x", "wxid_inviter", "wxid_acct", "12345@chatroom", "春风"] {
        assert!(!dbg.contains(raw));
    }
    assert!(
        dbg.contains("member_wxid_sha8")
            && dbg.contains("member_nickname_sha8")
            && dbg.contains("inviter_wxid_sha8")
    );
}

#[test]
fn chatroom_member_event_null_wxid_for_plaintext_remove() {
    let (_d, conn) = open_inited();
    apply(&conn, &init_chatroom_member_event_table()).unwrap();
    let mut e = sample_member_event(0, None, "remove");
    e.member_wxid = None;
    e.member_wxid_sha = None;
    e.inviter_wxid = None;
    e.inviter_wxid_sha = None;
    run(&conn, &insert_chatroom_member_event(&e)).unwrap();
    let wx: Option<String> = conn
        .query_row(
            "SELECT member_wxid FROM chatroom_member_event WHERE source_native_id='Msg_a:5:0'",
            [],
            |r| r.get(0),
        )
        .unwrap();
    assert!(wx.is_none());
}

#[test]
fn delete_chatroom_member_events_removes_all_rows() {
    let (_d, conn) = open_inited();
    apply(&conn, &init_chatroom_member_event_table()).unwrap();
    for seq in 0..3 {
        run(&conn, &insert_chatroom_member_event(&sample_member_event(seq, Some("wxid_m"), "join"))).unwrap();
    }
    assert_eq!(conn.query_row("SELECT count(*) FROM chatroom_member_event", [], |r| r.get::<_, i64>(0))
            .unwrap(), 3);
    run(&conn, &delete_chatroom_member_events("acct_sha", "message_0.db", "Msg_a:5")).unwrap();
    assert_eq!(conn.query_row("SELECT count(*) FROM chatroom_member_event", [], |r| r.get::<_, i64>(0))
            .unwrap(), 0);
}

#[test]
fn group_pay_member_count_and_delete() {
    let (_d, conn) = open_inited();
    apply(&conn, &init_group_pay_member_table()).unwrap();
    for (w, st) in [("p1", 1), ("p2", 1), ("p3", 0)] {
        run(&conn, &insert_group_pay_member(&V3GroupPayMember {
                account_id_sha: "acct_sha".to_string(),
                source: "message_0.db".to_string(),
                source_native_id: "Msg_gp:1".to_string(),
                payer_wxid_sha: format!("sha_{w}"),
                bill_no: "bill_x".to_string(),
                amount: 2000,
                pay_status: st,
                account_id: "wxid_acct".to_string(),
                payer_wxid: format!("wxid_{w}"),
            }))
        .unwrap();
    }

    let total: i64 = conn
        .query_row(
            "SELECT count(*) FROM group_pay_member WHERE bill_no='bill_x'",
            [],
            |r| r.get(0),
        )
        .unwrap();
    assert_eq!(total, 3);
    let paid: i64 = conn
        .query_row(
            "SELECT count(*) FROM group_pay_member WHERE bill_no='bill_x' AND pay_status=1",
            [],
            |r| r.get(0),
        )
        .unwrap();
    assert_eq!(paid, 2);
    let cols: i64 = conn
        .query_row("SELECT count(*) FROM pragma_table_info('group_pay_member')", [], |r| {
            r.get(0)
        })
        .unwrap();
    assert_eq!(cols, 9);

    let m = V3GroupPayMember {
        account_id_sha: "s".into(),
        source: "m".into(),
        source_native_id: "Msg_gp:1".into(),
        payer_wxid_sha: "psha".into(),
        bill_no: "bill_secret".into(),
        amount: 2000,
        pay_status: 1,
        account_id: "wxid_acct".into(),
        payer_wxid: "wxid_payer_secret".into(),
    };
    let dbg = shown(&m.debug_row());
    assert!(!dbg.contains("wxid_payer_secret") && !dbg.contains("bill_secret"));
    assert!(dbg.contains("payer_wxid_sha8") && dbg.contains("amount: 2000"));

    run(&conn, &delete_group_pay_members("acct_sha", "message_0.db", "Msg_gp:1")).unwrap();
    assert_eq!(conn.query_row("SELECT count(*) FROM group_pay_member", [], |r| r.get::<_, i64>(0))
            .unwrap(), 0);
}

fn sample_chatroom(native_id: &str, member_count: i64, owner: Option<&str>) -> V3Chatroom {
    V3Chatroom {
        is_still_member: true,
        account_id_sha: "acct_sha".to_string(),
        source: "chatroom.db".to_string(),
        source_native_id: native_id.to_string(),
        chatroom_id_sha: "room_sha".to_string(),
        account_id: "wxid_acct".to_string(),
        chatroom_id: "room@chatroom".to_string(),
        owner_wxid: owner.map(|_| "wxid_owner".to_string()),
        chatroom_name: "群名".to_string(),
        announcement: Some("公告".to_string()),
        chatroom_name_len: 8,
        announcement_len: 20,
        member_count,
        owner_wxid_sha: owner.map(str::to_string),
        announcement_editor: Some("wxid_ann_editor".to_string()),
        announcement_publish_time: 1_700_000_000,
        xml_announcement: Some("<xml>富媒体公告</xml>".to_string()),
        chat_room_status: 0x80000,
        chatroom_remark: Some("我的群备注".to_string()),
        chatroom_remark_len: 5,
    }
}

#[test]
fn chatroom_insert_then_query_back() {
    let (_d, conn) = open_inited();
    apply(&conn, &init_chatroom_table()).unwrap();
    run(&conn, &insert_chatroom(&sample_chatroom("room_a@chatroom", 5, Some("owner_sha")))).unwrap();
    let (room_sha, count, owner): (String, i64, Option<String>) = conn
        .query_row(
            "SELECT chatroom_id_sha, member_count, owner_wxid_sha FROM chatroom WHERE source_native_id='room_a@chatroom'",
            [],
            |r| Ok((r.get(0)?, r.get(1)?, r.get(2)?)),
        )
        .unwrap();
    assert_eq!(room_sha, "room_sha");
    assert_eq!(count, 5);
    assert_eq!(owner, Some("owner_sha".to_string()));
}

#[test]
fn chatroom_upsert_same_pk_refreshes() {
    let (_d, conn) = open_inited();
    apply(&conn, &init_chatroom_table()).unwrap();
    run(&conn, &insert_chatroom(&sample_chatroom("room_a@chatroom", 5, Some("owner_sha")))).unwrap();
    run(&conn, &insert_chatroom(&sample_chatroom("room_a@chatroom", 7, Some("owner_sha")))).unwrap();
    let count: i64 = conn
        .query_row("SELECT count(*) FROM chatroom", [], |r| r.get(0))
        .unwrap();
    assert_eq!(count, 1);
    let members: i64 = conn
        .query_row(
            "SELECT member_count FROM chatroom WHERE source_native_id='room_a@chatroom'",
            [],
            |r| r.get(0),
        )
        .unwrap();
    assert_eq!(members, 7);
}

#[test]
fn chatroom_nullable_owner_and_column_count() {
    let (_d, conn) = open_inited();
    apply(&conn, &init_chatroom_table()).unwrap();
    run(&conn, &insert_chatroom(&sample_chatroom("room_dissolved@chatroom", 0, None))).unwrap();
    let owner: Option<String> = conn
        .query_row(
            "SELECT owner_wxid_sha FROM chatroom WHERE source_native_id='room_dissolved@chatroom'",
            [],
            |r| r.get(0),
        )
        .unwrap();
    assert_eq!(owner, None);
    let col_count: i64 = conn
        .query_row("SELECT count(*) FROM pragma_table_info('chatroom')", [], |r| r.get(0))
        .unwrap();
    assert_eq!(col_count, 20);
}

fn sample_session(native_id: &str, unread: i64, sort_ts: i64) -> V3Session {
    V3Session {
        account_id_sha: "acct_sha".to_string(),
        source: "session.db".to_string(),
        source_native_id: native_id.to_string(),
        username_sha: "peer_sha".to_string(),
        account_id: "wxid_acct".to_string(),
        username: "wxid_peer".to_string(),
        unread_count: unread,
        last_msg_type: 1,
        last_msg_sub_type: 0,
        sort_timestamp: sort_ts,
        summary_len: 4,
        summary: Some("最近消息".to_string()),
        last_sender_len: 2,
        last_sender_display_name: Some("张三".to_string()),
        session_type: 1,
        is_hidden: 0,
        status: 0,
        draft_len: 0,
        draft: None,
        last_msg_sender: None,
        last_timestamp: 0,
        last_clear_unread_timestamp: 0,
        last_msg_locald_id: 0,
        last_msg_ext_type: 0,
        unread_first_msg_srv_id: 0,
    }
}

#[test]
fn session_insert_then_query_back() {
    let (_d, conn) = open_inited();
    apply(&conn, &init_session_table()).unwrap();
    run(&conn, &insert_session(&sample_session("sess_a", 3, 1_700_000_000))).unwrap();
    let (peer, unread, sort_ts): (String, i64, i64) = conn
        .query_row(
            "SELECT username_sha, unread_count, sort_timestamp FROM session WHERE source_native_id='sess_a'",
            [],
            |r| Ok((r.get(0)?, r.get(1)?, r.get(2)?)),
        )
        .unwrap();
    assert_eq!(peer, "peer_sha");
    assert_eq!(unread, 3);
    assert_eq!(sort_ts, 1_700_000_000);
}

#[test]
fn session_status_columns_roundtrip() {
    let (_d, conn) = open_inited();
    apply(&conn, &init_session_table()).unwrap();
    let mut s = sample_session("sess_st", 3, 1_700_000_000);
    s.session_type = 2;
    s.is_hidden = 1;
    s.status = 5;
    s.draft = Some("没发的草稿".to_string());
    run(&conn, &insert_session(&s)).unwrap();
    let (t, hid, st, draft): (i64, i64, i64, Option<String>) = conn
        .query_row(
            "SELECT session_type, is_hidden, status, draft FROM session WHERE source_native_id='sess_st'",
            [],
            |r| Ok((r.get(0)?, r.get(1)?, r.get(2)?, r.get(3)?)),
        )
        .unwrap();
    assert_eq!(t, 2);
    assert_eq!(hid, 1);
    assert_eq!(st, 5);
    assert_eq!(draft.as_deref(), Some("没发的草稿"));
}

#[test]
fn session_batch6_columns_roundtrip() {
    let (_d, conn) = open_inited();
    apply(&conn, &init_session_table()).unwrap();
    let mut s = sample_session("sess_b6", 3, 1_700_000_000);
    s.last_msg_sender = Some("wxid_sender".to_string());
    s.last_timestamp = 1_700_000_100_000;
    s.last_clear_unread_timestamp = 1_700_000_050_000;
    s.last_msg_locald_id = 42;
    s.last_msg_ext_type = 3;
    s.unread_first_msg_srv_id = 9_876_543_210;
    run(&conn, &insert_session(&s)).unwrap();
    let (sender, lts, lcut, llid, lext, ufsi): (Option<String>, i64, i64, i64, i64, i64) = conn
        .query_row(
            "SELECT last_msg_sender, last_timestamp, last_clear_unread_timestamp, last_msg_locald_id, last_msg_ext_type, unread_first_msg_srv_id FROM session WHERE source_native_id='sess_b6'",
            [],
            |r| Ok((r.get(0)?, r.get(1)?, r.get(2)?, r.get(3)?, r.get(4)?, r.get(5)?)),
        )
        .unwrap();
    assert_eq!(sender.as_deref(), Some("wxid_sender"));
    assert_eq!(lts, 1_700_000_100_000);
    assert_eq!(lcut, 1_700_000_050_000);
    assert_eq!(llid, 42);
    assert_eq!(lext, 3);
    assert_eq!(ufsi, 9_876_543_210);
}

#[test]
fn old_session_schema_migrates_all_columns() {
    let (_d, conn) = open_inited();
    conn.execute_batch(
        "CREATE TABLE session (
            account_id_sha TEXT NOT NULL, source TEXT NOT NULL, source_native_id TEXT NOT NULL,
            username_sha TEXT NOT NULL, unread_count INTEGER NOT NULL, last_msg_type INTEGER NOT NULL,
            last_msg_sub_type INTEGER NOT NULL, sort_timestamp INTEGER NOT NULL,
            PRIMARY KEY (account_id_sha, source, source_native_id))",
    )
        .unwrap();
    apply(&conn, &init_session_table()).unwrap();
    let cols: i64 = conn
        .query_row("SELECT count(*) FROM pragma_table_info('session')", [], |r| r.get(0))
        .unwrap();
    assert_eq!(cols, 25);

    run(&conn, &insert_session(&sample_session("sess_mig", 3, 1))).unwrap();
    let (t, draft): (i64, Option<String>) = conn
        .query_row(
            "SELECT session_type, draft FROM session WHERE source_native_id='sess_mig'",
            [],
            |r| Ok((r.get(0)?, r.get(1)?)),
        )
        .unwrap();
    assert_eq!(t, 1);
    assert_eq!(draft, None);
}

#[test]
fn old_19col_session_migrates_batch6_columns() {
    let (_d, conn) = open_inited();
    conn.execute_batch(
        "CREATE TABLE session (
            account_id_sha TEXT NOT NULL, source TEXT NOT NULL, source_native_id TEXT NOT NULL,
            username_sha TEXT NOT NULL, account_id TEXT NOT NULL, username TEXT NOT NULL,
            unread_count INTEGER NOT NULL, last_msg_type INTEGER NOT NULL,
            last_msg_sub_type INTEGER NOT NULL, sort_timestamp INTEGER NOT NULL,
            summary_len INTEGER NOT NULL, summary TEXT, last_sender_len INTEGER NOT NULL,
            last_sender_display_name TEXT,
            session_type INTEGER NOT NULL DEFAULT 0, is_hidden INTEGER NOT NULL DEFAULT 0,
            status INTEGER NOT NULL DEFAULT 0, draft_len INTEGER NOT NULL DEFAULT 0, draft TEXT,
            PRIMARY KEY (account_id_sha, source, source_native_id))",
    )
        .unwrap();
    apply(&conn, &init_session_table()).unwrap();
    let cols: i64 = conn
        .query_row("SELECT count(*) FROM pragma_table_info('session')", [], |r| r.get(0))
        .unwrap();
    assert_eq!(cols, 25);
    let mut s = sample_session("sess_mig6", 3, 1);
    s.last_msg_sender = Some("wxid_x".to_string());
    s.last_timestamp = 999;
    run(&conn, &insert_session(&s)).unwrap();
    let (sender, lts): (Option<String>, i64) = conn
        .query_row(
            "SELECT last_msg_sender, last_timestamp FROM session WHERE source_native_id='sess_mig6'",
            [],
            |r| Ok((r.get(0)?, r.get(1)?)),
        )
        .unwrap();
    assert_eq!(sender.as_deref(), Some("wxid_x"));
    assert_eq!(lts, 999);
}

#[test]
fn session_upsert_same_pk_refreshes() {
    let (_d, conn) = open_inited();
    apply(&conn, &init_session_table()).unwrap();
    run(&conn, &insert_session(&sample_session("sess_a", 3, 1_700_000_000))).unwrap();
    run(&conn, &insert_session(&sample_session("sess_a", 0, 1_700_000_999))).unwrap();
    let count: i64 = conn
        .query_row("SELECT count(*) FROM session", [], |r| r.get(0))
        .unwrap();
    assert_eq!(count, 1);
    let (unread, sort_ts): (i64, i64) = conn
        .query_row(
            "SELECT unread_count, sort_timestamp FROM session WHERE source_native_id='sess_a'",
            [],
            |r| Ok((r.get(0)?, r.get(1)?)),
        )
        .unwrap();
    assert_eq!(unread, 0);
    assert_eq!(sort_ts, 1_700_000_999);
}

#[test]
fn session_indexes_and_column_count() {
    let (_d, conn) = open_inited();
    apply(&conn, &init_session_table()).unwrap();
    let col_count: i64 = conn
        .query_row("SELECT count(*) FROM pragma_table_info('session')", [], |r| r.get(0))
        .unwrap();
    assert_eq!(col_count, 25);

    let d2 = tempfile::tempdir().unwrap();
    let conn2 = open(&d2.path().join("l1b.db"));
    make_l1(&conn2).unwrap();
    let n: i64 = conn2
        .query_row("SELECT count(*) FROM session", [], |r| r.get(0))
        .unwrap();
    assert_eq!(n, 0);
    let idx_count: i64 = conn
        .query_row(
            "SELECT count(*) FROM sqlite_master WHERE type='index' AND tbl_name='session' AND name IN ('idx_session_username','idx_session_sort')",
            [],
            |r| r.get(0),
        )
        .unwrap();
    assert_eq!(idx_count, 2);
}

fn sample_alias(username: &str, remark: Option<&str>, nick: Option<&str>) -> V3PersonAlias {
    V3PersonAlias {
        account_id_sha: "acct_sha".to_string(),
        username_sha: username.to_string(),
        remark_sha: remark.map(str::to_string),
        nick_name_sha: nick.map(str::to_string),
        account_id: "wxid_acct".to_string(),
        username: "wxid_user".to_string(),
        remark: remark.map(|_| "备注".to_string()),
        nick_name: nick.map(|_| "昵称".to_string()),
    }
}

#[test]
fn person_alias_insert_then_query_back() {
    let (_d, conn) = open_inited();
    apply(&conn, &init_person_alias_table()).unwrap();
    run(&conn, &insert_person_alias(&sample_alias("user_a_sha", Some("remark_a_sha"), Some("nick_a_sha"))))
    .unwrap();
    let (remark, nick): (Option<String>, Option<String>) = conn
        .query_row(
            "SELECT remark_sha, nick_name_sha FROM person_alias_by_account_min WHERE username_sha='user_a_sha'",
            [],
            |r| Ok((r.get(0)?, r.get(1)?)),
        )
        .unwrap();
    assert_eq!(remark, Some("remark_a_sha".to_string()));
    assert_eq!(nick, Some("nick_a_sha".to_string()));
}

#[test]
fn person_alias_pk_is_account_username() {
    let (_d, conn) = open_inited();
    apply(&conn, &init_person_alias_table()).unwrap();
    run(&conn, &insert_person_alias(&sample_alias("user_a_sha", Some("remark_v1"), None))).unwrap();

    run(&conn, &insert_person_alias(&sample_alias("user_a_sha", Some("remark_v2"), None))).unwrap();

    run(&conn, &insert_person_alias(&sample_alias("user_b_sha", Some("remark_b"), None))).unwrap();
    let count: i64 = conn
        .query_row("SELECT count(*) FROM person_alias_by_account_min", [], |r| r.get(0))
        .unwrap();
    assert_eq!(count, 2);
    let remark: String = conn
        .query_row(
            "SELECT remark_sha FROM person_alias_by_account_min WHERE username_sha='user_a_sha'",
            [],
            |r| r.get(0),
        )
        .unwrap();
    assert_eq!(remark, "remark_v2");
}

#[test]
fn person_alias_nullable_shas_and_column_count() {
    let (_d, conn) = open_inited();
    apply(&conn, &init_person_alias_table()).unwrap();
    run(&conn, &insert_person_alias(&sample_alias("user_c_sha", None, None))).unwrap();
    let (remark, nick): (Option<String>, Option<String>) = conn
        .query_row(
            "SELECT remark_sha, nick_name_sha FROM person_alias_by_account_min WHERE username_sha='user_c_sha'",
            [],
            |r| Ok((r.get(0)?, r.get(1)?)),
        )
        .unwrap();
    assert_eq!(remark, None);
    assert_eq!(nick, None);
    let col_count: i64 = conn
        .query_row(
            "SELECT count(*) FROM pragma_table_info('person_alias_by_account_min')",
            [],
            |r| r.get(0),
        )
        .unwrap();
    assert_eq!(col_count, 8);
}

fn sample_member(native_id: &str, joined_at: i64) -> V3ChatroomMember {
    V3ChatroomMember {
        account_id_sha: "acct_sha".to_string(),
        source: "chatroom.db".to_string(),
        source_native_id: native_id.to_string(),
        chatroom_id_sha: "room_sha".to_string(),
        member_wxid_sha: "member_sha".to_string(),
        account_id: "wxid_acct".to_string(),
        chatroom_id: "room@chatroom".to_string(),
        member_wxid: "wxid_member".to_string(),
        display_name: Some("群昵称".to_string()),
        display_name_len: 5,
        joined_at: Some(joined_at),
        left_at: None,
        is_in_group: true,
        role: "member".to_string(),
        invited_by: None,
    }
}

#[test]
fn chatroom_member_add_inserts_new() {
    let (_d, conn) = open_inited();
    apply(&conn, &init_chatroom_member_table()).unwrap();
    run(&conn, &upsert_chatroom_member_add(&sample_member("room:member:wx_a", 1000))).unwrap();
    let (in_group, joined, left): (bool, Option<i64>, Option<i64>) = conn
        .query_row(
            "SELECT is_in_group, joined_at, left_at FROM chatroom_member WHERE source_native_id='room:member:wx_a'",
            [],
            |r| Ok((r.get(0)?, r.get(1)?, r.get(2)?)),
        )
        .unwrap();
    assert!(in_group);
    assert_eq!(joined, Some(1000));
    assert_eq!(left, None);
}

#[test]
fn chatroom_member_leave_rejoin_leave() {
    let (_d, conn) = open_inited();
    apply(&conn, &init_chatroom_member_table()).unwrap();
    let q = "SELECT is_in_group, joined_at, left_at FROM chatroom_member WHERE source_native_id='room:member:wx_a'";

    run(&conn, &upsert_chatroom_member_add(&sample_member("room:member:wx_a", 1000))).unwrap();

    assert_eq!(
        run(&conn, &mark_chatroom_member_left("acct_sha", "chatroom.db", "room:member:wx_a", 2000)).unwrap(),
        1
    );
    let (g, j, l): (bool, Option<i64>, Option<i64>) = conn
        .query_row(q, [], |r| Ok((r.get(0)?, r.get(1)?, r.get(2)?)))
        .unwrap();
    assert!(!g);
    assert_eq!(j, Some(1000));
    assert_eq!(l, Some(2000));

    run(&conn, &upsert_chatroom_member_add(&sample_member("room:member:wx_a", 3000))).unwrap();
    let (g, j, l): (bool, Option<i64>, Option<i64>) = conn
        .query_row(q, [], |r| Ok((r.get(0)?, r.get(1)?, r.get(2)?)))
        .unwrap();
    assert!(g);
    assert_eq!(j, Some(3000));
    assert_eq!(l, None);

    run(&conn, &mark_chatroom_member_left("acct_sha", "chatroom.db", "room:member:wx_a", 4000)).unwrap();
    let (g, j): (bool, Option<i64>) = conn
        .query_row(
            "SELECT is_in_group, joined_at FROM chatroom_member WHERE source_native_id='room:member:wx_a'",
            [],
            |r| Ok((r.get(0)?, r.get(1)?)),
        )
        .unwrap();
    assert!(!g);
    assert_eq!(j, Some(3000));

    let count: i64 = conn
        .query_row("SELECT count(*) FROM chatroom_member", [], |r| r.get(0))
        .unwrap();
    assert_eq!(count, 1);
}

#[test]
fn chatroom_member_remove_missing_pk_returns_zero() {
    let (_d, conn) = open_inited();
    apply(&conn, &init_chatroom_member_table()).unwrap();
    let affected = run(&conn, &mark_chatroom_member_left("acct_sha", "chatroom.db", "room:member:ghost", 5000)).unwrap();
    assert_eq!(affected, 0);
}

#[test]
fn chatroom_member_query_current_excludes_left() {
    let (_d, conn) = open_inited();
    apply(&conn, &init_chatroom_member_table()).unwrap();
    run(&conn, &upsert_chatroom_member_add(&sample_member("room:member:wx_a", 1000))).unwrap();
    run(&conn, &upsert_chatroom_member_add(&sample_member("room:member:wx_b", 1000))).unwrap();
    run(&conn, &mark_chatroom_member_left("acct_sha", "chatroom.db", "room:member:wx_b", 2000)).unwrap();
    let current: i64 = conn
        .query_row("SELECT count(*) FROM chatroom_member WHERE is_in_group=1", [], |r| {
            r.get(0)
        })
        .unwrap();
    assert_eq!(current, 1);
    let ever: i64 = conn
        .query_row("SELECT count(*) FROM chatroom_member", [], |r| r.get(0))
        .unwrap();
    assert_eq!(ever, 2);
}

#[test]
fn chatroom_member_table_shape() {
    let (_d, conn) = open_inited();
    apply(&conn, &init_chatroom_member_table()).unwrap();
    let col_count: i64 = conn
        .query_row("SELECT count(*) FROM pragma_table_info('chatroom_member')", [], |r| {
            r.get(0)
        })
        .unwrap();
    assert_eq!(col_count, 15);
    let idx_count: i64 = conn
        .query_row(
            "SELECT count(*) FROM sqlite_master WHERE type='index' AND tbl_name='chatroom_member' AND name IN ('idx_chatroom_member_chatroom','idx_chatroom_member_wxid')",
            [],
            |r| r.get(0),
        )
        .unwrap();
    assert_eq!(idx_count, 2);
}

#[test]
fn chatroom_member_role_roundtrip_and_migrate() {
    let (_d, conn) = open_inited();
    apply(&conn, &init_chatroom_member_table()).unwrap();
    let mut m = sample_member("room:member:admin", 1000);
    m.role = "admin".to_string();
    m.invited_by = Some("wxid_inviter_a".to_string());
    run(&conn, &upsert_chatroom_member_add(&m)).unwrap();
    let (role, inv): (String, Option<String>) = conn
        .query_row(
            "SELECT role, invited_by FROM chatroom_member WHERE source_native_id='room:member:admin'",
            [],
            |r| Ok((r.get(0)?, r.get(1)?)),
        )
        .unwrap();
    assert_eq!(role, "admin");
    assert_eq!(inv.as_deref(), Some("wxid_inviter_a"));

    let (_d2, conn2) = open_inited();
    conn2
        .execute_batch(
            "CREATE TABLE chatroom_member (
                account_id_sha TEXT NOT NULL, source TEXT NOT NULL, source_native_id TEXT NOT NULL,
                chatroom_id_sha TEXT NOT NULL, member_wxid_sha TEXT NOT NULL,
                account_id TEXT NOT NULL, chatroom_id TEXT NOT NULL, member_wxid TEXT NOT NULL,
                display_name TEXT, display_name_len INTEGER NOT NULL,
                joined_at INTEGER, left_at INTEGER, is_in_group INTEGER NOT NULL DEFAULT 1,
                PRIMARY KEY (account_id_sha, source, source_native_id))",
        )
        .unwrap();

    conn2
        .execute(
            "INSERT INTO chatroom_member (account_id_sha, source, source_native_id, chatroom_id_sha, member_wxid_sha, \
             account_id, chatroom_id, member_wxid, display_name, display_name_len, joined_at, left_at, is_in_group) \
             VALUES ('a','chatroom.db','room:member:old','rs','ms','wxid_acct','room@chatroom','wxid_old',NULL,0,NULL,NULL,1)",
            [],
        )
        .unwrap();
    apply(&conn2, &init_chatroom_member_table()).unwrap();
    let cols: i64 = conn2
        .query_row("SELECT count(*) FROM pragma_table_info('chatroom_member')", [], |r| {
            r.get(0)
        })
        .unwrap();
    assert_eq!(cols, 15);
    let old_role: String = conn2
        .query_row(
            "SELECT role FROM chatroom_member WHERE source_native_id='room:member:old'",
            [],
            |r| r.get(0),
        )
        .unwrap();
    assert_eq!(old_role, "member");
    run(&conn2, &upsert_chatroom_member_add(&sample_member("room:member:mig", 1))).unwrap();
    let role2: String = conn2
        .query_row(
            "SELECT role FROM chatroom_member WHERE source_native_id='room:member:mig'",
            [],
            |r| r.get(0),
        )
        .unwrap();
    assert_eq!(role2, "member");
}

#[test]
fn chatroom_plaintext_columns_round_trip() {
    let (_d, conn) = open_inited();
    apply(&conn, &init_chatroom_table()).unwrap();
    let mut c = sample_chatroom("room_p@chatroom", 3, Some("owner_sha"));
    c.account_id = "wxid_acct_real".into();
    c.chatroom_id = "room_real@chatroom".into();
    c.owner_wxid = Some("wxid_owner_real".into());
    c.chatroom_name = "真实群名".into();
    c.announcement = Some("真实公告".into());
    run(&conn, &insert_chatroom(&c)).unwrap();
    let (acct, room, owner, name, ann): (String, String, Option<String>, String, Option<String>) = conn
        .query_row(
            "SELECT account_id, chatroom_id, owner_wxid, chatroom_name, announcement FROM chatroom WHERE source_native_id='room_p@chatroom'",
            [],
            |r| Ok((r.get(0)?, r.get(1)?, r.get(2)?, r.get(3)?, r.get(4)?)),
        )
        .unwrap();
    assert_eq!(acct, "wxid_acct_real");
    assert_eq!(room, "room_real@chatroom");
    assert_eq!(owner.as_deref(), Some("wxid_owner_real"));
    assert_eq!(name, "真实群名");
    assert_eq!(ann.as_deref(), Some("真实公告"));
}

#[test]
fn session_plaintext_columns_round_trip() {
    let (_d, conn) = open_inited();
    apply(&conn, &init_session_table()).unwrap();
    let mut s = sample_session("sess_p", 1, 1_700_000_000);
    s.account_id = "wxid_acct_real".into();
    s.username = "wxid_peer_real".into();
    run(&conn, &insert_session(&s)).unwrap();
    let (acct, user): (String, String) = conn
        .query_row(
            "SELECT account_id, username FROM session WHERE source_native_id='sess_p'",
            [],
            |r| Ok((r.get(0)?, r.get(1)?)),
        )
        .unwrap();
    assert_eq!(acct, "wxid_acct_real");
    assert_eq!(user, "wxid_peer_real");
}

#[test]
fn session_debug_redacts_plaintext() {
    let mut s = sample_session("sess_d", 0, 1);
    s.account_id = "wxid_acct_secret".into();
    s.username = "wxid_peer_secret".into();
    let dbg = shown(&s.debug_row());
    assert!(!dbg.contains("wxid_acct_secret"));
    assert!(!dbg.contains("wxid_peer_secret"));
}

#[test]
fn person_alias_plaintext_columns_round_trip() {
    let (_d, conn) = open_inited();
    apply(&conn, &init_person_alias_table()).unwrap();
    let mut a = sample_alias("user_p_sha", Some("remark_sha"), Some("nick_sha"));
    a.account_id = "wxid_acct_real".into();
    a.username = "wxid_user_real".into();
    a.remark = Some("真实备注".into());
    a.nick_name = Some("真实昵称".into());
    run(&conn, &insert_person_alias(&a)).unwrap();
    let (acct, user, remark, nick): (String, String, Option<String>, Option<String>) = conn
        .query_row(
            "SELECT account_id, username, remark, nick_name FROM person_alias_by_account_min WHERE username_sha='user_p_sha'",
            [],
            |r| Ok((r.get(0)?, r.get(1)?, r.get(2)?, r.get(3)?)),
        )
        .unwrap();
    assert_eq!(acct, "wxid_acct_real");
    assert_eq!(user, "wxid_user_real");
    assert_eq!(remark.as_deref(), Some("真实备注"));
    assert_eq!(nick.as_deref(), Some("真实昵称"));
}

#[test]
fn chatroom_member_plaintext_columns_round_trip() {
    let (_d, conn) = open_inited();
    apply(&conn, &init_chatroom_member_table()).unwrap();
    let mut m = sample_member("room:member:wx_p", 1000);
    m.account_id = "wxid_acct_real".into();
    m.chatroom_id = "room_real@chatroom".into();
    m.member_wxid = "wxid_member_real".into();
    m.display_name = Some("群昵称真实".into());
    run(&conn, &upsert_chatroom_member_add(&m)).unwrap();
    let (acct, room, member, disp): (String, String, String, Option<String>) = conn
        .query_row(
            "SELECT account_id, chatroom_id, member_wxid, display_name FROM chatroom_member WHERE source_native_id='room:member:wx_p'",
            [],
            |r| Ok((r.get(0)?, r.get(1)?, r.get(2)?, r.get(3)?)),
        )
        .unwrap();
    assert_eq!(acct, "wxid_acct_real");
    assert_eq!(room, "room_real@chatroom");
    assert_eq!(member, "wxid_member_real");
    assert_eq!(disp.as_deref(), Some("群昵称真实"));
}

#[test]
fn schema_meta_set_get_and_missing() {
    let (_d, conn) = open_inited();
    apply(&conn, &init_schema_meta_table()).unwrap();
    run(&conn, &set_meta(META_KEY_VERSION, "1", 1000)).unwrap();
    assert_eq!(stored_meta(&conn, META_KEY_VERSION).unwrap(), Some("1".to_string()));
    assert_eq!(stored_meta(&conn, "nonexistent_key").unwrap(), None);
}

#[test]
fn l1_generation_stable_idempotent_and_unique() {
    let conn = Connection::open_in_memory().unwrap();
    all(&conn, &init_l1_generation()).unwrap();
    let g1 = l1_generation(&conn).unwrap();
    assert!(g1.as_deref().is_some_and(|g| g.len() == 32));
    all(&conn, &init_l1_generation()).unwrap();
    assert_eq!(l1_generation(&conn).unwrap(), g1);
    let conn2 = Connection::open_in_memory().unwrap();
    assert_eq!(l1_generation(&conn2).unwrap(), None);
    all(&conn2, &init_l1_generation()).unwrap();
    assert_ne!(l1_generation(&conn2).unwrap(), g1);
}

#[test]
fn schema_meta_set_overwrites_same_key() {
    let (_d, conn) = open_inited();
    apply(&conn, &init_schema_meta_table()).unwrap();
    run(&conn, &set_meta(META_KEY_APP_VERSION, "0.1.0-alpha", 1000)).unwrap();
    run(&conn, &set_meta(META_KEY_APP_VERSION, "0.2.0", 2000)).unwrap();
    let count: i64 = conn
        .query_row("SELECT count(*) FROM schema_meta", [], |r| r.get(0))
        .unwrap();
    assert_eq!(count, 1);
    let (val, ts): (String, i64) = conn
        .query_row(
            "SELECT value, updated_at FROM schema_meta WHERE key='app_version'",
            [],
            |r| Ok((r.get(0)?, r.get(1)?)),
        )
        .unwrap();
    assert_eq!(val, "0.2.0");
    assert_eq!(ts, 2000);
}

#[test]
fn schema_meta_seed_writes_5_keys() {
    let (_d, conn) = open_inited();
    apply(&conn, &init_schema_meta_table()).unwrap();
    all(&conn, &seed_schema_meta("acct_wxid_sha", "0.1.0-alpha", 1_700_000_000, 1_700_000_500)).unwrap();
    assert_eq!(stored_meta(&conn, META_KEY_VERSION).unwrap(), Some(SCHEMA_VERSION.to_string()));
    assert_eq!(stored_meta(&conn, META_KEY_ACCOUNT_ID_SHA).unwrap(), Some("acct_wxid_sha".to_string()));
    assert_eq!(stored_meta(&conn, META_KEY_MIGRATION_HISTORY).unwrap(), Some("[]".to_string()));
    assert_eq!(
        stored_meta(&conn, META_KEY_APP_VERSION).unwrap(),
        Some("0.1.0-alpha".to_string())
    );
    assert_eq!(stored_meta(&conn, META_KEY_CREATED_AT).unwrap(), Some("1700000000".to_string()));
    let count: i64 = conn
        .query_row("SELECT count(*) FROM schema_meta", [], |r| r.get(0))
        .unwrap();
    assert_eq!(count, 5);
    let col_count: i64 = conn
        .query_row("SELECT count(*) FROM pragma_table_info('schema_meta')", [], |r| {
            r.get(0)
        })
        .unwrap();
    assert_eq!(col_count, 3);
}

#[test]
fn init_l1_schema_gates_stale_anchor_db() {
    let conn = Connection::open_in_memory().unwrap();
    make_l1(&conn).unwrap();
    assert_eq!(stored_meta(&conn, META_KEY_VERSION).unwrap(), Some(SCHEMA_VERSION.to_string()));

    make_l1(&conn).unwrap();

    conn.execute("DELETE FROM schema_meta WHERE key=?1", [META_KEY_VERSION])
        .unwrap();
    let err = make_l1(&conn).unwrap_err();
    assert!(matches!(&err, rusqlite::Error::SqliteFailure(f, _) if f.extended_code == rusqlite::ffi::SQLITE_MISMATCH));
    assert!(err.to_string().contains("锚格式过时"));

    conn.execute(
        "INSERT INTO schema_meta(key,value,updated_at) VALUES(?1,'1',0)",
        [META_KEY_VERSION],
    )
        .unwrap();
    let err_old = make_l1(&conn).unwrap_err();
    assert!(matches!(&err_old, rusqlite::Error::SqliteFailure(f, _) if f.extended_code == rusqlite::ffi::SQLITE_MISMATCH));
}

fn sample_backlog(category: &str, name: &str, status: &str) -> V3CapabilityBacklog {
    V3CapabilityBacklog {
        field_category: category.to_string(),
        field_name: name.to_string(),
        src_table: Some("WCDB_Contact.sqlite".to_string()),
        src_column: Some("amount".to_string()),
        reference_project: Some("wx-cli".to_string()),
        target_milestone: "0.2.0".to_string(),
        status: status.to_string(),
        notes: Some("调研中".to_string()),
        updated_at: 1000,
    }
}

#[test]
fn capability_backlog_insert_then_query_back() {
    let (_d, conn) = open_inited();
    apply(&conn, &init_capability_backlog_table()).unwrap();
    run(&conn, &insert_capability_backlog(&sample_backlog("wallet", "wallet_amount", "unimplemented"))).unwrap();
    let (milestone, status, refp): (String, String, Option<String>) = conn
        .query_row(
            "SELECT target_milestone, status, reference_project FROM capability_backlog WHERE field_category='wallet' AND field_name='wallet_amount'",
            [],
            |r| Ok((r.get(0)?, r.get(1)?, r.get(2)?)),
        )
        .unwrap();
    assert_eq!(milestone, "0.2.0");
    assert_eq!(status, "unimplemented");
    assert_eq!(refp, Some("wx-cli".to_string()));
}

#[test]
fn capability_backlog_upsert_status_change() {
    let (_d, conn) = open_inited();
    apply(&conn, &init_capability_backlog_table()).unwrap();
    run(&conn, &insert_capability_backlog(&sample_backlog("wallet", "wallet_amount", "unimplemented"))).unwrap();
    run(&conn, &insert_capability_backlog(&sample_backlog("wallet", "wallet_amount", "shipped"))).unwrap();
    let count: i64 = conn
        .query_row("SELECT count(*) FROM capability_backlog", [], |r| r.get(0))
        .unwrap();
    assert_eq!(count, 1);
    let status: String = conn
        .query_row(
            "SELECT status FROM capability_backlog WHERE field_name='wallet_amount'",
            [],
            |r| r.get(0),
        )
        .unwrap();
    assert_eq!(status, "shipped");
}

#[test]
fn capability_backlog_nullable_and_shape() {
    let (_d, conn) = open_inited();
    apply(&conn, &init_capability_backlog_table()).unwrap();
    let b = V3CapabilityBacklog {
        field_category: "miniprogram".to_string(),
        field_name: "mp_usage".to_string(),
        src_table: None,
        src_column: None,
        reference_project: None,
        target_milestone: "1.0.0+".to_string(),
        status: "researching".to_string(),
        notes: None,
        updated_at: 2000,
    };
    run(&conn, &insert_capability_backlog(&b)).unwrap();
    let (st, sc, rp, nt): (Option<String>, Option<String>, Option<String>, Option<String>) = conn
        .query_row(
            "SELECT src_table, src_column, reference_project, notes FROM capability_backlog WHERE field_name='mp_usage'",
            [],
            |r| Ok((r.get(0)?, r.get(1)?, r.get(2)?, r.get(3)?)),
        )
        .unwrap();
    assert_eq!((st, sc, rp, nt), (None, None, None, None));
    let col_count: i64 = conn
        .query_row(
            "SELECT count(*) FROM pragma_table_info('capability_backlog')",
            [],
            |r| r.get(0),
        )
        .unwrap();
    assert_eq!(col_count, 9);
    let idx_count: i64 = conn
        .query_row(
            "SELECT count(*) FROM sqlite_master WHERE type='index' AND tbl_name='capability_backlog' AND name IN ('idx_backlog_status','idx_backlog_milestone')",
            [],
            |r| r.get(0),
        )
        .unwrap();
    assert_eq!(idx_count, 2);
}

fn sample_db_catalog(path_sha: &str, size: i64, scanned: i64) -> V3SourceDbCatalog {
    V3SourceDbCatalog {
        account_id_sha: "acct_sha".to_string(),
        db_path_sha: path_sha.to_string(),
        db_path: None,
        db_size_bytes: size,
        db_mtime: 1_700_000_000,
        db_kind: "message".to_string(),
        last_scanned_at: scanned,
    }
}

#[test]
fn source_db_catalog_insert_then_query_back() {
    let (_d, conn) = open_inited();
    apply(&conn, &init_source_db_catalog_table()).unwrap();
    run(&conn, &insert_source_db_catalog(&sample_db_catalog("path_a_sha", 4096, 100))).unwrap();
    let (kind, size, path): (String, i64, Option<String>) = conn
        .query_row(
            "SELECT db_kind, db_size_bytes, db_path FROM source_db_catalog WHERE db_path_sha='path_a_sha'",
            [],
            |r| Ok((r.get(0)?, r.get(1)?, r.get(2)?)),
        )
        .unwrap();
    assert_eq!(kind, "message");
    assert_eq!(size, 4096);
    assert_eq!(path, None);
}

#[test]
fn source_db_catalog_upsert_refresh() {
    let (_d, conn) = open_inited();
    apply(&conn, &init_source_db_catalog_table()).unwrap();
    run(&conn, &insert_source_db_catalog(&sample_db_catalog("path_a_sha", 4096, 100))).unwrap();
    run(&conn, &insert_source_db_catalog(&sample_db_catalog("path_a_sha", 8192, 200))).unwrap();
    let count: i64 = conn
        .query_row("SELECT count(*) FROM source_db_catalog", [], |r| r.get(0))
        .unwrap();
    assert_eq!(count, 1);
    let (size, scanned): (i64, i64) = conn
        .query_row(
            "SELECT db_size_bytes, last_scanned_at FROM source_db_catalog WHERE db_path_sha='path_a_sha'",
            [],
            |r| Ok((r.get(0)?, r.get(1)?)),
        )
        .unwrap();
    assert_eq!(size, 8192);
    assert_eq!(scanned, 200);
}

#[test]
fn source_db_catalog_debug_redacts_path() {
    let c = V3SourceDbCatalog {
        account_id_sha: "acct_sha".to_string(),
        db_path_sha: "path_sha_visible".to_string(),
        db_path: Some(r"C:\WeChat Files\wxid_secret123\Msg\message_5.db".to_string()),
        db_size_bytes: 100,
        db_mtime: 1,
        db_kind: "message".to_string(),
        last_scanned_at: 2,
    };
    let dbg = shown(&c.debug_row());
    assert!(!dbg.contains("wxid_secret123"));
    assert!(!dbg.contains("WeChat Files"));
    assert!(dbg.contains("redacted"));
    assert!(dbg.contains("path_sha_visible"));
}

#[test]
fn source_db_catalog_shape() {
    let (_d, conn) = open_inited();
    apply(&conn, &init_source_db_catalog_table()).unwrap();
    let col_count: i64 = conn
        .query_row("SELECT count(*) FROM pragma_table_info('source_db_catalog')", [], |r| {
            r.get(0)
        })
        .unwrap();
    assert_eq!(col_count, 7);
    let idx: i64 = conn
        .query_row(
            "SELECT count(*) FROM sqlite_master WHERE type='index' AND name='idx_db_catalog_kind'",
            [],
            |r| r.get(0),
        )
        .unwrap();
    assert_eq!(idx, 1);
}

fn tbl_cols(conn: &Connection, tbl: &str) -> i64 {
    conn.query_row(&format!("SELECT count(*) FROM pragma_table_info('{tbl}')"), [], |r| {
        r.get(0)
    })
    .unwrap()
}

#[test]
fn source_chat_index_insert_query_shape() {
    let (_d, conn) = open_inited();
    apply(&conn, &init_source_chat_index_table()).unwrap();
    let c = V3SourceChatIndex {
        account_id_sha: "acct".to_string(),
        chat_id_sha: "chat_sha".to_string(),
        db_path_sha: "db_sha".to_string(),
        message_count: None,
        last_msg_time: None,
    };
    run(&conn, &insert_source_chat_index(&c)).unwrap();
    let (mc, lmt): (Option<i64>, Option<i64>) = conn
        .query_row(
            "SELECT message_count, last_msg_time FROM source_chat_index WHERE chat_id_sha='chat_sha'",
            [],
            |r| Ok((r.get(0)?, r.get(1)?)),
        )
        .unwrap();
    assert_eq!((mc, lmt), (None, None));
    assert_eq!(tbl_cols(&conn, "source_chat_index"), 5);
    assert_eq!(idx_exists(&conn, "idx_chat_index_db"), 1);
}

#[test]
fn source_chat_to_db_insert_query_shape() {
    let (_d, conn) = open_inited();
    apply(&conn, &init_source_chat_to_db_table()).unwrap();
    let c = V3SourceChatToDb {
        account_id_sha: "acct".to_string(),
        chat_id_sha: "chat_sha".to_string(),
        total_message_count: 500,
        db_count: 3,
        first_msg_time: Some(1000),
        last_msg_time: Some(2000),
    };
    run(&conn, &insert_source_chat_to_db(&c)).unwrap();
    let (total, dbc): (i64, i64) = conn
        .query_row(
            "SELECT total_message_count, db_count FROM source_chat_to_db WHERE chat_id_sha='chat_sha'",
            [],
            |r| Ok((r.get(0)?, r.get(1)?)),
        )
        .unwrap();
    assert_eq!((total, dbc), (500, 3));
    assert_eq!(tbl_cols(&conn, "source_chat_to_db"), 6);
    assert_eq!(user_index_count(&conn, "source_chat_to_db"), 0);
}

#[test]
fn source_db_timerange_nullable_shape() {
    let (_d, conn) = open_inited();
    apply(&conn, &init_source_db_timerange_table()).unwrap();
    let t = V3SourceDbTimerange {
        account_id_sha: "acct".to_string(),
        db_path_sha: "db_sha".to_string(),
        min_msg_time: None,
        max_msg_time: None,
    };
    run(&conn, &insert_source_db_timerange(&t)).unwrap();
    let (mn, mx): (Option<i64>, Option<i64>) = conn
        .query_row(
            "SELECT min_msg_time, max_msg_time FROM source_db_timerange WHERE db_path_sha='db_sha'",
            [],
            |r| Ok((r.get(0)?, r.get(1)?)),
        )
        .unwrap();
    assert_eq!((mn, mx), (None, None));
    assert_eq!(tbl_cols(&conn, "source_db_timerange"), 4);
    assert_eq!(user_index_count(&conn, "source_db_timerange"), 0);
}

#[test]
fn source_query_plans_insert_upsert_shape() {
    let (_d, conn) = open_inited();
    apply(&conn, &init_source_query_plans_table()).unwrap();
    let mk = |hits: i64, used: i64| V3SourceQueryPlan {
        account_id_sha: "acct".to_string(),
        query_signature_sha: "sig_sha".to_string(),
        plan_json: r#"{"scan":["db_sha"]}"#.to_string(),
        estimated_cost: Some(42),
        last_used_at: used,
        hit_count: hits,
    };
    run(&conn, &insert_source_query_plan(&mk(1, 100))).unwrap();
    run(&conn, &insert_source_query_plan(&mk(2, 200))).unwrap();
    let count: i64 = conn
        .query_row("SELECT count(*) FROM source_query_plans", [], |r| r.get(0))
        .unwrap();
    assert_eq!(count, 1);
    let (hits, used): (i64, i64) = conn
        .query_row(
            "SELECT hit_count, last_used_at FROM source_query_plans WHERE query_signature_sha='sig_sha'",
            [],
            |r| Ok((r.get(0)?, r.get(1)?)),
        )
        .unwrap();
    assert_eq!((hits, used), (2, 200));
    assert_eq!(tbl_cols(&conn, "source_query_plans"), 6);
    assert_eq!(idx_exists(&conn, "idx_query_plans_lru"), 1);

    let lru_desc: i64 = conn
        .query_row(
            "SELECT \"desc\" FROM pragma_index_xinfo('idx_query_plans_lru') WHERE name='last_used_at'",
            [],
            |r| r.get(0),
        )
        .unwrap();
    assert_eq!(lru_desc, 1);
}

struct GrowTableSpec {
    table: &'static str,
    init_fn: fn() -> Vec<Step>,
    grow_cols: &'static [&'static str],
}

const GROW_TABLES: &[GrowTableSpec] = &[
    GrowTableSpec {
        table: "message",
            init_fn: init_message_table,
        grow_cols: &[
            "server_seq",
            "origin_source",
            "upload_status",
            "download_status",
            "sys_type",
        ],
    },
    GrowTableSpec {
        table: "person",
            init_fn: init_person_table,
        grow_cols: &[
            "quan_pin",
            "pin_yin_initial",
            "remark_quan_pin",
            "remark_pin_yin_initial",
            "big_head_url",
            "small_head_url",
            "head_img_md5",
            "description",
            "country",
            "province",
            "city",
            "signature",
            "moments_cover_url",
            "labels",
            "openim_company",
            "openim_realname",

            "verify_flag",
            "delete_flag",
            "flag",
            "chat_room_notify",
            "chat_room_type",
            "sex",
            "friend_source",
            "is_starred",
            "is_collapsed",
            "is_pinned",
            "blocks_moments",
            "hide_their_moments",
            "chat_only",
            "is_muted",

            "friend_add_time",
        ],
    },
    GrowTableSpec {
        table: "chatroom",
            init_fn: init_chatroom_table,
        grow_cols: &[
            "announcement_editor",
            "announcement_publish_time",
            "xml_announcement",
            "chat_room_status",
            "chatroom_remark",
            "chatroom_remark_len",
            "is_still_member",
        ],
    },
    GrowTableSpec {
        table: "session",
            init_fn: init_session_table,
        grow_cols: &[
            "account_id",
            "username",

            "summary_len",
            "summary",
            "last_sender_len",
            "last_sender_display_name",
            "session_type",
            "is_hidden",
            "status",
            "draft_len",
            "draft",
            "last_msg_sender",
            "last_timestamp",
            "last_clear_unread_timestamp",
            "last_msg_locald_id",
            "last_msg_ext_type",
            "unread_first_msg_srv_id",
        ],
    },
    GrowTableSpec {
        table: "favorite",
            init_fn: init_favorite_table,
        grow_cols: &["note_text"],
    },
    GrowTableSpec {
        table: "moment",
            init_fn: init_moment_table,
        grow_cols: &[
            "source_nickname",
            "public_user_name",
            "app_name",
            "is_bidirectional_fan",
            "is_rich_text",
        ],
    },
    GrowTableSpec {
        table: "message_app",
            init_fn: init_message_app_table,
        grow_cols: &[
            "file_size",
            "file_ext",
            "file_md5",
            "transfer_fee",
            "transfer_direction",
            "transfer_txid",
            "refer_svrid",
            "refer_type",
            "refer_content",
            "forward_item_count",
            "red_envelope_wish",
            "red_envelope_count",
            "group_pay_amount",
            "group_pay_bill_no",
            "music_desc",
            "gift_wish",
            "gift_sku",
            "live_status",
            "live_desc",
            "pay_scene_text",
        ],
    },
    GrowTableSpec {
        table: "message_location",
            init_fn: init_message_location_table,
        grow_cols: &["maptype", "adcode", "cityname"],
    },
    GrowTableSpec {
        table: "chatroom_member",
            init_fn: init_chatroom_member_table,
        grow_cols: &["role", "invited_by"],
    },
];

fn column_defs(conn: &Connection, table: &str) -> Vec<(String, String, bool, Option<String>, i64)> {
    conn.prepare(&format!("PRAGMA table_info({table})"))
        .unwrap()
        .query_map([], |r| {
            Ok((
                r.get::<_, String>(1)?,
                r.get::<_, String>(2)?,
                r.get::<_, i64>(3)? != 0,
                r.get::<_, Option<String>>(4)?,
                r.get::<_, i64>(5)?,
            ))
        })
        .unwrap()
        .collect::<rusqlite::Result<_>>()
        .unwrap()
}

fn col_name_set(conn: &Connection, table: &str) -> BTreeSet<String> {
    column_defs(conn, table).into_iter().map(|d| d.0).collect()
}

fn materialize_old_table(old: &Connection, fresh: &Connection, table: &str, drop_cols: &[&str]) {
    let defs = column_defs(fresh, table);
    let mut cols = Vec::new();
    let mut pk: Vec<(i64, String)> = Vec::new();
    for (name, ty, notnull, dflt, pkpos) in &defs {
        if drop_cols.contains(&name.as_str()) {
            continue;
        }
        let mut s = if ty.is_empty() {
            name.clone()
        } else {
            format!("{name} {ty}")
        };
        if *notnull {
            s.push_str(" NOT NULL");
        }
        if let Some(d) = dflt {
            s.push_str(" DEFAULT ");
            s.push_str(d);
        }
        cols.push(s);
        if *pkpos > 0 {
            pk.push((*pkpos, name.clone()));
        }
    }
    pk.sort_by_key(|(p, _)| *p);
    let pk_clause = if pk.is_empty() {
        String::new()
    } else {
        format!(
            ", PRIMARY KEY ({})",
            pk.into_iter().map(|(_, n)| n).collect::<Vec<_>>().join(", ")
        )
    };
    old.execute_batch(&format!(
        "DROP TABLE IF EXISTS {table}; CREATE TABLE {table} ({}{pk_clause});",
        cols.join(", ")
    ))
    .unwrap();
}

fn insert_full_shape(
    conn: &Connection,
    table: &str,
    fresh_defs: &[(String, String, bool, Option<String>, i64)],
) -> rusqlite::Result<()> {
    let mut cols = Vec::new();
    let mut vals = Vec::new();
    for (name, ty, _, _, _) in fresh_defs {
        cols.push(name.clone());
        let up = ty.to_uppercase();
        let v = if up.contains("INT") {
            "0"
        } else if up.contains("REAL") || up.contains("FLOA") || up.contains("DOUB") {
            "0.0"
        } else if up.contains("CHAR") || up.contains("TEXT") || up.contains("CLOB") {
            "'x'"
        } else {
            "0"
        };
        vals.push(v.to_string());
    }
    conn.execute(
        &format!("INSERT INTO {table} ({}) VALUES ({})", cols.join(", "), vals.join(", ")),
        [],
    )?;
    Ok(())
}

#[test]
fn grow_tables_migrate_from_old_db() {
    for spec in GROW_TABLES {
        let table = spec.table;
        assert!(!spec.grow_cols.is_empty());

        let (_fd, fresh) = open_inited();
        apply(&fresh, &(spec.init_fn)()).unwrap();
        let fresh_defs = column_defs(&fresh, table);
        let fresh_cols = col_name_set(&fresh, table);

        let grow_set: BTreeSet<String> =
            spec.grow_cols.iter().map(|s| (*s).to_string()).collect();
        assert!(grow_set.is_subset(&fresh_cols));

        let (_od, old) = open_inited();
        materialize_old_table(&old, &fresh, table, spec.grow_cols);

        let expected_old: BTreeSet<String> = fresh_cols.difference(&grow_set).cloned().collect();
        let old_before = col_name_set(&old, table);
        assert_eq!(old_before, expected_old);
        assert!(old_before.len() < fresh_cols.len());

        apply(&old, &(spec.init_fn)()).unwrap();

        insert_full_shape(&old, table, &fresh_defs).unwrap();

        let old_after = col_name_set(&old, table);
        assert_eq!(old_after, fresh_cols);

        apply(&old, &(spec.init_fn)()).unwrap();
        assert_eq!(col_name_set(&old, table), fresh_cols);
    }
}

#[test]
fn thin_watermark_roundtrip_and_absent_is_none() {
    let conn = rusqlite::Connection::open_in_memory().unwrap();

    assert_eq!(thin_watermark(&conn).unwrap(), None);
    run(&conn, &init_thin_meta()).unwrap();

    assert_eq!(thin_watermark(&conn).unwrap(), None);

    run(&conn, &set_thin_watermark("cursor-v1")).unwrap();
    assert_eq!(thin_watermark(&conn).unwrap().as_deref(), Some("cursor-v1"));

    run(&conn, &set_thin_watermark("cursor-v2")).unwrap();
    assert_eq!(thin_watermark(&conn).unwrap().as_deref(), Some("cursor-v2"));

    run(&conn, &set_thin_watermark("")).unwrap();
    assert_eq!(thin_watermark(&conn).unwrap(), None);

    run(&conn, &set_thin_account("acct-sha")).unwrap();
    run(&conn, &set_thin_watermark("cur")).unwrap();
    assert_eq!(thin_account(&conn).unwrap().as_deref(), Some("acct-sha"));
    assert_eq!(thin_watermark(&conn).unwrap().as_deref(), Some("cur"));
}

const TABLES: [Table; 41] = [
    Table::Message,
    Table::MessageApp,
    Table::MessageMedia,
    Table::MessageLocation,
    Table::MessageCall,
    Table::MessageHongbaoClaim,
    Table::MessageCard,
    Table::MessageMention,
    Table::MessageForwardItem,
    Table::Person,
    Table::PersonAlias,
    Table::FriendVerify,
    Table::BizchatUser,
    Table::AvatarImage,
    Table::Chatroom,
    Table::ChatroomMember,
    Table::ChatroomMemberEvent,
    Table::Session,
    Table::Favorite,
    Table::FavoriteMedia,
    Table::FavoriteTag,
    Table::CustomEmoticon,
    Table::Transfer,
    Table::RedEnvelope,
    Table::GroupPay,
    Table::GroupPayMember,
    Table::Moment,
    Table::MomentMedia,
    Table::MomentInteraction,
    Table::MomentFeed,
    Table::SnsNotify,
    Table::FinderVisit,
    Table::SchemaMeta,
    Table::ChatRefreshState,
    Table::CapabilityBacklog,
    Table::SourceDbCatalog,
    Table::SourceChatIndex,
    Table::SourceChatToDb,
    Table::SourceDbTimerange,
    Table::SourceQueryPlans,
    Table::RawPayloadArchive,
];

#[test]
fn grow_table_registry_covers_every_ensure_fn() {
    let found: BTreeSet<String> = TABLES
        .iter()
        .filter(|table| !table.ensure_columns(&Vec::new()).is_empty())
        .map(|table| table.name().to_string())
        .collect();
    let registered: BTreeSet<String> = GROW_TABLES.iter().map(|g| g.table.to_string()).collect();
    let listed: BTreeSet<String> = grown_tables().iter().map(|table| table.name().to_string()).collect();
    assert_eq!(found, registered);
    assert_eq!(listed, registered);
    assert_eq!(registered.len(), 9);
}

#[test]
fn grow_cols_pinned_to_ensure_add_column() {
    for spec in GROW_TABLES {
        let table = *TABLES.iter().find(|table| table.name() == spec.table).unwrap();
        let prefix = format!("ALTER TABLE {} ADD COLUMN ", spec.table);
        let parsed: BTreeSet<String> = table
            .ensure_columns(&Vec::new())
            .iter()
            .map(|statement| {
                let rest = statement.sql.strip_prefix(&prefix).unwrap();
                rest.split(' ').next().unwrap().to_string()
            })
            .collect();
        let grow_set: BTreeSet<String> = spec.grow_cols.iter().map(|s| (*s).to_string()).collect();
        assert_eq!(parsed, grow_set);
        assert!(!parsed.is_empty());
    }
}

#[test]
fn sql_literal_comments_have_no_ascii_quotes() {
    for table in TABLES {
        for line in table.create().sql.lines() {
            let t = line.trim_start();
            assert!(!(t.starts_with("--") && !t.starts_with("-->") && t.contains('"')));
        }
    }
}

fn refill_ingest_indexes(conn: &Connection) -> rusqlite::Result<()> {
    for index in create_ingest_indexes() {
        settle(conn, index.name, &index.create())?;
    }
    Ok(())
}

#[test]
fn stale_index_definition_is_rebuilt_not_silently_kept() {
    let c = Connection::open_in_memory().unwrap();
    make_l1(&c).unwrap();

    let cur = |c: &Connection| -> String {
        let sql: String = c
            .query_row(
                "SELECT sql FROM sqlite_master WHERE type='index' AND name='idx_message_conv_time_full'",
                [],
                |r| r.get(0),
            )
            .unwrap();
        sql.to_lowercase().split_whitespace().collect::<Vec<_>>().join(" ")
    };
    let good = cur(&c);
    assert!(good.contains("source desc") && good.contains("source_native_id desc"));

    c.execute_batch(
        "DROP INDEX idx_message_conv_time_full;
         CREATE INDEX idx_message_conv_time_full ON message
             (account_id_sha, conv_id_sha, create_time DESC, source_native_id DESC);",
    )
    .unwrap();
    assert!(!cur(&c).ends_with("source desc)"));

    make_l1(&c).unwrap();
    assert_eq!(cur(&c), good);

    for index in ingest_rebuilt_indexes() {
        assert!(!settle(&c, index.name, &index.create()).unwrap());
    }

    for index in ingest_rebuilt_indexes() {
        c.execute_batch(&format!("DROP INDEX IF EXISTS {};", index.name)).unwrap();
        assert!(settle(&c, index.name, &index.create()).unwrap());
    }

    {
        let c2 = Connection::open_in_memory().unwrap();
        make_l1(&c2).unwrap();
        c2.execute_batch(
            "DROP INDEX idx_message_conv_time_full;
             CREATE INDEX idx_message_conv_time_full ON message (account_id_sha, conv_id_sha, create_time DESC);",
        )
        .unwrap();
        c2.execute_batch("BEGIN;").unwrap();
        make_l1(&c2).unwrap();
        c2.execute_batch("COMMIT;").unwrap();
        let sql: String = c2
            .query_row(
                "SELECT sql FROM sqlite_master WHERE name='idx_message_conv_time_full'",
                [],
                |r| r.get(0),
            )
            .unwrap();
        assert!(sql.to_lowercase().contains("source desc)"));
    }

    let ingest = ingest_rebuilt_indexes();
    assert_eq!(message_rebuilt_indexes().len() + archive_rebuilt_indexes().len(), ingest.len());
    for (i, index) in message_rebuilt_indexes()
        .iter()
        .chain(archive_rebuilt_indexes().iter())
        .enumerate()
    {
        assert_eq!((index.name, index.create()), (ingest[i].name, ingest[i].create()));
    }

    {
        let c4 = Connection::open_in_memory().unwrap();
        make_l1(&c4).unwrap();
        let names = || -> Vec<String> {
            c4.prepare("SELECT name FROM sqlite_master WHERE type='index' AND name LIKE 'idx_%' ORDER BY name")
                .unwrap()
                .query_map([], |r| r.get::<_, String>(0))
                .unwrap()
                .map(Result::unwrap)
                .collect()
        };
        let before = names();
        run(&c4, &drop_ingest_indexes()).unwrap();
        let after = names();
        let dropped: Vec<&String> = before.iter().filter(|n| !after.contains(n)).collect();
        assert_eq!(dropped.len(), ingest.len());
        for index in &ingest {
            assert!(dropped.iter().any(|d| d.as_str() == index.name));
        }
        refill_ingest_indexes(&c4).unwrap();
        let restored = names();
        for n in &before {
            assert!(restored.contains(n));
        }
    }

    for outer in [false, true] {
        let c3 = Connection::open_in_memory().unwrap();
        make_l1(&c3).unwrap();
        if outer {
            c3.execute_batch("BEGIN;").unwrap();
        }
        let r = settle(
            &c3,
            "idx_message_conv_time_full",
            "CREATE INDEX idx_message_conv_time_full ON message (nosuchcol)",
        );
        assert!(r.is_err());
        let still: i64 = c3
            .query_row(
                "SELECT count(*) FROM sqlite_master WHERE name='idx_message_conv_time_full'",
                [],
                |r| r.get(0),
            )
            .unwrap();
        assert_eq!(still, 1);
        assert_eq!(c3.is_autocommit(), !outer);
        if outer {
            let _ = c3.execute_batch("COMMIT;");
        }
    }

    for index in &ingest {
        c.execute_batch(&format!("DROP INDEX IF EXISTS {};", index.name)).unwrap();
    }
    refill_ingest_indexes(&c).unwrap();
    for index in &ingest {
        assert!(!settle(&c, index.name, &index.create()).unwrap());
    }
}

#[test]
fn a_second_init_changes_nothing() {
    let conn = Connection::open_in_memory().unwrap();
    let state = || {
        let all = |sql: &str| {
            rows(
                &conn,
                &Statement {
                    sql: sql.to_string(),
                    params: Vec::new(),
                },
            )
            .unwrap()
        };
        (
            all("SELECT type, name, sql FROM sqlite_master ORDER BY rowid"),
            all("SELECT key, value, updated_at FROM schema_meta"),
            all("SELECT id, gen FROM l1_generation"),
        )
    };
    make_l1(&conn).unwrap();
    let once = state();
    make_l1(&conn).unwrap();
    assert_eq!(state(), once);
}

#[test]
fn reading_on_from_any_event_gives_the_rest() {
    let (_d, conn) = open_inited();
    for i in 0..6 {
        let mut r = rec(&format!("Msg_a:{i}"), i, 1000 + i);
        if i % 2 == 0 {
            r.account_id_sha = "A".to_string();
        }
        put_record(&conn, &r).unwrap();
    }
    let all = archive_since(&conn, 0).unwrap();
    for k in 0..all.len() {
        assert_eq!(archive_since(&conn, all[k].0).unwrap(), all[k + 1..]);
    }
    let wanted: Vec<(i64, RawPayloadRecord)> =
        all.iter().filter(|(_, r)| r.account_id_sha == "A").cloned().collect();
    for limit in 0..5usize {
        let some = archive_since_filtered(&conn, 0, Some("A"), None, limit as i64).unwrap();
        assert_eq!(some, wanted[..limit.min(wanted.len())]);
    }
    assert_eq!(archive_since_filtered(&conn, 0, Some("A"), None, -1).unwrap(), wanted);
}

#[test]
fn a_query_that_the_index_cannot_parse_is_an_error() {
    let (_d, conn) = open_inited();
    run(&conn, &init_thin_fts()).unwrap();
    assert!(found_thin(&conn, "\"abc", 10).is_err());
}

#[test]
fn a_new_event_is_read_behind_the_earlier_ones() {
    let (_d, conn) = open_inited();
    put_record(&conn, &rec("Msg_a:1", 1, 1_000)).unwrap();
    put_record(&conn, &rec("Msg_a:2", 2, 9_000)).unwrap();
    let before = archive_since(&conn, 0).unwrap();
    let reached = before[1].0;

    let new = rec("Msg_a:3", 3, 1_001);
    assert!(put_record(&conn, &new).unwrap());
    let mut replayed = new.clone();
    replayed.payload_json = "{}".to_string();
    assert!(!put_record(&conn, &replayed).unwrap());
    let later = archive_since(&conn, 0).unwrap();
    assert_eq!(later[..2], before);
    assert_eq!(later[2..], archive_since(&conn, reached).unwrap());
    assert_eq!(later.len(), 3);
    assert!(later[2].0 > reached);
    assert_eq!(later[2].1, new);

    let some = archive_since_filtered(&conn, 0, Some("acct_sha"), Some("message"), 2).unwrap();
    assert_eq!(some, before);
    let room = archive_since_filtered(&conn, 0, Some("acct_sha"), Some("message"), 3).unwrap();
    assert_eq!(room, later);
    assert!(archive_since_filtered(&conn, reached, Some("other"), None, 3).unwrap().is_empty());

    assert_eq!(prune(&conn, prune_older_than(5_000)).unwrap(), 2);
    assert!(put_record(&conn, &new).unwrap());
    let again = archive_since(&conn, later[2].0).unwrap();
    assert_eq!(again.len(), 1);
    assert!(again[0].0 > later[2].0);
    assert_eq!(again[0].1, new);
}

#[test]
fn a_scan_finds_the_texts_that_hold_the_query() {
    let (_d, conn) = open_inited();
    apply(&conn, &init_message_table()).unwrap();
    let texts = ["50% OFF", "50x off", "a_b\\c", "ÄB", "left\0right", "x\u{fffe}y", "Off again"];
    for (i, text) in texts.iter().enumerate() {
        let message = V3Message {
            text_content: text.to_string(),
            create_time: i as i64,
            account_id_sha: if i == 0 { "other" } else { "acct_sha" }.to_string(),
            ..sample_msg(&format!("Msg_a:{i}"), 1)
        };
        run(&conn, &insert_message(&message)).unwrap();
    }
    let found = |query: &str, limit: i64, account: Option<&str>| -> Vec<usize> {
        let hits = found_messages(&conn, query, limit, account).unwrap();
        hits.iter().map(|hit| hit.create_time as usize).collect()
    };
    assert_eq!(found("oFF", 10, None), [6, 1, 0]);
    assert_eq!(found("off", 2, None), [6, 1]);
    assert_eq!(found("off", -1, Some("acct_sha")), [6, 1]);
    assert_eq!(found("50%", 10, None), [0]);
    assert_eq!(found("_", 10, None), [2]);
    assert_eq!(found("\\", 10, None), [2]);
    assert_eq!(found("äb", 10, None), Vec::<usize>::new());
    assert_eq!(found("Äb", 10, None), [3]);
    assert_eq!(found("left", 10, None), [4]);
    assert_eq!(found("right", 10, None), Vec::<usize>::new());
    assert_eq!(found("\u{ffff}", 10, None), [5]);
    assert_eq!(found("", 10, None), [6, 5, 4, 3, 2, 1, 0]);
}

#[test]
fn a_migration_keeps_the_rows() {
    for table in grown_tables() {
        let conn = Connection::open_in_memory().unwrap();
        let name = table.name();
        let later: Vec<(String, String)> = table
            .ensure_columns(&Vec::new())
            .iter()
            .map(|s| s.sql.split(" ADD COLUMN ").nth(1).unwrap().split_once(' ').unwrap())
            .map(|(column, decl)| (column.to_string(), decl.to_string()))
            .collect();
        run(&conn, &table.create()).unwrap();
        let columns = columns_of(&conn, name).unwrap();
        let old: Vec<&String> = columns
            .iter()
            .filter(|column| !later.iter().any(|(l, _)| l == *column))
            .collect();
        let old_list: Vec<&str> = old.iter().map(|column| column.as_str()).collect();
        conn.execute_batch(&format!("DROP TABLE {name}; CREATE TABLE {name} ({})", old_list.join(", ")))
            .unwrap();
        let values: Vec<String> = (0..old.len()).map(|i| format!("'v{i}'")).collect();
        conn.execute_batch(&format!("INSERT INTO {name} VALUES ({})", values.join(", "))).unwrap();

        all(&conn, &table.ensure_columns(&columns_of(&conn, name).unwrap())).unwrap();
        for (i, column) in old.iter().enumerate() {
            let value: String = conn
                .query_row(&format!("SELECT {column} FROM {name}"), [], |r| r.get(0))
                .unwrap();
            assert_eq!(value, format!("v{i}"));
        }
        for (column, decl) in &later {
            let value: Value = conn
                .query_row(&format!("SELECT {column} FROM {name}"), [], |r| r.get(0))
                .unwrap();
            match decl.split_once(" NOT NULL DEFAULT ") {
                None => assert_eq!((value, decl.contains("NOT NULL")), (Value::Null, false)),
                Some(("TEXT", text)) => {
                    assert_eq!(value, Value::Text(text.trim_matches('\'').to_string()));
                }
                Some((_, number)) => assert_eq!(value, Value::Integer(number.parse().unwrap())),
            }
        }
    }
}
