//! Write leases, kept in a real database.

use native_core::sql::{Real, SqlValue, Statement};
use native_core::write_lease::{
    claim_write_lease, conv_slice_key, init_write_lease, lease_from_row, lease_query,
    release_write_lease, renew_write_lease, store_lease, write_conv_slice_coordinated, LeaseClaim,
    LeaseLedger, LeaseRow, QueryWriteOutcome, SliceLease, WRITE_LEASE_TTL_SECS,
};
use rusqlite::types::Value;
use rusqlite::{params_from_iter, Connection};

/// A value as the database takes it.
fn bound(value: &SqlValue) -> Value {
    match value {
        SqlValue::Null => Value::Null,
        SqlValue::Integer(n) => Value::Integer(*n),
        SqlValue::Real(r) => Value::Real(f64::from_bits(r.bits)),
        SqlValue::Text(t) => Value::Text(t.clone()),
        SqlValue::Blob(b) => Value::Blob(b.clone()),
    }
}

/// A value as the database gave it.
fn given(value: Value) -> SqlValue {
    match value {
        Value::Null => SqlValue::Null,
        Value::Integer(n) => SqlValue::Integer(n),
        Value::Real(r) => SqlValue::Real(Real { bits: r.to_bits() }),
        Value::Text(t) => SqlValue::Text(t),
        Value::Blob(b) => SqlValue::Blob(b),
    }
}

/// Runs a statement and says how many rows it changed.
fn run(conn: &Connection, statement: &Statement) -> rusqlite::Result<usize> {
    if statement.params.is_empty() {
        conn.execute_batch(&statement.sql)?;
        Ok(0)
    } else {
        conn.execute(&statement.sql, params_from_iter(statement.params.iter().map(bound)))
    }
}

/// Runs a query and gives all rows.
fn rows(conn: &Connection, statement: &Statement) -> rusqlite::Result<Vec<Vec<SqlValue>>> {
    let mut prepared = conn.prepare(&statement.sql)?;
    let width = prepared.column_count();
    let found = prepared.query_map(params_from_iter(statement.params.iter().map(bound)), |r| {
        let mut values = Vec::new();
        for i in 0..width {
            values.push(given(r.get::<_, Value>(i)?));
        }
        Ok(values)
    })?;
    found.collect()
}

fn mem() -> Connection {
    let c = Connection::open_in_memory().unwrap();
    c.execute_batch(init_write_lease()).unwrap();
    c
}

/// The ledger with the stored lease of one slice.
fn load(conn: &Connection, lease_key: &str) -> LeaseLedger {
    let mut ledger = LeaseLedger::new();
    for values in rows(conn, &lease_query(lease_key)).unwrap() {
        ledger.put(lease_from_row(&values).unwrap());
    }
    ledger
}

fn save(conn: &Connection, ledger: &LeaseLedger, lease_key: &str) {
    if let Some(lease) = ledger.get(lease_key) {
        run(conn, &store_lease(lease)).unwrap();
    }
}

fn claim(conn: &Connection, lease_key: &str, run_id: &str, now: i64) -> LeaseClaim {
    let mut ledger = load(conn, lease_key);
    let claim = claim_write_lease(&mut ledger, lease_key, run_id, now);
    save(conn, &ledger, lease_key);
    claim
}

fn claimed(conn: &Connection, lease_key: &str, run_id: &str, now: i64) -> SliceLease {
    match claim(conn, lease_key, run_id, now) {
        LeaseClaim::Claimed(lease) => lease,
        other => panic!("not claimed: {other:?}"),
    }
}

fn renew(conn: &Connection, lease: &SliceLease, now: i64) -> bool {
    let mut ledger = load(conn, &lease.lease_key);
    let held = renew_write_lease(&mut ledger, lease, now);
    save(conn, &ledger, &lease.lease_key);
    held
}

fn release(conn: &Connection, lease: &SliceLease, now: i64) -> bool {
    let mut ledger = load(conn, &lease.lease_key);
    let held = release_write_lease(&mut ledger, lease, now);
    save(conn, &ledger, &lease.lease_key);
    held
}

/// A coordinated write. What `write` does to the database is loaded again before the release.
fn coordinated<F, T>(conn: &Connection, conv_id: &str, run_id: &str, now: i64, write: F) -> QueryWriteOutcome<T>
where
    F: FnOnce(&SliceLease) -> Result<T, String>,
{
    let lease_key = conv_slice_key(conv_id);
    let ledger = load(conn, &lease_key);
    let (ledger, outcome) = write_conv_slice_coordinated(
        ledger,
        conv_id,
        run_id,
        now,
        |held: LeaseLedger, lease: SliceLease| {
            save(conn, &held, &lease.lease_key);
            let result = write(&lease);
            (load(conn, &lease.lease_key), result)
        },
    );
    save(conn, &ledger, &lease_key);
    outcome.unwrap()
}

#[test]
fn claim_fresh_gets_epoch_1() {
    let c = mem();
    let l = claimed(&c, "message", "runA", 1000);
    assert_eq!(l.lease_key, "message");
    assert_eq!(l.owner, "runA");
    assert_eq!(l.epoch, 1);
}

#[test]
fn claim_held_by_other_active() {
    let c = mem();
    let _a = claim(&c, "message", "runA", 1000);
    match claim(&c, "message", "runB", 1100) {
        LeaseClaim::HeldByOther { lease_key, owner, until } => {
            assert_eq!(lease_key, "message");
            assert_eq!(owner, "runA");
            assert_eq!(until, 1000 + WRITE_LEASE_TTL_SECS);
        }
        other => panic!("not held: {other:?}"),
    }
}

#[test]
fn claim_expired_preempts_bumps_epoch() {
    let c = mem();
    let a = claimed(&c, "message", "runA", 1000);
    assert_eq!(a.epoch, 1);
    let b = claimed(&c, "message", "runB", 1601);
    assert_eq!(b.owner, "runB");
    assert_eq!(b.epoch, 2);
}

#[test]
fn claim_same_owner_reclaims_bumps_epoch() {
    let c = mem();
    let _a1 = claim(&c, "message", "runA", 1000);
    assert_eq!(claimed(&c, "message", "runA", 1100).epoch, 2);
}

#[test]
fn renew_extends_and_cas() {
    let c = mem();
    let a = claimed(&c, "message", "runA", 1000);
    assert!(renew(&c, &a, 1500));
    match claim(&c, "message", "runB", 1601) {
        LeaseClaim::HeldByOther { until, .. } => assert_eq!(until, 1500 + WRITE_LEASE_TTL_SECS),
        other => panic!("not held: {other:?}"),
    }
}

#[test]
fn stale_owner_renew_and_release_rejected() {
    let c = mem();
    let a = claimed(&c, "message", "runA", 1000);
    let b = claimed(&c, "message", "runB", 1601);
    assert_eq!(b.epoch, 2);
    assert!(!renew(&c, &a, 1602));
    assert!(!release(&c, &a, 1602));
    assert!(renew(&c, &b, 1603));
    assert!(release(&c, &b, 1604));
}

#[test]
fn release_frees_for_next_claim() {
    let c = mem();
    let a = claimed(&c, "message", "runA", 1000);
    assert!(release(&c, &a, 1010));
    let b = claimed(&c, "message", "runB", 1011);
    assert_eq!(b.owner, "runB");
    assert_eq!(b.epoch, 2);
}

#[test]
fn different_slices_independent() {
    let c = mem();
    let _m = claim(&c, "message", "runA", 1000);
    assert_eq!(claimed(&c, "contact", "runB", 1000).lease_key, "contact");
}

#[test]
fn query_write_claims_runs_releases() {
    let c = mem();
    let mut wrote = false;
    let out = coordinated(&c, "chat123", "queryA", 1000, |lease| {
        assert_eq!(lease.lease_key, "conv:chat123");
        wrote = true;
        Ok(42)
    });
    assert_eq!(out, QueryWriteOutcome::Wrote(42));
    assert!(wrote);
    assert_eq!(claimed(&c, "conv:chat123", "queryB", 1001).lease_key, "conv:chat123");
}

#[test]
fn query_write_reports_when_lease_was_stolen_midway() {
    let c = mem();
    let out: QueryWriteOutcome<i32> = coordinated(&c, "chat9", "slowA", 1000, |_lease| {
        let stolen = claim(&c, "conv:chat9", "fastB", 999_999);
        assert!(matches!(stolen, LeaseClaim::Claimed(_)));
        Ok(7)
    });
    assert_eq!(out, QueryWriteOutcome::WroteButLost(7));
}

#[test]
fn query_write_skips_when_conv_held() {
    let c = mem();
    let _held = claim(&c, "conv:chat123", "watchX", 1000);
    let mut wrote = false;
    let out: QueryWriteOutcome<i32> = coordinated(&c, "chat123", "queryA", 1050, |_lease| {
        wrote = true;
        Ok(0)
    });
    assert_eq!(
        out,
        QueryWriteOutcome::SkippedHeld {
            until: 1000 + WRITE_LEASE_TTL_SECS
        }
    );
    assert!(!wrote);
}

#[test]
fn a_failed_write_still_frees_its_slice() {
    let (ledger, outcome) = write_conv_slice_coordinated(
        LeaseLedger::new(),
        "chat1",
        "runA",
        1000,
        |held: LeaseLedger, _lease: SliceLease| (held, Err::<i32, &str>("no room")),
    );
    assert_eq!(outcome, Err("no room"));
    let mut ledger = ledger;
    match claim_write_lease(&mut ledger, "conv:chat1", "runB", 1001) {
        LeaseClaim::Claimed(lease) => assert_eq!(lease.epoch, 2),
        other => panic!("not free: {other:?}"),
    }
}

#[test]
fn a_row_of_other_shape_is_no_lease() {
    assert!(lease_from_row(&vec![SqlValue::Null]).is_none());
    let mut values = vec![
        SqlValue::Text("message".to_string()),
        SqlValue::Null,
        SqlValue::Integer(3),
        SqlValue::Null,
        SqlValue::Integer(9),
    ];
    let lease = lease_from_row(&values).unwrap();
    assert_eq!((lease.owner, lease.epoch, lease.deadline, lease.updated_at), (None, 3, None, 9));
    values[2] = SqlValue::Null;
    assert!(lease_from_row(&values).is_none());
}

#[test]
fn a_row_is_handed_out_under_the_name_of_its_slice() {
    let c = mem();
    claimed(&c, "message", "runA", 1000);
    claimed(&c, "contact", "runB", 1000);
    for (key, owner) in [("message", "runA"), ("contact", "runB")] {
        let ledger = load(&c, key);
        let row = ledger.get(key).unwrap();
        assert_eq!((row.lease_key.as_str(), row.owner.as_deref()), (key, Some(owner)));
        assert!(ledger.get("other").is_none());
    }
}

#[test]
fn the_kth_claim_carries_epoch_k() {
    let c = mem();
    let mut now = 1000;
    for k in 1..=6 {
        let run_id = format!("run{}", k % 2);
        let lease = claimed(&c, "message", &run_id, now);
        assert_eq!(lease.epoch, k);
        assert!(renew(&c, &lease, now + 1));
        assert!(matches!(claim(&c, "message", "late", now + 2), LeaseClaim::HeldByOther { .. }));
        if k % 3 == 0 {
            assert!(release(&c, &lease, now + 3));
        }
        now += 2 * WRITE_LEASE_TTL_SECS;
    }
}

#[test]
fn the_last_epoch_is_still_guarded() {
    let mut ledger = LeaseLedger::new();
    ledger.put(LeaseRow {
        lease_key: "message".to_string(),
        owner: Some("runA".to_string()),
        epoch: i64::MAX,
        deadline: Some(2000),
        updated_at: 1400,
    });
    assert_eq!(
        claim_write_lease(&mut ledger, "message", "runB", 1999),
        LeaseClaim::HeldByOther {
            lease_key: "message".to_string(),
            owner: "runA".to_string(),
            until: 2000,
        }
    );
}
