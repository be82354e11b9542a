//! The thin index: row ids, positions and the pass over the source tables.

use std::collections::BTreeMap;

use native_core::source::{sid_conflict, sid_missing, DrainCursor, ResumeProbe, TableProbe};
use native_core::thin::{thin_guard_says_rescan, thin_rowid, DrainedBatch, DrainedRow, ThinError, ThinRun};
use native_core::watermark::{positions_of, read_positions, write_positions};

fn probe(oldest_fp: i64, max_id: i64, ct: i64, sid: i64, n: Option<i64>) -> ResumeProbe {
    ResumeProbe::Found(TableProbe {
        oldest_fp,
        max_id,
        cursor_ct: Some(ct),
        cursor_sid: Some(sid),
        prefix_rows: n,
    })
}

fn cur(local_id: i64, fp: i64, ct: i64, sid: i64, n: Option<i64>) -> DrainCursor {
    DrainCursor {
        local_id,
        resume_fp: Some(fp),
        cursor_ct: Some(ct),
        cursor_sid: Some(sid),
        prefix_rows: n,
    }
}

fn row(local_id: i64, text: Option<&str>) -> DrainedRow {
    DrainedRow {
        local_id,
        native_id: format!("Msg_x:{local_id}"),
        text: text.map(str::to_string),
    }
}

fn started(watermark: Option<&str>) -> ThinRun {
    match ThinRun::start(100, watermark) {
        Ok(run) => run,
        Err(_) => panic!("a run of positive batches starts"),
    }
}

#[test]
fn thin_guard_matches_the_pipeline_criteria() {
    let c = cur(10, 111, 700, 900, Some(10));
    assert!(!thin_guard_says_rescan(&probe(111, 10, 700, 900, Some(10)), &c));
    assert!(thin_guard_says_rescan(&probe(222, 10, 700, 900, Some(10)), &c));
    assert!(thin_guard_says_rescan(&probe(111, 8, 700, 900, Some(8)), &c));
    assert!(thin_guard_says_rescan(&probe(111, 10, 701, 900, Some(10)), &c));
    assert!(thin_guard_says_rescan(&probe(111, 10, 700, 901, Some(10)), &c));

    assert!(!thin_guard_says_rescan(&probe(111, 10, 700, 900, Some(9)), &c));
    assert!(thin_guard_says_rescan(&ResumeProbe::Missing, &c));
    assert!(!thin_guard_says_rescan(&ResumeProbe::Unsupported, &c));
    assert!(thin_guard_says_rescan(
        &probe(111, 10, 700, 900, Some(10)),
        &DrainCursor { resume_fp: None, ..c }
    ));
    assert!(!thin_guard_says_rescan(&probe(111, 10, 700, 0, Some(10)), &c));
    assert!(!thin_guard_says_rescan(&probe(111, 10, 700, 900, None), &c));
}

#[test]
fn thin_old_watermark_map_forces_one_rebuild() {
    let old = r#"{"message_0.db|Msg_x":123,"message_1.db|Msg_y":45}"#;
    assert!(serde_json::from_str::<BTreeMap<String, String>>(old).is_err());
    assert!(read_positions(Some(old)).get("message_0.db|Msg_x").is_none());
    assert_eq!(started(Some(old)).open("message_0.db", "Msg_x").cursor.local_id, 0);

    let now = r#"{"message_0.db|Msg_x":"{\"id\":5,\"fp\":-42,\"ct\":7,\"sid\":9,\"n\":5}"}"#;
    let m: BTreeMap<String, String> = serde_json::from_str(now).unwrap();
    let c = DrainCursor::from_watermark_value(&m["message_0.db|Msg_x"]).unwrap();
    assert_eq!((c.local_id, c.prefix_rows), (5, Some(5)));
    let opened = started(Some(now)).open("message_0.db", "Msg_x");
    assert_eq!(opened.cursor, cur(5, -42, 7, 9, Some(5)));
}

#[test]
fn thin_rowid_stable_positive_and_distinct() {
    let s0 = "message_0.db";
    let s1 = "message_1.db";
    let a = "Msg_0021db3ef9c0aa11bb22cc33dd44ee55:1";
    let b = "Msg_0021db3ef9c0aa11bb22cc33dd44ee55:2";
    assert_eq!(thin_rowid(s0, a), thin_rowid(s0, a));
    assert!(thin_rowid(s0, a) >= 0 && thin_rowid(s0, b) >= 0);
    assert_ne!(thin_rowid(s0, a), thin_rowid(s0, b));
    assert_ne!(thin_rowid(s0, a), thin_rowid(s1, a));
    assert_ne!(thin_rowid("message_0.db", "x"), thin_rowid("message_0.dbx", ""));
    assert_eq!(thin_rowid("", ""), thin_rowid("", ""));
}

#[test]
fn thin_rowid_is_half_the_hash() {
    assert_eq!(thin_rowid("message_0.db", "Msg_a:1"), 7_470_199_782_662_554_311);
    assert_eq!(thin_rowid("", ""), 6_319_088_102_719_679_943);
}

#[test]
fn a_position_reads_back_from_its_text() {
    let c = cur(5, -42, 7, 9, Some(5));
    let text = c.to_watermark_value();
    assert_eq!(text, r#"{"ct":7,"fp":-42,"id":5,"n":5,"sid":9}"#);
    assert_eq!(DrainCursor::from_watermark_value(&text), Some(c));
    let fresh = DrainCursor::default();
    assert_eq!(DrainCursor::from_watermark_value(&fresh.to_watermark_value()), Some(fresh));
    assert_eq!(DrainCursor::from_watermark_value("123"), None);
    assert_eq!(DrainCursor::from_watermark_value(r#"{"fp":1}"#), None);
    assert_eq!(
        DrainCursor::from_fields(&vec![("id".to_string(), Some(3)), ("ct".to_string(), Some(4))]),
        Some(DrainCursor {
            local_id: 3,
            resume_fp: None,
            cursor_ct: Some(4),
            cursor_sid: None,
            prefix_rows: None,
        })
    );
}

#[test]
fn a_watermark_is_a_map_of_texts() {
    let positions = positions_of(vec![
        ("b".to_string(), "2".to_string()),
        ("a".to_string(), "\"1\"".to_string()),
    ]);
    let text = write_positions(&positions);
    assert_eq!(text, r#"{"a":"\"1\"","b":"2"}"#);
    let read = read_positions(Some(&text));
    assert_eq!(read.get("a").map(String::as_str), Some("\"1\""));
    assert_eq!(read.get("b").map(String::as_str), Some("2"));
    assert!(read.get("c").is_none());
    assert!(read_positions(None).get("a").is_none());
}

#[test]
fn an_unknown_server_id_never_conflicts() {
    assert!(sid_conflict(Some(1), Some(2)));
    assert!(!sid_conflict(Some(1), Some(1)));
    assert!(!sid_conflict(Some(0), Some(2)));
    assert!(!sid_conflict(Some(1), Some(0)));
    assert!(!sid_conflict(None, Some(2)));
    assert!(sid_missing(Some(0), Some(2)));
    assert!(sid_missing(None, Some(2)));
    assert!(!sid_missing(Some(1), Some(2)));
    assert!(!sid_missing(None, Some(0)));
}

#[test]
fn a_batch_is_indexed_and_its_position_stored() {
    let mut run = started(None);
    let mut table = run.open("message_0.db", "Msg_x");
    assert_eq!(table.key, "message_0.db|Msg_x");
    assert!(!table.needs_probe());
    let batch = DrainedBatch {
        rows: vec![row(1, Some("早上好")), row(2, None), row(3, Some(""))],
        next: cur(3, 111, 700, 900, None),
        has_more: true,
    };
    let Ok(commit) = run.take(&mut table, &batch) else {
        panic!("the batch ends at its last message");
    };
    assert!(commit.more);
    assert_eq!(commit.inserts.len(), 1);
    assert_eq!(commit.inserts[0].rowid, thin_rowid("message_0.db", "Msg_x:1"));
    assert_eq!(commit.inserts[0].source, "message_0.db");
    assert_eq!(commit.inserts[0].msg_id, "Msg_x:1");
    assert_eq!(commit.inserts[0].text, "早上好");
    assert_eq!(run.inserted, 1);
    assert_eq!(table.cursor.local_id, 3);

    let again = started(commit.watermark.as_deref()).open("message_0.db", "Msg_x");
    assert_eq!(again.cursor, batch.next);
    assert!(again.needs_probe());

    let end = DrainedBatch {
        rows: Vec::new(),
        next: cur(3, 111, 700, 900, None),
        has_more: false,
    };
    let Ok(last) = run.take(&mut table, &end) else {
        panic!("an empty batch is accepted");
    };
    assert!(!last.more && last.watermark.is_none() && last.inserts.is_empty());
}

#[test]
fn a_batch_that_skips_messages_is_refused() {
    let mut run = started(None);
    let mut table = run.open("message_0.db", "Msg_x");
    let batch = DrainedBatch {
        rows: vec![row(1, Some("早上好"))],
        next: cur(9, 111, 700, 900, None),
        has_more: true,
    };
    match run.take(&mut table, &batch) {
        Err(ThinError::PositionSkipsRows { table, next, last }) => {
            assert_eq!((table.as_str(), next, last), ("message_0.db|Msg_x", 9, 1));
        }
        _ => panic!("reading on from there would pass over messages"),
    }
    assert_eq!(run.inserted, 0);
    assert_eq!(table.cursor.local_id, 0);
}

#[test]
fn batches_of_no_rows_are_refused() {
    assert!(matches!(ThinRun::start(0, None), Err(ThinError::BatchLimitIsZero)));
}

#[test]
fn a_replaced_table_is_read_again_from_its_beginning() {
    let stored = positions_of(vec![(
        "message_0.db|Msg_x".to_string(),
        cur(10, 111, 700, 0, None).to_watermark_value(),
    )]);
    let watermark = write_positions(&stored);

    let mut run = started(Some(&watermark));
    let mut table = run.open("message_0.db", "Msg_x");
    assert!(run.resume(&mut table, &probe(222, 10, 700, 900, None)).is_none());
    assert_eq!(table.cursor, DrainCursor::default());

    let mut run = started(Some(&watermark));
    let mut table = run.open("message_0.db", "Msg_x");
    let learnt = run.resume(&mut table, &probe(111, 10, 700, 900, None));
    assert_eq!(table.cursor, cur(10, 111, 700, 900, None));
    let again = started(learnt.as_deref()).open("message_0.db", "Msg_x");
    assert_eq!(again.cursor, table.cursor);

    let mut run = started(Some(&watermark));
    let mut table = run.open("message_0.db", "Msg_x");
    assert!(run.resume(&mut table, &ResumeProbe::Unsupported).is_none());
    assert_eq!(table.cursor.local_id, 10);
}

#[test]
fn a_watermark_that_cannot_be_read_is_noticed() {
    let lost = |watermark: Option<&str>| started(watermark).watermark_is_lost(watermark);
    assert!(lost(Some(r#"{"message_0.db|Msg_x":123}"#)));
    assert!(lost(Some("{ broken")));
    assert!(!lost(None));
    assert!(!lost(Some(" \n")));
    assert!(!lost(Some(" {} ")));
    assert!(!lost(Some(r#"{"message_0.db|Msg_x":"5"}"#)));
}
