//! What the library makes of plain values: texts, patterns, logs, locks and plans.

use native_core::index::{
    ingest_rebuilt_indexes, normalize, reconcile_index, reconcile_index_for_test, IndexLookup, Reconcile,
};
use native_core::keyed::Keyed;
use native_core::lock::{acquire_watch_lock, watch_lock_base, watch_lock_path, LockAttempt};
use native_core::meta::{get_l1_generation, thin_rowkey_is_current, MetaRead};
use native_core::plan::{init_l1_schema, Step};
use native_core::redact::{DebugRow, Shown, Wanted};
use native_core::schema::{add_missing, columns_added, note_migration};
use native_core::search::{insert_thin_msg, search_can_use_index, search_messages, search_thin};
use native_core::sql::{Real, SqlValue};
use native_core::tables::Table;
use native_core::text::{is_white_space, numeral_text};
use native_core::wal::{WalOutcome, WalRetry, WalStep};

#[test]
fn numerals_are_decimal() {
    assert_eq!(numeral_text(0), "0");
    assert_eq!(numeral_text(-70), "-70");
    assert_eq!(numeral_text(i64::MAX), "9223372036854775807");
    assert_eq!(numeral_text(i64::MIN), "-9223372036854775808");
}

#[test]
fn a_map_keeps_the_last_value() {
    let mut map: Keyed<i64> = Keyed::new();
    map.set("a".to_string(), 1);
    map.set("b".to_string(), 2);
    map.set("a".to_string(), 3);
    assert_eq!(map.get("a"), Some(&3));
    assert_eq!(map.get("b"), Some(&2));
    assert_eq!(map.get("c"), None);
}

#[test]
fn a_definition_is_compared_without_case_and_spaces() {
    assert_eq!(
        normalize("CREATE INDEX  i\n ON\u{3000}T (A,\tB)"),
        normalize("create index i on t (a, b)")
    );
    assert_eq!(
        reconcile_index("i", "CREATE INDEX i ON t (a)", &IndexLookup::Defined("create  index i on T (a)".to_string())),
        Reconcile::Keep
    );
    assert_eq!(
        reconcile_index("i", "CREATE INDEX i ON t (a)", &IndexLookup::Absent),
        Reconcile::Create {
            run: "CREATE INDEX i ON t (a);".to_string()
        }
    );
    assert_eq!(
        reconcile_index("i", "CREATE INDEX i ON t (a)", &IndexLookup::Automatic),
        Reconcile::Keep
    );
    let other = IndexLookup::Defined("CREATE INDEX i ON t (b)".to_string());
    match reconcile_index_for_test("i", "CREATE INDEX i ON t (a)", &other) {
        Reconcile::Rebuild { run, undo } => {
            assert!(run.contains("DROP INDEX"));
            assert!(run.contains("CREATE INDEX i ON t (a)"));
            assert!(undo.contains("ROLLBACK"));
        }
        other => panic!("not rebuilt: {other:?}"),
    }
}

#[test]
fn short_texts_are_searched_by_pattern() {
    assert!(!search_can_use_index("ab"));
    assert!(search_can_use_index("abc"));
    assert!(search_thin("火锅", 5).is_none());
    assert_eq!(
        search_thin("吃火锅", 5).unwrap().params,
        vec![SqlValue::Text("吃火锅".to_string()), SqlValue::Integer(5)]
    );
    let by_pattern = search_messages("5%", 3, None, true);
    assert_eq!(by_pattern.params[0], SqlValue::Text("%5\\%%".to_string()));
    let by_index = search_messages("say \"hi\"", 3, Some("acct"), true);
    assert_eq!(by_index.params[0], SqlValue::Text("\"say \"\"hi\"\"\"".to_string()));
    assert!(by_index.params.contains(&SqlValue::Text("acct".to_string())));
}

#[test]
fn a_thin_message_takes_the_place_of_the_old_one() {
    let statements = insert_thin_msg(7, "s.db", "m", "t");
    assert_eq!(statements.len(), 2);
    assert_eq!(statements[0].sql, "DELETE FROM thin_fts WHERE rowid = ?1");
    assert_eq!(statements[0].params, vec![SqlValue::Integer(7)]);
    assert_eq!(
        statements[1].params,
        vec![
            SqlValue::Integer(7),
            SqlValue::Text("m".to_string()),
            SqlValue::Text("s.db".to_string()),
            SqlValue::Text("t".to_string()),
        ]
    );
}

#[test]
fn a_log_shows_quoted_texts_and_digests() {
    let row = DebugRow {
        name: "Row",
        fields: vec![
            ("kind", Shown::Text("a\"b".to_string())),
            ("n", Shown::Integer(-3)),
            ("flag", Shown::Flag(true)),
            ("none", Shown::NullableInteger(None)),
            ("id_sha8", Shown::Digest("wxid".to_string())),
        ],
        complete: true,
    };
    let wanted = row.wanted();
    assert_eq!(wanted[0], Wanted::Nothing);
    assert_eq!(wanted[4], Wanted::Digest("wxid".to_string()));
    let made: Vec<String> = wanted
        .iter()
        .map(|w| match w {
            Wanted::Digest(_) => "0a1b2c3d".to_string(),
            _ => String::new(),
        })
        .collect();
    assert_eq!(
        row.text(&made),
        "Row { kind: \"a\\\"b\", n: -3, flag: true, none: None, id_sha8: \"0a1b2c3d\" }"
    );
}

#[test]
fn a_missing_column_is_added_once() {
    let columns = Table::ChatroomMember.columns();
    let none: Vec<String> = Vec::new();
    let later = Table::ChatroomMember.ensure_columns(&none);
    assert_eq!(later.len(), 2);
    let existing: Vec<String> = columns.iter().map(|c| c.name.to_string()).collect();
    assert!(Table::ChatroomMember.ensure_columns(&existing).is_empty());
    assert!(add_missing("chatroom_member", &columns, &existing).is_empty());
    assert_eq!(columns_added(13, 15), 2);
    assert_eq!(columns_added(15, 13), 0);
    assert!(note_migration(2) && !note_migration(0));
}

#[test]
fn a_lock_is_refused_with_its_reason() {
    assert_eq!(watch_lock_base("l1.db", &None), "l1.db");
    assert_eq!(watch_lock_base("l1.db", &Some("/data/l1.db".to_string())), "/data/l1.db");
    let path = watch_lock_path("/data/l1.db");
    assert_eq!(path, "/data/l1.db.live-index.lock");
    assert_eq!(acquire_watch_lock(&path, &LockAttempt::Taken), Ok(()));
    for attempt in [
        LockAttempt::FileExists,
        LockAttempt::SharingViolation,
        LockAttempt::OsError(5),
    ] {
        assert!(acquire_watch_lock(&path, &attempt).unwrap_err().contains(&path));
    }
    assert!(acquire_watch_lock(&path, &LockAttempt::OsError(5)).unwrap_err().contains(" 5)"));
    assert!(acquire_watch_lock(&path, &LockAttempt::Io("denied".to_string()))
        .unwrap_err()
        .ends_with("denied"));
}

#[test]
fn a_busy_database_is_tried_again_for_a_while() {
    let mut retry = WalRetry::start();
    assert_eq!(retry.set_wal_with_retry(&WalOutcome::Busy), WalStep::Pause(2));
    assert_eq!(retry.set_wal_with_retry(&WalOutcome::Mode("delete".to_string())), WalStep::Pause(4));
    assert_eq!(retry.set_wal_with_retry(&WalOutcome::Mode("WAL".to_string())), WalStep::Done);
    assert_eq!(retry.set_wal_with_retry(&WalOutcome::Failed), WalStep::Fail);
    let mut tries = 0;
    while let WalStep::Pause(_) = retry.set_wal_with_retry(&WalOutcome::Busy) {
        tries += 1;
        assert!(tries < 100_000);
    }
    assert_eq!(retry.set_wal_with_retry(&WalOutcome::Busy), WalStep::Fail);
    assert_eq!(
        retry.set_wal_with_retry(&WalOutcome::Mode("delete".to_string())),
        WalStep::Degrade
    );
}

#[test]
fn a_fresh_archive_gets_its_version_first() {
    let steps = init_l1_schema(&None, false).unwrap();
    assert_eq!(steps[0], Step::StoreVersion);
    assert_eq!(steps[1], Step::Create(Table::RawPayloadArchive));
    assert_eq!(steps[steps.len() - 1], Step::CaptureTargets);
    let again = init_l1_schema(&Some("3".to_string()), true).unwrap();
    assert_eq!(again.len(), steps.len() - 1);
    assert!(init_l1_schema(&None, true).unwrap_err().message.contains("实际 None)"));
    assert!(init_l1_schema(&Some("1".to_string()), false)
        .unwrap_err()
        .message
        .contains("(需 3, 实际 Some(\"1\"))"));
}

#[test]
fn a_generation_table_without_its_row_is_an_error() {
    assert_eq!(get_l1_generation(MetaRead::NoTable).unwrap(), None);
    assert_eq!(get_l1_generation(MetaRead::Value("g".to_string())).unwrap(), Some("g".to_string()));
    assert!(get_l1_generation(MetaRead::NoRow).is_err());
    assert!(thin_rowkey_is_current(&Some("2".to_string())));
    assert!(!thin_rowkey_is_current(&Some("1".to_string())));
    assert!(!thin_rowkey_is_current(&None));
}

#[test]
fn a_number_is_handed_over_bit_for_bit() {
    let number = Real {
        bits: 28.386_938f64.to_bits(),
    };
    assert_eq!(f64::from_bits(number.bits), 28.386_938);
}

#[test]
fn white_space_is_what_unicode_says() {
    for c in (0..=0x10_ffff).filter_map(char::from_u32) {
        assert_eq!(is_white_space(c), c.is_whitespace());
    }
}

#[test]
fn an_index_is_reconciled_by_its_own_definition() {
    for index in ingest_rebuilt_indexes() {
        let definition = index.create();
        assert_eq!(
            index.reconcile(&IndexLookup::Absent),
            Reconcile::Create {
                run: format!("{definition};")
            }
        );
        assert_eq!(index.reconcile(&IndexLookup::Defined(definition.to_uppercase())), Reconcile::Keep);
        let other = IndexLookup::Defined("CREATE INDEX x ON y (z)".to_string());
        assert!(index.reconcile(&other).rebuilds());
        assert_eq!(
            index.reconcile(&other),
            reconcile_index(index.name, &definition, &other)
        );
    }
}

#[test]
fn a_map_is_empty_until_something_is_put_in() {
    let mut map: Keyed<i64> = Keyed::new();
    assert!(map.is_empty());
    map.set("a".to_string(), 1);
    assert!(!map.is_empty());
}

#[test]
fn one_archive_has_one_lock_under_all_its_names() {
    let resolved = Some("/data/l1.db".to_string());
    let path = |given: &str| watch_lock_path(&watch_lock_base(given, &resolved));
    assert_eq!(path("l1.db"), path("../data/l1.db"));
    assert!(acquire_watch_lock(&path("l1.db"), &LockAttempt::Taken).is_ok());
    for held in [LockAttempt::FileExists, LockAttempt::SharingViolation] {
        assert!(acquire_watch_lock(&path("../data/l1.db"), &held).is_err());
    }
}
