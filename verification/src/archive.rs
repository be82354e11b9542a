//! The archive of raw events: one row per event, kept for a replay window.

use vstd::prelude::*;

use crate::sql::{Effect, Op, Row, RowBuilder, SqlValue, Statement, Tail, Test, TestsBuilder, Val};

verus! {

/// One archived event.
#[derive(Clone, Debug, PartialEq, Eq)]
pub struct RawPayloadRecord {
    pub account_id_sha: String,
    pub source: String,
    pub source_native_id: String,
    pub event_type: String,
    pub event_action: String,
    pub event_seq: i64,
    pub ingest_time: i64,
    pub payload_json: String,
}

impl RawPayloadRecord {
    /// The row that the event is stored as, without its id.
    pub open spec fn row(self) -> Row {
        seq![
            ("account_id_sha"@, Val::Text(self.account_id_sha@)),
            ("source"@, Val::Text(self.source@)),
            ("source_native_id"@, Val::Text(self.source_native_id@)),
            ("event_type"@, Val::Text(self.event_type@)),
            ("event_action"@, Val::Text(self.event_action@)),
            ("event_seq"@, Val::Integer(self.event_seq as int)),
            ("ingest_time"@, Val::Integer(self.ingest_time as int)),
            ("payload_json"@, Val::Text(self.payload_json@)),
        ]
    }
}

/// Putting an event into the archive, unless it is there already.
pub open spec fn archiving(rec: RawPayloadRecord) -> Effect {
    Effect::Ignore { table: "raw_payload_archive"@, row: rec.row() }
}

/// The statement that archives an event, unless it is archived already.
pub fn insert_record(rec: &RawPayloadRecord) -> (statement: Statement)
    ensures
        statement.does(archiving(*rec)),
{
    let mut row = RowBuilder::new();
    row.text("account_id_sha", rec.account_id_sha.as_str());
    row.text("source", rec.source.as_str());
    row.text("source_native_id", rec.source_native_id.as_str());
    row.text("event_type", rec.event_type.as_str());
    row.text("event_action", rec.event_action.as_str());
    row.integer("event_seq", rec.event_seq);
    row.integer("ingest_time", rec.ingest_time);
    row.text("payload_json", rec.payload_json.as_str());
    assert(row@ =~= rec.row());
    row.ignore_into("raw_payload_archive")
}

/// Whether an event was new, from the number of rows that archiving it has changed.
pub fn record_was_new(changed: usize) -> (new: bool)
    ensures
        new == (changed == 1),
{
    changed == 1
}

/// The row of an archived event with its id.
pub open spec fn stored_event(id: int, rec: RawPayloadRecord) -> Row {
    crate::relation::numbered(rec.row(), "id"@, id)
}

/// The archive after an event was put in, unless it was there. The archive numbers its events:
/// `id` is what it gives this one.
pub open spec fn after_insert(rows: Seq<Row>, rec: RawPayloadRecord, id: int) -> Seq<Row> {
    crate::relation::after_numbering(
        archiving(rec),
        rows,
        crate::catalog::raw_payload_archive_key(),
        "id"@,
        id,
    )
}

/// Two events are the same event.
pub open spec fn is_same_event(a: RawPayloadRecord, b: RawPayloadRecord) -> bool {
    &&& a.account_id_sha@ == b.account_id_sha@
    &&& a.source@ == b.source@
    &&& a.source_native_id@ == b.source_native_id@
    &&& a.event_action@ == b.event_action@
    &&& a.event_seq == b.event_seq
}

proof fn lemma_id_is_outside_the_key()
    ensures
        !crate::catalog::raw_payload_archive_key().contains("id"@),
{
    reveal_strlit("id");
    reveal_strlit("account_id_sha");
    reveal_strlit("source");
    reveal_strlit("source_native_id");
    reveal_strlit("event_action");
    reveal_strlit("event_seq");
    let key = crate::catalog::raw_payload_archive_key();
    assert(key[0].len() == 14 && key[1].len() == 6 && key[2].len() == 16 && key[3].len() == 12);
    assert(key[4].len() == 9 && "id"@.len() == 2);
}

proof fn lemma_event_key(a: RawPayloadRecord, b: RawPayloadRecord)
    ensures
        crate::relation::same_key(a.row(), b.row(), crate::catalog::raw_payload_archive_key())
            <==> is_same_event(a, b),
{
    reveal_strlit("account_id_sha");
    reveal_strlit("source");
    reveal_strlit("source_native_id");
    reveal_strlit("event_type");
    reveal_strlit("event_action");
    reveal_strlit("event_seq");
    let (x, y) = (a.row(), b.row());
    let key = crate::catalog::raw_payload_archive_key();
    assert(key[0].len() == 14 && key[1].len() == 6 && key[2].len() == 16 && key[3].len() == 12);
    assert(key[4].len() == 9 && x[3].0.len() == 10 && y[3].0.len() == 10);
    let at: Seq<int> = seq![0int, 1, 2, 4, 5];
    crate::relation::lemma_same_key(x, y, key, at);
    assert(at[0] == 0 && at[1] == 1 && at[2] == 2 && at[3] == 4 && at[4] == 5);
}

/// Two stored events are the same event exactly where they agree in their origin, their action
/// and their number. Their ids, the time of the ingestion and the payload are not part of that.
pub proof fn law_archive_tells_events_apart(
    id: int,
    a: RawPayloadRecord,
    other_id: int,
    b: RawPayloadRecord,
)
    ensures
        crate::relation::same_key(
            stored_event(id, a),
            stored_event(other_id, b),
            crate::catalog::raw_payload_archive_key(),
        ) <==> is_same_event(a, b),
        crate::relation::same_key(
            stored_event(id, a),
            b.row(),
            crate::catalog::raw_payload_archive_key(),
        ) <==> is_same_event(a, b),
{
    let key = crate::catalog::raw_payload_archive_key();
    lemma_id_is_outside_the_key();
    lemma_event_key(a, b);
    crate::relation::lemma_numbered_key(a.row(), "id"@, id, b.row(), key);
    crate::relation::lemma_numbered_key(b.row(), "id"@, other_id, stored_event(id, a), key);
}

/// The number of rows that archiving an event has changed says whether it was new.
pub proof fn law_new_event_changes_one_row(rows: Seq<Row>, rec: RawPayloadRecord, id: int)
    ensures
        after_insert(rows, rec, id).len() - rows.len() == if crate::relation::has_key(
            rows,
            rec.row(),
            crate::catalog::raw_payload_archive_key(),
        ) {
            0int
        } else {
            1int
        },
{
}

/// No event is stored twice: an archive that tells its events apart does so after another one
/// was put in.
pub proof fn law_events_stay_apart(rows: Seq<Row>, rec: RawPayloadRecord, id: int)
    requires
        crate::relation::keyed_by(rows, crate::catalog::raw_payload_archive_key()),
    ensures
        crate::relation::keyed_by(
            after_insert(rows, rec, id),
            crate::catalog::raw_payload_archive_key(),
        ),
{
    lemma_id_is_outside_the_key();
    crate::relation::law_key_stays_a_key_beside_numbers(
        "raw_payload_archive"@,
        rows,
        rec.row(),
        crate::catalog::raw_payload_archive_key(),
        "id"@,
        id,
    );
}

/// An event that is archived again changes nothing, whatever its payload and its time of
/// ingestion are now: the first one stays, with its id.
pub proof fn law_replayed_event_is_ignored(
    rows: Seq<Row>,
    first: RawPayloadRecord,
    id: int,
    replayed: RawPayloadRecord,
    next_id: int,
)
    requires
        is_same_event(first, replayed),
    ensures
        ({
            let once = after_insert(rows, first, id);
            after_insert(once, replayed, next_id) == once
        }),
{
    lemma_id_is_outside_the_key();
    lemma_event_key(first, replayed);
    crate::relation::law_replay_is_ignored(
        "raw_payload_archive"@,
        rows,
        first.row(),
        replayed.row(),
        crate::catalog::raw_payload_archive_key(),
        "id"@,
        id,
        next_id,
    );
}

/// The columns of an archived event as they are read, its id first.
pub open spec fn record_columns() -> Seq<Seq<char>> {
    seq![
        "id"@,
        "account_id_sha"@,
        "source"@,
        "source_native_id"@,
        "event_type"@,
        "event_action"@,
        "event_seq"@,
        "ingest_time"@,
        "payload_json"@,
    ]
}

fn columns_to_read() -> (columns: Vec<&'static str>)
    ensures
        crate::sql::literals(columns@) == record_columns(),
{
    let mut columns: Vec<&'static str> = Vec::new();
    columns.push("id");
    columns.push("account_id_sha");
    columns.push("source");
    columns.push("source_native_id");
    columns.push("event_type");
    columns.push("event_action");
    columns.push("event_seq");
    columns.push("ingest_time");
    columns.push("payload_json");
    assert(crate::sql::literals(columns@) =~= record_columns());
    columns
}

/// The test for the events after an id.
pub open spec fn later_than(after_id: int) -> Seq<Test> {
    seq![Test { column: "id"@, op: Op::Above, value: Val::Integer(after_id) }]
}

/// The tests for the events after an id, of an account and of a type where these are
/// given.
pub open spec fn since(after_id: int, account: Val, kind: Val) -> Seq<Test> {
    seq![
        Test { column: "id"@, op: Op::Above, value: Val::Integer(after_id) },
        Test { column: "account_id_sha"@, op: Op::IsIfGiven, value: account },
        Test { column: "event_type"@, op: Op::IsIfGiven, value: kind },
    ]
}

/// The query for the events after an id, the oldest first.
pub open spec fn reading(after_id: int) -> Effect {
    Effect::Select {
        table: "raw_payload_archive"@,
        columns: record_columns(),
        tests: later_than(after_id),
        tail: Tail::Ascending { column: "id"@ },
    }
}

/// The query for the first events after an id, of an account and of a type where these are
/// given, the oldest first.
pub open spec fn reading_some(after_id: int, account: Val, kind: Val, limit: int) -> Effect {
    Effect::Select {
        table: "raw_payload_archive"@,
        columns: record_columns(),
        tests: since(after_id, account, kind),
        tail: Tail::FirstAscending { column: "id"@, limit },
    }
}

/// The query for the events after an id, the oldest first.
pub fn read_archive_since(after_id: i64) -> (statement: Statement)
    ensures
        statement.does(reading(after_id as int)),
{
    let mut tests = TestsBuilder::new();
    tests.integer("id", Op::Above, after_id);
    tests.select_ascending(&columns_to_read(), "raw_payload_archive", "id")
}

/// A given text as a value: null where none is given.
pub open spec fn given(text: Option<&str>) -> Val {
    match text {
        Some(t) => Val::Text(t@),
        None => Val::Null,
    }
}

fn given_value(text: Option<&str>) -> (value: SqlValue)
    ensures
        value@ == given(text),
{
    match text {
        Some(t) => SqlValue::Text(t.to_owned()),
        None => SqlValue::Null,
    }
}

/// The query for the first events after an id, of an account and of a type where
/// these are given, the oldest first.
pub fn read_archive_since_filtered(
    after_id: i64,
    account_id_sha: Option<&str>,
    event_type: Option<&str>,
    limit: i64,
) -> (statement: Statement)
    ensures
        statement.does(
            reading_some(
                after_id as int,
                given(account_id_sha),
                given(event_type),
                limit as int,
            ),
        ),
{
    let mut tests = TestsBuilder::new();
    tests.integer("id", Op::Above, after_id);
    tests.test("account_id_sha", Op::IsIfGiven, given_value(account_id_sha));
    tests.test("event_type", Op::IsIfGiven, given_value(event_type));
    assert(tests@ =~= since(after_id as int, given(account_id_sha), given(event_type)));
    tests.select_first(&columns_to_read(), "raw_payload_archive", "id", limit)
}

/// An event as the values of its columns, its id first.
pub open spec fn record_values(id: int, rec: RawPayloadRecord) -> Seq<Val> {
    seq![Val::Integer(id)] + crate::sql::values(rec.row())
}

/// Values that can be those of an event.
pub open spec fn is_record(values: Seq<Val>) -> bool {
    &&& values.len() == 9
    &&& values[0] is Integer
    &&& forall|i: int| 1 <= i <= 5 ==> (#[trigger] values[i]) is Text
    &&& values[6] is Integer
    &&& values[7] is Integer
    &&& values[8] is Text
}

fn text_at(values: &Vec<SqlValue>, i: usize) -> (text: Option<String>)
    requires
        i < values@.len(),
    ensures
        match text {
            Some(t) => values@[i as int]@ == Val::Text(t@),
            None => values@[i as int]@ !is Text,
        },
{
    match &values[i] {
        SqlValue::Text(t) => Some(t.clone()),
        _ => None,
    }
}

fn integer_at(values: &Vec<SqlValue>, i: usize) -> (number: Option<i64>)
    requires
        i < values@.len(),
    ensures
        match number {
            Some(n) => values@[i as int]@ == Val::Integer(n as int),
            None => values@[i as int]@ !is Integer,
        },
{
    match &values[i] {
        SqlValue::Integer(n) => Some(*n),
        _ => None,
    }
}

/// The event with its id that was read as values; none where the values are not
/// those of an event.
pub fn record_from_row(values: &Vec<SqlValue>) -> (record: Option<(i64, RawPayloadRecord)>)
    ensures
        match record {
            Some((id, rec)) => values@.map_values(|v: SqlValue| v@) == record_values(
                id as int,
                rec,
            ),
            None => !is_record(values@.map_values(|v: SqlValue| v@)),
        },
{
    let ghost views = values@.map_values(|v: SqlValue| v@);
    if values.len() != 9 {
        return None;
    }
    let id = match integer_at(values, 0) {
        Some(id) => id,
        None => {
            assert(views[0] !is Integer);
            return None;
        },
    };
    let mut texts: Vec<String> = Vec::new();
    let mut i: usize = 1;
    while i <= 5
        invariant
            1 <= i <= 6,
            values@.len() == 9,
            views == values@.map_values(|v: SqlValue| v@),
            texts@.len() == i - 1,
            forall|j: int| 0 <= j < texts@.len() ==> views[j + 1] == Val::Text((#[trigger] texts@[j])@),
        decreases 6 - i,
    {
        match text_at(values, i) {
            Some(t) => {
                texts.push(t);
            },
            None => {
                assert(views[i as int] !is Text);
                return None;
            },
        }
        i += 1;
    }
    let event_seq = match integer_at(values, 6) {
        Some(n) => n,
        None => {
            assert(views[6] !is Integer);
            return None;
        },
    };
    let ingest_time = match integer_at(values, 7) {
        Some(n) => n,
        None => {
            assert(views[7] !is Integer);
            return None;
        },
    };
    let payload_json = match text_at(values, 8) {
        Some(t) => t,
        None => {
            assert(views[8] !is Text);
            return None;
        },
    };
    let rec = RawPayloadRecord {
        account_id_sha: texts[0].clone(),
        source: texts[1].clone(),
        source_native_id: texts[2].clone(),
        event_type: texts[3].clone(),
        event_action: texts[4].clone(),
        event_seq,
        ingest_time,
        payload_json,
    };
    proof {
        assert(views[1] == Val::Text(texts@[0]@));
        assert(views[2] == Val::Text(texts@[1]@));
        assert(views[3] == Val::Text(texts@[2]@));
        assert(views[4] == Val::Text(texts@[3]@));
        assert(views[5] == Val::Text(texts@[4]@));
        assert(views =~= record_values(id as int, rec));
    }
    Some((id, rec))
}

/// A read gives back what a write wrote: the values of an event's row, behind an id,
/// are read as that event.
pub proof fn law_record_reads_back(id: int, rec: RawPayloadRecord, other: RawPayloadRecord, other_id: int)
    requires
        record_values(id, rec) == record_values(other_id, other),
    ensures
        is_record(record_values(id, rec)),
        other_id == id,
        other.row() == rec.row(),
{
    let a = crate::sql::values(rec.row());
    let b = crate::sql::values(other.row());
    assert(record_values(id, rec)[0] == record_values(other_id, other)[0]);
    assert(record_values(id, rec).skip(1) =~= a);
    assert(record_values(other_id, other).skip(1) =~= b);
    assert(rec.row() =~= other.row()) by {
        assert(a[0] == b[0] && a[1] == b[1] && a[2] == b[2] && a[3] == b[3]);
        assert(a[4] == b[4] && a[5] == b[5] && a[6] == b[6] && a[7] == b[7]);
    }
}

/// How many rows one batch of a prune takes out at most.
pub const ARCHIVE_PRUNE_BATCH: usize = 10_000;

/// For how many hours events are kept where nothing else is configured.
pub const ARCHIVE_RETENTION_HOURS_DEFAULT: u32 = 24;

/// The tests for the rows that a prune takes out: events that were ingested before
/// the cutoff, except those that record an error.
pub open spec fn expired(cutoff: int) -> Seq<Test> {
    seq![
        Test { column: "ingest_time"@, op: Op::Below, value: Val::Integer(cutoff) },
        Test { column: "event_action"@, op: Op::IsNot, value: Val::Text("error"@) },
    ]
}

/// A prune of the archive, batch by batch. Each batch is a transaction of its own, so
/// that what was deleted stays deleted when a later batch fails.
#[derive(Clone, Debug, PartialEq, Eq)]
pub struct PruneRun {
    /// Events that were ingested before this time are taken out.
    pub cutoff: i64,
    /// How many batches may still be run.
    pub batches_left: usize,
    /// How many rows were taken out so far.
    pub deleted: usize,
    /// The last batch was not full: nothing is left to take out.
    pub exhausted: bool,
}

impl PruneRun {
    /// Another batch has to be run.
    pub open spec fn goes_on(self) -> bool {
        self.batches_left > 0 && !self.exhausted
    }

    /// The prune after a batch has taken out `n` rows.
    pub open spec fn after_batch(self, n: int) -> PruneRun {
        PruneRun {
            cutoff: self.cutoff,
            batches_left: (self.batches_left - 1) as usize,
            deleted: (self.deleted + n) as usize,
            exhausted: n < ARCHIVE_PRUNE_BATCH,
        }
    }

    /// The next batch; none where the prune is over.
    pub fn next_batch(&self) -> (batch: Option<Statement>)
        ensures
            match batch {
                Some(statement) => self.goes_on() && statement.does(
                    Effect::DeleteSome {
                        table: "raw_payload_archive"@,
                        id: "id"@,
                        tests: expired(self.cutoff as int),
                        limit: ARCHIVE_PRUNE_BATCH as int,
                    },
                ),
                None => !self.goes_on(),
            },
    {
        if self.batches_left == 0 || self.exhausted {
            return None;
        }
        let mut tests = TestsBuilder::new();
        tests.integer("ingest_time", Op::Below, self.cutoff);
        tests.text("event_action", Op::IsNot, "error");
        assert(tests@ =~= expired(self.cutoff as int));
        Some(
            tests.delete_some_from("raw_payload_archive", "id", ARCHIVE_PRUNE_BATCH as i64),
        )
    }

    /// Takes in how many rows the batch has taken out.
    pub fn batch_done(&mut self, n: usize)
        requires
            old(self).goes_on(),
            old(self).deleted + n <= usize::MAX,
        ensures
            *final(self) == old(self).after_batch(n as int),
    {
        self.batches_left = self.batches_left - 1;
        self.deleted = self.deleted + n;
        self.exhausted = n < ARCHIVE_PRUNE_BATCH;
    }
}

/// A prune of all events that were ingested before `cutoff_ingest_time_ms`.
pub fn prune_older_than(cutoff_ingest_time_ms: i64) -> (run: PruneRun)
    ensures
        run == (PruneRun {
            cutoff: cutoff_ingest_time_ms,
            batches_left: usize::MAX,
            deleted: 0,
            exhausted: false,
        }),
{
    prune_older_than_capped(cutoff_ingest_time_ms, usize::MAX)
}

/// The same prune, ended after `max_batches` batches. What is left is for a later
/// prune.
pub fn prune_older_than_capped(cutoff_ingest_time_ms: i64, max_batches: usize) -> (run: PruneRun)
    ensures
        run == (PruneRun {
            cutoff: cutoff_ingest_time_ms,
            batches_left: max_batches,
            deleted: 0,
            exhausted: false,
        }),
{
    PruneRun {
        cutoff: cutoff_ingest_time_ms,
        batches_left: max_batches,
        deleted: 0,
        exhausted: false,
    }
}

/// The time before which events have left a window of hours that ends at `now_ms`.
pub open spec fn window_start(now_ms: int, retention_hours: int) -> int {
    now_ms - retention_hours * 3_600_000
}

/// The time before which events have left a window of hours that ends at `now_ms`.
pub fn retention_cutoff(now_ms: i64, retention_hours: u32) -> (cutoff: i64)
    requires
        window_start(now_ms as int, retention_hours as int) >= i64::MIN,
    ensures
        cutoff == window_start(now_ms as int, retention_hours as int),
{
    let window_ms: i64 = retention_hours as i64 * 3_600_000;
    now_ms - window_ms
}

/// A prune of all events that have left a window of `retention_hours` that ends at
/// `now_ms`.
pub fn prune_archive_now(now_ms: i64, retention_hours: u32) -> (run: PruneRun)
    requires
        window_start(now_ms as int, retention_hours as int) >= i64::MIN,
    ensures
        run == (PruneRun {
            cutoff: window_start(now_ms as int, retention_hours as int) as i64,
            batches_left: usize::MAX,
            deleted: 0,
            exhausted: false,
        }),
{
    prune_older_than(retention_cutoff(now_ms, retention_hours))
}

/// What a prune takes out: a row goes exactly if its event was ingested before the
/// cutoff and does not record an error.
pub proof fn law_prune_takes_expired_events(row: Row, cutoff: int)
    requires
        crate::relation::column(row, "ingest_time"@) is Integer,
        crate::relation::column(row, "event_action"@) is Text,
    ensures
        crate::relation::passes_all(row, expired(cutoff)) <==> {
            &&& crate::relation::column(row, "ingest_time"@)->Integer_0 < cutoff
            &&& crate::relation::column(row, "event_action"@) != Val::Text("error"@)
        },
{
    let tests = expired(cutoff);
    assert(tests[0].op == Op::Below);
    assert(tests[1].op == Op::IsNot);
    if crate::relation::passes_all(row, tests) {
        assert(crate::relation::passes(row, tests[0]));
        assert(crate::relation::passes(row, tests[1]));
    }
}

/// Events that record an error are never pruned, however old they are.
pub proof fn law_error_events_are_kept(row: Row, cutoff: int)
    requires
        crate::relation::column(row, "event_action"@) == Val::Text("error"@),
    ensures
        !crate::relation::passes_all(row, expired(cutoff)),
{
    let tests = expired(cutoff);
    assert(tests[1].op == Op::IsNot);
    assert(!crate::relation::passes(row, tests[1]));
}

/// An event exactly at the cutoff, and any later one, is kept.
pub proof fn law_events_from_the_cutoff_on_are_kept(row: Row, cutoff: int)
    requires
        crate::relation::column(row, "ingest_time"@) matches Val::Integer(t) && t >= cutoff,
    ensures
        !crate::relation::passes_all(row, expired(cutoff)),
{
    let tests = expired(cutoff);
    assert(tests[0].op == Op::Below);
    assert(!crate::relation::passes(row, tests[0]));
}

/// `states` are the archive before, between and after the batches of a prune, which
/// took out `sizes` rows each, as many batches as the prune asks for.
pub open spec fn is_prune(
    run: PruneRun,
    states: Seq<Seq<Row>>,
    sizes: Seq<int>,
) -> bool
    decreases sizes.len(),
{
    &&& states.len() == sizes.len() + 1
    &&& if sizes.len() == 0 {
        !run.goes_on()
    } else {
        &&& run.goes_on()
        &&& run.deleted + sizes[0] <= usize::MAX
        &&& crate::relation::some_deleted(
            states[0],
            expired(run.cutoff as int),
            ARCHIVE_PRUNE_BATCH as int,
            sizes[0],
            states[1],
        )
        &&& is_prune(run.after_batch(sizes[0]), states.skip(1), sizes.skip(1))
    }
}

/// The prune at its end.
pub open spec fn finished(run: PruneRun, sizes: Seq<int>) -> PruneRun
    decreases sizes.len(),
{
    if sizes.len() == 0 {
        run
    } else {
        finished(run.after_batch(sizes[0]), sizes.skip(1))
    }
}

/// A prune counts what it takes out and leaves what it must not take: at its end the
/// kept events are all there, the count is the number of rows that went, a prune that stopped
/// because nothing was left has left no expired event, and no row was changed or came in.
pub proof fn law_prune_is_exact(run: PruneRun, states: Seq<Seq<Row>>, sizes: Seq<int>)
    requires
        is_prune(run, states, sizes),
        sizes.len() > 0,
    ensures
        ({
            let tests = expired(run.cutoff as int);
            let before = states[0];
            let left = states.last();
            let end = finished(run, sizes);
            &&& crate::relation::failing(left, tests) == crate::relation::failing(before, tests)
            &&& end.deleted - run.deleted == crate::relation::passing(before, tests).len()
                - crate::relation::passing(left, tests).len()
            &&& end.exhausted ==> crate::relation::passing(left, tests).len() == 0
            &&& sizes.len() <= run.batches_left
            &&& left.to_multiset().subset_of(before.to_multiset())
        }),
    decreases sizes.len(),
{
    let next = run.after_batch(sizes[0]);
    assert(states.skip(1)[0] == states[1]);
    assert(states.skip(1).last() == states.last());
    if sizes.len() > 1 {
        law_prune_is_exact(next, states.skip(1), sizes.skip(1));
    } else {
        assert(sizes.skip(1).len() == 0);
        assert(finished(next, sizes.skip(1)) == next);
    }
}

/// A prune without a cap leaves no expired event: it can only end by running out of
/// them, for as long as batches can be counted.
pub proof fn law_uncapped_prune_clears_everything(
    cutoff: i64,
    states: Seq<Seq<Row>>,
    sizes: Seq<int>,
)
    requires
        is_prune(
            PruneRun { cutoff, batches_left: usize::MAX, deleted: 0, exhausted: false },
            states,
            sizes,
        ),
    ensures
        crate::relation::passing(states.last(), expired(cutoff as int)).len() == 0,
        crate::relation::failing(states.last(), expired(cutoff as int))
            == crate::relation::failing(states[0], expired(cutoff as int)),
{
    let run = PruneRun { cutoff, batches_left: usize::MAX, deleted: 0, exhausted: false };
    assert(sizes.len() > 0);
    law_prune_is_exact(run, states, sizes);
    lemma_end(run, states, sizes);
    let end = finished(run, sizes);
    if !end.exhausted {
        assert(end.deleted == usize::MAX * ARCHIVE_PRUNE_BATCH);
        assert(false) by (nonlinear_arith)
            requires
                end.deleted == usize::MAX * ARCHIVE_PRUNE_BATCH,
                end.deleted <= usize::MAX,
                ARCHIVE_PRUNE_BATCH == 10_000,
                usize::MAX > 0,
        ;
    }
}

/// A capped prune takes out as many expired events as its batches hold, and all of them where
/// there are fewer.
pub proof fn law_capped_prune_takes_what_fits(
    cutoff: i64,
    max_batches: usize,
    states: Seq<Seq<Row>>,
    sizes: Seq<int>,
)
    requires
        is_prune(
            PruneRun { cutoff, batches_left: max_batches, deleted: 0, exhausted: false },
            states,
            sizes,
        ),
    ensures
        ({
            let run = PruneRun { cutoff, batches_left: max_batches, deleted: 0, exhausted: false };
            let there = crate::relation::passing(states[0], expired(cutoff as int)).len();
            let fits = max_batches * ARCHIVE_PRUNE_BATCH;
            finished(run, sizes).deleted == if there <= fits {
                there as int
            } else {
                fits
            }
        }),
{
    let run = PruneRun { cutoff, batches_left: max_batches, deleted: 0, exhausted: false };
    let end = finished(run, sizes);
    lemma_end(run, states, sizes);
    if sizes.len() > 0 {
        law_prune_is_exact(run, states, sizes);
        assert(sizes.len() * ARCHIVE_PRUNE_BATCH <= max_batches * ARCHIVE_PRUNE_BATCH)
            by (nonlinear_arith)
            requires
                sizes.len() <= max_batches,
                ARCHIVE_PRUNE_BATCH == 10_000,
        ;
    }
}

/// A prune that ends without running out has used all its batches, and all of them
/// were full.
proof fn lemma_end(run: PruneRun, states: Seq<Seq<Row>>, sizes: Seq<int>)
    requires
        is_prune(run, states, sizes),
    ensures
        !finished(run, sizes).goes_on(),
        finished(run, sizes).batches_left == run.batches_left - sizes.len(),
        !finished(run, sizes).exhausted && !run.exhausted ==> finished(run, sizes).deleted
            == run.deleted + sizes.len() * ARCHIVE_PRUNE_BATCH,
        sizes.len() > 0 && !finished(run, sizes).exhausted ==> finished(run, sizes).deleted
            == run.deleted + sizes.len() * ARCHIVE_PRUNE_BATCH,
        finished(run, sizes).deleted <= run.deleted + sizes.len() * ARCHIVE_PRUNE_BATCH,
    decreases sizes.len(),
{
    if sizes.len() > 0 {
        let next = run.after_batch(sizes[0]);
        lemma_end(next, states.skip(1), sizes.skip(1));
        assert(sizes.len() * ARCHIVE_PRUNE_BATCH == ARCHIVE_PRUNE_BATCH + (sizes.len() - 1)
            * ARCHIVE_PRUNE_BATCH) by (nonlinear_arith);
        if !finished(run, sizes).exhausted {
            if sizes.len() == 1 {
                assert(sizes.skip(1).len() == 0);
            } else {
                assert(is_prune(next, states.skip(1), sizes.skip(1)));
                assert(next.goes_on());
            }
            assert(sizes[0] == ARCHIVE_PRUNE_BATCH);
        }
    }
}

/// The id of an archived event.
pub open spec fn event_id(row: Row) -> int {
    crate::relation::column(row, "id"@)->Integer_0
}

/// Rows as the archive holds them: each has an id of its own.
pub open spec fn has_ids(rows: Seq<Row>) -> bool {
    &&& forall|i: int|
        0 <= i < rows.len() ==> crate::relation::column(#[trigger] rows[i], "id"@) is Integer
    &&& crate::relation::keyed_by(rows, seq!["id"@])
}

/// Rows that stand in the order of their ids.
pub open spec fn in_id_order(rows: Seq<Row>) -> bool {
    &&& forall|i: int|
        0 <= i < rows.len() ==> crate::relation::column(#[trigger] rows[i], "id"@) is Integer
    &&& forall|i: int, j: int|
        0 <= i < j < rows.len() ==> event_id(#[trigger] rows[i]) < event_id(#[trigger] rows[j])
}

/// The row belongs to an account and a type, as far as these are given.
pub open spec fn is_wanted(row: Row, account: Val, kind: Val) -> bool {
    &&& account is Null || crate::relation::column(row, "account_id_sha"@) == account
    &&& kind is Null || crate::relation::column(row, "event_type"@) == kind
}

proof fn lemma_since(row: Row, after_id: int, account: Val, kind: Val)
    ensures
        crate::relation::passes_all(row, since(after_id, account, kind)) <==> {
            &&& crate::relation::column(row, "id"@) is Integer
            &&& event_id(row) > after_id
            &&& is_wanted(row, account, kind)
        },
        crate::relation::passes_all(row, later_than(after_id)) <==> {
            &&& crate::relation::column(row, "id"@) is Integer
            &&& event_id(row) > after_id
        },
{
    let tests = since(after_id, account, kind);
    assert(tests[0].op == Op::Above && tests[1].op == Op::IsIfGiven && tests[2].op
        == Op::IsIfGiven);
    if crate::relation::passes_all(row, tests) {
        assert(crate::relation::passes(row, tests[0]));
        assert(crate::relation::passes(row, tests[1]));
        assert(crate::relation::passes(row, tests[2]));
    }
    let plain = later_than(after_id);
    assert(plain[0].op == Op::Above);
    if crate::relation::passes_all(row, plain) {
        assert(crate::relation::passes(row, plain[0]));
    }
}

/// Rows in the order of their ids are determined by which rows they are.
proof fn lemma_order_is_unique(a: Seq<Row>, b: Seq<Row>)
    requires
        in_id_order(a),
        in_id_order(b),
        forall|r: Row| #[trigger] a.contains(r) <==> b.contains(r),
    ensures
        a == b,
    decreases a.len(),
{
    if a.len() == 0 {
        if b.len() > 0 {
            assert(b.contains(b[0]));
            assert(!a.contains(b[0]));
        }
        assert(a =~= b);
    } else {
        assert(a.contains(a[a.len() - 1]));
        assert(b.contains(a.last()));
        assert(b.contains(b[b.len() - 1]));
        assert(a.contains(b.last()));
        let i = choose|i: int| 0 <= i < a.len() && a[i] == b.last();
        let j = choose|j: int| 0 <= j < b.len() && b[j] == a.last();
        if i < a.len() - 1 {
            assert(event_id(a[i]) < event_id(a[a.len() - 1]));
            assert(event_id(b.last()) < event_id(b[j]));
        }
        assert(a.last() == b.last());
        let (head_a, head_b) = (a.drop_last(), b.drop_last());
        assert forall|r: Row| #[trigger] head_a.contains(r) implies head_b.contains(r) by {
            let k = choose|k: int| 0 <= k < head_a.len() && head_a[k] == r;
            assert(a[k] == r);
            assert(event_id(a[k]) < event_id(a[a.len() - 1]));
            assert(a.contains(r));
            let m = choose|m: int| 0 <= m < b.len() && b[m] == r;
            assert(head_b[m] == r);
        }
        assert forall|r: Row| #[trigger] head_b.contains(r) implies head_a.contains(r) by {
            let k = choose|k: int| 0 <= k < head_b.len() && head_b[k] == r;
            assert(b[k] == r);
            assert(event_id(b[k]) < event_id(b[b.len() - 1]));
            assert(b.contains(r));
            assert(a.contains(r));
            let m = choose|m: int| 0 <= m < a.len() && a[m] == r;
            assert(head_a[m] == r);
        }
        lemma_order_is_unique(head_a, head_b);
        assert(a =~= head_a.push(a.last()));
        assert(b =~= head_b.push(b.last()));
    }
}

/// What a query in the order of the ids gives.
proof fn lemma_sorted(rows: Seq<Row>, tests: Seq<Test>, all: Seq<Row>)
    requires
        has_ids(rows),
        crate::relation::sorted_passing(rows, tests, "id"@, all),
    ensures
        in_id_order(all),
        forall|r: Row| #[trigger]
            all.contains(r) <==> rows.contains(r) && crate::relation::passes_all(r, tests),
{
    let key = seq!["id"@];
    let keep = |r: Row| crate::relation::passes_all(r, tests);
    let kept = rows.filter(keep);
    crate::relation::lemma_filtered(rows, keep);
    crate::relation::lemma_filter_keeps_distinct(rows, key, keep);
    kept.to_multiset_ensures();
    all.to_multiset_ensures();
    assert forall|r: Row| #[trigger] all.contains(r) <==> rows.contains(r)
        && crate::relation::passes_all(r, tests) by {
        assert(all.contains(r) <==> all.to_multiset().count(r) > 0);
        assert(kept.contains(r) <==> kept.to_multiset().count(r) > 0);
        if kept.contains(r) {
            let i = choose|i: int| 0 <= i < kept.len() && kept[i] == r;
            assert(keep(kept[i]));
            assert(rows.contains(kept[i]));
        }
        if rows.contains(r) && keep(r) {
            let i = choose|i: int| 0 <= i < rows.len() && rows[i] == r;
            assert(keep(rows[i]));
            assert(kept.contains(rows[i]));
        }
    }
    assert forall|i: int, j: int| 0 <= i < kept.len() && 0 <= j < kept.len() && i
        != j implies kept[i] != kept[j] by {
        if i < j {
            assert(!crate::relation::same_key(kept[i], kept[j], key));
        } else {
            assert(!crate::relation::same_key(kept[j], kept[i], key));
        }
    }
    assert(kept.no_duplicates());
    kept.lemma_multiset_has_no_duplicates();
    all.lemma_multiset_has_no_duplicates_conv();
    assert forall|i: int| 0 <= i < all.len() implies crate::relation::column(
        #[trigger] all[i],
        "id"@,
    ) is Integer by {
        assert(all.contains(all[i]));
        assert(rows.contains(all[i]));
    }
    assert forall|i: int, j: int| 0 <= i < j < all.len() implies event_id(#[trigger] all[i])
        < event_id(#[trigger] all[j]) by {
        assert(all.contains(all[i]) && all.contains(all[j]));
        let x = choose|x: int| 0 <= x < rows.len() && rows[x] == all[i];
        let y = choose|y: int| 0 <= y < rows.len() && rows[y] == all[j];
        assert(all[i] != all[j]);
        if event_id(all[i]) == event_id(all[j]) {
            assert(crate::relation::same_key(rows[x], rows[y], key));
            assert(crate::relation::same_key(rows[y], rows[x], key));
            if x < y {
                assert(!crate::relation::same_key(rows[x], rows[y], key));
            } else {
                assert(!crate::relation::same_key(rows[y], rows[x], key));
            }
        }
    }
}

/// Reading after an id gives every later event once, in the order of the ids, and nothing else.
pub proof fn law_reading_is_complete_and_in_order(rows: Seq<Row>, after_id: int, found: Seq<Row>)
    requires
        has_ids(rows),
        crate::relation::selected(reading(after_id), rows, found),
    ensures
        in_id_order(found),
        forall|r: Row| #[trigger]
            found.contains(r) <==> rows.contains(r) && event_id(r) > after_id,
{
    lemma_sorted(rows, later_than(after_id), found);
    assert forall|r: Row| #[trigger] found.contains(r) <==> rows.contains(r) && event_id(r)
        > after_id by {
        lemma_since(r, after_id, Val::Null, Val::Null);
        if rows.contains(r) {
            let i = choose|i: int| 0 <= i < rows.len() && rows[i] == r;
            assert(crate::relation::column(rows[i], "id"@) is Integer);
        }
    }
}

/// Reading on from an event that was read gives exactly the rest: nothing is read twice and
/// nothing is passed over.
pub proof fn law_reading_resumes(
    rows: Seq<Row>,
    after_id: int,
    found: Seq<Row>,
    k: int,
    rest: Seq<Row>,
)
    requires
        has_ids(rows),
        crate::relation::selected(reading(after_id), rows, found),
        0 <= k < found.len(),
        crate::relation::selected(reading(event_id(found[k])), rows, rest),
    ensures
        rest == found.skip(k + 1),
{
    let reached = event_id(found[k]);
    law_reading_is_complete_and_in_order(rows, after_id, found);
    law_reading_is_complete_and_in_order(rows, reached, rest);
    assert(found.contains(found[k]));
    lemma_rest(found, k + 1, rest);
}

/// In the order of the ids, the rows above one row are those behind it.
proof fn lemma_rest(found: Seq<Row>, n: int, rest: Seq<Row>)
    requires
        in_id_order(found),
        in_id_order(rest),
        0 < n <= found.len(),
        forall|r: Row| #[trigger]
            rest.contains(r) <==> found.contains(r) && event_id(r) > event_id(found[n - 1]),
    ensures
        rest == found.skip(n),
{
    let behind = found.skip(n);
    assert forall|r: Row| #[trigger] behind.contains(r) <==> rest.contains(r) by {
        if behind.contains(r) {
            let i = choose|i: int| 0 <= i < behind.len() && behind[i] == r;
            assert(found[n + i] == r);
            assert(event_id(found[n - 1]) < event_id(found[n + i]));
        }
        if rest.contains(r) {
            assert(found.contains(r));
            let i = choose|i: int| 0 <= i < found.len() && found[i] == r;
            if i < n - 1 {
                assert(event_id(found[i]) < event_id(found[n - 1]));
            }
            assert(behind[i - n] == r);
        }
    }
    assert(in_id_order(behind)) by {
        assert forall|i: int| 0 <= i < behind.len() implies crate::relation::column(
            #[trigger] behind[i],
            "id"@,
        ) is Integer by {
            assert(behind[i] == found[n + i]);
        }
        assert forall|i: int, j: int| 0 <= i < j < behind.len() implies event_id(
            #[trigger] behind[i],
        ) < event_id(#[trigger] behind[j]) by {
            assert(behind[i] == found[n + i] && behind[j] == found[n + j]);
        }
    }
    lemma_order_is_unique(rest, behind);
}

proof fn lemma_filter_in_order(rows: Seq<Row>, keep: spec_fn(Row) -> bool)
    requires
        in_id_order(rows),
    ensures
        in_id_order(rows.filter(keep)),
    decreases rows.len(),
{
    reveal(Seq::filter);
    if rows.len() > 0 {
        let head = rows.drop_last();
        let kept_head = head.filter(keep);
        let kept = rows.filter(keep);
        lemma_filter_in_order(head, keep);
        crate::relation::lemma_filtered(head, keep);
        crate::relation::lemma_filtered(rows, keep);
        assert forall|i: int| 0 <= i < kept.len() implies crate::relation::column(
            #[trigger] kept[i],
            "id"@,
        ) is Integer by {
            assert(rows.contains(kept[i]));
        }
        assert forall|i: int, j: int| 0 <= i < j < kept.len() implies event_id(#[trigger] kept[i])
            < event_id(#[trigger] kept[j]) by {
            if j < kept_head.len() {
                assert(event_id(kept_head[i]) < event_id(kept_head[j]));
            } else {
                assert(head.contains(kept_head[i]));
                let k = choose|k: int| 0 <= k < head.len() && head[k] == kept_head[i];
                assert(event_id(rows[k]) < event_id(rows[rows.len() - 1]));
            }
        }
    }
}

/// The filter comes before the limit: reading some events gives the first of those events that
/// are wanted, in the order in which reading all gives them.
pub proof fn law_filter_comes_before_the_limit(
    rows: Seq<Row>,
    after_id: int,
    account: Val,
    kind: Val,
    limit: int,
    all: Seq<Row>,
    found: Seq<Row>,
)
    requires
        has_ids(rows),
        crate::relation::selected(reading(after_id), rows, all),
        crate::relation::selected(reading_some(after_id, account, kind, limit), rows, found),
    ensures
        found == crate::relation::first_rows(
            all.filter(|r: Row| is_wanted(r, account, kind)),
            limit,
        ),
{
    let keep = |r: Row| is_wanted(r, account, kind);
    let tests = since(after_id, account, kind);
    let sorted = choose|s: Seq<Row>| #[trigger]
        crate::relation::sorted_passing(rows, tests, "id"@, s) && found
            == crate::relation::first_rows(s, limit);
    lemma_wanted(rows, after_id, account, kind, all, sorted);
}

proof fn lemma_wanted(
    rows: Seq<Row>,
    after_id: int,
    account: Val,
    kind: Val,
    all: Seq<Row>,
    sorted: Seq<Row>,
)
    requires
        has_ids(rows),
        crate::relation::selected(reading(after_id), rows, all),
        crate::relation::sorted_passing(rows, since(after_id, account, kind), "id"@, sorted),
    ensures
        sorted == all.filter(|r: Row| is_wanted(r, account, kind)),
        in_id_order(sorted),
{
    let keep = |r: Row| is_wanted(r, account, kind);
    let kept = all.filter(keep);
    law_reading_is_complete_and_in_order(rows, after_id, all);
    lemma_sorted(rows, since(after_id, account, kind), sorted);
    lemma_filter_in_order(all, keep);
    crate::relation::lemma_filtered(all, keep);
    assert forall|r: Row| #[trigger] sorted.contains(r) <==> kept.contains(r) by {
        lemma_since(r, after_id, account, kind);
        if kept.contains(r) {
            let i = choose|i: int| 0 <= i < kept.len() && kept[i] == r;
            assert(keep(kept[i]));
            assert(all.contains(kept[i]));
            let j = choose|j: int| 0 <= j < rows.len() && rows[j] == r;
            assert(crate::relation::column(rows[j], "id"@) is Integer);
        }
        if sorted.contains(r) {
            assert(all.contains(r));
            let i = choose|i: int| 0 <= i < all.len() && all[i] == r;
            assert(keep(all[i]));
        }
    }
    lemma_order_is_unique(sorted, kept);
}

/// Reading in pages loses nothing and repeats nothing: the page that is read from the last
/// event of a page on begins right behind it.
pub proof fn law_pages_join(
    rows: Seq<Row>,
    after_id: int,
    account: Val,
    kind: Val,
    limit: int,
    all: Seq<Row>,
    page: Seq<Row>,
    next_limit: int,
    next: Seq<Row>,
)
    requires
        has_ids(rows),
        crate::relation::selected(reading(after_id), rows, all),
        crate::relation::selected(reading_some(after_id, account, kind, limit), rows, page),
        page.len() > 0,
        crate::relation::selected(
            reading_some(event_id(page.last()), account, kind, next_limit),
            rows,
            next,
        ),
    ensures
        next == crate::relation::first_rows(
            all.filter(|r: Row| is_wanted(r, account, kind)).skip(page.len() as int),
            next_limit,
        ),
{
    let reached = event_id(page.last());
    let tests = since(after_id, account, kind);
    let sorted = choose|s: Seq<Row>| #[trigger]
        crate::relation::sorted_passing(rows, tests, "id"@, s) && page
            == crate::relation::first_rows(s, limit);
    lemma_wanted(rows, after_id, account, kind, all, sorted);
    lemma_sorted(rows, tests, sorted);
    let further = choose|s: Seq<Row>| #[trigger]
        crate::relation::sorted_passing(rows, since(reached, account, kind), "id"@, s) && next
            == crate::relation::first_rows(s, next_limit);
    lemma_sorted(rows, since(reached, account, kind), further);
    let n = page.len() as int;
    assert(page.last() == sorted[n - 1]);
    assert(sorted.contains(sorted[n - 1]));
    lemma_since(sorted[n - 1], after_id, account, kind);
    assert forall|r: Row| #[trigger] further.contains(r) <==> sorted.contains(r) && event_id(r)
        > event_id(sorted[n - 1]) by {
        lemma_since(r, after_id, account, kind);
        lemma_since(r, reached, account, kind);
    }
    lemma_rest(sorted, n, further);
}

/// An event is read with all its fields as they were stored.
pub proof fn law_event_is_read_as_stored(id: int, rec: RawPayloadRecord)
    ensures
        crate::relation::projected(stored_event(id, rec), record_columns()) == record_values(
            id,
            rec,
        ),
{
    reveal_strlit("id");
    reveal_strlit("account_id_sha");
    reveal_strlit("source");
    reveal_strlit("source_native_id");
    reveal_strlit("event_type");
    reveal_strlit("event_action");
    reveal_strlit("event_seq");
    reveal_strlit("ingest_time");
    reveal_strlit("payload_json");
    let row = stored_event(id, rec);
    let names = record_columns();
    let read = crate::relation::projected(row, names);
    let values = record_values(id, rec);
    assert(names[0].len() == 2 && names[1].len() == 14 && names[2].len() == 6);
    assert(names[3].len() == 16 && names[4].len() == 10 && names[5].len() == 12);
    assert(names[6].len() == 9 && names[7].len() == 11 && names[8].len() == 12);
    assert(names[5][0] != names[8][0]);
    assert forall|i: int| 0 <= i < 9 implies #[trigger] read[i] == values[i] by {
        assert(row[i].0 == names[i] && row[i].1 == values[i]);
        assert forall|j: int| 0 <= j < i implies (#[trigger] row[j]).0 != row[i].0 by {
            assert(row[j].0 == names[j]);
        }
        crate::relation::lemma_column_at(row, i);
    }
    assert(read =~= values);
}

/// The ids of the archive lie below an id, as they do below the one that it gives next.
pub open spec fn ids_are_below(rows: Seq<Row>, id: int) -> bool {
    forall|i: int| 0 <= i < rows.len() ==> event_id(#[trigger] rows[i]) < id
}

/// The archive stays numbered: after an event was put in, each event has an id of its own.
pub proof fn law_ids_stay_apart(rows: Seq<Row>, rec: RawPayloadRecord, id: int)
    requires
        has_ids(rows),
        ids_are_below(rows, id),
    ensures
        has_ids(after_insert(rows, rec, id)),
        ids_are_below(after_insert(rows, rec, id), id + 1),
{
    let row = stored_event(id, rec);
    let left = after_insert(rows, rec, id);
    let key = seq!["id"@];
    crate::relation::lemma_numbered(rec.row(), "id"@, id, "id"@);
    assert forall|i: int, j: int| 0 <= i < j < left.len() implies !crate::relation::same_key(
        #[trigger] left[i],
        #[trigger] left[j],
        key,
    ) by {
        if j == rows.len() {
            assert(event_id(rows[i]) < id);
            assert(crate::relation::column(rows[i], key[0]) != crate::relation::column(row, key[0]));
        }
    }
}

/// A prune takes no id away from the events that it leaves, and leaves none twice.
pub proof fn law_prune_keeps_ids(
    rows: Seq<Row>,
    cutoff: int,
    limit: int,
    deleted: int,
    left: Seq<Row>,
    id: int,
)
    requires
        has_ids(rows),
        crate::relation::some_deleted(rows, expired(cutoff), limit, deleted, left),
    ensures
        has_ids(left),
        ids_are_below(rows, id) ==> ids_are_below(left, id),
        crate::relation::keyed_by(rows, crate::catalog::raw_payload_archive_key())
            ==> crate::relation::keyed_by(left, crate::catalog::raw_payload_archive_key()),
{
    let key = crate::catalog::raw_payload_archive_key();
    crate::relation::law_key_stays_a_key_in_fewer_rows(rows, left, seq!["id"@]);
    if crate::relation::keyed_by(rows, key) {
        crate::relation::law_key_stays_a_key_in_fewer_rows(rows, left, key);
    }
    assert forall|i: int| 0 <= i < left.len() implies crate::relation::column(
        #[trigger] left[i],
        "id"@,
    ) is Integer && (ids_are_below(rows, id) ==> event_id(left[i]) < id) by {
        assert(left.contains(left[i]));
        let j = choose|j: int| 0 <= j < rows.len() && rows[j] == left[i];
        assert(crate::relation::column(rows[j], "id"@) is Integer);
    }
}

/// What a query in the order of the ids gives once a row with a higher id is in.
proof fn lemma_new_row(
    rows: Seq<Row>,
    row: Row,
    tests: Seq<Test>,
    before: Seq<Row>,
    later: Seq<Row>,
)
    requires
        has_ids(rows),
        has_ids(rows.push(row)),
        ids_are_below(rows, event_id(row)),
        crate::relation::sorted_passing(rows, tests, "id"@, before),
        crate::relation::sorted_passing(rows.push(row), tests, "id"@, later),
    ensures
        later == if crate::relation::passes_all(row, tests) {
            before.push(row)
        } else {
            before
        },
{
    let all = rows.push(row);
    let expected = if crate::relation::passes_all(row, tests) {
        before.push(row)
    } else {
        before
    };
    lemma_sorted(rows, tests, before);
    lemma_sorted(all, tests, later);
    assert(crate::relation::column(all[rows.len() as int], "id"@) is Integer);
    assert forall|i: int, j: int| 0 <= i < j < expected.len() implies event_id(
        #[trigger] expected[i],
    ) < event_id(#[trigger] expected[j]) by {
        if j == before.len() {
            assert(before.contains(before[i]));
            let k = choose|k: int| 0 <= k < rows.len() && rows[k] == before[i];
            assert(event_id(rows[k]) < event_id(row));
        }
    }
    assert forall|r: Row| #[trigger] later.contains(r) <==> expected.contains(r) by {
        if all.contains(r) {
            let k = choose|k: int| 0 <= k < all.len() && all[k] == r;
            if k < rows.len() {
                assert(rows[k] == r);
            }
        }
        if rows.contains(r) {
            let k = choose|k: int| 0 <= k < rows.len() && rows[k] == r;
            assert(all[k] == r);
        }
        assert(all[rows.len() as int] == row);
        if before.contains(r) {
            let k = choose|k: int| 0 <= k < before.len() && before[k] == r;
            assert(expected[k] == r);
        }
        if expected.contains(r) {
            let k = choose|k: int| 0 <= k < expected.len() && expected[k] == r;
            if k < before.len() {
                assert(before[k] == r);
            }
        }
        if crate::relation::passes_all(row, tests) {
            assert(expected[before.len() as int] == row);
        }
    }
    lemma_order_is_unique(later, expected);
}

/// A read gives back what a write wrote: an event that was new is read behind all the events
/// that were read before, under its id and with all its fields.
pub proof fn law_new_event_is_read(
    rows: Seq<Row>,
    rec: RawPayloadRecord,
    id: int,
    after_id: int,
    before: Seq<Row>,
    later: Seq<Row>,
)
    requires
        has_ids(rows),
        ids_are_below(rows, id),
        after_id < id,
        !crate::relation::has_key(rows, rec.row(), crate::catalog::raw_payload_archive_key()),
        crate::relation::selected(reading(after_id), rows, before),
        crate::relation::selected(reading(after_id), after_insert(rows, rec, id), later),
    ensures
        later == before.push(stored_event(id, rec)),
        crate::relation::projected(later.last(), record_columns()) == record_values(id, rec),
{
    let row = stored_event(id, rec);
    law_ids_stay_apart(rows, rec, id);
    crate::relation::lemma_numbered(rec.row(), "id"@, id, "id"@);
    lemma_since(row, after_id, Val::Null, Val::Null);
    lemma_new_row(rows, row, later_than(after_id), before, later);
    law_event_is_read_as_stored(id, rec);
}

/// The event belongs to an account and a type, as far as these are given.
pub open spec fn wants(rec: RawPayloadRecord, account: Val, kind: Val) -> bool {
    &&& account is Null || account == Val::Text(rec.account_id_sha@)
    &&& kind is Null || kind == Val::Text(rec.event_type@)
}

/// The same of a read that wants some events: an event that was new is read behind the others
/// if it is wanted and the limit has room for it, and changes nothing otherwise.
pub proof fn law_new_event_is_read_if_wanted(
    rows: Seq<Row>,
    rec: RawPayloadRecord,
    id: int,
    after_id: int,
    account: Val,
    kind: Val,
    limit: int,
    before: Seq<Row>,
    later: Seq<Row>,
)
    requires
        has_ids(rows),
        ids_are_below(rows, id),
        after_id < id,
        !crate::relation::has_key(rows, rec.row(), crate::catalog::raw_payload_archive_key()),
        crate::relation::selected(reading_some(after_id, account, kind, limit), rows, before),
        crate::relation::selected(
            reading_some(after_id, account, kind, limit),
            after_insert(rows, rec, id),
            later,
        ),
    ensures
        later == if wants(rec, account, kind) && (limit < 0 || before.len() < limit) {
            before.push(stored_event(id, rec))
        } else {
            before
        },
{
    let row = stored_event(id, rec);
    let tests = since(after_id, account, kind);
    let left = after_insert(rows, rec, id);
    law_ids_stay_apart(rows, rec, id);
    crate::relation::lemma_numbered(rec.row(), "id"@, id, "id"@);
    lemma_since(row, after_id, account, kind);
    law_event_is_read_as_stored(id, rec);
    let read = crate::relation::projected(row, record_columns());
    let values = record_values(id, rec);
    assert(read[1] == values[1] && read[4] == values[4]);
    assert(values[1] == Val::Text(rec.account_id_sha@) && values[4] == Val::Text(rec.event_type@));
    assert(is_wanted(row, account, kind) <==> wants(rec, account, kind));
    let first = choose|s: Seq<Row>| #[trigger]
        crate::relation::sorted_passing(rows, tests, "id"@, s) && before
            == crate::relation::first_rows(s, limit);
    let second = choose|s: Seq<Row>| #[trigger]
        crate::relation::sorted_passing(left, tests, "id"@, s) && later
            == crate::relation::first_rows(s, limit);
    lemma_new_row(rows, row, tests, first, second);
    if wants(rec, account, kind) && 0 <= limit <= first.len() {
        assert(first.push(row).take(limit) =~= first.take(limit));
        assert(first.take(first.len() as int) =~= first);
    }
}

/// The archive after events were put in one after the other, each under the id beside it unless
/// it was there.
pub open spec fn after_inserts(rows: Seq<Row>, events: Seq<(int, RawPayloadRecord)>) -> Seq<Row>
    decreases events.len(),
{
    if events.len() == 0 {
        rows
    } else {
        after_insert(
            after_inserts(rows, events.drop_last()),
            events.last().1,
            events.last().0,
        )
    }
}

/// Those of the events that were new, as they are stored, in the order in which they came.
pub open spec fn new_events(rows: Seq<Row>, events: Seq<(int, RawPayloadRecord)>) -> Seq<Row>
    decreases events.len(),
{
    if events.len() == 0 {
        Seq::empty()
    } else {
        let earlier = new_events(rows, events.drop_last());
        if crate::relation::has_key(
            after_inserts(rows, events.drop_last()),
            events.last().1.row(),
            crate::catalog::raw_payload_archive_key(),
        ) {
            earlier
        } else {
            earlier.push(stored_event(events.last().0, events.last().1))
        }
    }
}

/// The ids that the archive gives to events: each one is above those that it gave before.
pub open spec fn ids_ascend(rows: Seq<Row>, events: Seq<(int, RawPayloadRecord)>) -> bool {
    &&& forall|i: int| 0 <= i < events.len() ==> ids_are_below(rows, (#[trigger] events[i]).0)
    &&& forall|i: int, j: int|
        0 <= i < j < events.len() ==> (#[trigger] events[i]).0 < (#[trigger] events[j]).0
}

proof fn lemma_inserts(rows: Seq<Row>, events: Seq<(int, RawPayloadRecord)>, after_id: int)
    requires
        has_ids(rows),
        ids_ascend(rows, events),
        forall|i: int| 0 <= i < events.len() ==> after_id < (#[trigger] events[i]).0,
    ensures
        after_inserts(rows, events) == rows + new_events(rows, events),
        has_ids(after_inserts(rows, events)),
        forall|id: int|
            ids_are_below(rows, id) && (events.len() > 0 ==> events.last().0 < id)
                ==> #[trigger] ids_are_below(after_inserts(rows, events), id),
        in_id_order(new_events(rows, events)),
        forall|i: int|
            0 <= i < new_events(rows, events).len() ==> {
                let id = event_id(#[trigger] new_events(rows, events)[i]);
                id > after_id && ids_are_below(rows, id)
            },
    decreases events.len(),
{
    if events.len() == 0 {
        assert(rows + new_events(rows, events) =~= rows);
    } else {
        let head = events.drop_last();
        let (id, rec) = events.last();
        let before = after_inserts(rows, head);
        let earlier = new_events(rows, head);
        let new = new_events(rows, events);
        assert forall|i: int| 0 <= i < head.len() implies ids_are_below(
            rows,
            (#[trigger] head[i]).0,
        ) && after_id < head[i].0 by {
            assert(events[i] == head[i]);
        }
        assert forall|i: int, j: int| 0 <= i < j < head.len() implies (#[trigger] head[i]).0 < (
        #[trigger] head[j]).0 by {
            assert(events[i] == head[i] && events[j] == head[j]);
        }
        lemma_inserts(rows, head, after_id);
        assert(events[events.len() - 1].0 == id);
        assert(ids_are_below(rows, id));
        if head.len() > 0 {
            assert(events[head.len() - 1] == head.last());
        }
        assert(ids_are_below(before, id));
        law_ids_stay_apart(before, rec, id);
        crate::relation::lemma_numbered(rec.row(), "id"@, id, "id"@);
        assert(after_inserts(rows, events) =~= rows + new);
        assert forall|i: int, j: int| 0 <= i < j < new.len() implies event_id(#[trigger] new[i])
            < event_id(#[trigger] new[j]) by {
            if j == earlier.len() {
                assert(before[rows.len() + i] == earlier[i]);
                assert(event_id(before[rows.len() + i]) < id);
            }
        }
        assert forall|i: int| 0 <= i < new.len() implies event_id(#[trigger] new[i]) > after_id
            && ids_are_below(rows, event_id(new[i])) by {
            if i < earlier.len() {
                assert(new[i] == earlier[i]);
            }
        }
        assert forall|higher: int| ids_are_below(rows, higher) && id
            < higher implies #[trigger] ids_are_below(after_inserts(rows, events), higher) by {
            let left = after_inserts(rows, events);
            assert forall|i: int| 0 <= i < left.len() implies event_id(#[trigger] left[i])
                < higher by {
                assert(event_id(left[i]) < id + 1);
            }
        }
    }
}

/// A reader misses nothing: reading on from an id that was given before some events came gives
/// what it gave before they came, and behind that every one of them that was new, once, in the
/// order in which they came.
pub proof fn law_reader_gets_every_new_event(
    rows: Seq<Row>,
    events: Seq<(int, RawPayloadRecord)>,
    after_id: int,
    before: Seq<Row>,
    later: Seq<Row>,
)
    requires
        has_ids(rows),
        ids_ascend(rows, events),
        forall|i: int| 0 <= i < events.len() ==> after_id < (#[trigger] events[i]).0,
        crate::relation::selected(reading(after_id), rows, before),
        crate::relation::selected(reading(after_id), after_inserts(rows, events), later),
    ensures
        later == before + new_events(rows, events),
{
    let new = new_events(rows, events);
    let all = after_inserts(rows, events);
    let expected = before + new;
    lemma_inserts(rows, events, after_id);
    law_reading_is_complete_and_in_order(rows, after_id, before);
    law_reading_is_complete_and_in_order(all, after_id, later);
    assert forall|i: int, j: int| 0 <= i < j < expected.len() implies event_id(
        #[trigger] expected[i],
    ) < event_id(#[trigger] expected[j]) by {
        if i < before.len() && j >= before.len() {
            assert(before.contains(before[i]));
            let k = choose|k: int| 0 <= k < rows.len() && rows[k] == before[i];
            assert(ids_are_below(rows, event_id(new[j - before.len()])));
            assert(event_id(rows[k]) < event_id(new[j - before.len()]));
        } else if i >= before.len() {
            assert(event_id(new[i - before.len()]) < event_id(new[j - before.len()]));
        } else {
            assert(event_id(before[i]) < event_id(before[j]));
        }
    }
    assert forall|r: Row| #[trigger] later.contains(r) <==> expected.contains(r) by {
        if later.contains(r) {
            let k = choose|k: int| 0 <= k < all.len() && all[k] == r;
            if k < rows.len() {
                assert(rows[k] == r);
                assert(before.contains(r));
                let m = choose|m: int| 0 <= m < before.len() && before[m] == r;
                assert(expected[m] == r);
            } else {
                assert(expected[before.len() + (k - rows.len())] == r);
            }
        }
        if expected.contains(r) {
            let k = choose|k: int| 0 <= k < expected.len() && expected[k] == r;
            if k < before.len() {
                assert(before.contains(r));
                let m = choose|m: int| 0 <= m < rows.len() && rows[m] == r;
                assert(all[m] == r);
            } else {
                assert(all[rows.len() + (k - before.len())] == r);
                assert(event_id(new[k - before.len()]) > after_id);
            }
            assert(all.contains(r));
        }
    }
    lemma_order_is_unique(later, expected);
}

/// The window is as long as it was asked for: an event stays exactly if its age is at most that
/// many hours.
pub proof fn law_window_is_as_long_as_asked_for(now_ms: i64, hours: u32, run: PruneRun, t: int)
    requires
        now_ms - hours * 3_600_000 >= i64::MIN,
        call_ensures(prune_archive_now, (now_ms, hours), run),
    ensures
        t >= run.cutoff <==> now_ms - t <= hours * 3_600_000,
        run.deleted == 0,
        !run.exhausted,
        run.batches_left == usize::MAX,
{
}

/// Every hour of the window counts the same: an hour more moves its start back by an hour, and a
/// window of no hours starts now.
pub proof fn law_every_hour_counts(now_ms: i64, hours: u32, start: i64, earlier: i64, none: i64)
    requires
        hours < u32::MAX,
        now_ms - (hours + 1) * 3_600_000 >= i64::MIN,
        call_ensures(retention_cutoff, (now_ms, hours), start),
        call_ensures(retention_cutoff, (now_ms, (hours + 1) as u32), earlier),
        call_ensures(retention_cutoff, (now_ms, 0u32), none),
    ensures
        earlier == start - 60 * 60 * 1000,
        none == now_ms,
        start + hours * (60 * 60 * 1000) == now_ms,
{
}

/// What a batch of a prune takes out: events that were ingested before the cutoff and record no
/// error, and at most a batch of them; and a prune goes on until its batches are used up or one
/// was not full.
pub proof fn law_batch_takes_old_events_without_errors(run: PruneRun, batch: Option<Statement>)
    requires
        call_ensures(PruneRun::next_batch, (&run,), batch),
    ensures
        batch is Some <==> run.batches_left > 0 && !run.exhausted,
        batch matches Some(statement) ==> exists|tests: Seq<Test>|
            {
                &&& #[trigger] statement.does(
                    Effect::DeleteSome {
                        table: "raw_payload_archive"@,
                        id: "id"@,
                        tests,
                        limit: ARCHIVE_PRUNE_BATCH as int,
                    },
                )
                &&& forall|id: int, rec: RawPayloadRecord| #[trigger]
                    crate::relation::passes_all(stored_event(id, rec), tests) <==> {
                        &&& rec.ingest_time < run.cutoff
                        &&& rec.event_action@ != "error"@
                    }
            },
{
    if let Some(statement) = batch {
        let tests = expired(run.cutoff as int);
        assert forall|id: int, rec: RawPayloadRecord| #[trigger]
            crate::relation::passes_all(stored_event(id, rec), tests) <==> {
                &&& rec.ingest_time < run.cutoff
                &&& rec.event_action@ != "error"@
            } by {
            lemma_stored_columns(id, rec);
            law_prune_takes_expired_events(stored_event(id, rec), run.cutoff as int);
        }
        assert(statement.does(
            Effect::DeleteSome {
                table: "raw_payload_archive"@,
                id: "id"@,
                tests,
                limit: ARCHIVE_PRUNE_BATCH as int,
            },
        ));
    }
}

/// A prune counts every batch once: what a batch took out is added to what was taken out before,
/// and one batch fewer is left.
pub proof fn law_batches_are_counted(run: &mut PruneRun, n: usize, next: Option<Statement>)
    requires
        old(run).batches_left > 0,
        old(run).deleted + n <= usize::MAX,
        call_ensures(PruneRun::batch_done, (run, n), ()),
        call_ensures(PruneRun::next_batch, (&*final(run),), next),
    ensures
        final(run).deleted - old(run).deleted == n,
        old(run).batches_left - final(run).batches_left == 1,
        final(run).cutoff == old(run).cutoff,
        next is Some <==> n >= ARCHIVE_PRUNE_BATCH && old(run).batches_left > 1,
{
}

proof fn lemma_stored_columns(id: int, rec: RawPayloadRecord)
    ensures
        crate::relation::column(stored_event(id, rec), "id"@) == Val::Integer(id),
        crate::relation::column(stored_event(id, rec), "account_id_sha"@) == rec.row()[0].1,
        crate::relation::column(stored_event(id, rec), "source"@) == rec.row()[1].1,
        crate::relation::column(stored_event(id, rec), "source_native_id"@) == rec.row()[2].1,
        crate::relation::column(stored_event(id, rec), "event_type"@) == rec.row()[3].1,
        crate::relation::column(stored_event(id, rec), "event_action"@) == rec.row()[4].1,
        crate::relation::column(stored_event(id, rec), "event_seq"@) == rec.row()[5].1,
        crate::relation::column(stored_event(id, rec), "ingest_time"@) == rec.row()[6].1,
        crate::relation::column(stored_event(id, rec), "payload_json"@) == rec.row()[7].1,
{
    law_event_is_read_as_stored(id, rec);
    let read = crate::relation::projected(stored_event(id, rec), record_columns());
    let values = record_values(id, rec);
    assert(read[0] == values[0] && read[1] == values[1] && read[2] == values[2]);
    assert(read[3] == values[3] && read[4] == values[4] && read[5] == values[5]);
    assert(read[6] == values[6] && read[7] == values[7] && read[8] == values[8]);
}

/// Every field of an event is stored under its own name.
pub proof fn law_event_fields_keep_their_names(
    id: int,
    rec: &RawPayloadRecord,
    statement: Statement,
)
    requires
        call_ensures(insert_record, (rec,), statement),
    ensures
        statement.does(Effect::Ignore { table: "raw_payload_archive"@, row: rec.row() }),
        rec.row().len() == 8,
        ({
            let row = stored_event(id, *rec);
            &&& crate::relation::column(row, "id"@) == Val::Integer(id)
            &&& crate::relation::column(row, "account_id_sha"@) == Val::Text(rec.account_id_sha@)
            &&& crate::relation::column(row, "source"@) == Val::Text(rec.source@)
            &&& crate::relation::column(row, "source_native_id"@) == Val::Text(
                rec.source_native_id@,
            )
            &&& crate::relation::column(row, "event_type"@) == Val::Text(rec.event_type@)
            &&& crate::relation::column(row, "event_action"@) == Val::Text(rec.event_action@)
            &&& crate::relation::column(row, "event_seq"@) == Val::Integer(rec.event_seq as int)
            &&& crate::relation::column(row, "ingest_time"@) == Val::Integer(rec.ingest_time as int)
            &&& crate::relation::column(row, "payload_json"@) == Val::Text(rec.payload_json@)
        }),
{
    lemma_stored_columns(id, *rec);
}

/// An event is read back with every field that was written, under its id.
pub proof fn law_read_event_is_the_written_one(
    id: i64,
    rec: RawPayloadRecord,
    values: &Vec<SqlValue>,
    read: Option<(i64, RawPayloadRecord)>,
)
    requires
        crate::relation::projected(stored_event(id as int, rec), record_columns())
            == values@.map_values(|v: SqlValue| v@),
        call_ensures(record_from_row, (values,), read),
    ensures
        read matches Some((read_id, r)) && {
            &&& read_id == id
            &&& r.account_id_sha@ == rec.account_id_sha@
            &&& r.source@ == rec.source@
            &&& r.source_native_id@ == rec.source_native_id@
            &&& r.event_type@ == rec.event_type@
            &&& r.event_action@ == rec.event_action@
            &&& r.event_seq == rec.event_seq
            &&& r.ingest_time == rec.ingest_time
            &&& r.payload_json@ == rec.payload_json@
        },
{
    law_event_is_read_as_stored(id as int, rec);
    let views = values@.map_values(|v: SqlValue| v@);
    assert(views == record_values(id as int, rec));
    law_record_reads_back(id as int, rec, rec, id as int);
    let (read_id, r) = read->0;
    let (a, b) = (record_values(id as int, rec), record_values(read_id as int, r));
    assert(a[0] == b[0] && a[1] == b[1] && a[2] == b[2] && a[3] == b[3] && a[4] == b[4]);
    assert(a[5] == b[5] && a[6] == b[6] && a[7] == b[7] && a[8] == b[8]);
}

/// What a read after an id asks for: the events with a larger id, in the order of their ids.
pub proof fn law_read_asks_for_later_events(after_id: i64, statement: Statement)
    requires
        call_ensures(read_archive_since, (after_id,), statement),
    ensures
        exists|tests: Seq<Test>|
            {
                &&& #[trigger] statement.does(
                    Effect::Select {
                        table: "raw_payload_archive"@,
                        columns: record_columns(),
                        tests,
                        tail: Tail::Ascending { column: "id"@ },
                    },
                )
                &&& forall|id: int, rec: RawPayloadRecord| #[trigger]
                    crate::relation::passes_all(stored_event(id, rec), tests) <==> id > after_id
            },
{
    let tests = later_than(after_id as int);
    assert forall|id: int, rec: RawPayloadRecord| #[trigger]
        crate::relation::passes_all(stored_event(id, rec), tests) <==> id > after_id by {
        lemma_stored_columns(id, rec);
        lemma_since(stored_event(id, rec), after_id as int, Val::Null, Val::Null);
    }
    assert(statement.does(
        Effect::Select {
            table: "raw_payload_archive"@,
            columns: record_columns(),
            tests,
            tail: Tail::Ascending { column: "id"@ },
        },
    ));
}

/// What a filtered read asks for: the events with a larger id, of the account where one is given,
/// and of the type where one is given, in the order of their ids, up to the limit.
pub proof fn law_filtered_read_asks_for_wanted_events(
    after_id: i64,
    account: Option<&str>,
    kind: Option<&str>,
    limit: i64,
    statement: Statement,
)
    requires
        call_ensures(read_archive_since_filtered, (after_id, account, kind, limit), statement),
    ensures
        exists|tests: Seq<Test>|
            {
                &&& #[trigger] statement.does(
                    Effect::Select {
                        table: "raw_payload_archive"@,
                        columns: record_columns(),
                        tests,
                        tail: Tail::FirstAscending { column: "id"@, limit: limit as int },
                    },
                )
                &&& forall|id: int, rec: RawPayloadRecord| #[trigger]
                    crate::relation::passes_all(stored_event(id, rec), tests) <==> {
                        &&& id > after_id
                        &&& account matches Some(a) ==> rec.account_id_sha@ == a@
                        &&& kind matches Some(k) ==> rec.event_type@ == k@
                    }
            },
{
    let tests = since(after_id as int, given(account), given(kind));
    assert forall|id: int, rec: RawPayloadRecord| #[trigger]
        crate::relation::passes_all(stored_event(id, rec), tests) <==> {
            &&& id > after_id
            &&& account matches Some(a) ==> rec.account_id_sha@ == a@
            &&& kind matches Some(k) ==> rec.event_type@ == k@
        } by {
        lemma_stored_columns(id, rec);
        lemma_since(stored_event(id, rec), after_id as int, given(account), given(kind));
    }
    assert(statement.does(
        Effect::Select {
            table: "raw_payload_archive"@,
            columns: record_columns(),
            tests,
            tail: Tail::FirstAscending { column: "id"@, limit: limit as int },
        },
    ));
}

/// An event was new exactly if archiving it has changed a row.
pub proof fn law_new_events_are_told(
    rows: Seq<Row>,
    rec: RawPayloadRecord,
    id: int,
    changed: usize,
    new: bool,
)
    requires
        changed == after_insert(rows, rec, id).len() - rows.len(),
        call_ensures(record_was_new, (changed,), new),
    ensures
        new <==> forall|i: int|
            0 <= i < rows.len() ==> !crate::relation::same_key(
                #[trigger] rows[i],
                rec.row(),
                crate::catalog::raw_payload_archive_key(),
            ),
{
}

/// A prune keeps to the cutoff and to the number of batches that it was given; without a number
/// it goes on for as long as there are full batches.
pub proof fn law_prune_keeps_its_cutoff(
    cutoff: i64,
    max_batches: usize,
    run: PruneRun,
    capped: PruneRun,
    first: Option<Statement>,
)
    requires
        call_ensures(prune_older_than, (cutoff,), run),
        call_ensures(prune_older_than_capped, (cutoff, max_batches), capped),
        call_ensures(PruneRun::next_batch, (&capped,), first),
    ensures
        run.cutoff == cutoff && capped.cutoff == cutoff,
        run.deleted == 0 && capped.deleted == 0,
        run.batches_left == usize::MAX && capped.batches_left == max_batches,
        !run.exhausted,
        first is Some <==> max_batches > 0,
        ARCHIVE_PRUNE_BATCH == 10 * 1000,
{
}

} // verus!
