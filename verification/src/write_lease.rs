//! Per-slice write leases.
//!
//! Writers that share one database agree on who is writing which slice by a
//! ledger of leases. A lease names its holder, a deadline and an epoch. Every
//! successful claim raises the epoch of its slice by one, so a holder whose
//! lease was taken over carries an epoch that is behind the ledger: its renewals
//! and releases are refused and change nothing.

use vstd::prelude::*;

use crate::keyed::Keyed;
use crate::sql::{Effect, Op, Row, RowBuilder, SqlValue, Statement, Tail, Test, TestsBuilder, Val};
use crate::text::{concat, same_text};

verus! {

/// How long a lease lives without a renewal, in seconds. Every time that this
/// module takes or stores is a Unix time in seconds.
pub const WRITE_LEASE_TTL_SECS: i64 = 600;

/// The token of a successful claim. A renewal or a release is accepted only while
/// the ledger still holds this owner and this epoch for the slice.
#[derive(Debug, Clone, PartialEq, Eq)]
pub struct SliceLease {
    /// The slice, an opaque string to this module.
    pub lease_key: String,
    /// The run that holds the lease.
    pub owner: String,
    /// The epoch that the claim was given.
    pub epoch: i64,
}

/// What a claim came to.
#[derive(Debug, Clone, PartialEq, Eq)]
pub enum LeaseClaim {
    /// The slice is held by the claiming run now.
    Claimed(SliceLease),
    /// Another run holds an unexpired lease, and nothing was changed.
    HeldByOther {
        /// The slice.
        lease_key: String,
        /// The run that holds it.
        owner: String,
        /// When that lease runs out.
        until: i64,
    },
}

/// What a coordinated write came to.
#[derive(Debug, Clone, PartialEq, Eq)]
pub enum QueryWriteOutcome<T> {
    /// The write ran, and its lease was still its own when it was released.
    Wrote(T),
    /// The write ran, but its lease had been taken over by the time of the release.
    WroteButLost(T),
    /// Another run holds the slice, and the write did not run.
    SkippedHeld {
        /// When that run's lease runs out.
        until: i64,
    },
}

/// One stored lease.
#[derive(Debug, Clone, PartialEq, Eq)]
pub struct LeaseRow {
    pub lease_key: String,
    pub owner: Option<String>,
    pub epoch: i64,
    pub deadline: Option<i64>,
    pub updated_at: i64,
}

/// The state of one slice, without its key.
pub struct LeaseState {
    pub owner: Option<Seq<char>>,
    pub epoch: int,
    pub deadline: Option<int>,
    pub updated_at: int,
}

/// The model of a ledger: the state of every slice that was ever claimed.
pub type Leases = Map<Seq<char>, LeaseState>;

pub open spec fn text_of(s: Option<String>) -> Option<Seq<char>> {
    match s {
        Some(t) => Some(t@),
        None => None,
    }
}

pub open spec fn int_of(n: Option<i64>) -> Option<int> {
    match n {
        Some(i) => Some(i as int),
        None => None,
    }
}

impl LeaseRow {
    /// The state that the row stores.
    pub open spec fn state(self) -> LeaseState {
        LeaseState {
            owner: text_of(self.owner),
            epoch: self.epoch as int,
            deadline: int_of(self.deadline),
            updated_at: self.updated_at as int,
        }
    }
}

/// A run may take a slice that nobody holds, whose lease has run out, or that it
/// holds itself.
pub open spec fn claimable(leases: Leases, key: Seq<char>, run: Seq<char>, now: int) -> bool {
    leases.contains_key(key) ==> {
        ||| leases[key].deadline is None
        ||| leases[key].deadline->0 <= now
        ||| leases[key].owner == Some(run)
    }
}

/// The epoch that the next successful claim of `key` is given.
pub open spec fn next_epoch(leases: Leases, key: Seq<char>) -> int {
    if leases.contains_key(key) {
        leases[key].epoch + 1
    } else {
        1
    }
}

/// The ledger after `run` has claimed `key` at `now`.
pub open spec fn after_claim(leases: Leases, key: Seq<char>, run: Seq<char>, now: int) -> Leases {
    if claimable(leases, key, run, now) {
        leases.insert(
            key,
            LeaseState {
                owner: Some(run),
                epoch: next_epoch(leases, key),
                deadline: Some(now + WRITE_LEASE_TTL_SECS),
                updated_at: now,
            },
        )
    } else {
        leases
    }
}

/// The ledger still holds this owner and this epoch for `key`.
pub open spec fn is_current(leases: Leases, key: Seq<char>, owner: Seq<char>, epoch: int) -> bool {
    &&& leases.contains_key(key)
    &&& leases[key].owner == Some(owner)
    &&& leases[key].epoch == epoch
}

/// The run that a state names, as text: empty where it names none.
pub open spec fn holder(state: LeaseState) -> Seq<char> {
    match state.owner {
        Some(owner) => owner,
        None => Seq::empty(),
    }
}

/// The ledger after the holder of `epoch` has renewed its lease at `now`.
pub open spec fn after_renew(
    leases: Leases,
    key: Seq<char>,
    owner: Seq<char>,
    epoch: int,
    now: int,
) -> Leases {
    if is_current(leases, key, owner, epoch) {
        leases.insert(
            key,
            LeaseState {
                owner: Some(owner),
                epoch,
                deadline: Some(now + WRITE_LEASE_TTL_SECS),
                updated_at: now,
            },
        )
    } else {
        leases
    }
}

/// The ledger after the holder of `epoch` has released its lease at `now`: the
/// slice is free at once, and its epoch stays.
pub open spec fn after_release(
    leases: Leases,
    key: Seq<char>,
    owner: Seq<char>,
    epoch: int,
    now: int,
) -> Leases {
    if is_current(leases, key, owner, epoch) {
        leases.insert(
            key,
            LeaseState { owner: None, epoch, deadline: None, updated_at: now },
        )
    } else {
        leases
    }
}

/// The leases of one database, or those of them that a caller has loaded.
pub struct LeaseLedger {
    rows: Keyed<LeaseRow>,
}

impl View for LeaseLedger {
    type V = Leases;

    closed spec fn view(&self) -> Leases {
        self.rows@.map_values(|row: LeaseRow| row.state())
    }
}

impl LeaseLedger {
    /// Every row is kept under the name of its own slice.
    #[verifier::type_invariant]
    spec fn rows_are_under_their_names(self) -> bool {
        forall|key: Seq<char>| #[trigger]
            self.rows@.contains_key(key) ==> self.rows@[key].lease_key@ == key
    }

    /// A ledger without leases.
    pub fn new() -> (ledger: LeaseLedger)
        ensures
            ledger@ == Map::<Seq<char>, LeaseState>::empty(),
    {
        let ledger = LeaseLedger { rows: Keyed::new() };
        assert(ledger@ =~= Map::<Seq<char>, LeaseState>::empty());
        ledger
    }

    /// The stored row of the slice `key`.
    pub fn get(&self, key: &str) -> (row: Option<&LeaseRow>)
        ensures
            match row {
                Some(r) => {
                    &&& self@.contains_key(key@)
                    &&& r.lease_key@ == key@
                    &&& r.state() == self@[key@]
                },
                None => !self@.contains_key(key@),
            },
    {
        proof {
            use_type_invariant(self);
        }
        self.rows.get(key)
    }

    /// Stores `row` for its slice, in place of the row that was there.
    pub fn put(&mut self, row: LeaseRow)
        ensures
            final(self)@ == old(self)@.insert(row.lease_key@, row.state()),
    {
        proof {
            use_type_invariant(&*self);
        }
        let key = row.lease_key.clone();
        let mut rows: Keyed<LeaseRow> = Keyed::new();
        std::mem::swap(&mut rows, &mut self.rows);
        rows.set(key, row);
        self.rows = rows;
        assert(self@ =~= old(self)@.insert(row.lease_key@, row.state()));
    }
}

/// The SQL text that makes the table of the ledger.
pub open spec fn lease_table() -> Seq<char> {
    "CREATE TABLE IF NOT EXISTS write_lease(lease_key TEXT PRIMARY KEY, owner TEXT, epoch INTEGER NOT NULL DEFAULT 0, deadline INTEGER, updated_at INTEGER NOT NULL) WITHOUT ROWID;"@
}

/// The table that stores the ledger.
pub fn init_write_lease() -> (sql: &'static str)
    ensures
        sql@ == lease_table(),
{
    "CREATE TABLE IF NOT EXISTS write_lease(lease_key TEXT PRIMARY KEY, owner TEXT, epoch INTEGER NOT NULL DEFAULT 0, deadline INTEGER, updated_at INTEGER NOT NULL) WITHOUT ROWID;"
}

impl LeaseRow {
    /// The row that it is stored as.
    pub open spec fn row(self) -> Row {
        seq![
            ("lease_key"@, Val::Text(self.lease_key@)),
            ("owner"@, crate::sql::nullable_text(self.owner)),
            ("epoch"@, Val::Integer(self.epoch as int)),
            ("deadline"@, crate::sql::nullable_integer(self.deadline)),
            ("updated_at"@, Val::Integer(self.updated_at as int)),
        ]
    }
}

/// The columns of a stored lease.
pub open spec fn lease_columns() -> Seq<Seq<char>> {
    seq!["lease_key"@, "owner"@, "epoch"@, "deadline"@, "updated_at"@]
}

/// The statement that stores a lease in place of the one of its slice that was there.
pub fn store_lease(lease: &LeaseRow) -> (statement: Statement)
    ensures
        statement.does(Effect::Replace { table: "write_lease"@, row: lease.row() }),
{
    let mut row = RowBuilder::new();
    row.text("lease_key", lease.lease_key.as_str());
    row.nullable_text("owner", &lease.owner);
    row.integer("epoch", lease.epoch);
    row.nullable_integer("deadline", lease.deadline);
    row.integer("updated_at", lease.updated_at);
    assert(row@ =~= lease.row());
    row.replace_into("write_lease")
}

/// The query for the stored lease of a slice.
pub fn lease_query(lease_key: &str) -> (statement: Statement)
    ensures
        statement.does(
            Effect::Select {
                table: "write_lease"@,
                columns: lease_columns(),
                tests: seq![
                    Test { column: "lease_key"@, op: Op::Is, value: Val::Text(lease_key@) },
                ],
                tail: Tail::All,
            },
        ),
{
    let mut tests = TestsBuilder::new();
    tests.text("lease_key", Op::Is, lease_key);
    assert(tests@ =~= seq![
        Test { column: "lease_key"@, op: Op::Is, value: Val::Text(lease_key@) },
    ]);
    let mut columns: Vec<&'static str> = Vec::new();
    columns.push("lease_key");
    columns.push("owner");
    columns.push("epoch");
    columns.push("deadline");
    columns.push("updated_at");
    assert(crate::sql::literals(columns@) =~= lease_columns());
    tests.select_from(&columns, "write_lease")
}

/// Values that can be those of a stored lease.
pub open spec fn is_lease(values: Seq<Val>) -> bool {
    &&& values.len() == 5
    &&& values[0] is Text
    &&& values[1] is Null || values[1] is Text
    &&& values[2] is Integer
    &&& values[3] is Null || values[3] is Integer
    &&& values[4] is Integer
}

/// The lease that was read, from the values that were read; none where they are not those of a
/// lease.
pub fn lease_from_row(values: &Vec<SqlValue>) -> (lease: Option<LeaseRow>)
    ensures
        match lease {
            Some(l) => values@.map_values(|v: SqlValue| v@) == crate::sql::values(l.row()),
            None => !is_lease(values@.map_values(|v: SqlValue| v@)),
        },
{
    let ghost views = values@.map_values(|v: SqlValue| v@);
    if values.len() != 5 {
        return None;
    }
    assert(views[0] == values@[0]@ && views[1] == values@[1]@ && views[2] == values@[2]@);
    assert(views[3] == values@[3]@ && views[4] == values@[4]@);
    let owner: Option<String> = match &values[1] {
        SqlValue::Null => None,
        SqlValue::Text(owner) => Some(owner.clone()),
        _ => {
            return None;
        },
    };
    let deadline: Option<i64> = match &values[3] {
        SqlValue::Null => None,
        SqlValue::Integer(deadline) => Some(*deadline),
        _ => {
            return None;
        },
    };
    match (&values[0], &values[2], &values[4]) {
        (
            SqlValue::Text(lease_key),
            SqlValue::Integer(epoch),
            SqlValue::Integer(updated_at),
        ) => {
            let lease = LeaseRow {
                lease_key: lease_key.clone(),
                owner,
                epoch: *epoch,
                deadline,
                updated_at: *updated_at,
            };
            assert(views =~= crate::sql::values(lease.row()));
            Some(lease)
        },
        _ => None,
    }
}

/// The stored lease of a slice is the one that was stored last, and the leases of the other
/// slices stay.
pub proof fn law_stored_lease_is_found(rows: Seq<Row>, lease: LeaseRow, other: Seq<char>)
    requires
        other != lease.lease_key@,
    ensures
        ({
            let left = crate::relation::after(
                Effect::Replace { table: "write_lease"@, row: lease.row() },
                rows,
                seq!["lease_key"@],
            );
            let of = |key: Seq<char>|
                seq![Test { column: "lease_key"@, op: Op::Is, value: Val::Text(key) }];
            &&& crate::relation::passing(left, of(lease.lease_key@)) == seq![lease.row()]
            &&& crate::relation::passing(left, of(other)) == crate::relation::passing(
                rows,
                of(other),
            )
        }),
{
    let row = lease.row();
    crate::relation::lemma_column_at(row, 0);
    crate::relation::law_lookup_finds_the_written_row(
        "write_lease"@,
        rows,
        row,
        "lease_key"@,
        Val::Text(lease.lease_key@),
    );
    crate::relation::law_lookup_of_other_names_is_unchanged(
        "write_lease"@,
        rows,
        row,
        "lease_key"@,
        Val::Text(other),
    );
}

/// A lease that was stored is read back with the state that it had.
pub proof fn law_stored_lease_reads_back(stored: LeaseRow, read: LeaseRow)
    requires
        crate::sql::values(read.row()) == crate::sql::values(stored.row()),
    ensures
        is_lease(crate::sql::values(stored.row())),
        read.lease_key@ == stored.lease_key@,
        read.state() == stored.state(),
{
    let a = crate::sql::values(stored.row());
    let b = crate::sql::values(read.row());
    assert(a[0] == b[0] && a[1] == b[1] && a[2] == b[2] && a[3] == b[3] && a[4] == b[4]);
}

/// Claims the slice `lease_key` for `run_id`.
///
/// A slice that is new, free, expired or already held by `run_id` is taken: its
/// epoch goes up by one and its deadline is set anew. A slice that another run
/// holds unexpired is left as it is.
pub fn claim_write_lease(
    ledger: &mut LeaseLedger,
    lease_key: &str,
    run_id: &str,
    now: i64,
) -> (claim: LeaseClaim)
    requires
        now + WRITE_LEASE_TTL_SECS <= i64::MAX,
        claimable(old(ledger)@, lease_key@, run_id@, now as int) ==> next_epoch(
            old(ledger)@,
            lease_key@,
        ) <= i64::MAX,
    ensures
        final(ledger)@ == after_claim(old(ledger)@, lease_key@, run_id@, now as int),
        match claim {
            LeaseClaim::Claimed(lease) => {
                &&& claimable(old(ledger)@, lease_key@, run_id@, now as int)
                &&& lease.lease_key@ == lease_key@
                &&& lease.owner@ == run_id@
                &&& lease.epoch == next_epoch(old(ledger)@, lease_key@)
            },
            LeaseClaim::HeldByOther { lease_key: key, owner, until } => {
                &&& !claimable(old(ledger)@, lease_key@, run_id@, now as int)
                &&& key@ == lease_key@
                &&& owner@ == holder(old(ledger)@[lease_key@])
                &&& Some(until as int) == old(ledger)@[lease_key@].deadline
            },
        },
{
    let mut epoch: i64 = 1;
    if let Some(row) = ledger.get(lease_key) {
        let mine: bool = match &row.owner {
            Some(owner) => same_text(owner.as_str(), run_id),
            None => false,
        };
        if let Some(deadline) = row.deadline {
            if deadline > now && !mine {
                let owner: String = match &row.owner {
                    Some(owner) => owner.clone(),
                    None => String::new(),
                };
                return LeaseClaim::HeldByOther {
                    lease_key: lease_key.to_owned(),
                    owner,
                    until: deadline,
                };
            }
        }
        epoch = row.epoch + 1;
    }
    ledger.put(
        LeaseRow {
            lease_key: lease_key.to_owned(),
            owner: Some(run_id.to_owned()),
            epoch,
            deadline: Some(now + WRITE_LEASE_TTL_SECS),
            updated_at: now,
        },
    );
    LeaseClaim::Claimed(
        SliceLease { lease_key: lease_key.to_owned(), owner: run_id.to_owned(), epoch },
    )
}

/// Moves the deadline of a held lease to a full term from `now`. `false` says that
/// the lease was taken over; the ledger is unchanged then.
pub fn renew_write_lease(ledger: &mut LeaseLedger, lease: &SliceLease, now: i64) -> (held: bool)
    requires
        now + WRITE_LEASE_TTL_SECS <= i64::MAX,
    ensures
        held == is_current(old(ledger)@, lease.lease_key@, lease.owner@, lease.epoch as int),
        final(ledger)@ == after_renew(
            old(ledger)@,
            lease.lease_key@,
            lease.owner@,
            lease.epoch as int,
            now as int,
        ),
{
    if !holds(ledger, lease) {
        return false;
    }
    ledger.put(
        LeaseRow {
            lease_key: lease.lease_key.clone(),
            owner: Some(lease.owner.clone()),
            epoch: lease.epoch,
            deadline: Some(now + WRITE_LEASE_TTL_SECS),
            updated_at: now,
        },
    );
    true
}

/// Gives a held lease back: the slice can be claimed at once, and its epoch stays.
/// `false` says that the lease was taken over; the ledger is unchanged then.
pub fn release_write_lease(ledger: &mut LeaseLedger, lease: &SliceLease, now: i64) -> (held: bool)
    ensures
        held == is_current(old(ledger)@, lease.lease_key@, lease.owner@, lease.epoch as int),
        final(ledger)@ == after_release(
            old(ledger)@,
            lease.lease_key@,
            lease.owner@,
            lease.epoch as int,
            now as int,
        ),
{
    if !holds(ledger, lease) {
        return false;
    }
    ledger.put(
        LeaseRow {
            lease_key: lease.lease_key.clone(),
            owner: None,
            epoch: lease.epoch,
            deadline: None,
            updated_at: now,
        },
    );
    true
}

fn holds(ledger: &LeaseLedger, lease: &SliceLease) -> (current: bool)
    ensures
        current == is_current(ledger@, lease.lease_key@, lease.owner@, lease.epoch as int),
{
    match ledger.get(lease.lease_key.as_str()) {
        Some(row) => match &row.owner {
            Some(owner) => same_text(owner.as_str(), lease.owner.as_str()) && row.epoch
                == lease.epoch,
            None => false,
        },
        None => false,
    }
}

/// The slice of a conversation.
pub open spec fn conv_slice(conv_id: Seq<char>) -> Seq<char> {
    "conv:"@ + conv_id
}

/// The slice of a conversation.
pub fn conv_slice_key(conv_id: &str) -> (key: String)
    ensures
        key@ == conv_slice(conv_id@),
{
    concat("conv:", conv_id)
}

/// What a write that ran comes to: its own error, or its value with whether the
/// lease was still held at the end.
pub open spec fn write_outcome<T, E>(result: Result<T, E>, held: bool) -> Result<
    QueryWriteOutcome<T>,
    E,
> {
    match result {
        Ok(value) => if held {
            Ok(QueryWriteOutcome::Wrote(value))
        } else {
            Ok(QueryWriteOutcome::WroteButLost(value))
        },
        Err(e) => Err(e),
    }
}

/// Ends a coordinated write: gives the lease back whatever the write came to, and
/// says what it came to.
pub fn finish_conv_write<T, E>(
    ledger: &mut LeaseLedger,
    lease: &SliceLease,
    now: i64,
    result: Result<T, E>,
) -> (outcome: Result<QueryWriteOutcome<T>, E>)
    ensures
        final(ledger)@ == after_release(
            old(ledger)@,
            lease.lease_key@,
            lease.owner@,
            lease.epoch as int,
            now as int,
        ),
        outcome == write_outcome(
            result,
            is_current(old(ledger)@, lease.lease_key@, lease.owner@, lease.epoch as int),
        ),
{
    let held = release_write_lease(ledger, lease, now);
    match result {
        Ok(value) => if held {
            Ok(QueryWriteOutcome::Wrote(value))
        } else {
            Ok(QueryWriteOutcome::WroteButLost(value))
        },
        Err(e) => Err(e),
    }
}

/// Runs `write` under the lease of a conversation's slice.
///
/// The slice is claimed first. Where another run holds it, `write` does not run: it need not
/// be ready for any call but the one with the claimed ledger and lease. Otherwise `write`
/// gets the ledger and the lease, and the lease is given back when it is done, after an
/// error too. `write` may change the ledger: whether the lease was still held is read from
/// what it hands back.
pub fn write_conv_slice_coordinated<F, T, E>(
    ledger: LeaseLedger,
    conv_id: &str,
    run_id: &str,
    now_secs: i64,
    write: F,
) -> (out: (LeaseLedger, Result<QueryWriteOutcome<T>, E>)) where
    F: FnOnce(LeaseLedger, SliceLease) -> (LeaseLedger, Result<T, E>),

    requires
        now_secs + WRITE_LEASE_TTL_SECS <= i64::MAX,
        claimable(ledger@, conv_slice(conv_id@), run_id@, now_secs as int) ==> next_epoch(
            ledger@,
            conv_slice(conv_id@),
        ) <= i64::MAX,
        forall|l: LeaseLedger, lease: SliceLease|
            {
                &&& claimable(ledger@, conv_slice(conv_id@), run_id@, now_secs as int)
                &&& l@ == after_claim(ledger@, conv_slice(conv_id@), run_id@, now_secs as int)
                &&& lease.lease_key@ == conv_slice(conv_id@)
                &&& lease.owner@ == run_id@
                &&& lease.epoch == next_epoch(ledger@, conv_slice(conv_id@))
            } ==> #[trigger] call_requires(write, (l, lease)),
    ensures
        !claimable(ledger@, conv_slice(conv_id@), run_id@, now_secs as int) ==> {
            &&& out.0@ == ledger@
            &&& out.1 matches Ok(QueryWriteOutcome::SkippedHeld { until })
                && Some(until as int) == ledger@[conv_slice(conv_id@)].deadline
        },
        claimable(ledger@, conv_slice(conv_id@), run_id@, now_secs as int) ==> exists|
            given: LeaseLedger,
            lease: SliceLease,
            back: LeaseLedger,
            result: Result<T, E>,
        |
            {
                &&& #[trigger] call_ensures(write, (given, lease), (back, result))
                &&& given@ == after_claim(
                    ledger@,
                    conv_slice(conv_id@),
                    run_id@,
                    now_secs as int,
                )
                &&& lease.lease_key@ == conv_slice(conv_id@)
                &&& lease.owner@ == run_id@
                &&& lease.epoch == next_epoch(ledger@, conv_slice(conv_id@))
                &&& out.0@ == after_release(
                    back@,
                    conv_slice(conv_id@),
                    run_id@,
                    lease.epoch as int,
                    now_secs as int,
                )
                &&& out.1 == write_outcome(
                    result,
                    is_current(back@, conv_slice(conv_id@), run_id@, lease.epoch as int),
                )
            },
{
    let mut ledger = ledger;
    let key = conv_slice_key(conv_id);
    match claim_write_lease(&mut ledger, key.as_str(), run_id, now_secs) {
        LeaseClaim::HeldByOther { until, .. } => (
            ledger,
            Ok(QueryWriteOutcome::SkippedHeld { until }),
        ),
        LeaseClaim::Claimed(lease) => {
            let kept = SliceLease {
                lease_key: lease.lease_key.clone(),
                owner: lease.owner.clone(),
                epoch: lease.epoch,
            };
            let ghost given = ledger;
            let ghost token = lease;
            let (back, result) = write(ledger, lease);
            assert(call_ensures(write, (given, token), (back, result)));
            let mut back = back;
            let outcome = finish_conv_write(&mut back, &kept, now_secs, result);
            (back, outcome)
        },
    }
}

/// One operation on a ledger.
pub enum LeaseOp {
    Claim { key: Seq<char>, run: Seq<char>, now: int },
    Renew { key: Seq<char>, owner: Seq<char>, epoch: int, now: int },
    Release { key: Seq<char>, owner: Seq<char>, epoch: int, now: int },
}

impl LeaseOp {
    /// The slice that the operation is about.
    pub open spec fn slice(self) -> Seq<char> {
        match self {
            LeaseOp::Claim { key, .. } => key,
            LeaseOp::Renew { key, .. } => key,
            LeaseOp::Release { key, .. } => key,
        }
    }

    /// The ledger after the operation.
    pub open spec fn apply(self, leases: Leases) -> Leases {
        match self {
            LeaseOp::Claim { key, run, now } => after_claim(leases, key, run, now),
            LeaseOp::Renew { key, owner, epoch, now } => after_renew(
                leases,
                key,
                owner,
                epoch,
                now,
            ),
            LeaseOp::Release { key, owner, epoch, now } => after_release(
                leases,
                key,
                owner,
                epoch,
                now,
            ),
        }
    }
}

/// The ledger after a history of operations.
pub open spec fn after_history(leases: Leases, history: Seq<LeaseOp>) -> Leases
    decreases history.len(),
{
    if history.len() == 0 {
        leases
    } else {
        history.last().apply(after_history(leases, history.drop_last()))
    }
}

/// Epochs never fall: whatever is done to a ledger, a slice that was ever claimed
/// stays in it, with an epoch no smaller than before.
pub proof fn law_epochs_never_fall(leases: Leases, history: Seq<LeaseOp>, key: Seq<char>)
    requires
        leases.contains_key(key),
    ensures
        after_history(leases, history).contains_key(key),
        after_history(leases, history)[key].epoch >= leases[key].epoch,
    decreases history.len(),
{
    if history.len() > 0 {
        law_epochs_never_fall(leases, history.drop_last(), key);
    }
}

/// How many claims of a slice succeed in a history.
pub open spec fn successful_claims(leases: Leases, history: Seq<LeaseOp>, key: Seq<char>) -> nat
    decreases history.len(),
{
    if history.len() == 0 {
        0
    } else {
        let before = history.drop_last();
        let earlier = successful_claims(leases, before, key);
        match history.last() {
            LeaseOp::Claim { key: k, run, now } => if k == key && claimable(
                after_history(leases, before),
                key,
                run,
                now,
            ) {
                earlier + 1
            } else {
                earlier
            },
            _ => earlier,
        }
    }
}

/// Epochs count the claims: whatever is done to a slice that was never claimed before, its
/// k-th successful claim is given epoch k, and a lease of an earlier claim is not current any
/// more.
pub proof fn law_kth_claim_carries_epoch_k(leases: Leases, history: Seq<LeaseOp>, key: Seq<char>)
    requires
        !leases.contains_key(key),
    ensures
        ({
            let later = after_history(leases, history);
            let claims = successful_claims(leases, history, key);
            &&& later.contains_key(key) <==> claims > 0
            &&& claims > 0 ==> later[key].epoch == claims
            &&& next_epoch(later, key) == claims + 1
            &&& forall|owner: Seq<char>, epoch: int|
                epoch < claims ==> !#[trigger] is_current(later, key, owner, epoch)
        }),
    decreases history.len(),
{
    if history.len() > 0 {
        law_kth_claim_carries_epoch_k(leases, history.drop_last(), key);
    }
}

/// Fencing: once another claim of the slice has succeeded, the lease that was
/// current before is refused for good. Whatever else is done to the ledger, its
/// renewals and releases change nothing.
pub proof fn law_superseded_lease_stays_fenced(
    leases: Leases,
    key: Seq<char>,
    owner: Seq<char>,
    epoch: int,
    run: Seq<char>,
    claimed_at: int,
    history: Seq<LeaseOp>,
    now: int,
)
    requires
        is_current(leases, key, owner, epoch),
        claimable(leases, key, run, claimed_at),
    ensures
        ({
            let later = after_history(after_claim(leases, key, run, claimed_at), history);
            &&& !is_current(later, key, owner, epoch)
            &&& after_renew(later, key, owner, epoch, now) == later
            &&& after_release(later, key, owner, epoch, now) == later
        }),
{
    law_epochs_never_fall(after_claim(leases, key, run, claimed_at), history, key);
}

/// A live lease is never taken: a claim by another run before the deadline leaves
/// the ledger as it is.
pub proof fn law_live_lease_is_not_taken(
    leases: Leases,
    key: Seq<char>,
    owner: Seq<char>,
    epoch: int,
    run: Seq<char>,
    now: int,
)
    requires
        is_current(leases, key, owner, epoch),
        leases[key].deadline is Some,
        now < leases[key].deadline->0,
        run != owner,
    ensures
        !claimable(leases, key, run, now),
        after_claim(leases, key, run, now) == leases,
{
}

/// A renewal keeps other runs out for a full term from the renewal.
pub proof fn law_renewal_keeps_others_out(
    leases: Leases,
    key: Seq<char>,
    owner: Seq<char>,
    epoch: int,
    renewed_at: int,
    run: Seq<char>,
    now: int,
)
    requires
        is_current(leases, key, owner, epoch),
        now < renewed_at + WRITE_LEASE_TTL_SECS,
        run != owner,
    ensures
        !claimable(after_renew(leases, key, owner, epoch, renewed_at), key, run, now),
        is_current(after_renew(leases, key, owner, epoch, renewed_at), key, owner, epoch),
{
}

/// A released slice is free at once for every run, and the next claim goes on
/// counting epochs from the released lease.
pub proof fn law_release_frees_the_slice(
    leases: Leases,
    key: Seq<char>,
    owner: Seq<char>,
    epoch: int,
    released_at: int,
    run: Seq<char>,
    now: int,
)
    requires
        is_current(leases, key, owner, epoch),
    ensures
        claimable(after_release(leases, key, owner, epoch, released_at), key, run, now),
        next_epoch(after_release(leases, key, owner, epoch, released_at), key) == epoch + 1,
{
}

/// Slices are independent: an operation on one slice leaves every other slice as it
/// was.
pub proof fn law_slices_are_independent(leases: Leases, op: LeaseOp, other: Seq<char>)
    requires
        other != op.slice(),
    ensures
        op.apply(leases).contains_key(other) == leases.contains_key(other),
        leases.contains_key(other) ==> op.apply(leases)[other] == leases[other],
{
}

/// A slice has one holder: two leases of one slice that are both current are the
/// same lease.
pub proof fn law_one_holder_per_slice(
    leases: Leases,
    key: Seq<char>,
    owner_a: Seq<char>,
    epoch_a: int,
    owner_b: Seq<char>,
    epoch_b: int,
)
    requires
        is_current(leases, key, owner_a, epoch_a),
        is_current(leases, key, owner_b, epoch_b),
    ensures
        owner_a == owner_b,
        epoch_a == epoch_b,
{
}

/// A successful claim keeps every other run out for a full term, whether the slice was new,
/// released, expired or the run's own before: a claim by another run before the term is over is
/// refused, names the holder and says when the term ends.
pub proof fn law_claim_keeps_others_out(
    first: &mut LeaseLedger,
    second: &mut LeaseLedger,
    key: &str,
    run: &str,
    now: i64,
    claim: LeaseClaim,
    other: &str,
    then: i64,
    next: LeaseClaim,
)
    requires
        call_ensures(claim_write_lease, (first, key, run, now), claim),
        claim is Claimed,
        old(second)@ == final(first)@,
        call_ensures(claim_write_lease, (second, key, other, then), next),
        other@ != run@,
        then < now + WRITE_LEASE_TTL_SECS,
    ensures
        next matches LeaseClaim::HeldByOther { lease_key, owner, until } && lease_key@ == key@
            && owner@ == run@ && until == now + WRITE_LEASE_TTL_SECS,
        final(second)@ == final(first)@,
{
}

/// The same of the ledger: after a claim the slice belongs to the run until a full term has
/// passed, and to nobody else.
pub proof fn law_claim_lasts_a_full_term(
    leases: Leases,
    key: Seq<char>,
    run: Seq<char>,
    t: int,
    other: Seq<char>,
    now: int,
)
    requires
        claimable(leases, key, run, t),
    ensures
        ({
            let left = after_claim(leases, key, run, t);
            &&& left.contains_key(key)
            &&& left[key].owner == Some(run)
            &&& left[key].deadline == Some(t + WRITE_LEASE_TTL_SECS)
            &&& left[key].updated_at == t
            &&& other != run && now < t + WRITE_LEASE_TTL_SECS ==> !claimable(left, key, other, now)
            &&& now >= t + WRITE_LEASE_TTL_SECS ==> claimable(left, key, other, now)
            &&& claimable(left, key, run, now)
        }),
{
}

/// A slice that was never claimed is claimed by whoever asks, with the first epoch.
pub proof fn law_new_slice_is_claimed(
    ledger: &mut LeaseLedger,
    key: &str,
    run: &str,
    now: i64,
    claim: LeaseClaim,
)
    requires
        call_ensures(LeaseLedger::get, (&*old(ledger), key), None::<&LeaseRow>),
        call_ensures(claim_write_lease, (ledger, key, run, now), claim),
    ensures
        claim matches LeaseClaim::Claimed(lease) && lease.lease_key@ == key@ && lease.owner@
            == run@ && lease.epoch == 1,
{
}

/// A lease that has run out is taken over, and a run may always claim its own slice again: the
/// claim succeeds with the next epoch.
pub proof fn law_expired_and_own_slices_are_claimed(
    first: &mut LeaseLedger,
    second: &mut LeaseLedger,
    key: &str,
    run: &str,
    now: i64,
    lease: SliceLease,
    other: &str,
    then: i64,
    next: LeaseClaim,
)
    requires
        call_ensures(claim_write_lease, (first, key, run, now), LeaseClaim::Claimed(lease)),
        old(second)@ == final(first)@,
        call_ensures(claim_write_lease, (second, key, other, then), next),
        then >= now + WRITE_LEASE_TTL_SECS || other@ == run@,
    ensures
        next matches LeaseClaim::Claimed(taken) && taken.lease_key@ == key@ && taken.owner@
            == other@ && taken.epoch == lease.epoch + 1,
{
}

/// A renewal of a lease that is still held succeeds and keeps every other run out for a full term
/// from then on.
pub proof fn law_renewed_lease_keeps_others_out(
    first: &mut LeaseLedger,
    second: &mut LeaseLedger,
    third: &mut LeaseLedger,
    key: &str,
    run: &str,
    now: i64,
    lease: SliceLease,
    renewed_at: i64,
    held: bool,
    other: &str,
    then: i64,
    next: LeaseClaim,
)
    requires
        call_ensures(claim_write_lease, (first, key, run, now), LeaseClaim::Claimed(lease)),
        old(second)@ == final(first)@,
        call_ensures(renew_write_lease, (second, &lease, renewed_at), held),
        old(third)@ == final(second)@,
        call_ensures(claim_write_lease, (third, key, other, then), next),
        other@ != run@,
    ensures
        held,
        next is HeldByOther <==> then < renewed_at + WRITE_LEASE_TTL_SECS,
        next matches LeaseClaim::HeldByOther { lease_key, owner, until } ==> owner@ == run@
            && until == renewed_at + WRITE_LEASE_TTL_SECS,
        next matches LeaseClaim::Claimed(taken) ==> taken.epoch == lease.epoch + 1,
{
}

/// A release of a lease that is still held succeeds, and every run may claim the slice at once,
/// with the next epoch.
pub proof fn law_released_slice_is_claimed(
    first: &mut LeaseLedger,
    second: &mut LeaseLedger,
    third: &mut LeaseLedger,
    key: &str,
    run: &str,
    now: i64,
    lease: SliceLease,
    released_at: i64,
    held: bool,
    other: &str,
    then: i64,
    next: LeaseClaim,
)
    requires
        call_ensures(claim_write_lease, (first, key, run, now), LeaseClaim::Claimed(lease)),
        old(second)@ == final(first)@,
        call_ensures(release_write_lease, (second, &lease, released_at), held),
        old(third)@ == final(second)@,
        call_ensures(claim_write_lease, (third, key, other, then), next),
    ensures
        held,
        next matches LeaseClaim::Claimed(taken) && taken.owner@ == other@ && taken.epoch
            == lease.epoch + 1,
{
}

/// A run whose slice was taken over learns it: its renewal and its release are refused, and they
/// leave the lease of the new holder alone.
pub proof fn law_lost_lease_is_refused(
    first: &mut LeaseLedger,
    second: &mut LeaseLedger,
    third: &mut LeaseLedger,
    fourth: &mut LeaseLedger,
    key: &str,
    run: &str,
    now: i64,
    lease: SliceLease,
    other: &str,
    then: i64,
    taken: SliceLease,
    late: i64,
    renewed: bool,
    released: bool,
)
    requires
        call_ensures(claim_write_lease, (first, key, run, now), LeaseClaim::Claimed(lease)),
        old(second)@ == final(first)@,
        call_ensures(claim_write_lease, (second, key, other, then), LeaseClaim::Claimed(taken)),
        old(third)@ == final(second)@,
        call_ensures(renew_write_lease, (third, &lease, late), renewed),
        old(fourth)@ == final(second)@,
        call_ensures(release_write_lease, (fourth, &lease, late), released),
    ensures
        !renewed,
        !released,
        final(third)@ == old(third)@,
        final(fourth)@ == old(fourth)@,
        is_current(final(fourth)@, key@, other@, taken.epoch as int),
{
}

/// What is done to one slice changes no other one.
pub proof fn law_other_slices_are_left_alone(
    claimed: &mut LeaseLedger,
    renewed: &mut LeaseLedger,
    released: &mut LeaseLedger,
    key: &str,
    run: &str,
    now: i64,
    claim: LeaseClaim,
    lease: SliceLease,
    held: bool,
    given_back: bool,
    other: Seq<char>,
)
    requires
        call_ensures(claim_write_lease, (claimed, key, run, now), claim),
        lease.lease_key@ == key@,
        call_ensures(renew_write_lease, (renewed, &lease, now), held),
        call_ensures(release_write_lease, (released, &lease, now), given_back),
        other != key@,
    ensures
        final(claimed)@.contains_key(other) == old(claimed)@.contains_key(other),
        final(claimed)@[other] == old(claimed)@[other],
        final(renewed)@.contains_key(other) == old(renewed)@.contains_key(other),
        final(renewed)@[other] == old(renewed)@[other],
        final(released)@.contains_key(other) == old(released)@.contains_key(other),
        final(released)@[other] == old(released)@[other],
{
}

/// A ledger gives back the row that was put in, and the rows of other slices stay.
pub proof fn law_ledger_gives_back_what_was_put_in(
    ledger: &mut LeaseLedger,
    row: LeaseRow,
    key: &str,
    before: Option<&LeaseRow>,
    found: Option<&LeaseRow>,
)
    requires
        call_ensures(LeaseLedger::get, (&*old(ledger), key), before),
        call_ensures(LeaseLedger::put, (ledger, row), ()),
        call_ensures(LeaseLedger::get, (&*final(ledger), key), found),
    ensures
        key@ == row.lease_key@ ==> (found matches Some(r) && {
            &&& r.lease_key@ == row.lease_key@
            &&& (r.owner is Some <==> row.owner is Some)
            &&& (r.owner is Some ==> r.owner->0@ == row.owner->0@)
            &&& r.epoch == row.epoch
            &&& r.deadline == row.deadline
            &&& r.updated_at == row.updated_at
        }),
        key@ != row.lease_key@ ==> {
            &&& found is Some <==> before is Some
            &&& found is Some ==> {
                &&& found->0.epoch == before->0.epoch
                &&& found->0.deadline == before->0.deadline
                &&& found->0.updated_at == before->0.updated_at
                &&& (found->0.owner is Some <==> before->0.owner is Some)
                &&& (found->0.owner is Some ==> found->0.owner->0@ == before->0.owner->0@)
            }
        },
{
}

/// Every field of a lease is stored under its own name, in the row of its slice.
pub proof fn law_lease_fields_keep_their_names(m: &LeaseRow, statement: Statement)
    requires
        call_ensures(store_lease, (m,), statement),
    ensures
        statement.does(Effect::Replace { table: "write_lease"@, row: m.row() }),
        m.row().len() == 5,
        crate::relation::column(m.row(), "lease_key"@) == Val::Text(m.lease_key@),
        crate::relation::column(m.row(), "owner"@) == (match m.owner {
            Some(t) => Val::Text(t@),
            None => Val::Null,
        }),
        crate::relation::column(m.row(), "epoch"@) == Val::Integer(m.epoch as int),
        crate::relation::column(m.row(), "deadline"@) == (match m.deadline {
            Some(n) => Val::Integer(n as int),
            None => Val::Null,
        }),
        crate::relation::column(m.row(), "updated_at"@) == Val::Integer(m.updated_at as int),
{
    reveal_strlit("lease_key");
    reveal_strlit("owner");
    reveal_strlit("epoch");
    reveal_strlit("deadline");
    reveal_strlit("updated_at");
    let row = m.row();
    assert(row[0].0.len() == 9 && row[1].0.len() == 5 && row[2].0.len() == 5);
    assert(row[3].0.len() == 8 && row[4].0.len() == 10);
    assert(row[1].0[0] != row[2].0[0]);
    crate::relation::lemma_column_at(row, 0);
    crate::relation::lemma_column_at(row, 1);
    crate::relation::lemma_column_at(row, 2);
    crate::relation::lemma_column_at(row, 3);
    crate::relation::lemma_column_at(row, 4);
}

/// A lease that is looked up by its slice is read with the fields that were stored.
pub proof fn law_looked_up_lease_is_the_stored_one(
    stored: &LeaseRow,
    key: &str,
    query: Statement,
    values: &Vec<SqlValue>,
    read: Option<LeaseRow>,
)
    requires
        call_ensures(lease_query, (key,), query),
        crate::relation::projected(stored.row(), lease_columns())
            == values@.map_values(|v: SqlValue| v@),
        call_ensures(lease_from_row, (values,), read),
    ensures
        exists|tests: Seq<Test>|
            {
                &&& #[trigger] query.does(
                    Effect::Select {
                        table: "write_lease"@,
                        columns: lease_columns(),
                        tests,
                        tail: Tail::All,
                    },
                )
                &&& crate::relation::passes_all(stored.row(), tests) <==> stored.lease_key@ == key@
            },
        read matches Some(r) && {
            &&& r.lease_key@ == stored.lease_key@
            &&& (r.owner is Some <==> stored.owner is Some)
            &&& (r.owner is Some ==> r.owner->0@ == stored.owner->0@)
            &&& r.epoch == stored.epoch
            &&& r.deadline == stored.deadline
            &&& r.updated_at == stored.updated_at
        },
{
    lemma_lease_columns(stored);
    let names = lease_columns();
    let shown = crate::relation::projected(stored.row(), names);
    let views = values@.map_values(|v: SqlValue| v@);
    assert(names[0] == "lease_key"@ && names[1] == "owner"@ && names[2] == "epoch"@);
    assert(names[3] == "deadline"@ && names[4] == "updated_at"@);
    assert(shown[0] == views[0] && shown[1] == views[1] && shown[2] == views[2]);
    assert(shown[3] == views[3] && shown[4] == views[4]);
    assert(views.len() == 5);
    assert(is_lease(views));
    let r = read->0;
    let again = crate::sql::values(r.row());
    assert(again[0] == views[0] && again[1] == views[1] && again[2] == views[2]);
    assert(again[3] == views[3] && again[4] == views[4]);
    let tests = seq![Test { column: "lease_key"@, op: Op::Is, value: Val::Text(key@) }];
    assert(query.does(
        Effect::Select {
            table: "write_lease"@,
            columns: lease_columns(),
            tests,
            tail: Tail::All,
        },
    ));
    if crate::relation::passes_all(stored.row(), tests) {
        assert(crate::relation::passes(stored.row(), tests[0]));
    }
}

proof fn lemma_lease_columns(m: &LeaseRow)
    ensures
        crate::relation::column(m.row(), "lease_key"@) == m.row()[0].1,
        crate::relation::column(m.row(), "owner"@) == m.row()[1].1,
        crate::relation::column(m.row(), "epoch"@) == m.row()[2].1,
        crate::relation::column(m.row(), "deadline"@) == m.row()[3].1,
        crate::relation::column(m.row(), "updated_at"@) == m.row()[4].1,
{
    reveal_strlit("lease_key");
    reveal_strlit("owner");
    reveal_strlit("epoch");
    reveal_strlit("deadline");
    reveal_strlit("updated_at");
    let row = m.row();
    assert(row[0].0.len() == 9 && row[1].0.len() == 5 && row[2].0.len() == 5);
    assert(row[3].0.len() == 8 && row[4].0.len() == 10);
    assert(row[1].0[0] != row[2].0[0]);
    crate::relation::lemma_column_at(row, 0);
    crate::relation::lemma_column_at(row, 1);
    crate::relation::lemma_column_at(row, 2);
    crate::relation::lemma_column_at(row, 3);
    crate::relation::lemma_column_at(row, 4);
}

/// The slices of different conversations are different slices.
pub proof fn law_conversations_have_slices_of_their_own(
    a: &str,
    b: &str,
    slice_a: String,
    slice_b: String,
)
    requires
        call_ensures(conv_slice_key, (a,), slice_a),
        call_ensures(conv_slice_key, (b,), slice_b),
    ensures
        slice_a@ == slice_b@ <==> a@ == b@,
{
    reveal_strlit("conv:");
    assert(slice_a@.skip(5) =~= a@);
    assert(slice_b@.skip(5) =~= b@);
}

/// What a coordinated write comes to: its own error; or its value, as written where its lease was
/// still its own, and as lost where the slice was claimed again meanwhile. Where the lease was
/// still its own, the slice is free afterwards.
pub proof fn law_write_ends_as_its_lease_does<T, E>(
    claimed: &mut LeaseLedger,
    ended: &mut LeaseLedger,
    key: &str,
    run: &str,
    now: i64,
    lease: SliceLease,
    then: i64,
    result: Result<T, E>,
    outcome: Result<QueryWriteOutcome<T>, E>,
    other: Seq<char>,
    at: int,
)
    requires
        call_ensures(claim_write_lease, (claimed, key, run, now), LeaseClaim::Claimed(lease)),
        call_ensures(finish_conv_write::<T, E>, (ended, &lease, then, result), outcome),
    ensures
        result matches Err(e) ==> outcome == Err::<QueryWriteOutcome<T>, E>(e),
        old(ended)@ == final(claimed)@ ==> {
            &&& result matches Ok(v) ==> outcome == Ok::<_, E>(QueryWriteOutcome::Wrote(v))
            &&& claimable(final(ended)@, key@, other, at)
        },
        old(ended)@.contains_key(key@) && old(ended)@[key@].epoch != lease.epoch ==> {
            &&& result matches Ok(v) ==> outcome == Ok::<_, E>(QueryWriteOutcome::WroteButLost(v))
            &&& final(ended)@ == old(ended)@
        },
{
}

/// A conversation whose slice another run holds is not written: the write is skipped until that
/// run's term is over, and the ledger is left alone.
pub proof fn law_held_conversation_is_skipped<F, T, E>(
    claimed: &mut LeaseLedger,
    ledger: LeaseLedger,
    slice: &str,
    holder: &str,
    since: i64,
    lease: SliceLease,
    conv_id: &str,
    run: &str,
    now: i64,
    write: F,
    out: (LeaseLedger, Result<QueryWriteOutcome<T>, E>),
) where F: FnOnce(LeaseLedger, SliceLease) -> (LeaseLedger, Result<T, E>)
    requires
        slice@ == "conv:"@ + conv_id@,
        call_ensures(
            claim_write_lease,
            (claimed, slice, holder, since),
            LeaseClaim::Claimed(lease),
        ),
        ledger@ == final(claimed)@,
        run@ != holder@,
        now < since + WRITE_LEASE_TTL_SECS,
        call_ensures(
            write_conv_slice_coordinated::<F, T, E>,
            (ledger, conv_id, run, now, write),
            out,
        ),
    ensures
        out.1 == Ok::<_, E>(
            QueryWriteOutcome::<T>::SkippedHeld { until: (since + WRITE_LEASE_TTL_SECS) as i64 },
        ),
        out.0@ == ledger@,
{
}

/// A lease lasts ten minutes.
pub proof fn law_lease_lasts_ten_minutes()
    ensures
        WRITE_LEASE_TTL_SECS == 10 * 60,
{
}

/// A claim goes by the row that is stored: it is refused exactly where the row is of another run
/// and its time is not over, and then in the words of that row; otherwise the slice is the run's
/// for a full term, under the next epoch.
pub proof fn law_claim_goes_by_the_stored_row(
    ledger: &mut LeaseLedger,
    key: &str,
    run: &str,
    now: i64,
    found: Option<&LeaseRow>,
    claim: LeaseClaim,
    left: Option<&LeaseRow>,
)
    requires
        call_ensures(LeaseLedger::get, (&*old(ledger), key), found),
        call_ensures(claim_write_lease, (ledger, key, run, now), claim),
        call_ensures(LeaseLedger::get, (&*final(ledger), key), left),
    ensures
        claim is HeldByOther <==> found is Some && found->0.deadline is Some
            && found->0.deadline->0 > now && !(found->0.owner is Some && found->0.owner->0@
            == run@),
        claim matches LeaseClaim::HeldByOther { lease_key, owner, until } ==> {
            &&& lease_key@ == key@
            &&& found->0.owner is Some ==> owner@ == found->0.owner->0@
            &&& found->0.deadline == Some(until)
            &&& final(ledger)@ == old(ledger)@
        },
        claim matches LeaseClaim::Claimed(lease) ==> {
            &&& lease.lease_key@ == key@ && lease.owner@ == run@
            &&& found is None ==> lease.epoch == 1
            &&& found is Some ==> lease.epoch == found->0.epoch + 1
            &&& left is Some && left->0.owner is Some && left->0.owner->0@ == run@
            &&& left->0.epoch == lease.epoch
            &&& left->0.deadline is Some && left->0.deadline->0 == now + 600
            &&& left->0.updated_at == now
        },
{
}

/// A conversation that can be claimed is written under its lease: the write gets the ledger with
/// the claim in it and the lease; its error is handed on, and so is its value, with whether the
/// lease was lost meanwhile; and where it was not lost, it is given back.
pub proof fn law_free_conversation_is_written<F, T, E>(
    claimed: &mut LeaseLedger,
    ledger: LeaseLedger,
    slice: &str,
    lease: SliceLease,
    conv_id: &str,
    run: &str,
    now: i64,
    write: F,
    out: (LeaseLedger, Result<QueryWriteOutcome<T>, E>),
    other: Seq<char>,
    at: int,
) where F: FnOnce(LeaseLedger, SliceLease) -> (LeaseLedger, Result<T, E>)
    requires
        slice@ == "conv:"@ + conv_id@,
        call_ensures(claim_write_lease, (claimed, slice, run, now), LeaseClaim::Claimed(lease)),
        ledger@ == old(claimed)@,
        call_ensures(
            write_conv_slice_coordinated::<F, T, E>,
            (ledger, conv_id, run, now, write),
            out,
        ),
    ensures
        exists|given: LeaseLedger, token: SliceLease, back: LeaseLedger, result: Result<T, E>|
            {
                &&& #[trigger] call_ensures(write, (given, token), (back, result))
                &&& given@ == final(claimed)@
                &&& token.lease_key@ == lease.lease_key@ && token.owner@ == lease.owner@
                    && token.epoch == lease.epoch
                &&& result matches Err(e) ==> out.1 == Err::<QueryWriteOutcome<T>, E>(e)
                &&& back@ == given@ ==> {
                    &&& result matches Ok(v) ==> out.1 == Ok::<_, E>(QueryWriteOutcome::Wrote(v))
                    &&& claimable(out.0@, slice@, other, at)
                }
                &&& !is_current(back@, slice@, run@, lease.epoch as int) ==> {
                    &&& result matches Ok(v) ==> out.1 == Ok::<_, E>(
                        QueryWriteOutcome::WroteButLost(v),
                    )
                    &&& out.0@ == back@
                }
            },
{
    assert(conv_slice(conv_id@) == slice@);
    let (given, token, back, result) = choose|
        given: LeaseLedger,
        token: SliceLease,
        back: LeaseLedger,
        result: Result<T, E>,
    |
        {
            &&& #[trigger] call_ensures(write, (given, token), (back, result))
            &&& given@ == after_claim(ledger@, conv_slice(conv_id@), run@, now as int)
            &&& token.lease_key@ == conv_slice(conv_id@)
            &&& token.owner@ == run@
            &&& token.epoch == next_epoch(ledger@, conv_slice(conv_id@))
            &&& out.0@ == after_release(
                back@,
                conv_slice(conv_id@),
                run@,
                token.epoch as int,
                now as int,
            )
            &&& out.1 == write_outcome(
                result,
                is_current(back@, conv_slice(conv_id@), run@, token.epoch as int),
            )
        };
    assert(call_ensures(write, (given, token), (back, result)));
}

/// A renewal and a release go by the row that is stored: they are accepted exactly where the row is
/// still of this run and this epoch. A renewed slice is the run's for another full term from then
/// on; a released one is nobody's and keeps its epoch; and a refusal leaves everything as it was.
pub proof fn law_renewal_and_release_go_by_the_stored_row(
    ledger: &mut LeaseLedger,
    other: &mut LeaseLedger,
    key: &str,
    lease: SliceLease,
    now: i64,
    found: Option<&LeaseRow>,
    renewed: bool,
    after: Option<&LeaseRow>,
    released: bool,
    left: Option<&LeaseRow>,
)
    requires
        key@ == lease.lease_key@,
        old(other)@ == old(ledger)@,
        call_ensures(LeaseLedger::get, (&*old(ledger), key), found),
        call_ensures(renew_write_lease, (ledger, &lease, now), renewed),
        call_ensures(LeaseLedger::get, (&*final(ledger), key), after),
        call_ensures(release_write_lease, (other, &lease, now), released),
        call_ensures(LeaseLedger::get, (&*final(other), key), left),
    ensures
        renewed <==> found is Some && found->0.epoch == lease.epoch && found->0.owner is Some
            && found->0.owner->0@ == lease.owner@,
        released <==> renewed,
        !renewed ==> final(ledger)@ == old(ledger)@ && final(other)@ == old(other)@,
        renewed ==> {
            &&& after is Some && after->0.owner is Some && after->0.owner->0@ == lease.owner@
            &&& after->0.epoch == lease.epoch
            &&& after->0.deadline is Some && after->0.deadline->0 == now + 600
            &&& after->0.updated_at == now
        },
        released ==> {
            &&& left is Some && left->0.owner is None
            &&& left->0.epoch == lease.epoch
            &&& left->0.deadline is None
            &&& left->0.updated_at == now
        },
{
}

} // verus!
