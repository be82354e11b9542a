//! The thin index: a stand-alone full-text index that is filled from the encrypted
//! source databases, without the archive in between.
//!
//! The source is read table by table in batches. What is read goes into the index
//! in one transaction with the position that was reached, so that a crash loses
//! neither: a restart reads on from the stored position, and a message that is read
//! twice takes the place of itself, because its row id is a function of where it
//! came from.

use vstd::prelude::*;
use vstd::utf8::*;

use crate::keyed::Keyed;
use crate::source::{sid_conflict, sid_missing, DrainCursor, ResumeProbe};
use crate::text::{concat, same_text, words_of};
use crate::watermark::{read_positions, write_positions};

verus! {

/// What the index keeps apart: the shard, a unit separator, the message.
pub open spec fn key_bytes(source: Seq<char>, msg_id: Seq<char>) -> Seq<u8> {
    encode_utf8(source).push(0x1f) + encode_utf8(msg_id)
}

/// The 64-bit FNV-1a hash of some bytes.
pub open spec fn fnv1a(bytes: Seq<u8>) -> u64
    decreases bytes.len(),
{
    if bytes.len() == 0 {
        0xcbf2_9ce4_8422_2325
    } else {
        let mixed = fnv1a(bytes.drop_last()) ^ (bytes.last() as u64);
        (mixed as nat * 0x100_0000_01b3 % 0x1_0000_0000_0000_0000) as u64
    }
}

/// The row id of a message: the upper 63 bits of the hash of its key.
pub open spec fn rowid_of(source: Seq<char>, msg_id: Seq<char>) -> int {
    (fnv1a(key_bytes(source, msg_id)) / 2) as int
}

fn fnv1a_byte(hash: u64, byte: u8) -> (next: u64)
    ensures
        next == (((hash ^ (byte as u64)) as nat * 0x100_0000_01b3 % 0x1_0000_0000_0000_0000) as u64),
{
    (hash ^ (byte as u64)).wrapping_mul(0x100_0000_01b3)
}

/// The row id under which the index keeps a message. It depends on the shard and on
/// the message alone, so that every reading of a message names the same row, and it
/// is never negative.
#[must_use]
pub fn thin_rowid(source: &str, msg_id: &str) -> (rowid: i64)
    ensures
        rowid == rowid_of(source@, msg_id@),
        rowid >= 0,
{
    let mut hash: u64 = 0xcbf2_9ce4_8422_2325;
    let shard = source.as_bytes();
    let mut i: usize = 0;
    while i < shard.len()
        invariant
            shard@ == encode_utf8(source@),
            i <= shard@.len(),
            hash == fnv1a(shard@.take(i as int)),
        decreases shard@.len() - i,
    {
        hash = fnv1a_byte(hash, shard[i]);
        assert(shard@.take(i + 1).drop_last() =~= shard@.take(i as int));
        i += 1;
    }
    assert(shard@.take(i as int) =~= shard@);
    hash = fnv1a_byte(hash, 0x1f);
    assert(shard@.push(0x1f).drop_last() =~= shard@);
    let ghost head = shard@.push(0x1f);
    let message = msg_id.as_bytes();
    let mut j: usize = 0;
    assert(head + message@.take(0) =~= head);
    while j < message.len()
        invariant
            message@ == encode_utf8(msg_id@),
            j <= message@.len(),
            hash == fnv1a(head + message@.take(j as int)),
        decreases message@.len() - j,
    {
        hash = fnv1a_byte(hash, message[j]);
        assert((head + message@.take(j + 1)).drop_last() =~= head + message@.take(j as int));
        j += 1;
    }
    assert(head + message@.take(j as int) =~= key_bytes(source@, msg_id@));
    assert(hash >> 1 == hash / 2) by (bit_vector);
    (hash >> 1) as i64
}

/// The separator keeps keys apart: where no shard name holds the separator byte, two
/// messages have the same key only if they are the same message of the same shard.
pub proof fn law_keys_are_unambiguous(
    source_a: Seq<char>,
    msg_a: Seq<char>,
    source_b: Seq<char>,
    msg_b: Seq<char>,
)
    requires
        !encode_utf8(source_a).contains(0x1f),
        !encode_utf8(source_b).contains(0x1f),
        key_bytes(source_a, msg_a) == key_bytes(source_b, msg_b),
    ensures
        source_a == source_b,
        msg_a == msg_b,
{
    let a = encode_utf8(source_a);
    let b = encode_utf8(source_b);
    let key = key_bytes(source_a, msg_a);
    assert(key[a.len() as int] == 0x1f);
    assert(key_bytes(source_b, msg_b)[b.len() as int] == 0x1f);
    if a.len() < b.len() {
        assert(b[a.len() as int] == key[a.len() as int]);
    }
    if b.len() < a.len() {
        assert(a[b.len() as int] == key[b.len() as int]);
    }
    assert(a =~= key.take(a.len() as int));
    assert(b =~= key.take(b.len() as int));
    assert(encode_utf8(msg_a) =~= key.skip(a.len() as int + 1));
    assert(encode_utf8(msg_b) =~= key.skip(b.len() as int + 1));
    encode_utf8_decode_utf8(source_a);
    encode_utf8_decode_utf8(source_b);
    encode_utf8_decode_utf8(msg_a);
    encode_utf8_decode_utf8(msg_b);
}

/// Whether what a table shows at a stored position speaks against reading on from
/// there: the table is empty or another one, has become shorter than the position,
/// or holds another message there. A table that cannot be looked at speaks against
/// nothing, and a position without a fingerprint is not trusted.
pub open spec fn must_rescan(probe: ResumeProbe, cursor: DrainCursor) -> bool {
    match probe {
        ResumeProbe::Unsupported => false,
        ResumeProbe::Missing => true,
        ResumeProbe::Found(p) => match cursor.resume_fp {
            None => true,
            Some(fp) => {
                ||| p.oldest_fp != fp
                ||| p.max_id < cursor.local_id
                ||| p.cursor_ct != cursor.cursor_ct
                ||| crate::source::conflicting(p.cursor_sid, cursor.cursor_sid)
            },
        },
    }
}

/// Whether a table has to be read again from its beginning.
pub fn thin_guard_says_rescan(probe: &ResumeProbe, cursor: &DrainCursor) -> (rescan: bool)
    ensures
        rescan == must_rescan(*probe, *cursor),
{
    match probe {
        ResumeProbe::Unsupported => false,
        ResumeProbe::Missing => true,
        ResumeProbe::Found(p) => match cursor.resume_fp {
            None => true,
            Some(was) => p.oldest_fp != was || p.max_id < cursor.local_id || p.cursor_ct
                != cursor.cursor_ct || sid_conflict(p.cursor_sid, cursor.cursor_sid),
        },
    }
}

/// A stored position that lacks a server id, at a message that has one by now.
pub open spec fn sid_came(probe: ResumeProbe, cursor: DrainCursor) -> bool {
    &&& !must_rescan(probe, cursor)
    &&& probe matches ResumeProbe::Found(p) && !crate::source::known(cursor.cursor_sid)
        && crate::source::known(p.cursor_sid)
}

/// The position to read on from after a look at the table.
pub open spec fn resumed(probe: ResumeProbe, cursor: DrainCursor) -> DrainCursor {
    if must_rescan(probe, cursor) {
        crate::source::table_start()
    } else if sid_came(probe, cursor) {
        DrainCursor { cursor_sid: probe->Found_0.cursor_sid, ..cursor }
    } else {
        cursor
    }
}

/// One message of a batch: its id in the table, its name in the archive, and its
/// text where it could be decoded.
pub struct DrainedRow {
    pub local_id: i64,
    pub native_id: String,
    pub text: Option<String>,
}

/// A batch that was read from a source table.
pub struct DrainedBatch {
    pub rows: Vec<DrainedRow>,
    /// The position after the batch.
    pub next: DrainCursor,
    /// Whether the table holds more.
    pub has_more: bool,
}

/// A row to put into the index, in place of the row with the same id.
pub struct ThinInsert {
    pub rowid: i64,
    pub source: String,
    pub msg_id: String,
    pub text: String,
}

/// What the index holds in one row.
pub struct ThinEntry {
    pub source: Seq<char>,
    pub msg_id: Seq<char>,
    pub text: Seq<char>,
}

/// What has to be stored in one transaction.
pub struct ThinCommit {
    pub inserts: Vec<ThinInsert>,
    /// The watermark text to store; none where the position has not moved.
    pub watermark: Option<String>,
    /// Whether another batch has to be read from the table.
    pub more: bool,
}

/// Why a run cannot go on.
pub enum ThinError {
    /// Batches of no rows were asked for.
    BatchLimitIsZero,
    /// A batch ends at a position that is not its last message: reading on from
    /// there would pass over messages.
    PositionSkipsRows { table: String, next: i64, last: i64 },
}

/// A pass over all source tables.
pub struct ThinRun {
    /// The most rows that one batch may hold.
    pub batch_limit: usize,
    /// The stored position of each table.
    pub positions: Keyed<String>,
    /// How many rows went into the index so far.
    pub inserted: u64,
}

/// A source table that is being read.
pub struct TableRun {
    /// The name of the table's position in the watermark.
    pub key: String,
    /// The shard that the table is in.
    pub source: String,
    /// How far the table was read.
    pub cursor: DrainCursor,
}

/// The name of a table's position in the watermark.
pub open spec fn table_key(rel_name: Seq<char>, table: Seq<char>) -> Seq<char> {
    rel_name + "|"@ + table
}

/// The position that a watermark gives a table: the beginning where it gives none
/// that can be read.
pub open spec fn position_of(
    positions: Map<Seq<char>, Seq<char>>,
    key: Seq<char>,
) -> DrainCursor {
    if positions.contains_key(key) {
        match crate::source::stored_cursor(positions[key]) {
            Some(cursor) => cursor,
            None => crate::source::table_start(),
        }
    } else {
        crate::source::table_start()
    }
}

/// The text under which a position is stored.
pub open spec fn position_text(cursor: DrainCursor) -> Seq<char> {
    crate::watermark::printed_numbers(crate::source::cursor_fields(cursor))
}

/// The largest id in a batch that is not empty.
pub open spec fn largest_id(rows: Seq<DrainedRow>) -> int
    decreases rows.len(),
{
    if rows.len() <= 1 {
        rows[0].local_id as int
    } else if rows.last().local_id > largest_id(rows.drop_last()) {
        rows.last().local_id as int
    } else {
        largest_id(rows.drop_last())
    }
}

/// A batch keeps its promise: where it holds rows, it ends at the largest id among them.
pub open spec fn ends_at_largest_id(batch: DrainedBatch) -> bool {
    batch.rows@.len() > 0 ==> batch.next.local_id == largest_id(batch.rows@)
}

/// A message goes into the index if it was decoded and its text is not empty.
pub open spec fn has_text(row: DrainedRow) -> bool {
    row.text matches Some(t) && t@.len() > 0
}

/// The rows of the index that the rows of a batch make, by id.
pub open spec fn index_rows(source: Seq<char>, rows: Seq<DrainedRow>) -> Seq<(int, ThinEntry)>
    decreases rows.len(),
{
    if rows.len() == 0 {
        Seq::empty()
    } else {
        let head = index_rows(source, rows.drop_last());
        let row = rows.last();
        if has_text(row) {
            head.push(
                (
                    rowid_of(source, row.native_id@),
                    ThinEntry { source, msg_id: row.native_id@, text: row.text->0@ },
                ),
            )
        } else {
            head
        }
    }
}

impl ThinInsert {
    pub open spec fn entry(self) -> (int, ThinEntry) {
        (
            self.rowid as int,
            ThinEntry { source: self.source@, msg_id: self.msg_id@, text: self.text@ },
        )
    }
}

/// The rows of the index that inserts make.
pub open spec fn entries(inserts: Seq<ThinInsert>) -> Seq<(int, ThinEntry)> {
    inserts.map_values(|i: ThinInsert| i.entry())
}

/// A watermark text says something: it is neither blank nor the empty map, whatever space is
/// around it.
pub open spec fn says_something(watermark: Seq<char>) -> bool {
    let words = crate::text::words(watermark);
    words.len() > 0 && words != seq!["{}"@]
}

/// Another batch is read while the table holds more and the last batch moved the
/// position forward.
pub open spec fn reads_on(batch: DrainedBatch, cursor: DrainCursor) -> bool {
    batch.has_more && batch.rows@.len() > 0 && largest_id(batch.rows@) > cursor.local_id
}

impl ThinRun {
    /// The stored position text of each table.
    pub open spec fn texts(self) -> Map<Seq<char>, Seq<char>> {
        crate::watermark::texts(self.positions@)
    }

    /// Begins a pass from the stored watermark.
    pub fn start(batch_limit: usize, watermark: Option<&str>) -> (run: Result<ThinRun, ThinError>)
        ensures
            match run {
                Ok(r) => {
                    &&& batch_limit >= 1
                    &&& r.batch_limit == batch_limit
                    &&& r.inserted == 0
                    &&& r.texts() == crate::watermark::stored_positions(
                        match watermark {
                            Some(w) => Some(w@),
                            None => None,
                        },
                    )
                },
                Err(e) => batch_limit == 0 && e is BatchLimitIsZero,
            },
    {
        if batch_limit < 1 {
            return Err(ThinError::BatchLimitIsZero);
        }
        Ok(ThinRun { batch_limit, positions: read_positions(watermark), inserted: 0 })
    }

    /// Whether a stored watermark could not be read, so that every table is read from its
    /// beginning though something was stored.
    pub fn watermark_is_lost(&self, watermark: Option<&str>) -> (lost: bool)
        ensures
            lost == (self.texts() == Map::<Seq<char>, Seq<char>>::empty() && watermark is Some
                && says_something(watermark->0@)),
    {
        assert(self.positions@ == Map::<Seq<char>, String>::empty() ==> self.texts()
            =~= Map::<Seq<char>, Seq<char>>::empty());
        assert(self.texts() == Map::<Seq<char>, Seq<char>>::empty() ==> self.positions@
            =~= Map::<Seq<char>, String>::empty()) by {
            assert(self.texts().dom() =~= self.positions@.dom());
        }
        if !self.positions.is_empty() {
            return false;
        }
        match watermark {
            Some(w) => {
                let words = words_of(w);
                proof {
                    let all = words@.map_values(|s: String| s@);
                    assert(all == crate::text::words(w@));
                    if words@.len() == 1 {
                        assert(all[0] == words@[0]@);
                        assert(words@[0]@ == "{}"@ ==> all =~= seq!["{}"@]);
                    }
                }
                words.len() > 1 || (words.len() == 1 && !same_text(words[0].as_str(), "{}"))
            },
            None => false,
        }
    }

    /// Turns to a source table, at the position where it was left.
    pub fn open(&self, rel_name: &str, table: &str) -> (run: TableRun)
        ensures
            run.key@ == table_key(rel_name@, table@),
            run.source@ == rel_name@,
            run.cursor == position_of(self.texts(), run.key@),
    {
        let key = concat(concat(rel_name, "|").as_str(), table);
        let cursor = match self.positions.get(key.as_str()) {
            Some(value) => match DrainCursor::from_watermark_value(value.as_str()) {
                Some(cursor) => cursor,
                None => DrainCursor::default(),
            },
            None => DrainCursor::default(),
        };
        TableRun { key, source: rel_name.to_owned(), cursor }
    }

    fn store(&mut self, key: &String, cursor: &DrainCursor) -> (watermark: String)
        ensures
            final(self).texts() == old(self).texts().insert(key@, position_text(*cursor)),
            final(self).batch_limit == old(self).batch_limit,
            final(self).inserted == old(self).inserted,
            watermark@ == crate::watermark::printed_texts(final(self).texts()),
            crate::watermark::stored_positions(Some(watermark@)) == final(self).texts(),
            crate::source::stored_cursor(position_text(*cursor)) == Some(*cursor),
    {
        let ghost before = self.positions@;
        let value = cursor.to_watermark_value();
        let ghost text = value@;
        self.positions.set(key.clone(), value);
        assert(self.texts() =~= crate::watermark::texts(before).insert(key@, text));
        write_positions(&self.positions)
    }

    /// Takes in what the table shows at the stored position. A position that does not
    /// hold any more goes back to the beginning. One that lacked a server id gets it,
    /// and the watermark text to store for that is returned.
    pub fn resume(&mut self, table: &mut TableRun, probe: &ResumeProbe) -> (watermark: Option<String>)
        ensures
            final(table).cursor == resumed(*probe, old(table).cursor),
            final(table).key == old(table).key,
            final(table).source == old(table).source,
            final(self).batch_limit == old(self).batch_limit,
            final(self).inserted == old(self).inserted,
            final(self).texts() == if sid_came(*probe, old(table).cursor) {
                old(self).texts().insert(old(table).key@, position_text(final(table).cursor))
            } else {
                old(self).texts()
            },
            match watermark {
                Some(w) => {
                    &&& sid_came(*probe, old(table).cursor)
                    &&& w@ == crate::watermark::printed_texts(final(self).texts())
                    &&& crate::watermark::stored_positions(Some(w@)) == final(self).texts()
                    &&& crate::source::stored_cursor(position_text(final(table).cursor)) == Some(
                        final(table).cursor,
                    )
                },
                None => !sid_came(*probe, old(table).cursor),
            },
    {
        if thin_guard_says_rescan(probe, &table.cursor) {
            table.cursor = DrainCursor::default();
            return None;
        }
        if let ResumeProbe::Found(p) = probe {
            if sid_missing(table.cursor.cursor_sid, p.cursor_sid) {
                table.cursor.cursor_sid = p.cursor_sid;
                let watermark = self.store(&table.key, &table.cursor);
                return Some(watermark);
            }
        }
        None
    }

    /// Takes in a batch of the table: says what has to be stored for it in one
    /// transaction, and whether to read on. A batch that does not end at its last
    /// message is refused, and nothing is changed.
    pub fn take(&mut self, table: &mut TableRun, batch: &DrainedBatch) -> (commit: Result<
        ThinCommit,
        ThinError,
    >)
        requires
            old(self).inserted + batch.rows@.len() <= u64::MAX,
        ensures
            final(table).key == old(table).key,
            final(table).source == old(table).source,
            final(self).batch_limit == old(self).batch_limit,
            match commit {
                Ok(c) => {
                    &&& ends_at_largest_id(*batch)
                    &&& entries(c.inserts@) == index_rows(old(table).source@, batch.rows@)
                    &&& c.more == reads_on(*batch, old(table).cursor)
                    &&& final(table).cursor == if c.more {
                        batch.next
                    } else {
                        old(table).cursor
                    }
                    &&& final(self).inserted == old(self).inserted + c.inserts@.len()
                    &&& c.watermark is Some <==> batch.rows@.len() > 0
                    &&& batch.rows@.len() > 0 ==> {
                        &&& final(self).texts() == old(self).texts().insert(
                            old(table).key@,
                            position_text(batch.next),
                        )
                        &&& c.watermark->0@ == crate::watermark::printed_texts(
                            final(self).texts(),
                        )
                        &&& crate::watermark::stored_positions(Some(c.watermark->0@))
                            == final(self).texts()
                        &&& crate::source::stored_cursor(position_text(batch.next)) == Some(
                            batch.next,
                        )
                    }
                    &&& batch.rows@.len() == 0 ==> final(self).texts() == old(self).texts()
                },
                Err(e) => {
                    &&& !ends_at_largest_id(*batch)
                    &&& e matches ThinError::PositionSkipsRows { table: t, next, last } && t@
                        == old(table).key@ && next == batch.next.local_id && last == largest_id(
                        batch.rows@,
                    )
                    &&& final(table).cursor == old(table).cursor
                    &&& final(self).inserted == old(self).inserted
                    &&& final(self).texts() == old(self).texts()
                },
            },
    {
        let mut inserts: Vec<ThinInsert> = Vec::new();
        let mut last: i64 = 0;
        let mut i: usize = 0;
        let rows = &batch.rows;
        assert(entries(inserts@) =~= index_rows(table.source@, rows@.take(0)));
        while i < rows.len()
            invariant
                i <= rows@.len(),
                inserts@.len() <= i,
                i > 0 ==> last == largest_id(rows@.take(i as int)),
                entries(inserts@) == index_rows(table.source@, rows@.take(i as int)),
            decreases rows@.len() - i,
        {
            let row = &rows[i];
            let ghost head = rows@.take(i as int);
            proof {
                assert(rows@.take(i + 1).drop_last() =~= head);
                assert(rows@.take(i + 1).last() == *row);
            }
            if i == 0 || row.local_id > last {
                last = row.local_id;
            }
            if let Some(text) = &row.text {
                if !text.as_str().is_empty() {
                    let ghost before = inserts@;
                    let insert = ThinInsert {
                        rowid: thin_rowid(table.source.as_str(), row.native_id.as_str()),
                        source: table.source.clone(),
                        msg_id: row.native_id.clone(),
                        text: text.clone(),
                    };
                    inserts.push(insert);
                    assert(entries(inserts@) =~= entries(before).push(insert.entry()));
                }
            }
            i += 1;
        }
        assert(rows@.take(i as int) =~= rows@);
        if rows.len() > 0 && batch.next.local_id != last {
            return Err(
                ThinError::PositionSkipsRows {
                    table: table.key.clone(),
                    next: batch.next.local_id,
                    last,
                },
            );
        }
        let more = batch.has_more && rows.len() > 0 && last > table.cursor.local_id;
        self.inserted = self.inserted + inserts.len() as u64;
        let watermark = if rows.len() > 0 {
            Some(self.store(&table.key, &batch.next))
        } else {
            None
        };
        if more {
            table.cursor = batch.next;
        }
        Ok(ThinCommit { inserts, watermark, more })
    }
}

impl TableRun {
    /// Whether the table has to be looked at before it is read on: it was read
    /// before.
    pub fn needs_probe(&self) -> (needed: bool)
        ensures
            needed == (self.cursor.local_id > 0),
    {
        self.cursor.local_id > 0
    }
}

proof fn lemma_last_id(rows: Seq<DrainedRow>)
    requires
        rows.len() > 0,
    ensures
        forall|i: int| 0 <= i < rows.len() ==> (#[trigger] rows[i]).local_id <= largest_id(rows),
        exists|i: int| 0 <= i < rows.len() && (#[trigger] rows[i]).local_id == largest_id(rows),
    decreases rows.len(),
{
    if rows.len() > 1 {
        let head = rows.drop_last();
        lemma_last_id(head);
        assert forall|i: int| 0 <= i < rows.len() implies (#[trigger] rows[i]).local_id <= largest_id(
            rows,
        ) by {
            if i < head.len() {
                assert(head[i].local_id <= largest_id(head));
            }
        }
        if rows.last().local_id > largest_id(head) {
            assert(rows[rows.len() - 1].local_id == largest_id(rows));
        } else {
            let i = choose|i: int| 0 <= i < head.len() && (#[trigger] head[i]).local_id == largest_id(head);
            assert(rows[i].local_id == largest_id(rows));
        }
    } else {
        assert(rows[0].local_id == largest_id(rows));
    }
}

/// Nothing is passed over: in a batch that is accepted, every row lies at or before
/// the position that is stored for it, and a row lies exactly there.
pub proof fn law_position_covers_the_batch(batch: DrainedBatch)
    requires
        batch.rows@.len() > 0,
        ends_at_largest_id(batch),
    ensures
        forall|i: int|
            0 <= i < batch.rows@.len() ==> (#[trigger] batch.rows@[i]).local_id
                <= batch.next.local_id,
        exists|i: int|
            0 <= i < batch.rows@.len() && (#[trigger] batch.rows@[i]).local_id
                == batch.next.local_id,
{
    lemma_last_id(batch.rows@);
}

/// Reading ends: whenever another batch is read from a table, the position has moved
/// forward.
pub proof fn law_reading_on_moves_forward(batch: DrainedBatch, cursor: DrainCursor)
    requires
        ends_at_largest_id(batch),
        reads_on(batch, cursor),
    ensures
        batch.next.local_id > cursor.local_id,
{
}

/// A restart reads on where the last commit ended: the watermark text of a commit
/// gives the table the position after its batch, and leaves every other table where
/// it was.
pub proof fn law_restart_resumes_after_the_commit(
    before: Map<Seq<char>, Seq<char>>,
    key: Seq<char>,
    next: DrainCursor,
    watermark: Seq<char>,
    other: Seq<char>,
)
    requires
        crate::source::stored_cursor(position_text(next)) == Some(next),
        crate::watermark::stored_positions(Some(watermark)) == before.insert(
            key,
            position_text(next),
        ),
    ensures
        position_of(crate::watermark::stored_positions(Some(watermark)), key) == next,
        other != key ==> position_of(
            crate::watermark::stored_positions(Some(watermark)),
            other,
        ) == position_of(before, other),
{
}

/// The index after rows were put into it, one after the other.
pub open spec fn after_inserts(
    index: Map<int, ThinEntry>,
    rows: Seq<(int, ThinEntry)>,
) -> Map<int, ThinEntry>
    decreases rows.len(),
{
    if rows.len() == 0 {
        index
    } else {
        after_inserts(index, rows.drop_last()).insert(rows.last().0, rows.last().1)
    }
}

proof fn lemma_after_inserts(
    a: Map<int, ThinEntry>,
    b: Map<int, ThinEntry>,
    rows: Seq<(int, ThinEntry)>,
    rowid: int,
)
    ensures
        ({
            let named = exists|i: int| 0 <= i < rows.len() && (#[trigger] rows[i]).0 == rowid;
            &&& named ==> {
                &&& after_inserts(a, rows).contains_key(rowid)
                &&& after_inserts(b, rows).contains_key(rowid)
                &&& after_inserts(a, rows)[rowid] == after_inserts(b, rows)[rowid]
            }
            &&& !named ==> {
                &&& after_inserts(a, rows).contains_key(rowid) == a.contains_key(rowid)
                &&& after_inserts(a, rows)[rowid] == a[rowid]
                &&& after_inserts(b, rows).contains_key(rowid) == b.contains_key(rowid)
                &&& after_inserts(b, rows)[rowid] == b[rowid]
            }
        }),
    decreases rows.len(),
{
    if rows.len() > 0 {
        let head = rows.drop_last();
        lemma_after_inserts(a, b, head, rowid);
        let named = exists|i: int| 0 <= i < rows.len() && (#[trigger] rows[i]).0 == rowid;
        if rows.last().0 == rowid {
            assert(rows[rows.len() - 1].0 == rowid);
        } else {
            if named {
                let i = choose|i: int| 0 <= i < rows.len() && (#[trigger] rows[i]).0 == rowid;
                assert(head[i].0 == rowid);
            } else {
                assert forall|i: int| 0 <= i < head.len() implies (#[trigger] head[i]).0 != rowid by {
                    assert(rows[i].0 != rowid);
                }
            }
        }
    }
}

/// Reading a batch twice is reading it once: putting the same rows into the index
/// again changes nothing, and every message is in it once.
pub proof fn law_rereading_changes_nothing(
    index: Map<int, ThinEntry>,
    rows: Seq<(int, ThinEntry)>,
)
    ensures
        after_inserts(after_inserts(index, rows), rows) == after_inserts(index, rows),
{
    let once = after_inserts(index, rows);
    let twice = after_inserts(once, rows);
    assert forall|rowid: int| #[trigger] twice.dom().contains(rowid) == once.dom().contains(rowid) by {
        lemma_after_inserts(index, once, rows, rowid);
    }
    assert forall|rowid: int| #[trigger] twice[rowid] == once[rowid] by {
        lemma_after_inserts(index, once, rows, rowid);
    }
    assert(twice =~= once);
}

/// A step of the hash loses nothing: from the hash after a byte, the byte and the hash before it
/// can be told.
proof fn lemma_step_loses_nothing(a: u64, b: u64)
    requires
        a as nat * 0x100_0000_01b3 % 0x1_0000_0000_0000_0000 == b as nat * 0x100_0000_01b3
            % 0x1_0000_0000_0000_0000,
    ensures
        a == b,
{
    let m: int = 0x1_0000_0000_0000_0000;
    let (x, y) = (a as int, b as int);
    let q = x * 0x100_0000_01b3 / m - y * 0x100_0000_01b3 / m;
    assert((x - y) * 0x100_0000_01b3 == q * m);
    assert((x - y) * 0x100_0000_01b3 * 0xce965057aff6957b == q * m * 0xce965057aff6957b);
    assert(0x100_0000_01b3 * 0xce965057aff6957b == 887285111055 * m + 1);
    assert(x - y == (q * 0xce965057aff6957b - (x - y) * 887285111055) * m);
    assert(-m < x - y < m);
}

/// Every byte of a key counts: after the same byte, hashes are the same only where they were the
/// same before, and after different bytes the same hash goes on to different ones.
pub proof fn law_every_byte_counts(a: Seq<u8>, b: Seq<u8>, x: u8, y: u8)
    ensures
        fnv1a(a.push(x)) == fnv1a(b.push(x)) <==> fnv1a(a) == fnv1a(b),
        fnv1a(a.push(x)) == fnv1a(a.push(y)) <==> x == y,
{
    assert(a.push(x).drop_last() =~= a);
    assert(a.push(y).drop_last() =~= a);
    assert(b.push(x).drop_last() =~= b);
    let (h, g) = (fnv1a(a), fnv1a(b));
    let (wide_x, wide_y) = (x as u64, y as u64);
    if fnv1a(a.push(x)) == fnv1a(b.push(x)) {
        lemma_step_loses_nothing(h ^ wide_x, g ^ wide_x);
        assert(h == g) by (bit_vector)
            requires
                h ^ wide_x == g ^ wide_x,
        ;
    }
    if fnv1a(a.push(x)) == fnv1a(a.push(y)) {
        lemma_step_loses_nothing(h ^ wide_x, h ^ wide_y);
        assert(wide_x == wide_y) by (bit_vector)
            requires
                h ^ wide_x == h ^ wide_y,
        ;
    }
}

/// Two keys that differ in one byte have different hashes, wherever the byte stands.
pub proof fn law_one_byte_changes_the_hash(head: Seq<u8>, x: u8, y: u8, tail: Seq<u8>)
    requires
        x != y,
    ensures
        fnv1a(head.push(x) + tail) != fnv1a(head.push(y) + tail),
    decreases tail.len(),
{
    if tail.len() == 0 {
        assert(head.push(x) + tail =~= head.push(x));
        assert(head.push(y) + tail =~= head.push(y));
        law_every_byte_counts(head, head, x, y);
    } else {
        let rest = tail.drop_last();
        law_one_byte_changes_the_hash(head, x, y, rest);
        assert(head.push(x) + tail =~= (head.push(x) + rest).push(tail.last()));
        assert(head.push(y) + tail =~= (head.push(y) + rest).push(tail.last()));
        law_every_byte_counts(head.push(x) + rest, head.push(y) + rest, tail.last(), tail.last());
    }
}

/// A row id is a hash of the shard, the separator and the message with its last bit dropped, and
/// is never negative.
pub proof fn law_row_id_is_half_a_hash(source: &str, msg_id: &str, rowid: i64)
    requires
        call_ensures(thin_rowid, (source, msg_id), rowid),
    ensures
        rowid >= 0,
        0 <= fnv1a(encode_utf8(source@) + seq![0x1fu8] + encode_utf8(msg_id@)) - 2 * rowid <= 1,
{
    assert(encode_utf8(source@) + seq![0x1fu8] + encode_utf8(msg_id@) =~= key_bytes(
        source@,
        msg_id@,
    ));
}

/// The messages of a batch that were decoded to a text.
proof fn lemma_index_rows(source: Seq<char>, rows: Seq<DrainedRow>)
    ensures
        ({
            let decoded = rows.filter(|r: DrainedRow| r.text is Some && r.text->0@.len() >= 1);
            let made = index_rows(source, rows);
            &&& made.len() == decoded.len()
            &&& forall|j: int|
                0 <= j < made.len() ==> {
                    &&& (#[trigger] made[j]).0 == rowid_of(source, decoded[j].native_id@)
                    &&& made[j].1.source == source
                    &&& made[j].1.msg_id == decoded[j].native_id@
                    &&& made[j].1.text == decoded[j].text->0@
                }
        }),
    decreases rows.len(),
{
    reveal(Seq::filter);
    if rows.len() > 0 {
        lemma_index_rows(source, rows.drop_last());
    }
}

/// Every message that was decoded to a text goes into the index, however long the text is, and
/// nothing else does: the rows to put in are, one for one and in order, those messages of the
/// batch.
pub proof fn law_every_decoded_message_is_indexed(
    run: &mut ThinRun,
    table: &mut TableRun,
    batch: DrainedBatch,
    commit: ThinCommit,
)
    requires
        call_ensures(ThinRun::take, (run, table, &batch), Ok::<ThinCommit, ThinError>(commit)),
    ensures
        ({
            let decoded = batch.rows@.filter(
                |r: DrainedRow| r.text is Some && r.text->0@.len() >= 1,
            );
            &&& commit.inserts@.len() == decoded.len()
            &&& forall|j: int|
                0 <= j < decoded.len() ==> {
                    &&& (#[trigger] commit.inserts@[j]).source@ == old(table).source@
                    &&& commit.inserts@[j].msg_id@ == decoded[j].native_id@
                    &&& commit.inserts@[j].text@ == decoded[j].text->0@
                    &&& commit.inserts@[j].rowid == rowid_of(
                        old(table).source@,
                        decoded[j].native_id@,
                    )
                }
        }),
        final(run).inserted - old(run).inserted == commit.inserts@.len(),
{
    let source = old(table).source@;
    lemma_index_rows(source, batch.rows@);
    let made = entries(commit.inserts@);
    assert forall|j: int| 0 <= j < commit.inserts@.len() implies made[j] == (
    #[trigger] commit.inserts@[j]).entry() by {}
}

/// The same, message by message: a message with a text is in the index after its batch, and one
/// that is not had no text.
pub proof fn law_message_with_a_text_is_indexed(
    run: &mut ThinRun,
    table: &mut TableRun,
    batch: DrainedBatch,
    commit: ThinCommit,
    i: int,
    t: String,
)
    requires
        call_ensures(ThinRun::take, (run, table, &batch), Ok::<ThinCommit, ThinError>(commit)),
        0 <= i < batch.rows@.len(),
        batch.rows@[i].text == Some(t),
        t@.len() >= 1,
    ensures
        exists|j: int|
            0 <= j < commit.inserts@.len() && {
                &&& (#[trigger] commit.inserts@[j]).source@ == old(table).source@
                &&& commit.inserts@[j].msg_id@ == batch.rows@[i].native_id@
                &&& commit.inserts@[j].text@ == t@
                &&& commit.inserts@[j].rowid == rowid_of(
                    old(table).source@,
                    batch.rows@[i].native_id@,
                )
            },
{
    let has = |r: DrainedRow| r.text is Some && r.text->0@.len() >= 1;
    law_every_decoded_message_is_indexed(run, table, batch, commit);
    let decoded = batch.rows@.filter(has);
    assert(has(batch.rows@[i]));
    batch.rows@.lemma_filter_contains(has, i);
    let j = choose|j: int| 0 <= j < decoded.len() && decoded[j] == batch.rows@[i];
    assert(commit.inserts@[j].msg_id@ == decoded[j].native_id@);
}

/// A batch is accepted exactly if the position behind it is the largest id of its messages: then
/// no message lies behind the position, and the position is that of a message. A batch without
/// messages is accepted.
pub proof fn law_accepted_batch_ends_at_its_last_message(
    run: &mut ThinRun,
    table: &mut TableRun,
    batch: DrainedBatch,
    commit: Result<ThinCommit, ThinError>,
)
    requires
        call_ensures(ThinRun::take, (run, table, &batch), commit),
    ensures
        commit is Ok <==> batch.rows@.len() == 0 || {
            &&& forall|i: int|
                0 <= i < batch.rows@.len() ==> (#[trigger] batch.rows@[i]).local_id
                    <= batch.next.local_id
            &&& exists|i: int|
                0 <= i < batch.rows@.len() && (#[trigger] batch.rows@[i]).local_id
                    == batch.next.local_id
        },
        commit matches Err(ThinError::PositionSkipsRows { table: name, next, last }) ==> {
            &&& name@ == old(table).key@
            &&& next == batch.next.local_id
            &&& forall|i: int|
                0 <= i < batch.rows@.len() ==> (#[trigger] batch.rows@[i]).local_id <= last
            &&& exists|i: int|
                0 <= i < batch.rows@.len() && (#[trigger] batch.rows@[i]).local_id == last
        },
        commit is Err ==> {
            &&& final(table).cursor == old(table).cursor
            &&& final(run).inserted == old(run).inserted
            &&& final(run).texts() == old(run).texts()
        },
{
    if batch.rows@.len() > 0 {
        lemma_last_id(batch.rows@);
    }
}

/// A table is read on exactly while it says that it holds more and the batch has brought a
/// message behind the position; and then from the position behind the batch.
pub proof fn law_table_is_read_on_while_it_moves(
    run: &mut ThinRun,
    table: &mut TableRun,
    batch: DrainedBatch,
    commit: ThinCommit,
)
    requires
        call_ensures(ThinRun::take, (run, table, &batch), Ok::<ThinCommit, ThinError>(commit)),
    ensures
        commit.more <==> batch.has_more && exists|i: int|
            0 <= i < batch.rows@.len() && (#[trigger] batch.rows@[i]).local_id
                > old(table).cursor.local_id,
        commit.more ==> final(table).cursor == batch.next,
        !commit.more ==> final(table).cursor == old(table).cursor,
        commit.watermark is Some <==> batch.rows@.len() > 0,
        final(table).key@ == old(table).key@,
        final(table).source@ == old(table).source@,
{
    if batch.rows@.len() > 0 {
        lemma_last_id(batch.rows@);
    }
}

/// A restart reads on behind the last batch: a pass that begins from the watermark of a commit
/// opens the table at the position behind its batch, and every other table where it was.
pub proof fn law_restart_reads_on_behind_the_batch(
    run: &mut ThinRun,
    table: &mut TableRun,
    batch: DrainedBatch,
    commit: ThinCommit,
    watermark: &str,
    limit: usize,
    again: ThinRun,
    rel_name: &str,
    name: &str,
    opened: TableRun,
    before: TableRun,
)
    requires
        call_ensures(ThinRun::take, (run, table, &batch), Ok::<ThinCommit, ThinError>(commit)),
        batch.rows@.len() > 0,
        commit.watermark is Some,
        watermark@ == commit.watermark->0@,
        call_ensures(ThinRun::start, (limit, Some(watermark)), Ok::<ThinRun, ThinError>(again)),
        call_ensures(ThinRun::open, (&again, rel_name, name), opened),
        call_ensures(ThinRun::open, (&*old(run), rel_name, name), before),
    ensures
        opened.source@ == rel_name@,
        opened.key@ == rel_name@ + "|"@ + name@,
        opened.key@ == old(table).key@ ==> opened.cursor == batch.next,
        opened.key@ != old(table).key@ ==> opened.cursor == before.cursor,
        again.inserted == 0,
        again.batch_limit == limit,
{
}

/// A pass with nothing stored, or over a table that was never read, begins at the start of the
/// table.
pub proof fn law_unread_table_is_read_from_its_start(
    limit: usize,
    run: Result<ThinRun, ThinError>,
    rel_name: &str,
    name: &str,
    opened: TableRun,
)
    requires
        call_ensures(ThinRun::start, (limit, None::<&str>), run),
        run is Ok ==> call_ensures(ThinRun::open, (&run->Ok_0, rel_name, name), opened),
    ensures
        run is Ok <==> limit > 0,
        run is Ok ==> {
            &&& opened.cursor.local_id == 0
            &&& opened.cursor.resume_fp is None
            &&& opened.cursor.cursor_ct is None
            &&& opened.cursor.cursor_sid is None
            &&& opened.cursor.prefix_rows is None
        },
{
}

/// A table is read on only where it shows what it showed when it was left: the same oldest
/// message, no fewer messages than the position, the same creation time there, and no other
/// server id. Whatever else it shows, it is read again.
pub proof fn law_changed_table_is_read_again(
    probe: crate::source::TableProbe,
    cursor: DrainCursor,
    rescan: bool,
    empty: bool,
    unsupported: bool,
)
    requires
        call_ensures(thin_guard_says_rescan, (&ResumeProbe::Found(probe), &cursor), rescan),
        call_ensures(thin_guard_says_rescan, (&ResumeProbe::Missing, &cursor), empty),
        call_ensures(thin_guard_says_rescan, (&ResumeProbe::Unsupported, &cursor), unsupported),
    ensures
        empty,
        !unsupported,
        !rescan ==> {
            &&& cursor.resume_fp == Some(probe.oldest_fp)
            &&& probe.max_id >= cursor.local_id
            &&& probe.cursor_ct == cursor.cursor_ct
            &&& probe.cursor_sid is None || cursor.cursor_sid is None || probe.cursor_sid
                == cursor.cursor_sid || probe.cursor_sid == Some(0i64) || cursor.cursor_sid == Some(
                0i64,
            )
        },
        cursor.resume_fp == Some(probe.oldest_fp) && probe.max_id >= cursor.local_id
            && probe.cursor_ct == cursor.cursor_ct && (probe.cursor_sid == cursor.cursor_sid
            || probe.cursor_sid is None || cursor.cursor_sid is None || probe.cursor_sid == Some(
            0i64,
        ) || cursor.cursor_sid == Some(0i64)) ==> !rescan,
{
}

/// What a look at a table does to the position: back to the start where the table is to be read
/// again; otherwise it stays, and takes over a server id that it lacked.
pub proof fn law_resumed_position(
    run: &mut ThinRun,
    table: &mut TableRun,
    probe: ResumeProbe,
    rescan: bool,
    watermark: Option<String>,
)
    requires
        call_ensures(thin_guard_says_rescan, (&probe, &old(table).cursor), rescan),
        call_ensures(ThinRun::resume, (run, table, &probe), watermark),
    ensures
        rescan ==> {
            &&& final(table).cursor.local_id == 0
            &&& final(table).cursor.resume_fp is None
            &&& watermark is None
        },
        !rescan ==> {
            &&& final(table).cursor.local_id == old(table).cursor.local_id
            &&& final(table).cursor.resume_fp == old(table).cursor.resume_fp
            &&& final(table).cursor.cursor_ct == old(table).cursor.cursor_ct
            &&& final(table).cursor.prefix_rows == old(table).cursor.prefix_rows
            &&& (old(table).cursor.cursor_sid is Some && old(table).cursor.cursor_sid != Some(0i64)) ==> {
                &&& final(table).cursor.cursor_sid == old(table).cursor.cursor_sid
                &&& watermark is None
            }
            &&& watermark is None ==> final(table).cursor.cursor_sid == old(
                table,
            ).cursor.cursor_sid
            &&& (old(table).cursor.cursor_sid is None || old(table).cursor.cursor_sid == Some(0i64))
                && (probe matches ResumeProbe::Found(p) && p.cursor_sid is Some && p.cursor_sid
                != Some(0i64)) ==> watermark is Some
            &&& watermark is Some ==> (probe matches ResumeProbe::Found(p)
                && final(table).cursor.cursor_sid == p.cursor_sid && p.cursor_sid is Some
                && p.cursor_sid != Some(0i64))
        },
        final(table).key@ == old(table).key@,
        final(table).source@ == old(table).source@,
        watermark is None ==> final(run).texts() == old(run).texts(),
{
}

/// A table is looked at exactly where it was read before.
pub proof fn law_read_table_is_looked_at(table: TableRun, needed: bool)
    requires
        call_ensures(TableRun::needs_probe, (&table,), needed),
    ensures
        needed <==> table.cursor.local_id > 0,
{
}

/// A watermark is lost if nothing could be read from it though it says something: not if there is
/// none, if a position was read, or if it is the empty map.
pub proof fn law_lost_watermark_is_told(
    run: ThinRun,
    watermark: Option<&str>,
    lost: bool,
    table: Seq<char>,
)
    requires
        call_ensures(ThinRun::watermark_is_lost, (&run, watermark), lost),
    ensures
        watermark is None ==> !lost,
        run.positions@.contains_key(table) ==> !lost,
        watermark matches Some(w) ==> {
            &&& w@.len() == 0 || w@ == "{}"@ ==> !lost
            &&& run.positions@ == Map::<Seq<char>, String>::empty() && w@.len() > 0 && w@ != "{}"@
                && (forall|i: int| 0 <= i < w@.len() ==> !crate::text::white_space(#[trigger] w@[i]))
                ==> lost
        },
{
    assert(run.texts().contains_key(table) == run.positions@.contains_key(table));
    assert(run.positions@ == Map::<Seq<char>, String>::empty() ==> run.texts()
        =~= Map::<Seq<char>, Seq<char>>::empty());
    if let Some(w) = watermark {
        reveal_strlit("{}");
        if w@ == "{}"@ {
            assert(w@[0] == '{' && w@[1] == '}');
            crate::text::law_text_without_white_space_is_a_word(w@);
            assert(crate::text::words(w@) =~= seq!["{}"@]);
        } else if w@.len() > 0 && forall|i: int|
            0 <= i < w@.len() ==> !crate::text::white_space(#[trigger] w@[i]) {
            crate::text::law_text_without_white_space_is_a_word(w@);
            assert(crate::text::words(w@)[0] == w@);
            assert(seq!["{}"@][0] == "{}"@);
        }
    }
}

/// The hash takes in one byte after the other, each with the low bits of the hash so far and then
/// with a multiplication that wraps.
pub proof fn law_hash_takes_in_every_byte(bytes: Seq<u8>, byte: u8)
    ensures
        fnv1a(Seq::empty()) == 14_695_981_039_346_656_037,
        fnv1a(bytes.push(byte)) == ((fnv1a(bytes) ^ (byte as u64)) as int * 1_099_511_628_211)
            % 18_446_744_073_709_551_616,
{
    assert(bytes.push(byte).drop_last() =~= bytes);
}

/// A server id that came late is found after a restart: a pass that begins from the watermark that
/// was given back opens the table at the position with that id, and every other table where it
/// was.
pub proof fn law_late_server_id_is_kept(
    run: &mut ThinRun,
    table: &mut TableRun,
    probe: ResumeProbe,
    stored: String,
    watermark: &str,
    limit: usize,
    again: ThinRun,
    rel_name: &str,
    name: &str,
    opened: TableRun,
    before: TableRun,
)
    requires
        call_ensures(ThinRun::resume, (run, table, &probe), Some(stored)),
        watermark@ == stored@,
        call_ensures(ThinRun::start, (limit, Some(watermark)), Ok::<ThinRun, ThinError>(again)),
        call_ensures(ThinRun::open, (&again, rel_name, name), opened),
        call_ensures(ThinRun::open, (&*old(run), rel_name, name), before),
    ensures
        opened.key@ == old(table).key@ ==> opened.cursor == final(table).cursor,
        opened.key@ != old(table).key@ ==> opened.cursor == before.cursor,
{
}

} // verus!
