//! Positions in a source table: how far it was read, and what was seen there.

use vstd::prelude::*;

use crate::watermark::{parse_numbers, print_numbers};

verus! {

/// How far a source table was read, with what identifies the table and the last
/// message that was read.
#[derive(Clone, Copy, Debug, PartialEq, Eq)]
pub struct DrainCursor {
    /// The id of the last message that was read; 0 where none was.
    pub local_id: i64,
    /// The fingerprint of the table's oldest message.
    pub resume_fp: Option<i64>,
    /// The creation time of the last message that was read.
    pub cursor_ct: Option<i64>,
    /// The server id of the last message that was read; 0 or none where it was not
    /// known yet.
    pub cursor_sid: Option<i64>,
    /// How many messages up to the last one that was read the table held.
    pub prefix_rows: Option<i64>,
}

/// What a look at a source table shows at a position.
#[derive(Clone, Copy, Debug, PartialEq, Eq)]
pub struct TableProbe {
    /// The fingerprint of the table's oldest message.
    pub oldest_fp: i64,
    /// The largest message id in the table.
    pub max_id: i64,
    /// The creation time of the message at the position.
    pub cursor_ct: Option<i64>,
    /// The server id of the message at the position.
    pub cursor_sid: Option<i64>,
    /// How many messages the table holds up to the position.
    pub prefix_rows: Option<i64>,
}

/// The outcome of a look at a source table.
#[derive(Clone, Copy, Debug, PartialEq, Eq)]
pub enum ResumeProbe {
    /// The table is of a kind that cannot be looked at in this way.
    Unsupported,
    /// The table is empty.
    Missing,
    /// What the table shows.
    Found(TableProbe),
}

/// The position before the first message.
pub open spec fn table_start() -> DrainCursor {
    DrainCursor {
        local_id: 0,
        resume_fp: None,
        cursor_ct: None,
        cursor_sid: None,
        prefix_rows: None,
    }
}

impl Default for DrainCursor {
    /// The position before the first message.
    fn default() -> (cursor: DrainCursor)
        ensures
            cursor == table_start(),
    {
        DrainCursor {
            local_id: 0,
            resume_fp: None,
            cursor_ct: None,
            cursor_sid: None,
            prefix_rows: None,
        }
    }
}

/// A server id that is known: 0 and none stand for one that is not.
pub open spec fn known(sid: Option<i64>) -> bool {
    sid is Some && sid->0 != 0
}

/// Two server ids name different messages: both are known, and they differ.
pub open spec fn conflicting(a: Option<i64>, b: Option<i64>) -> bool {
    known(a) && known(b) && a != b
}

fn is_known(sid: Option<i64>) -> (is: bool)
    ensures
        is == known(sid),
{
    match sid {
        Some(s) => s != 0,
        None => false,
    }
}

/// Whether two server ids name different messages. One that is not known conflicts
/// with none.
pub fn sid_conflict(a: Option<i64>, b: Option<i64>) -> (conflict: bool)
    ensures
        conflict == conflicting(a, b),
{
    match (a, b) {
        (Some(x), Some(y)) => x != 0 && y != 0 && x != y,
        _ => false,
    }
}

/// Whether `stored` should take over the server id that `seen` shows: the stored
/// position has none yet, and the table shows one now.
pub fn sid_missing(stored: Option<i64>, seen: Option<i64>) -> (missing: bool)
    ensures
        missing == (!known(stored) && known(seen)),
{
    !is_known(stored) && is_known(seen)
}

/// The named numbers of a stored position.
pub open spec fn cursor_fields(cursor: DrainCursor) -> Map<Seq<char>, Option<i64>> {
    Map::<Seq<char>, Option<i64>>::empty().insert("id"@, Some(cursor.local_id)).insert(
        "fp"@,
        cursor.resume_fp,
    ).insert("ct"@, cursor.cursor_ct).insert("sid"@, cursor.cursor_sid).insert(
        "n"@,
        cursor.prefix_rows,
    )
}

/// The number that `fields` hold under `name`: none where it is absent or null.
pub open spec fn field(fields: Map<Seq<char>, Option<i64>>, name: Seq<char>) -> Option<i64> {
    if fields.contains_key(name) {
        fields[name]
    } else {
        None
    }
}

/// The position that named numbers describe. Without an `id` they describe none.
pub open spec fn cursor_of(fields: Map<Seq<char>, Option<i64>>) -> Option<DrainCursor> {
    match field(fields, "id"@) {
        Some(id) => Some(
            DrainCursor {
                local_id: id,
                resume_fp: field(fields, "fp"@),
                cursor_ct: field(fields, "ct"@),
                cursor_sid: field(fields, "sid"@),
                prefix_rows: field(fields, "n"@),
            },
        ),
        None => None,
    }
}

/// The position that a stored text describes.
pub open spec fn stored_cursor(value: Seq<char>) -> Option<DrainCursor> {
    match crate::watermark::parsed_numbers(value) {
        Some(fields) => cursor_of(fields),
        None => None,
    }
}

proof fn lemma_names_differ()
    ensures
        "id"@ != "fp"@,
        "id"@ != "ct"@,
        "id"@ != "sid"@,
        "id"@ != "n"@,
        "fp"@ != "ct"@,
        "fp"@ != "sid"@,
        "fp"@ != "n"@,
        "ct"@ != "sid"@,
        "ct"@ != "n"@,
        "sid"@ != "n"@,
{
    reveal_strlit("id");
    reveal_strlit("fp");
    reveal_strlit("ct");
    reveal_strlit("sid");
    reveal_strlit("n");
    assert("id"@[0] == 'i');
    assert("fp"@[0] == 'f');
    assert("ct"@[0] == 'c');
    assert("sid"@[0] == 's');
    assert("n"@[0] == 'n');
}

/// A stored position reads back as itself.
pub proof fn law_cursor_fields_read_back(cursor: DrainCursor)
    ensures
        cursor_of(cursor_fields(cursor)) == Some(cursor),
{
    lemma_names_differ();
}

fn number(pairs: &Vec<(String, Option<i64>)>, name: &str) -> (value: Option<i64>)
    ensures
        value == field(crate::keyed::paired(pairs@), name@),
{
    let mut i: usize = pairs.len();
    assert(pairs@.take(i as int) =~= pairs@);
    while i > 0
        invariant
            i <= pairs@.len(),
            field(crate::keyed::paired(pairs@), name@) == field(
                crate::keyed::paired(pairs@.take(i as int)),
                name@,
            ),
        decreases i,
    {
        proof {
            let head = pairs@.take(i as int);
            assert(head.drop_last() =~= pairs@.take(i - 1));
            assert(head.last() == pairs@[i - 1]);
        }
        i -= 1;
        if crate::text::same_text(pairs[i].0.as_str(), name) {
            return pairs[i].1;
        }
    }
    None
}

impl DrainCursor {
    /// The text under which the position is stored.
    pub fn to_watermark_value(&self) -> (value: String)
        ensures
            value@ == crate::watermark::printed_numbers(cursor_fields(*self)),
            stored_cursor(value@) == Some(*self),
    {
        let mut pairs: Vec<(String, Option<i64>)> = Vec::new();
        pairs.push(("id".to_owned(), Some(self.local_id)));
        pairs.push(("fp".to_owned(), self.resume_fp));
        pairs.push(("ct".to_owned(), self.cursor_ct));
        pairs.push(("sid".to_owned(), self.cursor_sid));
        pairs.push(("n".to_owned(), self.prefix_rows));
        proof {
            reveal_with_fuel(crate::keyed::paired, 6);
            let s = pairs@;
            assert(crate::keyed::paired(s) =~= cursor_fields(*self)) by {
                assert(s.drop_last() =~= s.take(4));
                assert(s.take(4).drop_last() =~= s.take(3));
                assert(s.take(3).drop_last() =~= s.take(2));
                assert(s.take(2).drop_last() =~= s.take(1));
                assert(s.take(1).drop_last() =~= s.take(0));
            }
            law_cursor_fields_read_back(*self);
        }
        print_numbers(&pairs)
    }

    /// The position that a stored text describes; none where the text is no map of
    /// names to numbers or names no `id`.
    pub fn from_watermark_value(value: &str) -> (cursor: Option<DrainCursor>)
        ensures
            cursor == stored_cursor(value@),
    {
        match parse_numbers(value) {
            Some(pairs) => DrainCursor::from_fields(&pairs),
            None => None,
        }
    }

    /// The position that named numbers describe.
    pub fn from_fields(pairs: &Vec<(String, Option<i64>)>) -> (cursor: Option<DrainCursor>)
        ensures
            cursor == cursor_of(crate::keyed::paired(pairs@)),
    {
        match number(pairs, "id") {
            Some(local_id) => Some(
                DrainCursor {
                    local_id,
                    resume_fp: number(pairs, "fp"),
                    cursor_ct: number(pairs, "ct"),
                    cursor_sid: number(pairs, "sid"),
                    prefix_rows: number(pairs, "n"),
                },
            ),
            None => None,
        }
    }
}

/// Two server ids speak against each other exactly if both are there, neither is 0, and they
/// differ; and one is taken over exactly where none was stored or 0, and one that is not 0 is
/// seen.
pub proof fn law_zero_and_none_are_no_server_ids(
    a: Option<i64>,
    b: Option<i64>,
    conflict: bool,
    missing: bool,
)
    requires
        call_ensures(sid_conflict, (a, b), conflict),
        call_ensures(sid_missing, (a, b), missing),
    ensures
        conflict <==> a is Some && b is Some && a != Some(0i64) && b != Some(0i64) && a != b,
        missing <==> (a is None || a == Some(0i64)) && b is Some && b != Some(0i64),
{
}

/// A position is stored under five names, each with its own number, and read back as it was.
pub proof fn law_position_is_stored_by_name(
    cursor: DrainCursor,
    value: String,
    text: &str,
    read: Option<DrainCursor>,
)
    requires
        call_ensures(DrainCursor::to_watermark_value, (&cursor,), value),
        text@ == value@,
        call_ensures(DrainCursor::from_watermark_value, (text,), read),
    ensures
        read == Some(cursor),
        exists|fields: Map<Seq<char>, Option<i64>>|
            {
                &&& value@ == #[trigger] crate::watermark::printed_numbers(fields)
                &&& forall|name: Seq<char>| #[trigger]
                    fields.contains_key(name) <==> name == "id"@ || name == "fp"@ || name == "ct"@
                        || name == "sid"@ || name == "n"@
                &&& fields["id"@] == Some(cursor.local_id)
                &&& fields["fp"@] == cursor.resume_fp
                &&& fields["ct"@] == cursor.cursor_ct
                &&& fields["sid"@] == cursor.cursor_sid
                &&& fields["n"@] == cursor.prefix_rows
            },
{
    lemma_names_differ();
    assert(value@ == crate::watermark::printed_numbers(cursor_fields(cursor)));
}

/// What is read of a position: each number under its name, none where it is absent or null, and
/// nothing at all without an id. Of a name that comes twice, the last one counts.
pub proof fn law_named_numbers_are_read_by_name(
    pairs: &Vec<(String, Option<i64>)>,
    cursor: Option<DrainCursor>,
)
    requires
        call_ensures(DrainCursor::from_fields, (pairs,), cursor),
    ensures
        ({
            let fields = crate::keyed::paired(pairs@);
            &&& cursor is Some <==> fields.contains_key("id"@) && fields["id"@] is Some
            &&& cursor matches Some(c) ==> {
                &&& Some(c.local_id) == fields["id"@]
                &&& fields.contains_key("fp"@) ==> c.resume_fp == fields["fp"@]
                &&& !fields.contains_key("fp"@) ==> c.resume_fp is None
                &&& fields.contains_key("ct"@) ==> c.cursor_ct == fields["ct"@]
                &&& !fields.contains_key("ct"@) ==> c.cursor_ct is None
                &&& fields.contains_key("sid"@) ==> c.cursor_sid == fields["sid"@]
                &&& !fields.contains_key("sid"@) ==> c.cursor_sid is None
                &&& fields.contains_key("n"@) ==> c.prefix_rows == fields["n"@]
                &&& !fields.contains_key("n"@) ==> c.prefix_rows is None
            }
        }),
{
}

} // verus!
