//! Full-text search: the index over the message table, the thin index, and the
//! queries.

use vstd::prelude::*;
use vstd::string::*;

use crate::message::V3Message;
use crate::sql::{Row, SqlValue, Statement, Val};
use crate::text::chars_of;

verus! {

/// One message that a search has found.
#[derive(Debug, Clone)]
pub struct MessageSearchHit {
    pub create_time: i64,
    pub conv_id: String,
    pub sender_wxid: String,
    pub text_content: String,
}

pub open spec fn message_fts_table() -> Seq<char> {
    "CREATE VIRTUAL TABLE IF NOT EXISTS message_fts USING fts5(text_content, content='message', content_rowid='rowid', tokenize='trigram');"@
}

/// The full-text index over the message table.
pub fn init_message_fts() -> (statement: Statement)
    ensures
        statement.is_plain(message_fts_table()),
{
    Statement::plain(
        "CREATE VIRTUAL TABLE IF NOT EXISTS message_fts USING fts5(text_content, content='message', content_rowid='rowid', tokenize='trigram');",
    )
}

pub open spec fn message_fts_rebuild() -> Seq<char> {
    "INSERT INTO message_fts(message_fts) VALUES('rebuild');"@
}

/// The statements that fill the index from the message table.
pub fn rebuild_message_fts() -> (statements: Vec<Statement>)
    ensures
        statements@.len() == 2,
        statements@[0].is_plain(message_fts_table()),
        statements@[1].is_plain(message_fts_rebuild()),
{
    let mut statements: Vec<Statement> = Vec::new();
    statements.push(init_message_fts());
    statements.push(Statement::plain("INSERT INTO message_fts(message_fts) VALUES('rebuild');"));
    statements
}

/// The query for the number of messages in the index.
pub fn message_fts_count() -> (statement: Statement)
    ensures
        statement.is_plain("SELECT count(*) FROM message_fts"@),
{
    Statement::plain("SELECT count(*) FROM message_fts")
}

/// What a trigger does to the index.
pub enum TriggerAct {
    /// Puts the new row in.
    Put,
    /// Takes the old row out.
    TakeOut,
}

impl TriggerAct {
    /// The SQL text of the act.
    pub open spec fn text(self) -> Seq<char> {
        match self {
            TriggerAct::Put => {
                "INSERT INTO message_fts(rowid, text_content) VALUES (new.rowid, new.text_content);"@
            },
            TriggerAct::TakeOut => {
                "INSERT INTO message_fts(message_fts, rowid, text_content) VALUES('delete', old.rowid, old.text_content);"@
            },
        }
    }

    /// The index after the act: the text of each row. `was` and `is` are the row before the write
    /// and after it.
    pub open spec fn apply(
        self,
        index: Map<int, Seq<char>>,
        was: (int, Seq<char>),
        is: (int, Seq<char>),
    ) -> Map<int, Seq<char>> {
        match self {
            TriggerAct::Put => index.insert(is.0, is.1),
            TriggerAct::TakeOut => index.remove(was.0),
        }
    }
}

/// The text that makes a trigger.
pub open spec fn trigger_text(name: Seq<char>, event: Seq<char>, acts: Seq<TriggerAct>) -> Seq<
    char,
> {
    "CREATE TRIGGER IF NOT EXISTS "@ + name + " AFTER "@ + event + " ON message BEGIN "@
        + crate::sql::joined(acts.map_values(|act: TriggerAct| act.text()), " "@) + " END;"@
}

/// What is done after a message was put in.
pub open spec fn acts_after_insert() -> Seq<TriggerAct> {
    seq![TriggerAct::Put]
}

/// What is done after a message was taken out.
pub open spec fn acts_after_delete() -> Seq<TriggerAct> {
    seq![TriggerAct::TakeOut]
}

/// What is done after a message was changed.
pub open spec fn acts_after_update() -> Seq<TriggerAct> {
    seq![TriggerAct::TakeOut, TriggerAct::Put]
}

/// The text that makes the three triggers.
pub open spec fn message_fts_triggers() -> Seq<char> {
    trigger_text("message_fts_ai"@, "INSERT"@, acts_after_insert()) + " "@ + trigger_text(
        "message_fts_ad"@,
        "DELETE"@,
        acts_after_delete(),
    ) + " "@ + trigger_text("message_fts_au"@, "UPDATE"@, acts_after_update())
}

fn push_trigger(out: &mut String, name: &str, event: &str, takes_out: bool, puts: bool)
    requires
        takes_out || puts,
    ensures
        final(out)@ == old(out)@ + trigger_text(
            name@,
            event@,
            if takes_out && puts {
                acts_after_update()
            } else if takes_out {
                acts_after_delete()
            } else {
                acts_after_insert()
            },
        ),
{
    let ghost acts = if takes_out && puts {
        acts_after_update()
    } else if takes_out {
        acts_after_delete()
    } else {
        acts_after_insert()
    };
    let ghost texts = acts.map_values(|act: TriggerAct| act.text());
    out.append("CREATE TRIGGER IF NOT EXISTS ");
    out.append(name);
    out.append(" AFTER ");
    out.append(event);
    out.append(" ON message BEGIN ");
    if takes_out {
        out.append(
            "INSERT INTO message_fts(message_fts, rowid, text_content) VALUES('delete', old.rowid, old.text_content);",
        );
    }
    if takes_out && puts {
        out.append(" ");
    }
    if puts {
        out.append(
            "INSERT INTO message_fts(rowid, text_content) VALUES (new.rowid, new.text_content);",
        );
    }
    out.append(" END;");
    proof {
        reveal_with_fuel(crate::sql::joined, 3);
        if takes_out && puts {
            assert(texts.drop_last() =~= seq![TriggerAct::TakeOut.text()]);
        }
        assert(out@ =~= old(out)@ + trigger_text(name@, event@, acts));
    }
}

/// The triggers keep the index in step with the table: where it holds the text of every message
/// and nothing else, it does so after a message was put in, taken out or changed and the trigger
/// has run.
pub proof fn law_triggers_keep_the_index_in_step(
    table: Map<int, Seq<char>>,
    was: (int, Seq<char>),
    is: (int, Seq<char>),
)
    ensures
        !table.contains_key(is.0) ==> after_acts(table, acts_after_insert(), was, is)
            == table.insert(is.0, is.1),
        after_acts(table, acts_after_delete(), was, is) == table.remove(was.0),
        after_acts(table, acts_after_update(), was, is) == table.remove(was.0).insert(is.0, is.1),
{
    reveal_with_fuel(after_acts, 3);
    assert(acts_after_update().drop_last() =~= seq![TriggerAct::TakeOut]);
    assert(acts_after_update().drop_last().drop_last() =~= Seq::<TriggerAct>::empty());
    assert(acts_after_insert().drop_last() =~= Seq::<TriggerAct>::empty());
    assert(acts_after_delete().drop_last() =~= Seq::<TriggerAct>::empty());
}

/// The index after some acts, one after the other.
pub open spec fn after_acts(
    index: Map<int, Seq<char>>,
    acts: Seq<TriggerAct>,
    was: (int, Seq<char>),
    is: (int, Seq<char>),
) -> Map<int, Seq<char>>
    decreases acts.len(),
{
    if acts.len() == 0 {
        index
    } else {
        acts.last().apply(after_acts(index, acts.drop_last(), was, is), was, is)
    }
}

/// The statements that make the index and the triggers that keep it in step with the
/// message table.
pub fn init_message_fts_triggers() -> (statements: Vec<Statement>)
    ensures
        statements@.len() == 2,
        statements@[0].is_plain(message_fts_table()),
        statements@[1].is_plain(message_fts_triggers()),
{
    let mut statements: Vec<Statement> = Vec::new();
    statements.push(init_message_fts());
    let mut sql = String::new();
    push_trigger(&mut sql, "message_fts_ai", "INSERT", false, true);
    sql.append(" ");
    push_trigger(&mut sql, "message_fts_ad", "DELETE", true, false);
    sql.append(" ");
    push_trigger(&mut sql, "message_fts_au", "UPDATE", true, true);
    assert(sql@ =~= message_fts_triggers());
    statements.push(Statement { sql, params: Vec::new() });
    statements
}

/// The statement that takes the triggers away.
pub fn drop_message_fts_triggers() -> (statement: Statement)
    ensures
        statement.is_plain(
            "DROP TRIGGER IF EXISTS message_fts_ai; DROP TRIGGER IF EXISTS message_fts_ad; DROP TRIGGER IF EXISTS message_fts_au;"@,
        ),
{
    Statement::plain(
        "DROP TRIGGER IF EXISTS message_fts_ai; DROP TRIGGER IF EXISTS message_fts_ad; DROP TRIGGER IF EXISTS message_fts_au;",
    )
}

/// The query for the number of triggers that are there.
pub fn message_fts_trigger_count() -> (statement: Statement)
    ensures
        statement.is_plain(
            "SELECT count(*) FROM sqlite_master WHERE type='trigger' AND name IN ('message_fts_ai', 'message_fts_ad', 'message_fts_au')"@,
        ),
{
    Statement::plain(
        "SELECT count(*) FROM sqlite_master WHERE type='trigger' AND name IN ('message_fts_ai', 'message_fts_ad', 'message_fts_au')",
    )
}

/// Whether all three triggers are there, from their number; a count that could not be
/// read counts as no.
#[must_use]
pub fn message_fts_triggers_exist(count: Option<i64>) -> (exist: bool)
    ensures
        exist == (count == Some(3i64)),
{
    match count {
        Some(n) => n == 3,
        None => false,
    }
}

/// The statements that fill the index and then make the triggers: what is there is
/// indexed once, and what comes later is indexed as it comes.
pub fn build_message_fts_incremental() -> (statements: Vec<Statement>)
    ensures
        statements@.len() == 4,
        statements@[0].is_plain(message_fts_table()),
        statements@[1].is_plain(message_fts_rebuild()),
        statements@[2].is_plain(message_fts_table()),
        statements@[3].is_plain(message_fts_triggers()),
{
    let mut statements = rebuild_message_fts();
    let mut triggers = init_message_fts_triggers();
    statements.append(&mut triggers);
    statements
}

/// The statement that merges the segments of the index.
pub fn optimize_message_fts() -> (statement: Statement)
    ensures
        statement.is_plain("INSERT INTO message_fts(message_fts) VALUES('optimize');"@),
{
    Statement::plain("INSERT INTO message_fts(message_fts) VALUES('optimize');")
}

/// The query for whether there is an index over the message table.
pub fn message_fts_lookup() -> (statement: Statement)
    ensures
        statement.is_plain(
            "SELECT count(*) FROM sqlite_master WHERE type='table' AND name='message_fts'"@,
        ),
{
    Statement::plain(
        "SELECT count(*) FROM sqlite_master WHERE type='table' AND name='message_fts'",
    )
}

/// Whether there is an index over the message table, from the number of tables of its
/// name; a count that could not be read counts as no.
pub fn message_fts_exists(count: Option<i64>) -> (exists: bool)
    ensures
        exists == (count matches Some(n) && n > 0),
{
    match count {
        Some(n) => n > 0,
        None => false,
    }
}

/// The thin index.
pub fn init_thin_fts() -> (statement: Statement)
    ensures
        statement.is_plain(
            "CREATE VIRTUAL TABLE IF NOT EXISTS thin_fts USING fts5(msg_id UNINDEXED, source UNINDEXED, text, tokenize='trigram');"@,
        ),
{
    Statement::plain(
        "CREATE VIRTUAL TABLE IF NOT EXISTS thin_fts USING fts5(msg_id UNINDEXED, source UNINDEXED, text, tokenize='trigram');",
    )
}

/// The statements that put a message into the thin index, in place of the row with the
/// same id.
pub fn insert_thin_msg(rowid: i64, source: &str, msg_id: &str, text: &str) -> (statements: Vec<
    Statement,
>)
    ensures
        statements@.len() == 2,
        statements@[0].sql@ == "DELETE FROM thin_fts WHERE rowid = ?1"@,
        statements@[0].values() == seq![Val::Integer(rowid as int)],
        statements@[1].sql@
            == "INSERT INTO thin_fts(rowid, msg_id, source, text) VALUES (?1, ?2, ?3, ?4)"@,
        statements@[1].values() == seq![
            Val::Integer(rowid as int),
            Val::Text(msg_id@),
            Val::Text(source@),
            Val::Text(text@),
        ],
{
    let mut statements: Vec<Statement> = Vec::new();
    let mut named: Vec<SqlValue> = Vec::new();
    named.push(SqlValue::Integer(rowid));
    let delete = Statement {
        sql: "DELETE FROM thin_fts WHERE rowid = ?1".to_owned(),
        params: named,
    };
    assert(delete.values() =~= seq![Val::Integer(rowid as int)]);
    statements.push(delete);
    let mut params: Vec<SqlValue> = Vec::new();
    params.push(SqlValue::Integer(rowid));
    params.push(SqlValue::Text(msg_id.to_owned()));
    params.push(SqlValue::Text(source.to_owned()));
    params.push(SqlValue::Text(text.to_owned()));
    let insert = Statement {
        sql: "INSERT INTO thin_fts(rowid, msg_id, source, text) VALUES (?1, ?2, ?3, ?4)".to_owned(),
        params,
    };
    assert(insert.values() =~= seq![
        Val::Integer(rowid as int),
        Val::Text(msg_id@),
        Val::Text(source@),
        Val::Text(text@),
    ]);
    statements.push(insert);
    statements
}

/// The query for whether the thin index has the column of the shard.
pub fn thin_fts_source_lookup() -> (statement: Statement)
    ensures
        statement.is_plain(
            "SELECT count(*) FROM pragma_table_info('thin_fts') WHERE name = 'source'"@,
        ),
{
    Statement::plain("SELECT count(*) FROM pragma_table_info('thin_fts') WHERE name = 'source'")
}

/// Whether the thin index has the column of the shard, from the number of such columns;
/// a count that could not be read counts as no.
pub fn thin_fts_has_source(count: Option<i64>) -> (has: bool)
    ensures
        has == (count matches Some(n) && n > 0),
{
    match count {
        Some(n) => n > 0,
        None => false,
    }
}

/// The statement that merges the segments of the thin index.
pub fn optimize_thin_fts() -> (statement: Statement)
    ensures
        statement.is_plain("INSERT INTO thin_fts(thin_fts) VALUES('optimize');"@),
{
    Statement::plain("INSERT INTO thin_fts(thin_fts) VALUES('optimize');")
}

/// The query of the thin index; none for a text of fewer than three characters, which
/// the index cannot find.
pub fn search_thin(query: &str, limit: usize) -> (statement: Option<Statement>)
    ensures
        match statement {
            Some(s) => {
                &&& query@.len() >= 3
                &&& s.sql@
                    == "SELECT msg_id, source, snippet(thin_fts, 2, '[', ']', '…', 12) FROM thin_fts WHERE thin_fts MATCH ?1 ORDER BY rank LIMIT ?2"@
                &&& s.values() == seq![Val::Text(query@), Val::Integer((limit as i64) as int)]
            },
            None => query@.len() < 3,
        },
{
    if query.unicode_len() < 3 {
        return None;
    }
    let mut params: Vec<SqlValue> = Vec::new();
    params.push(SqlValue::Text(query.to_owned()));
    params.push(SqlValue::Integer(#[verifier::truncate] (limit as i64)));
    let statement = Statement {
        sql:
            "SELECT msg_id, source, snippet(thin_fts, 2, '[', ']', '…', 12) FROM thin_fts WHERE thin_fts MATCH ?1 ORDER BY rank LIMIT ?2".to_owned(),
        params,
    };
    assert(statement.values() =~= seq![Val::Text(query@), Val::Integer((limit as i64) as int)]);
    Some(statement)
}

/// A text with every character `c` of it written as `with(c)`.
pub open spec fn rewritten(text: Seq<char>, with: spec_fn(char) -> Seq<char>) -> Seq<char>
    decreases text.len(),
{
    if text.len() == 0 {
        Seq::empty()
    } else {
        rewritten(text.drop_last(), with) + with(text.last())
    }
}

/// A character inside a quoted phrase: a quote is doubled.
pub open spec fn in_phrase(c: char) -> Seq<char> {
    if c == '"' {
        seq!['"', '"']
    } else {
        seq![c]
    }
}

/// A text as a phrase of the index's query language: between quotes, so that nothing in
/// it is taken for syntax.
pub open spec fn phrase(text: Seq<char>) -> Seq<char> {
    seq!['"'] + rewritten(text, |c: char| in_phrase(c)) + seq!['"']
}

/// A character inside a pattern: a wildcard is escaped, and so is the escape.
pub open spec fn in_pattern(c: char) -> Seq<char> {
    if c == '\\' || c == '%' || c == '_' {
        seq!['\\', c]
    } else {
        seq![c]
    }
}

/// The pattern of all texts that hold a text.
pub open spec fn pattern(text: Seq<char>) -> Seq<char> {
    seq!['%'] + rewritten(text, |c: char| in_pattern(c)) + seq!['%']
}

fn phrase_of(text: &str) -> (quoted: String)
    ensures
        quoted@ == phrase(text@),
{
    let chars = chars_of(text);
    let ghost with = |c: char| in_phrase(c);
    let mut quoted = String::new();
    quoted.push('"');
    let mut i: usize = 0;
    assert(quoted@ =~= seq!['"'] + rewritten(chars@.take(0), with));
    while i < chars.len()
        invariant
            i <= chars@.len(),
            with == (|c: char| in_phrase(c)),
            quoted@ == seq!['"'] + rewritten(chars@.take(i as int), with),
        decreases chars@.len() - i,
    {
        let c = chars[i];
        if c == '"' {
            quoted.push('"');
        }
        quoted.push(c);
        assert(chars@.take(i + 1).drop_last() =~= chars@.take(i as int));
        assert(quoted@ =~= seq!['"'] + rewritten(chars@.take(i + 1), with));
        i += 1;
    }
    assert(chars@.take(i as int) =~= text@);
    quoted.push('"');
    assert(quoted@ =~= phrase(text@));
    quoted
}

fn pattern_of(text: &str) -> (like: String)
    ensures
        like@ == pattern(text@),
{
    let chars = chars_of(text);
    let ghost with = |c: char| in_pattern(c);
    let mut like = String::new();
    like.push('%');
    let mut i: usize = 0;
    assert(like@ =~= seq!['%'] + rewritten(chars@.take(0), with));
    while i < chars.len()
        invariant
            i <= chars@.len(),
            with == (|c: char| in_pattern(c)),
            like@ == seq!['%'] + rewritten(chars@.take(i as int), with),
        decreases chars@.len() - i,
    {
        let c = chars[i];
        if c == '\\' || c == '%' || c == '_' {
            like.push('\\');
        }
        like.push(c);
        assert(chars@.take(i + 1).drop_last() =~= chars@.take(i as int));
        assert(like@ =~= seq!['%'] + rewritten(chars@.take(i + 1), with));
        i += 1;
    }
    assert(chars@.take(i as int) =~= text@);
    like.push('%');
    assert(like@ =~= pattern(text@));
    like
}

/// Whether a search can use the index over the message table, if there is one: the
/// index finds texts of three characters and more.
pub fn search_can_use_index(query: &str) -> (can: bool)
    ensures
        can == (query@.len() >= 3),
{
    query.unicode_len() >= 3
}

/// The condition on the account.
pub open spec fn account_test(column: Seq<char>, account: Option<&str>) -> Seq<char> {
    if account is Some {
        " AND "@ + column + " = ?3"@
    } else {
        Seq::empty()
    }
}

/// The text of a search by the index.
pub open spec fn index_search(account: Option<&str>) -> Seq<char> {
    "SELECT m.create_time, m.conv_id, m.sender_wxid, m.text_content FROM message_fts f JOIN message m ON m.rowid = f.rowid WHERE message_fts MATCH ?1"@
        + account_test("m.account_id_sha"@, account)
        + " ORDER BY bm25(message_fts) LIMIT ?2"@
}

/// The text of a search through all messages.
pub open spec fn scan_search(account: Option<&str>) -> Seq<char> {
    "SELECT create_time, conv_id, sender_wxid, text_content FROM message WHERE text_content LIKE ?1 ESCAPE '\\'"@
        + account_test("account_id_sha"@, account) + " ORDER BY create_time DESC LIMIT ?2"@
}

/// The parameters of a search.
pub open spec fn search_values(wanted: Seq<char>, limit: int, account: Option<&str>) -> Seq<Val> {
    match account {
        Some(a) => seq![Val::Text(wanted), Val::Integer(limit), Val::Text(a@)],
        None => seq![Val::Text(wanted), Val::Integer(limit)],
    }
}

fn search(
    head: &str,
    account_test_text: &str,
    tail: &str,
    wanted: String,
    limit: i64,
    account: Option<&str>,
) -> (statement: Statement)
    ensures
        statement.sql@ == head@ + (if account is Some {
            account_test_text@
        } else {
            Seq::empty()
        }) + tail@,
        statement.values() == search_values(wanted@, limit as int, account),
{
    let ghost text = wanted@;
    let mut sql = head.to_owned();
    let mut params: Vec<SqlValue> = Vec::new();
    params.push(SqlValue::Text(wanted));
    params.push(SqlValue::Integer(limit));
    if let Some(a) = account {
        sql.append(account_test_text);
        params.push(SqlValue::Text(a.to_owned()));
    }
    sql.append(tail);
    let statement = Statement { sql, params };
    assert(statement.values() =~= search_values(text, limit as int, account));
    assert(statement.sql@ =~= head@ + (if account is Some {
        account_test_text@
    } else {
        Seq::empty()
    }) + tail@);
    statement
}

/// The search for messages that hold `query`, of one account where one is given.
///
/// With three characters and more, and an index, the index is asked for the text as a
/// phrase, the best matches first. Otherwise all messages are looked through, the
/// latest first. Nothing in `query` is taken for syntax.
pub fn search_messages(
    query: &str,
    limit: i64,
    account_sha: Option<&str>,
    index_exists: bool,
) -> (statement: Statement)
    ensures
        if query@.len() >= 3 && index_exists {
            &&& statement.sql@ == index_search(account_sha)
            &&& statement.values() == search_values(phrase(query@), limit as int, account_sha)
        } else {
            &&& statement.sql@ == scan_search(account_sha)
            &&& statement.values() == search_values(pattern(query@), limit as int, account_sha)
        },
{
    if search_can_use_index(query) && index_exists {
        let statement = search(
            "SELECT m.create_time, m.conv_id, m.sender_wxid, m.text_content FROM message_fts f JOIN message m ON m.rowid = f.rowid WHERE message_fts MATCH ?1",
            " AND m.account_id_sha = ?3",
            " ORDER BY bm25(message_fts) LIMIT ?2",
            phrase_of(query),
            limit,
            account_sha,
        );
        proof {
            reveal_strlit(" AND m.account_id_sha = ?3");
            reveal_strlit(" AND ");
            reveal_strlit("m.account_id_sha");
            reveal_strlit(" = ?3");
            assert(" AND m.account_id_sha = ?3"@ =~= " AND "@ + "m.account_id_sha"@ + " = ?3"@);
        }
        statement
    } else {
        let statement = search(
            "SELECT create_time, conv_id, sender_wxid, text_content FROM message WHERE text_content LIKE ?1 ESCAPE '\\'",
            " AND account_id_sha = ?3",
            " ORDER BY create_time DESC LIMIT ?2",
            pattern_of(query),
            limit,
            account_sha,
        );
        proof {
            reveal_strlit(" AND account_id_sha = ?3");
            reveal_strlit(" AND ");
            reveal_strlit("account_id_sha");
            reveal_strlit(" = ?3");
            assert(" AND account_id_sha = ?3"@ =~= " AND "@ + "account_id_sha"@ + " = ?3"@);
        }
        statement
    }
}

/// A message that was found, as values.
pub open spec fn hit_values(hit: MessageSearchHit) -> Seq<Val> {
    seq![
        Val::Integer(hit.create_time as int),
        Val::Text(hit.conv_id@),
        Val::Text(hit.sender_wxid@),
        Val::Text(hit.text_content@),
    ]
}

/// Values that can be those of a message that was found.
pub open spec fn is_hit(values: Seq<Val>) -> bool {
    &&& values.len() == 4
    &&& values[0] is Integer
    &&& values[1] is Text
    &&& values[2] is Text
    &&& values[3] is Text
}

/// The message that was found, from the values that were read; none where they are not
/// those of a message.
pub fn hit_from_row(values: &Vec<SqlValue>) -> (hit: Option<MessageSearchHit>)
    ensures
        match hit {
            Some(h) => values@.map_values(|v: SqlValue| v@) == hit_values(h),
            None => !is_hit(values@.map_values(|v: SqlValue| v@)),
        },
{
    let ghost views = values@.map_values(|v: SqlValue| v@);
    if values.len() != 4 {
        return None;
    }
    assert(views[0] == values@[0]@ && views[1] == values@[1]@ && views[2] == values@[2]@
        && views[3] == values@[3]@);
    match (&values[0], &values[1], &values[2], &values[3]) {
        (
            SqlValue::Integer(create_time),
            SqlValue::Text(conv_id),
            SqlValue::Text(sender_wxid),
            SqlValue::Text(text_content),
        ) => {
            let hit = MessageSearchHit {
                create_time: *create_time,
                conv_id: conv_id.clone(),
                sender_wxid: sender_wxid.clone(),
                text_content: text_content.clone(),
            };
            assert(views =~= hit_values(hit));
            Some(hit)
        },
        _ => None,
    }
}

/// The one text that a piece of a pattern matches; none where it holds a wildcard or an
/// escape of nothing.
pub open spec fn pattern_reads(body: Seq<char>) -> Option<Seq<char>>
    decreases body.len(),
{
    if body.len() == 0 {
        Some(Seq::empty())
    } else if body[0] == '%' || body[0] == '_' {
        None
    } else if body[0] == '\\' {
        if body.len() < 2 {
            None
        } else {
            match pattern_reads(body.skip(2)) {
                Some(rest) => Some(seq![body[1]] + rest),
                None => None,
            }
        }
    } else {
        match pattern_reads(body.skip(1)) {
            Some(rest) => Some(seq![body[0]] + rest),
            None => None,
        }
    }
}

/// The text that the inside of a quoted phrase stands for; none where a quote ends it.
pub open spec fn phrase_reads(body: Seq<char>) -> Option<Seq<char>>
    decreases body.len(),
{
    if body.len() == 0 {
        Some(Seq::empty())
    } else if body[0] == '"' {
        if body.len() < 2 || body[1] != '"' {
            None
        } else {
            match phrase_reads(body.skip(2)) {
                Some(rest) => Some(seq!['"'] + rest),
                None => None,
            }
        }
    } else {
        match phrase_reads(body.skip(1)) {
            Some(rest) => Some(seq![body[0]] + rest),
            None => None,
        }
    }
}

proof fn lemma_pattern_joins(a: Seq<char>, b: Seq<char>)
    requires
        pattern_reads(a) is Some,
        pattern_reads(b) is Some,
    ensures
        pattern_reads(a + b) == Some(pattern_reads(a)->0 + pattern_reads(b)->0),
    decreases a.len(),
{
    if a.len() == 0 {
        assert(a + b =~= b);
        assert(pattern_reads(a)->0 + pattern_reads(b)->0 =~= pattern_reads(b)->0);
    } else if a[0] == '\\' {
        assert((a + b).skip(2) =~= a.skip(2) + b);
        lemma_pattern_joins(a.skip(2), b);
        assert(seq![a[1]] + (pattern_reads(a.skip(2))->0 + pattern_reads(b)->0) =~= (seq![a[1]]
            + pattern_reads(a.skip(2))->0) + pattern_reads(b)->0);
    } else {
        assert((a + b).skip(1) =~= a.skip(1) + b);
        lemma_pattern_joins(a.skip(1), b);
        assert(seq![a[0]] + (pattern_reads(a.skip(1))->0 + pattern_reads(b)->0) =~= (seq![a[0]]
            + pattern_reads(a.skip(1))->0) + pattern_reads(b)->0);
    }
}

proof fn lemma_phrase_joins(a: Seq<char>, b: Seq<char>)
    requires
        phrase_reads(a) is Some,
        phrase_reads(b) is Some,
    ensures
        phrase_reads(a + b) == Some(phrase_reads(a)->0 + phrase_reads(b)->0),
    decreases a.len(),
{
    if a.len() == 0 {
        assert(a + b =~= b);
        assert(phrase_reads(a)->0 + phrase_reads(b)->0 =~= phrase_reads(b)->0);
    } else if a[0] == '"' {
        assert((a + b).skip(2) =~= a.skip(2) + b);
        lemma_phrase_joins(a.skip(2), b);
        assert(seq!['"'] + (phrase_reads(a.skip(2))->0 + phrase_reads(b)->0) =~= (seq!['"']
            + phrase_reads(a.skip(2))->0) + phrase_reads(b)->0);
    } else {
        assert((a + b).skip(1) =~= a.skip(1) + b);
        lemma_phrase_joins(a.skip(1), b);
        assert(seq![a[0]] + (phrase_reads(a.skip(1))->0 + phrase_reads(b)->0) =~= (seq![a[0]]
            + phrase_reads(a.skip(1))->0) + phrase_reads(b)->0);
    }
}

/// A pattern looks for the text and nothing else: between its two wildcards it matches
/// exactly the text that was asked for, whatever characters that holds.
pub proof fn law_pattern_stands_for_its_text(text: Seq<char>)
    ensures
        pattern_reads(rewritten(text, |c: char| in_pattern(c))) == Some(text),
        pattern(text) == seq!['%'] + rewritten(text, |c: char| in_pattern(c)) + seq!['%'],
    decreases text.len(),
{
    if text.len() == 0 {
        assert(Seq::<char>::empty() =~= text);
    } else {
        let with = |c: char| in_pattern(c);
        let head = text.drop_last();
        let piece = in_pattern(text.last());
        law_pattern_stands_for_its_text(head);
        assert(pattern_reads(piece) == Some(seq![text.last()])) by {
            reveal_with_fuel(pattern_reads, 3);
            if piece.len() == 2 {
                assert(piece.skip(2) =~= Seq::<char>::empty());
            } else {
                assert(piece.skip(1) =~= Seq::<char>::empty());
            }
            assert(seq![text.last()] + Seq::<char>::empty() =~= seq![text.last()]);
        }
        lemma_pattern_joins(rewritten(head, with), piece);
        assert(head + seq![text.last()] =~= text);
    }
}

/// A phrase stands for its text and nothing else: no quote inside it ends it, and what
/// it stands for is exactly the text that was asked for.
pub proof fn law_phrase_stands_for_its_text(text: Seq<char>)
    ensures
        phrase_reads(rewritten(text, |c: char| in_phrase(c))) == Some(text),
        phrase(text) == seq!['"'] + rewritten(text, |c: char| in_phrase(c)) + seq!['"'],
    decreases text.len(),
{
    if text.len() == 0 {
        assert(Seq::<char>::empty() =~= text);
    } else {
        let with = |c: char| in_phrase(c);
        let head = text.drop_last();
        let piece = in_phrase(text.last());
        law_phrase_stands_for_its_text(head);
        assert(phrase_reads(piece) == Some(seq![text.last()])) by {
            reveal_with_fuel(phrase_reads, 3);
            if piece.len() == 2 {
                assert(piece.skip(2) =~= Seq::<char>::empty());
            } else {
                assert(piece.skip(1) =~= Seq::<char>::empty());
            }
            assert(seq![text.last()] + Seq::<char>::empty() =~= seq![text.last()]);
        }
        lemma_phrase_joins(rewritten(head, with), piece);
        assert(head + seq![text.last()] =~= text);
    }
}

/// A character as a pattern compares it: the case of the ASCII letters does not count, and what
/// is no character is read as the replacement character.
pub open spec fn compared(c: char) -> int {
    if 'A' as int <= c as int <= 'Z' as int {
        c as int + 32
    } else if c as int == 0xfffe || c as int == 0xffff {
        0xfffd
    } else {
        c as int
    }
}

/// A text matches a pattern, as `LIKE .. ESCAPE '\'` decides it for texts without a null
/// character: a `%` stands for any text, a `_` for any character, and what follows the escape
/// for itself.
pub open spec fn like(pattern: Seq<char>, text: Seq<char>) -> bool
    decreases pattern.len(),
{
    if pattern.len() == 0 {
        text.len() == 0
    } else if pattern[0] == '%' {
        exists|k: int| 0 <= k <= text.len() && like(pattern.skip(1), #[trigger] text.skip(k))
    } else if pattern[0] == '_' {
        text.len() > 0 && like(pattern.skip(1), text.skip(1))
    } else if pattern[0] == '\\' {
        &&& pattern.len() > 1 && text.len() > 0
        &&& compared(pattern[1]) == compared(text[0])
        &&& like(pattern.skip(2), text.skip(1))
    } else {
        &&& text.len() > 0 && compared(pattern[0]) == compared(text[0])
        &&& like(pattern.skip(1), text.skip(1))
    }
}

/// A text up to its first null character, at which a comparison with a pattern ends.
pub open spec fn until_null(text: Seq<char>) -> Seq<char>
    decreases text.len(),
{
    if text.len() == 0 || text[0] == '\0' {
        Seq::empty()
    } else {
        seq![text[0]] + until_null(text.skip(1))
    }
}

/// A text begins with another one, the case of ASCII letters aside.
pub open spec fn begins_with(text: Seq<char>, wanted: Seq<char>) -> bool {
    &&& wanted.len() <= text.len()
    &&& forall|i: int| 0 <= i < wanted.len() ==> compared(#[trigger] wanted[i]) == compared(text[i])
}

/// A text holds another one somewhere, the case of ASCII letters aside.
pub open spec fn holds_text(text: Seq<char>, wanted: Seq<char>) -> bool {
    exists|k: int| 0 <= k <= text.len() && begins_with(#[trigger] text.skip(k), wanted)
}

/// The row belongs to the account, where one is given.
pub open spec fn is_of_account(row: Row, account: Option<&str>) -> bool {
    account matches Some(a) ==> crate::relation::column(row, "account_id_sha"@) == Val::Text(a@)
}

/// `all` are the rows to keep, each as often as it is there, the latest first.
pub open spec fn latest_first(rows: Seq<Row>, keep: spec_fn(Row) -> bool, all: Seq<Row>) -> bool {
    &&& all.to_multiset() == rows.filter(keep).to_multiset()
    &&& crate::relation::descending(all, "create_time"@)
}

/// `found` are rows that a search through all messages may give: its text, with these
/// parameters, asks for the rows whose text matches the pattern, of the account where one is
/// given, the latest first, cut at the limit.
pub open spec fn scanned(
    rows: Seq<Row>,
    wanted: Seq<char>,
    limit: int,
    account: Option<&str>,
    found: Seq<Row>,
) -> bool {
    exists|all: Seq<Row>| #[trigger]
        latest_first(rows, is_scanned(wanted, account), all) && found
            == crate::relation::first_rows(all, limit)
}

/// The test of a search through all messages.
pub open spec fn is_scanned(wanted: Seq<char>, account: Option<&str>) -> spec_fn(Row) -> bool {
    |row: Row|
        {
            &&& crate::relation::column(row, "text_content"@) matches Val::Text(text) && like(
                until_null(wanted),
                until_null(text),
            )
            &&& is_of_account(row, account)
        }
}

/// The test for the messages that hold a text, of the account where one is given.
pub open spec fn is_searched(query: Seq<char>, account: Option<&str>) -> spec_fn(Row) -> bool {
    |row: Row|
        {
            &&& crate::relation::column(row, "text_content"@) matches Val::Text(text)
                && holds_text(until_null(text), query)
            &&& is_of_account(row, account)
        }
}

/// A text without a null character is compared as it is.
pub proof fn lemma_until_null(text: Seq<char>)
    requires
        !text.contains('\0'),
    ensures
        until_null(text) == text,
    decreases text.len(),
{
    if text.len() > 0 {
        let rest = text.skip(1);
        assert(text.contains(text[0]));
        assert(!rest.contains('\0')) by {
            if rest.contains('\0') {
                let i = choose|i: int| 0 <= i < rest.len() && rest[i] == '\0';
                assert(text[i + 1] == '\0');
            }
        }
        lemma_until_null(rest);
        assert(seq![text[0]] + rest =~= text);
    } else {
        assert(text =~= Seq::<char>::empty());
    }
}

proof fn lemma_begins(text: Seq<char>, wanted: Seq<char>)
    requires
        wanted.len() > 0,
    ensures
        begins_with(text, wanted) <==> text.len() > 0 && compared(wanted[0]) == compared(text[0])
            && begins_with(text.skip(1), wanted.skip(1)),
{
    let (rest, behind) = (text.skip(1), wanted.skip(1));
    if begins_with(text, wanted) {
        assert forall|i: int| 0 <= i < behind.len() implies compared(#[trigger] behind[i])
            == compared(rest[i]) by {
            assert(compared(wanted[i + 1]) == compared(text[i + 1]));
        }
    }
    if text.len() > 0 && compared(wanted[0]) == compared(text[0]) && begins_with(rest, behind) {
        assert forall|i: int| 0 <= i < wanted.len() implies compared(#[trigger] wanted[i])
            == compared(text[i]) by {
            if i > 0 {
                assert(compared(behind[i - 1]) == compared(rest[i - 1]));
            }
        }
    }
}

/// A piece without wildcards, with anything behind it, matches the texts that begin with what
/// it stands for.
proof fn lemma_piece(body: Seq<char>, text: Seq<char>)
    requires
        pattern_reads(body) is Some,
    ensures
        like(body + seq!['%'], text) <==> begins_with(text, pattern_reads(body)->0),
    decreases body.len(),
{
    let whole = body + seq!['%'];
    if body.len() == 0 {
        assert(whole =~= seq!['%']);
        assert(whole.skip(1) =~= Seq::<char>::empty());
        assert(like(whole.skip(1), text.skip(text.len() as int)));
    } else {
        let n: int = if body[0] == '\\' {
            2
        } else {
            1
        };
        let rest = body.skip(n);
        let wanted = pattern_reads(body)->0;
        assert(whole.skip(n) =~= rest + seq!['%']);
        assert(wanted.skip(1) =~= pattern_reads(rest)->0);
        if text.len() > 0 {
            lemma_piece(rest, text.skip(1));
        }
        lemma_begins(text, wanted);
        assert(whole[0] == body[0]);
        if n == 2 {
            assert(whole[1] == body[1]);
        }
    }
}

/// The pattern of a text matches exactly the texts that hold it.
pub proof fn law_pattern_matches_what_holds_the_text(query: Seq<char>, text: Seq<char>)
    ensures
        like(pattern(query), text) <==> holds_text(text, query),
{
    let body = rewritten(query, |c: char| in_pattern(c));
    law_pattern_stands_for_its_text(query);
    let whole = pattern(query);
    assert(whole[0] == '%');
    assert(whole.skip(1) =~= body + seq!['%']);
    assert forall|k: int| 0 <= k <= text.len() implies like(
        whole.skip(1),
        #[trigger] text.skip(k),
    ) == begins_with(text.skip(k), query) by {
        lemma_piece(body, text.skip(k));
    }
    if like(whole, text) {
        let k = choose|k: int|
            0 <= k <= text.len() && like(whole.skip(1), #[trigger] text.skip(k));
        assert(begins_with(text.skip(k), query));
    }
    if holds_text(text, query) {
        let k = choose|k: int|
            0 <= k <= text.len() && begins_with(#[trigger] text.skip(k), query);
        assert(like(whole.skip(1), text.skip(k)));
    }
}

proof fn lemma_pattern_has_no_null(query: Seq<char>)
    requires
        !query.contains('\0'),
    ensures
        !rewritten(query, |c: char| in_pattern(c)).contains('\0'),
    decreases query.len(),
{
    if query.len() > 0 {
        let with = |c: char| in_pattern(c);
        let head = query.drop_last();
        assert(!head.contains('\0')) by {
            if head.contains('\0') {
                let i = choose|i: int| 0 <= i < head.len() && head[i] == '\0';
                assert(query[i] == '\0');
            }
        }
        lemma_pattern_has_no_null(head);
        assert(query[query.len() - 1] != '\0');
        let all = rewritten(query, with);
        let before = rewritten(head, with);
        if all.contains('\0') {
            let i = choose|i: int| 0 <= i < all.len() && all[i] == '\0';
            if i < before.len() {
                assert(before[i] == '\0');
            } else {
                assert(in_pattern(query.last())[i - before.len()] == '\0');
            }
        }
    }
}

/// A search through all messages finds what it was asked for: the messages whose text holds the
/// query, the case of ASCII letters aside, of the account where one is given, the latest first,
/// cut at the limit. A null character ends a text, and must not be in the query.
pub proof fn law_scan_finds_what_holds_the_query(
    rows: Seq<Row>,
    query: Seq<char>,
    limit: int,
    account: Option<&str>,
    found: Seq<Row>,
)
    requires
        !query.contains('\0'),
        scanned(rows, pattern(query), limit, account, found),
    ensures
        exists|all: Seq<Row>| #[trigger]
            latest_first(rows, is_searched(query, account), all) && found
                == crate::relation::first_rows(all, limit),
{
    let wanted = pattern(query);
    let body = rewritten(query, |c: char| in_pattern(c));
    lemma_pattern_has_no_null(query);
    assert(!wanted.contains('\0')) by {
        if wanted.contains('\0') {
            let i = choose|i: int| 0 <= i < wanted.len() && wanted[i] == '\0';
            assert(body[i - 1] == '\0');
        }
    }
    lemma_until_null(wanted);
    let by_pattern = is_scanned(wanted, account);
    let by_text = is_searched(query, account);
    assert forall|r: Row| #[trigger] by_pattern(r) == by_text(r) by {
        if let Val::Text(text) = crate::relation::column(r, "text_content"@) {
            law_pattern_matches_what_holds_the_text(query, until_null(text));
        }
    }
    assert(by_pattern =~= by_text);
    let all = choose|all: Seq<Row>| #[trigger]
        latest_first(rows, by_pattern, all) && found == crate::relation::first_rows(all, limit);
    assert(latest_first(rows, by_text, all));
}

/// The columns that a search through all messages reads.
pub open spec fn scan_columns() -> Seq<Seq<char>> {
    seq!["create_time"@, "conv_id"@, "sender_wxid"@, "text_content"@]
}

/// A message that was written is searched by the text that was written, and read with the
/// fields that were written.
pub proof fn law_written_message_is_searched(
    message: V3Message,
    query: Seq<char>,
    account: Option<&str>,
)
    ensures
        is_searched(query, account)(message.row()) <==> {
            &&& holds_text(until_null(message.text_content@), query)
            &&& account matches Some(a) ==> a@ == message.account_id_sha@
        },
        crate::relation::projected(message.row(), scan_columns()) == seq![
            Val::Integer(message.create_time as int),
            Val::Text(message.conv_id@),
            Val::Text(message.sender_wxid@),
            Val::Text(message.text_content@),
        ],
{
    reveal_strlit("account_id_sha");
    reveal_strlit("source");
    reveal_strlit("source_native_id");
    reveal_strlit("conv_id_sha");
    reveal_strlit("server_id");
    reveal_strlit("server_seq");
    reveal_strlit("origin_source");
    reveal_strlit("upload_status");
    reveal_strlit("download_status");
    reveal_strlit("create_time");
    reveal_strlit("sort_seq");
    reveal_strlit("status");
    reveal_strlit("msg_type");
    reveal_strlit("msg_type_name");
    reveal_strlit("msg_sub_type");
    reveal_strlit("msg_sub_type_name");
    reveal_strlit("local_type_raw");
    reveal_strlit("sender_wxid_sha");
    reveal_strlit("is_chatroom");
    reveal_strlit("text_content_sha");
    reveal_strlit("text_content_len");
    reveal_strlit("raw_xml_present");
    reveal_strlit("decode_kind");
    reveal_strlit("sys_type");
    reveal_strlit("account_id");
    reveal_strlit("conv_id");
    reveal_strlit("sender_wxid");
    reveal_strlit("text_content");
    let row = message.row();
    assert(row[0].0.len() == 14 && row[1].0.len() == 6 && row[2].0.len() == 16 && row[3].0.len() == 11);
    assert(row[4].0.len() == 9 && row[5].0.len() == 10 && row[6].0.len() == 13 && row[7].0.len() == 13);
    assert(row[8].0.len() == 15 && row[9].0.len() == 11 && row[10].0.len() == 8 && row[11].0.len() == 6);
    assert(row[12].0.len() == 8 && row[13].0.len() == 13 && row[14].0.len() == 12 && row[15].0.len() == 17);
    assert(row[16].0.len() == 14 && row[17].0.len() == 15 && row[18].0.len() == 11 && row[19].0.len() == 16);
    assert(row[20].0.len() == 16 && row[21].0.len() == 15 && row[22].0.len() == 11 && row[23].0.len() == 8);
    assert(row[24].0.len() == 10 && row[25].0.len() == 7 && row[26].0.len() == 11 && row[27].0.len() == 12);
    assert(row[3].0[1] != row[9].0[1]);
    assert(row[3].0[0] != row[26].0[0]);
    assert(row[9].0[0] != row[26].0[0]);
    assert(row[18].0[0] != row[26].0[0]);
    assert(row[22].0[0] != row[26].0[0]);
    assert(row[14].0[0] != row[27].0[0]);
    crate::relation::lemma_column_at(row, 0);
    crate::relation::lemma_column_at(row, 9);
    crate::relation::lemma_column_at(row, 25);
    crate::relation::lemma_column_at(row, 26);
    crate::relation::lemma_column_at(row, 27);
    let read = crate::relation::projected(row, scan_columns());
    assert(read[0] == row[9].1 && read[1] == row[25].1 && read[2] == row[26].1 && read[3]
        == row[27].1);
    assert(read =~= seq![row[9].1, row[25].1, row[26].1, row[27].1]);
}

/// Further conditions of a search: a column equals a parameter, each.
pub open spec fn conditions(alias: Seq<char>, equal: Seq<(Seq<char>, int)>) -> Seq<char>
    decreases equal.len(),
{
    if equal.len() == 0 {
        Seq::empty()
    } else {
        conditions(alias, equal.drop_last()) + " AND "@ + alias + equal.last().0 + " = "@
            + crate::sql::placeholder(equal.last().1)
    }
}

/// A row meets the further conditions of a search.
pub open spec fn meets(row: Row, equal: Seq<(Seq<char>, int)>, params: Seq<Val>) -> bool {
    forall|k: int|
        0 <= k < equal.len() ==> crate::relation::column(row, (#[trigger] equal[k]).0)
            == params[equal[k].1 - 1]
}

/// The further condition of a search of an account.
spec fn of_account(account: Option<&str>) -> Seq<(Seq<char>, int)> {
    if account is Some {
        seq![("account_id_sha"@, 3int)]
    } else {
        Seq::empty()
    }
}

proof fn lemma_account_condition(alias: Seq<char>, column: Seq<char>, account: Option<&str>)
    requires
        column == alias + "account_id_sha"@,
    ensures
        account_test(column, account) == conditions(
            alias,
            of_account(account),
        ),
{
    let one = seq![("account_id_sha"@, 3int)];
    reveal_strlit(" = ?3");
    reveal_strlit(" = ");
    reveal_strlit("?");
    reveal_with_fuel(conditions, 2);
    reveal_with_fuel(crate::text::digits, 2);
    assert(one.drop_last() =~= Seq::<(Seq<char>, int)>::empty());
    assert(crate::sql::placeholder(3) =~= seq!['?', '3']);
    assert(" = ?3"@ =~= " = "@ + crate::sql::placeholder(3));
    if account is Some {
        assert(account_test(column, account) =~= conditions(alias, one));
    }
}

proof fn lemma_account_of_messages(statement: Statement, account: Option<&str>, first: Val, limit: int)
    requires
        statement.values() == search_values_of(first, limit, account),
    ensures
        forall|m: V3Message| #[trigger]
            meets(
                m.row(),
                of_account(account),
                statement.values(),
            ) <==> (account matches Some(a) ==> m.account_id_sha@ == a@),
{
    let equal: Seq<(Seq<char>, int)> = of_account(account);
    assert forall|m: V3Message| #[trigger] meets(m.row(), equal, statement.values()) <==> (
    account matches Some(a) ==> m.account_id_sha@ == a@) by {
        law_written_message_is_searched(m, Seq::empty(), None);
        crate::relation::lemma_column_at(m.row(), 0);
        if account is Some {
            assert(equal[0] == ("account_id_sha"@, 3int));
            assert(statement.values()[2] == Val::Text(account->0@));
            if meets(m.row(), equal, statement.values()) {
                assert(crate::relation::column(m.row(), equal[0].0) == statement.values()[2]);
            }
        }
    }
}

spec fn search_values_of(first: Val, limit: int, account: Option<&str>) -> Seq<Val> {
    match account {
        Some(a) => seq![first, Val::Integer(limit), Val::Text(a@)],
        None => seq![first, Val::Integer(limit)],
    }
}

/// A search by the index asks for the messages that the index finds for the query as a phrase and,
/// where an account is given, that are of this account: the best ones first, up to the limit.
/// `equal` are the conditions that its text makes besides the phrase.
pub proof fn law_index_search_is_of_the_account(
    query: &str,
    limit: i64,
    account: Option<&str>,
    statement: Statement,
)
    requires
        query@.len() >= 3,
        call_ensures(search_messages, (query, limit, account, true), statement),
    ensures
        exists|equal: Seq<(Seq<char>, int)>|
            {
                &&& statement.sql@
                    == "SELECT m.create_time, m.conv_id, m.sender_wxid, m.text_content FROM message_fts f JOIN message m ON m.rowid = f.rowid WHERE message_fts MATCH ?1"@
                    + #[trigger] conditions("m."@, equal)
                    + " ORDER BY bm25(message_fts) LIMIT ?2"@
                &&& forall|m: V3Message| #[trigger]
                    meets(m.row(), equal, statement.values()) <==> (account matches Some(a)
                        ==> m.account_id_sha@ == a@)
            },
        exists|inside: Seq<char>|
            {
                &&& statement.values()[0] == Val::Text(seq!['"'] + inside + seq!['"'])
                &&& #[trigger] phrase_reads(inside) == Some(query@)
            },
        statement.values()[1] == Val::Integer(limit as int),
{
    let equal: Seq<(Seq<char>, int)> = of_account(account);
    reveal_strlit("m.account_id_sha");
    reveal_strlit("m.");
    reveal_strlit("account_id_sha");
    assert("m.account_id_sha"@ =~= "m."@ + "account_id_sha"@);
    lemma_account_condition("m."@, "m.account_id_sha"@, account);
    law_phrase_stands_for_its_text(query@);
    let inside = rewritten(query@, |c: char| in_phrase(c));
    assert(phrase_reads(inside) == Some(query@));
    assert(statement.values() =~= search_values_of(
        Val::Text(phrase(query@)),
        limit as int,
        account,
    ));
    lemma_account_of_messages(statement, account, Val::Text(phrase(query@)), limit as int);
    assert(statement.sql@
        == "SELECT m.create_time, m.conv_id, m.sender_wxid, m.text_content FROM message_fts f JOIN message m ON m.rowid = f.rowid WHERE message_fts MATCH ?1"@
        + conditions("m."@, equal) + " ORDER BY bm25(message_fts) LIMIT ?2"@);
}

/// A search without the index, or for fewer than three characters, asks for the messages whose
/// text holds the query, the case of ASCII letters aside, and, where an account is given, that are
/// of this account: the latest first, up to the limit.
pub proof fn law_scan_is_of_the_query_and_the_account(
    query: &str,
    limit: i64,
    account: Option<&str>,
    index_exists: bool,
    statement: Statement,
)
    requires
        query@.len() < 3 || !index_exists,
        call_ensures(search_messages, (query, limit, account, index_exists), statement),
    ensures
        exists|equal: Seq<(Seq<char>, int)>|
            {
                &&& statement.sql@
                    == "SELECT create_time, conv_id, sender_wxid, text_content FROM message WHERE text_content LIKE ?1 ESCAPE '\\'"@
                    + #[trigger] conditions(Seq::empty(), equal)
                    + " ORDER BY create_time DESC LIMIT ?2"@
                &&& forall|m: V3Message| #[trigger]
                    meets(m.row(), equal, statement.values()) <==> (account matches Some(a)
                        ==> m.account_id_sha@ == a@)
            },
        statement.values()[0] matches Val::Text(wanted) && forall|text: Seq<char>| #[trigger]
            like(wanted, text) <==> holds_text(text, query@),
        statement.values()[1] == Val::Integer(limit as int),
{
    let equal: Seq<(Seq<char>, int)> = of_account(account);
    assert(Seq::<char>::empty() + "account_id_sha"@ =~= "account_id_sha"@);
    lemma_account_condition(Seq::empty(), "account_id_sha"@, account);
    assert(statement.values() =~= search_values_of(
        Val::Text(pattern(query@)),
        limit as int,
        account,
    ));
    lemma_account_of_messages(statement, account, Val::Text(pattern(query@)), limit as int);
    assert(statement.values()[0] == Val::Text(pattern(query@)));
    assert forall|text: Seq<char>| #[trigger] like(pattern(query@), text) <==> holds_text(
        text,
        query@,
    ) by {
        law_pattern_matches_what_holds_the_text(query@, text);
    }
    assert(statement.sql@
        == "SELECT create_time, conv_id, sender_wxid, text_content FROM message WHERE text_content LIKE ?1 ESCAPE '\\'"@
        + conditions(Seq::empty(), equal) + " ORDER BY create_time DESC LIMIT ?2"@);
}

/// A message that was found is read with the fields that were written.
pub proof fn law_found_message_is_the_written_one(
    m: V3Message,
    values: &Vec<SqlValue>,
    hit: Option<MessageSearchHit>,
)
    requires
        crate::relation::projected(m.row(), seq!["create_time"@, "conv_id"@, "sender_wxid"@, "text_content"@])
            == values@.map_values(|v: SqlValue| v@),
        call_ensures(hit_from_row, (values,), hit),
    ensures
        hit matches Some(h) && {
            &&& h.create_time == m.create_time
            &&& h.conv_id@ == m.conv_id@
            &&& h.sender_wxid@ == m.sender_wxid@
            &&& h.text_content@ == m.text_content@
        },
{
    law_written_message_is_searched(m, Seq::empty(), None);
    let views = values@.map_values(|v: SqlValue| v@);
    assert(scan_columns() =~= seq!["create_time"@, "conv_id"@, "sender_wxid"@, "text_content"@]);
    assert(is_hit(views));
    let again = hit_values(hit->0);
    assert(again[0] == views[0] && again[1] == views[1] && again[2] == views[2] && again[3]
        == views[3]);
}

/// The thin index is asked for every text of three characters and more, as it was given, and for
/// no shorter one, up to the limit.
pub proof fn law_thin_search_asks_for_the_query(
    query: &str,
    limit: usize,
    statement: Option<Statement>,
)
    requires
        limit <= i64::MAX,
        call_ensures(search_thin, (query, limit), statement),
    ensures
        statement is Some <==> query@.len() >= 3,
        statement matches Some(s) ==> {
            &&& s.values().len() == 2
            &&& s.values()[0] == Val::Text(query@)
            &&& s.values()[1] == Val::Integer(limit as int)
            &&& s.sql@
                == "SELECT msg_id, source, snippet(thin_fts, 2, '[', ']', '…', 12) FROM thin_fts WHERE thin_fts MATCH ?1 ORDER BY rank LIMIT ?2"@
        },
{
}

/// A message goes into the thin index under its own row id, in place of what was there, with its
/// shard, its name and its text in the columns of these names.
pub proof fn law_thin_message_replaces_its_row(
    rowid: i64,
    source: &str,
    msg_id: &str,
    text: &str,
    statements: Vec<Statement>,
)
    requires
        call_ensures(insert_thin_msg, (rowid, source, msg_id, text), statements),
    ensures
        statements@.len() == 2,
        statements@[0].sql@ == "DELETE FROM thin_fts WHERE rowid = ?1"@,
        statements@[0].values() == seq![Val::Integer(rowid as int)],
        exists|row: Row|
            {
                &&& statements@[1].sql@ == "INSERT INTO thin_fts("@ + crate::sql::joined(
                    #[trigger] crate::sql::names(row),
                    ", "@,
                ) + ") VALUES (?1, ?2, ?3, ?4)"@
                &&& statements@[1].values() == crate::sql::values(row)
                &&& row.contains(("rowid"@, Val::Integer(rowid as int)))
                &&& row.contains(("source"@, Val::Text(source@)))
                &&& row.contains(("msg_id"@, Val::Text(msg_id@)))
                &&& row.contains(("text"@, Val::Text(text@)))
            },
{
    let row: Row = seq![
        ("rowid"@, Val::Integer(rowid as int)),
        ("msg_id"@, Val::Text(msg_id@)),
        ("source"@, Val::Text(source@)),
        ("text"@, Val::Text(text@)),
    ];
    reveal_strlit("INSERT INTO thin_fts(rowid, msg_id, source, text) VALUES (?1, ?2, ?3, ?4)");
    reveal_strlit("INSERT INTO thin_fts(");
    reveal_strlit("rowid");
    reveal_strlit("msg_id");
    reveal_strlit("source");
    reveal_strlit("text");
    reveal_strlit(", ");
    reveal_strlit(") VALUES (?1, ?2, ?3, ?4)");
    let names = crate::sql::names(row);
    assert(names =~= seq!["rowid"@, "msg_id"@, "source"@, "text"@]);
    reveal_with_fuel(crate::sql::joined, 5);
    assert(names.drop_last() =~= seq!["rowid"@, "msg_id"@, "source"@]);
    assert(names.drop_last().drop_last() =~= seq!["rowid"@, "msg_id"@]);
    assert(names.drop_last().drop_last().drop_last() =~= seq!["rowid"@]);
    assert(statements@[1].sql@ =~= "INSERT INTO thin_fts("@ + crate::sql::joined(names, ", "@)
        + ") VALUES (?1, ?2, ?3, ?4)"@);
    assert(statements@[1].values() =~= crate::sql::values(row));
    assert(row[0] == ("rowid"@, Val::Integer(rowid as int)));
    assert(row[1] == ("msg_id"@, Val::Text(msg_id@)));
    assert(row[2] == ("source"@, Val::Text(source@)));
    assert(row[3] == ("text"@, Val::Text(text@)));
}

/// The triggers are there if all three are, and the index if there is one.
pub proof fn law_counts_say_what_is_there(
    count: Option<i64>,
    triggers: bool,
    index: bool,
    source: bool,
)
    requires
        call_ensures(message_fts_triggers_exist, (count,), triggers),
        call_ensures(message_fts_exists, (count,), index),
        call_ensures(thin_fts_has_source, (count,), source),
    ensures
        triggers <==> count == Some(3i64),
        index <==> count is Some && count->0 >= 1,
        source <==> count is Some && count->0 >= 1,
{
}

/// The index is used exactly for texts that it can find: of three characters and more.
pub proof fn law_index_is_used_from_three_characters_on(query: &str, can: bool)
    requires
        call_ensures(search_can_use_index, (query,), can),
    ensures
        can <==> query@.len() > 2,
{
}

/// The index is filled from what is there before the triggers are made, and the triggers are the
/// ones that are made by themselves; the index that is filled is the one that is made.
pub proof fn law_index_is_filled_before_its_triggers_are_made(
    index: Statement,
    filled: Vec<Statement>,
    triggers: Vec<Statement>,
    both: Vec<Statement>,
)
    requires
        call_ensures(init_message_fts, (), index),
        call_ensures(rebuild_message_fts, (), filled),
        call_ensures(init_message_fts_triggers, (), triggers),
        call_ensures(build_message_fts_incremental, (), both),
    ensures
        filled@.len() == 2 && triggers@.len() == 2 && both@.len() == 4,
        filled@[0].sql@ == index.sql@ && triggers@[0].sql@ == index.sql@,
        filled@[1].sql@ == "INSERT INTO message_fts(message_fts) VALUES('rebuild');"@,
        forall|i: int| 0 <= i < 2 ==> (#[trigger] both@[i]).sql@ == filled@[i].sql@,
        forall|i: int| 0 <= i < 2 ==> (#[trigger] both@[i + 2]).sql@ == triggers@[i].sql@,
        forall|i: int| 0 <= i < 4 ==> (#[trigger] both@[i]).params@.len() == 0,
{
    assert(both@[0].sql@ == index.sql@ && both@[2].sql@ == index.sql@);
}

/// The triggers that are taken away, and those that are counted, are the three that keep the index
/// in step.
pub proof fn law_all_triggers_are_dropped_and_counted(dropped: Statement, counted: Statement)
    requires
        call_ensures(drop_message_fts_triggers, (), dropped),
        call_ensures(message_fts_trigger_count, (), counted),
    ensures
        ({
            let (i, d, u) = ("message_fts_ai"@, "message_fts_ad"@, "message_fts_au"@);
            let drop = "DROP TRIGGER IF EXISTS "@;
            &&& dropped.sql@ == drop + i + "; "@ + drop + d + "; "@ + drop + u + ";"@
            &&& counted.sql@
                == "SELECT count(*) FROM sqlite_master WHERE type='trigger' AND name IN ('"@ + i
                + "', '"@ + d + "', '"@ + u + "')"@
        }),
{
    reveal_strlit("message_fts_ai");
    reveal_strlit("message_fts_ad");
    reveal_strlit("message_fts_au");
    reveal_strlit("DROP TRIGGER IF EXISTS ");
    reveal_strlit("; ");
    reveal_strlit(";");
    reveal_strlit("', '");
    reveal_strlit("')");
    reveal_strlit("SELECT count(*) FROM sqlite_master WHERE type='trigger' AND name IN ('");
    reveal_strlit(
        "DROP TRIGGER IF EXISTS message_fts_ai; DROP TRIGGER IF EXISTS message_fts_ad; DROP TRIGGER IF EXISTS message_fts_au;",
    );
    reveal_strlit(
        "SELECT count(*) FROM sqlite_master WHERE type='trigger' AND name IN ('message_fts_ai', 'message_fts_ad', 'message_fts_au')",
    );
    let (i, d, u) = ("message_fts_ai"@, "message_fts_ad"@, "message_fts_au"@);
    let drop = "DROP TRIGGER IF EXISTS "@;
    assert(dropped.sql@ =~= drop + i + "; "@ + drop + d + "; "@ + drop + u + ";"@);
    assert(counted.sql@
        =~= "SELECT count(*) FROM sqlite_master WHERE type='trigger' AND name IN ('"@ + i + "', '"@
        + d + "', '"@ + u + "')"@);
}

proof fn lemma_trigger_of_put_in()
    ensures
        trigger_text("message_fts_ai"@, "INSERT"@, acts_after_insert())
            == "CREATE TRIGGER IF NOT EXISTS message_fts_ai AFTER INSERT ON message BEGIN INSERT INTO message_fts(rowid, text_content) VALUES (new.rowid, new.text_content); END;"@,
{
    reveal_strlit("CREATE TRIGGER IF NOT EXISTS ");
    reveal_strlit("message_fts_ai");
    reveal_strlit(" AFTER ");
    reveal_strlit("INSERT");
    reveal_strlit(" ON message BEGIN ");
    reveal_strlit(" ");
    reveal_strlit(" END;");
    reveal_strlit(
        "INSERT INTO message_fts(rowid, text_content) VALUES (new.rowid, new.text_content);",
    );
    reveal_strlit(
        "CREATE TRIGGER IF NOT EXISTS message_fts_ai AFTER INSERT ON message BEGIN INSERT INTO message_fts(rowid, text_content) VALUES (new.rowid, new.text_content); END;",
    );
    let texts = acts_after_insert().map_values(|act: TriggerAct| act.text());
    reveal_with_fuel(crate::sql::joined, 3);
    assert(crate::sql::joined(texts, " "@) == "INSERT INTO message_fts(rowid, text_content) VALUES (new.rowid, new.text_content);"@);
    assert(trigger_text("message_fts_ai"@, "INSERT"@, acts_after_insert())
        =~= "CREATE TRIGGER IF NOT EXISTS message_fts_ai AFTER INSERT ON message BEGIN INSERT INTO message_fts(rowid, text_content) VALUES (new.rowid, new.text_content); END;"@);
}

proof fn lemma_trigger_of_taken_out()
    ensures
        trigger_text("message_fts_ad"@, "DELETE"@, acts_after_delete())
            == "CREATE TRIGGER IF NOT EXISTS message_fts_ad AFTER DELETE ON message BEGIN INSERT INTO message_fts(message_fts, rowid, text_content) VALUES('delete', old.rowid, old.text_content); END;"@,
{
    reveal_strlit("CREATE TRIGGER IF NOT EXISTS ");
    reveal_strlit("message_fts_ad");
    reveal_strlit(" AFTER ");
    reveal_strlit("DELETE");
    reveal_strlit(" ON message BEGIN ");
    reveal_strlit(" ");
    reveal_strlit(" END;");
    reveal_strlit(
        "INSERT INTO message_fts(message_fts, rowid, text_content) VALUES('delete', old.rowid, old.text_content);",
    );
    reveal_strlit(
        "CREATE TRIGGER IF NOT EXISTS message_fts_ad AFTER DELETE ON message BEGIN INSERT INTO message_fts(message_fts, rowid, text_content) VALUES('delete', old.rowid, old.text_content); END;",
    );
    let texts = acts_after_delete().map_values(|act: TriggerAct| act.text());
    reveal_with_fuel(crate::sql::joined, 3);
    assert(crate::sql::joined(texts, " "@) == "INSERT INTO message_fts(message_fts, rowid, text_content) VALUES('delete', old.rowid, old.text_content);"@);
    assert(trigger_text("message_fts_ad"@, "DELETE"@, acts_after_delete())
        =~= "CREATE TRIGGER IF NOT EXISTS message_fts_ad AFTER DELETE ON message BEGIN INSERT INTO message_fts(message_fts, rowid, text_content) VALUES('delete', old.rowid, old.text_content); END;"@);
}

proof fn lemma_trigger_of_changed()
    ensures
        trigger_text("message_fts_au"@, "UPDATE"@, acts_after_update())
            == "CREATE TRIGGER IF NOT EXISTS message_fts_au AFTER UPDATE ON message BEGIN INSERT INTO message_fts(message_fts, rowid, text_content) VALUES('delete', old.rowid, old.text_content); INSERT INTO message_fts(rowid, text_content) VALUES (new.rowid, new.text_content); END;"@,
{
    reveal_strlit("CREATE TRIGGER IF NOT EXISTS ");
    reveal_strlit("message_fts_au");
    reveal_strlit(" AFTER ");
    reveal_strlit("UPDATE");
    reveal_strlit(" ON message BEGIN ");
    reveal_strlit(" ");
    reveal_strlit(" END;");
    reveal_strlit(
        "INSERT INTO message_fts(message_fts, rowid, text_content) VALUES('delete', old.rowid, old.text_content);",
    );
    reveal_strlit(
        "INSERT INTO message_fts(rowid, text_content) VALUES (new.rowid, new.text_content);",
    );
    reveal_strlit(
        "CREATE TRIGGER IF NOT EXISTS message_fts_au AFTER UPDATE ON message BEGIN INSERT INTO message_fts(message_fts, rowid, text_content) VALUES('delete', old.rowid, old.text_content); INSERT INTO message_fts(rowid, text_content) VALUES (new.rowid, new.text_content); END;",
    );
    let texts = acts_after_update().map_values(|act: TriggerAct| act.text());
    reveal_with_fuel(crate::sql::joined, 3);
    assert(texts.drop_last() =~= seq![TriggerAct::TakeOut.text()]);
    assert(crate::sql::joined(texts, " "@) == "INSERT INTO message_fts(message_fts, rowid, text_content) VALUES('delete', old.rowid, old.text_content);"@ + " "@ + "INSERT INTO message_fts(rowid, text_content) VALUES (new.rowid, new.text_content);"@);
    assert(trigger_text("message_fts_au"@, "UPDATE"@, acts_after_update())
        =~= "CREATE TRIGGER IF NOT EXISTS message_fts_au AFTER UPDATE ON message BEGIN INSERT INTO message_fts(message_fts, rowid, text_content) VALUES('delete', old.rowid, old.text_content); INSERT INTO message_fts(rowid, text_content) VALUES (new.rowid, new.text_content); END;"@);
}

/// A message that was put in, taken out or changed is put into the index, taken out of it, or both:
/// there is a trigger for each, and they are made one after the other.
pub proof fn law_there_is_a_trigger_for_every_write(statements: Vec<Statement>)
    requires
        call_ensures(init_message_fts_triggers, (), statements),
    ensures
        statements@.len() == 2,
        statements@[1].params@.len() == 0,
        statements@[1].sql@
            == "CREATE TRIGGER IF NOT EXISTS message_fts_ai AFTER INSERT ON message BEGIN INSERT INTO message_fts(rowid, text_content) VALUES (new.rowid, new.text_content); END;"@
            + " "@
            + "CREATE TRIGGER IF NOT EXISTS message_fts_ad AFTER DELETE ON message BEGIN INSERT INTO message_fts(message_fts, rowid, text_content) VALUES('delete', old.rowid, old.text_content); END;"@
            + " "@
            + "CREATE TRIGGER IF NOT EXISTS message_fts_au AFTER UPDATE ON message BEGIN INSERT INTO message_fts(message_fts, rowid, text_content) VALUES('delete', old.rowid, old.text_content); INSERT INTO message_fts(rowid, text_content) VALUES (new.rowid, new.text_content); END;"@,
{
    lemma_trigger_of_put_in();
    lemma_trigger_of_taken_out();
    lemma_trigger_of_changed();
}

} // verus!
