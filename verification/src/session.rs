//! The list of conversations.

use vstd::prelude::*;

use crate::index::Index;
use crate::plan::Step;
use crate::redact::{copy_text, DebugRow, Shown};
use crate::schema::{add_missing, Column, Decl};
use crate::sql::{Effect, Row, RowBuilder, Statement, Val};
use crate::tables::Table;

verus! {

/// An entry of the list of conversations.
#[derive(Clone, PartialEq, Eq)]
pub struct V3Session {
    pub account_id_sha: String,
    pub source: String,
    pub source_native_id: String,
    pub username_sha: String,
    pub account_id: String,
    pub username: String,
    pub unread_count: i64,
    pub last_msg_type: i64,
    pub last_msg_sub_type: i64,
    pub sort_timestamp: i64,
    pub summary_len: i64,
    pub summary: Option<String>,
    pub last_sender_len: i64,
    pub last_sender_display_name: Option<String>,
    pub session_type: i64,
    pub is_hidden: i64,
    pub status: i64,
    pub draft_len: i64,
    pub draft: Option<String>,
    pub last_msg_sender: Option<String>,
    pub last_timestamp: i64,
    pub last_clear_unread_timestamp: i64,
    pub last_msg_locald_id: i64,
    pub last_msg_ext_type: i64,
    pub unread_first_msg_srv_id: i64,
}

impl V3Session {
    /// The row that it is stored as.
    pub open spec fn row(self) -> Row {
        seq![
            ("account_id_sha"@, Val::Text(self.account_id_sha@)),
            ("source"@, Val::Text(self.source@)),
            ("source_native_id"@, Val::Text(self.source_native_id@)),
            ("username_sha"@, Val::Text(self.username_sha@)),
            ("account_id"@, Val::Text(self.account_id@)),
            ("username"@, Val::Text(self.username@)),
            ("unread_count"@, Val::Integer(self.unread_count as int)),
            ("last_msg_type"@, Val::Integer(self.last_msg_type as int)),
            ("last_msg_sub_type"@, Val::Integer(self.last_msg_sub_type as int)),
            ("sort_timestamp"@, Val::Integer(self.sort_timestamp as int)),
            ("summary_len"@, Val::Integer(self.summary_len as int)),
            ("summary"@, crate::sql::nullable_text(self.summary)),
            ("last_sender_len"@, Val::Integer(self.last_sender_len as int)),
            ("last_sender_display_name"@, crate::sql::nullable_text(self.last_sender_display_name)),
            ("session_type"@, Val::Integer(self.session_type as int)),
            ("is_hidden"@, Val::Integer(self.is_hidden as int)),
            ("status"@, Val::Integer(self.status as int)),
            ("draft_len"@, Val::Integer(self.draft_len as int)),
            ("draft"@, crate::sql::nullable_text(self.draft)),
            ("last_msg_sender"@, crate::sql::nullable_text(self.last_msg_sender)),
            ("last_timestamp"@, Val::Integer(self.last_timestamp as int)),
            ("last_clear_unread_timestamp"@, Val::Integer(self.last_clear_unread_timestamp as int)),
            ("last_msg_locald_id"@, Val::Integer(self.last_msg_locald_id as int)),
            ("last_msg_ext_type"@, Val::Integer(self.last_msg_ext_type as int)),
            ("unread_first_msg_srv_id"@, Val::Integer(self.unread_first_msg_srv_id as int)),
        ]
    }

    /// How its fields are shown in a log.
    pub open spec fn shown(self) -> Seq<(&'static str, Shown)> {
        seq![
            ("account_id_sha", Shown::Text(self.account_id_sha)),
            ("source", Shown::Text(self.source)),
            ("source_native_id", Shown::Text(self.source_native_id)),
            ("username_sha", Shown::Text(self.username_sha)),
            ("account_id_sha8", Shown::Digest(self.account_id)),
            ("username_sha8", Shown::Digest(self.username)),
            ("unread_count", Shown::Integer(self.unread_count)),
            ("last_msg_type", Shown::Integer(self.last_msg_type)),
            ("last_msg_sub_type", Shown::Integer(self.last_msg_sub_type)),
            ("sort_timestamp", Shown::Integer(self.sort_timestamp)),
            ("summary_len", Shown::Integer(self.summary_len)),
            ("summary_sha8", Shown::NullableDigest(self.summary)),
            ("last_sender_len", Shown::Integer(self.last_sender_len)),
            ("last_sender_sha8", Shown::NullableDigest(self.last_sender_display_name)),
            ("session_type", Shown::Integer(self.session_type)),
            ("is_hidden", Shown::Integer(self.is_hidden)),
            ("status", Shown::Integer(self.status)),
            ("draft_len", Shown::Integer(self.draft_len)),
            ("draft_sha8", Shown::NullableDigest(self.draft)),
            ("last_msg_sender_sha8", Shown::NullableDigest(self.last_msg_sender)),
            ("last_timestamp", Shown::Integer(self.last_timestamp)),
            ("last_clear_unread_timestamp", Shown::Integer(self.last_clear_unread_timestamp)),
            ("last_msg_locald_id", Shown::Integer(self.last_msg_locald_id)),
            ("last_msg_ext_type", Shown::Integer(self.last_msg_ext_type)),
            ("unread_first_msg_srv_id", Shown::Integer(self.unread_first_msg_srv_id)),
        ]
    }

    /// What it shows of itself in a log.
    pub fn debug_row(&self) -> (row: DebugRow)
        ensures
            row.name@ == "V3Session"@,
            row.fields@ == self.shown(),
            row.complete == false,
    {
        let mut fields: Vec<(&'static str, Shown)> = Vec::new();
        fields.push(("account_id_sha", Shown::Text(self.account_id_sha.clone())));
        fields.push(("source", Shown::Text(self.source.clone())));
        fields.push(("source_native_id", Shown::Text(self.source_native_id.clone())));
        fields.push(("username_sha", Shown::Text(self.username_sha.clone())));
        fields.push(("account_id_sha8", Shown::Digest(self.account_id.clone())));
        fields.push(("username_sha8", Shown::Digest(self.username.clone())));
        fields.push(("unread_count", Shown::Integer(self.unread_count)));
        fields.push(("last_msg_type", Shown::Integer(self.last_msg_type)));
        fields.push(("last_msg_sub_type", Shown::Integer(self.last_msg_sub_type)));
        fields.push(("sort_timestamp", Shown::Integer(self.sort_timestamp)));
        fields.push(("summary_len", Shown::Integer(self.summary_len)));
        fields.push(("summary_sha8", Shown::NullableDigest(copy_text(&self.summary))));
        fields.push(("last_sender_len", Shown::Integer(self.last_sender_len)));
        fields.push(("last_sender_sha8", Shown::NullableDigest(copy_text(&self.last_sender_display_name))));
        fields.push(("session_type", Shown::Integer(self.session_type)));
        fields.push(("is_hidden", Shown::Integer(self.is_hidden)));
        fields.push(("status", Shown::Integer(self.status)));
        fields.push(("draft_len", Shown::Integer(self.draft_len)));
        fields.push(("draft_sha8", Shown::NullableDigest(copy_text(&self.draft))));
        fields.push(("last_msg_sender_sha8", Shown::NullableDigest(copy_text(&self.last_msg_sender))));
        fields.push(("last_timestamp", Shown::Integer(self.last_timestamp)));
        fields.push(("last_clear_unread_timestamp", Shown::Integer(self.last_clear_unread_timestamp)));
        fields.push(("last_msg_locald_id", Shown::Integer(self.last_msg_locald_id)));
        fields.push(("last_msg_ext_type", Shown::Integer(self.last_msg_ext_type)));
        fields.push(("unread_first_msg_srv_id", Shown::Integer(self.unread_first_msg_srv_id)));
        assert(fields@ =~= self.shown());
        DebugRow { name: "V3Session", fields, complete: false }
    }
}

/// The columns of the table `session`.
pub open spec fn session_columns() -> Seq<Column> {
    seq![
        Column { name: "account_id_sha", decl: Decl::TextNotNull },
        Column { name: "source", decl: Decl::TextNotNull },
        Column { name: "source_native_id", decl: Decl::TextNotNull },
        Column { name: "username_sha", decl: Decl::TextNotNull },
        Column { name: "account_id", decl: Decl::TextNotNull },
        Column { name: "username", decl: Decl::TextNotNull },
        Column { name: "unread_count", decl: Decl::IntegerNotNull },
        Column { name: "last_msg_type", decl: Decl::IntegerNotNull },
        Column { name: "last_msg_sub_type", decl: Decl::IntegerNotNull },
        Column { name: "sort_timestamp", decl: Decl::IntegerNotNull },
        Column { name: "summary_len", decl: Decl::IntegerNotNull },
        Column { name: "summary", decl: Decl::Text },
        Column { name: "last_sender_len", decl: Decl::IntegerNotNull },
        Column { name: "last_sender_display_name", decl: Decl::Text },
        Column { name: "session_type", decl: Decl::IntegerDefault(0) },
        Column { name: "is_hidden", decl: Decl::IntegerDefault(0) },
        Column { name: "status", decl: Decl::IntegerDefault(0) },
        Column { name: "draft_len", decl: Decl::IntegerDefault(0) },
        Column { name: "draft", decl: Decl::Text },
        Column { name: "last_msg_sender", decl: Decl::Text },
        Column { name: "last_timestamp", decl: Decl::IntegerDefault(0) },
        Column { name: "last_clear_unread_timestamp", decl: Decl::IntegerDefault(0) },
        Column { name: "last_msg_locald_id", decl: Decl::IntegerDefault(0) },
        Column { name: "last_msg_ext_type", decl: Decl::IntegerDefault(0) },
        Column { name: "unread_first_msg_srv_id", decl: Decl::IntegerDefault(0) },
    ]
}

/// The columns of the table `session`.
pub fn session_table() -> (columns: Vec<Column>)
    ensures
        columns@ == session_columns(),
{
    let mut columns: Vec<Column> = Vec::new();
    columns.push(Column { name: "account_id_sha", decl: Decl::TextNotNull });
    columns.push(Column { name: "source", decl: Decl::TextNotNull });
    columns.push(Column { name: "source_native_id", decl: Decl::TextNotNull });
    columns.push(Column { name: "username_sha", decl: Decl::TextNotNull });
    columns.push(Column { name: "account_id", decl: Decl::TextNotNull });
    columns.push(Column { name: "username", decl: Decl::TextNotNull });
    columns.push(Column { name: "unread_count", decl: Decl::IntegerNotNull });
    columns.push(Column { name: "last_msg_type", decl: Decl::IntegerNotNull });
    columns.push(Column { name: "last_msg_sub_type", decl: Decl::IntegerNotNull });
    columns.push(Column { name: "sort_timestamp", decl: Decl::IntegerNotNull });
    columns.push(Column { name: "summary_len", decl: Decl::IntegerNotNull });
    columns.push(Column { name: "summary", decl: Decl::Text });
    columns.push(Column { name: "last_sender_len", decl: Decl::IntegerNotNull });
    columns.push(Column { name: "last_sender_display_name", decl: Decl::Text });
    columns.push(Column { name: "session_type", decl: Decl::IntegerDefault(0) });
    columns.push(Column { name: "is_hidden", decl: Decl::IntegerDefault(0) });
    columns.push(Column { name: "status", decl: Decl::IntegerDefault(0) });
    columns.push(Column { name: "draft_len", decl: Decl::IntegerDefault(0) });
    columns.push(Column { name: "draft", decl: Decl::Text });
    columns.push(Column { name: "last_msg_sender", decl: Decl::Text });
    columns.push(Column { name: "last_timestamp", decl: Decl::IntegerDefault(0) });
    columns.push(Column { name: "last_clear_unread_timestamp", decl: Decl::IntegerDefault(0) });
    columns.push(Column { name: "last_msg_locald_id", decl: Decl::IntegerDefault(0) });
    columns.push(Column { name: "last_msg_ext_type", decl: Decl::IntegerDefault(0) });
    columns.push(Column { name: "unread_first_msg_srv_id", decl: Decl::IntegerDefault(0) });
    assert(columns@ =~= session_columns());
    columns
}

/// The columns that came to the table `session` later.
pub open spec fn session_later_columns() -> Seq<Column> {
    seq![
        Column { name: "account_id", decl: Decl::TextDefault("") },
        Column { name: "username", decl: Decl::TextDefault("") },
        Column { name: "summary_len", decl: Decl::IntegerDefault(0) },
        Column { name: "last_sender_len", decl: Decl::IntegerDefault(0) },
        Column { name: "session_type", decl: Decl::IntegerDefault(0) },
        Column { name: "is_hidden", decl: Decl::IntegerDefault(0) },
        Column { name: "status", decl: Decl::IntegerDefault(0) },
        Column { name: "draft_len", decl: Decl::IntegerDefault(0) },
        Column { name: "last_timestamp", decl: Decl::IntegerDefault(0) },
        Column { name: "last_clear_unread_timestamp", decl: Decl::IntegerDefault(0) },
        Column { name: "last_msg_locald_id", decl: Decl::IntegerDefault(0) },
        Column { name: "last_msg_ext_type", decl: Decl::IntegerDefault(0) },
        Column { name: "unread_first_msg_srv_id", decl: Decl::IntegerDefault(0) },
        Column { name: "summary", decl: Decl::Text },
        Column { name: "last_sender_display_name", decl: Decl::Text },
        Column { name: "draft", decl: Decl::Text },
        Column { name: "last_msg_sender", decl: Decl::Text },
    ]
}

/// The statements that add to the table `session` the later columns that it lacks.
pub fn ensure_session_columns(existing: &Vec<String>) -> (statements: Vec<Statement>)
    ensures
        crate::schema::adds(
            statements@,
            "session"@,
            crate::schema::missing(session_later_columns(), crate::sql::strings(existing@)),
        ),
{
    let mut later: Vec<Column> = Vec::new();
    later.push(Column { name: "account_id", decl: Decl::TextDefault("") });
    later.push(Column { name: "username", decl: Decl::TextDefault("") });
    later.push(Column { name: "summary_len", decl: Decl::IntegerDefault(0) });
    later.push(Column { name: "last_sender_len", decl: Decl::IntegerDefault(0) });
    later.push(Column { name: "session_type", decl: Decl::IntegerDefault(0) });
    later.push(Column { name: "is_hidden", decl: Decl::IntegerDefault(0) });
    later.push(Column { name: "status", decl: Decl::IntegerDefault(0) });
    later.push(Column { name: "draft_len", decl: Decl::IntegerDefault(0) });
    later.push(Column { name: "last_timestamp", decl: Decl::IntegerDefault(0) });
    later.push(Column { name: "last_clear_unread_timestamp", decl: Decl::IntegerDefault(0) });
    later.push(Column { name: "last_msg_locald_id", decl: Decl::IntegerDefault(0) });
    later.push(Column { name: "last_msg_ext_type", decl: Decl::IntegerDefault(0) });
    later.push(Column { name: "unread_first_msg_srv_id", decl: Decl::IntegerDefault(0) });
    later.push(Column { name: "summary", decl: Decl::Text });
    later.push(Column { name: "last_sender_display_name", decl: Decl::Text });
    later.push(Column { name: "draft", decl: Decl::Text });
    later.push(Column { name: "last_msg_sender", decl: Decl::Text });
    assert(later@ =~= session_later_columns());
    add_missing("session", &later, existing)
}

/// Every later column of the table `session` is one of its columns, and the rows that are
/// there when it is added have a value for it.
pub proof fn law_session_later_columns_belong(i: int)
    requires
        0 <= i < session_later_columns().len(),
    ensures
        crate::schema::column_names(session_columns()).contains(session_later_columns()[i].name@),
        session_later_columns()[i].decl.fills_old_rows(),
{
    let all = crate::schema::column_names(session_columns());
    assert(all[4] == "account_id"@);
    assert(all[5] == "username"@);
    assert(all[10] == "summary_len"@);
    assert(all[12] == "last_sender_len"@);
    assert(all[14] == "session_type"@);
    assert(all[15] == "is_hidden"@);
    assert(all[16] == "status"@);
    assert(all[17] == "draft_len"@);
    assert(all[20] == "last_timestamp"@);
    assert(all[21] == "last_clear_unread_timestamp"@);
    assert(all[22] == "last_msg_locald_id"@);
    assert(all[23] == "last_msg_ext_type"@);
    assert(all[24] == "unread_first_msg_srv_id"@);
    assert(all[11] == "summary"@);
    assert(all[13] == "last_sender_display_name"@);
    assert(all[18] == "draft"@);
    assert(all[19] == "last_msg_sender"@);
}

/// The columns by which the table `session` tells its rows apart.
pub open spec fn session_key() -> Seq<Seq<char>> {
    seq!["account_id_sha"@, "source"@, "source_native_id"@]
}

/// A row fills the table: it has a value for every column, and for no other.
pub proof fn law_session_row_fills_the_table(row: V3Session)
    ensures
        crate::sql::names(row.row()) == crate::schema::column_names(session_columns()),
{
    assert(crate::sql::names(row.row()) =~= crate::schema::column_names(session_columns()));
}

/// Two rows of the table `session` have the same key exactly where they agree in its fields.
pub proof fn law_session_key_tells_rows_apart(a: V3Session, b: V3Session)
    ensures
        crate::relation::same_key(a.row(), b.row(), session_key()) <==> {
            &&& a.account_id_sha@ == b.account_id_sha@
            &&& a.source@ == b.source@
            &&& a.source_native_id@ == b.source_native_id@
        },
{
    reveal_strlit("account_id_sha");
    reveal_strlit("source");
    reveal_strlit("source_native_id");
    let (x, y) = (a.row(), b.row());
    assert("account_id_sha"@.len() != "source"@.len());
    assert("account_id_sha"@.len() != "source_native_id"@.len());
    assert("source"@.len() != "source_native_id"@.len());
    let at: Seq<int> = seq![0int, 1, 2];
    crate::relation::lemma_same_key(x, y, session_key(), at);
    assert(at[0] == 0);
    assert(at[1] == 1);
    assert(at[2] == 2);
}

/// The steps that make the table `session`.
pub open spec fn session_steps() -> Seq<Step> {
    seq![
        Step::Create(Table::Session),
        Step::Index(
            Index {
                name: "idx_session_username",
                table: "session",
                columns: "account_id_sha, username_sha",
            },
        ),
        Step::Index(
            Index {
                name: "idx_session_sort",
                table: "session",
                columns: "account_id_sha, sort_timestamp DESC",
            },
        ),
        Step::Ensure(Table::Session),
    ]
}

/// The steps that make the table `session`.
pub fn init_session_table() -> (steps: Vec<Step>)
    ensures
        steps@ == session_steps(),
{
    let mut steps: Vec<Step> = Vec::new();
    steps.push(Step::Create(Table::Session));
    steps.push(Step::Index(
        Index {
            name: "idx_session_username",
            table: "session",
            columns: "account_id_sha, username_sha",
        },
    ));
    steps.push(Step::Index(
        Index {
            name: "idx_session_sort",
            table: "session",
            columns: "account_id_sha, sort_timestamp DESC",
        },
    ));
    steps.push(Step::Ensure(Table::Session));
    assert(steps@ =~= session_steps());
    steps
}

/// The statement that stores a row of the table `session`, in place of the row with the same
/// key.
pub fn insert_session(s: &V3Session) -> (statement: Statement)
    ensures
        statement.does(Effect::Replace { table: "session"@, row: s.row() }),
{
    let mut row = RowBuilder::new();
    row.text("account_id_sha", s.account_id_sha.as_str());
    row.text("source", s.source.as_str());
    row.text("source_native_id", s.source_native_id.as_str());
    row.text("username_sha", s.username_sha.as_str());
    row.text("account_id", s.account_id.as_str());
    row.text("username", s.username.as_str());
    row.integer("unread_count", s.unread_count);
    row.integer("last_msg_type", s.last_msg_type);
    row.integer("last_msg_sub_type", s.last_msg_sub_type);
    row.integer("sort_timestamp", s.sort_timestamp);
    row.integer("summary_len", s.summary_len);
    row.nullable_text("summary", &s.summary);
    row.integer("last_sender_len", s.last_sender_len);
    row.nullable_text("last_sender_display_name", &s.last_sender_display_name);
    row.integer("session_type", s.session_type);
    row.integer("is_hidden", s.is_hidden);
    row.integer("status", s.status);
    row.integer("draft_len", s.draft_len);
    row.nullable_text("draft", &s.draft);
    row.nullable_text("last_msg_sender", &s.last_msg_sender);
    row.integer("last_timestamp", s.last_timestamp);
    row.integer("last_clear_unread_timestamp", s.last_clear_unread_timestamp);
    row.integer("last_msg_locald_id", s.last_msg_locald_id);
    row.integer("last_msg_ext_type", s.last_msg_ext_type);
    row.integer("unread_first_msg_srv_id", s.unread_first_msg_srv_id);
    assert(row@ =~= s.row());
    row.replace_into("session")
}

/// Every field is stored under its own name: the row that `insert_session` puts in holds in each
/// column the field of that column.
pub proof fn law_session_fields_keep_their_names(m: &V3Session, statement: Statement)
    requires
        call_ensures(insert_session, (m,), statement),
    ensures
        statement.does(Effect::Replace { table: "session"@, row: m.row() }),
        m.row().len() == 25,
        crate::relation::column(m.row(), "account_id_sha"@) == Val::Text(m.account_id_sha@),
        crate::relation::column(m.row(), "source"@) == Val::Text(m.source@),
        crate::relation::column(m.row(), "source_native_id"@) == Val::Text(m.source_native_id@),
        crate::relation::column(m.row(), "username_sha"@) == Val::Text(m.username_sha@),
        crate::relation::column(m.row(), "account_id"@) == Val::Text(m.account_id@),
        crate::relation::column(m.row(), "username"@) == Val::Text(m.username@),
        crate::relation::column(m.row(), "unread_count"@) == Val::Integer(m.unread_count as int),
        crate::relation::column(m.row(), "last_msg_type"@) == Val::Integer(m.last_msg_type as int),
        crate::relation::column(m.row(), "last_msg_sub_type"@) == Val::Integer(m.last_msg_sub_type as int),
        crate::relation::column(m.row(), "sort_timestamp"@) == Val::Integer(m.sort_timestamp as int),
        crate::relation::column(m.row(), "summary_len"@) == Val::Integer(m.summary_len as int),
        crate::relation::column(m.row(), "summary"@) == (match m.summary { Some(t) => Val::Text(t@), None => Val::Null }),
        crate::relation::column(m.row(), "last_sender_len"@) == Val::Integer(m.last_sender_len as int),
        crate::relation::column(m.row(), "last_sender_display_name"@) == (match m.last_sender_display_name { Some(t) => Val::Text(t@), None => Val::Null }),
        crate::relation::column(m.row(), "session_type"@) == Val::Integer(m.session_type as int),
        crate::relation::column(m.row(), "is_hidden"@) == Val::Integer(m.is_hidden as int),
        crate::relation::column(m.row(), "status"@) == Val::Integer(m.status as int),
        crate::relation::column(m.row(), "draft_len"@) == Val::Integer(m.draft_len as int),
        crate::relation::column(m.row(), "draft"@) == (match m.draft { Some(t) => Val::Text(t@), None => Val::Null }),
        crate::relation::column(m.row(), "last_msg_sender"@) == (match m.last_msg_sender { Some(t) => Val::Text(t@), None => Val::Null }),
        crate::relation::column(m.row(), "last_timestamp"@) == Val::Integer(m.last_timestamp as int),
        crate::relation::column(m.row(), "last_clear_unread_timestamp"@) == Val::Integer(m.last_clear_unread_timestamp as int),
        crate::relation::column(m.row(), "last_msg_locald_id"@) == Val::Integer(m.last_msg_locald_id as int),
        crate::relation::column(m.row(), "last_msg_ext_type"@) == Val::Integer(m.last_msg_ext_type as int),
        crate::relation::column(m.row(), "unread_first_msg_srv_id"@) == Val::Integer(m.unread_first_msg_srv_id as int),
{
    reveal_strlit("account_id_sha");
    reveal_strlit("source");
    reveal_strlit("source_native_id");
    reveal_strlit("username_sha");
    reveal_strlit("account_id");
    reveal_strlit("username");
    reveal_strlit("unread_count");
    reveal_strlit("last_msg_type");
    reveal_strlit("last_msg_sub_type");
    reveal_strlit("sort_timestamp");
    reveal_strlit("summary_len");
    reveal_strlit("summary");
    reveal_strlit("last_sender_len");
    reveal_strlit("last_sender_display_name");
    reveal_strlit("session_type");
    reveal_strlit("is_hidden");
    reveal_strlit("status");
    reveal_strlit("draft_len");
    reveal_strlit("draft");
    reveal_strlit("last_msg_sender");
    reveal_strlit("last_timestamp");
    reveal_strlit("last_clear_unread_timestamp");
    reveal_strlit("last_msg_locald_id");
    reveal_strlit("last_msg_ext_type");
    reveal_strlit("unread_first_msg_srv_id");
    let row = m.row();
    assert(row[0].0.len() == 14 && row[1].0.len() == 6 && row[2].0.len() == 16);
    assert(row[3].0.len() == 12 && row[4].0.len() == 10 && row[5].0.len() == 8);
    assert(row[6].0.len() == 12 && row[7].0.len() == 13 && row[8].0.len() == 17);
    assert(row[9].0.len() == 14 && row[10].0.len() == 11 && row[11].0.len() == 7);
    assert(row[12].0.len() == 15 && row[13].0.len() == 24 && row[14].0.len() == 12);
    assert(row[15].0.len() == 9 && row[16].0.len() == 6 && row[17].0.len() == 9);
    assert(row[18].0.len() == 5 && row[19].0.len() == 15 && row[20].0.len() == 14);
    assert(row[21].0.len() == 27 && row[22].0.len() == 18 && row[23].0.len() == 17);
    assert(row[24].0.len() == 23);
    assert(row[3].0[1] != row[6].0[1]);
    assert(row[0].0[0] != row[9].0[0]);
    assert(row[3].0[0] != row[14].0[0]);
    assert(row[6].0[0] != row[14].0[0]);
    assert(row[1].0[1] != row[16].0[1]);
    assert(row[15].0[0] != row[17].0[0]);
    assert(row[12].0[5] != row[19].0[5]);
    assert(row[0].0[0] != row[20].0[0]);
    assert(row[9].0[0] != row[20].0[0]);
    assert(row[8].0[9] != row[23].0[9]);
    crate::relation::lemma_column_at(row, 0);
    crate::relation::lemma_column_at(row, 1);
    crate::relation::lemma_column_at(row, 2);
    crate::relation::lemma_column_at(row, 3);
    crate::relation::lemma_column_at(row, 4);
    crate::relation::lemma_column_at(row, 5);
    crate::relation::lemma_column_at(row, 6);
    crate::relation::lemma_column_at(row, 7);
    crate::relation::lemma_column_at(row, 8);
    crate::relation::lemma_column_at(row, 9);
    crate::relation::lemma_column_at(row, 10);
    crate::relation::lemma_column_at(row, 11);
    crate::relation::lemma_column_at(row, 12);
    crate::relation::lemma_column_at(row, 13);
    crate::relation::lemma_column_at(row, 14);
    crate::relation::lemma_column_at(row, 15);
    crate::relation::lemma_column_at(row, 16);
    crate::relation::lemma_column_at(row, 17);
    crate::relation::lemma_column_at(row, 18);
    crate::relation::lemma_column_at(row, 19);
    crate::relation::lemma_column_at(row, 20);
    crate::relation::lemma_column_at(row, 21);
    crate::relation::lemma_column_at(row, 22);
    crate::relation::lemma_column_at(row, 23);
    crate::relation::lemma_column_at(row, 24);
}


/// What a log shows of `V3Session`: each of these fields under its name, in the form that is said
/// here, and nothing else. What is not shown as it is stays hidden.
pub proof fn law_session_shows_only_these_fields(m: &V3Session, row: DebugRow)
    requires
        call_ensures(V3Session::debug_row, (m,), row),
    ensures
        row.name@ == "V3Session"@,
        row.complete == false,
        row.fields@.len() == 25,
        row.fields@.contains(("account_id_sha", Shown::Text(m.account_id_sha))),
        row.fields@.contains(("source", Shown::Text(m.source))),
        row.fields@.contains(("source_native_id", Shown::Text(m.source_native_id))),
        row.fields@.contains(("username_sha", Shown::Text(m.username_sha))),
        row.fields@.contains(("account_id_sha8", Shown::Digest(m.account_id))),
        row.fields@.contains(("username_sha8", Shown::Digest(m.username))),
        row.fields@.contains(("unread_count", Shown::Integer(m.unread_count))),
        row.fields@.contains(("last_msg_type", Shown::Integer(m.last_msg_type))),
        row.fields@.contains(("last_msg_sub_type", Shown::Integer(m.last_msg_sub_type))),
        row.fields@.contains(("sort_timestamp", Shown::Integer(m.sort_timestamp))),
        row.fields@.contains(("summary_len", Shown::Integer(m.summary_len))),
        row.fields@.contains(("summary_sha8", Shown::NullableDigest(m.summary))),
        row.fields@.contains(("last_sender_len", Shown::Integer(m.last_sender_len))),
        row.fields@.contains(("last_sender_sha8", Shown::NullableDigest(m.last_sender_display_name))),
        row.fields@.contains(("session_type", Shown::Integer(m.session_type))),
        row.fields@.contains(("is_hidden", Shown::Integer(m.is_hidden))),
        row.fields@.contains(("status", Shown::Integer(m.status))),
        row.fields@.contains(("draft_len", Shown::Integer(m.draft_len))),
        row.fields@.contains(("draft_sha8", Shown::NullableDigest(m.draft))),
        row.fields@.contains(("last_msg_sender_sha8", Shown::NullableDigest(m.last_msg_sender))),
        row.fields@.contains(("last_timestamp", Shown::Integer(m.last_timestamp))),
        row.fields@.contains(("last_clear_unread_timestamp", Shown::Integer(m.last_clear_unread_timestamp))),
        row.fields@.contains(("last_msg_locald_id", Shown::Integer(m.last_msg_locald_id))),
        row.fields@.contains(("last_msg_ext_type", Shown::Integer(m.last_msg_ext_type))),
        row.fields@.contains(("unread_first_msg_srv_id", Shown::Integer(m.unread_first_msg_srv_id))),
{
    let fields = row.fields@;
    assert(fields[0] == ("account_id_sha", Shown::Text(m.account_id_sha)));
    assert(fields[1] == ("source", Shown::Text(m.source)));
    assert(fields[2] == ("source_native_id", Shown::Text(m.source_native_id)));
    assert(fields[3] == ("username_sha", Shown::Text(m.username_sha)));
    assert(fields[4] == ("account_id_sha8", Shown::Digest(m.account_id)));
    assert(fields[5] == ("username_sha8", Shown::Digest(m.username)));
    assert(fields[6] == ("unread_count", Shown::Integer(m.unread_count)));
    assert(fields[7] == ("last_msg_type", Shown::Integer(m.last_msg_type)));
    assert(fields[8] == ("last_msg_sub_type", Shown::Integer(m.last_msg_sub_type)));
    assert(fields[9] == ("sort_timestamp", Shown::Integer(m.sort_timestamp)));
    assert(fields[10] == ("summary_len", Shown::Integer(m.summary_len)));
    assert(fields[11] == ("summary_sha8", Shown::NullableDigest(m.summary)));
    assert(fields[12] == ("last_sender_len", Shown::Integer(m.last_sender_len)));
    assert(fields[13] == ("last_sender_sha8", Shown::NullableDigest(m.last_sender_display_name)));
    assert(fields[14] == ("session_type", Shown::Integer(m.session_type)));
    assert(fields[15] == ("is_hidden", Shown::Integer(m.is_hidden)));
    assert(fields[16] == ("status", Shown::Integer(m.status)));
    assert(fields[17] == ("draft_len", Shown::Integer(m.draft_len)));
    assert(fields[18] == ("draft_sha8", Shown::NullableDigest(m.draft)));
    assert(fields[19] == ("last_msg_sender_sha8", Shown::NullableDigest(m.last_msg_sender)));
    assert(fields[20] == ("last_timestamp", Shown::Integer(m.last_timestamp)));
    assert(fields[21] == ("last_clear_unread_timestamp", Shown::Integer(m.last_clear_unread_timestamp)));
    assert(fields[22] == ("last_msg_locald_id", Shown::Integer(m.last_msg_locald_id)));
    assert(fields[23] == ("last_msg_ext_type", Shown::Integer(m.last_msg_ext_type)));
    assert(fields[24] == ("unread_first_msg_srv_id", Shown::Integer(m.unread_first_msg_srv_id)));
}

/// Every column takes what is stored in it, and only the columns of what may be missing take null.
pub proof fn law_session_columns_take_its_rows(m: V3Session, i: int)
    requires
        0 <= i < m.row().len(),
    ensures
        session_columns()[i].decl.takes(m.row()[i].1),
        session_columns()[i].decl.takes(Val::Null) <==> i == 11 || i == 13 || i == 18 || i == 19,
{
    let row = m.row();
    let columns = session_columns();
    assert(columns[0].decl.takes(row[0].1) && columns[1].decl.takes(row[1].1) && columns[2].decl.takes(row[2].1));
    assert(columns[3].decl.takes(row[3].1) && columns[4].decl.takes(row[4].1) && columns[5].decl.takes(row[5].1));
    assert(columns[6].decl.takes(row[6].1) && columns[7].decl.takes(row[7].1) && columns[8].decl.takes(row[8].1));
    assert(columns[9].decl.takes(row[9].1) && columns[10].decl.takes(row[10].1) && columns[11].decl.takes(row[11].1));
    assert(columns[12].decl.takes(row[12].1) && columns[13].decl.takes(row[13].1) && columns[14].decl.takes(row[14].1));
    assert(columns[15].decl.takes(row[15].1) && columns[16].decl.takes(row[16].1) && columns[17].decl.takes(row[17].1));
    assert(columns[18].decl.takes(row[18].1) && columns[19].decl.takes(row[19].1) && columns[20].decl.takes(row[20].1));
    assert(columns[21].decl.takes(row[21].1) && columns[22].decl.takes(row[22].1) && columns[23].decl.takes(row[23].1));
    assert(columns[24].decl.takes(row[24].1));
}

/// What the rows of an old `session` table hold in the columns that are added to it, by name; and
/// each of these columns takes it, as the table of today declares it.
pub proof fn law_old_session_rows_are_filled(i: int)
    requires
        0 <= i < session_later_columns().len(),
    ensures
        session_later_columns().len() == 17,
        crate::schema::filled(session_later_columns()).contains(("account_id"@, Val::Text(""@))),
        crate::schema::filled(session_later_columns()).contains(("username"@, Val::Text(""@))),
        crate::schema::filled(session_later_columns()).contains(("summary_len"@, Val::Integer(0))),
        crate::schema::filled(session_later_columns()).contains(("last_sender_len"@, Val::Integer(0))),
        crate::schema::filled(session_later_columns()).contains(("session_type"@, Val::Integer(0))),
        crate::schema::filled(session_later_columns()).contains(("is_hidden"@, Val::Integer(0))),
        crate::schema::filled(session_later_columns()).contains(("status"@, Val::Integer(0))),
        crate::schema::filled(session_later_columns()).contains(("draft_len"@, Val::Integer(0))),
        crate::schema::filled(session_later_columns()).contains(("last_timestamp"@, Val::Integer(0))),
        crate::schema::filled(session_later_columns()).contains(("last_clear_unread_timestamp"@, Val::Integer(0))),
        crate::schema::filled(session_later_columns()).contains(("last_msg_locald_id"@, Val::Integer(0))),
        crate::schema::filled(session_later_columns()).contains(("last_msg_ext_type"@, Val::Integer(0))),
        crate::schema::filled(session_later_columns()).contains(("unread_first_msg_srv_id"@, Val::Integer(0))),
        crate::schema::filled(session_later_columns()).contains(("summary"@, Val::Null)),
        crate::schema::filled(session_later_columns()).contains(("last_sender_display_name"@, Val::Null)),
        crate::schema::filled(session_later_columns()).contains(("draft"@, Val::Null)),
        crate::schema::filled(session_later_columns()).contains(("last_msg_sender"@, Val::Null)),
        exists|j: int|
            0 <= j < session_columns().len() && (#[trigger] session_columns()[j]).name@
                == session_later_columns()[i].name@ && session_columns()[j].decl.takes(
                session_later_columns()[i].decl.value_in_old_rows(),
            ),
{
    let later = session_later_columns();
    let columns = session_columns();
    let filled = crate::schema::filled(later);
    assert(filled[0] == ("account_id"@, Val::Text(""@)));
    assert(columns[4].name@ == later[0].name@ && columns[4].decl.takes(later[0].decl.value_in_old_rows()));
    assert(filled[1] == ("username"@, Val::Text(""@)));
    assert(columns[5].name@ == later[1].name@ && columns[5].decl.takes(later[1].decl.value_in_old_rows()));
    assert(filled[2] == ("summary_len"@, Val::Integer(0)));
    assert(columns[10].name@ == later[2].name@ && columns[10].decl.takes(later[2].decl.value_in_old_rows()));
    assert(filled[3] == ("last_sender_len"@, Val::Integer(0)));
    assert(columns[12].name@ == later[3].name@ && columns[12].decl.takes(later[3].decl.value_in_old_rows()));
    assert(filled[4] == ("session_type"@, Val::Integer(0)));
    assert(columns[14].name@ == later[4].name@ && columns[14].decl.takes(later[4].decl.value_in_old_rows()));
    assert(filled[5] == ("is_hidden"@, Val::Integer(0)));
    assert(columns[15].name@ == later[5].name@ && columns[15].decl.takes(later[5].decl.value_in_old_rows()));
    assert(filled[6] == ("status"@, Val::Integer(0)));
    assert(columns[16].name@ == later[6].name@ && columns[16].decl.takes(later[6].decl.value_in_old_rows()));
    assert(filled[7] == ("draft_len"@, Val::Integer(0)));
    assert(columns[17].name@ == later[7].name@ && columns[17].decl.takes(later[7].decl.value_in_old_rows()));
    assert(filled[8] == ("last_timestamp"@, Val::Integer(0)));
    assert(columns[20].name@ == later[8].name@ && columns[20].decl.takes(later[8].decl.value_in_old_rows()));
    assert(filled[9] == ("last_clear_unread_timestamp"@, Val::Integer(0)));
    assert(columns[21].name@ == later[9].name@ && columns[21].decl.takes(later[9].decl.value_in_old_rows()));
    assert(filled[10] == ("last_msg_locald_id"@, Val::Integer(0)));
    assert(columns[22].name@ == later[10].name@ && columns[22].decl.takes(later[10].decl.value_in_old_rows()));
    assert(filled[11] == ("last_msg_ext_type"@, Val::Integer(0)));
    assert(columns[23].name@ == later[11].name@ && columns[23].decl.takes(later[11].decl.value_in_old_rows()));
    assert(filled[12] == ("unread_first_msg_srv_id"@, Val::Integer(0)));
    assert(columns[24].name@ == later[12].name@ && columns[24].decl.takes(later[12].decl.value_in_old_rows()));
    assert(filled[13] == ("summary"@, Val::Null));
    assert(columns[11].name@ == later[13].name@ && columns[11].decl.takes(later[13].decl.value_in_old_rows()));
    assert(filled[14] == ("last_sender_display_name"@, Val::Null));
    assert(columns[13].name@ == later[14].name@ && columns[13].decl.takes(later[14].decl.value_in_old_rows()));
    assert(filled[15] == ("draft"@, Val::Null));
    assert(columns[18].name@ == later[15].name@ && columns[18].decl.takes(later[15].decl.value_in_old_rows()));
    assert(filled[16] == ("last_msg_sender"@, Val::Null));
    assert(columns[19].name@ == later[16].name@ && columns[19].decl.takes(later[16].decl.value_in_old_rows()));
}

/// The table `session` is made first, and then an index for each of the ways in which its rows are
/// looked up.
pub proof fn law_session_lookups_have_indexes(steps: Vec<Step>)
    requires
        call_ensures(init_session_table, (), steps),
    ensures
        steps@[0] == Step::Create(Table::Session),
        Table::Session.name_text() == "session"@,
        crate::plan::has_index(
            steps@,
            "idx_session_username"@,
            "session"@,
            "account_id_sha, username_sha"@,
        ),
        crate::plan::has_index(
            steps@,
            "idx_session_sort"@,
            "session"@,
            "account_id_sha, sort_timestamp DESC"@,
        ),
{
    assert(steps@[1] is Index);
    assert(steps@[2] is Index);
}

} // verus!
