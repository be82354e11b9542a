//! Group chats: the rooms, who is in them, and who came and went.

use vstd::prelude::*;

use crate::index::Index;
use crate::plan::{delete_group, Step};
use crate::redact::{copy_text, count_or_zero, DebugRow, Shown};
use crate::schema::{add_missing, Column, Decl};
use crate::sql::{Effect, Op, Row, RowBuilder, SqlValue, Statement, Tail, Test, TestsBuilder, Val};
use crate::tables::Table;

verus! {

/// A group chat.
#[derive(Clone, PartialEq, Eq)]
pub struct V3Chatroom {
    pub account_id_sha: String,
    pub source: String,
    pub source_native_id: String,
    pub chatroom_id_sha: String,
    pub account_id: String,
    pub chatroom_id: String,
    pub owner_wxid: Option<String>,
    pub chatroom_name: String,
    pub announcement: Option<String>,
    pub chatroom_name_len: i64,
    pub announcement_len: i64,
    pub member_count: i64,
    pub owner_wxid_sha: Option<String>,
    pub announcement_editor: Option<String>,
    pub announcement_publish_time: i64,
    pub xml_announcement: Option<String>,
    pub chat_room_status: i64,
    pub chatroom_remark: Option<String>,
    pub chatroom_remark_len: i64,
    pub is_still_member: bool,
}

impl V3Chatroom {
    /// The row that it is stored as.
    pub open spec fn row(self) -> Row {
        seq![
            ("account_id_sha"@, Val::Text(self.account_id_sha@)),
            ("source"@, Val::Text(self.source@)),
            ("source_native_id"@, Val::Text(self.source_native_id@)),
            ("chatroom_id_sha"@, Val::Text(self.chatroom_id_sha@)),
            ("account_id"@, Val::Text(self.account_id@)),
            ("chatroom_id"@, Val::Text(self.chatroom_id@)),
            ("owner_wxid"@, crate::sql::nullable_text(self.owner_wxid)),
            ("chatroom_name"@, Val::Text(self.chatroom_name@)),
            ("announcement"@, crate::sql::nullable_text(self.announcement)),
            ("chatroom_name_len"@, Val::Integer(self.chatroom_name_len as int)),
            ("announcement_len"@, Val::Integer(self.announcement_len as int)),
            ("member_count"@, Val::Integer(self.member_count as int)),
            ("owner_wxid_sha"@, crate::sql::nullable_text(self.owner_wxid_sha)),
            ("announcement_editor"@, crate::sql::nullable_text(self.announcement_editor)),
            ("announcement_publish_time"@, Val::Integer(self.announcement_publish_time as int)),
            ("xml_announcement"@, crate::sql::nullable_text(self.xml_announcement)),
            ("chat_room_status"@, Val::Integer(self.chat_room_status as int)),
            ("chatroom_remark"@, crate::sql::nullable_text(self.chatroom_remark)),
            ("chatroom_remark_len"@, Val::Integer(self.chatroom_remark_len as int)),
            ("is_still_member"@, crate::sql::flag(self.is_still_member)),
        ]
    }

    /// How its fields are shown in a log.
    pub open spec fn shown(self) -> Seq<(&'static str, Shown)> {
        seq![
            ("account_id_sha", Shown::Text(self.account_id_sha)),
            ("source", Shown::Text(self.source)),
            ("source_native_id", Shown::Text(self.source_native_id)),
            ("chatroom_id_sha", Shown::Text(self.chatroom_id_sha)),
            ("account_id_sha8", Shown::Digest(self.account_id)),
            ("chatroom_id_sha8", Shown::Digest(self.chatroom_id)),
            ("owner_wxid_sha8", Shown::NullableDigest(self.owner_wxid)),
            ("chatroom_name_len", Shown::Integer(self.chatroom_name_len)),
            ("announcement_len", Shown::Integer(self.announcement_len)),
            ("member_count", Shown::Integer(self.member_count)),
            ("owner_wxid_sha", Shown::NullableText(self.owner_wxid_sha)),
            ("announcement_editor_sha8", Shown::NullableDigest(self.announcement_editor)),
            ("announcement_publish_time", Shown::Integer(self.announcement_publish_time)),
            ("xml_announcement_len", Shown::Count(crate::redact::chars_or_zero(self.xml_announcement))),
            ("chat_room_status", Shown::Integer(self.chat_room_status)),
            ("chatroom_remark_len", Shown::Integer(self.chatroom_remark_len)),
            ("is_still_member", Shown::Flag(self.is_still_member)),
        ]
    }

    /// What it shows of itself in a log.
    pub fn debug_row(&self) -> (row: DebugRow)
        ensures
            row.name@ == "V3Chatroom"@,
            row.fields@ == self.shown(),
            row.complete == false,
    {
        let mut fields: Vec<(&'static str, Shown)> = Vec::new();
        fields.push(("account_id_sha", Shown::Text(self.account_id_sha.clone())));
        fields.push(("source", Shown::Text(self.source.clone())));
        fields.push(("source_native_id", Shown::Text(self.source_native_id.clone())));
        fields.push(("chatroom_id_sha", Shown::Text(self.chatroom_id_sha.clone())));
        fields.push(("account_id_sha8", Shown::Digest(self.account_id.clone())));
        fields.push(("chatroom_id_sha8", Shown::Digest(self.chatroom_id.clone())));
        fields.push(("owner_wxid_sha8", Shown::NullableDigest(copy_text(&self.owner_wxid))));
        fields.push(("chatroom_name_len", Shown::Integer(self.chatroom_name_len)));
        fields.push(("announcement_len", Shown::Integer(self.announcement_len)));
        fields.push(("member_count", Shown::Integer(self.member_count)));
        fields.push(("owner_wxid_sha", Shown::NullableText(copy_text(&self.owner_wxid_sha))));
        fields.push(("announcement_editor_sha8", Shown::NullableDigest(copy_text(&self.announcement_editor))));
        fields.push(("announcement_publish_time", Shown::Integer(self.announcement_publish_time)));
        fields.push(("xml_announcement_len", Shown::Count(count_or_zero(&self.xml_announcement))));
        fields.push(("chat_room_status", Shown::Integer(self.chat_room_status)));
        fields.push(("chatroom_remark_len", Shown::Integer(self.chatroom_remark_len)));
        fields.push(("is_still_member", Shown::Flag(self.is_still_member)));
        assert(fields@ =~= self.shown());
        DebugRow { name: "V3Chatroom", fields, complete: false }
    }
}

/// The columns of the table `chatroom`.
pub open spec fn chatroom_columns() -> Seq<Column> {
    seq![
        Column { name: "account_id_sha", decl: Decl::TextNotNull },
        Column { name: "source", decl: Decl::TextNotNull },
        Column { name: "source_native_id", decl: Decl::TextNotNull },
        Column { name: "chatroom_id_sha", decl: Decl::TextNotNull },
        Column { name: "account_id", decl: Decl::TextNotNull },
        Column { name: "chatroom_id", decl: Decl::TextNotNull },
        Column { name: "owner_wxid", decl: Decl::Text },
        Column { name: "chatroom_name", decl: Decl::TextNotNull },
        Column { name: "announcement", decl: Decl::Text },
        Column { name: "chatroom_name_len", decl: Decl::IntegerNotNull },
        Column { name: "announcement_len", decl: Decl::IntegerNotNull },
        Column { name: "member_count", decl: Decl::IntegerNotNull },
        Column { name: "owner_wxid_sha", decl: Decl::Text },
        Column { name: "announcement_editor", decl: Decl::Text },
        Column { name: "announcement_publish_time", decl: Decl::IntegerDefault(0) },
        Column { name: "xml_announcement", decl: Decl::Text },
        Column { name: "chat_room_status", decl: Decl::IntegerDefault(0) },
        Column { name: "chatroom_remark", decl: Decl::Text },
        Column { name: "chatroom_remark_len", decl: Decl::IntegerDefault(0) },
        Column { name: "is_still_member", decl: Decl::IntegerDefault(1) },
    ]
}

/// The columns of the table `chatroom`.
pub fn chatroom_table() -> (columns: Vec<Column>)
    ensures
        columns@ == chatroom_columns(),
{
    let mut columns: Vec<Column> = Vec::new();
    columns.push(Column { name: "account_id_sha", decl: Decl::TextNotNull });
    columns.push(Column { name: "source", decl: Decl::TextNotNull });
    columns.push(Column { name: "source_native_id", decl: Decl::TextNotNull });
    columns.push(Column { name: "chatroom_id_sha", decl: Decl::TextNotNull });
    columns.push(Column { name: "account_id", decl: Decl::TextNotNull });
    columns.push(Column { name: "chatroom_id", decl: Decl::TextNotNull });
    columns.push(Column { name: "owner_wxid", decl: Decl::Text });
    columns.push(Column { name: "chatroom_name", decl: Decl::TextNotNull });
    columns.push(Column { name: "announcement", decl: Decl::Text });
    columns.push(Column { name: "chatroom_name_len", decl: Decl::IntegerNotNull });
    columns.push(Column { name: "announcement_len", decl: Decl::IntegerNotNull });
    columns.push(Column { name: "member_count", decl: Decl::IntegerNotNull });
    columns.push(Column { name: "owner_wxid_sha", decl: Decl::Text });
    columns.push(Column { name: "announcement_editor", decl: Decl::Text });
    columns.push(Column { name: "announcement_publish_time", decl: Decl::IntegerDefault(0) });
    columns.push(Column { name: "xml_announcement", decl: Decl::Text });
    columns.push(Column { name: "chat_room_status", decl: Decl::IntegerDefault(0) });
    columns.push(Column { name: "chatroom_remark", decl: Decl::Text });
    columns.push(Column { name: "chatroom_remark_len", decl: Decl::IntegerDefault(0) });
    columns.push(Column { name: "is_still_member", decl: Decl::IntegerDefault(1) });
    assert(columns@ =~= chatroom_columns());
    columns
}

/// The columns that came to the table `chatroom` later.
pub open spec fn chatroom_later_columns() -> Seq<Column> {
    seq![
        Column { name: "announcement_editor", decl: Decl::Text },
        Column { name: "announcement_publish_time", decl: Decl::IntegerDefault(0) },
        Column { name: "xml_announcement", decl: Decl::Text },
        Column { name: "chat_room_status", decl: Decl::IntegerDefault(0) },
        Column { name: "chatroom_remark", decl: Decl::Text },
        Column { name: "chatroom_remark_len", decl: Decl::IntegerDefault(0) },
        Column { name: "is_still_member", decl: Decl::IntegerDefault(1) },
    ]
}

/// The statements that add to the table `chatroom` the later columns that it lacks.
pub fn ensure_chatroom_columns(existing: &Vec<String>) -> (statements: Vec<Statement>)
    ensures
        crate::schema::adds(
            statements@,
            "chatroom"@,
            crate::schema::missing(chatroom_later_columns(), crate::sql::strings(existing@)),
        ),
{
    let mut later: Vec<Column> = Vec::new();
    later.push(Column { name: "announcement_editor", decl: Decl::Text });
    later.push(Column { name: "announcement_publish_time", decl: Decl::IntegerDefault(0) });
    later.push(Column { name: "xml_announcement", decl: Decl::Text });
    later.push(Column { name: "chat_room_status", decl: Decl::IntegerDefault(0) });
    later.push(Column { name: "chatroom_remark", decl: Decl::Text });
    later.push(Column { name: "chatroom_remark_len", decl: Decl::IntegerDefault(0) });
    later.push(Column { name: "is_still_member", decl: Decl::IntegerDefault(1) });
    assert(later@ =~= chatroom_later_columns());
    add_missing("chatroom", &later, existing)
}

/// Every later column of the table `chatroom` is one of its columns, and the rows that are
/// there when it is added have a value for it.
pub proof fn law_chatroom_later_columns_belong(i: int)
    requires
        0 <= i < chatroom_later_columns().len(),
    ensures
        crate::schema::column_names(chatroom_columns()).contains(chatroom_later_columns()[i].name@),
        chatroom_later_columns()[i].decl.fills_old_rows(),
{
    let all = crate::schema::column_names(chatroom_columns());
    assert(all[13] == "announcement_editor"@);
    assert(all[14] == "announcement_publish_time"@);
    assert(all[15] == "xml_announcement"@);
    assert(all[16] == "chat_room_status"@);
    assert(all[17] == "chatroom_remark"@);
    assert(all[18] == "chatroom_remark_len"@);
    assert(all[19] == "is_still_member"@);
}

/// The columns by which the table `chatroom` tells its rows apart.
pub open spec fn chatroom_key() -> Seq<Seq<char>> {
    seq!["account_id_sha"@, "source"@, "source_native_id"@]
}

/// A row fills the table: it has a value for every column, and for no other.
pub proof fn law_chatroom_row_fills_the_table(row: V3Chatroom)
    ensures
        crate::sql::names(row.row()) == crate::schema::column_names(chatroom_columns()),
{
    assert(crate::sql::names(row.row()) =~= crate::schema::column_names(chatroom_columns()));
}

/// Two rows of the table `chatroom` have the same key exactly where they agree in its fields.
pub proof fn law_chatroom_key_tells_rows_apart(a: V3Chatroom, b: V3Chatroom)
    ensures
        crate::relation::same_key(a.row(), b.row(), chatroom_key()) <==> {
            &&& a.account_id_sha@ == b.account_id_sha@
            &&& a.source@ == b.source@
            &&& a.source_native_id@ == b.source_native_id@
        },
{
    reveal_strlit("account_id_sha");
    reveal_strlit("source");
    reveal_strlit("source_native_id");
    let (x, y) = (a.row(), b.row());
    assert("account_id_sha"@.len() != "source"@.len());
    assert("account_id_sha"@.len() != "source_native_id"@.len());
    assert("source"@.len() != "source_native_id"@.len());
    let at: Seq<int> = seq![0int, 1, 2];
    crate::relation::lemma_same_key(x, y, chatroom_key(), at);
    assert(at[0] == 0);
    assert(at[1] == 1);
    assert(at[2] == 2);
}

/// The steps that make the table `chatroom`.
pub open spec fn chatroom_steps() -> Seq<Step> {
    seq![
        Step::Create(Table::Chatroom),
        Step::Index(
            Index {
                name: "idx_chatroom_id",
                table: "chatroom",
                columns: "account_id_sha, chatroom_id_sha",
            },
        ),
        Step::Ensure(Table::Chatroom),
    ]
}

/// The steps that make the table `chatroom`.
pub fn init_chatroom_table() -> (steps: Vec<Step>)
    ensures
        steps@ == chatroom_steps(),
{
    let mut steps: Vec<Step> = Vec::new();
    steps.push(Step::Create(Table::Chatroom));
    steps.push(Step::Index(
        Index {
            name: "idx_chatroom_id",
            table: "chatroom",
            columns: "account_id_sha, chatroom_id_sha",
        },
    ));
    steps.push(Step::Ensure(Table::Chatroom));
    assert(steps@ =~= chatroom_steps());
    steps
}

/// The statement that stores a row of the table `chatroom`, in place of the row with the same
/// key.
pub fn insert_chatroom(c: &V3Chatroom) -> (statement: Statement)
    ensures
        statement.does(Effect::Replace { table: "chatroom"@, row: c.row() }),
{
    let mut row = RowBuilder::new();
    row.text("account_id_sha", c.account_id_sha.as_str());
    row.text("source", c.source.as_str());
    row.text("source_native_id", c.source_native_id.as_str());
    row.text("chatroom_id_sha", c.chatroom_id_sha.as_str());
    row.text("account_id", c.account_id.as_str());
    row.text("chatroom_id", c.chatroom_id.as_str());
    row.nullable_text("owner_wxid", &c.owner_wxid);
    row.text("chatroom_name", c.chatroom_name.as_str());
    row.nullable_text("announcement", &c.announcement);
    row.integer("chatroom_name_len", c.chatroom_name_len);
    row.integer("announcement_len", c.announcement_len);
    row.integer("member_count", c.member_count);
    row.nullable_text("owner_wxid_sha", &c.owner_wxid_sha);
    row.nullable_text("announcement_editor", &c.announcement_editor);
    row.integer("announcement_publish_time", c.announcement_publish_time);
    row.nullable_text("xml_announcement", &c.xml_announcement);
    row.integer("chat_room_status", c.chat_room_status);
    row.nullable_text("chatroom_remark", &c.chatroom_remark);
    row.integer("chatroom_remark_len", c.chatroom_remark_len);
    row.flag("is_still_member", c.is_still_member);
    assert(row@ =~= c.row());
    row.replace_into("chatroom")
}

/// A member of a group chat: its current state, whoever came and went before.
#[derive(Clone, PartialEq, Eq)]
pub struct V3ChatroomMember {
    pub account_id_sha: String,
    pub source: String,
    pub source_native_id: String,
    pub chatroom_id_sha: String,
    pub member_wxid_sha: String,
    pub account_id: String,
    pub chatroom_id: String,
    pub member_wxid: String,
    pub display_name: Option<String>,
    pub display_name_len: i64,
    pub joined_at: Option<i64>,
    pub left_at: Option<i64>,
    pub is_in_group: bool,
    pub role: String,
    pub invited_by: Option<String>,
}

impl V3ChatroomMember {
    /// The row that it is stored as.
    pub open spec fn row(self) -> Row {
        seq![
            ("account_id_sha"@, Val::Text(self.account_id_sha@)),
            ("source"@, Val::Text(self.source@)),
            ("source_native_id"@, Val::Text(self.source_native_id@)),
            ("chatroom_id_sha"@, Val::Text(self.chatroom_id_sha@)),
            ("member_wxid_sha"@, Val::Text(self.member_wxid_sha@)),
            ("account_id"@, Val::Text(self.account_id@)),
            ("chatroom_id"@, Val::Text(self.chatroom_id@)),
            ("member_wxid"@, Val::Text(self.member_wxid@)),
            ("display_name"@, crate::sql::nullable_text(self.display_name)),
            ("display_name_len"@, Val::Integer(self.display_name_len as int)),
            ("joined_at"@, crate::sql::nullable_integer(self.joined_at)),
            ("left_at"@, crate::sql::nullable_integer(self.left_at)),
            ("is_in_group"@, crate::sql::flag(self.is_in_group)),
            ("role"@, Val::Text(self.role@)),
            ("invited_by"@, crate::sql::nullable_text(self.invited_by)),
        ]
    }

    /// How its fields are shown in a log.
    pub open spec fn shown(self) -> Seq<(&'static str, Shown)> {
        seq![
            ("account_id_sha", Shown::Text(self.account_id_sha)),
            ("source", Shown::Text(self.source)),
            ("source_native_id", Shown::Text(self.source_native_id)),
            ("chatroom_id_sha", Shown::Text(self.chatroom_id_sha)),
            ("member_wxid_sha", Shown::Text(self.member_wxid_sha)),
            ("account_id_sha8", Shown::Digest(self.account_id)),
            ("chatroom_id_sha8", Shown::Digest(self.chatroom_id)),
            ("member_wxid_sha8", Shown::Digest(self.member_wxid)),
            ("display_name_len", Shown::Integer(self.display_name_len)),
            ("joined_at", Shown::NullableInteger(self.joined_at)),
            ("left_at", Shown::NullableInteger(self.left_at)),
            ("is_in_group", Shown::Flag(self.is_in_group)),
            ("role", Shown::Text(self.role)),
            ("invited_by_sha8", Shown::NullableDigest(self.invited_by)),
        ]
    }

    /// What it shows of itself in a log.
    pub fn debug_row(&self) -> (row: DebugRow)
        ensures
            row.name@ == "V3ChatroomMember"@,
            row.fields@ == self.shown(),
            row.complete == false,
    {
        let mut fields: Vec<(&'static str, Shown)> = Vec::new();
        fields.push(("account_id_sha", Shown::Text(self.account_id_sha.clone())));
        fields.push(("source", Shown::Text(self.source.clone())));
        fields.push(("source_native_id", Shown::Text(self.source_native_id.clone())));
        fields.push(("chatroom_id_sha", Shown::Text(self.chatroom_id_sha.clone())));
        fields.push(("member_wxid_sha", Shown::Text(self.member_wxid_sha.clone())));
        fields.push(("account_id_sha8", Shown::Digest(self.account_id.clone())));
        fields.push(("chatroom_id_sha8", Shown::Digest(self.chatroom_id.clone())));
        fields.push(("member_wxid_sha8", Shown::Digest(self.member_wxid.clone())));
        fields.push(("display_name_len", Shown::Integer(self.display_name_len)));
        fields.push(("joined_at", Shown::NullableInteger(self.joined_at)));
        fields.push(("left_at", Shown::NullableInteger(self.left_at)));
        fields.push(("is_in_group", Shown::Flag(self.is_in_group)));
        fields.push(("role", Shown::Text(self.role.clone())));
        fields.push(("invited_by_sha8", Shown::NullableDigest(copy_text(&self.invited_by))));
        assert(fields@ =~= self.shown());
        DebugRow { name: "V3ChatroomMember", fields, complete: false }
    }
}

/// The columns of the table `chatroom_member`.
pub open spec fn chatroom_member_columns() -> Seq<Column> {
    seq![
        Column { name: "account_id_sha", decl: Decl::TextNotNull },
        Column { name: "source", decl: Decl::TextNotNull },
        Column { name: "source_native_id", decl: Decl::TextNotNull },
        Column { name: "chatroom_id_sha", decl: Decl::TextNotNull },
        Column { name: "member_wxid_sha", decl: Decl::TextNotNull },
        Column { name: "account_id", decl: Decl::TextNotNull },
        Column { name: "chatroom_id", decl: Decl::TextNotNull },
        Column { name: "member_wxid", decl: Decl::TextNotNull },
        Column { name: "display_name", decl: Decl::Text },
        Column { name: "display_name_len", decl: Decl::IntegerNotNull },
        Column { name: "joined_at", decl: Decl::Integer },
        Column { name: "left_at", decl: Decl::Integer },
        Column { name: "is_in_group", decl: Decl::IntegerDefault(1) },
        Column { name: "role", decl: Decl::TextDefault("member") },
        Column { name: "invited_by", decl: Decl::Text },
    ]
}

/// The columns of the table `chatroom_member`.
pub fn chatroom_member_table() -> (columns: Vec<Column>)
    ensures
        columns@ == chatroom_member_columns(),
{
    let mut columns: Vec<Column> = Vec::new();
    columns.push(Column { name: "account_id_sha", decl: Decl::TextNotNull });
    columns.push(Column { name: "source", decl: Decl::TextNotNull });
    columns.push(Column { name: "source_native_id", decl: Decl::TextNotNull });
    columns.push(Column { name: "chatroom_id_sha", decl: Decl::TextNotNull });
    columns.push(Column { name: "member_wxid_sha", decl: Decl::TextNotNull });
    columns.push(Column { name: "account_id", decl: Decl::TextNotNull });
    columns.push(Column { name: "chatroom_id", decl: Decl::TextNotNull });
    columns.push(Column { name: "member_wxid", decl: Decl::TextNotNull });
    columns.push(Column { name: "display_name", decl: Decl::Text });
    columns.push(Column { name: "display_name_len", decl: Decl::IntegerNotNull });
    columns.push(Column { name: "joined_at", decl: Decl::Integer });
    columns.push(Column { name: "left_at", decl: Decl::Integer });
    columns.push(Column { name: "is_in_group", decl: Decl::IntegerDefault(1) });
    columns.push(Column { name: "role", decl: Decl::TextDefault("member") });
    columns.push(Column { name: "invited_by", decl: Decl::Text });
    assert(columns@ =~= chatroom_member_columns());
    columns
}

/// The columns that came to the table `chatroom_member` later.
pub open spec fn chatroom_member_later_columns() -> Seq<Column> {
    seq![
        Column { name: "role", decl: Decl::TextDefault("member") },
        Column { name: "invited_by", decl: Decl::Text },
    ]
}

/// The statements that add to the table `chatroom_member` the later columns that it lacks.
pub fn ensure_chatroom_member_columns(existing: &Vec<String>) -> (statements: Vec<Statement>)
    ensures
        crate::schema::adds(
            statements@,
            "chatroom_member"@,
            crate::schema::missing(chatroom_member_later_columns(), crate::sql::strings(existing@)),
        ),
{
    let mut later: Vec<Column> = Vec::new();
    later.push(Column { name: "role", decl: Decl::TextDefault("member") });
    later.push(Column { name: "invited_by", decl: Decl::Text });
    assert(later@ =~= chatroom_member_later_columns());
    add_missing("chatroom_member", &later, existing)
}

/// Every later column of the table `chatroom_member` is one of its columns, and the rows that are
/// there when it is added have a value for it.
pub proof fn law_chatroom_member_later_columns_belong(i: int)
    requires
        0 <= i < chatroom_member_later_columns().len(),
    ensures
        crate::schema::column_names(chatroom_member_columns()).contains(chatroom_member_later_columns()[i].name@),
        chatroom_member_later_columns()[i].decl.fills_old_rows(),
{
    let all = crate::schema::column_names(chatroom_member_columns());
    assert(all[13] == "role"@);
    assert(all[14] == "invited_by"@);
}

/// The columns by which the table `chatroom_member` tells its rows apart.
pub open spec fn chatroom_member_key() -> Seq<Seq<char>> {
    seq!["account_id_sha"@, "source"@, "source_native_id"@]
}

/// A row fills the table: it has a value for every column, and for no other.
pub proof fn law_chatroom_member_row_fills_the_table(row: V3ChatroomMember)
    ensures
        crate::sql::names(row.row()) == crate::schema::column_names(chatroom_member_columns()),
{
    assert(crate::sql::names(row.row()) =~= crate::schema::column_names(chatroom_member_columns()));
}

/// Two rows of the table `chatroom_member` have the same key exactly where they agree in its fields.
pub proof fn law_chatroom_member_key_tells_rows_apart(a: V3ChatroomMember, b: V3ChatroomMember)
    ensures
        crate::relation::same_key(a.row(), b.row(), chatroom_member_key()) <==> {
            &&& a.account_id_sha@ == b.account_id_sha@
            &&& a.source@ == b.source@
            &&& a.source_native_id@ == b.source_native_id@
        },
{
    reveal_strlit("account_id_sha");
    reveal_strlit("source");
    reveal_strlit("source_native_id");
    let (x, y) = (a.row(), b.row());
    assert("account_id_sha"@.len() != "source"@.len());
    assert("account_id_sha"@.len() != "source_native_id"@.len());
    assert("source"@.len() != "source_native_id"@.len());
    let at: Seq<int> = seq![0int, 1, 2];
    crate::relation::lemma_same_key(x, y, chatroom_member_key(), at);
    assert(at[0] == 0);
    assert(at[1] == 1);
    assert(at[2] == 2);
}

/// The steps that make the table `chatroom_member`.
pub open spec fn chatroom_member_steps() -> Seq<Step> {
    seq![
        Step::Create(Table::ChatroomMember),
        Step::Index(
            Index {
                name: "idx_chatroom_member_chatroom",
                table: "chatroom_member",
                columns: "account_id_sha, chatroom_id_sha, is_in_group",
            },
        ),
        Step::Index(
            Index {
                name: "idx_chatroom_member_wxid",
                table: "chatroom_member",
                columns: "account_id_sha, member_wxid_sha",
            },
        ),
        Step::Ensure(Table::ChatroomMember),
    ]
}

/// The steps that make the table `chatroom_member`.
pub fn init_chatroom_member_table() -> (steps: Vec<Step>)
    ensures
        steps@ == chatroom_member_steps(),
{
    let mut steps: Vec<Step> = Vec::new();
    steps.push(Step::Create(Table::ChatroomMember));
    steps.push(Step::Index(
        Index {
            name: "idx_chatroom_member_chatroom",
            table: "chatroom_member",
            columns: "account_id_sha, chatroom_id_sha, is_in_group",
        },
    ));
    steps.push(Step::Index(
        Index {
            name: "idx_chatroom_member_wxid",
            table: "chatroom_member",
            columns: "account_id_sha, member_wxid_sha",
        },
    ));
    steps.push(Step::Ensure(Table::ChatroomMember));
    assert(steps@ =~= chatroom_member_steps());
    steps
}

/// The coming or going of a member that a message records. A message has one row for each of
/// them.
#[derive(Clone, PartialEq, Eq)]
pub struct V3ChatroomMemberEvent {
    pub account_id_sha: String,
    pub source: String,
    pub source_native_id: String,
    pub msg_native_id: String,
    pub conv_id_sha: String,
    pub member_wxid_sha: Option<String>,
    pub event_kind: String,
    pub inviter_wxid_sha: Option<String>,
    pub event_time: i64,
    pub account_id: String,
    pub conv_id: String,
    pub member_wxid: Option<String>,
    pub member_nickname: Option<String>,
    pub inviter_wxid: Option<String>,
}

impl V3ChatroomMemberEvent {
    /// The row that it is stored as.
    pub open spec fn row(self) -> Row {
        seq![
            ("account_id_sha"@, Val::Text(self.account_id_sha@)),
            ("source"@, Val::Text(self.source@)),
            ("source_native_id"@, Val::Text(self.source_native_id@)),
            ("msg_native_id"@, Val::Text(self.msg_native_id@)),
            ("conv_id_sha"@, Val::Text(self.conv_id_sha@)),
            ("member_wxid_sha"@, crate::sql::nullable_text(self.member_wxid_sha)),
            ("event_kind"@, Val::Text(self.event_kind@)),
            ("inviter_wxid_sha"@, crate::sql::nullable_text(self.inviter_wxid_sha)),
            ("event_time"@, Val::Integer(self.event_time as int)),
            ("account_id"@, Val::Text(self.account_id@)),
            ("conv_id"@, Val::Text(self.conv_id@)),
            ("member_wxid"@, crate::sql::nullable_text(self.member_wxid)),
            ("member_nickname"@, crate::sql::nullable_text(self.member_nickname)),
            ("inviter_wxid"@, crate::sql::nullable_text(self.inviter_wxid)),
        ]
    }

    /// How its fields are shown in a log.
    pub open spec fn shown(self) -> Seq<(&'static str, Shown)> {
        seq![
            ("account_id_sha", Shown::Text(self.account_id_sha)),
            ("source", Shown::Text(self.source)),
            ("source_native_id", Shown::Text(self.source_native_id)),
            ("msg_native_id", Shown::Text(self.msg_native_id)),
            ("conv_id_sha", Shown::Text(self.conv_id_sha)),
            ("member_wxid_sha", Shown::NullableText(self.member_wxid_sha)),
            ("event_kind", Shown::Text(self.event_kind)),
            ("inviter_wxid_sha", Shown::NullableText(self.inviter_wxid_sha)),
            ("event_time", Shown::Integer(self.event_time)),
            ("account_id_sha8", Shown::Digest(self.account_id)),
            ("conv_id_sha8", Shown::Digest(self.conv_id)),
            ("member_wxid_sha8", Shown::NullableDigest(self.member_wxid)),
            ("member_nickname_sha8", Shown::NullableDigest(self.member_nickname)),
            ("inviter_wxid_sha8", Shown::NullableDigest(self.inviter_wxid)),
        ]
    }

    /// What it shows of itself in a log.
    pub fn debug_row(&self) -> (row: DebugRow)
        ensures
            row.name@ == "V3ChatroomMemberEvent"@,
            row.fields@ == self.shown(),
            row.complete == true,
    {
        let mut fields: Vec<(&'static str, Shown)> = Vec::new();
        fields.push(("account_id_sha", Shown::Text(self.account_id_sha.clone())));
        fields.push(("source", Shown::Text(self.source.clone())));
        fields.push(("source_native_id", Shown::Text(self.source_native_id.clone())));
        fields.push(("msg_native_id", Shown::Text(self.msg_native_id.clone())));
        fields.push(("conv_id_sha", Shown::Text(self.conv_id_sha.clone())));
        fields.push(("member_wxid_sha", Shown::NullableText(copy_text(&self.member_wxid_sha))));
        fields.push(("event_kind", Shown::Text(self.event_kind.clone())));
        fields.push(("inviter_wxid_sha", Shown::NullableText(copy_text(&self.inviter_wxid_sha))));
        fields.push(("event_time", Shown::Integer(self.event_time)));
        fields.push(("account_id_sha8", Shown::Digest(self.account_id.clone())));
        fields.push(("conv_id_sha8", Shown::Digest(self.conv_id.clone())));
        fields.push(("member_wxid_sha8", Shown::NullableDigest(copy_text(&self.member_wxid))));
        fields.push(("member_nickname_sha8", Shown::NullableDigest(copy_text(&self.member_nickname))));
        fields.push(("inviter_wxid_sha8", Shown::NullableDigest(copy_text(&self.inviter_wxid))));
        assert(fields@ =~= self.shown());
        DebugRow { name: "V3ChatroomMemberEvent", fields, complete: true }
    }
}

/// The columns of the table `chatroom_member_event`.
pub open spec fn chatroom_member_event_columns() -> Seq<Column> {
    seq![
        Column { name: "account_id_sha", decl: Decl::TextNotNull },
        Column { name: "source", decl: Decl::TextNotNull },
        Column { name: "source_native_id", decl: Decl::TextNotNull },
        Column { name: "msg_native_id", decl: Decl::TextNotNull },
        Column { name: "conv_id_sha", decl: Decl::TextNotNull },
        Column { name: "member_wxid_sha", decl: Decl::Text },
        Column { name: "event_kind", decl: Decl::TextNotNull },
        Column { name: "inviter_wxid_sha", decl: Decl::Text },
        Column { name: "event_time", decl: Decl::IntegerNotNull },
        Column { name: "account_id", decl: Decl::TextNotNull },
        Column { name: "conv_id", decl: Decl::TextNotNull },
        Column { name: "member_wxid", decl: Decl::Text },
        Column { name: "member_nickname", decl: Decl::Text },
        Column { name: "inviter_wxid", decl: Decl::Text },
    ]
}

/// The columns of the table `chatroom_member_event`.
pub fn chatroom_member_event_table() -> (columns: Vec<Column>)
    ensures
        columns@ == chatroom_member_event_columns(),
{
    let mut columns: Vec<Column> = Vec::new();
    columns.push(Column { name: "account_id_sha", decl: Decl::TextNotNull });
    columns.push(Column { name: "source", decl: Decl::TextNotNull });
    columns.push(Column { name: "source_native_id", decl: Decl::TextNotNull });
    columns.push(Column { name: "msg_native_id", decl: Decl::TextNotNull });
    columns.push(Column { name: "conv_id_sha", decl: Decl::TextNotNull });
    columns.push(Column { name: "member_wxid_sha", decl: Decl::Text });
    columns.push(Column { name: "event_kind", decl: Decl::TextNotNull });
    columns.push(Column { name: "inviter_wxid_sha", decl: Decl::Text });
    columns.push(Column { name: "event_time", decl: Decl::IntegerNotNull });
    columns.push(Column { name: "account_id", decl: Decl::TextNotNull });
    columns.push(Column { name: "conv_id", decl: Decl::TextNotNull });
    columns.push(Column { name: "member_wxid", decl: Decl::Text });
    columns.push(Column { name: "member_nickname", decl: Decl::Text });
    columns.push(Column { name: "inviter_wxid", decl: Decl::Text });
    assert(columns@ =~= chatroom_member_event_columns());
    columns
}

/// The columns by which the table `chatroom_member_event` tells its rows apart.
pub open spec fn chatroom_member_event_key() -> Seq<Seq<char>> {
    seq!["account_id_sha"@, "source"@, "source_native_id"@]
}

/// A row fills the table: it has a value for every column, and for no other.
pub proof fn law_chatroom_member_event_row_fills_the_table(row: V3ChatroomMemberEvent)
    ensures
        crate::sql::names(row.row()) == crate::schema::column_names(chatroom_member_event_columns()),
{
    assert(crate::sql::names(row.row()) =~= crate::schema::column_names(chatroom_member_event_columns()));
}

/// Two rows of the table `chatroom_member_event` have the same key exactly where they agree in its fields.
pub proof fn law_chatroom_member_event_key_tells_rows_apart(a: V3ChatroomMemberEvent, b: V3ChatroomMemberEvent)
    ensures
        crate::relation::same_key(a.row(), b.row(), chatroom_member_event_key()) <==> {
            &&& a.account_id_sha@ == b.account_id_sha@
            &&& a.source@ == b.source@
            &&& a.source_native_id@ == b.source_native_id@
        },
{
    reveal_strlit("account_id_sha");
    reveal_strlit("source");
    reveal_strlit("source_native_id");
    let (x, y) = (a.row(), b.row());
    assert("account_id_sha"@.len() != "source"@.len());
    assert("account_id_sha"@.len() != "source_native_id"@.len());
    assert("source"@.len() != "source_native_id"@.len());
    let at: Seq<int> = seq![0int, 1, 2];
    crate::relation::lemma_same_key(x, y, chatroom_member_event_key(), at);
    assert(at[0] == 0);
    assert(at[1] == 1);
    assert(at[2] == 2);
}

/// The steps that make the table `chatroom_member_event`.
pub open spec fn chatroom_member_event_steps() -> Seq<Step> {
    seq![
        Step::Create(Table::ChatroomMemberEvent),
        Step::Index(
            Index {
                name: "idx_chatroom_member_event_conv",
                table: "chatroom_member_event",
                columns: "account_id_sha, conv_id_sha",
            },
        ),
        Step::Index(
            Index {
                name: "idx_chatroom_member_event_member",
                table: "chatroom_member_event",
                columns: "account_id_sha, member_wxid_sha",
            },
        ),
    ]
}

/// The steps that make the table `chatroom_member_event`.
pub fn init_chatroom_member_event_table() -> (steps: Vec<Step>)
    ensures
        steps@ == chatroom_member_event_steps(),
{
    let mut steps: Vec<Step> = Vec::new();
    steps.push(Step::Create(Table::ChatroomMemberEvent));
    steps.push(Step::Index(
        Index {
            name: "idx_chatroom_member_event_conv",
            table: "chatroom_member_event",
            columns: "account_id_sha, conv_id_sha",
        },
    ));
    steps.push(Step::Index(
        Index {
            name: "idx_chatroom_member_event_member",
            table: "chatroom_member_event",
            columns: "account_id_sha, member_wxid_sha",
        },
    ));
    assert(steps@ =~= chatroom_member_event_steps());
    steps
}

/// The statement that stores a row of the table `chatroom_member_event`, in place of the row with the same
/// key.
pub fn insert_chatroom_member_event(e: &V3ChatroomMemberEvent) -> (statement: Statement)
    ensures
        statement.does(Effect::Replace { table: "chatroom_member_event"@, row: e.row() }),
{
    let mut row = RowBuilder::new();
    row.text("account_id_sha", e.account_id_sha.as_str());
    row.text("source", e.source.as_str());
    row.text("source_native_id", e.source_native_id.as_str());
    row.text("msg_native_id", e.msg_native_id.as_str());
    row.text("conv_id_sha", e.conv_id_sha.as_str());
    row.nullable_text("member_wxid_sha", &e.member_wxid_sha);
    row.text("event_kind", e.event_kind.as_str());
    row.nullable_text("inviter_wxid_sha", &e.inviter_wxid_sha);
    row.integer("event_time", e.event_time);
    row.text("account_id", e.account_id.as_str());
    row.text("conv_id", e.conv_id.as_str());
    row.nullable_text("member_wxid", &e.member_wxid);
    row.nullable_text("member_nickname", &e.member_nickname);
    row.nullable_text("inviter_wxid", &e.inviter_wxid);
    assert(row@ =~= e.row());
    row.replace_into("chatroom_member_event")
}

/// The statement that takes out all rows of the table `chatroom_member_event` that belong to one
/// message.
pub fn delete_chatroom_member_events(account_id_sha: &str, source: &str, msg_native_id: &str) -> (statement: Statement)
    ensures
        statement.does(
            Effect::Delete {
                table: "chatroom_member_event"@,
                tests: crate::plan::belonging_to(
                    account_id_sha@,
                    source@,
                    "msg_native_id"@,
                    msg_native_id@,
                ),
            },
        ),
{
    delete_group("chatroom_member_event", account_id_sha, source, "msg_native_id", msg_native_id)
}

/// Storing a member who is in the group.
pub open spec fn adding(m: V3ChatroomMember) -> Effect {
    Effect::Merge { table: "chatroom_member"@, key: chatroom_member_key(), row: m.row() }
}

/// The statement that stores a member who is in the group. Every column but the key is set
/// anew, so that someone who comes back is a member again from then on.
pub fn upsert_chatroom_member_add(m: &V3ChatroomMember) -> (statement: Statement)
    ensures
        statement.does(adding(*m)),
{
    let mut row = RowBuilder::new();
    row.text("account_id_sha", m.account_id_sha.as_str());
    row.text("source", m.source.as_str());
    row.text("source_native_id", m.source_native_id.as_str());
    row.text("chatroom_id_sha", m.chatroom_id_sha.as_str());
    row.text("member_wxid_sha", m.member_wxid_sha.as_str());
    row.text("account_id", m.account_id.as_str());
    row.text("chatroom_id", m.chatroom_id.as_str());
    row.text("member_wxid", m.member_wxid.as_str());
    row.nullable_text("display_name", &m.display_name);
    row.integer("display_name_len", m.display_name_len);
    row.nullable_integer("joined_at", m.joined_at);
    row.nullable_integer("left_at", m.left_at);
    row.flag("is_in_group", m.is_in_group);
    row.text("role", m.role.as_str());
    row.nullable_text("invited_by", &m.invited_by);
    assert(row@ =~= m.row());
    let mut key: Vec<&'static str> = Vec::new();
    key.push("account_id_sha");
    key.push("source");
    key.push("source_native_id");
    assert(crate::sql::literals(key@) =~= chatroom_member_key());
    row.merge_into("chatroom_member", &key)
}

/// What is set when a member leaves. When the member came is kept.
pub open spec fn leaving(left_at: int) -> Row {
    seq![("is_in_group"@, Val::Integer(0)), ("left_at"@, Val::Integer(left_at))]
}

/// Marking a member as gone.
pub open spec fn marking(
    account_id_sha: Seq<char>,
    source: Seq<char>,
    source_native_id: Seq<char>,
    left_at: int,
) -> Effect {
    Effect::Update {
        table: "chatroom_member"@,
        set: leaving(left_at),
        tests: crate::plan::belonging_to(
            account_id_sha,
            source,
            "source_native_id"@,
            source_native_id,
        ),
    }
}

/// The statement that marks a member as gone. It changes no row where there is no such member.
pub fn mark_chatroom_member_left(
    account_id_sha: &str,
    source: &str,
    source_native_id: &str,
    left_at: i64,
) -> (statement: Statement)
    ensures
        statement.does(
            marking(account_id_sha@, source@, source_native_id@, left_at as int),
        ),
{
    let mut set = RowBuilder::new();
    set.integer("is_in_group", 0);
    set.integer("left_at", left_at);
    assert(set@ =~= leaving(left_at as int));
    let mut tests = TestsBuilder::new();
    tests.text("account_id_sha", Op::Is, account_id_sha);
    tests.text("source", Op::Is, source);
    tests.text("source_native_id", Op::Is, source_native_id);
    assert(tests@ =~= crate::plan::belonging_to(
        account_id_sha@,
        source@,
        "source_native_id"@,
        source_native_id@,
    ));
    set.update("chatroom_member", tests)
}

/// A member who is in a group, as read back for the comparison with the source.
#[derive(Clone, PartialEq, Eq)]
pub struct ChatroomMemberRef {
    pub member_wxid_sha: String,
    pub member_wxid: String,
    pub source_native_id: String,
}

impl ChatroomMemberRef {
    /// The values that it is read from.
    pub open spec fn values(self) -> Seq<Val> {
        seq![
            Val::Text(self.member_wxid_sha@),
            Val::Text(self.member_wxid@),
            Val::Text(self.source_native_id@),
        ]
    }

    /// How its fields are shown in a log.
    pub open spec fn shown(self) -> Seq<(&'static str, Shown)> {
        seq![
            ("member_wxid_sha", Shown::Text(self.member_wxid_sha)),
            ("source_native_id", Shown::Text(self.source_native_id)),
            ("member_wxid_sha8", Shown::Digest(self.member_wxid)),
        ]
    }

    /// What it shows of itself in a log.
    pub fn debug_row(&self) -> (row: DebugRow)
        ensures
            row.name@ == "ChatroomMemberRef"@,
            row.fields@ == self.shown(),
            row.complete == false,
    {
        let mut fields: Vec<(&'static str, Shown)> = Vec::new();
        fields.push(("member_wxid_sha", Shown::Text(self.member_wxid_sha.clone())));
        fields.push(("source_native_id", Shown::Text(self.source_native_id.clone())));
        fields.push(("member_wxid_sha8", Shown::Digest(self.member_wxid.clone())));
        assert(fields@ =~= self.shown());
        DebugRow { name: "ChatroomMemberRef", fields, complete: false }
    }
}

/// The tests for the members who are in a group now.
pub open spec fn in_group(
    account_id_sha: Seq<char>,
    source: Seq<char>,
    chatroom_id_sha: Seq<char>,
) -> Seq<Test> {
    seq![
        Test { column: "account_id_sha"@, op: Op::Is, value: Val::Text(account_id_sha) },
        Test { column: "source"@, op: Op::Is, value: Val::Text(source) },
        Test { column: "chatroom_id_sha"@, op: Op::Is, value: Val::Text(chatroom_id_sha) },
        Test { column: "is_in_group"@, op: Op::Is, value: Val::Integer(1) },
    ]
}

/// The columns of a member as read back.
pub open spec fn member_ref_columns() -> Seq<Seq<char>> {
    seq!["member_wxid_sha"@, "member_wxid"@, "source_native_id"@]
}

/// The query for the members who are in a group now.
pub open spec fn listing(
    account_id_sha: Seq<char>,
    source: Seq<char>,
    chatroom_id_sha: Seq<char>,
) -> Effect {
    Effect::Select {
        table: "chatroom_member"@,
        columns: member_ref_columns(),
        tests: in_group(account_id_sha, source, chatroom_id_sha),
        tail: Tail::All,
    }
}

/// The query for the members who are in a group now.
pub fn query_chatroom_members_in_group(
    account_id_sha: &str,
    source: &str,
    chatroom_id_sha: &str,
) -> (statement: Statement)
    ensures
        statement.does(listing(account_id_sha@, source@, chatroom_id_sha@)),
{
    let mut tests = TestsBuilder::new();
    tests.text("account_id_sha", Op::Is, account_id_sha);
    tests.text("source", Op::Is, source);
    tests.text("chatroom_id_sha", Op::Is, chatroom_id_sha);
    tests.integer("is_in_group", Op::Is, 1);
    assert(tests@ =~= in_group(account_id_sha@, source@, chatroom_id_sha@));
    let mut columns: Vec<&'static str> = Vec::new();
    columns.push("member_wxid_sha");
    columns.push("member_wxid");
    columns.push("source_native_id");
    assert(crate::sql::literals(columns@) =~= member_ref_columns());
    tests.select_from(&columns, "chatroom_member")
}

/// Values that can be those of a member as read back.
pub open spec fn is_member_ref(values: Seq<Val>) -> bool {
    values.len() == 3 && values[0] is Text && values[1] is Text && values[2] is Text
}

/// The member that was read back, from the values that were read; none where they are not those
/// of a member.
pub fn member_ref_from_row(values: &Vec<SqlValue>) -> (member: Option<ChatroomMemberRef>)
    ensures
        match member {
            Some(m) => values@.map_values(|v: SqlValue| v@) == m.values(),
            None => !is_member_ref(values@.map_values(|v: SqlValue| v@)),
        },
{
    let ghost views = values@.map_values(|v: SqlValue| v@);
    if values.len() != 3 {
        return None;
    }
    assert(views[0] == values@[0]@ && views[1] == values@[1]@ && views[2] == values@[2]@);
    match (&values[0], &values[1], &values[2]) {
        (
            SqlValue::Text(member_wxid_sha),
            SqlValue::Text(member_wxid),
            SqlValue::Text(source_native_id),
        ) => {
            let member = ChatroomMemberRef {
                member_wxid_sha: member_wxid_sha.clone(),
                member_wxid: member_wxid.clone(),
                source_native_id: source_native_id.clone(),
            };
            assert(views =~= member.values());
            Some(member)
        },
        _ => None,
    }
}

proof fn lemma_member_columns(m: V3ChatroomMember)
    ensures
        crate::relation::column(m.row(), "account_id_sha"@) == Val::Text(m.account_id_sha@),
        crate::relation::column(m.row(), "source"@) == Val::Text(m.source@),
        crate::relation::column(m.row(), "chatroom_id_sha"@) == Val::Text(m.chatroom_id_sha@),
        crate::relation::column(m.row(), "joined_at"@) == crate::sql::nullable_integer(m.joined_at),
        crate::relation::column(m.row(), "is_in_group"@) == crate::sql::flag(m.is_in_group),
        crate::relation::column(m.row(), "source_native_id"@) == Val::Text(m.source_native_id@),
        crate::relation::column(m.row(), "member_wxid_sha"@) == Val::Text(m.member_wxid_sha@),
        crate::relation::column(m.row(), "member_wxid"@) == Val::Text(m.member_wxid@),
{
    reveal_strlit("account_id_sha");
    reveal_strlit("source");
    reveal_strlit("source_native_id");
    reveal_strlit("chatroom_id_sha");
    reveal_strlit("member_wxid_sha");
    reveal_strlit("account_id");
    reveal_strlit("chatroom_id");
    reveal_strlit("member_wxid");
    reveal_strlit("display_name");
    reveal_strlit("display_name_len");
    reveal_strlit("joined_at");
    reveal_strlit("left_at");
    reveal_strlit("is_in_group");
    reveal_strlit("role");
    reveal_strlit("invited_by");
    let row = m.row();
    assert("chatroom_id_sha"@[0] != "member_wxid_sha"@[0]);
    assert("is_in_group"@[0] != "display_name"@[0]);
    crate::relation::lemma_column_at(row, 0);
    assert(row[0].0.len() == 14);
    crate::relation::lemma_column_at(row, 1);
    assert(row[1].0.len() == 6 && row[2].0.len() == 16 && row[3].0.len() == 15);
    crate::relation::lemma_column_at(row, 2);
    crate::relation::lemma_column_at(row, 3);
    crate::relation::lemma_column_at(row, 4);
    assert(row[4].0.len() == 15 && row[5].0.len() == 10 && row[7].0.len() == 11);
    assert(row[6].0[0] != row[7].0[0]);
    crate::relation::lemma_column_at(row, 7);
    assert(forall|j: int| 0 <= j < 10 ==> (#[trigger] row[j]).0.len() != 9);
    crate::relation::lemma_column_at(row, 10);
    crate::relation::lemma_column_at(row, 12);
}

/// A member who is in a group is found there.
pub proof fn law_member_is_found(m: V3ChatroomMember)
    requires
        m.is_in_group,
    ensures
        crate::relation::passes_all(
            m.row(),
            in_group(m.account_id_sha@, m.source@, m.chatroom_id_sha@),
        ),
{
    lemma_member_columns(m);
}

/// A member who leaves is not found in any group from then on, and the row still says when the
/// member came.
pub proof fn law_leaving_keeps_the_past(
    m: V3ChatroomMember,
    left_at: int,
    account_id_sha: Seq<char>,
    source: Seq<char>,
    chatroom_id_sha: Seq<char>,
)
    ensures
        ({
            let row = crate::relation::with_set(m.row(), leaving(left_at));
            &&& crate::relation::column(row, "is_in_group"@) == Val::Integer(0)
            &&& crate::relation::column(row, "left_at"@) == Val::Integer(left_at)
            &&& crate::relation::column(row, "joined_at"@) == crate::sql::nullable_integer(
                m.joined_at,
            )
            &&& !crate::relation::passes_all(row, in_group(account_id_sha, source, chatroom_id_sha))
        }),
{
    let set = leaving(left_at);
    let names = crate::sql::names(set);
    let row = crate::relation::with_set(m.row(), set);
    lemma_member_columns(m);
    reveal_strlit("is_in_group");
    reveal_strlit("left_at");
    reveal_strlit("joined_at");
    assert("joined_at"@[0] != "is_in_group"@[0]);
    assert(names[0] == "is_in_group"@ && names[1] == "left_at"@);
    assert(crate::sql::names(m.row())[12] == "is_in_group"@);
    assert(crate::sql::names(m.row())[11] == "left_at"@);
    crate::relation::lemma_column_at(set, 0);
    crate::relation::lemma_column_at(set, 1);
    crate::relation::law_update_sets_only_its_columns(m.row(), set, "is_in_group"@);
    crate::relation::law_update_sets_only_its_columns(m.row(), set, "left_at"@);
    crate::relation::law_update_sets_only_its_columns(m.row(), set, "joined_at"@);
    let tests = in_group(account_id_sha, source, chatroom_id_sha);
    assert(!crate::relation::passes(row, tests[3]));
}

/// A member who comes back starts anew: the row is the new one in every column, and it is the
/// only one of that member.
pub proof fn law_coming_back_starts_anew(rows: Seq<Row>, m: V3ChatroomMember)
    ensures
        ({
            let left = crate::relation::after(adding(m), rows, chatroom_member_key());
            &&& left.last() == m.row()
            &&& forall|i: int|
                0 <= i < left.len() - 1 ==> !crate::relation::same_key(
                    #[trigger] left[i],
                    m.row(),
                    chatroom_member_key(),
                )
        }),
{
    crate::relation::law_written_row_reads_back(
        "chatroom_member"@,
        rows,
        m.row(),
        chatroom_member_key(),
    );
}

/// A member who was stored as being in a group is listed there, with the names that were stored.
pub proof fn law_added_member_is_listed(rows: Seq<Row>, m: V3ChatroomMember, found: Seq<Row>)
    requires
        m.is_in_group,
        crate::relation::selected(
            listing(m.account_id_sha@, m.source@, m.chatroom_id_sha@),
            crate::relation::after(adding(m), rows, chatroom_member_key()),
            found,
        ),
    ensures
        found.contains(m.row()),
        crate::relation::projected(m.row(), member_ref_columns()) == seq![
            Val::Text(m.member_wxid_sha@),
            Val::Text(m.member_wxid@),
            Val::Text(m.source_native_id@),
        ],
{
    let left = crate::relation::after(adding(m), rows, chatroom_member_key());
    law_coming_back_starts_anew(rows, m);
    law_member_is_found(m);
    lemma_member_columns(m);
    assert(left[left.len() - 1] == m.row());
    crate::relation::law_query_finds_what_passes(
        listing(m.account_id_sha@, m.source@, m.chatroom_id_sha@),
        left,
        found,
        m.row(),
    );
    let read = crate::relation::projected(m.row(), member_ref_columns());
    let columns = member_ref_columns();
    assert(columns[0] == "member_wxid_sha"@ && columns[1] == "member_wxid"@ && columns[2]
        == "source_native_id"@);
    assert(read =~= seq![
        Val::Text(m.member_wxid_sha@),
        Val::Text(m.member_wxid@),
        Val::Text(m.source_native_id@),
    ]);
}

/// A member who was marked as gone is listed in no group.
pub proof fn law_gone_member_is_not_listed(
    rows: Seq<Row>,
    m: V3ChatroomMember,
    left_at: int,
    chatroom_id_sha: Seq<char>,
    found: Seq<Row>,
    row: Row,
)
    requires
        forall|i: int|
            0 <= i < rows.len() ==> crate::sql::names(#[trigger] rows[i]) == crate::sql::names(
                m.row(),
            ),
        crate::relation::selected(
            listing(m.account_id_sha@, m.source@, chatroom_id_sha),
            crate::relation::after(
                marking(m.account_id_sha@, m.source@, m.source_native_id@, left_at),
                rows,
                chatroom_member_key(),
            ),
            found,
        ),
        found.contains(row),
    ensures
        !crate::relation::same_key(row, m.row(), chatroom_member_key()),
        rows.contains(row),
{
    let effect = marking(m.account_id_sha@, m.source@, m.source_native_id@, left_at);
    let tests = crate::plan::belonging_to(
        m.account_id_sha@,
        m.source@,
        "source_native_id"@,
        m.source_native_id@,
    );
    let set = leaving(left_at);
    let listed = in_group(m.account_id_sha@, m.source@, chatroom_id_sha);
    let left = crate::relation::after(effect, rows, chatroom_member_key());
    crate::relation::law_query_finds_what_passes(
        listing(m.account_id_sha@, m.source@, chatroom_id_sha),
        left,
        found,
        row,
    );
    let i = choose|i: int| 0 <= i < left.len() && left[i] == row;
    let old_row = rows[i];
    assert(crate::relation::passes(row, listed[3]));
    crate::plan::law_group_is_the_rows_of_one_thing(
        old_row,
        m.account_id_sha@,
        m.source@,
        "source_native_id"@,
        m.source_native_id@,
    );
    if crate::relation::passes_all(old_row, tests) {
        assert(crate::sql::names(m.row())[12] == "is_in_group"@);
        assert(crate::sql::names(set)[0] == "is_in_group"@);
        crate::relation::lemma_column_at(set, 0);
        crate::relation::law_update_sets_only_its_columns(old_row, set, "is_in_group"@);
    }
    assert(row == old_row);
    lemma_member_columns(m);
    if crate::relation::same_key(row, m.row(), chatroom_member_key()) {
        let key = chatroom_member_key();
        assert(crate::relation::column(row, key[0]) == crate::relation::column(m.row(), key[0]));
        assert(crate::relation::column(row, key[1]) == crate::relation::column(m.row(), key[1]));
        assert(crate::relation::column(row, key[2]) == crate::relation::column(m.row(), key[2]));
    }
}

/// Every field is stored under its own name: the row that `insert_chatroom` puts in holds in each
/// column the field of that column.
pub proof fn law_chatroom_fields_keep_their_names(m: &V3Chatroom, statement: Statement)
    requires
        call_ensures(insert_chatroom, (m,), statement),
    ensures
        statement.does(Effect::Replace { table: "chatroom"@, row: m.row() }),
        m.row().len() == 20,
        crate::relation::column(m.row(), "account_id_sha"@) == Val::Text(m.account_id_sha@),
        crate::relation::column(m.row(), "source"@) == Val::Text(m.source@),
        crate::relation::column(m.row(), "source_native_id"@) == Val::Text(m.source_native_id@),
        crate::relation::column(m.row(), "chatroom_id_sha"@) == Val::Text(m.chatroom_id_sha@),
        crate::relation::column(m.row(), "account_id"@) == Val::Text(m.account_id@),
        crate::relation::column(m.row(), "chatroom_id"@) == Val::Text(m.chatroom_id@),
        crate::relation::column(m.row(), "owner_wxid"@) == (match m.owner_wxid { Some(t) => Val::Text(t@), None => Val::Null }),
        crate::relation::column(m.row(), "chatroom_name"@) == Val::Text(m.chatroom_name@),
        crate::relation::column(m.row(), "announcement"@) == (match m.announcement { Some(t) => Val::Text(t@), None => Val::Null }),
        crate::relation::column(m.row(), "chatroom_name_len"@) == Val::Integer(m.chatroom_name_len as int),
        crate::relation::column(m.row(), "announcement_len"@) == Val::Integer(m.announcement_len as int),
        crate::relation::column(m.row(), "member_count"@) == Val::Integer(m.member_count as int),
        crate::relation::column(m.row(), "owner_wxid_sha"@) == (match m.owner_wxid_sha { Some(t) => Val::Text(t@), None => Val::Null }),
        crate::relation::column(m.row(), "announcement_editor"@) == (match m.announcement_editor { Some(t) => Val::Text(t@), None => Val::Null }),
        crate::relation::column(m.row(), "announcement_publish_time"@) == Val::Integer(m.announcement_publish_time as int),
        crate::relation::column(m.row(), "xml_announcement"@) == (match m.xml_announcement { Some(t) => Val::Text(t@), None => Val::Null }),
        crate::relation::column(m.row(), "chat_room_status"@) == Val::Integer(m.chat_room_status as int),
        crate::relation::column(m.row(), "chatroom_remark"@) == (match m.chatroom_remark { Some(t) => Val::Text(t@), None => Val::Null }),
        crate::relation::column(m.row(), "chatroom_remark_len"@) == Val::Integer(m.chatroom_remark_len as int),
        crate::relation::column(m.row(), "is_still_member"@) == Val::Integer(if m.is_still_member { 1 } else { 0 }),
{
    reveal_strlit("account_id_sha");
    reveal_strlit("source");
    reveal_strlit("source_native_id");
    reveal_strlit("chatroom_id_sha");
    reveal_strlit("account_id");
    reveal_strlit("chatroom_id");
    reveal_strlit("owner_wxid");
    reveal_strlit("chatroom_name");
    reveal_strlit("announcement");
    reveal_strlit("chatroom_name_len");
    reveal_strlit("announcement_len");
    reveal_strlit("member_count");
    reveal_strlit("owner_wxid_sha");
    reveal_strlit("announcement_editor");
    reveal_strlit("announcement_publish_time");
    reveal_strlit("xml_announcement");
    reveal_strlit("chat_room_status");
    reveal_strlit("chatroom_remark");
    reveal_strlit("chatroom_remark_len");
    reveal_strlit("is_still_member");
    let row = m.row();
    assert(row[0].0.len() == 14 && row[1].0.len() == 6 && row[2].0.len() == 16);
    assert(row[3].0.len() == 15 && row[4].0.len() == 10 && row[5].0.len() == 11);
    assert(row[6].0.len() == 10 && row[7].0.len() == 13 && row[8].0.len() == 12);
    assert(row[9].0.len() == 17 && row[10].0.len() == 16 && row[11].0.len() == 12);
    assert(row[12].0.len() == 14 && row[13].0.len() == 19 && row[14].0.len() == 25);
    assert(row[15].0.len() == 16 && row[16].0.len() == 16 && row[17].0.len() == 15);
    assert(row[18].0.len() == 19 && row[19].0.len() == 15);
    assert(row[4].0[0] != row[6].0[0]);
    assert(row[2].0[0] != row[10].0[0]);
    assert(row[8].0[0] != row[11].0[0]);
    assert(row[0].0[0] != row[12].0[0]);
    assert(row[2].0[0] != row[15].0[0]);
    assert(row[10].0[0] != row[15].0[0]);
    assert(row[2].0[0] != row[16].0[0]);
    assert(row[10].0[0] != row[16].0[0]);
    assert(row[15].0[0] != row[16].0[0]);
    assert(row[3].0[9] != row[17].0[9]);
    assert(row[13].0[0] != row[18].0[0]);
    assert(row[3].0[0] != row[19].0[0]);
    assert(row[17].0[0] != row[19].0[0]);
    crate::relation::lemma_column_at(row, 0);
    crate::relation::lemma_column_at(row, 1);
    crate::relation::lemma_column_at(row, 2);
    crate::relation::lemma_column_at(row, 3);
    crate::relation::lemma_column_at(row, 4);
    crate::relation::lemma_column_at(row, 5);
    crate::relation::lemma_column_at(row, 6);
    crate::relation::lemma_column_at(row, 7);
    crate::relation::lemma_column_at(row, 8);
    crate::relation::lemma_column_at(row, 9);
    crate::relation::lemma_column_at(row, 10);
    crate::relation::lemma_column_at(row, 11);
    crate::relation::lemma_column_at(row, 12);
    crate::relation::lemma_column_at(row, 13);
    crate::relation::lemma_column_at(row, 14);
    crate::relation::lemma_column_at(row, 15);
    crate::relation::lemma_column_at(row, 16);
    crate::relation::lemma_column_at(row, 17);
    crate::relation::lemma_column_at(row, 18);
    crate::relation::lemma_column_at(row, 19);
}


/// Every field is stored under its own name: the row that `upsert_chatroom_member_add` puts in holds in each
/// column the field of that column.
pub proof fn law_chatroom_member_fields_keep_their_names(m: &V3ChatroomMember, statement: Statement)
    requires
        call_ensures(upsert_chatroom_member_add, (m,), statement),
    ensures
        statement.does(Effect::Merge { table: "chatroom_member"@, key: chatroom_member_key(), row: m.row() }),
        m.row().len() == 15,
        crate::relation::column(m.row(), "account_id_sha"@) == Val::Text(m.account_id_sha@),
        crate::relation::column(m.row(), "source"@) == Val::Text(m.source@),
        crate::relation::column(m.row(), "source_native_id"@) == Val::Text(m.source_native_id@),
        crate::relation::column(m.row(), "chatroom_id_sha"@) == Val::Text(m.chatroom_id_sha@),
        crate::relation::column(m.row(), "member_wxid_sha"@) == Val::Text(m.member_wxid_sha@),
        crate::relation::column(m.row(), "account_id"@) == Val::Text(m.account_id@),
        crate::relation::column(m.row(), "chatroom_id"@) == Val::Text(m.chatroom_id@),
        crate::relation::column(m.row(), "member_wxid"@) == Val::Text(m.member_wxid@),
        crate::relation::column(m.row(), "display_name"@) == (match m.display_name { Some(t) => Val::Text(t@), None => Val::Null }),
        crate::relation::column(m.row(), "display_name_len"@) == Val::Integer(m.display_name_len as int),
        crate::relation::column(m.row(), "joined_at"@) == (match m.joined_at { Some(n) => Val::Integer(n as int), None => Val::Null }),
        crate::relation::column(m.row(), "left_at"@) == (match m.left_at { Some(n) => Val::Integer(n as int), None => Val::Null }),
        crate::relation::column(m.row(), "is_in_group"@) == Val::Integer(if m.is_in_group { 1 } else { 0 }),
        crate::relation::column(m.row(), "role"@) == Val::Text(m.role@),
        crate::relation::column(m.row(), "invited_by"@) == (match m.invited_by { Some(t) => Val::Text(t@), None => Val::Null }),
{
    reveal_strlit("account_id_sha");
    reveal_strlit("source");
    reveal_strlit("source_native_id");
    reveal_strlit("chatroom_id_sha");
    reveal_strlit("member_wxid_sha");
    reveal_strlit("account_id");
    reveal_strlit("chatroom_id");
    reveal_strlit("member_wxid");
    reveal_strlit("display_name");
    reveal_strlit("display_name_len");
    reveal_strlit("joined_at");
    reveal_strlit("left_at");
    reveal_strlit("is_in_group");
    reveal_strlit("role");
    reveal_strlit("invited_by");
    let row = m.row();
    assert(row[0].0.len() == 14 && row[1].0.len() == 6 && row[2].0.len() == 16);
    assert(row[3].0.len() == 15 && row[4].0.len() == 15 && row[5].0.len() == 10);
    assert(row[6].0.len() == 11 && row[7].0.len() == 11 && row[8].0.len() == 12);
    assert(row[9].0.len() == 16 && row[10].0.len() == 9 && row[11].0.len() == 7);
    assert(row[12].0.len() == 11 && row[13].0.len() == 4 && row[14].0.len() == 10);
    assert(row[3].0[0] != row[4].0[0]);
    assert(row[6].0[0] != row[7].0[0]);
    assert(row[2].0[0] != row[9].0[0]);
    assert(row[6].0[0] != row[12].0[0]);
    assert(row[7].0[0] != row[12].0[0]);
    assert(row[5].0[0] != row[14].0[0]);
    crate::relation::lemma_column_at(row, 0);
    crate::relation::lemma_column_at(row, 1);
    crate::relation::lemma_column_at(row, 2);
    crate::relation::lemma_column_at(row, 3);
    crate::relation::lemma_column_at(row, 4);
    crate::relation::lemma_column_at(row, 5);
    crate::relation::lemma_column_at(row, 6);
    crate::relation::lemma_column_at(row, 7);
    crate::relation::lemma_column_at(row, 8);
    crate::relation::lemma_column_at(row, 9);
    crate::relation::lemma_column_at(row, 10);
    crate::relation::lemma_column_at(row, 11);
    crate::relation::lemma_column_at(row, 12);
    crate::relation::lemma_column_at(row, 13);
    crate::relation::lemma_column_at(row, 14);
}


/// Every field is stored under its own name: the row that `insert_chatroom_member_event` puts in holds in each
/// column the field of that column.
pub proof fn law_chatroom_member_event_fields_keep_their_names(m: &V3ChatroomMemberEvent, statement: Statement)
    requires
        call_ensures(insert_chatroom_member_event, (m,), statement),
    ensures
        statement.does(Effect::Replace { table: "chatroom_member_event"@, row: m.row() }),
        m.row().len() == 14,
        crate::relation::column(m.row(), "account_id_sha"@) == Val::Text(m.account_id_sha@),
        crate::relation::column(m.row(), "source"@) == Val::Text(m.source@),
        crate::relation::column(m.row(), "source_native_id"@) == Val::Text(m.source_native_id@),
        crate::relation::column(m.row(), "msg_native_id"@) == Val::Text(m.msg_native_id@),
        crate::relation::column(m.row(), "conv_id_sha"@) == Val::Text(m.conv_id_sha@),
        crate::relation::column(m.row(), "member_wxid_sha"@) == (match m.member_wxid_sha { Some(t) => Val::Text(t@), None => Val::Null }),
        crate::relation::column(m.row(), "event_kind"@) == Val::Text(m.event_kind@),
        crate::relation::column(m.row(), "inviter_wxid_sha"@) == (match m.inviter_wxid_sha { Some(t) => Val::Text(t@), None => Val::Null }),
        crate::relation::column(m.row(), "event_time"@) == Val::Integer(m.event_time as int),
        crate::relation::column(m.row(), "account_id"@) == Val::Text(m.account_id@),
        crate::relation::column(m.row(), "conv_id"@) == Val::Text(m.conv_id@),
        crate::relation::column(m.row(), "member_wxid"@) == (match m.member_wxid { Some(t) => Val::Text(t@), None => Val::Null }),
        crate::relation::column(m.row(), "member_nickname"@) == (match m.member_nickname { Some(t) => Val::Text(t@), None => Val::Null }),
        crate::relation::column(m.row(), "inviter_wxid"@) == (match m.inviter_wxid { Some(t) => Val::Text(t@), None => Val::Null }),
{
    reveal_strlit("account_id_sha");
    reveal_strlit("source");
    reveal_strlit("source_native_id");
    reveal_strlit("msg_native_id");
    reveal_strlit("conv_id_sha");
    reveal_strlit("member_wxid_sha");
    reveal_strlit("event_kind");
    reveal_strlit("inviter_wxid_sha");
    reveal_strlit("event_time");
    reveal_strlit("account_id");
    reveal_strlit("conv_id");
    reveal_strlit("member_wxid");
    reveal_strlit("member_nickname");
    reveal_strlit("inviter_wxid");
    let row = m.row();
    assert(row[0].0.len() == 14 && row[1].0.len() == 6 && row[2].0.len() == 16);
    assert(row[3].0.len() == 13 && row[4].0.len() == 11 && row[5].0.len() == 15);
    assert(row[6].0.len() == 10 && row[7].0.len() == 16 && row[8].0.len() == 10);
    assert(row[9].0.len() == 10 && row[10].0.len() == 7 && row[11].0.len() == 11);
    assert(row[12].0.len() == 15 && row[13].0.len() == 12);
    assert(row[2].0[0] != row[7].0[0]);
    assert(row[6].0[6] != row[8].0[6]);
    assert(row[6].0[0] != row[9].0[0]);
    assert(row[8].0[0] != row[9].0[0]);
    assert(row[4].0[0] != row[11].0[0]);
    assert(row[5].0[7] != row[12].0[7]);
    crate::relation::lemma_column_at(row, 0);
    crate::relation::lemma_column_at(row, 1);
    crate::relation::lemma_column_at(row, 2);
    crate::relation::lemma_column_at(row, 3);
    crate::relation::lemma_column_at(row, 4);
    crate::relation::lemma_column_at(row, 5);
    crate::relation::lemma_column_at(row, 6);
    crate::relation::lemma_column_at(row, 7);
    crate::relation::lemma_column_at(row, 8);
    crate::relation::lemma_column_at(row, 9);
    crate::relation::lemma_column_at(row, 10);
    crate::relation::lemma_column_at(row, 11);
    crate::relation::lemma_column_at(row, 12);
    crate::relation::lemma_column_at(row, 13);
}


/// What a log shows of `V3Chatroom`: each of these fields under its name, in the form that is said
/// here, and nothing else. What is not shown as it is stays hidden.
pub proof fn law_chatroom_shows_only_these_fields(m: &V3Chatroom, row: DebugRow)
    requires
        call_ensures(V3Chatroom::debug_row, (m,), row),
    ensures
        row.name@ == "V3Chatroom"@,
        row.complete == false,
        row.fields@.len() == 17,
        row.fields@.contains(("account_id_sha", Shown::Text(m.account_id_sha))),
        row.fields@.contains(("source", Shown::Text(m.source))),
        row.fields@.contains(("source_native_id", Shown::Text(m.source_native_id))),
        row.fields@.contains(("chatroom_id_sha", Shown::Text(m.chatroom_id_sha))),
        row.fields@.contains(("account_id_sha8", Shown::Digest(m.account_id))),
        row.fields@.contains(("chatroom_id_sha8", Shown::Digest(m.chatroom_id))),
        row.fields@.contains(("owner_wxid_sha8", Shown::NullableDigest(m.owner_wxid))),
        row.fields@.contains(("chatroom_name_len", Shown::Integer(m.chatroom_name_len))),
        row.fields@.contains(("announcement_len", Shown::Integer(m.announcement_len))),
        row.fields@.contains(("member_count", Shown::Integer(m.member_count))),
        row.fields@.contains(("owner_wxid_sha", Shown::NullableText(m.owner_wxid_sha))),
        row.fields@.contains(("announcement_editor_sha8", Shown::NullableDigest(m.announcement_editor))),
        row.fields@.contains(("announcement_publish_time", Shown::Integer(m.announcement_publish_time))),
        row.fields@.contains(("xml_announcement_len", Shown::Count((match m.xml_announcement { Some(t) => t@.len() as usize, None => 0 })))),
        row.fields@.contains(("chat_room_status", Shown::Integer(m.chat_room_status))),
        row.fields@.contains(("chatroom_remark_len", Shown::Integer(m.chatroom_remark_len))),
        row.fields@.contains(("is_still_member", Shown::Flag(m.is_still_member))),
{
    let fields = row.fields@;
    assert(fields[0] == ("account_id_sha", Shown::Text(m.account_id_sha)));
    assert(fields[1] == ("source", Shown::Text(m.source)));
    assert(fields[2] == ("source_native_id", Shown::Text(m.source_native_id)));
    assert(fields[3] == ("chatroom_id_sha", Shown::Text(m.chatroom_id_sha)));
    assert(fields[4] == ("account_id_sha8", Shown::Digest(m.account_id)));
    assert(fields[5] == ("chatroom_id_sha8", Shown::Digest(m.chatroom_id)));
    assert(fields[6] == ("owner_wxid_sha8", Shown::NullableDigest(m.owner_wxid)));
    assert(fields[7] == ("chatroom_name_len", Shown::Integer(m.chatroom_name_len)));
    assert(fields[8] == ("announcement_len", Shown::Integer(m.announcement_len)));
    assert(fields[9] == ("member_count", Shown::Integer(m.member_count)));
    assert(fields[10] == ("owner_wxid_sha", Shown::NullableText(m.owner_wxid_sha)));
    assert(fields[11] == ("announcement_editor_sha8", Shown::NullableDigest(m.announcement_editor)));
    assert(fields[12] == ("announcement_publish_time", Shown::Integer(m.announcement_publish_time)));
    assert(fields[13] == ("xml_announcement_len", Shown::Count((match m.xml_announcement { Some(t) => t@.len() as usize, None => 0 }))));
    assert(fields[14] == ("chat_room_status", Shown::Integer(m.chat_room_status)));
    assert(fields[15] == ("chatroom_remark_len", Shown::Integer(m.chatroom_remark_len)));
    assert(fields[16] == ("is_still_member", Shown::Flag(m.is_still_member)));
}

/// What a log shows of `V3ChatroomMember`: each of these fields under its name, in the form that is said
/// here, and nothing else. What is not shown as it is stays hidden.
pub proof fn law_chatroom_member_shows_only_these_fields(m: &V3ChatroomMember, row: DebugRow)
    requires
        call_ensures(V3ChatroomMember::debug_row, (m,), row),
    ensures
        row.name@ == "V3ChatroomMember"@,
        row.complete == false,
        row.fields@.len() == 14,
        row.fields@.contains(("account_id_sha", Shown::Text(m.account_id_sha))),
        row.fields@.contains(("source", Shown::Text(m.source))),
        row.fields@.contains(("source_native_id", Shown::Text(m.source_native_id))),
        row.fields@.contains(("chatroom_id_sha", Shown::Text(m.chatroom_id_sha))),
        row.fields@.contains(("member_wxid_sha", Shown::Text(m.member_wxid_sha))),
        row.fields@.contains(("account_id_sha8", Shown::Digest(m.account_id))),
        row.fields@.contains(("chatroom_id_sha8", Shown::Digest(m.chatroom_id))),
        row.fields@.contains(("member_wxid_sha8", Shown::Digest(m.member_wxid))),
        row.fields@.contains(("display_name_len", Shown::Integer(m.display_name_len))),
        row.fields@.contains(("joined_at", Shown::NullableInteger(m.joined_at))),
        row.fields@.contains(("left_at", Shown::NullableInteger(m.left_at))),
        row.fields@.contains(("is_in_group", Shown::Flag(m.is_in_group))),
        row.fields@.contains(("role", Shown::Text(m.role))),
        row.fields@.contains(("invited_by_sha8", Shown::NullableDigest(m.invited_by))),
{
    let fields = row.fields@;
    assert(fields[0] == ("account_id_sha", Shown::Text(m.account_id_sha)));
    assert(fields[1] == ("source", Shown::Text(m.source)));
    assert(fields[2] == ("source_native_id", Shown::Text(m.source_native_id)));
    assert(fields[3] == ("chatroom_id_sha", Shown::Text(m.chatroom_id_sha)));
    assert(fields[4] == ("member_wxid_sha", Shown::Text(m.member_wxid_sha)));
    assert(fields[5] == ("account_id_sha8", Shown::Digest(m.account_id)));
    assert(fields[6] == ("chatroom_id_sha8", Shown::Digest(m.chatroom_id)));
    assert(fields[7] == ("member_wxid_sha8", Shown::Digest(m.member_wxid)));
    assert(fields[8] == ("display_name_len", Shown::Integer(m.display_name_len)));
    assert(fields[9] == ("joined_at", Shown::NullableInteger(m.joined_at)));
    assert(fields[10] == ("left_at", Shown::NullableInteger(m.left_at)));
    assert(fields[11] == ("is_in_group", Shown::Flag(m.is_in_group)));
    assert(fields[12] == ("role", Shown::Text(m.role)));
    assert(fields[13] == ("invited_by_sha8", Shown::NullableDigest(m.invited_by)));
}

/// What a log shows of `V3ChatroomMemberEvent`: each of these fields under its name, in the form that is said
/// here, and nothing else. What is not shown as it is stays hidden.
pub proof fn law_chatroom_member_event_shows_only_these_fields(m: &V3ChatroomMemberEvent, row: DebugRow)
    requires
        call_ensures(V3ChatroomMemberEvent::debug_row, (m,), row),
    ensures
        row.name@ == "V3ChatroomMemberEvent"@,
        row.complete == true,
        row.fields@.len() == 14,
        row.fields@.contains(("account_id_sha", Shown::Text(m.account_id_sha))),
        row.fields@.contains(("source", Shown::Text(m.source))),
        row.fields@.contains(("source_native_id", Shown::Text(m.source_native_id))),
        row.fields@.contains(("msg_native_id", Shown::Text(m.msg_native_id))),
        row.fields@.contains(("conv_id_sha", Shown::Text(m.conv_id_sha))),
        row.fields@.contains(("member_wxid_sha", Shown::NullableText(m.member_wxid_sha))),
        row.fields@.contains(("event_kind", Shown::Text(m.event_kind))),
        row.fields@.contains(("inviter_wxid_sha", Shown::NullableText(m.inviter_wxid_sha))),
        row.fields@.contains(("event_time", Shown::Integer(m.event_time))),
        row.fields@.contains(("account_id_sha8", Shown::Digest(m.account_id))),
        row.fields@.contains(("conv_id_sha8", Shown::Digest(m.conv_id))),
        row.fields@.contains(("member_wxid_sha8", Shown::NullableDigest(m.member_wxid))),
        row.fields@.contains(("member_nickname_sha8", Shown::NullableDigest(m.member_nickname))),
        row.fields@.contains(("inviter_wxid_sha8", Shown::NullableDigest(m.inviter_wxid))),
{
    let fields = row.fields@;
    assert(fields[0] == ("account_id_sha", Shown::Text(m.account_id_sha)));
    assert(fields[1] == ("source", Shown::Text(m.source)));
    assert(fields[2] == ("source_native_id", Shown::Text(m.source_native_id)));
    assert(fields[3] == ("msg_native_id", Shown::Text(m.msg_native_id)));
    assert(fields[4] == ("conv_id_sha", Shown::Text(m.conv_id_sha)));
    assert(fields[5] == ("member_wxid_sha", Shown::NullableText(m.member_wxid_sha)));
    assert(fields[6] == ("event_kind", Shown::Text(m.event_kind)));
    assert(fields[7] == ("inviter_wxid_sha", Shown::NullableText(m.inviter_wxid_sha)));
    assert(fields[8] == ("event_time", Shown::Integer(m.event_time)));
    assert(fields[9] == ("account_id_sha8", Shown::Digest(m.account_id)));
    assert(fields[10] == ("conv_id_sha8", Shown::Digest(m.conv_id)));
    assert(fields[11] == ("member_wxid_sha8", Shown::NullableDigest(m.member_wxid)));
    assert(fields[12] == ("member_nickname_sha8", Shown::NullableDigest(m.member_nickname)));
    assert(fields[13] == ("inviter_wxid_sha8", Shown::NullableDigest(m.inviter_wxid)));
}

/// What a log shows of `ChatroomMemberRef`: each of these fields under its name, in the form that is said
/// here, and nothing else. What is not shown as it is stays hidden.
pub proof fn law_chatroom_member_ref_shows_only_these_fields(m: &ChatroomMemberRef, row: DebugRow)
    requires
        call_ensures(ChatroomMemberRef::debug_row, (m,), row),
    ensures
        row.name@ == "ChatroomMemberRef"@,
        row.complete == false,
        row.fields@.len() == 3,
        row.fields@.contains(("member_wxid_sha", Shown::Text(m.member_wxid_sha))),
        row.fields@.contains(("source_native_id", Shown::Text(m.source_native_id))),
        row.fields@.contains(("member_wxid_sha8", Shown::Digest(m.member_wxid))),
{
    let fields = row.fields@;
    assert(fields[0] == ("member_wxid_sha", Shown::Text(m.member_wxid_sha)));
    assert(fields[1] == ("source_native_id", Shown::Text(m.source_native_id)));
    assert(fields[2] == ("member_wxid_sha8", Shown::Digest(m.member_wxid)));
}

/// `delete_chatroom_member_events` takes out exactly the rows of the thing that it is given: those with its account,
/// its source and its name.
pub proof fn law_delete_chatroom_member_events_takes_exactly_its_rows(
    account_id_sha: &str,
    source: &str,
    id: &str,
    statement: Statement,
)
    requires
        call_ensures(delete_chatroom_member_events, (account_id_sha, source, id), statement),
    ensures
        exists|tests: Seq<crate::sql::Test>|
            {
                &&& #[trigger] statement.does(Effect::Delete { table: "chatroom_member_event"@, tests })
                &&& forall|m: V3ChatroomMemberEvent| #[trigger]
                    crate::relation::passes_all(m.row(), tests) <==> {
                        &&& m.account_id_sha@ == account_id_sha@
                        &&& m.source@ == source@
                        &&& m.msg_native_id@ == id@
                    }
            },
{
    reveal_strlit("account_id_sha");
    reveal_strlit("source");
    reveal_strlit("source_native_id");
    reveal_strlit("msg_native_id");
    let tests = crate::plan::belonging_to(account_id_sha@, source@, "msg_native_id"@, id@);
    assert forall|m: V3ChatroomMemberEvent| #[trigger] crate::relation::passes_all(m.row(), tests) <==> {
        &&& m.account_id_sha@ == account_id_sha@
        &&& m.source@ == source@
        &&& m.msg_native_id@ == id@
    } by {
        let row = m.row();
        assert(row[0].0.len() == 14 && row[1].0.len() == 6 && row[2].0.len() == 16);
        assert(row[3].0.len() == 13);
        crate::relation::lemma_column_at(row, 0);
        crate::relation::lemma_column_at(row, 1);
        crate::relation::lemma_column_at(row, 3);
        crate::plan::law_group_is_the_rows_of_one_thing(
            row,
            account_id_sha@,
            source@,
            "msg_native_id"@,
            id@,
        );
    }
    assert(statement.does(Effect::Delete { table: "chatroom_member_event"@, tests }));
}

/// Every column takes what is stored in it, and only the columns of what may be missing take null.
pub proof fn law_chatroom_columns_take_its_rows(m: V3Chatroom, i: int)
    requires
        0 <= i < m.row().len(),
    ensures
        chatroom_columns()[i].decl.takes(m.row()[i].1),
        chatroom_columns()[i].decl.takes(Val::Null) <==> i == 6 || i == 8 || i == 12 || i == 13 || i == 15 || i == 17,
{
    let row = m.row();
    let columns = chatroom_columns();
    assert(columns[0].decl.takes(row[0].1) && columns[1].decl.takes(row[1].1) && columns[2].decl.takes(row[2].1));
    assert(columns[3].decl.takes(row[3].1) && columns[4].decl.takes(row[4].1) && columns[5].decl.takes(row[5].1));
    assert(columns[6].decl.takes(row[6].1) && columns[7].decl.takes(row[7].1) && columns[8].decl.takes(row[8].1));
    assert(columns[9].decl.takes(row[9].1) && columns[10].decl.takes(row[10].1) && columns[11].decl.takes(row[11].1));
    assert(columns[12].decl.takes(row[12].1) && columns[13].decl.takes(row[13].1) && columns[14].decl.takes(row[14].1));
    assert(columns[15].decl.takes(row[15].1) && columns[16].decl.takes(row[16].1) && columns[17].decl.takes(row[17].1));
    assert(columns[18].decl.takes(row[18].1) && columns[19].decl.takes(row[19].1));
}

/// Every column takes what is stored in it, and only the columns of what may be missing take null.
pub proof fn law_chatroom_member_columns_take_its_rows(m: V3ChatroomMember, i: int)
    requires
        0 <= i < m.row().len(),
    ensures
        chatroom_member_columns()[i].decl.takes(m.row()[i].1),
        chatroom_member_columns()[i].decl.takes(Val::Null) <==> i == 8 || i == 10 || i == 11 || i == 14,
{
    let row = m.row();
    let columns = chatroom_member_columns();
    assert(columns[0].decl.takes(row[0].1) && columns[1].decl.takes(row[1].1) && columns[2].decl.takes(row[2].1));
    assert(columns[3].decl.takes(row[3].1) && columns[4].decl.takes(row[4].1) && columns[5].decl.takes(row[5].1));
    assert(columns[6].decl.takes(row[6].1) && columns[7].decl.takes(row[7].1) && columns[8].decl.takes(row[8].1));
    assert(columns[9].decl.takes(row[9].1) && columns[10].decl.takes(row[10].1) && columns[11].decl.takes(row[11].1));
    assert(columns[12].decl.takes(row[12].1) && columns[13].decl.takes(row[13].1) && columns[14].decl.takes(row[14].1));
}

/// Every column takes what is stored in it, and only the columns of what may be missing take null.
pub proof fn law_chatroom_member_event_columns_take_its_rows(m: V3ChatroomMemberEvent, i: int)
    requires
        0 <= i < m.row().len(),
    ensures
        chatroom_member_event_columns()[i].decl.takes(m.row()[i].1),
        chatroom_member_event_columns()[i].decl.takes(Val::Null) <==> i == 5 || i == 7 || i == 11 || i == 12 || i == 13,
{
    let row = m.row();
    let columns = chatroom_member_event_columns();
    assert(columns[0].decl.takes(row[0].1) && columns[1].decl.takes(row[1].1) && columns[2].decl.takes(row[2].1));
    assert(columns[3].decl.takes(row[3].1) && columns[4].decl.takes(row[4].1) && columns[5].decl.takes(row[5].1));
    assert(columns[6].decl.takes(row[6].1) && columns[7].decl.takes(row[7].1) && columns[8].decl.takes(row[8].1));
    assert(columns[9].decl.takes(row[9].1) && columns[10].decl.takes(row[10].1) && columns[11].decl.takes(row[11].1));
    assert(columns[12].decl.takes(row[12].1) && columns[13].decl.takes(row[13].1));
}

/// What the rows of an old `chatroom` table hold in the columns that are added to it, by name; and
/// each of these columns takes it, as the table of today declares it.
pub proof fn law_old_chatroom_rows_are_filled(i: int)
    requires
        0 <= i < chatroom_later_columns().len(),
    ensures
        chatroom_later_columns().len() == 7,
        crate::schema::filled(chatroom_later_columns()).contains(("announcement_editor"@, Val::Null)),
        crate::schema::filled(chatroom_later_columns()).contains(("announcement_publish_time"@, Val::Integer(0))),
        crate::schema::filled(chatroom_later_columns()).contains(("xml_announcement"@, Val::Null)),
        crate::schema::filled(chatroom_later_columns()).contains(("chat_room_status"@, Val::Integer(0))),
        crate::schema::filled(chatroom_later_columns()).contains(("chatroom_remark"@, Val::Null)),
        crate::schema::filled(chatroom_later_columns()).contains(("chatroom_remark_len"@, Val::Integer(0))),
        crate::schema::filled(chatroom_later_columns()).contains(("is_still_member"@, Val::Integer(1))),
        exists|j: int|
            0 <= j < chatroom_columns().len() && (#[trigger] chatroom_columns()[j]).name@
                == chatroom_later_columns()[i].name@ && chatroom_columns()[j].decl.takes(
                chatroom_later_columns()[i].decl.value_in_old_rows(),
            ),
{
    let later = chatroom_later_columns();
    let columns = chatroom_columns();
    let filled = crate::schema::filled(later);
    assert(filled[0] == ("announcement_editor"@, Val::Null));
    assert(columns[13].name@ == later[0].name@ && columns[13].decl.takes(later[0].decl.value_in_old_rows()));
    assert(filled[1] == ("announcement_publish_time"@, Val::Integer(0)));
    assert(columns[14].name@ == later[1].name@ && columns[14].decl.takes(later[1].decl.value_in_old_rows()));
    assert(filled[2] == ("xml_announcement"@, Val::Null));
    assert(columns[15].name@ == later[2].name@ && columns[15].decl.takes(later[2].decl.value_in_old_rows()));
    assert(filled[3] == ("chat_room_status"@, Val::Integer(0)));
    assert(columns[16].name@ == later[3].name@ && columns[16].decl.takes(later[3].decl.value_in_old_rows()));
    assert(filled[4] == ("chatroom_remark"@, Val::Null));
    assert(columns[17].name@ == later[4].name@ && columns[17].decl.takes(later[4].decl.value_in_old_rows()));
    assert(filled[5] == ("chatroom_remark_len"@, Val::Integer(0)));
    assert(columns[18].name@ == later[5].name@ && columns[18].decl.takes(later[5].decl.value_in_old_rows()));
    assert(filled[6] == ("is_still_member"@, Val::Integer(1)));
    assert(columns[19].name@ == later[6].name@ && columns[19].decl.takes(later[6].decl.value_in_old_rows()));
}

/// What the rows of an old `chatroom_member` table hold in the columns that are added to it, by name; and
/// each of these columns takes it, as the table of today declares it.
pub proof fn law_old_chatroom_member_rows_are_filled(i: int)
    requires
        0 <= i < chatroom_member_later_columns().len(),
    ensures
        chatroom_member_later_columns().len() == 2,
        crate::schema::filled(chatroom_member_later_columns()).contains(("role"@, Val::Text("member"@))),
        crate::schema::filled(chatroom_member_later_columns()).contains(("invited_by"@, Val::Null)),
        exists|j: int|
            0 <= j < chatroom_member_columns().len() && (#[trigger] chatroom_member_columns()[j]).name@
                == chatroom_member_later_columns()[i].name@ && chatroom_member_columns()[j].decl.takes(
                chatroom_member_later_columns()[i].decl.value_in_old_rows(),
            ),
{
    let later = chatroom_member_later_columns();
    let columns = chatroom_member_columns();
    let filled = crate::schema::filled(later);
    assert(filled[0] == ("role"@, Val::Text("member"@)));
    assert(columns[13].name@ == later[0].name@ && columns[13].decl.takes(later[0].decl.value_in_old_rows()));
    assert(filled[1] == ("invited_by"@, Val::Null));
    assert(columns[14].name@ == later[1].name@ && columns[14].decl.takes(later[1].decl.value_in_old_rows()));
}

/// Who is asked for in a group: those who were stored there for this account and this source and
/// are in it.
pub proof fn law_group_is_asked_for_its_members(
    account_id_sha: &str,
    source: &str,
    chatroom_id_sha: &str,
    query: Statement,
)
    requires
        call_ensures(
            query_chatroom_members_in_group,
            (account_id_sha, source, chatroom_id_sha),
            query,
        ),
    ensures
        exists|tests: Seq<Test>|
            {
                &&& #[trigger] query.does(
                    Effect::Select {
                        table: "chatroom_member"@,
                        columns: member_ref_columns(),
                        tests,
                        tail: Tail::All,
                    },
                )
                &&& forall|m: V3ChatroomMember| #[trigger]
                    crate::relation::passes_all(m.row(), tests) <==> {
                        &&& m.account_id_sha@ == account_id_sha@
                        &&& m.source@ == source@
                        &&& m.chatroom_id_sha@ == chatroom_id_sha@
                        &&& m.is_in_group
                    }
            },
{
    let tests = in_group(account_id_sha@, source@, chatroom_id_sha@);
    assert forall|m: V3ChatroomMember| #[trigger]
        crate::relation::passes_all(m.row(), tests) <==> {
            &&& m.account_id_sha@ == account_id_sha@
            &&& m.source@ == source@
            &&& m.chatroom_id_sha@ == chatroom_id_sha@
            &&& m.is_in_group
        } by {
        lemma_member_columns(m);
        if crate::relation::passes_all(m.row(), tests) {
            assert(crate::relation::passes(m.row(), tests[0]));
            assert(crate::relation::passes(m.row(), tests[1]));
            assert(crate::relation::passes(m.row(), tests[2]));
            assert(crate::relation::passes(m.row(), tests[3]));
        }
    }
    assert(query.does(
        Effect::Select {
            table: "chatroom_member"@,
            columns: member_ref_columns(),
            tests,
            tail: Tail::All,
        },
    ));
}

/// A member who is read back is the one who was stored.
pub proof fn law_listed_member_is_the_stored_one(
    m: V3ChatroomMember,
    values: &Vec<SqlValue>,
    member: Option<ChatroomMemberRef>,
)
    requires
        crate::relation::projected(m.row(), member_ref_columns())
            == values@.map_values(|v: SqlValue| v@),
        call_ensures(member_ref_from_row, (values,), member),
    ensures
        member matches Some(r) && {
            &&& r.member_wxid_sha@ == m.member_wxid_sha@
            &&& r.member_wxid@ == m.member_wxid@
            &&& r.source_native_id@ == m.source_native_id@
        },
{
    lemma_member_columns(m);
    let views = values@.map_values(|v: SqlValue| v@);
    let columns = member_ref_columns();
    let read = crate::relation::projected(m.row(), columns);
    assert(columns[0] == "member_wxid_sha"@ && columns[1] == "member_wxid"@ && columns[2]
        == "source_native_id"@);
    assert(read[0] == views[0] && read[1] == views[1] && read[2] == views[2]);
    assert(views.len() == 3);
    assert(is_member_ref(views));
    let again = member->0.values();
    assert(again[0] == views[0] && again[1] == views[1] && again[2] == views[2]);
}

/// Marking a member as gone is about that member alone: of that row the two columns that say so
/// are set, and every other column of it and every other row stay.
pub proof fn law_leaving_is_about_one_member(
    account_id_sha: &str,
    source: &str,
    source_native_id: &str,
    left_at: i64,
    statement: Statement,
)
    requires
        call_ensures(
            mark_chatroom_member_left,
            (account_id_sha, source, source_native_id, left_at),
            statement,
        ),
    ensures
        exists|set: Row, tests: Seq<Test>|
            {
                &&& #[trigger] statement.does(
                    Effect::Update { table: "chatroom_member"@, set, tests },
                )
                &&& forall|m: V3ChatroomMember| #[trigger]
                    crate::relation::passes_all(m.row(), tests) <==> {
                        &&& m.account_id_sha@ == account_id_sha@
                        &&& m.source@ == source@
                        &&& m.source_native_id@ == source_native_id@
                    }
                &&& forall|m: V3ChatroomMember, name: Seq<char>| #[trigger]
                    crate::relation::column(crate::relation::with_set(m.row(), set), name)
                        == if name == "is_in_group"@ {
                        Val::Integer(0)
                    } else if name == "left_at"@ {
                        Val::Integer(left_at as int)
                    } else {
                        crate::relation::column(m.row(), name)
                    }
            },
{
    let set = leaving(left_at as int);
    let tests = crate::plan::belonging_to(
        account_id_sha@,
        source@,
        "source_native_id"@,
        source_native_id@,
    );
    reveal_strlit("is_in_group");
    reveal_strlit("left_at");
    assert("is_in_group"@.len() == 11 && "left_at"@.len() == 7);
    assert forall|m: V3ChatroomMember| #[trigger]
        crate::relation::passes_all(m.row(), tests) <==> {
            &&& m.account_id_sha@ == account_id_sha@
            &&& m.source@ == source@
            &&& m.source_native_id@ == source_native_id@
        } by {
        lemma_member_columns(m);
        crate::plan::law_group_is_the_rows_of_one_thing(
            m.row(),
            account_id_sha@,
            source@,
            "source_native_id"@,
            source_native_id@,
        );
    }
    assert forall|m: V3ChatroomMember, name: Seq<char>| #[trigger]
        crate::relation::column(crate::relation::with_set(m.row(), set), name) == if name
            == "is_in_group"@ {
            Val::Integer(0)
        } else if name == "left_at"@ {
            Val::Integer(left_at as int)
        } else {
            crate::relation::column(m.row(), name)
        } by {
        crate::relation::law_update_sets_only_its_columns(m.row(), set, name);
        let names = crate::sql::names(set);
        assert(names[0] == "is_in_group"@ && names[1] == "left_at"@);
        assert(crate::sql::names(m.row())[12] == "is_in_group"@);
        assert(crate::sql::names(m.row())[11] == "left_at"@);
        crate::relation::lemma_column_at(set, 0);
        crate::relation::lemma_column_at(set, 1);
        if names.contains(name) {
            let i = choose|i: int| 0 <= i < names.len() && names[i] == name;
            assert(i == 0 || i == 1);
        }
    }
    assert(statement.does(Effect::Update { table: "chatroom_member"@, set, tests }));
}

/// The table `chatroom` is made first, and then an index for each of the ways in which its rows are
/// looked up.
pub proof fn law_chatroom_lookups_have_indexes(steps: Vec<Step>)
    requires
        call_ensures(init_chatroom_table, (), steps),
    ensures
        steps@[0] == Step::Create(Table::Chatroom),
        Table::Chatroom.name_text() == "chatroom"@,
        crate::plan::has_index(
            steps@,
            "idx_chatroom_id"@,
            "chatroom"@,
            "account_id_sha, chatroom_id_sha"@,
        ),
{
    assert(steps@[1] is Index);
}

/// The table `chatroom_member` is made first, and then an index for each of the ways in which its rows are
/// looked up.
pub proof fn law_chatroom_member_lookups_have_indexes(steps: Vec<Step>)
    requires
        call_ensures(init_chatroom_member_table, (), steps),
    ensures
        steps@[0] == Step::Create(Table::ChatroomMember),
        Table::ChatroomMember.name_text() == "chatroom_member"@,
        crate::plan::has_index(
            steps@,
            "idx_chatroom_member_chatroom"@,
            "chatroom_member"@,
            "account_id_sha, chatroom_id_sha, is_in_group"@,
        ),
        crate::plan::has_index(
            steps@,
            "idx_chatroom_member_wxid"@,
            "chatroom_member"@,
            "account_id_sha, member_wxid_sha"@,
        ),
{
    assert(steps@[1] is Index);
    assert(steps@[2] is Index);
}

/// The table `chatroom_member_event` is made first, and then an index for each of the ways in which its rows are
/// looked up.
pub proof fn law_chatroom_member_event_lookups_have_indexes(steps: Vec<Step>)
    requires
        call_ensures(init_chatroom_member_event_table, (), steps),
    ensures
        steps@[0] == Step::Create(Table::ChatroomMemberEvent),
        Table::ChatroomMemberEvent.name_text() == "chatroom_member_event"@,
        crate::plan::has_index(
            steps@,
            "idx_chatroom_member_event_conv"@,
            "chatroom_member_event"@,
            "account_id_sha, conv_id_sha"@,
        ),
        crate::plan::has_index(
            steps@,
            "idx_chatroom_member_event_member"@,
            "chatroom_member_event"@,
            "account_id_sha, member_wxid_sha"@,
        ),
{
    assert(steps@[1] is Index);
    assert(steps@[2] is Index);
}

} // verus!
