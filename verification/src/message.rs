//! Messages, and what hangs on a message: cards, media, places, calls, claimed
//! envelopes, contact cards, mentions and forwarded items.

use vstd::prelude::*;

use crate::index::{message_rebuilt_indexes, Index};
use crate::plan::{delete_group, reconciles, Step};
use crate::redact::{copy_text, count_if_any, mark_if_any, DebugRow, Shown};
use crate::schema::{add_missing, Column, Decl};
use crate::sql::{Effect, Real, Row, RowBuilder, Statement, Val};
use crate::tables::Table;

verus! {

/// A message. It is told apart by the account, the shard and its id there.
#[derive(Clone, PartialEq, Eq)]
pub struct V3Message {
    pub account_id_sha: String,
    pub source: String,
    pub source_native_id: String,
    pub conv_id_sha: String,
    pub server_id: i64,
    pub server_seq: i64,
    pub origin_source: i64,
    pub upload_status: i64,
    pub download_status: i64,
    pub create_time: i64,
    pub sort_seq: i64,
    pub status: i64,
    pub msg_type: i64,
    pub msg_type_name: String,
    pub msg_sub_type: Option<i64>,
    pub msg_sub_type_name: Option<String>,
    pub local_type_raw: i64,
    pub sender_wxid_sha: String,
    pub is_chatroom: bool,
    pub text_content_sha: String,
    pub text_content_len: i64,
    pub raw_xml_present: bool,
    pub decode_kind: String,
    pub sys_type: Option<String>,
    pub account_id: String,
    pub conv_id: String,
    pub sender_wxid: String,
    pub text_content: String,
}

impl V3Message {
    /// The row that it is stored as.
    pub open spec fn row(self) -> Row {
        seq![
            ("account_id_sha"@, Val::Text(self.account_id_sha@)),
            ("source"@, Val::Text(self.source@)),
            ("source_native_id"@, Val::Text(self.source_native_id@)),
            ("conv_id_sha"@, Val::Text(self.conv_id_sha@)),
            ("server_id"@, Val::Integer(self.server_id as int)),
            ("server_seq"@, Val::Integer(self.server_seq as int)),
            ("origin_source"@, Val::Integer(self.origin_source as int)),
            ("upload_status"@, Val::Integer(self.upload_status as int)),
            ("download_status"@, Val::Integer(self.download_status as int)),
            ("create_time"@, Val::Integer(self.create_time as int)),
            ("sort_seq"@, Val::Integer(self.sort_seq as int)),
            ("status"@, Val::Integer(self.status as int)),
            ("msg_type"@, Val::Integer(self.msg_type as int)),
            ("msg_type_name"@, Val::Text(self.msg_type_name@)),
            ("msg_sub_type"@, crate::sql::nullable_integer(self.msg_sub_type)),
            ("msg_sub_type_name"@, crate::sql::nullable_text(self.msg_sub_type_name)),
            ("local_type_raw"@, Val::Integer(self.local_type_raw as int)),
            ("sender_wxid_sha"@, Val::Text(self.sender_wxid_sha@)),
            ("is_chatroom"@, crate::sql::flag(self.is_chatroom)),
            ("text_content_sha"@, Val::Text(self.text_content_sha@)),
            ("text_content_len"@, Val::Integer(self.text_content_len as int)),
            ("raw_xml_present"@, crate::sql::flag(self.raw_xml_present)),
            ("decode_kind"@, Val::Text(self.decode_kind@)),
            ("sys_type"@, crate::sql::nullable_text(self.sys_type)),
            ("account_id"@, Val::Text(self.account_id@)),
            ("conv_id"@, Val::Text(self.conv_id@)),
            ("sender_wxid"@, Val::Text(self.sender_wxid@)),
            ("text_content"@, Val::Text(self.text_content@)),
        ]
    }

    /// How its fields are shown in a log.
    pub open spec fn shown(self) -> Seq<(&'static str, Shown)> {
        seq![
            ("account_id_sha", Shown::Text(self.account_id_sha)),
            ("source", Shown::Text(self.source)),
            ("source_native_id", Shown::Text(self.source_native_id)),
            ("conv_id_sha", Shown::Text(self.conv_id_sha)),
            ("server_id", Shown::Integer(self.server_id)),
            ("server_seq", Shown::Integer(self.server_seq)),
            ("origin_source", Shown::Integer(self.origin_source)),
            ("upload_status", Shown::Integer(self.upload_status)),
            ("download_status", Shown::Integer(self.download_status)),
            ("create_time", Shown::Integer(self.create_time)),
            ("sort_seq", Shown::Integer(self.sort_seq)),
            ("status", Shown::Integer(self.status)),
            ("msg_type", Shown::Integer(self.msg_type)),
            ("msg_type_name", Shown::Text(self.msg_type_name)),
            ("msg_sub_type", Shown::NullableInteger(self.msg_sub_type)),
            ("msg_sub_type_name", Shown::NullableText(self.msg_sub_type_name)),
            ("local_type_raw", Shown::Integer(self.local_type_raw)),
            ("sender_wxid_sha", Shown::Text(self.sender_wxid_sha)),
            ("is_chatroom", Shown::Flag(self.is_chatroom)),
            ("text_content_sha", Shown::Text(self.text_content_sha)),
            ("text_content_len", Shown::Integer(self.text_content_len)),
            ("raw_xml_present", Shown::Flag(self.raw_xml_present)),
            ("decode_kind", Shown::Text(self.decode_kind)),
            ("sys_type", Shown::NullableText(self.sys_type)),
            ("account_id_sha8", Shown::Digest(self.account_id)),
            ("conv_id_sha8", Shown::Digest(self.conv_id)),
            ("sender_wxid_sha8", Shown::Digest(self.sender_wxid)),
        ]
    }

    /// What it shows of itself in a log.
    pub fn debug_row(&self) -> (row: DebugRow)
        ensures
            row.name@ == "V3Message"@,
            row.fields@ == self.shown(),
            row.complete == false,
    {
        let mut fields: Vec<(&'static str, Shown)> = Vec::new();
        fields.push(("account_id_sha", Shown::Text(self.account_id_sha.clone())));
        fields.push(("source", Shown::Text(self.source.clone())));
        fields.push(("source_native_id", Shown::Text(self.source_native_id.clone())));
        fields.push(("conv_id_sha", Shown::Text(self.conv_id_sha.clone())));
        fields.push(("server_id", Shown::Integer(self.server_id)));
        fields.push(("server_seq", Shown::Integer(self.server_seq)));
        fields.push(("origin_source", Shown::Integer(self.origin_source)));
        fields.push(("upload_status", Shown::Integer(self.upload_status)));
        fields.push(("download_status", Shown::Integer(self.download_status)));
        fields.push(("create_time", Shown::Integer(self.create_time)));
        fields.push(("sort_seq", Shown::Integer(self.sort_seq)));
        fields.push(("status", Shown::Integer(self.status)));
        fields.push(("msg_type", Shown::Integer(self.msg_type)));
        fields.push(("msg_type_name", Shown::Text(self.msg_type_name.clone())));
        fields.push(("msg_sub_type", Shown::NullableInteger(self.msg_sub_type)));
        fields.push(("msg_sub_type_name", Shown::NullableText(copy_text(&self.msg_sub_type_name))));
        fields.push(("local_type_raw", Shown::Integer(self.local_type_raw)));
        fields.push(("sender_wxid_sha", Shown::Text(self.sender_wxid_sha.clone())));
        fields.push(("is_chatroom", Shown::Flag(self.is_chatroom)));
        fields.push(("text_content_sha", Shown::Text(self.text_content_sha.clone())));
        fields.push(("text_content_len", Shown::Integer(self.text_content_len)));
        fields.push(("raw_xml_present", Shown::Flag(self.raw_xml_present)));
        fields.push(("decode_kind", Shown::Text(self.decode_kind.clone())));
        fields.push(("sys_type", Shown::NullableText(copy_text(&self.sys_type))));
        fields.push(("account_id_sha8", Shown::Digest(self.account_id.clone())));
        fields.push(("conv_id_sha8", Shown::Digest(self.conv_id.clone())));
        fields.push(("sender_wxid_sha8", Shown::Digest(self.sender_wxid.clone())));
        assert(fields@ =~= self.shown());
        DebugRow { name: "V3Message", fields, complete: false }
    }
}

/// The columns of the table `message`.
pub open spec fn message_columns() -> Seq<Column> {
    seq![
        Column { name: "account_id_sha", decl: Decl::TextNotNull },
        Column { name: "source", decl: Decl::TextNotNull },
        Column { name: "source_native_id", decl: Decl::TextNotNull },
        Column { name: "conv_id_sha", decl: Decl::TextNotNull },
        Column { name: "server_id", decl: Decl::IntegerNotNull },
        Column { name: "server_seq", decl: Decl::IntegerDefault(0) },
        Column { name: "origin_source", decl: Decl::IntegerDefault(0) },
        Column { name: "upload_status", decl: Decl::IntegerDefault(0) },
        Column { name: "download_status", decl: Decl::IntegerDefault(0) },
        Column { name: "create_time", decl: Decl::IntegerNotNull },
        Column { name: "sort_seq", decl: Decl::IntegerNotNull },
        Column { name: "status", decl: Decl::IntegerNotNull },
        Column { name: "msg_type", decl: Decl::IntegerNotNull },
        Column { name: "msg_type_name", decl: Decl::TextNotNull },
        Column { name: "msg_sub_type", decl: Decl::Integer },
        Column { name: "msg_sub_type_name", decl: Decl::Text },
        Column { name: "local_type_raw", decl: Decl::IntegerNotNull },
        Column { name: "sender_wxid_sha", decl: Decl::TextNotNull },
        Column { name: "is_chatroom", decl: Decl::IntegerNotNull },
        Column { name: "text_content_sha", decl: Decl::TextNotNull },
        Column { name: "text_content_len", decl: Decl::IntegerNotNull },
        Column { name: "raw_xml_present", decl: Decl::IntegerNotNull },
        Column { name: "decode_kind", decl: Decl::TextNotNull },
        Column { name: "sys_type", decl: Decl::Text },
        Column { name: "account_id", decl: Decl::TextNotNull },
        Column { name: "conv_id", decl: Decl::TextNotNull },
        Column { name: "sender_wxid", decl: Decl::TextNotNull },
        Column { name: "text_content", decl: Decl::TextNotNull },
    ]
}

/// The columns of the table `message`.
pub fn message_table() -> (columns: Vec<Column>)
    ensures
        columns@ == message_columns(),
{
    let mut columns: Vec<Column> = Vec::new();
    columns.push(Column { name: "account_id_sha", decl: Decl::TextNotNull });
    columns.push(Column { name: "source", decl: Decl::TextNotNull });
    columns.push(Column { name: "source_native_id", decl: Decl::TextNotNull });
    columns.push(Column { name: "conv_id_sha", decl: Decl::TextNotNull });
    columns.push(Column { name: "server_id", decl: Decl::IntegerNotNull });
    columns.push(Column { name: "server_seq", decl: Decl::IntegerDefault(0) });
    columns.push(Column { name: "origin_source", decl: Decl::IntegerDefault(0) });
    columns.push(Column { name: "upload_status", decl: Decl::IntegerDefault(0) });
    columns.push(Column { name: "download_status", decl: Decl::IntegerDefault(0) });
    columns.push(Column { name: "create_time", decl: Decl::IntegerNotNull });
    columns.push(Column { name: "sort_seq", decl: Decl::IntegerNotNull });
    columns.push(Column { name: "status", decl: Decl::IntegerNotNull });
    columns.push(Column { name: "msg_type", decl: Decl::IntegerNotNull });
    columns.push(Column { name: "msg_type_name", decl: Decl::TextNotNull });
    columns.push(Column { name: "msg_sub_type", decl: Decl::Integer });
    columns.push(Column { name: "msg_sub_type_name", decl: Decl::Text });
    columns.push(Column { name: "local_type_raw", decl: Decl::IntegerNotNull });
    columns.push(Column { name: "sender_wxid_sha", decl: Decl::TextNotNull });
    columns.push(Column { name: "is_chatroom", decl: Decl::IntegerNotNull });
    columns.push(Column { name: "text_content_sha", decl: Decl::TextNotNull });
    columns.push(Column { name: "text_content_len", decl: Decl::IntegerNotNull });
    columns.push(Column { name: "raw_xml_present", decl: Decl::IntegerNotNull });
    columns.push(Column { name: "decode_kind", decl: Decl::TextNotNull });
    columns.push(Column { name: "sys_type", decl: Decl::Text });
    columns.push(Column { name: "account_id", decl: Decl::TextNotNull });
    columns.push(Column { name: "conv_id", decl: Decl::TextNotNull });
    columns.push(Column { name: "sender_wxid", decl: Decl::TextNotNull });
    columns.push(Column { name: "text_content", decl: Decl::TextNotNull });
    assert(columns@ =~= message_columns());
    columns
}

/// The columns that came to the table `message` later.
pub open spec fn message_later_columns() -> Seq<Column> {
    seq![
        Column { name: "server_seq", decl: Decl::IntegerDefault(0) },
        Column { name: "origin_source", decl: Decl::IntegerDefault(0) },
        Column { name: "upload_status", decl: Decl::IntegerDefault(0) },
        Column { name: "download_status", decl: Decl::IntegerDefault(0) },
        Column { name: "sys_type", decl: Decl::Text },
    ]
}

/// The statements that add to the table `message` the later columns that it lacks.
pub fn ensure_message_columns(existing: &Vec<String>) -> (statements: Vec<Statement>)
    ensures
        crate::schema::adds(
            statements@,
            "message"@,
            crate::schema::missing(message_later_columns(), crate::sql::strings(existing@)),
        ),
{
    let mut later: Vec<Column> = Vec::new();
    later.push(Column { name: "server_seq", decl: Decl::IntegerDefault(0) });
    later.push(Column { name: "origin_source", decl: Decl::IntegerDefault(0) });
    later.push(Column { name: "upload_status", decl: Decl::IntegerDefault(0) });
    later.push(Column { name: "download_status", decl: Decl::IntegerDefault(0) });
    later.push(Column { name: "sys_type", decl: Decl::Text });
    assert(later@ =~= message_later_columns());
    add_missing("message", &later, existing)
}

/// Every later column of the table `message` is one of its columns, and the rows that are
/// there when it is added have a value for it.
pub proof fn law_message_later_columns_belong(i: int)
    requires
        0 <= i < message_later_columns().len(),
    ensures
        crate::schema::column_names(message_columns()).contains(message_later_columns()[i].name@),
        message_later_columns()[i].decl.fills_old_rows(),
{
    let all = crate::schema::column_names(message_columns());
    assert(all[5] == "server_seq"@);
    assert(all[6] == "origin_source"@);
    assert(all[7] == "upload_status"@);
    assert(all[8] == "download_status"@);
    assert(all[23] == "sys_type"@);
}

/// The columns by which the table `message` tells its rows apart.
pub open spec fn message_key() -> Seq<Seq<char>> {
    seq!["account_id_sha"@, "source"@, "source_native_id"@]
}

/// A row fills the table: it has a value for every column, and for no other.
pub proof fn law_message_row_fills_the_table(row: V3Message)
    ensures
        crate::sql::names(row.row()) == crate::schema::column_names(message_columns()),
{
    assert(crate::sql::names(row.row()) =~= crate::schema::column_names(message_columns()));
}

/// Two rows of the table `message` have the same key exactly where they agree in its fields.
pub proof fn law_message_key_tells_rows_apart(a: V3Message, b: V3Message)
    ensures
        crate::relation::same_key(a.row(), b.row(), message_key()) <==> {
            &&& a.account_id_sha@ == b.account_id_sha@
            &&& a.source@ == b.source@
            &&& a.source_native_id@ == b.source_native_id@
        },
{
    reveal_strlit("account_id_sha");
    reveal_strlit("source");
    reveal_strlit("source_native_id");
    let (x, y) = (a.row(), b.row());
    assert("account_id_sha"@.len() != "source"@.len());
    assert("account_id_sha"@.len() != "source_native_id"@.len());
    assert("source"@.len() != "source_native_id"@.len());
    let at: Seq<int> = seq![0int, 1, 2];
    crate::relation::lemma_same_key(x, y, message_key(), at);
    assert(at[0] == 0);
    assert(at[1] == 1);
    assert(at[2] == 2);
}

/// The steps that make the table `message`. The definitions of its indexes are looked
/// at every time: an index of an older definition is not made anew by its name alone.
pub open spec fn message_steps() -> Seq<Step> {
    seq![
        Step::Create(Table::Message),
        Step::Index(
            Index {
                name: "idx_message_conv_time",
                table: "message",
                columns: "account_id_sha, conv_id_sha, create_time DESC",
            },
        ),
        Step::Index(
            Index {
                name: "idx_message_conv_time_full",
                table: "message",
                columns: "account_id_sha, conv_id_sha, create_time DESC, source_native_id DESC, source DESC",
            },
        ),
        Step::Index(
            Index {
                name: "idx_message_server_id",
                table: "message",
                columns: "account_id_sha, server_id",
            },
        ),
        Step::Index(
            Index {
                name: "idx_message_type",
                table: "message",
                columns: "account_id_sha, msg_type",
            },
        ),
    ] + crate::index::message_rebuilt().map_values(|ix: Index| Step::Reconcile(ix)) + seq![Step::Ensure(Table::Message)]
}

/// The steps that make the table `message`.
pub fn init_message_table() -> (steps: Vec<Step>)
    ensures
        steps@ == message_steps(),
{
    let mut steps: Vec<Step> = Vec::new();
    steps.push(Step::Create(Table::Message));
    steps.push(Step::Index(
        Index {
            name: "idx_message_conv_time",
            table: "message",
            columns: "account_id_sha, conv_id_sha, create_time DESC",
        },
    ));
    steps.push(Step::Index(
        Index {
            name: "idx_message_conv_time_full",
            table: "message",
            columns: "account_id_sha, conv_id_sha, create_time DESC, source_native_id DESC, source DESC",
        },
    ));
    steps.push(Step::Index(
        Index {
            name: "idx_message_server_id",
            table: "message",
            columns: "account_id_sha, server_id",
        },
    ));
    steps.push(Step::Index(
        Index {
            name: "idx_message_type",
            table: "message",
            columns: "account_id_sha, msg_type",
        },
    ));
    let mut rebuilt = reconciles(&message_rebuilt_indexes());
    steps.append(&mut rebuilt);
    steps.push(Step::Ensure(Table::Message));
    assert(steps@ =~= message_steps());
    steps
}

/// The statement that stores a row of the table `message`, in place of the row with the same
/// key.
pub fn insert_message(m: &V3Message) -> (statement: Statement)
    ensures
        statement.does(Effect::Replace { table: "message"@, row: m.row() }),
{
    let mut row = RowBuilder::new();
    row.text("account_id_sha", m.account_id_sha.as_str());
    row.text("source", m.source.as_str());
    row.text("source_native_id", m.source_native_id.as_str());
    row.text("conv_id_sha", m.conv_id_sha.as_str());
    row.integer("server_id", m.server_id);
    row.integer("server_seq", m.server_seq);
    row.integer("origin_source", m.origin_source);
    row.integer("upload_status", m.upload_status);
    row.integer("download_status", m.download_status);
    row.integer("create_time", m.create_time);
    row.integer("sort_seq", m.sort_seq);
    row.integer("status", m.status);
    row.integer("msg_type", m.msg_type);
    row.text("msg_type_name", m.msg_type_name.as_str());
    row.nullable_integer("msg_sub_type", m.msg_sub_type);
    row.nullable_text("msg_sub_type_name", &m.msg_sub_type_name);
    row.integer("local_type_raw", m.local_type_raw);
    row.text("sender_wxid_sha", m.sender_wxid_sha.as_str());
    row.flag("is_chatroom", m.is_chatroom);
    row.text("text_content_sha", m.text_content_sha.as_str());
    row.integer("text_content_len", m.text_content_len);
    row.flag("raw_xml_present", m.raw_xml_present);
    row.text("decode_kind", m.decode_kind.as_str());
    row.nullable_text("sys_type", &m.sys_type);
    row.text("account_id", m.account_id.as_str());
    row.text("conv_id", m.conv_id.as_str());
    row.text("sender_wxid", m.sender_wxid.as_str());
    row.text("text_content", m.text_content.as_str());
    assert(row@ =~= m.row());
    row.replace_into("message")
}

/// The card of a message: a link, a file, a transfer, a quote, a mini program and the like.
#[derive(Clone, PartialEq, Eq)]
pub struct V3MessageApp {
    pub account_id_sha: String,
    pub source: String,
    pub source_native_id: String,
    pub app_type: i64,
    pub media_count: i64,
    pub account_id: String,
    pub title: Option<String>,
    pub source_name: Option<String>,
    pub url: Option<String>,
    pub app_username: Option<String>,
    pub app_nickname: Option<String>,
    pub app_pagepath: Option<String>,
    pub file_size: i64,
    pub file_ext: Option<String>,
    pub file_md5: Option<String>,
    pub transfer_fee: Option<String>,
    pub transfer_direction: i64,
    pub transfer_txid: Option<String>,
    pub refer_svrid: Option<String>,
    pub refer_type: i64,
    pub refer_content: Option<String>,
    pub forward_item_count: i64,
    pub red_envelope_wish: Option<String>,
    pub red_envelope_count: i64,
    pub group_pay_amount: Option<String>,
    pub group_pay_bill_no: Option<String>,
    pub music_desc: Option<String>,
    pub gift_wish: Option<String>,
    pub gift_sku: Option<String>,
    pub live_status: i64,
    pub live_desc: Option<String>,
    pub pay_scene_text: Option<String>,
}

impl V3MessageApp {
    /// The row that it is stored as.
    pub open spec fn row(self) -> Row {
        seq![
            ("account_id_sha"@, Val::Text(self.account_id_sha@)),
            ("source"@, Val::Text(self.source@)),
            ("source_native_id"@, Val::Text(self.source_native_id@)),
            ("app_type"@, Val::Integer(self.app_type as int)),
            ("media_count"@, Val::Integer(self.media_count as int)),
            ("account_id"@, Val::Text(self.account_id@)),
            ("title"@, crate::sql::nullable_text(self.title)),
            ("source_name"@, crate::sql::nullable_text(self.source_name)),
            ("url"@, crate::sql::nullable_text(self.url)),
            ("app_username"@, crate::sql::nullable_text(self.app_username)),
            ("app_nickname"@, crate::sql::nullable_text(self.app_nickname)),
            ("app_pagepath"@, crate::sql::nullable_text(self.app_pagepath)),
            ("file_size"@, Val::Integer(self.file_size as int)),
            ("file_ext"@, crate::sql::nullable_text(self.file_ext)),
            ("file_md5"@, crate::sql::nullable_text(self.file_md5)),
            ("transfer_fee"@, crate::sql::nullable_text(self.transfer_fee)),
            ("transfer_direction"@, Val::Integer(self.transfer_direction as int)),
            ("transfer_txid"@, crate::sql::nullable_text(self.transfer_txid)),
            ("refer_svrid"@, crate::sql::nullable_text(self.refer_svrid)),
            ("refer_type"@, Val::Integer(self.refer_type as int)),
            ("refer_content"@, crate::sql::nullable_text(self.refer_content)),
            ("forward_item_count"@, Val::Integer(self.forward_item_count as int)),
            ("red_envelope_wish"@, crate::sql::nullable_text(self.red_envelope_wish)),
            ("red_envelope_count"@, Val::Integer(self.red_envelope_count as int)),
            ("group_pay_amount"@, crate::sql::nullable_text(self.group_pay_amount)),
            ("group_pay_bill_no"@, crate::sql::nullable_text(self.group_pay_bill_no)),
            ("music_desc"@, crate::sql::nullable_text(self.music_desc)),
            ("gift_wish"@, crate::sql::nullable_text(self.gift_wish)),
            ("gift_sku"@, crate::sql::nullable_text(self.gift_sku)),
            ("live_status"@, Val::Integer(self.live_status as int)),
            ("live_desc"@, crate::sql::nullable_text(self.live_desc)),
            ("pay_scene_text"@, crate::sql::nullable_text(self.pay_scene_text)),
        ]
    }

    /// How its fields are shown in a log.
    pub open spec fn shown(self) -> Seq<(&'static str, Shown)> {
        seq![
            ("account_id_sha", Shown::Text(self.account_id_sha)),
            ("source", Shown::Text(self.source)),
            ("source_native_id", Shown::Text(self.source_native_id)),
            ("app_type", Shown::Integer(self.app_type)),
            ("media_count", Shown::Integer(self.media_count)),
            ("account_id_sha8", Shown::Digest(self.account_id)),
            ("title_sha8", Shown::NullableDigest(self.title)),
            ("source_name_sha8", Shown::NullableDigest(self.source_name)),
            ("url_sha8", Shown::NullableDigest(self.url)),
            ("app_username_sha8", Shown::NullableDigest(self.app_username)),
            ("app_nickname_sha8", Shown::NullableDigest(self.app_nickname)),
            ("app_pagepath_sha8", Shown::NullableDigest(self.app_pagepath)),
            ("file_size", Shown::Integer(self.file_size)),
            ("file_ext", Shown::NullableText(self.file_ext)),
            ("file_md5_sha8", Shown::NullableDigest(self.file_md5)),
            ("transfer_fee", Shown::Mark(crate::redact::mark(self.transfer_fee, "[redacted]"))),
            ("transfer_direction", Shown::Integer(self.transfer_direction)),
            ("transfer_txid_sha8", Shown::NullableDigest(self.transfer_txid)),
            ("refer_svrid", Shown::NullableText(self.refer_svrid)),
            ("refer_type", Shown::Integer(self.refer_type)),
            ("refer_content_sha8", Shown::NullableDigest(self.refer_content)),
            ("forward_item_count", Shown::Integer(self.forward_item_count)),
            ("red_envelope_wish_sha8", Shown::NullableDigest(self.red_envelope_wish)),
            ("red_envelope_count", Shown::Integer(self.red_envelope_count)),
            ("group_pay_amount", Shown::Mark(crate::redact::mark(self.group_pay_amount, "[redacted]"))),
            ("group_pay_bill_no_sha8", Shown::NullableDigest(self.group_pay_bill_no)),
            ("music_desc_sha8", Shown::NullableDigest(self.music_desc)),
            ("gift_wish_sha8", Shown::NullableDigest(self.gift_wish)),
            ("gift_sku_sha8", Shown::NullableDigest(self.gift_sku)),
            ("live_status", Shown::Integer(self.live_status)),
            ("live_desc_sha8", Shown::NullableDigest(self.live_desc)),
            ("pay_scene_text", Shown::NullableText(self.pay_scene_text)),
        ]
    }

    /// What it shows of itself in a log.
    pub fn debug_row(&self) -> (row: DebugRow)
        ensures
            row.name@ == "V3MessageApp"@,
            row.fields@ == self.shown(),
            row.complete == false,
    {
        let mut fields: Vec<(&'static str, Shown)> = Vec::new();
        fields.push(("account_id_sha", Shown::Text(self.account_id_sha.clone())));
        fields.push(("source", Shown::Text(self.source.clone())));
        fields.push(("source_native_id", Shown::Text(self.source_native_id.clone())));
        fields.push(("app_type", Shown::Integer(self.app_type)));
        fields.push(("media_count", Shown::Integer(self.media_count)));
        fields.push(("account_id_sha8", Shown::Digest(self.account_id.clone())));
        fields.push(("title_sha8", Shown::NullableDigest(copy_text(&self.title))));
        fields.push(("source_name_sha8", Shown::NullableDigest(copy_text(&self.source_name))));
        fields.push(("url_sha8", Shown::NullableDigest(copy_text(&self.url))));
        fields.push(("app_username_sha8", Shown::NullableDigest(copy_text(&self.app_username))));
        fields.push(("app_nickname_sha8", Shown::NullableDigest(copy_text(&self.app_nickname))));
        fields.push(("app_pagepath_sha8", Shown::NullableDigest(copy_text(&self.app_pagepath))));
        fields.push(("file_size", Shown::Integer(self.file_size)));
        fields.push(("file_ext", Shown::NullableText(copy_text(&self.file_ext))));
        fields.push(("file_md5_sha8", Shown::NullableDigest(copy_text(&self.file_md5))));
        fields.push(("transfer_fee", Shown::Mark(mark_if_any(&self.transfer_fee, "[redacted]"))));
        fields.push(("transfer_direction", Shown::Integer(self.transfer_direction)));
        fields.push(("transfer_txid_sha8", Shown::NullableDigest(copy_text(&self.transfer_txid))));
        fields.push(("refer_svrid", Shown::NullableText(copy_text(&self.refer_svrid))));
        fields.push(("refer_type", Shown::Integer(self.refer_type)));
        fields.push(("refer_content_sha8", Shown::NullableDigest(copy_text(&self.refer_content))));
        fields.push(("forward_item_count", Shown::Integer(self.forward_item_count)));
        fields.push(("red_envelope_wish_sha8", Shown::NullableDigest(copy_text(&self.red_envelope_wish))));
        fields.push(("red_envelope_count", Shown::Integer(self.red_envelope_count)));
        fields.push(("group_pay_amount", Shown::Mark(mark_if_any(&self.group_pay_amount, "[redacted]"))));
        fields.push(("group_pay_bill_no_sha8", Shown::NullableDigest(copy_text(&self.group_pay_bill_no))));
        fields.push(("music_desc_sha8", Shown::NullableDigest(copy_text(&self.music_desc))));
        fields.push(("gift_wish_sha8", Shown::NullableDigest(copy_text(&self.gift_wish))));
        fields.push(("gift_sku_sha8", Shown::NullableDigest(copy_text(&self.gift_sku))));
        fields.push(("live_status", Shown::Integer(self.live_status)));
        fields.push(("live_desc_sha8", Shown::NullableDigest(copy_text(&self.live_desc))));
        fields.push(("pay_scene_text", Shown::NullableText(copy_text(&self.pay_scene_text))));
        assert(fields@ =~= self.shown());
        DebugRow { name: "V3MessageApp", fields, complete: false }
    }
}

/// The columns of the table `message_app`.
pub open spec fn message_app_columns() -> Seq<Column> {
    seq![
        Column { name: "account_id_sha", decl: Decl::TextNotNull },
        Column { name: "source", decl: Decl::TextNotNull },
        Column { name: "source_native_id", decl: Decl::TextNotNull },
        Column { name: "app_type", decl: Decl::IntegerNotNull },
        Column { name: "media_count", decl: Decl::IntegerNotNull },
        Column { name: "account_id", decl: Decl::TextNotNull },
        Column { name: "title", decl: Decl::Text },
        Column { name: "source_name", decl: Decl::Text },
        Column { name: "url", decl: Decl::Text },
        Column { name: "app_username", decl: Decl::Text },
        Column { name: "app_nickname", decl: Decl::Text },
        Column { name: "app_pagepath", decl: Decl::Text },
        Column { name: "file_size", decl: Decl::IntegerDefault(0) },
        Column { name: "file_ext", decl: Decl::Text },
        Column { name: "file_md5", decl: Decl::Text },
        Column { name: "transfer_fee", decl: Decl::Text },
        Column { name: "transfer_direction", decl: Decl::IntegerDefault(0) },
        Column { name: "transfer_txid", decl: Decl::Text },
        Column { name: "refer_svrid", decl: Decl::Text },
        Column { name: "refer_type", decl: Decl::IntegerDefault(0) },
        Column { name: "refer_content", decl: Decl::Text },
        Column { name: "forward_item_count", decl: Decl::IntegerDefault(0) },
        Column { name: "red_envelope_wish", decl: Decl::Text },
        Column { name: "red_envelope_count", decl: Decl::IntegerDefault(0) },
        Column { name: "group_pay_amount", decl: Decl::Text },
        Column { name: "group_pay_bill_no", decl: Decl::Text },
        Column { name: "music_desc", decl: Decl::Text },
        Column { name: "gift_wish", decl: Decl::Text },
        Column { name: "gift_sku", decl: Decl::Text },
        Column { name: "live_status", decl: Decl::IntegerDefault(0) },
        Column { name: "live_desc", decl: Decl::Text },
        Column { name: "pay_scene_text", decl: Decl::Text },
    ]
}

/// The columns of the table `message_app`.
pub fn message_app_table() -> (columns: Vec<Column>)
    ensures
        columns@ == message_app_columns(),
{
    let mut columns: Vec<Column> = Vec::new();
    columns.push(Column { name: "account_id_sha", decl: Decl::TextNotNull });
    columns.push(Column { name: "source", decl: Decl::TextNotNull });
    columns.push(Column { name: "source_native_id", decl: Decl::TextNotNull });
    columns.push(Column { name: "app_type", decl: Decl::IntegerNotNull });
    columns.push(Column { name: "media_count", decl: Decl::IntegerNotNull });
    columns.push(Column { name: "account_id", decl: Decl::TextNotNull });
    columns.push(Column { name: "title", decl: Decl::Text });
    columns.push(Column { name: "source_name", decl: Decl::Text });
    columns.push(Column { name: "url", decl: Decl::Text });
    columns.push(Column { name: "app_username", decl: Decl::Text });
    columns.push(Column { name: "app_nickname", decl: Decl::Text });
    columns.push(Column { name: "app_pagepath", decl: Decl::Text });
    columns.push(Column { name: "file_size", decl: Decl::IntegerDefault(0) });
    columns.push(Column { name: "file_ext", decl: Decl::Text });
    columns.push(Column { name: "file_md5", decl: Decl::Text });
    columns.push(Column { name: "transfer_fee", decl: Decl::Text });
    columns.push(Column { name: "transfer_direction", decl: Decl::IntegerDefault(0) });
    columns.push(Column { name: "transfer_txid", decl: Decl::Text });
    columns.push(Column { name: "refer_svrid", decl: Decl::Text });
    columns.push(Column { name: "refer_type", decl: Decl::IntegerDefault(0) });
    columns.push(Column { name: "refer_content", decl: Decl::Text });
    columns.push(Column { name: "forward_item_count", decl: Decl::IntegerDefault(0) });
    columns.push(Column { name: "red_envelope_wish", decl: Decl::Text });
    columns.push(Column { name: "red_envelope_count", decl: Decl::IntegerDefault(0) });
    columns.push(Column { name: "group_pay_amount", decl: Decl::Text });
    columns.push(Column { name: "group_pay_bill_no", decl: Decl::Text });
    columns.push(Column { name: "music_desc", decl: Decl::Text });
    columns.push(Column { name: "gift_wish", decl: Decl::Text });
    columns.push(Column { name: "gift_sku", decl: Decl::Text });
    columns.push(Column { name: "live_status", decl: Decl::IntegerDefault(0) });
    columns.push(Column { name: "live_desc", decl: Decl::Text });
    columns.push(Column { name: "pay_scene_text", decl: Decl::Text });
    assert(columns@ =~= message_app_columns());
    columns
}

/// The columns that came to the table `message_app` later.
pub open spec fn message_app_later_columns() -> Seq<Column> {
    seq![
        Column { name: "file_size", decl: Decl::IntegerDefault(0) },
        Column { name: "file_ext", decl: Decl::Text },
        Column { name: "file_md5", decl: Decl::Text },
        Column { name: "transfer_fee", decl: Decl::Text },
        Column { name: "transfer_direction", decl: Decl::IntegerDefault(0) },
        Column { name: "transfer_txid", decl: Decl::Text },
        Column { name: "refer_svrid", decl: Decl::Text },
        Column { name: "refer_type", decl: Decl::IntegerDefault(0) },
        Column { name: "refer_content", decl: Decl::Text },
        Column { name: "forward_item_count", decl: Decl::IntegerDefault(0) },
        Column { name: "red_envelope_wish", decl: Decl::Text },
        Column { name: "red_envelope_count", decl: Decl::IntegerDefault(0) },
        Column { name: "group_pay_amount", decl: Decl::Text },
        Column { name: "group_pay_bill_no", decl: Decl::Text },
        Column { name: "music_desc", decl: Decl::Text },
        Column { name: "gift_wish", decl: Decl::Text },
        Column { name: "gift_sku", decl: Decl::Text },
        Column { name: "live_status", decl: Decl::IntegerDefault(0) },
        Column { name: "live_desc", decl: Decl::Text },
        Column { name: "pay_scene_text", decl: Decl::Text },
    ]
}

/// The statements that add to the table `message_app` the later columns that it lacks.
pub fn ensure_message_app_columns(existing: &Vec<String>) -> (statements: Vec<Statement>)
    ensures
        crate::schema::adds(
            statements@,
            "message_app"@,
            crate::schema::missing(message_app_later_columns(), crate::sql::strings(existing@)),
        ),
{
    let mut later: Vec<Column> = Vec::new();
    later.push(Column { name: "file_size", decl: Decl::IntegerDefault(0) });
    later.push(Column { name: "file_ext", decl: Decl::Text });
    later.push(Column { name: "file_md5", decl: Decl::Text });
    later.push(Column { name: "transfer_fee", decl: Decl::Text });
    later.push(Column { name: "transfer_direction", decl: Decl::IntegerDefault(0) });
    later.push(Column { name: "transfer_txid", decl: Decl::Text });
    later.push(Column { name: "refer_svrid", decl: Decl::Text });
    later.push(Column { name: "refer_type", decl: Decl::IntegerDefault(0) });
    later.push(Column { name: "refer_content", decl: Decl::Text });
    later.push(Column { name: "forward_item_count", decl: Decl::IntegerDefault(0) });
    later.push(Column { name: "red_envelope_wish", decl: Decl::Text });
    later.push(Column { name: "red_envelope_count", decl: Decl::IntegerDefault(0) });
    later.push(Column { name: "group_pay_amount", decl: Decl::Text });
    later.push(Column { name: "group_pay_bill_no", decl: Decl::Text });
    later.push(Column { name: "music_desc", decl: Decl::Text });
    later.push(Column { name: "gift_wish", decl: Decl::Text });
    later.push(Column { name: "gift_sku", decl: Decl::Text });
    later.push(Column { name: "live_status", decl: Decl::IntegerDefault(0) });
    later.push(Column { name: "live_desc", decl: Decl::Text });
    later.push(Column { name: "pay_scene_text", decl: Decl::Text });
    assert(later@ =~= message_app_later_columns());
    add_missing("message_app", &later, existing)
}

/// Every later column of the table `message_app` is one of its columns, and the rows that are
/// there when it is added have a value for it.
pub proof fn law_message_app_later_columns_belong(i: int)
    requires
        0 <= i < message_app_later_columns().len(),
    ensures
        crate::schema::column_names(message_app_columns()).contains(message_app_later_columns()[i].name@),
        message_app_later_columns()[i].decl.fills_old_rows(),
{
    let all = crate::schema::column_names(message_app_columns());
    assert(all[12] == "file_size"@);
    assert(all[13] == "file_ext"@);
    assert(all[14] == "file_md5"@);
    assert(all[15] == "transfer_fee"@);
    assert(all[16] == "transfer_direction"@);
    assert(all[17] == "transfer_txid"@);
    assert(all[18] == "refer_svrid"@);
    assert(all[19] == "refer_type"@);
    assert(all[20] == "refer_content"@);
    assert(all[21] == "forward_item_count"@);
    assert(all[22] == "red_envelope_wish"@);
    assert(all[23] == "red_envelope_count"@);
    assert(all[24] == "group_pay_amount"@);
    assert(all[25] == "group_pay_bill_no"@);
    assert(all[26] == "music_desc"@);
    assert(all[27] == "gift_wish"@);
    assert(all[28] == "gift_sku"@);
    assert(all[29] == "live_status"@);
    assert(all[30] == "live_desc"@);
    assert(all[31] == "pay_scene_text"@);
}

/// The columns by which the table `message_app` tells its rows apart.
pub open spec fn message_app_key() -> Seq<Seq<char>> {
    seq!["account_id_sha"@, "source"@, "source_native_id"@]
}

/// A row fills the table: it has a value for every column, and for no other.
pub proof fn law_message_app_row_fills_the_table(row: V3MessageApp)
    ensures
        crate::sql::names(row.row()) == crate::schema::column_names(message_app_columns()),
{
    assert(crate::sql::names(row.row()) =~= crate::schema::column_names(message_app_columns()));
}

/// Two rows of the table `message_app` have the same key exactly where they agree in its fields.
pub proof fn law_message_app_key_tells_rows_apart(a: V3MessageApp, b: V3MessageApp)
    ensures
        crate::relation::same_key(a.row(), b.row(), message_app_key()) <==> {
            &&& a.account_id_sha@ == b.account_id_sha@
            &&& a.source@ == b.source@
            &&& a.source_native_id@ == b.source_native_id@
        },
{
    reveal_strlit("account_id_sha");
    reveal_strlit("source");
    reveal_strlit("source_native_id");
    let (x, y) = (a.row(), b.row());
    assert("account_id_sha"@.len() != "source"@.len());
    assert("account_id_sha"@.len() != "source_native_id"@.len());
    assert("source"@.len() != "source_native_id"@.len());
    let at: Seq<int> = seq![0int, 1, 2];
    crate::relation::lemma_same_key(x, y, message_app_key(), at);
    assert(at[0] == 0);
    assert(at[1] == 1);
    assert(at[2] == 2);
}

/// The steps that make the table `message_app`.
pub open spec fn message_app_steps() -> Seq<Step> {
    seq![
        Step::Create(Table::MessageApp),
        Step::Index(
            Index {
                name: "idx_message_app_type",
                table: "message_app",
                columns: "account_id_sha, app_type",
            },
        ),
        Step::Index(
            Index {
                name: "idx_message_app_username",
                table: "message_app",
                columns: "account_id_sha, app_username",
            },
        ),
        Step::Ensure(Table::MessageApp),
    ]
}

/// The steps that make the table `message_app`.
pub fn init_message_app_table() -> (steps: Vec<Step>)
    ensures
        steps@ == message_app_steps(),
{
    let mut steps: Vec<Step> = Vec::new();
    steps.push(Step::Create(Table::MessageApp));
    steps.push(Step::Index(
        Index {
            name: "idx_message_app_type",
            table: "message_app",
            columns: "account_id_sha, app_type",
        },
    ));
    steps.push(Step::Index(
        Index {
            name: "idx_message_app_username",
            table: "message_app",
            columns: "account_id_sha, app_username",
        },
    ));
    steps.push(Step::Ensure(Table::MessageApp));
    assert(steps@ =~= message_app_steps());
    steps
}

/// The statement that stores a row of the table `message_app`, in place of the row with the same
/// key.
pub fn insert_message_app(a: &V3MessageApp) -> (statement: Statement)
    ensures
        statement.does(Effect::Replace { table: "message_app"@, row: a.row() }),
{
    let mut row = RowBuilder::new();
    row.text("account_id_sha", a.account_id_sha.as_str());
    row.text("source", a.source.as_str());
    row.text("source_native_id", a.source_native_id.as_str());
    row.integer("app_type", a.app_type);
    row.integer("media_count", a.media_count);
    row.text("account_id", a.account_id.as_str());
    row.nullable_text("title", &a.title);
    row.nullable_text("source_name", &a.source_name);
    row.nullable_text("url", &a.url);
    row.nullable_text("app_username", &a.app_username);
    row.nullable_text("app_nickname", &a.app_nickname);
    row.nullable_text("app_pagepath", &a.app_pagepath);
    row.integer("file_size", a.file_size);
    row.nullable_text("file_ext", &a.file_ext);
    row.nullable_text("file_md5", &a.file_md5);
    row.nullable_text("transfer_fee", &a.transfer_fee);
    row.integer("transfer_direction", a.transfer_direction);
    row.nullable_text("transfer_txid", &a.transfer_txid);
    row.nullable_text("refer_svrid", &a.refer_svrid);
    row.integer("refer_type", a.refer_type);
    row.nullable_text("refer_content", &a.refer_content);
    row.integer("forward_item_count", a.forward_item_count);
    row.nullable_text("red_envelope_wish", &a.red_envelope_wish);
    row.integer("red_envelope_count", a.red_envelope_count);
    row.nullable_text("group_pay_amount", &a.group_pay_amount);
    row.nullable_text("group_pay_bill_no", &a.group_pay_bill_no);
    row.nullable_text("music_desc", &a.music_desc);
    row.nullable_text("gift_wish", &a.gift_wish);
    row.nullable_text("gift_sku", &a.gift_sku);
    row.integer("live_status", a.live_status);
    row.nullable_text("live_desc", &a.live_desc);
    row.nullable_text("pay_scene_text", &a.pay_scene_text);
    assert(row@ =~= a.row());
    row.replace_into("message_app")
}

/// The statement that takes out all rows of the table `message_app` that belong to one
/// message.
pub fn delete_message_app(account_id_sha: &str, source: &str, source_native_id: &str) -> (statement: Statement)
    ensures
        statement.does(
            Effect::Delete {
                table: "message_app"@,
                tests: crate::plan::belonging_to(
                    account_id_sha@,
                    source@,
                    "source_native_id"@,
                    source_native_id@,
                ),
            },
        ),
{
    delete_group("message_app", account_id_sha, source, "source_native_id", source_native_id)
}

/// The media of a message.
#[derive(Clone, PartialEq, Eq)]
pub struct V3MessageMedia {
    pub account_id_sha: String,
    pub source: String,
    pub source_native_id: String,
    pub media_kind: String,
    pub file_size: i64,
    pub play_length: i64,
    pub account_id: String,
    pub md5: Option<String>,
    pub aes_key: Option<String>,
    pub cdn_url: Option<String>,
    pub thumb_url: Option<String>,
    pub extra_id: Option<String>,
}

impl V3MessageMedia {
    /// The row that it is stored as.
    pub open spec fn row(self) -> Row {
        seq![
            ("account_id_sha"@, Val::Text(self.account_id_sha@)),
            ("source"@, Val::Text(self.source@)),
            ("source_native_id"@, Val::Text(self.source_native_id@)),
            ("media_kind"@, Val::Text(self.media_kind@)),
            ("file_size"@, Val::Integer(self.file_size as int)),
            ("play_length"@, Val::Integer(self.play_length as int)),
            ("account_id"@, Val::Text(self.account_id@)),
            ("md5"@, crate::sql::nullable_text(self.md5)),
            ("aes_key"@, crate::sql::nullable_text(self.aes_key)),
            ("cdn_url"@, crate::sql::nullable_text(self.cdn_url)),
            ("thumb_url"@, crate::sql::nullable_text(self.thumb_url)),
            ("extra_id"@, crate::sql::nullable_text(self.extra_id)),
        ]
    }

    /// How its fields are shown in a log.
    pub open spec fn shown(self) -> Seq<(&'static str, Shown)> {
        seq![
            ("account_id_sha", Shown::Text(self.account_id_sha)),
            ("source", Shown::Text(self.source)),
            ("source_native_id", Shown::Text(self.source_native_id)),
            ("media_kind", Shown::Text(self.media_kind)),
            ("file_size", Shown::Integer(self.file_size)),
            ("play_length", Shown::Integer(self.play_length)),
            ("account_id_sha8", Shown::Digest(self.account_id)),
            ("md5_sha8", Shown::NullableDigest(self.md5)),
            ("aes_key_sha8", Shown::NullableDigest(self.aes_key)),
            ("cdn_url_sha8", Shown::NullableDigest(self.cdn_url)),
            ("thumb_url_sha8", Shown::NullableDigest(self.thumb_url)),
            ("extra_id_sha8", Shown::NullableDigest(self.extra_id)),
        ]
    }

    /// What it shows of itself in a log.
    pub fn debug_row(&self) -> (row: DebugRow)
        ensures
            row.name@ == "V3MessageMedia"@,
            row.fields@ == self.shown(),
            row.complete == false,
    {
        let mut fields: Vec<(&'static str, Shown)> = Vec::new();
        fields.push(("account_id_sha", Shown::Text(self.account_id_sha.clone())));
        fields.push(("source", Shown::Text(self.source.clone())));
        fields.push(("source_native_id", Shown::Text(self.source_native_id.clone())));
        fields.push(("media_kind", Shown::Text(self.media_kind.clone())));
        fields.push(("file_size", Shown::Integer(self.file_size)));
        fields.push(("play_length", Shown::Integer(self.play_length)));
        fields.push(("account_id_sha8", Shown::Digest(self.account_id.clone())));
        fields.push(("md5_sha8", Shown::NullableDigest(copy_text(&self.md5))));
        fields.push(("aes_key_sha8", Shown::NullableDigest(copy_text(&self.aes_key))));
        fields.push(("cdn_url_sha8", Shown::NullableDigest(copy_text(&self.cdn_url))));
        fields.push(("thumb_url_sha8", Shown::NullableDigest(copy_text(&self.thumb_url))));
        fields.push(("extra_id_sha8", Shown::NullableDigest(copy_text(&self.extra_id))));
        assert(fields@ =~= self.shown());
        DebugRow { name: "V3MessageMedia", fields, complete: false }
    }
}

/// The columns of the table `message_media`.
pub open spec fn message_media_columns() -> Seq<Column> {
    seq![
        Column { name: "account_id_sha", decl: Decl::TextNotNull },
        Column { name: "source", decl: Decl::TextNotNull },
        Column { name: "source_native_id", decl: Decl::TextNotNull },
        Column { name: "media_kind", decl: Decl::TextNotNull },
        Column { name: "file_size", decl: Decl::IntegerNotNull },
        Column { name: "play_length", decl: Decl::IntegerNotNull },
        Column { name: "account_id", decl: Decl::TextNotNull },
        Column { name: "md5", decl: Decl::Text },
        Column { name: "aes_key", decl: Decl::Text },
        Column { name: "cdn_url", decl: Decl::Text },
        Column { name: "thumb_url", decl: Decl::Text },
        Column { name: "extra_id", decl: Decl::Text },
    ]
}

/// The columns of the table `message_media`.
pub fn message_media_table() -> (columns: Vec<Column>)
    ensures
        columns@ == message_media_columns(),
{
    let mut columns: Vec<Column> = Vec::new();
    columns.push(Column { name: "account_id_sha", decl: Decl::TextNotNull });
    columns.push(Column { name: "source", decl: Decl::TextNotNull });
    columns.push(Column { name: "source_native_id", decl: Decl::TextNotNull });
    columns.push(Column { name: "media_kind", decl: Decl::TextNotNull });
    columns.push(Column { name: "file_size", decl: Decl::IntegerNotNull });
    columns.push(Column { name: "play_length", decl: Decl::IntegerNotNull });
    columns.push(Column { name: "account_id", decl: Decl::TextNotNull });
    columns.push(Column { name: "md5", decl: Decl::Text });
    columns.push(Column { name: "aes_key", decl: Decl::Text });
    columns.push(Column { name: "cdn_url", decl: Decl::Text });
    columns.push(Column { name: "thumb_url", decl: Decl::Text });
    columns.push(Column { name: "extra_id", decl: Decl::Text });
    assert(columns@ =~= message_media_columns());
    columns
}

/// The columns by which the table `message_media` tells its rows apart.
pub open spec fn message_media_key() -> Seq<Seq<char>> {
    seq!["account_id_sha"@, "source"@, "source_native_id"@]
}

/// A row fills the table: it has a value for every column, and for no other.
pub proof fn law_message_media_row_fills_the_table(row: V3MessageMedia)
    ensures
        crate::sql::names(row.row()) == crate::schema::column_names(message_media_columns()),
{
    assert(crate::sql::names(row.row()) =~= crate::schema::column_names(message_media_columns()));
}

/// Two rows of the table `message_media` have the same key exactly where they agree in its fields.
pub proof fn law_message_media_key_tells_rows_apart(a: V3MessageMedia, b: V3MessageMedia)
    ensures
        crate::relation::same_key(a.row(), b.row(), message_media_key()) <==> {
            &&& a.account_id_sha@ == b.account_id_sha@
            &&& a.source@ == b.source@
            &&& a.source_native_id@ == b.source_native_id@
        },
{
    reveal_strlit("account_id_sha");
    reveal_strlit("source");
    reveal_strlit("source_native_id");
    let (x, y) = (a.row(), b.row());
    assert("account_id_sha"@.len() != "source"@.len());
    assert("account_id_sha"@.len() != "source_native_id"@.len());
    assert("source"@.len() != "source_native_id"@.len());
    let at: Seq<int> = seq![0int, 1, 2];
    crate::relation::lemma_same_key(x, y, message_media_key(), at);
    assert(at[0] == 0);
    assert(at[1] == 1);
    assert(at[2] == 2);
}

/// The steps that make the table `message_media`.
pub open spec fn message_media_steps() -> Seq<Step> {
    seq![
        Step::Create(Table::MessageMedia),
        Step::Index(
            Index {
                name: "idx_message_media_kind",
                table: "message_media",
                columns: "account_id_sha, media_kind",
            },
        ),
        Step::Index(
            Index {
                name: "idx_message_media_md5",
                table: "message_media",
                columns: "account_id_sha, md5",
            },
        ),
    ]
}

/// The steps that make the table `message_media`.
pub fn init_message_media_table() -> (steps: Vec<Step>)
    ensures
        steps@ == message_media_steps(),
{
    let mut steps: Vec<Step> = Vec::new();
    steps.push(Step::Create(Table::MessageMedia));
    steps.push(Step::Index(
        Index {
            name: "idx_message_media_kind",
            table: "message_media",
            columns: "account_id_sha, media_kind",
        },
    ));
    steps.push(Step::Index(
        Index {
            name: "idx_message_media_md5",
            table: "message_media",
            columns: "account_id_sha, md5",
        },
    ));
    assert(steps@ =~= message_media_steps());
    steps
}

/// The statement that stores a row of the table `message_media`, in place of the row with the same
/// key.
pub fn insert_message_media(m: &V3MessageMedia) -> (statement: Statement)
    ensures
        statement.does(Effect::Replace { table: "message_media"@, row: m.row() }),
{
    let mut row = RowBuilder::new();
    row.text("account_id_sha", m.account_id_sha.as_str());
    row.text("source", m.source.as_str());
    row.text("source_native_id", m.source_native_id.as_str());
    row.text("media_kind", m.media_kind.as_str());
    row.integer("file_size", m.file_size);
    row.integer("play_length", m.play_length);
    row.text("account_id", m.account_id.as_str());
    row.nullable_text("md5", &m.md5);
    row.nullable_text("aes_key", &m.aes_key);
    row.nullable_text("cdn_url", &m.cdn_url);
    row.nullable_text("thumb_url", &m.thumb_url);
    row.nullable_text("extra_id", &m.extra_id);
    assert(row@ =~= m.row());
    row.replace_into("message_media")
}

/// The statement that takes out all rows of the table `message_media` that belong to one
/// message.
pub fn delete_message_media(account_id_sha: &str, source: &str, source_native_id: &str) -> (statement: Statement)
    ensures
        statement.does(
            Effect::Delete {
                table: "message_media"@,
                tests: crate::plan::belonging_to(
                    account_id_sha@,
                    source@,
                    "source_native_id"@,
                    source_native_id@,
                ),
            },
        ),
{
    delete_group("message_media", account_id_sha, source, "source_native_id", source_native_id)
}

/// The place that a message shares.
#[derive(Clone, PartialEq, Eq)]
pub struct V3MessageLocation {
    pub account_id_sha: String,
    pub source: String,
    pub source_native_id: String,
    pub scale: i64,
    pub account_id: String,
    pub latitude: Real,
    pub longitude: Real,
    pub label: Option<String>,
    pub poiname: Option<String>,
    pub poiid: Option<String>,
    pub maptype: i64,
    pub adcode: Option<String>,
    pub cityname: Option<String>,
}

impl V3MessageLocation {
    /// The row that it is stored as.
    pub open spec fn row(self) -> Row {
        seq![
            ("account_id_sha"@, Val::Text(self.account_id_sha@)),
            ("source"@, Val::Text(self.source@)),
            ("source_native_id"@, Val::Text(self.source_native_id@)),
            ("scale"@, Val::Integer(self.scale as int)),
            ("account_id"@, Val::Text(self.account_id@)),
            ("latitude"@, Val::Real(self.latitude.bits)),
            ("longitude"@, Val::Real(self.longitude.bits)),
            ("label"@, crate::sql::nullable_text(self.label)),
            ("poiname"@, crate::sql::nullable_text(self.poiname)),
            ("poiid"@, crate::sql::nullable_text(self.poiid)),
            ("maptype"@, Val::Integer(self.maptype as int)),
            ("adcode"@, crate::sql::nullable_text(self.adcode)),
            ("cityname"@, crate::sql::nullable_text(self.cityname)),
        ]
    }

    /// How its fields are shown in a log.
    pub open spec fn shown(self) -> Seq<(&'static str, Shown)> {
        seq![
            ("account_id_sha", Shown::Text(self.account_id_sha)),
            ("source", Shown::Text(self.source)),
            ("source_native_id", Shown::Text(self.source_native_id)),
            ("scale", Shown::Integer(self.scale)),
            ("account_id_sha8", Shown::Digest(self.account_id)),
            ("lat~", Shown::Rounded(self.latitude)),
            ("lng~", Shown::Rounded(self.longitude)),
            ("label_sha8", Shown::NullableDigest(self.label)),
            ("poiname_sha8", Shown::NullableDigest(self.poiname)),
            ("poiid_sha8", Shown::NullableDigest(self.poiid)),
            ("maptype", Shown::Integer(self.maptype)),
            ("adcode", Shown::NullableText(self.adcode)),
            ("cityname", Shown::NullableText(self.cityname)),
        ]
    }

    /// What it shows of itself in a log.
    pub fn debug_row(&self) -> (row: DebugRow)
        ensures
            row.name@ == "V3MessageLocation"@,
            row.fields@ == self.shown(),
            row.complete == false,
    {
        let mut fields: Vec<(&'static str, Shown)> = Vec::new();
        fields.push(("account_id_sha", Shown::Text(self.account_id_sha.clone())));
        fields.push(("source", Shown::Text(self.source.clone())));
        fields.push(("source_native_id", Shown::Text(self.source_native_id.clone())));
        fields.push(("scale", Shown::Integer(self.scale)));
        fields.push(("account_id_sha8", Shown::Digest(self.account_id.clone())));
        fields.push(("lat~", Shown::Rounded(self.latitude)));
        fields.push(("lng~", Shown::Rounded(self.longitude)));
        fields.push(("label_sha8", Shown::NullableDigest(copy_text(&self.label))));
        fields.push(("poiname_sha8", Shown::NullableDigest(copy_text(&self.poiname))));
        fields.push(("poiid_sha8", Shown::NullableDigest(copy_text(&self.poiid))));
        fields.push(("maptype", Shown::Integer(self.maptype)));
        fields.push(("adcode", Shown::NullableText(copy_text(&self.adcode))));
        fields.push(("cityname", Shown::NullableText(copy_text(&self.cityname))));
        assert(fields@ =~= self.shown());
        DebugRow { name: "V3MessageLocation", fields, complete: false }
    }
}

/// The columns of the table `message_location`.
pub open spec fn message_location_columns() -> Seq<Column> {
    seq![
        Column { name: "account_id_sha", decl: Decl::TextNotNull },
        Column { name: "source", decl: Decl::TextNotNull },
        Column { name: "source_native_id", decl: Decl::TextNotNull },
        Column { name: "scale", decl: Decl::IntegerNotNull },
        Column { name: "account_id", decl: Decl::TextNotNull },
        Column { name: "latitude", decl: Decl::RealNotNull },
        Column { name: "longitude", decl: Decl::RealNotNull },
        Column { name: "label", decl: Decl::Text },
        Column { name: "poiname", decl: Decl::Text },
        Column { name: "poiid", decl: Decl::Text },
        Column { name: "maptype", decl: Decl::IntegerDefault(0) },
        Column { name: "adcode", decl: Decl::Text },
        Column { name: "cityname", decl: Decl::Text },
    ]
}

/// The columns of the table `message_location`.
pub fn message_location_table() -> (columns: Vec<Column>)
    ensures
        columns@ == message_location_columns(),
{
    let mut columns: Vec<Column> = Vec::new();
    columns.push(Column { name: "account_id_sha", decl: Decl::TextNotNull });
    columns.push(Column { name: "source", decl: Decl::TextNotNull });
    columns.push(Column { name: "source_native_id", decl: Decl::TextNotNull });
    columns.push(Column { name: "scale", decl: Decl::IntegerNotNull });
    columns.push(Column { name: "account_id", decl: Decl::TextNotNull });
    columns.push(Column { name: "latitude", decl: Decl::RealNotNull });
    columns.push(Column { name: "longitude", decl: Decl::RealNotNull });
    columns.push(Column { name: "label", decl: Decl::Text });
    columns.push(Column { name: "poiname", decl: Decl::Text });
    columns.push(Column { name: "poiid", decl: Decl::Text });
    columns.push(Column { name: "maptype", decl: Decl::IntegerDefault(0) });
    columns.push(Column { name: "adcode", decl: Decl::Text });
    columns.push(Column { name: "cityname", decl: Decl::Text });
    assert(columns@ =~= message_location_columns());
    columns
}

/// The columns that came to the table `message_location` later.
pub open spec fn message_location_later_columns() -> Seq<Column> {
    seq![
        Column { name: "maptype", decl: Decl::IntegerDefault(0) },
        Column { name: "adcode", decl: Decl::Text },
        Column { name: "cityname", decl: Decl::Text },
    ]
}

/// The statements that add to the table `message_location` the later columns that it lacks.
pub fn ensure_message_location_columns(existing: &Vec<String>) -> (statements: Vec<Statement>)
    ensures
        crate::schema::adds(
            statements@,
            "message_location"@,
            crate::schema::missing(message_location_later_columns(), crate::sql::strings(existing@)),
        ),
{
    let mut later: Vec<Column> = Vec::new();
    later.push(Column { name: "maptype", decl: Decl::IntegerDefault(0) });
    later.push(Column { name: "adcode", decl: Decl::Text });
    later.push(Column { name: "cityname", decl: Decl::Text });
    assert(later@ =~= message_location_later_columns());
    add_missing("message_location", &later, existing)
}

/// Every later column of the table `message_location` is one of its columns, and the rows that are
/// there when it is added have a value for it.
pub proof fn law_message_location_later_columns_belong(i: int)
    requires
        0 <= i < message_location_later_columns().len(),
    ensures
        crate::schema::column_names(message_location_columns()).contains(message_location_later_columns()[i].name@),
        message_location_later_columns()[i].decl.fills_old_rows(),
{
    let all = crate::schema::column_names(message_location_columns());
    assert(all[10] == "maptype"@);
    assert(all[11] == "adcode"@);
    assert(all[12] == "cityname"@);
}

/// The columns by which the table `message_location` tells its rows apart.
pub open spec fn message_location_key() -> Seq<Seq<char>> {
    seq!["account_id_sha"@, "source"@, "source_native_id"@]
}

/// A row fills the table: it has a value for every column, and for no other.
pub proof fn law_message_location_row_fills_the_table(row: V3MessageLocation)
    ensures
        crate::sql::names(row.row()) == crate::schema::column_names(message_location_columns()),
{
    assert(crate::sql::names(row.row()) =~= crate::schema::column_names(message_location_columns()));
}

/// Two rows of the table `message_location` have the same key exactly where they agree in its fields.
pub proof fn law_message_location_key_tells_rows_apart(a: V3MessageLocation, b: V3MessageLocation)
    ensures
        crate::relation::same_key(a.row(), b.row(), message_location_key()) <==> {
            &&& a.account_id_sha@ == b.account_id_sha@
            &&& a.source@ == b.source@
            &&& a.source_native_id@ == b.source_native_id@
        },
{
    reveal_strlit("account_id_sha");
    reveal_strlit("source");
    reveal_strlit("source_native_id");
    let (x, y) = (a.row(), b.row());
    assert("account_id_sha"@.len() != "source"@.len());
    assert("account_id_sha"@.len() != "source_native_id"@.len());
    assert("source"@.len() != "source_native_id"@.len());
    let at: Seq<int> = seq![0int, 1, 2];
    crate::relation::lemma_same_key(x, y, message_location_key(), at);
    assert(at[0] == 0);
    assert(at[1] == 1);
    assert(at[2] == 2);
}

/// The steps that make the table `message_location`.
pub open spec fn message_location_steps() -> Seq<Step> {
    seq![
        Step::Create(Table::MessageLocation),
        Step::Index(
            Index {
                name: "idx_message_location_acct",
                table: "message_location",
                columns: "account_id_sha",
            },
        ),
        Step::Ensure(Table::MessageLocation),
    ]
}

/// The steps that make the table `message_location`.
pub fn init_message_location_table() -> (steps: Vec<Step>)
    ensures
        steps@ == message_location_steps(),
{
    let mut steps: Vec<Step> = Vec::new();
    steps.push(Step::Create(Table::MessageLocation));
    steps.push(Step::Index(
        Index {
            name: "idx_message_location_acct",
            table: "message_location",
            columns: "account_id_sha",
        },
    ));
    steps.push(Step::Ensure(Table::MessageLocation));
    assert(steps@ =~= message_location_steps());
    steps
}

/// The statement that stores a row of the table `message_location`, in place of the row with the same
/// key.
pub fn insert_message_location(m: &V3MessageLocation) -> (statement: Statement)
    ensures
        statement.does(Effect::Replace { table: "message_location"@, row: m.row() }),
{
    let mut row = RowBuilder::new();
    row.text("account_id_sha", m.account_id_sha.as_str());
    row.text("source", m.source.as_str());
    row.text("source_native_id", m.source_native_id.as_str());
    row.integer("scale", m.scale);
    row.text("account_id", m.account_id.as_str());
    row.float("latitude", m.latitude);
    row.float("longitude", m.longitude);
    row.nullable_text("label", &m.label);
    row.nullable_text("poiname", &m.poiname);
    row.nullable_text("poiid", &m.poiid);
    row.integer("maptype", m.maptype);
    row.nullable_text("adcode", &m.adcode);
    row.nullable_text("cityname", &m.cityname);
    assert(row@ =~= m.row());
    row.replace_into("message_location")
}

/// The statement that takes out all rows of the table `message_location` that belong to one
/// message.
pub fn delete_message_location(account_id_sha: &str, source: &str, source_native_id: &str) -> (statement: Statement)
    ensures
        statement.does(
            Effect::Delete {
                table: "message_location"@,
                tests: crate::plan::belonging_to(
                    account_id_sha@,
                    source@,
                    "source_native_id"@,
                    source_native_id@,
                ),
            },
        ),
{
    delete_group("message_location", account_id_sha, source, "source_native_id", source_native_id)
}

/// The call that a message records.
#[derive(Clone, PartialEq, Eq)]
pub struct V3MessageCall {
    pub account_id_sha: String,
    pub source: String,
    pub source_native_id: String,
    pub invite_type: i64,
    pub room_type: i64,
    pub call_state: i64,
    pub duration: i64,
    pub account_id: String,
    pub display_content: String,
}

impl V3MessageCall {
    /// The row that it is stored as.
    pub open spec fn row(self) -> Row {
        seq![
            ("account_id_sha"@, Val::Text(self.account_id_sha@)),
            ("source"@, Val::Text(self.source@)),
            ("source_native_id"@, Val::Text(self.source_native_id@)),
            ("invite_type"@, Val::Integer(self.invite_type as int)),
            ("room_type"@, Val::Integer(self.room_type as int)),
            ("call_state"@, Val::Integer(self.call_state as int)),
            ("duration"@, Val::Integer(self.duration as int)),
            ("account_id"@, Val::Text(self.account_id@)),
            ("display_content"@, Val::Text(self.display_content@)),
        ]
    }

    /// How its fields are shown in a log.
    pub open spec fn shown(self) -> Seq<(&'static str, Shown)> {
        seq![
            ("account_id_sha", Shown::Text(self.account_id_sha)),
            ("source", Shown::Text(self.source)),
            ("source_native_id", Shown::Text(self.source_native_id)),
            ("invite_type", Shown::Integer(self.invite_type)),
            ("room_type", Shown::Integer(self.room_type)),
            ("call_state", Shown::Integer(self.call_state)),
            ("duration", Shown::Integer(self.duration)),
            ("account_id_sha8", Shown::Digest(self.account_id)),
            ("display_content", Shown::Text(self.display_content)),
        ]
    }

    /// What it shows of itself in a log.
    pub fn debug_row(&self) -> (row: DebugRow)
        ensures
            row.name@ == "V3MessageCall"@,
            row.fields@ == self.shown(),
            row.complete == true,
    {
        let mut fields: Vec<(&'static str, Shown)> = Vec::new();
        fields.push(("account_id_sha", Shown::Text(self.account_id_sha.clone())));
        fields.push(("source", Shown::Text(self.source.clone())));
        fields.push(("source_native_id", Shown::Text(self.source_native_id.clone())));
        fields.push(("invite_type", Shown::Integer(self.invite_type)));
        fields.push(("room_type", Shown::Integer(self.room_type)));
        fields.push(("call_state", Shown::Integer(self.call_state)));
        fields.push(("duration", Shown::Integer(self.duration)));
        fields.push(("account_id_sha8", Shown::Digest(self.account_id.clone())));
        fields.push(("display_content", Shown::Text(self.display_content.clone())));
        assert(fields@ =~= self.shown());
        DebugRow { name: "V3MessageCall", fields, complete: true }
    }
}

/// The columns of the table `message_call`.
pub open spec fn message_call_columns() -> Seq<Column> {
    seq![
        Column { name: "account_id_sha", decl: Decl::TextNotNull },
        Column { name: "source", decl: Decl::TextNotNull },
        Column { name: "source_native_id", decl: Decl::TextNotNull },
        Column { name: "invite_type", decl: Decl::IntegerNotNull },
        Column { name: "room_type", decl: Decl::IntegerNotNull },
        Column { name: "call_state", decl: Decl::IntegerNotNull },
        Column { name: "duration", decl: Decl::IntegerNotNull },
        Column { name: "account_id", decl: Decl::TextNotNull },
        Column { name: "display_content", decl: Decl::TextNotNull },
    ]
}

/// The columns of the table `message_call`.
pub fn message_call_table() -> (columns: Vec<Column>)
    ensures
        columns@ == message_call_columns(),
{
    let mut columns: Vec<Column> = Vec::new();
    columns.push(Column { name: "account_id_sha", decl: Decl::TextNotNull });
    columns.push(Column { name: "source", decl: Decl::TextNotNull });
    columns.push(Column { name: "source_native_id", decl: Decl::TextNotNull });
    columns.push(Column { name: "invite_type", decl: Decl::IntegerNotNull });
    columns.push(Column { name: "room_type", decl: Decl::IntegerNotNull });
    columns.push(Column { name: "call_state", decl: Decl::IntegerNotNull });
    columns.push(Column { name: "duration", decl: Decl::IntegerNotNull });
    columns.push(Column { name: "account_id", decl: Decl::TextNotNull });
    columns.push(Column { name: "display_content", decl: Decl::TextNotNull });
    assert(columns@ =~= message_call_columns());
    columns
}

/// The columns by which the table `message_call` tells its rows apart.
pub open spec fn message_call_key() -> Seq<Seq<char>> {
    seq!["account_id_sha"@, "source"@, "source_native_id"@]
}

/// A row fills the table: it has a value for every column, and for no other.
pub proof fn law_message_call_row_fills_the_table(row: V3MessageCall)
    ensures
        crate::sql::names(row.row()) == crate::schema::column_names(message_call_columns()),
{
    assert(crate::sql::names(row.row()) =~= crate::schema::column_names(message_call_columns()));
}

/// Two rows of the table `message_call` have the same key exactly where they agree in its fields.
pub proof fn law_message_call_key_tells_rows_apart(a: V3MessageCall, b: V3MessageCall)
    ensures
        crate::relation::same_key(a.row(), b.row(), message_call_key()) <==> {
            &&& a.account_id_sha@ == b.account_id_sha@
            &&& a.source@ == b.source@
            &&& a.source_native_id@ == b.source_native_id@
        },
{
    reveal_strlit("account_id_sha");
    reveal_strlit("source");
    reveal_strlit("source_native_id");
    let (x, y) = (a.row(), b.row());
    assert("account_id_sha"@.len() != "source"@.len());
    assert("account_id_sha"@.len() != "source_native_id"@.len());
    assert("source"@.len() != "source_native_id"@.len());
    let at: Seq<int> = seq![0int, 1, 2];
    crate::relation::lemma_same_key(x, y, message_call_key(), at);
    assert(at[0] == 0);
    assert(at[1] == 1);
    assert(at[2] == 2);
}

/// The steps that make the table `message_call`.
pub open spec fn message_call_steps() -> Seq<Step> {
    seq![
        Step::Create(Table::MessageCall),
        Step::Index(
            Index {
                name: "idx_message_call_acct",
                table: "message_call",
                columns: "account_id_sha",
            },
        ),
    ]
}

/// The steps that make the table `message_call`.
pub fn init_message_call_table() -> (steps: Vec<Step>)
    ensures
        steps@ == message_call_steps(),
{
    let mut steps: Vec<Step> = Vec::new();
    steps.push(Step::Create(Table::MessageCall));
    steps.push(Step::Index(
        Index {
            name: "idx_message_call_acct",
            table: "message_call",
            columns: "account_id_sha",
        },
    ));
    assert(steps@ =~= message_call_steps());
    steps
}

/// The statement that stores a row of the table `message_call`, in place of the row with the same
/// key.
pub fn insert_message_call(m: &V3MessageCall) -> (statement: Statement)
    ensures
        statement.does(Effect::Replace { table: "message_call"@, row: m.row() }),
{
    let mut row = RowBuilder::new();
    row.text("account_id_sha", m.account_id_sha.as_str());
    row.text("source", m.source.as_str());
    row.text("source_native_id", m.source_native_id.as_str());
    row.integer("invite_type", m.invite_type);
    row.integer("room_type", m.room_type);
    row.integer("call_state", m.call_state);
    row.integer("duration", m.duration);
    row.text("account_id", m.account_id.as_str());
    row.text("display_content", m.display_content.as_str());
    assert(row@ =~= m.row());
    row.replace_into("message_call")
}

/// The statement that takes out all rows of the table `message_call` that belong to one
/// message.
pub fn delete_message_call(account_id_sha: &str, source: &str, source_native_id: &str) -> (statement: Statement)
    ensures
        statement.does(
            Effect::Delete {
                table: "message_call"@,
                tests: crate::plan::belonging_to(
                    account_id_sha@,
                    source@,
                    "source_native_id"@,
                    source_native_id@,
                ),
            },
        ),
{
    delete_group("message_call", account_id_sha, source, "source_native_id", source_native_id)
}

/// The claim of a red envelope that a message records.
#[derive(Clone, PartialEq, Eq)]
pub struct V3MessageHongbaoClaim {
    pub account_id_sha: String,
    pub source: String,
    pub source_native_id: String,
    pub send_id: String,
    pub is_own_envelope: bool,
    pub account_id: String,
    pub peer_name: String,
}

impl V3MessageHongbaoClaim {
    /// The row that it is stored as.
    pub open spec fn row(self) -> Row {
        seq![
            ("account_id_sha"@, Val::Text(self.account_id_sha@)),
            ("source"@, Val::Text(self.source@)),
            ("source_native_id"@, Val::Text(self.source_native_id@)),
            ("send_id"@, Val::Text(self.send_id@)),
            ("is_own_envelope"@, crate::sql::flag(self.is_own_envelope)),
            ("account_id"@, Val::Text(self.account_id@)),
            ("peer_name"@, Val::Text(self.peer_name@)),
        ]
    }

    /// How its fields are shown in a log.
    pub open spec fn shown(self) -> Seq<(&'static str, Shown)> {
        seq![
            ("account_id_sha", Shown::Text(self.account_id_sha)),
            ("source", Shown::Text(self.source)),
            ("source_native_id", Shown::Text(self.source_native_id)),
            ("send_id", Shown::Text(self.send_id)),
            ("is_own_envelope", Shown::Flag(self.is_own_envelope)),
            ("account_id_sha8", Shown::Digest(self.account_id)),
            ("peer_name_sha8", Shown::Digest(self.peer_name)),
        ]
    }

    /// What it shows of itself in a log.
    pub fn debug_row(&self) -> (row: DebugRow)
        ensures
            row.name@ == "V3MessageHongbaoClaim"@,
            row.fields@ == self.shown(),
            row.complete == true,
    {
        let mut fields: Vec<(&'static str, Shown)> = Vec::new();
        fields.push(("account_id_sha", Shown::Text(self.account_id_sha.clone())));
        fields.push(("source", Shown::Text(self.source.clone())));
        fields.push(("source_native_id", Shown::Text(self.source_native_id.clone())));
        fields.push(("send_id", Shown::Text(self.send_id.clone())));
        fields.push(("is_own_envelope", Shown::Flag(self.is_own_envelope)));
        fields.push(("account_id_sha8", Shown::Digest(self.account_id.clone())));
        fields.push(("peer_name_sha8", Shown::Digest(self.peer_name.clone())));
        assert(fields@ =~= self.shown());
        DebugRow { name: "V3MessageHongbaoClaim", fields, complete: true }
    }
}

/// The columns of the table `message_hongbao_claim`.
pub open spec fn message_hongbao_claim_columns() -> Seq<Column> {
    seq![
        Column { name: "account_id_sha", decl: Decl::TextNotNull },
        Column { name: "source", decl: Decl::TextNotNull },
        Column { name: "source_native_id", decl: Decl::TextNotNull },
        Column { name: "send_id", decl: Decl::TextNotNull },
        Column { name: "is_own_envelope", decl: Decl::IntegerNotNull },
        Column { name: "account_id", decl: Decl::TextNotNull },
        Column { name: "peer_name", decl: Decl::TextNotNull },
    ]
}

/// The columns of the table `message_hongbao_claim`.
pub fn message_hongbao_claim_table() -> (columns: Vec<Column>)
    ensures
        columns@ == message_hongbao_claim_columns(),
{
    let mut columns: Vec<Column> = Vec::new();
    columns.push(Column { name: "account_id_sha", decl: Decl::TextNotNull });
    columns.push(Column { name: "source", decl: Decl::TextNotNull });
    columns.push(Column { name: "source_native_id", decl: Decl::TextNotNull });
    columns.push(Column { name: "send_id", decl: Decl::TextNotNull });
    columns.push(Column { name: "is_own_envelope", decl: Decl::IntegerNotNull });
    columns.push(Column { name: "account_id", decl: Decl::TextNotNull });
    columns.push(Column { name: "peer_name", decl: Decl::TextNotNull });
    assert(columns@ =~= message_hongbao_claim_columns());
    columns
}

/// The columns by which the table `message_hongbao_claim` tells its rows apart.
pub open spec fn message_hongbao_claim_key() -> Seq<Seq<char>> {
    seq!["account_id_sha"@, "source"@, "source_native_id"@]
}

/// A row fills the table: it has a value for every column, and for no other.
pub proof fn law_message_hongbao_claim_row_fills_the_table(row: V3MessageHongbaoClaim)
    ensures
        crate::sql::names(row.row()) == crate::schema::column_names(message_hongbao_claim_columns()),
{
    assert(crate::sql::names(row.row()) =~= crate::schema::column_names(message_hongbao_claim_columns()));
}

/// Two rows of the table `message_hongbao_claim` have the same key exactly where they agree in its fields.
pub proof fn law_message_hongbao_claim_key_tells_rows_apart(a: V3MessageHongbaoClaim, b: V3MessageHongbaoClaim)
    ensures
        crate::relation::same_key(a.row(), b.row(), message_hongbao_claim_key()) <==> {
            &&& a.account_id_sha@ == b.account_id_sha@
            &&& a.source@ == b.source@
            &&& a.source_native_id@ == b.source_native_id@
        },
{
    reveal_strlit("account_id_sha");
    reveal_strlit("source");
    reveal_strlit("source_native_id");
    let (x, y) = (a.row(), b.row());
    assert("account_id_sha"@.len() != "source"@.len());
    assert("account_id_sha"@.len() != "source_native_id"@.len());
    assert("source"@.len() != "source_native_id"@.len());
    let at: Seq<int> = seq![0int, 1, 2];
    crate::relation::lemma_same_key(x, y, message_hongbao_claim_key(), at);
    assert(at[0] == 0);
    assert(at[1] == 1);
    assert(at[2] == 2);
}

/// The steps that make the table `message_hongbao_claim`.
pub open spec fn message_hongbao_claim_steps() -> Seq<Step> {
    seq![
        Step::Create(Table::MessageHongbaoClaim),
        Step::Index(
            Index {
                name: "idx_message_hongbao_claim_send",
                table: "message_hongbao_claim",
                columns: "account_id_sha, send_id",
            },
        ),
    ]
}

/// The steps that make the table `message_hongbao_claim`.
pub fn init_message_hongbao_claim_table() -> (steps: Vec<Step>)
    ensures
        steps@ == message_hongbao_claim_steps(),
{
    let mut steps: Vec<Step> = Vec::new();
    steps.push(Step::Create(Table::MessageHongbaoClaim));
    steps.push(Step::Index(
        Index {
            name: "idx_message_hongbao_claim_send",
            table: "message_hongbao_claim",
            columns: "account_id_sha, send_id",
        },
    ));
    assert(steps@ =~= message_hongbao_claim_steps());
    steps
}

/// The statement that stores a row of the table `message_hongbao_claim`, in place of the row with the same
/// key.
pub fn insert_message_hongbao_claim(m: &V3MessageHongbaoClaim) -> (statement: Statement)
    ensures
        statement.does(Effect::Replace { table: "message_hongbao_claim"@, row: m.row() }),
{
    let mut row = RowBuilder::new();
    row.text("account_id_sha", m.account_id_sha.as_str());
    row.text("source", m.source.as_str());
    row.text("source_native_id", m.source_native_id.as_str());
    row.text("send_id", m.send_id.as_str());
    row.flag("is_own_envelope", m.is_own_envelope);
    row.text("account_id", m.account_id.as_str());
    row.text("peer_name", m.peer_name.as_str());
    assert(row@ =~= m.row());
    row.replace_into("message_hongbao_claim")
}

/// The statement that takes out all rows of the table `message_hongbao_claim` that belong to one
/// message.
pub fn delete_message_hongbao_claim(account_id_sha: &str, source: &str, source_native_id: &str) -> (statement: Statement)
    ensures
        statement.does(
            Effect::Delete {
                table: "message_hongbao_claim"@,
                tests: crate::plan::belonging_to(
                    account_id_sha@,
                    source@,
                    "source_native_id"@,
                    source_native_id@,
                ),
            },
        ),
{
    delete_group("message_hongbao_claim", account_id_sha, source, "source_native_id", source_native_id)
}

/// The contact card that a message shares.
#[derive(Clone, PartialEq, Eq)]
pub struct V3MessageCard {
    pub account_id_sha: String,
    pub source: String,
    pub source_native_id: String,
    pub card_sex: i64,
    pub account_id: String,
    pub card_username: String,
    pub card_nickname: Option<String>,
    pub card_alias: Option<String>,
    pub card_province: Option<String>,
    pub card_city: Option<String>,
    pub card_sign: Option<String>,
    pub card_open_im_desc: Option<String>,
    pub big_head_url: Option<String>,
    pub small_head_url: Option<String>,
}

impl V3MessageCard {
    /// The row that it is stored as.
    pub open spec fn row(self) -> Row {
        seq![
            ("account_id_sha"@, Val::Text(self.account_id_sha@)),
            ("source"@, Val::Text(self.source@)),
            ("source_native_id"@, Val::Text(self.source_native_id@)),
            ("card_sex"@, Val::Integer(self.card_sex as int)),
            ("account_id"@, Val::Text(self.account_id@)),
            ("card_username"@, Val::Text(self.card_username@)),
            ("card_nickname"@, crate::sql::nullable_text(self.card_nickname)),
            ("card_alias"@, crate::sql::nullable_text(self.card_alias)),
            ("card_province"@, crate::sql::nullable_text(self.card_province)),
            ("card_city"@, crate::sql::nullable_text(self.card_city)),
            ("card_sign"@, crate::sql::nullable_text(self.card_sign)),
            ("card_open_im_desc"@, crate::sql::nullable_text(self.card_open_im_desc)),
            ("big_head_url"@, crate::sql::nullable_text(self.big_head_url)),
            ("small_head_url"@, crate::sql::nullable_text(self.small_head_url)),
        ]
    }

    /// How its fields are shown in a log.
    pub open spec fn shown(self) -> Seq<(&'static str, Shown)> {
        seq![
            ("account_id_sha", Shown::Text(self.account_id_sha)),
            ("source", Shown::Text(self.source)),
            ("source_native_id", Shown::Text(self.source_native_id)),
            ("card_sex", Shown::Integer(self.card_sex)),
            ("account_id_sha8", Shown::Digest(self.account_id)),
            ("card_username_sha8", Shown::Digest(self.card_username)),
            ("card_nickname_sha8", Shown::NullableDigest(self.card_nickname)),
            ("card_alias_sha8", Shown::NullableDigest(self.card_alias)),
            ("card_province", Shown::NullableText(self.card_province)),
            ("card_city", Shown::NullableText(self.card_city)),
            ("card_sign_sha8", Shown::NullableDigest(self.card_sign)),
            ("card_open_im_desc_sha8", Shown::NullableDigest(self.card_open_im_desc)),
            ("big_head_url_len", Shown::NullableCount(crate::redact::chars_if_any(self.big_head_url))),
            ("small_head_url_len", Shown::NullableCount(crate::redact::chars_if_any(self.small_head_url))),
        ]
    }

    /// What it shows of itself in a log.
    pub fn debug_row(&self) -> (row: DebugRow)
        ensures
            row.name@ == "V3MessageCard"@,
            row.fields@ == self.shown(),
            row.complete == true,
    {
        let mut fields: Vec<(&'static str, Shown)> = Vec::new();
        fields.push(("account_id_sha", Shown::Text(self.account_id_sha.clone())));
        fields.push(("source", Shown::Text(self.source.clone())));
        fields.push(("source_native_id", Shown::Text(self.source_native_id.clone())));
        fields.push(("card_sex", Shown::Integer(self.card_sex)));
        fields.push(("account_id_sha8", Shown::Digest(self.account_id.clone())));
        fields.push(("card_username_sha8", Shown::Digest(self.card_username.clone())));
        fields.push(("card_nickname_sha8", Shown::NullableDigest(copy_text(&self.card_nickname))));
        fields.push(("card_alias_sha8", Shown::NullableDigest(copy_text(&self.card_alias))));
        fields.push(("card_province", Shown::NullableText(copy_text(&self.card_province))));
        fields.push(("card_city", Shown::NullableText(copy_text(&self.card_city))));
        fields.push(("card_sign_sha8", Shown::NullableDigest(copy_text(&self.card_sign))));
        fields.push(("card_open_im_desc_sha8", Shown::NullableDigest(copy_text(&self.card_open_im_desc))));
        fields.push(("big_head_url_len", Shown::NullableCount(count_if_any(&self.big_head_url))));
        fields.push(("small_head_url_len", Shown::NullableCount(count_if_any(&self.small_head_url))));
        assert(fields@ =~= self.shown());
        DebugRow { name: "V3MessageCard", fields, complete: true }
    }
}

/// The columns of the table `message_card`.
pub open spec fn message_card_columns() -> Seq<Column> {
    seq![
        Column { name: "account_id_sha", decl: Decl::TextNotNull },
        Column { name: "source", decl: Decl::TextNotNull },
        Column { name: "source_native_id", decl: Decl::TextNotNull },
        Column { name: "card_sex", decl: Decl::IntegerNotNull },
        Column { name: "account_id", decl: Decl::TextNotNull },
        Column { name: "card_username", decl: Decl::TextNotNull },
        Column { name: "card_nickname", decl: Decl::Text },
        Column { name: "card_alias", decl: Decl::Text },
        Column { name: "card_province", decl: Decl::Text },
        Column { name: "card_city", decl: Decl::Text },
        Column { name: "card_sign", decl: Decl::Text },
        Column { name: "card_open_im_desc", decl: Decl::Text },
        Column { name: "big_head_url", decl: Decl::Text },
        Column { name: "small_head_url", decl: Decl::Text },
    ]
}

/// The columns of the table `message_card`.
pub fn message_card_table() -> (columns: Vec<Column>)
    ensures
        columns@ == message_card_columns(),
{
    let mut columns: Vec<Column> = Vec::new();
    columns.push(Column { name: "account_id_sha", decl: Decl::TextNotNull });
    columns.push(Column { name: "source", decl: Decl::TextNotNull });
    columns.push(Column { name: "source_native_id", decl: Decl::TextNotNull });
    columns.push(Column { name: "card_sex", decl: Decl::IntegerNotNull });
    columns.push(Column { name: "account_id", decl: Decl::TextNotNull });
    columns.push(Column { name: "card_username", decl: Decl::TextNotNull });
    columns.push(Column { name: "card_nickname", decl: Decl::Text });
    columns.push(Column { name: "card_alias", decl: Decl::Text });
    columns.push(Column { name: "card_province", decl: Decl::Text });
    columns.push(Column { name: "card_city", decl: Decl::Text });
    columns.push(Column { name: "card_sign", decl: Decl::Text });
    columns.push(Column { name: "card_open_im_desc", decl: Decl::Text });
    columns.push(Column { name: "big_head_url", decl: Decl::Text });
    columns.push(Column { name: "small_head_url", decl: Decl::Text });
    assert(columns@ =~= message_card_columns());
    columns
}

/// The columns by which the table `message_card` tells its rows apart.
pub open spec fn message_card_key() -> Seq<Seq<char>> {
    seq!["account_id_sha"@, "source"@, "source_native_id"@]
}

/// A row fills the table: it has a value for every column, and for no other.
pub proof fn law_message_card_row_fills_the_table(row: V3MessageCard)
    ensures
        crate::sql::names(row.row()) == crate::schema::column_names(message_card_columns()),
{
    assert(crate::sql::names(row.row()) =~= crate::schema::column_names(message_card_columns()));
}

/// Two rows of the table `message_card` have the same key exactly where they agree in its fields.
pub proof fn law_message_card_key_tells_rows_apart(a: V3MessageCard, b: V3MessageCard)
    ensures
        crate::relation::same_key(a.row(), b.row(), message_card_key()) <==> {
            &&& a.account_id_sha@ == b.account_id_sha@
            &&& a.source@ == b.source@
            &&& a.source_native_id@ == b.source_native_id@
        },
{
    reveal_strlit("account_id_sha");
    reveal_strlit("source");
    reveal_strlit("source_native_id");
    let (x, y) = (a.row(), b.row());
    assert("account_id_sha"@.len() != "source"@.len());
    assert("account_id_sha"@.len() != "source_native_id"@.len());
    assert("source"@.len() != "source_native_id"@.len());
    let at: Seq<int> = seq![0int, 1, 2];
    crate::relation::lemma_same_key(x, y, message_card_key(), at);
    assert(at[0] == 0);
    assert(at[1] == 1);
    assert(at[2] == 2);
}

/// The steps that make the table `message_card`.
pub open spec fn message_card_steps() -> Seq<Step> {
    seq![
        Step::Create(Table::MessageCard),
        Step::Index(
            Index {
                name: "idx_message_card_acct",
                table: "message_card",
                columns: "account_id_sha",
            },
        ),
    ]
}

/// The steps that make the table `message_card`.
pub fn init_message_card_table() -> (steps: Vec<Step>)
    ensures
        steps@ == message_card_steps(),
{
    let mut steps: Vec<Step> = Vec::new();
    steps.push(Step::Create(Table::MessageCard));
    steps.push(Step::Index(
        Index {
            name: "idx_message_card_acct",
            table: "message_card",
            columns: "account_id_sha",
        },
    ));
    assert(steps@ =~= message_card_steps());
    steps
}

/// The statement that stores a row of the table `message_card`, in place of the row with the same
/// key.
pub fn insert_message_card(m: &V3MessageCard) -> (statement: Statement)
    ensures
        statement.does(Effect::Replace { table: "message_card"@, row: m.row() }),
{
    let mut row = RowBuilder::new();
    row.text("account_id_sha", m.account_id_sha.as_str());
    row.text("source", m.source.as_str());
    row.text("source_native_id", m.source_native_id.as_str());
    row.integer("card_sex", m.card_sex);
    row.text("account_id", m.account_id.as_str());
    row.text("card_username", m.card_username.as_str());
    row.nullable_text("card_nickname", &m.card_nickname);
    row.nullable_text("card_alias", &m.card_alias);
    row.nullable_text("card_province", &m.card_province);
    row.nullable_text("card_city", &m.card_city);
    row.nullable_text("card_sign", &m.card_sign);
    row.nullable_text("card_open_im_desc", &m.card_open_im_desc);
    row.nullable_text("big_head_url", &m.big_head_url);
    row.nullable_text("small_head_url", &m.small_head_url);
    assert(row@ =~= m.row());
    row.replace_into("message_card")
}

/// The statement that takes out all rows of the table `message_card` that belong to one
/// message.
pub fn delete_message_card(account_id_sha: &str, source: &str, source_native_id: &str) -> (statement: Statement)
    ensures
        statement.does(
            Effect::Delete {
                table: "message_card"@,
                tests: crate::plan::belonging_to(
                    account_id_sha@,
                    source@,
                    "source_native_id"@,
                    source_native_id@,
                ),
            },
        ),
{
    delete_group("message_card", account_id_sha, source, "source_native_id", source_native_id)
}

/// Someone whom a message mentions. A message has one row for each of them.
#[derive(Clone, PartialEq, Eq)]
pub struct V3MessageMention {
    pub account_id_sha: String,
    pub source: String,
    pub source_native_id: String,
    pub mentioned_wxid_sha: String,
    pub is_at_all: bool,
    pub account_id: String,
    pub mentioned_wxid: String,
}

impl V3MessageMention {
    /// The row that it is stored as.
    pub open spec fn row(self) -> Row {
        seq![
            ("account_id_sha"@, Val::Text(self.account_id_sha@)),
            ("source"@, Val::Text(self.source@)),
            ("source_native_id"@, Val::Text(self.source_native_id@)),
            ("mentioned_wxid_sha"@, Val::Text(self.mentioned_wxid_sha@)),
            ("is_at_all"@, crate::sql::flag(self.is_at_all)),
            ("account_id"@, Val::Text(self.account_id@)),
            ("mentioned_wxid"@, Val::Text(self.mentioned_wxid@)),
        ]
    }

    /// How its fields are shown in a log.
    pub open spec fn shown(self) -> Seq<(&'static str, Shown)> {
        seq![
            ("account_id_sha", Shown::Text(self.account_id_sha)),
            ("source", Shown::Text(self.source)),
            ("source_native_id", Shown::Text(self.source_native_id)),
            ("mentioned_wxid_sha", Shown::Text(self.mentioned_wxid_sha)),
            ("is_at_all", Shown::Flag(self.is_at_all)),
            ("account_id_sha8", Shown::Digest(self.account_id)),
            ("mentioned_wxid_sha8", Shown::Digest(self.mentioned_wxid)),
        ]
    }

    /// What it shows of itself in a log.
    pub fn debug_row(&self) -> (row: DebugRow)
        ensures
            row.name@ == "V3MessageMention"@,
            row.fields@ == self.shown(),
            row.complete == false,
    {
        let mut fields: Vec<(&'static str, Shown)> = Vec::new();
        fields.push(("account_id_sha", Shown::Text(self.account_id_sha.clone())));
        fields.push(("source", Shown::Text(self.source.clone())));
        fields.push(("source_native_id", Shown::Text(self.source_native_id.clone())));
        fields.push(("mentioned_wxid_sha", Shown::Text(self.mentioned_wxid_sha.clone())));
        fields.push(("is_at_all", Shown::Flag(self.is_at_all)));
        fields.push(("account_id_sha8", Shown::Digest(self.account_id.clone())));
        fields.push(("mentioned_wxid_sha8", Shown::Digest(self.mentioned_wxid.clone())));
        assert(fields@ =~= self.shown());
        DebugRow { name: "V3MessageMention", fields, complete: false }
    }
}

/// The columns of the table `message_mention`.
pub open spec fn message_mention_columns() -> Seq<Column> {
    seq![
        Column { name: "account_id_sha", decl: Decl::TextNotNull },
        Column { name: "source", decl: Decl::TextNotNull },
        Column { name: "source_native_id", decl: Decl::TextNotNull },
        Column { name: "mentioned_wxid_sha", decl: Decl::TextNotNull },
        Column { name: "is_at_all", decl: Decl::IntegerNotNull },
        Column { name: "account_id", decl: Decl::TextNotNull },
        Column { name: "mentioned_wxid", decl: Decl::TextNotNull },
    ]
}

/// The columns of the table `message_mention`.
pub fn message_mention_table() -> (columns: Vec<Column>)
    ensures
        columns@ == message_mention_columns(),
{
    let mut columns: Vec<Column> = Vec::new();
    columns.push(Column { name: "account_id_sha", decl: Decl::TextNotNull });
    columns.push(Column { name: "source", decl: Decl::TextNotNull });
    columns.push(Column { name: "source_native_id", decl: Decl::TextNotNull });
    columns.push(Column { name: "mentioned_wxid_sha", decl: Decl::TextNotNull });
    columns.push(Column { name: "is_at_all", decl: Decl::IntegerNotNull });
    columns.push(Column { name: "account_id", decl: Decl::TextNotNull });
    columns.push(Column { name: "mentioned_wxid", decl: Decl::TextNotNull });
    assert(columns@ =~= message_mention_columns());
    columns
}

/// The columns by which the table `message_mention` tells its rows apart.
pub open spec fn message_mention_key() -> Seq<Seq<char>> {
    seq!["account_id_sha"@, "source"@, "source_native_id"@, "mentioned_wxid_sha"@]
}

/// A row fills the table: it has a value for every column, and for no other.
pub proof fn law_message_mention_row_fills_the_table(row: V3MessageMention)
    ensures
        crate::sql::names(row.row()) == crate::schema::column_names(message_mention_columns()),
{
    assert(crate::sql::names(row.row()) =~= crate::schema::column_names(message_mention_columns()));
}

/// Two rows of the table `message_mention` have the same key exactly where they agree in its fields.
pub proof fn law_message_mention_key_tells_rows_apart(a: V3MessageMention, b: V3MessageMention)
    ensures
        crate::relation::same_key(a.row(), b.row(), message_mention_key()) <==> {
            &&& a.account_id_sha@ == b.account_id_sha@
            &&& a.source@ == b.source@
            &&& a.source_native_id@ == b.source_native_id@
            &&& a.mentioned_wxid_sha@ == b.mentioned_wxid_sha@
        },
{
    reveal_strlit("account_id_sha");
    reveal_strlit("source");
    reveal_strlit("source_native_id");
    reveal_strlit("mentioned_wxid_sha");
    let (x, y) = (a.row(), b.row());
    assert("account_id_sha"@.len() != "source"@.len());
    assert("account_id_sha"@.len() != "source_native_id"@.len());
    assert("source"@.len() != "source_native_id"@.len());
    assert("account_id_sha"@.len() != "mentioned_wxid_sha"@.len());
    assert("source"@.len() != "mentioned_wxid_sha"@.len());
    assert("source_native_id"@.len() != "mentioned_wxid_sha"@.len());
    let at: Seq<int> = seq![0int, 1, 2, 3];
    crate::relation::lemma_same_key(x, y, message_mention_key(), at);
    assert(at[0] == 0);
    assert(at[1] == 1);
    assert(at[2] == 2);
    assert(at[3] == 3);
}

/// The steps that make the table `message_mention`.
pub open spec fn message_mention_steps() -> Seq<Step> {
    seq![
        Step::Create(Table::MessageMention),
        Step::Index(
            Index {
                name: "idx_message_mention_wxid",
                table: "message_mention",
                columns: "account_id_sha, mentioned_wxid_sha",
            },
        ),
    ]
}

/// The steps that make the table `message_mention`.
pub fn init_message_mention_table() -> (steps: Vec<Step>)
    ensures
        steps@ == message_mention_steps(),
{
    let mut steps: Vec<Step> = Vec::new();
    steps.push(Step::Create(Table::MessageMention));
    steps.push(Step::Index(
        Index {
            name: "idx_message_mention_wxid",
            table: "message_mention",
            columns: "account_id_sha, mentioned_wxid_sha",
        },
    ));
    assert(steps@ =~= message_mention_steps());
    steps
}

/// The statement that stores a row of the table `message_mention`, in place of the row with the same
/// key.
pub fn insert_message_mention(m: &V3MessageMention) -> (statement: Statement)
    ensures
        statement.does(Effect::Replace { table: "message_mention"@, row: m.row() }),
{
    let mut row = RowBuilder::new();
    row.text("account_id_sha", m.account_id_sha.as_str());
    row.text("source", m.source.as_str());
    row.text("source_native_id", m.source_native_id.as_str());
    row.text("mentioned_wxid_sha", m.mentioned_wxid_sha.as_str());
    row.flag("is_at_all", m.is_at_all);
    row.text("account_id", m.account_id.as_str());
    row.text("mentioned_wxid", m.mentioned_wxid.as_str());
    assert(row@ =~= m.row());
    row.replace_into("message_mention")
}

/// The statement that takes out all rows of the table `message_mention` that belong to one
/// message.
pub fn delete_message_mentions(account_id_sha: &str, source: &str, source_native_id: &str) -> (statement: Statement)
    ensures
        statement.does(
            Effect::Delete {
                table: "message_mention"@,
                tests: crate::plan::belonging_to(
                    account_id_sha@,
                    source@,
                    "source_native_id"@,
                    source_native_id@,
                ),
            },
        ),
{
    delete_group("message_mention", account_id_sha, source, "source_native_id", source_native_id)
}

/// An item of a forwarded chat. A message has one row for each of them.
#[derive(Clone, PartialEq, Eq)]
pub struct V3MessageForwardItem {
    pub account_id_sha: String,
    pub source: String,
    pub source_native_id: String,
    pub seq: i64,
    pub data_type: String,
    pub data_size: i64,
    pub account_id: String,
    pub source_name: Option<String>,
    pub source_time: Option<String>,
    pub data_title: Option<String>,
    pub data_desc: Option<String>,
    pub media_md5: Option<String>,
}

impl V3MessageForwardItem {
    /// The row that it is stored as.
    pub open spec fn row(self) -> Row {
        seq![
            ("account_id_sha"@, Val::Text(self.account_id_sha@)),
            ("source"@, Val::Text(self.source@)),
            ("source_native_id"@, Val::Text(self.source_native_id@)),
            ("seq"@, Val::Integer(self.seq as int)),
            ("data_type"@, Val::Text(self.data_type@)),
            ("data_size"@, Val::Integer(self.data_size as int)),
            ("account_id"@, Val::Text(self.account_id@)),
            ("source_name"@, crate::sql::nullable_text(self.source_name)),
            ("source_time"@, crate::sql::nullable_text(self.source_time)),
            ("data_title"@, crate::sql::nullable_text(self.data_title)),
            ("data_desc"@, crate::sql::nullable_text(self.data_desc)),
            ("media_md5"@, crate::sql::nullable_text(self.media_md5)),
        ]
    }

    /// How its fields are shown in a log.
    pub open spec fn shown(self) -> Seq<(&'static str, Shown)> {
        seq![
            ("account_id_sha", Shown::Text(self.account_id_sha)),
            ("source", Shown::Text(self.source)),
            ("source_native_id", Shown::Text(self.source_native_id)),
            ("seq", Shown::Integer(self.seq)),
            ("data_type", Shown::Text(self.data_type)),
            ("data_size", Shown::Integer(self.data_size)),
            ("account_id_sha8", Shown::Digest(self.account_id)),
            ("source_name_sha8", Shown::NullableDigest(self.source_name)),
            ("source_time", Shown::NullableText(self.source_time)),
            ("data_title_sha8", Shown::NullableDigest(self.data_title)),
            ("data_desc_len", Shown::NullableCount(crate::redact::chars_if_any(self.data_desc))),
            ("media_md5_sha8", Shown::NullableDigest(self.media_md5)),
        ]
    }

    /// What it shows of itself in a log.
    pub fn debug_row(&self) -> (row: DebugRow)
        ensures
            row.name@ == "V3MessageForwardItem"@,
            row.fields@ == self.shown(),
            row.complete == true,
    {
        let mut fields: Vec<(&'static str, Shown)> = Vec::new();
        fields.push(("account_id_sha", Shown::Text(self.account_id_sha.clone())));
        fields.push(("source", Shown::Text(self.source.clone())));
        fields.push(("source_native_id", Shown::Text(self.source_native_id.clone())));
        fields.push(("seq", Shown::Integer(self.seq)));
        fields.push(("data_type", Shown::Text(self.data_type.clone())));
        fields.push(("data_size", Shown::Integer(self.data_size)));
        fields.push(("account_id_sha8", Shown::Digest(self.account_id.clone())));
        fields.push(("source_name_sha8", Shown::NullableDigest(copy_text(&self.source_name))));
        fields.push(("source_time", Shown::NullableText(copy_text(&self.source_time))));
        fields.push(("data_title_sha8", Shown::NullableDigest(copy_text(&self.data_title))));
        fields.push(("data_desc_len", Shown::NullableCount(count_if_any(&self.data_desc))));
        fields.push(("media_md5_sha8", Shown::NullableDigest(copy_text(&self.media_md5))));
        assert(fields@ =~= self.shown());
        DebugRow { name: "V3MessageForwardItem", fields, complete: true }
    }
}

/// The columns of the table `message_forward_item`.
pub open spec fn message_forward_item_columns() -> Seq<Column> {
    seq![
        Column { name: "account_id_sha", decl: Decl::TextNotNull },
        Column { name: "source", decl: Decl::TextNotNull },
        Column { name: "source_native_id", decl: Decl::TextNotNull },
        Column { name: "seq", decl: Decl::IntegerNotNull },
        Column { name: "data_type", decl: Decl::TextNotNull },
        Column { name: "data_size", decl: Decl::IntegerNotNull },
        Column { name: "account_id", decl: Decl::TextNotNull },
        Column { name: "source_name", decl: Decl::Text },
        Column { name: "source_time", decl: Decl::Text },
        Column { name: "data_title", decl: Decl::Text },
        Column { name: "data_desc", decl: Decl::Text },
        Column { name: "media_md5", decl: Decl::Text },
    ]
}

/// The columns of the table `message_forward_item`.
pub fn message_forward_item_table() -> (columns: Vec<Column>)
    ensures
        columns@ == message_forward_item_columns(),
{
    let mut columns: Vec<Column> = Vec::new();
    columns.push(Column { name: "account_id_sha", decl: Decl::TextNotNull });
    columns.push(Column { name: "source", decl: Decl::TextNotNull });
    columns.push(Column { name: "source_native_id", decl: Decl::TextNotNull });
    columns.push(Column { name: "seq", decl: Decl::IntegerNotNull });
    columns.push(Column { name: "data_type", decl: Decl::TextNotNull });
    columns.push(Column { name: "data_size", decl: Decl::IntegerNotNull });
    columns.push(Column { name: "account_id", decl: Decl::TextNotNull });
    columns.push(Column { name: "source_name", decl: Decl::Text });
    columns.push(Column { name: "source_time", decl: Decl::Text });
    columns.push(Column { name: "data_title", decl: Decl::Text });
    columns.push(Column { name: "data_desc", decl: Decl::Text });
    columns.push(Column { name: "media_md5", decl: Decl::Text });
    assert(columns@ =~= message_forward_item_columns());
    columns
}

/// The columns by which the table `message_forward_item` tells its rows apart.
pub open spec fn message_forward_item_key() -> Seq<Seq<char>> {
    seq!["account_id_sha"@, "source"@, "source_native_id"@, "seq"@]
}

/// A row fills the table: it has a value for every column, and for no other.
pub proof fn law_message_forward_item_row_fills_the_table(row: V3MessageForwardItem)
    ensures
        crate::sql::names(row.row()) == crate::schema::column_names(message_forward_item_columns()),
{
    assert(crate::sql::names(row.row()) =~= crate::schema::column_names(message_forward_item_columns()));
}

/// Two rows of the table `message_forward_item` have the same key exactly where they agree in its fields.
pub proof fn law_message_forward_item_key_tells_rows_apart(a: V3MessageForwardItem, b: V3MessageForwardItem)
    ensures
        crate::relation::same_key(a.row(), b.row(), message_forward_item_key()) <==> {
            &&& a.account_id_sha@ == b.account_id_sha@
            &&& a.source@ == b.source@
            &&& a.source_native_id@ == b.source_native_id@
            &&& a.seq == b.seq
        },
{
    reveal_strlit("account_id_sha");
    reveal_strlit("source");
    reveal_strlit("source_native_id");
    reveal_strlit("seq");
    let (x, y) = (a.row(), b.row());
    assert("account_id_sha"@.len() != "source"@.len());
    assert("account_id_sha"@.len() != "source_native_id"@.len());
    assert("source"@.len() != "source_native_id"@.len());
    assert("account_id_sha"@.len() != "seq"@.len());
    assert("source"@.len() != "seq"@.len());
    assert("source_native_id"@.len() != "seq"@.len());
    let at: Seq<int> = seq![0int, 1, 2, 3];
    crate::relation::lemma_same_key(x, y, message_forward_item_key(), at);
    assert(at[0] == 0);
    assert(at[1] == 1);
    assert(at[2] == 2);
    assert(at[3] == 3);
}

/// The steps that make the table `message_forward_item`.
pub open spec fn message_forward_item_steps() -> Seq<Step> {
    seq![
        Step::Create(Table::MessageForwardItem),
        Step::Index(
            Index {
                name: "idx_message_forward_item_acct",
                table: "message_forward_item",
                columns: "account_id_sha, source, source_native_id",
            },
        ),
    ]
}

/// The steps that make the table `message_forward_item`.
pub fn init_message_forward_item_table() -> (steps: Vec<Step>)
    ensures
        steps@ == message_forward_item_steps(),
{
    let mut steps: Vec<Step> = Vec::new();
    steps.push(Step::Create(Table::MessageForwardItem));
    steps.push(Step::Index(
        Index {
            name: "idx_message_forward_item_acct",
            table: "message_forward_item",
            columns: "account_id_sha, source, source_native_id",
        },
    ));
    assert(steps@ =~= message_forward_item_steps());
    steps
}

/// The statement that stores a row of the table `message_forward_item`, in place of the row with the same
/// key.
pub fn insert_message_forward_item(m: &V3MessageForwardItem) -> (statement: Statement)
    ensures
        statement.does(Effect::Replace { table: "message_forward_item"@, row: m.row() }),
{
    let mut row = RowBuilder::new();
    row.text("account_id_sha", m.account_id_sha.as_str());
    row.text("source", m.source.as_str());
    row.text("source_native_id", m.source_native_id.as_str());
    row.integer("seq", m.seq);
    row.text("data_type", m.data_type.as_str());
    row.integer("data_size", m.data_size);
    row.text("account_id", m.account_id.as_str());
    row.nullable_text("source_name", &m.source_name);
    row.nullable_text("source_time", &m.source_time);
    row.nullable_text("data_title", &m.data_title);
    row.nullable_text("data_desc", &m.data_desc);
    row.nullable_text("media_md5", &m.media_md5);
    assert(row@ =~= m.row());
    row.replace_into("message_forward_item")
}

/// The statement that takes out all rows of the table `message_forward_item` that belong to one
/// message.
pub fn delete_message_forward_items(account_id_sha: &str, source: &str, source_native_id: &str) -> (statement: Statement)
    ensures
        statement.does(
            Effect::Delete {
                table: "message_forward_item"@,
                tests: crate::plan::belonging_to(
                    account_id_sha@,
                    source@,
                    "source_native_id"@,
                    source_native_id@,
                ),
            },
        ),
{
    delete_group("message_forward_item", account_id_sha, source, "source_native_id", source_native_id)
}

/// Every field is stored under its own name: the row that `insert_message` puts in holds in each
/// column the field of that column.
pub proof fn law_message_fields_keep_their_names(m: &V3Message, statement: Statement)
    requires
        call_ensures(insert_message, (m,), statement),
    ensures
        statement.does(Effect::Replace { table: "message"@, row: m.row() }),
        m.row().len() == 28,
        crate::relation::column(m.row(), "account_id_sha"@) == Val::Text(m.account_id_sha@),
        crate::relation::column(m.row(), "source"@) == Val::Text(m.source@),
        crate::relation::column(m.row(), "source_native_id"@) == Val::Text(m.source_native_id@),
        crate::relation::column(m.row(), "conv_id_sha"@) == Val::Text(m.conv_id_sha@),
        crate::relation::column(m.row(), "server_id"@) == Val::Integer(m.server_id as int),
        crate::relation::column(m.row(), "server_seq"@) == Val::Integer(m.server_seq as int),
        crate::relation::column(m.row(), "origin_source"@) == Val::Integer(m.origin_source as int),
        crate::relation::column(m.row(), "upload_status"@) == Val::Integer(m.upload_status as int),
        crate::relation::column(m.row(), "download_status"@) == Val::Integer(m.download_status as int),
        crate::relation::column(m.row(), "create_time"@) == Val::Integer(m.create_time as int),
        crate::relation::column(m.row(), "sort_seq"@) == Val::Integer(m.sort_seq as int),
        crate::relation::column(m.row(), "status"@) == Val::Integer(m.status as int),
        crate::relation::column(m.row(), "msg_type"@) == Val::Integer(m.msg_type as int),
        crate::relation::column(m.row(), "msg_type_name"@) == Val::Text(m.msg_type_name@),
        crate::relation::column(m.row(), "msg_sub_type"@) == (match m.msg_sub_type { Some(n) => Val::Integer(n as int), None => Val::Null }),
        crate::relation::column(m.row(), "msg_sub_type_name"@) == (match m.msg_sub_type_name { Some(t) => Val::Text(t@), None => Val::Null }),
        crate::relation::column(m.row(), "local_type_raw"@) == Val::Integer(m.local_type_raw as int),
        crate::relation::column(m.row(), "sender_wxid_sha"@) == Val::Text(m.sender_wxid_sha@),
        crate::relation::column(m.row(), "is_chatroom"@) == Val::Integer(if m.is_chatroom { 1 } else { 0 }),
        crate::relation::column(m.row(), "text_content_sha"@) == Val::Text(m.text_content_sha@),
        crate::relation::column(m.row(), "text_content_len"@) == Val::Integer(m.text_content_len as int),
        crate::relation::column(m.row(), "raw_xml_present"@) == Val::Integer(if m.raw_xml_present { 1 } else { 0 }),
        crate::relation::column(m.row(), "decode_kind"@) == Val::Text(m.decode_kind@),
        crate::relation::column(m.row(), "sys_type"@) == (match m.sys_type { Some(t) => Val::Text(t@), None => Val::Null }),
        crate::relation::column(m.row(), "account_id"@) == Val::Text(m.account_id@),
        crate::relation::column(m.row(), "conv_id"@) == Val::Text(m.conv_id@),
        crate::relation::column(m.row(), "sender_wxid"@) == Val::Text(m.sender_wxid@),
        crate::relation::column(m.row(), "text_content"@) == Val::Text(m.text_content@),
{
    reveal_strlit("account_id_sha");
    reveal_strlit("source");
    reveal_strlit("source_native_id");
    reveal_strlit("conv_id_sha");
    reveal_strlit("server_id");
    reveal_strlit("server_seq");
    reveal_strlit("origin_source");
    reveal_strlit("upload_status");
    reveal_strlit("download_status");
    reveal_strlit("create_time");
    reveal_strlit("sort_seq");
    reveal_strlit("status");
    reveal_strlit("msg_type");
    reveal_strlit("msg_type_name");
    reveal_strlit("msg_sub_type");
    reveal_strlit("msg_sub_type_name");
    reveal_strlit("local_type_raw");
    reveal_strlit("sender_wxid_sha");
    reveal_strlit("is_chatroom");
    reveal_strlit("text_content_sha");
    reveal_strlit("text_content_len");
    reveal_strlit("raw_xml_present");
    reveal_strlit("decode_kind");
    reveal_strlit("sys_type");
    reveal_strlit("account_id");
    reveal_strlit("conv_id");
    reveal_strlit("sender_wxid");
    reveal_strlit("text_content");
    let row = m.row();
    assert(row[0].0.len() == 14 && row[1].0.len() == 6 && row[2].0.len() == 16);
    assert(row[3].0.len() == 11 && row[4].0.len() == 9 && row[5].0.len() == 10);
    assert(row[6].0.len() == 13 && row[7].0.len() == 13 && row[8].0.len() == 15);
    assert(row[9].0.len() == 11 && row[10].0.len() == 8 && row[11].0.len() == 6);
    assert(row[12].0.len() == 8 && row[13].0.len() == 13 && row[14].0.len() == 12);
    assert(row[15].0.len() == 17 && row[16].0.len() == 14 && row[17].0.len() == 15);
    assert(row[18].0.len() == 11 && row[19].0.len() == 16 && row[20].0.len() == 16);
    assert(row[21].0.len() == 15 && row[22].0.len() == 11 && row[23].0.len() == 8);
    assert(row[24].0.len() == 10 && row[25].0.len() == 7 && row[26].0.len() == 11);
    assert(row[27].0.len() == 12);
    assert(row[6].0[0] != row[7].0[0]);
    assert(row[3].0[1] != row[9].0[1]);
    assert(row[1].0[1] != row[11].0[1]);
    assert(row[10].0[0] != row[12].0[0]);
    assert(row[6].0[0] != row[13].0[0]);
    assert(row[7].0[0] != row[13].0[0]);
    assert(row[0].0[0] != row[16].0[0]);
    assert(row[8].0[0] != row[17].0[0]);
    assert(row[3].0[0] != row[18].0[0]);
    assert(row[9].0[0] != row[18].0[0]);
    assert(row[2].0[0] != row[19].0[0]);
    assert(row[2].0[0] != row[20].0[0]);
    assert(row[19].0[13] != row[20].0[13]);
    assert(row[8].0[0] != row[21].0[0]);
    assert(row[17].0[0] != row[21].0[0]);
    assert(row[3].0[0] != row[22].0[0]);
    assert(row[9].0[0] != row[22].0[0]);
    assert(row[18].0[0] != row[22].0[0]);
    assert(row[10].0[1] != row[23].0[1]);
    assert(row[12].0[0] != row[23].0[0]);
    assert(row[5].0[0] != row[24].0[0]);
    assert(row[3].0[0] != row[26].0[0]);
    assert(row[9].0[0] != row[26].0[0]);
    assert(row[18].0[0] != row[26].0[0]);
    assert(row[22].0[0] != row[26].0[0]);
    assert(row[14].0[0] != row[27].0[0]);
    crate::relation::lemma_column_at(row, 0);
    crate::relation::lemma_column_at(row, 1);
    crate::relation::lemma_column_at(row, 2);
    crate::relation::lemma_column_at(row, 3);
    crate::relation::lemma_column_at(row, 4);
    crate::relation::lemma_column_at(row, 5);
    crate::relation::lemma_column_at(row, 6);
    crate::relation::lemma_column_at(row, 7);
    crate::relation::lemma_column_at(row, 8);
    crate::relation::lemma_column_at(row, 9);
    crate::relation::lemma_column_at(row, 10);
    crate::relation::lemma_column_at(row, 11);
    crate::relation::lemma_column_at(row, 12);
    crate::relation::lemma_column_at(row, 13);
    crate::relation::lemma_column_at(row, 14);
    crate::relation::lemma_column_at(row, 15);
    crate::relation::lemma_column_at(row, 16);
    crate::relation::lemma_column_at(row, 17);
    crate::relation::lemma_column_at(row, 18);
    crate::relation::lemma_column_at(row, 19);
    crate::relation::lemma_column_at(row, 20);
    crate::relation::lemma_column_at(row, 21);
    crate::relation::lemma_column_at(row, 22);
    crate::relation::lemma_column_at(row, 23);
    crate::relation::lemma_column_at(row, 24);
    crate::relation::lemma_column_at(row, 25);
    crate::relation::lemma_column_at(row, 26);
    crate::relation::lemma_column_at(row, 27);
}


/// Every field is stored under its own name: the row that `insert_message_app` puts in holds in each
/// column the field of that column.
pub proof fn law_message_app_fields_keep_their_names(m: &V3MessageApp, statement: Statement)
    requires
        call_ensures(insert_message_app, (m,), statement),
    ensures
        statement.does(Effect::Replace { table: "message_app"@, row: m.row() }),
        m.row().len() == 32,
        crate::relation::column(m.row(), "account_id_sha"@) == Val::Text(m.account_id_sha@),
        crate::relation::column(m.row(), "source"@) == Val::Text(m.source@),
        crate::relation::column(m.row(), "source_native_id"@) == Val::Text(m.source_native_id@),
        crate::relation::column(m.row(), "app_type"@) == Val::Integer(m.app_type as int),
        crate::relation::column(m.row(), "media_count"@) == Val::Integer(m.media_count as int),
        crate::relation::column(m.row(), "account_id"@) == Val::Text(m.account_id@),
        crate::relation::column(m.row(), "title"@) == (match m.title { Some(t) => Val::Text(t@), None => Val::Null }),
        crate::relation::column(m.row(), "source_name"@) == (match m.source_name { Some(t) => Val::Text(t@), None => Val::Null }),
        crate::relation::column(m.row(), "url"@) == (match m.url { Some(t) => Val::Text(t@), None => Val::Null }),
        crate::relation::column(m.row(), "app_username"@) == (match m.app_username { Some(t) => Val::Text(t@), None => Val::Null }),
        crate::relation::column(m.row(), "app_nickname"@) == (match m.app_nickname { Some(t) => Val::Text(t@), None => Val::Null }),
        crate::relation::column(m.row(), "app_pagepath"@) == (match m.app_pagepath { Some(t) => Val::Text(t@), None => Val::Null }),
        crate::relation::column(m.row(), "file_size"@) == Val::Integer(m.file_size as int),
        crate::relation::column(m.row(), "file_ext"@) == (match m.file_ext { Some(t) => Val::Text(t@), None => Val::Null }),
        crate::relation::column(m.row(), "file_md5"@) == (match m.file_md5 { Some(t) => Val::Text(t@), None => Val::Null }),
        crate::relation::column(m.row(), "transfer_fee"@) == (match m.transfer_fee { Some(t) => Val::Text(t@), None => Val::Null }),
        crate::relation::column(m.row(), "transfer_direction"@) == Val::Integer(m.transfer_direction as int),
        crate::relation::column(m.row(), "transfer_txid"@) == (match m.transfer_txid { Some(t) => Val::Text(t@), None => Val::Null }),
        crate::relation::column(m.row(), "refer_svrid"@) == (match m.refer_svrid { Some(t) => Val::Text(t@), None => Val::Null }),
        crate::relation::column(m.row(), "refer_type"@) == Val::Integer(m.refer_type as int),
        crate::relation::column(m.row(), "refer_content"@) == (match m.refer_content { Some(t) => Val::Text(t@), None => Val::Null }),
        crate::relation::column(m.row(), "forward_item_count"@) == Val::Integer(m.forward_item_count as int),
        crate::relation::column(m.row(), "red_envelope_wish"@) == (match m.red_envelope_wish { Some(t) => Val::Text(t@), None => Val::Null }),
        crate::relation::column(m.row(), "red_envelope_count"@) == Val::Integer(m.red_envelope_count as int),
        crate::relation::column(m.row(), "group_pay_amount"@) == (match m.group_pay_amount { Some(t) => Val::Text(t@), None => Val::Null }),
        crate::relation::column(m.row(), "group_pay_bill_no"@) == (match m.group_pay_bill_no { Some(t) => Val::Text(t@), None => Val::Null }),
        crate::relation::column(m.row(), "music_desc"@) == (match m.music_desc { Some(t) => Val::Text(t@), None => Val::Null }),
        crate::relation::column(m.row(), "gift_wish"@) == (match m.gift_wish { Some(t) => Val::Text(t@), None => Val::Null }),
        crate::relation::column(m.row(), "gift_sku"@) == (match m.gift_sku { Some(t) => Val::Text(t@), None => Val::Null }),
        crate::relation::column(m.row(), "live_status"@) == Val::Integer(m.live_status as int),
        crate::relation::column(m.row(), "live_desc"@) == (match m.live_desc { Some(t) => Val::Text(t@), None => Val::Null }),
        crate::relation::column(m.row(), "pay_scene_text"@) == (match m.pay_scene_text { Some(t) => Val::Text(t@), None => Val::Null }),
{
    reveal_strlit("account_id_sha");
    reveal_strlit("source");
    reveal_strlit("source_native_id");
    reveal_strlit("app_type");
    reveal_strlit("media_count");
    reveal_strlit("account_id");
    reveal_strlit("title");
    reveal_strlit("source_name");
    reveal_strlit("url");
    reveal_strlit("app_username");
    reveal_strlit("app_nickname");
    reveal_strlit("app_pagepath");
    reveal_strlit("file_size");
    reveal_strlit("file_ext");
    reveal_strlit("file_md5");
    reveal_strlit("transfer_fee");
    reveal_strlit("transfer_direction");
    reveal_strlit("transfer_txid");
    reveal_strlit("refer_svrid");
    reveal_strlit("refer_type");
    reveal_strlit("refer_content");
    reveal_strlit("forward_item_count");
    reveal_strlit("red_envelope_wish");
    reveal_strlit("red_envelope_count");
    reveal_strlit("group_pay_amount");
    reveal_strlit("group_pay_bill_no");
    reveal_strlit("music_desc");
    reveal_strlit("gift_wish");
    reveal_strlit("gift_sku");
    reveal_strlit("live_status");
    reveal_strlit("live_desc");
    reveal_strlit("pay_scene_text");
    let row = m.row();
    assert(row[0].0.len() == 14 && row[1].0.len() == 6 && row[2].0.len() == 16);
    assert(row[3].0.len() == 8 && row[4].0.len() == 11 && row[5].0.len() == 10);
    assert(row[6].0.len() == 5 && row[7].0.len() == 11 && row[8].0.len() == 3);
    assert(row[9].0.len() == 12 && row[10].0.len() == 12 && row[11].0.len() == 12);
    assert(row[12].0.len() == 9 && row[13].0.len() == 8 && row[14].0.len() == 8);
    assert(row[15].0.len() == 12 && row[16].0.len() == 18 && row[17].0.len() == 13);
    assert(row[18].0.len() == 11 && row[19].0.len() == 10 && row[20].0.len() == 13);
    assert(row[21].0.len() == 18 && row[22].0.len() == 17 && row[23].0.len() == 18);
    assert(row[24].0.len() == 16 && row[25].0.len() == 17 && row[26].0.len() == 10);
    assert(row[27].0.len() == 9 && row[28].0.len() == 8 && row[29].0.len() == 11);
    assert(row[30].0.len() == 9 && row[31].0.len() == 14);
    assert(row[4].0[0] != row[7].0[0]);
    assert(row[9].0[4] != row[10].0[4]);
    assert(row[9].0[4] != row[11].0[4]);
    assert(row[10].0[4] != row[11].0[4]);
    assert(row[3].0[0] != row[13].0[0]);
    assert(row[3].0[0] != row[14].0[0]);
    assert(row[13].0[5] != row[14].0[5]);
    assert(row[9].0[0] != row[15].0[0]);
    assert(row[10].0[0] != row[15].0[0]);
    assert(row[11].0[0] != row[15].0[0]);
    assert(row[4].0[0] != row[18].0[0]);
    assert(row[7].0[0] != row[18].0[0]);
    assert(row[5].0[0] != row[19].0[0]);
    assert(row[17].0[0] != row[20].0[0]);
    assert(row[16].0[0] != row[21].0[0]);
    assert(row[16].0[0] != row[23].0[0]);
    assert(row[21].0[0] != row[23].0[0]);
    assert(row[2].0[0] != row[24].0[0]);
    assert(row[22].0[0] != row[25].0[0]);
    assert(row[5].0[0] != row[26].0[0]);
    assert(row[19].0[0] != row[26].0[0]);
    assert(row[12].0[0] != row[27].0[0]);
    assert(row[3].0[0] != row[28].0[0]);
    assert(row[13].0[0] != row[28].0[0]);
    assert(row[14].0[0] != row[28].0[0]);
    assert(row[4].0[0] != row[29].0[0]);
    assert(row[7].0[0] != row[29].0[0]);
    assert(row[18].0[0] != row[29].0[0]);
    assert(row[12].0[0] != row[30].0[0]);
    assert(row[27].0[0] != row[30].0[0]);
    assert(row[0].0[0] != row[31].0[0]);
    crate::relation::lemma_column_at(row, 0);
    crate::relation::lemma_column_at(row, 1);
    crate::relation::lemma_column_at(row, 2);
    crate::relation::lemma_column_at(row, 3);
    crate::relation::lemma_column_at(row, 4);
    crate::relation::lemma_column_at(row, 5);
    crate::relation::lemma_column_at(row, 6);
    crate::relation::lemma_column_at(row, 7);
    crate::relation::lemma_column_at(row, 8);
    crate::relation::lemma_column_at(row, 9);
    crate::relation::lemma_column_at(row, 10);
    crate::relation::lemma_column_at(row, 11);
    crate::relation::lemma_column_at(row, 12);
    crate::relation::lemma_column_at(row, 13);
    crate::relation::lemma_column_at(row, 14);
    crate::relation::lemma_column_at(row, 15);
    crate::relation::lemma_column_at(row, 16);
    crate::relation::lemma_column_at(row, 17);
    crate::relation::lemma_column_at(row, 18);
    crate::relation::lemma_column_at(row, 19);
    crate::relation::lemma_column_at(row, 20);
    crate::relation::lemma_column_at(row, 21);
    crate::relation::lemma_column_at(row, 22);
    crate::relation::lemma_column_at(row, 23);
    crate::relation::lemma_column_at(row, 24);
    crate::relation::lemma_column_at(row, 25);
    crate::relation::lemma_column_at(row, 26);
    crate::relation::lemma_column_at(row, 27);
    crate::relation::lemma_column_at(row, 28);
    crate::relation::lemma_column_at(row, 29);
    crate::relation::lemma_column_at(row, 30);
    crate::relation::lemma_column_at(row, 31);
}


/// Every field is stored under its own name: the row that `insert_message_media` puts in holds in each
/// column the field of that column.
pub proof fn law_message_media_fields_keep_their_names(m: &V3MessageMedia, statement: Statement)
    requires
        call_ensures(insert_message_media, (m,), statement),
    ensures
        statement.does(Effect::Replace { table: "message_media"@, row: m.row() }),
        m.row().len() == 12,
        crate::relation::column(m.row(), "account_id_sha"@) == Val::Text(m.account_id_sha@),
        crate::relation::column(m.row(), "source"@) == Val::Text(m.source@),
        crate::relation::column(m.row(), "source_native_id"@) == Val::Text(m.source_native_id@),
        crate::relation::column(m.row(), "media_kind"@) == Val::Text(m.media_kind@),
        crate::relation::column(m.row(), "file_size"@) == Val::Integer(m.file_size as int),
        crate::relation::column(m.row(), "play_length"@) == Val::Integer(m.play_length as int),
        crate::relation::column(m.row(), "account_id"@) == Val::Text(m.account_id@),
        crate::relation::column(m.row(), "md5"@) == (match m.md5 { Some(t) => Val::Text(t@), None => Val::Null }),
        crate::relation::column(m.row(), "aes_key"@) == (match m.aes_key { Some(t) => Val::Text(t@), None => Val::Null }),
        crate::relation::column(m.row(), "cdn_url"@) == (match m.cdn_url { Some(t) => Val::Text(t@), None => Val::Null }),
        crate::relation::column(m.row(), "thumb_url"@) == (match m.thumb_url { Some(t) => Val::Text(t@), None => Val::Null }),
        crate::relation::column(m.row(), "extra_id"@) == (match m.extra_id { Some(t) => Val::Text(t@), None => Val::Null }),
{
    reveal_strlit("account_id_sha");
    reveal_strlit("source");
    reveal_strlit("source_native_id");
    reveal_strlit("media_kind");
    reveal_strlit("file_size");
    reveal_strlit("play_length");
    reveal_strlit("account_id");
    reveal_strlit("md5");
    reveal_strlit("aes_key");
    reveal_strlit("cdn_url");
    reveal_strlit("thumb_url");
    reveal_strlit("extra_id");
    let row = m.row();
    assert(row[0].0.len() == 14 && row[1].0.len() == 6 && row[2].0.len() == 16);
    assert(row[3].0.len() == 10 && row[4].0.len() == 9 && row[5].0.len() == 11);
    assert(row[6].0.len() == 10 && row[7].0.len() == 3 && row[8].0.len() == 7);
    assert(row[9].0.len() == 7 && row[10].0.len() == 9 && row[11].0.len() == 8);
    assert(row[3].0[0] != row[6].0[0]);
    assert(row[8].0[0] != row[9].0[0]);
    assert(row[4].0[0] != row[10].0[0]);
    crate::relation::lemma_column_at(row, 0);
    crate::relation::lemma_column_at(row, 1);
    crate::relation::lemma_column_at(row, 2);
    crate::relation::lemma_column_at(row, 3);
    crate::relation::lemma_column_at(row, 4);
    crate::relation::lemma_column_at(row, 5);
    crate::relation::lemma_column_at(row, 6);
    crate::relation::lemma_column_at(row, 7);
    crate::relation::lemma_column_at(row, 8);
    crate::relation::lemma_column_at(row, 9);
    crate::relation::lemma_column_at(row, 10);
    crate::relation::lemma_column_at(row, 11);
}


/// Every field is stored under its own name: the row that `insert_message_location` puts in holds in each
/// column the field of that column.
pub proof fn law_message_location_fields_keep_their_names(m: &V3MessageLocation, statement: Statement)
    requires
        call_ensures(insert_message_location, (m,), statement),
    ensures
        statement.does(Effect::Replace { table: "message_location"@, row: m.row() }),
        m.row().len() == 13,
        crate::relation::column(m.row(), "account_id_sha"@) == Val::Text(m.account_id_sha@),
        crate::relation::column(m.row(), "source"@) == Val::Text(m.source@),
        crate::relation::column(m.row(), "source_native_id"@) == Val::Text(m.source_native_id@),
        crate::relation::column(m.row(), "scale"@) == Val::Integer(m.scale as int),
        crate::relation::column(m.row(), "account_id"@) == Val::Text(m.account_id@),
        crate::relation::column(m.row(), "latitude"@) == Val::Real(m.latitude.bits),
        crate::relation::column(m.row(), "longitude"@) == Val::Real(m.longitude.bits),
        crate::relation::column(m.row(), "label"@) == (match m.label { Some(t) => Val::Text(t@), None => Val::Null }),
        crate::relation::column(m.row(), "poiname"@) == (match m.poiname { Some(t) => Val::Text(t@), None => Val::Null }),
        crate::relation::column(m.row(), "poiid"@) == (match m.poiid { Some(t) => Val::Text(t@), None => Val::Null }),
        crate::relation::column(m.row(), "maptype"@) == Val::Integer(m.maptype as int),
        crate::relation::column(m.row(), "adcode"@) == (match m.adcode { Some(t) => Val::Text(t@), None => Val::Null }),
        crate::relation::column(m.row(), "cityname"@) == (match m.cityname { Some(t) => Val::Text(t@), None => Val::Null }),
{
    reveal_strlit("account_id_sha");
    reveal_strlit("source");
    reveal_strlit("source_native_id");
    reveal_strlit("scale");
    reveal_strlit("account_id");
    reveal_strlit("latitude");
    reveal_strlit("longitude");
    reveal_strlit("label");
    reveal_strlit("poiname");
    reveal_strlit("poiid");
    reveal_strlit("maptype");
    reveal_strlit("adcode");
    reveal_strlit("cityname");
    let row = m.row();
    assert(row[0].0.len() == 14 && row[1].0.len() == 6 && row[2].0.len() == 16);
    assert(row[3].0.len() == 5 && row[4].0.len() == 10 && row[5].0.len() == 8);
    assert(row[6].0.len() == 9 && row[7].0.len() == 5 && row[8].0.len() == 7);
    assert(row[9].0.len() == 5 && row[10].0.len() == 7 && row[11].0.len() == 6);
    assert(row[12].0.len() == 8);
    assert(row[3].0[0] != row[7].0[0]);
    assert(row[3].0[0] != row[9].0[0]);
    assert(row[7].0[0] != row[9].0[0]);
    assert(row[8].0[0] != row[10].0[0]);
    assert(row[1].0[0] != row[11].0[0]);
    assert(row[5].0[0] != row[12].0[0]);
    crate::relation::lemma_column_at(row, 0);
    crate::relation::lemma_column_at(row, 1);
    crate::relation::lemma_column_at(row, 2);
    crate::relation::lemma_column_at(row, 3);
    crate::relation::lemma_column_at(row, 4);
    crate::relation::lemma_column_at(row, 5);
    crate::relation::lemma_column_at(row, 6);
    crate::relation::lemma_column_at(row, 7);
    crate::relation::lemma_column_at(row, 8);
    crate::relation::lemma_column_at(row, 9);
    crate::relation::lemma_column_at(row, 10);
    crate::relation::lemma_column_at(row, 11);
    crate::relation::lemma_column_at(row, 12);
}


/// Every field is stored under its own name: the row that `insert_message_call` puts in holds in each
/// column the field of that column.
pub proof fn law_message_call_fields_keep_their_names(m: &V3MessageCall, statement: Statement)
    requires
        call_ensures(insert_message_call, (m,), statement),
    ensures
        statement.does(Effect::Replace { table: "message_call"@, row: m.row() }),
        m.row().len() == 9,
        crate::relation::column(m.row(), "account_id_sha"@) == Val::Text(m.account_id_sha@),
        crate::relation::column(m.row(), "source"@) == Val::Text(m.source@),
        crate::relation::column(m.row(), "source_native_id"@) == Val::Text(m.source_native_id@),
        crate::relation::column(m.row(), "invite_type"@) == Val::Integer(m.invite_type as int),
        crate::relation::column(m.row(), "room_type"@) == Val::Integer(m.room_type as int),
        crate::relation::column(m.row(), "call_state"@) == Val::Integer(m.call_state as int),
        crate::relation::column(m.row(), "duration"@) == Val::Integer(m.duration as int),
        crate::relation::column(m.row(), "account_id"@) == Val::Text(m.account_id@),
        crate::relation::column(m.row(), "display_content"@) == Val::Text(m.display_content@),
{
    reveal_strlit("account_id_sha");
    reveal_strlit("source");
    reveal_strlit("source_native_id");
    reveal_strlit("invite_type");
    reveal_strlit("room_type");
    reveal_strlit("call_state");
    reveal_strlit("duration");
    reveal_strlit("account_id");
    reveal_strlit("display_content");
    let row = m.row();
    assert(row[0].0.len() == 14 && row[1].0.len() == 6 && row[2].0.len() == 16);
    assert(row[3].0.len() == 11 && row[4].0.len() == 9 && row[5].0.len() == 10);
    assert(row[6].0.len() == 8 && row[7].0.len() == 10 && row[8].0.len() == 15);
    assert(row[5].0[0] != row[7].0[0]);
    crate::relation::lemma_column_at(row, 0);
    crate::relation::lemma_column_at(row, 1);
    crate::relation::lemma_column_at(row, 2);
    crate::relation::lemma_column_at(row, 3);
    crate::relation::lemma_column_at(row, 4);
    crate::relation::lemma_column_at(row, 5);
    crate::relation::lemma_column_at(row, 6);
    crate::relation::lemma_column_at(row, 7);
    crate::relation::lemma_column_at(row, 8);
}


/// Every field is stored under its own name: the row that `insert_message_hongbao_claim` puts in holds in each
/// column the field of that column.
pub proof fn law_message_hongbao_claim_fields_keep_their_names(m: &V3MessageHongbaoClaim, statement: Statement)
    requires
        call_ensures(insert_message_hongbao_claim, (m,), statement),
    ensures
        statement.does(Effect::Replace { table: "message_hongbao_claim"@, row: m.row() }),
        m.row().len() == 7,
        crate::relation::column(m.row(), "account_id_sha"@) == Val::Text(m.account_id_sha@),
        crate::relation::column(m.row(), "source"@) == Val::Text(m.source@),
        crate::relation::column(m.row(), "source_native_id"@) == Val::Text(m.source_native_id@),
        crate::relation::column(m.row(), "send_id"@) == Val::Text(m.send_id@),
        crate::relation::column(m.row(), "is_own_envelope"@) == Val::Integer(if m.is_own_envelope { 1 } else { 0 }),
        crate::relation::column(m.row(), "account_id"@) == Val::Text(m.account_id@),
        crate::relation::column(m.row(), "peer_name"@) == Val::Text(m.peer_name@),
{
    reveal_strlit("account_id_sha");
    reveal_strlit("source");
    reveal_strlit("source_native_id");
    reveal_strlit("send_id");
    reveal_strlit("is_own_envelope");
    reveal_strlit("account_id");
    reveal_strlit("peer_name");
    let row = m.row();
    assert(row[0].0.len() == 14 && row[1].0.len() == 6 && row[2].0.len() == 16);
    assert(row[3].0.len() == 7 && row[4].0.len() == 15 && row[5].0.len() == 10);
    assert(row[6].0.len() == 9);
    crate::relation::lemma_column_at(row, 0);
    crate::relation::lemma_column_at(row, 1);
    crate::relation::lemma_column_at(row, 2);
    crate::relation::lemma_column_at(row, 3);
    crate::relation::lemma_column_at(row, 4);
    crate::relation::lemma_column_at(row, 5);
    crate::relation::lemma_column_at(row, 6);
}


/// Every field is stored under its own name: the row that `insert_message_card` puts in holds in each
/// column the field of that column.
pub proof fn law_message_card_fields_keep_their_names(m: &V3MessageCard, statement: Statement)
    requires
        call_ensures(insert_message_card, (m,), statement),
    ensures
        statement.does(Effect::Replace { table: "message_card"@, row: m.row() }),
        m.row().len() == 14,
        crate::relation::column(m.row(), "account_id_sha"@) == Val::Text(m.account_id_sha@),
        crate::relation::column(m.row(), "source"@) == Val::Text(m.source@),
        crate::relation::column(m.row(), "source_native_id"@) == Val::Text(m.source_native_id@),
        crate::relation::column(m.row(), "card_sex"@) == Val::Integer(m.card_sex as int),
        crate::relation::column(m.row(), "account_id"@) == Val::Text(m.account_id@),
        crate::relation::column(m.row(), "card_username"@) == Val::Text(m.card_username@),
        crate::relation::column(m.row(), "card_nickname"@) == (match m.card_nickname { Some(t) => Val::Text(t@), None => Val::Null }),
        crate::relation::column(m.row(), "card_alias"@) == (match m.card_alias { Some(t) => Val::Text(t@), None => Val::Null }),
        crate::relation::column(m.row(), "card_province"@) == (match m.card_province { Some(t) => Val::Text(t@), None => Val::Null }),
        crate::relation::column(m.row(), "card_city"@) == (match m.card_city { Some(t) => Val::Text(t@), None => Val::Null }),
        crate::relation::column(m.row(), "card_sign"@) == (match m.card_sign { Some(t) => Val::Text(t@), None => Val::Null }),
        crate::relation::column(m.row(), "card_open_im_desc"@) == (match m.card_open_im_desc { Some(t) => Val::Text(t@), None => Val::Null }),
        crate::relation::column(m.row(), "big_head_url"@) == (match m.big_head_url { Some(t) => Val::Text(t@), None => Val::Null }),
        crate::relation::column(m.row(), "small_head_url"@) == (match m.small_head_url { Some(t) => Val::Text(t@), None => Val::Null }),
{
    reveal_strlit("account_id_sha");
    reveal_strlit("source");
    reveal_strlit("source_native_id");
    reveal_strlit("card_sex");
    reveal_strlit("account_id");
    reveal_strlit("card_username");
    reveal_strlit("card_nickname");
    reveal_strlit("card_alias");
    reveal_strlit("card_province");
    reveal_strlit("card_city");
    reveal_strlit("card_sign");
    reveal_strlit("card_open_im_desc");
    reveal_strlit("big_head_url");
    reveal_strlit("small_head_url");
    let row = m.row();
    assert(row[0].0.len() == 14 && row[1].0.len() == 6 && row[2].0.len() == 16);
    assert(row[3].0.len() == 8 && row[4].0.len() == 10 && row[5].0.len() == 13);
    assert(row[6].0.len() == 13 && row[7].0.len() == 10 && row[8].0.len() == 13);
    assert(row[9].0.len() == 9 && row[10].0.len() == 9 && row[11].0.len() == 17);
    assert(row[12].0.len() == 12 && row[13].0.len() == 14);
    assert(row[5].0[5] != row[6].0[5]);
    assert(row[4].0[0] != row[7].0[0]);
    assert(row[5].0[5] != row[8].0[5]);
    assert(row[6].0[5] != row[8].0[5]);
    assert(row[9].0[5] != row[10].0[5]);
    assert(row[0].0[0] != row[13].0[0]);
    crate::relation::lemma_column_at(row, 0);
    crate::relation::lemma_column_at(row, 1);
    crate::relation::lemma_column_at(row, 2);
    crate::relation::lemma_column_at(row, 3);
    crate::relation::lemma_column_at(row, 4);
    crate::relation::lemma_column_at(row, 5);
    crate::relation::lemma_column_at(row, 6);
    crate::relation::lemma_column_at(row, 7);
    crate::relation::lemma_column_at(row, 8);
    crate::relation::lemma_column_at(row, 9);
    crate::relation::lemma_column_at(row, 10);
    crate::relation::lemma_column_at(row, 11);
    crate::relation::lemma_column_at(row, 12);
    crate::relation::lemma_column_at(row, 13);
}


/// Every field is stored under its own name: the row that `insert_message_mention` puts in holds in each
/// column the field of that column.
pub proof fn law_message_mention_fields_keep_their_names(m: &V3MessageMention, statement: Statement)
    requires
        call_ensures(insert_message_mention, (m,), statement),
    ensures
        statement.does(Effect::Replace { table: "message_mention"@, row: m.row() }),
        m.row().len() == 7,
        crate::relation::column(m.row(), "account_id_sha"@) == Val::Text(m.account_id_sha@),
        crate::relation::column(m.row(), "source"@) == Val::Text(m.source@),
        crate::relation::column(m.row(), "source_native_id"@) == Val::Text(m.source_native_id@),
        crate::relation::column(m.row(), "mentioned_wxid_sha"@) == Val::Text(m.mentioned_wxid_sha@),
        crate::relation::column(m.row(), "is_at_all"@) == Val::Integer(if m.is_at_all { 1 } else { 0 }),
        crate::relation::column(m.row(), "account_id"@) == Val::Text(m.account_id@),
        crate::relation::column(m.row(), "mentioned_wxid"@) == Val::Text(m.mentioned_wxid@),
{
    reveal_strlit("account_id_sha");
    reveal_strlit("source");
    reveal_strlit("source_native_id");
    reveal_strlit("mentioned_wxid_sha");
    reveal_strlit("is_at_all");
    reveal_strlit("account_id");
    reveal_strlit("mentioned_wxid");
    let row = m.row();
    assert(row[0].0.len() == 14 && row[1].0.len() == 6 && row[2].0.len() == 16);
    assert(row[3].0.len() == 18 && row[4].0.len() == 9 && row[5].0.len() == 10);
    assert(row[6].0.len() == 14);
    assert(row[0].0[0] != row[6].0[0]);
    crate::relation::lemma_column_at(row, 0);
    crate::relation::lemma_column_at(row, 1);
    crate::relation::lemma_column_at(row, 2);
    crate::relation::lemma_column_at(row, 3);
    crate::relation::lemma_column_at(row, 4);
    crate::relation::lemma_column_at(row, 5);
    crate::relation::lemma_column_at(row, 6);
}


/// Every field is stored under its own name: the row that `insert_message_forward_item` puts in holds in each
/// column the field of that column.
pub proof fn law_message_forward_item_fields_keep_their_names(m: &V3MessageForwardItem, statement: Statement)
    requires
        call_ensures(insert_message_forward_item, (m,), statement),
    ensures
        statement.does(Effect::Replace { table: "message_forward_item"@, row: m.row() }),
        m.row().len() == 12,
        crate::relation::column(m.row(), "account_id_sha"@) == Val::Text(m.account_id_sha@),
        crate::relation::column(m.row(), "source"@) == Val::Text(m.source@),
        crate::relation::column(m.row(), "source_native_id"@) == Val::Text(m.source_native_id@),
        crate::relation::column(m.row(), "seq"@) == Val::Integer(m.seq as int),
        crate::relation::column(m.row(), "data_type"@) == Val::Text(m.data_type@),
        crate::relation::column(m.row(), "data_size"@) == Val::Integer(m.data_size as int),
        crate::relation::column(m.row(), "account_id"@) == Val::Text(m.account_id@),
        crate::relation::column(m.row(), "source_name"@) == (match m.source_name { Some(t) => Val::Text(t@), None => Val::Null }),
        crate::relation::column(m.row(), "source_time"@) == (match m.source_time { Some(t) => Val::Text(t@), None => Val::Null }),
        crate::relation::column(m.row(), "data_title"@) == (match m.data_title { Some(t) => Val::Text(t@), None => Val::Null }),
        crate::relation::column(m.row(), "data_desc"@) == (match m.data_desc { Some(t) => Val::Text(t@), None => Val::Null }),
        crate::relation::column(m.row(), "media_md5"@) == (match m.media_md5 { Some(t) => Val::Text(t@), None => Val::Null }),
{
    reveal_strlit("account_id_sha");
    reveal_strlit("source");
    reveal_strlit("source_native_id");
    reveal_strlit("seq");
    reveal_strlit("data_type");
    reveal_strlit("data_size");
    reveal_strlit("account_id");
    reveal_strlit("source_name");
    reveal_strlit("source_time");
    reveal_strlit("data_title");
    reveal_strlit("data_desc");
    reveal_strlit("media_md5");
    let row = m.row();
    assert(row[0].0.len() == 14 && row[1].0.len() == 6 && row[2].0.len() == 16);
    assert(row[3].0.len() == 3 && row[4].0.len() == 9 && row[5].0.len() == 9);
    assert(row[6].0.len() == 10 && row[7].0.len() == 11 && row[8].0.len() == 11);
    assert(row[9].0.len() == 10 && row[10].0.len() == 9 && row[11].0.len() == 9);
    assert(row[4].0[5] != row[5].0[5]);
    assert(row[7].0[7] != row[8].0[7]);
    assert(row[6].0[0] != row[9].0[0]);
    assert(row[4].0[5] != row[10].0[5]);
    assert(row[5].0[5] != row[10].0[5]);
    assert(row[4].0[0] != row[11].0[0]);
    assert(row[5].0[0] != row[11].0[0]);
    assert(row[10].0[0] != row[11].0[0]);
    crate::relation::lemma_column_at(row, 0);
    crate::relation::lemma_column_at(row, 1);
    crate::relation::lemma_column_at(row, 2);
    crate::relation::lemma_column_at(row, 3);
    crate::relation::lemma_column_at(row, 4);
    crate::relation::lemma_column_at(row, 5);
    crate::relation::lemma_column_at(row, 6);
    crate::relation::lemma_column_at(row, 7);
    crate::relation::lemma_column_at(row, 8);
    crate::relation::lemma_column_at(row, 9);
    crate::relation::lemma_column_at(row, 10);
    crate::relation::lemma_column_at(row, 11);
}


/// What a log shows of `V3Message`: each of these fields under its name, in the form that is said
/// here, and nothing else. What is not shown as it is stays hidden.
pub proof fn law_message_shows_only_these_fields(m: &V3Message, row: DebugRow)
    requires
        call_ensures(V3Message::debug_row, (m,), row),
    ensures
        row.name@ == "V3Message"@,
        row.complete == false,
        row.fields@.len() == 27,
        row.fields@.contains(("account_id_sha", Shown::Text(m.account_id_sha))),
        row.fields@.contains(("source", Shown::Text(m.source))),
        row.fields@.contains(("source_native_id", Shown::Text(m.source_native_id))),
        row.fields@.contains(("conv_id_sha", Shown::Text(m.conv_id_sha))),
        row.fields@.contains(("server_id", Shown::Integer(m.server_id))),
        row.fields@.contains(("server_seq", Shown::Integer(m.server_seq))),
        row.fields@.contains(("origin_source", Shown::Integer(m.origin_source))),
        row.fields@.contains(("upload_status", Shown::Integer(m.upload_status))),
        row.fields@.contains(("download_status", Shown::Integer(m.download_status))),
        row.fields@.contains(("create_time", Shown::Integer(m.create_time))),
        row.fields@.contains(("sort_seq", Shown::Integer(m.sort_seq))),
        row.fields@.contains(("status", Shown::Integer(m.status))),
        row.fields@.contains(("msg_type", Shown::Integer(m.msg_type))),
        row.fields@.contains(("msg_type_name", Shown::Text(m.msg_type_name))),
        row.fields@.contains(("msg_sub_type", Shown::NullableInteger(m.msg_sub_type))),
        row.fields@.contains(("msg_sub_type_name", Shown::NullableText(m.msg_sub_type_name))),
        row.fields@.contains(("local_type_raw", Shown::Integer(m.local_type_raw))),
        row.fields@.contains(("sender_wxid_sha", Shown::Text(m.sender_wxid_sha))),
        row.fields@.contains(("is_chatroom", Shown::Flag(m.is_chatroom))),
        row.fields@.contains(("text_content_sha", Shown::Text(m.text_content_sha))),
        row.fields@.contains(("text_content_len", Shown::Integer(m.text_content_len))),
        row.fields@.contains(("raw_xml_present", Shown::Flag(m.raw_xml_present))),
        row.fields@.contains(("decode_kind", Shown::Text(m.decode_kind))),
        row.fields@.contains(("sys_type", Shown::NullableText(m.sys_type))),
        row.fields@.contains(("account_id_sha8", Shown::Digest(m.account_id))),
        row.fields@.contains(("conv_id_sha8", Shown::Digest(m.conv_id))),
        row.fields@.contains(("sender_wxid_sha8", Shown::Digest(m.sender_wxid))),
{
    let fields = row.fields@;
    assert(fields[0] == ("account_id_sha", Shown::Text(m.account_id_sha)));
    assert(fields[1] == ("source", Shown::Text(m.source)));
    assert(fields[2] == ("source_native_id", Shown::Text(m.source_native_id)));
    assert(fields[3] == ("conv_id_sha", Shown::Text(m.conv_id_sha)));
    assert(fields[4] == ("server_id", Shown::Integer(m.server_id)));
    assert(fields[5] == ("server_seq", Shown::Integer(m.server_seq)));
    assert(fields[6] == ("origin_source", Shown::Integer(m.origin_source)));
    assert(fields[7] == ("upload_status", Shown::Integer(m.upload_status)));
    assert(fields[8] == ("download_status", Shown::Integer(m.download_status)));
    assert(fields[9] == ("create_time", Shown::Integer(m.create_time)));
    assert(fields[10] == ("sort_seq", Shown::Integer(m.sort_seq)));
    assert(fields[11] == ("status", Shown::Integer(m.status)));
    assert(fields[12] == ("msg_type", Shown::Integer(m.msg_type)));
    assert(fields[13] == ("msg_type_name", Shown::Text(m.msg_type_name)));
    assert(fields[14] == ("msg_sub_type", Shown::NullableInteger(m.msg_sub_type)));
    assert(fields[15] == ("msg_sub_type_name", Shown::NullableText(m.msg_sub_type_name)));
    assert(fields[16] == ("local_type_raw", Shown::Integer(m.local_type_raw)));
    assert(fields[17] == ("sender_wxid_sha", Shown::Text(m.sender_wxid_sha)));
    assert(fields[18] == ("is_chatroom", Shown::Flag(m.is_chatroom)));
    assert(fields[19] == ("text_content_sha", Shown::Text(m.text_content_sha)));
    assert(fields[20] == ("text_content_len", Shown::Integer(m.text_content_len)));
    assert(fields[21] == ("raw_xml_present", Shown::Flag(m.raw_xml_present)));
    assert(fields[22] == ("decode_kind", Shown::Text(m.decode_kind)));
    assert(fields[23] == ("sys_type", Shown::NullableText(m.sys_type)));
    assert(fields[24] == ("account_id_sha8", Shown::Digest(m.account_id)));
    assert(fields[25] == ("conv_id_sha8", Shown::Digest(m.conv_id)));
    assert(fields[26] == ("sender_wxid_sha8", Shown::Digest(m.sender_wxid)));
}

/// What a log shows of `V3MessageApp`: each of these fields under its name, in the form that is said
/// here, and nothing else. What is not shown as it is stays hidden.
pub proof fn law_message_app_shows_only_these_fields(m: &V3MessageApp, row: DebugRow)
    requires
        call_ensures(V3MessageApp::debug_row, (m,), row),
    ensures
        row.name@ == "V3MessageApp"@,
        row.complete == false,
        row.fields@.len() == 32,
        row.fields@.contains(("account_id_sha", Shown::Text(m.account_id_sha))),
        row.fields@.contains(("source", Shown::Text(m.source))),
        row.fields@.contains(("source_native_id", Shown::Text(m.source_native_id))),
        row.fields@.contains(("app_type", Shown::Integer(m.app_type))),
        row.fields@.contains(("media_count", Shown::Integer(m.media_count))),
        row.fields@.contains(("account_id_sha8", Shown::Digest(m.account_id))),
        row.fields@.contains(("title_sha8", Shown::NullableDigest(m.title))),
        row.fields@.contains(("source_name_sha8", Shown::NullableDigest(m.source_name))),
        row.fields@.contains(("url_sha8", Shown::NullableDigest(m.url))),
        row.fields@.contains(("app_username_sha8", Shown::NullableDigest(m.app_username))),
        row.fields@.contains(("app_nickname_sha8", Shown::NullableDigest(m.app_nickname))),
        row.fields@.contains(("app_pagepath_sha8", Shown::NullableDigest(m.app_pagepath))),
        row.fields@.contains(("file_size", Shown::Integer(m.file_size))),
        row.fields@.contains(("file_ext", Shown::NullableText(m.file_ext))),
        row.fields@.contains(("file_md5_sha8", Shown::NullableDigest(m.file_md5))),
        row.fields@.contains(("transfer_fee", Shown::Mark(if m.transfer_fee is Some { Some("[redacted]") } else { None }))),
        row.fields@.contains(("transfer_direction", Shown::Integer(m.transfer_direction))),
        row.fields@.contains(("transfer_txid_sha8", Shown::NullableDigest(m.transfer_txid))),
        row.fields@.contains(("refer_svrid", Shown::NullableText(m.refer_svrid))),
        row.fields@.contains(("refer_type", Shown::Integer(m.refer_type))),
        row.fields@.contains(("refer_content_sha8", Shown::NullableDigest(m.refer_content))),
        row.fields@.contains(("forward_item_count", Shown::Integer(m.forward_item_count))),
        row.fields@.contains(("red_envelope_wish_sha8", Shown::NullableDigest(m.red_envelope_wish))),
        row.fields@.contains(("red_envelope_count", Shown::Integer(m.red_envelope_count))),
        row.fields@.contains(("group_pay_amount", Shown::Mark(if m.group_pay_amount is Some { Some("[redacted]") } else { None }))),
        row.fields@.contains(("group_pay_bill_no_sha8", Shown::NullableDigest(m.group_pay_bill_no))),
        row.fields@.contains(("music_desc_sha8", Shown::NullableDigest(m.music_desc))),
        row.fields@.contains(("gift_wish_sha8", Shown::NullableDigest(m.gift_wish))),
        row.fields@.contains(("gift_sku_sha8", Shown::NullableDigest(m.gift_sku))),
        row.fields@.contains(("live_status", Shown::Integer(m.live_status))),
        row.fields@.contains(("live_desc_sha8", Shown::NullableDigest(m.live_desc))),
        row.fields@.contains(("pay_scene_text", Shown::NullableText(m.pay_scene_text))),
{
    let fields = row.fields@;
    assert(fields[0] == ("account_id_sha", Shown::Text(m.account_id_sha)));
    assert(fields[1] == ("source", Shown::Text(m.source)));
    assert(fields[2] == ("source_native_id", Shown::Text(m.source_native_id)));
    assert(fields[3] == ("app_type", Shown::Integer(m.app_type)));
    assert(fields[4] == ("media_count", Shown::Integer(m.media_count)));
    assert(fields[5] == ("account_id_sha8", Shown::Digest(m.account_id)));
    assert(fields[6] == ("title_sha8", Shown::NullableDigest(m.title)));
    assert(fields[7] == ("source_name_sha8", Shown::NullableDigest(m.source_name)));
    assert(fields[8] == ("url_sha8", Shown::NullableDigest(m.url)));
    assert(fields[9] == ("app_username_sha8", Shown::NullableDigest(m.app_username)));
    assert(fields[10] == ("app_nickname_sha8", Shown::NullableDigest(m.app_nickname)));
    assert(fields[11] == ("app_pagepath_sha8", Shown::NullableDigest(m.app_pagepath)));
    assert(fields[12] == ("file_size", Shown::Integer(m.file_size)));
    assert(fields[13] == ("file_ext", Shown::NullableText(m.file_ext)));
    assert(fields[14] == ("file_md5_sha8", Shown::NullableDigest(m.file_md5)));
    assert(fields[15] == ("transfer_fee", Shown::Mark(if m.transfer_fee is Some { Some("[redacted]") } else { None })));
    assert(fields[16] == ("transfer_direction", Shown::Integer(m.transfer_direction)));
    assert(fields[17] == ("transfer_txid_sha8", Shown::NullableDigest(m.transfer_txid)));
    assert(fields[18] == ("refer_svrid", Shown::NullableText(m.refer_svrid)));
    assert(fields[19] == ("refer_type", Shown::Integer(m.refer_type)));
    assert(fields[20] == ("refer_content_sha8", Shown::NullableDigest(m.refer_content)));
    assert(fields[21] == ("forward_item_count", Shown::Integer(m.forward_item_count)));
    assert(fields[22] == ("red_envelope_wish_sha8", Shown::NullableDigest(m.red_envelope_wish)));
    assert(fields[23] == ("red_envelope_count", Shown::Integer(m.red_envelope_count)));
    assert(fields[24] == ("group_pay_amount", Shown::Mark(if m.group_pay_amount is Some { Some("[redacted]") } else { None })));
    assert(fields[25] == ("group_pay_bill_no_sha8", Shown::NullableDigest(m.group_pay_bill_no)));
    assert(fields[26] == ("music_desc_sha8", Shown::NullableDigest(m.music_desc)));
    assert(fields[27] == ("gift_wish_sha8", Shown::NullableDigest(m.gift_wish)));
    assert(fields[28] == ("gift_sku_sha8", Shown::NullableDigest(m.gift_sku)));
    assert(fields[29] == ("live_status", Shown::Integer(m.live_status)));
    assert(fields[30] == ("live_desc_sha8", Shown::NullableDigest(m.live_desc)));
    assert(fields[31] == ("pay_scene_text", Shown::NullableText(m.pay_scene_text)));
}

/// What a log shows of `V3MessageMedia`: each of these fields under its name, in the form that is said
/// here, and nothing else. What is not shown as it is stays hidden.
pub proof fn law_message_media_shows_only_these_fields(m: &V3MessageMedia, row: DebugRow)
    requires
        call_ensures(V3MessageMedia::debug_row, (m,), row),
    ensures
        row.name@ == "V3MessageMedia"@,
        row.complete == false,
        row.fields@.len() == 12,
        row.fields@.contains(("account_id_sha", Shown::Text(m.account_id_sha))),
        row.fields@.contains(("source", Shown::Text(m.source))),
        row.fields@.contains(("source_native_id", Shown::Text(m.source_native_id))),
        row.fields@.contains(("media_kind", Shown::Text(m.media_kind))),
        row.fields@.contains(("file_size", Shown::Integer(m.file_size))),
        row.fields@.contains(("play_length", Shown::Integer(m.play_length))),
        row.fields@.contains(("account_id_sha8", Shown::Digest(m.account_id))),
        row.fields@.contains(("md5_sha8", Shown::NullableDigest(m.md5))),
        row.fields@.contains(("aes_key_sha8", Shown::NullableDigest(m.aes_key))),
        row.fields@.contains(("cdn_url_sha8", Shown::NullableDigest(m.cdn_url))),
        row.fields@.contains(("thumb_url_sha8", Shown::NullableDigest(m.thumb_url))),
        row.fields@.contains(("extra_id_sha8", Shown::NullableDigest(m.extra_id))),
{
    let fields = row.fields@;
    assert(fields[0] == ("account_id_sha", Shown::Text(m.account_id_sha)));
    assert(fields[1] == ("source", Shown::Text(m.source)));
    assert(fields[2] == ("source_native_id", Shown::Text(m.source_native_id)));
    assert(fields[3] == ("media_kind", Shown::Text(m.media_kind)));
    assert(fields[4] == ("file_size", Shown::Integer(m.file_size)));
    assert(fields[5] == ("play_length", Shown::Integer(m.play_length)));
    assert(fields[6] == ("account_id_sha8", Shown::Digest(m.account_id)));
    assert(fields[7] == ("md5_sha8", Shown::NullableDigest(m.md5)));
    assert(fields[8] == ("aes_key_sha8", Shown::NullableDigest(m.aes_key)));
    assert(fields[9] == ("cdn_url_sha8", Shown::NullableDigest(m.cdn_url)));
    assert(fields[10] == ("thumb_url_sha8", Shown::NullableDigest(m.thumb_url)));
    assert(fields[11] == ("extra_id_sha8", Shown::NullableDigest(m.extra_id)));
}

/// What a log shows of `V3MessageLocation`: each of these fields under its name, in the form that is said
/// here, and nothing else. What is not shown as it is stays hidden.
pub proof fn law_message_location_shows_only_these_fields(m: &V3MessageLocation, row: DebugRow)
    requires
        call_ensures(V3MessageLocation::debug_row, (m,), row),
    ensures
        row.name@ == "V3MessageLocation"@,
        row.complete == false,
        row.fields@.len() == 13,
        row.fields@.contains(("account_id_sha", Shown::Text(m.account_id_sha))),
        row.fields@.contains(("source", Shown::Text(m.source))),
        row.fields@.contains(("source_native_id", Shown::Text(m.source_native_id))),
        row.fields@.contains(("scale", Shown::Integer(m.scale))),
        row.fields@.contains(("account_id_sha8", Shown::Digest(m.account_id))),
        row.fields@.contains(("lat~", Shown::Rounded(m.latitude))),
        row.fields@.contains(("lng~", Shown::Rounded(m.longitude))),
        row.fields@.contains(("label_sha8", Shown::NullableDigest(m.label))),
        row.fields@.contains(("poiname_sha8", Shown::NullableDigest(m.poiname))),
        row.fields@.contains(("poiid_sha8", Shown::NullableDigest(m.poiid))),
        row.fields@.contains(("maptype", Shown::Integer(m.maptype))),
        row.fields@.contains(("adcode", Shown::NullableText(m.adcode))),
        row.fields@.contains(("cityname", Shown::NullableText(m.cityname))),
{
    let fields = row.fields@;
    assert(fields[0] == ("account_id_sha", Shown::Text(m.account_id_sha)));
    assert(fields[1] == ("source", Shown::Text(m.source)));
    assert(fields[2] == ("source_native_id", Shown::Text(m.source_native_id)));
    assert(fields[3] == ("scale", Shown::Integer(m.scale)));
    assert(fields[4] == ("account_id_sha8", Shown::Digest(m.account_id)));
    assert(fields[5] == ("lat~", Shown::Rounded(m.latitude)));
    assert(fields[6] == ("lng~", Shown::Rounded(m.longitude)));
    assert(fields[7] == ("label_sha8", Shown::NullableDigest(m.label)));
    assert(fields[8] == ("poiname_sha8", Shown::NullableDigest(m.poiname)));
    assert(fields[9] == ("poiid_sha8", Shown::NullableDigest(m.poiid)));
    assert(fields[10] == ("maptype", Shown::Integer(m.maptype)));
    assert(fields[11] == ("adcode", Shown::NullableText(m.adcode)));
    assert(fields[12] == ("cityname", Shown::NullableText(m.cityname)));
}

/// What a log shows of `V3MessageCall`: each of these fields under its name, in the form that is said
/// here, and nothing else. What is not shown as it is stays hidden.
pub proof fn law_message_call_shows_only_these_fields(m: &V3MessageCall, row: DebugRow)
    requires
        call_ensures(V3MessageCall::debug_row, (m,), row),
    ensures
        row.name@ == "V3MessageCall"@,
        row.complete == true,
        row.fields@.len() == 9,
        row.fields@.contains(("account_id_sha", Shown::Text(m.account_id_sha))),
        row.fields@.contains(("source", Shown::Text(m.source))),
        row.fields@.contains(("source_native_id", Shown::Text(m.source_native_id))),
        row.fields@.contains(("invite_type", Shown::Integer(m.invite_type))),
        row.fields@.contains(("room_type", Shown::Integer(m.room_type))),
        row.fields@.contains(("call_state", Shown::Integer(m.call_state))),
        row.fields@.contains(("duration", Shown::Integer(m.duration))),
        row.fields@.contains(("account_id_sha8", Shown::Digest(m.account_id))),
        row.fields@.contains(("display_content", Shown::Text(m.display_content))),
{
    let fields = row.fields@;
    assert(fields[0] == ("account_id_sha", Shown::Text(m.account_id_sha)));
    assert(fields[1] == ("source", Shown::Text(m.source)));
    assert(fields[2] == ("source_native_id", Shown::Text(m.source_native_id)));
    assert(fields[3] == ("invite_type", Shown::Integer(m.invite_type)));
    assert(fields[4] == ("room_type", Shown::Integer(m.room_type)));
    assert(fields[5] == ("call_state", Shown::Integer(m.call_state)));
    assert(fields[6] == ("duration", Shown::Integer(m.duration)));
    assert(fields[7] == ("account_id_sha8", Shown::Digest(m.account_id)));
    assert(fields[8] == ("display_content", Shown::Text(m.display_content)));
}

/// What a log shows of `V3MessageHongbaoClaim`: each of these fields under its name, in the form that is said
/// here, and nothing else. What is not shown as it is stays hidden.
pub proof fn law_message_hongbao_claim_shows_only_these_fields(m: &V3MessageHongbaoClaim, row: DebugRow)
    requires
        call_ensures(V3MessageHongbaoClaim::debug_row, (m,), row),
    ensures
        row.name@ == "V3MessageHongbaoClaim"@,
        row.complete == true,
        row.fields@.len() == 7,
        row.fields@.contains(("account_id_sha", Shown::Text(m.account_id_sha))),
        row.fields@.contains(("source", Shown::Text(m.source))),
        row.fields@.contains(("source_native_id", Shown::Text(m.source_native_id))),
        row.fields@.contains(("send_id", Shown::Text(m.send_id))),
        row.fields@.contains(("is_own_envelope", Shown::Flag(m.is_own_envelope))),
        row.fields@.contains(("account_id_sha8", Shown::Digest(m.account_id))),
        row.fields@.contains(("peer_name_sha8", Shown::Digest(m.peer_name))),
{
    let fields = row.fields@;
    assert(fields[0] == ("account_id_sha", Shown::Text(m.account_id_sha)));
    assert(fields[1] == ("source", Shown::Text(m.source)));
    assert(fields[2] == ("source_native_id", Shown::Text(m.source_native_id)));
    assert(fields[3] == ("send_id", Shown::Text(m.send_id)));
    assert(fields[4] == ("is_own_envelope", Shown::Flag(m.is_own_envelope)));
    assert(fields[5] == ("account_id_sha8", Shown::Digest(m.account_id)));
    assert(fields[6] == ("peer_name_sha8", Shown::Digest(m.peer_name)));
}

/// What a log shows of `V3MessageCard`: each of these fields under its name, in the form that is said
/// here, and nothing else. What is not shown as it is stays hidden.
pub proof fn law_message_card_shows_only_these_fields(m: &V3MessageCard, row: DebugRow)
    requires
        call_ensures(V3MessageCard::debug_row, (m,), row),
    ensures
        row.name@ == "V3MessageCard"@,
        row.complete == true,
        row.fields@.len() == 14,
        row.fields@.contains(("account_id_sha", Shown::Text(m.account_id_sha))),
        row.fields@.contains(("source", Shown::Text(m.source))),
        row.fields@.contains(("source_native_id", Shown::Text(m.source_native_id))),
        row.fields@.contains(("card_sex", Shown::Integer(m.card_sex))),
        row.fields@.contains(("account_id_sha8", Shown::Digest(m.account_id))),
        row.fields@.contains(("card_username_sha8", Shown::Digest(m.card_username))),
        row.fields@.contains(("card_nickname_sha8", Shown::NullableDigest(m.card_nickname))),
        row.fields@.contains(("card_alias_sha8", Shown::NullableDigest(m.card_alias))),
        row.fields@.contains(("card_province", Shown::NullableText(m.card_province))),
        row.fields@.contains(("card_city", Shown::NullableText(m.card_city))),
        row.fields@.contains(("card_sign_sha8", Shown::NullableDigest(m.card_sign))),
        row.fields@.contains(("card_open_im_desc_sha8", Shown::NullableDigest(m.card_open_im_desc))),
        row.fields@.contains(("big_head_url_len", Shown::NullableCount((match m.big_head_url { Some(t) => Some(t@.len() as usize), None => None })))),
        row.fields@.contains(("small_head_url_len", Shown::NullableCount((match m.small_head_url { Some(t) => Some(t@.len() as usize), None => None })))),
{
    let fields = row.fields@;
    assert(fields[0] == ("account_id_sha", Shown::Text(m.account_id_sha)));
    assert(fields[1] == ("source", Shown::Text(m.source)));
    assert(fields[2] == ("source_native_id", Shown::Text(m.source_native_id)));
    assert(fields[3] == ("card_sex", Shown::Integer(m.card_sex)));
    assert(fields[4] == ("account_id_sha8", Shown::Digest(m.account_id)));
    assert(fields[5] == ("card_username_sha8", Shown::Digest(m.card_username)));
    assert(fields[6] == ("card_nickname_sha8", Shown::NullableDigest(m.card_nickname)));
    assert(fields[7] == ("card_alias_sha8", Shown::NullableDigest(m.card_alias)));
    assert(fields[8] == ("card_province", Shown::NullableText(m.card_province)));
    assert(fields[9] == ("card_city", Shown::NullableText(m.card_city)));
    assert(fields[10] == ("card_sign_sha8", Shown::NullableDigest(m.card_sign)));
    assert(fields[11] == ("card_open_im_desc_sha8", Shown::NullableDigest(m.card_open_im_desc)));
    assert(fields[12] == ("big_head_url_len", Shown::NullableCount((match m.big_head_url { Some(t) => Some(t@.len() as usize), None => None }))));
    assert(fields[13] == ("small_head_url_len", Shown::NullableCount((match m.small_head_url { Some(t) => Some(t@.len() as usize), None => None }))));
}

/// What a log shows of `V3MessageMention`: each of these fields under its name, in the form that is said
/// here, and nothing else. What is not shown as it is stays hidden.
pub proof fn law_message_mention_shows_only_these_fields(m: &V3MessageMention, row: DebugRow)
    requires
        call_ensures(V3MessageMention::debug_row, (m,), row),
    ensures
        row.name@ == "V3MessageMention"@,
        row.complete == false,
        row.fields@.len() == 7,
        row.fields@.contains(("account_id_sha", Shown::Text(m.account_id_sha))),
        row.fields@.contains(("source", Shown::Text(m.source))),
        row.fields@.contains(("source_native_id", Shown::Text(m.source_native_id))),
        row.fields@.contains(("mentioned_wxid_sha", Shown::Text(m.mentioned_wxid_sha))),
        row.fields@.contains(("is_at_all", Shown::Flag(m.is_at_all))),
        row.fields@.contains(("account_id_sha8", Shown::Digest(m.account_id))),
        row.fields@.contains(("mentioned_wxid_sha8", Shown::Digest(m.mentioned_wxid))),
{
    let fields = row.fields@;
    assert(fields[0] == ("account_id_sha", Shown::Text(m.account_id_sha)));
    assert(fields[1] == ("source", Shown::Text(m.source)));
    assert(fields[2] == ("source_native_id", Shown::Text(m.source_native_id)));
    assert(fields[3] == ("mentioned_wxid_sha", Shown::Text(m.mentioned_wxid_sha)));
    assert(fields[4] == ("is_at_all", Shown::Flag(m.is_at_all)));
    assert(fields[5] == ("account_id_sha8", Shown::Digest(m.account_id)));
    assert(fields[6] == ("mentioned_wxid_sha8", Shown::Digest(m.mentioned_wxid)));
}

/// What a log shows of `V3MessageForwardItem`: each of these fields under its name, in the form that is said
/// here, and nothing else. What is not shown as it is stays hidden.
pub proof fn law_message_forward_item_shows_only_these_fields(m: &V3MessageForwardItem, row: DebugRow)
    requires
        call_ensures(V3MessageForwardItem::debug_row, (m,), row),
    ensures
        row.name@ == "V3MessageForwardItem"@,
        row.complete == true,
        row.fields@.len() == 12,
        row.fields@.contains(("account_id_sha", Shown::Text(m.account_id_sha))),
        row.fields@.contains(("source", Shown::Text(m.source))),
        row.fields@.contains(("source_native_id", Shown::Text(m.source_native_id))),
        row.fields@.contains(("seq", Shown::Integer(m.seq))),
        row.fields@.contains(("data_type", Shown::Text(m.data_type))),
        row.fields@.contains(("data_size", Shown::Integer(m.data_size))),
        row.fields@.contains(("account_id_sha8", Shown::Digest(m.account_id))),
        row.fields@.contains(("source_name_sha8", Shown::NullableDigest(m.source_name))),
        row.fields@.contains(("source_time", Shown::NullableText(m.source_time))),
        row.fields@.contains(("data_title_sha8", Shown::NullableDigest(m.data_title))),
        row.fields@.contains(("data_desc_len", Shown::NullableCount((match m.data_desc { Some(t) => Some(t@.len() as usize), None => None })))),
        row.fields@.contains(("media_md5_sha8", Shown::NullableDigest(m.media_md5))),
{
    let fields = row.fields@;
    assert(fields[0] == ("account_id_sha", Shown::Text(m.account_id_sha)));
    assert(fields[1] == ("source", Shown::Text(m.source)));
    assert(fields[2] == ("source_native_id", Shown::Text(m.source_native_id)));
    assert(fields[3] == ("seq", Shown::Integer(m.seq)));
    assert(fields[4] == ("data_type", Shown::Text(m.data_type)));
    assert(fields[5] == ("data_size", Shown::Integer(m.data_size)));
    assert(fields[6] == ("account_id_sha8", Shown::Digest(m.account_id)));
    assert(fields[7] == ("source_name_sha8", Shown::NullableDigest(m.source_name)));
    assert(fields[8] == ("source_time", Shown::NullableText(m.source_time)));
    assert(fields[9] == ("data_title_sha8", Shown::NullableDigest(m.data_title)));
    assert(fields[10] == ("data_desc_len", Shown::NullableCount((match m.data_desc { Some(t) => Some(t@.len() as usize), None => None }))));
    assert(fields[11] == ("media_md5_sha8", Shown::NullableDigest(m.media_md5)));
}

/// `delete_message_app` takes out exactly the rows of the thing that it is given: those with its account,
/// its source and its name.
pub proof fn law_delete_message_app_takes_exactly_its_rows(
    account_id_sha: &str,
    source: &str,
    id: &str,
    statement: Statement,
)
    requires
        call_ensures(delete_message_app, (account_id_sha, source, id), statement),
    ensures
        exists|tests: Seq<crate::sql::Test>|
            {
                &&& #[trigger] statement.does(Effect::Delete { table: "message_app"@, tests })
                &&& forall|m: V3MessageApp| #[trigger]
                    crate::relation::passes_all(m.row(), tests) <==> {
                        &&& m.account_id_sha@ == account_id_sha@
                        &&& m.source@ == source@
                        &&& m.source_native_id@ == id@
                    }
            },
{
    reveal_strlit("account_id_sha");
    reveal_strlit("source");
    reveal_strlit("source_native_id");
    let tests = crate::plan::belonging_to(account_id_sha@, source@, "source_native_id"@, id@);
    assert forall|m: V3MessageApp| #[trigger] crate::relation::passes_all(m.row(), tests) <==> {
        &&& m.account_id_sha@ == account_id_sha@
        &&& m.source@ == source@
        &&& m.source_native_id@ == id@
    } by {
        let row = m.row();
        assert(row[0].0.len() == 14 && row[1].0.len() == 6 && row[2].0.len() == 16);
        crate::relation::lemma_column_at(row, 0);
        crate::relation::lemma_column_at(row, 1);
        crate::relation::lemma_column_at(row, 2);
        crate::plan::law_group_is_the_rows_of_one_thing(
            row,
            account_id_sha@,
            source@,
            "source_native_id"@,
            id@,
        );
    }
    assert(statement.does(Effect::Delete { table: "message_app"@, tests }));
}

/// `delete_message_media` takes out exactly the rows of the thing that it is given: those with its account,
/// its source and its name.
pub proof fn law_delete_message_media_takes_exactly_its_rows(
    account_id_sha: &str,
    source: &str,
    id: &str,
    statement: Statement,
)
    requires
        call_ensures(delete_message_media, (account_id_sha, source, id), statement),
    ensures
        exists|tests: Seq<crate::sql::Test>|
            {
                &&& #[trigger] statement.does(Effect::Delete { table: "message_media"@, tests })
                &&& forall|m: V3MessageMedia| #[trigger]
                    crate::relation::passes_all(m.row(), tests) <==> {
                        &&& m.account_id_sha@ == account_id_sha@
                        &&& m.source@ == source@
                        &&& m.source_native_id@ == id@
                    }
            },
{
    reveal_strlit("account_id_sha");
    reveal_strlit("source");
    reveal_strlit("source_native_id");
    let tests = crate::plan::belonging_to(account_id_sha@, source@, "source_native_id"@, id@);
    assert forall|m: V3MessageMedia| #[trigger] crate::relation::passes_all(m.row(), tests) <==> {
        &&& m.account_id_sha@ == account_id_sha@
        &&& m.source@ == source@
        &&& m.source_native_id@ == id@
    } by {
        let row = m.row();
        assert(row[0].0.len() == 14 && row[1].0.len() == 6 && row[2].0.len() == 16);
        crate::relation::lemma_column_at(row, 0);
        crate::relation::lemma_column_at(row, 1);
        crate::relation::lemma_column_at(row, 2);
        crate::plan::law_group_is_the_rows_of_one_thing(
            row,
            account_id_sha@,
            source@,
            "source_native_id"@,
            id@,
        );
    }
    assert(statement.does(Effect::Delete { table: "message_media"@, tests }));
}

/// `delete_message_location` takes out exactly the rows of the thing that it is given: those with its account,
/// its source and its name.
pub proof fn law_delete_message_location_takes_exactly_its_rows(
    account_id_sha: &str,
    source: &str,
    id: &str,
    statement: Statement,
)
    requires
        call_ensures(delete_message_location, (account_id_sha, source, id), statement),
    ensures
        exists|tests: Seq<crate::sql::Test>|
            {
                &&& #[trigger] statement.does(Effect::Delete { table: "message_location"@, tests })
                &&& forall|m: V3MessageLocation| #[trigger]
                    crate::relation::passes_all(m.row(), tests) <==> {
                        &&& m.account_id_sha@ == account_id_sha@
                        &&& m.source@ == source@
                        &&& m.source_native_id@ == id@
                    }
            },
{
    reveal_strlit("account_id_sha");
    reveal_strlit("source");
    reveal_strlit("source_native_id");
    let tests = crate::plan::belonging_to(account_id_sha@, source@, "source_native_id"@, id@);
    assert forall|m: V3MessageLocation| #[trigger] crate::relation::passes_all(m.row(), tests) <==> {
        &&& m.account_id_sha@ == account_id_sha@
        &&& m.source@ == source@
        &&& m.source_native_id@ == id@
    } by {
        let row = m.row();
        assert(row[0].0.len() == 14 && row[1].0.len() == 6 && row[2].0.len() == 16);
        crate::relation::lemma_column_at(row, 0);
        crate::relation::lemma_column_at(row, 1);
        crate::relation::lemma_column_at(row, 2);
        crate::plan::law_group_is_the_rows_of_one_thing(
            row,
            account_id_sha@,
            source@,
            "source_native_id"@,
            id@,
        );
    }
    assert(statement.does(Effect::Delete { table: "message_location"@, tests }));
}

/// `delete_message_call` takes out exactly the rows of the thing that it is given: those with its account,
/// its source and its name.
pub proof fn law_delete_message_call_takes_exactly_its_rows(
    account_id_sha: &str,
    source: &str,
    id: &str,
    statement: Statement,
)
    requires
        call_ensures(delete_message_call, (account_id_sha, source, id), statement),
    ensures
        exists|tests: Seq<crate::sql::Test>|
            {
                &&& #[trigger] statement.does(Effect::Delete { table: "message_call"@, tests })
                &&& forall|m: V3MessageCall| #[trigger]
                    crate::relation::passes_all(m.row(), tests) <==> {
                        &&& m.account_id_sha@ == account_id_sha@
                        &&& m.source@ == source@
                        &&& m.source_native_id@ == id@
                    }
            },
{
    reveal_strlit("account_id_sha");
    reveal_strlit("source");
    reveal_strlit("source_native_id");
    let tests = crate::plan::belonging_to(account_id_sha@, source@, "source_native_id"@, id@);
    assert forall|m: V3MessageCall| #[trigger] crate::relation::passes_all(m.row(), tests) <==> {
        &&& m.account_id_sha@ == account_id_sha@
        &&& m.source@ == source@
        &&& m.source_native_id@ == id@
    } by {
        let row = m.row();
        assert(row[0].0.len() == 14 && row[1].0.len() == 6 && row[2].0.len() == 16);
        crate::relation::lemma_column_at(row, 0);
        crate::relation::lemma_column_at(row, 1);
        crate::relation::lemma_column_at(row, 2);
        crate::plan::law_group_is_the_rows_of_one_thing(
            row,
            account_id_sha@,
            source@,
            "source_native_id"@,
            id@,
        );
    }
    assert(statement.does(Effect::Delete { table: "message_call"@, tests }));
}

/// `delete_message_hongbao_claim` takes out exactly the rows of the thing that it is given: those with its account,
/// its source and its name.
pub proof fn law_delete_message_hongbao_claim_takes_exactly_its_rows(
    account_id_sha: &str,
    source: &str,
    id: &str,
    statement: Statement,
)
    requires
        call_ensures(delete_message_hongbao_claim, (account_id_sha, source, id), statement),
    ensures
        exists|tests: Seq<crate::sql::Test>|
            {
                &&& #[trigger] statement.does(Effect::Delete { table: "message_hongbao_claim"@, tests })
                &&& forall|m: V3MessageHongbaoClaim| #[trigger]
                    crate::relation::passes_all(m.row(), tests) <==> {
                        &&& m.account_id_sha@ == account_id_sha@
                        &&& m.source@ == source@
                        &&& m.source_native_id@ == id@
                    }
            },
{
    reveal_strlit("account_id_sha");
    reveal_strlit("source");
    reveal_strlit("source_native_id");
    let tests = crate::plan::belonging_to(account_id_sha@, source@, "source_native_id"@, id@);
    assert forall|m: V3MessageHongbaoClaim| #[trigger] crate::relation::passes_all(m.row(), tests) <==> {
        &&& m.account_id_sha@ == account_id_sha@
        &&& m.source@ == source@
        &&& m.source_native_id@ == id@
    } by {
        let row = m.row();
        assert(row[0].0.len() == 14 && row[1].0.len() == 6 && row[2].0.len() == 16);
        crate::relation::lemma_column_at(row, 0);
        crate::relation::lemma_column_at(row, 1);
        crate::relation::lemma_column_at(row, 2);
        crate::plan::law_group_is_the_rows_of_one_thing(
            row,
            account_id_sha@,
            source@,
            "source_native_id"@,
            id@,
        );
    }
    assert(statement.does(Effect::Delete { table: "message_hongbao_claim"@, tests }));
}

/// `delete_message_card` takes out exactly the rows of the thing that it is given: those with its account,
/// its source and its name.
pub proof fn law_delete_message_card_takes_exactly_its_rows(
    account_id_sha: &str,
    source: &str,
    id: &str,
    statement: Statement,
)
    requires
        call_ensures(delete_message_card, (account_id_sha, source, id), statement),
    ensures
        exists|tests: Seq<crate::sql::Test>|
            {
                &&& #[trigger] statement.does(Effect::Delete { table: "message_card"@, tests })
                &&& forall|m: V3MessageCard| #[trigger]
                    crate::relation::passes_all(m.row(), tests) <==> {
                        &&& m.account_id_sha@ == account_id_sha@
                        &&& m.source@ == source@
                        &&& m.source_native_id@ == id@
                    }
            },
{
    reveal_strlit("account_id_sha");
    reveal_strlit("source");
    reveal_strlit("source_native_id");
    let tests = crate::plan::belonging_to(account_id_sha@, source@, "source_native_id"@, id@);
    assert forall|m: V3MessageCard| #[trigger] crate::relation::passes_all(m.row(), tests) <==> {
        &&& m.account_id_sha@ == account_id_sha@
        &&& m.source@ == source@
        &&& m.source_native_id@ == id@
    } by {
        let row = m.row();
        assert(row[0].0.len() == 14 && row[1].0.len() == 6 && row[2].0.len() == 16);
        crate::relation::lemma_column_at(row, 0);
        crate::relation::lemma_column_at(row, 1);
        crate::relation::lemma_column_at(row, 2);
        crate::plan::law_group_is_the_rows_of_one_thing(
            row,
            account_id_sha@,
            source@,
            "source_native_id"@,
            id@,
        );
    }
    assert(statement.does(Effect::Delete { table: "message_card"@, tests }));
}

/// `delete_message_mentions` takes out exactly the rows of the thing that it is given: those with its account,
/// its source and its name.
pub proof fn law_delete_message_mentions_takes_exactly_its_rows(
    account_id_sha: &str,
    source: &str,
    id: &str,
    statement: Statement,
)
    requires
        call_ensures(delete_message_mentions, (account_id_sha, source, id), statement),
    ensures
        exists|tests: Seq<crate::sql::Test>|
            {
                &&& #[trigger] statement.does(Effect::Delete { table: "message_mention"@, tests })
                &&& forall|m: V3MessageMention| #[trigger]
                    crate::relation::passes_all(m.row(), tests) <==> {
                        &&& m.account_id_sha@ == account_id_sha@
                        &&& m.source@ == source@
                        &&& m.source_native_id@ == id@
                    }
            },
{
    reveal_strlit("account_id_sha");
    reveal_strlit("source");
    reveal_strlit("source_native_id");
    let tests = crate::plan::belonging_to(account_id_sha@, source@, "source_native_id"@, id@);
    assert forall|m: V3MessageMention| #[trigger] crate::relation::passes_all(m.row(), tests) <==> {
        &&& m.account_id_sha@ == account_id_sha@
        &&& m.source@ == source@
        &&& m.source_native_id@ == id@
    } by {
        let row = m.row();
        assert(row[0].0.len() == 14 && row[1].0.len() == 6 && row[2].0.len() == 16);
        crate::relation::lemma_column_at(row, 0);
        crate::relation::lemma_column_at(row, 1);
        crate::relation::lemma_column_at(row, 2);
        crate::plan::law_group_is_the_rows_of_one_thing(
            row,
            account_id_sha@,
            source@,
            "source_native_id"@,
            id@,
        );
    }
    assert(statement.does(Effect::Delete { table: "message_mention"@, tests }));
}

/// `delete_message_forward_items` takes out exactly the rows of the thing that it is given: those with its account,
/// its source and its name.
pub proof fn law_delete_message_forward_items_takes_exactly_its_rows(
    account_id_sha: &str,
    source: &str,
    id: &str,
    statement: Statement,
)
    requires
        call_ensures(delete_message_forward_items, (account_id_sha, source, id), statement),
    ensures
        exists|tests: Seq<crate::sql::Test>|
            {
                &&& #[trigger] statement.does(Effect::Delete { table: "message_forward_item"@, tests })
                &&& forall|m: V3MessageForwardItem| #[trigger]
                    crate::relation::passes_all(m.row(), tests) <==> {
                        &&& m.account_id_sha@ == account_id_sha@
                        &&& m.source@ == source@
                        &&& m.source_native_id@ == id@
                    }
            },
{
    reveal_strlit("account_id_sha");
    reveal_strlit("source");
    reveal_strlit("source_native_id");
    let tests = crate::plan::belonging_to(account_id_sha@, source@, "source_native_id"@, id@);
    assert forall|m: V3MessageForwardItem| #[trigger] crate::relation::passes_all(m.row(), tests) <==> {
        &&& m.account_id_sha@ == account_id_sha@
        &&& m.source@ == source@
        &&& m.source_native_id@ == id@
    } by {
        let row = m.row();
        assert(row[0].0.len() == 14 && row[1].0.len() == 6 && row[2].0.len() == 16);
        crate::relation::lemma_column_at(row, 0);
        crate::relation::lemma_column_at(row, 1);
        crate::relation::lemma_column_at(row, 2);
        crate::plan::law_group_is_the_rows_of_one_thing(
            row,
            account_id_sha@,
            source@,
            "source_native_id"@,
            id@,
        );
    }
    assert(statement.does(Effect::Delete { table: "message_forward_item"@, tests }));
}

/// Every column takes what is stored in it, and only the columns of what may be missing take null.
pub proof fn law_message_columns_take_its_rows(m: V3Message, i: int)
    requires
        0 <= i < m.row().len(),
    ensures
        message_columns()[i].decl.takes(m.row()[i].1),
        message_columns()[i].decl.takes(Val::Null) <==> i == 14 || i == 15 || i == 23,
{
    let row = m.row();
    let columns = message_columns();
    assert(columns[0].decl.takes(row[0].1) && columns[1].decl.takes(row[1].1) && columns[2].decl.takes(row[2].1));
    assert(columns[3].decl.takes(row[3].1) && columns[4].decl.takes(row[4].1) && columns[5].decl.takes(row[5].1));
    assert(columns[6].decl.takes(row[6].1) && columns[7].decl.takes(row[7].1) && columns[8].decl.takes(row[8].1));
    assert(columns[9].decl.takes(row[9].1) && columns[10].decl.takes(row[10].1) && columns[11].decl.takes(row[11].1));
    assert(columns[12].decl.takes(row[12].1) && columns[13].decl.takes(row[13].1) && columns[14].decl.takes(row[14].1));
    assert(columns[15].decl.takes(row[15].1) && columns[16].decl.takes(row[16].1) && columns[17].decl.takes(row[17].1));
    assert(columns[18].decl.takes(row[18].1) && columns[19].decl.takes(row[19].1) && columns[20].decl.takes(row[20].1));
    assert(columns[21].decl.takes(row[21].1) && columns[22].decl.takes(row[22].1) && columns[23].decl.takes(row[23].1));
    assert(columns[24].decl.takes(row[24].1) && columns[25].decl.takes(row[25].1) && columns[26].decl.takes(row[26].1));
    assert(columns[27].decl.takes(row[27].1));
}

/// Every column takes what is stored in it, and only the columns of what may be missing take null.
pub proof fn law_message_app_columns_take_its_rows(m: V3MessageApp, i: int)
    requires
        0 <= i < m.row().len(),
    ensures
        message_app_columns()[i].decl.takes(m.row()[i].1),
        message_app_columns()[i].decl.takes(Val::Null) <==> i == 6 || i == 7 || i == 8 || i == 9 || i == 10 || i == 11 || i == 13 || i == 14 || i == 15 || i == 17 || i == 18 || i == 20 || i == 22 || i == 24 || i == 25 || i == 26 || i == 27 || i == 28 || i == 30 || i == 31,
{
    let row = m.row();
    let columns = message_app_columns();
    assert(columns[0].decl.takes(row[0].1) && columns[1].decl.takes(row[1].1) && columns[2].decl.takes(row[2].1));
    assert(columns[3].decl.takes(row[3].1) && columns[4].decl.takes(row[4].1) && columns[5].decl.takes(row[5].1));
    assert(columns[6].decl.takes(row[6].1) && columns[7].decl.takes(row[7].1) && columns[8].decl.takes(row[8].1));
    assert(columns[9].decl.takes(row[9].1) && columns[10].decl.takes(row[10].1) && columns[11].decl.takes(row[11].1));
    assert(columns[12].decl.takes(row[12].1) && columns[13].decl.takes(row[13].1) && columns[14].decl.takes(row[14].1));
    assert(columns[15].decl.takes(row[15].1) && columns[16].decl.takes(row[16].1) && columns[17].decl.takes(row[17].1));
    assert(columns[18].decl.takes(row[18].1) && columns[19].decl.takes(row[19].1) && columns[20].decl.takes(row[20].1));
    assert(columns[21].decl.takes(row[21].1) && columns[22].decl.takes(row[22].1) && columns[23].decl.takes(row[23].1));
    assert(columns[24].decl.takes(row[24].1) && columns[25].decl.takes(row[25].1) && columns[26].decl.takes(row[26].1));
    assert(columns[27].decl.takes(row[27].1) && columns[28].decl.takes(row[28].1) && columns[29].decl.takes(row[29].1));
    assert(columns[30].decl.takes(row[30].1) && columns[31].decl.takes(row[31].1));
}

/// Every column takes what is stored in it, and only the columns of what may be missing take null.
pub proof fn law_message_media_columns_take_its_rows(m: V3MessageMedia, i: int)
    requires
        0 <= i < m.row().len(),
    ensures
        message_media_columns()[i].decl.takes(m.row()[i].1),
        message_media_columns()[i].decl.takes(Val::Null) <==> i == 7 || i == 8 || i == 9 || i == 10 || i == 11,
{
    let row = m.row();
    let columns = message_media_columns();
    assert(columns[0].decl.takes(row[0].1) && columns[1].decl.takes(row[1].1) && columns[2].decl.takes(row[2].1));
    assert(columns[3].decl.takes(row[3].1) && columns[4].decl.takes(row[4].1) && columns[5].decl.takes(row[5].1));
    assert(columns[6].decl.takes(row[6].1) && columns[7].decl.takes(row[7].1) && columns[8].decl.takes(row[8].1));
    assert(columns[9].decl.takes(row[9].1) && columns[10].decl.takes(row[10].1) && columns[11].decl.takes(row[11].1));
}

/// Every column takes what is stored in it, and only the columns of what may be missing take null.
pub proof fn law_message_location_columns_take_its_rows(m: V3MessageLocation, i: int)
    requires
        0 <= i < m.row().len(),
    ensures
        message_location_columns()[i].decl.takes(m.row()[i].1),
        message_location_columns()[i].decl.takes(Val::Null) <==> i == 7 || i == 8 || i == 9 || i == 11 || i == 12,
{
    let row = m.row();
    let columns = message_location_columns();
    assert(columns[0].decl.takes(row[0].1) && columns[1].decl.takes(row[1].1) && columns[2].decl.takes(row[2].1));
    assert(columns[3].decl.takes(row[3].1) && columns[4].decl.takes(row[4].1) && columns[5].decl.takes(row[5].1));
    assert(columns[6].decl.takes(row[6].1) && columns[7].decl.takes(row[7].1) && columns[8].decl.takes(row[8].1));
    assert(columns[9].decl.takes(row[9].1) && columns[10].decl.takes(row[10].1) && columns[11].decl.takes(row[11].1));
    assert(columns[12].decl.takes(row[12].1));
}

/// Every column takes what is stored in it, and none takes null.
pub proof fn law_message_call_columns_take_its_rows(m: V3MessageCall, i: int)
    requires
        0 <= i < m.row().len(),
    ensures
        message_call_columns()[i].decl.takes(m.row()[i].1),
        !message_call_columns()[i].decl.takes(Val::Null),
{
    let row = m.row();
    let columns = message_call_columns();
    assert(columns[0].decl.takes(row[0].1) && columns[1].decl.takes(row[1].1) && columns[2].decl.takes(row[2].1));
    assert(columns[3].decl.takes(row[3].1) && columns[4].decl.takes(row[4].1) && columns[5].decl.takes(row[5].1));
    assert(columns[6].decl.takes(row[6].1) && columns[7].decl.takes(row[7].1) && columns[8].decl.takes(row[8].1));
}

/// Every column takes what is stored in it, and none takes null.
pub proof fn law_message_hongbao_claim_columns_take_its_rows(m: V3MessageHongbaoClaim, i: int)
    requires
        0 <= i < m.row().len(),
    ensures
        message_hongbao_claim_columns()[i].decl.takes(m.row()[i].1),
        !message_hongbao_claim_columns()[i].decl.takes(Val::Null),
{
    let row = m.row();
    let columns = message_hongbao_claim_columns();
    assert(columns[0].decl.takes(row[0].1) && columns[1].decl.takes(row[1].1) && columns[2].decl.takes(row[2].1));
    assert(columns[3].decl.takes(row[3].1) && columns[4].decl.takes(row[4].1) && columns[5].decl.takes(row[5].1));
    assert(columns[6].decl.takes(row[6].1));
}

/// Every column takes what is stored in it, and only the columns of what may be missing take null.
pub proof fn law_message_card_columns_take_its_rows(m: V3MessageCard, i: int)
    requires
        0 <= i < m.row().len(),
    ensures
        message_card_columns()[i].decl.takes(m.row()[i].1),
        message_card_columns()[i].decl.takes(Val::Null) <==> i == 6 || i == 7 || i == 8 || i == 9 || i == 10 || i == 11 || i == 12 || i == 13,
{
    let row = m.row();
    let columns = message_card_columns();
    assert(columns[0].decl.takes(row[0].1) && columns[1].decl.takes(row[1].1) && columns[2].decl.takes(row[2].1));
    assert(columns[3].decl.takes(row[3].1) && columns[4].decl.takes(row[4].1) && columns[5].decl.takes(row[5].1));
    assert(columns[6].decl.takes(row[6].1) && columns[7].decl.takes(row[7].1) && columns[8].decl.takes(row[8].1));
    assert(columns[9].decl.takes(row[9].1) && columns[10].decl.takes(row[10].1) && columns[11].decl.takes(row[11].1));
    assert(columns[12].decl.takes(row[12].1) && columns[13].decl.takes(row[13].1));
}

/// Every column takes what is stored in it, and none takes null.
pub proof fn law_message_mention_columns_take_its_rows(m: V3MessageMention, i: int)
    requires
        0 <= i < m.row().len(),
    ensures
        message_mention_columns()[i].decl.takes(m.row()[i].1),
        !message_mention_columns()[i].decl.takes(Val::Null),
{
    let row = m.row();
    let columns = message_mention_columns();
    assert(columns[0].decl.takes(row[0].1) && columns[1].decl.takes(row[1].1) && columns[2].decl.takes(row[2].1));
    assert(columns[3].decl.takes(row[3].1) && columns[4].decl.takes(row[4].1) && columns[5].decl.takes(row[5].1));
    assert(columns[6].decl.takes(row[6].1));
}

/// Every column takes what is stored in it, and only the columns of what may be missing take null.
pub proof fn law_message_forward_item_columns_take_its_rows(m: V3MessageForwardItem, i: int)
    requires
        0 <= i < m.row().len(),
    ensures
        message_forward_item_columns()[i].decl.takes(m.row()[i].1),
        message_forward_item_columns()[i].decl.takes(Val::Null) <==> i == 7 || i == 8 || i == 9 || i == 10 || i == 11,
{
    let row = m.row();
    let columns = message_forward_item_columns();
    assert(columns[0].decl.takes(row[0].1) && columns[1].decl.takes(row[1].1) && columns[2].decl.takes(row[2].1));
    assert(columns[3].decl.takes(row[3].1) && columns[4].decl.takes(row[4].1) && columns[5].decl.takes(row[5].1));
    assert(columns[6].decl.takes(row[6].1) && columns[7].decl.takes(row[7].1) && columns[8].decl.takes(row[8].1));
    assert(columns[9].decl.takes(row[9].1) && columns[10].decl.takes(row[10].1) && columns[11].decl.takes(row[11].1));
}

/// What the rows of an old `message` table hold in the columns that are added to it, by name; and
/// each of these columns takes it, as the table of today declares it.
pub proof fn law_old_message_rows_are_filled(i: int)
    requires
        0 <= i < message_later_columns().len(),
    ensures
        message_later_columns().len() == 5,
        crate::schema::filled(message_later_columns()).contains(("server_seq"@, Val::Integer(0))),
        crate::schema::filled(message_later_columns()).contains(("origin_source"@, Val::Integer(0))),
        crate::schema::filled(message_later_columns()).contains(("upload_status"@, Val::Integer(0))),
        crate::schema::filled(message_later_columns()).contains(("download_status"@, Val::Integer(0))),
        crate::schema::filled(message_later_columns()).contains(("sys_type"@, Val::Null)),
        exists|j: int|
            0 <= j < message_columns().len() && (#[trigger] message_columns()[j]).name@
                == message_later_columns()[i].name@ && message_columns()[j].decl.takes(
                message_later_columns()[i].decl.value_in_old_rows(),
            ),
{
    let later = message_later_columns();
    let columns = message_columns();
    let filled = crate::schema::filled(later);
    assert(filled[0] == ("server_seq"@, Val::Integer(0)));
    assert(columns[5].name@ == later[0].name@ && columns[5].decl.takes(later[0].decl.value_in_old_rows()));
    assert(filled[1] == ("origin_source"@, Val::Integer(0)));
    assert(columns[6].name@ == later[1].name@ && columns[6].decl.takes(later[1].decl.value_in_old_rows()));
    assert(filled[2] == ("upload_status"@, Val::Integer(0)));
    assert(columns[7].name@ == later[2].name@ && columns[7].decl.takes(later[2].decl.value_in_old_rows()));
    assert(filled[3] == ("download_status"@, Val::Integer(0)));
    assert(columns[8].name@ == later[3].name@ && columns[8].decl.takes(later[3].decl.value_in_old_rows()));
    assert(filled[4] == ("sys_type"@, Val::Null));
    assert(columns[23].name@ == later[4].name@ && columns[23].decl.takes(later[4].decl.value_in_old_rows()));
}

/// What the rows of an old `message_app` table hold in the columns that are added to it, by name; and
/// each of these columns takes it, as the table of today declares it.
pub proof fn law_old_message_app_rows_are_filled(i: int)
    requires
        0 <= i < message_app_later_columns().len(),
    ensures
        message_app_later_columns().len() == 20,
        crate::schema::filled(message_app_later_columns()).contains(("file_size"@, Val::Integer(0))),
        crate::schema::filled(message_app_later_columns()).contains(("file_ext"@, Val::Null)),
        crate::schema::filled(message_app_later_columns()).contains(("file_md5"@, Val::Null)),
        crate::schema::filled(message_app_later_columns()).contains(("transfer_fee"@, Val::Null)),
        crate::schema::filled(message_app_later_columns()).contains(("transfer_direction"@, Val::Integer(0))),
        crate::schema::filled(message_app_later_columns()).contains(("transfer_txid"@, Val::Null)),
        crate::schema::filled(message_app_later_columns()).contains(("refer_svrid"@, Val::Null)),
        crate::schema::filled(message_app_later_columns()).contains(("refer_type"@, Val::Integer(0))),
        crate::schema::filled(message_app_later_columns()).contains(("refer_content"@, Val::Null)),
        crate::schema::filled(message_app_later_columns()).contains(("forward_item_count"@, Val::Integer(0))),
        crate::schema::filled(message_app_later_columns()).contains(("red_envelope_wish"@, Val::Null)),
        crate::schema::filled(message_app_later_columns()).contains(("red_envelope_count"@, Val::Integer(0))),
        crate::schema::filled(message_app_later_columns()).contains(("group_pay_amount"@, Val::Null)),
        crate::schema::filled(message_app_later_columns()).contains(("group_pay_bill_no"@, Val::Null)),
        crate::schema::filled(message_app_later_columns()).contains(("music_desc"@, Val::Null)),
        crate::schema::filled(message_app_later_columns()).contains(("gift_wish"@, Val::Null)),
        crate::schema::filled(message_app_later_columns()).contains(("gift_sku"@, Val::Null)),
        crate::schema::filled(message_app_later_columns()).contains(("live_status"@, Val::Integer(0))),
        crate::schema::filled(message_app_later_columns()).contains(("live_desc"@, Val::Null)),
        crate::schema::filled(message_app_later_columns()).contains(("pay_scene_text"@, Val::Null)),
        exists|j: int|
            0 <= j < message_app_columns().len() && (#[trigger] message_app_columns()[j]).name@
                == message_app_later_columns()[i].name@ && message_app_columns()[j].decl.takes(
                message_app_later_columns()[i].decl.value_in_old_rows(),
            ),
{
    let later = message_app_later_columns();
    let columns = message_app_columns();
    let filled = crate::schema::filled(later);
    assert(filled[0] == ("file_size"@, Val::Integer(0)));
    assert(columns[12].name@ == later[0].name@ && columns[12].decl.takes(later[0].decl.value_in_old_rows()));
    assert(filled[1] == ("file_ext"@, Val::Null));
    assert(columns[13].name@ == later[1].name@ && columns[13].decl.takes(later[1].decl.value_in_old_rows()));
    assert(filled[2] == ("file_md5"@, Val::Null));
    assert(columns[14].name@ == later[2].name@ && columns[14].decl.takes(later[2].decl.value_in_old_rows()));
    assert(filled[3] == ("transfer_fee"@, Val::Null));
    assert(columns[15].name@ == later[3].name@ && columns[15].decl.takes(later[3].decl.value_in_old_rows()));
    assert(filled[4] == ("transfer_direction"@, Val::Integer(0)));
    assert(columns[16].name@ == later[4].name@ && columns[16].decl.takes(later[4].decl.value_in_old_rows()));
    assert(filled[5] == ("transfer_txid"@, Val::Null));
    assert(columns[17].name@ == later[5].name@ && columns[17].decl.takes(later[5].decl.value_in_old_rows()));
    assert(filled[6] == ("refer_svrid"@, Val::Null));
    assert(columns[18].name@ == later[6].name@ && columns[18].decl.takes(later[6].decl.value_in_old_rows()));
    assert(filled[7] == ("refer_type"@, Val::Integer(0)));
    assert(columns[19].name@ == later[7].name@ && columns[19].decl.takes(later[7].decl.value_in_old_rows()));
    assert(filled[8] == ("refer_content"@, Val::Null));
    assert(columns[20].name@ == later[8].name@ && columns[20].decl.takes(later[8].decl.value_in_old_rows()));
    assert(filled[9] == ("forward_item_count"@, Val::Integer(0)));
    assert(columns[21].name@ == later[9].name@ && columns[21].decl.takes(later[9].decl.value_in_old_rows()));
    assert(filled[10] == ("red_envelope_wish"@, Val::Null));
    assert(columns[22].name@ == later[10].name@ && columns[22].decl.takes(later[10].decl.value_in_old_rows()));
    assert(filled[11] == ("red_envelope_count"@, Val::Integer(0)));
    assert(columns[23].name@ == later[11].name@ && columns[23].decl.takes(later[11].decl.value_in_old_rows()));
    assert(filled[12] == ("group_pay_amount"@, Val::Null));
    assert(columns[24].name@ == later[12].name@ && columns[24].decl.takes(later[12].decl.value_in_old_rows()));
    assert(filled[13] == ("group_pay_bill_no"@, Val::Null));
    assert(columns[25].name@ == later[13].name@ && columns[25].decl.takes(later[13].decl.value_in_old_rows()));
    assert(filled[14] == ("music_desc"@, Val::Null));
    assert(columns[26].name@ == later[14].name@ && columns[26].decl.takes(later[14].decl.value_in_old_rows()));
    assert(filled[15] == ("gift_wish"@, Val::Null));
    assert(columns[27].name@ == later[15].name@ && columns[27].decl.takes(later[15].decl.value_in_old_rows()));
    assert(filled[16] == ("gift_sku"@, Val::Null));
    assert(columns[28].name@ == later[16].name@ && columns[28].decl.takes(later[16].decl.value_in_old_rows()));
    assert(filled[17] == ("live_status"@, Val::Integer(0)));
    assert(columns[29].name@ == later[17].name@ && columns[29].decl.takes(later[17].decl.value_in_old_rows()));
    assert(filled[18] == ("live_desc"@, Val::Null));
    assert(columns[30].name@ == later[18].name@ && columns[30].decl.takes(later[18].decl.value_in_old_rows()));
    assert(filled[19] == ("pay_scene_text"@, Val::Null));
    assert(columns[31].name@ == later[19].name@ && columns[31].decl.takes(later[19].decl.value_in_old_rows()));
}

/// What the rows of an old `message_location` table hold in the columns that are added to it, by name; and
/// each of these columns takes it, as the table of today declares it.
pub proof fn law_old_message_location_rows_are_filled(i: int)
    requires
        0 <= i < message_location_later_columns().len(),
    ensures
        message_location_later_columns().len() == 3,
        crate::schema::filled(message_location_later_columns()).contains(("maptype"@, Val::Integer(0))),
        crate::schema::filled(message_location_later_columns()).contains(("adcode"@, Val::Null)),
        crate::schema::filled(message_location_later_columns()).contains(("cityname"@, Val::Null)),
        exists|j: int|
            0 <= j < message_location_columns().len() && (#[trigger] message_location_columns()[j]).name@
                == message_location_later_columns()[i].name@ && message_location_columns()[j].decl.takes(
                message_location_later_columns()[i].decl.value_in_old_rows(),
            ),
{
    let later = message_location_later_columns();
    let columns = message_location_columns();
    let filled = crate::schema::filled(later);
    assert(filled[0] == ("maptype"@, Val::Integer(0)));
    assert(columns[10].name@ == later[0].name@ && columns[10].decl.takes(later[0].decl.value_in_old_rows()));
    assert(filled[1] == ("adcode"@, Val::Null));
    assert(columns[11].name@ == later[1].name@ && columns[11].decl.takes(later[1].decl.value_in_old_rows()));
    assert(filled[2] == ("cityname"@, Val::Null));
    assert(columns[12].name@ == later[2].name@ && columns[12].decl.takes(later[2].decl.value_in_old_rows()));
}

/// The table `message` is made first, and then an index for each of the ways in which its rows are
/// looked up.
pub proof fn law_message_lookups_have_indexes(steps: Vec<Step>)
    requires
        call_ensures(init_message_table, (), steps),
    ensures
        steps@[0] == Step::Create(Table::Message),
        Table::Message.name_text() == "message"@,
        crate::plan::has_index(
            steps@,
            "idx_message_conv_time"@,
            "message"@,
            "account_id_sha, conv_id_sha, create_time DESC"@,
        ),
        crate::plan::has_index(
            steps@,
            "idx_message_conv_time_full"@,
            "message"@,
            "account_id_sha, conv_id_sha, create_time DESC, source_native_id DESC, source DESC"@,
        ),
        crate::plan::has_index(
            steps@,
            "idx_message_server_id"@,
            "message"@,
            "account_id_sha, server_id"@,
        ),
        crate::plan::has_index(
            steps@,
            "idx_message_type"@,
            "message"@,
            "account_id_sha, msg_type"@,
        ),
{
    assert(steps@[1] is Index);
    assert(steps@[2] is Index);
    assert(steps@[3] is Index);
    assert(steps@[4] is Index);
}

/// The table `message_app` is made first, and then an index for each of the ways in which its rows are
/// looked up.
pub proof fn law_message_app_lookups_have_indexes(steps: Vec<Step>)
    requires
        call_ensures(init_message_app_table, (), steps),
    ensures
        steps@[0] == Step::Create(Table::MessageApp),
        Table::MessageApp.name_text() == "message_app"@,
        crate::plan::has_index(
            steps@,
            "idx_message_app_type"@,
            "message_app"@,
            "account_id_sha, app_type"@,
        ),
        crate::plan::has_index(
            steps@,
            "idx_message_app_username"@,
            "message_app"@,
            "account_id_sha, app_username"@,
        ),
{
    assert(steps@[1] is Index);
    assert(steps@[2] is Index);
}

/// The table `message_media` is made first, and then an index for each of the ways in which its rows are
/// looked up.
pub proof fn law_message_media_lookups_have_indexes(steps: Vec<Step>)
    requires
        call_ensures(init_message_media_table, (), steps),
    ensures
        steps@[0] == Step::Create(Table::MessageMedia),
        Table::MessageMedia.name_text() == "message_media"@,
        crate::plan::has_index(
            steps@,
            "idx_message_media_kind"@,
            "message_media"@,
            "account_id_sha, media_kind"@,
        ),
        crate::plan::has_index(
            steps@,
            "idx_message_media_md5"@,
            "message_media"@,
            "account_id_sha, md5"@,
        ),
{
    assert(steps@[1] is Index);
    assert(steps@[2] is Index);
}

/// The table `message_location` is made first, and then an index for each of the ways in which its rows are
/// looked up.
pub proof fn law_message_location_lookups_have_indexes(steps: Vec<Step>)
    requires
        call_ensures(init_message_location_table, (), steps),
    ensures
        steps@[0] == Step::Create(Table::MessageLocation),
        Table::MessageLocation.name_text() == "message_location"@,
        crate::plan::has_index(
            steps@,
            "idx_message_location_acct"@,
            "message_location"@,
            "account_id_sha"@,
        ),
{
    assert(steps@[1] is Index);
}

/// The table `message_call` is made first, and then an index for each of the ways in which its rows are
/// looked up.
pub proof fn law_message_call_lookups_have_indexes(steps: Vec<Step>)
    requires
        call_ensures(init_message_call_table, (), steps),
    ensures
        steps@[0] == Step::Create(Table::MessageCall),
        Table::MessageCall.name_text() == "message_call"@,
        crate::plan::has_index(
            steps@,
            "idx_message_call_acct"@,
            "message_call"@,
            "account_id_sha"@,
        ),
{
    assert(steps@[1] is Index);
}

/// The table `message_hongbao_claim` is made first, and then an index for each of the ways in which its rows are
/// looked up.
pub proof fn law_message_hongbao_claim_lookups_have_indexes(steps: Vec<Step>)
    requires
        call_ensures(init_message_hongbao_claim_table, (), steps),
    ensures
        steps@[0] == Step::Create(Table::MessageHongbaoClaim),
        Table::MessageHongbaoClaim.name_text() == "message_hongbao_claim"@,
        crate::plan::has_index(
            steps@,
            "idx_message_hongbao_claim_send"@,
            "message_hongbao_claim"@,
            "account_id_sha, send_id"@,
        ),
{
    assert(steps@[1] is Index);
}

/// The table `message_card` is made first, and then an index for each of the ways in which its rows are
/// looked up.
pub proof fn law_message_card_lookups_have_indexes(steps: Vec<Step>)
    requires
        call_ensures(init_message_card_table, (), steps),
    ensures
        steps@[0] == Step::Create(Table::MessageCard),
        Table::MessageCard.name_text() == "message_card"@,
        crate::plan::has_index(
            steps@,
            "idx_message_card_acct"@,
            "message_card"@,
            "account_id_sha"@,
        ),
{
    assert(steps@[1] is Index);
}

/// The table `message_mention` is made first, and then an index for each of the ways in which its rows are
/// looked up.
pub proof fn law_message_mention_lookups_have_indexes(steps: Vec<Step>)
    requires
        call_ensures(init_message_mention_table, (), steps),
    ensures
        steps@[0] == Step::Create(Table::MessageMention),
        Table::MessageMention.name_text() == "message_mention"@,
        crate::plan::has_index(
            steps@,
            "idx_message_mention_wxid"@,
            "message_mention"@,
            "account_id_sha, mentioned_wxid_sha"@,
        ),
{
    assert(steps@[1] is Index);
}

/// The table `message_forward_item` is made first, and then an index for each of the ways in which its rows are
/// looked up.
pub proof fn law_message_forward_item_lookups_have_indexes(steps: Vec<Step>)
    requires
        call_ensures(init_message_forward_item_table, (), steps),
    ensures
        steps@[0] == Step::Create(Table::MessageForwardItem),
        Table::MessageForwardItem.name_text() == "message_forward_item"@,
        crate::plan::has_index(
            steps@,
            "idx_message_forward_item_acct"@,
            "message_forward_item"@,
            "account_id_sha, source, source_native_id"@,
        ),
{
    assert(steps@[1] is Index);
}

} // verus!
