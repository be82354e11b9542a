//! Payments: transfers, red envelopes, and bills that a group pays.

use vstd::prelude::*;

use crate::index::Index;
use crate::plan::{delete_group, Step};
use crate::redact::{DebugRow, Shown};
use crate::schema::{Column, Decl};
use crate::sql::{Effect, Row, RowBuilder, Statement, Val};
use crate::tables::Table;

verus! {

/// A transfer of money.
#[derive(Clone, PartialEq, Eq)]
pub struct V3Transfer {
    pub account_id_sha: String,
    pub source: String,
    pub source_native_id: String,
    pub transfer_id: String,
    pub transcation_id: String,
    pub message_server_id: i64,
    pub second_message_server_id: i64,
    pub pay_sub_type: i64,
    pub session_name_sha: String,
    pub pay_payer_sha: String,
    pub pay_receiver_sha: String,
    pub begin_transfer_time: i64,
    pub last_modified_time: i64,
    pub invalid_time: i64,
    pub last_update_time: i64,
    pub delay_confirm_flag: i64,
    pub bubble_clicked_flag: i64,
    pub account_id: String,
    pub session_name: String,
    pub pay_payer: String,
    pub pay_receiver: String,
}

impl V3Transfer {
    /// The row that it is stored as.
    pub open spec fn row(self) -> Row {
        seq![
            ("account_id_sha"@, Val::Text(self.account_id_sha@)),
            ("source"@, Val::Text(self.source@)),
            ("source_native_id"@, Val::Text(self.source_native_id@)),
            ("transfer_id"@, Val::Text(self.transfer_id@)),
            ("transcation_id"@, Val::Text(self.transcation_id@)),
            ("message_server_id"@, Val::Integer(self.message_server_id as int)),
            ("second_message_server_id"@, Val::Integer(self.second_message_server_id as int)),
            ("pay_sub_type"@, Val::Integer(self.pay_sub_type as int)),
            ("session_name_sha"@, Val::Text(self.session_name_sha@)),
            ("pay_payer_sha"@, Val::Text(self.pay_payer_sha@)),
            ("pay_receiver_sha"@, Val::Text(self.pay_receiver_sha@)),
            ("begin_transfer_time"@, Val::Integer(self.begin_transfer_time as int)),
            ("last_modified_time"@, Val::Integer(self.last_modified_time as int)),
            ("invalid_time"@, Val::Integer(self.invalid_time as int)),
            ("last_update_time"@, Val::Integer(self.last_update_time as int)),
            ("delay_confirm_flag"@, Val::Integer(self.delay_confirm_flag as int)),
            ("bubble_clicked_flag"@, Val::Integer(self.bubble_clicked_flag as int)),
            ("account_id"@, Val::Text(self.account_id@)),
            ("session_name"@, Val::Text(self.session_name@)),
            ("pay_payer"@, Val::Text(self.pay_payer@)),
            ("pay_receiver"@, Val::Text(self.pay_receiver@)),
        ]
    }

    /// How its fields are shown in a log.
    pub open spec fn shown(self) -> Seq<(&'static str, Shown)> {
        seq![
            ("account_id_sha", Shown::Text(self.account_id_sha)),
            ("source", Shown::Text(self.source)),
            ("source_native_id", Shown::Text(self.source_native_id)),
            ("transfer_id", Shown::Text(self.transfer_id)),
            ("transcation_id", Shown::Text(self.transcation_id)),
            ("message_server_id", Shown::Integer(self.message_server_id)),
            ("second_message_server_id", Shown::Integer(self.second_message_server_id)),
            ("pay_sub_type", Shown::Integer(self.pay_sub_type)),
            ("session_name_sha", Shown::Text(self.session_name_sha)),
            ("pay_payer_sha", Shown::Text(self.pay_payer_sha)),
            ("pay_receiver_sha", Shown::Text(self.pay_receiver_sha)),
            ("begin_transfer_time", Shown::Integer(self.begin_transfer_time)),
            ("last_modified_time", Shown::Integer(self.last_modified_time)),
            ("invalid_time", Shown::Integer(self.invalid_time)),
            ("last_update_time", Shown::Integer(self.last_update_time)),
            ("delay_confirm_flag", Shown::Integer(self.delay_confirm_flag)),
            ("bubble_clicked_flag", Shown::Integer(self.bubble_clicked_flag)),
            ("account_id_sha8", Shown::Digest(self.account_id)),
        ]
    }

    /// What it shows of itself in a log.
    pub fn debug_row(&self) -> (row: DebugRow)
        ensures
            row.name@ == "V3Transfer"@,
            row.fields@ == self.shown(),
            row.complete == false,
    {
        let mut fields: Vec<(&'static str, Shown)> = Vec::new();
        fields.push(("account_id_sha", Shown::Text(self.account_id_sha.clone())));
        fields.push(("source", Shown::Text(self.source.clone())));
        fields.push(("source_native_id", Shown::Text(self.source_native_id.clone())));
        fields.push(("transfer_id", Shown::Text(self.transfer_id.clone())));
        fields.push(("transcation_id", Shown::Text(self.transcation_id.clone())));
        fields.push(("message_server_id", Shown::Integer(self.message_server_id)));
        fields.push(("second_message_server_id", Shown::Integer(self.second_message_server_id)));
        fields.push(("pay_sub_type", Shown::Integer(self.pay_sub_type)));
        fields.push(("session_name_sha", Shown::Text(self.session_name_sha.clone())));
        fields.push(("pay_payer_sha", Shown::Text(self.pay_payer_sha.clone())));
        fields.push(("pay_receiver_sha", Shown::Text(self.pay_receiver_sha.clone())));
        fields.push(("begin_transfer_time", Shown::Integer(self.begin_transfer_time)));
        fields.push(("last_modified_time", Shown::Integer(self.last_modified_time)));
        fields.push(("invalid_time", Shown::Integer(self.invalid_time)));
        fields.push(("last_update_time", Shown::Integer(self.last_update_time)));
        fields.push(("delay_confirm_flag", Shown::Integer(self.delay_confirm_flag)));
        fields.push(("bubble_clicked_flag", Shown::Integer(self.bubble_clicked_flag)));
        fields.push(("account_id_sha8", Shown::Digest(self.account_id.clone())));
        assert(fields@ =~= self.shown());
        DebugRow { name: "V3Transfer", fields, complete: false }
    }
}

/// The columns of the table `transfer`.
pub open spec fn transfer_columns() -> Seq<Column> {
    seq![
        Column { name: "account_id_sha", decl: Decl::TextNotNull },
        Column { name: "source", decl: Decl::TextNotNull },
        Column { name: "source_native_id", decl: Decl::TextNotNull },
        Column { name: "transfer_id", decl: Decl::TextNotNull },
        Column { name: "transcation_id", decl: Decl::TextNotNull },
        Column { name: "message_server_id", decl: Decl::IntegerNotNull },
        Column { name: "second_message_server_id", decl: Decl::IntegerNotNull },
        Column { name: "pay_sub_type", decl: Decl::IntegerNotNull },
        Column { name: "session_name_sha", decl: Decl::TextNotNull },
        Column { name: "pay_payer_sha", decl: Decl::TextNotNull },
        Column { name: "pay_receiver_sha", decl: Decl::TextNotNull },
        Column { name: "begin_transfer_time", decl: Decl::IntegerNotNull },
        Column { name: "last_modified_time", decl: Decl::IntegerNotNull },
        Column { name: "invalid_time", decl: Decl::IntegerNotNull },
        Column { name: "last_update_time", decl: Decl::IntegerNotNull },
        Column { name: "delay_confirm_flag", decl: Decl::IntegerNotNull },
        Column { name: "bubble_clicked_flag", decl: Decl::IntegerNotNull },
        Column { name: "account_id", decl: Decl::TextNotNull },
        Column { name: "session_name", decl: Decl::TextNotNull },
        Column { name: "pay_payer", decl: Decl::TextNotNull },
        Column { name: "pay_receiver", decl: Decl::TextNotNull },
    ]
}

/// The columns of the table `transfer`.
pub fn transfer_table() -> (columns: Vec<Column>)
    ensures
        columns@ == transfer_columns(),
{
    let mut columns: Vec<Column> = Vec::new();
    columns.push(Column { name: "account_id_sha", decl: Decl::TextNotNull });
    columns.push(Column { name: "source", decl: Decl::TextNotNull });
    columns.push(Column { name: "source_native_id", decl: Decl::TextNotNull });
    columns.push(Column { name: "transfer_id", decl: Decl::TextNotNull });
    columns.push(Column { name: "transcation_id", decl: Decl::TextNotNull });
    columns.push(Column { name: "message_server_id", decl: Decl::IntegerNotNull });
    columns.push(Column { name: "second_message_server_id", decl: Decl::IntegerNotNull });
    columns.push(Column { name: "pay_sub_type", decl: Decl::IntegerNotNull });
    columns.push(Column { name: "session_name_sha", decl: Decl::TextNotNull });
    columns.push(Column { name: "pay_payer_sha", decl: Decl::TextNotNull });
    columns.push(Column { name: "pay_receiver_sha", decl: Decl::TextNotNull });
    columns.push(Column { name: "begin_transfer_time", decl: Decl::IntegerNotNull });
    columns.push(Column { name: "last_modified_time", decl: Decl::IntegerNotNull });
    columns.push(Column { name: "invalid_time", decl: Decl::IntegerNotNull });
    columns.push(Column { name: "last_update_time", decl: Decl::IntegerNotNull });
    columns.push(Column { name: "delay_confirm_flag", decl: Decl::IntegerNotNull });
    columns.push(Column { name: "bubble_clicked_flag", decl: Decl::IntegerNotNull });
    columns.push(Column { name: "account_id", decl: Decl::TextNotNull });
    columns.push(Column { name: "session_name", decl: Decl::TextNotNull });
    columns.push(Column { name: "pay_payer", decl: Decl::TextNotNull });
    columns.push(Column { name: "pay_receiver", decl: Decl::TextNotNull });
    assert(columns@ =~= transfer_columns());
    columns
}

/// The columns by which the table `transfer` tells its rows apart.
pub open spec fn transfer_key() -> Seq<Seq<char>> {
    seq!["account_id_sha"@, "source"@, "source_native_id"@]
}

/// A row fills the table: it has a value for every column, and for no other.
pub proof fn law_transfer_row_fills_the_table(row: V3Transfer)
    ensures
        crate::sql::names(row.row()) == crate::schema::column_names(transfer_columns()),
{
    assert(crate::sql::names(row.row()) =~= crate::schema::column_names(transfer_columns()));
}

/// Two rows of the table `transfer` have the same key exactly where they agree in its fields.
pub proof fn law_transfer_key_tells_rows_apart(a: V3Transfer, b: V3Transfer)
    ensures
        crate::relation::same_key(a.row(), b.row(), transfer_key()) <==> {
            &&& a.account_id_sha@ == b.account_id_sha@
            &&& a.source@ == b.source@
            &&& a.source_native_id@ == b.source_native_id@
        },
{
    reveal_strlit("account_id_sha");
    reveal_strlit("source");
    reveal_strlit("source_native_id");
    let (x, y) = (a.row(), b.row());
    assert("account_id_sha"@.len() != "source"@.len());
    assert("account_id_sha"@.len() != "source_native_id"@.len());
    assert("source"@.len() != "source_native_id"@.len());
    let at: Seq<int> = seq![0int, 1, 2];
    crate::relation::lemma_same_key(x, y, transfer_key(), at);
    assert(at[0] == 0);
    assert(at[1] == 1);
    assert(at[2] == 2);
}

/// The steps that make the table `transfer`.
pub open spec fn transfer_steps() -> Seq<Step> {
    seq![
        Step::Create(Table::Transfer),
        Step::Index(
            Index {
                name: "idx_transfer_payer",
                table: "transfer",
                columns: "account_id_sha, pay_payer_sha",
            },
        ),
        Step::Index(
            Index {
                name: "idx_transfer_receiver",
                table: "transfer",
                columns: "account_id_sha, pay_receiver_sha",
            },
        ),
        Step::Index(
            Index {
                name: "idx_transfer_begin_time",
                table: "transfer",
                columns: "account_id_sha, begin_transfer_time DESC",
            },
        ),
    ]
}

/// The steps that make the table `transfer`.
pub fn init_transfer_table() -> (steps: Vec<Step>)
    ensures
        steps@ == transfer_steps(),
{
    let mut steps: Vec<Step> = Vec::new();
    steps.push(Step::Create(Table::Transfer));
    steps.push(Step::Index(
        Index {
            name: "idx_transfer_payer",
            table: "transfer",
            columns: "account_id_sha, pay_payer_sha",
        },
    ));
    steps.push(Step::Index(
        Index {
            name: "idx_transfer_receiver",
            table: "transfer",
            columns: "account_id_sha, pay_receiver_sha",
        },
    ));
    steps.push(Step::Index(
        Index {
            name: "idx_transfer_begin_time",
            table: "transfer",
            columns: "account_id_sha, begin_transfer_time DESC",
        },
    ));
    assert(steps@ =~= transfer_steps());
    steps
}

/// The statement that stores a row of the table `transfer`, in place of the row with the same
/// key.
pub fn insert_transfer(t: &V3Transfer) -> (statement: Statement)
    ensures
        statement.does(Effect::Replace { table: "transfer"@, row: t.row() }),
{
    let mut row = RowBuilder::new();
    row.text("account_id_sha", t.account_id_sha.as_str());
    row.text("source", t.source.as_str());
    row.text("source_native_id", t.source_native_id.as_str());
    row.text("transfer_id", t.transfer_id.as_str());
    row.text("transcation_id", t.transcation_id.as_str());
    row.integer("message_server_id", t.message_server_id);
    row.integer("second_message_server_id", t.second_message_server_id);
    row.integer("pay_sub_type", t.pay_sub_type);
    row.text("session_name_sha", t.session_name_sha.as_str());
    row.text("pay_payer_sha", t.pay_payer_sha.as_str());
    row.text("pay_receiver_sha", t.pay_receiver_sha.as_str());
    row.integer("begin_transfer_time", t.begin_transfer_time);
    row.integer("last_modified_time", t.last_modified_time);
    row.integer("invalid_time", t.invalid_time);
    row.integer("last_update_time", t.last_update_time);
    row.integer("delay_confirm_flag", t.delay_confirm_flag);
    row.integer("bubble_clicked_flag", t.bubble_clicked_flag);
    row.text("account_id", t.account_id.as_str());
    row.text("session_name", t.session_name.as_str());
    row.text("pay_payer", t.pay_payer.as_str());
    row.text("pay_receiver", t.pay_receiver.as_str());
    assert(row@ =~= t.row());
    row.replace_into("transfer")
}

/// A red envelope.
#[derive(Clone, PartialEq, Eq)]
pub struct V3RedEnvelope {
    pub account_id_sha: String,
    pub source: String,
    pub source_native_id: String,
    pub send_id: String,
    pub message_server_id: i64,
    pub sender_user_name_sha: String,
    pub session_name_sha: String,
    pub scene_id: i64,
    pub hb_status: i64,
    pub hb_type: i64,
    pub receive_status: i64,
    pub native_url: String,
    pub account_id: String,
    pub sender_user_name: String,
    pub session_name: String,
}

impl V3RedEnvelope {
    /// The row that it is stored as.
    pub open spec fn row(self) -> Row {
        seq![
            ("account_id_sha"@, Val::Text(self.account_id_sha@)),
            ("source"@, Val::Text(self.source@)),
            ("source_native_id"@, Val::Text(self.source_native_id@)),
            ("send_id"@, Val::Text(self.send_id@)),
            ("message_server_id"@, Val::Integer(self.message_server_id as int)),
            ("sender_user_name_sha"@, Val::Text(self.sender_user_name_sha@)),
            ("session_name_sha"@, Val::Text(self.session_name_sha@)),
            ("scene_id"@, Val::Integer(self.scene_id as int)),
            ("hb_status"@, Val::Integer(self.hb_status as int)),
            ("hb_type"@, Val::Integer(self.hb_type as int)),
            ("receive_status"@, Val::Integer(self.receive_status as int)),
            ("native_url"@, Val::Text(self.native_url@)),
            ("account_id"@, Val::Text(self.account_id@)),
            ("sender_user_name"@, Val::Text(self.sender_user_name@)),
            ("session_name"@, Val::Text(self.session_name@)),
        ]
    }

    /// How its fields are shown in a log.
    pub open spec fn shown(self) -> Seq<(&'static str, Shown)> {
        seq![
            ("account_id_sha", Shown::Text(self.account_id_sha)),
            ("source", Shown::Text(self.source)),
            ("source_native_id", Shown::Text(self.source_native_id)),
            ("send_id", Shown::Text(self.send_id)),
            ("message_server_id", Shown::Integer(self.message_server_id)),
            ("sender_user_name_sha", Shown::Text(self.sender_user_name_sha)),
            ("session_name_sha", Shown::Text(self.session_name_sha)),
            ("scene_id", Shown::Integer(self.scene_id)),
            ("hb_status", Shown::Integer(self.hb_status)),
            ("hb_type", Shown::Integer(self.hb_type)),
            ("receive_status", Shown::Integer(self.receive_status)),
            ("native_url_len", Shown::Count(vstd::utf8::encode_utf8(self.native_url@).len() as usize)),
            ("account_id_sha8", Shown::Digest(self.account_id)),
        ]
    }

    /// What it shows of itself in a log.
    pub fn debug_row(&self) -> (row: DebugRow)
        ensures
            row.name@ == "V3RedEnvelope"@,
            row.fields@ == self.shown(),
            row.complete == false,
    {
        let mut fields: Vec<(&'static str, Shown)> = Vec::new();
        fields.push(("account_id_sha", Shown::Text(self.account_id_sha.clone())));
        fields.push(("source", Shown::Text(self.source.clone())));
        fields.push(("source_native_id", Shown::Text(self.source_native_id.clone())));
        fields.push(("send_id", Shown::Text(self.send_id.clone())));
        fields.push(("message_server_id", Shown::Integer(self.message_server_id)));
        fields.push(("sender_user_name_sha", Shown::Text(self.sender_user_name_sha.clone())));
        fields.push(("session_name_sha", Shown::Text(self.session_name_sha.clone())));
        fields.push(("scene_id", Shown::Integer(self.scene_id)));
        fields.push(("hb_status", Shown::Integer(self.hb_status)));
        fields.push(("hb_type", Shown::Integer(self.hb_type)));
        fields.push(("receive_status", Shown::Integer(self.receive_status)));
        fields.push(("native_url_len", Shown::Count(self.native_url.as_str().len())));
        fields.push(("account_id_sha8", Shown::Digest(self.account_id.clone())));
        assert(fields@ =~= self.shown());
        DebugRow { name: "V3RedEnvelope", fields, complete: false }
    }
}

/// The columns of the table `red_envelope`.
pub open spec fn red_envelope_columns() -> Seq<Column> {
    seq![
        Column { name: "account_id_sha", decl: Decl::TextNotNull },
        Column { name: "source", decl: Decl::TextNotNull },
        Column { name: "source_native_id", decl: Decl::TextNotNull },
        Column { name: "send_id", decl: Decl::TextNotNull },
        Column { name: "message_server_id", decl: Decl::IntegerNotNull },
        Column { name: "sender_user_name_sha", decl: Decl::TextNotNull },
        Column { name: "session_name_sha", decl: Decl::TextNotNull },
        Column { name: "scene_id", decl: Decl::IntegerNotNull },
        Column { name: "hb_status", decl: Decl::IntegerNotNull },
        Column { name: "hb_type", decl: Decl::IntegerNotNull },
        Column { name: "receive_status", decl: Decl::IntegerNotNull },
        Column { name: "native_url", decl: Decl::TextNotNull },
        Column { name: "account_id", decl: Decl::TextNotNull },
        Column { name: "sender_user_name", decl: Decl::TextNotNull },
        Column { name: "session_name", decl: Decl::TextNotNull },
    ]
}

/// The columns of the table `red_envelope`.
pub fn red_envelope_table() -> (columns: Vec<Column>)
    ensures
        columns@ == red_envelope_columns(),
{
    let mut columns: Vec<Column> = Vec::new();
    columns.push(Column { name: "account_id_sha", decl: Decl::TextNotNull });
    columns.push(Column { name: "source", decl: Decl::TextNotNull });
    columns.push(Column { name: "source_native_id", decl: Decl::TextNotNull });
    columns.push(Column { name: "send_id", decl: Decl::TextNotNull });
    columns.push(Column { name: "message_server_id", decl: Decl::IntegerNotNull });
    columns.push(Column { name: "sender_user_name_sha", decl: Decl::TextNotNull });
    columns.push(Column { name: "session_name_sha", decl: Decl::TextNotNull });
    columns.push(Column { name: "scene_id", decl: Decl::IntegerNotNull });
    columns.push(Column { name: "hb_status", decl: Decl::IntegerNotNull });
    columns.push(Column { name: "hb_type", decl: Decl::IntegerNotNull });
    columns.push(Column { name: "receive_status", decl: Decl::IntegerNotNull });
    columns.push(Column { name: "native_url", decl: Decl::TextNotNull });
    columns.push(Column { name: "account_id", decl: Decl::TextNotNull });
    columns.push(Column { name: "sender_user_name", decl: Decl::TextNotNull });
    columns.push(Column { name: "session_name", decl: Decl::TextNotNull });
    assert(columns@ =~= red_envelope_columns());
    columns
}

/// The columns by which the table `red_envelope` tells its rows apart.
pub open spec fn red_envelope_key() -> Seq<Seq<char>> {
    seq!["account_id_sha"@, "source"@, "source_native_id"@]
}

/// A row fills the table: it has a value for every column, and for no other.
pub proof fn law_red_envelope_row_fills_the_table(row: V3RedEnvelope)
    ensures
        crate::sql::names(row.row()) == crate::schema::column_names(red_envelope_columns()),
{
    assert(crate::sql::names(row.row()) =~= crate::schema::column_names(red_envelope_columns()));
}

/// Two rows of the table `red_envelope` have the same key exactly where they agree in its fields.
pub proof fn law_red_envelope_key_tells_rows_apart(a: V3RedEnvelope, b: V3RedEnvelope)
    ensures
        crate::relation::same_key(a.row(), b.row(), red_envelope_key()) <==> {
            &&& a.account_id_sha@ == b.account_id_sha@
            &&& a.source@ == b.source@
            &&& a.source_native_id@ == b.source_native_id@
        },
{
    reveal_strlit("account_id_sha");
    reveal_strlit("source");
    reveal_strlit("source_native_id");
    let (x, y) = (a.row(), b.row());
    assert("account_id_sha"@.len() != "source"@.len());
    assert("account_id_sha"@.len() != "source_native_id"@.len());
    assert("source"@.len() != "source_native_id"@.len());
    let at: Seq<int> = seq![0int, 1, 2];
    crate::relation::lemma_same_key(x, y, red_envelope_key(), at);
    assert(at[0] == 0);
    assert(at[1] == 1);
    assert(at[2] == 2);
}

/// The steps that make the table `red_envelope`.
pub open spec fn red_envelope_steps() -> Seq<Step> {
    seq![
        Step::Create(Table::RedEnvelope),
        Step::Index(
            Index {
                name: "idx_red_envelope_sender",
                table: "red_envelope",
                columns: "account_id_sha, sender_user_name_sha",
            },
        ),
        Step::Index(
            Index {
                name: "idx_red_envelope_session",
                table: "red_envelope",
                columns: "account_id_sha, session_name_sha",
            },
        ),
        Step::Index(
            Index {
                name: "idx_red_envelope_type",
                table: "red_envelope",
                columns: "account_id_sha, hb_type",
            },
        ),
    ]
}

/// The steps that make the table `red_envelope`.
pub fn init_red_envelope_table() -> (steps: Vec<Step>)
    ensures
        steps@ == red_envelope_steps(),
{
    let mut steps: Vec<Step> = Vec::new();
    steps.push(Step::Create(Table::RedEnvelope));
    steps.push(Step::Index(
        Index {
            name: "idx_red_envelope_sender",
            table: "red_envelope",
            columns: "account_id_sha, sender_user_name_sha",
        },
    ));
    steps.push(Step::Index(
        Index {
            name: "idx_red_envelope_session",
            table: "red_envelope",
            columns: "account_id_sha, session_name_sha",
        },
    ));
    steps.push(Step::Index(
        Index {
            name: "idx_red_envelope_type",
            table: "red_envelope",
            columns: "account_id_sha, hb_type",
        },
    ));
    assert(steps@ =~= red_envelope_steps());
    steps
}

/// The statement that stores a row of the table `red_envelope`, in place of the row with the same
/// key.
pub fn insert_red_envelope(r: &V3RedEnvelope) -> (statement: Statement)
    ensures
        statement.does(Effect::Replace { table: "red_envelope"@, row: r.row() }),
{
    let mut row = RowBuilder::new();
    row.text("account_id_sha", r.account_id_sha.as_str());
    row.text("source", r.source.as_str());
    row.text("source_native_id", r.source_native_id.as_str());
    row.text("send_id", r.send_id.as_str());
    row.integer("message_server_id", r.message_server_id);
    row.text("sender_user_name_sha", r.sender_user_name_sha.as_str());
    row.text("session_name_sha", r.session_name_sha.as_str());
    row.integer("scene_id", r.scene_id);
    row.integer("hb_status", r.hb_status);
    row.integer("hb_type", r.hb_type);
    row.integer("receive_status", r.receive_status);
    row.text("native_url", r.native_url.as_str());
    row.text("account_id", r.account_id.as_str());
    row.text("sender_user_name", r.sender_user_name.as_str());
    row.text("session_name", r.session_name.as_str());
    assert(row@ =~= r.row());
    row.replace_into("red_envelope")
}

/// A bill that a group pays.
#[derive(Clone, PartialEq, Eq)]
pub struct V3GroupPay {
    pub account_id_sha: String,
    pub source: String,
    pub source_native_id: String,
    pub bill_no: String,
    pub message_local_id: i64,
    pub message_create_time: i64,
    pub session_name_sha: String,
    pub account_id: String,
    pub session_name: String,
}

impl V3GroupPay {
    /// The row that it is stored as.
    pub open spec fn row(self) -> Row {
        seq![
            ("account_id_sha"@, Val::Text(self.account_id_sha@)),
            ("source"@, Val::Text(self.source@)),
            ("source_native_id"@, Val::Text(self.source_native_id@)),
            ("bill_no"@, Val::Text(self.bill_no@)),
            ("message_local_id"@, Val::Integer(self.message_local_id as int)),
            ("message_create_time"@, Val::Integer(self.message_create_time as int)),
            ("session_name_sha"@, Val::Text(self.session_name_sha@)),
            ("account_id"@, Val::Text(self.account_id@)),
            ("session_name"@, Val::Text(self.session_name@)),
        ]
    }

    /// How its fields are shown in a log.
    pub open spec fn shown(self) -> Seq<(&'static str, Shown)> {
        seq![
            ("account_id_sha", Shown::Text(self.account_id_sha)),
            ("source", Shown::Text(self.source)),
            ("source_native_id", Shown::Text(self.source_native_id)),
            ("bill_no", Shown::Text(self.bill_no)),
            ("message_local_id", Shown::Integer(self.message_local_id)),
            ("message_create_time", Shown::Integer(self.message_create_time)),
            ("session_name_sha", Shown::Text(self.session_name_sha)),
            ("account_id_sha8", Shown::Digest(self.account_id)),
        ]
    }

    /// What it shows of itself in a log.
    pub fn debug_row(&self) -> (row: DebugRow)
        ensures
            row.name@ == "V3GroupPay"@,
            row.fields@ == self.shown(),
            row.complete == false,
    {
        let mut fields: Vec<(&'static str, Shown)> = Vec::new();
        fields.push(("account_id_sha", Shown::Text(self.account_id_sha.clone())));
        fields.push(("source", Shown::Text(self.source.clone())));
        fields.push(("source_native_id", Shown::Text(self.source_native_id.clone())));
        fields.push(("bill_no", Shown::Text(self.bill_no.clone())));
        fields.push(("message_local_id", Shown::Integer(self.message_local_id)));
        fields.push(("message_create_time", Shown::Integer(self.message_create_time)));
        fields.push(("session_name_sha", Shown::Text(self.session_name_sha.clone())));
        fields.push(("account_id_sha8", Shown::Digest(self.account_id.clone())));
        assert(fields@ =~= self.shown());
        DebugRow { name: "V3GroupPay", fields, complete: false }
    }
}

/// The columns of the table `group_pay`.
pub open spec fn group_pay_columns() -> Seq<Column> {
    seq![
        Column { name: "account_id_sha", decl: Decl::TextNotNull },
        Column { name: "source", decl: Decl::TextNotNull },
        Column { name: "source_native_id", decl: Decl::TextNotNull },
        Column { name: "bill_no", decl: Decl::TextNotNull },
        Column { name: "message_local_id", decl: Decl::IntegerNotNull },
        Column { name: "message_create_time", decl: Decl::IntegerNotNull },
        Column { name: "session_name_sha", decl: Decl::TextNotNull },
        Column { name: "account_id", decl: Decl::TextNotNull },
        Column { name: "session_name", decl: Decl::TextNotNull },
    ]
}

/// The columns of the table `group_pay`.
pub fn group_pay_table() -> (columns: Vec<Column>)
    ensures
        columns@ == group_pay_columns(),
{
    let mut columns: Vec<Column> = Vec::new();
    columns.push(Column { name: "account_id_sha", decl: Decl::TextNotNull });
    columns.push(Column { name: "source", decl: Decl::TextNotNull });
    columns.push(Column { name: "source_native_id", decl: Decl::TextNotNull });
    columns.push(Column { name: "bill_no", decl: Decl::TextNotNull });
    columns.push(Column { name: "message_local_id", decl: Decl::IntegerNotNull });
    columns.push(Column { name: "message_create_time", decl: Decl::IntegerNotNull });
    columns.push(Column { name: "session_name_sha", decl: Decl::TextNotNull });
    columns.push(Column { name: "account_id", decl: Decl::TextNotNull });
    columns.push(Column { name: "session_name", decl: Decl::TextNotNull });
    assert(columns@ =~= group_pay_columns());
    columns
}

/// The columns by which the table `group_pay` tells its rows apart.
pub open spec fn group_pay_key() -> Seq<Seq<char>> {
    seq!["account_id_sha"@, "source"@, "source_native_id"@]
}

/// A row fills the table: it has a value for every column, and for no other.
pub proof fn law_group_pay_row_fills_the_table(row: V3GroupPay)
    ensures
        crate::sql::names(row.row()) == crate::schema::column_names(group_pay_columns()),
{
    assert(crate::sql::names(row.row()) =~= crate::schema::column_names(group_pay_columns()));
}

/// Two rows of the table `group_pay` have the same key exactly where they agree in its fields.
pub proof fn law_group_pay_key_tells_rows_apart(a: V3GroupPay, b: V3GroupPay)
    ensures
        crate::relation::same_key(a.row(), b.row(), group_pay_key()) <==> {
            &&& a.account_id_sha@ == b.account_id_sha@
            &&& a.source@ == b.source@
            &&& a.source_native_id@ == b.source_native_id@
        },
{
    reveal_strlit("account_id_sha");
    reveal_strlit("source");
    reveal_strlit("source_native_id");
    let (x, y) = (a.row(), b.row());
    assert("account_id_sha"@.len() != "source"@.len());
    assert("account_id_sha"@.len() != "source_native_id"@.len());
    assert("source"@.len() != "source_native_id"@.len());
    let at: Seq<int> = seq![0int, 1, 2];
    crate::relation::lemma_same_key(x, y, group_pay_key(), at);
    assert(at[0] == 0);
    assert(at[1] == 1);
    assert(at[2] == 2);
}

/// The steps that make the table `group_pay`.
pub open spec fn group_pay_steps() -> Seq<Step> {
    seq![
        Step::Create(Table::GroupPay),
        Step::Index(
            Index {
                name: "idx_group_pay_session",
                table: "group_pay",
                columns: "account_id_sha, session_name_sha",
            },
        ),
        Step::Index(
            Index {
                name: "idx_group_pay_time",
                table: "group_pay",
                columns: "account_id_sha, message_create_time DESC",
            },
        ),
    ]
}

/// The steps that make the table `group_pay`.
pub fn init_group_pay_table() -> (steps: Vec<Step>)
    ensures
        steps@ == group_pay_steps(),
{
    let mut steps: Vec<Step> = Vec::new();
    steps.push(Step::Create(Table::GroupPay));
    steps.push(Step::Index(
        Index {
            name: "idx_group_pay_session",
            table: "group_pay",
            columns: "account_id_sha, session_name_sha",
        },
    ));
    steps.push(Step::Index(
        Index {
            name: "idx_group_pay_time",
            table: "group_pay",
            columns: "account_id_sha, message_create_time DESC",
        },
    ));
    assert(steps@ =~= group_pay_steps());
    steps
}

/// The statement that stores a row of the table `group_pay`, in place of the row with the same
/// key.
pub fn insert_group_pay(g: &V3GroupPay) -> (statement: Statement)
    ensures
        statement.does(Effect::Replace { table: "group_pay"@, row: g.row() }),
{
    let mut row = RowBuilder::new();
    row.text("account_id_sha", g.account_id_sha.as_str());
    row.text("source", g.source.as_str());
    row.text("source_native_id", g.source_native_id.as_str());
    row.text("bill_no", g.bill_no.as_str());
    row.integer("message_local_id", g.message_local_id);
    row.integer("message_create_time", g.message_create_time);
    row.text("session_name_sha", g.session_name_sha.as_str());
    row.text("account_id", g.account_id.as_str());
    row.text("session_name", g.session_name.as_str());
    assert(row@ =~= g.row());
    row.replace_into("group_pay")
}

/// A payer of a bill that a group pays. A bill has one row for each of them.
#[derive(Clone, PartialEq, Eq)]
pub struct V3GroupPayMember {
    pub account_id_sha: String,
    pub source: String,
    pub source_native_id: String,
    pub payer_wxid_sha: String,
    pub bill_no: String,
    pub amount: i64,
    pub pay_status: i64,
    pub account_id: String,
    pub payer_wxid: String,
}

impl V3GroupPayMember {
    /// The row that it is stored as.
    pub open spec fn row(self) -> Row {
        seq![
            ("account_id_sha"@, Val::Text(self.account_id_sha@)),
            ("source"@, Val::Text(self.source@)),
            ("source_native_id"@, Val::Text(self.source_native_id@)),
            ("payer_wxid_sha"@, Val::Text(self.payer_wxid_sha@)),
            ("bill_no"@, Val::Text(self.bill_no@)),
            ("amount"@, Val::Integer(self.amount as int)),
            ("pay_status"@, Val::Integer(self.pay_status as int)),
            ("account_id"@, Val::Text(self.account_id@)),
            ("payer_wxid"@, Val::Text(self.payer_wxid@)),
        ]
    }

    /// How its fields are shown in a log.
    pub open spec fn shown(self) -> Seq<(&'static str, Shown)> {
        seq![
            ("account_id_sha", Shown::Text(self.account_id_sha)),
            ("source", Shown::Text(self.source)),
            ("source_native_id", Shown::Text(self.source_native_id)),
            ("payer_wxid_sha", Shown::Text(self.payer_wxid_sha)),
            ("bill_no_sha8", Shown::Digest(self.bill_no)),
            ("amount", Shown::Integer(self.amount)),
            ("pay_status", Shown::Integer(self.pay_status)),
            ("account_id_sha8", Shown::Digest(self.account_id)),
            ("payer_wxid_sha8", Shown::Digest(self.payer_wxid)),
        ]
    }

    /// What it shows of itself in a log.
    pub fn debug_row(&self) -> (row: DebugRow)
        ensures
            row.name@ == "V3GroupPayMember"@,
            row.fields@ == self.shown(),
            row.complete == false,
    {
        let mut fields: Vec<(&'static str, Shown)> = Vec::new();
        fields.push(("account_id_sha", Shown::Text(self.account_id_sha.clone())));
        fields.push(("source", Shown::Text(self.source.clone())));
        fields.push(("source_native_id", Shown::Text(self.source_native_id.clone())));
        fields.push(("payer_wxid_sha", Shown::Text(self.payer_wxid_sha.clone())));
        fields.push(("bill_no_sha8", Shown::Digest(self.bill_no.clone())));
        fields.push(("amount", Shown::Integer(self.amount)));
        fields.push(("pay_status", Shown::Integer(self.pay_status)));
        fields.push(("account_id_sha8", Shown::Digest(self.account_id.clone())));
        fields.push(("payer_wxid_sha8", Shown::Digest(self.payer_wxid.clone())));
        assert(fields@ =~= self.shown());
        DebugRow { name: "V3GroupPayMember", fields, complete: false }
    }
}

/// The columns of the table `group_pay_member`.
pub open spec fn group_pay_member_columns() -> Seq<Column> {
    seq![
        Column { name: "account_id_sha", decl: Decl::TextNotNull },
        Column { name: "source", decl: Decl::TextNotNull },
        Column { name: "source_native_id", decl: Decl::TextNotNull },
        Column { name: "payer_wxid_sha", decl: Decl::TextNotNull },
        Column { name: "bill_no", decl: Decl::TextNotNull },
        Column { name: "amount", decl: Decl::IntegerNotNull },
        Column { name: "pay_status", decl: Decl::IntegerNotNull },
        Column { name: "account_id", decl: Decl::TextNotNull },
        Column { name: "payer_wxid", decl: Decl::TextNotNull },
    ]
}

/// The columns of the table `group_pay_member`.
pub fn group_pay_member_table() -> (columns: Vec<Column>)
    ensures
        columns@ == group_pay_member_columns(),
{
    let mut columns: Vec<Column> = Vec::new();
    columns.push(Column { name: "account_id_sha", decl: Decl::TextNotNull });
    columns.push(Column { name: "source", decl: Decl::TextNotNull });
    columns.push(Column { name: "source_native_id", decl: Decl::TextNotNull });
    columns.push(Column { name: "payer_wxid_sha", decl: Decl::TextNotNull });
    columns.push(Column { name: "bill_no", decl: Decl::TextNotNull });
    columns.push(Column { name: "amount", decl: Decl::IntegerNotNull });
    columns.push(Column { name: "pay_status", decl: Decl::IntegerNotNull });
    columns.push(Column { name: "account_id", decl: Decl::TextNotNull });
    columns.push(Column { name: "payer_wxid", decl: Decl::TextNotNull });
    assert(columns@ =~= group_pay_member_columns());
    columns
}

/// The columns by which the table `group_pay_member` tells its rows apart.
pub open spec fn group_pay_member_key() -> Seq<Seq<char>> {
    seq!["account_id_sha"@, "source"@, "source_native_id"@, "payer_wxid_sha"@]
}

/// A row fills the table: it has a value for every column, and for no other.
pub proof fn law_group_pay_member_row_fills_the_table(row: V3GroupPayMember)
    ensures
        crate::sql::names(row.row()) == crate::schema::column_names(group_pay_member_columns()),
{
    assert(crate::sql::names(row.row()) =~= crate::schema::column_names(group_pay_member_columns()));
}

/// Two rows of the table `group_pay_member` have the same key exactly where they agree in its fields.
pub proof fn law_group_pay_member_key_tells_rows_apart(a: V3GroupPayMember, b: V3GroupPayMember)
    ensures
        crate::relation::same_key(a.row(), b.row(), group_pay_member_key()) <==> {
            &&& a.account_id_sha@ == b.account_id_sha@
            &&& a.source@ == b.source@
            &&& a.source_native_id@ == b.source_native_id@
            &&& a.payer_wxid_sha@ == b.payer_wxid_sha@
        },
{
    reveal_strlit("account_id_sha");
    reveal_strlit("source");
    reveal_strlit("source_native_id");
    reveal_strlit("payer_wxid_sha");
    let (x, y) = (a.row(), b.row());
    assert("account_id_sha"@.len() != "source"@.len());
    assert("account_id_sha"@.len() != "source_native_id"@.len());
    assert("source"@.len() != "source_native_id"@.len());
    assert("account_id_sha"@[0] != "payer_wxid_sha"@[0]);
    assert("source"@.len() != "payer_wxid_sha"@.len());
    assert("source_native_id"@.len() != "payer_wxid_sha"@.len());
    let at: Seq<int> = seq![0int, 1, 2, 3];
    crate::relation::lemma_same_key(x, y, group_pay_member_key(), at);
    assert(at[0] == 0);
    assert(at[1] == 1);
    assert(at[2] == 2);
    assert(at[3] == 3);
}

/// The steps that make the table `group_pay_member`.
pub open spec fn group_pay_member_steps() -> Seq<Step> {
    seq![
        Step::Create(Table::GroupPayMember),
        Step::Index(
            Index {
                name: "idx_group_pay_member_bill",
                table: "group_pay_member",
                columns: "account_id_sha, bill_no",
            },
        ),
    ]
}

/// The steps that make the table `group_pay_member`.
pub fn init_group_pay_member_table() -> (steps: Vec<Step>)
    ensures
        steps@ == group_pay_member_steps(),
{
    let mut steps: Vec<Step> = Vec::new();
    steps.push(Step::Create(Table::GroupPayMember));
    steps.push(Step::Index(
        Index {
            name: "idx_group_pay_member_bill",
            table: "group_pay_member",
            columns: "account_id_sha, bill_no",
        },
    ));
    assert(steps@ =~= group_pay_member_steps());
    steps
}

/// The statement that stores a row of the table `group_pay_member`, in place of the row with the same
/// key.
pub fn insert_group_pay_member(m: &V3GroupPayMember) -> (statement: Statement)
    ensures
        statement.does(Effect::Replace { table: "group_pay_member"@, row: m.row() }),
{
    let mut row = RowBuilder::new();
    row.text("account_id_sha", m.account_id_sha.as_str());
    row.text("source", m.source.as_str());
    row.text("source_native_id", m.source_native_id.as_str());
    row.text("payer_wxid_sha", m.payer_wxid_sha.as_str());
    row.text("bill_no", m.bill_no.as_str());
    row.integer("amount", m.amount);
    row.integer("pay_status", m.pay_status);
    row.text("account_id", m.account_id.as_str());
    row.text("payer_wxid", m.payer_wxid.as_str());
    assert(row@ =~= m.row());
    row.replace_into("group_pay_member")
}

/// The statement that takes out all rows of the table `group_pay_member` that belong to one
/// message.
pub fn delete_group_pay_members(account_id_sha: &str, source: &str, source_native_id: &str) -> (statement: Statement)
    ensures
        statement.does(
            Effect::Delete {
                table: "group_pay_member"@,
                tests: crate::plan::belonging_to(
                    account_id_sha@,
                    source@,
                    "source_native_id"@,
                    source_native_id@,
                ),
            },
        ),
{
    delete_group("group_pay_member", account_id_sha, source, "source_native_id", source_native_id)
}

/// Every field is stored under its own name: the row that `insert_transfer` puts in holds in each
/// column the field of that column.
pub proof fn law_transfer_fields_keep_their_names(m: &V3Transfer, statement: Statement)
    requires
        call_ensures(insert_transfer, (m,), statement),
    ensures
        statement.does(Effect::Replace { table: "transfer"@, row: m.row() }),
        m.row().len() == 21,
        crate::relation::column(m.row(), "account_id_sha"@) == Val::Text(m.account_id_sha@),
        crate::relation::column(m.row(), "source"@) == Val::Text(m.source@),
        crate::relation::column(m.row(), "source_native_id"@) == Val::Text(m.source_native_id@),
        crate::relation::column(m.row(), "transfer_id"@) == Val::Text(m.transfer_id@),
        crate::relation::column(m.row(), "transcation_id"@) == Val::Text(m.transcation_id@),
        crate::relation::column(m.row(), "message_server_id"@) == Val::Integer(m.message_server_id as int),
        crate::relation::column(m.row(), "second_message_server_id"@) == Val::Integer(m.second_message_server_id as int),
        crate::relation::column(m.row(), "pay_sub_type"@) == Val::Integer(m.pay_sub_type as int),
        crate::relation::column(m.row(), "session_name_sha"@) == Val::Text(m.session_name_sha@),
        crate::relation::column(m.row(), "pay_payer_sha"@) == Val::Text(m.pay_payer_sha@),
        crate::relation::column(m.row(), "pay_receiver_sha"@) == Val::Text(m.pay_receiver_sha@),
        crate::relation::column(m.row(), "begin_transfer_time"@) == Val::Integer(m.begin_transfer_time as int),
        crate::relation::column(m.row(), "last_modified_time"@) == Val::Integer(m.last_modified_time as int),
        crate::relation::column(m.row(), "invalid_time"@) == Val::Integer(m.invalid_time as int),
        crate::relation::column(m.row(), "last_update_time"@) == Val::Integer(m.last_update_time as int),
        crate::relation::column(m.row(), "delay_confirm_flag"@) == Val::Integer(m.delay_confirm_flag as int),
        crate::relation::column(m.row(), "bubble_clicked_flag"@) == Val::Integer(m.bubble_clicked_flag as int),
        crate::relation::column(m.row(), "account_id"@) == Val::Text(m.account_id@),
        crate::relation::column(m.row(), "session_name"@) == Val::Text(m.session_name@),
        crate::relation::column(m.row(), "pay_payer"@) == Val::Text(m.pay_payer@),
        crate::relation::column(m.row(), "pay_receiver"@) == Val::Text(m.pay_receiver@),
{
    reveal_strlit("account_id_sha");
    reveal_strlit("source");
    reveal_strlit("source_native_id");
    reveal_strlit("transfer_id");
    reveal_strlit("transcation_id");
    reveal_strlit("message_server_id");
    reveal_strlit("second_message_server_id");
    reveal_strlit("pay_sub_type");
    reveal_strlit("session_name_sha");
    reveal_strlit("pay_payer_sha");
    reveal_strlit("pay_receiver_sha");
    reveal_strlit("begin_transfer_time");
    reveal_strlit("last_modified_time");
    reveal_strlit("invalid_time");
    reveal_strlit("last_update_time");
    reveal_strlit("delay_confirm_flag");
    reveal_strlit("bubble_clicked_flag");
    reveal_strlit("account_id");
    reveal_strlit("session_name");
    reveal_strlit("pay_payer");
    reveal_strlit("pay_receiver");
    let row = m.row();
    assert(row[0].0.len() == 14 && row[1].0.len() == 6 && row[2].0.len() == 16);
    assert(row[3].0.len() == 11 && row[4].0.len() == 14 && row[5].0.len() == 17);
    assert(row[6].0.len() == 24 && row[7].0.len() == 12 && row[8].0.len() == 16);
    assert(row[9].0.len() == 13 && row[10].0.len() == 16 && row[11].0.len() == 19);
    assert(row[12].0.len() == 18 && row[13].0.len() == 12 && row[14].0.len() == 16);
    assert(row[15].0.len() == 18 && row[16].0.len() == 19 && row[17].0.len() == 10);
    assert(row[18].0.len() == 12 && row[19].0.len() == 9 && row[20].0.len() == 12);
    assert(row[0].0[0] != row[4].0[0]);
    assert(row[2].0[1] != row[8].0[1]);
    assert(row[2].0[0] != row[10].0[0]);
    assert(row[8].0[0] != row[10].0[0]);
    assert(row[7].0[0] != row[13].0[0]);
    assert(row[2].0[0] != row[14].0[0]);
    assert(row[8].0[0] != row[14].0[0]);
    assert(row[10].0[0] != row[14].0[0]);
    assert(row[12].0[0] != row[15].0[0]);
    assert(row[11].0[1] != row[16].0[1]);
    assert(row[7].0[0] != row[18].0[0]);
    assert(row[13].0[0] != row[18].0[0]);
    assert(row[7].0[4] != row[20].0[4]);
    assert(row[13].0[0] != row[20].0[0]);
    assert(row[18].0[0] != row[20].0[0]);
    crate::relation::lemma_column_at(row, 0);
    crate::relation::lemma_column_at(row, 1);
    crate::relation::lemma_column_at(row, 2);
    crate::relation::lemma_column_at(row, 3);
    crate::relation::lemma_column_at(row, 4);
    crate::relation::lemma_column_at(row, 5);
    crate::relation::lemma_column_at(row, 6);
    crate::relation::lemma_column_at(row, 7);
    crate::relation::lemma_column_at(row, 8);
    crate::relation::lemma_column_at(row, 9);
    crate::relation::lemma_column_at(row, 10);
    crate::relation::lemma_column_at(row, 11);
    crate::relation::lemma_column_at(row, 12);
    crate::relation::lemma_column_at(row, 13);
    crate::relation::lemma_column_at(row, 14);
    crate::relation::lemma_column_at(row, 15);
    crate::relation::lemma_column_at(row, 16);
    crate::relation::lemma_column_at(row, 17);
    crate::relation::lemma_column_at(row, 18);
    crate::relation::lemma_column_at(row, 19);
    crate::relation::lemma_column_at(row, 20);
}


/// Every field is stored under its own name: the row that `insert_red_envelope` puts in holds in each
/// column the field of that column.
pub proof fn law_red_envelope_fields_keep_their_names(m: &V3RedEnvelope, statement: Statement)
    requires
        call_ensures(insert_red_envelope, (m,), statement),
    ensures
        statement.does(Effect::Replace { table: "red_envelope"@, row: m.row() }),
        m.row().len() == 15,
        crate::relation::column(m.row(), "account_id_sha"@) == Val::Text(m.account_id_sha@),
        crate::relation::column(m.row(), "source"@) == Val::Text(m.source@),
        crate::relation::column(m.row(), "source_native_id"@) == Val::Text(m.source_native_id@),
        crate::relation::column(m.row(), "send_id"@) == Val::Text(m.send_id@),
        crate::relation::column(m.row(), "message_server_id"@) == Val::Integer(m.message_server_id as int),
        crate::relation::column(m.row(), "sender_user_name_sha"@) == Val::Text(m.sender_user_name_sha@),
        crate::relation::column(m.row(), "session_name_sha"@) == Val::Text(m.session_name_sha@),
        crate::relation::column(m.row(), "scene_id"@) == Val::Integer(m.scene_id as int),
        crate::relation::column(m.row(), "hb_status"@) == Val::Integer(m.hb_status as int),
        crate::relation::column(m.row(), "hb_type"@) == Val::Integer(m.hb_type as int),
        crate::relation::column(m.row(), "receive_status"@) == Val::Integer(m.receive_status as int),
        crate::relation::column(m.row(), "native_url"@) == Val::Text(m.native_url@),
        crate::relation::column(m.row(), "account_id"@) == Val::Text(m.account_id@),
        crate::relation::column(m.row(), "sender_user_name"@) == Val::Text(m.sender_user_name@),
        crate::relation::column(m.row(), "session_name"@) == Val::Text(m.session_name@),
{
    reveal_strlit("account_id_sha");
    reveal_strlit("source");
    reveal_strlit("source_native_id");
    reveal_strlit("send_id");
    reveal_strlit("message_server_id");
    reveal_strlit("sender_user_name_sha");
    reveal_strlit("session_name_sha");
    reveal_strlit("scene_id");
    reveal_strlit("hb_status");
    reveal_strlit("hb_type");
    reveal_strlit("receive_status");
    reveal_strlit("native_url");
    reveal_strlit("account_id");
    reveal_strlit("sender_user_name");
    reveal_strlit("session_name");
    let row = m.row();
    assert(row[0].0.len() == 14 && row[1].0.len() == 6 && row[2].0.len() == 16);
    assert(row[3].0.len() == 7 && row[4].0.len() == 17 && row[5].0.len() == 20);
    assert(row[6].0.len() == 16 && row[7].0.len() == 8 && row[8].0.len() == 9);
    assert(row[9].0.len() == 7 && row[10].0.len() == 14 && row[11].0.len() == 10);
    assert(row[12].0.len() == 10 && row[13].0.len() == 16 && row[14].0.len() == 12);
    assert(row[2].0[1] != row[6].0[1]);
    assert(row[3].0[0] != row[9].0[0]);
    assert(row[0].0[0] != row[10].0[0]);
    assert(row[11].0[0] != row[12].0[0]);
    assert(row[2].0[1] != row[13].0[1]);
    assert(row[6].0[2] != row[13].0[2]);
    crate::relation::lemma_column_at(row, 0);
    crate::relation::lemma_column_at(row, 1);
    crate::relation::lemma_column_at(row, 2);
    crate::relation::lemma_column_at(row, 3);
    crate::relation::lemma_column_at(row, 4);
    crate::relation::lemma_column_at(row, 5);
    crate::relation::lemma_column_at(row, 6);
    crate::relation::lemma_column_at(row, 7);
    crate::relation::lemma_column_at(row, 8);
    crate::relation::lemma_column_at(row, 9);
    crate::relation::lemma_column_at(row, 10);
    crate::relation::lemma_column_at(row, 11);
    crate::relation::lemma_column_at(row, 12);
    crate::relation::lemma_column_at(row, 13);
    crate::relation::lemma_column_at(row, 14);
}


/// Every field is stored under its own name: the row that `insert_group_pay` puts in holds in each
/// column the field of that column.
pub proof fn law_group_pay_fields_keep_their_names(m: &V3GroupPay, statement: Statement)
    requires
        call_ensures(insert_group_pay, (m,), statement),
    ensures
        statement.does(Effect::Replace { table: "group_pay"@, row: m.row() }),
        m.row().len() == 9,
        crate::relation::column(m.row(), "account_id_sha"@) == Val::Text(m.account_id_sha@),
        crate::relation::column(m.row(), "source"@) == Val::Text(m.source@),
        crate::relation::column(m.row(), "source_native_id"@) == Val::Text(m.source_native_id@),
        crate::relation::column(m.row(), "bill_no"@) == Val::Text(m.bill_no@),
        crate::relation::column(m.row(), "message_local_id"@) == Val::Integer(m.message_local_id as int),
        crate::relation::column(m.row(), "message_create_time"@) == Val::Integer(m.message_create_time as int),
        crate::relation::column(m.row(), "session_name_sha"@) == Val::Text(m.session_name_sha@),
        crate::relation::column(m.row(), "account_id"@) == Val::Text(m.account_id@),
        crate::relation::column(m.row(), "session_name"@) == Val::Text(m.session_name@),
{
    reveal_strlit("account_id_sha");
    reveal_strlit("source");
    reveal_strlit("source_native_id");
    reveal_strlit("bill_no");
    reveal_strlit("message_local_id");
    reveal_strlit("message_create_time");
    reveal_strlit("session_name_sha");
    reveal_strlit("account_id");
    reveal_strlit("session_name");
    let row = m.row();
    assert(row[0].0.len() == 14 && row[1].0.len() == 6 && row[2].0.len() == 16);
    assert(row[3].0.len() == 7 && row[4].0.len() == 16 && row[5].0.len() == 19);
    assert(row[6].0.len() == 16 && row[7].0.len() == 10 && row[8].0.len() == 12);
    assert(row[2].0[0] != row[4].0[0]);
    assert(row[2].0[1] != row[6].0[1]);
    assert(row[4].0[0] != row[6].0[0]);
    crate::relation::lemma_column_at(row, 0);
    crate::relation::lemma_column_at(row, 1);
    crate::relation::lemma_column_at(row, 2);
    crate::relation::lemma_column_at(row, 3);
    crate::relation::lemma_column_at(row, 4);
    crate::relation::lemma_column_at(row, 5);
    crate::relation::lemma_column_at(row, 6);
    crate::relation::lemma_column_at(row, 7);
    crate::relation::lemma_column_at(row, 8);
}


/// Every field is stored under its own name: the row that `insert_group_pay_member` puts in holds in each
/// column the field of that column.
pub proof fn law_group_pay_member_fields_keep_their_names(m: &V3GroupPayMember, statement: Statement)
    requires
        call_ensures(insert_group_pay_member, (m,), statement),
    ensures
        statement.does(Effect::Replace { table: "group_pay_member"@, row: m.row() }),
        m.row().len() == 9,
        crate::relation::column(m.row(), "account_id_sha"@) == Val::Text(m.account_id_sha@),
        crate::relation::column(m.row(), "source"@) == Val::Text(m.source@),
        crate::relation::column(m.row(), "source_native_id"@) == Val::Text(m.source_native_id@),
        crate::relation::column(m.row(), "payer_wxid_sha"@) == Val::Text(m.payer_wxid_sha@),
        crate::relation::column(m.row(), "bill_no"@) == Val::Text(m.bill_no@),
        crate::relation::column(m.row(), "amount"@) == Val::Integer(m.amount as int),
        crate::relation::column(m.row(), "pay_status"@) == Val::Integer(m.pay_status as int),
        crate::relation::column(m.row(), "account_id"@) == Val::Text(m.account_id@),
        crate::relation::column(m.row(), "payer_wxid"@) == Val::Text(m.payer_wxid@),
{
    reveal_strlit("account_id_sha");
    reveal_strlit("source");
    reveal_strlit("source_native_id");
    reveal_strlit("payer_wxid_sha");
    reveal_strlit("bill_no");
    reveal_strlit("amount");
    reveal_strlit("pay_status");
    reveal_strlit("account_id");
    reveal_strlit("payer_wxid");
    let row = m.row();
    assert(row[0].0.len() == 14 && row[1].0.len() == 6 && row[2].0.len() == 16);
    assert(row[3].0.len() == 14 && row[4].0.len() == 7 && row[5].0.len() == 6);
    assert(row[6].0.len() == 10 && row[7].0.len() == 10 && row[8].0.len() == 10);
    assert(row[0].0[0] != row[3].0[0]);
    assert(row[1].0[0] != row[5].0[0]);
    assert(row[6].0[0] != row[7].0[0]);
    assert(row[6].0[3] != row[8].0[3]);
    assert(row[7].0[0] != row[8].0[0]);
    crate::relation::lemma_column_at(row, 0);
    crate::relation::lemma_column_at(row, 1);
    crate::relation::lemma_column_at(row, 2);
    crate::relation::lemma_column_at(row, 3);
    crate::relation::lemma_column_at(row, 4);
    crate::relation::lemma_column_at(row, 5);
    crate::relation::lemma_column_at(row, 6);
    crate::relation::lemma_column_at(row, 7);
    crate::relation::lemma_column_at(row, 8);
}


/// What a log shows of `V3Transfer`: each of these fields under its name, in the form that is said
/// here, and nothing else. What is not shown as it is stays hidden.
pub proof fn law_transfer_shows_only_these_fields(m: &V3Transfer, row: DebugRow)
    requires
        call_ensures(V3Transfer::debug_row, (m,), row),
    ensures
        row.name@ == "V3Transfer"@,
        row.complete == false,
        row.fields@.len() == 18,
        row.fields@.contains(("account_id_sha", Shown::Text(m.account_id_sha))),
        row.fields@.contains(("source", Shown::Text(m.source))),
        row.fields@.contains(("source_native_id", Shown::Text(m.source_native_id))),
        row.fields@.contains(("transfer_id", Shown::Text(m.transfer_id))),
        row.fields@.contains(("transcation_id", Shown::Text(m.transcation_id))),
        row.fields@.contains(("message_server_id", Shown::Integer(m.message_server_id))),
        row.fields@.contains(("second_message_server_id", Shown::Integer(m.second_message_server_id))),
        row.fields@.contains(("pay_sub_type", Shown::Integer(m.pay_sub_type))),
        row.fields@.contains(("session_name_sha", Shown::Text(m.session_name_sha))),
        row.fields@.contains(("pay_payer_sha", Shown::Text(m.pay_payer_sha))),
        row.fields@.contains(("pay_receiver_sha", Shown::Text(m.pay_receiver_sha))),
        row.fields@.contains(("begin_transfer_time", Shown::Integer(m.begin_transfer_time))),
        row.fields@.contains(("last_modified_time", Shown::Integer(m.last_modified_time))),
        row.fields@.contains(("invalid_time", Shown::Integer(m.invalid_time))),
        row.fields@.contains(("last_update_time", Shown::Integer(m.last_update_time))),
        row.fields@.contains(("delay_confirm_flag", Shown::Integer(m.delay_confirm_flag))),
        row.fields@.contains(("bubble_clicked_flag", Shown::Integer(m.bubble_clicked_flag))),
        row.fields@.contains(("account_id_sha8", Shown::Digest(m.account_id))),
{
    let fields = row.fields@;
    assert(fields[0] == ("account_id_sha", Shown::Text(m.account_id_sha)));
    assert(fields[1] == ("source", Shown::Text(m.source)));
    assert(fields[2] == ("source_native_id", Shown::Text(m.source_native_id)));
    assert(fields[3] == ("transfer_id", Shown::Text(m.transfer_id)));
    assert(fields[4] == ("transcation_id", Shown::Text(m.transcation_id)));
    assert(fields[5] == ("message_server_id", Shown::Integer(m.message_server_id)));
    assert(fields[6] == ("second_message_server_id", Shown::Integer(m.second_message_server_id)));
    assert(fields[7] == ("pay_sub_type", Shown::Integer(m.pay_sub_type)));
    assert(fields[8] == ("session_name_sha", Shown::Text(m.session_name_sha)));
    assert(fields[9] == ("pay_payer_sha", Shown::Text(m.pay_payer_sha)));
    assert(fields[10] == ("pay_receiver_sha", Shown::Text(m.pay_receiver_sha)));
    assert(fields[11] == ("begin_transfer_time", Shown::Integer(m.begin_transfer_time)));
    assert(fields[12] == ("last_modified_time", Shown::Integer(m.last_modified_time)));
    assert(fields[13] == ("invalid_time", Shown::Integer(m.invalid_time)));
    assert(fields[14] == ("last_update_time", Shown::Integer(m.last_update_time)));
    assert(fields[15] == ("delay_confirm_flag", Shown::Integer(m.delay_confirm_flag)));
    assert(fields[16] == ("bubble_clicked_flag", Shown::Integer(m.bubble_clicked_flag)));
    assert(fields[17] == ("account_id_sha8", Shown::Digest(m.account_id)));
}

/// What a log shows of `V3RedEnvelope`: each of these fields under its name, in the form that is said
/// here, and nothing else. What is not shown as it is stays hidden.
pub proof fn law_red_envelope_shows_only_these_fields(m: &V3RedEnvelope, row: DebugRow)
    requires
        call_ensures(V3RedEnvelope::debug_row, (m,), row),
    ensures
        row.name@ == "V3RedEnvelope"@,
        row.complete == false,
        row.fields@.len() == 13,
        row.fields@.contains(("account_id_sha", Shown::Text(m.account_id_sha))),
        row.fields@.contains(("source", Shown::Text(m.source))),
        row.fields@.contains(("source_native_id", Shown::Text(m.source_native_id))),
        row.fields@.contains(("send_id", Shown::Text(m.send_id))),
        row.fields@.contains(("message_server_id", Shown::Integer(m.message_server_id))),
        row.fields@.contains(("sender_user_name_sha", Shown::Text(m.sender_user_name_sha))),
        row.fields@.contains(("session_name_sha", Shown::Text(m.session_name_sha))),
        row.fields@.contains(("scene_id", Shown::Integer(m.scene_id))),
        row.fields@.contains(("hb_status", Shown::Integer(m.hb_status))),
        row.fields@.contains(("hb_type", Shown::Integer(m.hb_type))),
        row.fields@.contains(("receive_status", Shown::Integer(m.receive_status))),
        row.fields@.contains(("native_url_len", Shown::Count(vstd::utf8::encode_utf8(m.native_url@).len() as usize))),
        row.fields@.contains(("account_id_sha8", Shown::Digest(m.account_id))),
{
    let fields = row.fields@;
    assert(fields[0] == ("account_id_sha", Shown::Text(m.account_id_sha)));
    assert(fields[1] == ("source", Shown::Text(m.source)));
    assert(fields[2] == ("source_native_id", Shown::Text(m.source_native_id)));
    assert(fields[3] == ("send_id", Shown::Text(m.send_id)));
    assert(fields[4] == ("message_server_id", Shown::Integer(m.message_server_id)));
    assert(fields[5] == ("sender_user_name_sha", Shown::Text(m.sender_user_name_sha)));
    assert(fields[6] == ("session_name_sha", Shown::Text(m.session_name_sha)));
    assert(fields[7] == ("scene_id", Shown::Integer(m.scene_id)));
    assert(fields[8] == ("hb_status", Shown::Integer(m.hb_status)));
    assert(fields[9] == ("hb_type", Shown::Integer(m.hb_type)));
    assert(fields[10] == ("receive_status", Shown::Integer(m.receive_status)));
    assert(fields[11] == ("native_url_len", Shown::Count(vstd::utf8::encode_utf8(m.native_url@).len() as usize)));
    assert(fields[12] == ("account_id_sha8", Shown::Digest(m.account_id)));
}

/// What a log shows of `V3GroupPay`: each of these fields under its name, in the form that is said
/// here, and nothing else. What is not shown as it is stays hidden.
pub proof fn law_group_pay_shows_only_these_fields(m: &V3GroupPay, row: DebugRow)
    requires
        call_ensures(V3GroupPay::debug_row, (m,), row),
    ensures
        row.name@ == "V3GroupPay"@,
        row.complete == false,
        row.fields@.len() == 8,
        row.fields@.contains(("account_id_sha", Shown::Text(m.account_id_sha))),
        row.fields@.contains(("source", Shown::Text(m.source))),
        row.fields@.contains(("source_native_id", Shown::Text(m.source_native_id))),
        row.fields@.contains(("bill_no", Shown::Text(m.bill_no))),
        row.fields@.contains(("message_local_id", Shown::Integer(m.message_local_id))),
        row.fields@.contains(("message_create_time", Shown::Integer(m.message_create_time))),
        row.fields@.contains(("session_name_sha", Shown::Text(m.session_name_sha))),
        row.fields@.contains(("account_id_sha8", Shown::Digest(m.account_id))),
{
    let fields = row.fields@;
    assert(fields[0] == ("account_id_sha", Shown::Text(m.account_id_sha)));
    assert(fields[1] == ("source", Shown::Text(m.source)));
    assert(fields[2] == ("source_native_id", Shown::Text(m.source_native_id)));
    assert(fields[3] == ("bill_no", Shown::Text(m.bill_no)));
    assert(fields[4] == ("message_local_id", Shown::Integer(m.message_local_id)));
    assert(fields[5] == ("message_create_time", Shown::Integer(m.message_create_time)));
    assert(fields[6] == ("session_name_sha", Shown::Text(m.session_name_sha)));
    assert(fields[7] == ("account_id_sha8", Shown::Digest(m.account_id)));
}

/// What a log shows of `V3GroupPayMember`: each of these fields under its name, in the form that is said
/// here, and nothing else. What is not shown as it is stays hidden.
pub proof fn law_group_pay_member_shows_only_these_fields(m: &V3GroupPayMember, row: DebugRow)
    requires
        call_ensures(V3GroupPayMember::debug_row, (m,), row),
    ensures
        row.name@ == "V3GroupPayMember"@,
        row.complete == false,
        row.fields@.len() == 9,
        row.fields@.contains(("account_id_sha", Shown::Text(m.account_id_sha))),
        row.fields@.contains(("source", Shown::Text(m.source))),
        row.fields@.contains(("source_native_id", Shown::Text(m.source_native_id))),
        row.fields@.contains(("payer_wxid_sha", Shown::Text(m.payer_wxid_sha))),
        row.fields@.contains(("bill_no_sha8", Shown::Digest(m.bill_no))),
        row.fields@.contains(("amount", Shown::Integer(m.amount))),
        row.fields@.contains(("pay_status", Shown::Integer(m.pay_status))),
        row.fields@.contains(("account_id_sha8", Shown::Digest(m.account_id))),
        row.fields@.contains(("payer_wxid_sha8", Shown::Digest(m.payer_wxid))),
{
    let fields = row.fields@;
    assert(fields[0] == ("account_id_sha", Shown::Text(m.account_id_sha)));
    assert(fields[1] == ("source", Shown::Text(m.source)));
    assert(fields[2] == ("source_native_id", Shown::Text(m.source_native_id)));
    assert(fields[3] == ("payer_wxid_sha", Shown::Text(m.payer_wxid_sha)));
    assert(fields[4] == ("bill_no_sha8", Shown::Digest(m.bill_no)));
    assert(fields[5] == ("amount", Shown::Integer(m.amount)));
    assert(fields[6] == ("pay_status", Shown::Integer(m.pay_status)));
    assert(fields[7] == ("account_id_sha8", Shown::Digest(m.account_id)));
    assert(fields[8] == ("payer_wxid_sha8", Shown::Digest(m.payer_wxid)));
}

/// `delete_group_pay_members` takes out exactly the rows of the thing that it is given: those with its account,
/// its source and its name.
pub proof fn law_delete_group_pay_members_takes_exactly_its_rows(
    account_id_sha: &str,
    source: &str,
    id: &str,
    statement: Statement,
)
    requires
        call_ensures(delete_group_pay_members, (account_id_sha, source, id), statement),
    ensures
        exists|tests: Seq<crate::sql::Test>|
            {
                &&& #[trigger] statement.does(Effect::Delete { table: "group_pay_member"@, tests })
                &&& forall|m: V3GroupPayMember| #[trigger]
                    crate::relation::passes_all(m.row(), tests) <==> {
                        &&& m.account_id_sha@ == account_id_sha@
                        &&& m.source@ == source@
                        &&& m.source_native_id@ == id@
                    }
            },
{
    reveal_strlit("account_id_sha");
    reveal_strlit("source");
    reveal_strlit("source_native_id");
    let tests = crate::plan::belonging_to(account_id_sha@, source@, "source_native_id"@, id@);
    assert forall|m: V3GroupPayMember| #[trigger] crate::relation::passes_all(m.row(), tests) <==> {
        &&& m.account_id_sha@ == account_id_sha@
        &&& m.source@ == source@
        &&& m.source_native_id@ == id@
    } by {
        let row = m.row();
        assert(row[0].0.len() == 14 && row[1].0.len() == 6 && row[2].0.len() == 16);
        crate::relation::lemma_column_at(row, 0);
        crate::relation::lemma_column_at(row, 1);
        crate::relation::lemma_column_at(row, 2);
        crate::plan::law_group_is_the_rows_of_one_thing(
            row,
            account_id_sha@,
            source@,
            "source_native_id"@,
            id@,
        );
    }
    assert(statement.does(Effect::Delete { table: "group_pay_member"@, tests }));
}

/// Every column takes what is stored in it, and none takes null.
pub proof fn law_transfer_columns_take_its_rows(m: V3Transfer, i: int)
    requires
        0 <= i < m.row().len(),
    ensures
        transfer_columns()[i].decl.takes(m.row()[i].1),
        !transfer_columns()[i].decl.takes(Val::Null),
{
    let row = m.row();
    let columns = transfer_columns();
    assert(columns[0].decl.takes(row[0].1) && columns[1].decl.takes(row[1].1) && columns[2].decl.takes(row[2].1));
    assert(columns[3].decl.takes(row[3].1) && columns[4].decl.takes(row[4].1) && columns[5].decl.takes(row[5].1));
    assert(columns[6].decl.takes(row[6].1) && columns[7].decl.takes(row[7].1) && columns[8].decl.takes(row[8].1));
    assert(columns[9].decl.takes(row[9].1) && columns[10].decl.takes(row[10].1) && columns[11].decl.takes(row[11].1));
    assert(columns[12].decl.takes(row[12].1) && columns[13].decl.takes(row[13].1) && columns[14].decl.takes(row[14].1));
    assert(columns[15].decl.takes(row[15].1) && columns[16].decl.takes(row[16].1) && columns[17].decl.takes(row[17].1));
    assert(columns[18].decl.takes(row[18].1) && columns[19].decl.takes(row[19].1) && columns[20].decl.takes(row[20].1));
}

/// Every column takes what is stored in it, and none takes null.
pub proof fn law_red_envelope_columns_take_its_rows(m: V3RedEnvelope, i: int)
    requires
        0 <= i < m.row().len(),
    ensures
        red_envelope_columns()[i].decl.takes(m.row()[i].1),
        !red_envelope_columns()[i].decl.takes(Val::Null),
{
    let row = m.row();
    let columns = red_envelope_columns();
    assert(columns[0].decl.takes(row[0].1) && columns[1].decl.takes(row[1].1) && columns[2].decl.takes(row[2].1));
    assert(columns[3].decl.takes(row[3].1) && columns[4].decl.takes(row[4].1) && columns[5].decl.takes(row[5].1));
    assert(columns[6].decl.takes(row[6].1) && columns[7].decl.takes(row[7].1) && columns[8].decl.takes(row[8].1));
    assert(columns[9].decl.takes(row[9].1) && columns[10].decl.takes(row[10].1) && columns[11].decl.takes(row[11].1));
    assert(columns[12].decl.takes(row[12].1) && columns[13].decl.takes(row[13].1) && columns[14].decl.takes(row[14].1));
}

/// Every column takes what is stored in it, and none takes null.
pub proof fn law_group_pay_columns_take_its_rows(m: V3GroupPay, i: int)
    requires
        0 <= i < m.row().len(),
    ensures
        group_pay_columns()[i].decl.takes(m.row()[i].1),
        !group_pay_columns()[i].decl.takes(Val::Null),
{
    let row = m.row();
    let columns = group_pay_columns();
    assert(columns[0].decl.takes(row[0].1) && columns[1].decl.takes(row[1].1) && columns[2].decl.takes(row[2].1));
    assert(columns[3].decl.takes(row[3].1) && columns[4].decl.takes(row[4].1) && columns[5].decl.takes(row[5].1));
    assert(columns[6].decl.takes(row[6].1) && columns[7].decl.takes(row[7].1) && columns[8].decl.takes(row[8].1));
}

/// Every column takes what is stored in it, and none takes null.
pub proof fn law_group_pay_member_columns_take_its_rows(m: V3GroupPayMember, i: int)
    requires
        0 <= i < m.row().len(),
    ensures
        group_pay_member_columns()[i].decl.takes(m.row()[i].1),
        !group_pay_member_columns()[i].decl.takes(Val::Null),
{
    let row = m.row();
    let columns = group_pay_member_columns();
    assert(columns[0].decl.takes(row[0].1) && columns[1].decl.takes(row[1].1) && columns[2].decl.takes(row[2].1));
    assert(columns[3].decl.takes(row[3].1) && columns[4].decl.takes(row[4].1) && columns[5].decl.takes(row[5].1));
    assert(columns[6].decl.takes(row[6].1) && columns[7].decl.takes(row[7].1) && columns[8].decl.takes(row[8].1));
}

/// The table `transfer` is made first, and then an index for each of the ways in which its rows are
/// looked up.
pub proof fn law_transfer_lookups_have_indexes(steps: Vec<Step>)
    requires
        call_ensures(init_transfer_table, (), steps),
    ensures
        steps@[0] == Step::Create(Table::Transfer),
        Table::Transfer.name_text() == "transfer"@,
        crate::plan::has_index(
            steps@,
            "idx_transfer_payer"@,
            "transfer"@,
            "account_id_sha, pay_payer_sha"@,
        ),
        crate::plan::has_index(
            steps@,
            "idx_transfer_receiver"@,
            "transfer"@,
            "account_id_sha, pay_receiver_sha"@,
        ),
        crate::plan::has_index(
            steps@,
            "idx_transfer_begin_time"@,
            "transfer"@,
            "account_id_sha, begin_transfer_time DESC"@,
        ),
{
    assert(steps@[1] is Index);
    assert(steps@[2] is Index);
    assert(steps@[3] is Index);
}

/// The table `red_envelope` is made first, and then an index for each of the ways in which its rows are
/// looked up.
pub proof fn law_red_envelope_lookups_have_indexes(steps: Vec<Step>)
    requires
        call_ensures(init_red_envelope_table, (), steps),
    ensures
        steps@[0] == Step::Create(Table::RedEnvelope),
        Table::RedEnvelope.name_text() == "red_envelope"@,
        crate::plan::has_index(
            steps@,
            "idx_red_envelope_sender"@,
            "red_envelope"@,
            "account_id_sha, sender_user_name_sha"@,
        ),
        crate::plan::has_index(
            steps@,
            "idx_red_envelope_session"@,
            "red_envelope"@,
            "account_id_sha, session_name_sha"@,
        ),
        crate::plan::has_index(
            steps@,
            "idx_red_envelope_type"@,
            "red_envelope"@,
            "account_id_sha, hb_type"@,
        ),
{
    assert(steps@[1] is Index);
    assert(steps@[2] is Index);
    assert(steps@[3] is Index);
}

/// The table `group_pay` is made first, and then an index for each of the ways in which its rows are
/// looked up.
pub proof fn law_group_pay_lookups_have_indexes(steps: Vec<Step>)
    requires
        call_ensures(init_group_pay_table, (), steps),
    ensures
        steps@[0] == Step::Create(Table::GroupPay),
        Table::GroupPay.name_text() == "group_pay"@,
        crate::plan::has_index(
            steps@,
            "idx_group_pay_session"@,
            "group_pay"@,
            "account_id_sha, session_name_sha"@,
        ),
        crate::plan::has_index(
            steps@,
            "idx_group_pay_time"@,
            "group_pay"@,
            "account_id_sha, message_create_time DESC"@,
        ),
{
    assert(steps@[1] is Index);
    assert(steps@[2] is Index);
}

/// The table `group_pay_member` is made first, and then an index for each of the ways in which its rows are
/// looked up.
pub proof fn law_group_pay_member_lookups_have_indexes(steps: Vec<Step>)
    requires
        call_ensures(init_group_pay_member_table, (), steps),
    ensures
        steps@[0] == Step::Create(Table::GroupPayMember),
        Table::GroupPayMember.name_text() == "group_pay_member"@,
        crate::plan::has_index(
            steps@,
            "idx_group_pay_member_bill"@,
            "group_pay_member"@,
            "account_id_sha, bill_no"@,
        ),
{
    assert(steps@[1] is Index);
}

} // verus!
