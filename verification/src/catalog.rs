//! Tables that describe the archive and the source databases.

use vstd::prelude::*;

use crate::index::{archive_rebuilt_indexes, Index};
use crate::plan::{reconciles, Step};
use crate::redact::{mark_if_any, DebugRow, Shown};
use crate::schema::{Column, Decl};
use crate::sql::{Effect, Row, RowBuilder, Statement, Val};
use crate::tables::Table;

verus! {

/// The columns of the table `schema_meta`.
pub open spec fn schema_meta_columns() -> Seq<Column> {
    seq![
        Column { name: "key", decl: Decl::TextNotNull },
        Column { name: "value", decl: Decl::TextNotNull },
        Column { name: "updated_at", decl: Decl::IntegerNotNull },
    ]
}

/// The columns of the table `schema_meta`.
pub fn schema_meta_table() -> (columns: Vec<Column>)
    ensures
        columns@ == schema_meta_columns(),
{
    let mut columns: Vec<Column> = Vec::new();
    columns.push(Column { name: "key", decl: Decl::TextNotNull });
    columns.push(Column { name: "value", decl: Decl::TextNotNull });
    columns.push(Column { name: "updated_at", decl: Decl::IntegerNotNull });
    assert(columns@ =~= schema_meta_columns());
    columns
}

/// The columns by which the table `schema_meta` tells its rows apart.
pub open spec fn schema_meta_key() -> Seq<Seq<char>> {
    seq!["key"@]
}

/// The steps that make the table `schema_meta`.
pub open spec fn schema_meta_steps() -> Seq<Step> {
    seq![
        Step::Create(Table::SchemaMeta),
    ]
}

/// The steps that make the table `schema_meta`.
pub fn init_schema_meta_table() -> (steps: Vec<Step>)
    ensures
        steps@ == schema_meta_steps(),
{
    let mut steps: Vec<Step> = Vec::new();
    steps.push(Step::Create(Table::SchemaMeta));
    assert(steps@ =~= schema_meta_steps());
    steps
}

/// The columns of the table `chat_refresh_state`.
pub open spec fn chat_refresh_state_columns() -> Seq<Column> {
    seq![
        Column { name: "account_id_sha", decl: Decl::TextNotNull },
        Column { name: "chat_id_sha", decl: Decl::TextNotNull },
        Column { name: "shards", decl: Decl::TextNotNull },
        Column { name: "src_sig", decl: Decl::TextNotNull },
        Column { name: "refreshed_at_ms", decl: Decl::IntegerNotNull },
    ]
}

/// The columns of the table `chat_refresh_state`.
pub fn chat_refresh_state_table() -> (columns: Vec<Column>)
    ensures
        columns@ == chat_refresh_state_columns(),
{
    let mut columns: Vec<Column> = Vec::new();
    columns.push(Column { name: "account_id_sha", decl: Decl::TextNotNull });
    columns.push(Column { name: "chat_id_sha", decl: Decl::TextNotNull });
    columns.push(Column { name: "shards", decl: Decl::TextNotNull });
    columns.push(Column { name: "src_sig", decl: Decl::TextNotNull });
    columns.push(Column { name: "refreshed_at_ms", decl: Decl::IntegerNotNull });
    assert(columns@ =~= chat_refresh_state_columns());
    columns
}

/// The columns by which the table `chat_refresh_state` tells its rows apart.
pub open spec fn chat_refresh_state_key() -> Seq<Seq<char>> {
    seq!["account_id_sha"@, "chat_id_sha"@]
}

/// A field that is not read from the source yet.
#[derive(Debug, Clone, PartialEq, Eq)]
pub struct V3CapabilityBacklog {
    pub field_category: String,
    pub field_name: String,
    pub src_table: Option<String>,
    pub src_column: Option<String>,
    pub reference_project: Option<String>,
    pub target_milestone: String,
    pub status: String,
    pub notes: Option<String>,
    pub updated_at: i64,
}

impl V3CapabilityBacklog {
    /// The row that it is stored as.
    pub open spec fn row(self) -> Row {
        seq![
            ("field_category"@, Val::Text(self.field_category@)),
            ("field_name"@, Val::Text(self.field_name@)),
            ("src_table"@, crate::sql::nullable_text(self.src_table)),
            ("src_column"@, crate::sql::nullable_text(self.src_column)),
            ("reference_project"@, crate::sql::nullable_text(self.reference_project)),
            ("target_milestone"@, Val::Text(self.target_milestone@)),
            ("status"@, Val::Text(self.status@)),
            ("notes"@, crate::sql::nullable_text(self.notes)),
            ("updated_at"@, Val::Integer(self.updated_at as int)),
        ]
    }
}

/// The columns of the table `capability_backlog`.
pub open spec fn capability_backlog_columns() -> Seq<Column> {
    seq![
        Column { name: "field_category", decl: Decl::TextNotNull },
        Column { name: "field_name", decl: Decl::TextNotNull },
        Column { name: "src_table", decl: Decl::Text },
        Column { name: "src_column", decl: Decl::Text },
        Column { name: "reference_project", decl: Decl::Text },
        Column { name: "target_milestone", decl: Decl::TextNotNull },
        Column { name: "status", decl: Decl::TextNotNull },
        Column { name: "notes", decl: Decl::Text },
        Column { name: "updated_at", decl: Decl::IntegerNotNull },
    ]
}

/// The columns of the table `capability_backlog`.
pub fn capability_backlog_table() -> (columns: Vec<Column>)
    ensures
        columns@ == capability_backlog_columns(),
{
    let mut columns: Vec<Column> = Vec::new();
    columns.push(Column { name: "field_category", decl: Decl::TextNotNull });
    columns.push(Column { name: "field_name", decl: Decl::TextNotNull });
    columns.push(Column { name: "src_table", decl: Decl::Text });
    columns.push(Column { name: "src_column", decl: Decl::Text });
    columns.push(Column { name: "reference_project", decl: Decl::Text });
    columns.push(Column { name: "target_milestone", decl: Decl::TextNotNull });
    columns.push(Column { name: "status", decl: Decl::TextNotNull });
    columns.push(Column { name: "notes", decl: Decl::Text });
    columns.push(Column { name: "updated_at", decl: Decl::IntegerNotNull });
    assert(columns@ =~= capability_backlog_columns());
    columns
}

/// The columns by which the table `capability_backlog` tells its rows apart.
pub open spec fn capability_backlog_key() -> Seq<Seq<char>> {
    seq!["field_category"@, "field_name"@]
}

/// A row fills the table: it has a value for every column, and for no other.
pub proof fn law_capability_backlog_row_fills_the_table(row: V3CapabilityBacklog)
    ensures
        crate::sql::names(row.row()) == crate::schema::column_names(capability_backlog_columns()),
{
    assert(crate::sql::names(row.row()) =~= crate::schema::column_names(capability_backlog_columns()));
}

/// Two rows of the table `capability_backlog` have the same key exactly where they agree in its fields.
pub proof fn law_capability_backlog_key_tells_rows_apart(a: V3CapabilityBacklog, b: V3CapabilityBacklog)
    ensures
        crate::relation::same_key(a.row(), b.row(), capability_backlog_key()) <==> {
            &&& a.field_category@ == b.field_category@
            &&& a.field_name@ == b.field_name@
        },
{
    reveal_strlit("field_category");
    reveal_strlit("field_name");
    let (x, y) = (a.row(), b.row());
    assert("field_category"@.len() != "field_name"@.len());
    let at: Seq<int> = seq![0int, 1];
    crate::relation::lemma_same_key(x, y, capability_backlog_key(), at);
    assert(at[0] == 0);
    assert(at[1] == 1);
}

/// The steps that make the table `capability_backlog`.
pub open spec fn capability_backlog_steps() -> Seq<Step> {
    seq![
        Step::Create(Table::CapabilityBacklog),
        Step::Index(
            Index {
                name: "idx_backlog_status",
                table: "capability_backlog",
                columns: "status",
            },
        ),
        Step::Index(
            Index {
                name: "idx_backlog_milestone",
                table: "capability_backlog",
                columns: "target_milestone",
            },
        ),
    ]
}

/// The steps that make the table `capability_backlog`.
pub fn init_capability_backlog_table() -> (steps: Vec<Step>)
    ensures
        steps@ == capability_backlog_steps(),
{
    let mut steps: Vec<Step> = Vec::new();
    steps.push(Step::Create(Table::CapabilityBacklog));
    steps.push(Step::Index(
        Index {
            name: "idx_backlog_status",
            table: "capability_backlog",
            columns: "status",
        },
    ));
    steps.push(Step::Index(
        Index {
            name: "idx_backlog_milestone",
            table: "capability_backlog",
            columns: "target_milestone",
        },
    ));
    assert(steps@ =~= capability_backlog_steps());
    steps
}

/// The statement that stores a row of the table `capability_backlog`, in place of the row with the same
/// key.
pub fn insert_capability_backlog(b: &V3CapabilityBacklog) -> (statement: Statement)
    ensures
        statement.does(Effect::Replace { table: "capability_backlog"@, row: b.row() }),
{
    let mut row = RowBuilder::new();
    row.text("field_category", b.field_category.as_str());
    row.text("field_name", b.field_name.as_str());
    row.nullable_text("src_table", &b.src_table);
    row.nullable_text("src_column", &b.src_column);
    row.nullable_text("reference_project", &b.reference_project);
    row.text("target_milestone", b.target_milestone.as_str());
    row.text("status", b.status.as_str());
    row.nullable_text("notes", &b.notes);
    row.integer("updated_at", b.updated_at);
    assert(row@ =~= b.row());
    row.replace_into("capability_backlog")
}

/// A source database.
#[derive(Clone, PartialEq, Eq)]
pub struct V3SourceDbCatalog {
    pub account_id_sha: String,
    pub db_path_sha: String,
    pub db_path: Option<String>,
    pub db_size_bytes: i64,
    pub db_mtime: i64,
    pub db_kind: String,
    pub last_scanned_at: i64,
}

impl V3SourceDbCatalog {
    /// The row that it is stored as.
    pub open spec fn row(self) -> Row {
        seq![
            ("account_id_sha"@, Val::Text(self.account_id_sha@)),
            ("db_path_sha"@, Val::Text(self.db_path_sha@)),
            ("db_path"@, crate::sql::nullable_text(self.db_path)),
            ("db_size_bytes"@, Val::Integer(self.db_size_bytes as int)),
            ("db_mtime"@, Val::Integer(self.db_mtime as int)),
            ("db_kind"@, Val::Text(self.db_kind@)),
            ("last_scanned_at"@, Val::Integer(self.last_scanned_at as int)),
        ]
    }

    /// How its fields are shown in a log.
    pub open spec fn shown(self) -> Seq<(&'static str, Shown)> {
        seq![
            ("account_id_sha", Shown::Text(self.account_id_sha)),
            ("db_path_sha", Shown::Text(self.db_path_sha)),
            ("db_path", Shown::Mark(crate::redact::mark(self.db_path, "<redacted>"))),
            ("db_size_bytes", Shown::Integer(self.db_size_bytes)),
            ("db_mtime", Shown::Integer(self.db_mtime)),
            ("db_kind", Shown::Text(self.db_kind)),
            ("last_scanned_at", Shown::Integer(self.last_scanned_at)),
        ]
    }

    /// What it shows of itself in a log.
    pub fn debug_row(&self) -> (row: DebugRow)
        ensures
            row.name@ == "V3SourceDbCatalog"@,
            row.fields@ == self.shown(),
            row.complete == true,
    {
        let mut fields: Vec<(&'static str, Shown)> = Vec::new();
        fields.push(("account_id_sha", Shown::Text(self.account_id_sha.clone())));
        fields.push(("db_path_sha", Shown::Text(self.db_path_sha.clone())));
        fields.push(("db_path", Shown::Mark(mark_if_any(&self.db_path, "<redacted>"))));
        fields.push(("db_size_bytes", Shown::Integer(self.db_size_bytes)));
        fields.push(("db_mtime", Shown::Integer(self.db_mtime)));
        fields.push(("db_kind", Shown::Text(self.db_kind.clone())));
        fields.push(("last_scanned_at", Shown::Integer(self.last_scanned_at)));
        assert(fields@ =~= self.shown());
        DebugRow { name: "V3SourceDbCatalog", fields, complete: true }
    }
}

/// The columns of the table `source_db_catalog`.
pub open spec fn source_db_catalog_columns() -> Seq<Column> {
    seq![
        Column { name: "account_id_sha", decl: Decl::TextNotNull },
        Column { name: "db_path_sha", decl: Decl::TextNotNull },
        Column { name: "db_path", decl: Decl::Text },
        Column { name: "db_size_bytes", decl: Decl::IntegerNotNull },
        Column { name: "db_mtime", decl: Decl::IntegerNotNull },
        Column { name: "db_kind", decl: Decl::TextNotNull },
        Column { name: "last_scanned_at", decl: Decl::IntegerNotNull },
    ]
}

/// The columns of the table `source_db_catalog`.
pub fn source_db_catalog_table() -> (columns: Vec<Column>)
    ensures
        columns@ == source_db_catalog_columns(),
{
    let mut columns: Vec<Column> = Vec::new();
    columns.push(Column { name: "account_id_sha", decl: Decl::TextNotNull });
    columns.push(Column { name: "db_path_sha", decl: Decl::TextNotNull });
    columns.push(Column { name: "db_path", decl: Decl::Text });
    columns.push(Column { name: "db_size_bytes", decl: Decl::IntegerNotNull });
    columns.push(Column { name: "db_mtime", decl: Decl::IntegerNotNull });
    columns.push(Column { name: "db_kind", decl: Decl::TextNotNull });
    columns.push(Column { name: "last_scanned_at", decl: Decl::IntegerNotNull });
    assert(columns@ =~= source_db_catalog_columns());
    columns
}

/// The columns by which the table `source_db_catalog` tells its rows apart.
pub open spec fn source_db_catalog_key() -> Seq<Seq<char>> {
    seq!["account_id_sha"@, "db_path_sha"@]
}

/// A row fills the table: it has a value for every column, and for no other.
pub proof fn law_source_db_catalog_row_fills_the_table(row: V3SourceDbCatalog)
    ensures
        crate::sql::names(row.row()) == crate::schema::column_names(source_db_catalog_columns()),
{
    assert(crate::sql::names(row.row()) =~= crate::schema::column_names(source_db_catalog_columns()));
}

/// Two rows of the table `source_db_catalog` have the same key exactly where they agree in its fields.
pub proof fn law_source_db_catalog_key_tells_rows_apart(a: V3SourceDbCatalog, b: V3SourceDbCatalog)
    ensures
        crate::relation::same_key(a.row(), b.row(), source_db_catalog_key()) <==> {
            &&& a.account_id_sha@ == b.account_id_sha@
            &&& a.db_path_sha@ == b.db_path_sha@
        },
{
    reveal_strlit("account_id_sha");
    reveal_strlit("db_path_sha");
    let (x, y) = (a.row(), b.row());
    assert("account_id_sha"@.len() != "db_path_sha"@.len());
    let at: Seq<int> = seq![0int, 1];
    crate::relation::lemma_same_key(x, y, source_db_catalog_key(), at);
    assert(at[0] == 0);
    assert(at[1] == 1);
}

/// The steps that make the table `source_db_catalog`.
pub open spec fn source_db_catalog_steps() -> Seq<Step> {
    seq![
        Step::Create(Table::SourceDbCatalog),
        Step::Index(
            Index {
                name: "idx_db_catalog_kind",
                table: "source_db_catalog",
                columns: "account_id_sha, db_kind",
            },
        ),
    ]
}

/// The steps that make the table `source_db_catalog`.
pub fn init_source_db_catalog_table() -> (steps: Vec<Step>)
    ensures
        steps@ == source_db_catalog_steps(),
{
    let mut steps: Vec<Step> = Vec::new();
    steps.push(Step::Create(Table::SourceDbCatalog));
    steps.push(Step::Index(
        Index {
            name: "idx_db_catalog_kind",
            table: "source_db_catalog",
            columns: "account_id_sha, db_kind",
        },
    ));
    assert(steps@ =~= source_db_catalog_steps());
    steps
}

/// The statement that stores a row of the table `source_db_catalog`, in place of the row with the same
/// key.
pub fn insert_source_db_catalog(c: &V3SourceDbCatalog) -> (statement: Statement)
    ensures
        statement.does(Effect::Replace { table: "source_db_catalog"@, row: c.row() }),
{
    let mut row = RowBuilder::new();
    row.text("account_id_sha", c.account_id_sha.as_str());
    row.text("db_path_sha", c.db_path_sha.as_str());
    row.nullable_text("db_path", &c.db_path);
    row.integer("db_size_bytes", c.db_size_bytes);
    row.integer("db_mtime", c.db_mtime);
    row.text("db_kind", c.db_kind.as_str());
    row.integer("last_scanned_at", c.last_scanned_at);
    assert(row@ =~= c.row());
    row.replace_into("source_db_catalog")
}

/// A conversation in a source database.
#[derive(Debug, Clone, PartialEq, Eq)]
pub struct V3SourceChatIndex {
    pub account_id_sha: String,
    pub chat_id_sha: String,
    pub db_path_sha: String,
    pub message_count: Option<i64>,
    pub last_msg_time: Option<i64>,
}

impl V3SourceChatIndex {
    /// The row that it is stored as.
    pub open spec fn row(self) -> Row {
        seq![
            ("account_id_sha"@, Val::Text(self.account_id_sha@)),
            ("chat_id_sha"@, Val::Text(self.chat_id_sha@)),
            ("db_path_sha"@, Val::Text(self.db_path_sha@)),
            ("message_count"@, crate::sql::nullable_integer(self.message_count)),
            ("last_msg_time"@, crate::sql::nullable_integer(self.last_msg_time)),
        ]
    }
}

/// The columns of the table `source_chat_index`.
pub open spec fn source_chat_index_columns() -> Seq<Column> {
    seq![
        Column { name: "account_id_sha", decl: Decl::TextNotNull },
        Column { name: "chat_id_sha", decl: Decl::TextNotNull },
        Column { name: "db_path_sha", decl: Decl::TextNotNull },
        Column { name: "message_count", decl: Decl::Integer },
        Column { name: "last_msg_time", decl: Decl::Integer },
    ]
}

/// The columns of the table `source_chat_index`.
pub fn source_chat_index_table() -> (columns: Vec<Column>)
    ensures
        columns@ == source_chat_index_columns(),
{
    let mut columns: Vec<Column> = Vec::new();
    columns.push(Column { name: "account_id_sha", decl: Decl::TextNotNull });
    columns.push(Column { name: "chat_id_sha", decl: Decl::TextNotNull });
    columns.push(Column { name: "db_path_sha", decl: Decl::TextNotNull });
    columns.push(Column { name: "message_count", decl: Decl::Integer });
    columns.push(Column { name: "last_msg_time", decl: Decl::Integer });
    assert(columns@ =~= source_chat_index_columns());
    columns
}

/// The columns by which the table `source_chat_index` tells its rows apart.
pub open spec fn source_chat_index_key() -> Seq<Seq<char>> {
    seq!["account_id_sha"@, "chat_id_sha"@, "db_path_sha"@]
}

/// A row fills the table: it has a value for every column, and for no other.
pub proof fn law_source_chat_index_row_fills_the_table(row: V3SourceChatIndex)
    ensures
        crate::sql::names(row.row()) == crate::schema::column_names(source_chat_index_columns()),
{
    assert(crate::sql::names(row.row()) =~= crate::schema::column_names(source_chat_index_columns()));
}

/// Two rows of the table `source_chat_index` have the same key exactly where they agree in its fields.
pub proof fn law_source_chat_index_key_tells_rows_apart(a: V3SourceChatIndex, b: V3SourceChatIndex)
    ensures
        crate::relation::same_key(a.row(), b.row(), source_chat_index_key()) <==> {
            &&& a.account_id_sha@ == b.account_id_sha@
            &&& a.chat_id_sha@ == b.chat_id_sha@
            &&& a.db_path_sha@ == b.db_path_sha@
        },
{
    reveal_strlit("account_id_sha");
    reveal_strlit("chat_id_sha");
    reveal_strlit("db_path_sha");
    let (x, y) = (a.row(), b.row());
    assert("account_id_sha"@.len() != "chat_id_sha"@.len());
    assert("account_id_sha"@.len() != "db_path_sha"@.len());
    assert("chat_id_sha"@[0] != "db_path_sha"@[0]);
    let at: Seq<int> = seq![0int, 1, 2];
    crate::relation::lemma_same_key(x, y, source_chat_index_key(), at);
    assert(at[0] == 0);
    assert(at[1] == 1);
    assert(at[2] == 2);
}

/// The steps that make the table `source_chat_index`.
pub open spec fn source_chat_index_steps() -> Seq<Step> {
    seq![
        Step::Create(Table::SourceChatIndex),
        Step::Index(
            Index {
                name: "idx_chat_index_db",
                table: "source_chat_index",
                columns: "account_id_sha, db_path_sha",
            },
        ),
    ]
}

/// The steps that make the table `source_chat_index`.
pub fn init_source_chat_index_table() -> (steps: Vec<Step>)
    ensures
        steps@ == source_chat_index_steps(),
{
    let mut steps: Vec<Step> = Vec::new();
    steps.push(Step::Create(Table::SourceChatIndex));
    steps.push(Step::Index(
        Index {
            name: "idx_chat_index_db",
            table: "source_chat_index",
            columns: "account_id_sha, db_path_sha",
        },
    ));
    assert(steps@ =~= source_chat_index_steps());
    steps
}

/// The statement that stores a row of the table `source_chat_index`, in place of the row with the same
/// key.
pub fn insert_source_chat_index(c: &V3SourceChatIndex) -> (statement: Statement)
    ensures
        statement.does(Effect::Replace { table: "source_chat_index"@, row: c.row() }),
{
    let mut row = RowBuilder::new();
    row.text("account_id_sha", c.account_id_sha.as_str());
    row.text("chat_id_sha", c.chat_id_sha.as_str());
    row.text("db_path_sha", c.db_path_sha.as_str());
    row.nullable_integer("message_count", c.message_count);
    row.nullable_integer("last_msg_time", c.last_msg_time);
    assert(row@ =~= c.row());
    row.replace_into("source_chat_index")
}

/// A conversation over all source databases.
#[derive(Debug, Clone, PartialEq, Eq)]
pub struct V3SourceChatToDb {
    pub account_id_sha: String,
    pub chat_id_sha: String,
    pub total_message_count: i64,
    pub db_count: i64,
    pub first_msg_time: Option<i64>,
    pub last_msg_time: Option<i64>,
}

impl V3SourceChatToDb {
    /// The row that it is stored as.
    pub open spec fn row(self) -> Row {
        seq![
            ("account_id_sha"@, Val::Text(self.account_id_sha@)),
            ("chat_id_sha"@, Val::Text(self.chat_id_sha@)),
            ("total_message_count"@, Val::Integer(self.total_message_count as int)),
            ("db_count"@, Val::Integer(self.db_count as int)),
            ("first_msg_time"@, crate::sql::nullable_integer(self.first_msg_time)),
            ("last_msg_time"@, crate::sql::nullable_integer(self.last_msg_time)),
        ]
    }
}

/// The columns of the table `source_chat_to_db`.
pub open spec fn source_chat_to_db_columns() -> Seq<Column> {
    seq![
        Column { name: "account_id_sha", decl: Decl::TextNotNull },
        Column { name: "chat_id_sha", decl: Decl::TextNotNull },
        Column { name: "total_message_count", decl: Decl::IntegerNotNull },
        Column { name: "db_count", decl: Decl::IntegerNotNull },
        Column { name: "first_msg_time", decl: Decl::Integer },
        Column { name: "last_msg_time", decl: Decl::Integer },
    ]
}

/// The columns of the table `source_chat_to_db`.
pub fn source_chat_to_db_table() -> (columns: Vec<Column>)
    ensures
        columns@ == source_chat_to_db_columns(),
{
    let mut columns: Vec<Column> = Vec::new();
    columns.push(Column { name: "account_id_sha", decl: Decl::TextNotNull });
    columns.push(Column { name: "chat_id_sha", decl: Decl::TextNotNull });
    columns.push(Column { name: "total_message_count", decl: Decl::IntegerNotNull });
    columns.push(Column { name: "db_count", decl: Decl::IntegerNotNull });
    columns.push(Column { name: "first_msg_time", decl: Decl::Integer });
    columns.push(Column { name: "last_msg_time", decl: Decl::Integer });
    assert(columns@ =~= source_chat_to_db_columns());
    columns
}

/// The columns by which the table `source_chat_to_db` tells its rows apart.
pub open spec fn source_chat_to_db_key() -> Seq<Seq<char>> {
    seq!["account_id_sha"@, "chat_id_sha"@]
}

/// A row fills the table: it has a value for every column, and for no other.
pub proof fn law_source_chat_to_db_row_fills_the_table(row: V3SourceChatToDb)
    ensures
        crate::sql::names(row.row()) == crate::schema::column_names(source_chat_to_db_columns()),
{
    assert(crate::sql::names(row.row()) =~= crate::schema::column_names(source_chat_to_db_columns()));
}

/// Two rows of the table `source_chat_to_db` have the same key exactly where they agree in its fields.
pub proof fn law_source_chat_to_db_key_tells_rows_apart(a: V3SourceChatToDb, b: V3SourceChatToDb)
    ensures
        crate::relation::same_key(a.row(), b.row(), source_chat_to_db_key()) <==> {
            &&& a.account_id_sha@ == b.account_id_sha@
            &&& a.chat_id_sha@ == b.chat_id_sha@
        },
{
    reveal_strlit("account_id_sha");
    reveal_strlit("chat_id_sha");
    let (x, y) = (a.row(), b.row());
    assert("account_id_sha"@.len() != "chat_id_sha"@.len());
    let at: Seq<int> = seq![0int, 1];
    crate::relation::lemma_same_key(x, y, source_chat_to_db_key(), at);
    assert(at[0] == 0);
    assert(at[1] == 1);
}

/// The steps that make the table `source_chat_to_db`.
pub open spec fn source_chat_to_db_steps() -> Seq<Step> {
    seq![
        Step::Create(Table::SourceChatToDb),
    ]
}

/// The steps that make the table `source_chat_to_db`.
pub fn init_source_chat_to_db_table() -> (steps: Vec<Step>)
    ensures
        steps@ == source_chat_to_db_steps(),
{
    let mut steps: Vec<Step> = Vec::new();
    steps.push(Step::Create(Table::SourceChatToDb));
    assert(steps@ =~= source_chat_to_db_steps());
    steps
}

/// The statement that stores a row of the table `source_chat_to_db`, in place of the row with the same
/// key.
pub fn insert_source_chat_to_db(c: &V3SourceChatToDb) -> (statement: Statement)
    ensures
        statement.does(Effect::Replace { table: "source_chat_to_db"@, row: c.row() }),
{
    let mut row = RowBuilder::new();
    row.text("account_id_sha", c.account_id_sha.as_str());
    row.text("chat_id_sha", c.chat_id_sha.as_str());
    row.integer("total_message_count", c.total_message_count);
    row.integer("db_count", c.db_count);
    row.nullable_integer("first_msg_time", c.first_msg_time);
    row.nullable_integer("last_msg_time", c.last_msg_time);
    assert(row@ =~= c.row());
    row.replace_into("source_chat_to_db")
}

/// The times that a source database covers.
#[derive(Debug, Clone, PartialEq, Eq)]
pub struct V3SourceDbTimerange {
    pub account_id_sha: String,
    pub db_path_sha: String,
    pub min_msg_time: Option<i64>,
    pub max_msg_time: Option<i64>,
}

impl V3SourceDbTimerange {
    /// The row that it is stored as.
    pub open spec fn row(self) -> Row {
        seq![
            ("account_id_sha"@, Val::Text(self.account_id_sha@)),
            ("db_path_sha"@, Val::Text(self.db_path_sha@)),
            ("min_msg_time"@, crate::sql::nullable_integer(self.min_msg_time)),
            ("max_msg_time"@, crate::sql::nullable_integer(self.max_msg_time)),
        ]
    }
}

/// The columns of the table `source_db_timerange`.
pub open spec fn source_db_timerange_columns() -> Seq<Column> {
    seq![
        Column { name: "account_id_sha", decl: Decl::TextNotNull },
        Column { name: "db_path_sha", decl: Decl::TextNotNull },
        Column { name: "min_msg_time", decl: Decl::Integer },
        Column { name: "max_msg_time", decl: Decl::Integer },
    ]
}

/// The columns of the table `source_db_timerange`.
pub fn source_db_timerange_table() -> (columns: Vec<Column>)
    ensures
        columns@ == source_db_timerange_columns(),
{
    let mut columns: Vec<Column> = Vec::new();
    columns.push(Column { name: "account_id_sha", decl: Decl::TextNotNull });
    columns.push(Column { name: "db_path_sha", decl: Decl::TextNotNull });
    columns.push(Column { name: "min_msg_time", decl: Decl::Integer });
    columns.push(Column { name: "max_msg_time", decl: Decl::Integer });
    assert(columns@ =~= source_db_timerange_columns());
    columns
}

/// The columns by which the table `source_db_timerange` tells its rows apart.
pub open spec fn source_db_timerange_key() -> Seq<Seq<char>> {
    seq!["account_id_sha"@, "db_path_sha"@]
}

/// A row fills the table: it has a value for every column, and for no other.
pub proof fn law_source_db_timerange_row_fills_the_table(row: V3SourceDbTimerange)
    ensures
        crate::sql::names(row.row()) == crate::schema::column_names(source_db_timerange_columns()),
{
    assert(crate::sql::names(row.row()) =~= crate::schema::column_names(source_db_timerange_columns()));
}

/// Two rows of the table `source_db_timerange` have the same key exactly where they agree in its fields.
pub proof fn law_source_db_timerange_key_tells_rows_apart(a: V3SourceDbTimerange, b: V3SourceDbTimerange)
    ensures
        crate::relation::same_key(a.row(), b.row(), source_db_timerange_key()) <==> {
            &&& a.account_id_sha@ == b.account_id_sha@
            &&& a.db_path_sha@ == b.db_path_sha@
        },
{
    reveal_strlit("account_id_sha");
    reveal_strlit("db_path_sha");
    let (x, y) = (a.row(), b.row());
    assert("account_id_sha"@.len() != "db_path_sha"@.len());
    let at: Seq<int> = seq![0int, 1];
    crate::relation::lemma_same_key(x, y, source_db_timerange_key(), at);
    assert(at[0] == 0);
    assert(at[1] == 1);
}

/// The steps that make the table `source_db_timerange`.
pub open spec fn source_db_timerange_steps() -> Seq<Step> {
    seq![
        Step::Create(Table::SourceDbTimerange),
    ]
}

/// The steps that make the table `source_db_timerange`.
pub fn init_source_db_timerange_table() -> (steps: Vec<Step>)
    ensures
        steps@ == source_db_timerange_steps(),
{
    let mut steps: Vec<Step> = Vec::new();
    steps.push(Step::Create(Table::SourceDbTimerange));
    assert(steps@ =~= source_db_timerange_steps());
    steps
}

/// The statement that stores a row of the table `source_db_timerange`, in place of the row with the same
/// key.
pub fn insert_source_db_timerange(t: &V3SourceDbTimerange) -> (statement: Statement)
    ensures
        statement.does(Effect::Replace { table: "source_db_timerange"@, row: t.row() }),
{
    let mut row = RowBuilder::new();
    row.text("account_id_sha", t.account_id_sha.as_str());
    row.text("db_path_sha", t.db_path_sha.as_str());
    row.nullable_integer("min_msg_time", t.min_msg_time);
    row.nullable_integer("max_msg_time", t.max_msg_time);
    assert(row@ =~= t.row());
    row.replace_into("source_db_timerange")
}

/// A plan for a query that was made before.
#[derive(Debug, Clone, PartialEq, Eq)]
pub struct V3SourceQueryPlan {
    pub account_id_sha: String,
    pub query_signature_sha: String,
    pub plan_json: String,
    pub estimated_cost: Option<i64>,
    pub last_used_at: i64,
    pub hit_count: i64,
}

impl V3SourceQueryPlan {
    /// The row that it is stored as.
    pub open spec fn row(self) -> Row {
        seq![
            ("account_id_sha"@, Val::Text(self.account_id_sha@)),
            ("query_signature_sha"@, Val::Text(self.query_signature_sha@)),
            ("plan_json"@, Val::Text(self.plan_json@)),
            ("estimated_cost"@, crate::sql::nullable_integer(self.estimated_cost)),
            ("last_used_at"@, Val::Integer(self.last_used_at as int)),
            ("hit_count"@, Val::Integer(self.hit_count as int)),
        ]
    }
}

/// The columns of the table `source_query_plans`.
pub open spec fn source_query_plans_columns() -> Seq<Column> {
    seq![
        Column { name: "account_id_sha", decl: Decl::TextNotNull },
        Column { name: "query_signature_sha", decl: Decl::TextNotNull },
        Column { name: "plan_json", decl: Decl::TextNotNull },
        Column { name: "estimated_cost", decl: Decl::Integer },
        Column { name: "last_used_at", decl: Decl::IntegerNotNull },
        Column { name: "hit_count", decl: Decl::IntegerNotNull },
    ]
}

/// The columns of the table `source_query_plans`.
pub fn source_query_plans_table() -> (columns: Vec<Column>)
    ensures
        columns@ == source_query_plans_columns(),
{
    let mut columns: Vec<Column> = Vec::new();
    columns.push(Column { name: "account_id_sha", decl: Decl::TextNotNull });
    columns.push(Column { name: "query_signature_sha", decl: Decl::TextNotNull });
    columns.push(Column { name: "plan_json", decl: Decl::TextNotNull });
    columns.push(Column { name: "estimated_cost", decl: Decl::Integer });
    columns.push(Column { name: "last_used_at", decl: Decl::IntegerNotNull });
    columns.push(Column { name: "hit_count", decl: Decl::IntegerNotNull });
    assert(columns@ =~= source_query_plans_columns());
    columns
}

/// The columns by which the table `source_query_plans` tells its rows apart.
pub open spec fn source_query_plans_key() -> Seq<Seq<char>> {
    seq!["account_id_sha"@, "query_signature_sha"@]
}

/// A row fills the table: it has a value for every column, and for no other.
pub proof fn law_source_query_plans_row_fills_the_table(row: V3SourceQueryPlan)
    ensures
        crate::sql::names(row.row()) == crate::schema::column_names(source_query_plans_columns()),
{
    assert(crate::sql::names(row.row()) =~= crate::schema::column_names(source_query_plans_columns()));
}

/// Two rows of the table `source_query_plans` have the same key exactly where they agree in its fields.
pub proof fn law_source_query_plans_key_tells_rows_apart(a: V3SourceQueryPlan, b: V3SourceQueryPlan)
    ensures
        crate::relation::same_key(a.row(), b.row(), source_query_plans_key()) <==> {
            &&& a.account_id_sha@ == b.account_id_sha@
            &&& a.query_signature_sha@ == b.query_signature_sha@
        },
{
    reveal_strlit("account_id_sha");
    reveal_strlit("query_signature_sha");
    let (x, y) = (a.row(), b.row());
    assert("account_id_sha"@.len() != "query_signature_sha"@.len());
    let at: Seq<int> = seq![0int, 1];
    crate::relation::lemma_same_key(x, y, source_query_plans_key(), at);
    assert(at[0] == 0);
    assert(at[1] == 1);
}

/// The steps that make the table `source_query_plans`.
pub open spec fn source_query_plans_steps() -> Seq<Step> {
    seq![
        Step::Create(Table::SourceQueryPlans),
        Step::Index(
            Index {
                name: "idx_query_plans_lru",
                table: "source_query_plans",
                columns: "account_id_sha, last_used_at DESC",
            },
        ),
    ]
}

/// The steps that make the table `source_query_plans`.
pub fn init_source_query_plans_table() -> (steps: Vec<Step>)
    ensures
        steps@ == source_query_plans_steps(),
{
    let mut steps: Vec<Step> = Vec::new();
    steps.push(Step::Create(Table::SourceQueryPlans));
    steps.push(Step::Index(
        Index {
            name: "idx_query_plans_lru",
            table: "source_query_plans",
            columns: "account_id_sha, last_used_at DESC",
        },
    ));
    assert(steps@ =~= source_query_plans_steps());
    steps
}

/// The statement that stores a row of the table `source_query_plans`, in place of the row with the same
/// key.
pub fn insert_source_query_plan(p: &V3SourceQueryPlan) -> (statement: Statement)
    ensures
        statement.does(Effect::Replace { table: "source_query_plans"@, row: p.row() }),
{
    let mut row = RowBuilder::new();
    row.text("account_id_sha", p.account_id_sha.as_str());
    row.text("query_signature_sha", p.query_signature_sha.as_str());
    row.text("plan_json", p.plan_json.as_str());
    row.nullable_integer("estimated_cost", p.estimated_cost);
    row.integer("last_used_at", p.last_used_at);
    row.integer("hit_count", p.hit_count);
    assert(row@ =~= p.row());
    row.replace_into("source_query_plans")
}

/// The columns of the table `raw_payload_archive`.
pub open spec fn raw_payload_archive_columns() -> Seq<Column> {
    seq![
        Column { name: "id", decl: Decl::RowNumber },
        Column { name: "account_id_sha", decl: Decl::TextNotNull },
        Column { name: "source", decl: Decl::TextNotNull },
        Column { name: "source_native_id", decl: Decl::TextNotNull },
        Column { name: "event_type", decl: Decl::TextNotNull },
        Column { name: "event_action", decl: Decl::TextNotNull },
        Column { name: "event_seq", decl: Decl::IntegerNotNull },
        Column { name: "ingest_time", decl: Decl::IntegerNotNull },
        Column { name: "payload_json", decl: Decl::TextNotNull },
    ]
}

/// The columns of the table `raw_payload_archive`.
pub fn raw_payload_archive_table() -> (columns: Vec<Column>)
    ensures
        columns@ == raw_payload_archive_columns(),
{
    let mut columns: Vec<Column> = Vec::new();
    columns.push(Column { name: "id", decl: Decl::RowNumber });
    columns.push(Column { name: "account_id_sha", decl: Decl::TextNotNull });
    columns.push(Column { name: "source", decl: Decl::TextNotNull });
    columns.push(Column { name: "source_native_id", decl: Decl::TextNotNull });
    columns.push(Column { name: "event_type", decl: Decl::TextNotNull });
    columns.push(Column { name: "event_action", decl: Decl::TextNotNull });
    columns.push(Column { name: "event_seq", decl: Decl::IntegerNotNull });
    columns.push(Column { name: "ingest_time", decl: Decl::IntegerNotNull });
    columns.push(Column { name: "payload_json", decl: Decl::TextNotNull });
    assert(columns@ =~= raw_payload_archive_columns());
    columns
}

/// The columns by which the table `raw_payload_archive` tells its rows apart.
pub open spec fn raw_payload_archive_key() -> Seq<Seq<char>> {
    seq!["account_id_sha"@, "source"@, "source_native_id"@, "event_action"@, "event_seq"@]
}

/// The steps that make the table `raw_payload_archive`. The definitions of its indexes are looked
/// at every time: an index of an older definition is not made anew by its name alone.
pub open spec fn archive_steps() -> Seq<Step> {
    seq![
        Step::Create(Table::RawPayloadArchive),
        Step::Index(
            Index {
                name: "idx_archive_account_ingest",
                table: "raw_payload_archive",
                columns: "account_id_sha, ingest_time DESC",
            },
        ),
        Step::Index(
            Index {
                name: "idx_archive_event_type",
                table: "raw_payload_archive",
                columns: "event_type, event_action",
            },
        ),
    ] + crate::index::archive_rebuilt().map_values(|ix: Index| Step::Reconcile(ix))
}

/// The steps that make the table `raw_payload_archive`.
pub fn init_archive_table() -> (steps: Vec<Step>)
    ensures
        steps@ == archive_steps(),
{
    let mut steps: Vec<Step> = Vec::new();
    steps.push(Step::Create(Table::RawPayloadArchive));
    steps.push(Step::Index(
        Index {
            name: "idx_archive_account_ingest",
            table: "raw_payload_archive",
            columns: "account_id_sha, ingest_time DESC",
        },
    ));
    steps.push(Step::Index(
        Index {
            name: "idx_archive_event_type",
            table: "raw_payload_archive",
            columns: "event_type, event_action",
        },
    ));
    let mut rebuilt = reconciles(&archive_rebuilt_indexes());
    steps.append(&mut rebuilt);
    assert(steps@ =~= archive_steps());
    steps
}

/// Every field is stored under its own name: the row that `insert_capability_backlog` puts in holds in each
/// column the field of that column.
pub proof fn law_capability_backlog_fields_keep_their_names(m: &V3CapabilityBacklog, statement: Statement)
    requires
        call_ensures(insert_capability_backlog, (m,), statement),
    ensures
        statement.does(Effect::Replace { table: "capability_backlog"@, row: m.row() }),
        m.row().len() == 9,
        crate::relation::column(m.row(), "field_category"@) == Val::Text(m.field_category@),
        crate::relation::column(m.row(), "field_name"@) == Val::Text(m.field_name@),
        crate::relation::column(m.row(), "src_table"@) == (match m.src_table { Some(t) => Val::Text(t@), None => Val::Null }),
        crate::relation::column(m.row(), "src_column"@) == (match m.src_column { Some(t) => Val::Text(t@), None => Val::Null }),
        crate::relation::column(m.row(), "reference_project"@) == (match m.reference_project { Some(t) => Val::Text(t@), None => Val::Null }),
        crate::relation::column(m.row(), "target_milestone"@) == Val::Text(m.target_milestone@),
        crate::relation::column(m.row(), "status"@) == Val::Text(m.status@),
        crate::relation::column(m.row(), "notes"@) == (match m.notes { Some(t) => Val::Text(t@), None => Val::Null }),
        crate::relation::column(m.row(), "updated_at"@) == Val::Integer(m.updated_at as int),
{
    reveal_strlit("field_category");
    reveal_strlit("field_name");
    reveal_strlit("src_table");
    reveal_strlit("src_column");
    reveal_strlit("reference_project");
    reveal_strlit("target_milestone");
    reveal_strlit("status");
    reveal_strlit("notes");
    reveal_strlit("updated_at");
    let row = m.row();
    assert(row[0].0.len() == 14 && row[1].0.len() == 10 && row[2].0.len() == 9);
    assert(row[3].0.len() == 10 && row[4].0.len() == 17 && row[5].0.len() == 16);
    assert(row[6].0.len() == 6 && row[7].0.len() == 5 && row[8].0.len() == 10);
    assert(row[1].0[0] != row[3].0[0]);
    assert(row[1].0[0] != row[8].0[0]);
    assert(row[3].0[0] != row[8].0[0]);
    crate::relation::lemma_column_at(row, 0);
    crate::relation::lemma_column_at(row, 1);
    crate::relation::lemma_column_at(row, 2);
    crate::relation::lemma_column_at(row, 3);
    crate::relation::lemma_column_at(row, 4);
    crate::relation::lemma_column_at(row, 5);
    crate::relation::lemma_column_at(row, 6);
    crate::relation::lemma_column_at(row, 7);
    crate::relation::lemma_column_at(row, 8);
}


/// Every field is stored under its own name: the row that `insert_source_db_catalog` puts in holds in each
/// column the field of that column.
pub proof fn law_source_db_catalog_fields_keep_their_names(m: &V3SourceDbCatalog, statement: Statement)
    requires
        call_ensures(insert_source_db_catalog, (m,), statement),
    ensures
        statement.does(Effect::Replace { table: "source_db_catalog"@, row: m.row() }),
        m.row().len() == 7,
        crate::relation::column(m.row(), "account_id_sha"@) == Val::Text(m.account_id_sha@),
        crate::relation::column(m.row(), "db_path_sha"@) == Val::Text(m.db_path_sha@),
        crate::relation::column(m.row(), "db_path"@) == (match m.db_path { Some(t) => Val::Text(t@), None => Val::Null }),
        crate::relation::column(m.row(), "db_size_bytes"@) == Val::Integer(m.db_size_bytes as int),
        crate::relation::column(m.row(), "db_mtime"@) == Val::Integer(m.db_mtime as int),
        crate::relation::column(m.row(), "db_kind"@) == Val::Text(m.db_kind@),
        crate::relation::column(m.row(), "last_scanned_at"@) == Val::Integer(m.last_scanned_at as int),
{
    reveal_strlit("account_id_sha");
    reveal_strlit("db_path_sha");
    reveal_strlit("db_path");
    reveal_strlit("db_size_bytes");
    reveal_strlit("db_mtime");
    reveal_strlit("db_kind");
    reveal_strlit("last_scanned_at");
    let row = m.row();
    assert(row[0].0.len() == 14 && row[1].0.len() == 11 && row[2].0.len() == 7);
    assert(row[3].0.len() == 13 && row[4].0.len() == 8 && row[5].0.len() == 7);
    assert(row[6].0.len() == 15);
    assert(row[2].0[3] != row[5].0[3]);
    crate::relation::lemma_column_at(row, 0);
    crate::relation::lemma_column_at(row, 1);
    crate::relation::lemma_column_at(row, 2);
    crate::relation::lemma_column_at(row, 3);
    crate::relation::lemma_column_at(row, 4);
    crate::relation::lemma_column_at(row, 5);
    crate::relation::lemma_column_at(row, 6);
}


/// Every field is stored under its own name: the row that `insert_source_chat_index` puts in holds in each
/// column the field of that column.
pub proof fn law_source_chat_index_fields_keep_their_names(m: &V3SourceChatIndex, statement: Statement)
    requires
        call_ensures(insert_source_chat_index, (m,), statement),
    ensures
        statement.does(Effect::Replace { table: "source_chat_index"@, row: m.row() }),
        m.row().len() == 5,
        crate::relation::column(m.row(), "account_id_sha"@) == Val::Text(m.account_id_sha@),
        crate::relation::column(m.row(), "chat_id_sha"@) == Val::Text(m.chat_id_sha@),
        crate::relation::column(m.row(), "db_path_sha"@) == Val::Text(m.db_path_sha@),
        crate::relation::column(m.row(), "message_count"@) == (match m.message_count { Some(n) => Val::Integer(n as int), None => Val::Null }),
        crate::relation::column(m.row(), "last_msg_time"@) == (match m.last_msg_time { Some(n) => Val::Integer(n as int), None => Val::Null }),
{
    reveal_strlit("account_id_sha");
    reveal_strlit("chat_id_sha");
    reveal_strlit("db_path_sha");
    reveal_strlit("message_count");
    reveal_strlit("last_msg_time");
    let row = m.row();
    assert(row[0].0.len() == 14 && row[1].0.len() == 11 && row[2].0.len() == 11);
    assert(row[3].0.len() == 13 && row[4].0.len() == 13);
    assert(row[1].0[0] != row[2].0[0]);
    assert(row[3].0[0] != row[4].0[0]);
    crate::relation::lemma_column_at(row, 0);
    crate::relation::lemma_column_at(row, 1);
    crate::relation::lemma_column_at(row, 2);
    crate::relation::lemma_column_at(row, 3);
    crate::relation::lemma_column_at(row, 4);
}


/// Every field is stored under its own name: the row that `insert_source_chat_to_db` puts in holds in each
/// column the field of that column.
pub proof fn law_source_chat_to_db_fields_keep_their_names(m: &V3SourceChatToDb, statement: Statement)
    requires
        call_ensures(insert_source_chat_to_db, (m,), statement),
    ensures
        statement.does(Effect::Replace { table: "source_chat_to_db"@, row: m.row() }),
        m.row().len() == 6,
        crate::relation::column(m.row(), "account_id_sha"@) == Val::Text(m.account_id_sha@),
        crate::relation::column(m.row(), "chat_id_sha"@) == Val::Text(m.chat_id_sha@),
        crate::relation::column(m.row(), "total_message_count"@) == Val::Integer(m.total_message_count as int),
        crate::relation::column(m.row(), "db_count"@) == Val::Integer(m.db_count as int),
        crate::relation::column(m.row(), "first_msg_time"@) == (match m.first_msg_time { Some(n) => Val::Integer(n as int), None => Val::Null }),
        crate::relation::column(m.row(), "last_msg_time"@) == (match m.last_msg_time { Some(n) => Val::Integer(n as int), None => Val::Null }),
{
    reveal_strlit("account_id_sha");
    reveal_strlit("chat_id_sha");
    reveal_strlit("total_message_count");
    reveal_strlit("db_count");
    reveal_strlit("first_msg_time");
    reveal_strlit("last_msg_time");
    let row = m.row();
    assert(row[0].0.len() == 14 && row[1].0.len() == 11 && row[2].0.len() == 19);
    assert(row[3].0.len() == 8 && row[4].0.len() == 14 && row[5].0.len() == 13);
    assert(row[0].0[0] != row[4].0[0]);
    crate::relation::lemma_column_at(row, 0);
    crate::relation::lemma_column_at(row, 1);
    crate::relation::lemma_column_at(row, 2);
    crate::relation::lemma_column_at(row, 3);
    crate::relation::lemma_column_at(row, 4);
    crate::relation::lemma_column_at(row, 5);
}


/// Every field is stored under its own name: the row that `insert_source_db_timerange` puts in holds in each
/// column the field of that column.
pub proof fn law_source_db_timerange_fields_keep_their_names(m: &V3SourceDbTimerange, statement: Statement)
    requires
        call_ensures(insert_source_db_timerange, (m,), statement),
    ensures
        statement.does(Effect::Replace { table: "source_db_timerange"@, row: m.row() }),
        m.row().len() == 4,
        crate::relation::column(m.row(), "account_id_sha"@) == Val::Text(m.account_id_sha@),
        crate::relation::column(m.row(), "db_path_sha"@) == Val::Text(m.db_path_sha@),
        crate::relation::column(m.row(), "min_msg_time"@) == (match m.min_msg_time { Some(n) => Val::Integer(n as int), None => Val::Null }),
        crate::relation::column(m.row(), "max_msg_time"@) == (match m.max_msg_time { Some(n) => Val::Integer(n as int), None => Val::Null }),
{
    reveal_strlit("account_id_sha");
    reveal_strlit("db_path_sha");
    reveal_strlit("min_msg_time");
    reveal_strlit("max_msg_time");
    let row = m.row();
    assert(row[0].0.len() == 14 && row[1].0.len() == 11 && row[2].0.len() == 12);
    assert(row[3].0.len() == 12);
    assert(row[2].0[1] != row[3].0[1]);
    crate::relation::lemma_column_at(row, 0);
    crate::relation::lemma_column_at(row, 1);
    crate::relation::lemma_column_at(row, 2);
    crate::relation::lemma_column_at(row, 3);
}


/// Every field is stored under its own name: the row that `insert_source_query_plan` puts in holds in each
/// column the field of that column.
pub proof fn law_source_query_plan_fields_keep_their_names(m: &V3SourceQueryPlan, statement: Statement)
    requires
        call_ensures(insert_source_query_plan, (m,), statement),
    ensures
        statement.does(Effect::Replace { table: "source_query_plans"@, row: m.row() }),
        m.row().len() == 6,
        crate::relation::column(m.row(), "account_id_sha"@) == Val::Text(m.account_id_sha@),
        crate::relation::column(m.row(), "query_signature_sha"@) == Val::Text(m.query_signature_sha@),
        crate::relation::column(m.row(), "plan_json"@) == Val::Text(m.plan_json@),
        crate::relation::column(m.row(), "estimated_cost"@) == (match m.estimated_cost { Some(n) => Val::Integer(n as int), None => Val::Null }),
        crate::relation::column(m.row(), "last_used_at"@) == Val::Integer(m.last_used_at as int),
        crate::relation::column(m.row(), "hit_count"@) == Val::Integer(m.hit_count as int),
{
    reveal_strlit("account_id_sha");
    reveal_strlit("query_signature_sha");
    reveal_strlit("plan_json");
    reveal_strlit("estimated_cost");
    reveal_strlit("last_used_at");
    reveal_strlit("hit_count");
    let row = m.row();
    assert(row[0].0.len() == 14 && row[1].0.len() == 19 && row[2].0.len() == 9);
    assert(row[3].0.len() == 14 && row[4].0.len() == 12 && row[5].0.len() == 9);
    assert(row[0].0[0] != row[3].0[0]);
    assert(row[2].0[0] != row[5].0[0]);
    crate::relation::lemma_column_at(row, 0);
    crate::relation::lemma_column_at(row, 1);
    crate::relation::lemma_column_at(row, 2);
    crate::relation::lemma_column_at(row, 3);
    crate::relation::lemma_column_at(row, 4);
    crate::relation::lemma_column_at(row, 5);
}


/// What a log shows of `V3SourceDbCatalog`: each of these fields under its name, in the form that is said
/// here, and nothing else. What is not shown as it is stays hidden.
pub proof fn law_source_db_catalog_shows_only_these_fields(m: &V3SourceDbCatalog, row: DebugRow)
    requires
        call_ensures(V3SourceDbCatalog::debug_row, (m,), row),
    ensures
        row.name@ == "V3SourceDbCatalog"@,
        row.complete == true,
        row.fields@.len() == 7,
        row.fields@.contains(("account_id_sha", Shown::Text(m.account_id_sha))),
        row.fields@.contains(("db_path_sha", Shown::Text(m.db_path_sha))),
        row.fields@.contains(("db_path", Shown::Mark(if m.db_path is Some { Some("<redacted>") } else { None }))),
        row.fields@.contains(("db_size_bytes", Shown::Integer(m.db_size_bytes))),
        row.fields@.contains(("db_mtime", Shown::Integer(m.db_mtime))),
        row.fields@.contains(("db_kind", Shown::Text(m.db_kind))),
        row.fields@.contains(("last_scanned_at", Shown::Integer(m.last_scanned_at))),
{
    let fields = row.fields@;
    assert(fields[0] == ("account_id_sha", Shown::Text(m.account_id_sha)));
    assert(fields[1] == ("db_path_sha", Shown::Text(m.db_path_sha)));
    assert(fields[2] == ("db_path", Shown::Mark(if m.db_path is Some { Some("<redacted>") } else { None })));
    assert(fields[3] == ("db_size_bytes", Shown::Integer(m.db_size_bytes)));
    assert(fields[4] == ("db_mtime", Shown::Integer(m.db_mtime)));
    assert(fields[5] == ("db_kind", Shown::Text(m.db_kind)));
    assert(fields[6] == ("last_scanned_at", Shown::Integer(m.last_scanned_at)));
}

/// Every column takes what is stored in it, and only the columns of what may be missing take null.
pub proof fn law_capability_backlog_columns_take_its_rows(m: V3CapabilityBacklog, i: int)
    requires
        0 <= i < m.row().len(),
    ensures
        capability_backlog_columns()[i].decl.takes(m.row()[i].1),
        capability_backlog_columns()[i].decl.takes(Val::Null) <==> i == 2 || i == 3 || i == 4 || i == 7,
{
    let row = m.row();
    let columns = capability_backlog_columns();
    assert(columns[0].decl.takes(row[0].1) && columns[1].decl.takes(row[1].1) && columns[2].decl.takes(row[2].1));
    assert(columns[3].decl.takes(row[3].1) && columns[4].decl.takes(row[4].1) && columns[5].decl.takes(row[5].1));
    assert(columns[6].decl.takes(row[6].1) && columns[7].decl.takes(row[7].1) && columns[8].decl.takes(row[8].1));
}

/// Every column takes what is stored in it, and only the columns of what may be missing take null.
pub proof fn law_source_db_catalog_columns_take_its_rows(m: V3SourceDbCatalog, i: int)
    requires
        0 <= i < m.row().len(),
    ensures
        source_db_catalog_columns()[i].decl.takes(m.row()[i].1),
        source_db_catalog_columns()[i].decl.takes(Val::Null) <==> i == 2,
{
    let row = m.row();
    let columns = source_db_catalog_columns();
    assert(columns[0].decl.takes(row[0].1) && columns[1].decl.takes(row[1].1) && columns[2].decl.takes(row[2].1));
    assert(columns[3].decl.takes(row[3].1) && columns[4].decl.takes(row[4].1) && columns[5].decl.takes(row[5].1));
    assert(columns[6].decl.takes(row[6].1));
}

/// Every column takes what is stored in it, and only the columns of what may be missing take null.
pub proof fn law_source_chat_index_columns_take_its_rows(m: V3SourceChatIndex, i: int)
    requires
        0 <= i < m.row().len(),
    ensures
        source_chat_index_columns()[i].decl.takes(m.row()[i].1),
        source_chat_index_columns()[i].decl.takes(Val::Null) <==> i == 3 || i == 4,
{
    let row = m.row();
    let columns = source_chat_index_columns();
    assert(columns[0].decl.takes(row[0].1) && columns[1].decl.takes(row[1].1) && columns[2].decl.takes(row[2].1));
    assert(columns[3].decl.takes(row[3].1) && columns[4].decl.takes(row[4].1));
}

/// Every column takes what is stored in it, and only the columns of what may be missing take null.
pub proof fn law_source_chat_to_db_columns_take_its_rows(m: V3SourceChatToDb, i: int)
    requires
        0 <= i < m.row().len(),
    ensures
        source_chat_to_db_columns()[i].decl.takes(m.row()[i].1),
        source_chat_to_db_columns()[i].decl.takes(Val::Null) <==> i == 4 || i == 5,
{
    let row = m.row();
    let columns = source_chat_to_db_columns();
    assert(columns[0].decl.takes(row[0].1) && columns[1].decl.takes(row[1].1) && columns[2].decl.takes(row[2].1));
    assert(columns[3].decl.takes(row[3].1) && columns[4].decl.takes(row[4].1) && columns[5].decl.takes(row[5].1));
}

/// Every column takes what is stored in it, and only the columns of what may be missing take null.
pub proof fn law_source_db_timerange_columns_take_its_rows(m: V3SourceDbTimerange, i: int)
    requires
        0 <= i < m.row().len(),
    ensures
        source_db_timerange_columns()[i].decl.takes(m.row()[i].1),
        source_db_timerange_columns()[i].decl.takes(Val::Null) <==> i == 2 || i == 3,
{
    let row = m.row();
    let columns = source_db_timerange_columns();
    assert(columns[0].decl.takes(row[0].1) && columns[1].decl.takes(row[1].1) && columns[2].decl.takes(row[2].1));
    assert(columns[3].decl.takes(row[3].1));
}

/// Every column takes what is stored in it, and only the columns of what may be missing take null.
pub proof fn law_source_query_plan_columns_take_its_rows(m: V3SourceQueryPlan, i: int)
    requires
        0 <= i < m.row().len(),
    ensures
        source_query_plans_columns()[i].decl.takes(m.row()[i].1),
        source_query_plans_columns()[i].decl.takes(Val::Null) <==> i == 3,
{
    let row = m.row();
    let columns = source_query_plans_columns();
    assert(columns[0].decl.takes(row[0].1) && columns[1].decl.takes(row[1].1) && columns[2].decl.takes(row[2].1));
    assert(columns[3].decl.takes(row[3].1) && columns[4].decl.takes(row[4].1) && columns[5].decl.takes(row[5].1));
}

/// The table `capability_backlog` is made first, and then an index for each of the ways in which its rows are
/// looked up.
pub proof fn law_capability_backlog_lookups_have_indexes(steps: Vec<Step>)
    requires
        call_ensures(init_capability_backlog_table, (), steps),
    ensures
        steps@[0] == Step::Create(Table::CapabilityBacklog),
        Table::CapabilityBacklog.name_text() == "capability_backlog"@,
        crate::plan::has_index(
            steps@,
            "idx_backlog_status"@,
            "capability_backlog"@,
            "status"@,
        ),
        crate::plan::has_index(
            steps@,
            "idx_backlog_milestone"@,
            "capability_backlog"@,
            "target_milestone"@,
        ),
{
    assert(steps@[1] is Index);
    assert(steps@[2] is Index);
}

/// The table `source_db_catalog` is made first, and then an index for each of the ways in which its rows are
/// looked up.
pub proof fn law_source_db_catalog_lookups_have_indexes(steps: Vec<Step>)
    requires
        call_ensures(init_source_db_catalog_table, (), steps),
    ensures
        steps@[0] == Step::Create(Table::SourceDbCatalog),
        Table::SourceDbCatalog.name_text() == "source_db_catalog"@,
        crate::plan::has_index(
            steps@,
            "idx_db_catalog_kind"@,
            "source_db_catalog"@,
            "account_id_sha, db_kind"@,
        ),
{
    assert(steps@[1] is Index);
}

/// The table `source_chat_index` is made first, and then an index for each of the ways in which its rows are
/// looked up.
pub proof fn law_source_chat_index_lookups_have_indexes(steps: Vec<Step>)
    requires
        call_ensures(init_source_chat_index_table, (), steps),
    ensures
        steps@[0] == Step::Create(Table::SourceChatIndex),
        Table::SourceChatIndex.name_text() == "source_chat_index"@,
        crate::plan::has_index(
            steps@,
            "idx_chat_index_db"@,
            "source_chat_index"@,
            "account_id_sha, db_path_sha"@,
        ),
{
    assert(steps@[1] is Index);
}

/// The table `source_query_plans` is made first, and then an index for each of the ways in which its rows are
/// looked up.
pub proof fn law_source_query_plans_lookups_have_indexes(steps: Vec<Step>)
    requires
        call_ensures(init_source_query_plans_table, (), steps),
    ensures
        steps@[0] == Step::Create(Table::SourceQueryPlans),
        Table::SourceQueryPlans.name_text() == "source_query_plans"@,
        crate::plan::has_index(
            steps@,
            "idx_query_plans_lru"@,
            "source_query_plans"@,
            "account_id_sha, last_used_at DESC"@,
        ),
{
    assert(steps@[1] is Index);
}

/// The table `raw_payload_archive` is made first, and then an index for each of the ways in which its rows are
/// looked up.
pub proof fn law_archive_lookups_have_indexes(steps: Vec<Step>)
    requires
        call_ensures(init_archive_table, (), steps),
    ensures
        steps@[0] == Step::Create(Table::RawPayloadArchive),
        Table::RawPayloadArchive.name_text() == "raw_payload_archive"@,
        crate::plan::has_index(
            steps@,
            "idx_archive_account_ingest"@,
            "raw_payload_archive"@,
            "account_id_sha, ingest_time DESC"@,
        ),
        crate::plan::has_index(
            steps@,
            "idx_archive_event_type"@,
            "raw_payload_archive"@,
            "event_type, event_action"@,
        ),
{
    assert(steps@[1] is Index);
    assert(steps@[2] is Index);
}

} // verus!
