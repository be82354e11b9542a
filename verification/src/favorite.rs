//! Favourites with their media and tags, and custom stickers.

use vstd::prelude::*;
use vstd::string::*;

use crate::index::Index;
use crate::plan::{delete_group, Step};
use crate::redact::{copy_text, count_if_any, DebugRow, Shown};
use crate::schema::{add_missing, Column, Decl};
use crate::sql::{Effect, Row, RowBuilder, Statement, Val};
use crate::tables::Table;

verus! {

/// A favourite.
#[derive(Clone, PartialEq, Eq)]
pub struct V3Favorite {
    pub account_id_sha: String,
    pub source: String,
    pub source_native_id: String,
    pub server_id: i64,
    pub local_id: i64,
    pub fav_type: i64,
    pub update_time: i64,
    pub from_user_sha: String,
    pub account_id: String,
    pub from_user: String,
    pub real_chat_name: Option<String>,
    pub source_id: Option<String>,
    pub content_len: i64,
    pub note_text: Option<String>,
}

impl V3Favorite {
    /// The row that it is stored as.
    pub open spec fn row(self) -> Row {
        seq![
            ("account_id_sha"@, Val::Text(self.account_id_sha@)),
            ("source"@, Val::Text(self.source@)),
            ("source_native_id"@, Val::Text(self.source_native_id@)),
            ("server_id"@, Val::Integer(self.server_id as int)),
            ("local_id"@, Val::Integer(self.local_id as int)),
            ("fav_type"@, Val::Integer(self.fav_type as int)),
            ("update_time"@, Val::Integer(self.update_time as int)),
            ("from_user_sha"@, Val::Text(self.from_user_sha@)),
            ("account_id"@, Val::Text(self.account_id@)),
            ("from_user"@, Val::Text(self.from_user@)),
            ("real_chat_name"@, crate::sql::nullable_text(self.real_chat_name)),
            ("source_id"@, crate::sql::nullable_text(self.source_id)),
            ("content_len"@, Val::Integer(self.content_len as int)),
            ("note_text"@, crate::sql::nullable_text(self.note_text)),
        ]
    }

    /// How its fields are shown in a log.
    pub open spec fn shown(self) -> Seq<(&'static str, Shown)> {
        seq![
            ("account_id_sha", Shown::Text(self.account_id_sha)),
            ("source", Shown::Text(self.source)),
            ("source_native_id", Shown::Text(self.source_native_id)),
            ("server_id", Shown::Integer(self.server_id)),
            ("local_id", Shown::Integer(self.local_id)),
            ("fav_type", Shown::Integer(self.fav_type)),
            ("update_time", Shown::Integer(self.update_time)),
            ("from_user_sha", Shown::Text(self.from_user_sha)),
            ("account_id_sha8", Shown::Digest(self.account_id)),
            ("from_user_sha8", Shown::Digest(self.from_user)),
            ("real_chat_name_sha8", Shown::NullableDigest(self.real_chat_name)),
            ("source_id", Shown::NullableText(self.source_id)),
            ("content_len", Shown::Integer(self.content_len)),
            ("note_text_len", Shown::NullableCount(crate::redact::chars_if_any(self.note_text))),
        ]
    }

    /// What it shows of itself in a log.
    pub fn debug_row(&self) -> (row: DebugRow)
        ensures
            row.name@ == "V3Favorite"@,
            row.fields@ == self.shown(),
            row.complete == false,
    {
        let mut fields: Vec<(&'static str, Shown)> = Vec::new();
        fields.push(("account_id_sha", Shown::Text(self.account_id_sha.clone())));
        fields.push(("source", Shown::Text(self.source.clone())));
        fields.push(("source_native_id", Shown::Text(self.source_native_id.clone())));
        fields.push(("server_id", Shown::Integer(self.server_id)));
        fields.push(("local_id", Shown::Integer(self.local_id)));
        fields.push(("fav_type", Shown::Integer(self.fav_type)));
        fields.push(("update_time", Shown::Integer(self.update_time)));
        fields.push(("from_user_sha", Shown::Text(self.from_user_sha.clone())));
        fields.push(("account_id_sha8", Shown::Digest(self.account_id.clone())));
        fields.push(("from_user_sha8", Shown::Digest(self.from_user.clone())));
        fields.push(("real_chat_name_sha8", Shown::NullableDigest(copy_text(&self.real_chat_name))));
        fields.push(("source_id", Shown::NullableText(copy_text(&self.source_id))));
        fields.push(("content_len", Shown::Integer(self.content_len)));
        fields.push(("note_text_len", Shown::NullableCount(count_if_any(&self.note_text))));
        assert(fields@ =~= self.shown());
        DebugRow { name: "V3Favorite", fields, complete: false }
    }
}

/// The columns of the table `favorite`.
pub open spec fn favorite_columns() -> Seq<Column> {
    seq![
        Column { name: "account_id_sha", decl: Decl::TextNotNull },
        Column { name: "source", decl: Decl::TextNotNull },
        Column { name: "source_native_id", decl: Decl::TextNotNull },
        Column { name: "server_id", decl: Decl::IntegerNotNull },
        Column { name: "local_id", decl: Decl::IntegerNotNull },
        Column { name: "fav_type", decl: Decl::IntegerNotNull },
        Column { name: "update_time", decl: Decl::IntegerNotNull },
        Column { name: "from_user_sha", decl: Decl::TextNotNull },
        Column { name: "account_id", decl: Decl::TextNotNull },
        Column { name: "from_user", decl: Decl::TextNotNull },
        Column { name: "real_chat_name", decl: Decl::Text },
        Column { name: "source_id", decl: Decl::Text },
        Column { name: "content_len", decl: Decl::IntegerNotNull },
        Column { name: "note_text", decl: Decl::Text },
    ]
}

/// The columns of the table `favorite`.
pub fn favorite_table() -> (columns: Vec<Column>)
    ensures
        columns@ == favorite_columns(),
{
    let mut columns: Vec<Column> = Vec::new();
    columns.push(Column { name: "account_id_sha", decl: Decl::TextNotNull });
    columns.push(Column { name: "source", decl: Decl::TextNotNull });
    columns.push(Column { name: "source_native_id", decl: Decl::TextNotNull });
    columns.push(Column { name: "server_id", decl: Decl::IntegerNotNull });
    columns.push(Column { name: "local_id", decl: Decl::IntegerNotNull });
    columns.push(Column { name: "fav_type", decl: Decl::IntegerNotNull });
    columns.push(Column { name: "update_time", decl: Decl::IntegerNotNull });
    columns.push(Column { name: "from_user_sha", decl: Decl::TextNotNull });
    columns.push(Column { name: "account_id", decl: Decl::TextNotNull });
    columns.push(Column { name: "from_user", decl: Decl::TextNotNull });
    columns.push(Column { name: "real_chat_name", decl: Decl::Text });
    columns.push(Column { name: "source_id", decl: Decl::Text });
    columns.push(Column { name: "content_len", decl: Decl::IntegerNotNull });
    columns.push(Column { name: "note_text", decl: Decl::Text });
    assert(columns@ =~= favorite_columns());
    columns
}

/// The columns that came to the table `favorite` later.
pub open spec fn favorite_later_columns() -> Seq<Column> {
    seq![
        Column { name: "note_text", decl: Decl::Text },
    ]
}

/// The statements that add to the table `favorite` the later columns that it lacks.
pub fn ensure_favorite_columns(existing: &Vec<String>) -> (statements: Vec<Statement>)
    ensures
        crate::schema::adds(
            statements@,
            "favorite"@,
            crate::schema::missing(favorite_later_columns(), crate::sql::strings(existing@)),
        ),
{
    let mut later: Vec<Column> = Vec::new();
    later.push(Column { name: "note_text", decl: Decl::Text });
    assert(later@ =~= favorite_later_columns());
    add_missing("favorite", &later, existing)
}

/// Every later column of the table `favorite` is one of its columns, and the rows that are
/// there when it is added have a value for it.
pub proof fn law_favorite_later_columns_belong(i: int)
    requires
        0 <= i < favorite_later_columns().len(),
    ensures
        crate::schema::column_names(favorite_columns()).contains(favorite_later_columns()[i].name@),
        favorite_later_columns()[i].decl.fills_old_rows(),
{
    let all = crate::schema::column_names(favorite_columns());
    assert(all[13] == "note_text"@);
}

/// The columns by which the table `favorite` tells its rows apart.
pub open spec fn favorite_key() -> Seq<Seq<char>> {
    seq!["account_id_sha"@, "source"@, "source_native_id"@]
}

/// A row fills the table: it has a value for every column, and for no other.
pub proof fn law_favorite_row_fills_the_table(row: V3Favorite)
    ensures
        crate::sql::names(row.row()) == crate::schema::column_names(favorite_columns()),
{
    assert(crate::sql::names(row.row()) =~= crate::schema::column_names(favorite_columns()));
}

/// Two rows of the table `favorite` have the same key exactly where they agree in its fields.
pub proof fn law_favorite_key_tells_rows_apart(a: V3Favorite, b: V3Favorite)
    ensures
        crate::relation::same_key(a.row(), b.row(), favorite_key()) <==> {
            &&& a.account_id_sha@ == b.account_id_sha@
            &&& a.source@ == b.source@
            &&& a.source_native_id@ == b.source_native_id@
        },
{
    reveal_strlit("account_id_sha");
    reveal_strlit("source");
    reveal_strlit("source_native_id");
    let (x, y) = (a.row(), b.row());
    assert("account_id_sha"@.len() != "source"@.len());
    assert("account_id_sha"@.len() != "source_native_id"@.len());
    assert("source"@.len() != "source_native_id"@.len());
    let at: Seq<int> = seq![0int, 1, 2];
    crate::relation::lemma_same_key(x, y, favorite_key(), at);
    assert(at[0] == 0);
    assert(at[1] == 1);
    assert(at[2] == 2);
}

/// The steps that make the table `favorite`.
pub open spec fn favorite_steps() -> Seq<Step> {
    seq![
        Step::Create(Table::Favorite),
        Step::Index(
            Index {
                name: "idx_favorite_type",
                table: "favorite",
                columns: "account_id_sha, fav_type",
            },
        ),
        Step::Index(
            Index {
                name: "idx_favorite_update_time",
                table: "favorite",
                columns: "account_id_sha, update_time DESC",
            },
        ),
        Step::Index(
            Index {
                name: "idx_favorite_from_user",
                table: "favorite",
                columns: "account_id_sha, from_user_sha",
            },
        ),
        Step::Ensure(Table::Favorite),
    ]
}

/// The steps that make the table `favorite`.
pub fn init_favorite_table() -> (steps: Vec<Step>)
    ensures
        steps@ == favorite_steps(),
{
    let mut steps: Vec<Step> = Vec::new();
    steps.push(Step::Create(Table::Favorite));
    steps.push(Step::Index(
        Index {
            name: "idx_favorite_type",
            table: "favorite",
            columns: "account_id_sha, fav_type",
        },
    ));
    steps.push(Step::Index(
        Index {
            name: "idx_favorite_update_time",
            table: "favorite",
            columns: "account_id_sha, update_time DESC",
        },
    ));
    steps.push(Step::Index(
        Index {
            name: "idx_favorite_from_user",
            table: "favorite",
            columns: "account_id_sha, from_user_sha",
        },
    ));
    steps.push(Step::Ensure(Table::Favorite));
    assert(steps@ =~= favorite_steps());
    steps
}

/// The statement that stores a row of the table `favorite`, in place of the row with the same
/// key.
pub fn insert_favorite(fav: &V3Favorite) -> (statement: Statement)
    ensures
        statement.does(Effect::Replace { table: "favorite"@, row: fav.row() }),
{
    let mut row = RowBuilder::new();
    row.text("account_id_sha", fav.account_id_sha.as_str());
    row.text("source", fav.source.as_str());
    row.text("source_native_id", fav.source_native_id.as_str());
    row.integer("server_id", fav.server_id);
    row.integer("local_id", fav.local_id);
    row.integer("fav_type", fav.fav_type);
    row.integer("update_time", fav.update_time);
    row.text("from_user_sha", fav.from_user_sha.as_str());
    row.text("account_id", fav.account_id.as_str());
    row.text("from_user", fav.from_user.as_str());
    row.nullable_text("real_chat_name", &fav.real_chat_name);
    row.nullable_text("source_id", &fav.source_id);
    row.integer("content_len", fav.content_len);
    row.nullable_text("note_text", &fav.note_text);
    assert(row@ =~= fav.row());
    row.replace_into("favorite")
}

/// A medium of a favourite. A favourite has one row for each of them.
#[derive(Clone, PartialEq, Eq)]
pub struct V3FavoriteMedia {
    pub account_id_sha: String,
    pub source: String,
    pub source_native_id: String,
    pub seq: i64,
    pub fav_server_id: i64,
    pub account_id: String,
    pub data_type: i64,
    pub media_md5: String,
    pub media_size: i64,
    pub data_fmt: Option<String>,
}

impl V3FavoriteMedia {
    /// The row that it is stored as.
    pub open spec fn row(self) -> Row {
        seq![
            ("account_id_sha"@, Val::Text(self.account_id_sha@)),
            ("source"@, Val::Text(self.source@)),
            ("source_native_id"@, Val::Text(self.source_native_id@)),
            ("seq"@, Val::Integer(self.seq as int)),
            ("fav_server_id"@, Val::Integer(self.fav_server_id as int)),
            ("account_id"@, Val::Text(self.account_id@)),
            ("data_type"@, Val::Integer(self.data_type as int)),
            ("media_md5"@, Val::Text(self.media_md5@)),
            ("media_size"@, Val::Integer(self.media_size as int)),
            ("data_fmt"@, crate::sql::nullable_text(self.data_fmt)),
        ]
    }

    /// How its fields are shown in a log.
    pub open spec fn shown(self) -> Seq<(&'static str, Shown)> {
        seq![
            ("account_id_sha", Shown::Text(self.account_id_sha)),
            ("source_native_id", Shown::Text(self.source_native_id)),
            ("seq", Shown::Integer(self.seq)),
            ("fav_server_id", Shown::Integer(self.fav_server_id)),
            ("account_id_sha8", Shown::Digest(self.account_id)),
            ("data_type", Shown::Integer(self.data_type)),
            ("media_md5", Shown::Text(self.media_md5)),
            ("media_size", Shown::Integer(self.media_size)),
            ("data_fmt", Shown::NullableText(self.data_fmt)),
        ]
    }

    /// What it shows of itself in a log.
    pub fn debug_row(&self) -> (row: DebugRow)
        ensures
            row.name@ == "V3FavoriteMedia"@,
            row.fields@ == self.shown(),
            row.complete == false,
    {
        let mut fields: Vec<(&'static str, Shown)> = Vec::new();
        fields.push(("account_id_sha", Shown::Text(self.account_id_sha.clone())));
        fields.push(("source_native_id", Shown::Text(self.source_native_id.clone())));
        fields.push(("seq", Shown::Integer(self.seq)));
        fields.push(("fav_server_id", Shown::Integer(self.fav_server_id)));
        fields.push(("account_id_sha8", Shown::Digest(self.account_id.clone())));
        fields.push(("data_type", Shown::Integer(self.data_type)));
        fields.push(("media_md5", Shown::Text(self.media_md5.clone())));
        fields.push(("media_size", Shown::Integer(self.media_size)));
        fields.push(("data_fmt", Shown::NullableText(copy_text(&self.data_fmt))));
        assert(fields@ =~= self.shown());
        DebugRow { name: "V3FavoriteMedia", fields, complete: false }
    }
}

/// The columns of the table `favorite_media`.
pub open spec fn favorite_media_columns() -> Seq<Column> {
    seq![
        Column { name: "account_id_sha", decl: Decl::TextNotNull },
        Column { name: "source", decl: Decl::TextNotNull },
        Column { name: "source_native_id", decl: Decl::TextNotNull },
        Column { name: "seq", decl: Decl::IntegerNotNull },
        Column { name: "fav_server_id", decl: Decl::IntegerNotNull },
        Column { name: "account_id", decl: Decl::TextNotNull },
        Column { name: "data_type", decl: Decl::IntegerNotNull },
        Column { name: "media_md5", decl: Decl::TextNotNull },
        Column { name: "media_size", decl: Decl::IntegerNotNull },
        Column { name: "data_fmt", decl: Decl::Text },
    ]
}

/// The columns of the table `favorite_media`.
pub fn favorite_media_table() -> (columns: Vec<Column>)
    ensures
        columns@ == favorite_media_columns(),
{
    let mut columns: Vec<Column> = Vec::new();
    columns.push(Column { name: "account_id_sha", decl: Decl::TextNotNull });
    columns.push(Column { name: "source", decl: Decl::TextNotNull });
    columns.push(Column { name: "source_native_id", decl: Decl::TextNotNull });
    columns.push(Column { name: "seq", decl: Decl::IntegerNotNull });
    columns.push(Column { name: "fav_server_id", decl: Decl::IntegerNotNull });
    columns.push(Column { name: "account_id", decl: Decl::TextNotNull });
    columns.push(Column { name: "data_type", decl: Decl::IntegerNotNull });
    columns.push(Column { name: "media_md5", decl: Decl::TextNotNull });
    columns.push(Column { name: "media_size", decl: Decl::IntegerNotNull });
    columns.push(Column { name: "data_fmt", decl: Decl::Text });
    assert(columns@ =~= favorite_media_columns());
    columns
}

/// The columns by which the table `favorite_media` tells its rows apart.
pub open spec fn favorite_media_key() -> Seq<Seq<char>> {
    seq!["account_id_sha"@, "source"@, "source_native_id"@, "seq"@]
}

/// A row fills the table: it has a value for every column, and for no other.
pub proof fn law_favorite_media_row_fills_the_table(row: V3FavoriteMedia)
    ensures
        crate::sql::names(row.row()) == crate::schema::column_names(favorite_media_columns()),
{
    assert(crate::sql::names(row.row()) =~= crate::schema::column_names(favorite_media_columns()));
}

/// Two rows of the table `favorite_media` have the same key exactly where they agree in its fields.
pub proof fn law_favorite_media_key_tells_rows_apart(a: V3FavoriteMedia, b: V3FavoriteMedia)
    ensures
        crate::relation::same_key(a.row(), b.row(), favorite_media_key()) <==> {
            &&& a.account_id_sha@ == b.account_id_sha@
            &&& a.source@ == b.source@
            &&& a.source_native_id@ == b.source_native_id@
            &&& a.seq == b.seq
        },
{
    reveal_strlit("account_id_sha");
    reveal_strlit("source");
    reveal_strlit("source_native_id");
    reveal_strlit("seq");
    let (x, y) = (a.row(), b.row());
    assert("account_id_sha"@.len() != "source"@.len());
    assert("account_id_sha"@.len() != "source_native_id"@.len());
    assert("source"@.len() != "source_native_id"@.len());
    assert("account_id_sha"@.len() != "seq"@.len());
    assert("source"@.len() != "seq"@.len());
    assert("source_native_id"@.len() != "seq"@.len());
    let at: Seq<int> = seq![0int, 1, 2, 3];
    crate::relation::lemma_same_key(x, y, favorite_media_key(), at);
    assert(at[0] == 0);
    assert(at[1] == 1);
    assert(at[2] == 2);
    assert(at[3] == 3);
}

/// The steps that make the table `favorite_media`.
pub open spec fn favorite_media_steps() -> Seq<Step> {
    seq![
        Step::Create(Table::FavoriteMedia),
        Step::Index(
            Index {
                name: "idx_favorite_media_md5",
                table: "favorite_media",
                columns: "account_id_sha, media_md5",
            },
        ),
    ]
}

/// The steps that make the table `favorite_media`.
pub fn init_favorite_media_table() -> (steps: Vec<Step>)
    ensures
        steps@ == favorite_media_steps(),
{
    let mut steps: Vec<Step> = Vec::new();
    steps.push(Step::Create(Table::FavoriteMedia));
    steps.push(Step::Index(
        Index {
            name: "idx_favorite_media_md5",
            table: "favorite_media",
            columns: "account_id_sha, media_md5",
        },
    ));
    assert(steps@ =~= favorite_media_steps());
    steps
}

/// The statement that stores a row of the table `favorite_media`, in place of the row with the same
/// key.
pub fn insert_favorite_media(m: &V3FavoriteMedia) -> (statement: Statement)
    ensures
        statement.does(Effect::Replace { table: "favorite_media"@, row: m.row() }),
{
    let mut row = RowBuilder::new();
    row.text("account_id_sha", m.account_id_sha.as_str());
    row.text("source", m.source.as_str());
    row.text("source_native_id", m.source_native_id.as_str());
    row.integer("seq", m.seq);
    row.integer("fav_server_id", m.fav_server_id);
    row.text("account_id", m.account_id.as_str());
    row.integer("data_type", m.data_type);
    row.text("media_md5", m.media_md5.as_str());
    row.integer("media_size", m.media_size);
    row.nullable_text("data_fmt", &m.data_fmt);
    assert(row@ =~= m.row());
    row.replace_into("favorite_media")
}

/// The statement that takes out all rows of the table `favorite_media` that belong to one
/// favourite.
pub fn delete_favorite_media(account_id_sha: &str, source: &str, source_native_id: &str) -> (statement: Statement)
    ensures
        statement.does(
            Effect::Delete {
                table: "favorite_media"@,
                tests: crate::plan::belonging_to(
                    account_id_sha@,
                    source@,
                    "source_native_id"@,
                    source_native_id@,
                ),
            },
        ),
{
    delete_group("favorite_media", account_id_sha, source, "source_native_id", source_native_id)
}

/// A tag on a favourite.
#[derive(Clone, PartialEq, Eq)]
pub struct V3FavoriteTag {
    pub account_id_sha: String,
    pub source: String,
    pub source_native_id: String,
    pub tag_server_id: i64,
    pub tag_local_id: i64,
    pub seq: i64,
    pub fav_server_id: i64,
    pub fav_local_id: i64,
    pub op_code: i64,
    pub tag_name_len: i64,
    pub account_id: String,
    pub tag_name: String,
}

impl V3FavoriteTag {
    /// The row that it is stored as.
    pub open spec fn row(self) -> Row {
        seq![
            ("account_id_sha"@, Val::Text(self.account_id_sha@)),
            ("source"@, Val::Text(self.source@)),
            ("source_native_id"@, Val::Text(self.source_native_id@)),
            ("tag_server_id"@, Val::Integer(self.tag_server_id as int)),
            ("tag_local_id"@, Val::Integer(self.tag_local_id as int)),
            ("seq"@, Val::Integer(self.seq as int)),
            ("fav_server_id"@, Val::Integer(self.fav_server_id as int)),
            ("fav_local_id"@, Val::Integer(self.fav_local_id as int)),
            ("op_code"@, Val::Integer(self.op_code as int)),
            ("tag_name_len"@, Val::Integer(self.tag_name_len as int)),
            ("account_id"@, Val::Text(self.account_id@)),
            ("tag_name"@, Val::Text(self.tag_name@)),
        ]
    }

    /// How its fields are shown in a log.
    pub open spec fn shown(self) -> Seq<(&'static str, Shown)> {
        seq![
            ("account_id_sha", Shown::Text(self.account_id_sha)),
            ("source", Shown::Text(self.source)),
            ("source_native_id", Shown::Text(self.source_native_id)),
            ("tag_server_id", Shown::Integer(self.tag_server_id)),
            ("tag_local_id", Shown::Integer(self.tag_local_id)),
            ("seq", Shown::Integer(self.seq)),
            ("fav_server_id", Shown::Integer(self.fav_server_id)),
            ("fav_local_id", Shown::Integer(self.fav_local_id)),
            ("op_code", Shown::Integer(self.op_code)),
            ("tag_name_len", Shown::Integer(self.tag_name_len)),
            ("account_id_sha8", Shown::Digest(self.account_id)),
            ("tag_name_sha8", Shown::Digest(self.tag_name)),
        ]
    }

    /// What it shows of itself in a log.
    pub fn debug_row(&self) -> (row: DebugRow)
        ensures
            row.name@ == "V3FavoriteTag"@,
            row.fields@ == self.shown(),
            row.complete == false,
    {
        let mut fields: Vec<(&'static str, Shown)> = Vec::new();
        fields.push(("account_id_sha", Shown::Text(self.account_id_sha.clone())));
        fields.push(("source", Shown::Text(self.source.clone())));
        fields.push(("source_native_id", Shown::Text(self.source_native_id.clone())));
        fields.push(("tag_server_id", Shown::Integer(self.tag_server_id)));
        fields.push(("tag_local_id", Shown::Integer(self.tag_local_id)));
        fields.push(("seq", Shown::Integer(self.seq)));
        fields.push(("fav_server_id", Shown::Integer(self.fav_server_id)));
        fields.push(("fav_local_id", Shown::Integer(self.fav_local_id)));
        fields.push(("op_code", Shown::Integer(self.op_code)));
        fields.push(("tag_name_len", Shown::Integer(self.tag_name_len)));
        fields.push(("account_id_sha8", Shown::Digest(self.account_id.clone())));
        fields.push(("tag_name_sha8", Shown::Digest(self.tag_name.clone())));
        assert(fields@ =~= self.shown());
        DebugRow { name: "V3FavoriteTag", fields, complete: false }
    }
}

/// The columns of the table `favorite_tag`.
pub open spec fn favorite_tag_columns() -> Seq<Column> {
    seq![
        Column { name: "account_id_sha", decl: Decl::TextNotNull },
        Column { name: "source", decl: Decl::TextNotNull },
        Column { name: "source_native_id", decl: Decl::TextNotNull },
        Column { name: "tag_server_id", decl: Decl::IntegerNotNull },
        Column { name: "tag_local_id", decl: Decl::IntegerNotNull },
        Column { name: "seq", decl: Decl::IntegerNotNull },
        Column { name: "fav_server_id", decl: Decl::IntegerNotNull },
        Column { name: "fav_local_id", decl: Decl::IntegerNotNull },
        Column { name: "op_code", decl: Decl::IntegerNotNull },
        Column { name: "tag_name_len", decl: Decl::IntegerNotNull },
        Column { name: "account_id", decl: Decl::TextNotNull },
        Column { name: "tag_name", decl: Decl::TextNotNull },
    ]
}

/// The columns of the table `favorite_tag`.
pub fn favorite_tag_table() -> (columns: Vec<Column>)
    ensures
        columns@ == favorite_tag_columns(),
{
    let mut columns: Vec<Column> = Vec::new();
    columns.push(Column { name: "account_id_sha", decl: Decl::TextNotNull });
    columns.push(Column { name: "source", decl: Decl::TextNotNull });
    columns.push(Column { name: "source_native_id", decl: Decl::TextNotNull });
    columns.push(Column { name: "tag_server_id", decl: Decl::IntegerNotNull });
    columns.push(Column { name: "tag_local_id", decl: Decl::IntegerNotNull });
    columns.push(Column { name: "seq", decl: Decl::IntegerNotNull });
    columns.push(Column { name: "fav_server_id", decl: Decl::IntegerNotNull });
    columns.push(Column { name: "fav_local_id", decl: Decl::IntegerNotNull });
    columns.push(Column { name: "op_code", decl: Decl::IntegerNotNull });
    columns.push(Column { name: "tag_name_len", decl: Decl::IntegerNotNull });
    columns.push(Column { name: "account_id", decl: Decl::TextNotNull });
    columns.push(Column { name: "tag_name", decl: Decl::TextNotNull });
    assert(columns@ =~= favorite_tag_columns());
    columns
}

/// The columns by which the table `favorite_tag` tells its rows apart.
pub open spec fn favorite_tag_key() -> Seq<Seq<char>> {
    seq!["account_id_sha"@, "source"@, "source_native_id"@]
}

/// A row fills the table: it has a value for every column, and for no other.
pub proof fn law_favorite_tag_row_fills_the_table(row: V3FavoriteTag)
    ensures
        crate::sql::names(row.row()) == crate::schema::column_names(favorite_tag_columns()),
{
    assert(crate::sql::names(row.row()) =~= crate::schema::column_names(favorite_tag_columns()));
}

/// Two rows of the table `favorite_tag` have the same key exactly where they agree in its fields.
pub proof fn law_favorite_tag_key_tells_rows_apart(a: V3FavoriteTag, b: V3FavoriteTag)
    ensures
        crate::relation::same_key(a.row(), b.row(), favorite_tag_key()) <==> {
            &&& a.account_id_sha@ == b.account_id_sha@
            &&& a.source@ == b.source@
            &&& a.source_native_id@ == b.source_native_id@
        },
{
    reveal_strlit("account_id_sha");
    reveal_strlit("source");
    reveal_strlit("source_native_id");
    let (x, y) = (a.row(), b.row());
    assert("account_id_sha"@.len() != "source"@.len());
    assert("account_id_sha"@.len() != "source_native_id"@.len());
    assert("source"@.len() != "source_native_id"@.len());
    let at: Seq<int> = seq![0int, 1, 2];
    crate::relation::lemma_same_key(x, y, favorite_tag_key(), at);
    assert(at[0] == 0);
    assert(at[1] == 1);
    assert(at[2] == 2);
}

/// The steps that make the table `favorite_tag`.
pub open spec fn favorite_tag_steps() -> Seq<Step> {
    seq![
        Step::Create(Table::FavoriteTag),
        Step::Index(
            Index {
                name: "idx_favorite_tag_fav",
                table: "favorite_tag",
                columns: "account_id_sha, fav_server_id",
            },
        ),
        Step::Index(
            Index {
                name: "idx_favorite_tag_tag",
                table: "favorite_tag",
                columns: "account_id_sha, tag_server_id",
            },
        ),
    ]
}

/// The steps that make the table `favorite_tag`.
pub fn init_favorite_tag_table() -> (steps: Vec<Step>)
    ensures
        steps@ == favorite_tag_steps(),
{
    let mut steps: Vec<Step> = Vec::new();
    steps.push(Step::Create(Table::FavoriteTag));
    steps.push(Step::Index(
        Index {
            name: "idx_favorite_tag_fav",
            table: "favorite_tag",
            columns: "account_id_sha, fav_server_id",
        },
    ));
    steps.push(Step::Index(
        Index {
            name: "idx_favorite_tag_tag",
            table: "favorite_tag",
            columns: "account_id_sha, tag_server_id",
        },
    ));
    assert(steps@ =~= favorite_tag_steps());
    steps
}

/// The statement that stores a row of the table `favorite_tag`, in place of the row with the same
/// key.
pub fn insert_favorite_tag(t: &V3FavoriteTag) -> (statement: Statement)
    ensures
        statement.does(Effect::Replace { table: "favorite_tag"@, row: t.row() }),
{
    let mut row = RowBuilder::new();
    row.text("account_id_sha", t.account_id_sha.as_str());
    row.text("source", t.source.as_str());
    row.text("source_native_id", t.source_native_id.as_str());
    row.integer("tag_server_id", t.tag_server_id);
    row.integer("tag_local_id", t.tag_local_id);
    row.integer("seq", t.seq);
    row.integer("fav_server_id", t.fav_server_id);
    row.integer("fav_local_id", t.fav_local_id);
    row.integer("op_code", t.op_code);
    row.integer("tag_name_len", t.tag_name_len);
    row.text("account_id", t.account_id.as_str());
    row.text("tag_name", t.tag_name.as_str());
    assert(row@ =~= t.row());
    row.replace_into("favorite_tag")
}

/// A custom sticker.
#[derive(Clone, PartialEq, Eq)]
pub struct V3CustomEmoticon {
    pub account_id_sha: String,
    pub source: String,
    pub source_native_id: String,
    pub md5: String,
    pub emoticon_type: i64,
    pub caption: String,
    pub account_id: String,
    pub product_id: String,
    pub aes_key: String,
    pub cdn_url: String,
    pub thumb_url: String,
    pub tp_url: String,
    pub extern_url: String,
    pub extern_md5: String,
    pub encrypt_url: String,
}

impl V3CustomEmoticon {
    /// The row that it is stored as.
    pub open spec fn row(self) -> Row {
        seq![
            ("account_id_sha"@, Val::Text(self.account_id_sha@)),
            ("source"@, Val::Text(self.source@)),
            ("source_native_id"@, Val::Text(self.source_native_id@)),
            ("md5"@, Val::Text(self.md5@)),
            ("emoticon_type"@, Val::Integer(self.emoticon_type as int)),
            ("caption"@, Val::Text(self.caption@)),
            ("account_id"@, Val::Text(self.account_id@)),
            ("product_id"@, Val::Text(self.product_id@)),
            ("aes_key"@, Val::Text(self.aes_key@)),
            ("cdn_url"@, Val::Text(self.cdn_url@)),
            ("thumb_url"@, Val::Text(self.thumb_url@)),
            ("tp_url"@, Val::Text(self.tp_url@)),
            ("extern_url"@, Val::Text(self.extern_url@)),
            ("extern_md5"@, Val::Text(self.extern_md5@)),
            ("encrypt_url"@, Val::Text(self.encrypt_url@)),
        ]
    }

    /// How its fields are shown in a log.
    pub open spec fn shown(self) -> Seq<(&'static str, Shown)> {
        seq![
            ("account_id_sha", Shown::Text(self.account_id_sha)),
            ("source", Shown::Text(self.source)),
            ("source_native_id", Shown::Text(self.source_native_id)),
            ("md5", Shown::Text(self.md5)),
            ("emoticon_type", Shown::Integer(self.emoticon_type)),
            ("caption", Shown::Text(self.caption)),
            ("account_id_sha8", Shown::Digest(self.account_id)),
            ("product_id", Shown::Text(self.product_id)),
            ("aes_key_sha8", Shown::Digest(self.aes_key)),
            ("cdn_url_len", Shown::Count(self.cdn_url@.len() as usize)),
            ("thumb_url_len", Shown::Count(self.thumb_url@.len() as usize)),
            ("extern_md5", Shown::Text(self.extern_md5)),
            ("encrypt_url_len", Shown::Count(self.encrypt_url@.len() as usize)),
        ]
    }

    /// What it shows of itself in a log.
    pub fn debug_row(&self) -> (row: DebugRow)
        ensures
            row.name@ == "V3CustomEmoticon"@,
            row.fields@ == self.shown(),
            row.complete == false,
    {
        let mut fields: Vec<(&'static str, Shown)> = Vec::new();
        fields.push(("account_id_sha", Shown::Text(self.account_id_sha.clone())));
        fields.push(("source", Shown::Text(self.source.clone())));
        fields.push(("source_native_id", Shown::Text(self.source_native_id.clone())));
        fields.push(("md5", Shown::Text(self.md5.clone())));
        fields.push(("emoticon_type", Shown::Integer(self.emoticon_type)));
        fields.push(("caption", Shown::Text(self.caption.clone())));
        fields.push(("account_id_sha8", Shown::Digest(self.account_id.clone())));
        fields.push(("product_id", Shown::Text(self.product_id.clone())));
        fields.push(("aes_key_sha8", Shown::Digest(self.aes_key.clone())));
        fields.push(("cdn_url_len", Shown::Count(self.cdn_url.as_str().unicode_len())));
        fields.push(("thumb_url_len", Shown::Count(self.thumb_url.as_str().unicode_len())));
        fields.push(("extern_md5", Shown::Text(self.extern_md5.clone())));
        fields.push(("encrypt_url_len", Shown::Count(self.encrypt_url.as_str().unicode_len())));
        assert(fields@ =~= self.shown());
        DebugRow { name: "V3CustomEmoticon", fields, complete: false }
    }
}

/// The columns of the table `custom_emoticon`.
pub open spec fn custom_emoticon_columns() -> Seq<Column> {
    seq![
        Column { name: "account_id_sha", decl: Decl::TextNotNull },
        Column { name: "source", decl: Decl::TextNotNull },
        Column { name: "source_native_id", decl: Decl::TextNotNull },
        Column { name: "md5", decl: Decl::TextNotNull },
        Column { name: "emoticon_type", decl: Decl::IntegerNotNull },
        Column { name: "caption", decl: Decl::TextNotNull },
        Column { name: "account_id", decl: Decl::TextNotNull },
        Column { name: "product_id", decl: Decl::TextNotNull },
        Column { name: "aes_key", decl: Decl::TextNotNull },
        Column { name: "cdn_url", decl: Decl::TextNotNull },
        Column { name: "thumb_url", decl: Decl::TextNotNull },
        Column { name: "tp_url", decl: Decl::TextNotNull },
        Column { name: "extern_url", decl: Decl::TextNotNull },
        Column { name: "extern_md5", decl: Decl::TextNotNull },
        Column { name: "encrypt_url", decl: Decl::TextNotNull },
    ]
}

/// The columns of the table `custom_emoticon`.
pub fn custom_emoticon_table() -> (columns: Vec<Column>)
    ensures
        columns@ == custom_emoticon_columns(),
{
    let mut columns: Vec<Column> = Vec::new();
    columns.push(Column { name: "account_id_sha", decl: Decl::TextNotNull });
    columns.push(Column { name: "source", decl: Decl::TextNotNull });
    columns.push(Column { name: "source_native_id", decl: Decl::TextNotNull });
    columns.push(Column { name: "md5", decl: Decl::TextNotNull });
    columns.push(Column { name: "emoticon_type", decl: Decl::IntegerNotNull });
    columns.push(Column { name: "caption", decl: Decl::TextNotNull });
    columns.push(Column { name: "account_id", decl: Decl::TextNotNull });
    columns.push(Column { name: "product_id", decl: Decl::TextNotNull });
    columns.push(Column { name: "aes_key", decl: Decl::TextNotNull });
    columns.push(Column { name: "cdn_url", decl: Decl::TextNotNull });
    columns.push(Column { name: "thumb_url", decl: Decl::TextNotNull });
    columns.push(Column { name: "tp_url", decl: Decl::TextNotNull });
    columns.push(Column { name: "extern_url", decl: Decl::TextNotNull });
    columns.push(Column { name: "extern_md5", decl: Decl::TextNotNull });
    columns.push(Column { name: "encrypt_url", decl: Decl::TextNotNull });
    assert(columns@ =~= custom_emoticon_columns());
    columns
}

/// The columns by which the table `custom_emoticon` tells its rows apart.
pub open spec fn custom_emoticon_key() -> Seq<Seq<char>> {
    seq!["account_id_sha"@, "source"@, "source_native_id"@]
}

/// A row fills the table: it has a value for every column, and for no other.
pub proof fn law_custom_emoticon_row_fills_the_table(row: V3CustomEmoticon)
    ensures
        crate::sql::names(row.row()) == crate::schema::column_names(custom_emoticon_columns()),
{
    assert(crate::sql::names(row.row()) =~= crate::schema::column_names(custom_emoticon_columns()));
}

/// Two rows of the table `custom_emoticon` have the same key exactly where they agree in its fields.
pub proof fn law_custom_emoticon_key_tells_rows_apart(a: V3CustomEmoticon, b: V3CustomEmoticon)
    ensures
        crate::relation::same_key(a.row(), b.row(), custom_emoticon_key()) <==> {
            &&& a.account_id_sha@ == b.account_id_sha@
            &&& a.source@ == b.source@
            &&& a.source_native_id@ == b.source_native_id@
        },
{
    reveal_strlit("account_id_sha");
    reveal_strlit("source");
    reveal_strlit("source_native_id");
    let (x, y) = (a.row(), b.row());
    assert("account_id_sha"@.len() != "source"@.len());
    assert("account_id_sha"@.len() != "source_native_id"@.len());
    assert("source"@.len() != "source_native_id"@.len());
    let at: Seq<int> = seq![0int, 1, 2];
    crate::relation::lemma_same_key(x, y, custom_emoticon_key(), at);
    assert(at[0] == 0);
    assert(at[1] == 1);
    assert(at[2] == 2);
}

/// The steps that make the table `custom_emoticon`.
pub open spec fn custom_emoticon_steps() -> Seq<Step> {
    seq![
        Step::Create(Table::CustomEmoticon),
        Step::Index(
            Index {
                name: "idx_custom_emoticon_md5",
                table: "custom_emoticon",
                columns: "account_id_sha, md5",
            },
        ),
    ]
}

/// The steps that make the table `custom_emoticon`.
pub fn init_custom_emoticon_table() -> (steps: Vec<Step>)
    ensures
        steps@ == custom_emoticon_steps(),
{
    let mut steps: Vec<Step> = Vec::new();
    steps.push(Step::Create(Table::CustomEmoticon));
    steps.push(Step::Index(
        Index {
            name: "idx_custom_emoticon_md5",
            table: "custom_emoticon",
            columns: "account_id_sha, md5",
        },
    ));
    assert(steps@ =~= custom_emoticon_steps());
    steps
}

/// The statement that stores a row of the table `custom_emoticon`, in place of the row with the same
/// key.
pub fn insert_custom_emoticon(e: &V3CustomEmoticon) -> (statement: Statement)
    ensures
        statement.does(Effect::Replace { table: "custom_emoticon"@, row: e.row() }),
{
    let mut row = RowBuilder::new();
    row.text("account_id_sha", e.account_id_sha.as_str());
    row.text("source", e.source.as_str());
    row.text("source_native_id", e.source_native_id.as_str());
    row.text("md5", e.md5.as_str());
    row.integer("emoticon_type", e.emoticon_type);
    row.text("caption", e.caption.as_str());
    row.text("account_id", e.account_id.as_str());
    row.text("product_id", e.product_id.as_str());
    row.text("aes_key", e.aes_key.as_str());
    row.text("cdn_url", e.cdn_url.as_str());
    row.text("thumb_url", e.thumb_url.as_str());
    row.text("tp_url", e.tp_url.as_str());
    row.text("extern_url", e.extern_url.as_str());
    row.text("extern_md5", e.extern_md5.as_str());
    row.text("encrypt_url", e.encrypt_url.as_str());
    assert(row@ =~= e.row());
    row.replace_into("custom_emoticon")
}

/// Every field is stored under its own name: the row that `insert_favorite` puts in holds in each
/// column the field of that column.
pub proof fn law_favorite_fields_keep_their_names(m: &V3Favorite, statement: Statement)
    requires
        call_ensures(insert_favorite, (m,), statement),
    ensures
        statement.does(Effect::Replace { table: "favorite"@, row: m.row() }),
        m.row().len() == 14,
        crate::relation::column(m.row(), "account_id_sha"@) == Val::Text(m.account_id_sha@),
        crate::relation::column(m.row(), "source"@) == Val::Text(m.source@),
        crate::relation::column(m.row(), "source_native_id"@) == Val::Text(m.source_native_id@),
        crate::relation::column(m.row(), "server_id"@) == Val::Integer(m.server_id as int),
        crate::relation::column(m.row(), "local_id"@) == Val::Integer(m.local_id as int),
        crate::relation::column(m.row(), "fav_type"@) == Val::Integer(m.fav_type as int),
        crate::relation::column(m.row(), "update_time"@) == Val::Integer(m.update_time as int),
        crate::relation::column(m.row(), "from_user_sha"@) == Val::Text(m.from_user_sha@),
        crate::relation::column(m.row(), "account_id"@) == Val::Text(m.account_id@),
        crate::relation::column(m.row(), "from_user"@) == Val::Text(m.from_user@),
        crate::relation::column(m.row(), "real_chat_name"@) == (match m.real_chat_name { Some(t) => Val::Text(t@), None => Val::Null }),
        crate::relation::column(m.row(), "source_id"@) == (match m.source_id { Some(t) => Val::Text(t@), None => Val::Null }),
        crate::relation::column(m.row(), "content_len"@) == Val::Integer(m.content_len as int),
        crate::relation::column(m.row(), "note_text"@) == (match m.note_text { Some(t) => Val::Text(t@), None => Val::Null }),
{
    reveal_strlit("account_id_sha");
    reveal_strlit("source");
    reveal_strlit("source_native_id");
    reveal_strlit("server_id");
    reveal_strlit("local_id");
    reveal_strlit("fav_type");
    reveal_strlit("update_time");
    reveal_strlit("from_user_sha");
    reveal_strlit("account_id");
    reveal_strlit("from_user");
    reveal_strlit("real_chat_name");
    reveal_strlit("source_id");
    reveal_strlit("content_len");
    reveal_strlit("note_text");
    let row = m.row();
    assert(row[0].0.len() == 14 && row[1].0.len() == 6 && row[2].0.len() == 16);
    assert(row[3].0.len() == 9 && row[4].0.len() == 8 && row[5].0.len() == 8);
    assert(row[6].0.len() == 11 && row[7].0.len() == 13 && row[8].0.len() == 10);
    assert(row[9].0.len() == 9 && row[10].0.len() == 14 && row[11].0.len() == 9);
    assert(row[12].0.len() == 11 && row[13].0.len() == 9);
    assert(row[4].0[0] != row[5].0[0]);
    assert(row[3].0[0] != row[9].0[0]);
    assert(row[0].0[0] != row[10].0[0]);
    assert(row[3].0[1] != row[11].0[1]);
    assert(row[9].0[0] != row[11].0[0]);
    assert(row[6].0[0] != row[12].0[0]);
    assert(row[3].0[0] != row[13].0[0]);
    assert(row[9].0[0] != row[13].0[0]);
    assert(row[11].0[0] != row[13].0[0]);
    crate::relation::lemma_column_at(row, 0);
    crate::relation::lemma_column_at(row, 1);
    crate::relation::lemma_column_at(row, 2);
    crate::relation::lemma_column_at(row, 3);
    crate::relation::lemma_column_at(row, 4);
    crate::relation::lemma_column_at(row, 5);
    crate::relation::lemma_column_at(row, 6);
    crate::relation::lemma_column_at(row, 7);
    crate::relation::lemma_column_at(row, 8);
    crate::relation::lemma_column_at(row, 9);
    crate::relation::lemma_column_at(row, 10);
    crate::relation::lemma_column_at(row, 11);
    crate::relation::lemma_column_at(row, 12);
    crate::relation::lemma_column_at(row, 13);
}


/// Every field is stored under its own name: the row that `insert_favorite_media` puts in holds in each
/// column the field of that column.
pub proof fn law_favorite_media_fields_keep_their_names(m: &V3FavoriteMedia, statement: Statement)
    requires
        call_ensures(insert_favorite_media, (m,), statement),
    ensures
        statement.does(Effect::Replace { table: "favorite_media"@, row: m.row() }),
        m.row().len() == 10,
        crate::relation::column(m.row(), "account_id_sha"@) == Val::Text(m.account_id_sha@),
        crate::relation::column(m.row(), "source"@) == Val::Text(m.source@),
        crate::relation::column(m.row(), "source_native_id"@) == Val::Text(m.source_native_id@),
        crate::relation::column(m.row(), "seq"@) == Val::Integer(m.seq as int),
        crate::relation::column(m.row(), "fav_server_id"@) == Val::Integer(m.fav_server_id as int),
        crate::relation::column(m.row(), "account_id"@) == Val::Text(m.account_id@),
        crate::relation::column(m.row(), "data_type"@) == Val::Integer(m.data_type as int),
        crate::relation::column(m.row(), "media_md5"@) == Val::Text(m.media_md5@),
        crate::relation::column(m.row(), "media_size"@) == Val::Integer(m.media_size as int),
        crate::relation::column(m.row(), "data_fmt"@) == (match m.data_fmt { Some(t) => Val::Text(t@), None => Val::Null }),
{
    reveal_strlit("account_id_sha");
    reveal_strlit("source");
    reveal_strlit("source_native_id");
    reveal_strlit("seq");
    reveal_strlit("fav_server_id");
    reveal_strlit("account_id");
    reveal_strlit("data_type");
    reveal_strlit("media_md5");
    reveal_strlit("media_size");
    reveal_strlit("data_fmt");
    let row = m.row();
    assert(row[0].0.len() == 14 && row[1].0.len() == 6 && row[2].0.len() == 16);
    assert(row[3].0.len() == 3 && row[4].0.len() == 13 && row[5].0.len() == 10);
    assert(row[6].0.len() == 9 && row[7].0.len() == 9 && row[8].0.len() == 10);
    assert(row[9].0.len() == 8);
    assert(row[6].0[0] != row[7].0[0]);
    assert(row[5].0[0] != row[8].0[0]);
    crate::relation::lemma_column_at(row, 0);
    crate::relation::lemma_column_at(row, 1);
    crate::relation::lemma_column_at(row, 2);
    crate::relation::lemma_column_at(row, 3);
    crate::relation::lemma_column_at(row, 4);
    crate::relation::lemma_column_at(row, 5);
    crate::relation::lemma_column_at(row, 6);
    crate::relation::lemma_column_at(row, 7);
    crate::relation::lemma_column_at(row, 8);
    crate::relation::lemma_column_at(row, 9);
}


/// Every field is stored under its own name: the row that `insert_favorite_tag` puts in holds in each
/// column the field of that column.
pub proof fn law_favorite_tag_fields_keep_their_names(m: &V3FavoriteTag, statement: Statement)
    requires
        call_ensures(insert_favorite_tag, (m,), statement),
    ensures
        statement.does(Effect::Replace { table: "favorite_tag"@, row: m.row() }),
        m.row().len() == 12,
        crate::relation::column(m.row(), "account_id_sha"@) == Val::Text(m.account_id_sha@),
        crate::relation::column(m.row(), "source"@) == Val::Text(m.source@),
        crate::relation::column(m.row(), "source_native_id"@) == Val::Text(m.source_native_id@),
        crate::relation::column(m.row(), "tag_server_id"@) == Val::Integer(m.tag_server_id as int),
        crate::relation::column(m.row(), "tag_local_id"@) == Val::Integer(m.tag_local_id as int),
        crate::relation::column(m.row(), "seq"@) == Val::Integer(m.seq as int),
        crate::relation::column(m.row(), "fav_server_id"@) == Val::Integer(m.fav_server_id as int),
        crate::relation::column(m.row(), "fav_local_id"@) == Val::Integer(m.fav_local_id as int),
        crate::relation::column(m.row(), "op_code"@) == Val::Integer(m.op_code as int),
        crate::relation::column(m.row(), "tag_name_len"@) == Val::Integer(m.tag_name_len as int),
        crate::relation::column(m.row(), "account_id"@) == Val::Text(m.account_id@),
        crate::relation::column(m.row(), "tag_name"@) == Val::Text(m.tag_name@),
{
    reveal_strlit("account_id_sha");
    reveal_strlit("source");
    reveal_strlit("source_native_id");
    reveal_strlit("tag_server_id");
    reveal_strlit("tag_local_id");
    reveal_strlit("seq");
    reveal_strlit("fav_server_id");
    reveal_strlit("fav_local_id");
    reveal_strlit("op_code");
    reveal_strlit("tag_name_len");
    reveal_strlit("account_id");
    reveal_strlit("tag_name");
    let row = m.row();
    assert(row[0].0.len() == 14 && row[1].0.len() == 6 && row[2].0.len() == 16);
    assert(row[3].0.len() == 13 && row[4].0.len() == 12 && row[5].0.len() == 3);
    assert(row[6].0.len() == 13 && row[7].0.len() == 12 && row[8].0.len() == 7);
    assert(row[9].0.len() == 12 && row[10].0.len() == 10 && row[11].0.len() == 8);
    assert(row[3].0[0] != row[6].0[0]);
    assert(row[4].0[0] != row[7].0[0]);
    assert(row[4].0[4] != row[9].0[4]);
    assert(row[7].0[0] != row[9].0[0]);
    crate::relation::lemma_column_at(row, 0);
    crate::relation::lemma_column_at(row, 1);
    crate::relation::lemma_column_at(row, 2);
    crate::relation::lemma_column_at(row, 3);
    crate::relation::lemma_column_at(row, 4);
    crate::relation::lemma_column_at(row, 5);
    crate::relation::lemma_column_at(row, 6);
    crate::relation::lemma_column_at(row, 7);
    crate::relation::lemma_column_at(row, 8);
    crate::relation::lemma_column_at(row, 9);
    crate::relation::lemma_column_at(row, 10);
    crate::relation::lemma_column_at(row, 11);
}


/// Every field is stored under its own name: the row that `insert_custom_emoticon` puts in holds in each
/// column the field of that column.
pub proof fn law_custom_emoticon_fields_keep_their_names(m: &V3CustomEmoticon, statement: Statement)
    requires
        call_ensures(insert_custom_emoticon, (m,), statement),
    ensures
        statement.does(Effect::Replace { table: "custom_emoticon"@, row: m.row() }),
        m.row().len() == 15,
        crate::relation::column(m.row(), "account_id_sha"@) == Val::Text(m.account_id_sha@),
        crate::relation::column(m.row(), "source"@) == Val::Text(m.source@),
        crate::relation::column(m.row(), "source_native_id"@) == Val::Text(m.source_native_id@),
        crate::relation::column(m.row(), "md5"@) == Val::Text(m.md5@),
        crate::relation::column(m.row(), "emoticon_type"@) == Val::Integer(m.emoticon_type as int),
        crate::relation::column(m.row(), "caption"@) == Val::Text(m.caption@),
        crate::relation::column(m.row(), "account_id"@) == Val::Text(m.account_id@),
        crate::relation::column(m.row(), "product_id"@) == Val::Text(m.product_id@),
        crate::relation::column(m.row(), "aes_key"@) == Val::Text(m.aes_key@),
        crate::relation::column(m.row(), "cdn_url"@) == Val::Text(m.cdn_url@),
        crate::relation::column(m.row(), "thumb_url"@) == Val::Text(m.thumb_url@),
        crate::relation::column(m.row(), "tp_url"@) == Val::Text(m.tp_url@),
        crate::relation::column(m.row(), "extern_url"@) == Val::Text(m.extern_url@),
        crate::relation::column(m.row(), "extern_md5"@) == Val::Text(m.extern_md5@),
        crate::relation::column(m.row(), "encrypt_url"@) == Val::Text(m.encrypt_url@),
{
    reveal_strlit("account_id_sha");
    reveal_strlit("source");
    reveal_strlit("source_native_id");
    reveal_strlit("md5");
    reveal_strlit("emoticon_type");
    reveal_strlit("caption");
    reveal_strlit("account_id");
    reveal_strlit("product_id");
    reveal_strlit("aes_key");
    reveal_strlit("cdn_url");
    reveal_strlit("thumb_url");
    reveal_strlit("tp_url");
    reveal_strlit("extern_url");
    reveal_strlit("extern_md5");
    reveal_strlit("encrypt_url");
    let row = m.row();
    assert(row[0].0.len() == 14 && row[1].0.len() == 6 && row[2].0.len() == 16);
    assert(row[3].0.len() == 3 && row[4].0.len() == 13 && row[5].0.len() == 7);
    assert(row[6].0.len() == 10 && row[7].0.len() == 10 && row[8].0.len() == 7);
    assert(row[9].0.len() == 7 && row[10].0.len() == 9 && row[11].0.len() == 6);
    assert(row[12].0.len() == 10 && row[13].0.len() == 10 && row[14].0.len() == 11);
    assert(row[6].0[0] != row[7].0[0]);
    assert(row[5].0[0] != row[8].0[0]);
    assert(row[5].0[1] != row[9].0[1]);
    assert(row[8].0[0] != row[9].0[0]);
    assert(row[1].0[0] != row[11].0[0]);
    assert(row[6].0[0] != row[12].0[0]);
    assert(row[7].0[0] != row[12].0[0]);
    assert(row[6].0[0] != row[13].0[0]);
    assert(row[7].0[0] != row[13].0[0]);
    assert(row[12].0[7] != row[13].0[7]);
    crate::relation::lemma_column_at(row, 0);
    crate::relation::lemma_column_at(row, 1);
    crate::relation::lemma_column_at(row, 2);
    crate::relation::lemma_column_at(row, 3);
    crate::relation::lemma_column_at(row, 4);
    crate::relation::lemma_column_at(row, 5);
    crate::relation::lemma_column_at(row, 6);
    crate::relation::lemma_column_at(row, 7);
    crate::relation::lemma_column_at(row, 8);
    crate::relation::lemma_column_at(row, 9);
    crate::relation::lemma_column_at(row, 10);
    crate::relation::lemma_column_at(row, 11);
    crate::relation::lemma_column_at(row, 12);
    crate::relation::lemma_column_at(row, 13);
    crate::relation::lemma_column_at(row, 14);
}


/// What a log shows of `V3Favorite`: each of these fields under its name, in the form that is said
/// here, and nothing else. What is not shown as it is stays hidden.
pub proof fn law_favorite_shows_only_these_fields(m: &V3Favorite, row: DebugRow)
    requires
        call_ensures(V3Favorite::debug_row, (m,), row),
    ensures
        row.name@ == "V3Favorite"@,
        row.complete == false,
        row.fields@.len() == 14,
        row.fields@.contains(("account_id_sha", Shown::Text(m.account_id_sha))),
        row.fields@.contains(("source", Shown::Text(m.source))),
        row.fields@.contains(("source_native_id", Shown::Text(m.source_native_id))),
        row.fields@.contains(("server_id", Shown::Integer(m.server_id))),
        row.fields@.contains(("local_id", Shown::Integer(m.local_id))),
        row.fields@.contains(("fav_type", Shown::Integer(m.fav_type))),
        row.fields@.contains(("update_time", Shown::Integer(m.update_time))),
        row.fields@.contains(("from_user_sha", Shown::Text(m.from_user_sha))),
        row.fields@.contains(("account_id_sha8", Shown::Digest(m.account_id))),
        row.fields@.contains(("from_user_sha8", Shown::Digest(m.from_user))),
        row.fields@.contains(("real_chat_name_sha8", Shown::NullableDigest(m.real_chat_name))),
        row.fields@.contains(("source_id", Shown::NullableText(m.source_id))),
        row.fields@.contains(("content_len", Shown::Integer(m.content_len))),
        row.fields@.contains(("note_text_len", Shown::NullableCount((match m.note_text { Some(t) => Some(t@.len() as usize), None => None })))),
{
    let fields = row.fields@;
    assert(fields[0] == ("account_id_sha", Shown::Text(m.account_id_sha)));
    assert(fields[1] == ("source", Shown::Text(m.source)));
    assert(fields[2] == ("source_native_id", Shown::Text(m.source_native_id)));
    assert(fields[3] == ("server_id", Shown::Integer(m.server_id)));
    assert(fields[4] == ("local_id", Shown::Integer(m.local_id)));
    assert(fields[5] == ("fav_type", Shown::Integer(m.fav_type)));
    assert(fields[6] == ("update_time", Shown::Integer(m.update_time)));
    assert(fields[7] == ("from_user_sha", Shown::Text(m.from_user_sha)));
    assert(fields[8] == ("account_id_sha8", Shown::Digest(m.account_id)));
    assert(fields[9] == ("from_user_sha8", Shown::Digest(m.from_user)));
    assert(fields[10] == ("real_chat_name_sha8", Shown::NullableDigest(m.real_chat_name)));
    assert(fields[11] == ("source_id", Shown::NullableText(m.source_id)));
    assert(fields[12] == ("content_len", Shown::Integer(m.content_len)));
    assert(fields[13] == ("note_text_len", Shown::NullableCount((match m.note_text { Some(t) => Some(t@.len() as usize), None => None }))));
}

/// What a log shows of `V3FavoriteMedia`: each of these fields under its name, in the form that is said
/// here, and nothing else. What is not shown as it is stays hidden.
pub proof fn law_favorite_media_shows_only_these_fields(m: &V3FavoriteMedia, row: DebugRow)
    requires
        call_ensures(V3FavoriteMedia::debug_row, (m,), row),
    ensures
        row.name@ == "V3FavoriteMedia"@,
        row.complete == false,
        row.fields@.len() == 9,
        row.fields@.contains(("account_id_sha", Shown::Text(m.account_id_sha))),
        row.fields@.contains(("source_native_id", Shown::Text(m.source_native_id))),
        row.fields@.contains(("seq", Shown::Integer(m.seq))),
        row.fields@.contains(("fav_server_id", Shown::Integer(m.fav_server_id))),
        row.fields@.contains(("account_id_sha8", Shown::Digest(m.account_id))),
        row.fields@.contains(("data_type", Shown::Integer(m.data_type))),
        row.fields@.contains(("media_md5", Shown::Text(m.media_md5))),
        row.fields@.contains(("media_size", Shown::Integer(m.media_size))),
        row.fields@.contains(("data_fmt", Shown::NullableText(m.data_fmt))),
{
    let fields = row.fields@;
    assert(fields[0] == ("account_id_sha", Shown::Text(m.account_id_sha)));
    assert(fields[1] == ("source_native_id", Shown::Text(m.source_native_id)));
    assert(fields[2] == ("seq", Shown::Integer(m.seq)));
    assert(fields[3] == ("fav_server_id", Shown::Integer(m.fav_server_id)));
    assert(fields[4] == ("account_id_sha8", Shown::Digest(m.account_id)));
    assert(fields[5] == ("data_type", Shown::Integer(m.data_type)));
    assert(fields[6] == ("media_md5", Shown::Text(m.media_md5)));
    assert(fields[7] == ("media_size", Shown::Integer(m.media_size)));
    assert(fields[8] == ("data_fmt", Shown::NullableText(m.data_fmt)));
}

/// What a log shows of `V3FavoriteTag`: each of these fields under its name, in the form that is said
/// here, and nothing else. What is not shown as it is stays hidden.
pub proof fn law_favorite_tag_shows_only_these_fields(m: &V3FavoriteTag, row: DebugRow)
    requires
        call_ensures(V3FavoriteTag::debug_row, (m,), row),
    ensures
        row.name@ == "V3FavoriteTag"@,
        row.complete == false,
        row.fields@.len() == 12,
        row.fields@.contains(("account_id_sha", Shown::Text(m.account_id_sha))),
        row.fields@.contains(("source", Shown::Text(m.source))),
        row.fields@.contains(("source_native_id", Shown::Text(m.source_native_id))),
        row.fields@.contains(("tag_server_id", Shown::Integer(m.tag_server_id))),
        row.fields@.contains(("tag_local_id", Shown::Integer(m.tag_local_id))),
        row.fields@.contains(("seq", Shown::Integer(m.seq))),
        row.fields@.contains(("fav_server_id", Shown::Integer(m.fav_server_id))),
        row.fields@.contains(("fav_local_id", Shown::Integer(m.fav_local_id))),
        row.fields@.contains(("op_code", Shown::Integer(m.op_code))),
        row.fields@.contains(("tag_name_len", Shown::Integer(m.tag_name_len))),
        row.fields@.contains(("account_id_sha8", Shown::Digest(m.account_id))),
        row.fields@.contains(("tag_name_sha8", Shown::Digest(m.tag_name))),
{
    let fields = row.fields@;
    assert(fields[0] == ("account_id_sha", Shown::Text(m.account_id_sha)));
    assert(fields[1] == ("source", Shown::Text(m.source)));
    assert(fields[2] == ("source_native_id", Shown::Text(m.source_native_id)));
    assert(fields[3] == ("tag_server_id", Shown::Integer(m.tag_server_id)));
    assert(fields[4] == ("tag_local_id", Shown::Integer(m.tag_local_id)));
    assert(fields[5] == ("seq", Shown::Integer(m.seq)));
    assert(fields[6] == ("fav_server_id", Shown::Integer(m.fav_server_id)));
    assert(fields[7] == ("fav_local_id", Shown::Integer(m.fav_local_id)));
    assert(fields[8] == ("op_code", Shown::Integer(m.op_code)));
    assert(fields[9] == ("tag_name_len", Shown::Integer(m.tag_name_len)));
    assert(fields[10] == ("account_id_sha8", Shown::Digest(m.account_id)));
    assert(fields[11] == ("tag_name_sha8", Shown::Digest(m.tag_name)));
}

/// What a log shows of `V3CustomEmoticon`: each of these fields under its name, in the form that is said
/// here, and nothing else. What is not shown as it is stays hidden.
pub proof fn law_custom_emoticon_shows_only_these_fields(m: &V3CustomEmoticon, row: DebugRow)
    requires
        call_ensures(V3CustomEmoticon::debug_row, (m,), row),
    ensures
        row.name@ == "V3CustomEmoticon"@,
        row.complete == false,
        row.fields@.len() == 13,
        row.fields@.contains(("account_id_sha", Shown::Text(m.account_id_sha))),
        row.fields@.contains(("source", Shown::Text(m.source))),
        row.fields@.contains(("source_native_id", Shown::Text(m.source_native_id))),
        row.fields@.contains(("md5", Shown::Text(m.md5))),
        row.fields@.contains(("emoticon_type", Shown::Integer(m.emoticon_type))),
        row.fields@.contains(("caption", Shown::Text(m.caption))),
        row.fields@.contains(("account_id_sha8", Shown::Digest(m.account_id))),
        row.fields@.contains(("product_id", Shown::Text(m.product_id))),
        row.fields@.contains(("aes_key_sha8", Shown::Digest(m.aes_key))),
        row.fields@.contains(("cdn_url_len", Shown::Count(m.cdn_url@.len() as usize))),
        row.fields@.contains(("thumb_url_len", Shown::Count(m.thumb_url@.len() as usize))),
        row.fields@.contains(("extern_md5", Shown::Text(m.extern_md5))),
        row.fields@.contains(("encrypt_url_len", Shown::Count(m.encrypt_url@.len() as usize))),
{
    let fields = row.fields@;
    assert(fields[0] == ("account_id_sha", Shown::Text(m.account_id_sha)));
    assert(fields[1] == ("source", Shown::Text(m.source)));
    assert(fields[2] == ("source_native_id", Shown::Text(m.source_native_id)));
    assert(fields[3] == ("md5", Shown::Text(m.md5)));
    assert(fields[4] == ("emoticon_type", Shown::Integer(m.emoticon_type)));
    assert(fields[5] == ("caption", Shown::Text(m.caption)));
    assert(fields[6] == ("account_id_sha8", Shown::Digest(m.account_id)));
    assert(fields[7] == ("product_id", Shown::Text(m.product_id)));
    assert(fields[8] == ("aes_key_sha8", Shown::Digest(m.aes_key)));
    assert(fields[9] == ("cdn_url_len", Shown::Count(m.cdn_url@.len() as usize)));
    assert(fields[10] == ("thumb_url_len", Shown::Count(m.thumb_url@.len() as usize)));
    assert(fields[11] == ("extern_md5", Shown::Text(m.extern_md5)));
    assert(fields[12] == ("encrypt_url_len", Shown::Count(m.encrypt_url@.len() as usize)));
}

/// `delete_favorite_media` takes out exactly the rows of the thing that it is given: those with its account,
/// its source and its name.
pub proof fn law_delete_favorite_media_takes_exactly_its_rows(
    account_id_sha: &str,
    source: &str,
    id: &str,
    statement: Statement,
)
    requires
        call_ensures(delete_favorite_media, (account_id_sha, source, id), statement),
    ensures
        exists|tests: Seq<crate::sql::Test>|
            {
                &&& #[trigger] statement.does(Effect::Delete { table: "favorite_media"@, tests })
                &&& forall|m: V3FavoriteMedia| #[trigger]
                    crate::relation::passes_all(m.row(), tests) <==> {
                        &&& m.account_id_sha@ == account_id_sha@
                        &&& m.source@ == source@
                        &&& m.source_native_id@ == id@
                    }
            },
{
    reveal_strlit("account_id_sha");
    reveal_strlit("source");
    reveal_strlit("source_native_id");
    let tests = crate::plan::belonging_to(account_id_sha@, source@, "source_native_id"@, id@);
    assert forall|m: V3FavoriteMedia| #[trigger] crate::relation::passes_all(m.row(), tests) <==> {
        &&& m.account_id_sha@ == account_id_sha@
        &&& m.source@ == source@
        &&& m.source_native_id@ == id@
    } by {
        let row = m.row();
        assert(row[0].0.len() == 14 && row[1].0.len() == 6 && row[2].0.len() == 16);
        crate::relation::lemma_column_at(row, 0);
        crate::relation::lemma_column_at(row, 1);
        crate::relation::lemma_column_at(row, 2);
        crate::plan::law_group_is_the_rows_of_one_thing(
            row,
            account_id_sha@,
            source@,
            "source_native_id"@,
            id@,
        );
    }
    assert(statement.does(Effect::Delete { table: "favorite_media"@, tests }));
}

/// Every column takes what is stored in it, and only the columns of what may be missing take null.
pub proof fn law_favorite_columns_take_its_rows(m: V3Favorite, i: int)
    requires
        0 <= i < m.row().len(),
    ensures
        favorite_columns()[i].decl.takes(m.row()[i].1),
        favorite_columns()[i].decl.takes(Val::Null) <==> i == 10 || i == 11 || i == 13,
{
    let row = m.row();
    let columns = favorite_columns();
    assert(columns[0].decl.takes(row[0].1) && columns[1].decl.takes(row[1].1) && columns[2].decl.takes(row[2].1));
    assert(columns[3].decl.takes(row[3].1) && columns[4].decl.takes(row[4].1) && columns[5].decl.takes(row[5].1));
    assert(columns[6].decl.takes(row[6].1) && columns[7].decl.takes(row[7].1) && columns[8].decl.takes(row[8].1));
    assert(columns[9].decl.takes(row[9].1) && columns[10].decl.takes(row[10].1) && columns[11].decl.takes(row[11].1));
    assert(columns[12].decl.takes(row[12].1) && columns[13].decl.takes(row[13].1));
}

/// Every column takes what is stored in it, and only the columns of what may be missing take null.
pub proof fn law_favorite_media_columns_take_its_rows(m: V3FavoriteMedia, i: int)
    requires
        0 <= i < m.row().len(),
    ensures
        favorite_media_columns()[i].decl.takes(m.row()[i].1),
        favorite_media_columns()[i].decl.takes(Val::Null) <==> i == 9,
{
    let row = m.row();
    let columns = favorite_media_columns();
    assert(columns[0].decl.takes(row[0].1) && columns[1].decl.takes(row[1].1) && columns[2].decl.takes(row[2].1));
    assert(columns[3].decl.takes(row[3].1) && columns[4].decl.takes(row[4].1) && columns[5].decl.takes(row[5].1));
    assert(columns[6].decl.takes(row[6].1) && columns[7].decl.takes(row[7].1) && columns[8].decl.takes(row[8].1));
    assert(columns[9].decl.takes(row[9].1));
}

/// Every column takes what is stored in it, and none takes null.
pub proof fn law_favorite_tag_columns_take_its_rows(m: V3FavoriteTag, i: int)
    requires
        0 <= i < m.row().len(),
    ensures
        favorite_tag_columns()[i].decl.takes(m.row()[i].1),
        !favorite_tag_columns()[i].decl.takes(Val::Null),
{
    let row = m.row();
    let columns = favorite_tag_columns();
    assert(columns[0].decl.takes(row[0].1) && columns[1].decl.takes(row[1].1) && columns[2].decl.takes(row[2].1));
    assert(columns[3].decl.takes(row[3].1) && columns[4].decl.takes(row[4].1) && columns[5].decl.takes(row[5].1));
    assert(columns[6].decl.takes(row[6].1) && columns[7].decl.takes(row[7].1) && columns[8].decl.takes(row[8].1));
    assert(columns[9].decl.takes(row[9].1) && columns[10].decl.takes(row[10].1) && columns[11].decl.takes(row[11].1));
}

/// Every column takes what is stored in it, and none takes null.
pub proof fn law_custom_emoticon_columns_take_its_rows(m: V3CustomEmoticon, i: int)
    requires
        0 <= i < m.row().len(),
    ensures
        custom_emoticon_columns()[i].decl.takes(m.row()[i].1),
        !custom_emoticon_columns()[i].decl.takes(Val::Null),
{
    let row = m.row();
    let columns = custom_emoticon_columns();
    assert(columns[0].decl.takes(row[0].1) && columns[1].decl.takes(row[1].1) && columns[2].decl.takes(row[2].1));
    assert(columns[3].decl.takes(row[3].1) && columns[4].decl.takes(row[4].1) && columns[5].decl.takes(row[5].1));
    assert(columns[6].decl.takes(row[6].1) && columns[7].decl.takes(row[7].1) && columns[8].decl.takes(row[8].1));
    assert(columns[9].decl.takes(row[9].1) && columns[10].decl.takes(row[10].1) && columns[11].decl.takes(row[11].1));
    assert(columns[12].decl.takes(row[12].1) && columns[13].decl.takes(row[13].1) && columns[14].decl.takes(row[14].1));
}

/// What the rows of an old `favorite` table hold in the columns that are added to it, by name; and
/// each of these columns takes it, as the table of today declares it.
pub proof fn law_old_favorite_rows_are_filled(i: int)
    requires
        0 <= i < favorite_later_columns().len(),
    ensures
        favorite_later_columns().len() == 1,
        crate::schema::filled(favorite_later_columns()).contains(("note_text"@, Val::Null)),
        exists|j: int|
            0 <= j < favorite_columns().len() && (#[trigger] favorite_columns()[j]).name@
                == favorite_later_columns()[i].name@ && favorite_columns()[j].decl.takes(
                favorite_later_columns()[i].decl.value_in_old_rows(),
            ),
{
    let later = favorite_later_columns();
    let columns = favorite_columns();
    let filled = crate::schema::filled(later);
    assert(filled[0] == ("note_text"@, Val::Null));
    assert(columns[13].name@ == later[0].name@ && columns[13].decl.takes(later[0].decl.value_in_old_rows()));
}

/// The table `favorite` is made first, and then an index for each of the ways in which its rows are
/// looked up.
pub proof fn law_favorite_lookups_have_indexes(steps: Vec<Step>)
    requires
        call_ensures(init_favorite_table, (), steps),
    ensures
        steps@[0] == Step::Create(Table::Favorite),
        Table::Favorite.name_text() == "favorite"@,
        crate::plan::has_index(
            steps@,
            "idx_favorite_type"@,
            "favorite"@,
            "account_id_sha, fav_type"@,
        ),
        crate::plan::has_index(
            steps@,
            "idx_favorite_update_time"@,
            "favorite"@,
            "account_id_sha, update_time DESC"@,
        ),
        crate::plan::has_index(
            steps@,
            "idx_favorite_from_user"@,
            "favorite"@,
            "account_id_sha, from_user_sha"@,
        ),
{
    assert(steps@[1] is Index);
    assert(steps@[2] is Index);
    assert(steps@[3] is Index);
}

/// The table `favorite_media` is made first, and then an index for each of the ways in which its rows are
/// looked up.
pub proof fn law_favorite_media_lookups_have_indexes(steps: Vec<Step>)
    requires
        call_ensures(init_favorite_media_table, (), steps),
    ensures
        steps@[0] == Step::Create(Table::FavoriteMedia),
        Table::FavoriteMedia.name_text() == "favorite_media"@,
        crate::plan::has_index(
            steps@,
            "idx_favorite_media_md5"@,
            "favorite_media"@,
            "account_id_sha, media_md5"@,
        ),
{
    assert(steps@[1] is Index);
}

/// The table `favorite_tag` is made first, and then an index for each of the ways in which its rows are
/// looked up.
pub proof fn law_favorite_tag_lookups_have_indexes(steps: Vec<Step>)
    requires
        call_ensures(init_favorite_tag_table, (), steps),
    ensures
        steps@[0] == Step::Create(Table::FavoriteTag),
        Table::FavoriteTag.name_text() == "favorite_tag"@,
        crate::plan::has_index(
            steps@,
            "idx_favorite_tag_fav"@,
            "favorite_tag"@,
            "account_id_sha, fav_server_id"@,
        ),
        crate::plan::has_index(
            steps@,
            "idx_favorite_tag_tag"@,
            "favorite_tag"@,
            "account_id_sha, tag_server_id"@,
        ),
{
    assert(steps@[1] is Index);
    assert(steps@[2] is Index);
}

/// The table `custom_emoticon` is made first, and then an index for each of the ways in which its rows are
/// looked up.
pub proof fn law_custom_emoticon_lookups_have_indexes(steps: Vec<Step>)
    requires
        call_ensures(init_custom_emoticon_table, (), steps),
    ensures
        steps@[0] == Step::Create(Table::CustomEmoticon),
        Table::CustomEmoticon.name_text() == "custom_emoticon"@,
        crate::plan::has_index(
            steps@,
            "idx_custom_emoticon_md5"@,
            "custom_emoticon"@,
            "account_id_sha, md5"@,
        ),
{
    assert(steps@[1] is Index);
}

} // verus!
