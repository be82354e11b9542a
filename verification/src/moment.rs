//! Moments: posts with their media, the interactions with them, the feed, the
//! notifications, and visited video accounts.

use vstd::prelude::*;
use vstd::string::*;

use crate::index::Index;
use crate::plan::{delete_group, Step};
use crate::redact::{copy_text, count_if_any, DebugRow, Shown};
use crate::schema::{add_missing, Column, Decl};
use crate::sql::{Effect, Real, Row, RowBuilder, Statement, Val};
use crate::tables::Table;

verus! {

/// A post.
#[derive(Clone, PartialEq, Eq)]
pub struct V3Moment {
    pub account_id_sha: String,
    pub source: String,
    pub source_native_id: String,
    pub tid: i64,
    pub author_sha: String,
    pub create_time: i64,
    pub moment_type: i64,
    pub account_id: String,
    pub author: String,
    pub author_nickname: Option<String>,
    pub content_desc: String,
    pub content_desc_len: i64,
    pub source_user: Option<String>,
    pub location_label: Option<String>,
    pub latitude: Option<Real>,
    pub longitude: Option<Real>,
    pub title: Option<String>,
    pub link_url: Option<String>,
    pub media_count: i64,
    pub like_count: i64,
    pub comment_count: i64,
    pub source_nickname: Option<String>,
    pub is_bidirectional_fan: i64,
    pub is_rich_text: i64,
    pub public_user_name: Option<String>,
    pub app_name: Option<String>,
    pub content_len: i64,
}

impl V3Moment {
    /// The row that it is stored as.
    pub open spec fn row(self) -> Row {
        seq![
            ("account_id_sha"@, Val::Text(self.account_id_sha@)),
            ("source"@, Val::Text(self.source@)),
            ("source_native_id"@, Val::Text(self.source_native_id@)),
            ("tid"@, Val::Integer(self.tid as int)),
            ("author_sha"@, Val::Text(self.author_sha@)),
            ("create_time"@, Val::Integer(self.create_time as int)),
            ("moment_type"@, Val::Integer(self.moment_type as int)),
            ("account_id"@, Val::Text(self.account_id@)),
            ("author"@, Val::Text(self.author@)),
            ("author_nickname"@, crate::sql::nullable_text(self.author_nickname)),
            ("content_desc"@, Val::Text(self.content_desc@)),
            ("content_desc_len"@, Val::Integer(self.content_desc_len as int)),
            ("source_user"@, crate::sql::nullable_text(self.source_user)),
            ("location_label"@, crate::sql::nullable_text(self.location_label)),
            ("latitude"@, crate::sql::nullable_real(self.latitude)),
            ("longitude"@, crate::sql::nullable_real(self.longitude)),
            ("title"@, crate::sql::nullable_text(self.title)),
            ("link_url"@, crate::sql::nullable_text(self.link_url)),
            ("media_count"@, Val::Integer(self.media_count as int)),
            ("like_count"@, Val::Integer(self.like_count as int)),
            ("comment_count"@, Val::Integer(self.comment_count as int)),
            ("source_nickname"@, crate::sql::nullable_text(self.source_nickname)),
            ("is_bidirectional_fan"@, Val::Integer(self.is_bidirectional_fan as int)),
            ("is_rich_text"@, Val::Integer(self.is_rich_text as int)),
            ("public_user_name"@, crate::sql::nullable_text(self.public_user_name)),
            ("app_name"@, crate::sql::nullable_text(self.app_name)),
            ("content_len"@, Val::Integer(self.content_len as int)),
        ]
    }

    /// How its fields are shown in a log.
    pub open spec fn shown(self) -> Seq<(&'static str, Shown)> {
        seq![
            ("account_id_sha", Shown::Text(self.account_id_sha)),
            ("source", Shown::Text(self.source)),
            ("source_native_id", Shown::Text(self.source_native_id)),
            ("tid", Shown::Integer(self.tid)),
            ("author_sha", Shown::Text(self.author_sha)),
            ("create_time", Shown::Integer(self.create_time)),
            ("moment_type", Shown::Integer(self.moment_type)),
            ("account_id_sha8", Shown::Digest(self.account_id)),
            ("author_sha8", Shown::Digest(self.author)),
            ("author_nickname_sha8", Shown::NullableDigest(self.author_nickname)),
            ("content_desc_sha8", Shown::Digest(self.content_desc)),
            ("content_desc_len", Shown::Integer(self.content_desc_len)),
            ("source_user_sha8", Shown::NullableDigest(self.source_user)),
            ("location_label_len", Shown::NullableCount(crate::redact::chars_if_any(self.location_label))),
            ("latitude", Shown::NullableReal(self.latitude)),
            ("longitude", Shown::NullableReal(self.longitude)),
            ("title_sha8", Shown::NullableDigest(self.title)),
            ("link_url_sha8", Shown::NullableDigest(self.link_url)),
            ("media_count", Shown::Integer(self.media_count)),
            ("like_count", Shown::Integer(self.like_count)),
            ("comment_count", Shown::Integer(self.comment_count)),
            ("source_nickname_sha8", Shown::NullableDigest(self.source_nickname)),
            ("is_bidirectional_fan", Shown::Integer(self.is_bidirectional_fan)),
            ("is_rich_text", Shown::Integer(self.is_rich_text)),
            ("public_user_name_sha8", Shown::NullableDigest(self.public_user_name)),
            ("app_name_sha8", Shown::NullableDigest(self.app_name)),
            ("content_len", Shown::Integer(self.content_len)),
        ]
    }

    /// What it shows of itself in a log.
    pub fn debug_row(&self) -> (row: DebugRow)
        ensures
            row.name@ == "V3Moment"@,
            row.fields@ == self.shown(),
            row.complete == false,
    {
        let mut fields: Vec<(&'static str, Shown)> = Vec::new();
        fields.push(("account_id_sha", Shown::Text(self.account_id_sha.clone())));
        fields.push(("source", Shown::Text(self.source.clone())));
        fields.push(("source_native_id", Shown::Text(self.source_native_id.clone())));
        fields.push(("tid", Shown::Integer(self.tid)));
        fields.push(("author_sha", Shown::Text(self.author_sha.clone())));
        fields.push(("create_time", Shown::Integer(self.create_time)));
        fields.push(("moment_type", Shown::Integer(self.moment_type)));
        fields.push(("account_id_sha8", Shown::Digest(self.account_id.clone())));
        fields.push(("author_sha8", Shown::Digest(self.author.clone())));
        fields.push(("author_nickname_sha8", Shown::NullableDigest(copy_text(&self.author_nickname))));
        fields.push(("content_desc_sha8", Shown::Digest(self.content_desc.clone())));
        fields.push(("content_desc_len", Shown::Integer(self.content_desc_len)));
        fields.push(("source_user_sha8", Shown::NullableDigest(copy_text(&self.source_user))));
        fields.push(("location_label_len", Shown::NullableCount(count_if_any(&self.location_label))));
        fields.push(("latitude", Shown::NullableReal(self.latitude)));
        fields.push(("longitude", Shown::NullableReal(self.longitude)));
        fields.push(("title_sha8", Shown::NullableDigest(copy_text(&self.title))));
        fields.push(("link_url_sha8", Shown::NullableDigest(copy_text(&self.link_url))));
        fields.push(("media_count", Shown::Integer(self.media_count)));
        fields.push(("like_count", Shown::Integer(self.like_count)));
        fields.push(("comment_count", Shown::Integer(self.comment_count)));
        fields.push(("source_nickname_sha8", Shown::NullableDigest(copy_text(&self.source_nickname))));
        fields.push(("is_bidirectional_fan", Shown::Integer(self.is_bidirectional_fan)));
        fields.push(("is_rich_text", Shown::Integer(self.is_rich_text)));
        fields.push(("public_user_name_sha8", Shown::NullableDigest(copy_text(&self.public_user_name))));
        fields.push(("app_name_sha8", Shown::NullableDigest(copy_text(&self.app_name))));
        fields.push(("content_len", Shown::Integer(self.content_len)));
        assert(fields@ =~= self.shown());
        DebugRow { name: "V3Moment", fields, complete: false }
    }
}

/// The columns of the table `moment`.
pub open spec fn moment_columns() -> Seq<Column> {
    seq![
        Column { name: "account_id_sha", decl: Decl::TextNotNull },
        Column { name: "source", decl: Decl::TextNotNull },
        Column { name: "source_native_id", decl: Decl::TextNotNull },
        Column { name: "tid", decl: Decl::IntegerNotNull },
        Column { name: "author_sha", decl: Decl::TextNotNull },
        Column { name: "create_time", decl: Decl::IntegerNotNull },
        Column { name: "moment_type", decl: Decl::IntegerNotNull },
        Column { name: "account_id", decl: Decl::TextNotNull },
        Column { name: "author", decl: Decl::TextNotNull },
        Column { name: "author_nickname", decl: Decl::Text },
        Column { name: "content_desc", decl: Decl::TextNotNull },
        Column { name: "content_desc_len", decl: Decl::IntegerNotNull },
        Column { name: "source_user", decl: Decl::Text },
        Column { name: "location_label", decl: Decl::Text },
        Column { name: "latitude", decl: Decl::Real },
        Column { name: "longitude", decl: Decl::Real },
        Column { name: "title", decl: Decl::Text },
        Column { name: "link_url", decl: Decl::Text },
        Column { name: "media_count", decl: Decl::IntegerNotNull },
        Column { name: "like_count", decl: Decl::IntegerNotNull },
        Column { name: "comment_count", decl: Decl::IntegerNotNull },
        Column { name: "source_nickname", decl: Decl::Text },
        Column { name: "is_bidirectional_fan", decl: Decl::IntegerDefault(0) },
        Column { name: "is_rich_text", decl: Decl::IntegerDefault(0) },
        Column { name: "public_user_name", decl: Decl::Text },
        Column { name: "app_name", decl: Decl::Text },
        Column { name: "content_len", decl: Decl::IntegerNotNull },
    ]
}

/// The columns of the table `moment`.
pub fn moment_table() -> (columns: Vec<Column>)
    ensures
        columns@ == moment_columns(),
{
    let mut columns: Vec<Column> = Vec::new();
    columns.push(Column { name: "account_id_sha", decl: Decl::TextNotNull });
    columns.push(Column { name: "source", decl: Decl::TextNotNull });
    columns.push(Column { name: "source_native_id", decl: Decl::TextNotNull });
    columns.push(Column { name: "tid", decl: Decl::IntegerNotNull });
    columns.push(Column { name: "author_sha", decl: Decl::TextNotNull });
    columns.push(Column { name: "create_time", decl: Decl::IntegerNotNull });
    columns.push(Column { name: "moment_type", decl: Decl::IntegerNotNull });
    columns.push(Column { name: "account_id", decl: Decl::TextNotNull });
    columns.push(Column { name: "author", decl: Decl::TextNotNull });
    columns.push(Column { name: "author_nickname", decl: Decl::Text });
    columns.push(Column { name: "content_desc", decl: Decl::TextNotNull });
    columns.push(Column { name: "content_desc_len", decl: Decl::IntegerNotNull });
    columns.push(Column { name: "source_user", decl: Decl::Text });
    columns.push(Column { name: "location_label", decl: Decl::Text });
    columns.push(Column { name: "latitude", decl: Decl::Real });
    columns.push(Column { name: "longitude", decl: Decl::Real });
    columns.push(Column { name: "title", decl: Decl::Text });
    columns.push(Column { name: "link_url", decl: Decl::Text });
    columns.push(Column { name: "media_count", decl: Decl::IntegerNotNull });
    columns.push(Column { name: "like_count", decl: Decl::IntegerNotNull });
    columns.push(Column { name: "comment_count", decl: Decl::IntegerNotNull });
    columns.push(Column { name: "source_nickname", decl: Decl::Text });
    columns.push(Column { name: "is_bidirectional_fan", decl: Decl::IntegerDefault(0) });
    columns.push(Column { name: "is_rich_text", decl: Decl::IntegerDefault(0) });
    columns.push(Column { name: "public_user_name", decl: Decl::Text });
    columns.push(Column { name: "app_name", decl: Decl::Text });
    columns.push(Column { name: "content_len", decl: Decl::IntegerNotNull });
    assert(columns@ =~= moment_columns());
    columns
}

/// The columns that came to the table `moment` later.
pub open spec fn moment_later_columns() -> Seq<Column> {
    seq![
        Column { name: "source_nickname", decl: Decl::Text },
        Column { name: "public_user_name", decl: Decl::Text },
        Column { name: "app_name", decl: Decl::Text },
        Column { name: "is_bidirectional_fan", decl: Decl::IntegerDefault(0) },
        Column { name: "is_rich_text", decl: Decl::IntegerDefault(0) },
    ]
}

/// The statements that add to the table `moment` the later columns that it lacks.
pub fn ensure_moment_columns(existing: &Vec<String>) -> (statements: Vec<Statement>)
    ensures
        crate::schema::adds(
            statements@,
            "moment"@,
            crate::schema::missing(moment_later_columns(), crate::sql::strings(existing@)),
        ),
{
    let mut later: Vec<Column> = Vec::new();
    later.push(Column { name: "source_nickname", decl: Decl::Text });
    later.push(Column { name: "public_user_name", decl: Decl::Text });
    later.push(Column { name: "app_name", decl: Decl::Text });
    later.push(Column { name: "is_bidirectional_fan", decl: Decl::IntegerDefault(0) });
    later.push(Column { name: "is_rich_text", decl: Decl::IntegerDefault(0) });
    assert(later@ =~= moment_later_columns());
    add_missing("moment", &later, existing)
}

/// Every later column of the table `moment` is one of its columns, and the rows that are
/// there when it is added have a value for it.
pub proof fn law_moment_later_columns_belong(i: int)
    requires
        0 <= i < moment_later_columns().len(),
    ensures
        crate::schema::column_names(moment_columns()).contains(moment_later_columns()[i].name@),
        moment_later_columns()[i].decl.fills_old_rows(),
{
    let all = crate::schema::column_names(moment_columns());
    assert(all[21] == "source_nickname"@);
    assert(all[24] == "public_user_name"@);
    assert(all[25] == "app_name"@);
    assert(all[22] == "is_bidirectional_fan"@);
    assert(all[23] == "is_rich_text"@);
}

/// The columns by which the table `moment` tells its rows apart.
pub open spec fn moment_key() -> Seq<Seq<char>> {
    seq!["account_id_sha"@, "source"@, "source_native_id"@]
}

/// A row fills the table: it has a value for every column, and for no other.
pub proof fn law_moment_row_fills_the_table(row: V3Moment)
    ensures
        crate::sql::names(row.row()) == crate::schema::column_names(moment_columns()),
{
    assert(crate::sql::names(row.row()) =~= crate::schema::column_names(moment_columns()));
}

/// Two rows of the table `moment` have the same key exactly where they agree in its fields.
pub proof fn law_moment_key_tells_rows_apart(a: V3Moment, b: V3Moment)
    ensures
        crate::relation::same_key(a.row(), b.row(), moment_key()) <==> {
            &&& a.account_id_sha@ == b.account_id_sha@
            &&& a.source@ == b.source@
            &&& a.source_native_id@ == b.source_native_id@
        },
{
    reveal_strlit("account_id_sha");
    reveal_strlit("source");
    reveal_strlit("source_native_id");
    let (x, y) = (a.row(), b.row());
    assert("account_id_sha"@.len() != "source"@.len());
    assert("account_id_sha"@.len() != "source_native_id"@.len());
    assert("source"@.len() != "source_native_id"@.len());
    let at: Seq<int> = seq![0int, 1, 2];
    crate::relation::lemma_same_key(x, y, moment_key(), at);
    assert(at[0] == 0);
    assert(at[1] == 1);
    assert(at[2] == 2);
}

/// The steps that make the table `moment`.
pub open spec fn moment_steps() -> Seq<Step> {
    seq![
        Step::Create(Table::Moment),
        Step::Index(
            Index {
                name: "idx_moment_author",
                table: "moment",
                columns: "account_id_sha, author_sha",
            },
        ),
        Step::Index(
            Index {
                name: "idx_moment_create_time",
                table: "moment",
                columns: "account_id_sha, create_time DESC",
            },
        ),
        Step::Index(
            Index {
                name: "idx_moment_type",
                table: "moment",
                columns: "account_id_sha, moment_type",
            },
        ),
        Step::Ensure(Table::Moment),
    ]
}

/// The steps that make the table `moment`.
pub fn init_moment_table() -> (steps: Vec<Step>)
    ensures
        steps@ == moment_steps(),
{
    let mut steps: Vec<Step> = Vec::new();
    steps.push(Step::Create(Table::Moment));
    steps.push(Step::Index(
        Index {
            name: "idx_moment_author",
            table: "moment",
            columns: "account_id_sha, author_sha",
        },
    ));
    steps.push(Step::Index(
        Index {
            name: "idx_moment_create_time",
            table: "moment",
            columns: "account_id_sha, create_time DESC",
        },
    ));
    steps.push(Step::Index(
        Index {
            name: "idx_moment_type",
            table: "moment",
            columns: "account_id_sha, moment_type",
        },
    ));
    steps.push(Step::Ensure(Table::Moment));
    assert(steps@ =~= moment_steps());
    steps
}

/// The statement that stores a row of the table `moment`, in place of the row with the same
/// key.
pub fn insert_moment(m: &V3Moment) -> (statement: Statement)
    ensures
        statement.does(Effect::Replace { table: "moment"@, row: m.row() }),
{
    let mut row = RowBuilder::new();
    row.text("account_id_sha", m.account_id_sha.as_str());
    row.text("source", m.source.as_str());
    row.text("source_native_id", m.source_native_id.as_str());
    row.integer("tid", m.tid);
    row.text("author_sha", m.author_sha.as_str());
    row.integer("create_time", m.create_time);
    row.integer("moment_type", m.moment_type);
    row.text("account_id", m.account_id.as_str());
    row.text("author", m.author.as_str());
    row.nullable_text("author_nickname", &m.author_nickname);
    row.text("content_desc", m.content_desc.as_str());
    row.integer("content_desc_len", m.content_desc_len);
    row.nullable_text("source_user", &m.source_user);
    row.nullable_text("location_label", &m.location_label);
    row.nullable_float("latitude", m.latitude);
    row.nullable_float("longitude", m.longitude);
    row.nullable_text("title", &m.title);
    row.nullable_text("link_url", &m.link_url);
    row.integer("media_count", m.media_count);
    row.integer("like_count", m.like_count);
    row.integer("comment_count", m.comment_count);
    row.nullable_text("source_nickname", &m.source_nickname);
    row.integer("is_bidirectional_fan", m.is_bidirectional_fan);
    row.integer("is_rich_text", m.is_rich_text);
    row.nullable_text("public_user_name", &m.public_user_name);
    row.nullable_text("app_name", &m.app_name);
    row.integer("content_len", m.content_len);
    assert(row@ =~= m.row());
    row.replace_into("moment")
}

/// A medium of a post. A post has one row for each of them.
#[derive(Clone, PartialEq, Eq)]
pub struct V3MomentMedia {
    pub account_id_sha: String,
    pub source: String,
    pub source_native_id: String,
    pub media_seq: i64,
    pub media_type: i64,
    pub account_id: String,
    pub media_id: Option<String>,
    pub url: Option<String>,
    pub thumb_url: Option<String>,
    pub md5: Option<String>,
    pub video_md5: Option<String>,
    pub url_key: Option<String>,
    pub enc_idx: Option<String>,
    pub token: Option<String>,
    pub enc_key: Option<String>,
    pub width: i64,
    pub height: i64,
    pub total_size: i64,
    pub video_duration: Option<Real>,
}

impl V3MomentMedia {
    /// The row that it is stored as.
    pub open spec fn row(self) -> Row {
        seq![
            ("account_id_sha"@, Val::Text(self.account_id_sha@)),
            ("source"@, Val::Text(self.source@)),
            ("source_native_id"@, Val::Text(self.source_native_id@)),
            ("media_seq"@, Val::Integer(self.media_seq as int)),
            ("media_type"@, Val::Integer(self.media_type as int)),
            ("account_id"@, Val::Text(self.account_id@)),
            ("media_id"@, crate::sql::nullable_text(self.media_id)),
            ("url"@, crate::sql::nullable_text(self.url)),
            ("thumb_url"@, crate::sql::nullable_text(self.thumb_url)),
            ("md5"@, crate::sql::nullable_text(self.md5)),
            ("video_md5"@, crate::sql::nullable_text(self.video_md5)),
            ("url_key"@, crate::sql::nullable_text(self.url_key)),
            ("enc_idx"@, crate::sql::nullable_text(self.enc_idx)),
            ("token"@, crate::sql::nullable_text(self.token)),
            ("enc_key"@, crate::sql::nullable_text(self.enc_key)),
            ("width"@, Val::Integer(self.width as int)),
            ("height"@, Val::Integer(self.height as int)),
            ("total_size"@, Val::Integer(self.total_size as int)),
            ("video_duration"@, crate::sql::nullable_real(self.video_duration)),
        ]
    }

    /// How its fields are shown in a log.
    pub open spec fn shown(self) -> Seq<(&'static str, Shown)> {
        seq![
            ("account_id_sha", Shown::Text(self.account_id_sha)),
            ("source", Shown::Text(self.source)),
            ("source_native_id", Shown::Text(self.source_native_id)),
            ("media_seq", Shown::Integer(self.media_seq)),
            ("media_type", Shown::Integer(self.media_type)),
            ("account_id_sha8", Shown::Digest(self.account_id)),
            ("media_id_sha8", Shown::NullableDigest(self.media_id)),
            ("url_sha8", Shown::NullableDigest(self.url)),
            ("thumb_url_sha8", Shown::NullableDigest(self.thumb_url)),
            ("md5_sha8", Shown::NullableDigest(self.md5)),
            ("video_md5_sha8", Shown::NullableDigest(self.video_md5)),
            ("url_key_sha8", Shown::NullableDigest(self.url_key)),
            ("enc_idx", Shown::NullableText(self.enc_idx)),
            ("token_sha8", Shown::NullableDigest(self.token)),
            ("enc_key_sha8", Shown::NullableDigest(self.enc_key)),
            ("width", Shown::Integer(self.width)),
            ("height", Shown::Integer(self.height)),
            ("total_size", Shown::Integer(self.total_size)),
            ("video_duration", Shown::NullableReal(self.video_duration)),
        ]
    }

    /// What it shows of itself in a log.
    pub fn debug_row(&self) -> (row: DebugRow)
        ensures
            row.name@ == "V3MomentMedia"@,
            row.fields@ == self.shown(),
            row.complete == false,
    {
        let mut fields: Vec<(&'static str, Shown)> = Vec::new();
        fields.push(("account_id_sha", Shown::Text(self.account_id_sha.clone())));
        fields.push(("source", Shown::Text(self.source.clone())));
        fields.push(("source_native_id", Shown::Text(self.source_native_id.clone())));
        fields.push(("media_seq", Shown::Integer(self.media_seq)));
        fields.push(("media_type", Shown::Integer(self.media_type)));
        fields.push(("account_id_sha8", Shown::Digest(self.account_id.clone())));
        fields.push(("media_id_sha8", Shown::NullableDigest(copy_text(&self.media_id))));
        fields.push(("url_sha8", Shown::NullableDigest(copy_text(&self.url))));
        fields.push(("thumb_url_sha8", Shown::NullableDigest(copy_text(&self.thumb_url))));
        fields.push(("md5_sha8", Shown::NullableDigest(copy_text(&self.md5))));
        fields.push(("video_md5_sha8", Shown::NullableDigest(copy_text(&self.video_md5))));
        fields.push(("url_key_sha8", Shown::NullableDigest(copy_text(&self.url_key))));
        fields.push(("enc_idx", Shown::NullableText(copy_text(&self.enc_idx))));
        fields.push(("token_sha8", Shown::NullableDigest(copy_text(&self.token))));
        fields.push(("enc_key_sha8", Shown::NullableDigest(copy_text(&self.enc_key))));
        fields.push(("width", Shown::Integer(self.width)));
        fields.push(("height", Shown::Integer(self.height)));
        fields.push(("total_size", Shown::Integer(self.total_size)));
        fields.push(("video_duration", Shown::NullableReal(self.video_duration)));
        assert(fields@ =~= self.shown());
        DebugRow { name: "V3MomentMedia", fields, complete: false }
    }
}

/// The columns of the table `moment_media`.
pub open spec fn moment_media_columns() -> Seq<Column> {
    seq![
        Column { name: "account_id_sha", decl: Decl::TextNotNull },
        Column { name: "source", decl: Decl::TextNotNull },
        Column { name: "source_native_id", decl: Decl::TextNotNull },
        Column { name: "media_seq", decl: Decl::IntegerNotNull },
        Column { name: "media_type", decl: Decl::IntegerNotNull },
        Column { name: "account_id", decl: Decl::TextNotNull },
        Column { name: "media_id", decl: Decl::Text },
        Column { name: "url", decl: Decl::Text },
        Column { name: "thumb_url", decl: Decl::Text },
        Column { name: "md5", decl: Decl::Text },
        Column { name: "video_md5", decl: Decl::Text },
        Column { name: "url_key", decl: Decl::Text },
        Column { name: "enc_idx", decl: Decl::Text },
        Column { name: "token", decl: Decl::Text },
        Column { name: "enc_key", decl: Decl::Text },
        Column { name: "width", decl: Decl::IntegerNotNull },
        Column { name: "height", decl: Decl::IntegerNotNull },
        Column { name: "total_size", decl: Decl::IntegerNotNull },
        Column { name: "video_duration", decl: Decl::Real },
    ]
}

/// The columns of the table `moment_media`.
pub fn moment_media_table() -> (columns: Vec<Column>)
    ensures
        columns@ == moment_media_columns(),
{
    let mut columns: Vec<Column> = Vec::new();
    columns.push(Column { name: "account_id_sha", decl: Decl::TextNotNull });
    columns.push(Column { name: "source", decl: Decl::TextNotNull });
    columns.push(Column { name: "source_native_id", decl: Decl::TextNotNull });
    columns.push(Column { name: "media_seq", decl: Decl::IntegerNotNull });
    columns.push(Column { name: "media_type", decl: Decl::IntegerNotNull });
    columns.push(Column { name: "account_id", decl: Decl::TextNotNull });
    columns.push(Column { name: "media_id", decl: Decl::Text });
    columns.push(Column { name: "url", decl: Decl::Text });
    columns.push(Column { name: "thumb_url", decl: Decl::Text });
    columns.push(Column { name: "md5", decl: Decl::Text });
    columns.push(Column { name: "video_md5", decl: Decl::Text });
    columns.push(Column { name: "url_key", decl: Decl::Text });
    columns.push(Column { name: "enc_idx", decl: Decl::Text });
    columns.push(Column { name: "token", decl: Decl::Text });
    columns.push(Column { name: "enc_key", decl: Decl::Text });
    columns.push(Column { name: "width", decl: Decl::IntegerNotNull });
    columns.push(Column { name: "height", decl: Decl::IntegerNotNull });
    columns.push(Column { name: "total_size", decl: Decl::IntegerNotNull });
    columns.push(Column { name: "video_duration", decl: Decl::Real });
    assert(columns@ =~= moment_media_columns());
    columns
}

/// The columns by which the table `moment_media` tells its rows apart.
pub open spec fn moment_media_key() -> Seq<Seq<char>> {
    seq!["account_id_sha"@, "source"@, "source_native_id"@, "media_seq"@]
}

/// A row fills the table: it has a value for every column, and for no other.
pub proof fn law_moment_media_row_fills_the_table(row: V3MomentMedia)
    ensures
        crate::sql::names(row.row()) == crate::schema::column_names(moment_media_columns()),
{
    assert(crate::sql::names(row.row()) =~= crate::schema::column_names(moment_media_columns()));
}

/// Two rows of the table `moment_media` have the same key exactly where they agree in its fields.
pub proof fn law_moment_media_key_tells_rows_apart(a: V3MomentMedia, b: V3MomentMedia)
    ensures
        crate::relation::same_key(a.row(), b.row(), moment_media_key()) <==> {
            &&& a.account_id_sha@ == b.account_id_sha@
            &&& a.source@ == b.source@
            &&& a.source_native_id@ == b.source_native_id@
            &&& a.media_seq == b.media_seq
        },
{
    reveal_strlit("account_id_sha");
    reveal_strlit("source");
    reveal_strlit("source_native_id");
    reveal_strlit("media_seq");
    let (x, y) = (a.row(), b.row());
    assert("account_id_sha"@.len() != "source"@.len());
    assert("account_id_sha"@.len() != "source_native_id"@.len());
    assert("source"@.len() != "source_native_id"@.len());
    assert("account_id_sha"@.len() != "media_seq"@.len());
    assert("source"@.len() != "media_seq"@.len());
    assert("source_native_id"@.len() != "media_seq"@.len());
    let at: Seq<int> = seq![0int, 1, 2, 3];
    crate::relation::lemma_same_key(x, y, moment_media_key(), at);
    assert(at[0] == 0);
    assert(at[1] == 1);
    assert(at[2] == 2);
    assert(at[3] == 3);
}

/// The steps that make the table `moment_media`.
pub open spec fn moment_media_steps() -> Seq<Step> {
    seq![
        Step::Create(Table::MomentMedia),
        Step::Index(
            Index {
                name: "idx_moment_media_moment",
                table: "moment_media",
                columns: "account_id_sha, source, source_native_id",
            },
        ),
        Step::Index(
            Index {
                name: "idx_moment_media_md5",
                table: "moment_media",
                columns: "account_id_sha, md5",
            },
        ),
    ]
}

/// The steps that make the table `moment_media`.
pub fn init_moment_media_table() -> (steps: Vec<Step>)
    ensures
        steps@ == moment_media_steps(),
{
    let mut steps: Vec<Step> = Vec::new();
    steps.push(Step::Create(Table::MomentMedia));
    steps.push(Step::Index(
        Index {
            name: "idx_moment_media_moment",
            table: "moment_media",
            columns: "account_id_sha, source, source_native_id",
        },
    ));
    steps.push(Step::Index(
        Index {
            name: "idx_moment_media_md5",
            table: "moment_media",
            columns: "account_id_sha, md5",
        },
    ));
    assert(steps@ =~= moment_media_steps());
    steps
}

/// The statement that stores a row of the table `moment_media`, in place of the row with the same
/// key.
pub fn insert_moment_media(m: &V3MomentMedia) -> (statement: Statement)
    ensures
        statement.does(Effect::Replace { table: "moment_media"@, row: m.row() }),
{
    let mut row = RowBuilder::new();
    row.text("account_id_sha", m.account_id_sha.as_str());
    row.text("source", m.source.as_str());
    row.text("source_native_id", m.source_native_id.as_str());
    row.integer("media_seq", m.media_seq);
    row.integer("media_type", m.media_type);
    row.text("account_id", m.account_id.as_str());
    row.nullable_text("media_id", &m.media_id);
    row.nullable_text("url", &m.url);
    row.nullable_text("thumb_url", &m.thumb_url);
    row.nullable_text("md5", &m.md5);
    row.nullable_text("video_md5", &m.video_md5);
    row.nullable_text("url_key", &m.url_key);
    row.nullable_text("enc_idx", &m.enc_idx);
    row.nullable_text("token", &m.token);
    row.nullable_text("enc_key", &m.enc_key);
    row.integer("width", m.width);
    row.integer("height", m.height);
    row.integer("total_size", m.total_size);
    row.nullable_float("video_duration", m.video_duration);
    assert(row@ =~= m.row());
    row.replace_into("moment_media")
}

/// The statement that takes out all rows of the table `moment_media` that belong to one
/// post.
pub fn delete_moment_media(account_id_sha: &str, source: &str, source_native_id: &str) -> (statement: Statement)
    ensures
        statement.does(
            Effect::Delete {
                table: "moment_media"@,
                tests: crate::plan::belonging_to(
                    account_id_sha@,
                    source@,
                    "source_native_id"@,
                    source_native_id@,
                ),
            },
        ),
{
    delete_group("moment_media", account_id_sha, source, "source_native_id", source_native_id)
}

/// A like or a comment. A post has one row for each of them.
#[derive(Clone, PartialEq, Eq)]
pub struct V3MomentInteraction {
    pub account_id_sha: String,
    pub source: String,
    pub source_native_id: String,
    pub interaction_seq: i64,
    pub kind: String,
    pub type_raw: i64,
    pub from_user_sha: String,
    pub account_id: String,
    pub from_user: Option<String>,
    pub from_nickname: Option<String>,
    pub content: Option<String>,
    pub comment_id: Option<String>,
    pub ref_username: Option<String>,
    pub ref_comment_id: Option<String>,
    pub create_time: i64,
}

impl V3MomentInteraction {
    /// The row that it is stored as.
    pub open spec fn row(self) -> Row {
        seq![
            ("account_id_sha"@, Val::Text(self.account_id_sha@)),
            ("source"@, Val::Text(self.source@)),
            ("source_native_id"@, Val::Text(self.source_native_id@)),
            ("interaction_seq"@, Val::Integer(self.interaction_seq as int)),
            ("kind"@, Val::Text(self.kind@)),
            ("type_raw"@, Val::Integer(self.type_raw as int)),
            ("from_user_sha"@, Val::Text(self.from_user_sha@)),
            ("account_id"@, Val::Text(self.account_id@)),
            ("from_user"@, crate::sql::nullable_text(self.from_user)),
            ("from_nickname"@, crate::sql::nullable_text(self.from_nickname)),
            ("content"@, crate::sql::nullable_text(self.content)),
            ("comment_id"@, crate::sql::nullable_text(self.comment_id)),
            ("ref_username"@, crate::sql::nullable_text(self.ref_username)),
            ("ref_comment_id"@, crate::sql::nullable_text(self.ref_comment_id)),
            ("create_time"@, Val::Integer(self.create_time as int)),
        ]
    }

    /// How its fields are shown in a log.
    pub open spec fn shown(self) -> Seq<(&'static str, Shown)> {
        seq![
            ("account_id_sha", Shown::Text(self.account_id_sha)),
            ("source", Shown::Text(self.source)),
            ("source_native_id", Shown::Text(self.source_native_id)),
            ("interaction_seq", Shown::Integer(self.interaction_seq)),
            ("kind", Shown::Text(self.kind)),
            ("type_raw", Shown::Integer(self.type_raw)),
            ("from_user_sha", Shown::Text(self.from_user_sha)),
            ("account_id_sha8", Shown::Digest(self.account_id)),
            ("from_user_sha8", Shown::NullableDigest(self.from_user)),
            ("from_nickname_sha8", Shown::NullableDigest(self.from_nickname)),
            ("content_sha8", Shown::NullableDigest(self.content)),
            ("comment_id", Shown::NullableText(self.comment_id)),
            ("ref_username_sha8", Shown::NullableDigest(self.ref_username)),
            ("ref_comment_id", Shown::NullableText(self.ref_comment_id)),
            ("create_time", Shown::Integer(self.create_time)),
        ]
    }

    /// What it shows of itself in a log.
    pub fn debug_row(&self) -> (row: DebugRow)
        ensures
            row.name@ == "V3MomentInteraction"@,
            row.fields@ == self.shown(),
            row.complete == false,
    {
        let mut fields: Vec<(&'static str, Shown)> = Vec::new();
        fields.push(("account_id_sha", Shown::Text(self.account_id_sha.clone())));
        fields.push(("source", Shown::Text(self.source.clone())));
        fields.push(("source_native_id", Shown::Text(self.source_native_id.clone())));
        fields.push(("interaction_seq", Shown::Integer(self.interaction_seq)));
        fields.push(("kind", Shown::Text(self.kind.clone())));
        fields.push(("type_raw", Shown::Integer(self.type_raw)));
        fields.push(("from_user_sha", Shown::Text(self.from_user_sha.clone())));
        fields.push(("account_id_sha8", Shown::Digest(self.account_id.clone())));
        fields.push(("from_user_sha8", Shown::NullableDigest(copy_text(&self.from_user))));
        fields.push(("from_nickname_sha8", Shown::NullableDigest(copy_text(&self.from_nickname))));
        fields.push(("content_sha8", Shown::NullableDigest(copy_text(&self.content))));
        fields.push(("comment_id", Shown::NullableText(copy_text(&self.comment_id))));
        fields.push(("ref_username_sha8", Shown::NullableDigest(copy_text(&self.ref_username))));
        fields.push(("ref_comment_id", Shown::NullableText(copy_text(&self.ref_comment_id))));
        fields.push(("create_time", Shown::Integer(self.create_time)));
        assert(fields@ =~= self.shown());
        DebugRow { name: "V3MomentInteraction", fields, complete: false }
    }
}

/// The columns of the table `moment_interaction`.
pub open spec fn moment_interaction_columns() -> Seq<Column> {
    seq![
        Column { name: "account_id_sha", decl: Decl::TextNotNull },
        Column { name: "source", decl: Decl::TextNotNull },
        Column { name: "source_native_id", decl: Decl::TextNotNull },
        Column { name: "interaction_seq", decl: Decl::IntegerNotNull },
        Column { name: "kind", decl: Decl::TextNotNull },
        Column { name: "type_raw", decl: Decl::IntegerNotNull },
        Column { name: "from_user_sha", decl: Decl::TextNotNull },
        Column { name: "account_id", decl: Decl::TextNotNull },
        Column { name: "from_user", decl: Decl::Text },
        Column { name: "from_nickname", decl: Decl::Text },
        Column { name: "content", decl: Decl::Text },
        Column { name: "comment_id", decl: Decl::Text },
        Column { name: "ref_username", decl: Decl::Text },
        Column { name: "ref_comment_id", decl: Decl::Text },
        Column { name: "create_time", decl: Decl::IntegerNotNull },
    ]
}

/// The columns of the table `moment_interaction`.
pub fn moment_interaction_table() -> (columns: Vec<Column>)
    ensures
        columns@ == moment_interaction_columns(),
{
    let mut columns: Vec<Column> = Vec::new();
    columns.push(Column { name: "account_id_sha", decl: Decl::TextNotNull });
    columns.push(Column { name: "source", decl: Decl::TextNotNull });
    columns.push(Column { name: "source_native_id", decl: Decl::TextNotNull });
    columns.push(Column { name: "interaction_seq", decl: Decl::IntegerNotNull });
    columns.push(Column { name: "kind", decl: Decl::TextNotNull });
    columns.push(Column { name: "type_raw", decl: Decl::IntegerNotNull });
    columns.push(Column { name: "from_user_sha", decl: Decl::TextNotNull });
    columns.push(Column { name: "account_id", decl: Decl::TextNotNull });
    columns.push(Column { name: "from_user", decl: Decl::Text });
    columns.push(Column { name: "from_nickname", decl: Decl::Text });
    columns.push(Column { name: "content", decl: Decl::Text });
    columns.push(Column { name: "comment_id", decl: Decl::Text });
    columns.push(Column { name: "ref_username", decl: Decl::Text });
    columns.push(Column { name: "ref_comment_id", decl: Decl::Text });
    columns.push(Column { name: "create_time", decl: Decl::IntegerNotNull });
    assert(columns@ =~= moment_interaction_columns());
    columns
}

/// The columns by which the table `moment_interaction` tells its rows apart.
pub open spec fn moment_interaction_key() -> Seq<Seq<char>> {
    seq!["account_id_sha"@, "source"@, "source_native_id"@, "interaction_seq"@]
}

/// A row fills the table: it has a value for every column, and for no other.
pub proof fn law_moment_interaction_row_fills_the_table(row: V3MomentInteraction)
    ensures
        crate::sql::names(row.row()) == crate::schema::column_names(moment_interaction_columns()),
{
    assert(crate::sql::names(row.row()) =~= crate::schema::column_names(moment_interaction_columns()));
}

/// Two rows of the table `moment_interaction` have the same key exactly where they agree in its fields.
pub proof fn law_moment_interaction_key_tells_rows_apart(a: V3MomentInteraction, b: V3MomentInteraction)
    ensures
        crate::relation::same_key(a.row(), b.row(), moment_interaction_key()) <==> {
            &&& a.account_id_sha@ == b.account_id_sha@
            &&& a.source@ == b.source@
            &&& a.source_native_id@ == b.source_native_id@
            &&& a.interaction_seq == b.interaction_seq
        },
{
    reveal_strlit("account_id_sha");
    reveal_strlit("source");
    reveal_strlit("source_native_id");
    reveal_strlit("interaction_seq");
    let (x, y) = (a.row(), b.row());
    assert("account_id_sha"@.len() != "source"@.len());
    assert("account_id_sha"@.len() != "source_native_id"@.len());
    assert("source"@.len() != "source_native_id"@.len());
    assert("account_id_sha"@.len() != "interaction_seq"@.len());
    assert("source"@.len() != "interaction_seq"@.len());
    assert("source_native_id"@.len() != "interaction_seq"@.len());
    let at: Seq<int> = seq![0int, 1, 2, 3];
    crate::relation::lemma_same_key(x, y, moment_interaction_key(), at);
    assert(at[0] == 0);
    assert(at[1] == 1);
    assert(at[2] == 2);
    assert(at[3] == 3);
}

/// The steps that make the table `moment_interaction`.
pub open spec fn moment_interaction_steps() -> Seq<Step> {
    seq![
        Step::Create(Table::MomentInteraction),
        Step::Index(
            Index {
                name: "idx_moment_interaction_moment",
                table: "moment_interaction",
                columns: "account_id_sha, source, source_native_id",
            },
        ),
        Step::Index(
            Index {
                name: "idx_moment_interaction_from",
                table: "moment_interaction",
                columns: "account_id_sha, from_user_sha",
            },
        ),
    ]
}

/// The steps that make the table `moment_interaction`.
pub fn init_moment_interaction_table() -> (steps: Vec<Step>)
    ensures
        steps@ == moment_interaction_steps(),
{
    let mut steps: Vec<Step> = Vec::new();
    steps.push(Step::Create(Table::MomentInteraction));
    steps.push(Step::Index(
        Index {
            name: "idx_moment_interaction_moment",
            table: "moment_interaction",
            columns: "account_id_sha, source, source_native_id",
        },
    ));
    steps.push(Step::Index(
        Index {
            name: "idx_moment_interaction_from",
            table: "moment_interaction",
            columns: "account_id_sha, from_user_sha",
        },
    ));
    assert(steps@ =~= moment_interaction_steps());
    steps
}

/// The statement that stores a row of the table `moment_interaction`, in place of the row with the same
/// key.
pub fn insert_moment_interaction(m: &V3MomentInteraction) -> (statement: Statement)
    ensures
        statement.does(Effect::Replace { table: "moment_interaction"@, row: m.row() }),
{
    let mut row = RowBuilder::new();
    row.text("account_id_sha", m.account_id_sha.as_str());
    row.text("source", m.source.as_str());
    row.text("source_native_id", m.source_native_id.as_str());
    row.integer("interaction_seq", m.interaction_seq);
    row.text("kind", m.kind.as_str());
    row.integer("type_raw", m.type_raw);
    row.text("from_user_sha", m.from_user_sha.as_str());
    row.text("account_id", m.account_id.as_str());
    row.nullable_text("from_user", &m.from_user);
    row.nullable_text("from_nickname", &m.from_nickname);
    row.nullable_text("content", &m.content);
    row.nullable_text("comment_id", &m.comment_id);
    row.nullable_text("ref_username", &m.ref_username);
    row.nullable_text("ref_comment_id", &m.ref_comment_id);
    row.integer("create_time", m.create_time);
    assert(row@ =~= m.row());
    row.replace_into("moment_interaction")
}

/// The statement that takes out all rows of the table `moment_interaction` that belong to one
/// post.
pub fn delete_moment_interactions(account_id_sha: &str, source: &str, source_native_id: &str) -> (statement: Statement)
    ensures
        statement.does(
            Effect::Delete {
                table: "moment_interaction"@,
                tests: crate::plan::belonging_to(
                    account_id_sha@,
                    source@,
                    "source_native_id"@,
                    source_native_id@,
                ),
            },
        ),
{
    delete_group("moment_interaction", account_id_sha, source, "source_native_id", source_native_id)
}

/// An entry of the feed.
#[derive(Clone, PartialEq, Eq)]
pub struct V3MomentFeed {
    pub account_id_sha: String,
    pub source: String,
    pub source_native_id: String,
    pub tid: i64,
    pub author_sha: String,
    pub create_time: i64,
    pub last_read_time: i64,
    pub is_read: i64,
    pub account_id: String,
    pub author: String,
}

impl V3MomentFeed {
    /// The row that it is stored as.
    pub open spec fn row(self) -> Row {
        seq![
            ("account_id_sha"@, Val::Text(self.account_id_sha@)),
            ("source"@, Val::Text(self.source@)),
            ("source_native_id"@, Val::Text(self.source_native_id@)),
            ("tid"@, Val::Integer(self.tid as int)),
            ("author_sha"@, Val::Text(self.author_sha@)),
            ("create_time"@, Val::Integer(self.create_time as int)),
            ("last_read_time"@, Val::Integer(self.last_read_time as int)),
            ("is_read"@, Val::Integer(self.is_read as int)),
            ("account_id"@, Val::Text(self.account_id@)),
            ("author"@, Val::Text(self.author@)),
        ]
    }

    /// How its fields are shown in a log.
    pub open spec fn shown(self) -> Seq<(&'static str, Shown)> {
        seq![
            ("account_id_sha", Shown::Text(self.account_id_sha)),
            ("source", Shown::Text(self.source)),
            ("source_native_id", Shown::Text(self.source_native_id)),
            ("tid", Shown::Integer(self.tid)),
            ("author_sha", Shown::Text(self.author_sha)),
            ("create_time", Shown::Integer(self.create_time)),
            ("last_read_time", Shown::Integer(self.last_read_time)),
            ("is_read", Shown::Integer(self.is_read)),
            ("account_id_sha8", Shown::Digest(self.account_id)),
        ]
    }

    /// What it shows of itself in a log.
    pub fn debug_row(&self) -> (row: DebugRow)
        ensures
            row.name@ == "V3MomentFeed"@,
            row.fields@ == self.shown(),
            row.complete == false,
    {
        let mut fields: Vec<(&'static str, Shown)> = Vec::new();
        fields.push(("account_id_sha", Shown::Text(self.account_id_sha.clone())));
        fields.push(("source", Shown::Text(self.source.clone())));
        fields.push(("source_native_id", Shown::Text(self.source_native_id.clone())));
        fields.push(("tid", Shown::Integer(self.tid)));
        fields.push(("author_sha", Shown::Text(self.author_sha.clone())));
        fields.push(("create_time", Shown::Integer(self.create_time)));
        fields.push(("last_read_time", Shown::Integer(self.last_read_time)));
        fields.push(("is_read", Shown::Integer(self.is_read)));
        fields.push(("account_id_sha8", Shown::Digest(self.account_id.clone())));
        assert(fields@ =~= self.shown());
        DebugRow { name: "V3MomentFeed", fields, complete: false }
    }
}

/// The columns of the table `moment_feed`.
pub open spec fn moment_feed_columns() -> Seq<Column> {
    seq![
        Column { name: "account_id_sha", decl: Decl::TextNotNull },
        Column { name: "source", decl: Decl::TextNotNull },
        Column { name: "source_native_id", decl: Decl::TextNotNull },
        Column { name: "tid", decl: Decl::IntegerNotNull },
        Column { name: "author_sha", decl: Decl::TextNotNull },
        Column { name: "create_time", decl: Decl::IntegerNotNull },
        Column { name: "last_read_time", decl: Decl::IntegerNotNull },
        Column { name: "is_read", decl: Decl::IntegerNotNull },
        Column { name: "account_id", decl: Decl::TextNotNull },
        Column { name: "author", decl: Decl::TextNotNull },
    ]
}

/// The columns of the table `moment_feed`.
pub fn moment_feed_table() -> (columns: Vec<Column>)
    ensures
        columns@ == moment_feed_columns(),
{
    let mut columns: Vec<Column> = Vec::new();
    columns.push(Column { name: "account_id_sha", decl: Decl::TextNotNull });
    columns.push(Column { name: "source", decl: Decl::TextNotNull });
    columns.push(Column { name: "source_native_id", decl: Decl::TextNotNull });
    columns.push(Column { name: "tid", decl: Decl::IntegerNotNull });
    columns.push(Column { name: "author_sha", decl: Decl::TextNotNull });
    columns.push(Column { name: "create_time", decl: Decl::IntegerNotNull });
    columns.push(Column { name: "last_read_time", decl: Decl::IntegerNotNull });
    columns.push(Column { name: "is_read", decl: Decl::IntegerNotNull });
    columns.push(Column { name: "account_id", decl: Decl::TextNotNull });
    columns.push(Column { name: "author", decl: Decl::TextNotNull });
    assert(columns@ =~= moment_feed_columns());
    columns
}

/// The columns by which the table `moment_feed` tells its rows apart.
pub open spec fn moment_feed_key() -> Seq<Seq<char>> {
    seq!["account_id_sha"@, "source"@, "source_native_id"@]
}

/// A row fills the table: it has a value for every column, and for no other.
pub proof fn law_moment_feed_row_fills_the_table(row: V3MomentFeed)
    ensures
        crate::sql::names(row.row()) == crate::schema::column_names(moment_feed_columns()),
{
    assert(crate::sql::names(row.row()) =~= crate::schema::column_names(moment_feed_columns()));
}

/// Two rows of the table `moment_feed` have the same key exactly where they agree in its fields.
pub proof fn law_moment_feed_key_tells_rows_apart(a: V3MomentFeed, b: V3MomentFeed)
    ensures
        crate::relation::same_key(a.row(), b.row(), moment_feed_key()) <==> {
            &&& a.account_id_sha@ == b.account_id_sha@
            &&& a.source@ == b.source@
            &&& a.source_native_id@ == b.source_native_id@
        },
{
    reveal_strlit("account_id_sha");
    reveal_strlit("source");
    reveal_strlit("source_native_id");
    let (x, y) = (a.row(), b.row());
    assert("account_id_sha"@.len() != "source"@.len());
    assert("account_id_sha"@.len() != "source_native_id"@.len());
    assert("source"@.len() != "source_native_id"@.len());
    let at: Seq<int> = seq![0int, 1, 2];
    crate::relation::lemma_same_key(x, y, moment_feed_key(), at);
    assert(at[0] == 0);
    assert(at[1] == 1);
    assert(at[2] == 2);
}

/// The steps that make the table `moment_feed`.
pub open spec fn moment_feed_steps() -> Seq<Step> {
    seq![
        Step::Create(Table::MomentFeed),
        Step::Index(
            Index {
                name: "idx_moment_feed_author_time",
                table: "moment_feed",
                columns: "account_id_sha, author_sha, create_time DESC",
            },
        ),
    ]
}

/// The steps that make the table `moment_feed`.
pub fn init_moment_feed_table() -> (steps: Vec<Step>)
    ensures
        steps@ == moment_feed_steps(),
{
    let mut steps: Vec<Step> = Vec::new();
    steps.push(Step::Create(Table::MomentFeed));
    steps.push(Step::Index(
        Index {
            name: "idx_moment_feed_author_time",
            table: "moment_feed",
            columns: "account_id_sha, author_sha, create_time DESC",
        },
    ));
    assert(steps@ =~= moment_feed_steps());
    steps
}

/// The statement that stores a row of the table `moment_feed`, in place of the row with the same
/// key.
pub fn insert_moment_feed(v: &V3MomentFeed) -> (statement: Statement)
    ensures
        statement.does(Effect::Replace { table: "moment_feed"@, row: v.row() }),
{
    let mut row = RowBuilder::new();
    row.text("account_id_sha", v.account_id_sha.as_str());
    row.text("source", v.source.as_str());
    row.text("source_native_id", v.source_native_id.as_str());
    row.integer("tid", v.tid);
    row.text("author_sha", v.author_sha.as_str());
    row.integer("create_time", v.create_time);
    row.integer("last_read_time", v.last_read_time);
    row.integer("is_read", v.is_read);
    row.text("account_id", v.account_id.as_str());
    row.text("author", v.author.as_str());
    assert(row@ =~= v.row());
    row.replace_into("moment_feed")
}

/// A notification about a post.
#[derive(Clone, PartialEq, Eq)]
pub struct V3SnsNotify {
    pub account_id_sha: String,
    pub source: String,
    pub source_native_id: String,
    pub comment_id: i64,
    pub feed_id: i64,
    pub notify_type: i64,
    pub from_user_sha: String,
    pub create_time: i64,
    pub to_user_sha: Option<String>,
    pub is_unread: i64,
    pub del_status: i64,
    pub is_relative_me: i64,
    pub account_id: String,
    pub from_user: String,
    pub to_user: Option<String>,
    pub from_nickname: Option<String>,
    pub to_nickname: Option<String>,
    pub content: Option<String>,
}

impl V3SnsNotify {
    /// The row that it is stored as.
    pub open spec fn row(self) -> Row {
        seq![
            ("account_id_sha"@, Val::Text(self.account_id_sha@)),
            ("source"@, Val::Text(self.source@)),
            ("source_native_id"@, Val::Text(self.source_native_id@)),
            ("comment_id"@, Val::Integer(self.comment_id as int)),
            ("feed_id"@, Val::Integer(self.feed_id as int)),
            ("notify_type"@, Val::Integer(self.notify_type as int)),
            ("from_user_sha"@, Val::Text(self.from_user_sha@)),
            ("create_time"@, Val::Integer(self.create_time as int)),
            ("to_user_sha"@, crate::sql::nullable_text(self.to_user_sha)),
            ("is_unread"@, Val::Integer(self.is_unread as int)),
            ("del_status"@, Val::Integer(self.del_status as int)),
            ("is_relative_me"@, Val::Integer(self.is_relative_me as int)),
            ("account_id"@, Val::Text(self.account_id@)),
            ("from_user"@, Val::Text(self.from_user@)),
            ("to_user"@, crate::sql::nullable_text(self.to_user)),
            ("from_nickname"@, crate::sql::nullable_text(self.from_nickname)),
            ("to_nickname"@, crate::sql::nullable_text(self.to_nickname)),
            ("content"@, crate::sql::nullable_text(self.content)),
        ]
    }

    /// How its fields are shown in a log.
    pub open spec fn shown(self) -> Seq<(&'static str, Shown)> {
        seq![
            ("account_id_sha", Shown::Text(self.account_id_sha)),
            ("source", Shown::Text(self.source)),
            ("source_native_id", Shown::Text(self.source_native_id)),
            ("comment_id", Shown::Integer(self.comment_id)),
            ("feed_id", Shown::Integer(self.feed_id)),
            ("notify_type", Shown::Integer(self.notify_type)),
            ("from_user_sha", Shown::Text(self.from_user_sha)),
            ("create_time", Shown::Integer(self.create_time)),
            ("to_user_sha", Shown::NullableText(self.to_user_sha)),
            ("is_unread", Shown::Integer(self.is_unread)),
            ("del_status", Shown::Integer(self.del_status)),
            ("is_relative_me", Shown::Integer(self.is_relative_me)),
            ("account_id_sha8", Shown::Digest(self.account_id)),
            ("from_nickname_sha8", Shown::NullableDigest(self.from_nickname)),
            ("to_nickname_sha8", Shown::NullableDigest(self.to_nickname)),
            ("content_sha8", Shown::NullableDigest(self.content)),
        ]
    }

    /// What it shows of itself in a log.
    pub fn debug_row(&self) -> (row: DebugRow)
        ensures
            row.name@ == "V3SnsNotify"@,
            row.fields@ == self.shown(),
            row.complete == false,
    {
        let mut fields: Vec<(&'static str, Shown)> = Vec::new();
        fields.push(("account_id_sha", Shown::Text(self.account_id_sha.clone())));
        fields.push(("source", Shown::Text(self.source.clone())));
        fields.push(("source_native_id", Shown::Text(self.source_native_id.clone())));
        fields.push(("comment_id", Shown::Integer(self.comment_id)));
        fields.push(("feed_id", Shown::Integer(self.feed_id)));
        fields.push(("notify_type", Shown::Integer(self.notify_type)));
        fields.push(("from_user_sha", Shown::Text(self.from_user_sha.clone())));
        fields.push(("create_time", Shown::Integer(self.create_time)));
        fields.push(("to_user_sha", Shown::NullableText(copy_text(&self.to_user_sha))));
        fields.push(("is_unread", Shown::Integer(self.is_unread)));
        fields.push(("del_status", Shown::Integer(self.del_status)));
        fields.push(("is_relative_me", Shown::Integer(self.is_relative_me)));
        fields.push(("account_id_sha8", Shown::Digest(self.account_id.clone())));
        fields.push(("from_nickname_sha8", Shown::NullableDigest(copy_text(&self.from_nickname))));
        fields.push(("to_nickname_sha8", Shown::NullableDigest(copy_text(&self.to_nickname))));
        fields.push(("content_sha8", Shown::NullableDigest(copy_text(&self.content))));
        assert(fields@ =~= self.shown());
        DebugRow { name: "V3SnsNotify", fields, complete: false }
    }
}

/// The columns of the table `sns_notify`.
pub open spec fn sns_notify_columns() -> Seq<Column> {
    seq![
        Column { name: "account_id_sha", decl: Decl::TextNotNull },
        Column { name: "source", decl: Decl::TextNotNull },
        Column { name: "source_native_id", decl: Decl::TextNotNull },
        Column { name: "comment_id", decl: Decl::IntegerNotNull },
        Column { name: "feed_id", decl: Decl::IntegerNotNull },
        Column { name: "notify_type", decl: Decl::IntegerNotNull },
        Column { name: "from_user_sha", decl: Decl::TextNotNull },
        Column { name: "create_time", decl: Decl::IntegerNotNull },
        Column { name: "to_user_sha", decl: Decl::Text },
        Column { name: "is_unread", decl: Decl::IntegerNotNull },
        Column { name: "del_status", decl: Decl::IntegerNotNull },
        Column { name: "is_relative_me", decl: Decl::IntegerNotNull },
        Column { name: "account_id", decl: Decl::TextNotNull },
        Column { name: "from_user", decl: Decl::TextNotNull },
        Column { name: "to_user", decl: Decl::Text },
        Column { name: "from_nickname", decl: Decl::Text },
        Column { name: "to_nickname", decl: Decl::Text },
        Column { name: "content", decl: Decl::Text },
    ]
}

/// The columns of the table `sns_notify`.
pub fn sns_notify_table() -> (columns: Vec<Column>)
    ensures
        columns@ == sns_notify_columns(),
{
    let mut columns: Vec<Column> = Vec::new();
    columns.push(Column { name: "account_id_sha", decl: Decl::TextNotNull });
    columns.push(Column { name: "source", decl: Decl::TextNotNull });
    columns.push(Column { name: "source_native_id", decl: Decl::TextNotNull });
    columns.push(Column { name: "comment_id", decl: Decl::IntegerNotNull });
    columns.push(Column { name: "feed_id", decl: Decl::IntegerNotNull });
    columns.push(Column { name: "notify_type", decl: Decl::IntegerNotNull });
    columns.push(Column { name: "from_user_sha", decl: Decl::TextNotNull });
    columns.push(Column { name: "create_time", decl: Decl::IntegerNotNull });
    columns.push(Column { name: "to_user_sha", decl: Decl::Text });
    columns.push(Column { name: "is_unread", decl: Decl::IntegerNotNull });
    columns.push(Column { name: "del_status", decl: Decl::IntegerNotNull });
    columns.push(Column { name: "is_relative_me", decl: Decl::IntegerNotNull });
    columns.push(Column { name: "account_id", decl: Decl::TextNotNull });
    columns.push(Column { name: "from_user", decl: Decl::TextNotNull });
    columns.push(Column { name: "to_user", decl: Decl::Text });
    columns.push(Column { name: "from_nickname", decl: Decl::Text });
    columns.push(Column { name: "to_nickname", decl: Decl::Text });
    columns.push(Column { name: "content", decl: Decl::Text });
    assert(columns@ =~= sns_notify_columns());
    columns
}

/// The columns by which the table `sns_notify` tells its rows apart.
pub open spec fn sns_notify_key() -> Seq<Seq<char>> {
    seq!["account_id_sha"@, "source"@, "source_native_id"@]
}

/// A row fills the table: it has a value for every column, and for no other.
pub proof fn law_sns_notify_row_fills_the_table(row: V3SnsNotify)
    ensures
        crate::sql::names(row.row()) == crate::schema::column_names(sns_notify_columns()),
{
    assert(crate::sql::names(row.row()) =~= crate::schema::column_names(sns_notify_columns()));
}

/// Two rows of the table `sns_notify` have the same key exactly where they agree in its fields.
pub proof fn law_sns_notify_key_tells_rows_apart(a: V3SnsNotify, b: V3SnsNotify)
    ensures
        crate::relation::same_key(a.row(), b.row(), sns_notify_key()) <==> {
            &&& a.account_id_sha@ == b.account_id_sha@
            &&& a.source@ == b.source@
            &&& a.source_native_id@ == b.source_native_id@
        },
{
    reveal_strlit("account_id_sha");
    reveal_strlit("source");
    reveal_strlit("source_native_id");
    let (x, y) = (a.row(), b.row());
    assert("account_id_sha"@.len() != "source"@.len());
    assert("account_id_sha"@.len() != "source_native_id"@.len());
    assert("source"@.len() != "source_native_id"@.len());
    let at: Seq<int> = seq![0int, 1, 2];
    crate::relation::lemma_same_key(x, y, sns_notify_key(), at);
    assert(at[0] == 0);
    assert(at[1] == 1);
    assert(at[2] == 2);
}

/// The steps that make the table `sns_notify`.
pub open spec fn sns_notify_steps() -> Seq<Step> {
    seq![
        Step::Create(Table::SnsNotify),
        Step::Index(
            Index {
                name: "idx_sns_notify_feed_time",
                table: "sns_notify",
                columns: "account_id_sha, feed_id, create_time DESC",
            },
        ),
    ]
}

/// The steps that make the table `sns_notify`.
pub fn init_sns_notify_table() -> (steps: Vec<Step>)
    ensures
        steps@ == sns_notify_steps(),
{
    let mut steps: Vec<Step> = Vec::new();
    steps.push(Step::Create(Table::SnsNotify));
    steps.push(Step::Index(
        Index {
            name: "idx_sns_notify_feed_time",
            table: "sns_notify",
            columns: "account_id_sha, feed_id, create_time DESC",
        },
    ));
    assert(steps@ =~= sns_notify_steps());
    steps
}

/// The statement that stores a row of the table `sns_notify`, in place of the row with the same
/// key.
pub fn insert_sns_notify(v: &V3SnsNotify) -> (statement: Statement)
    ensures
        statement.does(Effect::Replace { table: "sns_notify"@, row: v.row() }),
{
    let mut row = RowBuilder::new();
    row.text("account_id_sha", v.account_id_sha.as_str());
    row.text("source", v.source.as_str());
    row.text("source_native_id", v.source_native_id.as_str());
    row.integer("comment_id", v.comment_id);
    row.integer("feed_id", v.feed_id);
    row.integer("notify_type", v.notify_type);
    row.text("from_user_sha", v.from_user_sha.as_str());
    row.integer("create_time", v.create_time);
    row.nullable_text("to_user_sha", &v.to_user_sha);
    row.integer("is_unread", v.is_unread);
    row.integer("del_status", v.del_status);
    row.integer("is_relative_me", v.is_relative_me);
    row.text("account_id", v.account_id.as_str());
    row.text("from_user", v.from_user.as_str());
    row.nullable_text("to_user", &v.to_user);
    row.nullable_text("from_nickname", &v.from_nickname);
    row.nullable_text("to_nickname", &v.to_nickname);
    row.nullable_text("content", &v.content);
    assert(row@ =~= v.row());
    row.replace_into("sns_notify")
}

/// A visit to a video account.
#[derive(Clone, PartialEq, Eq)]
pub struct V3FinderVisit {
    pub account_id_sha: String,
    pub source: String,
    pub source_native_id: String,
    pub owner_username_sha: String,
    pub visit_time: i64,
    pub account_id: String,
    pub owner_username: String,
    pub name: String,
    pub profile_url: String,
}

impl V3FinderVisit {
    /// The row that it is stored as.
    pub open spec fn row(self) -> Row {
        seq![
            ("account_id_sha"@, Val::Text(self.account_id_sha@)),
            ("source"@, Val::Text(self.source@)),
            ("source_native_id"@, Val::Text(self.source_native_id@)),
            ("owner_username_sha"@, Val::Text(self.owner_username_sha@)),
            ("visit_time"@, Val::Integer(self.visit_time as int)),
            ("account_id"@, Val::Text(self.account_id@)),
            ("owner_username"@, Val::Text(self.owner_username@)),
            ("name"@, Val::Text(self.name@)),
            ("profile_url"@, Val::Text(self.profile_url@)),
        ]
    }

    /// How its fields are shown in a log.
    pub open spec fn shown(self) -> Seq<(&'static str, Shown)> {
        seq![
            ("account_id_sha", Shown::Text(self.account_id_sha)),
            ("source", Shown::Text(self.source)),
            ("source_native_id", Shown::Text(self.source_native_id)),
            ("owner_username_sha", Shown::Text(self.owner_username_sha)),
            ("visit_time", Shown::Integer(self.visit_time)),
            ("account_id_sha8", Shown::Digest(self.account_id)),
            ("name_sha8", Shown::Digest(self.name)),
            ("profile_url_len", Shown::Count(self.profile_url@.len() as usize)),
        ]
    }

    /// What it shows of itself in a log.
    pub fn debug_row(&self) -> (row: DebugRow)
        ensures
            row.name@ == "V3FinderVisit"@,
            row.fields@ == self.shown(),
            row.complete == false,
    {
        let mut fields: Vec<(&'static str, Shown)> = Vec::new();
        fields.push(("account_id_sha", Shown::Text(self.account_id_sha.clone())));
        fields.push(("source", Shown::Text(self.source.clone())));
        fields.push(("source_native_id", Shown::Text(self.source_native_id.clone())));
        fields.push(("owner_username_sha", Shown::Text(self.owner_username_sha.clone())));
        fields.push(("visit_time", Shown::Integer(self.visit_time)));
        fields.push(("account_id_sha8", Shown::Digest(self.account_id.clone())));
        fields.push(("name_sha8", Shown::Digest(self.name.clone())));
        fields.push(("profile_url_len", Shown::Count(self.profile_url.as_str().unicode_len())));
        assert(fields@ =~= self.shown());
        DebugRow { name: "V3FinderVisit", fields, complete: false }
    }
}

/// The columns of the table `finder_visit`.
pub open spec fn finder_visit_columns() -> Seq<Column> {
    seq![
        Column { name: "account_id_sha", decl: Decl::TextNotNull },
        Column { name: "source", decl: Decl::TextNotNull },
        Column { name: "source_native_id", decl: Decl::TextNotNull },
        Column { name: "owner_username_sha", decl: Decl::TextNotNull },
        Column { name: "visit_time", decl: Decl::IntegerNotNull },
        Column { name: "account_id", decl: Decl::TextNotNull },
        Column { name: "owner_username", decl: Decl::TextNotNull },
        Column { name: "name", decl: Decl::TextNotNull },
        Column { name: "profile_url", decl: Decl::TextNotNull },
    ]
}

/// The columns of the table `finder_visit`.
pub fn finder_visit_table() -> (columns: Vec<Column>)
    ensures
        columns@ == finder_visit_columns(),
{
    let mut columns: Vec<Column> = Vec::new();
    columns.push(Column { name: "account_id_sha", decl: Decl::TextNotNull });
    columns.push(Column { name: "source", decl: Decl::TextNotNull });
    columns.push(Column { name: "source_native_id", decl: Decl::TextNotNull });
    columns.push(Column { name: "owner_username_sha", decl: Decl::TextNotNull });
    columns.push(Column { name: "visit_time", decl: Decl::IntegerNotNull });
    columns.push(Column { name: "account_id", decl: Decl::TextNotNull });
    columns.push(Column { name: "owner_username", decl: Decl::TextNotNull });
    columns.push(Column { name: "name", decl: Decl::TextNotNull });
    columns.push(Column { name: "profile_url", decl: Decl::TextNotNull });
    assert(columns@ =~= finder_visit_columns());
    columns
}

/// The columns by which the table `finder_visit` tells its rows apart.
pub open spec fn finder_visit_key() -> Seq<Seq<char>> {
    seq!["account_id_sha"@, "source"@, "source_native_id"@]
}

/// A row fills the table: it has a value for every column, and for no other.
pub proof fn law_finder_visit_row_fills_the_table(row: V3FinderVisit)
    ensures
        crate::sql::names(row.row()) == crate::schema::column_names(finder_visit_columns()),
{
    assert(crate::sql::names(row.row()) =~= crate::schema::column_names(finder_visit_columns()));
}

/// Two rows of the table `finder_visit` have the same key exactly where they agree in its fields.
pub proof fn law_finder_visit_key_tells_rows_apart(a: V3FinderVisit, b: V3FinderVisit)
    ensures
        crate::relation::same_key(a.row(), b.row(), finder_visit_key()) <==> {
            &&& a.account_id_sha@ == b.account_id_sha@
            &&& a.source@ == b.source@
            &&& a.source_native_id@ == b.source_native_id@
        },
{
    reveal_strlit("account_id_sha");
    reveal_strlit("source");
    reveal_strlit("source_native_id");
    let (x, y) = (a.row(), b.row());
    assert("account_id_sha"@.len() != "source"@.len());
    assert("account_id_sha"@.len() != "source_native_id"@.len());
    assert("source"@.len() != "source_native_id"@.len());
    let at: Seq<int> = seq![0int, 1, 2];
    crate::relation::lemma_same_key(x, y, finder_visit_key(), at);
    assert(at[0] == 0);
    assert(at[1] == 1);
    assert(at[2] == 2);
}

/// The steps that make the table `finder_visit`.
pub open spec fn finder_visit_steps() -> Seq<Step> {
    seq![
        Step::Create(Table::FinderVisit),
        Step::Index(
            Index {
                name: "idx_finder_visit_time",
                table: "finder_visit",
                columns: "account_id_sha, visit_time DESC",
            },
        ),
    ]
}

/// The steps that make the table `finder_visit`.
pub fn init_finder_visit_table() -> (steps: Vec<Step>)
    ensures
        steps@ == finder_visit_steps(),
{
    let mut steps: Vec<Step> = Vec::new();
    steps.push(Step::Create(Table::FinderVisit));
    steps.push(Step::Index(
        Index {
            name: "idx_finder_visit_time",
            table: "finder_visit",
            columns: "account_id_sha, visit_time DESC",
        },
    ));
    assert(steps@ =~= finder_visit_steps());
    steps
}

/// The statement that stores a row of the table `finder_visit`, in place of the row with the same
/// key.
pub fn insert_finder_visit(v: &V3FinderVisit) -> (statement: Statement)
    ensures
        statement.does(Effect::Replace { table: "finder_visit"@, row: v.row() }),
{
    let mut row = RowBuilder::new();
    row.text("account_id_sha", v.account_id_sha.as_str());
    row.text("source", v.source.as_str());
    row.text("source_native_id", v.source_native_id.as_str());
    row.text("owner_username_sha", v.owner_username_sha.as_str());
    row.integer("visit_time", v.visit_time);
    row.text("account_id", v.account_id.as_str());
    row.text("owner_username", v.owner_username.as_str());
    row.text("name", v.name.as_str());
    row.text("profile_url", v.profile_url.as_str());
    assert(row@ =~= v.row());
    row.replace_into("finder_visit")
}

/// Every field is stored under its own name: the row that `insert_moment` puts in holds in each
/// column the field of that column.
pub proof fn law_moment_fields_keep_their_names(m: &V3Moment, statement: Statement)
    requires
        call_ensures(insert_moment, (m,), statement),
    ensures
        statement.does(Effect::Replace { table: "moment"@, row: m.row() }),
        m.row().len() == 27,
        crate::relation::column(m.row(), "account_id_sha"@) == Val::Text(m.account_id_sha@),
        crate::relation::column(m.row(), "source"@) == Val::Text(m.source@),
        crate::relation::column(m.row(), "source_native_id"@) == Val::Text(m.source_native_id@),
        crate::relation::column(m.row(), "tid"@) == Val::Integer(m.tid as int),
        crate::relation::column(m.row(), "author_sha"@) == Val::Text(m.author_sha@),
        crate::relation::column(m.row(), "create_time"@) == Val::Integer(m.create_time as int),
        crate::relation::column(m.row(), "moment_type"@) == Val::Integer(m.moment_type as int),
        crate::relation::column(m.row(), "account_id"@) == Val::Text(m.account_id@),
        crate::relation::column(m.row(), "author"@) == Val::Text(m.author@),
        crate::relation::column(m.row(), "author_nickname"@) == (match m.author_nickname { Some(t) => Val::Text(t@), None => Val::Null }),
        crate::relation::column(m.row(), "content_desc"@) == Val::Text(m.content_desc@),
        crate::relation::column(m.row(), "content_desc_len"@) == Val::Integer(m.content_desc_len as int),
        crate::relation::column(m.row(), "source_user"@) == (match m.source_user { Some(t) => Val::Text(t@), None => Val::Null }),
        crate::relation::column(m.row(), "location_label"@) == (match m.location_label { Some(t) => Val::Text(t@), None => Val::Null }),
        crate::relation::column(m.row(), "latitude"@) == (match m.latitude { Some(r) => Val::Real(r.bits), None => Val::Null }),
        crate::relation::column(m.row(), "longitude"@) == (match m.longitude { Some(r) => Val::Real(r.bits), None => Val::Null }),
        crate::relation::column(m.row(), "title"@) == (match m.title { Some(t) => Val::Text(t@), None => Val::Null }),
        crate::relation::column(m.row(), "link_url"@) == (match m.link_url { Some(t) => Val::Text(t@), None => Val::Null }),
        crate::relation::column(m.row(), "media_count"@) == Val::Integer(m.media_count as int),
        crate::relation::column(m.row(), "like_count"@) == Val::Integer(m.like_count as int),
        crate::relation::column(m.row(), "comment_count"@) == Val::Integer(m.comment_count as int),
        crate::relation::column(m.row(), "source_nickname"@) == (match m.source_nickname { Some(t) => Val::Text(t@), None => Val::Null }),
        crate::relation::column(m.row(), "is_bidirectional_fan"@) == Val::Integer(m.is_bidirectional_fan as int),
        crate::relation::column(m.row(), "is_rich_text"@) == Val::Integer(m.is_rich_text as int),
        crate::relation::column(m.row(), "public_user_name"@) == (match m.public_user_name { Some(t) => Val::Text(t@), None => Val::Null }),
        crate::relation::column(m.row(), "app_name"@) == (match m.app_name { Some(t) => Val::Text(t@), None => Val::Null }),
        crate::relation::column(m.row(), "content_len"@) == Val::Integer(m.content_len as int),
{
    reveal_strlit("account_id_sha");
    reveal_strlit("source");
    reveal_strlit("source_native_id");
    reveal_strlit("tid");
    reveal_strlit("author_sha");
    reveal_strlit("create_time");
    reveal_strlit("moment_type");
    reveal_strlit("account_id");
    reveal_strlit("author");
    reveal_strlit("author_nickname");
    reveal_strlit("content_desc");
    reveal_strlit("content_desc_len");
    reveal_strlit("source_user");
    reveal_strlit("location_label");
    reveal_strlit("latitude");
    reveal_strlit("longitude");
    reveal_strlit("title");
    reveal_strlit("link_url");
    reveal_strlit("media_count");
    reveal_strlit("like_count");
    reveal_strlit("comment_count");
    reveal_strlit("source_nickname");
    reveal_strlit("is_bidirectional_fan");
    reveal_strlit("is_rich_text");
    reveal_strlit("public_user_name");
    reveal_strlit("app_name");
    reveal_strlit("content_len");
    let row = m.row();
    assert(row[0].0.len() == 14 && row[1].0.len() == 6 && row[2].0.len() == 16);
    assert(row[3].0.len() == 3 && row[4].0.len() == 10 && row[5].0.len() == 11);
    assert(row[6].0.len() == 11 && row[7].0.len() == 10 && row[8].0.len() == 6);
    assert(row[9].0.len() == 15 && row[10].0.len() == 12 && row[11].0.len() == 16);
    assert(row[12].0.len() == 11 && row[13].0.len() == 14 && row[14].0.len() == 8);
    assert(row[15].0.len() == 9 && row[16].0.len() == 5 && row[17].0.len() == 8);
    assert(row[18].0.len() == 11 && row[19].0.len() == 10 && row[20].0.len() == 13);
    assert(row[21].0.len() == 15 && row[22].0.len() == 20 && row[23].0.len() == 12);
    assert(row[24].0.len() == 16 && row[25].0.len() == 8 && row[26].0.len() == 11);
    assert(row[5].0[0] != row[6].0[0]);
    assert(row[4].0[1] != row[7].0[1]);
    assert(row[1].0[0] != row[8].0[0]);
    assert(row[2].0[0] != row[11].0[0]);
    assert(row[5].0[0] != row[12].0[0]);
    assert(row[6].0[0] != row[12].0[0]);
    assert(row[0].0[0] != row[13].0[0]);
    assert(row[14].0[1] != row[17].0[1]);
    assert(row[5].0[0] != row[18].0[0]);
    assert(row[6].0[1] != row[18].0[1]);
    assert(row[12].0[0] != row[18].0[0]);
    assert(row[4].0[0] != row[19].0[0]);
    assert(row[7].0[0] != row[19].0[0]);
    assert(row[9].0[0] != row[21].0[0]);
    assert(row[10].0[0] != row[23].0[0]);
    assert(row[2].0[0] != row[24].0[0]);
    assert(row[11].0[0] != row[24].0[0]);
    assert(row[14].0[0] != row[25].0[0]);
    assert(row[17].0[0] != row[25].0[0]);
    assert(row[5].0[1] != row[26].0[1]);
    assert(row[6].0[0] != row[26].0[0]);
    assert(row[12].0[0] != row[26].0[0]);
    assert(row[18].0[0] != row[26].0[0]);
    crate::relation::lemma_column_at(row, 0);
    crate::relation::lemma_column_at(row, 1);
    crate::relation::lemma_column_at(row, 2);
    crate::relation::lemma_column_at(row, 3);
    crate::relation::lemma_column_at(row, 4);
    crate::relation::lemma_column_at(row, 5);
    crate::relation::lemma_column_at(row, 6);
    crate::relation::lemma_column_at(row, 7);
    crate::relation::lemma_column_at(row, 8);
    crate::relation::lemma_column_at(row, 9);
    crate::relation::lemma_column_at(row, 10);
    crate::relation::lemma_column_at(row, 11);
    crate::relation::lemma_column_at(row, 12);
    crate::relation::lemma_column_at(row, 13);
    crate::relation::lemma_column_at(row, 14);
    crate::relation::lemma_column_at(row, 15);
    crate::relation::lemma_column_at(row, 16);
    crate::relation::lemma_column_at(row, 17);
    crate::relation::lemma_column_at(row, 18);
    crate::relation::lemma_column_at(row, 19);
    crate::relation::lemma_column_at(row, 20);
    crate::relation::lemma_column_at(row, 21);
    crate::relation::lemma_column_at(row, 22);
    crate::relation::lemma_column_at(row, 23);
    crate::relation::lemma_column_at(row, 24);
    crate::relation::lemma_column_at(row, 25);
    crate::relation::lemma_column_at(row, 26);
}


/// Every field is stored under its own name: the row that `insert_moment_media` puts in holds in each
/// column the field of that column.
pub proof fn law_moment_media_fields_keep_their_names(m: &V3MomentMedia, statement: Statement)
    requires
        call_ensures(insert_moment_media, (m,), statement),
    ensures
        statement.does(Effect::Replace { table: "moment_media"@, row: m.row() }),
        m.row().len() == 19,
        crate::relation::column(m.row(), "account_id_sha"@) == Val::Text(m.account_id_sha@),
        crate::relation::column(m.row(), "source"@) == Val::Text(m.source@),
        crate::relation::column(m.row(), "source_native_id"@) == Val::Text(m.source_native_id@),
        crate::relation::column(m.row(), "media_seq"@) == Val::Integer(m.media_seq as int),
        crate::relation::column(m.row(), "media_type"@) == Val::Integer(m.media_type as int),
        crate::relation::column(m.row(), "account_id"@) == Val::Text(m.account_id@),
        crate::relation::column(m.row(), "media_id"@) == (match m.media_id { Some(t) => Val::Text(t@), None => Val::Null }),
        crate::relation::column(m.row(), "url"@) == (match m.url { Some(t) => Val::Text(t@), None => Val::Null }),
        crate::relation::column(m.row(), "thumb_url"@) == (match m.thumb_url { Some(t) => Val::Text(t@), None => Val::Null }),
        crate::relation::column(m.row(), "md5"@) == (match m.md5 { Some(t) => Val::Text(t@), None => Val::Null }),
        crate::relation::column(m.row(), "video_md5"@) == (match m.video_md5 { Some(t) => Val::Text(t@), None => Val::Null }),
        crate::relation::column(m.row(), "url_key"@) == (match m.url_key { Some(t) => Val::Text(t@), None => Val::Null }),
        crate::relation::column(m.row(), "enc_idx"@) == (match m.enc_idx { Some(t) => Val::Text(t@), None => Val::Null }),
        crate::relation::column(m.row(), "token"@) == (match m.token { Some(t) => Val::Text(t@), None => Val::Null }),
        crate::relation::column(m.row(), "enc_key"@) == (match m.enc_key { Some(t) => Val::Text(t@), None => Val::Null }),
        crate::relation::column(m.row(), "width"@) == Val::Integer(m.width as int),
        crate::relation::column(m.row(), "height"@) == Val::Integer(m.height as int),
        crate::relation::column(m.row(), "total_size"@) == Val::Integer(m.total_size as int),
        crate::relation::column(m.row(), "video_duration"@) == (match m.video_duration { Some(r) => Val::Real(r.bits), None => Val::Null }),
{
    reveal_strlit("account_id_sha");
    reveal_strlit("source");
    reveal_strlit("source_native_id");
    reveal_strlit("media_seq");
    reveal_strlit("media_type");
    reveal_strlit("account_id");
    reveal_strlit("media_id");
    reveal_strlit("url");
    reveal_strlit("thumb_url");
    reveal_strlit("md5");
    reveal_strlit("video_md5");
    reveal_strlit("url_key");
    reveal_strlit("enc_idx");
    reveal_strlit("token");
    reveal_strlit("enc_key");
    reveal_strlit("width");
    reveal_strlit("height");
    reveal_strlit("total_size");
    reveal_strlit("video_duration");
    let row = m.row();
    assert(row[0].0.len() == 14 && row[1].0.len() == 6 && row[2].0.len() == 16);
    assert(row[3].0.len() == 9 && row[4].0.len() == 10 && row[5].0.len() == 10);
    assert(row[6].0.len() == 8 && row[7].0.len() == 3 && row[8].0.len() == 9);
    assert(row[9].0.len() == 3 && row[10].0.len() == 9 && row[11].0.len() == 7);
    assert(row[12].0.len() == 7 && row[13].0.len() == 5 && row[14].0.len() == 7);
    assert(row[15].0.len() == 5 && row[16].0.len() == 6 && row[17].0.len() == 10);
    assert(row[18].0.len() == 14);
    assert(row[4].0[0] != row[5].0[0]);
    assert(row[3].0[0] != row[8].0[0]);
    assert(row[7].0[0] != row[9].0[0]);
    assert(row[3].0[0] != row[10].0[0]);
    assert(row[8].0[0] != row[10].0[0]);
    assert(row[11].0[0] != row[12].0[0]);
    assert(row[11].0[0] != row[14].0[0]);
    assert(row[12].0[4] != row[14].0[4]);
    assert(row[13].0[0] != row[15].0[0]);
    assert(row[1].0[0] != row[16].0[0]);
    assert(row[4].0[0] != row[17].0[0]);
    assert(row[5].0[0] != row[17].0[0]);
    assert(row[0].0[0] != row[18].0[0]);
    crate::relation::lemma_column_at(row, 0);
    crate::relation::lemma_column_at(row, 1);
    crate::relation::lemma_column_at(row, 2);
    crate::relation::lemma_column_at(row, 3);
    crate::relation::lemma_column_at(row, 4);
    crate::relation::lemma_column_at(row, 5);
    crate::relation::lemma_column_at(row, 6);
    crate::relation::lemma_column_at(row, 7);
    crate::relation::lemma_column_at(row, 8);
    crate::relation::lemma_column_at(row, 9);
    crate::relation::lemma_column_at(row, 10);
    crate::relation::lemma_column_at(row, 11);
    crate::relation::lemma_column_at(row, 12);
    crate::relation::lemma_column_at(row, 13);
    crate::relation::lemma_column_at(row, 14);
    crate::relation::lemma_column_at(row, 15);
    crate::relation::lemma_column_at(row, 16);
    crate::relation::lemma_column_at(row, 17);
    crate::relation::lemma_column_at(row, 18);
}


/// Every field is stored under its own name: the row that `insert_moment_interaction` puts in holds in each
/// column the field of that column.
pub proof fn law_moment_interaction_fields_keep_their_names(m: &V3MomentInteraction, statement: Statement)
    requires
        call_ensures(insert_moment_interaction, (m,), statement),
    ensures
        statement.does(Effect::Replace { table: "moment_interaction"@, row: m.row() }),
        m.row().len() == 15,
        crate::relation::column(m.row(), "account_id_sha"@) == Val::Text(m.account_id_sha@),
        crate::relation::column(m.row(), "source"@) == Val::Text(m.source@),
        crate::relation::column(m.row(), "source_native_id"@) == Val::Text(m.source_native_id@),
        crate::relation::column(m.row(), "interaction_seq"@) == Val::Integer(m.interaction_seq as int),
        crate::relation::column(m.row(), "kind"@) == Val::Text(m.kind@),
        crate::relation::column(m.row(), "type_raw"@) == Val::Integer(m.type_raw as int),
        crate::relation::column(m.row(), "from_user_sha"@) == Val::Text(m.from_user_sha@),
        crate::relation::column(m.row(), "account_id"@) == Val::Text(m.account_id@),
        crate::relation::column(m.row(), "from_user"@) == (match m.from_user { Some(t) => Val::Text(t@), None => Val::Null }),
        crate::relation::column(m.row(), "from_nickname"@) == (match m.from_nickname { Some(t) => Val::Text(t@), None => Val::Null }),
        crate::relation::column(m.row(), "content"@) == (match m.content { Some(t) => Val::Text(t@), None => Val::Null }),
        crate::relation::column(m.row(), "comment_id"@) == (match m.comment_id { Some(t) => Val::Text(t@), None => Val::Null }),
        crate::relation::column(m.row(), "ref_username"@) == (match m.ref_username { Some(t) => Val::Text(t@), None => Val::Null }),
        crate::relation::column(m.row(), "ref_comment_id"@) == (match m.ref_comment_id { Some(t) => Val::Text(t@), None => Val::Null }),
        crate::relation::column(m.row(), "create_time"@) == Val::Integer(m.create_time as int),
{
    reveal_strlit("account_id_sha");
    reveal_strlit("source");
    reveal_strlit("source_native_id");
    reveal_strlit("interaction_seq");
    reveal_strlit("kind");
    reveal_strlit("type_raw");
    reveal_strlit("from_user_sha");
    reveal_strlit("account_id");
    reveal_strlit("from_user");
    reveal_strlit("from_nickname");
    reveal_strlit("content");
    reveal_strlit("comment_id");
    reveal_strlit("ref_username");
    reveal_strlit("ref_comment_id");
    reveal_strlit("create_time");
    let row = m.row();
    assert(row[0].0.len() == 14 && row[1].0.len() == 6 && row[2].0.len() == 16);
    assert(row[3].0.len() == 15 && row[4].0.len() == 4 && row[5].0.len() == 8);
    assert(row[6].0.len() == 13 && row[7].0.len() == 10 && row[8].0.len() == 9);
    assert(row[9].0.len() == 13 && row[10].0.len() == 7 && row[11].0.len() == 10);
    assert(row[12].0.len() == 12 && row[13].0.len() == 14 && row[14].0.len() == 11);
    assert(row[6].0[5] != row[9].0[5]);
    assert(row[7].0[0] != row[11].0[0]);
    assert(row[0].0[0] != row[13].0[0]);
    crate::relation::lemma_column_at(row, 0);
    crate::relation::lemma_column_at(row, 1);
    crate::relation::lemma_column_at(row, 2);
    crate::relation::lemma_column_at(row, 3);
    crate::relation::lemma_column_at(row, 4);
    crate::relation::lemma_column_at(row, 5);
    crate::relation::lemma_column_at(row, 6);
    crate::relation::lemma_column_at(row, 7);
    crate::relation::lemma_column_at(row, 8);
    crate::relation::lemma_column_at(row, 9);
    crate::relation::lemma_column_at(row, 10);
    crate::relation::lemma_column_at(row, 11);
    crate::relation::lemma_column_at(row, 12);
    crate::relation::lemma_column_at(row, 13);
    crate::relation::lemma_column_at(row, 14);
}


/// Every field is stored under its own name: the row that `insert_moment_feed` puts in holds in each
/// column the field of that column.
pub proof fn law_moment_feed_fields_keep_their_names(m: &V3MomentFeed, statement: Statement)
    requires
        call_ensures(insert_moment_feed, (m,), statement),
    ensures
        statement.does(Effect::Replace { table: "moment_feed"@, row: m.row() }),
        m.row().len() == 10,
        crate::relation::column(m.row(), "account_id_sha"@) == Val::Text(m.account_id_sha@),
        crate::relation::column(m.row(), "source"@) == Val::Text(m.source@),
        crate::relation::column(m.row(), "source_native_id"@) == Val::Text(m.source_native_id@),
        crate::relation::column(m.row(), "tid"@) == Val::Integer(m.tid as int),
        crate::relation::column(m.row(), "author_sha"@) == Val::Text(m.author_sha@),
        crate::relation::column(m.row(), "create_time"@) == Val::Integer(m.create_time as int),
        crate::relation::column(m.row(), "last_read_time"@) == Val::Integer(m.last_read_time as int),
        crate::relation::column(m.row(), "is_read"@) == Val::Integer(m.is_read as int),
        crate::relation::column(m.row(), "account_id"@) == Val::Text(m.account_id@),
        crate::relation::column(m.row(), "author"@) == Val::Text(m.author@),
{
    reveal_strlit("account_id_sha");
    reveal_strlit("source");
    reveal_strlit("source_native_id");
    reveal_strlit("tid");
    reveal_strlit("author_sha");
    reveal_strlit("create_time");
    reveal_strlit("last_read_time");
    reveal_strlit("is_read");
    reveal_strlit("account_id");
    reveal_strlit("author");
    let row = m.row();
    assert(row[0].0.len() == 14 && row[1].0.len() == 6 && row[2].0.len() == 16);
    assert(row[3].0.len() == 3 && row[4].0.len() == 10 && row[5].0.len() == 11);
    assert(row[6].0.len() == 14 && row[7].0.len() == 7 && row[8].0.len() == 10);
    assert(row[9].0.len() == 6);
    assert(row[0].0[0] != row[6].0[0]);
    assert(row[4].0[1] != row[8].0[1]);
    assert(row[1].0[0] != row[9].0[0]);
    crate::relation::lemma_column_at(row, 0);
    crate::relation::lemma_column_at(row, 1);
    crate::relation::lemma_column_at(row, 2);
    crate::relation::lemma_column_at(row, 3);
    crate::relation::lemma_column_at(row, 4);
    crate::relation::lemma_column_at(row, 5);
    crate::relation::lemma_column_at(row, 6);
    crate::relation::lemma_column_at(row, 7);
    crate::relation::lemma_column_at(row, 8);
    crate::relation::lemma_column_at(row, 9);
}


/// Every field is stored under its own name: the row that `insert_sns_notify` puts in holds in each
/// column the field of that column.
pub proof fn law_sns_notify_fields_keep_their_names(m: &V3SnsNotify, statement: Statement)
    requires
        call_ensures(insert_sns_notify, (m,), statement),
    ensures
        statement.does(Effect::Replace { table: "sns_notify"@, row: m.row() }),
        m.row().len() == 18,
        crate::relation::column(m.row(), "account_id_sha"@) == Val::Text(m.account_id_sha@),
        crate::relation::column(m.row(), "source"@) == Val::Text(m.source@),
        crate::relation::column(m.row(), "source_native_id"@) == Val::Text(m.source_native_id@),
        crate::relation::column(m.row(), "comment_id"@) == Val::Integer(m.comment_id as int),
        crate::relation::column(m.row(), "feed_id"@) == Val::Integer(m.feed_id as int),
        crate::relation::column(m.row(), "notify_type"@) == Val::Integer(m.notify_type as int),
        crate::relation::column(m.row(), "from_user_sha"@) == Val::Text(m.from_user_sha@),
        crate::relation::column(m.row(), "create_time"@) == Val::Integer(m.create_time as int),
        crate::relation::column(m.row(), "to_user_sha"@) == (match m.to_user_sha { Some(t) => Val::Text(t@), None => Val::Null }),
        crate::relation::column(m.row(), "is_unread"@) == Val::Integer(m.is_unread as int),
        crate::relation::column(m.row(), "del_status"@) == Val::Integer(m.del_status as int),
        crate::relation::column(m.row(), "is_relative_me"@) == Val::Integer(m.is_relative_me as int),
        crate::relation::column(m.row(), "account_id"@) == Val::Text(m.account_id@),
        crate::relation::column(m.row(), "from_user"@) == Val::Text(m.from_user@),
        crate::relation::column(m.row(), "to_user"@) == (match m.to_user { Some(t) => Val::Text(t@), None => Val::Null }),
        crate::relation::column(m.row(), "from_nickname"@) == (match m.from_nickname { Some(t) => Val::Text(t@), None => Val::Null }),
        crate::relation::column(m.row(), "to_nickname"@) == (match m.to_nickname { Some(t) => Val::Text(t@), None => Val::Null }),
        crate::relation::column(m.row(), "content"@) == (match m.content { Some(t) => Val::Text(t@), None => Val::Null }),
{
    reveal_strlit("account_id_sha");
    reveal_strlit("source");
    reveal_strlit("source_native_id");
    reveal_strlit("comment_id");
    reveal_strlit("feed_id");
    reveal_strlit("notify_type");
    reveal_strlit("from_user_sha");
    reveal_strlit("create_time");
    reveal_strlit("to_user_sha");
    reveal_strlit("is_unread");
    reveal_strlit("del_status");
    reveal_strlit("is_relative_me");
    reveal_strlit("account_id");
    reveal_strlit("from_user");
    reveal_strlit("to_user");
    reveal_strlit("from_nickname");
    reveal_strlit("to_nickname");
    reveal_strlit("content");
    let row = m.row();
    assert(row[0].0.len() == 14 && row[1].0.len() == 6 && row[2].0.len() == 16);
    assert(row[3].0.len() == 10 && row[4].0.len() == 7 && row[5].0.len() == 11);
    assert(row[6].0.len() == 13 && row[7].0.len() == 11 && row[8].0.len() == 11);
    assert(row[9].0.len() == 9 && row[10].0.len() == 10 && row[11].0.len() == 14);
    assert(row[12].0.len() == 10 && row[13].0.len() == 9 && row[14].0.len() == 7);
    assert(row[15].0.len() == 13 && row[16].0.len() == 11 && row[17].0.len() == 7);
    assert(row[5].0[0] != row[7].0[0]);
    assert(row[5].0[0] != row[8].0[0]);
    assert(row[7].0[0] != row[8].0[0]);
    assert(row[3].0[0] != row[10].0[0]);
    assert(row[0].0[0] != row[11].0[0]);
    assert(row[3].0[0] != row[12].0[0]);
    assert(row[10].0[0] != row[12].0[0]);
    assert(row[9].0[0] != row[13].0[0]);
    assert(row[4].0[0] != row[14].0[0]);
    assert(row[6].0[5] != row[15].0[5]);
    assert(row[5].0[0] != row[16].0[0]);
    assert(row[7].0[0] != row[16].0[0]);
    assert(row[8].0[3] != row[16].0[3]);
    assert(row[4].0[0] != row[17].0[0]);
    assert(row[14].0[0] != row[17].0[0]);
    crate::relation::lemma_column_at(row, 0);
    crate::relation::lemma_column_at(row, 1);
    crate::relation::lemma_column_at(row, 2);
    crate::relation::lemma_column_at(row, 3);
    crate::relation::lemma_column_at(row, 4);
    crate::relation::lemma_column_at(row, 5);
    crate::relation::lemma_column_at(row, 6);
    crate::relation::lemma_column_at(row, 7);
    crate::relation::lemma_column_at(row, 8);
    crate::relation::lemma_column_at(row, 9);
    crate::relation::lemma_column_at(row, 10);
    crate::relation::lemma_column_at(row, 11);
    crate::relation::lemma_column_at(row, 12);
    crate::relation::lemma_column_at(row, 13);
    crate::relation::lemma_column_at(row, 14);
    crate::relation::lemma_column_at(row, 15);
    crate::relation::lemma_column_at(row, 16);
    crate::relation::lemma_column_at(row, 17);
}


/// Every field is stored under its own name: the row that `insert_finder_visit` puts in holds in each
/// column the field of that column.
pub proof fn law_finder_visit_fields_keep_their_names(m: &V3FinderVisit, statement: Statement)
    requires
        call_ensures(insert_finder_visit, (m,), statement),
    ensures
        statement.does(Effect::Replace { table: "finder_visit"@, row: m.row() }),
        m.row().len() == 9,
        crate::relation::column(m.row(), "account_id_sha"@) == Val::Text(m.account_id_sha@),
        crate::relation::column(m.row(), "source"@) == Val::Text(m.source@),
        crate::relation::column(m.row(), "source_native_id"@) == Val::Text(m.source_native_id@),
        crate::relation::column(m.row(), "owner_username_sha"@) == Val::Text(m.owner_username_sha@),
        crate::relation::column(m.row(), "visit_time"@) == Val::Integer(m.visit_time as int),
        crate::relation::column(m.row(), "account_id"@) == Val::Text(m.account_id@),
        crate::relation::column(m.row(), "owner_username"@) == Val::Text(m.owner_username@),
        crate::relation::column(m.row(), "name"@) == Val::Text(m.name@),
        crate::relation::column(m.row(), "profile_url"@) == Val::Text(m.profile_url@),
{
    reveal_strlit("account_id_sha");
    reveal_strlit("source");
    reveal_strlit("source_native_id");
    reveal_strlit("owner_username_sha");
    reveal_strlit("visit_time");
    reveal_strlit("account_id");
    reveal_strlit("owner_username");
    reveal_strlit("name");
    reveal_strlit("profile_url");
    let row = m.row();
    assert(row[0].0.len() == 14 && row[1].0.len() == 6 && row[2].0.len() == 16);
    assert(row[3].0.len() == 18 && row[4].0.len() == 10 && row[5].0.len() == 10);
    assert(row[6].0.len() == 14 && row[7].0.len() == 4 && row[8].0.len() == 11);
    assert(row[4].0[0] != row[5].0[0]);
    assert(row[0].0[0] != row[6].0[0]);
    crate::relation::lemma_column_at(row, 0);
    crate::relation::lemma_column_at(row, 1);
    crate::relation::lemma_column_at(row, 2);
    crate::relation::lemma_column_at(row, 3);
    crate::relation::lemma_column_at(row, 4);
    crate::relation::lemma_column_at(row, 5);
    crate::relation::lemma_column_at(row, 6);
    crate::relation::lemma_column_at(row, 7);
    crate::relation::lemma_column_at(row, 8);
}


/// What a log shows of `V3Moment`: each of these fields under its name, in the form that is said
/// here, and nothing else. What is not shown as it is stays hidden.
pub proof fn law_moment_shows_only_these_fields(m: &V3Moment, row: DebugRow)
    requires
        call_ensures(V3Moment::debug_row, (m,), row),
    ensures
        row.name@ == "V3Moment"@,
        row.complete == false,
        row.fields@.len() == 27,
        row.fields@.contains(("account_id_sha", Shown::Text(m.account_id_sha))),
        row.fields@.contains(("source", Shown::Text(m.source))),
        row.fields@.contains(("source_native_id", Shown::Text(m.source_native_id))),
        row.fields@.contains(("tid", Shown::Integer(m.tid))),
        row.fields@.contains(("author_sha", Shown::Text(m.author_sha))),
        row.fields@.contains(("create_time", Shown::Integer(m.create_time))),
        row.fields@.contains(("moment_type", Shown::Integer(m.moment_type))),
        row.fields@.contains(("account_id_sha8", Shown::Digest(m.account_id))),
        row.fields@.contains(("author_sha8", Shown::Digest(m.author))),
        row.fields@.contains(("author_nickname_sha8", Shown::NullableDigest(m.author_nickname))),
        row.fields@.contains(("content_desc_sha8", Shown::Digest(m.content_desc))),
        row.fields@.contains(("content_desc_len", Shown::Integer(m.content_desc_len))),
        row.fields@.contains(("source_user_sha8", Shown::NullableDigest(m.source_user))),
        row.fields@.contains(("location_label_len", Shown::NullableCount((match m.location_label { Some(t) => Some(t@.len() as usize), None => None })))),
        row.fields@.contains(("latitude", Shown::NullableReal(m.latitude))),
        row.fields@.contains(("longitude", Shown::NullableReal(m.longitude))),
        row.fields@.contains(("title_sha8", Shown::NullableDigest(m.title))),
        row.fields@.contains(("link_url_sha8", Shown::NullableDigest(m.link_url))),
        row.fields@.contains(("media_count", Shown::Integer(m.media_count))),
        row.fields@.contains(("like_count", Shown::Integer(m.like_count))),
        row.fields@.contains(("comment_count", Shown::Integer(m.comment_count))),
        row.fields@.contains(("source_nickname_sha8", Shown::NullableDigest(m.source_nickname))),
        row.fields@.contains(("is_bidirectional_fan", Shown::Integer(m.is_bidirectional_fan))),
        row.fields@.contains(("is_rich_text", Shown::Integer(m.is_rich_text))),
        row.fields@.contains(("public_user_name_sha8", Shown::NullableDigest(m.public_user_name))),
        row.fields@.contains(("app_name_sha8", Shown::NullableDigest(m.app_name))),
        row.fields@.contains(("content_len", Shown::Integer(m.content_len))),
{
    let fields = row.fields@;
    assert(fields[0] == ("account_id_sha", Shown::Text(m.account_id_sha)));
    assert(fields[1] == ("source", Shown::Text(m.source)));
    assert(fields[2] == ("source_native_id", Shown::Text(m.source_native_id)));
    assert(fields[3] == ("tid", Shown::Integer(m.tid)));
    assert(fields[4] == ("author_sha", Shown::Text(m.author_sha)));
    assert(fields[5] == ("create_time", Shown::Integer(m.create_time)));
    assert(fields[6] == ("moment_type", Shown::Integer(m.moment_type)));
    assert(fields[7] == ("account_id_sha8", Shown::Digest(m.account_id)));
    assert(fields[8] == ("author_sha8", Shown::Digest(m.author)));
    assert(fields[9] == ("author_nickname_sha8", Shown::NullableDigest(m.author_nickname)));
    assert(fields[10] == ("content_desc_sha8", Shown::Digest(m.content_desc)));
    assert(fields[11] == ("content_desc_len", Shown::Integer(m.content_desc_len)));
    assert(fields[12] == ("source_user_sha8", Shown::NullableDigest(m.source_user)));
    assert(fields[13] == ("location_label_len", Shown::NullableCount((match m.location_label { Some(t) => Some(t@.len() as usize), None => None }))));
    assert(fields[14] == ("latitude", Shown::NullableReal(m.latitude)));
    assert(fields[15] == ("longitude", Shown::NullableReal(m.longitude)));
    assert(fields[16] == ("title_sha8", Shown::NullableDigest(m.title)));
    assert(fields[17] == ("link_url_sha8", Shown::NullableDigest(m.link_url)));
    assert(fields[18] == ("media_count", Shown::Integer(m.media_count)));
    assert(fields[19] == ("like_count", Shown::Integer(m.like_count)));
    assert(fields[20] == ("comment_count", Shown::Integer(m.comment_count)));
    assert(fields[21] == ("source_nickname_sha8", Shown::NullableDigest(m.source_nickname)));
    assert(fields[22] == ("is_bidirectional_fan", Shown::Integer(m.is_bidirectional_fan)));
    assert(fields[23] == ("is_rich_text", Shown::Integer(m.is_rich_text)));
    assert(fields[24] == ("public_user_name_sha8", Shown::NullableDigest(m.public_user_name)));
    assert(fields[25] == ("app_name_sha8", Shown::NullableDigest(m.app_name)));
    assert(fields[26] == ("content_len", Shown::Integer(m.content_len)));
}

/// What a log shows of `V3MomentMedia`: each of these fields under its name, in the form that is said
/// here, and nothing else. What is not shown as it is stays hidden.
pub proof fn law_moment_media_shows_only_these_fields(m: &V3MomentMedia, row: DebugRow)
    requires
        call_ensures(V3MomentMedia::debug_row, (m,), row),
    ensures
        row.name@ == "V3MomentMedia"@,
        row.complete == false,
        row.fields@.len() == 19,
        row.fields@.contains(("account_id_sha", Shown::Text(m.account_id_sha))),
        row.fields@.contains(("source", Shown::Text(m.source))),
        row.fields@.contains(("source_native_id", Shown::Text(m.source_native_id))),
        row.fields@.contains(("media_seq", Shown::Integer(m.media_seq))),
        row.fields@.contains(("media_type", Shown::Integer(m.media_type))),
        row.fields@.contains(("account_id_sha8", Shown::Digest(m.account_id))),
        row.fields@.contains(("media_id_sha8", Shown::NullableDigest(m.media_id))),
        row.fields@.contains(("url_sha8", Shown::NullableDigest(m.url))),
        row.fields@.contains(("thumb_url_sha8", Shown::NullableDigest(m.thumb_url))),
        row.fields@.contains(("md5_sha8", Shown::NullableDigest(m.md5))),
        row.fields@.contains(("video_md5_sha8", Shown::NullableDigest(m.video_md5))),
        row.fields@.contains(("url_key_sha8", Shown::NullableDigest(m.url_key))),
        row.fields@.contains(("enc_idx", Shown::NullableText(m.enc_idx))),
        row.fields@.contains(("token_sha8", Shown::NullableDigest(m.token))),
        row.fields@.contains(("enc_key_sha8", Shown::NullableDigest(m.enc_key))),
        row.fields@.contains(("width", Shown::Integer(m.width))),
        row.fields@.contains(("height", Shown::Integer(m.height))),
        row.fields@.contains(("total_size", Shown::Integer(m.total_size))),
        row.fields@.contains(("video_duration", Shown::NullableReal(m.video_duration))),
{
    let fields = row.fields@;
    assert(fields[0] == ("account_id_sha", Shown::Text(m.account_id_sha)));
    assert(fields[1] == ("source", Shown::Text(m.source)));
    assert(fields[2] == ("source_native_id", Shown::Text(m.source_native_id)));
    assert(fields[3] == ("media_seq", Shown::Integer(m.media_seq)));
    assert(fields[4] == ("media_type", Shown::Integer(m.media_type)));
    assert(fields[5] == ("account_id_sha8", Shown::Digest(m.account_id)));
    assert(fields[6] == ("media_id_sha8", Shown::NullableDigest(m.media_id)));
    assert(fields[7] == ("url_sha8", Shown::NullableDigest(m.url)));
    assert(fields[8] == ("thumb_url_sha8", Shown::NullableDigest(m.thumb_url)));
    assert(fields[9] == ("md5_sha8", Shown::NullableDigest(m.md5)));
    assert(fields[10] == ("video_md5_sha8", Shown::NullableDigest(m.video_md5)));
    assert(fields[11] == ("url_key_sha8", Shown::NullableDigest(m.url_key)));
    assert(fields[12] == ("enc_idx", Shown::NullableText(m.enc_idx)));
    assert(fields[13] == ("token_sha8", Shown::NullableDigest(m.token)));
    assert(fields[14] == ("enc_key_sha8", Shown::NullableDigest(m.enc_key)));
    assert(fields[15] == ("width", Shown::Integer(m.width)));
    assert(fields[16] == ("height", Shown::Integer(m.height)));
    assert(fields[17] == ("total_size", Shown::Integer(m.total_size)));
    assert(fields[18] == ("video_duration", Shown::NullableReal(m.video_duration)));
}

/// What a log shows of `V3MomentInteraction`: each of these fields under its name, in the form that is said
/// here, and nothing else. What is not shown as it is stays hidden.
pub proof fn law_moment_interaction_shows_only_these_fields(m: &V3MomentInteraction, row: DebugRow)
    requires
        call_ensures(V3MomentInteraction::debug_row, (m,), row),
    ensures
        row.name@ == "V3MomentInteraction"@,
        row.complete == false,
        row.fields@.len() == 15,
        row.fields@.contains(("account_id_sha", Shown::Text(m.account_id_sha))),
        row.fields@.contains(("source", Shown::Text(m.source))),
        row.fields@.contains(("source_native_id", Shown::Text(m.source_native_id))),
        row.fields@.contains(("interaction_seq", Shown::Integer(m.interaction_seq))),
        row.fields@.contains(("kind", Shown::Text(m.kind))),
        row.fields@.contains(("type_raw", Shown::Integer(m.type_raw))),
        row.fields@.contains(("from_user_sha", Shown::Text(m.from_user_sha))),
        row.fields@.contains(("account_id_sha8", Shown::Digest(m.account_id))),
        row.fields@.contains(("from_user_sha8", Shown::NullableDigest(m.from_user))),
        row.fields@.contains(("from_nickname_sha8", Shown::NullableDigest(m.from_nickname))),
        row.fields@.contains(("content_sha8", Shown::NullableDigest(m.content))),
        row.fields@.contains(("comment_id", Shown::NullableText(m.comment_id))),
        row.fields@.contains(("ref_username_sha8", Shown::NullableDigest(m.ref_username))),
        row.fields@.contains(("ref_comment_id", Shown::NullableText(m.ref_comment_id))),
        row.fields@.contains(("create_time", Shown::Integer(m.create_time))),
{
    let fields = row.fields@;
    assert(fields[0] == ("account_id_sha", Shown::Text(m.account_id_sha)));
    assert(fields[1] == ("source", Shown::Text(m.source)));
    assert(fields[2] == ("source_native_id", Shown::Text(m.source_native_id)));
    assert(fields[3] == ("interaction_seq", Shown::Integer(m.interaction_seq)));
    assert(fields[4] == ("kind", Shown::Text(m.kind)));
    assert(fields[5] == ("type_raw", Shown::Integer(m.type_raw)));
    assert(fields[6] == ("from_user_sha", Shown::Text(m.from_user_sha)));
    assert(fields[7] == ("account_id_sha8", Shown::Digest(m.account_id)));
    assert(fields[8] == ("from_user_sha8", Shown::NullableDigest(m.from_user)));
    assert(fields[9] == ("from_nickname_sha8", Shown::NullableDigest(m.from_nickname)));
    assert(fields[10] == ("content_sha8", Shown::NullableDigest(m.content)));
    assert(fields[11] == ("comment_id", Shown::NullableText(m.comment_id)));
    assert(fields[12] == ("ref_username_sha8", Shown::NullableDigest(m.ref_username)));
    assert(fields[13] == ("ref_comment_id", Shown::NullableText(m.ref_comment_id)));
    assert(fields[14] == ("create_time", Shown::Integer(m.create_time)));
}

/// What a log shows of `V3MomentFeed`: each of these fields under its name, in the form that is said
/// here, and nothing else. What is not shown as it is stays hidden.
pub proof fn law_moment_feed_shows_only_these_fields(m: &V3MomentFeed, row: DebugRow)
    requires
        call_ensures(V3MomentFeed::debug_row, (m,), row),
    ensures
        row.name@ == "V3MomentFeed"@,
        row.complete == false,
        row.fields@.len() == 9,
        row.fields@.contains(("account_id_sha", Shown::Text(m.account_id_sha))),
        row.fields@.contains(("source", Shown::Text(m.source))),
        row.fields@.contains(("source_native_id", Shown::Text(m.source_native_id))),
        row.fields@.contains(("tid", Shown::Integer(m.tid))),
        row.fields@.contains(("author_sha", Shown::Text(m.author_sha))),
        row.fields@.contains(("create_time", Shown::Integer(m.create_time))),
        row.fields@.contains(("last_read_time", Shown::Integer(m.last_read_time))),
        row.fields@.contains(("is_read", Shown::Integer(m.is_read))),
        row.fields@.contains(("account_id_sha8", Shown::Digest(m.account_id))),
{
    let fields = row.fields@;
    assert(fields[0] == ("account_id_sha", Shown::Text(m.account_id_sha)));
    assert(fields[1] == ("source", Shown::Text(m.source)));
    assert(fields[2] == ("source_native_id", Shown::Text(m.source_native_id)));
    assert(fields[3] == ("tid", Shown::Integer(m.tid)));
    assert(fields[4] == ("author_sha", Shown::Text(m.author_sha)));
    assert(fields[5] == ("create_time", Shown::Integer(m.create_time)));
    assert(fields[6] == ("last_read_time", Shown::Integer(m.last_read_time)));
    assert(fields[7] == ("is_read", Shown::Integer(m.is_read)));
    assert(fields[8] == ("account_id_sha8", Shown::Digest(m.account_id)));
}

/// What a log shows of `V3SnsNotify`: each of these fields under its name, in the form that is said
/// here, and nothing else. What is not shown as it is stays hidden.
pub proof fn law_sns_notify_shows_only_these_fields(m: &V3SnsNotify, row: DebugRow)
    requires
        call_ensures(V3SnsNotify::debug_row, (m,), row),
    ensures
        row.name@ == "V3SnsNotify"@,
        row.complete == false,
        row.fields@.len() == 16,
        row.fields@.contains(("account_id_sha", Shown::Text(m.account_id_sha))),
        row.fields@.contains(("source", Shown::Text(m.source))),
        row.fields@.contains(("source_native_id", Shown::Text(m.source_native_id))),
        row.fields@.contains(("comment_id", Shown::Integer(m.comment_id))),
        row.fields@.contains(("feed_id", Shown::Integer(m.feed_id))),
        row.fields@.contains(("notify_type", Shown::Integer(m.notify_type))),
        row.fields@.contains(("from_user_sha", Shown::Text(m.from_user_sha))),
        row.fields@.contains(("create_time", Shown::Integer(m.create_time))),
        row.fields@.contains(("to_user_sha", Shown::NullableText(m.to_user_sha))),
        row.fields@.contains(("is_unread", Shown::Integer(m.is_unread))),
        row.fields@.contains(("del_status", Shown::Integer(m.del_status))),
        row.fields@.contains(("is_relative_me", Shown::Integer(m.is_relative_me))),
        row.fields@.contains(("account_id_sha8", Shown::Digest(m.account_id))),
        row.fields@.contains(("from_nickname_sha8", Shown::NullableDigest(m.from_nickname))),
        row.fields@.contains(("to_nickname_sha8", Shown::NullableDigest(m.to_nickname))),
        row.fields@.contains(("content_sha8", Shown::NullableDigest(m.content))),
{
    let fields = row.fields@;
    assert(fields[0] == ("account_id_sha", Shown::Text(m.account_id_sha)));
    assert(fields[1] == ("source", Shown::Text(m.source)));
    assert(fields[2] == ("source_native_id", Shown::Text(m.source_native_id)));
    assert(fields[3] == ("comment_id", Shown::Integer(m.comment_id)));
    assert(fields[4] == ("feed_id", Shown::Integer(m.feed_id)));
    assert(fields[5] == ("notify_type", Shown::Integer(m.notify_type)));
    assert(fields[6] == ("from_user_sha", Shown::Text(m.from_user_sha)));
    assert(fields[7] == ("create_time", Shown::Integer(m.create_time)));
    assert(fields[8] == ("to_user_sha", Shown::NullableText(m.to_user_sha)));
    assert(fields[9] == ("is_unread", Shown::Integer(m.is_unread)));
    assert(fields[10] == ("del_status", Shown::Integer(m.del_status)));
    assert(fields[11] == ("is_relative_me", Shown::Integer(m.is_relative_me)));
    assert(fields[12] == ("account_id_sha8", Shown::Digest(m.account_id)));
    assert(fields[13] == ("from_nickname_sha8", Shown::NullableDigest(m.from_nickname)));
    assert(fields[14] == ("to_nickname_sha8", Shown::NullableDigest(m.to_nickname)));
    assert(fields[15] == ("content_sha8", Shown::NullableDigest(m.content)));
}

/// What a log shows of `V3FinderVisit`: each of these fields under its name, in the form that is said
/// here, and nothing else. What is not shown as it is stays hidden.
pub proof fn law_finder_visit_shows_only_these_fields(m: &V3FinderVisit, row: DebugRow)
    requires
        call_ensures(V3FinderVisit::debug_row, (m,), row),
    ensures
        row.name@ == "V3FinderVisit"@,
        row.complete == false,
        row.fields@.len() == 8,
        row.fields@.contains(("account_id_sha", Shown::Text(m.account_id_sha))),
        row.fields@.contains(("source", Shown::Text(m.source))),
        row.fields@.contains(("source_native_id", Shown::Text(m.source_native_id))),
        row.fields@.contains(("owner_username_sha", Shown::Text(m.owner_username_sha))),
        row.fields@.contains(("visit_time", Shown::Integer(m.visit_time))),
        row.fields@.contains(("account_id_sha8", Shown::Digest(m.account_id))),
        row.fields@.contains(("name_sha8", Shown::Digest(m.name))),
        row.fields@.contains(("profile_url_len", Shown::Count(m.profile_url@.len() as usize))),
{
    let fields = row.fields@;
    assert(fields[0] == ("account_id_sha", Shown::Text(m.account_id_sha)));
    assert(fields[1] == ("source", Shown::Text(m.source)));
    assert(fields[2] == ("source_native_id", Shown::Text(m.source_native_id)));
    assert(fields[3] == ("owner_username_sha", Shown::Text(m.owner_username_sha)));
    assert(fields[4] == ("visit_time", Shown::Integer(m.visit_time)));
    assert(fields[5] == ("account_id_sha8", Shown::Digest(m.account_id)));
    assert(fields[6] == ("name_sha8", Shown::Digest(m.name)));
    assert(fields[7] == ("profile_url_len", Shown::Count(m.profile_url@.len() as usize)));
}

/// `delete_moment_media` takes out exactly the rows of the thing that it is given: those with its account,
/// its source and its name.
pub proof fn law_delete_moment_media_takes_exactly_its_rows(
    account_id_sha: &str,
    source: &str,
    id: &str,
    statement: Statement,
)
    requires
        call_ensures(delete_moment_media, (account_id_sha, source, id), statement),
    ensures
        exists|tests: Seq<crate::sql::Test>|
            {
                &&& #[trigger] statement.does(Effect::Delete { table: "moment_media"@, tests })
                &&& forall|m: V3MomentMedia| #[trigger]
                    crate::relation::passes_all(m.row(), tests) <==> {
                        &&& m.account_id_sha@ == account_id_sha@
                        &&& m.source@ == source@
                        &&& m.source_native_id@ == id@
                    }
            },
{
    reveal_strlit("account_id_sha");
    reveal_strlit("source");
    reveal_strlit("source_native_id");
    let tests = crate::plan::belonging_to(account_id_sha@, source@, "source_native_id"@, id@);
    assert forall|m: V3MomentMedia| #[trigger] crate::relation::passes_all(m.row(), tests) <==> {
        &&& m.account_id_sha@ == account_id_sha@
        &&& m.source@ == source@
        &&& m.source_native_id@ == id@
    } by {
        let row = m.row();
        assert(row[0].0.len() == 14 && row[1].0.len() == 6 && row[2].0.len() == 16);
        crate::relation::lemma_column_at(row, 0);
        crate::relation::lemma_column_at(row, 1);
        crate::relation::lemma_column_at(row, 2);
        crate::plan::law_group_is_the_rows_of_one_thing(
            row,
            account_id_sha@,
            source@,
            "source_native_id"@,
            id@,
        );
    }
    assert(statement.does(Effect::Delete { table: "moment_media"@, tests }));
}

/// `delete_moment_interactions` takes out exactly the rows of the thing that it is given: those with its account,
/// its source and its name.
pub proof fn law_delete_moment_interactions_takes_exactly_its_rows(
    account_id_sha: &str,
    source: &str,
    id: &str,
    statement: Statement,
)
    requires
        call_ensures(delete_moment_interactions, (account_id_sha, source, id), statement),
    ensures
        exists|tests: Seq<crate::sql::Test>|
            {
                &&& #[trigger] statement.does(Effect::Delete { table: "moment_interaction"@, tests })
                &&& forall|m: V3MomentInteraction| #[trigger]
                    crate::relation::passes_all(m.row(), tests) <==> {
                        &&& m.account_id_sha@ == account_id_sha@
                        &&& m.source@ == source@
                        &&& m.source_native_id@ == id@
                    }
            },
{
    reveal_strlit("account_id_sha");
    reveal_strlit("source");
    reveal_strlit("source_native_id");
    let tests = crate::plan::belonging_to(account_id_sha@, source@, "source_native_id"@, id@);
    assert forall|m: V3MomentInteraction| #[trigger] crate::relation::passes_all(m.row(), tests) <==> {
        &&& m.account_id_sha@ == account_id_sha@
        &&& m.source@ == source@
        &&& m.source_native_id@ == id@
    } by {
        let row = m.row();
        assert(row[0].0.len() == 14 && row[1].0.len() == 6 && row[2].0.len() == 16);
        crate::relation::lemma_column_at(row, 0);
        crate::relation::lemma_column_at(row, 1);
        crate::relation::lemma_column_at(row, 2);
        crate::plan::law_group_is_the_rows_of_one_thing(
            row,
            account_id_sha@,
            source@,
            "source_native_id"@,
            id@,
        );
    }
    assert(statement.does(Effect::Delete { table: "moment_interaction"@, tests }));
}

/// Every column takes what is stored in it, and only the columns of what may be missing take null.
pub proof fn law_moment_columns_take_its_rows(m: V3Moment, i: int)
    requires
        0 <= i < m.row().len(),
    ensures
        moment_columns()[i].decl.takes(m.row()[i].1),
        moment_columns()[i].decl.takes(Val::Null) <==> i == 9 || i == 12 || i == 13 || i == 14 || i == 15 || i == 16 || i == 17 || i == 21 || i == 24 || i == 25,
{
    let row = m.row();
    let columns = moment_columns();
    assert(columns[0].decl.takes(row[0].1) && columns[1].decl.takes(row[1].1) && columns[2].decl.takes(row[2].1));
    assert(columns[3].decl.takes(row[3].1) && columns[4].decl.takes(row[4].1) && columns[5].decl.takes(row[5].1));
    assert(columns[6].decl.takes(row[6].1) && columns[7].decl.takes(row[7].1) && columns[8].decl.takes(row[8].1));
    assert(columns[9].decl.takes(row[9].1) && columns[10].decl.takes(row[10].1) && columns[11].decl.takes(row[11].1));
    assert(columns[12].decl.takes(row[12].1) && columns[13].decl.takes(row[13].1) && columns[14].decl.takes(row[14].1));
    assert(columns[15].decl.takes(row[15].1) && columns[16].decl.takes(row[16].1) && columns[17].decl.takes(row[17].1));
    assert(columns[18].decl.takes(row[18].1) && columns[19].decl.takes(row[19].1) && columns[20].decl.takes(row[20].1));
    assert(columns[21].decl.takes(row[21].1) && columns[22].decl.takes(row[22].1) && columns[23].decl.takes(row[23].1));
    assert(columns[24].decl.takes(row[24].1) && columns[25].decl.takes(row[25].1) && columns[26].decl.takes(row[26].1));
}

/// Every column takes what is stored in it, and only the columns of what may be missing take null.
pub proof fn law_moment_media_columns_take_its_rows(m: V3MomentMedia, i: int)
    requires
        0 <= i < m.row().len(),
    ensures
        moment_media_columns()[i].decl.takes(m.row()[i].1),
        moment_media_columns()[i].decl.takes(Val::Null) <==> i == 6 || i == 7 || i == 8 || i == 9 || i == 10 || i == 11 || i == 12 || i == 13 || i == 14 || i == 18,
{
    let row = m.row();
    let columns = moment_media_columns();
    assert(columns[0].decl.takes(row[0].1) && columns[1].decl.takes(row[1].1) && columns[2].decl.takes(row[2].1));
    assert(columns[3].decl.takes(row[3].1) && columns[4].decl.takes(row[4].1) && columns[5].decl.takes(row[5].1));
    assert(columns[6].decl.takes(row[6].1) && columns[7].decl.takes(row[7].1) && columns[8].decl.takes(row[8].1));
    assert(columns[9].decl.takes(row[9].1) && columns[10].decl.takes(row[10].1) && columns[11].decl.takes(row[11].1));
    assert(columns[12].decl.takes(row[12].1) && columns[13].decl.takes(row[13].1) && columns[14].decl.takes(row[14].1));
    assert(columns[15].decl.takes(row[15].1) && columns[16].decl.takes(row[16].1) && columns[17].decl.takes(row[17].1));
    assert(columns[18].decl.takes(row[18].1));
}

/// Every column takes what is stored in it, and only the columns of what may be missing take null.
pub proof fn law_moment_interaction_columns_take_its_rows(m: V3MomentInteraction, i: int)
    requires
        0 <= i < m.row().len(),
    ensures
        moment_interaction_columns()[i].decl.takes(m.row()[i].1),
        moment_interaction_columns()[i].decl.takes(Val::Null) <==> i == 8 || i == 9 || i == 10 || i == 11 || i == 12 || i == 13,
{
    let row = m.row();
    let columns = moment_interaction_columns();
    assert(columns[0].decl.takes(row[0].1) && columns[1].decl.takes(row[1].1) && columns[2].decl.takes(row[2].1));
    assert(columns[3].decl.takes(row[3].1) && columns[4].decl.takes(row[4].1) && columns[5].decl.takes(row[5].1));
    assert(columns[6].decl.takes(row[6].1) && columns[7].decl.takes(row[7].1) && columns[8].decl.takes(row[8].1));
    assert(columns[9].decl.takes(row[9].1) && columns[10].decl.takes(row[10].1) && columns[11].decl.takes(row[11].1));
    assert(columns[12].decl.takes(row[12].1) && columns[13].decl.takes(row[13].1) && columns[14].decl.takes(row[14].1));
}

/// Every column takes what is stored in it, and none takes null.
pub proof fn law_moment_feed_columns_take_its_rows(m: V3MomentFeed, i: int)
    requires
        0 <= i < m.row().len(),
    ensures
        moment_feed_columns()[i].decl.takes(m.row()[i].1),
        !moment_feed_columns()[i].decl.takes(Val::Null),
{
    let row = m.row();
    let columns = moment_feed_columns();
    assert(columns[0].decl.takes(row[0].1) && columns[1].decl.takes(row[1].1) && columns[2].decl.takes(row[2].1));
    assert(columns[3].decl.takes(row[3].1) && columns[4].decl.takes(row[4].1) && columns[5].decl.takes(row[5].1));
    assert(columns[6].decl.takes(row[6].1) && columns[7].decl.takes(row[7].1) && columns[8].decl.takes(row[8].1));
    assert(columns[9].decl.takes(row[9].1));
}

/// Every column takes what is stored in it, and only the columns of what may be missing take null.
pub proof fn law_sns_notify_columns_take_its_rows(m: V3SnsNotify, i: int)
    requires
        0 <= i < m.row().len(),
    ensures
        sns_notify_columns()[i].decl.takes(m.row()[i].1),
        sns_notify_columns()[i].decl.takes(Val::Null) <==> i == 8 || i == 14 || i == 15 || i == 16 || i == 17,
{
    let row = m.row();
    let columns = sns_notify_columns();
    assert(columns[0].decl.takes(row[0].1) && columns[1].decl.takes(row[1].1) && columns[2].decl.takes(row[2].1));
    assert(columns[3].decl.takes(row[3].1) && columns[4].decl.takes(row[4].1) && columns[5].decl.takes(row[5].1));
    assert(columns[6].decl.takes(row[6].1) && columns[7].decl.takes(row[7].1) && columns[8].decl.takes(row[8].1));
    assert(columns[9].decl.takes(row[9].1) && columns[10].decl.takes(row[10].1) && columns[11].decl.takes(row[11].1));
    assert(columns[12].decl.takes(row[12].1) && columns[13].decl.takes(row[13].1) && columns[14].decl.takes(row[14].1));
    assert(columns[15].decl.takes(row[15].1) && columns[16].decl.takes(row[16].1) && columns[17].decl.takes(row[17].1));
}

/// Every column takes what is stored in it, and none takes null.
pub proof fn law_finder_visit_columns_take_its_rows(m: V3FinderVisit, i: int)
    requires
        0 <= i < m.row().len(),
    ensures
        finder_visit_columns()[i].decl.takes(m.row()[i].1),
        !finder_visit_columns()[i].decl.takes(Val::Null),
{
    let row = m.row();
    let columns = finder_visit_columns();
    assert(columns[0].decl.takes(row[0].1) && columns[1].decl.takes(row[1].1) && columns[2].decl.takes(row[2].1));
    assert(columns[3].decl.takes(row[3].1) && columns[4].decl.takes(row[4].1) && columns[5].decl.takes(row[5].1));
    assert(columns[6].decl.takes(row[6].1) && columns[7].decl.takes(row[7].1) && columns[8].decl.takes(row[8].1));
}

/// What the rows of an old `moment` table hold in the columns that are added to it, by name; and
/// each of these columns takes it, as the table of today declares it.
pub proof fn law_old_moment_rows_are_filled(i: int)
    requires
        0 <= i < moment_later_columns().len(),
    ensures
        moment_later_columns().len() == 5,
        crate::schema::filled(moment_later_columns()).contains(("source_nickname"@, Val::Null)),
        crate::schema::filled(moment_later_columns()).contains(("public_user_name"@, Val::Null)),
        crate::schema::filled(moment_later_columns()).contains(("app_name"@, Val::Null)),
        crate::schema::filled(moment_later_columns()).contains(("is_bidirectional_fan"@, Val::Integer(0))),
        crate::schema::filled(moment_later_columns()).contains(("is_rich_text"@, Val::Integer(0))),
        exists|j: int|
            0 <= j < moment_columns().len() && (#[trigger] moment_columns()[j]).name@
                == moment_later_columns()[i].name@ && moment_columns()[j].decl.takes(
                moment_later_columns()[i].decl.value_in_old_rows(),
            ),
{
    let later = moment_later_columns();
    let columns = moment_columns();
    let filled = crate::schema::filled(later);
    assert(filled[0] == ("source_nickname"@, Val::Null));
    assert(columns[21].name@ == later[0].name@ && columns[21].decl.takes(later[0].decl.value_in_old_rows()));
    assert(filled[1] == ("public_user_name"@, Val::Null));
    assert(columns[24].name@ == later[1].name@ && columns[24].decl.takes(later[1].decl.value_in_old_rows()));
    assert(filled[2] == ("app_name"@, Val::Null));
    assert(columns[25].name@ == later[2].name@ && columns[25].decl.takes(later[2].decl.value_in_old_rows()));
    assert(filled[3] == ("is_bidirectional_fan"@, Val::Integer(0)));
    assert(columns[22].name@ == later[3].name@ && columns[22].decl.takes(later[3].decl.value_in_old_rows()));
    assert(filled[4] == ("is_rich_text"@, Val::Integer(0)));
    assert(columns[23].name@ == later[4].name@ && columns[23].decl.takes(later[4].decl.value_in_old_rows()));
}

/// The table `moment` is made first, and then an index for each of the ways in which its rows are
/// looked up.
pub proof fn law_moment_lookups_have_indexes(steps: Vec<Step>)
    requires
        call_ensures(init_moment_table, (), steps),
    ensures
        steps@[0] == Step::Create(Table::Moment),
        Table::Moment.name_text() == "moment"@,
        crate::plan::has_index(
            steps@,
            "idx_moment_author"@,
            "moment"@,
            "account_id_sha, author_sha"@,
        ),
        crate::plan::has_index(
            steps@,
            "idx_moment_create_time"@,
            "moment"@,
            "account_id_sha, create_time DESC"@,
        ),
        crate::plan::has_index(
            steps@,
            "idx_moment_type"@,
            "moment"@,
            "account_id_sha, moment_type"@,
        ),
{
    assert(steps@[1] is Index);
    assert(steps@[2] is Index);
    assert(steps@[3] is Index);
}

/// The table `moment_media` is made first, and then an index for each of the ways in which its rows are
/// looked up.
pub proof fn law_moment_media_lookups_have_indexes(steps: Vec<Step>)
    requires
        call_ensures(init_moment_media_table, (), steps),
    ensures
        steps@[0] == Step::Create(Table::MomentMedia),
        Table::MomentMedia.name_text() == "moment_media"@,
        crate::plan::has_index(
            steps@,
            "idx_moment_media_moment"@,
            "moment_media"@,
            "account_id_sha, source, source_native_id"@,
        ),
        crate::plan::has_index(
            steps@,
            "idx_moment_media_md5"@,
            "moment_media"@,
            "account_id_sha, md5"@,
        ),
{
    assert(steps@[1] is Index);
    assert(steps@[2] is Index);
}

/// The table `moment_interaction` is made first, and then an index for each of the ways in which its rows are
/// looked up.
pub proof fn law_moment_interaction_lookups_have_indexes(steps: Vec<Step>)
    requires
        call_ensures(init_moment_interaction_table, (), steps),
    ensures
        steps@[0] == Step::Create(Table::MomentInteraction),
        Table::MomentInteraction.name_text() == "moment_interaction"@,
        crate::plan::has_index(
            steps@,
            "idx_moment_interaction_moment"@,
            "moment_interaction"@,
            "account_id_sha, source, source_native_id"@,
        ),
        crate::plan::has_index(
            steps@,
            "idx_moment_interaction_from"@,
            "moment_interaction"@,
            "account_id_sha, from_user_sha"@,
        ),
{
    assert(steps@[1] is Index);
    assert(steps@[2] is Index);
}

/// The table `moment_feed` is made first, and then an index for each of the ways in which its rows are
/// looked up.
pub proof fn law_moment_feed_lookups_have_indexes(steps: Vec<Step>)
    requires
        call_ensures(init_moment_feed_table, (), steps),
    ensures
        steps@[0] == Step::Create(Table::MomentFeed),
        Table::MomentFeed.name_text() == "moment_feed"@,
        crate::plan::has_index(
            steps@,
            "idx_moment_feed_author_time"@,
            "moment_feed"@,
            "account_id_sha, author_sha, create_time DESC"@,
        ),
{
    assert(steps@[1] is Index);
}

/// The table `sns_notify` is made first, and then an index for each of the ways in which its rows are
/// looked up.
pub proof fn law_sns_notify_lookups_have_indexes(steps: Vec<Step>)
    requires
        call_ensures(init_sns_notify_table, (), steps),
    ensures
        steps@[0] == Step::Create(Table::SnsNotify),
        Table::SnsNotify.name_text() == "sns_notify"@,
        crate::plan::has_index(
            steps@,
            "idx_sns_notify_feed_time"@,
            "sns_notify"@,
            "account_id_sha, feed_id, create_time DESC"@,
        ),
{
    assert(steps@[1] is Index);
}

/// The table `finder_visit` is made first, and then an index for each of the ways in which its rows are
/// looked up.
pub proof fn law_finder_visit_lookups_have_indexes(steps: Vec<Step>)
    requires
        call_ensures(init_finder_visit_table, (), steps),
    ensures
        steps@[0] == Step::Create(Table::FinderVisit),
        Table::FinderVisit.name_text() == "finder_visit"@,
        crate::plan::has_index(
            steps@,
            "idx_finder_visit_time"@,
            "finder_visit"@,
            "account_id_sha, visit_time DESC"@,
        ),
{
    assert(steps@[1] is Index);
}

} // verus!
