//! Contacts and their names, requests of friends, users of company accounts, and
//! avatars.

use vstd::prelude::*;
use vstd::string::*;

use crate::index::Index;
use crate::plan::Step;
use crate::redact::{copy_text, DebugRow, Shown};
use crate::schema::{add_missing, Column, Decl};
use crate::sql::{Effect, Row, RowBuilder, Statement, Val};
use crate::tables::Table;

verus! {

/// A contact. It is told apart by the account, the source and the digest of its name, because
/// ids in the source can collide.
#[derive(Clone, PartialEq, Eq)]
pub struct V3Person {
    pub account_id_sha: String,
    pub source: String,
    pub source_native_id: String,
    pub username_sha: String,
    pub account_id: String,
    pub username: String,
    pub nick_name: String,
    pub remark: Option<String>,
    pub alias: Option<String>,
    pub nick_name_len: i64,
    pub remark_len: i64,
    pub alias_len: i64,
    pub local_type: i64,
    pub is_in_chat_room: bool,
    pub quan_pin: Option<String>,
    pub pin_yin_initial: Option<String>,
    pub remark_quan_pin: Option<String>,
    pub remark_pin_yin_initial: Option<String>,
    pub verify_flag: i64,
    pub delete_flag: i64,
    pub big_head_url: Option<String>,
    pub small_head_url: Option<String>,
    pub head_img_md5: Option<String>,
    pub description: Option<String>,
    pub flag: i64,
    pub chat_room_notify: i64,
    pub chat_room_type: i64,
    pub sex: i64,
    pub country: Option<String>,
    pub province: Option<String>,
    pub city: Option<String>,
    pub friend_source: i64,
    pub is_starred: bool,
    pub is_pinned: bool,
    pub blocks_moments: bool,
    pub hide_their_moments: bool,
    pub chat_only: bool,
    pub is_collapsed: bool,
    pub is_muted: bool,
    pub signature: Option<String>,
    pub moments_cover_url: Option<String>,
    pub labels: Option<String>,
    pub friend_add_time: Option<i64>,
    pub openim_company: Option<String>,
    pub openim_realname: Option<String>,
}

impl V3Person {
    /// The row that it is stored as.
    pub open spec fn row(self) -> Row {
        self.name_columns() + self.profile_columns() + self.flag_columns() + self.extra_columns()
    }

    /// The columns of its names.
    pub open spec fn name_columns(self) -> Row {
        seq![
            ("account_id_sha"@, Val::Text(self.account_id_sha@)),
            ("source"@, Val::Text(self.source@)),
            ("source_native_id"@, Val::Text(self.source_native_id@)),
            ("username_sha"@, Val::Text(self.username_sha@)),
            ("account_id"@, Val::Text(self.account_id@)),
            ("username"@, Val::Text(self.username@)),
            ("nick_name"@, Val::Text(self.nick_name@)),
            ("remark"@, crate::sql::nullable_text(self.remark)),
            ("alias"@, crate::sql::nullable_text(self.alias)),
            ("nick_name_len"@, Val::Integer(self.nick_name_len as int)),
            ("remark_len"@, Val::Integer(self.remark_len as int)),
            ("alias_len"@, Val::Integer(self.alias_len as int)),
            ("local_type"@, Val::Integer(self.local_type as int)),
            ("is_in_chat_room"@, crate::sql::flag(self.is_in_chat_room)),
        ]
    }

    /// The columns of its profile.
    pub open spec fn profile_columns(self) -> Row {
        seq![
            ("quan_pin"@, crate::sql::nullable_text(self.quan_pin)),
            ("pin_yin_initial"@, crate::sql::nullable_text(self.pin_yin_initial)),
            ("remark_quan_pin"@, crate::sql::nullable_text(self.remark_quan_pin)),
            ("remark_pin_yin_initial"@, crate::sql::nullable_text(self.remark_pin_yin_initial)),
            ("verify_flag"@, Val::Integer(self.verify_flag as int)),
            ("delete_flag"@, Val::Integer(self.delete_flag as int)),
            ("big_head_url"@, crate::sql::nullable_text(self.big_head_url)),
            ("small_head_url"@, crate::sql::nullable_text(self.small_head_url)),
            ("head_img_md5"@, crate::sql::nullable_text(self.head_img_md5)),
            ("description"@, crate::sql::nullable_text(self.description)),
            ("flag"@, Val::Integer(self.flag as int)),
            ("chat_room_notify"@, Val::Integer(self.chat_room_notify as int)),
            ("chat_room_type"@, Val::Integer(self.chat_room_type as int)),
            ("sex"@, Val::Integer(self.sex as int)),
            ("country"@, crate::sql::nullable_text(self.country)),
            ("province"@, crate::sql::nullable_text(self.province)),
            ("city"@, crate::sql::nullable_text(self.city)),
            ("friend_source"@, Val::Integer(self.friend_source as int)),
        ]
    }

    /// The columns of its flags.
    pub open spec fn flag_columns(self) -> Row {
        seq![
            ("is_starred"@, crate::sql::flag(self.is_starred)),
            ("is_collapsed"@, crate::sql::flag(self.is_collapsed)),
            ("is_pinned"@, crate::sql::flag(self.is_pinned)),
            ("blocks_moments"@, crate::sql::flag(self.blocks_moments)),
            ("hide_their_moments"@, crate::sql::flag(self.hide_their_moments)),
            ("chat_only"@, crate::sql::flag(self.chat_only)),
            ("is_muted"@, crate::sql::flag(self.is_muted)),
        ]
    }

    /// The columns of what else is known of it.
    pub open spec fn extra_columns(self) -> Row {
        seq![
            ("signature"@, crate::sql::nullable_text(self.signature)),
            ("moments_cover_url"@, crate::sql::nullable_text(self.moments_cover_url)),
            ("labels"@, crate::sql::nullable_text(self.labels)),
            ("friend_add_time"@, crate::sql::nullable_integer(self.friend_add_time)),
            ("openim_company"@, crate::sql::nullable_text(self.openim_company)),
            ("openim_realname"@, crate::sql::nullable_text(self.openim_realname)),
        ]
    }

    fn name_part(&self) -> (row: RowBuilder)
        ensures
            row.wf(),
            row@ == self.name_columns(),
    {
        let mut row = RowBuilder::new();
        row.text("account_id_sha", self.account_id_sha.as_str());
        row.text("source", self.source.as_str());
        row.text("source_native_id", self.source_native_id.as_str());
        row.text("username_sha", self.username_sha.as_str());
        row.text("account_id", self.account_id.as_str());
        row.text("username", self.username.as_str());
        row.text("nick_name", self.nick_name.as_str());
        row.nullable_text("remark", &self.remark);
        row.nullable_text("alias", &self.alias);
        row.integer("nick_name_len", self.nick_name_len);
        row.integer("remark_len", self.remark_len);
        row.integer("alias_len", self.alias_len);
        row.integer("local_type", self.local_type);
        row.flag("is_in_chat_room", self.is_in_chat_room);
        assert(row@ =~= self.name_columns());
        row
    }

    fn profile_part(&self) -> (row: RowBuilder)
        ensures
            row.wf(),
            row@ == self.profile_columns(),
    {
        let mut row = RowBuilder::new();
        row.nullable_text("quan_pin", &self.quan_pin);
        row.nullable_text("pin_yin_initial", &self.pin_yin_initial);
        row.nullable_text("remark_quan_pin", &self.remark_quan_pin);
        row.nullable_text("remark_pin_yin_initial", &self.remark_pin_yin_initial);
        row.integer("verify_flag", self.verify_flag);
        row.integer("delete_flag", self.delete_flag);
        row.nullable_text("big_head_url", &self.big_head_url);
        row.nullable_text("small_head_url", &self.small_head_url);
        row.nullable_text("head_img_md5", &self.head_img_md5);
        row.nullable_text("description", &self.description);
        row.integer("flag", self.flag);
        row.integer("chat_room_notify", self.chat_room_notify);
        row.integer("chat_room_type", self.chat_room_type);
        row.integer("sex", self.sex);
        row.nullable_text("country", &self.country);
        row.nullable_text("province", &self.province);
        row.nullable_text("city", &self.city);
        row.integer("friend_source", self.friend_source);
        assert(row@ =~= self.profile_columns());
        row
    }

    fn flag_part(&self) -> (row: RowBuilder)
        ensures
            row.wf(),
            row@ == self.flag_columns(),
    {
        let mut row = RowBuilder::new();
        row.flag("is_starred", self.is_starred);
        row.flag("is_collapsed", self.is_collapsed);
        row.flag("is_pinned", self.is_pinned);
        row.flag("blocks_moments", self.blocks_moments);
        row.flag("hide_their_moments", self.hide_their_moments);
        row.flag("chat_only", self.chat_only);
        row.flag("is_muted", self.is_muted);
        assert(row@ =~= self.flag_columns());
        row
    }

    fn extra_part(&self) -> (row: RowBuilder)
        ensures
            row.wf(),
            row@ == self.extra_columns(),
    {
        let mut row = RowBuilder::new();
        row.nullable_text("signature", &self.signature);
        row.nullable_text("moments_cover_url", &self.moments_cover_url);
        row.nullable_text("labels", &self.labels);
        row.nullable_integer("friend_add_time", self.friend_add_time);
        row.nullable_text("openim_company", &self.openim_company);
        row.nullable_text("openim_realname", &self.openim_realname);
        assert(row@ =~= self.extra_columns());
        row
    }

    /// How its fields are shown in a log.
    pub open spec fn shown(self) -> Seq<(&'static str, Shown)> {
        seq![
            ("account_id_sha", Shown::Text(self.account_id_sha)),
            ("source", Shown::Text(self.source)),
            ("source_native_id", Shown::Text(self.source_native_id)),
            ("username_sha", Shown::Text(self.username_sha)),
            ("account_id_sha8", Shown::Digest(self.account_id)),
            ("username_sha8", Shown::Digest(self.username)),
            ("nick_name_len", Shown::Integer(self.nick_name_len)),
            ("remark_len", Shown::Integer(self.remark_len)),
            ("alias_len", Shown::Integer(self.alias_len)),
            ("local_type", Shown::Integer(self.local_type)),
            ("is_in_chat_room", Shown::Flag(self.is_in_chat_room)),
            ("verify_flag", Shown::Integer(self.verify_flag)),
            ("delete_flag", Shown::Integer(self.delete_flag)),
            ("flag", Shown::Integer(self.flag)),
            ("chat_room_notify", Shown::Integer(self.chat_room_notify)),
            ("chat_room_type", Shown::Integer(self.chat_room_type)),
            ("sex", Shown::Integer(self.sex)),
            ("friend_source", Shown::Integer(self.friend_source)),
            ("is_starred", Shown::Flag(self.is_starred)),
            ("is_collapsed", Shown::Flag(self.is_collapsed)),
            ("is_pinned", Shown::Flag(self.is_pinned)),
            ("blocks_moments", Shown::Flag(self.blocks_moments)),
            ("hide_their_moments", Shown::Flag(self.hide_their_moments)),
            ("chat_only", Shown::Flag(self.chat_only)),
            ("is_muted", Shown::Flag(self.is_muted)),
            ("friend_add_time", Shown::NullableInteger(self.friend_add_time)),
        ]
    }

    /// What it shows of itself in a log.
    pub fn debug_row(&self) -> (row: DebugRow)
        ensures
            row.name@ == "V3Person"@,
            row.fields@ == self.shown(),
            row.complete == false,
    {
        let mut fields: Vec<(&'static str, Shown)> = Vec::new();
        fields.push(("account_id_sha", Shown::Text(self.account_id_sha.clone())));
        fields.push(("source", Shown::Text(self.source.clone())));
        fields.push(("source_native_id", Shown::Text(self.source_native_id.clone())));
        fields.push(("username_sha", Shown::Text(self.username_sha.clone())));
        fields.push(("account_id_sha8", Shown::Digest(self.account_id.clone())));
        fields.push(("username_sha8", Shown::Digest(self.username.clone())));
        fields.push(("nick_name_len", Shown::Integer(self.nick_name_len)));
        fields.push(("remark_len", Shown::Integer(self.remark_len)));
        fields.push(("alias_len", Shown::Integer(self.alias_len)));
        fields.push(("local_type", Shown::Integer(self.local_type)));
        fields.push(("is_in_chat_room", Shown::Flag(self.is_in_chat_room)));
        fields.push(("verify_flag", Shown::Integer(self.verify_flag)));
        fields.push(("delete_flag", Shown::Integer(self.delete_flag)));
        fields.push(("flag", Shown::Integer(self.flag)));
        fields.push(("chat_room_notify", Shown::Integer(self.chat_room_notify)));
        fields.push(("chat_room_type", Shown::Integer(self.chat_room_type)));
        fields.push(("sex", Shown::Integer(self.sex)));
        fields.push(("friend_source", Shown::Integer(self.friend_source)));
        fields.push(("is_starred", Shown::Flag(self.is_starred)));
        fields.push(("is_collapsed", Shown::Flag(self.is_collapsed)));
        fields.push(("is_pinned", Shown::Flag(self.is_pinned)));
        fields.push(("blocks_moments", Shown::Flag(self.blocks_moments)));
        fields.push(("hide_their_moments", Shown::Flag(self.hide_their_moments)));
        fields.push(("chat_only", Shown::Flag(self.chat_only)));
        fields.push(("is_muted", Shown::Flag(self.is_muted)));
        fields.push(("friend_add_time", Shown::NullableInteger(self.friend_add_time)));
        assert(fields@ =~= self.shown());
        DebugRow { name: "V3Person", fields, complete: false }
    }
}

/// The columns of the table `person`.
pub open spec fn person_columns() -> Seq<Column> {
    seq![
        Column { name: "account_id_sha", decl: Decl::TextNotNull },
        Column { name: "source", decl: Decl::TextNotNull },
        Column { name: "source_native_id", decl: Decl::TextNotNull },
        Column { name: "username_sha", decl: Decl::TextNotNull },
        Column { name: "account_id", decl: Decl::TextNotNull },
        Column { name: "username", decl: Decl::TextNotNull },
        Column { name: "nick_name", decl: Decl::TextNotNull },
        Column { name: "remark", decl: Decl::Text },
        Column { name: "alias", decl: Decl::Text },
        Column { name: "nick_name_len", decl: Decl::IntegerNotNull },
        Column { name: "remark_len", decl: Decl::IntegerNotNull },
        Column { name: "alias_len", decl: Decl::IntegerNotNull },
        Column { name: "local_type", decl: Decl::IntegerNotNull },
        Column { name: "is_in_chat_room", decl: Decl::IntegerNotNull },
        Column { name: "quan_pin", decl: Decl::Text },
        Column { name: "pin_yin_initial", decl: Decl::Text },
        Column { name: "remark_quan_pin", decl: Decl::Text },
        Column { name: "remark_pin_yin_initial", decl: Decl::Text },
        Column { name: "verify_flag", decl: Decl::IntegerDefault(0) },
        Column { name: "delete_flag", decl: Decl::IntegerDefault(0) },
        Column { name: "big_head_url", decl: Decl::Text },
        Column { name: "small_head_url", decl: Decl::Text },
        Column { name: "head_img_md5", decl: Decl::Text },
        Column { name: "description", decl: Decl::Text },
        Column { name: "flag", decl: Decl::IntegerDefault(0) },
        Column { name: "chat_room_notify", decl: Decl::IntegerDefault(0) },
        Column { name: "chat_room_type", decl: Decl::IntegerDefault(0) },
        Column { name: "sex", decl: Decl::IntegerDefault(0) },
        Column { name: "country", decl: Decl::Text },
        Column { name: "province", decl: Decl::Text },
        Column { name: "city", decl: Decl::Text },
        Column { name: "friend_source", decl: Decl::IntegerDefault(0) },
        Column { name: "is_starred", decl: Decl::IntegerDefault(0) },
        Column { name: "is_collapsed", decl: Decl::IntegerDefault(0) },
        Column { name: "is_pinned", decl: Decl::IntegerDefault(0) },
        Column { name: "blocks_moments", decl: Decl::IntegerDefault(0) },
        Column { name: "hide_their_moments", decl: Decl::IntegerDefault(0) },
        Column { name: "chat_only", decl: Decl::IntegerDefault(0) },
        Column { name: "is_muted", decl: Decl::IntegerDefault(0) },
        Column { name: "signature", decl: Decl::Text },
        Column { name: "moments_cover_url", decl: Decl::Text },
        Column { name: "labels", decl: Decl::Text },
        Column { name: "friend_add_time", decl: Decl::Integer },
        Column { name: "openim_company", decl: Decl::Text },
        Column { name: "openim_realname", decl: Decl::Text },
    ]
}

/// The columns of the table `person`.
#[verifier::rlimit(60)]
pub fn person_table() -> (columns: Vec<Column>)
    ensures
        columns@ == person_columns(),
{
    let mut columns: Vec<Column> = Vec::new();
    columns.push(Column { name: "account_id_sha", decl: Decl::TextNotNull });
    columns.push(Column { name: "source", decl: Decl::TextNotNull });
    columns.push(Column { name: "source_native_id", decl: Decl::TextNotNull });
    columns.push(Column { name: "username_sha", decl: Decl::TextNotNull });
    columns.push(Column { name: "account_id", decl: Decl::TextNotNull });
    columns.push(Column { name: "username", decl: Decl::TextNotNull });
    columns.push(Column { name: "nick_name", decl: Decl::TextNotNull });
    columns.push(Column { name: "remark", decl: Decl::Text });
    columns.push(Column { name: "alias", decl: Decl::Text });
    columns.push(Column { name: "nick_name_len", decl: Decl::IntegerNotNull });
    columns.push(Column { name: "remark_len", decl: Decl::IntegerNotNull });
    columns.push(Column { name: "alias_len", decl: Decl::IntegerNotNull });
    columns.push(Column { name: "local_type", decl: Decl::IntegerNotNull });
    columns.push(Column { name: "is_in_chat_room", decl: Decl::IntegerNotNull });
    columns.push(Column { name: "quan_pin", decl: Decl::Text });
    columns.push(Column { name: "pin_yin_initial", decl: Decl::Text });
    columns.push(Column { name: "remark_quan_pin", decl: Decl::Text });
    columns.push(Column { name: "remark_pin_yin_initial", decl: Decl::Text });
    columns.push(Column { name: "verify_flag", decl: Decl::IntegerDefault(0) });
    columns.push(Column { name: "delete_flag", decl: Decl::IntegerDefault(0) });
    columns.push(Column { name: "big_head_url", decl: Decl::Text });
    columns.push(Column { name: "small_head_url", decl: Decl::Text });
    columns.push(Column { name: "head_img_md5", decl: Decl::Text });
    columns.push(Column { name: "description", decl: Decl::Text });
    columns.push(Column { name: "flag", decl: Decl::IntegerDefault(0) });
    columns.push(Column { name: "chat_room_notify", decl: Decl::IntegerDefault(0) });
    columns.push(Column { name: "chat_room_type", decl: Decl::IntegerDefault(0) });
    columns.push(Column { name: "sex", decl: Decl::IntegerDefault(0) });
    columns.push(Column { name: "country", decl: Decl::Text });
    columns.push(Column { name: "province", decl: Decl::Text });
    columns.push(Column { name: "city", decl: Decl::Text });
    columns.push(Column { name: "friend_source", decl: Decl::IntegerDefault(0) });
    columns.push(Column { name: "is_starred", decl: Decl::IntegerDefault(0) });
    columns.push(Column { name: "is_collapsed", decl: Decl::IntegerDefault(0) });
    columns.push(Column { name: "is_pinned", decl: Decl::IntegerDefault(0) });
    columns.push(Column { name: "blocks_moments", decl: Decl::IntegerDefault(0) });
    columns.push(Column { name: "hide_their_moments", decl: Decl::IntegerDefault(0) });
    columns.push(Column { name: "chat_only", decl: Decl::IntegerDefault(0) });
    columns.push(Column { name: "is_muted", decl: Decl::IntegerDefault(0) });
    columns.push(Column { name: "signature", decl: Decl::Text });
    columns.push(Column { name: "moments_cover_url", decl: Decl::Text });
    columns.push(Column { name: "labels", decl: Decl::Text });
    columns.push(Column { name: "friend_add_time", decl: Decl::Integer });
    columns.push(Column { name: "openim_company", decl: Decl::Text });
    columns.push(Column { name: "openim_realname", decl: Decl::Text });
    assert(columns@ =~= person_columns());
    columns
}

/// The columns that came to the table `person` later.
pub open spec fn person_later_columns() -> Seq<Column> {
    seq![
        Column { name: "quan_pin", decl: Decl::Text },
        Column { name: "pin_yin_initial", decl: Decl::Text },
        Column { name: "remark_quan_pin", decl: Decl::Text },
        Column { name: "remark_pin_yin_initial", decl: Decl::Text },
        Column { name: "big_head_url", decl: Decl::Text },
        Column { name: "small_head_url", decl: Decl::Text },
        Column { name: "head_img_md5", decl: Decl::Text },
        Column { name: "description", decl: Decl::Text },
        Column { name: "country", decl: Decl::Text },
        Column { name: "province", decl: Decl::Text },
        Column { name: "city", decl: Decl::Text },
        Column { name: "signature", decl: Decl::Text },
        Column { name: "moments_cover_url", decl: Decl::Text },
        Column { name: "labels", decl: Decl::Text },
        Column { name: "openim_company", decl: Decl::Text },
        Column { name: "openim_realname", decl: Decl::Text },
        Column { name: "verify_flag", decl: Decl::IntegerDefault(0) },
        Column { name: "delete_flag", decl: Decl::IntegerDefault(0) },
        Column { name: "flag", decl: Decl::IntegerDefault(0) },
        Column { name: "chat_room_notify", decl: Decl::IntegerDefault(0) },
        Column { name: "chat_room_type", decl: Decl::IntegerDefault(0) },
        Column { name: "sex", decl: Decl::IntegerDefault(0) },
        Column { name: "friend_source", decl: Decl::IntegerDefault(0) },
        Column { name: "is_starred", decl: Decl::IntegerDefault(0) },
        Column { name: "is_collapsed", decl: Decl::IntegerDefault(0) },
        Column { name: "is_pinned", decl: Decl::IntegerDefault(0) },
        Column { name: "blocks_moments", decl: Decl::IntegerDefault(0) },
        Column { name: "hide_their_moments", decl: Decl::IntegerDefault(0) },
        Column { name: "chat_only", decl: Decl::IntegerDefault(0) },
        Column { name: "is_muted", decl: Decl::IntegerDefault(0) },
        Column { name: "friend_add_time", decl: Decl::Integer },
    ]
}

/// The statements that add to the table `person` the later columns that it lacks.
pub fn ensure_person_extra_columns(existing: &Vec<String>) -> (statements: Vec<Statement>)
    ensures
        crate::schema::adds(
            statements@,
            "person"@,
            crate::schema::missing(person_later_columns(), crate::sql::strings(existing@)),
        ),
{
    let mut later: Vec<Column> = Vec::new();
    later.push(Column { name: "quan_pin", decl: Decl::Text });
    later.push(Column { name: "pin_yin_initial", decl: Decl::Text });
    later.push(Column { name: "remark_quan_pin", decl: Decl::Text });
    later.push(Column { name: "remark_pin_yin_initial", decl: Decl::Text });
    later.push(Column { name: "big_head_url", decl: Decl::Text });
    later.push(Column { name: "small_head_url", decl: Decl::Text });
    later.push(Column { name: "head_img_md5", decl: Decl::Text });
    later.push(Column { name: "description", decl: Decl::Text });
    later.push(Column { name: "country", decl: Decl::Text });
    later.push(Column { name: "province", decl: Decl::Text });
    later.push(Column { name: "city", decl: Decl::Text });
    later.push(Column { name: "signature", decl: Decl::Text });
    later.push(Column { name: "moments_cover_url", decl: Decl::Text });
    later.push(Column { name: "labels", decl: Decl::Text });
    later.push(Column { name: "openim_company", decl: Decl::Text });
    later.push(Column { name: "openim_realname", decl: Decl::Text });
    later.push(Column { name: "verify_flag", decl: Decl::IntegerDefault(0) });
    later.push(Column { name: "delete_flag", decl: Decl::IntegerDefault(0) });
    later.push(Column { name: "flag", decl: Decl::IntegerDefault(0) });
    later.push(Column { name: "chat_room_notify", decl: Decl::IntegerDefault(0) });
    later.push(Column { name: "chat_room_type", decl: Decl::IntegerDefault(0) });
    later.push(Column { name: "sex", decl: Decl::IntegerDefault(0) });
    later.push(Column { name: "friend_source", decl: Decl::IntegerDefault(0) });
    later.push(Column { name: "is_starred", decl: Decl::IntegerDefault(0) });
    later.push(Column { name: "is_collapsed", decl: Decl::IntegerDefault(0) });
    later.push(Column { name: "is_pinned", decl: Decl::IntegerDefault(0) });
    later.push(Column { name: "blocks_moments", decl: Decl::IntegerDefault(0) });
    later.push(Column { name: "hide_their_moments", decl: Decl::IntegerDefault(0) });
    later.push(Column { name: "chat_only", decl: Decl::IntegerDefault(0) });
    later.push(Column { name: "is_muted", decl: Decl::IntegerDefault(0) });
    later.push(Column { name: "friend_add_time", decl: Decl::Integer });
    assert(later@ =~= person_later_columns());
    add_missing("person", &later, existing)
}

/// Every later column of the table `person` is one of its columns, and the rows that are
/// there when it is added have a value for it.
pub proof fn law_person_later_columns_belong(i: int)
    requires
        0 <= i < person_later_columns().len(),
    ensures
        crate::schema::column_names(person_columns()).contains(person_later_columns()[i].name@),
        person_later_columns()[i].decl.fills_old_rows(),
{
    let all = crate::schema::column_names(person_columns());
    assert(all[14] == "quan_pin"@);
    assert(all[15] == "pin_yin_initial"@);
    assert(all[16] == "remark_quan_pin"@);
    assert(all[17] == "remark_pin_yin_initial"@);
    assert(all[20] == "big_head_url"@);
    assert(all[21] == "small_head_url"@);
    assert(all[22] == "head_img_md5"@);
    assert(all[23] == "description"@);
    assert(all[28] == "country"@);
    assert(all[29] == "province"@);
    assert(all[30] == "city"@);
    assert(all[39] == "signature"@);
    assert(all[40] == "moments_cover_url"@);
    assert(all[41] == "labels"@);
    assert(all[43] == "openim_company"@);
    assert(all[44] == "openim_realname"@);
    assert(all[18] == "verify_flag"@);
    assert(all[19] == "delete_flag"@);
    assert(all[24] == "flag"@);
    assert(all[25] == "chat_room_notify"@);
    assert(all[26] == "chat_room_type"@);
    assert(all[27] == "sex"@);
    assert(all[31] == "friend_source"@);
    assert(all[32] == "is_starred"@);
    assert(all[33] == "is_collapsed"@);
    assert(all[34] == "is_pinned"@);
    assert(all[35] == "blocks_moments"@);
    assert(all[36] == "hide_their_moments"@);
    assert(all[37] == "chat_only"@);
    assert(all[38] == "is_muted"@);
    assert(all[42] == "friend_add_time"@);
}

/// The columns by which the table `person` tells its rows apart.
pub open spec fn person_key() -> Seq<Seq<char>> {
    seq!["account_id_sha"@, "source"@, "username_sha"@]
}

/// A row fills the table: it has a value for every column, and for no other.
pub proof fn law_person_row_fills_the_table(row: V3Person)
    ensures
        crate::sql::names(row.row()) == crate::schema::column_names(person_columns()),
{
    assert(crate::sql::names(row.row()) =~= crate::schema::column_names(person_columns()));
}

/// Two rows of the table `person` have the same key exactly where they agree in its fields.
pub proof fn law_person_key_tells_rows_apart(a: V3Person, b: V3Person)
    ensures
        crate::relation::same_key(a.row(), b.row(), person_key()) <==> {
            &&& a.account_id_sha@ == b.account_id_sha@
            &&& a.source@ == b.source@
            &&& a.username_sha@ == b.username_sha@
        },
{
    reveal_strlit("account_id_sha");
    reveal_strlit("source");
    reveal_strlit("source_native_id");
    reveal_strlit("username_sha");
    let (x, y) = (a.row(), b.row());
    assert("account_id_sha"@.len() != "source"@.len());
    assert("account_id_sha"@.len() != "username_sha"@.len());
    assert("source"@.len() != "username_sha"@.len());
    assert("source_native_id"@.len() != "username_sha"@.len());
    let at: Seq<int> = seq![0int, 1, 3];
    crate::relation::lemma_same_key(x, y, person_key(), at);
    assert(at[0] == 0);
    assert(at[1] == 1);
    assert(at[2] == 3);
}

/// The steps that make the table `person`.
pub open spec fn person_steps() -> Seq<Step> {
    seq![
        Step::Create(Table::Person),
        Step::Index(
            Index {
                name: "idx_person_username",
                table: "person",
                columns: "account_id_sha, username_sha",
            },
        ),
        Step::Ensure(Table::Person),
    ]
}

/// The steps that make the table `person`.
pub fn init_person_table() -> (steps: Vec<Step>)
    ensures
        steps@ == person_steps(),
{
    let mut steps: Vec<Step> = Vec::new();
    steps.push(Step::Create(Table::Person));
    steps.push(Step::Index(
        Index {
            name: "idx_person_username",
            table: "person",
            columns: "account_id_sha, username_sha",
        },
    ));
    steps.push(Step::Ensure(Table::Person));
    assert(steps@ =~= person_steps());
    steps
}

/// The statement that stores a row of the table `person`, in place of the row with the same
/// key.
pub fn insert_person(p: &V3Person) -> (statement: Statement)
    ensures
        statement.does(Effect::Replace { table: "person"@, row: p.row() }),
{
    let mut row = RowBuilder::new();
    row.append(p.name_part());
    row.append(p.profile_part());
    row.append(p.flag_part());
    row.append(p.extra_part());
    assert(row@ =~= p.row());
    row.replace_into("person")
}

/// The names under which an account knows a contact.
#[derive(Clone, PartialEq, Eq)]
pub struct V3PersonAlias {
    pub account_id_sha: String,
    pub username_sha: String,
    pub remark_sha: Option<String>,
    pub nick_name_sha: Option<String>,
    pub account_id: String,
    pub username: String,
    pub remark: Option<String>,
    pub nick_name: Option<String>,
}

impl V3PersonAlias {
    /// The row that it is stored as.
    pub open spec fn row(self) -> Row {
        seq![
            ("account_id_sha"@, Val::Text(self.account_id_sha@)),
            ("username_sha"@, Val::Text(self.username_sha@)),
            ("remark_sha"@, crate::sql::nullable_text(self.remark_sha)),
            ("nick_name_sha"@, crate::sql::nullable_text(self.nick_name_sha)),
            ("account_id"@, Val::Text(self.account_id@)),
            ("username"@, Val::Text(self.username@)),
            ("remark"@, crate::sql::nullable_text(self.remark)),
            ("nick_name"@, crate::sql::nullable_text(self.nick_name)),
        ]
    }

    /// How its fields are shown in a log.
    pub open spec fn shown(self) -> Seq<(&'static str, Shown)> {
        seq![
            ("account_id_sha", Shown::Text(self.account_id_sha)),
            ("username_sha", Shown::Text(self.username_sha)),
            ("remark_sha", Shown::NullableText(self.remark_sha)),
            ("nick_name_sha", Shown::NullableText(self.nick_name_sha)),
            ("account_id_sha8", Shown::Digest(self.account_id)),
            ("username_sha8", Shown::Digest(self.username)),
        ]
    }

    /// What it shows of itself in a log.
    pub fn debug_row(&self) -> (row: DebugRow)
        ensures
            row.name@ == "V3PersonAlias"@,
            row.fields@ == self.shown(),
            row.complete == false,
    {
        let mut fields: Vec<(&'static str, Shown)> = Vec::new();
        fields.push(("account_id_sha", Shown::Text(self.account_id_sha.clone())));
        fields.push(("username_sha", Shown::Text(self.username_sha.clone())));
        fields.push(("remark_sha", Shown::NullableText(copy_text(&self.remark_sha))));
        fields.push(("nick_name_sha", Shown::NullableText(copy_text(&self.nick_name_sha))));
        fields.push(("account_id_sha8", Shown::Digest(self.account_id.clone())));
        fields.push(("username_sha8", Shown::Digest(self.username.clone())));
        assert(fields@ =~= self.shown());
        DebugRow { name: "V3PersonAlias", fields, complete: false }
    }
}

/// The columns of the table `person_alias_by_account_min`.
pub open spec fn person_alias_columns() -> Seq<Column> {
    seq![
        Column { name: "account_id_sha", decl: Decl::TextNotNull },
        Column { name: "username_sha", decl: Decl::TextNotNull },
        Column { name: "remark_sha", decl: Decl::Text },
        Column { name: "nick_name_sha", decl: Decl::Text },
        Column { name: "account_id", decl: Decl::TextNotNull },
        Column { name: "username", decl: Decl::TextNotNull },
        Column { name: "remark", decl: Decl::Text },
        Column { name: "nick_name", decl: Decl::Text },
    ]
}

/// The columns of the table `person_alias_by_account_min`.
pub fn person_alias_table() -> (columns: Vec<Column>)
    ensures
        columns@ == person_alias_columns(),
{
    let mut columns: Vec<Column> = Vec::new();
    columns.push(Column { name: "account_id_sha", decl: Decl::TextNotNull });
    columns.push(Column { name: "username_sha", decl: Decl::TextNotNull });
    columns.push(Column { name: "remark_sha", decl: Decl::Text });
    columns.push(Column { name: "nick_name_sha", decl: Decl::Text });
    columns.push(Column { name: "account_id", decl: Decl::TextNotNull });
    columns.push(Column { name: "username", decl: Decl::TextNotNull });
    columns.push(Column { name: "remark", decl: Decl::Text });
    columns.push(Column { name: "nick_name", decl: Decl::Text });
    assert(columns@ =~= person_alias_columns());
    columns
}

/// The columns by which the table `person_alias_by_account_min` tells its rows apart.
pub open spec fn person_alias_key() -> Seq<Seq<char>> {
    seq!["account_id_sha"@, "username_sha"@]
}

/// A row fills the table: it has a value for every column, and for no other.
pub proof fn law_person_alias_row_fills_the_table(row: V3PersonAlias)
    ensures
        crate::sql::names(row.row()) == crate::schema::column_names(person_alias_columns()),
{
    assert(crate::sql::names(row.row()) =~= crate::schema::column_names(person_alias_columns()));
}

/// Two rows of the table `person_alias_by_account_min` have the same key exactly where they agree in its fields.
pub proof fn law_person_alias_key_tells_rows_apart(a: V3PersonAlias, b: V3PersonAlias)
    ensures
        crate::relation::same_key(a.row(), b.row(), person_alias_key()) <==> {
            &&& a.account_id_sha@ == b.account_id_sha@
            &&& a.username_sha@ == b.username_sha@
        },
{
    reveal_strlit("account_id_sha");
    reveal_strlit("username_sha");
    let (x, y) = (a.row(), b.row());
    assert("account_id_sha"@.len() != "username_sha"@.len());
    let at: Seq<int> = seq![0int, 1];
    crate::relation::lemma_same_key(x, y, person_alias_key(), at);
    assert(at[0] == 0);
    assert(at[1] == 1);
}

/// The steps that make the table `person_alias_by_account_min`.
pub open spec fn person_alias_steps() -> Seq<Step> {
    seq![
        Step::Create(Table::PersonAlias),
    ]
}

/// The steps that make the table `person_alias_by_account_min`.
pub fn init_person_alias_table() -> (steps: Vec<Step>)
    ensures
        steps@ == person_alias_steps(),
{
    let mut steps: Vec<Step> = Vec::new();
    steps.push(Step::Create(Table::PersonAlias));
    assert(steps@ =~= person_alias_steps());
    steps
}

/// The statement that stores a row of the table `person_alias_by_account_min`, in place of the row with the same
/// key.
pub fn insert_person_alias(a: &V3PersonAlias) -> (statement: Statement)
    ensures
        statement.does(Effect::Replace { table: "person_alias_by_account_min"@, row: a.row() }),
{
    let mut row = RowBuilder::new();
    row.text("account_id_sha", a.account_id_sha.as_str());
    row.text("username_sha", a.username_sha.as_str());
    row.nullable_text("remark_sha", &a.remark_sha);
    row.nullable_text("nick_name_sha", &a.nick_name_sha);
    row.text("account_id", a.account_id.as_str());
    row.text("username", a.username.as_str());
    row.nullable_text("remark", &a.remark);
    row.nullable_text("nick_name", &a.nick_name);
    assert(row@ =~= a.row());
    row.replace_into("person_alias_by_account_min")
}

/// A request to become a friend.
#[derive(Clone, PartialEq, Eq)]
pub struct V3FriendVerify {
    pub account_id_sha: String,
    pub source: String,
    pub source_native_id: String,
    pub user_name_sha: String,
    pub friend_type: i64,
    pub timestamp: i64,
    pub is_sender: i64,
    pub scene: i64,
    pub content_len: i64,
    pub account_id: String,
    pub user_name: String,
    pub content: String,
}

impl V3FriendVerify {
    /// The row that it is stored as.
    pub open spec fn row(self) -> Row {
        seq![
            ("account_id_sha"@, Val::Text(self.account_id_sha@)),
            ("source"@, Val::Text(self.source@)),
            ("source_native_id"@, Val::Text(self.source_native_id@)),
            ("user_name_sha"@, Val::Text(self.user_name_sha@)),
            ("friend_type"@, Val::Integer(self.friend_type as int)),
            ("timestamp"@, Val::Integer(self.timestamp as int)),
            ("is_sender"@, Val::Integer(self.is_sender as int)),
            ("scene"@, Val::Integer(self.scene as int)),
            ("content_len"@, Val::Integer(self.content_len as int)),
            ("account_id"@, Val::Text(self.account_id@)),
            ("user_name"@, Val::Text(self.user_name@)),
            ("content"@, Val::Text(self.content@)),
        ]
    }

    /// How its fields are shown in a log.
    pub open spec fn shown(self) -> Seq<(&'static str, Shown)> {
        seq![
            ("account_id_sha", Shown::Text(self.account_id_sha)),
            ("source", Shown::Text(self.source)),
            ("source_native_id", Shown::Text(self.source_native_id)),
            ("user_name_sha", Shown::Text(self.user_name_sha)),
            ("friend_type", Shown::Integer(self.friend_type)),
            ("timestamp", Shown::Integer(self.timestamp)),
            ("is_sender", Shown::Integer(self.is_sender)),
            ("scene", Shown::Integer(self.scene)),
            ("content_len", Shown::Integer(self.content_len)),
            ("account_id_sha8", Shown::Digest(self.account_id)),
        ]
    }

    /// What it shows of itself in a log.
    pub fn debug_row(&self) -> (row: DebugRow)
        ensures
            row.name@ == "V3FriendVerify"@,
            row.fields@ == self.shown(),
            row.complete == false,
    {
        let mut fields: Vec<(&'static str, Shown)> = Vec::new();
        fields.push(("account_id_sha", Shown::Text(self.account_id_sha.clone())));
        fields.push(("source", Shown::Text(self.source.clone())));
        fields.push(("source_native_id", Shown::Text(self.source_native_id.clone())));
        fields.push(("user_name_sha", Shown::Text(self.user_name_sha.clone())));
        fields.push(("friend_type", Shown::Integer(self.friend_type)));
        fields.push(("timestamp", Shown::Integer(self.timestamp)));
        fields.push(("is_sender", Shown::Integer(self.is_sender)));
        fields.push(("scene", Shown::Integer(self.scene)));
        fields.push(("content_len", Shown::Integer(self.content_len)));
        fields.push(("account_id_sha8", Shown::Digest(self.account_id.clone())));
        assert(fields@ =~= self.shown());
        DebugRow { name: "V3FriendVerify", fields, complete: false }
    }
}

/// The columns of the table `friend_verify`.
pub open spec fn friend_verify_columns() -> Seq<Column> {
    seq![
        Column { name: "account_id_sha", decl: Decl::TextNotNull },
        Column { name: "source", decl: Decl::TextNotNull },
        Column { name: "source_native_id", decl: Decl::TextNotNull },
        Column { name: "user_name_sha", decl: Decl::TextNotNull },
        Column { name: "friend_type", decl: Decl::IntegerNotNull },
        Column { name: "timestamp", decl: Decl::IntegerNotNull },
        Column { name: "is_sender", decl: Decl::IntegerNotNull },
        Column { name: "scene", decl: Decl::IntegerNotNull },
        Column { name: "content_len", decl: Decl::IntegerNotNull },
        Column { name: "account_id", decl: Decl::TextNotNull },
        Column { name: "user_name", decl: Decl::TextNotNull },
        Column { name: "content", decl: Decl::TextNotNull },
    ]
}

/// The columns of the table `friend_verify`.
pub fn friend_verify_table() -> (columns: Vec<Column>)
    ensures
        columns@ == friend_verify_columns(),
{
    let mut columns: Vec<Column> = Vec::new();
    columns.push(Column { name: "account_id_sha", decl: Decl::TextNotNull });
    columns.push(Column { name: "source", decl: Decl::TextNotNull });
    columns.push(Column { name: "source_native_id", decl: Decl::TextNotNull });
    columns.push(Column { name: "user_name_sha", decl: Decl::TextNotNull });
    columns.push(Column { name: "friend_type", decl: Decl::IntegerNotNull });
    columns.push(Column { name: "timestamp", decl: Decl::IntegerNotNull });
    columns.push(Column { name: "is_sender", decl: Decl::IntegerNotNull });
    columns.push(Column { name: "scene", decl: Decl::IntegerNotNull });
    columns.push(Column { name: "content_len", decl: Decl::IntegerNotNull });
    columns.push(Column { name: "account_id", decl: Decl::TextNotNull });
    columns.push(Column { name: "user_name", decl: Decl::TextNotNull });
    columns.push(Column { name: "content", decl: Decl::TextNotNull });
    assert(columns@ =~= friend_verify_columns());
    columns
}

/// The columns by which the table `friend_verify` tells its rows apart.
pub open spec fn friend_verify_key() -> Seq<Seq<char>> {
    seq!["account_id_sha"@, "source"@, "source_native_id"@]
}

/// A row fills the table: it has a value for every column, and for no other.
pub proof fn law_friend_verify_row_fills_the_table(row: V3FriendVerify)
    ensures
        crate::sql::names(row.row()) == crate::schema::column_names(friend_verify_columns()),
{
    assert(crate::sql::names(row.row()) =~= crate::schema::column_names(friend_verify_columns()));
}

/// Two rows of the table `friend_verify` have the same key exactly where they agree in its fields.
pub proof fn law_friend_verify_key_tells_rows_apart(a: V3FriendVerify, b: V3FriendVerify)
    ensures
        crate::relation::same_key(a.row(), b.row(), friend_verify_key()) <==> {
            &&& a.account_id_sha@ == b.account_id_sha@
            &&& a.source@ == b.source@
            &&& a.source_native_id@ == b.source_native_id@
        },
{
    reveal_strlit("account_id_sha");
    reveal_strlit("source");
    reveal_strlit("source_native_id");
    let (x, y) = (a.row(), b.row());
    assert("account_id_sha"@.len() != "source"@.len());
    assert("account_id_sha"@.len() != "source_native_id"@.len());
    assert("source"@.len() != "source_native_id"@.len());
    let at: Seq<int> = seq![0int, 1, 2];
    crate::relation::lemma_same_key(x, y, friend_verify_key(), at);
    assert(at[0] == 0);
    assert(at[1] == 1);
    assert(at[2] == 2);
}

/// The steps that make the table `friend_verify`.
pub open spec fn friend_verify_steps() -> Seq<Step> {
    seq![
        Step::Create(Table::FriendVerify),
        Step::Index(
            Index {
                name: "idx_friend_verify_scene",
                table: "friend_verify",
                columns: "account_id_sha, scene",
            },
        ),
        Step::Index(
            Index {
                name: "idx_friend_verify_time",
                table: "friend_verify",
                columns: "account_id_sha, timestamp DESC",
            },
        ),
    ]
}

/// The steps that make the table `friend_verify`.
pub fn init_friend_verify_table() -> (steps: Vec<Step>)
    ensures
        steps@ == friend_verify_steps(),
{
    let mut steps: Vec<Step> = Vec::new();
    steps.push(Step::Create(Table::FriendVerify));
    steps.push(Step::Index(
        Index {
            name: "idx_friend_verify_scene",
            table: "friend_verify",
            columns: "account_id_sha, scene",
        },
    ));
    steps.push(Step::Index(
        Index {
            name: "idx_friend_verify_time",
            table: "friend_verify",
            columns: "account_id_sha, timestamp DESC",
        },
    ));
    assert(steps@ =~= friend_verify_steps());
    steps
}

/// The statement that stores a row of the table `friend_verify`, in place of the row with the same
/// key.
pub fn insert_friend_verify(v: &V3FriendVerify) -> (statement: Statement)
    ensures
        statement.does(Effect::Replace { table: "friend_verify"@, row: v.row() }),
{
    let mut row = RowBuilder::new();
    row.text("account_id_sha", v.account_id_sha.as_str());
    row.text("source", v.source.as_str());
    row.text("source_native_id", v.source_native_id.as_str());
    row.text("user_name_sha", v.user_name_sha.as_str());
    row.integer("friend_type", v.friend_type);
    row.integer("timestamp", v.timestamp);
    row.integer("is_sender", v.is_sender);
    row.integer("scene", v.scene);
    row.integer("content_len", v.content_len);
    row.text("account_id", v.account_id.as_str());
    row.text("user_name", v.user_name.as_str());
    row.text("content", v.content.as_str());
    assert(row@ =~= v.row());
    row.replace_into("friend_verify")
}

/// A user of a company account.
#[derive(Clone, PartialEq, Eq)]
pub struct V3BizchatUser {
    pub account_id_sha: String,
    pub source: String,
    pub source_native_id: String,
    pub user_id_sha: String,
    pub brand_user_name: String,
    pub user_name: String,
    pub account_id: String,
    pub user_id: String,
    pub head_img_url: String,
    pub profile_url: String,
    pub bit_flag: i64,
}

impl V3BizchatUser {
    /// The row that it is stored as.
    pub open spec fn row(self) -> Row {
        seq![
            ("account_id_sha"@, Val::Text(self.account_id_sha@)),
            ("source"@, Val::Text(self.source@)),
            ("source_native_id"@, Val::Text(self.source_native_id@)),
            ("user_id_sha"@, Val::Text(self.user_id_sha@)),
            ("brand_user_name"@, Val::Text(self.brand_user_name@)),
            ("user_name"@, Val::Text(self.user_name@)),
            ("account_id"@, Val::Text(self.account_id@)),
            ("user_id"@, Val::Text(self.user_id@)),
            ("head_img_url"@, Val::Text(self.head_img_url@)),
            ("profile_url"@, Val::Text(self.profile_url@)),
            ("bit_flag"@, Val::Integer(self.bit_flag as int)),
        ]
    }

    /// How its fields are shown in a log.
    pub open spec fn shown(self) -> Seq<(&'static str, Shown)> {
        seq![
            ("account_id_sha", Shown::Text(self.account_id_sha)),
            ("source", Shown::Text(self.source)),
            ("source_native_id", Shown::Text(self.source_native_id)),
            ("user_id_sha", Shown::Text(self.user_id_sha)),
            ("brand_user_name", Shown::Text(self.brand_user_name)),
            ("user_name_sha8", Shown::Digest(self.user_name)),
            ("account_id_sha8", Shown::Digest(self.account_id)),
            ("user_id_sha8", Shown::Digest(self.user_id)),
            ("head_img_url_len", Shown::Count(self.head_img_url@.len() as usize)),
            ("profile_url_len", Shown::Count(self.profile_url@.len() as usize)),
            ("bit_flag", Shown::Integer(self.bit_flag)),
        ]
    }

    /// What it shows of itself in a log.
    pub fn debug_row(&self) -> (row: DebugRow)
        ensures
            row.name@ == "V3BizchatUser"@,
            row.fields@ == self.shown(),
            row.complete == false,
    {
        let mut fields: Vec<(&'static str, Shown)> = Vec::new();
        fields.push(("account_id_sha", Shown::Text(self.account_id_sha.clone())));
        fields.push(("source", Shown::Text(self.source.clone())));
        fields.push(("source_native_id", Shown::Text(self.source_native_id.clone())));
        fields.push(("user_id_sha", Shown::Text(self.user_id_sha.clone())));
        fields.push(("brand_user_name", Shown::Text(self.brand_user_name.clone())));
        fields.push(("user_name_sha8", Shown::Digest(self.user_name.clone())));
        fields.push(("account_id_sha8", Shown::Digest(self.account_id.clone())));
        fields.push(("user_id_sha8", Shown::Digest(self.user_id.clone())));
        fields.push(("head_img_url_len", Shown::Count(self.head_img_url.as_str().unicode_len())));
        fields.push(("profile_url_len", Shown::Count(self.profile_url.as_str().unicode_len())));
        fields.push(("bit_flag", Shown::Integer(self.bit_flag)));
        assert(fields@ =~= self.shown());
        DebugRow { name: "V3BizchatUser", fields, complete: false }
    }
}

/// The columns of the table `bizchat_user`.
pub open spec fn bizchat_user_columns() -> Seq<Column> {
    seq![
        Column { name: "account_id_sha", decl: Decl::TextNotNull },
        Column { name: "source", decl: Decl::TextNotNull },
        Column { name: "source_native_id", decl: Decl::TextNotNull },
        Column { name: "user_id_sha", decl: Decl::TextNotNull },
        Column { name: "brand_user_name", decl: Decl::TextNotNull },
        Column { name: "user_name", decl: Decl::TextNotNull },
        Column { name: "account_id", decl: Decl::TextNotNull },
        Column { name: "user_id", decl: Decl::TextNotNull },
        Column { name: "head_img_url", decl: Decl::TextNotNull },
        Column { name: "profile_url", decl: Decl::TextNotNull },
        Column { name: "bit_flag", decl: Decl::IntegerNotNull },
    ]
}

/// The columns of the table `bizchat_user`.
pub fn bizchat_user_table() -> (columns: Vec<Column>)
    ensures
        columns@ == bizchat_user_columns(),
{
    let mut columns: Vec<Column> = Vec::new();
    columns.push(Column { name: "account_id_sha", decl: Decl::TextNotNull });
    columns.push(Column { name: "source", decl: Decl::TextNotNull });
    columns.push(Column { name: "source_native_id", decl: Decl::TextNotNull });
    columns.push(Column { name: "user_id_sha", decl: Decl::TextNotNull });
    columns.push(Column { name: "brand_user_name", decl: Decl::TextNotNull });
    columns.push(Column { name: "user_name", decl: Decl::TextNotNull });
    columns.push(Column { name: "account_id", decl: Decl::TextNotNull });
    columns.push(Column { name: "user_id", decl: Decl::TextNotNull });
    columns.push(Column { name: "head_img_url", decl: Decl::TextNotNull });
    columns.push(Column { name: "profile_url", decl: Decl::TextNotNull });
    columns.push(Column { name: "bit_flag", decl: Decl::IntegerNotNull });
    assert(columns@ =~= bizchat_user_columns());
    columns
}

/// The columns by which the table `bizchat_user` tells its rows apart.
pub open spec fn bizchat_user_key() -> Seq<Seq<char>> {
    seq!["account_id_sha"@, "source"@, "source_native_id"@]
}

/// A row fills the table: it has a value for every column, and for no other.
pub proof fn law_bizchat_user_row_fills_the_table(row: V3BizchatUser)
    ensures
        crate::sql::names(row.row()) == crate::schema::column_names(bizchat_user_columns()),
{
    assert(crate::sql::names(row.row()) =~= crate::schema::column_names(bizchat_user_columns()));
}

/// Two rows of the table `bizchat_user` have the same key exactly where they agree in its fields.
pub proof fn law_bizchat_user_key_tells_rows_apart(a: V3BizchatUser, b: V3BizchatUser)
    ensures
        crate::relation::same_key(a.row(), b.row(), bizchat_user_key()) <==> {
            &&& a.account_id_sha@ == b.account_id_sha@
            &&& a.source@ == b.source@
            &&& a.source_native_id@ == b.source_native_id@
        },
{
    reveal_strlit("account_id_sha");
    reveal_strlit("source");
    reveal_strlit("source_native_id");
    let (x, y) = (a.row(), b.row());
    assert("account_id_sha"@.len() != "source"@.len());
    assert("account_id_sha"@.len() != "source_native_id"@.len());
    assert("source"@.len() != "source_native_id"@.len());
    let at: Seq<int> = seq![0int, 1, 2];
    crate::relation::lemma_same_key(x, y, bizchat_user_key(), at);
    assert(at[0] == 0);
    assert(at[1] == 1);
    assert(at[2] == 2);
}

/// The steps that make the table `bizchat_user`.
pub open spec fn bizchat_user_steps() -> Seq<Step> {
    seq![
        Step::Create(Table::BizchatUser),
        Step::Index(
            Index {
                name: "idx_bizchat_user_brand",
                table: "bizchat_user",
                columns: "account_id_sha, brand_user_name",
            },
        ),
    ]
}

/// The steps that make the table `bizchat_user`.
pub fn init_bizchat_user_table() -> (steps: Vec<Step>)
    ensures
        steps@ == bizchat_user_steps(),
{
    let mut steps: Vec<Step> = Vec::new();
    steps.push(Step::Create(Table::BizchatUser));
    steps.push(Step::Index(
        Index {
            name: "idx_bizchat_user_brand",
            table: "bizchat_user",
            columns: "account_id_sha, brand_user_name",
        },
    ));
    assert(steps@ =~= bizchat_user_steps());
    steps
}

/// The statement that stores a row of the table `bizchat_user`, in place of the row with the same
/// key.
pub fn insert_bizchat_user(e: &V3BizchatUser) -> (statement: Statement)
    ensures
        statement.does(Effect::Replace { table: "bizchat_user"@, row: e.row() }),
{
    let mut row = RowBuilder::new();
    row.text("account_id_sha", e.account_id_sha.as_str());
    row.text("source", e.source.as_str());
    row.text("source_native_id", e.source_native_id.as_str());
    row.text("user_id_sha", e.user_id_sha.as_str());
    row.text("brand_user_name", e.brand_user_name.as_str());
    row.text("user_name", e.user_name.as_str());
    row.text("account_id", e.account_id.as_str());
    row.text("user_id", e.user_id.as_str());
    row.text("head_img_url", e.head_img_url.as_str());
    row.text("profile_url", e.profile_url.as_str());
    row.integer("bit_flag", e.bit_flag);
    assert(row@ =~= e.row());
    row.replace_into("bizchat_user")
}

/// An avatar.
#[derive(Clone, PartialEq, Eq)]
pub struct V3AvatarImage {
    pub account_id_sha: String,
    pub source: String,
    pub source_native_id: String,
    pub username_sha: String,
    pub md5: String,
    pub account_id: String,
    pub username: String,
    pub image_buffer: Vec<u8>,
    pub update_time: i64,
}

impl V3AvatarImage {
    /// The row that it is stored as.
    pub open spec fn row(self) -> Row {
        seq![
            ("account_id_sha"@, Val::Text(self.account_id_sha@)),
            ("source"@, Val::Text(self.source@)),
            ("source_native_id"@, Val::Text(self.source_native_id@)),
            ("username_sha"@, Val::Text(self.username_sha@)),
            ("md5"@, Val::Text(self.md5@)),
            ("account_id"@, Val::Text(self.account_id@)),
            ("username"@, Val::Text(self.username@)),
            ("image_buffer"@, Val::Blob(self.image_buffer@)),
            ("update_time"@, Val::Integer(self.update_time as int)),
        ]
    }

    /// How its fields are shown in a log.
    pub open spec fn shown(self) -> Seq<(&'static str, Shown)> {
        seq![
            ("account_id_sha", Shown::Text(self.account_id_sha)),
            ("source", Shown::Text(self.source)),
            ("source_native_id", Shown::Text(self.source_native_id)),
            ("username_sha", Shown::Text(self.username_sha)),
            ("md5", Shown::Text(self.md5)),
            ("account_id_sha8", Shown::Digest(self.account_id)),
            ("username_sha8", Shown::Digest(self.username)),
            ("image_buffer_len", Shown::Count(self.image_buffer@.len() as usize)),
            ("update_time", Shown::Integer(self.update_time)),
        ]
    }

    /// What it shows of itself in a log.
    pub fn debug_row(&self) -> (row: DebugRow)
        ensures
            row.name@ == "V3AvatarImage"@,
            row.fields@ == self.shown(),
            row.complete == false,
    {
        let mut fields: Vec<(&'static str, Shown)> = Vec::new();
        fields.push(("account_id_sha", Shown::Text(self.account_id_sha.clone())));
        fields.push(("source", Shown::Text(self.source.clone())));
        fields.push(("source_native_id", Shown::Text(self.source_native_id.clone())));
        fields.push(("username_sha", Shown::Text(self.username_sha.clone())));
        fields.push(("md5", Shown::Text(self.md5.clone())));
        fields.push(("account_id_sha8", Shown::Digest(self.account_id.clone())));
        fields.push(("username_sha8", Shown::Digest(self.username.clone())));
        fields.push(("image_buffer_len", Shown::Count(self.image_buffer.len())));
        fields.push(("update_time", Shown::Integer(self.update_time)));
        assert(fields@ =~= self.shown());
        DebugRow { name: "V3AvatarImage", fields, complete: false }
    }
}

/// The columns of the table `avatar_image`.
pub open spec fn avatar_image_columns() -> Seq<Column> {
    seq![
        Column { name: "account_id_sha", decl: Decl::TextNotNull },
        Column { name: "source", decl: Decl::TextNotNull },
        Column { name: "source_native_id", decl: Decl::TextNotNull },
        Column { name: "username_sha", decl: Decl::TextNotNull },
        Column { name: "md5", decl: Decl::TextNotNull },
        Column { name: "account_id", decl: Decl::TextNotNull },
        Column { name: "username", decl: Decl::TextNotNull },
        Column { name: "image_buffer", decl: Decl::Blob },
        Column { name: "update_time", decl: Decl::IntegerNotNull },
    ]
}

/// The columns of the table `avatar_image`.
pub fn avatar_image_table() -> (columns: Vec<Column>)
    ensures
        columns@ == avatar_image_columns(),
{
    let mut columns: Vec<Column> = Vec::new();
    columns.push(Column { name: "account_id_sha", decl: Decl::TextNotNull });
    columns.push(Column { name: "source", decl: Decl::TextNotNull });
    columns.push(Column { name: "source_native_id", decl: Decl::TextNotNull });
    columns.push(Column { name: "username_sha", decl: Decl::TextNotNull });
    columns.push(Column { name: "md5", decl: Decl::TextNotNull });
    columns.push(Column { name: "account_id", decl: Decl::TextNotNull });
    columns.push(Column { name: "username", decl: Decl::TextNotNull });
    columns.push(Column { name: "image_buffer", decl: Decl::Blob });
    columns.push(Column { name: "update_time", decl: Decl::IntegerNotNull });
    assert(columns@ =~= avatar_image_columns());
    columns
}

/// The columns by which the table `avatar_image` tells its rows apart.
pub open spec fn avatar_image_key() -> Seq<Seq<char>> {
    seq!["account_id_sha"@, "source"@, "source_native_id"@]
}

/// A row fills the table: it has a value for every column, and for no other.
pub proof fn law_avatar_image_row_fills_the_table(row: V3AvatarImage)
    ensures
        crate::sql::names(row.row()) == crate::schema::column_names(avatar_image_columns()),
{
    assert(crate::sql::names(row.row()) =~= crate::schema::column_names(avatar_image_columns()));
}

/// Two rows of the table `avatar_image` have the same key exactly where they agree in its fields.
pub proof fn law_avatar_image_key_tells_rows_apart(a: V3AvatarImage, b: V3AvatarImage)
    ensures
        crate::relation::same_key(a.row(), b.row(), avatar_image_key()) <==> {
            &&& a.account_id_sha@ == b.account_id_sha@
            &&& a.source@ == b.source@
            &&& a.source_native_id@ == b.source_native_id@
        },
{
    reveal_strlit("account_id_sha");
    reveal_strlit("source");
    reveal_strlit("source_native_id");
    let (x, y) = (a.row(), b.row());
    assert("account_id_sha"@.len() != "source"@.len());
    assert("account_id_sha"@.len() != "source_native_id"@.len());
    assert("source"@.len() != "source_native_id"@.len());
    let at: Seq<int> = seq![0int, 1, 2];
    crate::relation::lemma_same_key(x, y, avatar_image_key(), at);
    assert(at[0] == 0);
    assert(at[1] == 1);
    assert(at[2] == 2);
}

/// The steps that make the table `avatar_image`.
pub open spec fn avatar_image_steps() -> Seq<Step> {
    seq![
        Step::Create(Table::AvatarImage),
        Step::Index(
            Index {
                name: "idx_avatar_image_username",
                table: "avatar_image",
                columns: "account_id_sha, username_sha",
            },
        ),
    ]
}

/// The steps that make the table `avatar_image`.
pub fn init_avatar_image_table() -> (steps: Vec<Step>)
    ensures
        steps@ == avatar_image_steps(),
{
    let mut steps: Vec<Step> = Vec::new();
    steps.push(Step::Create(Table::AvatarImage));
    steps.push(Step::Index(
        Index {
            name: "idx_avatar_image_username",
            table: "avatar_image",
            columns: "account_id_sha, username_sha",
        },
    ));
    assert(steps@ =~= avatar_image_steps());
    steps
}

/// The statement that stores a row of the table `avatar_image`, in place of the row with the same
/// key.
pub fn insert_avatar_image(a: &V3AvatarImage) -> (statement: Statement)
    ensures
        statement.does(Effect::Replace { table: "avatar_image"@, row: a.row() }),
{
    let mut row = RowBuilder::new();
    row.text("account_id_sha", a.account_id_sha.as_str());
    row.text("source", a.source.as_str());
    row.text("source_native_id", a.source_native_id.as_str());
    row.text("username_sha", a.username_sha.as_str());
    row.text("md5", a.md5.as_str());
    row.text("account_id", a.account_id.as_str());
    row.text("username", a.username.as_str());
    row.blob("image_buffer", &a.image_buffer);
    row.integer("update_time", a.update_time);
    assert(row@ =~= a.row());
    row.replace_into("avatar_image")
}

/// Every field is stored under its own name: the row that `insert_person` puts in holds in each
/// column the field of that column.
pub proof fn law_person_fields_keep_their_names(m: &V3Person, statement: Statement)
    requires
        call_ensures(insert_person, (m,), statement),
    ensures
        statement.does(Effect::Replace { table: "person"@, row: m.row() }),
        m.row().len() == 45,
        crate::relation::column(m.row(), "account_id_sha"@) == Val::Text(m.account_id_sha@),
        crate::relation::column(m.row(), "source"@) == Val::Text(m.source@),
        crate::relation::column(m.row(), "source_native_id"@) == Val::Text(m.source_native_id@),
        crate::relation::column(m.row(), "username_sha"@) == Val::Text(m.username_sha@),
        crate::relation::column(m.row(), "account_id"@) == Val::Text(m.account_id@),
        crate::relation::column(m.row(), "username"@) == Val::Text(m.username@),
        crate::relation::column(m.row(), "nick_name"@) == Val::Text(m.nick_name@),
        crate::relation::column(m.row(), "remark"@) == (match m.remark { Some(t) => Val::Text(t@), None => Val::Null }),
        crate::relation::column(m.row(), "alias"@) == (match m.alias { Some(t) => Val::Text(t@), None => Val::Null }),
        crate::relation::column(m.row(), "nick_name_len"@) == Val::Integer(m.nick_name_len as int),
        crate::relation::column(m.row(), "remark_len"@) == Val::Integer(m.remark_len as int),
        crate::relation::column(m.row(), "alias_len"@) == Val::Integer(m.alias_len as int),
        crate::relation::column(m.row(), "local_type"@) == Val::Integer(m.local_type as int),
        crate::relation::column(m.row(), "is_in_chat_room"@) == Val::Integer(if m.is_in_chat_room { 1 } else { 0 }),
        crate::relation::column(m.row(), "quan_pin"@) == (match m.quan_pin { Some(t) => Val::Text(t@), None => Val::Null }),
        crate::relation::column(m.row(), "pin_yin_initial"@) == (match m.pin_yin_initial { Some(t) => Val::Text(t@), None => Val::Null }),
        crate::relation::column(m.row(), "remark_quan_pin"@) == (match m.remark_quan_pin { Some(t) => Val::Text(t@), None => Val::Null }),
        crate::relation::column(m.row(), "remark_pin_yin_initial"@) == (match m.remark_pin_yin_initial { Some(t) => Val::Text(t@), None => Val::Null }),
        crate::relation::column(m.row(), "verify_flag"@) == Val::Integer(m.verify_flag as int),
        crate::relation::column(m.row(), "delete_flag"@) == Val::Integer(m.delete_flag as int),
        crate::relation::column(m.row(), "big_head_url"@) == (match m.big_head_url { Some(t) => Val::Text(t@), None => Val::Null }),
        crate::relation::column(m.row(), "small_head_url"@) == (match m.small_head_url { Some(t) => Val::Text(t@), None => Val::Null }),
        crate::relation::column(m.row(), "head_img_md5"@) == (match m.head_img_md5 { Some(t) => Val::Text(t@), None => Val::Null }),
        crate::relation::column(m.row(), "description"@) == (match m.description { Some(t) => Val::Text(t@), None => Val::Null }),
        crate::relation::column(m.row(), "flag"@) == Val::Integer(m.flag as int),
        crate::relation::column(m.row(), "chat_room_notify"@) == Val::Integer(m.chat_room_notify as int),
        crate::relation::column(m.row(), "chat_room_type"@) == Val::Integer(m.chat_room_type as int),
        crate::relation::column(m.row(), "sex"@) == Val::Integer(m.sex as int),
        crate::relation::column(m.row(), "country"@) == (match m.country { Some(t) => Val::Text(t@), None => Val::Null }),
        crate::relation::column(m.row(), "province"@) == (match m.province { Some(t) => Val::Text(t@), None => Val::Null }),
        crate::relation::column(m.row(), "city"@) == (match m.city { Some(t) => Val::Text(t@), None => Val::Null }),
        crate::relation::column(m.row(), "friend_source"@) == Val::Integer(m.friend_source as int),
        crate::relation::column(m.row(), "is_starred"@) == Val::Integer(if m.is_starred { 1 } else { 0 }),
        crate::relation::column(m.row(), "is_collapsed"@) == Val::Integer(if m.is_collapsed { 1 } else { 0 }),
        crate::relation::column(m.row(), "is_pinned"@) == Val::Integer(if m.is_pinned { 1 } else { 0 }),
        crate::relation::column(m.row(), "blocks_moments"@) == Val::Integer(if m.blocks_moments { 1 } else { 0 }),
        crate::relation::column(m.row(), "hide_their_moments"@) == Val::Integer(if m.hide_their_moments { 1 } else { 0 }),
        crate::relation::column(m.row(), "chat_only"@) == Val::Integer(if m.chat_only { 1 } else { 0 }),
        crate::relation::column(m.row(), "is_muted"@) == Val::Integer(if m.is_muted { 1 } else { 0 }),
        crate::relation::column(m.row(), "signature"@) == (match m.signature { Some(t) => Val::Text(t@), None => Val::Null }),
        crate::relation::column(m.row(), "moments_cover_url"@) == (match m.moments_cover_url { Some(t) => Val::Text(t@), None => Val::Null }),
        crate::relation::column(m.row(), "labels"@) == (match m.labels { Some(t) => Val::Text(t@), None => Val::Null }),
        crate::relation::column(m.row(), "friend_add_time"@) == (match m.friend_add_time { Some(n) => Val::Integer(n as int), None => Val::Null }),
        crate::relation::column(m.row(), "openim_company"@) == (match m.openim_company { Some(t) => Val::Text(t@), None => Val::Null }),
        crate::relation::column(m.row(), "openim_realname"@) == (match m.openim_realname { Some(t) => Val::Text(t@), None => Val::Null }),
{
    reveal_strlit("account_id_sha");
    reveal_strlit("source");
    reveal_strlit("source_native_id");
    reveal_strlit("username_sha");
    reveal_strlit("account_id");
    reveal_strlit("username");
    reveal_strlit("nick_name");
    reveal_strlit("remark");
    reveal_strlit("alias");
    reveal_strlit("nick_name_len");
    reveal_strlit("remark_len");
    reveal_strlit("alias_len");
    reveal_strlit("local_type");
    reveal_strlit("is_in_chat_room");
    reveal_strlit("quan_pin");
    reveal_strlit("pin_yin_initial");
    reveal_strlit("remark_quan_pin");
    reveal_strlit("remark_pin_yin_initial");
    reveal_strlit("verify_flag");
    reveal_strlit("delete_flag");
    reveal_strlit("big_head_url");
    reveal_strlit("small_head_url");
    reveal_strlit("head_img_md5");
    reveal_strlit("description");
    reveal_strlit("flag");
    reveal_strlit("chat_room_notify");
    reveal_strlit("chat_room_type");
    reveal_strlit("sex");
    reveal_strlit("country");
    reveal_strlit("province");
    reveal_strlit("city");
    reveal_strlit("friend_source");
    reveal_strlit("is_starred");
    reveal_strlit("is_collapsed");
    reveal_strlit("is_pinned");
    reveal_strlit("blocks_moments");
    reveal_strlit("hide_their_moments");
    reveal_strlit("chat_only");
    reveal_strlit("is_muted");
    reveal_strlit("signature");
    reveal_strlit("moments_cover_url");
    reveal_strlit("labels");
    reveal_strlit("friend_add_time");
    reveal_strlit("openim_company");
    reveal_strlit("openim_realname");
    let row = m.row();
    assert(row[0].0.len() == 14 && row[1].0.len() == 6 && row[2].0.len() == 16);
    assert(row[3].0.len() == 12 && row[4].0.len() == 10 && row[5].0.len() == 8);
    assert(row[6].0.len() == 9 && row[7].0.len() == 6 && row[8].0.len() == 5);
    assert(row[9].0.len() == 13 && row[10].0.len() == 10 && row[11].0.len() == 9);
    assert(row[12].0.len() == 10 && row[13].0.len() == 15 && row[14].0.len() == 8);
    assert(row[15].0.len() == 15 && row[16].0.len() == 15 && row[17].0.len() == 22);
    assert(row[18].0.len() == 11 && row[19].0.len() == 11 && row[20].0.len() == 12);
    assert(row[21].0.len() == 14 && row[22].0.len() == 12 && row[23].0.len() == 11);
    assert(row[24].0.len() == 4 && row[25].0.len() == 16 && row[26].0.len() == 14);
    assert(row[27].0.len() == 3 && row[28].0.len() == 7 && row[29].0.len() == 8);
    assert(row[30].0.len() == 4 && row[31].0.len() == 13 && row[32].0.len() == 10);
    assert(row[33].0.len() == 12 && row[34].0.len() == 9 && row[35].0.len() == 14);
    assert(row[36].0.len() == 18 && row[37].0.len() == 9 && row[38].0.len() == 8);
    assert(row[39].0.len() == 9 && row[40].0.len() == 17 && row[41].0.len() == 6);
    assert(row[42].0.len() == 15 && row[43].0.len() == 14 && row[44].0.len() == 15);
    assert(row[1].0[0] != row[7].0[0]);
    assert(row[4].0[0] != row[10].0[0]);
    assert(row[6].0[0] != row[11].0[0]);
    assert(row[4].0[0] != row[12].0[0]);
    assert(row[10].0[0] != row[12].0[0]);
    assert(row[5].0[0] != row[14].0[0]);
    assert(row[13].0[0] != row[15].0[0]);
    assert(row[13].0[0] != row[16].0[0]);
    assert(row[15].0[0] != row[16].0[0]);
    assert(row[18].0[0] != row[19].0[0]);
    assert(row[3].0[0] != row[20].0[0]);
    assert(row[0].0[0] != row[21].0[0]);
    assert(row[3].0[0] != row[22].0[0]);
    assert(row[20].0[0] != row[22].0[0]);
    assert(row[18].0[0] != row[23].0[0]);
    assert(row[19].0[2] != row[23].0[2]);
    assert(row[2].0[0] != row[25].0[0]);
    assert(row[0].0[0] != row[26].0[0]);
    assert(row[21].0[0] != row[26].0[0]);
    assert(row[5].0[0] != row[29].0[0]);
    assert(row[14].0[0] != row[29].0[0]);
    assert(row[24].0[0] != row[30].0[0]);
    assert(row[9].0[0] != row[31].0[0]);
    assert(row[4].0[0] != row[32].0[0]);
    assert(row[10].0[0] != row[32].0[0]);
    assert(row[12].0[0] != row[32].0[0]);
    assert(row[3].0[0] != row[33].0[0]);
    assert(row[20].0[0] != row[33].0[0]);
    assert(row[22].0[0] != row[33].0[0]);
    assert(row[6].0[0] != row[34].0[0]);
    assert(row[11].0[0] != row[34].0[0]);
    assert(row[0].0[0] != row[35].0[0]);
    assert(row[21].0[0] != row[35].0[0]);
    assert(row[26].0[0] != row[35].0[0]);
    assert(row[6].0[0] != row[37].0[0]);
    assert(row[11].0[0] != row[37].0[0]);
    assert(row[34].0[0] != row[37].0[0]);
    assert(row[5].0[0] != row[38].0[0]);
    assert(row[14].0[0] != row[38].0[0]);
    assert(row[29].0[0] != row[38].0[0]);
    assert(row[6].0[0] != row[39].0[0]);
    assert(row[11].0[0] != row[39].0[0]);
    assert(row[34].0[0] != row[39].0[0]);
    assert(row[37].0[0] != row[39].0[0]);
    assert(row[1].0[0] != row[41].0[0]);
    assert(row[7].0[0] != row[41].0[0]);
    assert(row[13].0[0] != row[42].0[0]);
    assert(row[15].0[0] != row[42].0[0]);
    assert(row[16].0[0] != row[42].0[0]);
    assert(row[0].0[0] != row[43].0[0]);
    assert(row[21].0[0] != row[43].0[0]);
    assert(row[26].0[0] != row[43].0[0]);
    assert(row[35].0[0] != row[43].0[0]);
    assert(row[13].0[0] != row[44].0[0]);
    assert(row[15].0[0] != row[44].0[0]);
    assert(row[16].0[0] != row[44].0[0]);
    assert(row[42].0[0] != row[44].0[0]);
    crate::relation::lemma_column_at(row, 0);
    crate::relation::lemma_column_at(row, 1);
    crate::relation::lemma_column_at(row, 2);
    crate::relation::lemma_column_at(row, 3);
    crate::relation::lemma_column_at(row, 4);
    crate::relation::lemma_column_at(row, 5);
    crate::relation::lemma_column_at(row, 6);
    crate::relation::lemma_column_at(row, 7);
    crate::relation::lemma_column_at(row, 8);
    crate::relation::lemma_column_at(row, 9);
    crate::relation::lemma_column_at(row, 10);
    crate::relation::lemma_column_at(row, 11);
    crate::relation::lemma_column_at(row, 12);
    crate::relation::lemma_column_at(row, 13);
    crate::relation::lemma_column_at(row, 14);
    crate::relation::lemma_column_at(row, 15);
    crate::relation::lemma_column_at(row, 16);
    crate::relation::lemma_column_at(row, 17);
    crate::relation::lemma_column_at(row, 18);
    crate::relation::lemma_column_at(row, 19);
    crate::relation::lemma_column_at(row, 20);
    crate::relation::lemma_column_at(row, 21);
    crate::relation::lemma_column_at(row, 22);
    crate::relation::lemma_column_at(row, 23);
    crate::relation::lemma_column_at(row, 24);
    crate::relation::lemma_column_at(row, 25);
    crate::relation::lemma_column_at(row, 26);
    crate::relation::lemma_column_at(row, 27);
    crate::relation::lemma_column_at(row, 28);
    crate::relation::lemma_column_at(row, 29);
    crate::relation::lemma_column_at(row, 30);
    crate::relation::lemma_column_at(row, 31);
    crate::relation::lemma_column_at(row, 32);
    crate::relation::lemma_column_at(row, 33);
    crate::relation::lemma_column_at(row, 34);
    crate::relation::lemma_column_at(row, 35);
    crate::relation::lemma_column_at(row, 36);
    crate::relation::lemma_column_at(row, 37);
    crate::relation::lemma_column_at(row, 38);
    crate::relation::lemma_column_at(row, 39);
    crate::relation::lemma_column_at(row, 40);
    crate::relation::lemma_column_at(row, 41);
    crate::relation::lemma_column_at(row, 42);
    crate::relation::lemma_column_at(row, 43);
    crate::relation::lemma_column_at(row, 44);
}


/// Every field is stored under its own name: the row that `insert_person_alias` puts in holds in each
/// column the field of that column.
pub proof fn law_person_alias_fields_keep_their_names(m: &V3PersonAlias, statement: Statement)
    requires
        call_ensures(insert_person_alias, (m,), statement),
    ensures
        statement.does(Effect::Replace { table: "person_alias_by_account_min"@, row: m.row() }),
        m.row().len() == 8,
        crate::relation::column(m.row(), "account_id_sha"@) == Val::Text(m.account_id_sha@),
        crate::relation::column(m.row(), "username_sha"@) == Val::Text(m.username_sha@),
        crate::relation::column(m.row(), "remark_sha"@) == (match m.remark_sha { Some(t) => Val::Text(t@), None => Val::Null }),
        crate::relation::column(m.row(), "nick_name_sha"@) == (match m.nick_name_sha { Some(t) => Val::Text(t@), None => Val::Null }),
        crate::relation::column(m.row(), "account_id"@) == Val::Text(m.account_id@),
        crate::relation::column(m.row(), "username"@) == Val::Text(m.username@),
        crate::relation::column(m.row(), "remark"@) == (match m.remark { Some(t) => Val::Text(t@), None => Val::Null }),
        crate::relation::column(m.row(), "nick_name"@) == (match m.nick_name { Some(t) => Val::Text(t@), None => Val::Null }),
{
    reveal_strlit("account_id_sha");
    reveal_strlit("username_sha");
    reveal_strlit("remark_sha");
    reveal_strlit("nick_name_sha");
    reveal_strlit("account_id");
    reveal_strlit("username");
    reveal_strlit("remark");
    reveal_strlit("nick_name");
    let row = m.row();
    assert(row[0].0.len() == 14 && row[1].0.len() == 12 && row[2].0.len() == 10);
    assert(row[3].0.len() == 13 && row[4].0.len() == 10 && row[5].0.len() == 8);
    assert(row[6].0.len() == 6 && row[7].0.len() == 9);
    assert(row[2].0[0] != row[4].0[0]);
    crate::relation::lemma_column_at(row, 0);
    crate::relation::lemma_column_at(row, 1);
    crate::relation::lemma_column_at(row, 2);
    crate::relation::lemma_column_at(row, 3);
    crate::relation::lemma_column_at(row, 4);
    crate::relation::lemma_column_at(row, 5);
    crate::relation::lemma_column_at(row, 6);
    crate::relation::lemma_column_at(row, 7);
}


/// Every field is stored under its own name: the row that `insert_friend_verify` puts in holds in each
/// column the field of that column.
pub proof fn law_friend_verify_fields_keep_their_names(m: &V3FriendVerify, statement: Statement)
    requires
        call_ensures(insert_friend_verify, (m,), statement),
    ensures
        statement.does(Effect::Replace { table: "friend_verify"@, row: m.row() }),
        m.row().len() == 12,
        crate::relation::column(m.row(), "account_id_sha"@) == Val::Text(m.account_id_sha@),
        crate::relation::column(m.row(), "source"@) == Val::Text(m.source@),
        crate::relation::column(m.row(), "source_native_id"@) == Val::Text(m.source_native_id@),
        crate::relation::column(m.row(), "user_name_sha"@) == Val::Text(m.user_name_sha@),
        crate::relation::column(m.row(), "friend_type"@) == Val::Integer(m.friend_type as int),
        crate::relation::column(m.row(), "timestamp"@) == Val::Integer(m.timestamp as int),
        crate::relation::column(m.row(), "is_sender"@) == Val::Integer(m.is_sender as int),
        crate::relation::column(m.row(), "scene"@) == Val::Integer(m.scene as int),
        crate::relation::column(m.row(), "content_len"@) == Val::Integer(m.content_len as int),
        crate::relation::column(m.row(), "account_id"@) == Val::Text(m.account_id@),
        crate::relation::column(m.row(), "user_name"@) == Val::Text(m.user_name@),
        crate::relation::column(m.row(), "content"@) == Val::Text(m.content@),
{
    reveal_strlit("account_id_sha");
    reveal_strlit("source");
    reveal_strlit("source_native_id");
    reveal_strlit("user_name_sha");
    reveal_strlit("friend_type");
    reveal_strlit("timestamp");
    reveal_strlit("is_sender");
    reveal_strlit("scene");
    reveal_strlit("content_len");
    reveal_strlit("account_id");
    reveal_strlit("user_name");
    reveal_strlit("content");
    let row = m.row();
    assert(row[0].0.len() == 14 && row[1].0.len() == 6 && row[2].0.len() == 16);
    assert(row[3].0.len() == 13 && row[4].0.len() == 11 && row[5].0.len() == 9);
    assert(row[6].0.len() == 9 && row[7].0.len() == 5 && row[8].0.len() == 11);
    assert(row[9].0.len() == 10 && row[10].0.len() == 9 && row[11].0.len() == 7);
    assert(row[5].0[0] != row[6].0[0]);
    assert(row[4].0[0] != row[8].0[0]);
    assert(row[5].0[0] != row[10].0[0]);
    assert(row[6].0[0] != row[10].0[0]);
    crate::relation::lemma_column_at(row, 0);
    crate::relation::lemma_column_at(row, 1);
    crate::relation::lemma_column_at(row, 2);
    crate::relation::lemma_column_at(row, 3);
    crate::relation::lemma_column_at(row, 4);
    crate::relation::lemma_column_at(row, 5);
    crate::relation::lemma_column_at(row, 6);
    crate::relation::lemma_column_at(row, 7);
    crate::relation::lemma_column_at(row, 8);
    crate::relation::lemma_column_at(row, 9);
    crate::relation::lemma_column_at(row, 10);
    crate::relation::lemma_column_at(row, 11);
}


/// Every field is stored under its own name: the row that `insert_bizchat_user` puts in holds in each
/// column the field of that column.
pub proof fn law_bizchat_user_fields_keep_their_names(m: &V3BizchatUser, statement: Statement)
    requires
        call_ensures(insert_bizchat_user, (m,), statement),
    ensures
        statement.does(Effect::Replace { table: "bizchat_user"@, row: m.row() }),
        m.row().len() == 11,
        crate::relation::column(m.row(), "account_id_sha"@) == Val::Text(m.account_id_sha@),
        crate::relation::column(m.row(), "source"@) == Val::Text(m.source@),
        crate::relation::column(m.row(), "source_native_id"@) == Val::Text(m.source_native_id@),
        crate::relation::column(m.row(), "user_id_sha"@) == Val::Text(m.user_id_sha@),
        crate::relation::column(m.row(), "brand_user_name"@) == Val::Text(m.brand_user_name@),
        crate::relation::column(m.row(), "user_name"@) == Val::Text(m.user_name@),
        crate::relation::column(m.row(), "account_id"@) == Val::Text(m.account_id@),
        crate::relation::column(m.row(), "user_id"@) == Val::Text(m.user_id@),
        crate::relation::column(m.row(), "head_img_url"@) == Val::Text(m.head_img_url@),
        crate::relation::column(m.row(), "profile_url"@) == Val::Text(m.profile_url@),
        crate::relation::column(m.row(), "bit_flag"@) == Val::Integer(m.bit_flag as int),
{
    reveal_strlit("account_id_sha");
    reveal_strlit("source");
    reveal_strlit("source_native_id");
    reveal_strlit("user_id_sha");
    reveal_strlit("brand_user_name");
    reveal_strlit("user_name");
    reveal_strlit("account_id");
    reveal_strlit("user_id");
    reveal_strlit("head_img_url");
    reveal_strlit("profile_url");
    reveal_strlit("bit_flag");
    let row = m.row();
    assert(row[0].0.len() == 14 && row[1].0.len() == 6 && row[2].0.len() == 16);
    assert(row[3].0.len() == 11 && row[4].0.len() == 15 && row[5].0.len() == 9);
    assert(row[6].0.len() == 10 && row[7].0.len() == 7 && row[8].0.len() == 12);
    assert(row[9].0.len() == 11 && row[10].0.len() == 8);
    assert(row[3].0[0] != row[9].0[0]);
    crate::relation::lemma_column_at(row, 0);
    crate::relation::lemma_column_at(row, 1);
    crate::relation::lemma_column_at(row, 2);
    crate::relation::lemma_column_at(row, 3);
    crate::relation::lemma_column_at(row, 4);
    crate::relation::lemma_column_at(row, 5);
    crate::relation::lemma_column_at(row, 6);
    crate::relation::lemma_column_at(row, 7);
    crate::relation::lemma_column_at(row, 8);
    crate::relation::lemma_column_at(row, 9);
    crate::relation::lemma_column_at(row, 10);
}


/// Every field is stored under its own name: the row that `insert_avatar_image` puts in holds in each
/// column the field of that column.
pub proof fn law_avatar_image_fields_keep_their_names(m: &V3AvatarImage, statement: Statement)
    requires
        call_ensures(insert_avatar_image, (m,), statement),
    ensures
        statement.does(Effect::Replace { table: "avatar_image"@, row: m.row() }),
        m.row().len() == 9,
        crate::relation::column(m.row(), "account_id_sha"@) == Val::Text(m.account_id_sha@),
        crate::relation::column(m.row(), "source"@) == Val::Text(m.source@),
        crate::relation::column(m.row(), "source_native_id"@) == Val::Text(m.source_native_id@),
        crate::relation::column(m.row(), "username_sha"@) == Val::Text(m.username_sha@),
        crate::relation::column(m.row(), "md5"@) == Val::Text(m.md5@),
        crate::relation::column(m.row(), "account_id"@) == Val::Text(m.account_id@),
        crate::relation::column(m.row(), "username"@) == Val::Text(m.username@),
        crate::relation::column(m.row(), "image_buffer"@) == Val::Blob(m.image_buffer@),
        crate::relation::column(m.row(), "update_time"@) == Val::Integer(m.update_time as int),
{
    reveal_strlit("account_id_sha");
    reveal_strlit("source");
    reveal_strlit("source_native_id");
    reveal_strlit("username_sha");
    reveal_strlit("md5");
    reveal_strlit("account_id");
    reveal_strlit("username");
    reveal_strlit("image_buffer");
    reveal_strlit("update_time");
    let row = m.row();
    assert(row[0].0.len() == 14 && row[1].0.len() == 6 && row[2].0.len() == 16);
    assert(row[3].0.len() == 12 && row[4].0.len() == 3 && row[5].0.len() == 10);
    assert(row[6].0.len() == 8 && row[7].0.len() == 12 && row[8].0.len() == 11);
    assert(row[3].0[0] != row[7].0[0]);
    crate::relation::lemma_column_at(row, 0);
    crate::relation::lemma_column_at(row, 1);
    crate::relation::lemma_column_at(row, 2);
    crate::relation::lemma_column_at(row, 3);
    crate::relation::lemma_column_at(row, 4);
    crate::relation::lemma_column_at(row, 5);
    crate::relation::lemma_column_at(row, 6);
    crate::relation::lemma_column_at(row, 7);
    crate::relation::lemma_column_at(row, 8);
}


/// What a log shows of `V3Person`: each of these fields under its name, in the form that is said
/// here, and nothing else. What is not shown as it is stays hidden.
pub proof fn law_person_shows_only_these_fields(m: &V3Person, row: DebugRow)
    requires
        call_ensures(V3Person::debug_row, (m,), row),
    ensures
        row.name@ == "V3Person"@,
        row.complete == false,
        row.fields@.len() == 26,
        row.fields@.contains(("account_id_sha", Shown::Text(m.account_id_sha))),
        row.fields@.contains(("source", Shown::Text(m.source))),
        row.fields@.contains(("source_native_id", Shown::Text(m.source_native_id))),
        row.fields@.contains(("username_sha", Shown::Text(m.username_sha))),
        row.fields@.contains(("account_id_sha8", Shown::Digest(m.account_id))),
        row.fields@.contains(("username_sha8", Shown::Digest(m.username))),
        row.fields@.contains(("nick_name_len", Shown::Integer(m.nick_name_len))),
        row.fields@.contains(("remark_len", Shown::Integer(m.remark_len))),
        row.fields@.contains(("alias_len", Shown::Integer(m.alias_len))),
        row.fields@.contains(("local_type", Shown::Integer(m.local_type))),
        row.fields@.contains(("is_in_chat_room", Shown::Flag(m.is_in_chat_room))),
        row.fields@.contains(("verify_flag", Shown::Integer(m.verify_flag))),
        row.fields@.contains(("delete_flag", Shown::Integer(m.delete_flag))),
        row.fields@.contains(("flag", Shown::Integer(m.flag))),
        row.fields@.contains(("chat_room_notify", Shown::Integer(m.chat_room_notify))),
        row.fields@.contains(("chat_room_type", Shown::Integer(m.chat_room_type))),
        row.fields@.contains(("sex", Shown::Integer(m.sex))),
        row.fields@.contains(("friend_source", Shown::Integer(m.friend_source))),
        row.fields@.contains(("is_starred", Shown::Flag(m.is_starred))),
        row.fields@.contains(("is_collapsed", Shown::Flag(m.is_collapsed))),
        row.fields@.contains(("is_pinned", Shown::Flag(m.is_pinned))),
        row.fields@.contains(("blocks_moments", Shown::Flag(m.blocks_moments))),
        row.fields@.contains(("hide_their_moments", Shown::Flag(m.hide_their_moments))),
        row.fields@.contains(("chat_only", Shown::Flag(m.chat_only))),
        row.fields@.contains(("is_muted", Shown::Flag(m.is_muted))),
        row.fields@.contains(("friend_add_time", Shown::NullableInteger(m.friend_add_time))),
{
    let fields = row.fields@;
    assert(fields[0] == ("account_id_sha", Shown::Text(m.account_id_sha)));
    assert(fields[1] == ("source", Shown::Text(m.source)));
    assert(fields[2] == ("source_native_id", Shown::Text(m.source_native_id)));
    assert(fields[3] == ("username_sha", Shown::Text(m.username_sha)));
    assert(fields[4] == ("account_id_sha8", Shown::Digest(m.account_id)));
    assert(fields[5] == ("username_sha8", Shown::Digest(m.username)));
    assert(fields[6] == ("nick_name_len", Shown::Integer(m.nick_name_len)));
    assert(fields[7] == ("remark_len", Shown::Integer(m.remark_len)));
    assert(fields[8] == ("alias_len", Shown::Integer(m.alias_len)));
    assert(fields[9] == ("local_type", Shown::Integer(m.local_type)));
    assert(fields[10] == ("is_in_chat_room", Shown::Flag(m.is_in_chat_room)));
    assert(fields[11] == ("verify_flag", Shown::Integer(m.verify_flag)));
    assert(fields[12] == ("delete_flag", Shown::Integer(m.delete_flag)));
    assert(fields[13] == ("flag", Shown::Integer(m.flag)));
    assert(fields[14] == ("chat_room_notify", Shown::Integer(m.chat_room_notify)));
    assert(fields[15] == ("chat_room_type", Shown::Integer(m.chat_room_type)));
    assert(fields[16] == ("sex", Shown::Integer(m.sex)));
    assert(fields[17] == ("friend_source", Shown::Integer(m.friend_source)));
    assert(fields[18] == ("is_starred", Shown::Flag(m.is_starred)));
    assert(fields[19] == ("is_collapsed", Shown::Flag(m.is_collapsed)));
    assert(fields[20] == ("is_pinned", Shown::Flag(m.is_pinned)));
    assert(fields[21] == ("blocks_moments", Shown::Flag(m.blocks_moments)));
    assert(fields[22] == ("hide_their_moments", Shown::Flag(m.hide_their_moments)));
    assert(fields[23] == ("chat_only", Shown::Flag(m.chat_only)));
    assert(fields[24] == ("is_muted", Shown::Flag(m.is_muted)));
    assert(fields[25] == ("friend_add_time", Shown::NullableInteger(m.friend_add_time)));
}

/// What a log shows of `V3PersonAlias`: each of these fields under its name, in the form that is said
/// here, and nothing else. What is not shown as it is stays hidden.
pub proof fn law_person_alias_shows_only_these_fields(m: &V3PersonAlias, row: DebugRow)
    requires
        call_ensures(V3PersonAlias::debug_row, (m,), row),
    ensures
        row.name@ == "V3PersonAlias"@,
        row.complete == false,
        row.fields@.len() == 6,
        row.fields@.contains(("account_id_sha", Shown::Text(m.account_id_sha))),
        row.fields@.contains(("username_sha", Shown::Text(m.username_sha))),
        row.fields@.contains(("remark_sha", Shown::NullableText(m.remark_sha))),
        row.fields@.contains(("nick_name_sha", Shown::NullableText(m.nick_name_sha))),
        row.fields@.contains(("account_id_sha8", Shown::Digest(m.account_id))),
        row.fields@.contains(("username_sha8", Shown::Digest(m.username))),
{
    let fields = row.fields@;
    assert(fields[0] == ("account_id_sha", Shown::Text(m.account_id_sha)));
    assert(fields[1] == ("username_sha", Shown::Text(m.username_sha)));
    assert(fields[2] == ("remark_sha", Shown::NullableText(m.remark_sha)));
    assert(fields[3] == ("nick_name_sha", Shown::NullableText(m.nick_name_sha)));
    assert(fields[4] == ("account_id_sha8", Shown::Digest(m.account_id)));
    assert(fields[5] == ("username_sha8", Shown::Digest(m.username)));
}

/// What a log shows of `V3FriendVerify`: each of these fields under its name, in the form that is said
/// here, and nothing else. What is not shown as it is stays hidden.
pub proof fn law_friend_verify_shows_only_these_fields(m: &V3FriendVerify, row: DebugRow)
    requires
        call_ensures(V3FriendVerify::debug_row, (m,), row),
    ensures
        row.name@ == "V3FriendVerify"@,
        row.complete == false,
        row.fields@.len() == 10,
        row.fields@.contains(("account_id_sha", Shown::Text(m.account_id_sha))),
        row.fields@.contains(("source", Shown::Text(m.source))),
        row.fields@.contains(("source_native_id", Shown::Text(m.source_native_id))),
        row.fields@.contains(("user_name_sha", Shown::Text(m.user_name_sha))),
        row.fields@.contains(("friend_type", Shown::Integer(m.friend_type))),
        row.fields@.contains(("timestamp", Shown::Integer(m.timestamp))),
        row.fields@.contains(("is_sender", Shown::Integer(m.is_sender))),
        row.fields@.contains(("scene", Shown::Integer(m.scene))),
        row.fields@.contains(("content_len", Shown::Integer(m.content_len))),
        row.fields@.contains(("account_id_sha8", Shown::Digest(m.account_id))),
{
    let fields = row.fields@;
    assert(fields[0] == ("account_id_sha", Shown::Text(m.account_id_sha)));
    assert(fields[1] == ("source", Shown::Text(m.source)));
    assert(fields[2] == ("source_native_id", Shown::Text(m.source_native_id)));
    assert(fields[3] == ("user_name_sha", Shown::Text(m.user_name_sha)));
    assert(fields[4] == ("friend_type", Shown::Integer(m.friend_type)));
    assert(fields[5] == ("timestamp", Shown::Integer(m.timestamp)));
    assert(fields[6] == ("is_sender", Shown::Integer(m.is_sender)));
    assert(fields[7] == ("scene", Shown::Integer(m.scene)));
    assert(fields[8] == ("content_len", Shown::Integer(m.content_len)));
    assert(fields[9] == ("account_id_sha8", Shown::Digest(m.account_id)));
}

/// What a log shows of `V3BizchatUser`: each of these fields under its name, in the form that is said
/// here, and nothing else. What is not shown as it is stays hidden.
pub proof fn law_bizchat_user_shows_only_these_fields(m: &V3BizchatUser, row: DebugRow)
    requires
        call_ensures(V3BizchatUser::debug_row, (m,), row),
    ensures
        row.name@ == "V3BizchatUser"@,
        row.complete == false,
        row.fields@.len() == 11,
        row.fields@.contains(("account_id_sha", Shown::Text(m.account_id_sha))),
        row.fields@.contains(("source", Shown::Text(m.source))),
        row.fields@.contains(("source_native_id", Shown::Text(m.source_native_id))),
        row.fields@.contains(("user_id_sha", Shown::Text(m.user_id_sha))),
        row.fields@.contains(("brand_user_name", Shown::Text(m.brand_user_name))),
        row.fields@.contains(("user_name_sha8", Shown::Digest(m.user_name))),
        row.fields@.contains(("account_id_sha8", Shown::Digest(m.account_id))),
        row.fields@.contains(("user_id_sha8", Shown::Digest(m.user_id))),
        row.fields@.contains(("head_img_url_len", Shown::Count(m.head_img_url@.len() as usize))),
        row.fields@.contains(("profile_url_len", Shown::Count(m.profile_url@.len() as usize))),
        row.fields@.contains(("bit_flag", Shown::Integer(m.bit_flag))),
{
    let fields = row.fields@;
    assert(fields[0] == ("account_id_sha", Shown::Text(m.account_id_sha)));
    assert(fields[1] == ("source", Shown::Text(m.source)));
    assert(fields[2] == ("source_native_id", Shown::Text(m.source_native_id)));
    assert(fields[3] == ("user_id_sha", Shown::Text(m.user_id_sha)));
    assert(fields[4] == ("brand_user_name", Shown::Text(m.brand_user_name)));
    assert(fields[5] == ("user_name_sha8", Shown::Digest(m.user_name)));
    assert(fields[6] == ("account_id_sha8", Shown::Digest(m.account_id)));
    assert(fields[7] == ("user_id_sha8", Shown::Digest(m.user_id)));
    assert(fields[8] == ("head_img_url_len", Shown::Count(m.head_img_url@.len() as usize)));
    assert(fields[9] == ("profile_url_len", Shown::Count(m.profile_url@.len() as usize)));
    assert(fields[10] == ("bit_flag", Shown::Integer(m.bit_flag)));
}

/// What a log shows of `V3AvatarImage`: each of these fields under its name, in the form that is said
/// here, and nothing else. What is not shown as it is stays hidden.
pub proof fn law_avatar_image_shows_only_these_fields(m: &V3AvatarImage, row: DebugRow)
    requires
        call_ensures(V3AvatarImage::debug_row, (m,), row),
    ensures
        row.name@ == "V3AvatarImage"@,
        row.complete == false,
        row.fields@.len() == 9,
        row.fields@.contains(("account_id_sha", Shown::Text(m.account_id_sha))),
        row.fields@.contains(("source", Shown::Text(m.source))),
        row.fields@.contains(("source_native_id", Shown::Text(m.source_native_id))),
        row.fields@.contains(("username_sha", Shown::Text(m.username_sha))),
        row.fields@.contains(("md5", Shown::Text(m.md5))),
        row.fields@.contains(("account_id_sha8", Shown::Digest(m.account_id))),
        row.fields@.contains(("username_sha8", Shown::Digest(m.username))),
        row.fields@.contains(("image_buffer_len", Shown::Count(m.image_buffer@.len() as usize))),
        row.fields@.contains(("update_time", Shown::Integer(m.update_time))),
{
    let fields = row.fields@;
    assert(fields[0] == ("account_id_sha", Shown::Text(m.account_id_sha)));
    assert(fields[1] == ("source", Shown::Text(m.source)));
    assert(fields[2] == ("source_native_id", Shown::Text(m.source_native_id)));
    assert(fields[3] == ("username_sha", Shown::Text(m.username_sha)));
    assert(fields[4] == ("md5", Shown::Text(m.md5)));
    assert(fields[5] == ("account_id_sha8", Shown::Digest(m.account_id)));
    assert(fields[6] == ("username_sha8", Shown::Digest(m.username)));
    assert(fields[7] == ("image_buffer_len", Shown::Count(m.image_buffer@.len() as usize)));
    assert(fields[8] == ("update_time", Shown::Integer(m.update_time)));
}

/// Every column takes what is stored in it, and only the columns of what may be missing take null.
pub proof fn law_person_columns_take_its_rows(m: V3Person, i: int)
    requires
        0 <= i < m.row().len(),
    ensures
        person_columns()[i].decl.takes(m.row()[i].1),
        person_columns()[i].decl.takes(Val::Null) <==> i == 7 || i == 8 || i == 14 || i == 15 || i == 16 || i == 17 || i == 20 || i == 21 || i == 22 || i == 23 || i == 28 || i == 29 || i == 30 || i == 39 || i == 40 || i == 41 || i == 42 || i == 43 || i == 44,
{
    let row = m.row();
    let columns = person_columns();
    assert(columns[0].decl.takes(row[0].1) && columns[1].decl.takes(row[1].1) && columns[2].decl.takes(row[2].1));
    assert(columns[3].decl.takes(row[3].1) && columns[4].decl.takes(row[4].1) && columns[5].decl.takes(row[5].1));
    assert(columns[6].decl.takes(row[6].1) && columns[7].decl.takes(row[7].1) && columns[8].decl.takes(row[8].1));
    assert(columns[9].decl.takes(row[9].1) && columns[10].decl.takes(row[10].1) && columns[11].decl.takes(row[11].1));
    assert(columns[12].decl.takes(row[12].1) && columns[13].decl.takes(row[13].1) && columns[14].decl.takes(row[14].1));
    assert(columns[15].decl.takes(row[15].1) && columns[16].decl.takes(row[16].1) && columns[17].decl.takes(row[17].1));
    assert(columns[18].decl.takes(row[18].1) && columns[19].decl.takes(row[19].1) && columns[20].decl.takes(row[20].1));
    assert(columns[21].decl.takes(row[21].1) && columns[22].decl.takes(row[22].1) && columns[23].decl.takes(row[23].1));
    assert(columns[24].decl.takes(row[24].1) && columns[25].decl.takes(row[25].1) && columns[26].decl.takes(row[26].1));
    assert(columns[27].decl.takes(row[27].1) && columns[28].decl.takes(row[28].1) && columns[29].decl.takes(row[29].1));
    assert(columns[30].decl.takes(row[30].1) && columns[31].decl.takes(row[31].1) && columns[32].decl.takes(row[32].1));
    assert(columns[33].decl.takes(row[33].1) && columns[34].decl.takes(row[34].1) && columns[35].decl.takes(row[35].1));
    assert(columns[36].decl.takes(row[36].1) && columns[37].decl.takes(row[37].1) && columns[38].decl.takes(row[38].1));
    assert(columns[39].decl.takes(row[39].1) && columns[40].decl.takes(row[40].1) && columns[41].decl.takes(row[41].1));
    assert(columns[42].decl.takes(row[42].1) && columns[43].decl.takes(row[43].1) && columns[44].decl.takes(row[44].1));
}

/// Every column takes what is stored in it, and only the columns of what may be missing take null.
pub proof fn law_person_alias_columns_take_its_rows(m: V3PersonAlias, i: int)
    requires
        0 <= i < m.row().len(),
    ensures
        person_alias_columns()[i].decl.takes(m.row()[i].1),
        person_alias_columns()[i].decl.takes(Val::Null) <==> i == 2 || i == 3 || i == 6 || i == 7,
{
    let row = m.row();
    let columns = person_alias_columns();
    assert(columns[0].decl.takes(row[0].1) && columns[1].decl.takes(row[1].1) && columns[2].decl.takes(row[2].1));
    assert(columns[3].decl.takes(row[3].1) && columns[4].decl.takes(row[4].1) && columns[5].decl.takes(row[5].1));
    assert(columns[6].decl.takes(row[6].1) && columns[7].decl.takes(row[7].1));
}

/// Every column takes what is stored in it, and none takes null.
pub proof fn law_friend_verify_columns_take_its_rows(m: V3FriendVerify, i: int)
    requires
        0 <= i < m.row().len(),
    ensures
        friend_verify_columns()[i].decl.takes(m.row()[i].1),
        !friend_verify_columns()[i].decl.takes(Val::Null),
{
    let row = m.row();
    let columns = friend_verify_columns();
    assert(columns[0].decl.takes(row[0].1) && columns[1].decl.takes(row[1].1) && columns[2].decl.takes(row[2].1));
    assert(columns[3].decl.takes(row[3].1) && columns[4].decl.takes(row[4].1) && columns[5].decl.takes(row[5].1));
    assert(columns[6].decl.takes(row[6].1) && columns[7].decl.takes(row[7].1) && columns[8].decl.takes(row[8].1));
    assert(columns[9].decl.takes(row[9].1) && columns[10].decl.takes(row[10].1) && columns[11].decl.takes(row[11].1));
}

/// Every column takes what is stored in it, and none takes null.
pub proof fn law_bizchat_user_columns_take_its_rows(m: V3BizchatUser, i: int)
    requires
        0 <= i < m.row().len(),
    ensures
        bizchat_user_columns()[i].decl.takes(m.row()[i].1),
        !bizchat_user_columns()[i].decl.takes(Val::Null),
{
    let row = m.row();
    let columns = bizchat_user_columns();
    assert(columns[0].decl.takes(row[0].1) && columns[1].decl.takes(row[1].1) && columns[2].decl.takes(row[2].1));
    assert(columns[3].decl.takes(row[3].1) && columns[4].decl.takes(row[4].1) && columns[5].decl.takes(row[5].1));
    assert(columns[6].decl.takes(row[6].1) && columns[7].decl.takes(row[7].1) && columns[8].decl.takes(row[8].1));
    assert(columns[9].decl.takes(row[9].1) && columns[10].decl.takes(row[10].1));
}

/// Every column takes what is stored in it, and only the columns of what may be missing take null.
pub proof fn law_avatar_image_columns_take_its_rows(m: V3AvatarImage, i: int)
    requires
        0 <= i < m.row().len(),
    ensures
        avatar_image_columns()[i].decl.takes(m.row()[i].1),
        avatar_image_columns()[i].decl.takes(Val::Null) <==> i == 7,
{
    let row = m.row();
    let columns = avatar_image_columns();
    assert(columns[0].decl.takes(row[0].1) && columns[1].decl.takes(row[1].1) && columns[2].decl.takes(row[2].1));
    assert(columns[3].decl.takes(row[3].1) && columns[4].decl.takes(row[4].1) && columns[5].decl.takes(row[5].1));
    assert(columns[6].decl.takes(row[6].1) && columns[7].decl.takes(row[7].1) && columns[8].decl.takes(row[8].1));
}

/// What the rows of an old `person` table hold in the columns that are added to it, by name; and
/// each of these columns takes it, as the table of today declares it.
pub proof fn law_old_person_rows_are_filled(i: int)
    requires
        0 <= i < person_later_columns().len(),
    ensures
        person_later_columns().len() == 31,
        crate::schema::filled(person_later_columns()).contains(("quan_pin"@, Val::Null)),
        crate::schema::filled(person_later_columns()).contains(("pin_yin_initial"@, Val::Null)),
        crate::schema::filled(person_later_columns()).contains(("remark_quan_pin"@, Val::Null)),
        crate::schema::filled(person_later_columns()).contains(("remark_pin_yin_initial"@, Val::Null)),
        crate::schema::filled(person_later_columns()).contains(("big_head_url"@, Val::Null)),
        crate::schema::filled(person_later_columns()).contains(("small_head_url"@, Val::Null)),
        crate::schema::filled(person_later_columns()).contains(("head_img_md5"@, Val::Null)),
        crate::schema::filled(person_later_columns()).contains(("description"@, Val::Null)),
        crate::schema::filled(person_later_columns()).contains(("country"@, Val::Null)),
        crate::schema::filled(person_later_columns()).contains(("province"@, Val::Null)),
        crate::schema::filled(person_later_columns()).contains(("city"@, Val::Null)),
        crate::schema::filled(person_later_columns()).contains(("signature"@, Val::Null)),
        crate::schema::filled(person_later_columns()).contains(("moments_cover_url"@, Val::Null)),
        crate::schema::filled(person_later_columns()).contains(("labels"@, Val::Null)),
        crate::schema::filled(person_later_columns()).contains(("openim_company"@, Val::Null)),
        crate::schema::filled(person_later_columns()).contains(("openim_realname"@, Val::Null)),
        crate::schema::filled(person_later_columns()).contains(("verify_flag"@, Val::Integer(0))),
        crate::schema::filled(person_later_columns()).contains(("delete_flag"@, Val::Integer(0))),
        crate::schema::filled(person_later_columns()).contains(("flag"@, Val::Integer(0))),
        crate::schema::filled(person_later_columns()).contains(("chat_room_notify"@, Val::Integer(0))),
        crate::schema::filled(person_later_columns()).contains(("chat_room_type"@, Val::Integer(0))),
        crate::schema::filled(person_later_columns()).contains(("sex"@, Val::Integer(0))),
        crate::schema::filled(person_later_columns()).contains(("friend_source"@, Val::Integer(0))),
        crate::schema::filled(person_later_columns()).contains(("is_starred"@, Val::Integer(0))),
        crate::schema::filled(person_later_columns()).contains(("is_collapsed"@, Val::Integer(0))),
        crate::schema::filled(person_later_columns()).contains(("is_pinned"@, Val::Integer(0))),
        crate::schema::filled(person_later_columns()).contains(("blocks_moments"@, Val::Integer(0))),
        crate::schema::filled(person_later_columns()).contains(("hide_their_moments"@, Val::Integer(0))),
        crate::schema::filled(person_later_columns()).contains(("chat_only"@, Val::Integer(0))),
        crate::schema::filled(person_later_columns()).contains(("is_muted"@, Val::Integer(0))),
        crate::schema::filled(person_later_columns()).contains(("friend_add_time"@, Val::Null)),
        exists|j: int|
            0 <= j < person_columns().len() && (#[trigger] person_columns()[j]).name@
                == person_later_columns()[i].name@ && person_columns()[j].decl.takes(
                person_later_columns()[i].decl.value_in_old_rows(),
            ),
{
    let later = person_later_columns();
    let columns = person_columns();
    let filled = crate::schema::filled(later);
    assert(filled[0] == ("quan_pin"@, Val::Null));
    assert(columns[14].name@ == later[0].name@ && columns[14].decl.takes(later[0].decl.value_in_old_rows()));
    assert(filled[1] == ("pin_yin_initial"@, Val::Null));
    assert(columns[15].name@ == later[1].name@ && columns[15].decl.takes(later[1].decl.value_in_old_rows()));
    assert(filled[2] == ("remark_quan_pin"@, Val::Null));
    assert(columns[16].name@ == later[2].name@ && columns[16].decl.takes(later[2].decl.value_in_old_rows()));
    assert(filled[3] == ("remark_pin_yin_initial"@, Val::Null));
    assert(columns[17].name@ == later[3].name@ && columns[17].decl.takes(later[3].decl.value_in_old_rows()));
    assert(filled[4] == ("big_head_url"@, Val::Null));
    assert(columns[20].name@ == later[4].name@ && columns[20].decl.takes(later[4].decl.value_in_old_rows()));
    assert(filled[5] == ("small_head_url"@, Val::Null));
    assert(columns[21].name@ == later[5].name@ && columns[21].decl.takes(later[5].decl.value_in_old_rows()));
    assert(filled[6] == ("head_img_md5"@, Val::Null));
    assert(columns[22].name@ == later[6].name@ && columns[22].decl.takes(later[6].decl.value_in_old_rows()));
    assert(filled[7] == ("description"@, Val::Null));
    assert(columns[23].name@ == later[7].name@ && columns[23].decl.takes(later[7].decl.value_in_old_rows()));
    assert(filled[8] == ("country"@, Val::Null));
    assert(columns[28].name@ == later[8].name@ && columns[28].decl.takes(later[8].decl.value_in_old_rows()));
    assert(filled[9] == ("province"@, Val::Null));
    assert(columns[29].name@ == later[9].name@ && columns[29].decl.takes(later[9].decl.value_in_old_rows()));
    assert(filled[10] == ("city"@, Val::Null));
    assert(columns[30].name@ == later[10].name@ && columns[30].decl.takes(later[10].decl.value_in_old_rows()));
    assert(filled[11] == ("signature"@, Val::Null));
    assert(columns[39].name@ == later[11].name@ && columns[39].decl.takes(later[11].decl.value_in_old_rows()));
    assert(filled[12] == ("moments_cover_url"@, Val::Null));
    assert(columns[40].name@ == later[12].name@ && columns[40].decl.takes(later[12].decl.value_in_old_rows()));
    assert(filled[13] == ("labels"@, Val::Null));
    assert(columns[41].name@ == later[13].name@ && columns[41].decl.takes(later[13].decl.value_in_old_rows()));
    assert(filled[14] == ("openim_company"@, Val::Null));
    assert(columns[43].name@ == later[14].name@ && columns[43].decl.takes(later[14].decl.value_in_old_rows()));
    assert(filled[15] == ("openim_realname"@, Val::Null));
    assert(columns[44].name@ == later[15].name@ && columns[44].decl.takes(later[15].decl.value_in_old_rows()));
    assert(filled[16] == ("verify_flag"@, Val::Integer(0)));
    assert(columns[18].name@ == later[16].name@ && columns[18].decl.takes(later[16].decl.value_in_old_rows()));
    assert(filled[17] == ("delete_flag"@, Val::Integer(0)));
    assert(columns[19].name@ == later[17].name@ && columns[19].decl.takes(later[17].decl.value_in_old_rows()));
    assert(filled[18] == ("flag"@, Val::Integer(0)));
    assert(columns[24].name@ == later[18].name@ && columns[24].decl.takes(later[18].decl.value_in_old_rows()));
    assert(filled[19] == ("chat_room_notify"@, Val::Integer(0)));
    assert(columns[25].name@ == later[19].name@ && columns[25].decl.takes(later[19].decl.value_in_old_rows()));
    assert(filled[20] == ("chat_room_type"@, Val::Integer(0)));
    assert(columns[26].name@ == later[20].name@ && columns[26].decl.takes(later[20].decl.value_in_old_rows()));
    assert(filled[21] == ("sex"@, Val::Integer(0)));
    assert(columns[27].name@ == later[21].name@ && columns[27].decl.takes(later[21].decl.value_in_old_rows()));
    assert(filled[22] == ("friend_source"@, Val::Integer(0)));
    assert(columns[31].name@ == later[22].name@ && columns[31].decl.takes(later[22].decl.value_in_old_rows()));
    assert(filled[23] == ("is_starred"@, Val::Integer(0)));
    assert(columns[32].name@ == later[23].name@ && columns[32].decl.takes(later[23].decl.value_in_old_rows()));
    assert(filled[24] == ("is_collapsed"@, Val::Integer(0)));
    assert(columns[33].name@ == later[24].name@ && columns[33].decl.takes(later[24].decl.value_in_old_rows()));
    assert(filled[25] == ("is_pinned"@, Val::Integer(0)));
    assert(columns[34].name@ == later[25].name@ && columns[34].decl.takes(later[25].decl.value_in_old_rows()));
    assert(filled[26] == ("blocks_moments"@, Val::Integer(0)));
    assert(columns[35].name@ == later[26].name@ && columns[35].decl.takes(later[26].decl.value_in_old_rows()));
    assert(filled[27] == ("hide_their_moments"@, Val::Integer(0)));
    assert(columns[36].name@ == later[27].name@ && columns[36].decl.takes(later[27].decl.value_in_old_rows()));
    assert(filled[28] == ("chat_only"@, Val::Integer(0)));
    assert(columns[37].name@ == later[28].name@ && columns[37].decl.takes(later[28].decl.value_in_old_rows()));
    assert(filled[29] == ("is_muted"@, Val::Integer(0)));
    assert(columns[38].name@ == later[29].name@ && columns[38].decl.takes(later[29].decl.value_in_old_rows()));
    assert(filled[30] == ("friend_add_time"@, Val::Null));
    assert(columns[42].name@ == later[30].name@ && columns[42].decl.takes(later[30].decl.value_in_old_rows()));
}

/// The table `person` is made first, and then an index for each of the ways in which its rows are
/// looked up.
pub proof fn law_person_lookups_have_indexes(steps: Vec<Step>)
    requires
        call_ensures(init_person_table, (), steps),
    ensures
        steps@[0] == Step::Create(Table::Person),
        Table::Person.name_text() == "person"@,
        crate::plan::has_index(
            steps@,
            "idx_person_username"@,
            "person"@,
            "account_id_sha, username_sha"@,
        ),
{
    assert(steps@[1] is Index);
}

/// The table `friend_verify` is made first, and then an index for each of the ways in which its rows are
/// looked up.
pub proof fn law_friend_verify_lookups_have_indexes(steps: Vec<Step>)
    requires
        call_ensures(init_friend_verify_table, (), steps),
    ensures
        steps@[0] == Step::Create(Table::FriendVerify),
        Table::FriendVerify.name_text() == "friend_verify"@,
        crate::plan::has_index(
            steps@,
            "idx_friend_verify_scene"@,
            "friend_verify"@,
            "account_id_sha, scene"@,
        ),
        crate::plan::has_index(
            steps@,
            "idx_friend_verify_time"@,
            "friend_verify"@,
            "account_id_sha, timestamp DESC"@,
        ),
{
    assert(steps@[1] is Index);
    assert(steps@[2] is Index);
}

/// The table `bizchat_user` is made first, and then an index for each of the ways in which its rows are
/// looked up.
pub proof fn law_bizchat_user_lookups_have_indexes(steps: Vec<Step>)
    requires
        call_ensures(init_bizchat_user_table, (), steps),
    ensures
        steps@[0] == Step::Create(Table::BizchatUser),
        Table::BizchatUser.name_text() == "bizchat_user"@,
        crate::plan::has_index(
            steps@,
            "idx_bizchat_user_brand"@,
            "bizchat_user"@,
            "account_id_sha, brand_user_name"@,
        ),
{
    assert(steps@[1] is Index);
}

/// The table `avatar_image` is made first, and then an index for each of the ways in which its rows are
/// looked up.
pub proof fn law_avatar_image_lookups_have_indexes(steps: Vec<Step>)
    requires
        call_ensures(init_avatar_image_table, (), steps),
    ensures
        steps@[0] == Step::Create(Table::AvatarImage),
        Table::AvatarImage.name_text() == "avatar_image"@,
        crate::plan::has_index(
            steps@,
            "idx_avatar_image_username"@,
            "avatar_image"@,
            "account_id_sha, username_sha"@,
        ),
{
    assert(steps@[1] is Index);
}

} // verus!
