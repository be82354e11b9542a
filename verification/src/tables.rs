//! The tables of the archive.

use vstd::prelude::*;

use crate::schema::{create_table, Column, TableKey};
use crate::sql::Statement;

verus! {

/// A table of the archive.
#[derive(Clone, Copy, Debug, PartialEq, Eq)]
pub enum Table {
    Message,
    MessageApp,
    MessageMedia,
    MessageLocation,
    MessageCall,
    MessageHongbaoClaim,
    MessageCard,
    MessageMention,
    MessageForwardItem,
    Person,
    PersonAlias,
    FriendVerify,
    BizchatUser,
    AvatarImage,
    Chatroom,
    ChatroomMember,
    ChatroomMemberEvent,
    Session,
    Favorite,
    FavoriteMedia,
    FavoriteTag,
    CustomEmoticon,
    Transfer,
    RedEnvelope,
    GroupPay,
    GroupPayMember,
    Moment,
    MomentMedia,
    MomentInteraction,
    MomentFeed,
    SnsNotify,
    FinderVisit,
    SchemaMeta,
    ChatRefreshState,
    CapabilityBacklog,
    SourceDbCatalog,
    SourceChatIndex,
    SourceChatToDb,
    SourceDbTimerange,
    SourceQueryPlans,
    RawPayloadArchive,
}

impl Table {
    /// The name of the table.
    pub open spec fn name_text(self) -> Seq<char> {
        match self {
            Table::Message => "message"@,
            Table::MessageApp => "message_app"@,
            Table::MessageMedia => "message_media"@,
            Table::MessageLocation => "message_location"@,
            Table::MessageCall => "message_call"@,
            Table::MessageHongbaoClaim => "message_hongbao_claim"@,
            Table::MessageCard => "message_card"@,
            Table::MessageMention => "message_mention"@,
            Table::MessageForwardItem => "message_forward_item"@,
            Table::Person => "person"@,
            Table::PersonAlias => "person_alias_by_account_min"@,
            Table::FriendVerify => "friend_verify"@,
            Table::BizchatUser => "bizchat_user"@,
            Table::AvatarImage => "avatar_image"@,
            Table::Chatroom => "chatroom"@,
            Table::ChatroomMember => "chatroom_member"@,
            Table::ChatroomMemberEvent => "chatroom_member_event"@,
            Table::Session => "session"@,
            Table::Favorite => "favorite"@,
            Table::FavoriteMedia => "favorite_media"@,
            Table::FavoriteTag => "favorite_tag"@,
            Table::CustomEmoticon => "custom_emoticon"@,
            Table::Transfer => "transfer"@,
            Table::RedEnvelope => "red_envelope"@,
            Table::GroupPay => "group_pay"@,
            Table::GroupPayMember => "group_pay_member"@,
            Table::Moment => "moment"@,
            Table::MomentMedia => "moment_media"@,
            Table::MomentInteraction => "moment_interaction"@,
            Table::MomentFeed => "moment_feed"@,
            Table::SnsNotify => "sns_notify"@,
            Table::FinderVisit => "finder_visit"@,
            Table::SchemaMeta => "schema_meta"@,
            Table::ChatRefreshState => "chat_refresh_state"@,
            Table::CapabilityBacklog => "capability_backlog"@,
            Table::SourceDbCatalog => "source_db_catalog"@,
            Table::SourceChatIndex => "source_chat_index"@,
            Table::SourceChatToDb => "source_chat_to_db"@,
            Table::SourceDbTimerange => "source_db_timerange"@,
            Table::SourceQueryPlans => "source_query_plans"@,
            Table::RawPayloadArchive => "raw_payload_archive"@,
        }
    }

    /// The name of the table.
    pub fn name(&self) -> (name: &'static str)
        ensures
            name@ == self.name_text(),
    {
        match self {
            Table::Message => "message",
            Table::MessageApp => "message_app",
            Table::MessageMedia => "message_media",
            Table::MessageLocation => "message_location",
            Table::MessageCall => "message_call",
            Table::MessageHongbaoClaim => "message_hongbao_claim",
            Table::MessageCard => "message_card",
            Table::MessageMention => "message_mention",
            Table::MessageForwardItem => "message_forward_item",
            Table::Person => "person",
            Table::PersonAlias => "person_alias_by_account_min",
            Table::FriendVerify => "friend_verify",
            Table::BizchatUser => "bizchat_user",
            Table::AvatarImage => "avatar_image",
            Table::Chatroom => "chatroom",
            Table::ChatroomMember => "chatroom_member",
            Table::ChatroomMemberEvent => "chatroom_member_event",
            Table::Session => "session",
            Table::Favorite => "favorite",
            Table::FavoriteMedia => "favorite_media",
            Table::FavoriteTag => "favorite_tag",
            Table::CustomEmoticon => "custom_emoticon",
            Table::Transfer => "transfer",
            Table::RedEnvelope => "red_envelope",
            Table::GroupPay => "group_pay",
            Table::GroupPayMember => "group_pay_member",
            Table::Moment => "moment",
            Table::MomentMedia => "moment_media",
            Table::MomentInteraction => "moment_interaction",
            Table::MomentFeed => "moment_feed",
            Table::SnsNotify => "sns_notify",
            Table::FinderVisit => "finder_visit",
            Table::SchemaMeta => "schema_meta",
            Table::ChatRefreshState => "chat_refresh_state",
            Table::CapabilityBacklog => "capability_backlog",
            Table::SourceDbCatalog => "source_db_catalog",
            Table::SourceChatIndex => "source_chat_index",
            Table::SourceChatToDb => "source_chat_to_db",
            Table::SourceDbTimerange => "source_db_timerange",
            Table::SourceQueryPlans => "source_query_plans",
            Table::RawPayloadArchive => "raw_payload_archive",
        }
    }

    /// The columns of the table.
    pub open spec fn column_list(self) -> Seq<Column> {
        match self {
            Table::Message => crate::message::message_columns(),
            Table::MessageApp => crate::message::message_app_columns(),
            Table::MessageMedia => crate::message::message_media_columns(),
            Table::MessageLocation => crate::message::message_location_columns(),
            Table::MessageCall => crate::message::message_call_columns(),
            Table::MessageHongbaoClaim => crate::message::message_hongbao_claim_columns(),
            Table::MessageCard => crate::message::message_card_columns(),
            Table::MessageMention => crate::message::message_mention_columns(),
            Table::MessageForwardItem => crate::message::message_forward_item_columns(),
            Table::Person => crate::contact::person_columns(),
            Table::PersonAlias => crate::contact::person_alias_columns(),
            Table::FriendVerify => crate::contact::friend_verify_columns(),
            Table::BizchatUser => crate::contact::bizchat_user_columns(),
            Table::AvatarImage => crate::contact::avatar_image_columns(),
            Table::Chatroom => crate::chatroom::chatroom_columns(),
            Table::ChatroomMember => crate::chatroom::chatroom_member_columns(),
            Table::ChatroomMemberEvent => crate::chatroom::chatroom_member_event_columns(),
            Table::Session => crate::session::session_columns(),
            Table::Favorite => crate::favorite::favorite_columns(),
            Table::FavoriteMedia => crate::favorite::favorite_media_columns(),
            Table::FavoriteTag => crate::favorite::favorite_tag_columns(),
            Table::CustomEmoticon => crate::favorite::custom_emoticon_columns(),
            Table::Transfer => crate::payment::transfer_columns(),
            Table::RedEnvelope => crate::payment::red_envelope_columns(),
            Table::GroupPay => crate::payment::group_pay_columns(),
            Table::GroupPayMember => crate::payment::group_pay_member_columns(),
            Table::Moment => crate::moment::moment_columns(),
            Table::MomentMedia => crate::moment::moment_media_columns(),
            Table::MomentInteraction => crate::moment::moment_interaction_columns(),
            Table::MomentFeed => crate::moment::moment_feed_columns(),
            Table::SnsNotify => crate::moment::sns_notify_columns(),
            Table::FinderVisit => crate::moment::finder_visit_columns(),
            Table::SchemaMeta => crate::catalog::schema_meta_columns(),
            Table::ChatRefreshState => crate::catalog::chat_refresh_state_columns(),
            Table::CapabilityBacklog => crate::catalog::capability_backlog_columns(),
            Table::SourceDbCatalog => crate::catalog::source_db_catalog_columns(),
            Table::SourceChatIndex => crate::catalog::source_chat_index_columns(),
            Table::SourceChatToDb => crate::catalog::source_chat_to_db_columns(),
            Table::SourceDbTimerange => crate::catalog::source_db_timerange_columns(),
            Table::SourceQueryPlans => crate::catalog::source_query_plans_columns(),
            Table::RawPayloadArchive => crate::catalog::raw_payload_archive_columns(),
        }
    }

    /// The columns of the table.
    pub fn columns(&self) -> (columns: Vec<Column>)
        ensures
            columns@ == self.column_list(),
    {
        match self {
            Table::Message => crate::message::message_table(),
            Table::MessageApp => crate::message::message_app_table(),
            Table::MessageMedia => crate::message::message_media_table(),
            Table::MessageLocation => crate::message::message_location_table(),
            Table::MessageCall => crate::message::message_call_table(),
            Table::MessageHongbaoClaim => crate::message::message_hongbao_claim_table(),
            Table::MessageCard => crate::message::message_card_table(),
            Table::MessageMention => crate::message::message_mention_table(),
            Table::MessageForwardItem => crate::message::message_forward_item_table(),
            Table::Person => crate::contact::person_table(),
            Table::PersonAlias => crate::contact::person_alias_table(),
            Table::FriendVerify => crate::contact::friend_verify_table(),
            Table::BizchatUser => crate::contact::bizchat_user_table(),
            Table::AvatarImage => crate::contact::avatar_image_table(),
            Table::Chatroom => crate::chatroom::chatroom_table(),
            Table::ChatroomMember => crate::chatroom::chatroom_member_table(),
            Table::ChatroomMemberEvent => crate::chatroom::chatroom_member_event_table(),
            Table::Session => crate::session::session_table(),
            Table::Favorite => crate::favorite::favorite_table(),
            Table::FavoriteMedia => crate::favorite::favorite_media_table(),
            Table::FavoriteTag => crate::favorite::favorite_tag_table(),
            Table::CustomEmoticon => crate::favorite::custom_emoticon_table(),
            Table::Transfer => crate::payment::transfer_table(),
            Table::RedEnvelope => crate::payment::red_envelope_table(),
            Table::GroupPay => crate::payment::group_pay_table(),
            Table::GroupPayMember => crate::payment::group_pay_member_table(),
            Table::Moment => crate::moment::moment_table(),
            Table::MomentMedia => crate::moment::moment_media_table(),
            Table::MomentInteraction => crate::moment::moment_interaction_table(),
            Table::MomentFeed => crate::moment::moment_feed_table(),
            Table::SnsNotify => crate::moment::sns_notify_table(),
            Table::FinderVisit => crate::moment::finder_visit_table(),
            Table::SchemaMeta => crate::catalog::schema_meta_table(),
            Table::ChatRefreshState => crate::catalog::chat_refresh_state_table(),
            Table::CapabilityBacklog => crate::catalog::capability_backlog_table(),
            Table::SourceDbCatalog => crate::catalog::source_db_catalog_table(),
            Table::SourceChatIndex => crate::catalog::source_chat_index_table(),
            Table::SourceChatToDb => crate::catalog::source_chat_to_db_table(),
            Table::SourceDbTimerange => crate::catalog::source_db_timerange_table(),
            Table::SourceQueryPlans => crate::catalog::source_query_plans_table(),
            Table::RawPayloadArchive => crate::catalog::raw_payload_archive_table(),
        }
    }

    /// The columns by which the table tells its rows apart.
    pub open spec fn key_list(self) -> Seq<Seq<char>> {
        match self {
            Table::Message => crate::message::message_key(),
            Table::MessageApp => crate::message::message_app_key(),
            Table::MessageMedia => crate::message::message_media_key(),
            Table::MessageLocation => crate::message::message_location_key(),
            Table::MessageCall => crate::message::message_call_key(),
            Table::MessageHongbaoClaim => crate::message::message_hongbao_claim_key(),
            Table::MessageCard => crate::message::message_card_key(),
            Table::MessageMention => crate::message::message_mention_key(),
            Table::MessageForwardItem => crate::message::message_forward_item_key(),
            Table::Person => crate::contact::person_key(),
            Table::PersonAlias => crate::contact::person_alias_key(),
            Table::FriendVerify => crate::contact::friend_verify_key(),
            Table::BizchatUser => crate::contact::bizchat_user_key(),
            Table::AvatarImage => crate::contact::avatar_image_key(),
            Table::Chatroom => crate::chatroom::chatroom_key(),
            Table::ChatroomMember => crate::chatroom::chatroom_member_key(),
            Table::ChatroomMemberEvent => crate::chatroom::chatroom_member_event_key(),
            Table::Session => crate::session::session_key(),
            Table::Favorite => crate::favorite::favorite_key(),
            Table::FavoriteMedia => crate::favorite::favorite_media_key(),
            Table::FavoriteTag => crate::favorite::favorite_tag_key(),
            Table::CustomEmoticon => crate::favorite::custom_emoticon_key(),
            Table::Transfer => crate::payment::transfer_key(),
            Table::RedEnvelope => crate::payment::red_envelope_key(),
            Table::GroupPay => crate::payment::group_pay_key(),
            Table::GroupPayMember => crate::payment::group_pay_member_key(),
            Table::Moment => crate::moment::moment_key(),
            Table::MomentMedia => crate::moment::moment_media_key(),
            Table::MomentInteraction => crate::moment::moment_interaction_key(),
            Table::MomentFeed => crate::moment::moment_feed_key(),
            Table::SnsNotify => crate::moment::sns_notify_key(),
            Table::FinderVisit => crate::moment::finder_visit_key(),
            Table::SchemaMeta => crate::catalog::schema_meta_key(),
            Table::ChatRefreshState => crate::catalog::chat_refresh_state_key(),
            Table::CapabilityBacklog => crate::catalog::capability_backlog_key(),
            Table::SourceDbCatalog => crate::catalog::source_db_catalog_key(),
            Table::SourceChatIndex => crate::catalog::source_chat_index_key(),
            Table::SourceChatToDb => crate::catalog::source_chat_to_db_key(),
            Table::SourceDbTimerange => crate::catalog::source_db_timerange_key(),
            Table::SourceQueryPlans => crate::catalog::source_query_plans_key(),
            Table::RawPayloadArchive => crate::catalog::raw_payload_archive_key(),
        }
    }

    /// The columns by which the table tells its rows apart are its primary key. The archive of
    /// events has a primary key of its own besides them.
    pub open spec fn has_primary_key(self) -> bool {
        self !is RawPayloadArchive
    }

    /// The columns by which the table tells its rows apart.
    pub fn key(&self) -> (key: TableKey)
        ensures
            crate::sql::literals(key.columns@) == self.key_list(),
            key.primary == self.has_primary_key(),
    {
        let mut columns: Vec<&'static str> = Vec::new();
        let mut primary: bool = true;
        match self {
            Table::Message
            | Table::MessageApp
            | Table::MessageMedia
            | Table::MessageLocation
            | Table::MessageCall
            | Table::MessageHongbaoClaim
            | Table::MessageCard
            | Table::FriendVerify
            | Table::BizchatUser
            | Table::AvatarImage
            | Table::Chatroom
            | Table::ChatroomMember
            | Table::ChatroomMemberEvent
            | Table::Session
            | Table::Favorite
            | Table::FavoriteTag
            | Table::CustomEmoticon
            | Table::Transfer
            | Table::RedEnvelope
            | Table::GroupPay
            | Table::Moment
            | Table::MomentFeed
            | Table::SnsNotify
            | Table::FinderVisit => {
                columns.push("account_id_sha");
                columns.push("source");
                columns.push("source_native_id");
            },
            Table::MessageMention => {
                columns.push("account_id_sha");
                columns.push("source");
                columns.push("source_native_id");
                columns.push("mentioned_wxid_sha");
            },
            Table::MessageForwardItem
            | Table::FavoriteMedia => {
                columns.push("account_id_sha");
                columns.push("source");
                columns.push("source_native_id");
                columns.push("seq");
            },
            Table::Person => {
                columns.push("account_id_sha");
                columns.push("source");
                columns.push("username_sha");
            },
            Table::PersonAlias => {
                columns.push("account_id_sha");
                columns.push("username_sha");
            },
            Table::GroupPayMember => {
                columns.push("account_id_sha");
                columns.push("source");
                columns.push("source_native_id");
                columns.push("payer_wxid_sha");
            },
            Table::MomentMedia => {
                columns.push("account_id_sha");
                columns.push("source");
                columns.push("source_native_id");
                columns.push("media_seq");
            },
            Table::MomentInteraction => {
                columns.push("account_id_sha");
                columns.push("source");
                columns.push("source_native_id");
                columns.push("interaction_seq");
            },
            Table::SchemaMeta => {
                columns.push("key");
            },
            Table::ChatRefreshState
            | Table::SourceChatToDb => {
                columns.push("account_id_sha");
                columns.push("chat_id_sha");
            },
            Table::CapabilityBacklog => {
                columns.push("field_category");
                columns.push("field_name");
            },
            Table::SourceDbCatalog
            | Table::SourceDbTimerange => {
                columns.push("account_id_sha");
                columns.push("db_path_sha");
            },
            Table::SourceChatIndex => {
                columns.push("account_id_sha");
                columns.push("chat_id_sha");
                columns.push("db_path_sha");
            },
            Table::SourceQueryPlans => {
                columns.push("account_id_sha");
                columns.push("query_signature_sha");
            },
            Table::RawPayloadArchive => {
                columns.push("account_id_sha");
                columns.push("source");
                columns.push("source_native_id");
                columns.push("event_action");
                columns.push("event_seq");
                primary = false;
            },
        }
        assert(crate::sql::literals(columns@) =~= self.key_list());
        TableKey { primary, columns }
    }

    /// The columns that came to the table later; none for a table that has always been as it
    /// is.
    pub open spec fn later_columns(self) -> Seq<Column> {
        match self {
            Table::Message => crate::message::message_later_columns(),
            Table::MessageApp => crate::message::message_app_later_columns(),
            Table::MessageLocation => crate::message::message_location_later_columns(),
            Table::Person => crate::contact::person_later_columns(),
            Table::Chatroom => crate::chatroom::chatroom_later_columns(),
            Table::ChatroomMember => crate::chatroom::chatroom_member_later_columns(),
            Table::Session => crate::session::session_later_columns(),
            Table::Favorite => crate::favorite::favorite_later_columns(),
            Table::Moment => crate::moment::moment_later_columns(),
            _ => Seq::empty(),
        }
    }

    /// The SQL text that makes the table.
    pub open spec fn create_sql(self) -> Seq<char> {
        crate::schema::create_text(
            self.name_text(),
            self.column_list(),
            self.has_primary_key(),
            self.key_list(),
        )
    }

    /// The statement that makes the table where it is not there.
    pub fn create(&self) -> (statement: Statement)
        ensures
            statement.is_plain(self.create_sql()),
    {
        create_table(self.name(), &self.columns(), &self.key())
    }

    /// The statements that add to the table the later columns that it lacks.
    pub fn ensure_columns(&self, existing: &Vec<String>) -> (statements: Vec<Statement>)
        ensures
            crate::schema::adds(
                statements@,
                self.name_text(),
                crate::schema::missing(self.later_columns(), crate::sql::strings(existing@)),
            ),
    {
        match self {
            Table::Message => crate::message::ensure_message_columns(existing),
            Table::MessageApp => crate::message::ensure_message_app_columns(existing),
            Table::MessageLocation => crate::message::ensure_message_location_columns(existing),
            Table::Person => crate::contact::ensure_person_extra_columns(existing),
            Table::Chatroom => crate::chatroom::ensure_chatroom_columns(existing),
            Table::ChatroomMember => crate::chatroom::ensure_chatroom_member_columns(existing),
            Table::Session => crate::session::ensure_session_columns(existing),
            Table::Favorite => crate::favorite::ensure_favorite_columns(existing),
            Table::Moment => crate::moment::ensure_moment_columns(existing),
            _ => {
                reveal(Seq::filter);
                Vec::new()
            },
        }
    }
}

/// The tables that have later columns.
pub open spec fn grown() -> Seq<Table> {
    seq![
        Table::Message,
        Table::Person,
        Table::Chatroom,
        Table::Session,
        Table::Favorite,
        Table::Moment,
        Table::MessageApp,
        Table::MessageLocation,
        Table::ChatroomMember,
    ]
}

/// The tables that have later columns.
pub fn grown_tables() -> (tables: Vec<Table>)
    ensures
        tables@ == grown(),
{
    let mut tables: Vec<Table> = Vec::new();
    tables.push(Table::Message);
    tables.push(Table::Person);
    tables.push(Table::Chatroom);
    tables.push(Table::Session);
    tables.push(Table::Favorite);
    tables.push(Table::Moment);
    tables.push(Table::MessageApp);
    tables.push(Table::MessageLocation);
    tables.push(Table::ChatroomMember);
    assert(tables@ =~= grown());
    tables
}

/// The list of tables with later columns is complete: a table that is not in it has none.
pub proof fn law_grown_tables_are_listed(table: Table)
    ensures
        table.later_columns().len() > 0 ==> grown().contains(table),
{
    assert(grown()[0] == Table::Message);
    assert(grown()[1] == Table::Person);
    assert(grown()[2] == Table::Chatroom);
    assert(grown()[3] == Table::Session);
    assert(grown()[4] == Table::Favorite);
    assert(grown()[5] == Table::Moment);
    assert(grown()[6] == Table::MessageApp);
    assert(grown()[7] == Table::MessageLocation);
    assert(grown()[8] == Table::ChatroomMember);
}

/// Every later column of a table is one of its columns, and the rows that are there when it is
/// added have a value for it.
pub proof fn law_later_columns_belong(table: Table, i: int)
    requires
        0 <= i < table.later_columns().len(),
    ensures
        crate::schema::column_names(table.column_list()).contains(table.later_columns()[i].name@),
        table.later_columns()[i].decl.fills_old_rows(),
{
    match table {
        Table::Message => crate::message::law_message_later_columns_belong(i),
        Table::Person => crate::contact::law_person_later_columns_belong(i),
        Table::Chatroom => crate::chatroom::law_chatroom_later_columns_belong(i),
        Table::Session => crate::session::law_session_later_columns_belong(i),
        Table::Favorite => crate::favorite::law_favorite_later_columns_belong(i),
        Table::Moment => crate::moment::law_moment_later_columns_belong(i),
        Table::MessageApp => crate::message::law_message_app_later_columns_belong(i),
        Table::MessageLocation => crate::message::law_message_location_later_columns_belong(i),
        Table::ChatroomMember => crate::chatroom::law_chatroom_member_later_columns_belong(i),
        _ => {},
    }
}

/// A table that has later columns gets those that it lacks: each of them is added, as it is
/// declared, where no column of its name is there.
pub proof fn law_lacking_columns_are_added(
    table: Table,
    existing: &Vec<String>,
    statements: Vec<Statement>,
    i: int,
)
    requires
        call_ensures(Table::ensure_columns, (&table, existing), statements),
        0 <= i < table.later_columns().len(),
        !crate::sql::strings(existing@).contains(table.later_columns()[i].name@),
    ensures
        exists|k: int|
            0 <= k < statements@.len() && crate::schema::adds_column(
                #[trigger] statements@[k],
                table.name_text(),
                table.later_columns()[i],
            ),
{
    let there = crate::sql::strings(existing@);
    let lacks = |c: crate::schema::Column| !there.contains(c.name@);
    let wanted = table.later_columns();
    let added = crate::schema::missing(wanted, there);
    assert(added == wanted.filter(lacks));
    assert(lacks(wanted[i]));
    wanted.lemma_filter_contains(lacks, i);
    let k = choose|k: int| 0 <= k < added.len() && added[k] == wanted[i];
    assert(statements@[k].is_plain(crate::schema::add_text(table.name_text(), added[k])));
    assert(crate::schema::add_text(table.name_text(), added[k]) =~= "ALTER TABLE "@
        + table.name_text() + " ADD COLUMN "@ + added[k].name@ + " "@ + added[k].decl.sql());
}

/// The tables that grew are those whose modules list later columns.
pub proof fn law_tables_have_the_columns_of_their_modules()
    ensures
        Table::Message.later_columns() == crate::message::message_later_columns(),
        Table::MessageApp.later_columns() == crate::message::message_app_later_columns(),
        Table::MessageLocation.later_columns() == crate::message::message_location_later_columns(),
        Table::Person.later_columns() == crate::contact::person_later_columns(),
        Table::Chatroom.later_columns() == crate::chatroom::chatroom_later_columns(),
        Table::ChatroomMember.later_columns()
            == crate::chatroom::chatroom_member_later_columns(),
        Table::Session.later_columns() == crate::session::session_later_columns(),
        Table::Favorite.later_columns() == crate::favorite::favorite_later_columns(),
        Table::Moment.later_columns() == crate::moment::moment_later_columns(),
{
}

} // verus!
