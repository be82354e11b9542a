//! The steps that make an archive. An archive of another layout is refused.

use vstd::prelude::*;
use vstd::string::*;

use crate::index::Index;
use crate::meta::{draw_l1_generation, l1_generation_table, set_meta, META_KEY_VERSION, SCHEMA_VERSION};
use crate::redact::quote;
use crate::sql::{Op, Statement, Test, TestsBuilder, Val};
use crate::tables::Table;
use crate::text::same_text;
use crate::write_lease::init_write_lease;

verus! {

/// One step of making an archive.
#[derive(Clone, Copy, Debug, PartialEq, Eq)]
pub enum Step {
    /// Make a table where it is not there.
    Create(Table),
    /// Make an index where no index of its name is there.
    Index(Index),
    /// Look up an index, and make it anew where its definition is another one.
    Reconcile(Index),
    /// Look up the columns of a table, and add the later ones that it lacks.
    Ensure(Table),
    /// Make the table of the generation where it is not there.
    Generation,
    /// Draw a generation where there is none.
    DrawGeneration,
    /// Make the table of the write leases where it is not there.
    Leases,
    /// Store the version of the layout.
    StoreVersion,
    /// Make the tables of the reading positions, which have a module of their own.
    EtlState,
    /// Make the table of the conversations to capture, which has a module of its own.
    CaptureTargets,
}

impl Step {
    /// The statement of a step that is a single statement; none for a step that looks
    /// something up first or that another module makes.
    pub fn statement(&self) -> (statement: Option<Statement>)
        ensures
            match *self {
                Step::Create(table) => statement matches Some(s) && s.is_plain(
                    table.create_sql(),
                ),
                Step::Index(index) => statement matches Some(s) && s.is_plain(
                    index.ensure_sql(),
                ),
                Step::Generation => statement matches Some(s) && s.is_plain(
                    crate::meta::generation_table(),
                ),
                Step::DrawGeneration => statement matches Some(s) && s.is_plain(
                    crate::meta::generation_draw(),
                ),
                Step::Leases => statement matches Some(s) && s.is_plain(
                    crate::write_lease::lease_table(),
                ),
                Step::StoreVersion => statement matches Some(s) && s.does(
                    crate::sql::Effect::Replace {
                        table: "schema_meta"@,
                        row: crate::meta::meta_row(META_KEY_VERSION@, SCHEMA_VERSION@, 0),
                    },
                ),
                _ => statement is None,
            },
    {
        match self {
            Step::Create(table) => Some(table.create()),
            Step::Index(index) => Some(Statement::plain(index.create_if_missing().as_str())),
            Step::Generation => Some(l1_generation_table()),
            Step::DrawGeneration => Some(draw_l1_generation()),
            Step::Leases => Some(Statement::plain(init_write_lease())),
            Step::StoreVersion => Some(set_meta(META_KEY_VERSION, SCHEMA_VERSION, 0)),
            _ => None,
        }
    }
}

/// The steps that look at each of some indexes.
pub fn reconciles(indexes: &Vec<Index>) -> (steps: Vec<Step>)
    ensures
        steps@ == indexes@.map_values(|ix: Index| Step::Reconcile(ix)),
{
    let mut steps: Vec<Step> = Vec::new();
    let mut i: usize = 0;
    while i < indexes.len()
        invariant
            i <= indexes@.len(),
            steps@ == indexes@.take(i as int).map_values(|ix: Index| Step::Reconcile(ix)),
        decreases indexes@.len() - i,
    {
        let ghost before = steps@;
        steps.push(Step::Reconcile(indexes[i]));
        assert(indexes@.take(i + 1).map_values(|ix: Index| Step::Reconcile(ix)) =~= before.push(
            Step::Reconcile(indexes@[i as int]),
        ));
        i += 1;
    }
    assert(indexes@.take(i as int) =~= indexes@);
    steps
}

/// The tests for the rows of a table that belong to one thing in a source.
pub open spec fn belonging_to(
    account_id_sha: Seq<char>,
    source: Seq<char>,
    column: Seq<char>,
    id: Seq<char>,
) -> Seq<Test> {
    seq![
        Test { column: "account_id_sha"@, op: Op::Is, value: Val::Text(account_id_sha) },
        Test { column: "source"@, op: Op::Is, value: Val::Text(source) },
        Test { column, op: Op::Is, value: Val::Text(id) },
    ]
}

/// The statement that takes out the rows of a table that belong to one thing in a source.
pub fn delete_group(
    table: &str,
    account_id_sha: &str,
    source: &str,
    column: &str,
    id: &str,
) -> (statement: Statement)
    ensures
        statement.does(
            crate::sql::Effect::Delete {
                table: table@,
                tests: belonging_to(account_id_sha@, source@, column@, id@),
            },
        ),
{
    let mut tests = TestsBuilder::new();
    tests.text("account_id_sha", Op::Is, account_id_sha);
    tests.text("source", Op::Is, source);
    tests.text(column, Op::Is, id);
    assert(tests@ =~= belonging_to(account_id_sha@, source@, column@, id@));
    tests.delete_from(table)
}

/// The rows that are taken out for one thing are exactly those that name it.
pub proof fn law_group_is_the_rows_of_one_thing(
    row: crate::sql::Row,
    account_id_sha: Seq<char>,
    source: Seq<char>,
    column: Seq<char>,
    id: Seq<char>,
)
    ensures
        crate::relation::passes_all(row, belonging_to(account_id_sha, source, column, id)) <==> {
            &&& crate::relation::column(row, "account_id_sha"@) == Val::Text(account_id_sha)
            &&& crate::relation::column(row, "source"@) == Val::Text(source)
            &&& crate::relation::column(row, column) == Val::Text(id)
        },
{
    let tests = belonging_to(account_id_sha, source, column, id);
    if crate::relation::passes_all(row, tests) {
        assert(crate::relation::passes(row, tests[0]));
        assert(crate::relation::passes(row, tests[1]));
        assert(crate::relation::passes(row, tests[2]));
    }
}

/// Why an archive is not opened: its layout is not the current one.
#[derive(Clone, Debug, PartialEq, Eq)]
pub struct SchemaMismatch {
    pub message: String,
}

/// Nothing was stored in the database yet.
pub open spec fn is_fresh(stored: Option<String>, has_message_table: bool) -> bool {
    stored is None && !has_message_table
}

/// The database has the current layout.
pub open spec fn is_current(stored: Option<String>) -> bool {
    stored matches Some(version) && version@ == SCHEMA_VERSION@
}

/// The steps that come after those of the tables.
pub open spec fn last_steps() -> Seq<Step> {
    seq![
        Step::EtlState,
        Step::Create(Table::ChatRefreshState),
        Step::Generation,
        Step::DrawGeneration,
        Step::Leases,
        Step::CaptureTargets,
    ]
}

/// The steps that come before those of the tables.
pub open spec fn first_steps(fresh: bool) -> Seq<Step> {
    if fresh {
        seq![Step::StoreVersion]
    } else {
        Seq::empty()
    }
}

/// The steps that make an archive. A fresh database gets its version before any table, so that
/// it is let in again if the steps are cut short.
pub open spec fn l1_steps(fresh: bool) -> Seq<Step> {
    first_steps(fresh) + table_steps()
}

/// The steps that make the tables of an archive, or bring them up to date.
pub open spec fn table_steps() -> Seq<Step> {
    crate::catalog::archive_steps()
        + crate::message::message_steps()
        + crate::contact::person_steps()
        + crate::contact::person_alias_steps()
        + crate::chatroom::chatroom_steps()
        + crate::chatroom::chatroom_member_steps()
        + crate::session::session_steps()
        + crate::favorite::favorite_steps()
        + crate::favorite::favorite_media_steps()
        + crate::favorite::favorite_tag_steps()
        + crate::message::message_app_steps()
        + crate::message::message_media_steps()
        + crate::message::message_location_steps()
        + crate::message::message_call_steps()
        + crate::message::message_hongbao_claim_steps()
        + crate::message::message_card_steps()
        + crate::message::message_mention_steps()
        + crate::chatroom::chatroom_member_event_steps()
        + crate::payment::group_pay_member_steps()
        + crate::message::message_forward_item_steps()
        + crate::moment::moment_steps()
        + crate::moment::moment_media_steps()
        + crate::moment::moment_interaction_steps()
        + crate::payment::transfer_steps()
        + crate::payment::red_envelope_steps()
        + crate::payment::group_pay_steps()
        + crate::contact::friend_verify_steps()
        + crate::moment::finder_visit_steps()
        + crate::favorite::custom_emoticon_steps()
        + crate::contact::avatar_image_steps()
        + crate::moment::moment_feed_steps()
        + crate::moment::sns_notify_steps()
        + crate::contact::bizchat_user_steps()
        + last_steps()
}

/// What is said of an archive of another layout.
pub open spec fn mismatch_text(stored: Option<String>) -> Seq<char> {
    "L1 库 schema 版本不符(需 "@ + SCHEMA_VERSION@ + ", 实际 "@ + crate::redact::some_of(
        match stored {
            Some(version) => Some(crate::redact::quoted(version@)),
            None => None,
        },
    )
        + "): R14 消息锚 8hex→32hex + R16-3 favorite_tag 锚 server_id→local_id, 旧库锚格式过时。请删掉此 L1 库、从加密源全量重建 —— 勿在旧库上增量(新旧锚混用会插重复行、媒体连不上消息、favorite_tag 残留塌陷孤儿行)。"@
}

/// The steps that make an archive or bring one of the current layout up to date. The table of
/// names comes before them: `stored` is the version that it holds. A database that holds messages
/// under another version, or under none, is refused: ids of another form would be mixed with its
/// own.
pub fn init_l1_schema(stored: &Option<String>, has_message_table: bool) -> (steps: Result<
    Vec<Step>,
    SchemaMismatch,
>)
    ensures
        match steps {
            Ok(s) => {
                &&& is_current(*stored) || is_fresh(*stored, has_message_table)
                &&& s@ == l1_steps(is_fresh(*stored, has_message_table))
            },
            Err(e) => {
                &&& !is_current(*stored) && !is_fresh(*stored, has_message_table)
                &&& e.message@ == mismatch_text(*stored)
            },
        },
{
    let (current, fresh): (bool, bool) = match stored {
        Some(version) => (same_text(version.as_str(), SCHEMA_VERSION), false),
        None => (false, !has_message_table),
    };
    if !current && !fresh {
        let mut message = "L1 库 schema 版本不符(需 ".to_owned();
        message.append(SCHEMA_VERSION);
        message.append(", 实际 ");
        match stored {
            Some(version) => {
                message.append("Some(");
                message.append(quote(version.as_str()).as_str());
                message.append(")");
            },
            None => {
                message.append("None");
            },
        }
        message.append(
            "): R14 消息锚 8hex→32hex + R16-3 favorite_tag 锚 server_id→local_id, 旧库锚格式过时。请删掉此 L1 库、从加密源全量重建 —— 勿在旧库上增量(新旧锚混用会插重复行、媒体连不上消息、favorite_tag 残留塌陷孤儿行)。",
        );
        assert(message@ =~= mismatch_text(*stored));
        return Err(SchemaMismatch { message });
    }
    let mut steps: Vec<Step> = crate::catalog::init_archive_table();
    steps.append(&mut crate::message::init_message_table());
    steps.append(&mut crate::contact::init_person_table());
    steps.append(&mut crate::contact::init_person_alias_table());
    steps.append(&mut crate::chatroom::init_chatroom_table());
    steps.append(&mut crate::chatroom::init_chatroom_member_table());
    steps.append(&mut crate::session::init_session_table());
    steps.append(&mut crate::favorite::init_favorite_table());
    steps.append(&mut crate::favorite::init_favorite_media_table());
    steps.append(&mut crate::favorite::init_favorite_tag_table());
    steps.append(&mut crate::message::init_message_app_table());
    steps.append(&mut crate::message::init_message_media_table());
    steps.append(&mut crate::message::init_message_location_table());
    steps.append(&mut crate::message::init_message_call_table());
    steps.append(&mut crate::message::init_message_hongbao_claim_table());
    steps.append(&mut crate::message::init_message_card_table());
    steps.append(&mut crate::message::init_message_mention_table());
    steps.append(&mut crate::chatroom::init_chatroom_member_event_table());
    steps.append(&mut crate::payment::init_group_pay_member_table());
    steps.append(&mut crate::message::init_message_forward_item_table());
    steps.append(&mut crate::moment::init_moment_table());
    steps.append(&mut crate::moment::init_moment_media_table());
    steps.append(&mut crate::moment::init_moment_interaction_table());
    steps.append(&mut crate::payment::init_transfer_table());
    steps.append(&mut crate::payment::init_red_envelope_table());
    steps.append(&mut crate::payment::init_group_pay_table());
    steps.append(&mut crate::contact::init_friend_verify_table());
    steps.append(&mut crate::moment::init_finder_visit_table());
    steps.append(&mut crate::favorite::init_custom_emoticon_table());
    steps.append(&mut crate::contact::init_avatar_image_table());
    steps.append(&mut crate::moment::init_moment_feed_table());
    steps.append(&mut crate::moment::init_sns_notify_table());
    steps.append(&mut crate::contact::init_bizchat_user_table());
    let mut last: Vec<Step> = Vec::new();
    last.push(Step::EtlState);
    last.push(Step::Create(Table::ChatRefreshState));
    last.push(Step::Generation);
    last.push(Step::DrawGeneration);
    last.push(Step::Leases);
    last.push(Step::CaptureTargets);
    assert(last@ =~= last_steps());
    steps.append(&mut last);
    let mut all: Vec<Step> = Vec::new();
    if fresh {
        all.push(Step::StoreVersion);
    }
    assert(all@ =~= first_steps(fresh));
    all.append(&mut steps);
    Ok(all)
}

/// A database that was cut short while it was made is let in again: the first step of a fresh
/// one stores the version, and a database with that version is never refused, whatever tables
/// it has.
pub proof fn law_interrupted_archive_is_let_in(version: String)
    requires
        version@ == SCHEMA_VERSION@,
    ensures
        l1_steps(true).first() == Step::StoreVersion,
        is_current(Some(version)),
{
    assert(l1_steps(true)[0] == Step::StoreVersion);
}

/// A database of another layout is never touched: messages without a version, or any other
/// version, are refused.
pub proof fn law_other_layouts_are_refused(stored: Option<String>, has_message_table: bool)
    requires
        stored is None ==> has_message_table,
        stored matches Some(version) ==> version@ != SCHEMA_VERSION@,
    ensures
        !is_current(stored),
        !is_fresh(stored, has_message_table),
{
}

/// The table that a step needs, or makes itself.
pub open spec fn concerns(step: Step, table: Table) -> bool {
    match step {
        Step::Create(t) => t == table,
        Step::Index(index) => index.table@ == table.name_text(),
        Step::Reconcile(index) => index.table@ == table.name_text(),
        Step::Ensure(t) => t == table,
        _ => false,
    }
}

/// After the steps `before`, the table that a step needs is there.
pub open spec fn is_ready(before: Seq<Step>, step: Step) -> bool {
    match step {
        Step::Index(_) | Step::Reconcile(_) | Step::Ensure(_) => exists|j: int, t: Table|
            0 <= j < before.len() && #[trigger] before[j] == Step::Create(t) && #[trigger] concerns(
                step,
                t,
            ),
        _ => true,
    }
}

/// Every table is made before it is indexed or extended.
pub open spec fn tables_come_first(steps: Seq<Step>) -> bool {
    forall|i: int| 0 <= i < steps.len() ==> is_ready(steps.take(i), #[trigger] steps[i])
}

/// Steps that may be run again: they store no version, and the indexes that they look at are
/// those of a bulk load.
pub open spec fn may_run_again(steps: Seq<Step>) -> bool {
    forall|i: int|
        0 <= i < steps.len() ==> {
            &&& #[trigger] steps[i] !is StoreVersion
            &&& steps[i] matches Step::Reconcile(index) ==> crate::index::ingest_rebuilt().contains(
                index,
            )
        }
}

/// Every index of a bulk load is looked at by some step.
pub open spec fn looks_at_load_indexes(steps: Seq<Step>) -> bool {
    forall|k: int|
        0 <= k < crate::index::ingest_rebuilt().len() ==> steps.contains(
            Step::Reconcile(#[trigger] crate::index::ingest_rebuilt()[k]),
        )
}

proof fn lemma_one_table(steps: Seq<Step>, table: Table)
    requires
        steps.len() > 0,
        steps[0] == Step::Create(table),
        forall|i: int| 0 <= i < steps.len() ==> concerns(#[trigger] steps[i], table),
        forall|i: int|
            0 <= i < steps.len() ==> (#[trigger] steps[i] matches Step::Reconcile(index)
                ==> crate::index::ingest_rebuilt().contains(index)),
    ensures
        tables_come_first(steps),
        may_run_again(steps),
{
    assert forall|i: int| 0 <= i < steps.len() implies is_ready(
        steps.take(i),
        #[trigger] steps[i],
    ) by {
        if i > 0 {
            assert(steps.take(i)[0] == Step::Create(table));
            assert(concerns(steps[i], table));
        }
    }
}

proof fn lemma_ready_behind(first: Seq<Step>, second: Seq<Step>, k: int)
    requires
        tables_come_first(second),
        0 <= k < second.len(),
    ensures
        is_ready((first + second).take(first.len() + k), second[k]),
{
    let before = (first + second).take(first.len() + k);
    assert(is_ready(second.take(k), second[k]));
    if second[k] is Index || second[k] is Reconcile || second[k] is Ensure {
        let (j, t) = choose|j: int, t: Table|
            0 <= j < second.take(k).len() && #[trigger] second.take(k)[j] == Step::Create(t)
                && #[trigger] concerns(second[k], t);
        assert(before[first.len() + j] == Step::Create(t));
    }
}

proof fn lemma_one_after_the_other(first: Seq<Step>, second: Seq<Step>)
    requires
        tables_come_first(first),
        tables_come_first(second),
        may_run_again(first),
        may_run_again(second),
    ensures
        tables_come_first(first + second),
        may_run_again(first + second),
{
    let all = first + second;
    assert forall|i: int| 0 <= i < all.len() implies is_ready(all.take(i), #[trigger] all[i]) by {
        if i < first.len() {
            assert(all.take(i) =~= first.take(i));
            assert(is_ready(first.take(i), first[i]));
        } else {
            lemma_ready_behind(first, second, i - first.len());
        }
    }
}

proof fn lemma_load_indexes()
    ensures
        looks_at_load_indexes(crate::catalog::archive_steps() + crate::message::message_steps()),
{
    let archive = crate::catalog::archive_steps();
    let message = crate::message::message_steps();
    let both = archive + message;
    assert forall|k: int| 0 <= k < crate::index::ingest_rebuilt().len() implies both.contains(
        Step::Reconcile(#[trigger] crate::index::ingest_rebuilt()[k]),
    ) by {
        if k < 4 {
            assert(both[10 + k] == Step::Reconcile(crate::index::ingest_rebuilt()[k]));
        } else {
            assert(both[k - 1] == Step::Reconcile(crate::index::ingest_rebuilt()[k]));
        }
    }
}

/// Every table of an archive is made before it is indexed or extended, and the steps of the
/// tables may be run again.
pub proof fn law_tables_come_first(fresh: bool)
    ensures
        tables_come_first(l1_steps(fresh)),
        tables_come_first(table_steps()),
        may_run_again(table_steps()),
{
    assert forall|k: int| 0 <= k < 4 implies crate::index::ingest_rebuilt().contains(
        #[trigger] crate::index::message_rebuilt()[k],
    ) by {
        assert(crate::index::ingest_rebuilt()[k] == crate::index::message_rebuilt()[k]);
    }
    assert forall|k: int| 0 <= k < 2 implies crate::index::ingest_rebuilt().contains(
        #[trigger] crate::index::archive_rebuilt()[k],
    ) by {
        assert(crate::index::ingest_rebuilt()[4 + k] == crate::index::archive_rebuilt()[k]);
    }
    lemma_one_table(crate::catalog::archive_steps(), Table::RawPayloadArchive);
    lemma_one_table(crate::message::message_steps(), Table::Message);
    let s1 = crate::catalog::archive_steps() + crate::message::message_steps();
    lemma_one_after_the_other(crate::catalog::archive_steps(), crate::message::message_steps());
    lemma_one_table(crate::contact::person_steps(), Table::Person);
    let s2 = s1 + crate::contact::person_steps();
    lemma_one_after_the_other(s1, crate::contact::person_steps());
    lemma_one_table(crate::contact::person_alias_steps(), Table::PersonAlias);
    let s3 = s2 + crate::contact::person_alias_steps();
    lemma_one_after_the_other(s2, crate::contact::person_alias_steps());
    lemma_one_table(crate::chatroom::chatroom_steps(), Table::Chatroom);
    let s4 = s3 + crate::chatroom::chatroom_steps();
    lemma_one_after_the_other(s3, crate::chatroom::chatroom_steps());
    lemma_one_table(crate::chatroom::chatroom_member_steps(), Table::ChatroomMember);
    let s5 = s4 + crate::chatroom::chatroom_member_steps();
    lemma_one_after_the_other(s4, crate::chatroom::chatroom_member_steps());
    lemma_one_table(crate::session::session_steps(), Table::Session);
    let s6 = s5 + crate::session::session_steps();
    lemma_one_after_the_other(s5, crate::session::session_steps());
    lemma_one_table(crate::favorite::favorite_steps(), Table::Favorite);
    let s7 = s6 + crate::favorite::favorite_steps();
    lemma_one_after_the_other(s6, crate::favorite::favorite_steps());
    lemma_one_table(crate::favorite::favorite_media_steps(), Table::FavoriteMedia);
    let s8 = s7 + crate::favorite::favorite_media_steps();
    lemma_one_after_the_other(s7, crate::favorite::favorite_media_steps());
    lemma_one_table(crate::favorite::favorite_tag_steps(), Table::FavoriteTag);
    let s9 = s8 + crate::favorite::favorite_tag_steps();
    lemma_one_after_the_other(s8, crate::favorite::favorite_tag_steps());
    lemma_one_table(crate::message::message_app_steps(), Table::MessageApp);
    let s10 = s9 + crate::message::message_app_steps();
    lemma_one_after_the_other(s9, crate::message::message_app_steps());
    lemma_one_table(crate::message::message_media_steps(), Table::MessageMedia);
    let s11 = s10 + crate::message::message_media_steps();
    lemma_one_after_the_other(s10, crate::message::message_media_steps());
    lemma_one_table(crate::message::message_location_steps(), Table::MessageLocation);
    let s12 = s11 + crate::message::message_location_steps();
    lemma_one_after_the_other(s11, crate::message::message_location_steps());
    lemma_one_table(crate::message::message_call_steps(), Table::MessageCall);
    let s13 = s12 + crate::message::message_call_steps();
    lemma_one_after_the_other(s12, crate::message::message_call_steps());
    lemma_one_table(crate::message::message_hongbao_claim_steps(), Table::MessageHongbaoClaim);
    let s14 = s13 + crate::message::message_hongbao_claim_steps();
    lemma_one_after_the_other(s13, crate::message::message_hongbao_claim_steps());
    lemma_one_table(crate::message::message_card_steps(), Table::MessageCard);
    let s15 = s14 + crate::message::message_card_steps();
    lemma_one_after_the_other(s14, crate::message::message_card_steps());
    lemma_one_table(crate::message::message_mention_steps(), Table::MessageMention);
    let s16 = s15 + crate::message::message_mention_steps();
    lemma_one_after_the_other(s15, crate::message::message_mention_steps());
    lemma_one_table(crate::chatroom::chatroom_member_event_steps(), Table::ChatroomMemberEvent);
    let s17 = s16 + crate::chatroom::chatroom_member_event_steps();
    lemma_one_after_the_other(s16, crate::chatroom::chatroom_member_event_steps());
    lemma_one_table(crate::payment::group_pay_member_steps(), Table::GroupPayMember);
    let s18 = s17 + crate::payment::group_pay_member_steps();
    lemma_one_after_the_other(s17, crate::payment::group_pay_member_steps());
    lemma_one_table(crate::message::message_forward_item_steps(), Table::MessageForwardItem);
    let s19 = s18 + crate::message::message_forward_item_steps();
    lemma_one_after_the_other(s18, crate::message::message_forward_item_steps());
    lemma_one_table(crate::moment::moment_steps(), Table::Moment);
    let s20 = s19 + crate::moment::moment_steps();
    lemma_one_after_the_other(s19, crate::moment::moment_steps());
    lemma_one_table(crate::moment::moment_media_steps(), Table::MomentMedia);
    let s21 = s20 + crate::moment::moment_media_steps();
    lemma_one_after_the_other(s20, crate::moment::moment_media_steps());
    lemma_one_table(crate::moment::moment_interaction_steps(), Table::MomentInteraction);
    let s22 = s21 + crate::moment::moment_interaction_steps();
    lemma_one_after_the_other(s21, crate::moment::moment_interaction_steps());
    lemma_one_table(crate::payment::transfer_steps(), Table::Transfer);
    let s23 = s22 + crate::payment::transfer_steps();
    lemma_one_after_the_other(s22, crate::payment::transfer_steps());
    lemma_one_table(crate::payment::red_envelope_steps(), Table::RedEnvelope);
    let s24 = s23 + crate::payment::red_envelope_steps();
    lemma_one_after_the_other(s23, crate::payment::red_envelope_steps());
    lemma_one_table(crate::payment::group_pay_steps(), Table::GroupPay);
    let s25 = s24 + crate::payment::group_pay_steps();
    lemma_one_after_the_other(s24, crate::payment::group_pay_steps());
    lemma_one_table(crate::contact::friend_verify_steps(), Table::FriendVerify);
    let s26 = s25 + crate::contact::friend_verify_steps();
    lemma_one_after_the_other(s25, crate::contact::friend_verify_steps());
    lemma_one_table(crate::moment::finder_visit_steps(), Table::FinderVisit);
    let s27 = s26 + crate::moment::finder_visit_steps();
    lemma_one_after_the_other(s26, crate::moment::finder_visit_steps());
    lemma_one_table(crate::favorite::custom_emoticon_steps(), Table::CustomEmoticon);
    let s28 = s27 + crate::favorite::custom_emoticon_steps();
    lemma_one_after_the_other(s27, crate::favorite::custom_emoticon_steps());
    lemma_one_table(crate::contact::avatar_image_steps(), Table::AvatarImage);
    let s29 = s28 + crate::contact::avatar_image_steps();
    lemma_one_after_the_other(s28, crate::contact::avatar_image_steps());
    lemma_one_table(crate::moment::moment_feed_steps(), Table::MomentFeed);
    let s30 = s29 + crate::moment::moment_feed_steps();
    lemma_one_after_the_other(s29, crate::moment::moment_feed_steps());
    lemma_one_table(crate::moment::sns_notify_steps(), Table::SnsNotify);
    let s31 = s30 + crate::moment::sns_notify_steps();
    lemma_one_after_the_other(s30, crate::moment::sns_notify_steps());
    lemma_one_table(crate::contact::bizchat_user_steps(), Table::BizchatUser);
    let s32 = s31 + crate::contact::bizchat_user_steps();
    lemma_one_after_the_other(s31, crate::contact::bizchat_user_steps());
    assert(tables_come_first(last_steps()));
    lemma_one_after_the_other(s32, last_steps());
    let first = first_steps(fresh);
    let all = first + table_steps();
    assert forall|i: int| 0 <= i < all.len() implies is_ready(all.take(i), #[trigger] all[i]) by {
        if i >= first.len() {
            lemma_ready_behind(first, table_steps(), i - first.len());
        }
    }
}

proof fn lemma_still_looked_at(first: Seq<Step>, second: Seq<Step>)
    requires
        looks_at_load_indexes(first),
    ensures
        looks_at_load_indexes(first + second),
{
    let all = first + second;
    assert forall|k: int| 0 <= k < crate::index::ingest_rebuilt().len() implies all.contains(
        Step::Reconcile(#[trigger] crate::index::ingest_rebuilt()[k]),
    ) by {
        let step = Step::Reconcile(crate::index::ingest_rebuilt()[k]);
        assert(first.contains(step));
        let i = choose|i: int| 0 <= i < first.len() && first[i] == step;
        assert(all[i] == step);
    }
}

/// The steps of an archive look at every index of a bulk load.
pub proof fn law_load_indexes_are_looked_at()
    ensures
        looks_at_load_indexes(table_steps()),
{
    lemma_load_indexes();
    let s1 = crate::catalog::archive_steps() + crate::message::message_steps();
    let s2 = s1 + crate::contact::person_steps();
    lemma_still_looked_at(s1, crate::contact::person_steps());
    let s3 = s2 + crate::contact::person_alias_steps();
    lemma_still_looked_at(s2, crate::contact::person_alias_steps());
    let s4 = s3 + crate::chatroom::chatroom_steps();
    lemma_still_looked_at(s3, crate::chatroom::chatroom_steps());
    let s5 = s4 + crate::chatroom::chatroom_member_steps();
    lemma_still_looked_at(s4, crate::chatroom::chatroom_member_steps());
    let s6 = s5 + crate::session::session_steps();
    lemma_still_looked_at(s5, crate::session::session_steps());
    let s7 = s6 + crate::favorite::favorite_steps();
    lemma_still_looked_at(s6, crate::favorite::favorite_steps());
    let s8 = s7 + crate::favorite::favorite_media_steps();
    lemma_still_looked_at(s7, crate::favorite::favorite_media_steps());
    let s9 = s8 + crate::favorite::favorite_tag_steps();
    lemma_still_looked_at(s8, crate::favorite::favorite_tag_steps());
    let s10 = s9 + crate::message::message_app_steps();
    lemma_still_looked_at(s9, crate::message::message_app_steps());
    let s11 = s10 + crate::message::message_media_steps();
    lemma_still_looked_at(s10, crate::message::message_media_steps());
    let s12 = s11 + crate::message::message_location_steps();
    lemma_still_looked_at(s11, crate::message::message_location_steps());
    let s13 = s12 + crate::message::message_call_steps();
    lemma_still_looked_at(s12, crate::message::message_call_steps());
    let s14 = s13 + crate::message::message_hongbao_claim_steps();
    lemma_still_looked_at(s13, crate::message::message_hongbao_claim_steps());
    let s15 = s14 + crate::message::message_card_steps();
    lemma_still_looked_at(s14, crate::message::message_card_steps());
    let s16 = s15 + crate::message::message_mention_steps();
    lemma_still_looked_at(s15, crate::message::message_mention_steps());
    let s17 = s16 + crate::chatroom::chatroom_member_event_steps();
    lemma_still_looked_at(s16, crate::chatroom::chatroom_member_event_steps());
    let s18 = s17 + crate::payment::group_pay_member_steps();
    lemma_still_looked_at(s17, crate::payment::group_pay_member_steps());
    let s19 = s18 + crate::message::message_forward_item_steps();
    lemma_still_looked_at(s18, crate::message::message_forward_item_steps());
    let s20 = s19 + crate::moment::moment_steps();
    lemma_still_looked_at(s19, crate::moment::moment_steps());
    let s21 = s20 + crate::moment::moment_media_steps();
    lemma_still_looked_at(s20, crate::moment::moment_media_steps());
    let s22 = s21 + crate::moment::moment_interaction_steps();
    lemma_still_looked_at(s21, crate::moment::moment_interaction_steps());
    let s23 = s22 + crate::payment::transfer_steps();
    lemma_still_looked_at(s22, crate::payment::transfer_steps());
    let s24 = s23 + crate::payment::red_envelope_steps();
    lemma_still_looked_at(s23, crate::payment::red_envelope_steps());
    let s25 = s24 + crate::payment::group_pay_steps();
    lemma_still_looked_at(s24, crate::payment::group_pay_steps());
    let s26 = s25 + crate::contact::friend_verify_steps();
    lemma_still_looked_at(s25, crate::contact::friend_verify_steps());
    let s27 = s26 + crate::moment::finder_visit_steps();
    lemma_still_looked_at(s26, crate::moment::finder_visit_steps());
    let s28 = s27 + crate::favorite::custom_emoticon_steps();
    lemma_still_looked_at(s27, crate::favorite::custom_emoticon_steps());
    let s29 = s28 + crate::contact::avatar_image_steps();
    lemma_still_looked_at(s28, crate::contact::avatar_image_steps());
    let s30 = s29 + crate::moment::moment_feed_steps();
    lemma_still_looked_at(s29, crate::moment::moment_feed_steps());
    let s31 = s30 + crate::moment::sns_notify_steps();
    lemma_still_looked_at(s30, crate::moment::sns_notify_steps());
    let s32 = s31 + crate::contact::bizchat_user_steps();
    lemma_still_looked_at(s31, crate::contact::bizchat_user_steps());
    lemma_still_looked_at(s32, last_steps());
}

proof fn lemma_steps_of_both(first: Seq<Step>, second: Seq<Step>)
    ensures
        forall|s: Step|
            first.contains(s) || second.contains(s) ==> #[trigger] (first + second).contains(s),
{
    let all = first + second;
    assert forall|s: Step| first.contains(s) || second.contains(s) implies #[trigger] all.contains(
        s,
    ) by {
        if first.contains(s) {
            let i = choose|i: int| 0 <= i < first.len() && first[i] == s;
            assert(all[i] == s);
        } else {
            let i = choose|i: int| 0 <= i < second.len() && second[i] == s;
            assert(all[first.len() + i] == s);
        }
    }
}

/// The steps of every part are steps of the whole.
#[verifier::rlimit(60)]
proof fn lemma_steps_of_the_parts(s: Step)
    ensures
        crate::catalog::archive_steps().contains(s) ==> table_steps().contains(s),
        crate::message::message_steps().contains(s) ==> table_steps().contains(s),
        crate::contact::person_steps().contains(s) ==> table_steps().contains(s),
        crate::contact::person_alias_steps().contains(s) ==> table_steps().contains(s),
        crate::chatroom::chatroom_steps().contains(s) ==> table_steps().contains(s),
        crate::chatroom::chatroom_member_steps().contains(s) ==> table_steps().contains(s),
        crate::session::session_steps().contains(s) ==> table_steps().contains(s),
        crate::favorite::favorite_steps().contains(s) ==> table_steps().contains(s),
        crate::favorite::favorite_media_steps().contains(s) ==> table_steps().contains(s),
        crate::favorite::favorite_tag_steps().contains(s) ==> table_steps().contains(s),
        crate::message::message_app_steps().contains(s) ==> table_steps().contains(s),
        crate::message::message_media_steps().contains(s) ==> table_steps().contains(s),
        crate::message::message_location_steps().contains(s) ==> table_steps().contains(s),
        crate::message::message_call_steps().contains(s) ==> table_steps().contains(s),
        crate::message::message_hongbao_claim_steps().contains(s) ==> table_steps().contains(s),
        crate::message::message_card_steps().contains(s) ==> table_steps().contains(s),
        crate::message::message_mention_steps().contains(s) ==> table_steps().contains(s),
        crate::chatroom::chatroom_member_event_steps().contains(s) ==> table_steps().contains(s),
        crate::payment::group_pay_member_steps().contains(s) ==> table_steps().contains(s),
        crate::message::message_forward_item_steps().contains(s) ==> table_steps().contains(s),
        crate::moment::moment_steps().contains(s) ==> table_steps().contains(s),
        crate::moment::moment_media_steps().contains(s) ==> table_steps().contains(s),
        crate::moment::moment_interaction_steps().contains(s) ==> table_steps().contains(s),
        crate::payment::transfer_steps().contains(s) ==> table_steps().contains(s),
        crate::payment::red_envelope_steps().contains(s) ==> table_steps().contains(s),
        crate::payment::group_pay_steps().contains(s) ==> table_steps().contains(s),
        crate::contact::friend_verify_steps().contains(s) ==> table_steps().contains(s),
        crate::moment::finder_visit_steps().contains(s) ==> table_steps().contains(s),
        crate::favorite::custom_emoticon_steps().contains(s) ==> table_steps().contains(s),
        crate::contact::avatar_image_steps().contains(s) ==> table_steps().contains(s),
        crate::moment::moment_feed_steps().contains(s) ==> table_steps().contains(s),
        crate::moment::sns_notify_steps().contains(s) ==> table_steps().contains(s),
        crate::contact::bizchat_user_steps().contains(s) ==> table_steps().contains(s),
        last_steps().contains(s) ==> table_steps().contains(s),
{
    let s0 = crate::catalog::archive_steps();
    let s1 = s0 + crate::message::message_steps();
    lemma_steps_of_both(s0, crate::message::message_steps());
    let s2 = s1 + crate::contact::person_steps();
    lemma_steps_of_both(s1, crate::contact::person_steps());
    let s3 = s2 + crate::contact::person_alias_steps();
    lemma_steps_of_both(s2, crate::contact::person_alias_steps());
    let s4 = s3 + crate::chatroom::chatroom_steps();
    lemma_steps_of_both(s3, crate::chatroom::chatroom_steps());
    let s5 = s4 + crate::chatroom::chatroom_member_steps();
    lemma_steps_of_both(s4, crate::chatroom::chatroom_member_steps());
    let s6 = s5 + crate::session::session_steps();
    lemma_steps_of_both(s5, crate::session::session_steps());
    let s7 = s6 + crate::favorite::favorite_steps();
    lemma_steps_of_both(s6, crate::favorite::favorite_steps());
    let s8 = s7 + crate::favorite::favorite_media_steps();
    lemma_steps_of_both(s7, crate::favorite::favorite_media_steps());
    let s9 = s8 + crate::favorite::favorite_tag_steps();
    lemma_steps_of_both(s8, crate::favorite::favorite_tag_steps());
    let s10 = s9 + crate::message::message_app_steps();
    lemma_steps_of_both(s9, crate::message::message_app_steps());
    let s11 = s10 + crate::message::message_media_steps();
    lemma_steps_of_both(s10, crate::message::message_media_steps());
    let s12 = s11 + crate::message::message_location_steps();
    lemma_steps_of_both(s11, crate::message::message_location_steps());
    let s13 = s12 + crate::message::message_call_steps();
    lemma_steps_of_both(s12, crate::message::message_call_steps());
    let s14 = s13 + crate::message::message_hongbao_claim_steps();
    lemma_steps_of_both(s13, crate::message::message_hongbao_claim_steps());
    let s15 = s14 + crate::message::message_card_steps();
    lemma_steps_of_both(s14, crate::message::message_card_steps());
    let s16 = s15 + crate::message::message_mention_steps();
    lemma_steps_of_both(s15, crate::message::message_mention_steps());
    let s17 = s16 + crate::chatroom::chatroom_member_event_steps();
    lemma_steps_of_both(s16, crate::chatroom::chatroom_member_event_steps());
    let s18 = s17 + crate::payment::group_pay_member_steps();
    lemma_steps_of_both(s17, crate::payment::group_pay_member_steps());
    let s19 = s18 + crate::message::message_forward_item_steps();
    lemma_steps_of_both(s18, crate::message::message_forward_item_steps());
    let s20 = s19 + crate::moment::moment_steps();
    lemma_steps_of_both(s19, crate::moment::moment_steps());
    let s21 = s20 + crate::moment::moment_media_steps();
    lemma_steps_of_both(s20, crate::moment::moment_media_steps());
    let s22 = s21 + crate::moment::moment_interaction_steps();
    lemma_steps_of_both(s21, crate::moment::moment_interaction_steps());
    let s23 = s22 + crate::payment::transfer_steps();
    lemma_steps_of_both(s22, crate::payment::transfer_steps());
    let s24 = s23 + crate::payment::red_envelope_steps();
    lemma_steps_of_both(s23, crate::payment::red_envelope_steps());
    let s25 = s24 + crate::payment::group_pay_steps();
    lemma_steps_of_both(s24, crate::payment::group_pay_steps());
    let s26 = s25 + crate::contact::friend_verify_steps();
    lemma_steps_of_both(s25, crate::contact::friend_verify_steps());
    let s27 = s26 + crate::moment::finder_visit_steps();
    lemma_steps_of_both(s26, crate::moment::finder_visit_steps());
    let s28 = s27 + crate::favorite::custom_emoticon_steps();
    lemma_steps_of_both(s27, crate::favorite::custom_emoticon_steps());
    let s29 = s28 + crate::contact::avatar_image_steps();
    lemma_steps_of_both(s28, crate::contact::avatar_image_steps());
    let s30 = s29 + crate::moment::moment_feed_steps();
    lemma_steps_of_both(s29, crate::moment::moment_feed_steps());
    let s31 = s30 + crate::moment::sns_notify_steps();
    lemma_steps_of_both(s30, crate::moment::sns_notify_steps());
    let s32 = s31 + crate::contact::bizchat_user_steps();
    lemma_steps_of_both(s31, crate::contact::bizchat_user_steps());
    let s33 = s32 + last_steps();
    lemma_steps_of_both(s32, last_steps());
}

/// Every table that has later columns is brought up to date: the steps of an archive look at its
/// columns.
pub proof fn law_grown_tables_are_brought_up_to_date(table: Table)
    requires
        crate::tables::grown().contains(table),
    ensures
        table_steps().contains(Step::Ensure(table)),
{
    lemma_steps_of_the_parts(Step::Ensure(table));
    let all = crate::tables::grown();
    let i = choose|i: int| 0 <= i < all.len() && all[i] == table;
    match table {
        Table::Message => {
            let part = crate::message::message_steps();
            assert(part[part.len() - 1] == Step::Ensure(table));
        },
        Table::Person => {
            let part = crate::contact::person_steps();
            assert(part[part.len() - 1] == Step::Ensure(table));
        },
        Table::Chatroom => {
            let part = crate::chatroom::chatroom_steps();
            assert(part[part.len() - 1] == Step::Ensure(table));
        },
        Table::ChatroomMember => {
            let part = crate::chatroom::chatroom_member_steps();
            assert(part[part.len() - 1] == Step::Ensure(table));
        },
        Table::Session => {
            let part = crate::session::session_steps();
            assert(part[part.len() - 1] == Step::Ensure(table));
        },
        Table::Favorite => {
            let part = crate::favorite::favorite_steps();
            assert(part[part.len() - 1] == Step::Ensure(table));
        },
        Table::MessageApp => {
            let part = crate::message::message_app_steps();
            assert(part[part.len() - 1] == Step::Ensure(table));
        },
        Table::MessageLocation => {
            let part = crate::message::message_location_steps();
            assert(part[part.len() - 1] == Step::Ensure(table));
        },
        Table::Moment => {
            let part = crate::moment::moment_steps();
            assert(part[part.len() - 1] == Step::Ensure(table));
        },
        _ => {},
    }
}

/// Every table of an archive is made.
pub proof fn law_every_table_is_made(table: Table)
    requires
        table !is SchemaMeta,
        table !is CapabilityBacklog,
        table !is SourceDbCatalog,
        table !is SourceChatIndex,
        table !is SourceChatToDb,
        table !is SourceDbTimerange,
        table !is SourceQueryPlans,
    ensures
        table_steps().contains(Step::Create(table)),
{
    lemma_steps_of_the_parts(Step::Create(table));
    match table {
        Table::RawPayloadArchive => {
            assert(crate::catalog::archive_steps()[0] == Step::Create(table));
        },
        Table::Message => {
            assert(crate::message::message_steps()[0] == Step::Create(table));
        },
        Table::Person => {
            assert(crate::contact::person_steps()[0] == Step::Create(table));
        },
        Table::PersonAlias => {
            assert(crate::contact::person_alias_steps()[0] == Step::Create(table));
        },
        Table::Chatroom => {
            assert(crate::chatroom::chatroom_steps()[0] == Step::Create(table));
        },
        Table::ChatroomMember => {
            assert(crate::chatroom::chatroom_member_steps()[0] == Step::Create(table));
        },
        Table::Session => {
            assert(crate::session::session_steps()[0] == Step::Create(table));
        },
        Table::Favorite => {
            assert(crate::favorite::favorite_steps()[0] == Step::Create(table));
        },
        Table::FavoriteMedia => {
            assert(crate::favorite::favorite_media_steps()[0] == Step::Create(table));
        },
        Table::FavoriteTag => {
            assert(crate::favorite::favorite_tag_steps()[0] == Step::Create(table));
        },
        Table::MessageApp => {
            assert(crate::message::message_app_steps()[0] == Step::Create(table));
        },
        Table::MessageMedia => {
            assert(crate::message::message_media_steps()[0] == Step::Create(table));
        },
        Table::MessageLocation => {
            assert(crate::message::message_location_steps()[0] == Step::Create(table));
        },
        Table::MessageCall => {
            assert(crate::message::message_call_steps()[0] == Step::Create(table));
        },
        Table::MessageHongbaoClaim => {
            assert(crate::message::message_hongbao_claim_steps()[0] == Step::Create(table));
        },
        Table::MessageCard => {
            assert(crate::message::message_card_steps()[0] == Step::Create(table));
        },
        Table::MessageMention => {
            assert(crate::message::message_mention_steps()[0] == Step::Create(table));
        },
        Table::ChatroomMemberEvent => {
            assert(crate::chatroom::chatroom_member_event_steps()[0] == Step::Create(table));
        },
        Table::GroupPayMember => {
            assert(crate::payment::group_pay_member_steps()[0] == Step::Create(table));
        },
        Table::MessageForwardItem => {
            assert(crate::message::message_forward_item_steps()[0] == Step::Create(table));
        },
        Table::Moment => {
            assert(crate::moment::moment_steps()[0] == Step::Create(table));
        },
        Table::MomentMedia => {
            assert(crate::moment::moment_media_steps()[0] == Step::Create(table));
        },
        Table::MomentInteraction => {
            assert(crate::moment::moment_interaction_steps()[0] == Step::Create(table));
        },
        Table::Transfer => {
            assert(crate::payment::transfer_steps()[0] == Step::Create(table));
        },
        Table::RedEnvelope => {
            assert(crate::payment::red_envelope_steps()[0] == Step::Create(table));
        },
        Table::GroupPay => {
            assert(crate::payment::group_pay_steps()[0] == Step::Create(table));
        },
        Table::FriendVerify => {
            assert(crate::contact::friend_verify_steps()[0] == Step::Create(table));
        },
        Table::FinderVisit => {
            assert(crate::moment::finder_visit_steps()[0] == Step::Create(table));
        },
        Table::CustomEmoticon => {
            assert(crate::favorite::custom_emoticon_steps()[0] == Step::Create(table));
        },
        Table::AvatarImage => {
            assert(crate::contact::avatar_image_steps()[0] == Step::Create(table));
        },
        Table::MomentFeed => {
            assert(crate::moment::moment_feed_steps()[0] == Step::Create(table));
        },
        Table::SnsNotify => {
            assert(crate::moment::sns_notify_steps()[0] == Step::Create(table));
        },
        Table::BizchatUser => {
            assert(crate::contact::bizchat_user_steps()[0] == Step::Create(table));
        },
        Table::ChatRefreshState => {
            assert(last_steps()[1] == Step::Create(table));
        },
        _ => {},
    }
}

/// An archive is opened exactly if it has the current layout or holds nothing yet; a new one has its
/// layout stored before anything else, and one of the current layout is not given another one.
pub proof fn law_archive_is_opened_in_its_layout(
    stored: Option<String>,
    has_message_table: bool,
    steps: Result<Vec<Step>, SchemaMismatch>,
)
    requires
        call_ensures(init_l1_schema, (&stored, has_message_table), steps),
    ensures
        steps is Ok <==> (stored matches Some(version) && version@ == SCHEMA_VERSION@) || (stored
            is None && !has_message_table),
        steps matches Ok(s) ==> {
            &&& stored is None ==> s@.len() > 0 && s@[0] == Step::StoreVersion && s@.skip(1)
                == table_steps()
            &&& stored is Some ==> s@ == table_steps()
        },
        steps matches Err(e) ==> {
            let start = "L1 库 schema 版本不符(需 3, 实际 "@ + match stored {
                Some(version) => "Some("@ + crate::redact::quoted(version@) + ")"@,
                None => "None"@,
            };
            e.message@.len() > start.len() && e.message@.take(start.len() as int) == start
        },
{
    if let Err(e) = steps {
        reveal_strlit("3");
        reveal_strlit(", 实际 ");
        reveal_strlit("L1 库 schema 版本不符(需 ");
        reveal_strlit("L1 库 schema 版本不符(需 3, 实际 ");
        let head = "L1 库 schema 版本不符(需 3, 实际 "@;
        assert(head =~= "L1 库 schema 版本不符(需 "@ + "3"@ + ", 实际 "@);
        let seen = match stored {
            Some(version) => "Some("@ + crate::redact::quoted(version@) + ")"@,
            None => "None"@,
        };
        reveal_strlit(
            "): R14 消息锚 8hex→32hex + R16-3 favorite_tag 锚 server_id→local_id, 旧库锚格式过时。请删掉此 L1 库、从加密源全量重建 —— 勿在旧库上增量(新旧锚混用会插重复行、媒体连不上消息、favorite_tag 残留塌陷孤儿行)。",
        );
        assert(e.message@.take((head + seen).len() as int) =~= head + seen);
    }
    if let Ok(s) = steps {
        if stored is None {
            assert(s@.skip(1) =~= table_steps());
        } else {
            assert(s@ =~= table_steps());
        }
    }
}

/// One of the steps makes the index of this name, over these columns of the table.
pub open spec fn has_index(
    steps: Seq<Step>,
    name: Seq<char>,
    table: Seq<char>,
    columns: Seq<char>,
) -> bool {
    exists|i: int|
        {
            &&& 0 <= i < steps.len()
            &&& (#[trigger] steps[i]) matches Step::Index(index) && index.name@ == name
                && index.table@ == table && index.columns@ == columns
        }
}

/// A step runs the statement of what it makes: of a table the one that the table gives, of an index
/// its definition where no index of its name is there, and of the version the one that stores it.
/// A step that looks something up first, or that another module makes, runs none.
pub proof fn law_step_runs_its_statement(
    step: Step,
    statement: Option<Statement>,
    table: Statement,
    drawn: Statement,
    leases: &'static str,
    version: Statement,
)
    requires
        call_ensures(Step::statement, (&step,), statement),
        step matches Step::Create(t) ==> call_ensures(Table::create, (&t,), table),
        call_ensures(draw_l1_generation, (), drawn),
        call_ensures(init_write_lease, (), leases),
        call_ensures(set_meta, ("version", "3", 0i64), version),
    ensures
        statement is None <==> step is Reconcile || step is Ensure || step is EtlState || step
            is CaptureTargets,
        step is Create ==> statement->0.sql@ == table.sql@,
        step matches Step::Index(index) ==> statement->0.sql@ == "CREATE INDEX IF NOT EXISTS "@
            + index.name@ + " ON "@ + index.table@ + " ("@ + index.columns@ + ")"@,
        step is DrawGeneration ==> statement->0.sql@ == drawn.sql@,
        step is Leases ==> statement->0.sql@ == leases@,
        step is StoreVersion ==> statement->0.sql@ == version.sql@ && statement->0.values()
            == version.values(),
{
    if let Step::Index(index) = step {
        assert(statement->0.sql@ =~= "CREATE INDEX IF NOT EXISTS "@ + index.name@ + " ON "@
            + index.table@ + " ("@ + index.columns@ + ")"@);
    }
}

} // verus!
