//! The registers of a database: named values of the archive and of the thin index.

use vstd::prelude::*;

use crate::sql::{Effect, Op, Row, RowBuilder, Statement, Tail, Test, TestsBuilder, Val};
use crate::text::{numeral_text, same_text};

verus! {

/// The version of the archive's layout.
pub const SCHEMA_VERSION: &'static str = "3";

pub const META_KEY_VERSION: &'static str = "version";

pub const META_KEY_CREATED_AT: &'static str = "created_at";

pub const META_KEY_APP_VERSION: &'static str = "app_version";

pub const META_KEY_MIGRATION_HISTORY: &'static str = "migration_history";

pub const META_KEY_ACCOUNT_ID_SHA: &'static str = "account_id_sha";

/// The row of a named value.
pub open spec fn meta_row(key: Seq<char>, value: Seq<char>, updated_at: int) -> Row {
    seq![
        ("key"@, Val::Text(key)),
        ("value"@, Val::Text(value)),
        ("updated_at"@, Val::Integer(updated_at)),
    ]
}

/// The statement that gives a name a value.
pub fn set_meta(key: &str, value: &str, updated_at: i64) -> (statement: Statement)
    ensures
        statement.does(
            Effect::Replace {
                table: "schema_meta"@,
                row: meta_row(key@, value@, updated_at as int),
            },
        ),
{
    let mut row = RowBuilder::new();
    row.text("key", key);
    row.text("value", value);
    row.integer("updated_at", updated_at);
    assert(row@ =~= meta_row(key@, value@, updated_at as int));
    row.replace_into("schema_meta")
}

/// The test for a name.
pub open spec fn named(key: Seq<char>) -> Seq<Test> {
    seq![Test { column: "key"@, op: Op::Is, value: Val::Text(key) }]
}

fn value_of(table: &str, key: &str) -> (statement: Statement)
    ensures
        statement.does(
            Effect::Select {
                table: table@,
                columns: seq!["value"@],
                tests: named(key@),
                tail: Tail::All,
            },
        ),
{
    let mut tests = TestsBuilder::new();
    tests.text("key", Op::Is, key);
    assert(tests@ =~= named(key@));
    let mut columns: Vec<&'static str> = Vec::new();
    columns.push("value");
    assert(crate::sql::literals(columns@) =~= seq!["value"@]);
    tests.select_from(&columns, table)
}

/// The query for the value of a name.
pub fn get_meta(key: &str) -> (statement: Statement)
    ensures
        statement.does(
            Effect::Select {
                table: "schema_meta"@,
                columns: seq!["value"@],
                tests: named(key@),
                tail: Tail::All,
            },
        ),
{
    value_of("schema_meta", key)
}

/// A name has the value that it was given last, and the values of the other names stay.
pub proof fn law_value_reads_back(
    rows: Seq<Row>,
    key: Seq<char>,
    value: Seq<char>,
    updated_at: int,
    other: Seq<char>,
)
    requires
        other != key,
    ensures
        ({
            let row = meta_row(key, value, updated_at);
            let left = crate::relation::after(
                Effect::Replace { table: "schema_meta"@, row },
                rows,
                crate::catalog::schema_meta_key(),
            );
            &&& crate::relation::passing(left, named(key)) == seq![row]
            &&& crate::relation::column(row, "value"@) == Val::Text(value)
            &&& crate::relation::passing(left, named(other)) == crate::relation::passing(
                rows,
                named(other),
            )
        }),
{
    reveal_strlit("key");
    reveal_strlit("value");
    let row = meta_row(key, value, updated_at);
    assert("key"@.len() != "value"@.len());
    crate::relation::lemma_column_at(row, 0);
    crate::relation::lemma_column_at(row, 1);
    assert(named(key) =~= crate::relation::of_name("key"@, Val::Text(key)));
    assert(named(other) =~= crate::relation::of_name("key"@, Val::Text(other)));
    assert(crate::catalog::schema_meta_key() =~= seq!["key"@]);
    crate::relation::law_lookup_finds_the_written_row(
        "schema_meta"@,
        rows,
        row,
        "key"@,
        Val::Text(key),
    );
    crate::relation::law_lookup_of_other_names_is_unchanged(
        "schema_meta"@,
        rows,
        row,
        "key"@,
        Val::Text(other),
    );
}

/// The names that a new archive gets, with their values.
pub open spec fn seeded(
    account_id_sha: Seq<char>,
    app_version: Seq<char>,
    created_at: int,
) -> Seq<(Seq<char>, Seq<char>)> {
    seq![
        (META_KEY_VERSION@, SCHEMA_VERSION@),
        (META_KEY_CREATED_AT@, crate::text::numeral(created_at)),
        (META_KEY_APP_VERSION@, app_version),
        (META_KEY_MIGRATION_HISTORY@, "[]"@),
        (META_KEY_ACCOUNT_ID_SHA@, account_id_sha),
    ]
}

/// The statements that give a new archive its names.
pub fn seed_schema_meta(
    account_id_sha: &str,
    app_version: &str,
    created_at: i64,
    now: i64,
) -> (statements: Vec<Statement>)
    ensures
        ({
            let names = seeded(account_id_sha@, app_version@, created_at as int);
            &&& statements@.len() == names.len()
            &&& forall|i: int|
                0 <= i < names.len() ==> (#[trigger] statements@[i]).does(
                    Effect::Replace {
                        table: "schema_meta"@,
                        row: meta_row(names[i].0, names[i].1, now as int),
                    },
                )
        }),
{
    let mut statements: Vec<Statement> = Vec::new();
    statements.push(set_meta(META_KEY_VERSION, SCHEMA_VERSION, now));
    statements.push(set_meta(META_KEY_CREATED_AT, numeral_text(created_at).as_str(), now));
    statements.push(set_meta(META_KEY_APP_VERSION, app_version, now));
    statements.push(set_meta(META_KEY_MIGRATION_HISTORY, "[]", now));
    statements.push(set_meta(META_KEY_ACCOUNT_ID_SHA, account_id_sha, now));
    statements
}

/// A new archive gets five different names.
pub proof fn law_seeded_names_differ(
    account_id_sha: Seq<char>,
    app_version: Seq<char>,
    created_at: int,
    i: int,
    j: int,
)
    requires
        0 <= i < j < seeded(account_id_sha, app_version, created_at).len(),
    ensures
        seeded(account_id_sha, app_version, created_at).len() == 5,
        seeded(account_id_sha, app_version, created_at)[i].0 != seeded(
            account_id_sha,
            app_version,
            created_at,
        )[j].0,
{
    reveal_strlit("version");
    reveal_strlit("created_at");
    reveal_strlit("app_version");
    reveal_strlit("migration_history");
    reveal_strlit("account_id_sha");
    assert("version"@.len() == 7);
    assert("created_at"@.len() == 10);
    assert("app_version"@.len() == 11);
    assert("migration_history"@.len() == 17);
    assert("account_id_sha"@.len() == 14);
}

/// What became of reading a named value.
#[derive(Clone, Debug, PartialEq, Eq)]
pub enum MetaRead {
    /// The table of names is not there.
    NoTable,
    /// The name has no value.
    NoRow,
    /// The name has this value.
    Value(String),
}

/// A value that says something: an empty one counts as none.
pub open spec fn said(read: MetaRead) -> Option<Seq<char>> {
    match read {
        MetaRead::Value(value) => if value@.len() == 0 {
            None
        } else {
            Some(value@)
        },
        _ => None,
    }
}

fn said_value(read: MetaRead) -> (value: Option<String>)
    ensures
        match value {
            Some(v) => said(read) == Some(v@),
            None => said(read) is None,
        },
{
    match read {
        MetaRead::Value(value) => if value.as_str().is_empty() {
            None
        } else {
            Some(value)
        },
        _ => None,
    }
}

/// The row of a named value of the thin index.
pub open spec fn thin_row(key: Seq<char>, value: Seq<char>) -> Row {
    seq![("key"@, Val::Text(key)), ("value"@, Val::Text(value))]
}

/// What gives a name of the thin index a value.
pub open spec fn thin_set(key: Seq<char>, value: Seq<char>) -> Effect {
    Effect::Merge { table: "thin_meta"@, key: seq!["key"@], row: thin_row(key, value) }
}

/// What reads the value of a name of the thin index.
pub open spec fn thin_get(key: Seq<char>) -> Effect {
    Effect::Select {
        table: "thin_meta"@,
        columns: seq!["value"@],
        tests: named(key),
        tail: Tail::All,
    }
}

fn set_thin(key: &str, value: &str) -> (statement: Statement)
    ensures
        statement.does(thin_set(key@, value@)),
{
    let mut row = RowBuilder::new();
    row.text("key", key);
    row.text("value", value);
    assert(row@ =~= thin_row(key@, value@));
    let mut columns: Vec<&'static str> = Vec::new();
    columns.push("key");
    assert(crate::sql::literals(columns@) =~= seq!["key"@]);
    row.merge_into("thin_meta", &columns)
}

/// The table of the thin index's named values.
pub fn init_thin_meta() -> (statement: Statement)
    ensures
        statement.is_plain(
            "CREATE TABLE IF NOT EXISTS thin_meta(key TEXT PRIMARY KEY, value TEXT NOT NULL);"@,
        ),
{
    Statement::plain(
        "CREATE TABLE IF NOT EXISTS thin_meta(key TEXT PRIMARY KEY, value TEXT NOT NULL);",
    )
}

/// The statement that binds the thin index to an account.
pub fn set_thin_account(account_sha: &str) -> (statement: Statement)
    ensures
        statement.does(thin_set("account_sha"@, account_sha@)),
{
    set_thin("account_sha", account_sha)
}

/// The query for the account that the thin index is bound to.
pub fn thin_account_query() -> (statement: Statement)
    ensures
        statement.does(thin_get("account_sha"@)),
{
    value_of("thin_meta", "account_sha")
}

/// The account that the thin index is bound to; none where it is not bound.
pub fn get_thin_account(read: MetaRead) -> (account: Option<String>)
    ensures
        match account {
            Some(a) => said(read) == Some(a@),
            None => said(read) is None,
        },
{
    said_value(read)
}

/// The statement that stores the watermark of the thin index.
pub fn set_thin_watermark(value: &str) -> (statement: Statement)
    ensures
        statement.does(thin_set("watermark"@, value@)),
{
    set_thin("watermark", value)
}

/// The query for the watermark of the thin index.
pub fn thin_watermark_query() -> (statement: Statement)
    ensures
        statement.does(thin_get("watermark"@)),
{
    value_of("thin_meta", "watermark")
}

/// The watermark of the thin index; none where nothing was read into it yet.
pub fn get_thin_watermark(read: MetaRead) -> (watermark: Option<String>)
    ensures
        match watermark {
            Some(w) => said(read) == Some(w@),
            None => said(read) is None,
        },
{
    said_value(read)
}

/// The version of the scheme by which the thin index names its rows.
pub const THIN_ROWKEY_VERSION: &'static str = "2";

/// The statement that stores the version of the row scheme.
pub fn set_thin_rowkey_version(version: &str) -> (statement: Statement)
    ensures
        statement.does(thin_set("rowkey_version"@, version@)),
{
    set_thin("rowkey_version", version)
}

/// The query for the version of the row scheme.
pub fn thin_rowkey_version_query() -> (statement: Statement)
    ensures
        statement.does(thin_get("rowkey_version"@)),
{
    value_of("thin_meta", "rowkey_version")
}

/// The version of the row scheme; none where none was stored.
pub fn get_thin_rowkey_version(read: MetaRead) -> (version: Option<String>)
    ensures
        match version {
            Some(v) => said(read) == Some(v@),
            None => said(read) is None,
        },
{
    said_value(read)
}

/// A name of the thin index has the value that it was given last, and the values of the other
/// names stay.
pub proof fn law_thin_value_reads_back(
    rows: Seq<Row>,
    key: Seq<char>,
    value: Seq<char>,
    other: Seq<char>,
)
    requires
        other != key,
    ensures
        ({
            let row = thin_row(key, value);
            let left = crate::relation::after(thin_set(key, value), rows, seq!["key"@]);
            &&& crate::relation::passing(left, named(key)) == seq![row]
            &&& crate::relation::column(row, "value"@) == Val::Text(value)
            &&& crate::relation::passing(left, named(other)) == crate::relation::passing(
                rows,
                named(other),
            )
        }),
{
    reveal_strlit("key");
    reveal_strlit("value");
    let row = thin_row(key, value);
    assert("key"@.len() != "value"@.len());
    crate::relation::lemma_column_at(row, 0);
    crate::relation::lemma_column_at(row, 1);
    assert(named(key) =~= crate::relation::of_name("key"@, Val::Text(key)));
    assert(named(other) =~= crate::relation::of_name("key"@, Val::Text(other)));
    crate::relation::law_lookup_finds_the_written_row(
        "thin_meta"@,
        rows,
        row,
        "key"@,
        Val::Text(key),
    );
    crate::relation::law_lookup_of_other_names_is_unchanged(
        "thin_meta"@,
        rows,
        row,
        "key"@,
        Val::Text(other),
    );
}

/// The names of the thin index do not touch each other: a value that is read under
/// one name was not stored under another.
pub proof fn law_thin_names_differ()
    ensures
        "account_sha"@ != "watermark"@,
        "account_sha"@ != "rowkey_version"@,
        "watermark"@ != "rowkey_version"@,
{
    reveal_strlit("account_sha");
    reveal_strlit("watermark");
    reveal_strlit("rowkey_version");
    assert("account_sha"@.len() == 11);
    assert("watermark"@.len() == 9);
    assert("rowkey_version"@.len() == 14);
}

/// What the thin index holds, as far as a change of the row scheme is concerned.
#[derive(Clone, Copy, Debug, PartialEq, Eq)]
pub enum ThinIndex {
    /// Its table lacks the column of the shard.
    OldSchema,
    /// Its table has all columns, and this many rows.
    Rows(i64),
}

/// What has to be run, in one transaction, to bring the thin index to the current row
/// scheme.
pub struct RowkeyPlan {
    pub statements: Vec<Statement>,
    /// Whether the index was emptied and has to be filled again.
    pub migrated: bool,
}

/// The stored version is the current one.
pub open spec fn is_current_version(version: Option<String>) -> bool {
    version matches Some(v) && v@ == THIN_ROWKEY_VERSION@
}

/// Whether the stored version of the row scheme is the current one.
pub fn thin_rowkey_is_current(version: &Option<String>) -> (current: bool)
    ensures
        current == is_current_version(*version),
{
    match version {
        Some(v) => same_text(v.as_str(), THIN_ROWKEY_VERSION),
        None => false,
    }
}

pub open spec fn drop_and_recreate() -> Seq<char> {
    "DROP TABLE IF EXISTS thin_fts; CREATE VIRTUAL TABLE thin_fts USING fts5(msg_id UNINDEXED, source UNINDEXED, text, tokenize='trigram');"@
}

/// The test for the stored watermark.
pub open spec fn watermark_row() -> Effect {
    Effect::Delete { table: "thin_meta"@, tests: named("watermark"@) }
}

fn clear_watermark() -> (statement: Statement)
    ensures
        statement.does(watermark_row()),
{
    let mut tests = TestsBuilder::new();
    tests.text("key", Op::Is, "watermark");
    assert(tests@ =~= named("watermark"@));
    tests.delete_from("thin_meta")
}

/// The statements of a plan for an index that is not current.
pub open spec fn is_rowkey_plan(index: ThinIndex, plan: RowkeyPlan) -> bool {
    let s = plan.statements@;
    match index {
        ThinIndex::OldSchema => {
            &&& plan.migrated
            &&& s.len() == 3
            &&& s[0].is_plain(drop_and_recreate())
            &&& s[1].does(watermark_row())
            &&& s[2].does(thin_set("rowkey_version"@, THIN_ROWKEY_VERSION@))
        },
        ThinIndex::Rows(n) => if n > 0 {
            &&& plan.migrated
            &&& s.len() == 3
            &&& s[0].does(Effect::Delete { table: "thin_fts"@, tests: Seq::empty() })
            &&& s[1].does(watermark_row())
            &&& s[2].does(thin_set("rowkey_version"@, THIN_ROWKEY_VERSION@))
        } else {
            &&& !plan.migrated
            &&& s.len() == 1
            &&& s[0].does(thin_set("rowkey_version"@, THIN_ROWKEY_VERSION@))
        },
    }
}

/// What has to be run to bring the thin index to the current row scheme. An index of
/// the current version is left alone. Any other one is emptied, unless it is empty: an
/// old table is dropped and made again, rows of an old scheme are deleted, and the
/// watermark goes with them, so that everything is read again.
pub fn ensure_thin_rowkey_current(version: &Option<String>, index: ThinIndex) -> (plan: RowkeyPlan)
    ensures
        if is_current_version(*version) {
            !plan.migrated && plan.statements@.len() == 0
        } else {
            is_rowkey_plan(index, plan)
        },
{
    let mut statements: Vec<Statement> = Vec::new();
    if thin_rowkey_is_current(version) {
        return RowkeyPlan { statements, migrated: false };
    }
    let migrated: bool = match index {
        ThinIndex::OldSchema => {
            statements.push(
                Statement::plain(
                    "DROP TABLE IF EXISTS thin_fts; CREATE VIRTUAL TABLE thin_fts USING fts5(msg_id UNINDEXED, source UNINDEXED, text, tokenize='trigram');",
                ),
            );
            statements.push(clear_watermark());
            true
        },
        ThinIndex::Rows(n) => {
            if n > 0 {
                statements.push(TestsBuilder::new().delete_from("thin_fts"));
                statements.push(clear_watermark());
                true
            } else {
                false
            }
        },
    };
    statements.push(set_thin_rowkey_version(THIN_ROWKEY_VERSION));
    RowkeyPlan { statements, migrated }
}

/// An index is emptied together with its watermark, and only once: a plan that empties
/// it also takes the watermark out, every plan ends by storing the current version, and
/// for the current version there is nothing to do.
pub proof fn law_index_is_emptied_with_its_watermark(
    index: ThinIndex,
    plan: RowkeyPlan,
    stored: String,
)
    requires
        is_rowkey_plan(index, plan),
    ensures
        plan.migrated ==> plan.statements@[1].does(watermark_row()),
        plan.statements@.last().does(thin_set("rowkey_version"@, THIN_ROWKEY_VERSION@)),
        stored@ == THIN_ROWKEY_VERSION@ ==> is_current_version(Some(stored)),
{
}

/// The SQL text that makes the table of the generation.
pub open spec fn generation_table() -> Seq<char> {
    "CREATE TABLE IF NOT EXISTS l1_generation (id INTEGER PRIMARY KEY CHECK (id = 1), gen TEXT NOT NULL)"@
}

/// The SQL text that draws a generation where there is none.
pub open spec fn generation_draw() -> Seq<char> {
    "INSERT OR IGNORE INTO l1_generation (id, gen) VALUES (1, lower(hex(randomblob(16))))"@
}

/// The table of the generation.
pub fn l1_generation_table() -> (statement: Statement)
    ensures
        statement.is_plain(generation_table()),
{
    Statement::plain(
        "CREATE TABLE IF NOT EXISTS l1_generation (id INTEGER PRIMARY KEY CHECK (id = 1), gen TEXT NOT NULL)",
    )
}

/// The statement that draws a generation where there is none.
pub fn draw_l1_generation() -> (statement: Statement)
    ensures
        statement.is_plain(generation_draw()),
{
    Statement::plain(
        "INSERT OR IGNORE INTO l1_generation (id, gen) VALUES (1, lower(hex(randomblob(16))))",
    )
}

/// The instance name of an archive: one is chosen at random when the archive is made,
/// and it stays.
pub fn init_l1_generation() -> (statements: Vec<Statement>)
    ensures
        statements@.len() == 2,
        statements@[0].is_plain(generation_table()),
        statements@[1].is_plain(generation_draw()),
{
    let mut statements: Vec<Statement> = Vec::new();
    statements.push(l1_generation_table());
    statements.push(draw_l1_generation());
    statements
}

/// The query for the instance name.
pub fn l1_generation_query() -> (statement: Statement)
    ensures
        statement.is_plain("SELECT gen FROM l1_generation WHERE id = 1"@),
{
    Statement::plain("SELECT gen FROM l1_generation WHERE id = 1")
}

/// An archive has the table of its instance name, but no name in it.
#[derive(Clone, Copy, Debug, PartialEq, Eq)]
pub struct GenerationMissing;

/// The instance name of an archive; none for an archive that was made before there
/// were any. A table without a name is an error and not the same as no table.
pub fn get_l1_generation(read: MetaRead) -> (generation: Result<Option<String>, GenerationMissing>)
    ensures
        match read {
            MetaRead::NoTable => generation == Ok::<Option<String>, GenerationMissing>(None),
            MetaRead::NoRow => generation is Err,
            MetaRead::Value(g) => generation == Ok::<Option<String>, GenerationMissing>(Some(g)),
        },
{
    match read {
        MetaRead::NoTable => Ok(None),
        MetaRead::NoRow => Err(GenerationMissing),
        MetaRead::Value(g) => Ok(Some(g)),
    }
}

/// A value that was stored under a name is found under that name and under no other one, with the
/// time that was stored beside it.
pub proof fn law_stored_value_is_found_under_its_name(
    key: &str,
    value: &str,
    updated_at: i64,
    stored: Statement,
    asked: &str,
    query: Statement,
)
    requires
        call_ensures(set_meta, (key, value, updated_at), stored),
        call_ensures(get_meta, (asked,), query),
    ensures
        exists|row: Row, tests: Seq<Test>|
            {
                &&& #[trigger] stored.does(Effect::Replace { table: "schema_meta"@, row })
                &&& #[trigger] query.does(
                    Effect::Select {
                        table: "schema_meta"@,
                        columns: seq!["value"@],
                        tests,
                        tail: Tail::All,
                    },
                )
                &&& crate::relation::column(row, "key"@) == Val::Text(key@)
                &&& crate::relation::column(row, "value"@) == Val::Text(value@)
                &&& crate::relation::column(row, "updated_at"@) == Val::Integer(updated_at as int)
                &&& crate::relation::passes_all(row, tests) <==> key@ == asked@
            },
{
    let row = meta_row(key@, value@, updated_at as int);
    let tests = named(asked@);
    lemma_meta_columns(key@, value@, updated_at as int);
    assert(stored.does(Effect::Replace { table: "schema_meta"@, row }));
    assert(query.does(
        Effect::Select {
            table: "schema_meta"@,
            columns: seq!["value"@],
            tests,
            tail: Tail::All,
        },
    ));
    if crate::relation::passes_all(row, tests) {
        assert(crate::relation::passes(row, tests[0]));
    }
}

proof fn lemma_meta_columns(key: Seq<char>, value: Seq<char>, updated_at: int)
    ensures
        crate::relation::column(meta_row(key, value, updated_at), "key"@) == meta_row(
            key,
            value,
            updated_at,
        )[0].1,
        crate::relation::column(meta_row(key, value, updated_at), "value"@) == meta_row(
            key,
            value,
            updated_at,
        )[1].1,
        crate::relation::column(meta_row(key, value, updated_at), "updated_at"@) == meta_row(
            key,
            value,
            updated_at,
        )[2].1,
{
    reveal_strlit("key");
    reveal_strlit("value");
    reveal_strlit("updated_at");
    let row = meta_row(key, value, updated_at);
    assert(row[0].0.len() == 3 && row[1].0.len() == 5 && row[2].0.len() == 10);
    crate::relation::lemma_column_at(row, 0);
    crate::relation::lemma_column_at(row, 1);
    crate::relation::lemma_column_at(row, 2);
}

/// The five values that a new archive gets: its layout, when it was made, by what, its history,
/// which is empty, and its account; each under its own name, with the time of now beside it.
pub proof fn law_new_archive_gets_its_values(
    account_id_sha: &str,
    app_version: &str,
    created_at: i64,
    now: i64,
    statements: Vec<Statement>,
)
    requires
        call_ensures(seed_schema_meta, (account_id_sha, app_version, created_at, now), statements),
    ensures
        statements@.len() == 5,
        is_stored(statements@, "version"@, SCHEMA_VERSION@, now as int),
        is_stored(statements@, "app_version"@, app_version@, now as int),
        is_stored(statements@, "migration_history"@, "[]"@, now as int),
        is_stored(statements@, "account_id_sha"@, account_id_sha@, now as int),
        exists|text: Seq<char>|
            {
                &&& #[trigger] is_stored(statements@, "created_at"@, text, now as int)
                &&& created_at >= 0 ==> crate::text::number_of(text) == created_at
            },
{
    let names = seeded(account_id_sha@, app_version@, created_at as int);
    assert forall|i: int| 0 <= i < 5 implies is_stored(
        statements@,
        (#[trigger] names[i]).0,
        names[i].1,
        now as int,
    ) by {
        lemma_meta_columns(names[i].0, names[i].1, now as int);
        assert(statements@[i].does(
            Effect::Replace {
                table: "schema_meta"@,
                row: meta_row(names[i].0, names[i].1, now as int),
            },
        ));
    }
    assert(names[0].0 == "version"@ && names[1].0 == "created_at"@ && names[2].0
        == "app_version"@);
    assert(names[3].0 == "migration_history"@ && names[4].0 == "account_id_sha"@);
    if created_at >= 0 {
        crate::text::lemma_numeral_is_read(created_at as int);
    }
    assert(is_stored(statements@, "created_at"@, names[1].1, now as int));
}

/// One of the statements stores a value under a name.
pub open spec fn is_stored(
    statements: Seq<Statement>,
    key: Seq<char>,
    value: Seq<char>,
    updated_at: int,
) -> bool {
    exists|i: int, row: Row|
        {
            &&& 0 <= i < statements.len()
            &&& #[trigger] statements[i].does(Effect::Replace { table: "schema_meta"@, row })
            &&& crate::relation::column(row, "key"@) == Val::Text(key)
            &&& crate::relation::column(row, "value"@) == Val::Text(value)
            &&& crate::relation::column(row, "updated_at"@) == Val::Integer(updated_at)
        }
}

/// What the thin index has stored of itself is found by the query for it and by no other one: its
/// account, its watermark and the version of its rows do not get into each other's way.
pub proof fn law_thin_values_are_found_by_their_own_query(
    value: &str,
    account: Statement,
    watermark: Statement,
    version: Statement,
    account_query: Statement,
    watermark_query: Statement,
    version_query: Statement,
)
    requires
        call_ensures(set_thin_account, (value,), account),
        call_ensures(set_thin_watermark, (value,), watermark),
        call_ensures(set_thin_rowkey_version, (value,), version),
        call_ensures(thin_account_query, (), account_query),
        call_ensures(thin_watermark_query, (), watermark_query),
        call_ensures(thin_rowkey_version_query, (), version_query),
    ensures
        exists|a: Row, w: Row, v: Row, for_a: Seq<Test>, for_w: Seq<Test>, for_v: Seq<Test>|
            {
                &&& #[trigger] account.does(
                    Effect::Merge { table: "thin_meta"@, key: seq!["key"@], row: a },
                )
                &&& #[trigger] watermark.does(
                    Effect::Merge { table: "thin_meta"@, key: seq!["key"@], row: w },
                )
                &&& #[trigger] version.does(
                    Effect::Merge { table: "thin_meta"@, key: seq!["key"@], row: v },
                )
                &&& #[trigger] account_query.does(thin_read(for_a))
                &&& #[trigger] watermark_query.does(thin_read(for_w))
                &&& #[trigger] version_query.does(thin_read(for_v))
                &&& crate::relation::column(a, "value"@) == Val::Text(value@)
                &&& crate::relation::column(w, "value"@) == Val::Text(value@)
                &&& crate::relation::column(v, "value"@) == Val::Text(value@)
                &&& crate::relation::passes_all(a, for_a)
                &&& !crate::relation::passes_all(a, for_w)
                &&& !crate::relation::passes_all(a, for_v)
                &&& crate::relation::passes_all(w, for_w)
                &&& !crate::relation::passes_all(w, for_a)
                &&& !crate::relation::passes_all(w, for_v)
                &&& crate::relation::passes_all(v, for_v)
                &&& !crate::relation::passes_all(v, for_a)
                &&& !crate::relation::passes_all(v, for_w)
            },
{
    law_thin_names_differ();
    let (a, w, v) = (
        thin_row("account_sha"@, value@),
        thin_row("watermark"@, value@),
        thin_row("rowkey_version"@, value@),
    );
    let (for_a, for_w, for_v) = (
        named("account_sha"@),
        named("watermark"@),
        named("rowkey_version"@),
    );
    lemma_thin_row("account_sha"@, value@);
    lemma_thin_row("watermark"@, value@);
    lemma_thin_row("rowkey_version"@, value@);
    assert(account.does(Effect::Merge { table: "thin_meta"@, key: seq!["key"@], row: a }));
    assert(watermark.does(Effect::Merge { table: "thin_meta"@, key: seq!["key"@], row: w }));
    assert(version.does(Effect::Merge { table: "thin_meta"@, key: seq!["key"@], row: v }));
    assert(account_query.does(thin_read(for_a)));
    assert(watermark_query.does(thin_read(for_w)));
    assert(version_query.does(thin_read(for_v)));
}

/// The query of the thin index for the values of the rows that pass some tests.
pub open spec fn thin_read(tests: Seq<Test>) -> Effect {
    Effect::Select { table: "thin_meta"@, columns: seq!["value"@], tests, tail: Tail::All }
}

proof fn lemma_thin_row(key: Seq<char>, value: Seq<char>)
    ensures
        crate::relation::column(thin_row(key, value), "value"@) == thin_row(key, value)[1].1,
        forall|asked: Seq<char>| #[trigger]
            crate::relation::passes_all(thin_row(key, value), named(asked)) <==> key == asked,
{
    reveal_strlit("key");
    reveal_strlit("value");
    let row = thin_row(key, value);
    assert(row[0].0.len() == 3 && row[1].0.len() == 5);
    crate::relation::lemma_column_at(row, 0);
    crate::relation::lemma_column_at(row, 1);
    assert forall|asked: Seq<char>| #[trigger]
        crate::relation::passes_all(row, named(asked)) <==> key == asked by {
        if crate::relation::passes_all(row, named(asked)) {
            assert(crate::relation::passes(row, named(asked)[0]));
        }
    }
}

/// A stored text is read as it is, and an empty one, a missing row and a missing table are
/// nothing.
pub proof fn law_empty_value_is_none(
    read: MetaRead,
    account: Option<String>,
    watermark: Option<String>,
    version: Option<String>,
)
    requires
        call_ensures(get_thin_account, (read,), account),
        call_ensures(get_thin_watermark, (read,), watermark),
        call_ensures(get_thin_rowkey_version, (read,), version),
    ensures
        read matches MetaRead::Value(v) ==> (v@.len() > 0 ==> {
            &&& account is Some && account->0@ == v@
            &&& watermark is Some && watermark->0@ == v@
            &&& version is Some && version->0@ == v@
        }),
        !(read matches MetaRead::Value(v) && v@.len() > 0) ==> {
            &&& account is None
            &&& watermark is None
            &&& version is None
        },
{
}

/// A thin index of another row scheme is emptied, and read again from the start of every table:
/// where it held anything, what empties it and what takes the watermark out come before the
/// version is stored. An empty one only gets the version, and one of the current scheme is left
/// alone.
pub proof fn law_other_row_schemes_are_emptied(
    version: Option<String>,
    index: ThinIndex,
    current: bool,
    plan: RowkeyPlan,
    stored: Option<String>,
    then_current: bool,
)
    requires
        call_ensures(thin_rowkey_is_current, (&version,), current),
        call_ensures(ensure_thin_rowkey_current, (&version, index), plan),
        call_ensures(thin_rowkey_is_current, (&stored,), then_current),
        stored matches Some(v) && v@ == THIN_ROWKEY_VERSION@,
    ensures
        current <==> (version matches Some(v) && v@ == THIN_ROWKEY_VERSION@),
        then_current,
        current ==> plan.statements@.len() == 0 && !plan.migrated,
        !current ==> {
            &&& plan.migrated <==> index is OldSchema || (index matches ThinIndex::Rows(n) && n > 0)
            &&& plan.statements@.len() == if plan.migrated {
                3int
            } else {
                1int
            }
            &&& exists|row: Row|
                {
                    &&& #[trigger] plan.statements@.last().does(
                        Effect::Merge { table: "thin_meta"@, key: seq!["key"@], row },
                    )
                    &&& crate::relation::passes_all(row, named("rowkey_version"@))
                    &&& crate::relation::column(row, "value"@) == Val::Text(THIN_ROWKEY_VERSION@)
                }
            &&& plan.migrated ==> exists|tests: Seq<Test>|
                {
                    &&& #[trigger] plan.statements@[1].does(
                        Effect::Delete { table: "thin_meta"@, tests },
                    )
                    &&& forall|key: Seq<char>, value: Seq<char>| #[trigger]
                        crate::relation::passes_all(thin_row(key, value), tests) <==> key
                            == "watermark"@
                }
            &&& plan.migrated && index is Rows ==> plan.statements@[0].does(
                Effect::Delete { table: "thin_fts"@, tests: Seq::empty() },
            )
            &&& index is OldSchema ==> plan.statements@[0].is_plain(
                "DROP TABLE IF EXISTS thin_fts; CREATE VIRTUAL TABLE thin_fts USING fts5(msg_id UNINDEXED, source UNINDEXED, text, tokenize='trigram');"@,
            )
        },
{
    if !current {
        let row = thin_row("rowkey_version"@, THIN_ROWKEY_VERSION@);
        lemma_thin_row("rowkey_version"@, THIN_ROWKEY_VERSION@);
        assert(plan.statements@.last().does(
            Effect::Merge { table: "thin_meta"@, key: seq!["key"@], row },
        ));
        if plan.migrated {
            let tests = named("watermark"@);
            assert forall|key: Seq<char>, value: Seq<char>| #[trigger]
                crate::relation::passes_all(thin_row(key, value), tests) <==> key
                    == "watermark"@ by {
                lemma_thin_row(key, value);
            }
            assert(plan.statements@[1].does(Effect::Delete { table: "thin_meta"@, tests }));
        }
    }
}

/// The name of an archive is read as it is; one that was made before there were names has none;
/// and a table of names without a name is an error.
pub proof fn law_archive_name_is_read(
    read: MetaRead,
    generation: Result<Option<String>, GenerationMissing>,
)
    requires
        call_ensures(get_l1_generation, (read,), generation),
    ensures
        generation is Err <==> read is NoRow,
        read matches MetaRead::Value(g) ==> (generation matches Ok(Some(name)) && name@ == g@),
        read is NoTable ==> (generation matches Ok(name) && name is None),
{
}

/// The versions that are written now, and the names under which an archive keeps its values.
pub proof fn law_versions_and_names()
    ensures
        SCHEMA_VERSION@ == "3"@,
        THIN_ROWKEY_VERSION@ == "2"@,
        META_KEY_VERSION@ == "version"@,
        META_KEY_CREATED_AT@ == "created_at"@,
        META_KEY_APP_VERSION@ == "app_version"@,
        META_KEY_MIGRATION_HISTORY@ == "migration_history"@,
        META_KEY_ACCOUNT_ID_SHA@ == "account_id_sha"@,
{
}

} // verus!
