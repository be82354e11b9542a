//! Secondary indexes: what they are, and how a database whose index has another
//! definition is brought back in line.

use vstd::prelude::*;
use vstd::string::*;

use crate::sql::{join, Statement};
use crate::text::{to_lowercase, words_of};

verus! {

/// An index: its name, its table and its columns as SQL lists them.
#[derive(Clone, Copy, Debug, PartialEq, Eq)]
pub struct Index {
    pub name: &'static str,
    pub table: &'static str,
    pub columns: &'static str,
}

impl Index {
    /// What follows `CREATE INDEX`.
    pub open spec fn definition(self) -> Seq<char> {
        self.name@ + " ON "@ + self.table@ + " ("@ + self.columns@ + ")"@
    }

    /// The SQL text that defines the index.
    pub open spec fn create_sql(self) -> Seq<char> {
        "CREATE INDEX "@ + self.definition()
    }

    /// The SQL text that makes the index where no index of its name is there.
    pub open spec fn ensure_sql(self) -> Seq<char> {
        "CREATE INDEX IF NOT EXISTS "@ + self.definition()
    }

    fn define(&self, verb: &str) -> (sql: String)
        ensures
            sql@ == verb@ + self.definition(),
    {
        let mut sql = verb.to_owned();
        sql.append(self.name);
        sql.append(" ON ");
        sql.append(self.table);
        sql.append(" (");
        sql.append(self.columns);
        sql.append(")");
        assert(sql@ =~= verb@ + self.definition());
        sql
    }

    /// The SQL text that defines the index.
    pub fn create(&self) -> (sql: String)
        ensures
            sql@ == self.create_sql(),
    {
        self.define("CREATE INDEX ")
    }

    /// What has to be done to the index, so that it has its definition.
    pub fn reconcile(&self, existing: &IndexLookup) -> (todo: Reconcile)
        ensures
            reconciled(self.name@, self.create_sql(), *existing, todo),
    {
        todo_for(self.name, self.create().as_str(), existing)
    }

    /// The SQL text that makes the index where no index of its name is there.
    pub fn create_if_missing(&self) -> (sql: String)
        ensures
            sql@ == self.ensure_sql(),
    {
        self.define("CREATE INDEX IF NOT EXISTS ")
    }
}

/// The indexes of the message table that a bulk load drops and makes again.
pub open spec fn message_rebuilt() -> Seq<Index> {
    seq![
        Index {
            name: "idx_message_conv_time_full",
            table: "message",
            columns: "account_id_sha, conv_id_sha, create_time DESC, source_native_id DESC, source DESC",
        },
        Index {
            name: "idx_message_conv_time",
            table: "message",
            columns: "account_id_sha, conv_id_sha, create_time DESC",
        },
        Index {
            name: "idx_message_server_id",
            table: "message",
            columns: "account_id_sha, server_id",
        },
        Index { name: "idx_message_type", table: "message", columns: "account_id_sha, msg_type" },
    ]
}

/// The indexes of the archive that a bulk load drops and makes again.
pub open spec fn archive_rebuilt() -> Seq<Index> {
    seq![
        Index {
            name: "idx_archive_account_ingest",
            table: "raw_payload_archive",
            columns: "account_id_sha, ingest_time DESC",
        },
        Index {
            name: "idx_archive_event_type",
            table: "raw_payload_archive",
            columns: "event_type, event_action",
        },
    ]
}

/// The indexes of the message table that a bulk load drops and makes again.
pub fn message_rebuilt_indexes() -> (indexes: Vec<Index>)
    ensures
        indexes@ == message_rebuilt(),
{
    let mut indexes: Vec<Index> = Vec::new();
    indexes.push(
        Index {
            name: "idx_message_conv_time_full",
            table: "message",
            columns: "account_id_sha, conv_id_sha, create_time DESC, source_native_id DESC, source DESC",
        },
    );
    indexes.push(
        Index {
            name: "idx_message_conv_time",
            table: "message",
            columns: "account_id_sha, conv_id_sha, create_time DESC",
        },
    );
    indexes.push(
        Index {
            name: "idx_message_server_id",
            table: "message",
            columns: "account_id_sha, server_id",
        },
    );
    indexes.push(
        Index { name: "idx_message_type", table: "message", columns: "account_id_sha, msg_type" },
    );
    assert(indexes@ =~= message_rebuilt());
    indexes
}

/// The indexes of the archive that a bulk load drops and makes again.
pub fn archive_rebuilt_indexes() -> (indexes: Vec<Index>)
    ensures
        indexes@ == archive_rebuilt(),
{
    let mut indexes: Vec<Index> = Vec::new();
    indexes.push(
        Index {
            name: "idx_archive_account_ingest",
            table: "raw_payload_archive",
            columns: "account_id_sha, ingest_time DESC",
        },
    );
    indexes.push(
        Index {
            name: "idx_archive_event_type",
            table: "raw_payload_archive",
            columns: "event_type, event_action",
        },
    );
    assert(indexes@ =~= archive_rebuilt());
    indexes
}

/// All indexes that a bulk load drops and makes again.
pub open spec fn ingest_rebuilt() -> Seq<Index> {
    message_rebuilt() + archive_rebuilt()
}

/// All indexes that a bulk load drops and makes again: those of the message table,
/// then those of the archive.
pub fn ingest_rebuilt_indexes() -> (indexes: Vec<Index>)
    ensures
        indexes@ == ingest_rebuilt(),
{
    let mut indexes = message_rebuilt_indexes();
    let mut rest = archive_rebuilt_indexes();
    indexes.append(&mut rest);
    indexes
}

/// The SQL text that drops an index.
pub open spec fn drop_sql(name: Seq<char>) -> Seq<char> {
    "DROP INDEX IF EXISTS "@ + name + ";"@
}

/// The statement that drops, before a bulk load, the indexes that are made again after
/// it, and no others.
pub fn drop_ingest_indexes() -> (statement: Statement)
    ensures
        statement.is_plain(
            crate::sql::joined(ingest_rebuilt().map_values(|ix: Index| drop_sql(ix.name@)), "\n"@),
        ),
{
    let indexes = ingest_rebuilt_indexes();
    let mut drops: Vec<String> = Vec::new();
    let ghost texts = indexes@.map_values(|ix: Index| drop_sql(ix.name@));
    let mut i: usize = 0;
    while i < indexes.len()
        invariant
            i <= indexes@.len(),
            texts == indexes@.map_values(|ix: Index| drop_sql(ix.name@)),
            crate::sql::strings(drops@) == texts.take(i as int),
        decreases indexes@.len() - i,
    {
        let ghost before = crate::sql::strings(drops@);
        let mut drop = "DROP INDEX IF EXISTS ".to_owned();
        drop.append(indexes[i].name);
        drop.append(";");
        let ghost view = drop@;
        drops.push(drop);
        assert(crate::sql::strings(drops@) =~= before.push(view));
        assert(texts.take(i + 1) =~= texts.take(i as int).push(view));
        i += 1;
    }
    assert(texts.take(i as int) =~= texts);
    Statement::plain(join(&drops, "\n").as_str())
}

/// The indexes to reconcile after a bulk load: exactly those that were dropped for it.
pub fn create_ingest_indexes() -> (indexes: Vec<Index>)
    ensures
        indexes@ == ingest_rebuilt(),
{
    ingest_rebuilt_indexes()
}

/// What a database knows of an index name.
#[derive(Clone, Debug, PartialEq, Eq)]
pub enum IndexLookup {
    /// There is no such index.
    Absent,
    /// There is one that the database made by itself, without a definition.
    Automatic,
    /// There is one with this definition.
    Defined(String),
}

/// What has to be done to an index.
#[derive(Clone, Debug, PartialEq, Eq)]
pub enum Reconcile {
    /// Nothing.
    Keep,
    /// It is made by `run`.
    Create { run: String },
    /// It is dropped and made again by `run`. Where `run` fails, `undo` brings the old
    /// index back and leaves no transaction open.
    Rebuild { run: String, undo: String },
}

/// A definition without what does not matter: case and spacing.
pub open spec fn normalized(sql: Seq<char>) -> Seq<char> {
    crate::sql::joined(crate::text::words(crate::text::lowercase(sql)), " "@)
}

/// A definition without what does not matter: case and spacing.
pub fn normalize(sql: &str) -> (text: String)
    ensures
        text@ == normalized(sql@),
{
    join(&words_of(to_lowercase(sql).as_str()), " ")
}

/// `text` holds `part`.
pub open spec fn holds(text: Seq<char>, part: Seq<char>) -> bool {
    exists|i: int|
        0 <= i <= text.len() - part.len() && #[trigger] text.subrange(i, i + part.len()) == part
}

/// What has to be done to the index `name`, so that it has the definition
/// `create_sql`.
pub open spec fn reconciled(
    name: Seq<char>,
    create_sql: Seq<char>,
    existing: IndexLookup,
    todo: Reconcile,
) -> bool {
    match existing {
        IndexLookup::Automatic => todo is Keep,
        IndexLookup::Defined(sql) => if normalized(sql@) == normalized(create_sql) {
            todo is Keep
        } else {
            todo matches Reconcile::Rebuild { run, undo } && run@
                == "SAVEPOINT reconcile_idx; DROP INDEX IF EXISTS "@ + name + "; "@ + create_sql
                + "; RELEASE reconcile_idx;"@ && undo@
                == "ROLLBACK TO reconcile_idx; RELEASE reconcile_idx;"@
        },
        IndexLookup::Absent => todo matches Reconcile::Create { run } && run@ == create_sql
            + ";"@,
    }
}

/// What has to be done to the index `name`, so that it has the definition
/// `create_sql`. An index with that definition is left alone.
pub fn reconcile_index(name: &str, create_sql: &str, existing: &IndexLookup) -> (todo: Reconcile)
    requires
        !create_sql@.contains(';'),
        holds(create_sql@, "INDEX "@ + name@ + " "@),
    ensures
        reconciled(name@, create_sql@, *existing, todo),
{
    todo_for(name, create_sql, existing)
}

fn todo_for(name: &str, create_sql: &str, existing: &IndexLookup) -> (todo: Reconcile)
    ensures
        reconciled(name@, create_sql@, *existing, todo),
{
    match existing {
        IndexLookup::Automatic => Reconcile::Keep,
        IndexLookup::Defined(sql) => {
            if normalize(sql.as_str()) == normalize(create_sql) {
                Reconcile::Keep
            } else {
                let mut run = "SAVEPOINT reconcile_idx; DROP INDEX IF EXISTS ".to_owned();
                run.append(name);
                run.append("; ");
                run.append(create_sql);
                run.append("; RELEASE reconcile_idx;");
                Reconcile::Rebuild {
                    run,
                    undo: "ROLLBACK TO reconcile_idx; RELEASE reconcile_idx;".to_owned(),
                }
            }
        },
        IndexLookup::Absent => {
            let mut run = create_sql.to_owned();
            run.append(";");
            Reconcile::Create { run }
        },
    }
}

/// The same, for tests of definitions that cannot be made.
pub fn reconcile_index_for_test(name: &str, create_sql: &str, existing: &IndexLookup) -> (todo:
    Reconcile)
    requires
        !create_sql@.contains(';'),
        holds(create_sql@, "INDEX "@ + name@ + " "@),
    ensures
        reconciled(name@, create_sql@, *existing, todo),
{
    reconcile_index(name, create_sql, existing)
}

impl Reconcile {
    /// Whether the index is made anew.
    pub fn rebuilds(&self) -> (rebuilds: bool)
        ensures
            rebuilds == (*self !is Keep),
    {
        match self {
            Reconcile::Keep => false,
            _ => true,
        }
    }
}

/// Reconciling ends: once an index has the definition, there is nothing to do.
pub proof fn law_reconciled_index_is_kept(name: Seq<char>, create_sql: String, todo: Reconcile)
    requires
        reconciled(name, create_sql@, IndexLookup::Defined(create_sql), todo),
    ensures
        todo is Keep,
{
}

/// The indexes of a database: the definition under each name.
pub type Indexes = Map<Seq<char>, Seq<char>>;

/// What a lookup of a name in a database finds.
pub open spec fn is_lookup(indexes: Indexes, name: Seq<char>, existing: IndexLookup) -> bool {
    match existing {
        IndexLookup::Absent => !indexes.contains_key(name),
        IndexLookup::Automatic => false,
        IndexLookup::Defined(sql) => indexes.contains_key(name) && indexes[name] == sql@,
    }
}

/// An index is there with its definition.
pub open spec fn is_settled(indexes: Indexes, index: Index) -> bool {
    indexes.contains_key(index.name@) && normalized(indexes[index.name@]) == normalized(
        index.create_sql(),
    )
}

/// The indexes of a database after one index was reconciled.
pub open spec fn after_reconciling(indexes: Indexes, index: Index) -> Indexes {
    if is_settled(indexes, index) {
        indexes
    } else {
        indexes.insert(index.name@, index.create_sql())
    }
}

/// The indexes of a database after some indexes were reconciled, one after the other.
pub open spec fn after_reconciling_all(indexes: Indexes, all: Seq<Index>) -> Indexes
    decreases all.len(),
{
    if all.len() == 0 {
        indexes
    } else {
        after_reconciling(after_reconciling_all(indexes, all.drop_last()), all.last())
    }
}

/// An index of this name is in a list.
pub open spec fn is_named(all: Seq<Index>, name: Seq<char>) -> bool {
    exists|i: int| 0 <= i < all.len() && (#[trigger] all[i]).name@ == name
}

/// The indexes of a database after some indexes were dropped.
pub open spec fn after_dropping(indexes: Indexes, all: Seq<Index>) -> Indexes {
    Map::new(
        |name: Seq<char>| indexes.contains_key(name) && !is_named(all, name),
        |name: Seq<char>| indexes[name],
    )
}

/// Reconciling makes an index anew exactly where it is not there with its definition.
pub proof fn law_reconciling_settles(
    indexes: Indexes,
    index: Index,
    existing: IndexLookup,
    todo: Reconcile,
)
    requires
        is_lookup(indexes, index.name@, existing),
        reconciled(index.name@, index.create_sql(), existing, todo),
    ensures
        todo is Keep <==> is_settled(indexes, index),
        todo is Keep ==> after_reconciling(indexes, index) == indexes,
        is_settled(after_reconciling(indexes, index), index),
{
}

/// The indexes of a bulk load have different names.
pub proof fn lemma_ingest_names_differ(i: int, j: int)
    requires
        0 <= i < ingest_rebuilt().len(),
        0 <= j < ingest_rebuilt().len(),
        ingest_rebuilt()[i].name@ == ingest_rebuilt()[j].name@,
    ensures
        i == j,
{
    reveal_strlit("idx_message_conv_time_full");
    reveal_strlit("idx_message_conv_time");
    reveal_strlit("idx_message_server_id");
    reveal_strlit("idx_message_type");
    reveal_strlit("idx_archive_account_ingest");
    reveal_strlit("idx_archive_event_type");
    let all = ingest_rebuilt();
    assert(all[0].name@.len() == 26 && all[1].name@.len() == 21 && all[2].name@.len() == 21);
    assert(all[3].name@.len() == 16 && all[4].name@.len() == 26 && all[5].name@.len() == 22);
    assert(all[0].name@[4] != all[4].name@[4]);
    assert(all[1].name@[12] != all[2].name@[12]);
}

proof fn lemma_reconciled_all(indexes: Indexes, n: int)
    requires
        0 <= n <= ingest_rebuilt().len(),
    ensures
        ({
            let some = ingest_rebuilt().take(n);
            let left = after_reconciling_all(indexes, some);
            &&& forall|i: int| 0 <= i < n ==> is_settled(left, #[trigger] ingest_rebuilt()[i])
            &&& forall|name: Seq<char>|
                !is_named(some, name) ==> (#[trigger] left.contains_key(name)
                    <==> indexes.contains_key(name))
            &&& forall|name: Seq<char>|
                !is_named(some, name) && indexes.contains_key(name) ==> #[trigger] left[name]
                    == indexes[name]
        }),
    decreases n,
{
    let all = ingest_rebuilt();
    if n > 0 {
        let some = all.take(n);
        let fewer = all.take(n - 1);
        lemma_reconciled_all(indexes, n - 1);
        assert(some.drop_last() =~= fewer);
        assert(some.last() == all[n - 1]);
        let before = after_reconciling_all(indexes, fewer);
        let left = after_reconciling_all(indexes, some);
        assert forall|i: int| 0 <= i < n implies is_settled(left, #[trigger] all[i]) by {
            if i < n - 1 {
                assert(is_settled(before, all[i]));
                if all[i].name@ == all[n - 1].name@ {
                    lemma_ingest_names_differ(i, n - 1);
                }
            }
        }
        assert forall|name: Seq<char>| !is_named(some, name) implies !is_named(fewer, name)
            && name != all[n - 1].name@ by {
            assert(some[n - 1].name@ == all[n - 1].name@);
            if is_named(fewer, name) {
                let i = choose|i: int| 0 <= i < fewer.len() && (#[trigger] fewer[i]).name@ == name;
                assert(some[i].name@ == name);
            }
        }
    }
}

/// What a bulk load drops it makes again. Where the indexes of the load are there with their
/// definitions, dropping them takes exactly them away, and reconciling them afterwards gives the
/// old indexes back: the same names, with definitions that differ in case and spacing at most.
pub proof fn law_dropped_indexes_come_back(indexes: Indexes)
    requires
        forall|i: int|
            0 <= i < ingest_rebuilt().len() ==> is_settled(indexes, #[trigger] ingest_rebuilt()[i]),
    ensures
        ({
            let dropped = after_dropping(indexes, ingest_rebuilt());
            let back = after_reconciling_all(dropped, ingest_rebuilt());
            &&& forall|name: Seq<char>| #[trigger]
                dropped.contains_key(name) <==> indexes.contains_key(name) && !is_named(
                    ingest_rebuilt(),
                    name,
                )
            &&& forall|name: Seq<char>| #[trigger]
                back.contains_key(name) <==> indexes.contains_key(name)
            &&& forall|name: Seq<char>|
                indexes.contains_key(name) ==> normalized(#[trigger] back[name]) == normalized(
                    indexes[name],
                )
            &&& forall|name: Seq<char>|
                indexes.contains_key(name) && !is_named(ingest_rebuilt(), name) ==> #[trigger]
                back[name] == indexes[name]
        }),
{
    let all = ingest_rebuilt();
    let dropped = after_dropping(indexes, all);
    let back = after_reconciling_all(dropped, all);
    assert(all.take(all.len() as int) =~= all);
    lemma_reconciled_all(dropped, all.len() as int);
    assert forall|name: Seq<char>| is_named(all, name) implies indexes.contains_key(name)
        && back.contains_key(name) && normalized(back[name]) == normalized(indexes[name]) by {
        let i = choose|i: int| 0 <= i < all.len() && (#[trigger] all[i]).name@ == name;
        assert(is_settled(indexes, all[i]));
        assert(is_settled(back, all[i]));
    }
}

proof fn lemma_joined_words(all: Seq<Seq<char>>)
    requires
        forall|k: int| 0 <= k < all.len() ==> (#[trigger] all[k]).len() > 0,
        forall|k: int, i: int|
            0 <= k < all.len() && 0 <= i < all[k].len() ==> !crate::text::white_space(
                #[trigger] all[k][i],
            ),
    ensures
        crate::text::words(crate::sql::joined(all, " "@)) == all,
    decreases all.len(),
{
    reveal_strlit(" ");
    if all.len() == 0 {
        assert(all =~= Seq::<Seq<char>>::empty());
    } else {
        let last = all.last();
        assert forall|i: int| 0 <= i < last.len() implies !crate::text::white_space(
            #[trigger] last[i],
        ) by {
            assert(!crate::text::white_space(all[all.len() - 1][i]));
        }
        crate::text::law_text_without_white_space_is_a_word(last);
        assert(all[all.len() - 1].len() > 0);
        if all.len() == 1 {
            assert(all =~= seq![last]);
        } else {
            let head = all.drop_last();
            assert forall|k: int| 0 <= k < head.len() implies (#[trigger] head[k]).len() > 0 by {
                assert(all[k].len() > 0);
            }
            assert forall|k: int, i: int| 0 <= k < head.len() && 0 <= i
                < head[k].len() implies !crate::text::white_space(#[trigger] head[k][i]) by {
                assert(!crate::text::white_space(all[k][i]));
            }
            lemma_joined_words(head);
            let before = crate::sql::joined(head, " "@);
            assert(before + " "@ + last =~= before.push(' ') + last);
            crate::text::law_white_space_parts_words(before, ' ', last);
            assert(head + seq![last] =~= all);
        }
    }
}

/// Definitions are the same without what does not matter exactly if they are made of the same
/// words, the case of their letters aside: nothing else is left out of them.
pub proof fn law_same_definitions_have_the_same_words(
    a: &str,
    b: &str,
    short_a: String,
    short_b: String,
)
    requires
        call_ensures(normalize, (a,), short_a),
        call_ensures(normalize, (b,), short_b),
    ensures
        short_a@ == short_b@ <==> crate::text::words(crate::text::lowercase(a@))
            == crate::text::words(crate::text::lowercase(b@)),
{
    let (x, y) = (crate::text::lowercase(a@), crate::text::lowercase(b@));
    crate::text::lemma_words_hold_no_white_space(x);
    crate::text::lemma_words_hold_no_white_space(y);
    lemma_joined_words(crate::text::words(x));
    lemma_joined_words(crate::text::words(y));
}

/// What is done to an index: nothing where it has the definition, or where the database made it
/// by itself; it is made where it is not there; and where it has another definition it is dropped
/// and made again, in one step that can be taken back.
pub proof fn law_index_gets_its_definition(
    name: &str,
    create_sql: &str,
    existing: IndexLookup,
    todo: Reconcile,
    rebuilds: bool,
)
    requires
        call_ensures(reconcile_index, (name, create_sql, &existing), todo),
        call_ensures(Reconcile::rebuilds, (&todo,), rebuilds),
    ensures
        existing is Automatic ==> todo is Keep,
        existing is Absent ==> (todo matches Reconcile::Create { run } && run@ == create_sql@ + ";"@),
        existing matches IndexLookup::Defined(sql) ==> {
            &&& todo is Keep <==> crate::text::words(crate::text::lowercase(sql@))
                == crate::text::words(crate::text::lowercase(create_sql@))
            &&& !(todo is Keep) ==> (todo matches Reconcile::Rebuild { run, undo } && run@
                == "SAVEPOINT reconcile_idx; DROP INDEX IF EXISTS "@ + name@ + "; "@ + create_sql@
                + "; RELEASE reconcile_idx;"@ && undo@
                == "ROLLBACK TO reconcile_idx; RELEASE reconcile_idx;"@)
        },
        rebuilds <==> !(todo is Keep),
{
    if let IndexLookup::Defined(sql) = existing {
        let (x, y) = (crate::text::lowercase(sql@), crate::text::lowercase(create_sql@));
        crate::text::lemma_words_hold_no_white_space(x);
        crate::text::lemma_words_hold_no_white_space(y);
        lemma_joined_words(crate::text::words(x));
        lemma_joined_words(crate::text::words(y));
    }
}

/// An index is reconciled to the text that makes it, and that text names it, its table and its
/// columns.
pub proof fn law_index_is_reconciled_to_its_own_text(
    index: Index,
    create: String,
    ensure: String,
    existing: IndexLookup,
    todo: Reconcile,
)
    requires
        call_ensures(Index::create, (&index,), create),
        call_ensures(Index::create_if_missing, (&index,), ensure),
        call_ensures(Index::reconcile, (&index, &existing), todo),
    ensures
        create@ == "CREATE INDEX "@ + index.name@ + " ON "@ + index.table@ + " ("@ + index.columns@
            + ")"@,
        ensure@ == "CREATE INDEX IF NOT EXISTS "@ + index.name@ + " ON "@ + index.table@ + " ("@
            + index.columns@ + ")"@,
        existing is Absent ==> (todo matches Reconcile::Create { run } && run@ == create@ + ";"@),
        existing == IndexLookup::Defined(create) ==> todo is Keep,
{
    assert(create@ =~= "CREATE INDEX "@ + index.name@ + " ON "@ + index.table@ + " ("@
        + index.columns@ + ")"@);
    assert(ensure@ =~= "CREATE INDEX IF NOT EXISTS "@ + index.name@ + " ON "@ + index.table@
        + " ("@ + index.columns@ + ")"@);
}

/// What a bulk load drops it makes again: every index that is made again is dropped, and every
/// text of the drop names one of them.
pub proof fn law_dropped_indexes_are_made_again(drop: Statement, again: Vec<Index>)
    requires
        call_ensures(drop_ingest_indexes, (), drop),
        call_ensures(create_ingest_indexes, (), again),
    ensures
        drop.params@.len() == 0,
        drop.sql@ == crate::sql::joined(
            again@.map_values(|ix: Index| "DROP INDEX IF EXISTS "@ + ix.name@ + ";"@),
            "\n"@,
        ),
{
    assert(again@.map_values(|ix: Index| "DROP INDEX IF EXISTS "@ + ix.name@ + ";"@)
        =~= ingest_rebuilt().map_values(|ix: Index| drop_sql(ix.name@)));
}

} // verus!
