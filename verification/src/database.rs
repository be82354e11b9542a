//! What the steps of a plan do to a database.
//!
//! The model holds what the steps make and change: tables with their columns, indexes with
//! their definitions, the named values and the generation. Tables of other modules are not in
//! it.

use vstd::prelude::*;

use crate::index::{Index, Indexes};
use crate::plan::Step;
use crate::sql::{Effect, Row, Val};
use crate::tables::Table;

verus! {

/// The model of a database.
pub struct Database {
    /// The columns of each table.
    pub tables: Map<Seq<char>, Seq<Seq<char>>>,
    /// The definition of each index.
    pub indexes: Indexes,
    /// The rows of the named values.
    pub registers: Seq<Row>,
    /// The generation, once one was drawn.
    pub generation: Option<Seq<char>>,
}

/// The database with a table, made where it was not there.
pub open spec fn with_table(db: Database, name: Seq<char>, columns: Seq<Seq<char>>) -> Database {
    if db.tables.contains_key(name) {
        db
    } else {
        Database { tables: db.tables.insert(name, columns), ..db }
    }
}

/// The columns of the table of the generation.
pub open spec fn generation_columns() -> Seq<Seq<char>> {
    seq!["id"@, "gen"@]
}

/// The database after a step. `drawn` is the generation that the database draws if it draws one.
pub open spec fn after_step(db: Database, step: Step, drawn: Seq<char>) -> Database {
    match step {
        Step::Create(table) => with_table(
            db,
            table.name_text(),
            crate::schema::column_names(table.column_list()),
        ),
        Step::Index(index) => if db.indexes.contains_key(index.name@) {
            db
        } else {
            Database { indexes: db.indexes.insert(index.name@, index.create_sql()), ..db }
        },
        Step::Reconcile(index) => Database {
            indexes: crate::index::after_reconciling(db.indexes, index),
            ..db
        },
        Step::Ensure(table) => if db.tables.contains_key(table.name_text()) {
            Database {
                tables: db.tables.insert(
                    table.name_text(),
                    crate::schema::after_adding(
                        table.later_columns(),
                        db.tables[table.name_text()],
                    ),
                ),
                ..db
            }
        } else {
            db
        },
        Step::Generation => with_table(db, "l1_generation"@, generation_columns()),
        Step::DrawGeneration => if db.generation is Some {
            db
        } else {
            Database { generation: Some(drawn), ..db }
        },
        Step::Leases => with_table(db, "write_lease"@, crate::write_lease::lease_columns()),
        Step::StoreVersion => Database {
            registers: crate::relation::after(
                Effect::Replace {
                    table: "schema_meta"@,
                    row: crate::meta::meta_row(
                        crate::meta::META_KEY_VERSION@,
                        crate::meta::SCHEMA_VERSION@,
                        0,
                    ),
                },
                db.registers,
                crate::catalog::schema_meta_key(),
            ),
            ..db
        },
        Step::EtlState | Step::CaptureTargets => db,
    }
}

/// The database after steps, one after the other.
pub open spec fn after_steps(db: Database, steps: Seq<Step>, drawn: Seq<char>) -> Database
    decreases steps.len(),
{
    if steps.len() == 0 {
        db
    } else {
        after_step(after_steps(db, steps.drop_last(), drawn), steps.last(), drawn)
    }
}

/// There is nothing left for a step to do.
pub open spec fn is_done(db: Database, step: Step) -> bool {
    match step {
        Step::Create(table) => db.tables.contains_key(table.name_text()),
        Step::Index(index) => db.indexes.contains_key(index.name@),
        Step::Reconcile(index) => crate::index::is_settled(db.indexes, index),
        Step::Ensure(table) => {
            &&& db.tables.contains_key(table.name_text())
            &&& crate::schema::missing(
                table.later_columns(),
                db.tables[table.name_text()],
            ).len() == 0
        },
        Step::Generation => db.tables.contains_key("l1_generation"@),
        Step::DrawGeneration => db.generation is Some,
        Step::Leases => db.tables.contains_key("write_lease"@),
        Step::StoreVersion => false,
        Step::EtlState | Step::CaptureTargets => true,
    }
}

/// The version that a database says it has.
pub open spec fn version_of(db: Database) -> Option<Seq<char>> {
    let found = crate::relation::passing(
        db.registers,
        crate::meta::named(crate::meta::META_KEY_VERSION@),
    );
    if found.len() == 0 {
        None
    } else {
        match crate::relation::column(found[0], "value"@) {
            Val::Text(version) => Some(version),
            _ => None,
        }
    }
}

proof fn lemma_done_step_changes_nothing(db: Database, step: Step, drawn: Seq<char>)
    requires
        is_done(db, step),
    ensures
        after_step(db, step, drawn) == db,
{
    if let Step::Ensure(table) = step {
        let columns = db.tables[table.name_text()];
        let after = crate::schema::after_adding(table.later_columns(), columns);
        assert(after =~= columns);
        assert(db.tables.insert(table.name_text(), after) =~= db.tables);
    }
}

proof fn lemma_step_is_done(db: Database, step: Step, drawn: Seq<char>)
    requires
        step !is StoreVersion,
        step matches Step::Ensure(table) ==> db.tables.contains_key(table.name_text()),
    ensures
        is_done(after_step(db, step, drawn), step),
        after_step(db, step, drawn).registers == db.registers,
{
    if let Step::Ensure(table) = step {
        crate::schema::law_migration_is_idempotent(
            table.later_columns(),
            db.tables[table.name_text()],
        );
    }
}

proof fn lemma_nothing_becomes_missing(
    wanted: Seq<crate::schema::Column>,
    existing: Seq<Seq<char>>,
    more: Seq<Seq<char>>,
)
    requires
        crate::schema::missing(wanted, existing).len() == 0,
        forall|name: Seq<char>| #[trigger] existing.contains(name) ==> more.contains(name),
    ensures
        crate::schema::missing(wanted, more).len() == 0,
{
    let lacks = |c: crate::schema::Column| !existing.contains(c.name@);
    let still = |c: crate::schema::Column| !more.contains(c.name@);
    crate::relation::lemma_filtered(wanted, lacks);
    crate::relation::lemma_filtered(wanted, still);
    if wanted.filter(still).len() > 0 {
        let c = wanted.filter(still)[0];
        assert(still(c));
        assert(wanted.contains(c));
        let i = choose|i: int| 0 <= i < wanted.len() && wanted[i] == c;
        assert(!existing.contains(c.name@));
        assert(lacks(wanted[i]));
        assert(wanted.filter(lacks).contains(wanted[i]));
    }
}

proof fn lemma_done_step_stays_done(db: Database, step: Step, other: Step, drawn: Seq<char>)
    requires
        is_done(db, step),
        step matches Step::Reconcile(a) ==> other matches Step::Reconcile(b) ==> a.name@ == b.name@
            ==> a == b,
    ensures
        is_done(after_step(db, other, drawn), step),
{
    if let Step::Ensure(table) = step {
        if let Step::Ensure(grown) = other {
            let name = table.name_text();
            if grown.name_text() == name {
                let columns = db.tables[name];
                let more = crate::schema::after_adding(grown.later_columns(), columns);
                assert forall|c: Seq<char>| #[trigger] columns.contains(c) implies more.contains(
                    c,
                ) by {
                    let i = choose|i: int| 0 <= i < columns.len() && columns[i] == c;
                    assert(more[i] == c);
                }
                lemma_nothing_becomes_missing(table.later_columns(), columns, more);
            }
        }
    }
}

/// After steps were run, all of them are done.
proof fn lemma_all_are_done(db: Database, steps: Seq<Step>, drawn: Seq<char>, n: int)
    requires
        crate::plan::tables_come_first(steps),
        crate::plan::may_run_again(steps),
        0 <= n <= steps.len(),
    ensures
        forall|j: int|
            0 <= j < n ==> is_done(after_steps(db, steps.take(n), drawn), #[trigger] steps[j]),
        after_steps(db, steps.take(n), drawn).registers == db.registers,
    decreases n,
{
    if n > 0 {
        let before = steps.take(n - 1);
        let step = steps[n - 1];
        let earlier = after_steps(db, before, drawn);
        lemma_all_are_done(db, steps, drawn, n - 1);
        assert(steps.take(n).drop_last() =~= before);
        assert(steps.take(n).last() == step);
        assert(crate::plan::is_ready(before, step));
        if let Step::Ensure(table) = step {
            let (j, t) = choose|j: int, t: Table|
                0 <= j < before.len() && #[trigger] before[j] == Step::Create(t) && #[trigger]
                crate::plan::concerns(step, t);
            assert(steps[j] == Step::Create(table));
            assert(is_done(earlier, steps[j]));
        }
        lemma_step_is_done(earlier, step, drawn);
        assert forall|j: int| 0 <= j < n implies is_done(
            after_steps(db, steps.take(n), drawn),
            #[trigger] steps[j],
        ) by {
            if j < n - 1 {
                assert(is_done(earlier, steps[j]));
                if let Step::Reconcile(a) = steps[j] {
                    if let Step::Reconcile(b) = step {
                        lemma_one_definition(a, b);
                    }
                }
                lemma_done_step_stays_done(earlier, steps[j], step, drawn);
            }
        }
    }
}

proof fn lemma_one_definition(a: Index, b: Index)
    requires
        crate::index::ingest_rebuilt().contains(a),
        crate::index::ingest_rebuilt().contains(b),
    ensures
        a.name@ == b.name@ ==> a == b,
{
    let all = crate::index::ingest_rebuilt();
    let i = choose|i: int| 0 <= i < all.len() && all[i] == a;
    let j = choose|j: int| 0 <= j < all.len() && all[j] == b;
    if a.name@ == b.name@ {
        crate::index::lemma_ingest_names_differ(i, j);
    }
}

proof fn lemma_done_steps_change_nothing(db: Database, steps: Seq<Step>, drawn: Seq<char>)
    requires
        forall|i: int| 0 <= i < steps.len() ==> is_done(db, #[trigger] steps[i]),
    ensures
        after_steps(db, steps, drawn) == db,
    decreases steps.len(),
{
    if steps.len() > 0 {
        assert forall|i: int| 0 <= i < steps.drop_last().len() implies is_done(
            db,
            #[trigger] steps.drop_last()[i],
        ) by {
            assert(is_done(db, steps[i]));
        }
        lemma_done_steps_change_nothing(db, steps.drop_last(), drawn);
        assert(is_done(db, steps[steps.len() - 1]));
        lemma_done_step_changes_nothing(db, steps.last(), drawn);
    }
}

proof fn lemma_steps_in_two_parts(
    db: Database,
    first: Seq<Step>,
    second: Seq<Step>,
    drawn: Seq<char>,
)
    ensures
        after_steps(db, first + second, drawn) == after_steps(
            after_steps(db, first, drawn),
            second,
            drawn,
        ),
    decreases second.len(),
{
    if second.len() == 0 {
        assert(first + second =~= first);
    } else {
        lemma_steps_in_two_parts(db, first, second.drop_last(), drawn);
        assert((first + second).drop_last() =~= first + second.drop_last());
    }
}

/// Making an archive a second time changes nothing. A database that was let in has the current
/// version afterwards, so it is let in again, and then every table, column, index, named value
/// and the generation stays as it is, whatever generation would be drawn.
pub proof fn law_second_init_changes_nothing(
    db: Database,
    stored: Option<String>,
    drawn: Seq<char>,
    stored_again: Option<String>,
    drawn_again: Seq<char>,
)
    requires
        crate::write_lease::text_of(stored) == version_of(db),
        crate::plan::is_current(stored) || crate::plan::is_fresh(
            stored,
            db.tables.contains_key("message"@),
        ),
        crate::write_lease::text_of(stored_again) == version_of(
            after_steps(
                db,
                crate::plan::l1_steps(
                    crate::plan::is_fresh(stored, db.tables.contains_key("message"@)),
                ),
                drawn,
            ),
        ),
    ensures
        ({
            let fresh = crate::plan::is_fresh(stored, db.tables.contains_key("message"@));
            let once = after_steps(db, crate::plan::l1_steps(fresh), drawn);
            let has_message_table = once.tables.contains_key("message"@);
            &&& crate::plan::is_current(stored_again)
            &&& !crate::plan::is_fresh(stored_again, has_message_table)
            &&& after_steps(once, crate::plan::l1_steps(false), drawn_again) == once
        }),
{
    let fresh = crate::plan::is_fresh(stored, db.tables.contains_key("message"@));
    let first = crate::plan::first_steps(fresh);
    let steps = crate::plan::table_steps();
    let begun = after_steps(db, first, drawn);
    let once = after_steps(db, crate::plan::l1_steps(fresh), drawn);
    crate::plan::law_tables_come_first(fresh);
    lemma_steps_in_two_parts(db, first, steps, drawn);
    lemma_all_are_done(begun, steps, drawn, steps.len() as int);
    assert(steps.take(steps.len() as int) =~= steps);
    assert(once.registers == begun.registers);
    if fresh {
        assert(first.drop_last() =~= Seq::<Step>::empty());
        assert(begun == after_step(db, Step::StoreVersion, drawn));
        lemma_version_is_stored(db, drawn);
    } else {
        assert(begun == db);
    }
    lemma_done_steps_change_nothing(once, steps, drawn_again);
    assert(crate::plan::l1_steps(false) =~= steps);
}

/// An archive has the indexes of a bulk load with their definitions, whatever indexes the
/// database had before.
pub proof fn law_init_settles_the_indexes_of_a_load(
    db: Database,
    fresh: bool,
    drawn: Seq<char>,
    k: int,
)
    requires
        0 <= k < crate::index::ingest_rebuilt().len(),
    ensures
        crate::index::is_settled(
            after_steps(db, crate::plan::l1_steps(fresh), drawn).indexes,
            crate::index::ingest_rebuilt()[k],
        ),
{
    let first = crate::plan::first_steps(fresh);
    let steps = crate::plan::table_steps();
    let begun = after_steps(db, first, drawn);
    crate::plan::law_tables_come_first(fresh);
    lemma_steps_in_two_parts(db, first, steps, drawn);
    lemma_all_are_done(begun, steps, drawn, steps.len() as int);
    assert(steps.take(steps.len() as int) =~= steps);
    crate::plan::law_load_indexes_are_looked_at();
    let step = Step::Reconcile(crate::index::ingest_rebuilt()[k]);
    assert(steps.contains(step));
    let i = choose|i: int| 0 <= i < steps.len() && steps[i] == step;
    assert(is_done(after_steps(begun, steps, drawn), steps[i]));
}

/// A bulk load of an archive leaves its indexes as they were: after `init_l1_schema`, dropping
/// the indexes of the load and making them again gives the old indexes back.
pub proof fn law_load_leaves_the_indexes_of_an_archive(
    db: Database,
    fresh: bool,
    drawn: Seq<char>,
    name: Seq<char>,
)
    ensures
        ({
            let all = crate::index::ingest_rebuilt();
            let indexes = after_steps(db, crate::plan::l1_steps(fresh), drawn).indexes;
            let dropped = crate::index::after_dropping(indexes, all);
            let back = crate::index::after_reconciling_all(dropped, all);
            &&& crate::index::is_named(all, name) ==> indexes.contains_key(name)
                && !dropped.contains_key(name)
            &&& back.contains_key(name) <==> indexes.contains_key(name)
            &&& indexes.contains_key(name) ==> crate::index::normalized(back[name])
                == crate::index::normalized(indexes[name])
        }),
{
    let all = crate::index::ingest_rebuilt();
    let indexes = after_steps(db, crate::plan::l1_steps(fresh), drawn).indexes;
    assert forall|k: int| 0 <= k < all.len() implies crate::index::is_settled(
        indexes,
        #[trigger] all[k],
    ) by {
        law_init_settles_the_indexes_of_a_load(db, fresh, drawn, k);
    }
    crate::index::law_dropped_indexes_come_back(indexes);
    if crate::index::is_named(all, name) {
        let k = choose|k: int| 0 <= k < all.len() && (#[trigger] all[k]).name@ == name;
        assert(crate::index::is_settled(indexes, all[k]));
    }
}

proof fn lemma_version_is_stored(db: Database, drawn: Seq<char>)
    ensures
        version_of(after_step(db, Step::StoreVersion, drawn)) == Some(
            crate::meta::SCHEMA_VERSION@,
        ),
{
    let key = crate::meta::META_KEY_VERSION@;
    let other = key.push('x');
    assert(other.len() != key.len());
    crate::meta::law_value_reads_back(
        db.registers,
        key,
        crate::meta::SCHEMA_VERSION@,
        0,
        other,
    );
}

} // verus!
