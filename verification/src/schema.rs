//! Tables: their columns and keys, how they are made, and how a table of an older
//! layout gets the columns that it lacks.

use vstd::prelude::*;
use vstd::string::*;

use crate::sql::{join, owned, Row, Statement, Val};
use crate::text::{push_numeral, same_text};

verus! {

/// How a column is declared.
#[derive(Clone, Copy, Debug, PartialEq, Eq)]
pub enum Decl {
    Text,
    TextNotNull,
    /// A text that is this one where nothing else is said.
    TextDefault(&'static str),
    Integer,
    IntegerNotNull,
    /// An integer that is this one where nothing else is said.
    IntegerDefault(i64),
    Real,
    RealNotNull,
    Blob,
    /// An integer that numbers the rows as they come.
    RowNumber,
}

impl Decl {
    /// The declaration in SQL.
    pub open spec fn sql(self) -> Seq<char> {
        match self {
            Decl::Text => "TEXT"@,
            Decl::TextNotNull => "TEXT NOT NULL"@,
            Decl::TextDefault(t) => "TEXT NOT NULL DEFAULT '"@ + t@ + "'"@,
            Decl::Integer => "INTEGER"@,
            Decl::IntegerNotNull => "INTEGER NOT NULL"@,
            Decl::IntegerDefault(n) => "INTEGER NOT NULL DEFAULT "@ + crate::text::numeral(
                n as int,
            ),
            Decl::Real => "REAL"@,
            Decl::RealNotNull => "REAL NOT NULL"@,
            Decl::Blob => "BLOB"@,
            Decl::RowNumber => "INTEGER PRIMARY KEY AUTOINCREMENT"@,
        }
    }

    /// The rows that are there when a column is added have a value for it: it may be
    /// null, or it has a default.
    pub open spec fn fills_old_rows(self) -> bool {
        match self {
            Decl::Text => true,
            Decl::TextDefault(_) => true,
            Decl::Integer => true,
            Decl::IntegerDefault(_) => true,
            Decl::Real => true,
            Decl::Blob => true,
            _ => false,
        }
    }

    /// A column that is declared so takes a value.
    pub open spec fn takes(self, value: Val) -> bool {
        match self {
            Decl::Text => value is Text || value is Null,
            Decl::TextNotNull => value is Text,
            Decl::TextDefault(_) => value is Text,
            Decl::Integer => value is Integer || value is Null,
            Decl::IntegerNotNull => value is Integer,
            Decl::IntegerDefault(_) => value is Integer,
            Decl::Real => value is Real || value is Null,
            Decl::RealNotNull => value is Real,
            Decl::Blob => value is Blob || value is Null,
            Decl::RowNumber => value is Integer,
        }
    }

    /// The value that the rows that are there have in a column that is added.
    pub open spec fn value_in_old_rows(self) -> Val {
        match self {
            Decl::TextDefault(t) => Val::Text(t@),
            Decl::IntegerDefault(n) => Val::Integer(n as int),
            _ => Val::Null,
        }
    }

    fn push_sql(&self, out: &mut String)
        ensures
            final(out)@ == old(out)@ + self.sql(),
    {
        match self {
            Decl::Text => out.append("TEXT"),
            Decl::TextNotNull => out.append("TEXT NOT NULL"),
            Decl::TextDefault(t) => {
                out.append("TEXT NOT NULL DEFAULT '");
                out.append(t);
                out.append("'");
            },
            Decl::Integer => out.append("INTEGER"),
            Decl::IntegerNotNull => out.append("INTEGER NOT NULL"),
            Decl::IntegerDefault(n) => {
                out.append("INTEGER NOT NULL DEFAULT ");
                push_numeral(out, *n);
            },
            Decl::Real => out.append("REAL"),
            Decl::RealNotNull => out.append("REAL NOT NULL"),
            Decl::Blob => out.append("BLOB"),
            Decl::RowNumber => out.append("INTEGER PRIMARY KEY AUTOINCREMENT"),
        }
        assert(out@ =~= old(out)@ + self.sql());
    }
}

/// A column of a table.
#[derive(Clone, Copy, Debug, PartialEq, Eq)]
pub struct Column {
    pub name: &'static str,
    pub decl: Decl,
}

impl Column {
    /// The column in SQL.
    pub open spec fn sql(self) -> Seq<char> {
        self.name@ + " "@ + self.decl.sql()
    }

    fn push_sql(&self, out: &mut String)
        ensures
            final(out)@ == old(out)@ + self.sql(),
    {
        out.append(self.name);
        out.append(" ");
        self.decl.push_sql(out);
        assert(out@ =~= old(out)@ + self.sql());
    }
}

/// The columns by which a table tells its rows apart.
#[derive(Clone, Debug, PartialEq, Eq)]
pub struct TableKey {
    /// Whether they are the primary key; otherwise they are unique besides it.
    pub primary: bool,
    pub columns: Vec<&'static str>,
}

/// The names of columns.
pub open spec fn column_names(columns: Seq<Column>) -> Seq<Seq<char>> {
    columns.map_values(|c: Column| c.name@)
}

/// The SQL text that makes a table where it is not there.
pub open spec fn create_text(
    name: Seq<char>,
    columns: Seq<Column>,
    primary: bool,
    key: Seq<Seq<char>>,
) -> Seq<char> {
    "CREATE TABLE IF NOT EXISTS "@ + name + " ("@ + crate::sql::joined(
        columns.map_values(|c: Column| c.sql()),
        ", "@,
    ) + (if primary {
        ", PRIMARY KEY ("@
    } else {
        ", UNIQUE ("@
    }) + crate::sql::joined(key, ", "@) + "))"@
}

/// The statement that makes a table where it is not there.
pub fn create_table(name: &str, columns: &Vec<Column>, key: &TableKey) -> (statement: Statement)
    ensures
        statement.is_plain(
            create_text(name@, columns@, key.primary, crate::sql::literals(key.columns@)),
        ),
{
    let ghost texts = columns@.map_values(|c: Column| c.sql());
    let mut parts: Vec<String> = Vec::new();
    let mut i: usize = 0;
    while i < columns.len()
        invariant
            i <= columns@.len(),
            texts == columns@.map_values(|c: Column| c.sql()),
            crate::sql::strings(parts@) == texts.take(i as int),
        decreases columns@.len() - i,
    {
        let ghost before = crate::sql::strings(parts@);
        let mut part = String::new();
        columns[i].push_sql(&mut part);
        let ghost view = part@;
        assert(view =~= texts[i as int]);
        parts.push(part);
        assert(crate::sql::strings(parts@) =~= before.push(view));
        assert(texts.take(i + 1) =~= texts.take(i as int).push(view));
        i += 1;
    }
    assert(texts.take(i as int) =~= texts);
    let mut sql = "CREATE TABLE IF NOT EXISTS ".to_owned();
    sql.append(name);
    sql.append(" (");
    sql.append(join(&parts, ", ").as_str());
    if key.primary {
        sql.append(", PRIMARY KEY (");
    } else {
        sql.append(", UNIQUE (");
    }
    sql.append(join(&owned(&key.columns), ", ").as_str());
    sql.append("))");
    let statement = Statement { sql, params: Vec::new() };
    assert(statement.sql@ =~= create_text(
        name@,
        columns@,
        key.primary,
        crate::sql::literals(key.columns@),
    ));
    statement
}

/// The columns of `wanted` that a table with the columns `existing` lacks.
pub open spec fn missing(wanted: Seq<Column>, existing: Seq<Seq<char>>) -> Seq<Column> {
    wanted.filter(|c: Column| !existing.contains(c.name@))
}

/// The SQL text that adds a column to a table.
pub open spec fn add_text(table: Seq<char>, column: Column) -> Seq<char> {
    "ALTER TABLE "@ + table + " ADD COLUMN "@ + column.sql()
}

/// The statements add the columns to the table, one each.
pub open spec fn adds(statements: Seq<Statement>, table: Seq<char>, columns: Seq<Column>) -> bool {
    &&& statements.len() == columns.len()
    &&& forall|i: int|
        0 <= i < columns.len() ==> (#[trigger] statements[i]).is_plain(
            add_text(table, columns[i]),
        )
}

fn is_there(name: &str, existing: &Vec<String>) -> (there: bool)
    ensures
        there == crate::sql::strings(existing@).contains(name@),
{
    let mut i: usize = 0;
    while i < existing.len()
        invariant
            i <= existing@.len(),
            forall|j: int| 0 <= j < i ==> crate::sql::strings(existing@)[j] != name@,
        decreases existing@.len() - i,
    {
        if same_text(existing[i].as_str(), name) {
            assert(crate::sql::strings(existing@)[i as int] == name@);
            return true;
        }
        i += 1;
    }
    false
}

/// The statements that add to `table` those columns of `wanted` that it lacks, in the
/// order in which they are wanted. A table that has them all is left alone.
pub fn add_missing(table: &str, wanted: &Vec<Column>, existing: &Vec<String>) -> (statements: Vec<
    Statement,
>)
    ensures
        adds(statements@, table@, missing(wanted@, crate::sql::strings(existing@))),
{
    let ghost there = crate::sql::strings(existing@);
    let mut statements: Vec<Statement> = Vec::new();
    let mut i: usize = 0;
    reveal(Seq::filter);
    while i < wanted.len()
        invariant
            i <= wanted@.len(),
            there == crate::sql::strings(existing@),
            adds(statements@, table@, missing(wanted@.take(i as int), there)),
        decreases wanted@.len() - i,
    {
        proof {
            reveal(Seq::filter);
            assert(wanted@.take(i + 1).drop_last() =~= wanted@.take(i as int));
        }
        if !is_there(wanted[i].name, existing) {
            let mut sql = "ALTER TABLE ".to_owned();
            sql.append(table);
            sql.append(" ADD COLUMN ");
            wanted[i].push_sql(&mut sql);
            assert(sql@ =~= add_text(table@, wanted@[i as int]));
            statements.push(Statement { sql, params: Vec::new() });
        }
        i += 1;
    }
    assert(wanted@.take(i as int) =~= wanted@);
    statements
}

/// How many columns a migration has added, from the numbers of columns before and
/// after.
pub fn columns_added(before: usize, after: usize) -> (added: usize)
    ensures
        added == if after >= before {
            after - before
        } else {
            0
        },
{
    if after >= before {
        after - before
    } else {
        0
    }
}

/// Whether a migration is worth a note: it has added something.
pub fn note_migration(added: usize) -> (note: bool)
    ensures
        note == (added > 0),
{
    added > 0
}

/// The columns of a table after the missing ones were added.
pub open spec fn after_adding(wanted: Seq<Column>, existing: Seq<Seq<char>>) -> Seq<Seq<char>> {
    existing + column_names(missing(wanted, existing))
}

proof fn lemma_missing(wanted: Seq<Column>, existing: Seq<Seq<char>>, i: int)
    requires
        0 <= i < wanted.len(),
    ensures
        after_adding(wanted, existing).contains(wanted[i].name@),
{
    let lacks = |c: Column| !existing.contains(c.name@);
    let added = wanted.filter(lacks);
    let all = after_adding(wanted, existing);
    if existing.contains(wanted[i].name@) {
        let j = choose|j: int| 0 <= j < existing.len() && existing[j] == wanted[i].name@;
        assert(all[j] == wanted[i].name@);
    } else {
        assert(lacks(wanted[i]));
        wanted.lemma_filter_contains(lacks, i);
        let j = choose|j: int| 0 <= j < added.len() && added[j] == wanted[i];
        assert(all[existing.len() + j] == wanted[i].name@);
    }
}

/// An old table is completed: where a table has every column but some of those that can
/// be added, it has every column after the missing ones were added.
pub proof fn law_migration_completes_a_table(
    columns: Seq<Column>,
    wanted: Seq<Column>,
    existing: Seq<Seq<char>>,
)
    requires
        forall|i: int|
            0 <= i < columns.len() ==> existing.contains((#[trigger] columns[i]).name@)
                || column_names(wanted).contains(columns[i].name@),
    ensures
        forall|i: int|
            0 <= i < columns.len() ==> after_adding(wanted, existing).contains(
                (#[trigger] columns[i]).name@,
            ),
{
    assert forall|i: int| 0 <= i < columns.len() implies after_adding(wanted, existing).contains(
        (#[trigger] columns[i]).name@,
    ) by {
        let name = columns[i].name@;
        if existing.contains(name) {
            let j = choose|j: int| 0 <= j < existing.len() && existing[j] == name;
            assert(after_adding(wanted, existing)[j] == name);
        } else {
            let names = column_names(wanted);
            let j = choose|j: int| 0 <= j < names.len() && names[j] == name;
            lemma_missing(wanted, existing, j);
        }
    }
}

/// A migration happens once: after the missing columns were added, none is missing.
pub proof fn law_migration_is_idempotent(wanted: Seq<Column>, existing: Seq<Seq<char>>)
    ensures
        missing(wanted, after_adding(wanted, existing)).len() == 0,
{
    let all = after_adding(wanted, existing);
    let lacks = |c: Column| !all.contains(c.name@);
    let left = wanted.filter(lacks);
    if left.len() > 0 {
        wanted.lemma_filter_pred(lacks, 0);
        let i = lemma_filter_source(wanted, lacks, 0);
        lemma_missing(wanted, existing, i);
    }
}

proof fn lemma_filter_source<A>(s: Seq<A>, keep: spec_fn(A) -> bool, k: int) -> (i: int)
    requires
        0 <= k < s.filter(keep).len(),
    ensures
        0 <= i < s.len(),
        s[i] == s.filter(keep)[k],
    decreases s.len(),
{
    reveal(Seq::filter);
    if s.len() == 0 {
        0
    } else {
        let head = s.drop_last();
        if k < head.filter(keep).len() {
            lemma_filter_source(head, keep, k)
        } else {
            s.len() - 1
        }
    }
}

/// A migration leaves what is there: it adds no column that the table has, and takes
/// none away.
pub proof fn law_migration_keeps_what_is_there(
    wanted: Seq<Column>,
    existing: Seq<Seq<char>>,
    k: int,
)
    requires
        0 <= k < missing(wanted, existing).len(),
    ensures
        !existing.contains(missing(wanted, existing)[k].name@),
        after_adding(wanted, existing).take(existing.len() as int) == existing,
{
    let lacks = |c: Column| !existing.contains(c.name@);
    wanted.lemma_filter_pred(lacks, k);
    assert(after_adding(wanted, existing).take(existing.len() as int) =~= existing);
}

/// Columns with the values that old rows have in them.
pub open spec fn filled(columns: Seq<Column>) -> Row {
    columns.map_values(|c: Column| (c.name@, c.decl.value_in_old_rows()))
}

/// A row of a table after the missing columns were added.
pub open spec fn row_after_adding(wanted: Seq<Column>, row: Row) -> Row {
    row + filled(missing(wanted, crate::sql::names(row)))
}

proof fn lemma_column_of_both(first: Row, second: Row, name: Seq<char>)
    ensures
        crate::relation::column(first + second, name) == if crate::sql::names(first).contains(
            name,
        ) {
            crate::relation::column(first, name)
        } else {
            crate::relation::column(second, name)
        },
        crate::sql::names(first + second) == crate::sql::names(first) + crate::sql::names(second),
    decreases first.len(),
{
    let all = crate::sql::names(first);
    assert(crate::sql::names(first + second) =~= all + crate::sql::names(second));
    if first.len() == 0 {
        assert(first + second =~= second);
    } else {
        let rest = first.skip(1);
        let behind = crate::sql::names(rest);
        lemma_column_of_both(rest, second, name);
        assert((first + second).skip(1) =~= rest + second);
        assert(all[0] == first[0].0);
        if behind.contains(name) {
            let i = choose|i: int| 0 <= i < behind.len() && behind[i] == name;
            assert(all[i + 1] == name);
        }
        if all.contains(name) && first[0].0 != name {
            let i = choose|i: int| 0 <= i < all.len() && all[i] == name;
            assert(behind[i - 1] == name);
        }
    }
}

proof fn lemma_missing_values(wanted: Seq<Column>, existing: Seq<Seq<char>>, name: Seq<char>)
    requires
        !existing.contains(name),
    ensures
        crate::relation::column(filled(missing(wanted, existing)), name)
            == crate::relation::column(filled(wanted), name),
        crate::sql::names(filled(missing(wanted, existing))).contains(name) == crate::sql::names(
            filled(wanted),
        ).contains(name),
    decreases wanted.len(),
{
    reveal(Seq::filter);
    if wanted.len() > 0 {
        let head = wanted.drop_last();
        let last = seq![wanted.last()];
        lemma_missing_values(head, existing, name);
        lemma_column_of_both(filled(head), filled(last), name);
        assert(filled(wanted) =~= filled(head) + filled(last));
        assert(crate::sql::names(filled(last)) =~= seq![wanted.last().name@]);
        let before = filled(missing(head, existing));
        if !existing.contains(wanted.last().name@) {
            lemma_column_of_both(before, filled(last), name);
            assert(filled(missing(wanted, existing)) =~= before + filled(last));
            lemma_contains_of_both(crate::sql::names(before), wanted.last().name@, name);
            assert(crate::sql::names(before) + seq![wanted.last().name@] =~= crate::sql::names(
                before,
            ).push(wanted.last().name@));
        } else {
            assert(filled(last)[0].0 != name);
            reveal_with_fuel(crate::relation::column, 2);
        }
        lemma_contains_of_both(crate::sql::names(filled(head)), wanted.last().name@, name);
        assert(crate::sql::names(filled(head)) + seq![wanted.last().name@] =~= crate::sql::names(
            filled(head),
        ).push(wanted.last().name@));
        if !crate::sql::names(filled(head)).contains(name) {
            lemma_absent_column(filled(head), name);
            lemma_absent_column(before, name);
        }
    }
}

proof fn lemma_contains_of_both(first: Seq<Seq<char>>, last: Seq<char>, name: Seq<char>)
    ensures
        first.push(last).contains(name) == (first.contains(name) || last == name),
{
    if first.contains(name) {
        let i = choose|i: int| 0 <= i < first.len() && first[i] == name;
        assert(first.push(last)[i] == name);
    }
    assert(first.push(last)[first.len() as int] == last);
}

proof fn lemma_absent_column(row: Row, name: Seq<char>)
    requires
        !crate::sql::names(row).contains(name),
    ensures
        crate::relation::column(row, name) == Val::Null,
    decreases row.len(),
{
    if row.len() > 0 {
        let rest = row.skip(1);
        assert(crate::sql::names(row)[0] == row[0].0);
        if crate::sql::names(rest).contains(name) {
            let i = choose|i: int|
                0 <= i < rest.len() && crate::sql::names(rest)[i] == name;
            assert(crate::sql::names(row)[i + 1] == name);
        }
        lemma_absent_column(rest, name);
    }
}

/// A migration keeps the rows: a row has every column that the table has afterwards, its old
/// columns keep their values, and a column that was added holds its default, or null without
/// one.
pub proof fn law_migration_keeps_the_rows(wanted: Seq<Column>, row: Row, name: Seq<char>)
    ensures
        crate::sql::names(row_after_adding(wanted, row)) == after_adding(
            wanted,
            crate::sql::names(row),
        ),
        crate::relation::column(row_after_adding(wanted, row), name) == if crate::sql::names(
            row,
        ).contains(name) {
            crate::relation::column(row, name)
        } else {
            crate::relation::column(filled(wanted), name)
        },
{
    let existing = crate::sql::names(row);
    let added = missing(wanted, existing);
    lemma_column_of_both(row, filled(added), name);
    assert(crate::sql::names(filled(added)) =~= column_names(added));
    if !existing.contains(name) {
        lemma_missing_values(wanted, existing, name);
    }
}

/// A column that old rows can be given holds its default in them, and null only where it may be
/// null.
pub proof fn law_added_columns_are_filled(wanted: Seq<Column>, row: Row, i: int)
    requires
        0 <= i < wanted.len(),
        forall|j: int| 0 <= j < i ==> (#[trigger] wanted[j]).name@ != wanted[i].name@,
        !crate::sql::names(row).contains(wanted[i].name@),
        wanted[i].decl.fills_old_rows(),
    ensures
        crate::relation::column(row_after_adding(wanted, row), wanted[i].name@)
            == wanted[i].decl.value_in_old_rows(),
        wanted[i].decl.value_in_old_rows() is Null ==> {
            ||| wanted[i].decl is Text
            ||| wanted[i].decl is Integer
            ||| wanted[i].decl is Real
            ||| wanted[i].decl is Blob
        },
{
    let row_of_defaults = filled(wanted);
    law_migration_keeps_the_rows(wanted, row, wanted[i].name@);
    assert forall|j: int| 0 <= j < i implies (#[trigger] row_of_defaults[j]).0
        != row_of_defaults[i].0 by {
        assert(wanted[j].name@ != wanted[i].name@);
    }
    crate::relation::lemma_column_at(row_of_defaults, i);
}

/// The statement adds the column to the table, under its name and as it is declared.
pub open spec fn adds_column(statement: Statement, table: Seq<char>, column: Column) -> bool {
    statement.is_plain(
        "ALTER TABLE "@ + table + " ADD COLUMN "@ + column.name@ + " "@ + column.decl.sql(),
    )
}

/// A table is given exactly the columns that it lacks: a column that is wanted is added if no
/// column of its name is there, and every statement adds such a column, as it is declared.
pub proof fn law_only_missing_columns_are_added(
    table: &str,
    wanted: &Vec<Column>,
    existing: &Vec<String>,
    statements: Vec<Statement>,
    k: int,
)
    requires
        call_ensures(add_missing, (table, wanted, existing), statements),
    ensures
        forall|i: int|
            0 <= i < wanted@.len() && !crate::sql::strings(existing@).contains(
                (#[trigger] wanted@[i]).name@,
            ) ==> exists|n: int|
                0 <= n < statements@.len() && adds_column(#[trigger] statements@[n], table@, wanted@[i]),
        0 <= k < statements@.len() ==> exists|i: int|
            {
                &&& 0 <= i < wanted@.len()
                &&& !crate::sql::strings(existing@).contains((#[trigger] wanted@[i]).name@)
                &&& adds_column(statements@[k], table@, wanted@[i])
            },
{
    let there = crate::sql::strings(existing@);
    let lacks = |c: Column| !there.contains(c.name@);
    let added = wanted@.filter(lacks);
    assert forall|n: int| 0 <= n < added.len() implies adds_column(
        #[trigger] statements@[n],
        table@,
        added[n],
    ) by {
        let column = added[n];
        assert(statements@[n].is_plain(add_text(table@, column)));
        assert(add_text(table@, column) =~= "ALTER TABLE "@ + table@ + " ADD COLUMN "@
            + column.name@ + " "@ + column.decl.sql());
    }
    assert forall|i: int| 0 <= i < wanted@.len() && !there.contains(
        (#[trigger] wanted@[i]).name@,
    ) implies exists|n: int|
        0 <= n < statements@.len() && adds_column(#[trigger] statements@[n], table@, wanted@[i]) by {
        assert(lacks(wanted@[i]));
        wanted@.lemma_filter_contains(lacks, i);
        let n = choose|n: int| 0 <= n < added.len() && added[n] == wanted@[i];
        assert(adds_column(statements@[n], table@, added[n]));
    }
    if 0 <= k < statements@.len() {
        assert(k < added.len());
        wanted@.lemma_filter_pred(lacks, k);
        let i = lemma_filter_source(wanted@, lacks, k);
        assert(lacks(wanted@[i]));
        assert(adds_column(statements@[k], table@, wanted@[i]));
    }
}

/// What is declared of a column is what it takes: null is ruled out by `NOT NULL`, and the type
/// and the default are those of the declaration.
pub proof fn law_declarations_say_what_they_mean(decl: Decl)
    requires
        decl !is RowNumber,
    ensures
        !decl.takes(Val::Null) <==> {
            ||| decl.sql() == "TEXT NOT NULL"@
            ||| decl.sql() == "INTEGER NOT NULL"@
            ||| decl.sql() == "REAL NOT NULL"@
            ||| decl is TextDefault
            ||| decl is IntegerDefault
        },
        decl matches Decl::TextDefault(t) ==> decl.sql() == "TEXT NOT NULL DEFAULT '"@ + t@ + "'"@,
        decl matches Decl::IntegerDefault(n) ==> decl.sql() == "INTEGER NOT NULL DEFAULT "@
            + crate::text::numeral(n as int),
        decl.takes(Val::Text(Seq::empty())) ==> decl.sql()[0] == 'T',
        decl.takes(Val::Integer(0)) ==> decl.sql()[0] == 'I',
        decl.takes(Val::Real(0)) ==> decl.sql()[0] == 'R',
        decl.takes(Val::Blob(Seq::empty())) ==> decl.sql()[0] == 'B',
        decl.fills_old_rows() <==> decl.takes(decl.value_in_old_rows()),
{
    reveal_strlit("TEXT");
    reveal_strlit("TEXT NOT NULL");
    reveal_strlit("TEXT NOT NULL DEFAULT '");
    reveal_strlit("INTEGER");
    reveal_strlit("INTEGER NOT NULL");
    reveal_strlit("INTEGER NOT NULL DEFAULT ");
    reveal_strlit("REAL");
    reveal_strlit("REAL NOT NULL");
    reveal_strlit("BLOB");
    assert("TEXT"@.len() == 4 && "INTEGER"@.len() == 7 && "REAL"@.len() == 4 && "BLOB"@.len() == 4);
    assert("TEXT NOT NULL"@.len() == 13 && "INTEGER NOT NULL"@.len() == 16);
    assert("REAL NOT NULL"@.len() == 13);
}

/// A migration is noted exactly if the table has more columns than before.
pub proof fn law_growth_is_noted(before: usize, after: usize, added: usize, note: bool)
    requires
        call_ensures(columns_added, (before, after), added),
        call_ensures(note_migration, (added,), note),
    ensures
        after >= before ==> before + added == after,
        note <==> after > before,
{
}

/// A table is made with all of its columns, each under its name and as it is declared, and with
/// its key.
pub proof fn law_table_is_made_with_its_columns(
    name: &str,
    columns: &Vec<Column>,
    key: &TableKey,
    statement: Statement,
)
    requires
        call_ensures(create_table, (name, columns, key), statement),
    ensures
        exists|parts: Seq<Seq<char>>|
            {
                &&& statement.sql@ == "CREATE TABLE IF NOT EXISTS "@ + name@ + " ("@
                    + #[trigger] crate::sql::joined(parts, ", "@) + if key.primary {
                    ", PRIMARY KEY ("@
                } else {
                    ", UNIQUE ("@
                } + crate::sql::joined(crate::sql::literals(key.columns@), ", "@) + "))"@
                &&& parts.len() == columns@.len()
                &&& forall|i: int|
                    0 <= i < parts.len() ==> #[trigger] parts[i] == columns@[i].name@ + " "@
                        + columns@[i].decl.sql()
            },
        statement.params@.len() == 0,
{
    let parts = columns@.map_values(|c: Column| c.sql());
    assert(statement.sql@ =~= "CREATE TABLE IF NOT EXISTS "@ + name@ + " ("@ + crate::sql::joined(
        parts,
        ", "@,
    ) + if key.primary {
        ", PRIMARY KEY ("@
    } else {
        ", UNIQUE ("@
    } + crate::sql::joined(crate::sql::literals(key.columns@), ", "@) + "))"@);
    assert forall|i: int| 0 <= i < parts.len() implies #[trigger] parts[i] == columns@[i].name@
        + " "@ + columns@[i].decl.sql() by {
        assert(parts[i] =~= columns@[i].name@ + " "@ + columns@[i].decl.sql());
    }
}

} // verus!
