//! Statements: SQL text with its parameters, and what each statement does to the
//! rows of a table.

use vstd::prelude::*;
use vstd::string::*;

use crate::text::{push_count, same_text};

verus! {

/// A floating-point number, carried by its IEEE 754 bits.
#[derive(Clone, Copy, Debug, PartialEq, Eq)]
pub struct Real {
    pub bits: u64,
}

/// A value of a column.
#[derive(Clone, Debug, PartialEq, Eq)]
pub enum SqlValue {
    Null,
    Integer(i64),
    Real(Real),
    Text(String),
    Blob(Vec<u8>),
}

/// The model of a value.
pub enum Val {
    Null,
    Integer(int),
    Real(u64),
    Text(Seq<char>),
    Blob(Seq<u8>),
}

impl View for SqlValue {
    type V = Val;

    open spec fn view(&self) -> Val {
        match self {
            SqlValue::Null => Val::Null,
            SqlValue::Integer(i) => Val::Integer(*i as int),
            SqlValue::Real(r) => Val::Real(r.bits),
            SqlValue::Text(t) => Val::Text(t@),
            SqlValue::Blob(b) => Val::Blob(b@),
        }
    }
}

/// The model of a row: its columns with their values.
pub type Row = Seq<(Seq<char>, Val)>;

/// A nullable text as a value.
pub open spec fn nullable_text(text: Option<String>) -> Val {
    match text {
        Some(t) => Val::Text(t@),
        None => Val::Null,
    }
}

/// A nullable integer as a value.
pub open spec fn nullable_integer(number: Option<i64>) -> Val {
    match number {
        Some(n) => Val::Integer(n as int),
        None => Val::Null,
    }
}

/// A nullable floating-point number as a value.
pub open spec fn nullable_real(number: Option<Real>) -> Val {
    match number {
        Some(r) => Val::Real(r.bits),
        None => Val::Null,
    }
}

/// A flag as a value: 1 or 0.
pub open spec fn flag(is: bool) -> Val {
    Val::Integer(if is {
        1
    } else {
        0
    })
}

/// How a test compares a column with a value.
#[derive(Clone, Copy, Debug, PartialEq, Eq)]
pub enum Op {
    /// The column equals the value.
    Is,
    /// The column differs from the value.
    IsNot,
    /// The column lies below the value.
    Below,
    /// The column lies above the value.
    Above,
    /// The column equals the value, or the value is null.
    IsIfGiven,
}

/// The model of one test of a `WHERE` clause.
pub struct Test {
    pub column: Seq<char>,
    pub op: Op,
    pub value: Val,
}

/// What a statement does.
pub enum Effect {
    /// Puts a row in, in place of the row with the same key.
    Replace { table: Seq<char>, row: Row },
    /// Puts a row in, unless a row with the same key is there. The table numbers its rows: the
    /// row gets a number besides its own columns.
    Ignore { table: Seq<char>, row: Row },
    /// Puts a row in, or sets all columns of the row with the same key to its values.
    Merge { table: Seq<char>, key: Seq<Seq<char>>, row: Row },
    /// Sets columns of the rows that pass the tests.
    Update { table: Seq<char>, set: Row, tests: Seq<Test> },
    /// Takes out the rows that pass the tests.
    Delete { table: Seq<char>, tests: Seq<Test> },
    /// Takes out rows that pass the tests, at most a given number of them, named by
    /// their id column.
    DeleteSome { table: Seq<char>, id: Seq<char>, tests: Seq<Test>, limit: int },
    /// Reads columns of the rows that pass the tests.
    Select { table: Seq<char>, columns: Seq<Seq<char>>, tests: Seq<Test>, tail: Tail },
}

/// What follows the tests of a query.
pub enum Tail {
    /// All rows, in no stated order.
    All,
    /// All rows, in ascending order of a column.
    Ascending { column: Seq<char> },
    /// The first rows in ascending order of a column.
    FirstAscending { column: Seq<char>, limit: int },
}

/// The names of a row's columns.
pub open spec fn names(row: Row) -> Seq<Seq<char>> {
    row.map_values(|b: (Seq<char>, Val)| b.0)
}

/// The values of a row.
pub open spec fn values(row: Row) -> Seq<Val> {
    row.map_values(|b: (Seq<char>, Val)| b.1)
}

/// Texts with a separator between them.
pub open spec fn joined(parts: Seq<Seq<char>>, separator: Seq<char>) -> Seq<char>
    decreases parts.len(),
{
    if parts.len() == 0 {
        Seq::empty()
    } else if parts.len() == 1 {
        parts[0]
    } else {
        joined(parts.drop_last(), separator) + separator + parts.last()
    }
}

/// The parameter with a number, as SQL names it.
pub open spec fn placeholder(number: int) -> Seq<char> {
    "?"@ + crate::text::numeral(number)
}

/// The parameters from `first` on, as many as `count`.
pub open spec fn placeholders(first: int, count: nat) -> Seq<Seq<char>> {
    Seq::new(count, |i: int| placeholder(first + i))
}

/// The text of a test against a parameter.
pub open spec fn test_text(test: Test, number: int) -> Seq<char> {
    match test.op {
        Op::Is => test.column + " = "@ + placeholder(number),
        Op::IsNot => test.column + " <> "@ + placeholder(number),
        Op::Below => test.column + " < "@ + placeholder(number),
        Op::Above => test.column + " > "@ + placeholder(number),
        Op::IsIfGiven => "("@ + placeholder(number) + " IS NULL OR "@ + test.column + " = "@
            + placeholder(number) + ")"@,
    }
}

/// The texts of tests against the parameters from `first` on.
pub open spec fn test_texts(tests: Seq<Test>, first: int) -> Seq<Seq<char>> {
    Seq::new(tests.len(), |i: int| test_text(tests[i], first + i))
}

/// The values that tests compare with.
pub open spec fn test_values(tests: Seq<Test>) -> Seq<Val> {
    tests.map_values(|t: Test| t.value)
}

/// A `WHERE` clause, empty without tests.
pub open spec fn where_text(tests: Seq<Test>, first: int) -> Seq<char> {
    if tests.len() == 0 {
        Seq::empty()
    } else {
        " WHERE "@ + joined(test_texts(tests, first), " AND "@)
    }
}

/// The texts that set columns to the parameters from the first on.
pub open spec fn set_texts(row: Row) -> Seq<Seq<char>> {
    Seq::new(row.len(), |i: int| row[i].0 + " = "@ + placeholder(1 + i))
}

/// The texts that set columns to what an insert that met a row would have put there.
pub open spec fn excluded_texts(columns: Seq<Seq<char>>) -> Seq<Seq<char>> {
    columns.map_values(|c: Seq<char>| c + " = excluded."@ + c)
}

/// The columns of `row` outside `key`.
pub open spec fn outside_key(columns: Seq<Seq<char>>, key: Seq<Seq<char>>) -> Seq<Seq<char>> {
    columns.filter(|c: Seq<char>| !key.contains(c))
}

/// The columns and the parameters of an insert.
pub open spec fn insert_text(table: Seq<char>, row: Row) -> Seq<char> {
    " INTO "@ + table + " ("@ + joined(names(row), ", "@) + ") VALUES ("@ + joined(
        placeholders(1, row.len()),
        ", "@,
    ) + ")"@
}

impl Effect {
    /// The SQL text of the statement.
    pub open spec fn sql(self) -> Seq<char> {
        match self {
            Effect::Replace { table, row } => "INSERT OR REPLACE"@ + insert_text(table, row),
            Effect::Ignore { table, row } => "INSERT OR IGNORE"@ + insert_text(table, row),
            Effect::Merge { table, key, row } => "INSERT"@ + insert_text(table, row)
                + " ON CONFLICT("@ + joined(key, ", "@) + ") DO UPDATE SET "@ + joined(
                excluded_texts(outside_key(names(row), key)),
                ", "@,
            ),
            Effect::Update { table, set, tests } => "UPDATE "@ + table + " SET "@ + joined(
                set_texts(set),
                ", "@,
            ) + where_text(tests, set.len() as int + 1),
            Effect::Delete { table, tests } => "DELETE FROM "@ + table + where_text(tests, 1),
            Effect::DeleteSome { table, id, tests, limit } => "DELETE FROM "@ + table
                + " WHERE "@ + id + " IN (SELECT "@ + id + " FROM "@ + table + where_text(
                tests,
                1,
            ) + " LIMIT "@ + placeholder(tests.len() as int + 1) + ")"@,
            Effect::Select { table, columns, tests, tail } => "SELECT "@ + joined(columns, ", "@)
                + " FROM "@ + table + where_text(tests, 1) + match tail {
                Tail::All => Seq::empty(),
                Tail::Ascending { column } => " ORDER BY "@ + column + " ASC"@,
                Tail::FirstAscending { column, limit } => " ORDER BY "@ + column
                    + " ASC LIMIT "@ + placeholder(tests.len() as int + 1),
            },
        }
    }

    /// The parameters of the statement.
    pub open spec fn values(self) -> Seq<Val> {
        match self {
            Effect::Replace { table, row } => values(row),
            Effect::Ignore { table, row } => values(row),
            Effect::Merge { table, key, row } => values(row),
            Effect::Update { table, set, tests } => values(set) + test_values(tests),
            Effect::Delete { table, tests } => test_values(tests),
            Effect::DeleteSome { table, id, tests, limit } => test_values(tests).push(
                Val::Integer(limit),
            ),
            Effect::Select { table, columns, tests, tail } => match tail {
                Tail::FirstAscending { column, limit } => test_values(tests).push(
                    Val::Integer(limit),
                ),
                _ => test_values(tests),
            },
        }
    }
}

/// A statement to run: its text and its parameters.
#[derive(Clone, Debug, PartialEq, Eq)]
pub struct Statement {
    pub sql: String,
    pub params: Vec<SqlValue>,
}

impl Statement {
    /// The parameters.
    pub open spec fn values(self) -> Seq<Val> {
        self.params@.map_values(|v: SqlValue| v@)
    }

    /// The statement does `effect`: it has its text and its parameters.
    pub open spec fn does(self, effect: Effect) -> bool {
        &&& self.sql@ == effect.sql()
        &&& self.values() == effect.values()
    }

    /// The statement is `sql`, without parameters.
    pub open spec fn is_plain(self, sql: Seq<char>) -> bool {
        &&& self.sql@ == sql
        &&& self.params@.len() == 0
    }

    /// A statement without parameters.
    pub fn plain(sql: &str) -> (statement: Statement)
        ensures
            statement.is_plain(sql@),
    {
        Statement { sql: sql.to_owned(), params: Vec::new() }
    }
}

/// The texts of owned strings.
pub open spec fn strings(parts: Seq<String>) -> Seq<Seq<char>> {
    parts.map_values(|s: String| s@)
}

/// The texts of borrowed strings.
pub open spec fn literals(parts: Seq<&'static str>) -> Seq<Seq<char>> {
    parts.map_values(|s: &'static str| s@)
}

proof fn lemma_joined_step(parts: Seq<Seq<char>>, separator: Seq<char>, i: int)
    requires
        0 < i < parts.len(),
    ensures
        joined(parts.take(i + 1), separator) == joined(parts.take(i), separator) + separator
            + parts[i],
{
    assert(parts.take(i + 1).drop_last() =~= parts.take(i));
}

fn push_joined(out: &mut String, parts: &Vec<String>, separator: &str)
    ensures
        final(out)@ == old(out)@ + joined(strings(parts@), separator@),
{
    let ghost start = out@;
    let ghost all = strings(parts@);
    let mut i: usize = 0;
    assert(out@ =~= start + joined(all.take(0), separator@));
    while i < parts.len()
        invariant
            i <= parts@.len(),
            all == strings(parts@),
            out@ == start + joined(all.take(i as int), separator@),
        decreases parts@.len() - i,
    {
        if i > 0 {
            out.append(separator);
            proof {
                lemma_joined_step(all, separator@, i as int);
            }
        }
        out.append(parts[i].as_str());
        assert(out@ =~= start + joined(all.take(i + 1), separator@));
        i += 1;
    }
    assert(all.take(i as int) =~= all);
}

/// Texts with a separator between them.
pub fn join(parts: &Vec<String>, separator: &str) -> (text: String)
    ensures
        text@ == joined(strings(parts@), separator@),
{
    let mut text = String::new();
    push_joined(&mut text, parts, separator);
    assert(text@ =~= joined(strings(parts@), separator@));
    text
}

/// Literal texts as owned strings.
pub fn owned(parts: &Vec<&'static str>) -> (all: Vec<String>)
    ensures
        strings(all@) == literals(parts@),
{
    let mut all: Vec<String> = Vec::new();
    let mut i: usize = 0;
    while i < parts.len()
        invariant
            i <= parts@.len(),
            strings(all@) == literals(parts@.take(i as int)),
        decreases parts@.len() - i,
    {
        let ghost before = all@;
        let part = parts[i].to_owned();
        all.push(part);
        assert(strings(all@) =~= strings(before).push(parts@[i as int]@));
        assert(literals(parts@.take(i + 1)) =~= literals(parts@.take(i as int)).push(
            parts@[i as int]@,
        ));
        i += 1;
    }
    assert(parts@.take(i as int) =~= parts@);
    all
}

fn push_placeholder(out: &mut String, number: usize)
    ensures
        final(out)@ == old(out)@ + placeholder(number as int),
{
    out.append("?");
    push_count(out, number);
    assert(out@ =~= old(out)@ + placeholder(number as int));
}

/// A row that is being made, column by column.
pub struct RowBuilder {
    columns: Vec<String>,
    values: Vec<SqlValue>,
}

impl View for RowBuilder {
    type V = Row;

    closed spec fn view(&self) -> Row {
        Seq::new(
            self.columns@.len(),
            |i: int| (self.columns@[i]@, self.values@[i]@),
        )
    }
}

impl RowBuilder {
    /// As many values as columns.
    pub closed spec fn wf(&self) -> bool {
        self.columns@.len() == self.values@.len()
    }

    /// A row without columns.
    pub fn new() -> (row: RowBuilder)
        ensures
            row.wf(),
            row@ == Seq::<(Seq<char>, Val)>::empty(),
    {
        let row = RowBuilder { columns: Vec::new(), values: Vec::new() };
        assert(row@ =~= Seq::<(Seq<char>, Val)>::empty());
        row
    }

    /// Adds a column.
    pub fn value(&mut self, column: &str, value: SqlValue)
        requires
            old(self).wf(),
        ensures
            final(self).wf(),
            final(self)@ == old(self)@.push((column@, value@)),
    {
        let ghost before = self@;
        let ghost view = value@;
        self.columns.push(column.to_owned());
        self.values.push(value);
        assert(self@ =~= before.push((column@, view)));
    }

    /// Adds a text column.
    pub fn text(&mut self, column: &str, text: &str)
        requires
            old(self).wf(),
        ensures
            final(self).wf(),
            final(self)@ == old(self)@.push((column@, Val::Text(text@))),
    {
        self.value(column, SqlValue::Text(text.to_owned()));
    }

    /// Adds a nullable text column.
    pub fn nullable_text(&mut self, column: &str, text: &Option<String>)
        requires
            old(self).wf(),
        ensures
            final(self).wf(),
            final(self)@ == old(self)@.push((column@, nullable_text(*text))),
    {
        match text {
            Some(t) => self.value(column, SqlValue::Text(t.clone())),
            None => self.value(column, SqlValue::Null),
        }
    }

    /// Adds an integer column.
    pub fn integer(&mut self, column: &str, number: i64)
        requires
            old(self).wf(),
        ensures
            final(self).wf(),
            final(self)@ == old(self)@.push((column@, Val::Integer(number as int))),
    {
        self.value(column, SqlValue::Integer(number));
    }

    /// Adds a nullable integer column.
    pub fn nullable_integer(&mut self, column: &str, number: Option<i64>)
        requires
            old(self).wf(),
        ensures
            final(self).wf(),
            final(self)@ == old(self)@.push((column@, nullable_integer(number))),
    {
        match number {
            Some(n) => self.value(column, SqlValue::Integer(n)),
            None => self.value(column, SqlValue::Null),
        }
    }

    /// Adds a column with a flag, stored as 1 or 0.
    pub fn flag(&mut self, column: &str, is: bool)
        requires
            old(self).wf(),
        ensures
            final(self).wf(),
            final(self)@ == old(self)@.push((column@, flag(is))),
    {
        let number: i64 = if is {
            1
        } else {
            0
        };
        self.value(column, SqlValue::Integer(number));
    }

    /// Adds a floating-point column.
    pub fn float(&mut self, column: &str, number: Real)
        requires
            old(self).wf(),
        ensures
            final(self).wf(),
            final(self)@ == old(self)@.push((column@, Val::Real(number.bits))),
    {
        self.value(column, SqlValue::Real(number));
    }

    /// Adds a nullable floating-point column.
    pub fn nullable_float(&mut self, column: &str, number: Option<Real>)
        requires
            old(self).wf(),
        ensures
            final(self).wf(),
            final(self)@ == old(self)@.push((column@, nullable_real(number))),
    {
        match number {
            Some(r) => self.value(column, SqlValue::Real(r)),
            None => self.value(column, SqlValue::Null),
        }
    }

    /// Adds a column of bytes.
    pub fn blob(&mut self, column: &str, bytes: &Vec<u8>)
        requires
            old(self).wf(),
        ensures
            final(self).wf(),
            final(self)@ == old(self)@.push((column@, Val::Blob(bytes@))),
    {
        let copy = bytes.clone();
        assert(copy@ =~= bytes@);
        self.value(column, SqlValue::Blob(copy));
    }

    /// Adds the columns of another row.
    pub fn append(&mut self, other: RowBuilder)
        requires
            old(self).wf(),
            other.wf(),
        ensures
            final(self).wf(),
            final(self)@ == old(self)@ + other@,
    {
        let ghost before = self@;
        let mut columns = other.columns;
        let mut values = other.values;
        self.columns.append(&mut columns);
        self.values.append(&mut values);
        assert(self@ =~= before + other@);
    }

    proof fn lemma_parts(&self)
        requires
            self.wf(),
        ensures
            names(self@) == strings(self.columns@),
            values(self@) == self.values@.map_values(|v: SqlValue| v@),
            self@.len() == self.columns@.len(),
    {
        assert(names(self@) =~= strings(self.columns@));
        assert(values(self@) =~= self.values@.map_values(|v: SqlValue| v@));
    }

    fn push_insert(&self, out: &mut String, table: &str)
        requires
            self.wf(),
        ensures
            final(out)@ == old(out)@ + insert_text(table@, self@),
    {
        let mut marks: Vec<String> = Vec::new();
        let mut i: usize = 0;
        proof {
            self.lemma_parts();
        }
        while i < self.columns.len()
            invariant
                i <= self.columns@.len(),
                strings(marks@) == placeholders(1, i as nat),
            decreases self.columns@.len() - i,
        {
            let ghost before = marks@;
            let mut mark = String::new();
            push_placeholder(&mut mark, i + 1);
            assert(mark@ =~= placeholder(i + 1));
            marks.push(mark);
            assert(strings(marks@) =~= strings(before).push(mark@));
            assert(placeholders(1, (i + 1) as nat) =~= placeholders(1, i as nat).push(mark@));
            i += 1;
        }
        out.append(" INTO ");
        out.append(table);
        out.append(" (");
        push_joined(out, &self.columns, ", ");
        out.append(") VALUES (");
        push_joined(out, &marks, ", ");
        out.append(")");
        assert(out@ =~= old(out)@ + insert_text(table@, self@));
    }

    /// The statement that puts the row into `table`, in place of the row with the
    /// same key.
    pub fn replace_into(self, table: &str) -> (statement: Statement)
        requires
            self.wf(),
        ensures
            statement.does(Effect::Replace { table: table@, row: self@ }),
    {
        let mut sql = "INSERT OR REPLACE".to_owned();
        self.push_insert(&mut sql, table);
        proof {
            self.lemma_parts();
        }
        Statement { sql, params: self.values }
    }

    /// The statement that puts the row into `table`, unless a row with the same key
    /// is there.
    pub fn ignore_into(self, table: &str) -> (statement: Statement)
        requires
            self.wf(),
        ensures
            statement.does(Effect::Ignore { table: table@, row: self@ }),
    {
        let mut sql = "INSERT OR IGNORE".to_owned();
        self.push_insert(&mut sql, table);
        proof {
            self.lemma_parts();
        }
        Statement { sql, params: self.values }
    }
}

/// Tests of a `WHERE` clause that are being made.
pub struct TestsBuilder {
    tests: Vec<(String, Op)>,
    values: Vec<SqlValue>,
}

impl View for TestsBuilder {
    type V = Seq<Test>;

    closed spec fn view(&self) -> Seq<Test> {
        Seq::new(
            self.tests@.len(),
            |i: int|
                Test { column: self.tests@[i].0@, op: self.tests@[i].1, value: self.values@[i]@ },
        )
    }
}

impl TestsBuilder {
    /// As many values as tests.
    pub closed spec fn wf(&self) -> bool {
        self.tests@.len() == self.values@.len()
    }

    /// No tests.
    pub fn new() -> (tests: TestsBuilder)
        ensures
            tests.wf(),
            tests@ == Seq::<Test>::empty(),
    {
        let tests = TestsBuilder { tests: Vec::new(), values: Vec::new() };
        assert(tests@ =~= Seq::<Test>::empty());
        tests
    }

    /// Adds a test.
    pub fn test(&mut self, column: &str, op: Op, value: SqlValue)
        requires
            old(self).wf(),
        ensures
            final(self).wf(),
            final(self)@ == old(self)@.push(Test { column: column@, op, value: value@ }),
    {
        let ghost before = self@;
        let ghost view = value@;
        self.tests.push((column.to_owned(), op));
        self.values.push(value);
        assert(self@ =~= before.push(Test { column: column@, op, value: view }));
    }

    /// Adds a test against a text.
    pub fn text(&mut self, column: &str, op: Op, text: &str)
        requires
            old(self).wf(),
        ensures
            final(self).wf(),
            final(self)@ == old(self)@.push(Test { column: column@, op, value: Val::Text(text@) }),
    {
        self.test(column, op, SqlValue::Text(text.to_owned()));
    }

    /// Adds a test against an integer.
    pub fn integer(&mut self, column: &str, op: Op, number: i64)
        requires
            old(self).wf(),
        ensures
            final(self).wf(),
            final(self)@ == old(self)@.push(
                Test { column: column@, op, value: Val::Integer(number as int) },
            ),
    {
        self.test(column, op, SqlValue::Integer(number));
    }

    proof fn lemma_values(&self)
        requires
            self.wf(),
        ensures
            test_values(self@) == self.values@.map_values(|v: SqlValue| v@),
            self@.len() == self.tests@.len(),
    {
        assert(test_values(self@) =~= self.values@.map_values(|v: SqlValue| v@));
    }

    fn test_text(&self, i: usize, number: usize) -> (text: String)
        requires
            self.wf(),
            i < self@.len(),
        ensures
            text@ == test_text(self@[i as int], number as int),
    {
        let column = self.tests[i].0.as_str();
        let mut text = String::new();
        match self.tests[i].1 {
            Op::Is => {
                text.append(column);
                text.append(" = ");
                push_placeholder(&mut text, number);
            },
            Op::IsNot => {
                text.append(column);
                text.append(" <> ");
                push_placeholder(&mut text, number);
            },
            Op::Below => {
                text.append(column);
                text.append(" < ");
                push_placeholder(&mut text, number);
            },
            Op::Above => {
                text.append(column);
                text.append(" > ");
                push_placeholder(&mut text, number);
            },
            Op::IsIfGiven => {
                text.append("(");
                push_placeholder(&mut text, number);
                text.append(" IS NULL OR ");
                text.append(column);
                text.append(" = ");
                push_placeholder(&mut text, number);
                text.append(")");
            },
        }
        assert(text@ =~= test_text(self@[i as int], number as int));
        text
    }

    fn push_where(&self, out: &mut String, first: usize)
        requires
            self.wf(),
            first + self@.len() <= usize::MAX,
        ensures
            final(out)@ == old(out)@ + where_text(self@, first as int),
    {
        if self.tests.len() == 0 {
            assert(out@ =~= old(out)@ + where_text(self@, first as int));
            return;
        }
        let mut texts: Vec<String> = Vec::new();
        let mut i: usize = 0;
        while i < self.tests.len()
            invariant
                self.wf(),
                i <= self@.len(),
                self@.len() == self.tests@.len(),
                first + self@.len() <= usize::MAX,
                strings(texts@) == test_texts(self@, first as int).take(i as int),
            decreases self@.len() - i,
        {
            let ghost before = texts@;
            let text = self.test_text(i, first + i);
            let ghost view = text@;
            texts.push(text);
            assert(strings(texts@) =~= strings(before).push(view));
            assert(test_texts(self@, first as int).take(i + 1) =~= test_texts(
                self@,
                first as int,
            ).take(i as int).push(view));
            i += 1;
        }
        assert(strings(texts@) =~= test_texts(self@, first as int));
        out.append(" WHERE ");
        push_joined(out, &texts, " AND ");
        assert(out@ =~= old(out)@ + where_text(self@, first as int));
    }

    /// The statement that takes the rows that pass the tests out of `table`.
    pub fn delete_from(self, table: &str) -> (statement: Statement)
        requires
            self.wf(),
            self@.len() < usize::MAX,
        ensures
            statement.does(Effect::Delete { table: table@, tests: self@ }),
    {
        let mut sql = "DELETE FROM ".to_owned();
        sql.append(table);
        self.push_where(&mut sql, 1);
        proof {
            self.lemma_values();
        }
        Statement { sql, params: self.values }
    }

    /// The statement that takes at most `limit` of the rows that pass the tests out
    /// of `table`.
    pub fn delete_some_from(self, table: &str, id: &str, limit: i64) -> (statement: Statement)
        requires
            self.wf(),
            self@.len() < usize::MAX,
        ensures
            statement.does(
                Effect::DeleteSome { table: table@, id: id@, tests: self@, limit: limit as int },
            ),
    {
        let mut sql = "DELETE FROM ".to_owned();
        sql.append(table);
        sql.append(" WHERE ");
        sql.append(id);
        sql.append(" IN (SELECT ");
        sql.append(id);
        sql.append(" FROM ");
        sql.append(table);
        self.push_where(&mut sql, 1);
        sql.append(" LIMIT ");
        push_placeholder(&mut sql, self.tests.len() + 1);
        sql.append(")");
        proof {
            self.lemma_values();
        }
        let ghost effect = Effect::DeleteSome {
            table: table@,
            id: id@,
            tests: self@,
            limit: limit as int,
        };
        let mut params = self.values;
        let ghost before = params@;
        params.push(SqlValue::Integer(limit));
        let statement = Statement { sql, params };
        assert(statement.sql@ =~= effect.sql());
        assert(statement.values() =~= effect.values());
        statement
    }

    fn push_select(&self, columns: &Vec<&'static str>, table: &str) -> (sql: String)
        requires
            self.wf(),
            self@.len() < usize::MAX,
        ensures
            sql@ == "SELECT "@ + joined(literals(columns@), ", "@) + " FROM "@ + table@
                + where_text(self@, 1),
    {
        let mut sql = "SELECT ".to_owned();
        push_joined(&mut sql, &owned(columns), ", ");
        sql.append(" FROM ");
        sql.append(table);
        self.push_where(&mut sql, 1);
        assert(sql@ =~= "SELECT "@ + joined(literals(columns@), ", "@) + " FROM "@ + table@
            + where_text(self@, 1));
        sql
    }

    /// The query for columns of the rows of `table` that pass the tests.
    pub fn select_from(self, columns: &Vec<&'static str>, table: &str) -> (statement: Statement)
        requires
            self.wf(),
            self@.len() < usize::MAX,
        ensures
            statement.does(
                Effect::Select {
                    table: table@,
                    columns: literals(columns@),
                    tests: self@,
                    tail: Tail::All,
                },
            ),
    {
        let sql = self.push_select(columns, table);
        proof {
            self.lemma_values();
        }
        let ghost effect = Effect::Select {
            table: table@,
            columns: literals(columns@),
            tests: self@,
            tail: Tail::All,
        };
        let statement = Statement { sql, params: self.values };
        assert(statement.sql@ =~= effect.sql());
        assert(statement.values() =~= effect.values());
        statement
    }

    /// The same query, in ascending order of a column.
    pub fn select_ascending(
        self,
        columns: &Vec<&'static str>,
        table: &str,
        order: &str,
    ) -> (statement: Statement)
        requires
            self.wf(),
            self@.len() < usize::MAX,
        ensures
            statement.does(
                Effect::Select {
                    table: table@,
                    columns: literals(columns@),
                    tests: self@,
                    tail: Tail::Ascending { column: order@ },
                },
            ),
    {
        let mut sql = self.push_select(columns, table);
        sql.append(" ORDER BY ");
        sql.append(order);
        sql.append(" ASC");
        proof {
            self.lemma_values();
        }
        let ghost effect = Effect::Select {
            table: table@,
            columns: literals(columns@),
            tests: self@,
            tail: Tail::Ascending { column: order@ },
        };
        let statement = Statement { sql, params: self.values };
        assert(statement.sql@ =~= effect.sql());
        assert(statement.values() =~= effect.values());
        statement
    }

    /// The same query, for the first rows in ascending order of a column.
    pub fn select_first(
        self,
        columns: &Vec<&'static str>,
        table: &str,
        order: &str,
        limit: i64,
    ) -> (statement: Statement)
        requires
            self.wf(),
            self@.len() < usize::MAX,
        ensures
            statement.does(
                Effect::Select {
                    table: table@,
                    columns: literals(columns@),
                    tests: self@,
                    tail: Tail::FirstAscending { column: order@, limit: limit as int },
                },
            ),
    {
        let mut sql = self.push_select(columns, table);
        sql.append(" ORDER BY ");
        sql.append(order);
        sql.append(" ASC LIMIT ");
        push_placeholder(&mut sql, self.tests.len() + 1);
        proof {
            self.lemma_values();
        }
        let ghost effect = Effect::Select {
            table: table@,
            columns: literals(columns@),
            tests: self@,
            tail: Tail::FirstAscending { column: order@, limit: limit as int },
        };
        let mut params = self.values;
        params.push(SqlValue::Integer(limit));
        let statement = Statement { sql, params };
        assert(statement.sql@ =~= effect.sql());
        assert(statement.values() =~= effect.values());
        statement
    }
}

impl RowBuilder {
    /// The statement that puts the row into `table`, or sets all columns of the row
    /// with the same `key` to its values.
    pub fn merge_into(self, table: &str, key: &Vec<&'static str>) -> (statement: Statement)
        requires
            self.wf(),
        ensures
            statement.does(Effect::Merge { table: table@, key: literals(key@), row: self@ }),
    {
        proof {
            self.lemma_parts();
        }
        let mut sets: Vec<String> = Vec::new();
        let mut i: usize = 0;
        let ghost keyed = literals(key@);
        let ghost all = strings(self.columns@);
        assert(strings(sets@) =~= excluded_texts(outside_key(all.take(0), keyed)));
        while i < self.columns.len()
            invariant
                i <= self.columns@.len(),
                all == strings(self.columns@),
                keyed == literals(key@),
                strings(sets@) == excluded_texts(outside_key(all.take(i as int), keyed)),
            decreases self.columns@.len() - i,
        {
            let column = self.columns[i].as_str();
            let ghost before = strings(sets@);
            proof {
                let outside = |c: Seq<char>| !keyed.contains(c);
                assert(all.take(i + 1) =~= all.take(i as int).push(column@));
                assert(all.take(i + 1).drop_last() =~= all.take(i as int));
                reveal(Seq::filter);
            }
            if !is_one_of(column, key) {
                let mut set = column.to_owned();
                set.append(" = excluded.");
                set.append(column);
                let ghost view = set@;
                sets.push(set);
                assert(strings(sets@) =~= before.push(view));
                assert(excluded_texts(outside_key(all.take(i + 1), keyed)) =~= before.push(view));
            }
            i += 1;
        }
        assert(all.take(i as int) =~= all);
        let mut sql = "INSERT".to_owned();
        self.push_insert(&mut sql, table);
        sql.append(" ON CONFLICT(");
        push_joined(&mut sql, &owned(key), ", ");
        sql.append(") DO UPDATE SET ");
        push_joined(&mut sql, &sets, ", ");
        let ghost effect = Effect::Merge { table: table@, key: keyed, row: self@ };
        assert(sql@ =~= effect.sql());
        Statement { sql, params: self.values }
    }

    /// The statement that sets the row's columns in the rows of `table` that pass the
    /// tests.
    pub fn update(self, table: &str, tests: TestsBuilder) -> (statement: Statement)
        requires
            self.wf(),
            tests.wf(),
            self@.len() + tests@.len() < usize::MAX,
        ensures
            statement.does(Effect::Update { table: table@, set: self@, tests: tests@ }),
    {
        proof {
            self.lemma_parts();
            tests.lemma_values();
        }
        let mut sets: Vec<String> = Vec::new();
        let mut i: usize = 0;
        while i < self.columns.len()
            invariant
                self.wf(),
                i <= self.columns@.len(),
                self@.len() == self.columns@.len(),
                strings(sets@) == set_texts(self@).take(i as int),
            decreases self.columns@.len() - i,
        {
            let ghost before = strings(sets@);
            let mut set = self.columns[i].clone();
            set.append(" = ");
            push_placeholder(&mut set, i + 1);
            let ghost view = set@;
            assert(view =~= set_texts(self@)[i as int]);
            sets.push(set);
            assert(strings(sets@) =~= before.push(view));
            assert(set_texts(self@).take(i + 1) =~= set_texts(self@).take(i as int).push(view));
            i += 1;
        }
        assert(strings(sets@) =~= set_texts(self@));
        let mut sql = "UPDATE ".to_owned();
        sql.append(table);
        sql.append(" SET ");
        push_joined(&mut sql, &sets, ", ");
        tests.push_where(&mut sql, self.columns.len() + 1);
        let ghost effect = Effect::Update { table: table@, set: self@, tests: tests@ };
        assert(sql@ =~= effect.sql());
        let mut params = self.values;
        let mut compared = tests.values;
        params.append(&mut compared);
        let statement = Statement { sql, params };
        assert(statement.values() =~= effect.values());
        statement
    }
}

fn is_one_of(text: &str, parts: &Vec<&'static str>) -> (is: bool)
    ensures
        is == literals(parts@).contains(text@),
{
    let mut i: usize = 0;
    while i < parts.len()
        invariant
            i <= parts@.len(),
            forall|j: int| 0 <= j < i ==> literals(parts@)[j] != text@,
        decreases parts@.len() - i,
    {
        if same_text(parts[i], text) {
            assert(literals(parts@)[i as int] == text@);
            return true;
        }
        i += 1;
    }
    false
}

/// Joined texts stand one after the other with the separator between them: every text is in the
/// result, behind the ones before it and before the ones behind it.
pub proof fn law_joined_texts_stay_in_order(
    parts: Seq<Seq<char>>,
    more: Seq<Seq<char>>,
    separator: Seq<char>,
)
    requires
        parts.len() > 0,
        more.len() > 0,
    ensures
        joined(parts + more, separator) == joined(parts, separator) + separator + joined(
            more,
            separator,
        ),
        joined(seq![parts[0]], separator) == parts[0],
    decreases more.len(),
{
    let all = parts + more;
    assert(all.drop_last() =~= parts + more.drop_last());
    if more.len() == 1 {
        assert(all.drop_last() =~= parts);
        assert(more =~= seq![more[0]]);
    } else {
        law_joined_texts_stay_in_order(parts, more.drop_last(), separator);
        assert(joined(all, separator) =~= joined(parts, separator) + separator + joined(
            more,
            separator,
        ));
    }
}

/// A row is put in with every column of it: each value is bound to the parameter that stands where
/// its column stands, and the row with the same key gives way.
pub proof fn law_replace_binds_every_column(
    statement: Statement,
    table: Seq<char>,
    row: Row,
)
    requires
        statement.does(Effect::Replace { table, row }),
    ensures
        exists|columns: Seq<Seq<char>>, marks: Seq<Seq<char>>|
            {
                &&& statement.sql@ == "INSERT OR REPLACE"@ + " INTO "@ + table + " ("@ + #[trigger] joined(
                    columns,
                    ", "@,
                ) + ") VALUES ("@ + #[trigger] joined(marks, ", "@) + ")"@
                &&& columns.len() == row.len() && marks.len() == row.len()
                &&& forall|i: int|
                    0 <= i < row.len() ==> #[trigger] columns[i] == row[i].0 && marks[i] == "?"@
                        + crate::text::numeral(i + 1)
            },
        statement.values().len() == row.len(),
        forall|i: int| 0 <= i < row.len() ==> #[trigger] statement.values()[i] == row[i].1,
{
    let (columns, marks) = (names(row), placeholders(1, row.len()));
    assert(statement.sql@ =~= "INSERT OR REPLACE"@ + " INTO "@ + table + " ("@ + joined(columns, ", "@)
        + ") VALUES ("@ + joined(marks, ", "@) + ")"@);
}

/// The same of a row that gives way to the one with the same key.
pub proof fn law_ignore_binds_every_column(
    statement: Statement,
    table: Seq<char>,
    row: Row,
)
    requires
        statement.does(Effect::Ignore { table, row }),
    ensures
        exists|columns: Seq<Seq<char>>, marks: Seq<Seq<char>>|
            {
                &&& statement.sql@ == "INSERT OR IGNORE"@ + " INTO "@ + table + " ("@ + #[trigger] joined(
                    columns,
                    ", "@,
                ) + ") VALUES ("@ + #[trigger] joined(marks, ", "@) + ")"@
                &&& columns.len() == row.len() && marks.len() == row.len()
                &&& forall|i: int|
                    0 <= i < row.len() ==> #[trigger] columns[i] == row[i].0 && marks[i] == "?"@
                        + crate::text::numeral(i + 1)
            },
        statement.values().len() == row.len(),
        forall|i: int| 0 <= i < row.len() ==> #[trigger] statement.values()[i] == row[i].1,
{
    let (columns, marks) = (names(row), placeholders(1, row.len()));
    assert(statement.sql@ =~= "INSERT OR IGNORE"@ + " INTO "@ + table + " ("@ + joined(columns, ", "@)
        + ") VALUES ("@ + joined(marks, ", "@) + ")"@);
}

/// A merged row is put in in the same way; and where a row with the same key is there, every column
/// of it outside the key is set to the new value, and no other.
pub proof fn law_merge_sets_every_other_column(
    statement: Statement,
    table: Seq<char>,
    key: Seq<Seq<char>>,
    row: Row,
)
    requires
        statement.does(Effect::Merge { table, key, row }),
    ensures
        exists|columns: Seq<Seq<char>>, marks: Seq<Seq<char>>, sets: Seq<Seq<char>>|
            {
                &&& statement.sql@ == "INSERT INTO "@ + table + " ("@ + #[trigger] joined(
                    columns,
                    ", "@,
                ) + ") VALUES ("@ + #[trigger] joined(marks, ", "@) + ") ON CONFLICT("@ + joined(
                    key,
                    ", "@,
                ) + ") DO UPDATE SET "@ + #[trigger] joined(sets, ", "@)
                &&& columns.len() == row.len() && marks.len() == row.len()
                &&& forall|i: int|
                    0 <= i < row.len() ==> #[trigger] columns[i] == row[i].0 && marks[i] == "?"@
                        + crate::text::numeral(i + 1)
                &&& forall|i: int|
                    0 <= i < row.len() && !key.contains(#[trigger] columns[i]) ==> sets.contains(
                        columns[i] + " = excluded."@ + columns[i],
                    )
                &&& forall|j: int|
                    0 <= j < sets.len() ==> is_reset(columns, key, #[trigger] sets[j])
            },
        statement.values().len() == row.len(),
        forall|i: int| 0 <= i < row.len() ==> #[trigger] statement.values()[i] == row[i].1,
{
    let (columns, marks) = (names(row), placeholders(1, row.len()));
    let outside = outside_key(columns, key);
    let sets = excluded_texts(outside);
    let keep = |c: Seq<char>| !key.contains(c);
    reveal_strlit("INSERT");
    reveal_strlit(" INTO ");
    reveal_strlit("INSERT INTO ");
    reveal_strlit(")");
    reveal_strlit(" ON CONFLICT(");
    reveal_strlit(") ON CONFLICT(");
    assert("INSERT INTO "@ =~= "INSERT"@ + " INTO "@);
    assert(") ON CONFLICT("@ =~= ")"@ + " ON CONFLICT("@);
    assert(statement.sql@ =~= "INSERT INTO "@ + table + " ("@ + joined(columns, ", "@)
        + ") VALUES ("@ + joined(marks, ", "@) + ") ON CONFLICT("@ + joined(key, ", "@)
        + ") DO UPDATE SET "@ + joined(sets, ", "@));
    assert forall|i: int| 0 <= i < row.len() && !key.contains(
        #[trigger] columns[i],
    ) implies sets.contains(columns[i] + " = excluded."@ + columns[i]) by {
        columns.lemma_filter_contains(keep, i);
        let j = choose|j: int| 0 <= j < outside.len() && outside[j] == columns[i];
        assert(sets[j] == columns[i] + " = excluded."@ + columns[i]);
    }
    assert forall|j: int| 0 <= j < sets.len() implies is_reset(
        columns,
        key,
        #[trigger] sets[j],
    ) by {
        columns.lemma_filter_pred(keep, j);
        assert(outside.contains(outside[j]));
        columns.lemma_filter_contains_rev(keep, outside[j]);
        assert(keep(outside[j]));
        assert(sets[j] == outside[j] + " = excluded."@ + outside[j]);
    }
}

/// The text sets one of the columns outside the key to its new value.
pub open spec fn is_reset(columns: Seq<Seq<char>>, key: Seq<Seq<char>>, text: Seq<char>) -> bool {
    exists|c: Seq<char>|
        #[trigger] columns.contains(c) && !key.contains(c) && text == c + " = excluded."@ + c
}

/// The texts of the conditions, and the values that they compare with, are those of the tests, one
/// for one, from the parameter `first` on.
pub open spec fn asks(
    texts: Seq<Seq<char>>,
    values: Seq<Val>,
    tests: Seq<Test>,
    first: int,
) -> bool {
    &&& texts.len() == tests.len()
    &&& values.len() >= first - 1 + tests.len()
    &&& forall|i: int|
        0 <= i < tests.len() ==> #[trigger] texts[i] == test_text(tests[i], first + i)
    &&& forall|i: int|
        0 <= i < tests.len() ==> values[first - 1 + i] == (#[trigger] tests[i]).value
}

/// An update sets every column that it is given, and asks for all of its conditions.
pub proof fn law_update_asks_for_all_conditions(
    statement: Statement,
    table: Seq<char>,
    set: Row,
    tests: Seq<Test>,
)
    requires
        tests.len() > 0,
        statement.does(Effect::Update { table, set, tests }),
    ensures
        exists|sets: Seq<Seq<char>>, texts: Seq<Seq<char>>|
            {
                &&& statement.sql@ == "UPDATE "@ + table + " SET "@ + #[trigger] joined(sets, ", "@)
                    + " WHERE "@ + #[trigger] joined(texts, " AND "@)
                &&& sets.len() == set.len()
                &&& forall|i: int|
                    0 <= i < set.len() ==> #[trigger] sets[i] == set[i].0 + " = ?"@
                        + crate::text::numeral(i + 1)
                &&& asks(texts, statement.values(), tests, set.len() as int + 1)
            },
        forall|i: int| 0 <= i < set.len() ==> statement.values()[i] == (#[trigger] set[i]).1,
        statement.values().len() == set.len() + tests.len(),
{
    reveal_strlit(" = ");
    reveal_strlit("?");
    reveal_strlit(" = ?");
    let sets = set_texts(set);
    let texts = test_texts(tests, set.len() as int + 1);
    assert(statement.sql@ =~= "UPDATE "@ + table + " SET "@ + joined(sets, ", "@) + " WHERE "@
        + joined(texts, " AND "@));
    assert forall|i: int| 0 <= i < set.len() implies #[trigger] sets[i] == set[i].0 + " = ?"@
        + crate::text::numeral(i + 1) by {
        assert(sets[i] =~= set[i].0 + " = ?"@ + crate::text::numeral(i + 1));
    }
    assert(asks(texts, statement.values(), tests, set.len() as int + 1));
}

/// A delete asks for all of its conditions.
pub proof fn law_delete_asks_for_all_conditions(
    statement: Statement,
    table: Seq<char>,
    tests: Seq<Test>,
)
    requires
        tests.len() > 0,
        statement.does(Effect::Delete { table, tests }),
    ensures
        exists|texts: Seq<Seq<char>>|
            {
                &&& statement.sql@ == "DELETE FROM "@ + table + " WHERE "@ + #[trigger] joined(
                    texts,
                    " AND "@,
                )
                &&& asks(texts, statement.values(), tests, 1)
            },
        statement.values().len() == tests.len(),
{
    let texts = test_texts(tests, 1);
    assert(statement.sql@ =~= "DELETE FROM "@ + table + " WHERE "@ + joined(texts, " AND "@));
    assert(asks(texts, statement.values(), tests, 1));
}

/// A bounded delete asks for all of its conditions, and for no more rows than its limit.
pub proof fn law_bounded_delete_asks_for_all_conditions(
    statement: Statement,
    table: Seq<char>,
    id: Seq<char>,
    tests: Seq<Test>,
    limit: int,
)
    requires
        tests.len() > 0,
        statement.does(Effect::DeleteSome { table, id, tests, limit }),
    ensures
        exists|texts: Seq<Seq<char>>|
            {
                &&& statement.sql@ == "DELETE FROM "@ + table + " WHERE "@ + id + " IN (SELECT "@
                    + id + " FROM "@ + table + " WHERE "@ + #[trigger] joined(texts, " AND "@)
                    + " LIMIT ?"@ + crate::text::numeral(tests.len() as int + 1) + ")"@
                &&& asks(texts, statement.values(), tests, 1)
            },
        statement.values() == statement.values().take(tests.len() as int).push(Val::Integer(limit)),
{
    reveal_strlit(" LIMIT ");
    reveal_strlit("?");
    reveal_strlit(" LIMIT ?");
    let texts = test_texts(tests, 1);
    assert(" LIMIT ?"@ =~= " LIMIT "@ + "?"@);
    assert(statement.sql@ =~= "DELETE FROM "@ + table + " WHERE "@ + id + " IN (SELECT "@ + id
        + " FROM "@ + table + " WHERE "@ + joined(texts, " AND "@) + " LIMIT ?"@
        + crate::text::numeral(tests.len() as int + 1) + ")"@);
    assert(asks(texts, statement.values(), tests, 1));
    assert(statement.values() =~= statement.values().take(tests.len() as int).push(
        Val::Integer(limit),
    ));
}

/// A query reads the columns that it is given, asks for all of its conditions, and, where it is
/// for the first rows of an order, for no more than its limit.
pub proof fn law_query_asks_for_all_conditions(
    statement: Statement,
    table: Seq<char>,
    columns: Seq<Seq<char>>,
    tests: Seq<Test>,
    tail: Tail,
)
    requires
        tests.len() > 0,
        statement.does(Effect::Select { table, columns, tests, tail }),
    ensures
        exists|texts: Seq<Seq<char>>, rest: Seq<char>|
            {
                &&& statement.sql@ == #[trigger] ("SELECT "@ + joined(columns, ", "@) + " FROM "@
                    + table + " WHERE "@ + joined(texts, " AND "@) + rest)
                &&& asks(texts, statement.values(), tests, 1)
                &&& tail is All ==> rest.len() == 0
                &&& tail matches Tail::Ascending { column } ==> rest == " ORDER BY "@ + column
                    + " ASC"@
                &&& tail matches Tail::FirstAscending { column, limit } ==> rest == " ORDER BY "@
                    + column + " ASC LIMIT ?"@ + crate::text::numeral(tests.len() as int + 1)
            },
        tail matches Tail::FirstAscending { column, limit } ==> statement.values().len()
            == tests.len() + 1 && statement.values().last() == Val::Integer(limit),
        !(tail is FirstAscending) ==> statement.values().len() == tests.len(),
{
    reveal_strlit(" ASC LIMIT ");
    reveal_strlit("?");
    reveal_strlit(" ASC LIMIT ?");
    let texts = test_texts(tests, 1);
    let rest = match tail {
        Tail::All => Seq::empty(),
        Tail::Ascending { column } => " ORDER BY "@ + column + " ASC"@,
        Tail::FirstAscending { column, limit } => " ORDER BY "@ + column + " ASC LIMIT ?"@
            + crate::text::numeral(tests.len() as int + 1),
    };
    assert(" ASC LIMIT ?"@ =~= " ASC LIMIT "@ + "?"@);
    assert(statement.sql@ =~= "SELECT "@ + joined(columns, ", "@) + " FROM "@ + table + " WHERE "@
        + joined(texts, " AND "@) + rest);
    assert(asks(texts, statement.values(), tests, 1));
}

} // verus!
