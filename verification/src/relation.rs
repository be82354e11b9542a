//! What statements do to the rows of a table, and what follows from it.
//!
//! A table is a sequence of rows with a key: no two of its rows agree in all key
//! columns.

use vstd::prelude::*;

use crate::sql::{Effect, Op, Row, Tail, Test, Val};

verus! {

/// The value of a column of a row: null where the row does not have it.
pub open spec fn column(row: Row, name: Seq<char>) -> Val
    decreases row.len(),
{
    if row.len() == 0 {
        Val::Null
    } else if row[0].0 == name {
        row[0].1
    } else {
        column(row.skip(1), name)
    }
}

/// Two rows agree in all columns of a key.
pub open spec fn same_key(a: Row, b: Row, key: Seq<Seq<char>>) -> bool {
    forall|i: int| 0 <= i < key.len() ==> column(a, #[trigger] key[i]) == column(b, key[i])
}

/// No two rows have the same key.
pub open spec fn keyed_by(rows: Seq<Row>, key: Seq<Seq<char>>) -> bool {
    forall|i: int, j: int|
        0 <= i < j < rows.len() ==> !same_key(#[trigger] rows[i], #[trigger] rows[j], key)
}

/// A row passes a test. A comparison with null passes nowhere; the comparisons by
/// size are for integers.
pub open spec fn passes(row: Row, test: Test) -> bool {
    let value = column(row, test.column);
    match test.op {
        Op::Is => value !is Null && value == test.value,
        Op::IsNot => value !is Null && test.value !is Null && value != test.value,
        Op::Below => value is Integer && test.value is Integer && value->Integer_0
            < test.value->Integer_0,
        Op::Above => value is Integer && test.value is Integer && value->Integer_0
            > test.value->Integer_0,
        Op::IsIfGiven => test.value is Null || (value !is Null && value == test.value),
    }
}

/// A row passes all tests.
pub open spec fn passes_all(row: Row, tests: Seq<Test>) -> bool {
    forall|i: int| 0 <= i < tests.len() ==> passes(row, #[trigger] tests[i])
}

/// The rows that pass the tests, in the order in which they stand.
pub open spec fn passing(rows: Seq<Row>, tests: Seq<Test>) -> Seq<Row> {
    rows.filter(|r: Row| passes_all(r, tests))
}

/// The rows that do not pass the tests, in the order in which they stand.
pub open spec fn failing(rows: Seq<Row>, tests: Seq<Test>) -> Seq<Row> {
    rows.filter(|r: Row| !passes_all(r, tests))
}

/// A row with the key of `row` is there.
pub open spec fn has_key(rows: Seq<Row>, row: Row, key: Seq<Seq<char>>) -> bool {
    exists|i: int| 0 <= i < rows.len() && same_key(#[trigger] rows[i], row, key)
}

/// The rows that have another key than `row`.
pub open spec fn without_key(rows: Seq<Row>, row: Row, key: Seq<Seq<char>>) -> Seq<Row> {
    rows.filter(|r: Row| !same_key(r, row, key))
}

/// A row with some columns set to new values.
pub open spec fn with_set(row: Row, set: Row) -> Row {
    row.map_values(
        |b: (Seq<char>, Val)|
            if crate::sql::names(set).contains(b.0) {
                (b.0, column(set, b.0))
            } else {
                b
            },
    )
}

/// A row with its number.
pub open spec fn numbered(row: Row, name: Seq<char>, number: int) -> Row {
    seq![(name, Val::Integer(number))] + row
}

/// The rows of a table with a key after a statement that changes it has run. What is left open
/// where a table numbers its rows or not all rows are taken out is said by
/// `after_numbering` and `some_deleted`.
pub open spec fn after(effect: Effect, rows: Seq<Row>, key: Seq<Seq<char>>) -> Seq<Row> {
    match effect {
        Effect::Replace { table, row } => without_key(rows, row, key).push(row),
        Effect::Merge { table, key: merged, row } => without_key(rows, row, key).push(row),
        Effect::Update { table, set, tests } => rows.map_values(
            |r: Row|
                if passes_all(r, tests) {
                    with_set(r, set)
                } else {
                    r
                },
        ),
        Effect::Delete { table, tests } => failing(rows, tests),
        Effect::Select { .. } => rows,
        Effect::Ignore { .. } | Effect::DeleteSome { .. } => arbitrary(),
    }
}

/// The rows of a table with a key that numbers its rows, after a statement that changes it has
/// run. `number` is what the table gives to a row that comes in, in the column `name`.
pub open spec fn after_numbering(
    effect: Effect,
    rows: Seq<Row>,
    key: Seq<Seq<char>>,
    name: Seq<char>,
    number: int,
) -> Seq<Row> {
    match effect {
        Effect::Ignore { table, row } => if has_key(rows, row, key) {
            rows
        } else {
            rows.push(numbered(row, name, number))
        },
        _ => after(effect, rows, key),
    }
}

/// `left` is what may be left of `rows` when at most `limit` rows that pass the tests
/// have been taken out: rows that fail all stay, rows that pass stay only where the limit was
/// reached, and no row is changed or comes in.
pub open spec fn some_deleted(
    rows: Seq<Row>,
    tests: Seq<Test>,
    limit: int,
    deleted: int,
    left: Seq<Row>,
) -> bool {
    &&& failing(left, tests) == failing(rows, tests)
    &&& left.to_multiset().subset_of(rows.to_multiset())
    &&& 0 <= deleted <= limit
    &&& passing(left, tests).len() == passing(rows, tests).len() - deleted
    &&& deleted < limit ==> passing(left, tests).len() == 0
}

/// Rows stand in ascending order of a column, as far as it holds integers.
pub open spec fn ascending(rows: Seq<Row>, name: Seq<char>) -> bool {
    forall|i: int, j: int|
        0 <= i < j < rows.len() && column(#[trigger] rows[i], name) is Integer && column(
            #[trigger] rows[j],
            name,
        ) is Integer ==> column(rows[i], name)->Integer_0 <= column(rows[j], name)->Integer_0
}

/// Rows stand in descending order of a column, as far as it holds integers.
pub open spec fn descending(rows: Seq<Row>, name: Seq<char>) -> bool {
    forall|i: int, j: int|
        0 <= i < j < rows.len() && column(#[trigger] rows[i], name) is Integer && column(
            #[trigger] rows[j],
            name,
        ) is Integer ==> column(rows[i], name)->Integer_0 >= column(rows[j], name)->Integer_0
}

/// The first rows, at most `limit` of them; all rows where `limit` is negative.
pub open spec fn first_rows(rows: Seq<Row>, limit: int) -> Seq<Row> {
    if 0 <= limit < rows.len() {
        rows.take(limit)
    } else {
        rows
    }
}

/// `all` are the rows that pass the tests, each as often as it is there, in ascending order of a
/// column.
pub open spec fn sorted_passing(
    rows: Seq<Row>,
    tests: Seq<Test>,
    name: Seq<char>,
    all: Seq<Row>,
) -> bool {
    &&& all.to_multiset() == passing(rows, tests).to_multiset()
    &&& ascending(all, name)
}

/// `found` are rows that a query may give, in this order. An order that the query does not ask
/// for, and that among rows that are equal in the column of the order, is left open.
pub open spec fn selected(effect: Effect, rows: Seq<Row>, found: Seq<Row>) -> bool {
    match effect {
        Effect::Select { table, columns, tests, tail } => match tail {
            Tail::All => found.to_multiset() == passing(rows, tests).to_multiset(),
            Tail::Ascending { column: name } => sorted_passing(rows, tests, name, found),
            Tail::FirstAscending { column: name, limit } => exists|all: Seq<Row>| #[trigger]
                sorted_passing(rows, tests, name, all) && found == first_rows(all, limit),
        },
        _ => false,
    }
}

/// The values that a query reads from a row.
pub open spec fn projected(row: Row, columns: Seq<Seq<char>>) -> Seq<Val> {
    columns.map_values(|c: Seq<char>| column(row, c))
}

pub proof fn lemma_filtered<A>(s: Seq<A>, keep: spec_fn(A) -> bool)
    ensures
        forall|i: int| 0 <= i < s.filter(keep).len() ==> keep(#[trigger] s.filter(keep)[i]),
        forall|i: int|
            0 <= i < s.filter(keep).len() ==> s.contains(#[trigger] s.filter(keep)[i]),
        forall|i: int|
            0 <= i < s.len() && keep(#[trigger] s[i]) ==> s.filter(keep).contains(s[i]),
    decreases s.len(),
{
    reveal(Seq::filter);
    if s.len() > 0 {
        let head = s.drop_last();
        lemma_filtered(head, keep);
        let kept = s.filter(keep);
        let kept_head = head.filter(keep);
        assert forall|i: int| 0 <= i < kept.len() implies s.contains(#[trigger] kept[i]) by {
            if i < kept_head.len() {
                assert(head.contains(kept_head[i]));
                let j = choose|j: int| 0 <= j < head.len() && head[j] == kept_head[i];
                assert(s[j] == kept[i]);
            } else {
                assert(s[s.len() - 1] == kept[i]);
            }
        }
        assert forall|i: int| 0 <= i < s.len() && keep(#[trigger] s[i]) implies kept.contains(
            s[i],
        ) by {
            if i < head.len() {
                assert(head[i] == s[i]);
                assert(kept_head.contains(s[i]));
                let j = choose|j: int| 0 <= j < kept_head.len() && kept_head[j] == s[i];
                assert(kept[j] == s[i]);
            } else {
                assert(kept[kept.len() - 1] == s[i]);
            }
        }
    }
}

pub proof fn lemma_filter_keeps_distinct(rows: Seq<Row>, key: Seq<Seq<char>>, keep: spec_fn(Row) -> bool)
    requires
        keyed_by(rows, key),
    ensures
        keyed_by(rows.filter(keep), key),
    decreases rows.len(),
{
    reveal(Seq::filter);
    if rows.len() > 0 {
        let head = rows.drop_last();
        lemma_filter_keeps_distinct(head, key, keep);
        lemma_filtered(head, keep);
        let kept = rows.filter(keep);
        let kept_head = head.filter(keep);
        assert forall|i: int, j: int| 0 <= i < j < kept.len() implies !same_key(
            #[trigger] kept[i],
            #[trigger] kept[j],
            key,
        ) by {
            if j < kept_head.len() {
                assert(!same_key(kept_head[i], kept_head[j], key));
            } else {
                assert(head.contains(kept_head[i]));
                let k = choose|k: int| 0 <= k < head.len() && head[k] == kept_head[i];
                assert(!same_key(rows[k], rows[rows.len() - 1], key));
            }
        }
    }
}

/// A key stays a key: no statement that puts a row in, and none that takes rows out,
/// leaves two rows with the same key.
pub proof fn law_key_stays_a_key(effect: Effect, rows: Seq<Row>, key: Seq<Seq<char>>)
    requires
        keyed_by(rows, key),
        effect !is Ignore && effect !is DeleteSome,
        effect matches Effect::Update { table, set, tests } ==> forall|i: int|
            0 <= i < key.len() ==> !crate::sql::names(set).contains(#[trigger] key[i]),
    ensures
        keyed_by(after(effect, rows, key), key),
{
    match effect {
        Effect::Replace { table, row } => lemma_put(rows, row, key),
        Effect::Merge { table, key: merged, row } => lemma_put(rows, row, key),
        Effect::Update { table, set, tests } => {
            let left = after(effect, rows, key);
            assert forall|i: int, j: int| 0 <= i < j < left.len() implies !same_key(
                #[trigger] left[i],
                #[trigger] left[j],
                key,
            ) by {
                assert(!same_key(rows[i], rows[j], key));
                let k = choose|k: int|
                    0 <= k < key.len() && column(rows[i], #[trigger] key[k]) != column(
                        rows[j],
                        key[k],
                    );
                law_update_sets_only_its_columns(rows[i], set, key[k]);
                law_update_sets_only_its_columns(rows[j], set, key[k]);
                assert(column(left[i], key[k]) != column(left[j], key[k]));
            }
        },
        Effect::Delete { table, tests } => lemma_filter_keeps_distinct(
            rows,
            key,
            |r: Row| !passes_all(r, tests),
        ),
        _ => {},
    }
}

/// An update changes the columns that it sets, and no others.
pub proof fn law_update_sets_only_its_columns(row: Row, set: Row, name: Seq<char>)
    ensures
        column(with_set(row, set), name) == if crate::sql::names(set).contains(name)
            && crate::sql::names(row).contains(name) {
            column(set, name)
        } else {
            column(row, name)
        },
    decreases row.len(),
{
    let new = with_set(row, set);
    if row.len() > 0 {
        let rest = row.skip(1);
        law_update_sets_only_its_columns(rest, set, name);
        assert(new.skip(1) =~= with_set(rest, set));
        assert(new[0].0 == row[0].0);
        let all = crate::sql::names(row);
        let after = crate::sql::names(rest);
        assert(all[0] == row[0].0);
        if after.contains(name) {
            let i = choose|i: int| 0 <= i < after.len() && after[i] == name;
            assert(all[i + 1] == name);
        }
        if all.contains(name) && row[0].0 != name {
            let i = choose|i: int| 0 <= i < all.len() && all[i] == name;
            assert(after[i - 1] == name);
        }
    }
}

/// A column has the value that stands beside its name where the name stands first.
pub proof fn lemma_column_at(row: Row, i: int)
    requires
        0 <= i < row.len(),
        forall|j: int| 0 <= j < i ==> (#[trigger] row[j]).0 != row[i].0,
    ensures
        column(row, row[i].0) == row[i].1,
    decreases i,
{
    if i > 0 {
        let rest = row.skip(1);
        assert(row[0].0 != row[i].0);
        assert(rest[i - 1] == row[i]);
        assert forall|j: int| 0 <= j < i - 1 implies (#[trigger] rest[j]).0 != rest[i - 1].0 by {
            assert(row[j + 1].0 != row[i].0);
        }
        lemma_column_at(rest, i - 1);
    }
}

/// Rows whose key columns stand at the same places have the same key exactly where they agree at
/// these places.
pub proof fn lemma_same_key(a: Row, b: Row, key: Seq<Seq<char>>, at: Seq<int>)
    requires
        at.len() == key.len(),
        forall|k: int|
            0 <= k < at.len() ==> {
                &&& 0 <= #[trigger] at[k] < a.len()
                &&& at[k] < b.len()
                &&& a[at[k]].0 == key[k]
                &&& b[at[k]].0 == key[k]
            },
        forall|k: int, j: int|
            0 <= k < at.len() && 0 <= j < at[k] ==> (#[trigger] a[j]).0 != #[trigger] key[k] && b[j].0
                != key[k],
    ensures
        same_key(a, b, key) <==> forall|k: int|
            0 <= k < at.len() ==> a[#[trigger] at[k]].1 == b[at[k]].1,
{
    assert forall|k: int| 0 <= k < key.len() implies column(a, #[trigger] key[k]) == a[at[k]].1
        && column(b, key[k]) == b[at[k]].1 by {
        assert forall|j: int| 0 <= j < at[k] implies (#[trigger] b[j]).0 != b[at[k]].0 by {
            assert(a[j].0 != key[k]);
        }
        lemma_column_at(a, at[k]);
        lemma_column_at(b, at[k]);
    }
    if same_key(a, b, key) {
        assert forall|k: int| 0 <= k < at.len() implies a[#[trigger] at[k]].1 == b[at[k]].1 by {
            assert(column(a, key[k]) == column(b, key[k]));
        }
    }
}

proof fn lemma_put(rows: Seq<Row>, row: Row, key: Seq<Seq<char>>)
    requires
        keyed_by(rows, key),
    ensures
        keyed_by(without_key(rows, row, key).push(row), key),
{
    let other = |r: Row| !same_key(r, row, key);
    lemma_filter_keeps_distinct(rows, key, other);
    lemma_filtered(rows, other);
}

/// What was written is read back: after a row was put in by its key, it is there, and
/// it is the only row with that key.
pub proof fn law_written_row_reads_back(
    table: Seq<char>,
    rows: Seq<Row>,
    row: Row,
    key: Seq<Seq<char>>,
)
    ensures
        ({
            let left = after(Effect::Replace { table, row }, rows, key);
            &&& left.last() == row
            &&& forall|i: int|
                0 <= i < left.len() - 1 ==> !same_key(#[trigger] left[i], row, key)
        }),
{
    lemma_filtered(rows, |r: Row| !same_key(r, row, key));
}

/// Rows with other keys are left alone when a row is put in: they stay, and no other
/// rows come.
pub proof fn law_other_rows_stay(
    table: Seq<char>,
    rows: Seq<Row>,
    row: Row,
    key: Seq<Seq<char>>,
    other: Row,
)
    requires
        !same_key(other, row, key),
    ensures
        after(Effect::Replace { table, row }, rows, key).contains(other) == rows.contains(other),
{
    let keep = |r: Row| !same_key(r, row, key);
    let kept = rows.filter(keep);
    let left = after(Effect::Replace { table, row }, rows, key);
    lemma_filtered(rows, keep);
    if rows.contains(other) {
        let i = choose|i: int| 0 <= i < rows.len() && rows[i] == other;
        assert(keep(rows[i]));
        assert(kept.contains(other));
        let j = choose|j: int| 0 <= j < kept.len() && kept[j] == other;
        assert(left[j] == other);
    }
    if left.contains(other) {
        let j = choose|j: int| 0 <= j < left.len() && left[j] == other;
        assert(j < kept.len());
        assert(rows.contains(kept[j]));
    }
}

/// The number of a row changes none of its other columns.
pub proof fn lemma_numbered(row: Row, name: Seq<char>, number: int, other: Seq<char>)
    ensures
        column(numbered(row, name, number), name) == Val::Integer(number),
        other != name ==> column(numbered(row, name, number), other) == column(row, other),
{
    assert(numbered(row, name, number).skip(1) =~= row);
}

/// A row has the same key with its number and without it.
pub proof fn lemma_numbered_key(row: Row, name: Seq<char>, number: int, other: Row, key: Seq<Seq<char>>)
    requires
        !key.contains(name),
    ensures
        same_key(numbered(row, name, number), other, key) == same_key(row, other, key),
        same_key(other, numbered(row, name, number), key) == same_key(other, row, key),
{
    let long = numbered(row, name, number);
    assert forall|i: int| 0 <= i < key.len() implies column(long, #[trigger] key[i]) == column(
        row,
        key[i],
    ) by {
        lemma_numbered(row, name, number, key[i]);
    }
    if same_key(long, other, key) {
        assert forall|i: int| 0 <= i < key.len() implies column(row, #[trigger] key[i]) == column(
            other,
            key[i],
        ) by {
            assert(column(long, key[i]) == column(other, key[i]));
        }
    }
    if same_key(other, long, key) {
        assert forall|i: int| 0 <= i < key.len() implies column(other, #[trigger] key[i]) == column(
            row,
            key[i],
        ) by {
            assert(column(other, key[i]) == column(long, key[i]));
        }
    }
}

/// A key stays a key where a table numbers its rows.
pub proof fn law_key_stays_a_key_beside_numbers(
    table: Seq<char>,
    rows: Seq<Row>,
    row: Row,
    key: Seq<Seq<char>>,
    name: Seq<char>,
    number: int,
)
    requires
        keyed_by(rows, key),
        !key.contains(name),
    ensures
        keyed_by(after_numbering(Effect::Ignore { table, row }, rows, key, name, number), key),
{
    let left = after_numbering(Effect::Ignore { table, row }, rows, key, name, number);
    if !has_key(rows, row, key) {
        assert forall|i: int, j: int| 0 <= i < j < left.len() implies !same_key(
            #[trigger] left[i],
            #[trigger] left[j],
            key,
        ) by {
            if j == rows.len() {
                lemma_numbered_key(row, name, number, rows[i], key);
            }
        }
    }
}

/// A key stays a key where rows are taken out, whichever they are.
pub proof fn law_key_stays_a_key_in_fewer_rows(rows: Seq<Row>, left: Seq<Row>, key: Seq<Seq<char>>)
    requires
        keyed_by(rows, key),
        left.to_multiset().subset_of(rows.to_multiset()),
    ensures
        keyed_by(left, key),
        forall|r: Row| #[trigger] left.contains(r) ==> rows.contains(r),
{
    rows.to_multiset_ensures();
    left.to_multiset_ensures();
    assert forall|r: Row| #[trigger] left.contains(r) implies rows.contains(r) by {
        assert(left.to_multiset().count(r) > 0);
        assert(rows.to_multiset().count(r) > 0);
    }
    assert forall|i: int, j: int| 0 <= i < rows.len() && 0 <= j < rows.len() && i
        != j implies rows[i] != rows[j] by {
        if i < j {
            assert(!same_key(rows[i], rows[j], key));
        } else {
            assert(!same_key(rows[j], rows[i], key));
        }
    }
    assert(rows.no_duplicates());
    rows.lemma_multiset_has_no_duplicates();
    assert forall|r: Row| left.to_multiset().contains(r) implies #[trigger]
        left.to_multiset().count(r) == 1 by {
        assert(left.contains(r));
        assert(rows.contains(r));
        assert(rows.to_multiset().count(r) == 1);
    }
    left.lemma_multiset_has_no_duplicates_conv();
    assert forall|i: int, j: int| 0 <= i < j < left.len() implies !same_key(
        #[trigger] left[i],
        #[trigger] left[j],
        key,
    ) by {
        assert(left.contains(left[i]) && left.contains(left[j]));
        let x = choose|x: int| 0 <= x < rows.len() && rows[x] == left[i];
        let y = choose|y: int| 0 <= y < rows.len() && rows[y] == left[j];
        assert(left[i] != left[j]);
        if x < y {
            assert(!same_key(rows[x], rows[y], key));
        } else {
            assert(!same_key(rows[y], rows[x], key));
            if same_key(rows[x], rows[y], key) {
                assert forall|k: int| 0 <= k < key.len() implies column(rows[y], #[trigger] key[k])
                    == column(rows[x], key[k]) by {
                    assert(column(rows[x], key[k]) == column(rows[y], key[k]));
                }
            }
        }
    }
}

/// A replayed row is ignored: once a row is in, a row with the same key that is put in
/// to be ignored changes nothing, whatever its other columns and its number would be.
pub proof fn law_replay_is_ignored(
    table: Seq<char>,
    rows: Seq<Row>,
    row: Row,
    replayed: Row,
    key: Seq<Seq<char>>,
    name: Seq<char>,
    number: int,
    next_number: int,
)
    requires
        same_key(row, replayed, key),
        !key.contains(name),
    ensures
        ({
            let once = after_numbering(Effect::Ignore { table, row }, rows, key, name, number);
            after_numbering(Effect::Ignore { table, row: replayed }, once, key, name, next_number) == once
        }),
{
    let once = after_numbering(Effect::Ignore { table, row }, rows, key, name, number);
    if has_key(rows, row, key) {
        let i = choose|i: int| 0 <= i < rows.len() && same_key(#[trigger] rows[i], row, key);
        assert forall|k: int| 0 <= k < key.len() implies column(once[i], #[trigger] key[k])
            == column(replayed, key[k]) by {
            assert(column(rows[i], key[k]) == column(row, key[k]));
            assert(column(row, key[k]) == column(replayed, key[k]));
        }
        assert(same_key(once[i], replayed, key));
    } else {
        lemma_numbered_key(row, name, number, replayed, key);
        assert(same_key(once[rows.len() as int], replayed, key));
    }
}

/// A rewrite takes the place of what it rewrites: putting in two rows with the same
/// key, one after the other, is putting in the second.
pub proof fn law_rewrite_replaces(
    table: Seq<char>,
    rows: Seq<Row>,
    first: Row,
    second: Row,
    key: Seq<Seq<char>>,
)
    requires
        same_key(first, second, key),
    ensures
        ({
            let once = after(Effect::Replace { table, row: first }, rows, key);
            after(Effect::Replace { table, row: second }, once, key) == after(
                Effect::Replace { table, row: second },
                rows,
                key,
            )
        }),
{
    let keep_first = |r: Row| !same_key(r, first, key);
    let keep_second = |r: Row| !same_key(r, second, key);
    assert forall|r: Row| #[trigger] same_key(r, first, key) == same_key(r, second, key) by {
        if same_key(r, first, key) {
            assert forall|i: int| 0 <= i < key.len() implies column(r, #[trigger] key[i])
                == column(second, key[i]) by {
                assert(column(r, key[i]) == column(first, key[i]));
            }
        }
        if same_key(r, second, key) {
            assert forall|i: int| 0 <= i < key.len() implies column(r, #[trigger] key[i])
                == column(first, key[i]) by {
                assert(column(r, key[i]) == column(second, key[i]));
            }
        }
    }
    assert(keep_first =~= keep_second);
    let kept = rows.filter(keep_second);
    lemma_filtered(rows, keep_second);
    lemma_filter_all(kept, keep_second);
    reveal(Seq::filter);
    assert(kept.push(first).drop_last() =~= kept);
}

proof fn lemma_filter_all<A>(s: Seq<A>, keep: spec_fn(A) -> bool)
    requires
        forall|i: int| 0 <= i < s.len() ==> keep(#[trigger] s[i]),
    ensures
        s.filter(keep) == s,
    decreases s.len(),
{
    reveal(Seq::filter);
    if s.len() > 0 {
        assert forall|i: int| 0 <= i < s.drop_last().len() implies keep(
            #[trigger] s.drop_last()[i],
        ) by {
            assert(keep(s[i]));
        }
        lemma_filter_all(s.drop_last(), keep);
        assert(s.drop_last().push(s.last()) =~= s);
    }
}

/// A group that is deleted is gone, and every row outside the group stays.
pub proof fn law_delete_takes_the_group(
    table: Seq<char>,
    rows: Seq<Row>,
    tests: Seq<Test>,
    key: Seq<Seq<char>>,
    row: Row,
)
    ensures
        ({
            let left = after(Effect::Delete { table, tests }, rows, key);
            &&& passes_all(row, tests) ==> !left.contains(row)
            &&& !passes_all(row, tests) ==> left.contains(row) == rows.contains(row)
        }),
{
    let keep = |r: Row| !passes_all(r, tests);
    let left = rows.filter(keep);
    lemma_filtered(rows, keep);
    if left.contains(row) {
        let i = choose|i: int| 0 <= i < left.len() && left[i] == row;
        assert(keep(left[i]));
        assert(rows.contains(left[i]));
    }
    if rows.contains(row) && !passes_all(row, tests) {
        let i = choose|i: int| 0 <= i < rows.len() && rows[i] == row;
        assert(keep(rows[i]));
    }
}

proof fn lemma_filter_within<A>(s: Seq<A>, narrow: spec_fn(A) -> bool, wide: spec_fn(A) -> bool)
    requires
        forall|a: A| #[trigger] narrow(a) ==> wide(a),
    ensures
        s.filter(wide).filter(narrow) == s.filter(narrow),
    decreases s.len(),
{
    reveal(Seq::filter);
    if s.len() > 0 {
        lemma_filter_within(s.drop_last(), narrow, wide);
        let head = s.drop_last().filter(wide);
        assert(narrow(s.last()) ==> wide(s.last()));
        if wide(s.last()) {
            assert(s.filter(wide) =~= head.push(s.last()));
            assert(head.push(s.last()).drop_last() =~= head);
        }
    }
}

/// The test for the row of a name.
pub open spec fn of_name(name: Seq<char>, value: Val) -> Seq<Test> {
    seq![Test { column: name, op: Op::Is, value }]
}

/// In a table with a single key column, the row that was put in is the one that is found under
/// its name.
pub proof fn law_lookup_finds_the_written_row(
    table: Seq<char>,
    rows: Seq<Row>,
    row: Row,
    name: Seq<char>,
    value: Val,
)
    requires
        column(row, name) == value,
        value !is Null,
    ensures
        passing(after(Effect::Replace { table, row }, rows, seq![name]), of_name(name, value))
            == seq![row],
{
    let key = seq![name];
    let tests = of_name(name, value);
    let found = |r: Row| passes_all(r, tests);
    let kept = without_key(rows, row, key);
    lemma_filtered(rows, |r: Row| !same_key(r, row, key));
    lemma_filtered(kept, found);
    assert(kept.filter(found).len() == 0) by {
        if kept.filter(found).len() > 0 {
            let r = kept.filter(found)[0];
            assert(found(r));
            assert(passes(r, tests[0]));
            assert(kept.contains(r));
            assert(same_key(r, row, key));
            let i = choose|i: int| 0 <= i < kept.len() && kept[i] == r;
            assert(!same_key(kept[i], row, key));
        }
    }
    assert(found(row)) by {
        assert(passes(row, tests[0]));
    }
    reveal(Seq::filter);
    assert(kept.push(row).drop_last() =~= kept);
    assert(kept.push(row).filter(found) =~= seq![row]);
}

/// Putting a row in changes nothing of what is found under another name.
pub proof fn law_lookup_of_other_names_is_unchanged(
    table: Seq<char>,
    rows: Seq<Row>,
    row: Row,
    name: Seq<char>,
    value: Val,
)
    requires
        column(row, name) != value,
    ensures
        passing(after(Effect::Replace { table, row }, rows, seq![name]), of_name(name, value))
            == passing(rows, of_name(name, value)),
{
    let key = seq![name];
    let tests = of_name(name, value);
    let found = |r: Row| passes_all(r, tests);
    let keep = |r: Row| !same_key(r, row, key);
    let kept = rows.filter(keep);
    assert forall|r: Row| #[trigger] found(r) implies keep(r) by {
        assert(passes(r, tests[0]));
        if same_key(r, row, key) {
            assert(column(r, key[0]) == column(row, key[0]));
        }
    }
    lemma_filter_within(rows, found, keep);
    assert(!found(row)) by {
        assert(!passes(row, tests[0]));
    }
    reveal(Seq::filter);
    assert(kept.push(row).drop_last() =~= kept);
}

/// A query without a limit finds exactly the rows that pass its tests.
pub proof fn law_query_finds_what_passes(effect: Effect, rows: Seq<Row>, found: Seq<Row>, row: Row)
    requires
        selected(effect, rows, found),
        effect matches Effect::Select { table, columns, tests, tail } ==> tail !is FirstAscending,
    ensures
        effect matches Effect::Select { table, columns, tests, tail } && (found.contains(row)
            <==> rows.contains(row) && passes_all(row, tests)),
{
    if let Effect::Select { table, columns, tests, tail } = effect {
        let keep = |r: Row| passes_all(r, tests);
        let kept = rows.filter(keep);
        lemma_filtered(rows, keep);
        found.to_multiset_ensures();
        kept.to_multiset_ensures();
        assert(found.contains(row) <==> found.to_multiset().count(row) > 0);
        assert(kept.contains(row) <==> kept.to_multiset().count(row) > 0);
        if kept.contains(row) {
            let i = choose|i: int| 0 <= i < kept.len() && kept[i] == row;
            assert(keep(kept[i]));
            assert(rows.contains(kept[i]));
        }
        if rows.contains(row) && keep(row) {
            let i = choose|i: int| 0 <= i < rows.len() && rows[i] == row;
            assert(keep(rows[i]));
        }
    }
}

/// What a comparison sign means of two numbers.
pub open spec fn means(sign: Seq<char>, a: int, b: int) -> bool {
    ||| sign == seq!['='] && a == b
    ||| sign == seq!['<', '>'] && a != b
    ||| sign == seq!['<'] && a < b
    ||| sign == seq!['>'] && a > b
}

/// A test asks in its text for what it stands for: a row passes exactly if its number stands to
/// the given one as the sign in the text says.
pub proof fn law_test_asks_for_what_passes(row: Row, test: Test, number: int)
    requires
        column(row, test.column) is Integer,
        test.value is Integer,
        test.op !is IsIfGiven,
    ensures
        exists|sign: Seq<char>|
            {
                &&& crate::sql::test_text(test, number) == test.column + seq![' '] + sign + seq![' ']
                    + crate::sql::placeholder(number)
                &&& passes(row, test) <==> #[trigger] means(
                    sign,
                    column(row, test.column)->Integer_0,
                    test.value->Integer_0,
                )
            },
{
    reveal_strlit(" = ");
    reveal_strlit(" <> ");
    reveal_strlit(" < ");
    reveal_strlit(" > ");
    let (a, b) = (column(row, test.column)->Integer_0, test.value->Integer_0);
    let sign = match test.op {
        Op::Is => seq!['='],
        Op::IsNot => seq!['<', '>'],
        Op::Below => seq!['<'],
        Op::Above => seq!['>'],
        Op::IsIfGiven => Seq::empty(),
    };
    assert(" = "@ =~= seq![' '] + seq!['='] + seq![' ']);
    assert(" <> "@ =~= seq![' '] + seq!['<', '>'] + seq![' ']);
    assert(" < "@ =~= seq![' '] + seq!['<'] + seq![' ']);
    assert(" > "@ =~= seq![' '] + seq!['>'] + seq![' ']);
    assert(crate::sql::test_text(test, number) =~= test.column + seq![' '] + sign + seq![' ']
        + crate::sql::placeholder(number));
    let (eq, ne, lt, gt) = (seq!['='], seq!['<', '>'], seq!['<'], seq!['>']);
    assert(eq.len() == 1 && ne.len() == 2 && lt.len() == 1 && gt.len() == 1);
    assert(eq[0] != lt[0] && eq[0] != gt[0] && lt[0] != gt[0]);
    assert(passes(row, test) <==> means(sign, a, b));
}

/// A test that is given nothing lets every row pass, and otherwise only rows with that value.
pub proof fn law_test_without_a_value_lets_all_pass(row: Row, name: Seq<char>, value: Val)
    ensures
        passes(row, Test { column: name, op: Op::IsIfGiven, value }) <==> value is Null || column(
            row,
            name,
        ) == value,
{
}

} // verus!
