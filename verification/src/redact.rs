//! What a row shows of itself in a log.
//!
//! A row names its fields and how each is shown. Some are shown as they are. A text
//! that tells who someone is or what they said is shown as a digest of it or as its
//! length, or not at all.

use vstd::prelude::*;
use vstd::string::*;

use crate::sql::Real;
use crate::text::{push_count, push_numeral};

verus! {

/// How a field is shown.
pub enum Shown {
    /// A text as it is.
    Text(String),
    /// A nullable text as it is.
    NullableText(Option<String>),
    /// A number.
    Integer(i64),
    /// A nullable number.
    NullableInteger(Option<i64>),
    /// A flag.
    Flag(bool),
    /// A length.
    Count(usize),
    /// The length of something that may be missing.
    NullableCount(Option<usize>),
    /// A digest of this text, which is not shown itself.
    Digest(String),
    /// A digest of this text, if there is one.
    NullableDigest(Option<String>),
    /// A mark in place of a value, if there is one.
    Mark(Option<&'static str>),
    /// A floating-point number, rounded.
    Rounded(Real),
    /// A nullable floating-point number.
    NullableReal(Option<Real>),
}

/// A row as it is shown.
pub struct DebugRow {
    /// The name of the row's type.
    pub name: &'static str,
    /// The names of the fields, and how each is shown.
    pub fields: Vec<(&'static str, Shown)>,
    /// Whether no field was left out.
    pub complete: bool,
}

/// What has to be made outside of this module for a field to be shown.
#[derive(Clone, Debug, PartialEq, Eq)]
pub enum Wanted {
    /// Nothing.
    Nothing,
    /// The digest of a text.
    Digest(String),
    /// A floating-point number with two decimals.
    Rounded(Real),
    /// A floating-point number in full.
    Exact(Real),
}

/// How std writes a text for debugging (`{:?}`): between quotes, with escapes.
pub uninterp spec fn quoted(text: Seq<char>) -> Seq<char>;

/// The `Debug` form that std gives a text. Claims only that it is a function of the
/// text.
#[verifier::external_body]
pub(crate) fn quote(text: &str) -> (form: String)
    ensures
        form@ == quoted(text@),
{
    format!("{:?}", text)
}

/// A text for debugging, as a nullable one.
pub open spec fn some_of(text: Option<Seq<char>>) -> Seq<char> {
    match text {
        Some(t) => "Some("@ + t + ")"@,
        None => "None"@,
    }
}

/// The text that shows a field. `made` is what was made for it outside.
pub open spec fn shown_text(shown: Shown, made: Seq<char>) -> Seq<char> {
    match shown {
        Shown::Text(t) => quoted(t@),
        Shown::NullableText(t) => some_of(
            match t {
                Some(t) => Some(quoted(t@)),
                None => None,
            },
        ),
        Shown::Integer(n) => crate::text::numeral(n as int),
        Shown::NullableInteger(n) => some_of(
            match n {
                Some(n) => Some(crate::text::numeral(n as int)),
                None => None,
            },
        ),
        Shown::Flag(is) => if is {
            "true"@
        } else {
            "false"@
        },
        Shown::Count(n) => crate::text::numeral(n as int),
        Shown::NullableCount(n) => some_of(
            match n {
                Some(n) => Some(crate::text::numeral(n as int)),
                None => None,
            },
        ),
        Shown::Digest(_) => quoted(made),
        Shown::NullableDigest(t) => some_of(
            if t is Some {
                Some(quoted(made))
            } else {
                None
            },
        ),
        Shown::Mark(m) => some_of(
            match m {
                Some(m) => Some(quoted(m@)),
                None => None,
            },
        ),
        Shown::Rounded(_) => quoted(made),
        Shown::NullableReal(r) => some_of(
            if r is Some {
                Some(made)
            } else {
                None
            },
        ),
    }
}

/// The text that shows a field with its name.
pub open spec fn field_text(field: (&'static str, Shown), made: Seq<char>) -> Seq<char> {
    field.0@ + ": "@ + shown_text(field.1, made)
}

/// The texts that show the fields of a row.
pub open spec fn field_texts(fields: Seq<(&'static str, Shown)>, made: Seq<String>) -> Seq<
    Seq<char>,
> {
    Seq::new(fields.len(), |i: int| field_text(fields[i], made[i]@))
}

/// The text that shows a row.
pub open spec fn row_text(
    name: Seq<char>,
    fields: Seq<(&'static str, Shown)>,
    complete: bool,
    made: Seq<String>,
) -> Seq<char> {
    name + " { "@ + crate::sql::joined(field_texts(fields, made), ", "@) + if complete {
        " }"@
    } else {
        ", .. }"@
    }
}

fn push_some(out: &mut String, text: &str)
    ensures
        final(out)@ == old(out)@ + some_of(Some(text@)),
{
    out.append("Some(");
    out.append(text);
    out.append(")");
    assert(out@ =~= old(out)@ + some_of(Some(text@)));
}

fn push_shown(out: &mut String, shown: &Shown, made: &str)
    ensures
        final(out)@ == old(out)@ + shown_text(*shown, made@),
{
    match shown {
        Shown::Text(t) => out.append(quote(t.as_str()).as_str()),
        Shown::NullableText(t) => match t {
            Some(t) => push_some(out, quote(t.as_str()).as_str()),
            None => out.append("None"),
        },
        Shown::Integer(n) => push_numeral(out, *n),
        Shown::NullableInteger(n) => match n {
            Some(n) => {
                let mut text = String::new();
                push_numeral(&mut text, *n);
                assert(text@ =~= crate::text::numeral(*n as int));
                push_some(out, text.as_str());
            },
            None => out.append("None"),
        },
        Shown::Flag(is) => if *is {
            out.append("true");
        } else {
            out.append("false");
        },
        Shown::Count(n) => push_count(out, *n),
        Shown::NullableCount(n) => match n {
            Some(n) => {
                let mut text = String::new();
                push_count(&mut text, *n);
                assert(text@ =~= crate::text::numeral(*n as int));
                push_some(out, text.as_str());
            },
            None => out.append("None"),
        },
        Shown::Digest(_) => out.append(quote(made).as_str()),
        Shown::NullableDigest(t) => match t {
            Some(_) => push_some(out, quote(made).as_str()),
            None => out.append("None"),
        },
        Shown::Mark(m) => match m {
            Some(m) => push_some(out, quote(m).as_str()),
            None => out.append("None"),
        },
        Shown::Rounded(_) => out.append(quote(made).as_str()),
        Shown::NullableReal(r) => match r {
            Some(_) => push_some(out, made),
            None => out.append("None"),
        },
    }
}

impl DebugRow {
    /// What has to be made outside for each field.
    pub fn wanted(&self) -> (wanted: Vec<Wanted>)
        ensures
            wanted@.len() == self.fields@.len(),
            forall|i: int|
                0 <= i < wanted@.len() ==> #[trigger] wanted@[i] == want(self.fields@[i].1),
    {
        let mut wanted: Vec<Wanted> = Vec::new();
        let mut i: usize = 0;
        while i < self.fields.len()
            invariant
                i <= self.fields@.len(),
                wanted@.len() == i,
                forall|j: int| 0 <= j < i ==> #[trigger] wanted@[j] == want(self.fields@[j].1),
            decreases self.fields@.len() - i,
        {
            let next = match &self.fields[i].1 {
                Shown::Digest(t) => Wanted::Digest(t.clone()),
                Shown::NullableDigest(Some(t)) => Wanted::Digest(t.clone()),
                Shown::Rounded(r) => Wanted::Rounded(*r),
                Shown::NullableReal(Some(r)) => Wanted::Exact(*r),
                _ => Wanted::Nothing,
            };
            wanted.push(next);
            i += 1;
        }
        wanted
    }

    /// The text that shows the row, with what was made outside for each field.
    pub fn text(&self, made: &Vec<String>) -> (text: String)
        requires
            made@.len() == self.fields@.len(),
        ensures
            text@ == row_text(self.name@, self.fields@, self.complete, made@),
    {
        let mut text = self.name.to_owned();
        text.append(" { ");
        let ghost all = field_texts(self.fields@, made@);
        let ghost start = text@;
        let mut i: usize = 0;
        assert(text@ =~= start + crate::sql::joined(all.take(0), ", "@));
        while i < self.fields.len()
            invariant
                made@.len() == self.fields@.len(),
                i <= self.fields@.len(),
                all == field_texts(self.fields@, made@),
                text@ == start + crate::sql::joined(all.take(i as int), ", "@),
            decreases self.fields@.len() - i,
        {
            if i > 0 {
                text.append(", ");
            }
            text.append(self.fields[i].0);
            text.append(": ");
            push_shown(&mut text, &self.fields[i].1, made[i].as_str());
            proof {
                assert(all.take(i + 1).drop_last() =~= all.take(i as int));
                assert(all[i as int] == field_text(self.fields@[i as int], made@[i as int]@));
                assert(text@ =~= start + crate::sql::joined(all.take(i + 1), ", "@));
            }
            i += 1;
        }
        assert(all.take(i as int) =~= all);
        if self.complete {
            text.append(" }");
        } else {
            text.append(", .. }");
        }
        assert(text@ =~= row_text(self.name@, self.fields@, self.complete, made@));
        text
    }
}

/// What has to be made outside for a field.
pub open spec fn want(shown: Shown) -> Wanted {
    match shown {
        Shown::Digest(t) => Wanted::Digest(t),
        Shown::NullableDigest(Some(t)) => Wanted::Digest(t),
        Shown::Rounded(r) => Wanted::Rounded(r),
        Shown::NullableReal(Some(r)) => Wanted::Exact(r),
        _ => Wanted::Nothing,
    }
}

/// Two fields differ at most in a text or a number that is not shown itself.
pub open spec fn alike(a: Shown, b: Shown) -> bool {
    match (a, b) {
        (Shown::Digest(_), Shown::Digest(_)) => true,
        (Shown::NullableDigest(x), Shown::NullableDigest(y)) => x is Some <==> y is Some,
        (Shown::Rounded(_), Shown::Rounded(_)) => true,
        (Shown::NullableReal(x), Shown::NullableReal(y)) => x is Some <==> y is Some,
        _ => a == b,
    }
}

/// Nothing leaks: two rows that differ only in texts that are shown as digests, and in
/// floating-point numbers, are shown by the same text wherever what was made of these outside
/// is the same. So the text tells of them nothing but that.
pub proof fn law_hidden_texts_do_not_leak(
    name: Seq<char>,
    a: Seq<(&'static str, Shown)>,
    b: Seq<(&'static str, Shown)>,
    complete: bool,
    made: Seq<String>,
)
    requires
        a.len() == b.len(),
        forall|i: int|
            0 <= i < a.len() ==> (#[trigger] a[i]).0@ == b[i].0@ && alike(a[i].1, b[i].1),
    ensures
        row_text(name, a, complete, made) == row_text(name, b, complete, made),
{
    assert forall|i: int| 0 <= i < a.len() implies #[trigger] field_texts(a, made)[i]
        == field_texts(b, made)[i] by {
        assert(a[i].0@ == b[i].0@ && alike(a[i].1, b[i].1));
    }
    assert(field_texts(a, made) =~= field_texts(b, made));
}

/// A copy of a nullable text.
pub fn copy_text(text: &Option<String>) -> (copy: Option<String>)
    ensures
        copy == *text,
{
    match text {
        Some(t) => Some(t.clone()),
        None => None,
    }
}

/// How many characters a nullable text has.
pub open spec fn chars_if_any(text: Option<String>) -> Option<usize> {
    match text {
        Some(t) => Some(t@.len() as usize),
        None => None,
    }
}

/// How many characters a nullable text has.
pub fn count_if_any(text: &Option<String>) -> (count: Option<usize>)
    ensures
        count == chars_if_any(*text),
{
    match text {
        Some(t) => Some(t.as_str().unicode_len()),
        None => None,
    }
}

/// How many characters a nullable text has: 0 where it is missing.
pub open spec fn chars_or_zero(text: Option<String>) -> usize {
    match text {
        Some(t) => t@.len() as usize,
        None => 0,
    }
}

/// How many characters a nullable text has: 0 where it is missing.
pub fn count_or_zero(text: &Option<String>) -> (count: usize)
    ensures
        count == chars_or_zero(*text),
{
    match text {
        Some(t) => t.as_str().unicode_len(),
        None => 0,
    }
}

/// A mark in place of a text, if there is one.
pub open spec fn mark(text: Option<String>, mark: &'static str) -> Option<&'static str> {
    if text is Some {
        Some(mark)
    } else {
        None
    }
}

/// A mark in place of a text, if there is one.
pub fn mark_if_any(text: &Option<String>, with: &'static str) -> (shown: Option<&'static str>)
    ensures
        shown == mark(*text, with),
{
    match text {
        Some(_) => Some(with),
        None => None,
    }
}

/// What has to be made for a field is made of the field itself: the digest of the text that is
/// hidden, and the number that is shown; and nothing for what is shown as it is.
pub proof fn law_digests_are_of_the_hidden_texts(row: DebugRow, wanted: Vec<Wanted>, i: int)
    requires
        call_ensures(DebugRow::wanted, (&row,), wanted),
        0 <= i < row.fields@.len(),
    ensures
        wanted@.len() == row.fields@.len(),
        row.fields@[i].1 matches Shown::Digest(t) ==> wanted@[i] == Wanted::Digest(t),
        row.fields@[i].1 matches Shown::NullableDigest(Some(t)) ==> wanted@[i] == Wanted::Digest(t),
        row.fields@[i].1 matches Shown::NullableDigest(None) ==> wanted@[i] is Nothing,
        row.fields@[i].1 matches Shown::Rounded(r) ==> wanted@[i] == Wanted::Rounded(r),
        row.fields@[i].1 matches Shown::NullableReal(Some(r)) ==> wanted@[i] == Wanted::Exact(r),
        row.fields@[i].1 is Text || row.fields@[i].1 is NullableText || row.fields@[i].1 is Integer
            || row.fields@[i].1 is NullableInteger || row.fields@[i].1 is Flag || row.fields@[i].1
            is Count || row.fields@[i].1 is NullableCount || row.fields@[i].1 is Mark ==> wanted@[i]
            is Nothing,
{
}

/// `part` shows a field under its name.
pub open spec fn shows_by_name(
    field: (&'static str, Shown),
    made: Seq<char>,
    part: Seq<char>,
) -> bool {
    let shown = part.skip(field.0@.len() as int + 2);
    part == field.0@ + ": "@ + shown && shows(field.1, made, shown)
}

/// A row shows its name and its fields, one after the other with a comma between them, each under
/// its name; and, where it does not show all of them, that there are more.
pub proof fn law_row_shows_its_fields(row: DebugRow, made: &Vec<String>, text: String)
    requires
        made@.len() == row.fields@.len(),
        call_ensures(DebugRow::text, (&row, made), text),
    ensures
        exists|parts: Seq<Seq<char>>|
            {
                &&& text@ == row.name@ + " { "@ + #[trigger] crate::sql::joined(parts, ", "@)
                    + if row.complete {
                    " }"@
                } else {
                    ", .. }"@
                }
                &&& parts.len() == row.fields@.len()
                &&& forall|i: int|
                    0 <= i < parts.len() ==> shows_by_name(
                        row.fields@[i],
                        made@[i]@,
                        #[trigger] parts[i],
                    )
            },
{
    reveal_strlit(": ");
    let parts = field_texts(row.fields@, made@);
    assert forall|i: int| 0 <= i < parts.len() implies shows_by_name(
        row.fields@[i],
        made@[i]@,
        #[trigger] parts[i],
    ) by {
        let shown = shown_text(row.fields@[i].1, made@[i]@);
        assert(parts[i].skip(row.fields@[i].0@.len() as int + 2) =~= shown);
        lemma_shows(row.fields@[i].1, made@[i]@);
    }
    assert(text@ == row.name@ + " { "@ + crate::sql::joined(parts, ", "@) + if row.complete {
        " }"@
    } else {
        ", .. }"@
    });
}

/// `shown` is how a field shows itself: a text between quotes, a number in digits, a flag as a
/// word, a length in digits, what was made in place of what is hidden, and what may be missing as
/// missing or as something.
pub open spec fn shows(field: Shown, made: Seq<char>, shown: Seq<char>) -> bool {
    match field {
        Shown::Text(t) => shown == quoted(t@),
        Shown::NullableText(None) => shown == "None"@,
        Shown::NullableText(Some(t)) => shown == "Some("@ + quoted(t@) + ")"@,
        Shown::Integer(n) => shown == crate::text::numeral(n as int),
        Shown::NullableInteger(None) => shown == "None"@,
        Shown::NullableInteger(Some(n)) => shown == "Some("@ + crate::text::numeral(n as int)
            + ")"@,
        Shown::Flag(true) => shown == "true"@,
        Shown::Flag(false) => shown == "false"@,
        Shown::Count(n) => crate::text::number_of(shown) == n,
        Shown::NullableCount(None) => shown == "None"@,
        Shown::NullableCount(Some(n)) => shown == "Some("@ + crate::text::numeral(n as int) + ")"@,
        Shown::Digest(_) => shown == quoted(made),
        Shown::NullableDigest(None) => shown == "None"@,
        Shown::NullableDigest(Some(_)) => shown == "Some("@ + quoted(made) + ")"@,
        Shown::Mark(None) => shown == "None"@,
        Shown::Mark(Some(m)) => shown == "Some("@ + quoted(m@) + ")"@,
        Shown::Rounded(_) => shown == quoted(made),
        Shown::NullableReal(None) => shown == "None"@,
        Shown::NullableReal(Some(_)) => shown == "Some("@ + made + ")"@,
    }
}

proof fn lemma_shows(field: Shown, made: Seq<char>)
    ensures
        shows(field, made, shown_text(field, made)),
{
    if let Shown::Count(n) = field {
        crate::text::lemma_numeral_is_read(n as int);
    }
}

} // verus!
