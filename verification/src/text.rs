//! Text: comparison, decimal numerals and joining.

use vstd::prelude::*;
use vstd::string::*;
use vstd::utf8::*;

verus! {

/// `String::push` of std appends the character.
pub assume_specification[ String::push ](text: &mut String, c: char)
    ensures
        final(text)@ == old(text)@.push(c),
;

/// Whether two texts hold the same characters.
pub fn same_text(a: &str, b: &str) -> (same: bool)
    ensures
        same == (a@ == b@),
{
    let left = a.as_bytes();
    let right = b.as_bytes();
    proof {
        encode_utf8_decode_utf8(a@);
        encode_utf8_decode_utf8(b@);
    }
    if left.len() != right.len() {
        return false;
    }
    let mut i: usize = 0;
    while i < left.len()
        invariant
            left@ == encode_utf8(a@),
            right@ == encode_utf8(b@),
            left@.len() == right@.len(),
            i <= left@.len(),
            forall|j: int| 0 <= j < i ==> left@[j] == right@[j],
        decreases left@.len() - i,
    {
        if left[i] != right[i] {
            return false;
        }
        i += 1;
    }
    assert(left@ =~= right@);
    true
}

/// The decimal digits of a number, without leading zeros.
pub open spec fn digits(n: nat) -> Seq<char>
    decreases n,
{
    if n < 10 {
        seq![(48 + n) as char]
    } else {
        digits(n / 10).push((48 + n % 10) as char)
    }
}

/// A number in decimal, with a minus sign before a negative one.
pub open spec fn numeral(n: int) -> Seq<char> {
    if n < 0 {
        seq!['-'] + digits((-n) as nat)
    } else {
        digits(n as nat)
    }
}

fn digit(d: u64) -> (c: char)
    requires
        d < 10,
    ensures
        c == (48 + d) as char,
{
    let byte: u8 = 48 + d as u8;
    byte as char
}

fn push_digits(out: &mut String, n: u64)
    ensures
        final(out)@ == old(out)@ + digits(n as nat),
    decreases n,
{
    if n < 10 {
        out.push(digit(n));
        assert(out@ =~= old(out)@ + digits(n as nat));
    } else {
        push_digits(out, n / 10);
        out.push(digit(n % 10));
        assert(out@ =~= old(out)@ + digits(n as nat));
    }
}

/// Writes a number in decimal at the end of `out`.
pub fn push_numeral(out: &mut String, n: i64)
    ensures
        final(out)@ == old(out)@ + numeral(n as int),
{
    if n < 0 {
        out.push('-');
        let magnitude: u64 = (-(n as i128)) as u64;
        push_digits(out, magnitude);
        assert(out@ =~= old(out)@ + numeral(n as int));
    } else {
        push_digits(out, n as u64);
    }
}

/// Writes a count in decimal at the end of `out`.
pub fn push_count(out: &mut String, n: usize)
    ensures
        final(out)@ == old(out)@ + numeral(n as int),
{
    push_digits(out, n as u64);
}

/// A number in decimal.
pub fn numeral_text(n: i64) -> (text: String)
    ensures
        text@ == numeral(n as int),
{
    let mut text = String::new();
    push_numeral(&mut text, n);
    assert(text@ =~= numeral(n as int));
    text
}

/// Two texts, one after the other.
pub fn concat(a: &str, b: &str) -> (text: String)
    ensures
        text@ == a@ + b@,
{
    let mut text = a.to_owned();
    text.append(b);
    text
}

/// What `str::to_lowercase` of std makes of a text, by the Unicode rules.
pub uninterp spec fn lowercase(text: Seq<char>) -> Seq<char>;

/// `str::to_lowercase` of std. Claims only that the outcome is a function of the text.
#[verifier::external_body]
pub(crate) fn to_lowercase(text: &str) -> (lower: String)
    ensures
        lower@ == lowercase(text@),
{
    text.to_lowercase()
}

/// The characters that Unicode counts as white space.
pub open spec fn white_space(c: char) -> bool {
    ||| '\u{9}' <= c <= '\u{d}'
    ||| c == ' '
    ||| c == '\u{85}'
    ||| c == '\u{a0}'
    ||| c == '\u{1680}'
    ||| '\u{2000}' <= c <= '\u{200a}'
    ||| c == '\u{2028}'
    ||| c == '\u{2029}'
    ||| c == '\u{202f}'
    ||| c == '\u{205f}'
    ||| c == '\u{3000}'
}

/// Whether a character is white space.
pub fn is_white_space(c: char) -> (white: bool)
    ensures
        white == white_space(c),
{
    ('\u{9}' <= c && c <= '\u{d}') || c == ' ' || c == '\u{85}' || c == '\u{a0}' || c == '\u{1680}'
        || ('\u{2000}' <= c && c <= '\u{200a}') || c == '\u{2028}' || c == '\u{2029}' || c
        == '\u{202f}' || c == '\u{205f}' || c == '\u{3000}'
}

/// The characters of a text.
pub fn chars_of(text: &str) -> (chars: Vec<char>)
    ensures
        chars@ == text@,
{
    let mut chars: Vec<char> = Vec::new();
    for c in it: text.chars()
        invariant
            chars@ == text@.take(it.index()),
            it.seq() == text@,
    {
        chars.push(c);
        assert(text@.take(it.index() + 1) =~= text@.take(it.index()).push(c));
    }
    assert(text@.take(text@.len() as int) =~= text@);
    chars
}

/// The longest stretches of a text that hold no white space.
pub open spec fn words(text: Seq<char>) -> Seq<Seq<char>>
    decreases text.len(),
{
    if text.len() == 0 {
        Seq::empty()
    } else {
        let head = text.drop_last();
        let c = text.last();
        if white_space(c) {
            words(head)
        } else if head.len() == 0 || white_space(head.last()) {
            words(head).push(seq![c])
        } else {
            words(head).drop_last().push(words(head).last().push(c))
        }
    }
}

proof fn lemma_in_word(text: Seq<char>)
    requires
        text.len() > 0,
        !white_space(text.last()),
    ensures
        words(text).len() > 0,
    decreases text.len(),
{
    if text.len() > 1 && !white_space(text.drop_last().last()) {
        lemma_in_word(text.drop_last());
    }
}

/// The longest stretches of a text that hold no white space.
pub fn words_of(text: &str) -> (all: Vec<String>)
    ensures
        all@.map_values(|s: String| s@) == words(text@),
{
    let chars = chars_of(text);
    let mut all: Vec<String> = Vec::new();
    let mut i: usize = 0;
    assert(all@.map_values(|s: String| s@) =~= words(chars@.take(0)));
    while i < chars.len()
        invariant
            i <= chars@.len(),
            all@.map_values(|s: String| s@) == words(chars@.take(i as int)),
        decreases chars@.len() - i,
    {
        let c = chars[i];
        let ghost head = chars@.take(i as int);
        let ghost before = all@.map_values(|s: String| s@);
        assert(chars@.take(i + 1).drop_last() =~= head);
        if !is_white_space(c) {
            if i == 0 || is_white_space(chars[i - 1]) {
                assert(i > 0 ==> head.last() == chars@[i - 1]);
                let mut word = String::new();
                word.push(c);
                assert(word@ =~= seq![c]);
                all.push(word);
                assert(all@.map_values(|s: String| s@) =~= before.push(word@));
            } else {
                assert(head.last() == chars@[i - 1]);
                proof {
                    lemma_in_word(head);
                }
                let last = all.len() - 1;
                let mut word = all[last].clone();
                word.push(c);
                all.set(last, word);
                assert(all@.map_values(|s: String| s@) =~= before.drop_last().push(
                    before.last().push(c),
                ));
            }
        }
        i += 1;
    }
    assert(chars@.take(i as int) =~= chars@);
    all
}

/// A character with its case dropped, if it is an ASCII letter.
pub open spec fn ascii_folded(c: char) -> char {
    if 'A' <= c && c <= 'Z' {
        (c as u32 + 32) as char
    } else {
        c
    }
}

/// Two texts are the same but for the case of ASCII letters.
pub open spec fn same_but_case(a: Seq<char>, b: Seq<char>) -> bool {
    &&& a.len() == b.len()
    &&& forall|i: int| 0 <= i < a.len() ==> ascii_folded(#[trigger] a[i]) == ascii_folded(b[i])
}

fn fold_ascii(c: char) -> (folded: char)
    ensures
        folded == ascii_folded(c),
{
    if 'A' <= c && c <= 'Z' {
        let byte: u8 = c as u8 + 32;
        byte as char
    } else {
        c
    }
}

/// Whether two texts are the same but for the case of ASCII letters.
pub fn eq_ignoring_case(a: &str, b: &str) -> (same: bool)
    ensures
        same == same_but_case(a@, b@),
{
    let left = chars_of(a);
    let right = chars_of(b);
    if left.len() != right.len() {
        return false;
    }
    let mut i: usize = 0;
    while i < left.len()
        invariant
            left@ == a@,
            right@ == b@,
            left@.len() == right@.len(),
            i <= left@.len(),
            forall|j: int| 0 <= j < i ==> ascii_folded(#[trigger] a@[j]) == ascii_folded(b@[j]),
        decreases left@.len() - i,
    {
        if fold_ascii(left[i]) != fold_ascii(right[i]) {
            assert(ascii_folded(a@[i as int]) != ascii_folded(b@[i as int]));
            return false;
        }
        i += 1;
    }
    true
}

/// The number that decimal digits stand for.
pub open spec fn number_of(text: Seq<char>) -> int
    decreases text.len(),
{
    if text.len() == 0 {
        0
    } else {
        number_of(text.drop_last()) * 10 + (text.last() as int - '0' as int)
    }
}

proof fn lemma_digits(n: nat)
    ensures
        number_of(digits(n)) == n,
        digits(n).len() > 0,
        forall|i: int|
            0 <= i < digits(n).len() ==> '0' as int <= (#[trigger] digits(n)[i]) as int <= '9' as int,
        n > 0 ==> digits(n)[0] != '0',
    decreases n,
{
    reveal_with_fuel(number_of, 2);
    if n >= 10 {
        lemma_digits(n / 10);
        assert(digits(n).drop_last() =~= digits(n / 10));
        let last = (48 + n % 10) as char;
        assert(last as int == 48 + n % 10);
    } else {
        assert(digits(n).drop_last() =~= Seq::<char>::empty());
        assert(digits(n)[0] as int == 48 + n);
    }
}

/// A number that is not negative reads back from its digits.
pub proof fn lemma_numeral_is_read(n: int)
    requires
        n >= 0,
    ensures
        number_of(numeral(n)) == n,
{
    lemma_digits(n as nat);
}

/// A number in decimal reads back as the number: a minus sign before a negative one, then digits
/// that stand for its size, without zeros before them.
pub proof fn law_numeral_reads_back(n: i64, text: String)
    requires
        call_ensures(numeral_text, (n,), text),
    ensures
        n >= 0 ==> number_of(text@) == n,
        n < 0 ==> text@[0] == '-' && number_of(text@.skip(1)) == -n,
        n > 0 ==> text@[0] != '0',
        forall|i: int|
            0 <= i < text@.len() && (n >= 0 || i > 0) ==> '0' as int <= (#[trigger] text@[i]) as int
                <= '9' as int,
{
    if n >= 0 {
        lemma_digits(n as nat);
    } else {
        lemma_digits((-n) as nat);
        assert(text@.skip(1) =~= digits((-n) as nat));
        assert forall|i: int| 0 < i < text@.len() implies '0' as int <= (#[trigger] text@[i]) as int
            <= '9' as int by {
            assert(text@[i] == digits((-n) as nat)[i - 1]);
        }
    }
}

/// Two texts are the same but for case exactly if they are as long, and where they differ, one
/// has a capital ASCII letter and the other one its small form.
pub proof fn law_case_of_ascii_letters_does_not_count(a: &str, b: &str, same: bool)
    requires
        call_ensures(eq_ignoring_case, (a, b), same),
    ensures
        same <==> a@.len() == b@.len() && forall|i: int|
            0 <= i < a@.len() ==> {
                ||| #[trigger] a@[i] == b@[i]
                ||| 'A' as int <= a@[i] as int <= 'Z' as int && b@[i] as int == a@[i] as int + 32
                ||| 'A' as int <= b@[i] as int <= 'Z' as int && a@[i] as int == b@[i] as int + 32
            },
{
    assert forall|c: char, d: char| #[trigger] ascii_folded(c) == #[trigger] ascii_folded(d) <==> {
        ||| c == d
        ||| 'A' as int <= c as int <= 'Z' as int && d as int == c as int + 32
        ||| 'A' as int <= d as int <= 'Z' as int && c as int == d as int + 32
    } by {}
    if a@.len() == b@.len() {
        if same {
            assert forall|i: int| 0 <= i < a@.len() implies {
                ||| #[trigger] a@[i] == b@[i]
                ||| 'A' as int <= a@[i] as int <= 'Z' as int && b@[i] as int == a@[i] as int + 32
                ||| 'A' as int <= b@[i] as int <= 'Z' as int && a@[i] as int == b@[i] as int + 32
            } by {
                assert(ascii_folded(a@[i]) == ascii_folded(b@[i]));
            }
        }
    }
}

/// White space between two texts keeps their words apart: the words of the whole are those of the
/// one and then those of the other.
pub proof fn law_white_space_parts_words(a: Seq<char>, space: char, b: Seq<char>)
    requires
        white_space(space),
    ensures
        words(a.push(space) + b) == words(a) + words(b),
    decreases b.len(),
{
    let whole = a.push(space) + b;
    if b.len() == 0 {
        assert(whole =~= a.push(space));
        assert(whole.drop_last() =~= a);
        assert(words(b) =~= Seq::<Seq<char>>::empty());
        assert(words(a) + words(b) =~= words(a));
    } else {
        let head = b.drop_last();
        law_white_space_parts_words(a, space, head);
        assert(whole.drop_last() =~= a.push(space) + head);
        assert(whole.last() == b.last());
        let c = b.last();
        if !white_space(c) {
            if head.len() == 0 {
                assert(whole.drop_last().last() == space);
                assert(words(head) =~= Seq::<Seq<char>>::empty());
                assert(words(a) + words(b) =~= (words(a) + words(head)).push(seq![c]));
            } else if white_space(head.last()) {
                assert(whole.drop_last().last() == head.last());
                assert(words(a) + words(b) =~= (words(a) + words(head)).push(seq![c]));
            } else {
                assert(whole.drop_last().last() == head.last());
                lemma_in_word(head);
                let both = words(a) + words(head);
                assert(both.last() == words(head).last());
                assert(words(a) + words(b) =~= both.drop_last().push(both.last().push(c)));
            }
        }
    }
}

/// A text without white space is one word, and an empty one is none.
pub proof fn law_text_without_white_space_is_a_word(text: Seq<char>)
    requires
        forall|i: int| 0 <= i < text.len() ==> !white_space(#[trigger] text[i]),
    ensures
        words(text) == if text.len() == 0 {
            Seq::<Seq<char>>::empty()
        } else {
            seq![text]
        },
    decreases text.len(),
{
    if text.len() > 0 {
        let head = text.drop_last();
        assert forall|i: int| 0 <= i < head.len() implies !white_space(#[trigger] head[i]) by {
            assert(!white_space(text[i]));
        }
        law_text_without_white_space_is_a_word(head);
        assert(!white_space(text[text.len() - 1]));
        if head.len() == 0 {
            assert(words(text) =~= seq![text]) by {
                assert(seq![text.last()] =~= text);
            }
        } else {
            assert(head.last() == head[head.len() - 1]);
            assert(head.push(text.last()) =~= text);
            assert(words(text) =~= seq![text]);
        }
    }
}

/// A text is put behind another one as it is.
pub proof fn law_texts_are_put_together(a: &str, b: &str, text: String)
    requires
        call_ensures(concat, (a, b), text),
    ensures
        text@.len() == a@.len() + b@.len(),
        text@.take(a@.len() as int) == a@,
        text@.skip(a@.len() as int) == b@,
{
    assert(text@.take(a@.len() as int) =~= a@);
    assert(text@.skip(a@.len() as int) =~= b@);
}

/// Words are not empty and hold no white space.
pub proof fn lemma_words_hold_no_white_space(text: Seq<char>)
    ensures
        forall|k: int| 0 <= k < words(text).len() ==> (#[trigger] words(text)[k]).len() > 0,
        forall|k: int, i: int|
            0 <= k < words(text).len() && 0 <= i < words(text)[k].len() ==> !white_space(
                #[trigger] words(text)[k][i],
            ),
    decreases text.len(),
{
    if text.len() > 0 {
        lemma_words_hold_no_white_space(text.drop_last());
        let head = text.drop_last();
        if !white_space(text.last()) && head.len() > 0 && !white_space(head.last()) {
            lemma_in_word(head);
            let before = words(head);
            let all = words(text);
            assert forall|k: int, i: int| 0 <= k < all.len() && 0 <= i
                < all[k].len() implies !white_space(#[trigger] all[k][i]) by {
                if k < all.len() - 1 {
                    assert(all[k] == before[k]);
                    assert(!white_space(before[k][i]));
                } else if i < before.last().len() {
                    assert(!white_space(before[before.len() - 1][i]));
                }
            }
        }
    }
}

} // verus!
