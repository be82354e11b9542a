//! Texts that carry maps: the stored watermark of the thin index and the stored
//! position of one source table.

use std::collections::BTreeMap;

use vstd::prelude::*;

use crate::keyed::Keyed;

verus! {

/// The texts of a map.
pub open spec fn texts(map: Map<Seq<char>, String>) -> Map<Seq<char>, Seq<char>> {
    map.map_values(|s: String| s@)
}

/// What `serde_json::from_str` reads from a text as a map from texts to texts, and
/// `None` where it reports an error.
pub uninterp spec fn parsed_texts(json: Seq<char>) -> Option<Map<Seq<char>, Seq<char>>>;

/// What `serde_json::to_string` writes for a map from texts to texts.
pub uninterp spec fn printed_texts(map: Map<Seq<char>, Seq<char>>) -> Seq<char>;

/// What `serde_json::from_str` reads from a text as a map from texts to nullable
/// 64-bit integers, and `None` where it reports an error.
pub uninterp spec fn parsed_numbers(json: Seq<char>) -> Option<Map<Seq<char>, Option<i64>>>;

/// What `serde_json::to_string` writes for a map from texts to nullable 64-bit
/// integers.
pub uninterp spec fn printed_numbers(map: Map<Seq<char>, Option<i64>>) -> Seq<char>;

/// `serde_json::from_str` for a map from texts to texts. Claims that the outcome is
/// a function of the text, and that an error gives `None`.
#[verifier::external_body]
fn parse_texts(json: &str) -> (pairs: Option<Vec<(String, String)>>)
    ensures
        match pairs {
            Some(p) => parsed_texts(json@) == Some(texts(crate::keyed::paired(p@))),
            None => parsed_texts(json@) is None,
        },
{
    let map: BTreeMap<String, String> = serde_json::from_str(json).ok()?;
    Some(map.into_iter().collect())
}

/// `serde_json::to_string` for a map from texts to texts. Claims that the outcome is
/// a function of the map, and that `serde_json::from_str` reads the map back from
/// it.
#[verifier::external_body]
fn print_texts(pairs: &Vec<(String, String)>) -> (json: String)
    ensures
        json@ == printed_texts(texts(crate::keyed::paired(pairs@))),
        parsed_texts(json@) == Some(texts(crate::keyed::paired(pairs@))),
{
    let map: BTreeMap<String, String> = pairs.iter().cloned().collect();
    serde_json::to_string(&map).unwrap_or_default()
}

/// `serde_json::from_str` for a map from texts to nullable integers. Claims that the
/// outcome is a function of the text, and that an error gives `None`.
#[verifier::external_body]
pub(crate) fn parse_numbers(json: &str) -> (pairs: Option<Vec<(String, Option<i64>)>>)
    ensures
        match pairs {
            Some(p) => parsed_numbers(json@) == Some(crate::keyed::paired(p@)),
            None => parsed_numbers(json@) is None,
        },
{
    let map: BTreeMap<String, Option<i64>> = serde_json::from_str(json).ok()?;
    Some(map.into_iter().collect())
}

/// `serde_json::to_string` for a map from texts to nullable integers. Claims that the
/// outcome is a function of the map, and that `serde_json::from_str` reads the map
/// back from it.
#[verifier::external_body]
pub(crate) fn print_numbers(pairs: &Vec<(String, Option<i64>)>) -> (json: String)
    ensures
        json@ == printed_numbers(crate::keyed::paired(pairs@)),
        parsed_numbers(json@) == Some(crate::keyed::paired(pairs@)),
{
    let map: BTreeMap<String, Option<i64>> = pairs.iter().cloned().collect();
    serde_json::to_string(&map).unwrap_or_default()
}

/// What a stored watermark map says: the position text of each source table. A text
/// that is no such map says nothing of any table.
pub open spec fn stored_positions(json: Option<Seq<char>>) -> Map<Seq<char>, Seq<char>> {
    match json {
        Some(j) => match parsed_texts(j) {
            Some(m) => m,
            None => Map::empty(),
        },
        None => Map::empty(),
    }
}

/// Reads a stored watermark map. Nothing stored, a text of the old form with bare
/// numbers and a broken text all give the empty map, so that every table is read
/// from its beginning.
pub fn read_positions(json: Option<&str>) -> (positions: Keyed<String>)
    ensures
        texts(positions@) == stored_positions(match json {
            Some(j) => Some(j@),
            None => None,
        }),
{
    let parsed = match json {
        Some(j) => parse_texts(j),
        None => None,
    };
    match parsed {
        Some(pairs) => positions_of(pairs),
        None => {
            let positions: Keyed<String> = Keyed::new();
            assert(texts(positions@) =~= Map::<Seq<char>, Seq<char>>::empty());
            positions
        },
    }
}

/// The map that the pairs of a watermark make.
pub fn positions_of(pairs: Vec<(String, String)>) -> (positions: Keyed<String>)
    ensures
        positions@ == crate::keyed::paired(pairs@),
{
    let mut positions: Keyed<String> = Keyed::new();
    let mut i: usize = 0;
    while i < pairs.len()
        invariant
            i <= pairs@.len(),
            positions@ == crate::keyed::paired(pairs@.take(i as int)),
        decreases pairs@.len() - i,
    {
        positions.set(pairs[i].0.clone(), pairs[i].1.clone());
        assert(pairs@.take(i + 1).drop_last() =~= pairs@.take(i as int));
        i += 1;
    }
    assert(pairs@.take(i as int) =~= pairs@);
    positions
}

/// The text of a watermark map. Reading it gives the map back.
pub fn write_positions(positions: &Keyed<String>) -> (json: String)
    ensures
        json@ == printed_texts(texts(positions@)),
        stored_positions(Some(json@)) == texts(positions@),
{
    print_texts(&positions.pairs())
}

/// A watermark that was written is read back table by table, as it was.
pub proof fn law_written_watermark_is_read_back(
    positions: Keyed<String>,
    json: String,
    text: &str,
    again: Keyed<String>,
    table: &str,
    stored: Option<&String>,
    read: Option<&String>,
)
    requires
        call_ensures(write_positions, (&positions,), json),
        text@ == json@,
        call_ensures(read_positions, (Some(text),), again),
        call_ensures(Keyed::<String>::get, (&positions, table), stored),
        call_ensures(Keyed::<String>::get, (&again, table), read),
    ensures
        read is Some <==> stored is Some,
        read is Some ==> read->0@ == stored->0@,
{
    assert(texts(again@) == texts(positions@));
    assert(texts(again@).contains_key(table@) == again@.contains_key(table@));
    assert(texts(positions@).contains_key(table@) == positions@.contains_key(table@));
    if read is Some {
        assert(texts(again@)[table@] == texts(positions@)[table@]);
    }
}

/// Nothing stored, and a text that is no map of texts, say nothing of any table; a map says of
/// each of its tables what stands in it.
pub proof fn law_unreadable_watermark_says_nothing(
    text: &str,
    positions: Keyed<String>,
    none: Keyed<String>,
    table: &str,
    read: Option<&String>,
    unread: Option<&String>,
)
    requires
        call_ensures(read_positions, (Some(text),), positions),
        call_ensures(read_positions, (None::<&str>,), none),
        call_ensures(Keyed::<String>::get, (&positions, table), read),
        call_ensures(Keyed::<String>::get, (&none, table), unread),
    ensures
        unread is None,
        parsed_texts(text@) is None ==> read is None,
        parsed_texts(text@) matches Some(map) ==> {
            &&& read is Some <==> map.contains_key(table@)
            &&& read is Some ==> read->0@ == map[table@]
        },
{
    assert(texts(positions@).contains_key(table@) == positions@.contains_key(table@));
    assert(texts(none@).contains_key(table@) == none@.contains_key(table@));
    if read is Some {
        assert(texts(positions@)[table@] == positions@[table@]@);
    }
}

/// The positions of a map, taken out as pairs and put together again, are the same positions.
pub proof fn law_pairs_make_the_map_again(
    positions: Keyed<String>,
    pairs: Vec<(String, String)>,
    again: Keyed<String>,
    table: &str,
    stored: Option<&String>,
    read: Option<&String>,
)
    requires
        call_ensures(Keyed::<String>::pairs, (&positions,), pairs),
        call_ensures(positions_of, (pairs,), again),
        call_ensures(Keyed::<String>::get, (&positions, table), stored),
        call_ensures(Keyed::<String>::get, (&again, table), read),
    ensures
        read is Some <==> stored is Some,
        read is Some ==> *read->0 == *stored->0,
{
}

} // verus!
