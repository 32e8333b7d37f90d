//! What holds of every segmentation, whatever the text, the categories and
//! the weights.

use crate::category::CategoryTag;
use crate::segmenter::{padded_tags, padded_units, scan, spec_boundary_prediction, tokens_of};
use crate::text::{concat, total_len};
use vstd::prelude::*;

verus! {

/// Putting one more part at the end of a list puts it at the end of the whole.
pub proof fn lemma_concat_push(parts: Seq<Seq<char>>, part: Seq<char>)
    ensures
        concat(parts.push(part)) == concat(parts) + part,
        total_len(parts.push(part)) == total_len(parts) + part.len(),
{
    assert(parts.push(part).drop_last() =~= parts);
}

/// The whole is as long as its parts together.
pub proof fn lemma_concat_len(parts: Seq<Seq<char>>)
    ensures
        concat(parts).len() == total_len(parts),
    decreases parts.len(),
{
    if parts.len() > 0 {
        lemma_concat_len(parts.drop_last());
    }
}

/// A text cut into its single characters and put together again is the text.
pub proof fn lemma_concat_singles(text: Seq<char>)
    ensures
        concat(text.map_values(|c: char| seq![c])) == text,
    decreases text.len(),
{
    let singles = text.map_values(|c: char| seq![c]);
    if text.len() == 0 {
        assert(concat(singles) =~= text);
    } else {
        lemma_concat_singles(text.drop_last());
        assert(singles.drop_last() =~= text.drop_last().map_values(|c: char| seq![c]));
        assert(concat(singles) =~= text);
    }
}

/// At every point of a pass, the complete tokens and the growing one hold
/// exactly the units taken so far, in order.
pub proof fn lemma_scan_keeps_text(
    units: Seq<Seq<char>>,
    tags: Seq<CategoryTag>,
    table: Map<Seq<char>, Map<Seq<char>, i32>>,
    i: int,
)
    requires
        4 <= i <= units.len(),
    ensures
        concat(scan(units, tags, table, i).done) + scan(units, tags, table, i).word == concat(
            units.subrange(3, i),
        ),
    decreases i,
{
    let now = scan(units, tags, table, i);
    if i == 4 {
        assert(units.subrange(3, 4).drop_last() =~= Seq::<Seq<char>>::empty());
        assert(concat(now.done) + now.word =~= concat(units.subrange(3, 4)));
    } else {
        let before = scan(units, tags, table, i - 1);
        lemma_scan_keeps_text(units, tags, table, i - 1);
        lemma_concat_push(before.done, before.word);
        lemma_concat_push(units.subrange(3, i - 1), units[i - 1]);
        assert(units.subrange(3, i) =~= units.subrange(3, i - 1).push(units[i - 1]));
        assert(concat(now.done) + now.word =~= concat(before.done) + before.word + units[i - 1]);
    }
}

/// Where no unit is empty, no token of a pass is empty, the growing one included,
/// and there are fewer complete tokens than units taken.
pub proof fn lemma_scan_tokens_nonempty(
    units: Seq<Seq<char>>,
    tags: Seq<CategoryTag>,
    table: Map<Seq<char>, Map<Seq<char>, i32>>,
    i: int,
)
    requires
        4 <= i <= units.len(),
        forall|j: int| 3 <= j < i ==> (#[trigger] units[j]).len() >= 1,
    ensures
        scan(units, tags, table, i).word.len() >= 1,
        scan(units, tags, table, i).done.len() < i - 3,
        forall|k: int|
            0 <= k < scan(units, tags, table, i).done.len() ==> (#[trigger] scan(
                units,
                tags,
                table,
                i,
            ).done[k]).len() >= 1,
    decreases i,
{
    if i > 4 {
        lemma_scan_tokens_nonempty(units, tags, table, i - 1);
        assert(units[i - 1].len() >= 1);
    } else {
        assert(units[3].len() >= 1);
    }
}

/// Round trip of a pass: the tokens of a padded text, one after the other,
/// are the units between the padding, one after the other.
pub proof fn lemma_prediction_round_trip(
    units: Seq<Seq<char>>,
    tags: Seq<CategoryTag>,
    table: Map<Seq<char>, Map<Seq<char>, i32>>,
)
    requires
        units.len() >= 7,
    ensures
        concat(spec_boundary_prediction(units, tags, table)) == concat(
            units.subrange(3, units.len() - 3),
        ),
{
    let end = scan(units, tags, table, units.len() - 3);
    lemma_scan_keeps_text(units, tags, table, units.len() - 3);
    lemma_concat_push(end.done, end.word);
}

/// Round trip: the tokens of a text, one after the other with nothing
/// between them, are the text.
pub proof fn lemma_round_trip(
    text: Seq<char>,
    tags: Seq<CategoryTag>,
    table: Map<Seq<char>, Map<Seq<char>, i32>>,
)
    ensures
        concat(tokens_of(text, tags, table)) == text,
{
    if text.len() == 0 {
        assert(concat(tokens_of(text, tags, table)) =~= text);
    } else {
        let units = padded_units(text);
        lemma_prediction_round_trip(units, padded_tags(tags), table);
        assert(units.subrange(3, units.len() - 3) =~= text.map_values(|c: char| seq![c]));
        lemma_concat_singles(text);
    }
}

/// No token is empty; a text that is not empty has at least one token, and
/// no text has more tokens than characters.
pub proof fn lemma_tokens_nonempty(
    text: Seq<char>,
    tags: Seq<CategoryTag>,
    table: Map<Seq<char>, Map<Seq<char>, i32>>,
)
    ensures
        forall|k: int|
            0 <= k < tokens_of(text, tags, table).len() ==> (#[trigger] tokens_of(
                text,
                tags,
                table,
            )[k]).len() >= 1,
        text.len() > 0 ==> tokens_of(text, tags, table).len() >= 1,
        tokens_of(text, tags, table).len() <= text.len(),
{
    if text.len() > 0 {
        let units = padded_units(text);
        let singles = text.map_values(|c: char| seq![c]);
        assert forall|j: int| 3 <= j < units.len() - 3 implies (#[trigger] units[j]).len()
            >= 1 by {
            assert(units[j] == singles[j - 3]);
        }
        lemma_scan_tokens_nonempty(units, padded_tags(tags), table, units.len() - 3);
    }
}

/// Coverage: the lengths of the tokens add up to the length of the text.
pub proof fn lemma_coverage(
    text: Seq<char>,
    tags: Seq<CategoryTag>,
    table: Map<Seq<char>, Map<Seq<char>, i32>>,
)
    ensures
        total_len(tokens_of(text, tags, table)) == text.len(),
{
    lemma_round_trip(text, tags, table);
    lemma_concat_len(tokens_of(text, tags, table));
}

} // verus!
