//! The segmenter itself: it pads the text, moves the window over it, and
//! cuts wherever the score of a gap is above zero.

use crate::category::{construct_hashmap, get_key_tag, spec_tag, tag_in, CategoryTag};
use crate::model::{construct_scorer_hashmap, model_weights};
use crate::laws::{lemma_coverage, lemma_round_trip, lemma_tokens_nonempty};
use crate::text::{
    char_to_string, concat, construct_words, join, lemma_views_push, string, total_len, views,
};
use crate::weights::WeightTable;
use crate::window::{compute_score, context_at, remember, score, ContextWindow, Decision};
use std::collections::HashMap;
use vstd::prelude::*;
use vstd::string::StringExecFns;

verus! {

/// How far a pass over a padded text has come: the tokens that are
/// complete, the token that is still growing, and the last three decisions.
#[verifier::ext_equal]
pub struct Progress {
    pub done: Seq<Seq<char>>,
    pub word: Seq<char>,
    pub history: Seq<Decision>,
}

/// The pass over a padded text, once every position before `i` has gone
/// into a token. The first unit of the text proper, at position three, opens
/// the first token; each later unit either joins the growing token or, where
/// the gap before it scores above zero, opens a new one.
pub open spec fn scan(
    units: Seq<Seq<char>>,
    tags: Seq<CategoryTag>,
    table: Map<Seq<char>, Map<Seq<char>, i32>>,
    i: int,
) -> Progress
    decreases i,
{
    if i <= 4 {
        Progress {
            done: Seq::empty(),
            word: units[3],
            history: seq![Decision::Unknown, Decision::Unknown, Decision::Unknown],
        }
    } else {
        let before = scan(units, tags, table, i - 1);
        if score(context_at(units, tags, before.history, i - 1), table) > 0 {
            Progress {
                done: before.done.push(before.word),
                word: units[i - 1],
                history: remember(before.history, Decision::Boundary),
            }
        } else {
            Progress {
                done: before.done,
                word: before.word + units[i - 1],
                history: remember(before.history, Decision::Inside),
            }
        }
    }
}

/// The tokens of a padded text: three units of padding at either end are
/// context only, and what lies between them is cut into tokens.
pub open spec fn spec_boundary_prediction(
    units: Seq<Seq<char>>,
    tags: Seq<CategoryTag>,
    table: Map<Seq<char>, Map<Seq<char>, i32>>,
) -> Seq<Seq<char>> {
    let end = scan(units, tags, table, units.len() - 3);
    end.done.push(end.word)
}

/// A text as the window reads it: every character a unit of its own, with
/// three markers before the first and three after the last.
pub open spec fn padded_units(text: Seq<char>) -> Seq<Seq<char>> {
    seq!["B3"@, "B2"@, "B1"@] + text.map_values(|c: char| seq![c]) + seq!["E1"@, "E2"@, "E3"@]
}

/// The categories of a padded text: the markers count as `Other`.
pub open spec fn padded_tags(tags: Seq<CategoryTag>) -> Seq<CategoryTag> {
    seq![CategoryTag::Other, CategoryTag::Other, CategoryTag::Other] + tags + seq![
        CategoryTag::Other,
        CategoryTag::Other,
        CategoryTag::Other,
    ]
}

/// The tokens of `text` where its characters have the categories `tags` and
/// the weights are those of `table`. The empty text has no token.
pub open spec fn tokens_of(
    text: Seq<char>,
    tags: Seq<CategoryTag>,
    table: Map<Seq<char>, Map<Seq<char>, i32>>,
) -> Seq<Seq<char>> {
    if text.len() == 0 {
        Seq::empty()
    } else {
        spec_boundary_prediction(padded_units(text), padded_tags(tags), table)
    }
}

/// The tokens of `text` by the pretrained model.
pub open spec fn spec_segment(text: Seq<char>) -> Seq<Seq<char>> {
    tokens_of(text, text.map_values(|c: char| spec_tag(c)), model_weights())
}

/// Cuts a padded text into tokens. `segments` holds the units and `ctype`
/// the category of each; the first three and the last three units are
/// padding and go into no token, so there must be at least seven.
pub fn boundary_prediction(
    segments: Vec<String>,
    ctype: Vec<CategoryTag>,
    str_score_map: &WeightTable,
) -> (result: Vec<String>)
    requires
        segments.len() >= 7,
        ctype.len() >= segments.len(),
    ensures
        views(result@) == spec_boundary_prediction(views(segments@), ctype@, str_score_map@),
{
    let ghost units = views(segments@);
    let ghost table = str_score_map@;
    let mut result: Vec<String> = Vec::new();
    let mut ngram_info = ContextWindow::seed(&segments, &ctype);
    let mut word = segments[3].clone();
    let end = segments.len() - 3;
    let mut i: usize = 4;
    assert(views(result@) =~= scan(units, ctype@, table, 4).done);
    while i < end
        invariant
            4 <= i <= end,
            end == segments.len() - 3,
            ctype.len() >= segments.len(),
            units == views(segments@),
            table == str_score_map@,
            ngram_info.wf(),
            ngram_info@ == context_at(
                units,
                ctype@,
                scan(units, ctype@, table, i as int).history,
                i - 1,
            ),
            views(result@) == scan(units, ctype@, table, i as int).done,
            word@ == scan(units, ctype@, table, i as int).word,
        decreases end - i,
    {
        let ghost before = scan(units, ctype@, table, i as int);
        ngram_info.advance(segments[i + 2].clone(), ctype[i + 2]);
        assert(ngram_info@ =~= context_at(units, ctype@, before.history, i as int));
        let total_score = compute_score(&ngram_info, str_score_map);
        if total_score > 0 {
            proof {
                lemma_views_push(result@, word);
            }
            result.push(word);
            word = String::new();
            ngram_info.record(Decision::Boundary);
        } else {
            ngram_info.record(Decision::Inside);
        }
        word.append(segments[i].as_str());
        assert(units[i as int] == segments@[i as int]@);
        assert(word@ =~= scan(units, ctype@, table, i + 1).word);
        assert(ngram_info@ =~= context_at(
            units,
            ctype@,
            scan(units, ctype@, table, i + 1).history,
            i as int,
        ));
        i = i + 1;
    }
    proof {
        lemma_views_push(result@, word);
    }
    result.push(word);
    result
}

/// Cuts the text `chars` into tokens, with the categories that `char_map`
/// gives and the weights of `str_score_map`.
pub fn segment_with(
    chars: &Vec<char>,
    char_map: &HashMap<u32, CategoryTag>,
    str_score_map: &WeightTable,
) -> (tokens: Vec<String>)
    ensures
        views(tokens@) == tokens_of(
            chars@,
            chars@.map_values(|c: char| tag_in(char_map@, c)),
            str_score_map@,
        ),
{
    if chars.len() == 0 {
        let tokens: Vec<String> = Vec::new();
        assert(views(tokens@) =~= Seq::<Seq<char>>::empty());
        return tokens;
    }
    let ghost tags = chars@.map_values(|c: char| tag_in(char_map@, c));
    let mut segments: Vec<String> = Vec::new();
    let mut ctype: Vec<CategoryTag> = Vec::new();
    segments.push(string("B3"));
    segments.push(string("B2"));
    segments.push(string("B1"));
    ctype.push(CategoryTag::Other);
    ctype.push(CategoryTag::Other);
    ctype.push(CategoryTag::Other);
    let ghost head = seq!["B3"@, "B2"@, "B1"@];
    let ghost others = seq![CategoryTag::Other, CategoryTag::Other, CategoryTag::Other];
    assert(views(segments@) =~= head);
    assert(ctype@ =~= others);
    let mut i: usize = 0;
    while i < chars.len()
        invariant
            i <= chars.len(),
            tags == chars@.map_values(|c: char| tag_in(char_map@, c)),
            head == seq!["B3"@, "B2"@, "B1"@],
            others == seq![CategoryTag::Other, CategoryTag::Other, CategoryTag::Other],
            views(segments@) == head + chars@.take(i as int).map_values(|c: char| seq![c]),
            ctype@ == others + tags.take(i as int),
        decreases chars.len() - i,
    {
        let unit = char_to_string(chars[i]);
        let tag = get_key_tag(chars[i], char_map);
        proof {
            lemma_views_push(segments@, unit);
            assert(chars@.take(i + 1).map_values(|c: char| seq![c]) =~= chars@.take(
                i as int,
            ).map_values(|c: char| seq![c]).push(unit@));
            assert(head + chars@.take(i + 1).map_values(|c: char| seq![c]) =~= (head + chars@.take(
                i as int,
            ).map_values(|c: char| seq![c])).push(unit@));
            assert(others + tags.take(i + 1) =~= (others + tags.take(i as int)).push(tag));
        }
        segments.push(unit);
        ctype.push(tag);
        i = i + 1;
    }
    assert(chars@.take(chars.len() as int) =~= chars@);
    assert(tags.take(chars.len() as int) =~= tags);
    let ghost inner = views(segments@);
    let ghost inner_tags = ctype@;
    let end1 = string("E1");
    let end2 = string("E2");
    let end3 = string("E3");
    proof {
        lemma_views_push(segments@, end1);
        lemma_views_push(segments@.push(end1), end2);
        lemma_views_push(segments@.push(end1).push(end2), end3);
    }
    segments.push(end1);
    segments.push(end2);
    segments.push(end3);
    ctype.push(CategoryTag::Other);
    ctype.push(CategoryTag::Other);
    ctype.push(CategoryTag::Other);
    assert(views(segments@) =~= padded_units(chars@));
    assert(ctype@ =~= padded_tags(tags));
    boundary_prediction(segments, ctype, str_score_map)
}

/// Cuts `text` into tokens by the pretrained model. The tokens, one after
/// the other, are the text again.
pub fn segment(text: &str) -> (tokens: Vec<String>)
    ensures
        views(tokens@) == spec_segment(text@),
        concat(views(tokens@)) == text@,
        total_len(views(tokens@)) == text@.len(),
        forall|k: int| 0 <= k < tokens@.len() ==> (#[trigger] tokens@[k])@.len() >= 1,
        text@.len() == 0 <==> tokens@.len() == 0,
{
    proof {
        let tags = text@.map_values(|c: char| spec_tag(c));
        lemma_round_trip(text@, tags, model_weights());
        lemma_coverage(text@, tags, model_weights());
        lemma_tokens_nonempty(text@, tags, model_weights());
    }
    let owned = string(text);
    let chars = construct_words(&owned);
    if chars.len() == 0 {
        let tokens: Vec<String> = Vec::new();
        assert(views(tokens@) =~= Seq::<Seq<char>>::empty());
        return tokens;
    }
    let char_map = construct_hashmap();
    let str_score_map = construct_scorer_hashmap();
    assert(chars@.map_values(|c: char| tag_in(char_map@, c)) =~= chars@.map_values(
        |c: char| spec_tag(c),
    ));
    let tokens = segment_with(&chars, &char_map, &str_score_map);
    assert forall|k: int| 0 <= k < tokens@.len() implies (#[trigger] tokens@[k])@.len() >= 1 by {
        assert(views(tokens@)[k] == tokens@[k]@);
    }
    tokens
}

/// The tokens of `text` in one string, with a single space between each two.
pub fn tokenize(text: &String) -> (segmented_str: String)
    ensures
        segmented_str@ == join(spec_segment(text@), seq![' ']),
{
    let result = segment(text.as_str());
    let mut segmented_str = string("");
    let mut i: usize = 0;
    proof {
        reveal_strlit("");
        reveal_strlit(" ");
        assert(" "@ =~= seq![' ']);
        assert(segmented_str@ =~= join(views(result@).take(0), seq![' ']));
    }
    while i < result.len()
        invariant
            i <= result.len(),
            " "@ == seq![' '],
            segmented_str@ == join(views(result@).take(i as int), seq![' ']),
        decreases result.len() - i,
    {
        proof {
            let parts = views(result@);
            assert(parts.take(i + 1).drop_last() =~= parts.take(i as int));
            assert(parts.take(i + 1).last() == result@[i as int]@);
            if i == 0 {
                assert(segmented_str@ =~= Seq::<char>::empty());
                assert(join(parts.take(1), seq![' ']) =~= segmented_str@ + result@[0]@);
            }
        }
        if i > 0 {
            segmented_str.append(" ");
        }
        segmented_str.append(result[i].as_str());
        i = i + 1;
    }
    assert(views(result@).take(result.len() as int) =~= views(result@));
    segmented_str
}

} // verus!
