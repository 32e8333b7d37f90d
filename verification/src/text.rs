//! Strings as the segmenter handles them: a text as its characters, a list
//! of strings as the list of their contents, and a few ways to build one.

use vstd::prelude::*;
use vstd::string::StringExecFns;

verus! {

/// The contents of each string of a list, in order.
pub open spec fn views(units: Seq<String>) -> Seq<Seq<char>> {
    units.map_values(|unit: String| unit@)
}

/// All of `parts`, one after the other.
pub open spec fn concat(parts: Seq<Seq<char>>) -> Seq<char>
    decreases parts.len(),
{
    if parts.len() == 0 {
        Seq::empty()
    } else {
        concat(parts.drop_last()) + parts.last()
    }
}

/// The lengths of `parts`, added up.
pub open spec fn total_len(parts: Seq<Seq<char>>) -> nat
    decreases parts.len(),
{
    if parts.len() == 0 {
        0
    } else {
        total_len(parts.drop_last()) + parts.last().len()
    }
}

/// `parts` with `separator` between each two neighbours.
pub open spec fn join(parts: Seq<Seq<char>>, separator: Seq<char>) -> Seq<char>
    decreases parts.len(),
{
    if parts.len() == 0 {
        Seq::empty()
    } else if parts.len() == 1 {
        parts[0]
    } else {
        join(parts.drop_last(), separator) + separator + parts.last()
    }
}

/// Adding a string to a list adds its contents to the list of contents.
pub proof fn lemma_views_push(units: Seq<String>, unit: String)
    ensures
        views(units.push(unit)) == views(units).push(unit@),
{
    assert(views(units.push(unit)) =~= views(units).push(unit@));
}

/// An owned copy of `text`.
pub fn string(text: &str) -> (owned: String)
    ensures
        owned@ == text@,
{
    String::from_str(text)
}

/// The characters of `text`, in order.
pub fn construct_words(text: &String) -> (chars: Vec<char>)
    ensures
        chars@ == text@,
{
    let mut chars: Vec<char> = Vec::new();
    for c in it: text.as_str().chars()
        invariant
            it.seq() == text@,
            chars@ == it.seq().take(it.index() as int),
    {
        chars.push(c);
    }
    chars
}

/// `String::from` on a `char`: the string that holds this one character and
/// nothing else.
#[verifier::external_body]
pub(crate) fn char_to_string(c: char) -> (unit: String)
    ensures
        unit@ == seq![c],
{
    String::from(c)
}

/// `first` followed by `second`.
pub fn pair(first: &str, second: &str) -> (both: String)
    ensures
        both@ == first@ + second@,
{
    let mut both = String::from_str(first);
    both.append(second);
    both
}

/// `first`, `second` and `third` in a row.
pub fn triple(first: &str, second: &str, third: &str) -> (all: String)
    ensures
        all@ == first@ + second@ + third@,
{
    let mut all = String::from_str(first);
    all.append(second);
    all.append(third);
    all
}

} // verus!
