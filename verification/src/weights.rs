//! The weight table: feature family, then feature key, then weight.

use vstd::hash_map::StringHashMap;
use vstd::prelude::*;
use vstd::string::StringExecFns;

verus! {

/// The weights of one family, as the list `entries` gives them. Where a key
/// stands twice, the later entry counts.
pub open spec fn family_of(entries: Seq<(&'static str, i32)>) -> Map<Seq<char>, i32>
    decreases entries.len(),
{
    if entries.len() == 0 {
        Map::empty()
    } else {
        family_of(entries.drop_last()).insert(entries.last().0@, entries.last().1)
    }
}

/// What a feature adds to a score: the weight of `key` in `family`; nothing
/// where the family has no such key; and a penalty of one where the table
/// has no such family.
pub open spec fn lookup(
    table: Map<Seq<char>, Map<Seq<char>, i32>>,
    family: Seq<char>,
    key: Seq<char>,
) -> int {
    if !table.contains_key(family) {
        -1
    } else if table[family].contains_key(key) {
        table[family][key] as int
    } else {
        0
    }
}

/// A two-level table of weights. It is filled family by family and then
/// only read.
pub struct WeightTable {
    families: StringHashMap<StringHashMap<i32>>,
}

impl View for WeightTable {
    type V = Map<Seq<char>, Map<Seq<char>, i32>>;

    closed spec fn view(&self) -> Self::V {
        Map::new(
            |family: Seq<char>| self.families@.contains_key(family),
            |family: Seq<char>| self.families@[family]@,
        )
    }
}

impl WeightTable {
    /// A table without families.
    pub fn new() -> (table: Self)
        ensures
            table@ == Map::<Seq<char>, Map<Seq<char>, i32>>::empty(),
    {
        let table = WeightTable { families: StringHashMap::new() };
        assert(table@ =~= Map::<Seq<char>, Map<Seq<char>, i32>>::empty());
        table
    }

    /// Sets the family `name` to the weights that `entries` lists, in place
    /// of what the table held under that name.
    pub fn insert_family(&mut self, name: &str, entries: &[(&'static str, i32)])
        ensures
            final(self)@ == old(self)@.insert(name@, family_of(entries@)),
    {
        let mut weights: StringHashMap<i32> = StringHashMap::new();
        let mut i: usize = 0;
        while i < entries.len()
            invariant
                i <= entries.len(),
                weights@ == family_of(entries@.take(i as int)),
            decreases entries.len() - i,
        {
            let (key, weight) = entries[i];
            weights.insert(String::from_str(key), weight);
            proof {
                assert(entries@.take(i + 1).drop_last() =~= entries@.take(i as int));
            }
            i = i + 1;
        }
        proof {
            assert(entries@.take(entries.len() as int) =~= entries@);
        }
        self.families.insert(String::from_str(name), weights);
        assert(self@ =~= old(self)@.insert(name@, family_of(entries@)));
    }

    /// Whether the table has the family `name`.
    pub fn has_family(&self, name: &str) -> (known: bool)
        ensures
            known == self@.contains_key(name@),
    {
        self.families.contains_key(name)
    }
}

/// The weight that `str_score_map` gives to the feature `word` of the family `key`.
pub fn get_score(key: &str, word: &str, str_score_map: &WeightTable) -> (score: i32)
    ensures
        score == lookup(str_score_map@, key@, word@),
        !str_score_map@.contains_key(key@) ==> score == -1,
        str_score_map@.contains_key(key@) && !str_score_map@[key@].contains_key(word@) ==> score
            == 0,
{
    match str_score_map.families.get(key) {
        Some(x) => match x.get(word) {
            Some(y) => *y,
            None => 0,
        },
        None => -1,
    }
}

} // verus!
