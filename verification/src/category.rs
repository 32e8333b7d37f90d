//! Character categories: the coarse class of a character, which the model
//! reads beside the character itself.

use std::collections::HashMap;
use vstd::prelude::*;

verus! {

broadcast use vstd::std_specs::hash::group_hash_axioms;

/// The class of a character.
#[derive(Clone, Copy, Debug, PartialEq, Eq, Structural)]
pub enum CategoryTag {
    /// Kanji, and the iteration marks that stand in for one (`H`).
    Kanji,
    /// The kanji numerals (`M`).
    Numeral,
    /// Hiragana (`I`).
    Hiragana,
    /// Katakana, full and half width, and the long-vowel marks (`K`).
    Katakana,
    /// Latin letters, full and half width (`A`).
    Alpha,
    /// Digits, full and half width (`N`).
    Digit,
    /// Everything else, the padding around a text included (`O`).
    Other,
}

impl CategoryTag {
    /// The letter by which the model's feature keys name the category.
    pub open spec fn letter(self) -> char {
        match self {
            CategoryTag::Kanji => 'H',
            CategoryTag::Numeral => 'M',
            CategoryTag::Hiragana => 'I',
            CategoryTag::Katakana => 'K',
            CategoryTag::Alpha => 'A',
            CategoryTag::Digit => 'N',
            CategoryTag::Other => 'O',
        }
    }

    /// The category's letter as a one-character string.
    pub fn as_str(self) -> (s: &'static str)
        ensures
            s@ == seq![self.letter()],
    {
        proof {
            reveal_strlit("H");
            reveal_strlit("M");
            reveal_strlit("I");
            reveal_strlit("K");
            reveal_strlit("A");
            reveal_strlit("N");
            reveal_strlit("O");
        }
        let s = match self {
            CategoryTag::Kanji => "H",
            CategoryTag::Numeral => "M",
            CategoryTag::Hiragana => "I",
            CategoryTag::Katakana => "K",
            CategoryTag::Alpha => "A",
            CategoryTag::Digit => "N",
            CategoryTag::Other => "O",
        };
        assert(s@ =~= seq![self.letter()]);
        s
    }
}

/// The kanji numerals, a category of their own although they lie in the kanji span.
pub const KANJI_NUMERALS: &'static str = "一二三四五六七八九十百千万億兆";

/// Marks that count as kanji although they lie outside the kanji span.
pub const KANJI_MARKS: &'static str = "々〆ヵヶ";

/// Long-vowel and voicing marks that count as katakana.
pub const KATAKANA_MARKS: &'static str = "ーｰ\u{ff9e}";

/// `c` lies between `first` and `last`, both included.
pub open spec fn in_span(c: char, first: char, last: char) -> bool {
    first as u32 <= c as u32 <= last as u32
}

/// The category that the spans alone give to `c`.
pub open spec fn span_tag(c: char) -> CategoryTag {
    if in_span(c, '０', '９') || in_span(c, '0', '9') {
        CategoryTag::Digit
    } else if in_span(c, 'Ａ', 'Ｚ') || in_span(c, 'ａ', 'ｚ') || in_span(c, 'A', 'Z') || in_span(
        c,
        'a',
        'z',
    ) {
        CategoryTag::Alpha
    } else if in_span(c, 'ｱ', 'ﾝ') || in_span(c, 'ァ', 'ヴ') {
        CategoryTag::Katakana
    } else if in_span(c, 'ぁ', 'ん') {
        CategoryTag::Hiragana
    } else if in_span(c, '一', '龠') {
        CategoryTag::Kanji
    } else {
        CategoryTag::Other
    }
}

/// The category of `c`: the three lists of single characters come first,
/// then the spans, and whatever is in none of them is `Other`.
pub open spec fn spec_tag(c: char) -> CategoryTag {
    if KATAKANA_MARKS@.contains(c) {
        CategoryTag::Katakana
    } else if KANJI_MARKS@.contains(c) {
        CategoryTag::Kanji
    } else if KANJI_NUMERALS@.contains(c) {
        CategoryTag::Numeral
    } else {
        span_tag(c)
    }
}

/// `c` is in one of the three lists of single characters.
pub open spec fn is_listed(c: char) -> bool {
    KATAKANA_MARKS@.contains(c) || KANJI_MARKS@.contains(c) || KANJI_NUMERALS@.contains(c)
}

/// Every character of a span has the category of that span, unless it is
/// one of the listed characters.
pub proof fn lemma_span_tags(c: char)
    requires
        !is_listed(c),
    ensures
        in_span(c, '一', '龠') ==> spec_tag(c) == CategoryTag::Kanji,
        in_span(c, 'ぁ', 'ん') ==> spec_tag(c) == CategoryTag::Hiragana,
        in_span(c, 'ァ', 'ヴ') || in_span(c, 'ｱ', 'ﾝ') ==> spec_tag(c) == CategoryTag::Katakana,
        in_span(c, 'a', 'z') || in_span(c, 'A', 'Z') || in_span(c, 'ａ', 'ｚ') || in_span(
            c,
            'Ａ',
            'Ｚ',
        ) ==> spec_tag(c) == CategoryTag::Alpha,
        in_span(c, '0', '9') || in_span(c, '０', '９') ==> spec_tag(c) == CategoryTag::Digit,
        spec_tag(c) == span_tag(c),
{
}

/// Every listed character has the category of its list, whatever span it
/// lies in; and no character is in two lists.
pub proof fn lemma_list_tags(c: char)
    ensures
        KANJI_NUMERALS@.contains(c) ==> spec_tag(c) == CategoryTag::Numeral,
        KANJI_MARKS@.contains(c) ==> spec_tag(c) == CategoryTag::Kanji,
        KATAKANA_MARKS@.contains(c) ==> spec_tag(c) == CategoryTag::Katakana,
{
    reveal_strlit("一二三四五六七八九十百千万億兆");
    reveal_strlit("々〆ヵヶ");
    reveal_strlit("ーｰ\u{ff9e}");
}

/// What a lookup table says of `c`: its entry, or `Other` where it has none.
pub open spec fn tag_in(char_map: Map<u32, CategoryTag>, c: char) -> CategoryTag {
    if char_map.contains_key(c as u32) {
        char_map[c as u32]
    } else {
        CategoryTag::Other
    }
}

/// Whether a lookup table has an entry for `c`.
pub open spec fn has_entry(char_map: Map<u32, CategoryTag>, c: char) -> bool {
    char_map.contains_key(c as u32)
}

/// `k` is the code point of a character.
pub open spec fn is_code_point(k: u32) -> bool {
    k <= 0xD7FF || 0xE000 <= k <= 0x10FFFF
}

/// Two characters with one code point are one character.
proof fn lemma_code_point(c: char, d: char)
    ensures
        c as u32 == d as u32 <==> c == d,
{
}

fn code_point(c: char) -> (k: u32)
    ensures
        k == c as u32,
        is_code_point(k),
{
    c as u32
}

fn insert_span(char_map: &mut HashMap<u32, CategoryTag>, first: char, last: char, tag: CategoryTag)
    ensures
        forall|c: char| #[trigger]
            tag_in(final(char_map)@, c) == if in_span(c, first, last) {
                tag
            } else {
                tag_in(old(char_map)@, c)
            },
        forall|c: char| #[trigger]
            has_entry(final(char_map)@, c) <==> has_entry(old(char_map)@, c) || in_span(
                c,
                first,
                last,
            ),
        forall|k: u32| #[trigger]
            final(char_map)@.contains_key(k) ==> old(char_map)@.contains_key(k) || first as u32
                <= k <= last as u32,
{
    let lo: u32 = code_point(first);
    let hi: u32 = code_point(last);
    let mut k: u32 = lo;
    while k <= hi
        invariant
            lo == first as u32,
            hi == last as u32,
            hi <= 0x10FFFF,
            lo <= k,
            lo <= hi ==> k <= hi + 1,
            lo > hi ==> k == lo,
            forall|c: char| #[trigger]
                tag_in(char_map@, c) == if lo <= c as u32 && (c as u32) < k {
                    tag
                } else {
                    tag_in(old(char_map)@, c)
                },
            forall|c: char| #[trigger]
                has_entry(char_map@, c) <==> has_entry(old(char_map)@, c) || (lo <= c as u32 && (
                c as u32) < k),
            forall|j: u32| #[trigger]
                char_map@.contains_key(j) ==> old(char_map)@.contains_key(j) || lo <= j < k,
        decreases hi + 1 - k,
    {
        let ghost earlier = char_map@;
        char_map.insert(k, tag);
        assert forall|c: char| #[trigger]
            tag_in(char_map@, c) == if lo <= c as u32 && (c as u32) < k + 1 {
                tag
            } else {
                tag_in(old(char_map)@, c)
            } by {
            assert(tag_in(earlier, c) == if lo <= c as u32 && (c as u32) < k {
                tag
            } else {
                tag_in(old(char_map)@, c)
            });
        }
        assert forall|c: char| #[trigger]
            has_entry(char_map@, c) <==> has_entry(old(char_map)@, c) || (lo <= c as u32 && (
            c as u32) < k + 1) by {
            assert(has_entry(earlier, c) <==> has_entry(old(char_map)@, c) || (lo <= c as u32 && (
            c as u32) < k));
        }
        k = k + 1;
    }
}

fn insert_chars(char_map: &mut HashMap<u32, CategoryTag>, chars: &str, tag: CategoryTag)
    ensures
        forall|c: char| #[trigger]
            tag_in(final(char_map)@, c) == if chars@.contains(c) {
                tag
            } else {
                tag_in(old(char_map)@, c)
            },
        forall|c: char| #[trigger]
            has_entry(final(char_map)@, c) <==> has_entry(old(char_map)@, c) || chars@.contains(c),
        forall|k: u32| #[trigger]
            final(char_map)@.contains_key(k) ==> old(char_map)@.contains_key(k) || is_code_point(k),
{
    for x in it: chars.chars()
        invariant
            it.seq() == chars@,
            forall|c: char| #[trigger]
                tag_in(char_map@, c) == if chars@.take(it.index() as int).contains(c) {
                    tag
                } else {
                    tag_in(old(char_map)@, c)
                },
            forall|c: char| #[trigger]
                has_entry(char_map@, c) <==> has_entry(old(char_map)@, c) || chars@.take(
                    it.index() as int,
                ).contains(c),
            forall|k: u32| #[trigger]
                char_map@.contains_key(k) ==> old(char_map)@.contains_key(k) || is_code_point(k),
    {
        let ghost before = chars@.take(it.index() as int);
        let ghost after = chars@.take(it.index() + 1);
        let ghost earlier = char_map@;
        assert(after =~= before.push(x));
        assert forall|d: char| after.contains(d) <==> before.contains(d) || d == x by {
            if before.contains(d) {
                let j = choose|j: int| 0 <= j < before.len() && before[j] == d;
                assert(after[j] == d);
            }
            if d == x {
                assert(after[before.len() as int] == d);
            }
        }
        char_map.insert(code_point(x), tag);
        assert forall|c: char| #[trigger]
            tag_in(char_map@, c) == if after.contains(c) {
                tag
            } else {
                tag_in(old(char_map)@, c)
            } by {
            lemma_code_point(c, x);
            assert(tag_in(earlier, c) == if before.contains(c) {
                tag
            } else {
                tag_in(old(char_map)@, c)
            });
        }
        assert forall|c: char| #[trigger]
            has_entry(char_map@, c) <==> has_entry(old(char_map)@, c) || after.contains(c) by {
            lemma_code_point(c, x);
            assert(has_entry(earlier, c) <==> has_entry(old(char_map)@, c) || before.contains(c));
        }
    }
    assert(chars@.take(chars@.len() as int) =~= chars@);
}

/// Builds the lookup table of the classifier: to every character it gives
/// the category of that character, it has an entry for a character only
/// where that category is not `Other`, and every key is a character's code
/// point.
pub fn construct_hashmap() -> (char_map: HashMap<u32, CategoryTag>)
    ensures
        forall|c: char| #[trigger] tag_in(char_map@, c) == spec_tag(c),
        forall|c: char| #[trigger] has_entry(char_map@, c) <==> spec_tag(c) != CategoryTag::Other,
        forall|k: u32| #[trigger] char_map@.contains_key(k) ==> is_code_point(k),
{
    let mut char_map: HashMap<u32, CategoryTag> = HashMap::new();
    insert_span(&mut char_map, '一', '龠', CategoryTag::Kanji);
    insert_span(&mut char_map, 'ぁ', 'ん', CategoryTag::Hiragana);
    insert_span(&mut char_map, 'ァ', 'ヴ', CategoryTag::Katakana);
    insert_span(&mut char_map, 'ｱ', 'ﾝ', CategoryTag::Katakana);
    insert_span(&mut char_map, 'a', 'z', CategoryTag::Alpha);
    insert_span(&mut char_map, 'A', 'Z', CategoryTag::Alpha);
    insert_span(&mut char_map, 'ａ', 'ｚ', CategoryTag::Alpha);
    insert_span(&mut char_map, 'Ａ', 'Ｚ', CategoryTag::Alpha);
    insert_span(&mut char_map, '0', '9', CategoryTag::Digit);
    insert_span(&mut char_map, '０', '９', CategoryTag::Digit);
    insert_chars(&mut char_map, KANJI_NUMERALS, CategoryTag::Numeral);
    insert_chars(&mut char_map, KANJI_MARKS, CategoryTag::Kanji);
    insert_chars(&mut char_map, KATAKANA_MARKS, CategoryTag::Katakana);
    char_map
}

/// The category of `c` by the lookup table `char_map`.
pub fn get_key_tag(c: char, char_map: &HashMap<u32, CategoryTag>) -> (tag: CategoryTag)
    ensures
        tag == tag_in(char_map@, c),
{
    match char_map.get(&code_point(c)) {
        Some(x) => *x,
        None => CategoryTag::Other,
    }
}

} // verus!
