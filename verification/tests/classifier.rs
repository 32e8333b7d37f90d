use tinysegmenter::{construct_hashmap, get_key_tag, CategoryTag};

fn tag(c: char) -> CategoryTag {
    get_key_tag(c, &construct_hashmap())
}

#[test]
fn kanji_span() {
    let map = construct_hashmap();
    for c in '一'..='龠' {
        if !"一二三四五六七八九十百千万億兆".contains(c) {
            assert_eq!(get_key_tag(c, &map), CategoryTag::Kanji);
        }
    }
    assert_eq!(get_key_tag('\u{4dff}', &map), CategoryTag::Other);
    assert_eq!(get_key_tag('\u{9fa1}', &map), CategoryTag::Other);
}

#[test]
fn hiragana_span() {
    let map = construct_hashmap();
    for c in 'ぁ'..='ん' {
        assert_eq!(get_key_tag(c, &map), CategoryTag::Hiragana);
    }
    assert_eq!(get_key_tag('\u{3040}', &map), CategoryTag::Other);
    assert_eq!(get_key_tag('\u{3094}', &map), CategoryTag::Other);
}

#[test]
fn katakana_spans() {
    let map = construct_hashmap();
    for c in 'ァ'..='ヴ' {
        assert_eq!(get_key_tag(c, &map), CategoryTag::Katakana);
    }
    for c in 'ｱ'..='ﾝ' {
        assert_eq!(get_key_tag(c, &map), CategoryTag::Katakana);
    }
    assert_eq!(get_key_tag('\u{30a0}', &map), CategoryTag::Other);
    assert_eq!(get_key_tag('\u{ff9f}', &map), CategoryTag::Other);
}

#[test]
fn latin_spans() {
    let map = construct_hashmap();
    for span in ['a'..='z', 'A'..='Z', 'ａ'..='ｚ', 'Ａ'..='Ｚ'] {
        for c in span {
            assert_eq!(get_key_tag(c, &map), CategoryTag::Alpha);
        }
    }
    assert_eq!(get_key_tag('`', &map), CategoryTag::Other);
    assert_eq!(get_key_tag('{', &map), CategoryTag::Other);
    assert_eq!(get_key_tag('@', &map), CategoryTag::Other);
    assert_eq!(get_key_tag('[', &map), CategoryTag::Other);
}

#[test]
fn digit_spans() {
    let map = construct_hashmap();
    for span in ['0'..='9', '０'..='９'] {
        for c in span {
            assert_eq!(get_key_tag(c, &map), CategoryTag::Digit);
        }
    }
    assert_eq!(get_key_tag('/', &map), CategoryTag::Other);
    assert_eq!(get_key_tag(':', &map), CategoryTag::Other);
}

#[test]
fn last_character_of_each_span() {
    assert_eq!(tag('龠'), CategoryTag::Kanji);
    assert_eq!(tag('ん'), CategoryTag::Hiragana);
    assert_eq!(tag('ヴ'), CategoryTag::Katakana);
    assert_eq!(tag('ﾝ'), CategoryTag::Katakana);
    assert_eq!(tag('z'), CategoryTag::Alpha);
    assert_eq!(tag('Z'), CategoryTag::Alpha);
    assert_eq!(tag('ｚ'), CategoryTag::Alpha);
    assert_eq!(tag('Ｚ'), CategoryTag::Alpha);
    assert_eq!(tag('9'), CategoryTag::Digit);
    assert_eq!(tag('９'), CategoryTag::Digit);
}

#[test]
fn kanji_numerals_are_not_kanji() {
    let map = construct_hashmap();
    for c in "一二三四五六七八九十百千万億兆".chars() {
        assert_eq!(get_key_tag(c, &map), CategoryTag::Numeral);
    }
}

#[test]
fn marks_outside_the_spans() {
    let map = construct_hashmap();
    for c in "々〆ヵヶ".chars() {
        assert_eq!(get_key_tag(c, &map), CategoryTag::Kanji);
    }
    for c in ['ー', 'ｰ', '\u{ff9e}'] {
        assert_eq!(get_key_tag(c, &map), CategoryTag::Katakana);
    }
}

#[test]
fn everything_else_is_other() {
    let map = construct_hashmap();
    for c in ['。', '、', ' ', '\n', '!', 'é', '𠮷', '\u{0}', '\u{10ffff}', '한'] {
        assert_eq!(get_key_tag(c, &map), CategoryTag::Other);
    }
}

#[test]
fn table_has_an_entry_for_each_tagged_character_only() {
    let map = construct_hashmap();
    let spans: usize = 20897 + 83 + 84 + 45 + 4 * 26 + 2 * 10;
    assert_eq!(map.len(), spans + 4 + 3);
    assert!(map.values().all(|tag| *tag != CategoryTag::Other));
}

#[test]
fn empty_table_knows_no_character() {
    let map = std::collections::HashMap::new();
    assert_eq!(get_key_tag('あ', &map), CategoryTag::Other);
}

#[test]
fn category_letters() {
    assert_eq!(CategoryTag::Kanji.as_str(), "H");
    assert_eq!(CategoryTag::Numeral.as_str(), "M");
    assert_eq!(CategoryTag::Hiragana.as_str(), "I");
    assert_eq!(CategoryTag::Katakana.as_str(), "K");
    assert_eq!(CategoryTag::Alpha.as_str(), "A");
    assert_eq!(CategoryTag::Digit.as_str(), "N");
    assert_eq!(CategoryTag::Other.as_str(), "O");
}

#[test]
fn every_key_is_a_code_point() {
    let map = construct_hashmap();
    assert!(map.keys().all(|k| char::from_u32(*k).is_some()));
}
