use tinysegmenter::{
    compute_score, construct_hashmap, construct_scorer_hashmap, get_key_tag, get_score,
    CategoryTag, ContextWindow, Decision, WeightTable,
};

fn padded(text: &str) -> (Vec<String>, Vec<CategoryTag>) {
    let map = construct_hashmap();
    let mut segments: Vec<String> = vec!["B3".to_string(), "B2".to_string(), "B1".to_string()];
    let mut ctype = vec![CategoryTag::Other; 3];
    for c in text.chars() {
        segments.push(c.to_string());
        ctype.push(get_key_tag(c, &map));
    }
    segments.extend(vec!["E1".to_string(), "E2".to_string(), "E3".to_string()]);
    ctype.extend(vec![CategoryTag::Other; 3]);
    (segments, ctype)
}

fn keys(window: &ContextWindow) -> Vec<(String, String)> {
    window.features().into_iter().map(|f| (f.family.to_string(), f.key)).collect()
}

#[test]
fn unknown_family_costs_one() {
    let table = construct_scorer_hashmap();
    assert_eq!(get_score("BQ3", "UOH", &table), -1);
    assert_eq!(get_score("BQ4", "UHI", &table), -1);
    assert_eq!(get_score("XX9", "私", &table), -1);
    assert_eq!(get_score("", "", &table), -1);
    assert_eq!(get_score("uw1", "あ", &table), -1);
}

#[test]
fn unseen_key_of_known_family_adds_nothing() {
    let table = construct_scorer_hashmap();
    assert_eq!(get_score("UC1", "Z", &table), 0);
    assert_eq!(get_score("UW1", "", &table), 0);
    assert_eq!(get_score("BW1", "私の", &table), 0);
    assert_eq!(get_score("UP1", "B", &table), 0);
}

#[test]
fn known_key_gives_its_weight() {
    let table = construct_scorer_hashmap();
    assert_eq!(get_score("BC1", "HH", &table), 6);
    assert_eq!(get_score("BC1", "OH", &table), -1378);
    assert_eq!(get_score("UC1", "A", &table), 484);
    assert_eq!(get_score("UW3", "私", &table), 4231);
    assert_eq!(get_score("UW5", "E2", &table), -32768);
    assert_eq!(get_score("UW6", "E1", &table), 306);
    assert_eq!(get_score("BW1", "B1あ", &table), 1404);
    assert_eq!(get_score("TW1", "東京都", &table), 2026);
    assert_eq!(get_score("UQ3", "BO", &table), 14761);
    assert_eq!(get_score("UP3", "B", &table), 189);
}

#[test]
fn model_has_its_forty_families() {
    let table = construct_scorer_hashmap();
    let names = [
        "BC1", "BC2", "BC3", "BP1", "BP2", "BQ1", "BQ2", "BW1", "BW2", "BW3", "TC1", "TC2", "TC3",
        "TC4", "TQ1", "TQ2", "TQ3", "TQ4", "TW1", "TW2", "TW3", "TW4", "UC1", "UC2", "UC3", "UC4",
        "UC5", "UC6", "UP1", "UP2", "UP3", "UQ1", "UQ2", "UQ3", "UW1", "UW2", "UW3", "UW4", "UW5",
        "UW6",
    ];
    for name in names {
        assert!(table.has_family(name));
    }
    assert!(!table.has_family("BQ3"));
    assert!(!table.has_family("BQ4"));
}

#[test]
fn empty_table_and_empty_family() {
    let mut table = WeightTable::new();
    assert!(!table.has_family("UW1"));
    assert_eq!(get_score("UW1", "あ", &table), -1);
    table.insert_family("UW1", &[]);
    assert!(table.has_family("UW1"));
    assert_eq!(get_score("UW1", "あ", &table), 0);
    assert_eq!(get_score("UW2", "あ", &table), -1);
}

#[test]
fn later_entry_and_later_family_count() {
    let mut table = WeightTable::new();
    table.insert_family("UW1", &[("あ", 1), ("い", 2), ("あ", 3)]);
    assert_eq!(get_score("UW1", "あ", &table), 3);
    assert_eq!(get_score("UW1", "い", &table), 2);
    table.insert_family("UW1", &[("う", 7)]);
    assert_eq!(get_score("UW1", "あ", &table), 0);
    assert_eq!(get_score("UW1", "う", &table), 7);
}

#[test]
fn weights_at_the_ends_of_their_type() {
    let mut table = WeightTable::new();
    table.insert_family("UP1", &[("U", i32::MAX)]);
    table.insert_family("UP2", &[("U", i32::MAX)]);
    table.insert_family("UP3", &[("U", i32::MIN)]);
    let (segments, ctype) = padded("あ");
    let window = ContextWindow::seed(&segments, &ctype);
    assert_eq!(get_score("UP3", "U", &table), i32::MIN);
    assert_eq!(compute_score(&window, &table), -332 + 2147483647 + 2147483647 - 2147483648 - 39);
}

#[test]
fn score_without_any_family() {
    let (segments, ctype) = padded("あいう");
    let window = ContextWindow::seed(&segments, &ctype);
    assert_eq!(compute_score(&window, &WeightTable::new()), -374);
}

#[test]
fn score_of_the_seed_window() {
    let table = construct_scorer_hashmap();
    let (segments, ctype) = padded("私の名前は中野です");
    let window = ContextWindow::seed(&segments, &ctype);
    assert_eq!(compute_score(&window, &table), 667);
}

#[test]
fn scores_along_a_sentence() {
    let table = construct_scorer_hashmap();
    let (segments, ctype) = padded("私の名前は中野です");
    let expected = [8381, 11606, -1893, 13456, 16717, -4821, 7876, -2146];
    let mut window = ContextWindow::seed(&segments, &ctype);
    for (step, want) in expected.iter().enumerate() {
        let i = step + 4;
        window.advance(segments[i + 2].clone(), ctype[i + 2]);
        let got = compute_score(&window, &table);
        assert_eq!(got, *want);
        window.record(if got > 0 { Decision::Boundary } else { Decision::Inside });
    }
}

#[test]
fn score_of_a_gap_before_a_particle() {
    let table = construct_scorer_hashmap();
    let (segments, ctype) = padded("あを");
    let mut window = ContextWindow::seed(&segments, &ctype);
    window.advance(segments[6].clone(), ctype[6]);
    assert_eq!(get_score("UW4", "を", &table), 13150);
    assert_eq!(compute_score(&window, &table), 5967);
}

#[test]
fn every_single_unit_is_scored() {
    let (segments, ctype) = padded("あいう");
    let mut window = ContextWindow::seed(&segments, &ctype);
    window.advance(segments[6].clone(), ctype[6]);
    let units = ["B2", "B1", "あ", "い", "う", "E1"];
    let names = ["UW1", "UW2", "UW3", "UW4", "UW5", "UW6"];
    for (name, unit) in names.iter().zip(units.iter()) {
        let mut table = WeightTable::new();
        table.insert_family(name, &[(unit, 1000)]);
        assert_eq!(compute_score(&window, &table), -332 + 1000 - 41);
        let mut other = WeightTable::new();
        other.insert_family(name, &[("x", 1000)]);
        assert_eq!(compute_score(&window, &other), -332 - 41);
    }
}

#[test]
fn family_taken_away_costs_one() {
    let (segments, ctype) = padded("あいう");
    let window = ContextWindow::seed(&segments, &ctype);
    let names = [
        "UP1", "UP2", "UP3", "BP1", "BP2", "UW1", "UW2", "UW3", "UW4", "UW5", "UW6", "BW1",
        "BW2", "BW3", "TW1", "TW2", "TW3", "TW4", "UC1", "UC2", "UC3", "UC4", "UC5", "UC6",
        "BC1", "BC2", "BC3", "TC1", "TC2", "TC3", "TC4", "UQ1", "UQ2", "UQ3", "BQ1", "BQ2",
        "BQ3", "BQ4", "TQ1", "TQ2", "TQ3", "TQ4",
    ];
    assert_eq!(names.len(), 42);
    for name in names {
        let mut table = WeightTable::new();
        table.insert_family(name, &[]);
        assert_eq!(compute_score(&window, &table), -373);
    }
    assert_eq!(compute_score(&window, &WeightTable::new()), -374);
}

#[test]
fn features_of_a_window() {
    let (segments, ctype) = padded("私の名前は中野です");
    let mut window = ContextWindow::seed(&segments, &ctype);
    window.advance(segments[6].clone(), ctype[6]);
    let want = [
        ("UP1", "U"), ("UP2", "U"), ("UP3", "U"), ("BP1", "UU"), ("BP2", "UU"),
        ("UW1", "B2"), ("UW2", "B1"), ("UW3", "私"),
        ("UW4", "の"), ("UW5", "名"), ("UW6", "前"),
        ("BW1", "B1私"), ("BW2", "私の"), ("BW3", "の名"),
        ("TW1", "B2B1私"), ("TW2", "B1私の"), ("TW3", "私の名"), ("TW4", "の名前"),
        ("UC1", "O"), ("UC2", "O"), ("UC3", "H"), ("UC4", "I"), ("UC5", "H"), ("UC6", "H"),
        ("BC1", "OH"), ("BC2", "HI"), ("BC3", "IH"),
        ("TC1", "OOH"), ("TC2", "OHI"), ("TC3", "HIH"), ("TC4", "IHH"),
        ("UQ1", "UO"), ("UQ2", "UO"), ("UQ3", "UH"),
        ("BQ1", "UOH"), ("BQ2", "UHI"), ("BQ3", "UOH"), ("BQ4", "UHI"),
        ("TQ1", "UOOH"), ("TQ2", "UOHI"), ("TQ3", "UOOH"), ("TQ4", "UOHI"),
    ];
    let got = keys(&window);
    assert_eq!(got.len(), 42);
    assert_eq!(want.len(), 42);
    for (i, (family, key)) in want.iter().enumerate() {
        assert_eq!(got[i].0, *family);
        assert_eq!(got[i].1, *key);
    }
}

#[test]
fn record_puts_the_latest_decision_last() {
    let (segments, ctype) = padded("あいう");
    let mut window = ContextWindow::seed(&segments, &ctype);
    window.record(Decision::Boundary);
    let got = keys(&window);
    assert_eq!(got[0].1, "U");
    assert_eq!(got[1].1, "U");
    assert_eq!(got[2].1, "B");
    assert_eq!(got[3].1, "UU");
    assert_eq!(got[4].1, "UB");
    window.record(Decision::Inside);
    window.record(Decision::Inside);
    let got = keys(&window);
    assert_eq!(got[0].1, "B");
    assert_eq!(got[3].1, "BO");
    assert_eq!(got[4].1, "OO");
    assert_eq!(got[33].0, "UQ3");
    assert_eq!(got[33].1, "OO");
}

#[test]
fn advance_drops_the_oldest_unit() {
    let (segments, ctype) = padded("あ漢");
    let mut window = ContextWindow::seed(&segments, &ctype);
    let got = keys(&window);
    assert_eq!(got[5].1, "B3");
    assert_eq!(got[10].1, "E1");
    assert_eq!(got[17].1, "あ漢E1");
    assert_eq!(got[30].1, "IHO");
    window.advance(segments[6].clone(), ctype[6]);
    let got = keys(&window);
    assert_eq!(got[5].1, "B2");
    assert_eq!(got[10].1, "E2");
    assert_eq!(got[17].1, "漢E1E2");
    assert_eq!(got[30].1, "HOO");
}

#[test]
fn decision_letters() {
    assert_eq!(Decision::Unknown.as_str(), "U");
    assert_eq!(Decision::Boundary.as_str(), "B");
    assert_eq!(Decision::Inside.as_str(), "O");
}
