use tinysegmenter::model::{
    BC1, BC2, BC3, BIAS, BP1, BP2, BQ1, BQ2, BW1, BW2, BW3, TC1, TC2, TC3, TC4, TQ1, TQ2, TQ3,
    TQ4, TW1, TW2, TW3, TW4, UC1, UC2, UC3, UC4, UC5, UC6, UP1, UP2, UP3, UQ1, UQ2, UQ3, UW1,
    UW2, UW3, UW4, UW5, UW6,
};
use tinysegmenter::{construct_scorer_hashmap, get_score};

fn families() -> Vec<(&'static str, &'static [(&'static str, i32)])> {
    vec![
        ("BC1", &BC1), ("BC2", &BC2), ("BC3", &BC3), ("BP1", &BP1), ("BP2", &BP2),
        ("BQ1", &BQ1), ("BQ2", &BQ2), ("BW1", &BW1), ("BW2", &BW2), ("BW3", &BW3),
        ("TC1", &TC1), ("TC2", &TC2), ("TC3", &TC3), ("TC4", &TC4), ("TQ1", &TQ1),
        ("TQ2", &TQ2), ("TQ3", &TQ3), ("TQ4", &TQ4), ("TW1", &TW1), ("TW2", &TW2),
        ("TW3", &TW3), ("TW4", &TW4), ("UC1", &UC1), ("UC2", &UC2), ("UC3", &UC3),
        ("UC4", &UC4), ("UC5", &UC5), ("UC6", &UC6), ("UP1", &UP1), ("UP2", &UP2),
        ("UP3", &UP3), ("UQ1", &UQ1), ("UQ2", &UQ2), ("UQ3", &UQ3), ("UW1", &UW1),
        ("UW2", &UW2), ("UW3", &UW3), ("UW4", &UW4), ("UW5", &UW5), ("UW6", &UW6),
    ]
}

#[test]
fn bias_of_the_model() {
    assert_eq!(BIAS, -332);
}

#[test]
fn size_and_sum_of_each_family() {
    let want: [(&str, usize, i64); 40] = [
        ("BC1", 4, 1495), ("BC2", 17, -1013), ("BC3", 11, 4946), ("BP1", 4, 826),
        ("BP2", 2, -1702), ("BQ1", 14, 6223), ("BQ2", 10, -4663), ("BW1", 71, 38250),
        ("BW2", 121, -164285), ("BW3", 114, 130306), ("TC1", 12, 1813), ("TC2", 6, -4000),
        ("TC3", 23, -20252), ("TC4", 23, 17416), ("TQ1", 13, 1329), ("TQ2", 4, -8568),
        ("TQ3", 20, 7198), ("TQ4", 16, -19698), ("TW1", 2, -2655), ("TW2", 16, -30397),
        ("TW3", 11, -30546), ("TW4", 12, 31928), ("UC1", 4, 717), ("UC2", 6, 12695),
        ("UC3", 2, 941), ("UC4", 7, 8771), ("UC5", 5, -2016), ("UC6", 5, -812),
        ("UP1", 1, -214), ("UP2", 2, 1004), ("UP3", 1, 189), ("UQ1", 9, -1634),
        ("UQ2", 3, 2088), ("UQ3", 9, 14587), ("UW1", 38, -7407), ("UW2", 107, -26550),
        ("UW3", 216, 138240), ("UW4", 220, -19315), ("UW5", 99, -72457), ("UW6", 53, 4063),
    ];
    let got = families();
    assert_eq!(got.len(), want.len());
    for ((name, entries), (want_name, size, sum)) in got.iter().zip(want.iter()) {
        assert_eq!(name, want_name);
        assert_eq!(entries.len(), *size);
        assert_eq!(entries.iter().map(|e| i64::from(e.1)).sum::<i64>(), *sum);
    }
}

#[test]
fn no_key_stands_twice_in_a_family() {
    for (name, entries) in families() {
        let mut keys: Vec<&str> = entries.iter().map(|e| e.0).collect();
        keys.sort();
        keys.dedup();
        assert_eq!(keys.len(), entries.len(), "family {}", name);
    }
}

#[test]
fn table_holds_every_listed_weight() {
    let table = construct_scorer_hashmap();
    let mut seen: usize = 0;
    for (name, entries) in families() {
        for (key, weight) in entries {
            assert_eq!(get_score(name, key, &table), *weight);
            seen += 1;
        }
    }
    assert_eq!(seen, 1313);
}

#[test]
fn every_weight_is_small() {
    for (_, entries) in families() {
        for (_, weight) in entries {
            assert!(-32768 <= *weight && *weight <= 32767);
        }
    }
}
