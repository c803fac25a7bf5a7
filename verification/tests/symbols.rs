use gambling_simulator::{Sampler, SymbolType};

const ALL: [SymbolType; 11] = [
    SymbolType::Nine,
    SymbolType::Ten,
    SymbolType::Jack,
    SymbolType::Queen,
    SymbolType::King,
    SymbolType::Ace,
    SymbolType::Coffee,
    SymbolType::Cake,
    SymbolType::Viking,
    SymbolType::Dragon,
    SymbolType::Wild,
];

#[test]
fn labels_are_the_displayed_text() {
    let labels: Vec<String> = ALL.iter().map(|k| k.to_string()).collect();
    assert_eq!(
        labels,
        vec!["9", "10", "J", "Q", "K", "A", "Coffee", "Cake", "Viking", "Dragon", "Wild"]
    );
}

#[test]
fn values_follow_the_table() {
    let values: Vec<u32> = ALL.iter().map(|k| k.value()).collect();
    assert_eq!(values, vec![5, 7, 10, 15, 20, 25, 30, 40, 50, 100, 125]);
}

#[test]
fn font_sizes_by_label_length() {
    let sizes: Vec<i32> = ALL.iter().map(|k| k.font_size()).collect();
    assert_eq!(sizes, vec![70, 70, 70, 70, 70, 70, 40, 40, 40, 40, 60]);
}

#[test]
fn from_index_follows_sampling_order() {
    for (i, kind) in ALL.iter().enumerate() {
        assert_eq!(SymbolType::from_index(i), *kind);
    }
}

#[test]
fn wild_matches_everything() {
    for kind in ALL.iter() {
        assert!(kind.matches(SymbolType::Wild));
        assert!(SymbolType::Wild.matches(*kind));
        assert!(kind.matches(*kind));
    }
    assert!(SymbolType::Wild.matches(SymbolType::Nine));
}

#[test]
fn distinct_kinds_do_not_match() {
    assert!(!SymbolType::Nine.matches(SymbolType::Ten));
    assert!(!SymbolType::Ten.matches(SymbolType::Nine));
    assert!(!SymbolType::Dragon.matches(SymbolType::Viking));
}

#[test]
fn matching_is_symmetric() {
    for first in ALL.iter() {
        for second in ALL.iter() {
            assert_eq!(first.matches(*second), second.matches(*first));
            let expected = first == second || *first == SymbolType::Wild || *second == SymbolType::Wild;
            assert_eq!(first.matches(*second), expected);
        }
    }
}

#[test]
fn sampler_weights_are_quarter_units() {
    assert_eq!(Sampler::weights(), vec![120, 120, 80, 60, 40, 32, 28, 20, 12, 4, 3]);
}

#[test]
fn sampler_draws_more_than_one_kind() {
    let sampler = Sampler::new();
    let first = sampler.draw();
    let mut other = false;
    for _ in 0..2000 {
        if sampler.draw() != first {
            other = true;
        }
    }
    assert!(other);
}

#[test]
fn sampler_frequencies_follow_weights() {
    let sampler = Sampler::new();
    let draws = 60000;
    let mut counts = [0u32; 11];
    for _ in 0..draws {
        let kind = sampler.draw();
        let index = ALL.iter().position(|k| *k == kind).unwrap();
        counts[index] += 1;
    }
    let weights = Sampler::weights();
    let total: u32 = weights.iter().sum();
    assert_eq!(total, 519);
    for i in 0..11 {
        let expected = draws as f64 * weights[i] as f64 / total as f64;
        let spread = 6.0 * expected.sqrt() + 6.0;
        let seen = counts[i] as f64;
        assert!((seen - expected).abs() <= spread, "kind {} seen {} expected {}", i, seen, expected);
    }
}
