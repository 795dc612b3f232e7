use syllable::Grapheme;
use syllable::PROB_ONE;
use syllable::Syllable;
use syllable::SyllableBuilder;

const DEFAULT_ONSET_CLUSTERS: [&str; 18] = [
    "ch", "sh", "bl", "cl", "fl", "pl", "gl", "br", "cr", "dr", "pr", "tr", "th", "sc", "sp",
    "st", "sl", "spr",
];

fn frags(texts: &[&str]) -> Vec<Grapheme> {
    Grapheme::map_slice(texts)
}

fn kat_generator() -> Syllable {
    Syllable::from_parts(
        frags(&["k"]),
        Vec::new(),
        frags(&["a"]),
        Vec::new(),
        frags(&["t"]),
        Vec::new(),
        PROB_ONE,
        0,
        0,
        PROB_ONE,
        0,
    )
}

#[test]
fn grapheme_carries_text_and_weight() {
    let g = Grapheme::new("spr", 7);
    assert_eq!(g.string(), "spr");
    assert_eq!(g.as_str(), "spr");
    assert_eq!(g.weight(), 7);
}

#[test]
fn map_slice_keeps_order_and_weight_one() {
    let v = Grapheme::map_slice(&["x", "y", "z"]);
    assert_eq!(v.len(), 3);
    assert_eq!(v[0].string(), "x");
    assert_eq!(v[1].string(), "y");
    assert_eq!(v[2].string(), "z");
    assert_eq!(v[0].weight(), 1);
    assert_eq!(v[2].weight(), 1);
}

#[test]
fn map_slice_of_nothing_is_empty() {
    let v = Grapheme::map_slice(&[]);
    assert_eq!(v.len(), 0);
}

#[test]
fn name_of_zero_syllables_is_empty() {
    let g = Syllable::new();
    assert_eq!(g.gen_name(0), "");
}

#[test]
fn fixed_categories_always_give_kat() {
    let g = kat_generator();
    for _ in 0..200 {
        assert_eq!(g.gen_syllable(), "kat");
    }
}

#[test]
fn name_concatenates_syllables() {
    let g = kat_generator();
    assert_eq!(g.gen_name(1), "kat");
    assert_eq!(g.gen_name(3), "katkatkat");
    assert_eq!(g.gen_name(5).len(), 15);
}

#[test]
fn zero_onset_probability_never_gives_an_onset() {
    let g = Syllable::from_parts(
        frags(&["z"]),
        Vec::new(),
        frags(&["a"]),
        Vec::new(),
        frags(&["t"]),
        Vec::new(),
        0,
        PROB_ONE,
        0,
        0,
        0,
    );
    for _ in 0..500 {
        assert_eq!(g.gen_syllable(), "a");
    }
}

#[test]
fn saturated_onset_probability_always_gives_an_onset() {
    let g = Syllable::from_parts(
        frags(&["z"]),
        Vec::new(),
        frags(&["a"]),
        Vec::new(),
        frags(&["t"]),
        Vec::new(),
        PROB_ONE,
        0,
        0,
        0,
        0,
    );
    for _ in 0..500 {
        assert_eq!(g.gen_syllable(), "za");
    }
}

#[test]
fn out_of_range_probability_saturates_to_always() {
    let g = Syllable::from_parts(
        frags(&["z"]),
        Vec::new(),
        frags(&["a"]),
        Vec::new(),
        frags(&["t"]),
        Vec::new(),
        u32::MAX,
        0,
        0,
        0,
        0,
    );
    for _ in 0..200 {
        assert_eq!(g.gen_syllable(), "za");
    }
}

#[test]
fn empty_cluster_category_forces_single_onsets() {
    let g = Syllable::from_parts(
        frags(&["k"]),
        Vec::new(),
        frags(&["a"]),
        Vec::new(),
        frags(&["t"]),
        Vec::new(),
        PROB_ONE,
        PROB_ONE,
        0,
        0,
        0,
    );
    for _ in 0..500 {
        assert_eq!(g.gen_syllable(), "ka");
    }
}

#[test]
fn saturated_cluster_probability_forces_clusters() {
    let g = Syllable::from_parts(
        frags(&["k"]),
        frags(&["spr"]),
        frags(&["a"]),
        Vec::new(),
        frags(&["t"]),
        Vec::new(),
        PROB_ONE,
        PROB_ONE,
        0,
        0,
        0,
    );
    for _ in 0..500 {
        assert_eq!(g.gen_syllable(), "spra");
    }
}

#[test]
fn saturated_nucleus_cluster_probability_forces_nucleus_clusters() {
    let g = Syllable::from_parts(
        frags(&["z"]),
        Vec::new(),
        frags(&["a"]),
        frags(&["ea"]),
        frags(&["t"]),
        Vec::new(),
        0,
        0,
        PROB_ONE,
        0,
        0,
    );
    for _ in 0..500 {
        assert_eq!(g.gen_syllable(), "ea");
    }
}

#[test]
fn default_syllables_are_nonempty_lowercase() {
    let g = Syllable::new();
    for _ in 0..500 {
        let s = g.gen_syllable();
        assert!(!s.is_empty());
        assert!(s.chars().all(|c| c.is_ascii_lowercase()));
    }
}

#[test]
fn builder_without_overrides_behaves_like_default() {
    let g = SyllableBuilder::new().build();
    for _ in 0..200 {
        let s = g.gen_syllable();
        assert!(!s.is_empty());
        assert!(s.chars().all(|c| c.is_ascii_lowercase()));
    }
}

#[test]
fn builder_override_controls_single_onsets() {
    let g = SyllableBuilder::new().with_onsets(&["zz"]).build();
    let vowels = ['a', 'e', 'i', 'o', 'u'];
    for _ in 0..500 {
        let s = g.gen_syllable();
        let onset_is_override = s.starts_with("zz");
        let onset_is_cluster = DEFAULT_ONSET_CLUSTERS.iter().any(|c| s.starts_with(c));
        let no_onset = s.starts_with(|c| vowels.contains(&c));
        assert!(
            onset_is_override || onset_is_cluster || no_onset,
            "unexpected syllable {}",
            s
        );
    }
}

#[test]
fn builder_overrides_nuclei_and_codas() {
    let g = SyllableBuilder::new()
        .with_onsets(&["k"])
        .with_nuclei(&["aaa"])
        .with_codas(&["rrr"])
        .build();
    for _ in 0..500 {
        let s = g.gen_syllable();
        // The nucleus is either the override or a default nucleus cluster.
        assert!(s.contains("aaa") || ["ae", "ea", "ai", "ia", "au", "ay", "ie", "oi", "ou", "ey"]
            .iter()
            .any(|n| s.contains(n)));
    }
}

#[test]
fn default_cluster_onset_fraction_matches_probabilities() {
    // With the default configuration an onset cluster begins the syllable
    // with probability 0.95 * 0.25 = 0.2375; no other slot combination can
    // begin a syllable with a default cluster, since single onsets are one
    // consonant followed by a vowel and every cluster's second character is
    // a consonant. Allow a tolerance of 0.03 around the expectation.
    let g = Syllable::new();
    let trials = 10_000;
    let mut hits = 0usize;
    for _ in 0..trials {
        let s = g.gen_syllable();
        if DEFAULT_ONSET_CLUSTERS.iter().any(|c| s.starts_with(c)) {
            hits += 1;
        }
    }
    assert!(
        2075 <= hits && hits <= 2675,
        "cluster-onset count out of tolerance: {}",
        hits
    );
}
