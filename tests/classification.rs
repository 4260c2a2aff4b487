use call_classifier::category::{categories, label_universe, owning_title, Category, Label, UpdateCategory};
use call_classifier::entities::{name_and_locations, Entity};
use call_classifier::score::{Score, LABEL_ACCEPT_BITS, STRONG_SENTIMENT_BITS, WEAK_SENTIMENT_BITS};
use call_classifier::text::{contains_text, join_words, remove_text};
use call_classifier::tone::{emotional_tone, EmotionalTone, Polarity};

fn s(x: &str) -> String {
    x.to_string()
}

fn score(x: f64) -> Score {
    Score::from_bits(x.to_bits())
}

fn label(text: &str, x: f64) -> Label {
    Label { text: s(text), score: score(x) }
}

fn billing() -> Category {
    Category { id: 1, title: s("Billing"), points: Some(vec![s("invoice"), s("refund")]) }
}

#[test]
fn threshold_constants_match_their_decimals() {
    assert_eq!(STRONG_SENTIMENT_BITS, 0.999f64.to_bits());
    assert_eq!(WEAK_SENTIMENT_BITS, 0.9f64.to_bits());
    assert_eq!(LABEL_ACCEPT_BITS, 0.89f64.to_bits());
}

#[test]
fn score_comparisons_follow_f64() {
    for x in [0.0, 0.5, 0.89, 0.8900001, 0.9, 0.95, 0.999, 0.9991, 1.0, -0.0, -0.5, f64::NAN, f64::INFINITY] {
        assert_eq!(score(x).exceeds(STRONG_SENTIMENT_BITS), x > 0.999, "{x}");
        assert_eq!(score(x).exceeds(LABEL_ACCEPT_BITS), x > 0.89, "{x}");
        assert_eq!(score(x).falls_below(WEAK_SENTIMENT_BITS), x < 0.9, "{x}");
    }
}

#[test]
fn positive_tone_boundary() {
    assert_eq!(emotional_tone(Polarity::Positive, score(0.999)), EmotionalTone::Neutral);
    assert_eq!(emotional_tone(Polarity::Positive, score(0.9995)), EmotionalTone::Positive);
    assert_eq!(emotional_tone(Polarity::Positive, score(0.5)), EmotionalTone::Neutral);
}

#[test]
fn negative_tone_boundaries() {
    assert_eq!(emotional_tone(Polarity::Negative, score(0.999)), EmotionalTone::Neutral);
    assert_eq!(emotional_tone(Polarity::Negative, score(0.9995)), EmotionalTone::Angry);
    assert_eq!(emotional_tone(Polarity::Negative, score(0.9)), EmotionalTone::Neutral);
    assert_eq!(emotional_tone(Polarity::Negative, score(0.95)), EmotionalTone::Neutral);
    assert_eq!(emotional_tone(Polarity::Negative, score(0.8999)), EmotionalTone::Negative);
}

#[test]
fn tone_labels() {
    assert_eq!(EmotionalTone::Positive.label(), "Positive");
    assert_eq!(EmotionalTone::Neutral.label(), "Neutral");
    assert_eq!(EmotionalTone::Negative.label(), "Negative");
    assert_eq!(EmotionalTone::Angry.label(), "Angry");
}

#[test]
fn names_and_locations_by_tag() {
    let es = vec![
        Entity { word: s("John"), label: s("I-PER") },
        Entity { word: s("Paris"), label: s("I-LOC") },
        Entity { word: s("Acme"), label: s("I-ORG") },
        Entity { word: s("Smith"), label: s("I-PER") },
    ];
    let (names, locations) = name_and_locations(&es);
    assert_eq!(names, Some(vec![s("John"), s("Smith")]));
    assert_eq!(locations, Some(vec![s("Paris")]));
}

#[test]
fn nothing_found_is_absent() {
    let es = vec![Entity { word: s("Acme"), label: s("I-ORG") }];
    assert_eq!(name_and_locations(&es), (None, None));
    assert_eq!(name_and_locations(&vec![]), (None, None));
}

#[test]
fn words_join_with_spaces() {
    assert_eq!(join_words(&vec![s("John"), s("Smith")]), "John Smith");
    assert_eq!(join_words(&vec![s("John")]), "John");
    assert_eq!(join_words(&vec![]), "");
}

#[test]
fn text_lookup_and_removal() {
    let v = vec![s("a"), s("b"), s("a")];
    assert!(contains_text(&v, &s("b")));
    assert!(!contains_text(&v, &s("c")));
    assert_eq!(remove_text(&v, &s("a")), vec![s("b")]);
}

#[test]
fn candidate_labels_title_first() {
    assert_eq!(billing().candidate_labels(), vec![s("Billing"), s("invoice"), s("refund")]);
    let bare = Category { id: 2, title: s("Support"), points: None };
    assert_eq!(bare.candidate_labels(), vec![s("Support")]);
}

#[test]
fn universe_covers_every_category() {
    let catalog = vec![billing(), Category { id: 2, title: s("Support"), points: None }];
    assert_eq!(
        label_universe(&catalog),
        vec![s("Billing"), s("invoice"), s("refund"), s("Support")]
    );
    assert_eq!(label_universe(&vec![]), Vec::<String>::new());
}

#[test]
fn refund_call_is_billing() {
    let catalog = vec![billing()];
    let predicted = vec![label("Billing", 0.2), label("invoice", 0.5), label("refund", 0.95)];
    assert_eq!(categories(&predicted, &catalog), vec![s("Billing")]);
}

#[test]
fn label_at_threshold_is_rejected() {
    let catalog = vec![billing()];
    let predicted = vec![label("refund", 0.89)];
    assert!(categories(&predicted, &catalog).is_empty());
}

#[test]
fn first_claimant_wins_and_titles_come_once() {
    let catalog = vec![
        billing(),
        Category { id: 2, title: s("Money"), points: Some(vec![s("refund"), s("cash")]) },
    ];
    assert_eq!(owning_title(&catalog, &s("refund")), Some(s("Billing")));
    assert_eq!(owning_title(&catalog, &s("cash")), Some(s("Money")));
    assert_eq!(owning_title(&catalog, &s("weather")), None);
    let predicted = vec![
        label("refund", 0.95),
        label("invoice", 0.97),
        label("cash", 0.91),
        label("weather", 0.99),
    ];
    let mut titles = categories(&predicted, &catalog);
    titles.sort();
    assert_eq!(titles, vec![s("Billing"), s("Money")]);
}

#[test]
fn update_keeps_absent_fields() {

    let c = billing().apply_update(UpdateCategory { title: Some(s("Bills")), points: None });
    assert_eq!(c.id, 1);
    assert_eq!(c.title, "Bills");
    assert_eq!(c.points, Some(vec![s("invoice"), s("refund")]));
    let c = c.apply_update(UpdateCategory { title: None, points: Some(vec![]) });
    assert_eq!(c.title, "Bills");
    assert_eq!(c.points, Some(vec![]));
}
