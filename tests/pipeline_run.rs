use call_classifier::category::{Category, Label};
use call_classifier::entities::Entity;
use call_classifier::pipeline::{
    advance, start, step, Action, Event, IngestError, PipelineError, PipelineState,
};
use call_classifier::score::Score;
use call_classifier::tone::Polarity;
use uuid::Uuid;

fn s(x: &str) -> String {
    x.to_string()
}

fn score(x: f64) -> Score {
    Score::from_bits(x.to_bits())
}

#[test]
fn unreachable_audio_is_422_and_inserts_nothing() {
    let (state, action) = start(s("http://unreachable.invalid/a.wav"));
    assert!(matches!(action, Action::FetchAudio(ref u) if u == "http://unreachable.invalid/a.wav"));
    let (state, action) = step(state, Event::Failed);
    assert!(matches!(state, PipelineState::Finished));
    match action {
        Action::Finish(Err(e)) => {
            assert_eq!(e, PipelineError::Ingest(IngestError::Network));
            assert_eq!(e.status(), 422);
        }
        other => panic!("unexpected {other:?}"),
    }
    let (state, action) = step(state, Event::Inserted);
    assert!(matches!(state, PipelineState::Finished));
    assert!(matches!(action, Action::Idle));
}

#[test]
fn failure_kind_follows_the_stage() {
    let id = Uuid::from_u128(7);
    let (_, a) = advance(PipelineState::Storing { id }, Event::Failed, id);
    assert!(matches!(a, Action::Finish(Err(PipelineError::Ingest(IngestError::Storage)))));
    let (_, a) = advance(PipelineState::Transcribing { id }, Event::AudioStored, id);
    assert!(matches!(a, Action::Finish(Err(PipelineError::Transcription))));
    let (_, a) = advance(PipelineState::Scoring { id, text: s("t") }, Event::Failed, id);
    assert!(matches!(a, Action::Finish(Err(e)) if e == PipelineError::Inference && e.status() == 500));
    let (_, a) = advance(PipelineState::Inserting { id }, Event::Failed, id);
    assert!(matches!(a, Action::Finish(Err(PipelineError::Persistence))));
}

#[test]
fn stored_recordings_get_distinct_identifiers() {
    let (_, a1) = step(PipelineState::Fetching, Event::AudioFetched(vec![1, 2]));
    let (_, a2) = step(PipelineState::Fetching, Event::AudioFetched(vec![1, 2]));
    match (a1, a2) {
        (Action::StoreAudio(u1, b1), Action::StoreAudio(u2, _)) => {
            assert_ne!(u1, u2);
            assert_eq!(b1, vec![1, 2]);
        }
        other => panic!("unexpected {other:?}"),
    }
}

#[test]
fn full_run_builds_the_call() {
    let id = Uuid::from_u128(42);
    let (state, action) = advance(PipelineState::Fetching, Event::AudioFetched(vec![9]), id);
    assert!(matches!(action, Action::StoreAudio(u, _) if u == id));
    let (state, action) = advance(state, Event::AudioStored, id);
    assert!(matches!(action, Action::Transcribe(u) if u == id));
    let text = s("I want a refund for my invoice");
    let (state, action) = advance(state, Event::Transcribed(text.clone()), id);
    assert!(matches!(action, Action::ClassifySentiment(ref t) if *t == text));
    let (state, action) = advance(state, Event::SentimentScored(Polarity::Negative, score(0.95)), id);
    assert!(matches!(action, Action::ExtractEntities(ref t) if *t == text));
    let entities = vec![
        Entity { word: s("Ann"), label: s("I-PER") },
        Entity { word: s("Lee"), label: s("I-PER") },
    ];
    let (state, action) = advance(state, Event::EntitiesTagged(entities), id);
    assert!(matches!(action, Action::LoadCatalog));
    let catalog = vec![
        Category { id: 1, title: s("Billing"), points: Some(vec![s("invoice"), s("refund")]) },
        Category { id: 2, title: s("Support"), points: None },
    ];
    let (state, action) = advance(state, Event::CatalogLoaded(catalog), id);
    match &action {
        Action::ClassifyZeroShot(t, labels) => {
            assert_eq!(*t, text);
            assert_eq!(*labels, vec![s("Billing"), s("invoice"), s("refund"), s("Support")]);
        }
        other => panic!("unexpected {other:?}"),
    }
    let labels = vec![
        Label { text: s("refund"), score: score(0.95) },
        Label { text: s("Support"), score: score(0.4) },
    ];
    let (state, action) = advance(state, Event::LabelsScored(labels), id);
    match action {
        Action::InsertCall(call) => {
            assert_eq!(call.id, id);
            assert_eq!(call.text, text);
            assert_eq!(call.emotional_tone, Some(s("Neutral")));
            assert_eq!(call.name, Some(s("Ann Lee")));
            assert_eq!(call.location, None);
            assert_eq!(call.categories, Some(vec![s("Billing")]));
        }
        other => panic!("unexpected {other:?}"),
    }
    let (state, action) = advance(state, Event::Inserted, id);
    assert!(matches!(state, PipelineState::Finished));
    assert!(matches!(action, Action::Finish(Ok(u)) if u == id));
}
