use vstd::prelude::*;
use uuid::Uuid;
use crate::category::{categories, is_accepted_title, label_universe, opt_text, universe, Category, Label};
use crate::entities::{absent_if_empty, location_tag, name_and_locations, opt_views, person_tag, words_tagged, Entity};
use crate::score::Score;
use crate::text::{join_words, joined, views};
use crate::tone::{emotional_tone, tone_of, EmotionalTone, Polarity};

verus! {

/// A stored call.
#[derive(Debug)]
pub struct Call {
    pub id: Uuid,
    pub name: Option<String>,
    pub location: Option<String>,
    pub emotional_tone: Option<String>,
    pub text: String,
    pub categories: Option<Vec<String>>,
}

/// The identifier of a stored call.
#[derive(Debug)]
pub struct CallId {
    pub id: Uuid,
}

/// Why a recording could not be taken in.
#[derive(Clone, Copy, Debug, PartialEq, Eq, Structural)]
pub enum IngestError {
    Network,
    Storage,
}

/// Why a call could not be made from a recording.
#[derive(Clone, Copy, Debug, PartialEq, Eq, Structural)]
pub enum PipelineError {
    Ingest(IngestError),
    Transcription,
    Inference,
    Persistence,
}

/// The HTTP status that reports a failure: a recording that could not be
/// taken in or transcribed is the client's problem, a failing engine or
/// store the server's.
pub open spec fn status_of(e: PipelineError) -> u16 {
    match e {
        PipelineError::Ingest(_) => 422,
        PipelineError::Transcription => 422,
        PipelineError::Inference => 500,
        PipelineError::Persistence => 500,
    }
}

impl PipelineError {
    /// The HTTP status that reports this failure.
    pub fn status(&self) -> (r: u16)
        ensures
            r == status_of(*self),
    {
        match self {
            PipelineError::Ingest(_) => 422,
            PipelineError::Transcription => 422,
            PipelineError::Inference => 500,
            PipelineError::Persistence => 500,
        }
    }
}

/// Where the making of one call stands: each state waits for the outcome of
/// one action.
#[derive(Debug)]
pub enum PipelineState {
    /// Waiting for the recording's bytes.
    Fetching,
    /// Waiting for the bytes to be stored under `id`.
    Storing { id: Uuid },
    /// Waiting for the transcription.
    Transcribing { id: Uuid },
    /// Waiting for the sentiment of the text.
    Scoring { id: Uuid, text: String },
    /// Waiting for the tagged tokens of the text.
    Tagging { id: Uuid, text: String, tone: EmotionalTone },
    /// Waiting for the category catalog.
    Loading {
        id: Uuid,
        text: String,
        tone: EmotionalTone,
        name: Option<Vec<String>>,
        location: Option<Vec<String>>,
    },
    /// Waiting for the zero-shot scores of the catalog's labels.
    Classifying {
        id: Uuid,
        text: String,
        tone: EmotionalTone,
        name: Option<Vec<String>>,
        location: Option<Vec<String>>,
        catalog: Vec<Category>,
    },
    /// Waiting for the call to be inserted.
    Inserting { id: Uuid },
    /// Done: nothing more happens.
    Finished,
}

/// The outcome of the action that the pipeline asked for last.
#[derive(Debug)]
pub enum Event {
    AudioFetched(Vec<u8>),
    AudioStored,
    Transcribed(String),
    SentimentScored(Polarity, Score),
    EntitiesTagged(Vec<Entity>),
    CatalogLoaded(Vec<Category>),
    LabelsScored(Vec<Label>),
    Inserted,
    /// The action failed.
    Failed,
}

/// What the pipeline asks for next.
#[derive(Debug)]
pub enum Action {
    /// Download the recording at this address.
    FetchAudio(String),
    /// Store the recording's bytes under this identifier.
    StoreAudio(Uuid, Vec<u8>),
    /// Transcribe the recording stored under this identifier.
    Transcribe(Uuid),
    /// Classify the sentiment of this text.
    ClassifySentiment(String),
    /// Tag the entities of this text.
    ExtractEntities(String),
    /// Read every category.
    LoadCatalog,
    /// Score this text against each of these labels, each on its own.
    ClassifyZeroShot(String, Vec<String>),
    /// Insert this call.
    InsertCall(Call),
    /// Report the outcome.
    Finish(Result<Uuid, PipelineError>),
    /// Nothing: the pipeline is done.
    Idle,
}

/// What a failure while waiting in `state` is.
pub open spec fn failure_of(state: PipelineState) -> PipelineError {
    match state {
        PipelineState::Fetching => PipelineError::Ingest(IngestError::Network),
        PipelineState::Storing { .. } => PipelineError::Ingest(IngestError::Storage),
        PipelineState::Transcribing { .. } => PipelineError::Transcription,
        PipelineState::Loading { .. } => PipelineError::Persistence,
        PipelineState::Inserting { .. } => PipelineError::Persistence,
        _ => PipelineError::Inference,
    }
}

/// Words joined with spaces, where there are any.
pub open spec fn joined_opt(o: Option<Seq<Seq<char>>>) -> Option<Seq<char>> {
    match o {
        Some(ws) => Some(joined(ws)),
        None => None,
    }
}

/// `call` is the call made of the given stage results.
pub open spec fn call_made_of(
    call: Call,
    id: Uuid,
    text: String,
    tone: EmotionalTone,
    name: Option<Vec<String>>,
    location: Option<Vec<String>>,
    catalog: Vec<Category>,
    labels: Vec<Label>,
) -> bool {
    &&& call.id == id
    &&& call.text@ == text@
    &&& opt_text(call.emotional_tone) == Some(tone.label_spec())
    &&& opt_text(call.name) == joined_opt(opt_views(name))
    &&& opt_text(call.location) == joined_opt(opt_views(location))
    &&& call.categories is Some
    &&& views(call.categories->0@).no_duplicates()
    &&& forall|t: Seq<char>|
        #[trigger] views(call.categories->0@).contains(t) <==> is_accepted_title(
            labels@,
            catalog@,
            t,
        )
}

/// One step of the pipeline: from `state` and the outcome `event` of the
/// action it waited for, to the next state and action. `fresh` is the
/// identifier that a recording gets when its bytes arrive.
///
/// The stages run in order: fetch, store, transcribe, sentiment, entities,
/// catalog, zero-shot classification, insert. A failure, or an outcome that
/// does not answer the pending action, ends the run with the failure of
/// the stage that waited.
pub open spec fn step_spec(
    state: PipelineState,
    event: Event,
    fresh: Uuid,
    next: PipelineState,
    action: Action,
) -> bool {
    match (state, event) {
        (PipelineState::Finished, _) => next is Finished && action is Idle,
        (PipelineState::Fetching, Event::AudioFetched(bytes)) => next == (PipelineState::Storing {
            id: fresh,
        }) && action == Action::StoreAudio(fresh, bytes),
        (PipelineState::Storing { id }, Event::AudioStored) => next == (PipelineState::Transcribing {
            id,
        }) && action == Action::Transcribe(id),
        (PipelineState::Transcribing { id }, Event::Transcribed(text)) => next == (
        PipelineState::Scoring { id, text }) && action == Action::ClassifySentiment(text),
        (PipelineState::Scoring { id, text }, Event::SentimentScored(p, s)) => next == (
        PipelineState::Tagging { id, text, tone: tone_of(p, s.bits) }) && action
            == Action::ExtractEntities(text),
        (PipelineState::Tagging { id, text, tone }, Event::EntitiesTagged(es)) => {
            &&& next matches PipelineState::Loading { id: i, text: x, tone: t, name, location }
            &&& i == id && x == text && t == tone
            &&& opt_views(name) == absent_if_empty(words_tagged(es@, person_tag()))
            &&& opt_views(location) == absent_if_empty(words_tagged(es@, location_tag()))
            &&& action is LoadCatalog
        },
        (
            PipelineState::Loading { id, text, tone, name, location },
            Event::CatalogLoaded(catalog),
        ) => {
            &&& next == (PipelineState::Classifying { id, text, tone, name, location, catalog })
            &&& action matches Action::ClassifyZeroShot(x, labels)
            &&& x == text
            &&& views(labels@) == universe(catalog@)
        },
        (
            PipelineState::Classifying { id, text, tone, name, location, catalog },
            Event::LabelsScored(labels),
        ) => {
            &&& next == (PipelineState::Inserting { id })
            &&& action matches Action::InsertCall(call)
            &&& call_made_of(call, id, text, tone, name, location, catalog, labels)
        },
        (PipelineState::Inserting { id }, Event::Inserted) => next is Finished && action
            == Action::Finish(Ok(id)),
        (s, _) => next is Finished && action == Action::Finish(Err(failure_of(s))),
    }
}

/// The first state and action of a run for the recording at `audio_url`.
pub fn start(audio_url: String) -> (r: (PipelineState, Action))
    ensures
        r.0 is Fetching,
        r.1 == Action::FetchAudio(audio_url),
{
    (PipelineState::Fetching, Action::FetchAudio(audio_url))
}

/// What a failure while waiting in `state` is.
fn stage_failure(state: &PipelineState) -> (r: PipelineError)
    ensures
        r == failure_of(*state),
{
    match state {
        PipelineState::Fetching => PipelineError::Ingest(IngestError::Network),
        PipelineState::Storing { .. } => PipelineError::Ingest(IngestError::Storage),
        PipelineState::Transcribing { .. } => PipelineError::Transcription,
        PipelineState::Loading { .. } => PipelineError::Persistence,
        PipelineState::Inserting { .. } => PipelineError::Persistence,
        _ => PipelineError::Inference,
    }
}

/// Words joined with spaces, where there are any.
fn join_opt(o: &Option<Vec<String>>) -> (r: Option<String>)
    ensures
        opt_text(r) == joined_opt(opt_views(*o)),
{
    match o {
        Some(ws) => Some(join_words(ws)),
        None => None,
    }
}

/// One step of the pipeline, with `fresh` as the identifier that a
/// recording gets when its bytes arrive.
pub fn advance(state: PipelineState, event: Event, fresh: Uuid) -> (r: (PipelineState, Action))
    ensures
        step_spec(state, event, fresh, r.0, r.1),
{
    let failure = stage_failure(&state);
    let failed = (PipelineState::Finished, Action::Finish(Err(failure)));
    match state {
        PipelineState::Finished => (PipelineState::Finished, Action::Idle),
        PipelineState::Fetching => match event {
            Event::AudioFetched(bytes) => (
                PipelineState::Storing { id: fresh },
                Action::StoreAudio(fresh, bytes),
            ),
            _ => failed,
        },
        PipelineState::Storing { id } => match event {
            Event::AudioStored => (PipelineState::Transcribing { id }, Action::Transcribe(id)),
            _ => failed,
        },
        PipelineState::Transcribing { id } => match event {
            Event::Transcribed(text) => {
                let action = Action::ClassifySentiment(text.clone());
                (PipelineState::Scoring { id, text }, action)
            },
            _ => failed,
        },
        PipelineState::Scoring { id, text } => match event {
            Event::SentimentScored(p, s) => {
                let tone = emotional_tone(p, s);
                let action = Action::ExtractEntities(text.clone());
                (PipelineState::Tagging { id, text, tone }, action)
            },
            _ => failed,
        },
        PipelineState::Tagging { id, text, tone } => match event {
            Event::EntitiesTagged(es) => {
                let (name, location) = name_and_locations(&es);
                (PipelineState::Loading { id, text, tone, name, location }, Action::LoadCatalog)
            },
            _ => failed,
        },
        PipelineState::Loading { id, text, tone, name, location } => match event {
            Event::CatalogLoaded(catalog) => {
                let labels = label_universe(&catalog);
                let action = Action::ClassifyZeroShot(text.clone(), labels);
                (PipelineState::Classifying { id, text, tone, name, location, catalog }, action)
            },
            _ => failed,
        },
        PipelineState::Classifying { id, text, tone, name, location, catalog } => match event {
            Event::LabelsScored(labels) => {
                let titles = categories(&labels, &catalog);
                let call = Call {
                    id,
                    name: join_opt(&name),
                    location: join_opt(&location),
                    emotional_tone: Some(tone.label()),
                    text,
                    categories: Some(titles),
                };
                (PipelineState::Inserting { id }, Action::InsertCall(call))
            },
            _ => failed,
        },
        PipelineState::Inserting { id } => match event {
            Event::Inserted => (PipelineState::Finished, Action::Finish(Ok(id))),
            _ => failed,
        },
    }
}

/// One step of the pipeline; a recording whose bytes arrive gets a new
/// random identifier.
pub fn step(state: PipelineState, event: Event) -> (r: (PipelineState, Action))
    ensures
        exists|fresh: Uuid| step_spec(state, event, fresh, r.0, r.1),
{
    let fresh = Uuid::new_v4();
    advance(state, event, fresh)
}

/// A recording that cannot be downloaded ends the run at once with an
/// ingestion failure, reported with status 422: no engine is asked and no
/// call is inserted, then or later.
pub proof fn lemma_fetch_failure_inserts_nothing(
    fresh: Uuid,
    next: PipelineState,
    action: Action,
)
    requires
        step_spec(PipelineState::Fetching, Event::Failed, fresh, next, action),
    ensures
        next is Finished,
        action == Action::Finish(Err(PipelineError::Ingest(IngestError::Network))),
        status_of(PipelineError::Ingest(IngestError::Network)) == 422,
        forall|e: Event, u: Uuid, s: PipelineState, a: Action|
            #[trigger] step_spec(next, e, u, s, a) ==> s is Finished && a is Idle,
{
}

/// A failure to store a recording's bytes ends the run at once with an
/// ingestion failure, reported with status 422: no engine is asked.
pub proof fn lemma_store_failure_inserts_nothing(
    id: Uuid,
    fresh: Uuid,
    next: PipelineState,
    action: Action,
)
    requires
        step_spec(PipelineState::Storing { id }, Event::Failed, fresh, next, action),
    ensures
        next is Finished,
        action == Action::Finish(Err(PipelineError::Ingest(IngestError::Storage))),
        status_of(PipelineError::Ingest(IngestError::Storage)) == 422,
{
}

/// The identifier that a state carries, from the moment the recording's
/// bytes arrived.
pub open spec fn id_of(state: PipelineState) -> Option<Uuid> {
    match state {
        PipelineState::Storing { id } => Some(id),
        PipelineState::Transcribing { id } => Some(id),
        PipelineState::Scoring { id, .. } => Some(id),
        PipelineState::Tagging { id, .. } => Some(id),
        PipelineState::Loading { id, .. } => Some(id),
        PipelineState::Classifying { id, .. } => Some(id),
        PipelineState::Inserting { id } => Some(id),
        _ => None,
    }
}

/// The identifier under which a recording is stored stays with its run:
/// the recording is transcribed under it, the call is inserted with it as
/// its identifier, and the run reports it.
pub proof fn lemma_identifier_is_kept(
    state: PipelineState,
    event: Event,
    fresh: Uuid,
    next: PipelineState,
    action: Action,
)
    requires
        id_of(state) is Some,
        step_spec(state, event, fresh, next, action),
    ensures
        next is Finished || id_of(next) == id_of(state),
        action matches Action::Transcribe(u) ==> Some(u) == id_of(state),
        action matches Action::InsertCall(call) ==> Some(call.id) == id_of(state),
        action matches Action::Finish(Ok(u)) ==> Some(u) == id_of(state),
{
}

/// The identifier that a run gives a recording when its bytes arrive is
/// the one under which they are stored and the one the run carries on.
pub proof fn lemma_identifier_is_given_on_arrival(
    bytes: Vec<u8>,
    fresh: Uuid,
    next: PipelineState,
    action: Action,
)
    requires
        step_spec(PipelineState::Fetching, Event::AudioFetched(bytes), fresh, next, action),
    ensures
        id_of(next) == Some(fresh),
        action == Action::StoreAudio(fresh, bytes),
{
}

} // verus!
