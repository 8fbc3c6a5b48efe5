//! Conversion requests and the completions worked out for them.
//!
//! A request is an immutable snapshot of the engine. The worker puts its
//! queries to the models; the functions here say what those queries are and
//! what the replies amount to.

use vstd::prelude::*;

use crate::candidates::{merge_candidates_dedup, merged_texts};
use crate::kana::{hiragana_to_katakana, to_katakana};

verus! {

/// Which models the user wants.
#[derive(Debug, Clone, Copy, PartialEq, Eq, Structural)]
pub enum StrategyMode {
    Main,
    Light,
    Adaptive,
}

/// How one query is spread over the models.
#[derive(Debug, Clone, Copy, PartialEq, Eq, Structural)]
pub enum ConversionStrategy {
    ParallelBeam { beam_width: usize },
    LightModelOnly,
    MainModelOnly,
    MainModelBeam { beam_width: usize },
}

/// The engine settings that conversion depends on.
#[derive(Debug, Clone, Copy, PartialEq, Eq, Structural)]
pub struct EngineConfig {
    pub strategy: StrategyMode,
    /// Candidates asked for by an explicit conversion.
    pub num_candidates: usize,
    /// Latency past which the light model takes over; zero turns this off.
    pub max_latency_ms: u64,
}

/// The input mode of the engine.
#[derive(Debug, Clone, Copy, PartialEq, Eq, Structural)]
pub enum InputMode {
    Hiragana,
    Katakana,
    Alphabet,
    Emoji,
}

/// Whether a request was started by typing or by the user.
#[derive(Debug, Clone, Copy, PartialEq, Eq, Structural)]
pub enum AsyncRequestKind {
    AutoSuggest,
    Explicit,
}

/// The phase of input that a request belongs to.
#[derive(Debug, Clone, Copy, PartialEq, Eq, Structural)]
pub enum AsyncInputState {
    Empty,
    Composing,
    Conversion,
}

/// What the engine remembers of the request it waits for.
#[derive(Debug, Clone, Copy, PartialEq, Eq, Structural)]
pub struct PendingRequestMetadata {
    pub request_kind: AsyncRequestKind,
    pub candidate_count: usize,
    pub skip_learning: bool,
}

/// The engine state that a request describes.
#[derive(Debug, PartialEq, Eq)]
pub struct ConversionSnapshot {
    pub generation: u64,
    pub reading: String,
    pub context: String,
    pub mode: InputMode,
    pub input_state: AsyncInputState,
    pub request_kind: AsyncRequestKind,
    pub candidate_count: usize,
    pub skip_learning: bool,
    pub chunk_cache_epoch: u64,
}

/// One chunk of the reading, as planned by the engine.
#[derive(Debug, PartialEq, Eq)]
pub struct ChunkRequest {
    /// Character offset of the chunk.
    pub position: usize,
    pub reading: String,
    /// The left context of the chunk.
    pub context: String,
    /// The conversion known so far, used where no other comes.
    pub converted: String,
    /// Whether the chunk needs inference.
    pub should_convert: bool,
}

/// A complete conversion request.
#[derive(Debug, PartialEq, Eq)]
pub struct ConversionRequest {
    pub snapshot: ConversionSnapshot,
    pub chunks: Vec<ChunkRequest>,
    pub config: EngineConfig,
}

/// One converted chunk of the composing text.
#[derive(Debug, PartialEq, Eq)]
pub struct ComposingChunk {
    pub position: usize,
    pub reading: String,
    pub converted: String,
    /// Whether the conversion is up to date.
    pub fresh: bool,
}

/// Measurements that come with a completion.
#[derive(Debug, PartialEq, Eq)]
pub struct ProposedMetrics {
    pub conversion_ms: u64,
    pub model_name: String,
    pub adaptive_use_light_model: bool,
    pub token_count: Option<usize>,
}

/// The answer to a conversion request.
#[derive(Debug, PartialEq, Eq)]
pub struct ProposedCompletion {
    pub snapshot: ConversionSnapshot,
    pub model_candidates: Vec<String>,
    pub chunk_cache: Vec<ComposingChunk>,
    pub metrics: ProposedMetrics,
    /// Whether a model was there to answer.
    pub ready: bool,
}

/// A text put to the models, with the number of candidates wanted.
#[derive(Debug, PartialEq, Eq)]
pub struct InferenceQuery {
    pub reading: String,
    pub context: String,
    pub candidate_count: usize,
}

/// The number of candidates to ask of each model; nothing for a model that
/// is not asked. Where both are asked, they run at the same time.
#[derive(Debug, Clone, Copy, PartialEq, Eq, Structural)]
pub struct BackendCalls {
    pub main: Option<usize>,
    pub light: Option<usize>,
}

/// What the models answered to the queries of one request.
#[derive(Debug, PartialEq, Eq)]
pub struct InferenceOutcome {
    /// Tokens of the whole reading, if the main model could count them.
    pub token_count: Option<usize>,
    /// The strategy chosen for the whole reading.
    pub strategy: ConversionStrategy,
    /// Candidates for the whole reading.
    pub candidates: Vec<String>,
    /// Candidates for each chunk, in order.
    pub chunk_replies: Vec<Vec<String>>,
    pub elapsed_ms: u64,
    /// Name of the main model, empty without one.
    pub main_name: String,
    /// Name of the light model, empty without one.
    pub light_name: String,
}

/// What an [`InferenceOutcome`] holds.
pub struct OutcomeView {
    pub token_count: Option<usize>,
    pub strategy: ConversionStrategy,
    pub candidates: Seq<String>,
    pub chunk_replies: Seq<Seq<String>>,
    pub elapsed_ms: u64,
    pub main_name: Seq<char>,
    pub light_name: Seq<char>,
}

impl View for InferenceOutcome {
    type V = OutcomeView;

    open spec fn view(&self) -> OutcomeView {
        OutcomeView {
            token_count: self.token_count,
            strategy: self.strategy,
            candidates: self.candidates@,
            chunk_replies: replies_of(self.chunk_replies@),
            elapsed_ms: self.elapsed_ms,
            main_name: self.main_name@,
            light_name: self.light_name@,
        }
    }
}

impl Clone for ConversionSnapshot {
    fn clone(&self) -> (r: Self)
        ensures
            r == *self,
    {
        ConversionSnapshot {
            generation: self.generation,
            reading: self.reading.clone(),
            context: self.context.clone(),
            mode: self.mode,
            input_state: self.input_state,
            request_kind: self.request_kind,
            candidate_count: self.candidate_count,
            skip_learning: self.skip_learning,
            chunk_cache_epoch: self.chunk_cache_epoch,
        }
    }
}

/// The calls that a strategy makes on the models that are there.
pub open spec fn calls_of(strategy: ConversionStrategy, has_main: bool, has_light: bool) -> BackendCalls {
    let ask_main = |n: usize| if has_main { Some(n) } else { None };
    let ask_light = |n: usize| if has_light { Some(n) } else { None };
    match strategy {
        ConversionStrategy::ParallelBeam { beam_width } => BackendCalls {
            main: ask_main(1),
            light: ask_light(beam_width),
        },
        ConversionStrategy::LightModelOnly => if has_light {
            BackendCalls { main: None, light: Some(1) }
        } else {
            BackendCalls { main: ask_main(1), light: None }
        },
        ConversionStrategy::MainModelOnly => BackendCalls { main: ask_main(1), light: None },
        ConversionStrategy::MainModelBeam { beam_width } => BackendCalls {
            main: ask_main(beam_width),
            light: None,
        },
    }
}

/// What a strategy makes of the replies; a model not asked replied nothing.
pub open spec fn candidates_of(
    strategy: ConversionStrategy,
    has_light: bool,
    main: Seq<String>,
    light: Seq<String>,
) -> Seq<String> {
    match strategy {
        ConversionStrategy::ParallelBeam { beam_width } => merged_texts(
            main,
            light,
            beam_width as int,
        ),
        ConversionStrategy::LightModelOnly => if has_light {
            light
        } else {
            main
        },
        ConversionStrategy::MainModelOnly => main,
        ConversionStrategy::MainModelBeam { .. } => main,
    }
}

/// The main model has a part in this strategy.
pub open spec fn involves_main(strategy: ConversionStrategy) -> bool {
    !(strategy is LightModelOnly)
}

/// Whether the light model is to take over after a conversion. Only a
/// conversion by the main model in adaptive mode, with a latency limit and a
/// light model to turn to, changes this.
pub open spec fn adaptive_after(
    config: EngineConfig,
    strategy: ConversionStrategy,
    has_light: bool,
    elapsed_ms: u64,
    before: bool,
) -> bool {
    if involves_main(strategy) && config.strategy == StrategyMode::Adaptive && config.max_latency_ms
        > 0 && has_light {
        elapsed_ms > config.max_latency_ms
    } else {
        before
    }
}

/// The name shown for the models behind a conversion.
pub open spec fn label_of(
    strategy: ConversionStrategy,
    main_name: Seq<char>,
    light_name: Seq<char>,
) -> Seq<char> {
    match strategy {
        ConversionStrategy::ParallelBeam { .. } => if light_name.len() == 0 {
            main_name
        } else if main_name.len() == 0 {
            light_name
        } else {
            main_name + " + "@ + light_name
        },
        ConversionStrategy::LightModelOnly
        | ConversionStrategy::MainModelBeam { .. } => if light_name.len() == 0 {
            main_name
        } else {
            light_name
        },
        ConversionStrategy::MainModelOnly => main_name,
    }
}

/// The replies to the queries of a request, chunk by chunk.
pub open spec fn replies_of(replies: Seq<Vec<String>>) -> Seq<Seq<String>> {
    replies.map_values(|r: Vec<String>| r@)
}

/// The candidates for one chunk.
pub open spec fn reply_to(replies: Seq<Seq<String>>, i: int) -> Seq<String> {
    if 0 <= i < replies.len() {
        replies[i]
    } else {
        Seq::empty()
    }
}

/// A chunk after inference: the first candidate, if there was one to ask
/// for, and the known conversion otherwise.
pub open spec fn converted_chunk(chunk: ChunkRequest, reply: Seq<String>) -> ComposingChunk {
    ComposingChunk {
        position: chunk.position,
        reading: chunk.reading,
        converted: if chunk.should_convert && reply.len() > 0 {
            reply[0]
        } else {
            chunk.converted
        },
        fresh: true,
    }
}

/// All chunks after inference.
pub open spec fn converted_chunks(
    chunks: Seq<ChunkRequest>,
    replies: Seq<Seq<String>>,
) -> Seq<ComposingChunk> {
    Seq::new(chunks.len(), |i: int| converted_chunk(chunks[i], reply_to(replies, i)))
}

/// A chunk that no model has seen keeps its known conversion.
pub open spec fn unconverted_chunk(chunk: ChunkRequest) -> ComposingChunk {
    ComposingChunk {
        position: chunk.position,
        reading: chunk.reading,
        converted: chunk.converted,
        fresh: !chunk.should_convert,
    }
}

/// The conversions of all chunks, one behind the other.
pub open spec fn combined_text(chunks: Seq<ComposingChunk>) -> Seq<char> {
    chunks.map_values(|c: ComposingChunk| c.converted@).flatten()
}

/// The query for a whole reading.
pub open spec fn is_reading_query(query: InferenceQuery, snapshot: ConversionSnapshot) -> bool {
    &&& query.reading@ == to_katakana(snapshot.reading@)
    &&& query.context == snapshot.context
    &&& query.candidate_count == snapshot.candidate_count
}

/// The query for one chunk.
pub open spec fn is_chunk_query(query: InferenceQuery, chunk: ChunkRequest) -> bool {
    &&& query.reading@ == to_katakana(chunk.reading@)
    &&& query.context == chunk.context
    &&& query.candidate_count == 1
}

/// The chunk cache of a completion.
pub open spec fn chunk_cache_of(request: ConversionRequest, outcome: OutcomeView) -> Seq<
    ComposingChunk,
> {
    match request.snapshot.request_kind {
        AsyncRequestKind::Explicit => Seq::empty(),
        AsyncRequestKind::AutoSuggest => converted_chunks(request.chunks@, outcome.chunk_replies),
    }
}

/// The model candidates of a completion: those for the reading, or the
/// combined chunks where they differ from the reading.
pub open spec fn proposes(
    request: ConversionRequest,
    outcome: OutcomeView,
    candidates: Seq<String>,
) -> bool {
    match request.snapshot.request_kind {
        AsyncRequestKind::Explicit => candidates == outcome.candidates,
        AsyncRequestKind::AutoSuggest => {
            let combined = combined_text(chunk_cache_of(request, outcome));
            if combined == request.snapshot.reading@ {
                candidates.len() == 0
            } else {
                candidates.len() == 1 && candidates[0]@ == combined
            }
        },
    }
}

/// The completion of a request that the models answered like this.
pub open spec fn is_completion(
    completion: ProposedCompletion,
    request: ConversionRequest,
    outcome: OutcomeView,
    has_light: bool,
    adaptive_use_light_model: bool,
) -> bool {
    &&& completion.ready
    &&& completion.snapshot == request.snapshot
    &&& proposes(request, outcome, completion.model_candidates@)
    &&& completion.chunk_cache@ == chunk_cache_of(request, outcome)
    &&& completion.metrics.conversion_ms == outcome.elapsed_ms
    &&& completion.metrics.token_count == outcome.token_count
    &&& completion.metrics.model_name@ == label_of(
        outcome.strategy,
        outcome.main_name,
        outcome.light_name,
    )
    &&& completion.metrics.adaptive_use_light_model == adaptive_after(
        request.config,
        outcome.strategy,
        has_light,
        outcome.elapsed_ms,
        adaptive_use_light_model,
    )
}

/// The completion of a request that no model has seen: it is not ready,
/// proposes nothing and measured nothing.
pub open spec fn is_unanswered(completion: ProposedCompletion, request: ConversionRequest) -> bool {
    &&& !completion.ready
    &&& completion.snapshot == request.snapshot
    &&& completion.model_candidates@.len() == 0
    &&& completion.chunk_cache@ == request.chunks@.map_values(
        |c: ChunkRequest| unconverted_chunk(c),
    )
    &&& completion.metrics.conversion_ms == 0
    &&& completion.metrics.model_name@.len() == 0
    &&& !completion.metrics.adaptive_use_light_model
    &&& completion.metrics.token_count is None
}

/// Inference keeps the chunks: their number, order, positions and readings,
/// also where readings repeat; and a chunk that needs no inference keeps its
/// conversion.
pub proof fn law_chunks_keep_their_place(chunks: Seq<ChunkRequest>, replies: Seq<Seq<String>>)
    ensures
        ({
            let converted = converted_chunks(chunks, replies);
            &&& converted.len() == chunks.len()
            &&& forall|i: int|
                0 <= i < chunks.len() ==> {
                    &&& (#[trigger] converted[i]).position == chunks[i].position
                    &&& converted[i].reading == chunks[i].reading
                    &&& converted[i].fresh
                    &&& !chunks[i].should_convert ==> converted[i].converted
                        == chunks[i].converted
                }
        }),
{
}

/// Both models are asked only where they are to run at the same time, and no
/// model is asked that is not there.
pub proof fn law_calls_fit_the_models(strategy: ConversionStrategy, has_main: bool, has_light: bool)
    ensures
        ({
            let calls = calls_of(strategy, has_main, has_light);
            &&& calls.main is Some ==> has_main
            &&& calls.light is Some ==> has_light
            &&& calls.main is Some && calls.light is Some ==> strategy is ParallelBeam
            &&& has_main ==> calls.main is Some || calls.light is Some
        }),
{
}

/// The query for the whole reading of a request, in katakana.
pub fn reading_query(snapshot: &ConversionSnapshot) -> (r: InferenceQuery)
    ensures
        is_reading_query(r, *snapshot),
{
    InferenceQuery {
        reading: hiragana_to_katakana(snapshot.reading.as_str()),
        context: snapshot.context.clone(),
        candidate_count: snapshot.candidate_count,
    }
}

/// The query for one chunk, in katakana.
pub fn chunk_query(chunk: &ChunkRequest) -> (r: InferenceQuery)
    ensures
        is_chunk_query(r, *chunk),
{
    InferenceQuery {
        reading: hiragana_to_katakana(chunk.reading.as_str()),
        context: chunk.context.clone(),
        candidate_count: 1,
    }
}

/// The calls that a strategy makes on the models that are there.
pub fn backend_calls(strategy: ConversionStrategy, has_main: bool, has_light: bool) -> (r:
    BackendCalls)
    ensures
        r == calls_of(strategy, has_main, has_light),
{
    let main_once: Option<usize> = if has_main {
        Some(1)
    } else {
        None
    };
    match strategy {
        ConversionStrategy::ParallelBeam { beam_width } => BackendCalls {
            main: main_once,
            light: if has_light {
                Some(beam_width)
            } else {
                None
            },
        },
        ConversionStrategy::LightModelOnly => if has_light {
            BackendCalls { main: None, light: Some(1) }
        } else {
            BackendCalls { main: main_once, light: None }
        },
        ConversionStrategy::MainModelOnly => BackendCalls { main: main_once, light: None },
        ConversionStrategy::MainModelBeam { beam_width } => BackendCalls {
            main: if has_main {
                Some(beam_width)
            } else {
                None
            },
            light: None,
        },
    }
}

/// The candidates that the replies of the models amount to. The reply of a
/// model that was not asked is empty.
pub fn convert_with_strategy(
    strategy: ConversionStrategy,
    has_light: bool,
    main: Vec<String>,
    light: Vec<String>,
) -> (r: Vec<String>)
    ensures
        r@ == candidates_of(strategy, has_light, main@, light@),
{
    match strategy {
        ConversionStrategy::ParallelBeam { beam_width } => merge_candidates_dedup(
            main,
            light,
            beam_width,
        ),
        ConversionStrategy::LightModelOnly => if has_light {
            light
        } else {
            main
        },
        ConversionStrategy::MainModelOnly => main,
        ConversionStrategy::MainModelBeam { .. } => main,
    }
}

/// The first candidate for a chunk, or its known conversion.
fn chunk_conversion(chunk: &ChunkRequest, replies: &Vec<Vec<String>>, i: usize) -> (r: String)
    ensures
        r == converted_chunk(*chunk, reply_to(replies_of(replies@), i as int)).converted,
{
    if chunk.should_convert && i < replies.len() && replies[i].len() > 0 {
        replies[i][0].clone()
    } else {
        chunk.converted.clone()
    }
}

/// The chunks with their new conversions, and these one behind the other.
pub fn convert_chunks(chunks: &Vec<ChunkRequest>, replies: &Vec<Vec<String>>) -> (r: (
    Vec<ComposingChunk>,
    String,
))
    ensures
        r.0@ == converted_chunks(chunks@, replies_of(replies@)),
        r.1@ == combined_text(converted_chunks(chunks@, replies_of(replies@))),
{
    let mut converted: Vec<ComposingChunk> = Vec::new();
    let mut combined = String::new();
    let ghost all = converted_chunks(chunks@, replies_of(replies@));
    let ghost texts = all.map_values(|c: ComposingChunk| c.converted@);
    for i in 0..chunks.len()
        invariant
            all == converted_chunks(chunks@, replies_of(replies@)),
            texts == all.map_values(|c: ComposingChunk| c.converted@),
            converted@ == all.take(i as int),
            combined@ == texts.take(i as int).flatten(),
    {
        let chunk = &chunks[i];
        let text = chunk_conversion(chunk, replies, i);
        proof {
            let done = texts.take(i as int);
            assert(texts.take(i as int + 1) =~= done.push(text@));
            done.lemma_flatten_push(text@);
            assert(all.take(i as int + 1) =~= all.take(i as int).push(all[i as int]));
        }
        combined.append(text.as_str());
        converted.push(
            ComposingChunk {
                position: chunk.position,
                reading: chunk.reading.clone(),
                converted: text,
                fresh: true,
            },
        );
    }
    proof {
        assert(all.take(all.len() as int) =~= all);
        assert(texts.take(texts.len() as int) =~= texts);
    }
    (converted, combined)
}

/// The name shown for the models behind a conversion.
pub fn model_label(strategy: ConversionStrategy, main_name: String, light_name: String) -> (r: String)
    ensures
        r@ == label_of(strategy, main_name@, light_name@),
{
    let no_main: bool = main_name.as_str().is_empty();
    let no_light: bool = light_name.as_str().is_empty();
    match strategy {
        ConversionStrategy::ParallelBeam { .. } => if no_light {
            main_name
        } else if no_main {
            light_name
        } else {
            main_name.concat(" + ").concat(light_name.as_str())
        },
        ConversionStrategy::LightModelOnly
        | ConversionStrategy::MainModelBeam { .. } => if no_light {
            main_name
        } else {
            light_name
        },
        ConversionStrategy::MainModelOnly => main_name,
    }
}

/// Whether the light model is to take over after a conversion.
pub fn adaptive_choice(
    config: EngineConfig,
    strategy: ConversionStrategy,
    has_light: bool,
    elapsed_ms: u64,
    before: bool,
) -> (r: bool)
    ensures
        r == adaptive_after(config, strategy, has_light, elapsed_ms, before),
{
    let main_involved: bool = match strategy {
        ConversionStrategy::LightModelOnly => false,
        _ => true,
    };
    if main_involved && config.strategy == StrategyMode::Adaptive && config.max_latency_ms > 0
        && has_light {
        elapsed_ms > config.max_latency_ms
    } else {
        before
    }
}

/// The completion of a request that the models have answered.
pub fn convert_request(
    request: ConversionRequest,
    outcome: InferenceOutcome,
    has_light: bool,
    adaptive_use_light_model: bool,
) -> (r: ProposedCompletion)
    ensures
        is_completion(r, request, outcome@, has_light, adaptive_use_light_model),
{
    let (model_candidates, chunk_cache) = match request.snapshot.request_kind {
        AsyncRequestKind::Explicit => (outcome.candidates, Vec::new()),
        AsyncRequestKind::AutoSuggest => {
            let (chunks, combined) = convert_chunks(&request.chunks, &outcome.chunk_replies);
            let mut candidates: Vec<String> = Vec::new();
            if !(combined == request.snapshot.reading) {
                candidates.push(combined);
            }
            (candidates, chunks)
        },
    };
    let adaptive: bool = adaptive_choice(
        request.config,
        outcome.strategy,
        has_light,
        outcome.elapsed_ms,
        adaptive_use_light_model,
    );
    ProposedCompletion {
        snapshot: request.snapshot,
        model_candidates,
        chunk_cache,
        metrics: ProposedMetrics {
            conversion_ms: outcome.elapsed_ms,
            model_name: model_label(outcome.strategy, outcome.main_name, outcome.light_name),
            adaptive_use_light_model: adaptive,
            token_count: outcome.token_count,
        },
        ready: true,
    }
}

/// The completion of a request that came while there was no model.
pub fn unanswered_completion(request: ConversionRequest) -> (r: ProposedCompletion)
    ensures
        is_unanswered(r, request),
{
    let mut chunk_cache: Vec<ComposingChunk> = Vec::new();
    let chunks = &request.chunks;
    for i in 0..chunks.len()
        invariant
            chunks@ == request.chunks@,
            chunk_cache@ == chunks@.take(i as int).map_values(
                |c: ChunkRequest| unconverted_chunk(c),
            ),
    {
        let chunk = &chunks[i];
        proof {
            let done = chunks@.take(i as int);
            assert(chunks@.take(i as int + 1) =~= done.push(chunks@[i as int]));
            assert(done.push(chunks@[i as int]).map_values(|c: ChunkRequest| unconverted_chunk(c))
                =~= done.map_values(|c: ChunkRequest| unconverted_chunk(c)).push(
                unconverted_chunk(chunks@[i as int]),
            ));
        }
        chunk_cache.push(
            ComposingChunk {
                position: chunk.position,
                reading: chunk.reading.clone(),
                converted: chunk.converted.clone(),
                fresh: !chunk.should_convert,
            },
        );
    }
    proof {
        assert(chunks@.take(chunks@.len() as int) =~= chunks@);
    }
    ProposedCompletion {
        snapshot: request.snapshot,
        model_candidates: Vec::new(),
        chunk_cache,
        metrics: ProposedMetrics {
            conversion_ms: 0,
            model_name: String::new(),
            adaptive_use_light_model: false,
            token_count: None,
        },
        ready: false,
    }
}

} // verus!
