//! What conversions make of the replies of the models.

use vstd::prelude::*;

use crate::candidates::merged_texts;
use crate::conversion::{
    adaptive_after, calls_of, candidates_of, combined_text, converted_chunks, is_chunk_query,
    is_completion, is_reading_query, is_unanswered, label_of, replies_of, unconverted_chunk,
};
use crate::conversion::{
    AsyncRequestKind, ChunkRequest, ComposingChunk, ConversionRequest, ConversionSnapshot,
    ConversionStrategy, EngineConfig, InferenceOutcome, InferenceQuery, OutcomeView,
    ProposedCompletion, StrategyMode,
};
use crate::kana::to_katakana;

verus! {

/// A strategy that asks one model keeps all that this model replied, in the
/// order of the reply and with nothing added, however long it is. The light
/// model's part falls to the main model where there is no light model.
pub proof fn law_one_model_keeps_its_reply(
    strategy: ConversionStrategy,
    has_light: bool,
    main: Seq<String>,
    light: Seq<String>,
)
    ensures
        ({
            let candidates = candidates_of(strategy, has_light, main, light);
            let asked = if strategy is LightModelOnly && has_light {
                light
            } else {
                main
            };
            !(strategy is ParallelBeam) ==> {
                &&& candidates.len() == asked.len()
                &&& forall|i: int| 0 <= i < asked.len() ==> #[trigger] candidates[i] == asked[i]
            }
        }),
{
}

/// Where both models are asked, their replies are merged to as many texts as
/// the beam is wide, those of the main model first.
pub proof fn law_two_models_are_merged(
    beam_width: usize,
    has_light: bool,
    main: Seq<String>,
    light: Seq<String>,
)
    ensures
        candidates_of(
            ConversionStrategy::ParallelBeam { beam_width },
            has_light,
            main,
            light,
        ) == merged_texts(main, light, beam_width as int),
{
}

/// How many candidates are asked of which model. A beam is as wide as the
/// strategy says, and one candidate is asked otherwise. Where the light model
/// is missing, the main model stands in for it, but not in a beam of both.
pub proof fn law_candidates_asked(strategy: ConversionStrategy, has_main: bool, has_light: bool)
    ensures
        ({
            let calls = calls_of(strategy, has_main, has_light);
            match strategy {
                ConversionStrategy::ParallelBeam { beam_width } => {
                    &&& has_main ==> calls.main == Some(1usize)
                    &&& has_light ==> calls.light == Some(beam_width)
                },
                ConversionStrategy::LightModelOnly => {
                    &&& has_light ==> calls.light == Some(1usize) && calls.main is None
                    &&& !has_light && has_main ==> calls.main == Some(1usize)
                },
                ConversionStrategy::MainModelOnly => {
                    &&& has_main ==> calls.main == Some(1usize)
                    &&& calls.light is None
                },
                ConversionStrategy::MainModelBeam { beam_width } => {
                    &&& has_main ==> calls.main == Some(beam_width)
                    &&& calls.light is None
                },
            }
        }),
        !has_main ==> calls_of(strategy, has_main, has_light).main is None,
        !has_light ==> calls_of(strategy, has_main, has_light).light is None,
{
}

/// The light model takes over exactly after the main model took longer than
/// the limit, and gives back once it did not, in adaptive mode with a limit
/// and a light model. Nothing else changes who converts.
pub proof fn law_light_model_takes_over(
    config: EngineConfig,
    strategy: ConversionStrategy,
    has_light: bool,
    elapsed_ms: u64,
    before: bool,
)
    ensures
        ({
            let after = adaptive_after(config, strategy, has_light, elapsed_ms, before);
            let measured = strategy != ConversionStrategy::LightModelOnly && config.strategy
                == StrategyMode::Adaptive && config.max_latency_ms != 0 && has_light;
            &&& measured ==> (after <==> config.max_latency_ms < elapsed_ms)
            &&& !measured ==> after == before
        }),
{
}

/// A conversion by both models shows both names; by one model, its name. A
/// model without a name is not shown, and the light model's name goes before
/// the main model's where only one is shown, except with the main model
/// alone.
pub proof fn law_labels(strategy: ConversionStrategy, main_name: Seq<char>, light_name: Seq<char>)
    ensures
        ({
            let label = label_of(strategy, main_name, light_name);
            &&& light_name.len() == 0 || strategy is MainModelOnly ==> label == main_name
            &&& light_name.len() > 0 && (strategy is LightModelOnly || strategy is MainModelBeam)
                ==> label == light_name
            &&& light_name.len() > 0 && strategy is ParallelBeam ==> label == if main_name.len()
                == 0 {
                light_name
            } else {
                main_name + " + "@ + light_name
            }
        }),
{
}

/// A chunk that needs inference takes the first text that was replied for it.
/// Without a reply, and where it needs none, it keeps its conversion. Replies
/// for other chunks do not matter.
pub proof fn law_chunk_takes_its_first_reply(
    chunks: Seq<ChunkRequest>,
    replies: Seq<Seq<String>>,
    i: int,
)
    requires
        0 <= i < chunks.len(),
    ensures
        ({
            let chunk = converted_chunks(chunks, replies)[i];
            let replied = chunks[i].should_convert && i < replies.len() && replies[i].len() > 0;
            &&& replied ==> chunk.converted == replies[i][0]
            &&& !replied ==> chunk.converted == chunks[i].converted
            &&& chunk.position == chunks[i].position
            &&& chunk.reading == chunks[i].reading
            &&& chunk.fresh
        }),
        converted_chunks(chunks, replies).len() == chunks.len(),
{
}

/// The conversions of chunks are put one behind the other.
pub proof fn law_chunks_combine_part_by_part(
    a: Seq<ComposingChunk>,
    b: Seq<ComposingChunk>,
    one: ComposingChunk,
)
    ensures
        combined_text(Seq::empty()) == Seq::<char>::empty(),
        combined_text(seq![one]) == one.converted@,
        combined_text(a + b) == combined_text(a) + combined_text(b),
    decreases b.len(),
{
    let text = |c: ComposingChunk| c.converted@;
    reveal_with_fuel(Seq::<_>::flatten, 2);
    assert(Seq::<ComposingChunk>::empty().map_values(text) =~= Seq::empty());
    assert(seq![one].map_values(text) =~= seq![one.converted@]);
    assert(seq![one.converted@].drop_first() =~= Seq::empty());
    assert(seq![one.converted@].flatten() =~= one.converted@);
    if b.len() == 0 {
        assert(a + b =~= a);
        assert(b =~= Seq::empty());
        assert(combined_text(a) + combined_text(b) =~= combined_text(a));
    } else {
        let rest = b.drop_last();
        law_chunks_combine_part_by_part(a, rest, one);
        let last = b.last().converted@;
        assert((a + b).map_values(text) =~= (a + rest).map_values(text).push(last));
        (a + rest).map_values(text).lemma_flatten_push(last);
        assert(b.map_values(text) =~= rest.map_values(text).push(last));
        rest.map_values(text).lemma_flatten_push(last);
        assert(combined_text(a + b) =~= combined_text(a) + combined_text(b));
    }
}

/// The models are asked for the reading in katakana, with the context as it
/// is: for the whole reading as many candidates as the request wants, and for
/// a chunk one.
pub proof fn law_queries(
    query: InferenceQuery,
    snapshot: ConversionSnapshot,
    chunk_query: InferenceQuery,
    chunk: ChunkRequest,
)
    requires
        is_reading_query(query, snapshot),
        is_chunk_query(chunk_query, chunk),
    ensures
        query.reading@ == to_katakana(snapshot.reading@),
        query.context@ == snapshot.context@,
        query.candidate_count == snapshot.candidate_count,
        chunk_query.reading@ == to_katakana(chunk.reading@),
        chunk_query.context@ == chunk.context@,
        chunk_query.candidate_count == 1,
{
}

/// A completion answers its request: it carries the same snapshot, the time
/// that was measured and the tokens that were counted. For an explicit request
/// it has all candidates of the models and no chunks. For an automatic one it
/// has a chunk for each that was asked for, and their combined text, unless
/// that is the reading itself.
pub proof fn law_completion_answers_the_request(
    completion: ProposedCompletion,
    request: ConversionRequest,
    outcome: OutcomeView,
    has_light: bool,
    adaptive_use_light_model: bool,
)
    requires
        is_completion(completion, request, outcome, has_light, adaptive_use_light_model),
    ensures
        completion.ready,
        completion.snapshot == request.snapshot,
        completion.metrics.conversion_ms == outcome.elapsed_ms,
        completion.metrics.token_count == outcome.token_count,
        completion.metrics.model_name@ == label_of(
            outcome.strategy,
            outcome.main_name,
            outcome.light_name,
        ),
        completion.metrics.adaptive_use_light_model == adaptive_after(
            request.config,
            outcome.strategy,
            has_light,
            outcome.elapsed_ms,
            adaptive_use_light_model,
        ),
        request.snapshot.request_kind == AsyncRequestKind::Explicit ==> {
            &&& completion.model_candidates@ == outcome.candidates
            &&& completion.chunk_cache@.len() == 0
        },
        request.snapshot.request_kind == AsyncRequestKind::AutoSuggest ==> {
            let combined = combined_text(completion.chunk_cache@);
            &&& completion.chunk_cache@ == converted_chunks(request.chunks@, outcome.chunk_replies)
            &&& completion.model_candidates@.len() == if combined == request.snapshot.reading@ {
                0int
            } else {
                1int
            }
            &&& combined != request.snapshot.reading@ ==> completion.model_candidates@[0]@
                == combined
        },
{
}

/// A request that no model has seen is answered with its snapshot and its
/// chunks, of which those that need inference stay stale. It proposes nothing
/// and is not ready.
pub proof fn law_unanswered_request_keeps_its_chunks(
    completion: ProposedCompletion,
    request: ConversionRequest,
)
    requires
        is_unanswered(completion, request),
    ensures
        !completion.ready,
        completion.snapshot == request.snapshot,
        completion.model_candidates@.len() == 0,
        completion.metrics.conversion_ms == 0,
        completion.metrics.token_count is None,
        completion.metrics.model_name@.len() == 0,
        !completion.metrics.adaptive_use_light_model,
        completion.chunk_cache@.len() == request.chunks@.len(),
        forall|i: int|
            0 <= i < request.chunks@.len() ==> {
                let chunk = #[trigger] completion.chunk_cache@[i];
                &&& chunk.position == request.chunks@[i].position
                &&& chunk.reading == request.chunks@[i].reading
                &&& chunk.converted == request.chunks@[i].converted
                &&& chunk.fresh == !request.chunks@[i].should_convert
            },
{
    assert forall|i: int| 0 <= i < request.chunks@.len() implies #[trigger] completion.chunk_cache@[i]
        == unconverted_chunk(request.chunks@[i]) by {}
}

/// What the models answered is taken as it is: candidates for the reading,
/// replies chunk by chunk, names and measurements.
pub proof fn law_answers_are_taken_as_they_are(outcome: InferenceOutcome)
    ensures
        outcome@.token_count == outcome.token_count,
        outcome@.strategy == outcome.strategy,
        outcome@.candidates == outcome.candidates@,
        outcome@.elapsed_ms == outcome.elapsed_ms,
        outcome@.main_name == outcome.main_name@,
        outcome@.light_name == outcome.light_name@,
        outcome@.chunk_replies.len() == outcome.chunk_replies@.len(),
        forall|i: int|
            0 <= i < outcome.chunk_replies@.len() ==> #[trigger] outcome@.chunk_replies[i]
                == outcome.chunk_replies@[i]@,
{
    assert(outcome@.chunk_replies == replies_of(outcome.chunk_replies@));
}

} // verus!
