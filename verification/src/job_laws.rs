//! What a job asks of the models, and what it makes of their answers.

use vstd::prelude::*;

use crate::conversion::{calls_of, candidates_of};
use crate::conversion::{AsyncRequestKind, ConversionRequest, ConversionStrategy};
use crate::job::{lemma_next_chunk, JobAction, JobEvent, JobStage, JobView};
use crate::kana::to_katakana;

verus! {

/// A job starts with counting the tokens of the reading, with the models it
/// was given, and with nothing answered yet.
pub proof fn law_job_start(
    request: ConversionRequest,
    has_light: bool,
    adaptive_use_light_model: bool,
)
    ensures
        ({
            let job = JobView::start(request, has_light, adaptive_use_light_model);
            &&& job.request == request
            &&& job.has_light == has_light
            &&& job.adaptive_use_light_model == adaptive_use_light_model
            &&& job.stage is ReadingTokens
            &&& job.token_count is None
            &&& job.candidates.len() == 0
            &&& job.replies.len() == 0
            &&& job.wf()
        }),
{
}

/// Tokens are counted in the reading, or in the chunk at hand, in katakana.
/// The strategy depends on these tokens, on the candidates wanted (one for a
/// chunk), on the light model and on the settings of the request. The models
/// are asked for the reading or the chunk at hand with its own context, as the
/// strategy chosen for it says. A finished job asks nothing.
pub proof fn law_job_actions(job: JobView, action: JobAction)
    requires
        job.calls_for(action),
    ensures
        ({
            let snapshot = job.request.snapshot;
            let chunks = job.request.chunks@;
            match job.stage {
                JobStage::ReadingTokens => action matches JobAction::CountTokens(text) && text@
                    == to_katakana(snapshot.reading@),
                JobStage::ReadingStrategy => action matches JobAction::ChooseStrategy(inputs) && {
                    &&& job.token_count matches Some(n) ==> inputs.token_count == n
                    &&& job.token_count is None ==> inputs.token_count == 0
                    &&& inputs.candidate_count == snapshot.candidate_count
                    &&& inputs.has_light_model == job.has_light
                    &&& inputs.adaptive_use_light_model == job.adaptive_use_light_model
                    &&& inputs.config == job.request.config
                },
                JobStage::ReadingInference => action matches JobAction::Infer(query, calls) && {
                    &&& query.reading@ == to_katakana(snapshot.reading@)
                    &&& query.context@ == snapshot.context@
                    &&& calls == calls_of(job.strategy, true, job.has_light)
                },
                JobStage::ChunkTokens { chunk } => action matches JobAction::CountTokens(text)
                    && text@ == to_katakana(chunks[chunk as int].reading@),
                JobStage::ChunkStrategy {
                    token_count,
                    ..
                } => action matches JobAction::ChooseStrategy(inputs) && {
                    &&& inputs.token_count == token_count
                    &&& inputs.candidate_count == 1
                    &&& inputs.has_light_model == job.has_light
                    &&& inputs.adaptive_use_light_model == job.adaptive_use_light_model
                    &&& inputs.config == job.request.config
                },
                JobStage::ChunkInference {
                    chunk,
                    strategy,
                } => action matches JobAction::Infer(query, calls) && {
                    &&& query.reading@ == to_katakana(chunks[chunk as int].reading@)
                    &&& query.context@ == chunks[chunk as int].context@
                    &&& calls == calls_of(strategy, true, job.has_light)
                },
                JobStage::Done => action is Finish,
            }
        }),
{
}

/// An answer to something that was not asked changes nothing.
pub proof fn law_unexpected_answer_changes_nothing(job: JobView, event: JobEvent)
    requires
        match job.stage {
            JobStage::ReadingTokens | JobStage::ChunkTokens { .. } => !(event is Tokens),
            JobStage::ReadingStrategy | JobStage::ChunkStrategy { .. } => !(event is Strategy),
            JobStage::ReadingInference | JobStage::ChunkInference { .. } => !(event is Replies),
            JobStage::Done => true,
        },
    ensures
        job.after(event) == job,
        !job.awaits(event),
{
}

/// The tokens of the reading are kept as counted, the strategy chosen for the
/// reading as chosen. An explicit request then asks for the reading, and
/// takes from the replies what the strategy makes of them.
pub proof fn law_answers_for_the_reading(
    job: JobView,
    token_count: Option<usize>,
    strategy: ConversionStrategy,
    main: Vec<String>,
    light: Vec<String>,
)
    ensures
        job.stage is ReadingTokens ==> {
            let later = job.after(JobEvent::Tokens(token_count));
            &&& later.stage is ReadingStrategy
            &&& later.token_count == token_count
            &&& later.replies == job.replies
        },
        job.stage is ReadingStrategy ==> {
            let later = job.after(JobEvent::Strategy(strategy));
            &&& later.strategy == strategy
            &&& later.token_count == job.token_count
            &&& job.request.snapshot.request_kind == AsyncRequestKind::Explicit
                ==> later.stage is ReadingInference
        },
        job.stage is ReadingInference ==> {
            let later = job.after(JobEvent::Replies(main, light));
            &&& later.stage is Done
            &&& later.candidates == candidates_of(job.strategy, job.has_light, main@, light@)
            &&& later.strategy == job.strategy
            &&& later.token_count == job.token_count
        },
{
}

/// An automatic request goes to its first chunk that needs inference, or is
/// done if none does. The chunks before have no reply.
pub proof fn law_automatic_request_goes_to_its_first_chunk(
    job: JobView,
    strategy: ConversionStrategy,
)
    requires
        job.wf(),
        job.stage is ReadingStrategy,
        job.request.snapshot.request_kind == AsyncRequestKind::AutoSuggest,
        job.request.chunks@.len() <= usize::MAX,
    ensures
        ({
            let chunks = job.request.chunks@;
            let later = job.after(JobEvent::Strategy(strategy));
            let next = match later.stage {
                JobStage::ChunkTokens { chunk } => chunk as int,
                _ => chunks.len() as int,
            };
            &&& next < chunks.len() ==> chunks[next].should_convert
            &&& next == chunks.len() ==> later.stage is Done
            &&& forall|i: int| 0 <= i < next ==> !(#[trigger] chunks[i]).should_convert
            &&& later.replies.len() == next
            &&& forall|i: int|
                0 <= i < later.replies.len() ==> (#[trigger] later.replies[i]).len() == 0
        }),
{
    lemma_next_chunk(job.request, 0);
}

/// The answers for a chunk are for this chunk: its tokens, or none where they
/// could not be counted, and its strategy. They leave alone what was answered
/// for the reading.
pub proof fn law_answers_for_a_chunk(
    job: JobView,
    chunk: usize,
    token_count: Option<usize>,
    strategy: ConversionStrategy,
    event: JobEvent,
)
    ensures
        job.stage == (JobStage::ChunkTokens { chunk }) ==> job.after(
            JobEvent::Tokens(token_count),
        ).stage == (JobStage::ChunkStrategy {
            chunk,
            token_count: if token_count is Some {
                token_count->0
            } else {
                0
            },
        }),
        job.stage matches JobStage::ChunkStrategy { chunk: at, .. } && at == chunk ==> job.after(
            JobEvent::Strategy(strategy),
        ).stage == (JobStage::ChunkInference { chunk, strategy }),
        job.chunk() is Some ==> {
            let later = job.after(event);
            &&& later.token_count == job.token_count
            &&& later.strategy == job.strategy
            &&& later.candidates == job.candidates
        },
        job.after(event).request == job.request,
        job.after(event).has_light == job.has_light,
        job.after(event).adaptive_use_light_model == job.adaptive_use_light_model,
{
}

/// What a job hands over in the end is what was answered.
pub proof fn law_job_outcome(
    job: JobView,
    elapsed_ms: u64,
    main_name: Seq<char>,
    light_name: Seq<char>,
)
    ensures
        ({
            let outcome = job.outcome(elapsed_ms, main_name, light_name);
            &&& outcome.token_count == job.token_count
            &&& outcome.strategy == job.strategy
            &&& outcome.candidates == job.candidates
            &&& outcome.chunk_replies == job.replies
            &&& outcome.elapsed_ms == elapsed_ms
            &&& outcome.main_name == main_name
            &&& outcome.light_name == light_name
        }),
{
}

} // verus!
