//! The course of one conversion request.
//!
//! A job says what to ask of the models next and takes in what they reply.
//! First the tokens of the whole reading are counted and a strategy chosen.
//! An explicit request then converts the whole reading. An automatic one
//! goes through the chunks that need inference, from left to right.

use vstd::prelude::*;

use crate::conversion::{
    backend_calls, calls_of, candidates_of, chunk_cache_of, chunk_query, convert_request,
    convert_with_strategy, is_chunk_query, is_completion, is_reading_query, is_unanswered,
    reading_query, replies_of, unanswered_completion, unconverted_chunk,
};
use crate::conversion::{
    AsyncRequestKind, BackendCalls, ChunkRequest, ConversionRequest, ConversionStrategy, EngineConfig,
    InferenceOutcome, InferenceQuery, OutcomeView, ProposedCompletion,
};
use crate::kana::to_katakana;

verus! {

/// What a job waits for.
#[derive(Debug, Clone, Copy, PartialEq, Eq, Structural)]
pub enum JobStage {
    ReadingTokens,
    ReadingStrategy,
    ReadingInference,
    ChunkTokens { chunk: usize },
    ChunkStrategy { chunk: usize, token_count: usize },
    ChunkInference { chunk: usize, strategy: ConversionStrategy },
    Done,
}

/// What the choice of a strategy depends on.
#[derive(Debug, Clone, Copy, PartialEq, Eq, Structural)]
pub struct StrategyInputs {
    pub token_count: usize,
    pub candidate_count: usize,
    pub has_light_model: bool,
    pub adaptive_use_light_model: bool,
    pub config: EngineConfig,
}

/// What to do next for a job.
#[derive(Debug, PartialEq, Eq)]
pub enum JobAction {
    /// Let the main model count the tokens of a text.
    CountTokens(String),
    ChooseStrategy(StrategyInputs),
    /// Put a query to the models.
    Infer(InferenceQuery, BackendCalls),
    Finish,
}

/// What came of an action.
#[derive(Debug, PartialEq, Eq)]
pub enum JobEvent {
    /// The number of tokens, if they could be counted.
    Tokens(Option<usize>),
    Strategy(ConversionStrategy),
    /// The replies of the main and the light model; nothing from a model
    /// that was not asked.
    Replies(Vec<String>, Vec<String>),
}

/// A conversion request under way.
#[derive(Debug, PartialEq, Eq)]
pub struct ConversionJob {
    request: ConversionRequest,
    has_light: bool,
    adaptive_use_light_model: bool,
    stage: JobStage,
    token_count: Option<usize>,
    strategy: ConversionStrategy,
    candidates: Vec<String>,
    replies: Vec<Vec<String>>,
}

/// How a request begins.
#[derive(Debug, PartialEq, Eq)]
pub enum RequestStart {
    /// There is a model to ask.
    Job(ConversionJob),
    /// There is none, and this is the answer.
    Unanswered(ProposedCompletion),
}

/// What a [`ConversionJob`] holds.
#[verifier::ext_equal]
pub struct JobView {
    pub request: ConversionRequest,
    pub has_light: bool,
    pub adaptive_use_light_model: bool,
    pub stage: JobStage,
    /// Tokens of the whole reading.
    pub token_count: Option<usize>,
    /// The strategy for the whole reading, once chosen.
    pub strategy: ConversionStrategy,
    /// Candidates for the whole reading.
    pub candidates: Seq<String>,
    /// Candidates for each chunk so far; none for a chunk left as it is.
    pub replies: Seq<Seq<String>>,
}

/// The first chunk from `from` on that needs inference, or the end.
pub open spec fn next_chunk(request: ConversionRequest, from: int) -> int
    decreases request.chunks@.len() - from,
{
    if from >= request.chunks@.len() || request.chunks@[from].should_convert {
        from
    } else {
        next_chunk(request, from + 1)
    }
}

impl JobView {
    /// A job before its first action.
    pub open spec fn start(
        request: ConversionRequest,
        has_light: bool,
        adaptive_use_light_model: bool,
    ) -> Self {
        JobView {
            request,
            has_light,
            adaptive_use_light_model,
            stage: JobStage::ReadingTokens,
            token_count: None,
            strategy: ConversionStrategy::MainModelOnly,
            candidates: Seq::empty(),
            replies: Seq::empty(),
        }
    }

    /// On to the next chunk from `from` on that needs inference.
    pub open spec fn enter_chunks(self, from: int) -> Self {
        let n = next_chunk(self.request, from);
        JobView {
            stage: if n < self.request.chunks@.len() {
                JobStage::ChunkTokens { chunk: n as usize }
            } else {
                JobStage::Done
            },
            replies: self.replies + Seq::new((n - from) as nat, |i: int| Seq::<String>::empty()),
            ..self
        }
    }

    /// The job after an event. An event that it does not wait for changes
    /// nothing.
    pub open spec fn after(self, event: JobEvent) -> Self {
        match (self.stage, event) {
            (JobStage::ReadingTokens, JobEvent::Tokens(token_count)) => JobView {
                stage: JobStage::ReadingStrategy,
                token_count,
                ..self
            },
            (JobStage::ReadingStrategy, JobEvent::Strategy(strategy)) => match self.request.snapshot.request_kind {
                AsyncRequestKind::Explicit => JobView {
                    stage: JobStage::ReadingInference,
                    strategy,
                    ..self
                },
                AsyncRequestKind::AutoSuggest => JobView { strategy, ..self }.enter_chunks(0),
            },
            (JobStage::ReadingInference, JobEvent::Replies(main, light)) => JobView {
                stage: JobStage::Done,
                candidates: candidates_of(
                    self.strategy,
                    self.has_light,
                    main@,
                    light@,
                ),
                ..self
            },
            (JobStage::ChunkTokens { chunk }, JobEvent::Tokens(token_count)) => JobView {
                stage: JobStage::ChunkStrategy {
                    chunk,
                    token_count: match token_count {
                        Some(n) => n,
                        None => 0,
                    },
                },
                ..self
            },
            (JobStage::ChunkStrategy { chunk, .. }, JobEvent::Strategy(strategy)) => JobView {
                stage: JobStage::ChunkInference { chunk, strategy },
                ..self
            },
            (
                JobStage::ChunkInference { chunk, strategy },
                JobEvent::Replies(main, light),
            ) => JobView {
                replies: self.replies.push(
                    candidates_of(strategy, self.has_light, main@, light@),
                ),
                ..self
            }.enter_chunks(chunk + 1),
            _ => self,
        }
    }

    /// What the choice of a strategy depends on for a text with this many
    /// tokens.
    pub open spec fn strategy_inputs(self, token_count: usize, candidate_count: usize) -> StrategyInputs {
        StrategyInputs {
            token_count,
            candidate_count,
            has_light_model: self.has_light,
            adaptive_use_light_model: self.adaptive_use_light_model,
            config: self.request.config,
        }
    }

    /// The action that the job calls for.
    pub open spec fn calls_for(self, action: JobAction) -> bool {
        let snapshot = self.request.snapshot;
        match self.stage {
            JobStage::ReadingTokens => action matches JobAction::CountTokens(text) && text@
                == to_katakana(snapshot.reading@),
            JobStage::ReadingStrategy => action == JobAction::ChooseStrategy(
                self.strategy_inputs(
                    match self.token_count {
                        Some(n) => n,
                        None => 0,
                    },
                    snapshot.candidate_count,
                ),
            ),
            JobStage::ReadingInference => action matches JobAction::Infer(query, calls)
                && is_reading_query(query, snapshot) && calls
                == calls_of(self.strategy, true, self.has_light),
            JobStage::ChunkTokens { chunk } => action matches JobAction::CountTokens(text) && text@
                == to_katakana(self.request.chunks@[chunk as int].reading@),
            JobStage::ChunkStrategy { token_count, .. } => action == JobAction::ChooseStrategy(
                self.strategy_inputs(token_count, 1),
            ),
            JobStage::ChunkInference { chunk, strategy } => action matches JobAction::Infer(
                query,
                calls,
            ) && is_chunk_query(query, self.request.chunks@[chunk as int])
                && calls == calls_of(strategy, true, self.has_light),
            JobStage::Done => action is Finish,
        }
    }

    /// What the models answered in all, with the time it took and their
    /// names.
    pub open spec fn outcome(
        self,
        elapsed_ms: u64,
        main_name: Seq<char>,
        light_name: Seq<char>,
    ) -> OutcomeView {
        OutcomeView {
            token_count: self.token_count,
            strategy: self.strategy,
            candidates: self.candidates,
            chunk_replies: self.replies,
            elapsed_ms,
            main_name,
            light_name,
        }
    }

    /// The chunk that the job is at.
    pub open spec fn chunk(self) -> Option<int> {
        match self.stage {
            JobStage::ChunkTokens { chunk } => Some(chunk as int),
            JobStage::ChunkStrategy { chunk, .. } => Some(chunk as int),
            JobStage::ChunkInference { chunk, .. } => Some(chunk as int),
            _ => None,
        }
    }

    /// A job at a chunk has the replies for those before it, and is at one
    /// that needs inference; a finished automatic one has a reply for each.
    pub open spec fn wf(self) -> bool {
        &&& self.chunk() matches Some(i) ==> {
            &&& self.request.snapshot.request_kind == AsyncRequestKind::AutoSuggest
            &&& 0 <= i < self.request.chunks@.len()
            &&& self.request.chunks@[i].should_convert
            &&& self.replies.len() == i
        }
        &&& (self.stage is ReadingTokens || self.stage is ReadingStrategy
            || self.stage is ReadingInference) ==> self.replies.len() == 0
        &&& self.stage is ReadingInference ==> self.request.snapshot.request_kind
            == AsyncRequestKind::Explicit
        &&& (self.stage is Done && self.request.snapshot.request_kind
            == AsyncRequestKind::AutoSuggest) ==> self.replies.len() == self.request.chunks@.len()
        &&& forall|i: int|
            0 <= i < self.replies.len() && i < self.request.chunks@.len()
                && !self.request.chunks@[i].should_convert ==> (#[trigger] self.replies[i]).len()
                == 0
    }
}

impl View for ConversionJob {
    type V = JobView;

    closed spec fn view(&self) -> JobView {
        JobView {
            request: self.request,
            has_light: self.has_light,
            adaptive_use_light_model: self.adaptive_use_light_model,
            stage: self.stage,
            token_count: self.token_count,
            strategy: self.strategy,
            candidates: self.candidates@,
            replies: replies_of(self.replies@),
        }
    }
}

pub(crate) proof fn lemma_next_chunk(request: ConversionRequest, from: int)
    requires
        0 <= from <= request.chunks@.len(),
    ensures
        ({
            let n = next_chunk(request, from);
            &&& from <= n <= request.chunks@.len()
            &&& n < request.chunks@.len() ==> request.chunks@[n].should_convert
            &&& forall|i: int|
                from <= i < n ==> !(#[trigger] request.chunks@[i]).should_convert
        }),
    decreases request.chunks@.len() - from,
{
    if from < request.chunks@.len() && !request.chunks@[from].should_convert {
        lemma_next_chunk(request, from + 1);
    }
}

/// Every event keeps a job well formed.
pub proof fn law_job_stays_well_formed(job: JobView, event: JobEvent)
    requires
        job.wf(),
        job.request.chunks@.len() <= usize::MAX,
    ensures
        job.after(event).wf(),
        job.after(event).request == job.request,
{
    match (job.stage, event) {
        (JobStage::ReadingStrategy, JobEvent::Strategy(_)) => {
            lemma_next_chunk(job.request, 0);
        },
        (JobStage::ChunkInference { chunk, .. }, JobEvent::Replies(_, _)) => {
            lemma_next_chunk(job.request, chunk + 1);
        },
        _ => {},
    }
}

impl JobView {
    /// The event answers the action that the job calls for.
    pub open spec fn awaits(self, event: JobEvent) -> bool {
        match self.stage {
            JobStage::ReadingTokens | JobStage::ChunkTokens { .. } => event is Tokens,
            JobStage::ReadingStrategy | JobStage::ChunkStrategy { .. } => event is Strategy,
            JobStage::ReadingInference | JobStage::ChunkInference { .. } => event is Replies,
            JobStage::Done => false,
        }
    }

    /// The most events that the job still takes.
    pub open spec fn steps_left(self) -> int {
        let chunks: int = self.request.chunks@.len() as int;
        match self.stage {
            JobStage::ReadingTokens => 3 * chunks + 3,
            JobStage::ReadingStrategy => 3 * chunks + 2,
            JobStage::ReadingInference => 1,
            JobStage::ChunkTokens { chunk } => 3 * (chunks - chunk),
            JobStage::ChunkStrategy { chunk, .. } => 3 * (chunks - chunk) - 1,
            JobStage::ChunkInference { chunk, .. } => 3 * (chunks - chunk) - 2,
            JobStage::Done => 0,
        }
    }
}

/// Every answer brings a job nearer to its end, so it is done after three
/// answers for the reading and three for each chunk at most.
pub proof fn law_job_makes_progress(job: JobView, event: JobEvent)
    requires
        job.wf(),
        job.request.chunks@.len() <= usize::MAX,
        job.awaits(event),
    ensures
        0 <= job.after(event).steps_left() < job.steps_left(),
        job.after(event).steps_left() == 0 <==> job.after(event).stage is Done,
{
    match (job.stage, event) {
        (JobStage::ReadingStrategy, JobEvent::Strategy(_)) => {
            lemma_next_chunk(job.request, 0);
        },
        (JobStage::ChunkInference { chunk, .. }, JobEvent::Replies(_, _)) => {
            lemma_next_chunk(job.request, chunk + 1);
        },
        _ => {},
    }
}

/// An explicit request takes three answers, and what the models replied for
/// the reading are its candidates.
pub proof fn law_explicit_course(
    request: ConversionRequest,
    has_light: bool,
    adaptive_use_light_model: bool,
    token_count: Option<usize>,
    strategy: ConversionStrategy,
    main: Vec<String>,
    light: Vec<String>,
)
    requires
        request.snapshot.request_kind == AsyncRequestKind::Explicit,
    ensures
        JobView::start(request, has_light, adaptive_use_light_model).after(
            JobEvent::Tokens(token_count),
        ).after(JobEvent::Strategy(strategy)).after(JobEvent::Replies(main, light)) == (JobView {
            stage: JobStage::Done,
            token_count,
            strategy,
            candidates: candidates_of(strategy, has_light, main@, light@),
            ..JobView::start(request, has_light, adaptive_use_light_model)
        }),
{
}

/// A chunk takes three answers. They leave what was replied for the chunks
/// before it, and bring the job to the next chunk that needs inference, or to
/// its end.
pub proof fn law_chunk_course(
    job: JobView,
    chunk: usize,
    token_count: Option<usize>,
    strategy: ConversionStrategy,
    main: Vec<String>,
    light: Vec<String>,
)
    requires
        job.wf(),
        job.request.chunks@.len() <= usize::MAX,
        job.stage == (JobStage::ChunkTokens { chunk }),
    ensures
        ({
            let chunks = job.request.chunks@;
            let later = job.after(JobEvent::Tokens(token_count)).after(
                JobEvent::Strategy(strategy),
            ).after(JobEvent::Replies(main, light));
            let next = match later.stage {
                JobStage::ChunkTokens { chunk } => chunk as int,
                _ => chunks.len() as int,
            };
            &&& chunk < next
            &&& next < chunks.len() ==> chunks[next].should_convert
            &&& next == chunks.len() ==> later.stage is Done
            &&& forall|i: int| chunk < i < next ==> !(#[trigger] chunks[i]).should_convert
            &&& later.replies.len() == next
            &&& later.replies.take(chunk as int) == job.replies
            &&& later.replies[chunk as int] == candidates_of(
                strategy,
                job.has_light,
                main@,
                light@,
            )
        }),
{
    lemma_next_chunk(job.request, chunk + 1);
    let later = job.after(JobEvent::Tokens(token_count)).after(JobEvent::Strategy(strategy)).after(
        JobEvent::Replies(main, light),
    );
    assert(later.replies.take(chunk as int) =~= job.replies);
}

/// An automatic request whose chunks are all up to date asks the models for
/// no conversion, and its completion keeps every chunk as it is.
pub proof fn law_unchanged_chunks_need_no_inference(
    request: ConversionRequest,
    has_light: bool,
    adaptive_use_light_model: bool,
    token_count: Option<usize>,
    strategy: ConversionStrategy,
    elapsed_ms: u64,
)
    requires
        request.snapshot.request_kind == AsyncRequestKind::AutoSuggest,
        forall|i: int|
            0 <= i < request.chunks@.len() ==> !(#[trigger] request.chunks@[i]).should_convert,
    ensures
        ({
            let job = JobView::start(request, has_light, adaptive_use_light_model).after(
                JobEvent::Tokens(token_count),
            ).after(JobEvent::Strategy(strategy));
            &&& job.stage is Done
            &&& chunk_cache_of(request, job.outcome(elapsed_ms, seq![], seq![]))
                == request.chunks@.map_values(|c: ChunkRequest| unconverted_chunk(c))
        }),
{
    lemma_next_chunk(request, 0);
    let job = JobView::start(request, has_light, adaptive_use_light_model).after(
        JobEvent::Tokens(token_count),
    ).after(JobEvent::Strategy(strategy));
    assert(chunk_cache_of(request, job.outcome(elapsed_ms, seq![], seq![]))
        =~= request.chunks@.map_values(|c: ChunkRequest| unconverted_chunk(c)));
}

fn skip_unchanged(request: &ConversionRequest, replies: &mut Vec<Vec<String>>, from: usize) -> (r:
    JobStage)
    requires
        from <= request.chunks@.len(),
    ensures
        ({
            let n = next_chunk(*request, from as int);
            &&& from <= n <= request.chunks@.len()
            &&& r == if n < request.chunks@.len() {
                JobStage::ChunkTokens { chunk: n as usize }
            } else {
                JobStage::Done
            }
            &&& replies_of(final(replies)@) == replies_of(
                old(replies)@,
            ) + Seq::new((n - from) as nat, |i: int| Seq::<String>::empty())
        }),
{
    let mut at: usize = from;
    let ghost before = replies_of(replies@);
    proof {
        lemma_next_chunk(*request, from as int);
        assert(before =~= before + Seq::new(0, |i: int| Seq::<String>::empty()));
    }
    while at < request.chunks.len() && !request.chunks[at].should_convert
        invariant
            from <= at <= request.chunks@.len(),
            next_chunk(*request, at as int) == next_chunk(*request, from as int),
            replies_of(replies@) == before + Seq::new(
                (at - from) as nat,
                |i: int| Seq::<String>::empty(),
            ),
        decreases request.chunks@.len() - at,
    {
        let reply: Vec<String> = Vec::new();
        proof {
            let so_far = replies_of(replies@);
            assert(reply@ =~= Seq::<String>::empty());
            assert(replies_of(replies@.push(reply)) =~= so_far.push(reply@));
            assert(so_far.push(reply@) =~= before + Seq::new(
                (at + 1 - from) as nat,
                |i: int| Seq::<String>::empty(),
            ));
        }
        replies.push(reply);
        at = at + 1;
    }
    if at < request.chunks.len() {
        JobStage::ChunkTokens { chunk: at }
    } else {
        JobStage::Done
    }
}

impl ConversionJob {
    #[verifier::type_invariant]
    spec fn inv(self) -> bool {
        self@.wf()
    }

    /// Starts a request with a main model, and with a light one if that is
    /// there.
    pub fn new(
        request: ConversionRequest,
        has_light: bool,
        adaptive_use_light_model: bool,
    ) -> (r: Self)
        ensures
            r@ == JobView::start(request, has_light, adaptive_use_light_model),
    {
        let candidates: Vec<String> = Vec::new();
        let replies: Vec<Vec<String>> = Vec::new();
        proof {
            assert(candidates@ =~= Seq::empty());
            assert(replies_of(replies@) =~= Seq::empty());
        }
        ConversionJob {
            request,
            has_light,
            adaptive_use_light_model,
            stage: JobStage::ReadingTokens,
            token_count: None,
            strategy: ConversionStrategy::MainModelOnly,
            candidates,
            replies,
        }
    }

    fn strategy_inputs(&self, token_count: usize, candidate_count: usize) -> (r: StrategyInputs)
        ensures
            r == self@.strategy_inputs(token_count, candidate_count),
    {
        StrategyInputs {
            token_count,
            candidate_count,
            has_light_model: self.has_light,
            adaptive_use_light_model: self.adaptive_use_light_model,
            config: self.request.config,
        }
    }

    /// What to do next.
    pub fn action(&self) -> (r: JobAction)
        ensures
            self@.wf(),
            self@.calls_for(r),
    {
        proof {
            use_type_invariant(self);
        }
        match self.stage {
            JobStage::ReadingTokens => JobAction::CountTokens(
                reading_query(&self.request.snapshot).reading,
            ),
            JobStage::ReadingStrategy => JobAction::ChooseStrategy(
                self.strategy_inputs(
                    match self.token_count {
                        Some(n) => n,
                        None => 0,
                    },
                    self.request.snapshot.candidate_count,
                ),
            ),
            JobStage::ReadingInference => JobAction::Infer(
                reading_query(&self.request.snapshot),
                backend_calls(self.strategy, true, self.has_light),
            ),
            JobStage::ChunkTokens { chunk } => JobAction::CountTokens(
                chunk_query(&self.request.chunks[chunk]).reading,
            ),
            JobStage::ChunkStrategy { token_count, .. } => JobAction::ChooseStrategy(
                self.strategy_inputs(token_count, 1),
            ),
            JobStage::ChunkInference { chunk, strategy } => JobAction::Infer(
                chunk_query(&self.request.chunks[chunk]),
                backend_calls(strategy, true, self.has_light),
            ),
            JobStage::Done => JobAction::Finish,
        }
    }

    /// Takes in what came of an action. An event that the job does not wait
    /// for changes nothing.
    pub fn step(self, event: JobEvent) -> (r: Self)
        ensures
            self@.wf(),
            r@ == self@.after(event),
    {
        let _count: usize = self.request.chunks.len();
        proof {
            use_type_invariant(&self);
            law_job_stays_well_formed(self@, event);
        }
        match (self.stage, event) {
            (JobStage::ReadingTokens, JobEvent::Tokens(token_count)) => ConversionJob {
                stage: JobStage::ReadingStrategy,
                token_count,
                ..self
            },
            (JobStage::ReadingStrategy, JobEvent::Strategy(strategy)) => match self.request.snapshot.request_kind {
                AsyncRequestKind::Explicit => ConversionJob {
                    stage: JobStage::ReadingInference,
                    strategy,
                    ..self
                },
                AsyncRequestKind::AutoSuggest => {
                    let mut replies = self.replies;
                    let stage = skip_unchanged(&self.request, &mut replies, 0);
                    ConversionJob {
                        request: self.request,
                        has_light: self.has_light,
                        adaptive_use_light_model: self.adaptive_use_light_model,
                        stage,
                        token_count: self.token_count,
                        strategy,
                        candidates: self.candidates,
                        replies,
                    }
                },
            },
            (JobStage::ReadingInference, JobEvent::Replies(main, light)) => ConversionJob {
                stage: JobStage::Done,
                candidates: convert_with_strategy(self.strategy, self.has_light, main, light),
                ..self
            },
            (JobStage::ChunkTokens { chunk }, JobEvent::Tokens(token_count)) => ConversionJob {
                stage: JobStage::ChunkStrategy {
                    chunk,
                    token_count: match token_count {
                        Some(n) => n,
                        None => 0,
                    },
                },
                ..self
            },
            (JobStage::ChunkStrategy { chunk, .. }, JobEvent::Strategy(strategy)) => ConversionJob {
                stage: JobStage::ChunkInference { chunk, strategy },
                ..self
            },
            (JobStage::ChunkInference { chunk, strategy }, JobEvent::Replies(main, light)) => {
                let mut replies = self.replies;
                let reply = convert_with_strategy(strategy, self.has_light, main, light);
                proof {
                    assert(replies_of(replies@.push(reply))
                        =~= replies_of(replies@).push(reply@));
                }
                replies.push(reply);
                let stage = skip_unchanged(&self.request, &mut replies, chunk + 1);
                ConversionJob {
                    request: self.request,
                    has_light: self.has_light,
                    adaptive_use_light_model: self.adaptive_use_light_model,
                    stage,
                    token_count: self.token_count,
                    strategy: self.strategy,
                    candidates: self.candidates,
                    replies,
                }
            },
            _ => self,
        }
    }

    /// The completion of a finished job.
    pub fn finish(self, elapsed_ms: u64, main_name: String, light_name: String) -> (r:
        ProposedCompletion)
        requires
            self@.stage is Done,
        ensures
            self@.wf(),
            is_completion(
                r,
                self@.request,
                self@.outcome(elapsed_ms, main_name@, light_name@),
                self@.has_light,
                self@.adaptive_use_light_model,
            ),
    {
        proof {
            use_type_invariant(&self);
        }
        let outcome = InferenceOutcome {
            token_count: self.token_count,
            strategy: self.strategy,
            candidates: self.candidates,
            chunk_replies: self.replies,
            elapsed_ms,
            main_name,
            light_name,
        };
        convert_request(self.request, outcome, self.has_light, self.adaptive_use_light_model)
    }
}

/// Begins a request. Without a main model there is nobody to ask, and the
/// request is answered at once with a completion that is not ready.
pub fn start_request(
    request: ConversionRequest,
    has_main: bool,
    has_light: bool,
    adaptive_use_light_model: bool,
) -> (r: RequestStart)
    ensures
        match r {
            RequestStart::Job(job) => has_main && job@ == JobView::start(
                request,
                has_light,
                adaptive_use_light_model,
            ),
            RequestStart::Unanswered(completion) => !has_main && is_unanswered(
                completion,
                request,
            ),
        },
{
    if has_main {
        RequestStart::Job(ConversionJob::new(request, has_light, adaptive_use_light_model))
    } else {
        RequestStart::Unanswered(unanswered_completion(request))
    }
}

} // verus!
