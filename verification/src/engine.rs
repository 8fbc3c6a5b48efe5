//! The input method engine: what it knows, and how completions reach it.

use vstd::prelude::*;

use crate::candidates::{Candidate, CandidateList, CandidateListView};
use crate::conversion::{
    AsyncInputState, AsyncRequestKind, ChunkRequest, ComposingChunk, ConversionRequest,
    ConversionSnapshot, EngineConfig, InputMode, PendingRequestMetadata, ProposedCompletion,
};
use crate::init::AssetReport;
use crate::kana::{contains_kana, has_kana};
use crate::preedit::{Preedit, PreeditView};
use crate::worker::WorkerState;

verus! {

/// The text typed so far and the caret in it, in characters.
#[derive(Debug, PartialEq, Eq)]
pub struct InputBuffer {
    pub text: String,
    pub cursor_pos: usize,
}

/// The current input mode.
#[derive(Debug, Clone, Copy, PartialEq, Eq, Structural)]
pub struct ModeState {
    pub current: InputMode,
}

/// The phase of input, with what it shows.
#[derive(Debug, PartialEq, Eq)]
pub enum InputState {
    Empty,
    Composing { preedit: Preedit },
    Conversion { preedit: Preedit, candidates: CandidateList },
}

/// Live conversion: the composing text is shown converted while typing.
#[derive(Debug, PartialEq, Eq)]
pub struct LiveConversion {
    pub enabled: bool,
    pub text: String,
}

/// Measurements of the latest conversion.
#[derive(Debug, PartialEq, Eq)]
pub struct Metrics {
    pub conversion_ms: u64,
    pub model_name: String,
    pub adaptive_use_light_model: bool,
    pub token_count: Option<usize>,
}

/// The token count of the latest conversion, for those who ask the converter.
#[derive(Debug, Clone, Copy, PartialEq, Eq, Structural)]
pub struct CompatibilityTokenCounter {
    pub token_count: usize,
}

/// The converters of the engine.
#[derive(Debug, Clone, Copy, PartialEq, Eq, Structural)]
pub struct Converters {
    pub kanji: Option<CompatibilityTokenCounter>,
}

/// The dictionaries of the engine.
#[derive(Debug, PartialEq, Eq)]
pub struct Dictionaries<D> {
    pub system: Option<D>,
    pub user: Option<D>,
}

/// The text of the auxiliary line, before it is formatted.
#[derive(Debug, PartialEq, Eq)]
pub enum AuxText {
    /// Shown while composing this reading.
    Suggest { reading: String },
    /// Shown while converting this reading, with the page of a list.
    Conversion { reading: String, page: Option<CandidateList> },
}

/// Something for the host to show.
#[derive(Debug, PartialEq, Eq)]
pub enum EngineAction {
    UpdatePreedit(Preedit),
    ShowCandidates(CandidateList),
    HideCandidates,
    UpdateAuxText(AuxText),
}

/// What the engine answers to the host.
#[derive(Debug, PartialEq, Eq)]
pub struct EngineResult {
    /// Whether a key was used up.
    pub consumed: bool,
    pub actions: Vec<EngineAction>,
}

/// The input method engine, over the host's dictionaries and learning cache.
#[derive(Debug)]
pub struct InputMethodEngine<D, L> {
    pub input_buf: InputBuffer,
    pub mode: ModeState,
    pub state: InputState,
    pub live: LiveConversion,
    /// Converted chunks of the composing text.
    pub chunks: Vec<ComposingChunk>,
    pub chunk_cache_epoch: u64,
    /// Text left of the input, cut to what the models take.
    pub context: String,
    /// Counts the changes that make earlier requests stale.
    pub generation: u64,
    pub config: EngineConfig,
    pub metrics: Metrics,
    pub converters: Converters,
    /// The request whose completion is expected.
    pub pending_async_request: Option<PendingRequestMetadata>,
    pub dicts: Dictionaries<D>,
    pub learning: Option<L>,
    /// Whether a loader of dictionaries and learning cache is under way.
    pub pending_init_assets: bool,
}

/// A completion that the engine has accepted.
#[derive(Debug, PartialEq, Eq)]
pub enum AcceptedCompletion {
    /// To be shown while composing.
    AutoSuggest(ProposedCompletion),
    /// To be merged into the candidates on offer.
    Explicit(ProposedCompletion),
}

/// What an [`InputState`] shows.
pub enum InputStateView {
    Empty,
    Composing { preedit: PreeditView },
    Conversion { preedit: PreeditView, candidates: CandidateListView },
}

/// What an [`AuxText`] says.
pub enum AuxTextView {
    Suggest { reading: Seq<char> },
    Conversion { reading: Seq<char>, page: Option<CandidateListView> },
}

/// What an [`EngineAction`] shows.
pub enum EngineActionView {
    UpdatePreedit(PreeditView),
    ShowCandidates(CandidateListView),
    HideCandidates,
    UpdateAuxText(AuxTextView),
}

/// What an [`EngineResult`] says.
#[verifier::ext_equal]
pub struct EngineResultView {
    pub consumed: bool,
    pub actions: Seq<EngineActionView>,
}

impl View for InputState {
    type V = InputStateView;

    open spec fn view(&self) -> InputStateView {
        match self {
            InputState::Empty => InputStateView::Empty,
            InputState::Composing { preedit } => InputStateView::Composing { preedit: preedit@ },
            InputState::Conversion { preedit, candidates } => InputStateView::Conversion {
                preedit: preedit@,
                candidates: candidates@,
            },
        }
    }
}

impl View for AuxText {
    type V = AuxTextView;

    open spec fn view(&self) -> AuxTextView {
        match self {
            AuxText::Suggest { reading } => AuxTextView::Suggest { reading: reading@ },
            AuxText::Conversion { reading, page } => AuxTextView::Conversion {
                reading: reading@,
                page: match page {
                    Some(list) => Some(list@),
                    None => None,
                },
            },
        }
    }
}

impl View for EngineAction {
    type V = EngineActionView;

    open spec fn view(&self) -> EngineActionView {
        match self {
            EngineAction::UpdatePreedit(preedit) => EngineActionView::UpdatePreedit(preedit@),
            EngineAction::ShowCandidates(list) => EngineActionView::ShowCandidates(list@),
            EngineAction::HideCandidates => EngineActionView::HideCandidates,
            EngineAction::UpdateAuxText(aux) => EngineActionView::UpdateAuxText(aux@),
        }
    }
}

impl View for EngineResult {
    type V = EngineResultView;

    open spec fn view(&self) -> EngineResultView {
        EngineResultView {
            consumed: self.consumed,
            actions: self.actions@.map_values(|a: EngineAction| a@),
        }
    }
}

impl EngineResult {
    /// A result without actions that leaves the key to the host.
    pub fn not_consumed() -> (r: Self)
        ensures
            r@ == (EngineResultView { consumed: false, actions: Seq::empty() }),
    {
        let actions: Vec<EngineAction> = Vec::new();
        let r = EngineResult { consumed: false, actions };
        proof {
            assert(r@.actions =~= Seq::empty());
        }
        r
    }

    /// The result with one more action.
    pub fn with_action(self, action: EngineAction) -> (r: Self)
        ensures
            r@ == (EngineResultView {
                consumed: self@.consumed,
                actions: self@.actions.push(action@),
            }),
    {
        let mut actions = self.actions;
        proof {
            assert(actions@.push(action).map_values(|a: EngineAction| a@) =~= self@.actions.push(
                action@,
            ));
        }
        actions.push(action);
        EngineResult { consumed: self.consumed, actions }
    }
}

impl ModeState {
    /// The current input mode.
    pub fn current(&self) -> (r: InputMode)
        ensures
            r == self.current,
    {
        self.current
    }

    /// Changes the input mode.
    pub fn set(&mut self, mode: InputMode)
        ensures
            final(self).current == mode,
    {
        self.current = mode;
    }
}

impl InputState {
    /// The phase of input that this state belongs to.
    pub open spec fn phase(self) -> AsyncInputState {
        match self {
            InputState::Empty => AsyncInputState::Empty,
            InputState::Composing { .. } => AsyncInputState::Composing,
            InputState::Conversion { .. } => AsyncInputState::Conversion,
        }
    }

    /// The phase of input that this state belongs to.
    pub fn async_phase(&self) -> (r: AsyncInputState)
        ensures
            r == self.phase(),
    {
        match self {
            InputState::Empty => AsyncInputState::Empty,
            InputState::Composing { .. } => AsyncInputState::Composing,
            InputState::Conversion { .. } => AsyncInputState::Conversion,
        }
    }

    /// The candidates on offer.
    pub fn candidates(&self) -> (r: Option<&CandidateList>)
        ensures
            match r {
                Some(list) => self@ matches InputStateView::Conversion { candidates, .. }
                    && candidates == list@,
                None => !(self@ is Conversion),
            },
    {
        match self {
            InputState::Conversion { candidates, .. } => Some(candidates),
            _ => None,
        }
    }
}

impl<D, L> InputMethodEngine<D, L> {
    /// The snapshot that a request made now would carry.
    pub open spec fn snapshot(self, metadata: PendingRequestMetadata) -> ConversionSnapshot {
        ConversionSnapshot {
            generation: self.generation,
            reading: self.input_buf.text,
            context: self.context,
            mode: self.mode.current,
            input_state: self.state.phase(),
            request_kind: metadata.request_kind,
            candidate_count: metadata.candidate_count,
            skip_learning: metadata.skip_learning,
            chunk_cache_epoch: self.chunk_cache_epoch,
        }
    }

    /// The engine waits for a request, and the snapshot describes both that
    /// request and the engine as it is now.
    pub open spec fn expects(self, snapshot: ConversionSnapshot) -> bool {
        self.pending_async_request matches Some(metadata) && same_snapshot(
            snapshot,
            self.snapshot(metadata),
        )
    }

    /// The completion is accepted: a model made it, and it is the one that
    /// the engine waits for.
    pub open spec fn accepts(self, completion: ProposedCompletion) -> bool {
        completion.ready && self.expects(completion.snapshot)
    }

    /// The number of candidates that a request of this kind asks for.
    pub open spec fn candidate_count(self, request_kind: AsyncRequestKind) -> usize {
        match request_kind {
            AsyncRequestKind::AutoSuggest => 1,
            AsyncRequestKind::Explicit => self.config.num_candidates,
        }
    }

    /// The metadata that a request made now would leave.
    pub open spec fn metadata(self, request_kind: AsyncRequestKind, skip_learning: bool) -> PendingRequestMetadata {
        PendingRequestMetadata {
            request_kind,
            candidate_count: self.candidate_count(request_kind),
            skip_learning,
        }
    }

    /// The engine once it has accepted a completion: it no longer waits, and
    /// has the measurements.
    pub open spec fn accept(self, completion: ProposedCompletion) -> Self {
        InputMethodEngine {
            pending_async_request: None,
            metrics: Metrics {
                conversion_ms: completion.metrics.conversion_ms,
                model_name: completion.metrics.model_name,
                adaptive_use_light_model: completion.metrics.adaptive_use_light_model,
                token_count: completion.metrics.token_count,
            },
            converters: Converters {
                kanji: match completion.metrics.token_count {
                    Some(token_count) => Some(CompatibilityTokenCounter { token_count }),
                    None => None,
                },
            },
            ..self
        }
    }

    /// There is something to convert: kana, outside katakana mode.
    pub open spec fn is_convertible(self) -> bool {
        self.mode.current != InputMode::Katakana && has_kana(self.input_buf.text@)
    }
}

/// The completion, sorted by the kind of its request.
pub open spec fn accepted(completion: ProposedCompletion) -> AcceptedCompletion {
    match completion.snapshot.request_kind {
        AsyncRequestKind::AutoSuggest => AcceptedCompletion::AutoSuggest(completion),
        AsyncRequestKind::Explicit => AcceptedCompletion::Explicit(completion),
    }
}

/// The snapshots agree in every field.
pub open spec fn same_snapshot(a: ConversionSnapshot, b: ConversionSnapshot) -> bool {
    &&& a.generation == b.generation
    &&& a.reading@ == b.reading@
    &&& a.context@ == b.context@
    &&& a.mode == b.mode
    &&& a.input_state == b.input_state
    &&& a.request_kind == b.request_kind
    &&& a.candidate_count == b.candidate_count
    &&& a.skip_learning == b.skip_learning
    &&& a.chunk_cache_epoch == b.chunk_cache_epoch
}

/// Whether two snapshots agree in every field.
fn snapshots_agree(a: &ConversionSnapshot, b: &ConversionSnapshot) -> (r: bool)
    ensures
        r == same_snapshot(*a, *b),
{
    a.generation == b.generation && a.reading == b.reading && a.context == b.context && a.mode
        == b.mode && a.input_state == b.input_state && a.request_kind == b.request_kind
        && a.candidate_count == b.candidate_count && a.skip_learning == b.skip_learning
        && a.chunk_cache_epoch == b.chunk_cache_epoch
}

impl<D, L> InputMethodEngine<D, L> {
    fn take_snapshot(&self, metadata: PendingRequestMetadata) -> (r: ConversionSnapshot)
        ensures
            r == self.snapshot(metadata),
    {
        ConversionSnapshot {
            generation: self.generation,
            reading: self.input_buf.text.clone(),
            context: self.context.clone(),
            mode: self.mode.current(),
            input_state: self.state.async_phase(),
            request_kind: metadata.request_kind,
            candidate_count: metadata.candidate_count,
            skip_learning: metadata.skip_learning,
            chunk_cache_epoch: self.chunk_cache_epoch,
        }
    }

    /// Asks the worker to convert the input as it is now, in place of any
    /// conversion not yet started. Nothing happens where there is nothing to
    /// convert. `chunk_plan` divides the reading for automatic conversion.
    pub fn submit_async_conversion(
        &mut self,
        worker: &mut WorkerState,
        request_kind: AsyncRequestKind,
        skip_learning: bool,
        chunk_plan: Vec<ChunkRequest>,
    )
        ensures
            if old(self).is_convertible() {
                let metadata = old(self).metadata(request_kind, skip_learning);
                &&& *final(self) == (InputMethodEngine {
                    pending_async_request: Some(metadata),
                    ..*old(self)
                })
                &&& final(worker)@.pending_conversion matches Some(request) && {
                    &&& final(worker)@ == old(worker)@.submit(request)
                    &&& request.snapshot == old(self).snapshot(metadata)
                    &&& request.snapshot.candidate_count == match request_kind {
                        AsyncRequestKind::AutoSuggest => 1,
                        AsyncRequestKind::Explicit => old(self).config.num_candidates,
                    }
                    &&& request.snapshot.request_kind == request_kind
                    &&& request.snapshot.skip_learning == skip_learning
                    &&& request.config == old(self).config
                    &&& request.chunks@ == match request_kind {
                        AsyncRequestKind::AutoSuggest => chunk_plan@,
                        AsyncRequestKind::Explicit => Seq::empty(),
                    }
                }
            } else {
                &&& *final(self) == *old(self)
                &&& final(worker)@ == old(worker)@
            },
    {
        if self.mode.current() == InputMode::Katakana || !contains_kana(
            self.input_buf.text.as_str(),
        ) {
            return ;
        }
        let candidate_count: usize = match request_kind {
            AsyncRequestKind::AutoSuggest => 1,
            AsyncRequestKind::Explicit => self.config.num_candidates,
        };
        let metadata = PendingRequestMetadata { request_kind, candidate_count, skip_learning };
        let snapshot = self.take_snapshot(metadata);
        let chunks: Vec<ChunkRequest> = match request_kind {
            AsyncRequestKind::AutoSuggest => chunk_plan,
            AsyncRequestKind::Explicit => Vec::new(),
        };
        worker.submit(ConversionRequest { snapshot, chunks, config: self.config });
        self.pending_async_request = Some(metadata);
    }

    /// Whether a completion for this snapshot is the one the engine waits
    /// for, and every field still describes the engine.
    pub fn completion_matches(&self, snapshot: &ConversionSnapshot) -> (r: bool)
        ensures
            r == self.expects(*snapshot),
    {
        match self.pending_async_request {
            Some(metadata) => snapshots_agree(snapshot, &self.take_snapshot(metadata)),
            None => false,
        }
    }

    /// Collects loaded assets and a completion, without waiting. A completion
    /// is accepted only if a model made it and every field of its snapshot
    /// still describes the engine.
    pub fn poll_completion(
        &mut self,
        worker: &mut WorkerState,
        report: &mut AssetReport<D, L>,
    ) -> (r: Option<AcceptedCompletion>)
        ensures
            final(worker)@ == old(worker)@.after_poll(),
            *final(report) == old(self).report_left(*old(report)),
            ({
                let polled = old(self).after_assets(*old(report));
                match old(worker)@.completion {
                    Some(completion) if polled.accepts(completion) => {
                        &&& r == Some(accepted(completion))
                        &&& *final(self) == polled.accept(completion)
                    },
                    _ => {
                        &&& r is None
                        &&& *final(self) == polled
                    },
                }
            }),
    {
        self.poll_init_assets(report);
        let completion = match worker.poll() {
            Some(completion) => completion,
            None => {
                return None;
            },
        };
        if !self.completion_matches(&completion.snapshot) || !completion.ready {
            return None;
        }
        self.pending_async_request = None;
        self.metrics = Metrics {
            conversion_ms: completion.metrics.conversion_ms,
            model_name: completion.metrics.model_name.clone(),
            adaptive_use_light_model: completion.metrics.adaptive_use_light_model,
            token_count: completion.metrics.token_count,
        };
        self.converters = Converters {
            kanji: match completion.metrics.token_count {
                Some(token_count) => Some(CompatibilityTokenCounter { token_count }),
                None => None,
            },
        };
        Some(
            match completion.snapshot.request_kind {
                AsyncRequestKind::AutoSuggest => AcceptedCompletion::AutoSuggest(completion),
                AsyncRequestKind::Explicit => AcceptedCompletion::Explicit(completion),
            },
        )
    }
}

} // verus!
