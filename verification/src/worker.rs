//! State shared between the engine and the conversion worker.
//!
//! The engine leaves requests and the worker leaves completions. Both
//! mailboxes hold one item, and the latest wins, so typing stays responsive
//! when inference is slower than the keys. Epochs tell which work is still
//! wanted when it finishes.

use std::collections::VecDeque;

use vstd::prelude::*;

use crate::conversion::{ConversionRequest, EngineConfig, ProposedCompletion, StrategyMode};

verus! {

/// Outcomes of initializations that are kept for whoever waits for them.
pub const MAX_INIT_RESULTS: usize = 4;

/// Reported for an initialization that a later one replaced.
pub const INIT_SUPERSEDED: &'static str = "initialization request superseded";

/// Reported for an initialization whose outcome is no longer known.
pub const INIT_LOST: &'static str = "initialization outcome superseded or evicted";

/// A request to load models.
#[derive(Debug, PartialEq, Eq)]
pub struct InitRequest {
    pub main_variant: String,
    pub light_variant: Option<String>,
    pub strategy: StrategyMode,
    pub n_threads: u32,
    pub config: EngineConfig,
}

/// What the worker is to do.
#[derive(Debug, PartialEq, Eq)]
pub enum WorkerStep {
    Stop,
    Wait,
    /// Load models, for the initialization with this epoch.
    Init(u64, InitRequest),
    /// Convert, for the request with this epoch.
    Convert(u64, ConversionRequest),
}

/// Whether the outcome of an initialization is known.
#[derive(Debug, PartialEq, Eq)]
pub enum InitWait {
    Pending,
    Known(Result<(), String>),
}

/// State of the conversion worker.
#[derive(Debug, PartialEq, Eq)]
pub struct WorkerState {
    pending_init: Option<(u64, InitRequest)>,
    pending_conversion: Option<ConversionRequest>,
    conversion_epoch: u64,
    completion: Option<ProposedCompletion>,
    stopped: bool,
    initializing: bool,
    converting: bool,
    current_init_epoch: u64,
    init_results: VecDeque<(u64, Result<(), String>)>,
    ready: bool,
    init_error: Option<String>,
    model_name: String,
}

/// The outcome of an initialization, with its error text.
pub type InitResultView = Result<(), Seq<char>>;

/// What a [`WorkerState`] holds.
#[verifier::ext_equal]
pub struct WorkerView {
    pub pending_init: Option<(u64, InitRequest)>,
    pub pending_conversion: Option<ConversionRequest>,
    pub conversion_epoch: u64,
    pub completion: Option<ProposedCompletion>,
    pub stopped: bool,
    pub initializing: bool,
    pub converting: bool,
    pub current_init_epoch: u64,
    /// Outcomes by epoch, oldest first.
    pub init_results: Seq<(u64, InitResultView)>,
    pub ready: bool,
    pub init_error: Option<Seq<char>>,
    pub model_name: Seq<char>,
}

/// The outcome as text.
pub open spec fn result_view(result: Result<(), String>) -> InitResultView {
    match result {
        Ok(()) => Ok(()),
        Err(error) => Err(error@),
    }
}

/// The error text of an optional error.
pub open spec fn text_view(text: Option<String>) -> Option<Seq<char>> {
    match text {
        Some(s) => Some(s@),
        None => None,
    }
}

/// The outcomes as texts.
pub open spec fn results_view(results: Seq<(u64, Result<(), String>)>) -> Seq<
    (u64, InitResultView),
> {
    results.map_values(|r: (u64, Result<(), String>)| (r.0, result_view(r.1)))
}

/// The epoch after this one.
pub open spec fn next_epoch(epoch: u64) -> u64 {
    if epoch == u64::MAX {
        0
    } else {
        (epoch + 1) as u64
    }
}

/// The position of the first outcome for an epoch, or the number of outcomes
/// without one.
pub open spec fn result_index(results: Seq<(u64, InitResultView)>, epoch: u64) -> int
    decreases results.len(),
{
    if results.len() == 0 {
        0
    } else if results[0].0 == epoch {
        0
    } else {
        1 + result_index(results.drop_first(), epoch)
    }
}

/// Outcomes with one more. It takes the place of an older one for the same
/// epoch; otherwise the oldest leave to make room.
pub open spec fn remember(
    results: Seq<(u64, InitResultView)>,
    epoch: u64,
    result: InitResultView,
) -> Seq<(u64, InitResultView)> {
    let i = result_index(results, epoch);
    if i < results.len() {
        results.update(i, (epoch, result))
    } else if results.len() >= MAX_INIT_RESULTS {
        results.skip(results.len() - MAX_INIT_RESULTS + 1).push((epoch, result))
    } else {
        results.push((epoch, result))
    }
}

/// No epoch has two outcomes.
pub open spec fn distinct_epochs(results: Seq<(u64, InitResultView)>) -> bool {
    forall|i: int, j: int|
        0 <= i < j < results.len() ==> (#[trigger] results[i]).0 != (#[trigger] results[j]).0
}

impl WorkerView {
    /// A worker with nothing to do and no model.
    pub open spec fn idle() -> Self {
        WorkerView {
            pending_init: None,
            pending_conversion: None,
            conversion_epoch: 0,
            completion: None,
            stopped: false,
            initializing: false,
            converting: false,
            current_init_epoch: 0,
            init_results: Seq::empty(),
            ready: false,
            init_error: None,
            model_name: Seq::empty(),
        }
    }

    /// A worker that has a model from the start.
    pub open spec fn with_model(model_name: Seq<char>) -> Self {
        WorkerView { ready: true, model_name, ..Self::idle() }
    }

    /// What holds of the worker at any time: the outcomes are few and each
    /// for an epoch of its own, an initialization that waits is the latest,
    /// and a worker that is initializing is not ready.
    pub open spec fn wf(self) -> bool {
        &&& self.init_results.len() <= MAX_INIT_RESULTS
        &&& distinct_epochs(self.init_results)
        &&& self.pending_init matches Some((epoch, _)) ==> epoch == self.current_init_epoch
        &&& self.initializing ==> !self.ready && self.init_error is None && self.model_name.len()
            == 0
        &&& self.ready ==> self.init_error is None
    }

    /// A new initialization is asked for. Whoever waits for an earlier one
    /// that is not done learns that it was superseded, and work under way is
    /// no longer wanted.
    pub open spec fn begin_init(self, request: InitRequest) -> Self {
        let epoch = next_epoch(self.current_init_epoch);
        let superseded: InitResultView = Err(INIT_SUPERSEDED@);
        let results = if self.initializing && self.current_init_epoch != 0 {
            remember(self.init_results, self.current_init_epoch, superseded)
        } else {
            self.init_results
        };
        let results = match self.pending_init {
            Some((waiting, _)) => remember(results, waiting, superseded),
            None => results,
        };
        WorkerView {
            current_init_epoch: epoch,
            init_results: results,
            pending_init: Some((epoch, request)),
            conversion_epoch: next_epoch(self.conversion_epoch),
            completion: None,
            initializing: true,
            ready: false,
            init_error: None,
            model_name: Seq::empty(),
            ..self
        }
    }

    /// A conversion is asked for; it takes the place of one not yet started.
    pub open spec fn submit(self, request: ConversionRequest) -> Self {
        WorkerView {
            conversion_epoch: next_epoch(self.conversion_epoch),
            pending_conversion: Some(request),
            completion: None,
            ..self
        }
    }

    /// No conversion is wanted any more.
    pub open spec fn invalidate(self) -> Self {
        WorkerView {
            conversion_epoch: next_epoch(self.conversion_epoch),
            pending_conversion: None,
            completion: None,
            ..self
        }
    }

    /// The worker takes the next piece of work: a waiting initialization
    /// before a waiting conversion.
    pub open spec fn after_step(self) -> Self {
        if self.stopped {
            self
        } else if self.pending_init is Some {
            WorkerView { pending_init: None, ..self }
        } else if self.pending_conversion is Some {
            WorkerView { pending_conversion: None, converting: true, ..self }
        } else {
            self
        }
    }

    /// The next piece of work.
    pub open spec fn step(self) -> WorkerStep {
        if self.stopped {
            WorkerStep::Stop
        } else if let Some((epoch, request)) = self.pending_init {
            WorkerStep::Init(epoch, request)
        } else if let Some(request) = self.pending_conversion {
            WorkerStep::Convert(self.conversion_epoch, request)
        } else {
            WorkerStep::Wait
        }
    }

    /// An initialization is done: with the name of the main model, or with an
    /// error. Only the latest counts.
    pub open spec fn finish_init(self, epoch: u64, result: Result<Seq<char>, Seq<char>>) -> Self {
        if self.current_init_epoch != epoch {
            self
        } else {
            match result {
                Ok(model_name) => WorkerView {
                    init_results: remember(self.init_results, epoch, Ok(())),
                    initializing: false,
                    ready: true,
                    init_error: None,
                    model_name,
                    ..self
                },
                Err(error) => WorkerView {
                    init_results: remember(self.init_results, epoch, Err(error)),
                    initializing: false,
                    ready: false,
                    init_error: Some(error),
                    model_name: Seq::empty(),
                    ..self
                },
            }
        }
    }

    /// A conversion is done. Its completion is left for the engine if nothing
    /// was asked for since.
    pub open spec fn finish_conversion(self, epoch: u64, completion: ProposedCompletion) -> Self {
        WorkerView {
            completion: if self.conversion_epoch == epoch {
                Some(completion)
            } else {
                self.completion
            },
            converting: false,
            ..self
        }
    }

    /// The engine has taken the completion.
    pub open spec fn after_poll(self) -> Self {
        WorkerView { completion: None, ..self }
    }

    /// What is known of an initialization.
    pub open spec fn init_outcome(self, epoch: u64) -> Option<InitResultView> {
        let i = result_index(self.init_results, epoch);
        if i < self.init_results.len() {
            Some(self.init_results[i].1)
        } else if epoch != self.current_init_epoch {
            Some(Err(INIT_LOST@))
        } else {
            None
        }
    }

    /// The outcome of an initialization has been handed out.
    pub open spec fn after_wait(self, epoch: u64) -> Self {
        let i = result_index(self.init_results, epoch);
        if i < self.init_results.len() {
            WorkerView { init_results: self.init_results.remove(i), ..self }
        } else {
            self
        }
    }

    /// Some work is waiting, under way, or not yet collected.
    pub open spec fn has_pending_work(self) -> bool {
        ||| self.pending_init is Some
        ||| self.initializing
        ||| self.converting
        ||| self.pending_conversion is Some
        ||| self.completion is Some
    }
}

impl View for WorkerState {
    type V = WorkerView;

    closed spec fn view(&self) -> WorkerView {
        WorkerView {
            pending_init: self.pending_init,
            pending_conversion: self.pending_conversion,
            conversion_epoch: self.conversion_epoch,
            completion: self.completion,
            stopped: self.stopped,
            initializing: self.initializing,
            converting: self.converting,
            current_init_epoch: self.current_init_epoch,
            init_results: results_view(self.init_results@),
            ready: self.ready,
            init_error: text_view(self.init_error),
            model_name: self.model_name@,
        }
    }
}

pub(crate) proof fn lemma_result_index(results: Seq<(u64, InitResultView)>, epoch: u64)
    ensures
        ({
            let i = result_index(results, epoch);
            &&& 0 <= i <= results.len()
            &&& i < results.len() ==> results[i].0 == epoch
            &&& forall|k: int| 0 <= k < i ==> (#[trigger] results[k]).0 != epoch
        }),
    decreases results.len(),
{
    if results.len() > 0 && results[0].0 != epoch {
        let rest = results.drop_first();
        lemma_result_index(rest, epoch);
        assert forall|k: int| 0 <= k < result_index(results, epoch) implies (
        #[trigger] results[k]).0 != epoch by {
            if k > 0 {
                assert(results[k] == rest[k - 1]);
            }
        }
    }
}

/// The position of the first outcome for an epoch is the only one with these
/// properties.
pub(crate) proof fn lemma_result_index_unique(results: Seq<(u64, InitResultView)>, epoch: u64, i: int)
    requires
        0 <= i <= results.len(),
        i < results.len() ==> results[i].0 == epoch,
        forall|k: int| 0 <= k < i ==> (#[trigger] results[k]).0 != epoch,
    ensures
        result_index(results, epoch) == i,
{
    lemma_result_index(results, epoch);
    let r = result_index(results, epoch);
    if r < i {
        assert(results[r].0 != epoch);
    }
    if i < r {
        assert(results[i].0 != epoch);
    }
}

/// Keeping an outcome leaves few of them, each for an epoch of its own, and
/// that outcome can be found.
pub(crate) proof fn lemma_remember(
    results: Seq<(u64, InitResultView)>,
    epoch: u64,
    result: InitResultView,
)
    requires
        results.len() <= MAX_INIT_RESULTS,
        distinct_epochs(results),
    ensures
        ({
            let after = remember(results, epoch, result);
            let i = result_index(after, epoch);
            &&& after.len() <= MAX_INIT_RESULTS
            &&& distinct_epochs(after)
            &&& i < after.len()
            &&& after[i] == (epoch, result)
        }),
{
    lemma_result_index(results, epoch);
    let after = remember(results, epoch, result);
    let i = result_index(results, epoch);
    if i < results.len() {
        lemma_result_index_unique(after, epoch, i);
    } else {
        lemma_result_index_unique(after, epoch, after.len() - 1);
    }
}

fn find_result(results: &VecDeque<(u64, Result<(), String>)>, epoch: u64) -> (r: usize)
    ensures
        r == result_index(results_view(results@), epoch),
        r <= results@.len(),
{
    let mut i: usize = 0;
    let ghost view = results_view(results@);
    while i < results.len() && results[i].0 != epoch
        invariant
            view == results_view(results@),
            i <= results@.len(),
            forall|k: int| 0 <= k < i ==> (#[trigger] view[k]).0 != epoch,
        decreases results@.len() - i,
    {
        i = i + 1;
    }
    proof {
        lemma_result_index_unique(view, epoch, i as int);
    }
    i
}

/// Keeps the outcome of an initialization among the latest few.
pub fn remember_init_result(
    results: &mut VecDeque<(u64, Result<(), String>)>,
    epoch: u64,
    result: Result<(), String>,
)
    ensures
        results_view(final(results)@) == remember(
            results_view(old(results)@),
            epoch,
            result_view(result),
        ),
{
    let i: usize = find_result(results, epoch);
    let ghost before = results@;
    if i < results.len() {
        let _replaced = results.remove(i);
        results.insert(i, (epoch, result));
        proof {
            assert(results@ =~= before.update(i as int, (epoch, result)));
            assert(results_view(results@) =~= results_view(before).update(
                i as int,
                (epoch, result_view(result)),
            ));
        }
        return ;
    }
    proof {
        assert(before =~= before.skip(0));
    }
    while results.len() >= MAX_INIT_RESULTS
        invariant
            results@ == before.skip(before.len() - results@.len()),
            results@.len() <= before.len(),
            before.len() >= MAX_INIT_RESULTS ==> results@.len() >= MAX_INIT_RESULTS - 1,
            before.len() < MAX_INIT_RESULTS ==> results@.len() == before.len(),
        decreases results@.len(),
    {
        let _oldest = results.pop_front();
        proof {
            assert(results@ =~= before.skip(before.len() - results@.len()));
        }
    }
    results.push_back((epoch, result));
    proof {
        let kept = if before.len() >= MAX_INIT_RESULTS {
            before.skip(before.len() - MAX_INIT_RESULTS + 1)
        } else {
            before
        };
        assert(results@ =~= kept.push((epoch, result)));
        assert(results_view(results@) =~= results_view(kept).push((epoch, result_view(result))));
        assert(results_view(kept) =~= if before.len() >= MAX_INIT_RESULTS {
            results_view(before).skip(before.len() - MAX_INIT_RESULTS + 1)
        } else {
            results_view(before)
        });
    }
}

impl WorkerState {
    #[verifier::type_invariant]
    spec fn inv(self) -> bool {
        self@.wf()
    }

    /// A worker with nothing to do and no model.
    pub fn new() -> (r: Self)
        ensures
            r@ == WorkerView::idle(),
            r@.wf(),
    {
        let init_results: VecDeque<(u64, Result<(), String>)> = VecDeque::new();
        proof {
            assert(results_view(init_results@) =~= Seq::empty());
        }
        WorkerState {
            pending_init: None,
            pending_conversion: None,
            conversion_epoch: 0,
            completion: None,
            stopped: false,
            initializing: false,
            converting: false,
            current_init_epoch: 0,
            init_results,
            ready: false,
            init_error: None,
            model_name: String::new(),
        }
    }

    /// A worker that has a model from the start.
    pub fn with_model(model_name: String) -> (r: Self)
        ensures
            r@ == WorkerView::with_model(model_name@),
            r@.wf(),
    {
        WorkerState { ready: true, model_name, ..Self::new() }
    }

    /// Asks for an initialization and returns its epoch.
    pub fn begin_init(&mut self, request: InitRequest) -> (epoch: u64)
        ensures
            final(self)@ == old(self)@.begin_init(request),
            final(self)@.wf(),
            epoch == final(self)@.current_init_epoch,
    {
        proof {
            use_type_invariant(&*self);
        }
        let previous_epoch: u64 = self.current_init_epoch;
        let previous_in_flight: bool = self.initializing && previous_epoch != 0;
        let epoch: u64 = previous_epoch.wrapping_add(1);
        let mut replaced: Option<(u64, InitRequest)> = None;
        std::mem::swap(&mut self.pending_init, &mut replaced);
        let mut results: VecDeque<(u64, Result<(), String>)> = VecDeque::new();
        std::mem::swap(&mut self.init_results, &mut results);
        proof {
            lemma_remember(results_view(results@), previous_epoch, Err(INIT_SUPERSEDED@));
        }
        if previous_in_flight {
            remember_init_result(&mut results, previous_epoch, Err(INIT_SUPERSEDED.to_owned()));
        }
        if let Some((superseded_epoch, _)) = replaced {
            proof {
                lemma_remember(results_view(results@), superseded_epoch, Err(INIT_SUPERSEDED@));
            }
            remember_init_result(&mut results, superseded_epoch, Err(INIT_SUPERSEDED.to_owned()));
        }
        self.init_results = results;
        self.current_init_epoch = epoch;
        self.conversion_epoch = self.conversion_epoch.wrapping_add(1);
        self.completion = None;
        self.ready = false;
        self.init_error = None;
        self.model_name = String::new();
        self.initializing = true;
        self.pending_init = Some((epoch, request));
        epoch
    }

    /// Hands out the outcome of an initialization, if it is known.
    pub fn wait_for_init(&mut self, epoch: u64) -> (r: InitWait)
        ensures
            final(self)@ == old(self)@.after_wait(epoch),
            final(self)@.wf(),
            match r {
                InitWait::Pending => old(self)@.init_outcome(epoch) is None,
                InitWait::Known(result) => old(self)@.init_outcome(epoch) == Some(
                    result_view(result),
                ),
            },
    {
        proof {
            use_type_invariant(&*self);
        }
        let i: usize = find_result(&self.init_results, epoch);
        if i == self.init_results.len() {
            return if epoch != self.current_init_epoch {
                InitWait::Known(Err(INIT_LOST.to_owned()))
            } else {
                InitWait::Pending
            };
        }
        let mut results: VecDeque<(u64, Result<(), String>)> = VecDeque::new();
        std::mem::swap(&mut self.init_results, &mut results);
        let ghost before = results@;
        let taken = results.remove(i);
        proof {
            assert(results_view(results@) =~= results_view(before).remove(i as int));
        }
        self.init_results = results;
        match taken {
            Some((_, result)) => InitWait::Known(result),
            None => InitWait::Pending,
        }
    }

    /// Whether a model is loaded.
    pub fn is_ready(&self) -> (r: bool)
        ensures
            r == self@.ready,
    {
        self.ready
    }

    /// Whether an initialization is not done yet.
    pub fn is_initializing(&self) -> (r: bool)
        ensures
            r == self@.initializing,
    {
        self.initializing
    }

    /// Whether some work is waiting, under way, or not yet collected.
    pub fn has_pending_work(&self) -> (r: bool)
        ensures
            r == self@.has_pending_work(),
    {
        self.pending_init.is_some() || self.initializing || self.converting
            || self.pending_conversion.is_some() || self.completion.is_some()
    }

    /// The name of the main model.
    pub fn model_name(&self) -> (r: String)
        ensures
            r@ == if self@.model_name.len() == 0 {
                "unknown"@
            } else {
                self@.model_name
            },
    {
        if self.model_name.as_str().is_empty() {
            "unknown".to_owned()
        } else {
            self.model_name.clone()
        }
    }

    /// Why the latest initialization failed.
    pub fn init_error(&self) -> (r: Option<String>)
        ensures
            text_view(r) == self@.init_error,
    {
        self.init_error.clone()
    }

    /// Asks for a conversion; it takes the place of one not yet started.
    pub fn submit(&mut self, request: ConversionRequest)
        ensures
            final(self)@ == old(self)@.submit(request),
            final(self)@.wf(),
    {
        proof {
            use_type_invariant(&*self);
        }
        self.conversion_epoch = self.conversion_epoch.wrapping_add(1);
        self.pending_conversion = Some(request);
        self.completion = None;
    }

    /// Drops every conversion, waiting, under way or done.
    pub fn invalidate(&mut self)
        ensures
            final(self)@ == old(self)@.invalidate(),
            final(self)@.wf(),
    {
        proof {
            use_type_invariant(&*self);
        }
        self.conversion_epoch = self.conversion_epoch.wrapping_add(1);
        self.pending_conversion = None;
        self.completion = None;
    }

    /// Takes the completion, if there is one.
    pub fn poll(&mut self) -> (r: Option<ProposedCompletion>)
        ensures
            r == old(self)@.completion,
            final(self)@ == old(self)@.after_poll(),
            final(self)@.wf(),
    {
        proof {
            use_type_invariant(&*self);
        }
        let mut completion: Option<ProposedCompletion> = None;
        std::mem::swap(&mut self.completion, &mut completion);
        completion
    }

    /// The generation that the waiting completion is for.
    pub fn published_completion_generation(&self) -> (r: Option<u64>)
        ensures
            r == match self@.completion {
                Some(completion) => Some(completion.snapshot.generation),
                None => None,
            },
    {
        match &self.completion {
            Some(completion) => Some(completion.snapshot.generation),
            None => None,
        }
    }

    /// Number of initialization outcomes kept.
    pub fn init_result_count(&self) -> (r: usize)
        ensures
            r == self@.init_results.len(),
    {
        self.init_results.len()
    }

    /// Number of conversions not yet started.
    pub fn pending_conversion_count(&self) -> (r: usize)
        ensures
            r == if self@.pending_conversion is Some {
                1usize
            } else {
                0usize
            },
    {
        if self.pending_conversion.is_some() {
            1
        } else {
            0
        }
    }

    /// The generation that the conversion not yet started is for.
    pub fn pending_conversion_generation(&self) -> (r: Option<u64>)
        ensures
            r == match self@.pending_conversion {
                Some(request) => Some(request.snapshot.generation),
                None => None,
            },
    {
        match &self.pending_conversion {
            Some(request) => Some(request.snapshot.generation),
            None => None,
        }
    }

    /// Tells the worker to stop.
    pub fn stop(&mut self)
        ensures
            final(self)@ == (WorkerView { stopped: true, ..old(self)@ }),
            final(self)@.wf(),
    {
        proof {
            use_type_invariant(&*self);
        }
        self.stopped = true;
    }

    /// The worker takes its next piece of work.
    pub fn next_step(&mut self) -> (r: WorkerStep)
        ensures
            r == old(self)@.step(),
            final(self)@ == old(self)@.after_step(),
            final(self)@.wf(),
    {
        proof {
            use_type_invariant(&*self);
        }
        if self.stopped {
            return WorkerStep::Stop;
        }
        let mut init: Option<(u64, InitRequest)> = None;
        std::mem::swap(&mut self.pending_init, &mut init);
        if let Some((epoch, request)) = init {
            return WorkerStep::Init(epoch, request);
        }
        let mut conversion: Option<ConversionRequest> = None;
        std::mem::swap(&mut self.pending_conversion, &mut conversion);
        match conversion {
            Some(request) => {
                self.converting = true;
                WorkerStep::Convert(self.conversion_epoch, request)
            },
            None => WorkerStep::Wait,
        }
    }

    /// The worker has loaded the models, or failed to; with the name of the
    /// main model, or the error. Only the latest initialization counts.
    pub fn finish_init(&mut self, epoch: u64, result: Result<String, String>)
        ensures
            final(self)@ == old(self)@.finish_init(
                epoch,
                match result {
                    Ok(name) => Ok(name@),
                    Err(error) => Err(error@),
                },
            ),
            final(self)@.wf(),
    {
        proof {
            use_type_invariant(&*self);
        }
        if self.current_init_epoch != epoch {
            return ;
        }
        self.initializing = false;
        let mut results: VecDeque<(u64, Result<(), String>)> = VecDeque::new();
        std::mem::swap(&mut self.init_results, &mut results);
        match result {
            Ok(model_name) => {
                proof {
                    lemma_remember(results_view(results@), epoch, Ok(()));
                }
                remember_init_result(&mut results, epoch, Ok(()));
                self.init_error = None;
                self.ready = true;
                self.model_name = model_name;
            },
            Err(error) => {
                proof {
                    lemma_remember(results_view(results@), epoch, Err(error@));
                }
                remember_init_result(&mut results, epoch, Err(error.clone()));
                self.ready = false;
                self.init_error = Some(error);
                self.model_name = String::new();
            },
        }
        self.init_results = results;
    }

    /// The worker has a completion for the request with this epoch. Returns
    /// whether the light model is to take over from now on: what the
    /// completion proposes, if it is still wanted, and what held before
    /// otherwise.
    pub fn finish_conversion(
        &mut self,
        epoch: u64,
        completion: ProposedCompletion,
        adaptive_use_light_model: bool,
    ) -> (r: bool)
        ensures
            final(self)@ == old(self)@.finish_conversion(epoch, completion),
            final(self)@.wf(),
            r == if old(self)@.conversion_epoch == epoch {
                completion.metrics.adaptive_use_light_model
            } else {
                adaptive_use_light_model
            },
    {
        proof {
            use_type_invariant(&*self);
        }
        self.converting = false;
        if self.conversion_epoch == epoch {
            let adaptive: bool = completion.metrics.adaptive_use_light_model;
            self.completion = Some(completion);
            adaptive
        } else {
            adaptive_use_light_model
        }
    }
}

} // verus!
