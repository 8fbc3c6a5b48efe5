//! What the worker promises over several calls.

use vstd::prelude::*;

use crate::conversion::{ConversionRequest, ProposedCompletion};
use crate::worker::{lemma_remember, lemma_result_index, lemma_result_index_unique};
use crate::worker::{distinct_epochs, next_epoch, remember, result_index, result_view, text_view};
use crate::worker::{InitRequest, InitResultView, WorkerStep, WorkerView};
use crate::worker::{INIT_LOST, INIT_SUPERSEDED, MAX_INIT_RESULTS};

verus! {

/// What the engine may do with the worker.
pub enum WorkerCall {
    BeginInit(InitRequest),
    Submit(ConversionRequest),
    Invalidate,
    Poll,
    WaitForInit(u64),
    Stop,
}

impl WorkerView {
    /// The worker after a call by the engine.
    pub open spec fn after_call(self, call: WorkerCall) -> Self {
        match call {
            WorkerCall::BeginInit(request) => self.begin_init(request),
            WorkerCall::Submit(request) => self.submit(request),
            WorkerCall::Invalidate => self.invalidate(),
            WorkerCall::Poll => self.after_poll(),
            WorkerCall::WaitForInit(epoch) => self.after_wait(epoch),
            WorkerCall::Stop => WorkerView { stopped: true, ..self },
        }
    }

    /// The worker after several calls by the engine.
    pub open spec fn after_calls(self, calls: Seq<WorkerCall>) -> Self
        decreases calls.len(),
    {
        if calls.len() == 0 {
            self
        } else {
            self.after_calls(calls.drop_last()).after_call(calls.last())
        }
    }
}

/// The call ends the interest in conversions asked for before.
pub open spec fn outdates_conversions(call: WorkerCall) -> bool {
    call is BeginInit || call is Submit || call is Invalidate
}

/// How many of the calls end the interest in earlier conversions.
pub open spec fn outdating_calls(calls: Seq<WorkerCall>) -> nat
    decreases calls.len(),
{
    if calls.len() == 0 {
        0
    } else {
        outdating_calls(calls.drop_last()) + if outdates_conversions(calls.last()) {
            1nat
        } else {
            0nat
        }
    }
}

/// How many of the calls ask for an initialization.
pub open spec fn init_calls(calls: Seq<WorkerCall>) -> nat
    decreases calls.len(),
{
    if calls.len() == 0 {
        0
    } else {
        init_calls(calls.drop_last()) + if calls.last() is BeginInit {
            1nat
        } else {
            0nat
        }
    }
}

/// Epochs advance with the calls, and start over after the last number.
proof fn lemma_epochs(worker: WorkerView, calls: Seq<WorkerCall>)
    ensures
        worker.after_calls(calls).conversion_epoch == (worker.conversion_epoch + outdating_calls(
            calls,
        )) % 0x1_0000_0000_0000_0000,
        worker.after_calls(calls).current_init_epoch == (worker.current_init_epoch + init_calls(
            calls,
        )) % 0x1_0000_0000_0000_0000,
    decreases calls.len(),
{
    if calls.len() > 0 {
        lemma_epochs(worker, calls.drop_last());
        let before = worker.after_calls(calls.drop_last());
        assert(next_epoch(before.conversion_epoch) == (before.conversion_epoch + 1)
            % 0x1_0000_0000_0000_0000);
        assert(next_epoch(before.current_init_epoch) == (before.current_init_epoch + 1)
            % 0x1_0000_0000_0000_0000);
    }
}

/// A conversion that finishes after the engine has asked for another, for an
/// initialization, or for none at all, leaves nothing in the mailbox.
pub proof fn law_outdated_completion_is_dropped(
    worker: WorkerView,
    calls: Seq<WorkerCall>,
    completion: ProposedCompletion,
)
    requires
        0 < outdating_calls(calls) < 0x1_0000_0000_0000_0000,
    ensures
        ({
            let later = worker.after_calls(calls);
            later.finish_conversion(worker.conversion_epoch, completion) == WorkerView {
                converting: false,
                ..later
            }
        }),
{
    lemma_epochs(worker, calls);
}

/// A conversion that is still wanted when it finishes is the next that the
/// engine collects.
pub proof fn law_wanted_completion_is_published(
    worker: WorkerView,
    calls: Seq<WorkerCall>,
    completion: ProposedCompletion,
)
    requires
        outdating_calls(calls) == 0,
    ensures
        worker.after_calls(calls).finish_conversion(worker.conversion_epoch, completion).completion
            == Some(completion),
{
    lemma_epochs(worker, calls);
}

/// Of several requests that the worker has not started, the latest is the
/// only one it will see.
pub proof fn law_latest_request_wins(
    worker: WorkerView,
    earlier: ConversionRequest,
    latest: ConversionRequest,
)
    ensures
        worker.submit(earlier).submit(latest).pending_conversion == Some(latest),
        worker.submit(earlier).submit(latest).completion is None,
        !worker.stopped && worker.pending_init is None ==> worker.submit(earlier).submit(
            latest,
        ).step() == WorkerStep::Convert(
            worker.submit(earlier).submit(latest).conversion_epoch,
            latest,
        ),
{
}

/// Invalidating leaves no conversion waiting and no completion to collect,
/// and the worker nothing to do but initialize.
pub proof fn law_invalidation_empties_the_mailbox(worker: WorkerView)
    ensures
        worker.invalidate().pending_conversion is None,
        worker.invalidate().completion is None,
        !(worker.invalidate().step() is Convert),
{
}

/// A completion is collected once.
pub proof fn law_completion_is_collected_once(worker: WorkerView)
    ensures
        worker.after_poll().completion is None,
        worker.after_poll().after_poll() == worker.after_poll(),
{
}

/// A waiting initialization goes first, and the conversion keeps waiting.
pub proof fn law_initialization_goes_first(worker: WorkerView)
    requires
        worker.pending_init is Some,
        !worker.stopped,
    ensures
        worker.step() is Init,
        worker.after_step().pending_conversion == worker.pending_conversion,
        worker.after_step().pending_init is None,
{
}

/// While an initialization is not done, no model is ready, and the one asked
/// for last is the one that counts.
pub proof fn law_initialization_starts_unready(worker: WorkerView, request: InitRequest)
    ensures
        ({
            let later = worker.begin_init(request);
            &&& later.initializing
            &&& !later.ready
            &&& later.model_name.len() == 0
            &&& later.completion is None
            &&& later.has_pending_work()
            &&& later.pending_init == Some((later.current_init_epoch, request))
        }),
{
}

/// Whoever waits for an initialization that was not done when another was
/// asked for learns that it was superseded, without waiting any longer.
pub proof fn law_superseded_initialization_fails(worker: WorkerView, request: InitRequest)
    requires
        worker.wf(),
        worker.initializing,
        worker.current_init_epoch != 0,
    ensures
        worker.begin_init(request).init_outcome(worker.current_init_epoch) == Some(
            Err::<(), Seq<char>>(INIT_SUPERSEDED@),
        ),
{
    let epoch = worker.current_init_epoch;
    lemma_remember(worker.init_results, epoch, Err(INIT_SUPERSEDED@));
    let results = remember(worker.init_results, epoch, Err(INIT_SUPERSEDED@));
    lemma_remember(results, epoch, Err(INIT_SUPERSEDED@));
}

/// An initialization that finishes after another was asked for changes
/// nothing: it can neither make the worker ready nor report success.
pub proof fn law_superseded_initialization_is_not_published(
    worker: WorkerView,
    calls: Seq<WorkerCall>,
    result: Result<Seq<char>, Seq<char>>,
)
    requires
        0 < init_calls(calls) < 0x1_0000_0000_0000_0000,
    ensures
        worker.after_calls(calls).finish_init(worker.current_init_epoch, result)
            == worker.after_calls(calls),
{
    lemma_epochs(worker, calls);
}

/// The latest initialization makes the worker ready if it succeeds, and its
/// outcome is there for whoever waits.
pub proof fn law_latest_initialization_succeeds(worker: WorkerView, model_name: Seq<char>)
    requires
        worker.wf(),
    ensures
        ({
            let epoch = worker.current_init_epoch;
            let later = worker.finish_init(epoch, Ok(model_name));
            &&& later.ready
            &&& !later.initializing
            &&& later.model_name == model_name
            &&& later.init_error is None
            &&& later.init_outcome(epoch) == Some(Ok::<(), Seq<char>>(()))
        }),
{
    lemma_remember(worker.init_results, worker.current_init_epoch, Ok(()));
}

/// A failed initialization leaves the worker without a model and open to
/// another try.
pub proof fn law_failed_initialization_can_be_retried(
    worker: WorkerView,
    error: Seq<char>,
    retry: InitRequest,
    model_name: Seq<char>,
)
    requires
        worker.wf(),
    ensures
        ({
            let epoch = worker.current_init_epoch;
            let failed = worker.finish_init(epoch, Err(error));
            let retried = failed.begin_init(retry);
            let done = retried.finish_init(retried.current_init_epoch, Ok(model_name));
            &&& !failed.ready
            &&& !failed.initializing
            &&& failed.model_name.len() == 0
            &&& failed.init_outcome(epoch) == Some(Err::<(), Seq<char>>(error))
            &&& !retried.ready
            &&& done.ready
            &&& done.model_name == model_name
        }),
{
    lemma_remember(worker.init_results, worker.current_init_epoch, Err(error));
}

/// Keeping an outcome leaves few of them, each for an epoch of its own, and
/// the kept one can be found. An epoch that has an outcome gets the new one in
/// the same place, and nothing leaves. Otherwise the outcome goes to the back,
/// and only where there was no room the oldest leaves.
pub proof fn law_outcomes_stay_few_and_distinct(
    results: Seq<(u64, InitResultView)>,
    epoch: u64,
    result: InitResultView,
)
    requires
        results.len() <= MAX_INIT_RESULTS,
        distinct_epochs(results),
    ensures
        ({
            let after = remember(results, epoch, result);
            &&& after.len() <= MAX_INIT_RESULTS
            &&& distinct_epochs(after)
            &&& after.contains((epoch, result))
            &&& forall|i: int|
                0 <= i < results.len() && (#[trigger] results[i]).0 == epoch ==> after
                    == results.update(i, (epoch, result))
            &&& (forall|i: int| 0 <= i < results.len() ==> (#[trigger] results[i]).0 != epoch)
                ==> after == if results.len() < MAX_INIT_RESULTS {
                results.push((epoch, result))
            } else {
                results.drop_first().push((epoch, result))
            }
        }),
{
    lemma_remember(results, epoch, result);
    lemma_result_index(results, epoch);
    let after = remember(results, epoch, result);
    let found = result_index(results, epoch);
    lemma_result_index(after, epoch);
    assert(after.contains(after[result_index(after, epoch)]));
    assert forall|i: int| 0 <= i < results.len() && (#[trigger] results[i]).0 == epoch implies after
        == results.update(i, (epoch, result)) by {
        if found < i {
            assert(results[found].0 != results[i].0);
        }
    }
    if forall|i: int| 0 <= i < results.len() ==> (#[trigger] results[i]).0 != epoch {
        assert(found == results.len());
        if results.len() > 0 {
            assert(results.skip(1) =~= results.drop_first());
        }
    }
}

/// An outcome is handed out once.
pub proof fn law_outcome_is_handed_out_once(worker: WorkerView, epoch: u64)
    requires
        worker.wf(),
    ensures
        worker.after_wait(epoch).init_outcome(epoch) == if epoch == worker.current_init_epoch {
            None
        } else {
            Some(Err::<(), Seq<char>>(INIT_LOST@))
        },
{
    lemma_result_index(worker.init_results, epoch);
    let i = result_index(worker.init_results, epoch);
    let after = worker.after_wait(epoch).init_results;
    if i < worker.init_results.len() {
        assert forall|k: int| 0 <= k < after.len() implies (#[trigger] after[k]).0 != epoch by {
            if k >= i {
                assert(after[k] == worker.init_results[k + 1]);
                assert(worker.init_results[i].0 != worker.init_results[k + 1].0);
            }
        }
    }
    lemma_result_index_unique(after, epoch, after.len() as int);
}

/// Every call, and every report of the worker, keeps the outcomes few and the
/// state consistent.
pub proof fn law_state_stays_consistent(
    worker: WorkerView,
    call: WorkerCall,
    epoch: u64,
    result: Result<Seq<char>, Seq<char>>,
    completion: ProposedCompletion,
)
    requires
        worker.wf(),
    ensures
        worker.after_call(call).wf(),
        worker.after_step().wf(),
        worker.finish_init(epoch, result).wf(),
        worker.finish_conversion(epoch, completion).wf(),
{
    lemma_remember(worker.init_results, epoch, Ok(()));
    if let Err(error) = result {
        lemma_remember(worker.init_results, epoch, Err(error));
    }
    match call {
        WorkerCall::BeginInit(_) => {
            let epoch = worker.current_init_epoch;
            lemma_remember(worker.init_results, epoch, Err(INIT_SUPERSEDED@));
            let results = remember(worker.init_results, epoch, Err(INIT_SUPERSEDED@));
            lemma_remember(results, epoch, Err(INIT_SUPERSEDED@));
        },
        WorkerCall::WaitForInit(epoch) => {
            lemma_result_index(worker.init_results, epoch);
        },
        _ => {},
    }
}

/// A new worker has nothing to do, nothing to report and no model, unless it
/// is given one from the start.
pub proof fn law_new_worker(model_name: Seq<char>)
    ensures
        ({
            let idle = WorkerView::idle();
            let with_model = WorkerView::with_model(model_name);
            &&& !idle.has_pending_work()
            &&& idle.step() is Wait
            &&& idle.init_results.len() == 0
            &&& !idle.ready && idle.init_error is None && idle.model_name.len() == 0
            &&& idle.current_init_epoch == 0 && idle.conversion_epoch == 0
            &&& with_model.ready && with_model.model_name == model_name
            &&& !with_model.has_pending_work()
            &&& with_model.step() is Wait
            &&& with_model.init_results.len() == 0
            &&& with_model.current_init_epoch == 0 && with_model.conversion_epoch == 0
            &&& idle.wf() && with_model.wf()
        }),
{
}

/// Asking for an initialization leaves a waiting conversion waiting and the
/// thread running. It gets the next epoch, and conversions under way are no
/// longer wanted. To the outcomes it only adds that an initialization under
/// way was superseded.
pub proof fn law_initialization_request(worker: WorkerView, request: InitRequest)
    requires
        worker.wf(),
    ensures
        ({
            let later = worker.begin_init(request);
            &&& later.current_init_epoch == (worker.current_init_epoch + 1)
                % 0x1_0000_0000_0000_0000
            &&& later.conversion_epoch == (worker.conversion_epoch + 1) % 0x1_0000_0000_0000_0000
            &&& later.pending_init == Some((later.current_init_epoch, request))
            &&& later.pending_conversion == worker.pending_conversion
            &&& later.completion is None
            &&& later.stopped == worker.stopped
            &&& later.converting == worker.converting
            &&& later.init_error is None
            &&& !worker.initializing && worker.pending_init is None ==> later.init_results
                == worker.init_results
            &&& worker.initializing && worker.current_init_epoch != 0 ==> later.init_results
                == remember(
                worker.init_results,
                worker.current_init_epoch,
                Err(INIT_SUPERSEDED@),
            )
        }),
{
    let epoch = worker.current_init_epoch;
    let superseded: InitResultView = Err(INIT_SUPERSEDED@);
    lemma_remember(worker.init_results, epoch, superseded);
    let once = remember(worker.init_results, epoch, superseded);
    lemma_result_index(once, epoch);
    assert(remember(once, epoch, superseded) =~= once);
}

/// Submitting and invalidating only concern conversions: one waits
/// afterwards, or none; what was under way or done is no longer wanted. Models
/// and initializations stay as they are.
pub proof fn law_conversion_requests(worker: WorkerView, request: ConversionRequest)
    ensures
        forall|later: WorkerView|
            later == worker.submit(request) || later == worker.invalidate() ==> {
                &&& (#[trigger] later.conversion_epoch) == (worker.conversion_epoch + 1)
                    % 0x1_0000_0000_0000_0000
                &&& later.completion is None
                &&& later.pending_init == worker.pending_init
                &&& later.stopped == worker.stopped
                &&& later.initializing == worker.initializing
                &&& later.converting == worker.converting
                &&& later.current_init_epoch == worker.current_init_epoch
                &&& later.init_results == worker.init_results
                &&& later.ready == worker.ready
                &&& later.init_error == worker.init_error
                &&& later.model_name == worker.model_name
            },
        worker.submit(request).pending_conversion == Some(request),
        worker.invalidate().pending_conversion is None,
{
}

/// The worker stops when told to. Otherwise it takes a waiting initialization,
/// or else a waiting conversion, with the epoch that it was asked under, and
/// waits if there is neither. What it takes waits no longer; a conversion is
/// then under way.
pub proof fn law_next_piece_of_work(worker: WorkerView)
    ensures
        worker.stopped ==> worker.step() is Stop && worker.after_step() == worker,
        !worker.stopped ==> match worker.pending_init {
            Some((epoch, request)) => {
                &&& worker.step() == WorkerStep::Init(epoch, request)
                &&& worker.after_step().pending_init is None
                &&& worker.after_step() == (WorkerView {
                    pending_init: worker.after_step().pending_init,
                    ..worker
                })
            },
            None => match worker.pending_conversion {
                Some(request) => {
                    &&& worker.step() == WorkerStep::Convert(worker.conversion_epoch, request)
                    &&& worker.after_step().pending_conversion is None
                    &&& worker.after_step().converting
                    &&& worker.after_step() == (WorkerView {
                        pending_conversion: worker.after_step().pending_conversion,
                        converting: worker.after_step().converting,
                        ..worker
                    })
                },
                None => worker.step() is Wait && worker.after_step() == worker,
            },
        },
{
}

/// The end of an initialization leaves conversions alone, and an error is
/// reported as it came.
pub proof fn law_end_of_initialization(
    worker: WorkerView,
    epoch: u64,
    result: Result<Seq<char>, Seq<char>>,
)
    ensures
        ({
            let later = worker.finish_init(epoch, result);
            &&& later.pending_init == worker.pending_init
            &&& later.pending_conversion == worker.pending_conversion
            &&& later.conversion_epoch == worker.conversion_epoch
            &&& later.completion == worker.completion
            &&& later.stopped == worker.stopped
            &&& later.converting == worker.converting
            &&& later.current_init_epoch == worker.current_init_epoch
            &&& epoch == worker.current_init_epoch ==> {
                &&& !later.initializing
                &&& later.ready == (result is Ok)
                &&& result matches Ok(name) ==> later.model_name == name && later.init_error is None
                &&& result matches Err(error) ==> later.init_error == Some(error)
                    && later.model_name.len() == 0
                &&& later.init_results == remember(
                    worker.init_results,
                    epoch,
                    match result {
                        Ok(_) => Ok(()),
                        Err(error) => Err(error),
                    },
                )
            }
            &&& epoch != worker.current_init_epoch ==> later == worker
        }),
{
}

/// The end of a conversion, and collecting its completion, leave everything
/// else as it is.
pub proof fn law_end_of_conversion(worker: WorkerView, epoch: u64, completion: ProposedCompletion)
    ensures
        ({
            let later = worker.finish_conversion(epoch, completion);
            &&& !later.converting
            &&& later.completion == if epoch == worker.conversion_epoch {
                Some(completion)
            } else {
                worker.completion
            }
            &&& later == (WorkerView {
                converting: later.converting,
                completion: later.completion,
                ..worker
            })
        }),
        worker.after_poll().completion is None,
        worker.after_poll() == (WorkerView { completion: worker.after_poll().completion, ..worker }),
{
}

/// Work is pending exactly while an initialization waits or is not done, a
/// conversion waits or is under way, or a completion is not collected.
pub proof fn law_pending_work(worker: WorkerView)
    ensures
        worker.has_pending_work() == (worker.pending_init is Some || worker.initializing
            || worker.converting || worker.pending_conversion is Some
            || worker.completion is Some),
{
}

/// An outcome that is kept for an epoch is the one handed out for it, and no
/// other leaves. Without one, an epoch that is not the latest is lost, and the
/// latest is still open.
pub proof fn law_outcome_of_an_epoch(worker: WorkerView, epoch: u64, i: int)
    requires
        worker.wf(),
    ensures
        0 <= i < worker.init_results.len() && worker.init_results[i].0 == epoch ==> {
            &&& worker.init_outcome(epoch) == Some(worker.init_results[i].1)
            &&& worker.after_wait(epoch) == (WorkerView {
                init_results: worker.init_results.remove(i),
                ..worker
            })
        },
        (forall|k: int| 0 <= k < worker.init_results.len() ==> (#[trigger] worker.init_results[k]).0
            != epoch) ==> {
            &&& worker.after_wait(epoch) == worker
            &&& worker.init_outcome(epoch) == if epoch == worker.current_init_epoch {
                None
            } else {
                Some(Err::<(), Seq<char>>("initialization outcome superseded or evicted"@))
            }
        },
{
    lemma_result_index(worker.init_results, epoch);
    let found = result_index(worker.init_results, epoch);
    if 0 <= i < worker.init_results.len() && worker.init_results[i].0 == epoch {
        lemma_result_index_unique(worker.init_results, epoch, found);
        if found < i {
            assert(worker.init_results[found].0 != worker.init_results[i].0);
        }
        if i < found {
            assert(worker.init_results[i].0 != epoch);
        }
    }
}

/// Errors are kept word for word, and an initialization that was superseded
/// is reported as such.
pub proof fn law_error_texts(result: Result<(), String>, error: Option<String>)
    ensures
        result is Ok <==> result_view(result) is Ok,
        result matches Err(text) ==> result_view(result) == Err::<(), Seq<char>>(text@),
        error is None <==> text_view(error) is None,
        error matches Some(text) ==> text_view(error) == Some(text@),
        INIT_SUPERSEDED@ == "initialization request superseded"@,
        INIT_LOST@ == "initialization outcome superseded or evicted"@,
        MAX_INIT_RESULTS == 4,
{
}

} // verus!
