//! What the engine promises over several calls.

use vstd::prelude::*;

use crate::candidates::{
    append_dedup, distinct_candidates, has_text, holds_text, law_append_dedup,
    law_append_keeps_texts_distinct, law_proposals, proposals,
};
use crate::candidates::{Candidate, CandidateList, CandidateListView};
use crate::completion::{
    auto_proposals, conversion_result, entry_index, merged_candidates, reselected, same_entry,
    suggested,
};
use crate::completion::{AutoSources, ExplicitSources};
use crate::conversion::{
    AsyncInputState, AsyncRequestKind, ConversionRequest, ConversionSnapshot, EngineConfig,
    InputMode, ProposedCompletion, StrategyMode,
};
use crate::engine::{
    accepted, AcceptedCompletion, AuxText, AuxTextView, EngineAction, EngineActionView,
    EngineResult, InputMethodEngine, InputState, InputStateView,
};
use crate::init::{may_resolve, settings_request};
use crate::init::{AssetReport, InitError, ResolvedModels, Settings};
use crate::kana_laws::law_text_classes;
use crate::preedit::{Preedit, PreeditView};
use crate::worker::WorkerView;

verus! {

/// A request that a model answers before anything changes is accepted: its
/// completion is in the mailbox, the engine accepts it, and waits no longer.
pub proof fn law_undisturbed_request_is_accepted<D, L>(
    engine: InputMethodEngine<D, L>,
    worker: WorkerView,
    request_kind: AsyncRequestKind,
    skip_learning: bool,
    request: ConversionRequest,
    completion: ProposedCompletion,
)
    requires
        request.snapshot == engine.snapshot(engine.metadata(request_kind, skip_learning)),
        completion.snapshot == request.snapshot,
        completion.ready,
    ensures
        ({
            let waiting = InputMethodEngine {
                pending_async_request: Some(engine.metadata(request_kind, skip_learning)),
                ..engine
            };
            let asked = worker.submit(request);
            let answered = asked.after_step().finish_conversion(
                asked.conversion_epoch,
                completion,
            );
            &&& answered.completion == Some(completion)
            &&& waiting.accepts(completion)
            &&& waiting.accept(completion).pending_async_request is None
        }),
{
}

/// A completion that was expected stays so exactly while the request and all
/// that its snapshot describes are the same: the generation, the reading, the
/// context, the mode, the phase of input and the chunks.
pub proof fn law_any_change_makes_a_completion_stale<D, L>(
    before: InputMethodEngine<D, L>,
    after: InputMethodEngine<D, L>,
    snapshot: ConversionSnapshot,
)
    requires
        before.expects(snapshot),
    ensures
        after.expects(snapshot) <==> {
            &&& after.pending_async_request == before.pending_async_request
            &&& after.generation == before.generation
            &&& after.input_buf.text@ == before.input_buf.text@
            &&& after.context@ == before.context@
            &&& after.mode.current == before.mode.current
            &&& after.state.phase() == before.state.phase()
            &&& after.chunk_cache_epoch == before.chunk_cache_epoch
        },
{
}

/// Once a completion is accepted, no other is.
pub proof fn law_one_completion_is_accepted<D, L>(
    engine: InputMethodEngine<D, L>,
    completion: ProposedCompletion,
    other: ProposedCompletion,
)
    ensures
        !engine.accept(completion).accepts(other),
{
}

/// Loaded assets change nothing that a completion is matched against, so they
/// neither lose a completion nor let a stale one in.
pub proof fn law_assets_do_not_disturb_requests<D, L>(
    engine: InputMethodEngine<D, L>,
    report: AssetReport<D, L>,
    completion: ProposedCompletion,
)
    ensures
        engine.after_assets(report).accepts(completion) == engine.accepts(completion),
{
}

/// Loaded assets replace nothing that is there, and a report that came once
/// is not heard twice.
pub proof fn law_assets_replace_nothing<D, L>(
    engine: InputMethodEngine<D, L>,
    report: AssetReport<D, L>,
    again: AssetReport<D, L>,
)
    ensures
        ({
            let after = engine.after_assets(report);
            &&& engine.dicts.system is Some ==> after.dicts.system == engine.dicts.system
            &&& engine.dicts.user is Some ==> after.dicts.user == engine.dicts.user
            &&& engine.learning is Some ==> after.learning == engine.learning
            &&& !(report is Running) ==> after.after_assets(again) == after
        }),
{
}

/// While a loader is at work, initializing again starts no other, however
/// often it is tried, and the one at work stays awaited.
pub proof fn law_retries_keep_the_loader<D, L>(engine: InputMethodEngine<D, L>, settings: Settings)
    requires
        engine.pending_init_assets,
    ensures
        engine.after_assets(AssetReport::Running) == engine,
        engine.after_assets(AssetReport::Running).asset_plan(settings) is None,
{
}

/// In adaptive mode the light model never makes an initialization fail.
pub proof fn law_adaptive_light_model_is_optional(
    settings: Settings,
    models: ResolvedModels,
    config: EngineConfig,
)
    requires
        settings.conversion.strategy == StrategyMode::Adaptive,
        models.main is Ok,
    ensures
        settings_request(settings, models, config) matches Ok(request) && request.light_variant
            == Some(
            match models.light {
                Ok(variant) => variant,
                Err(_) => models.default_model,
            },
        ),
{
}

/// Where the registry has one answer for an id, loading the model with that
/// id goes one way: it has the same result and the same effect whoever starts
/// it. So loading the default model is the same as loading it by its id with
/// no number of threads.
pub proof fn law_loading_by_id_goes_one_way<
    D,
    L,
    F: Fn(Option<&str>) -> Result<String, String>,
>(
    engine: InputMethodEngine<D, L>,
    worker: WorkerView,
    resolve: F,
    id: Seq<char>,
    n_threads: u32,
    worker_after: WorkerView,
    started: Result<u64, InitError>,
    other_worker_after: WorkerView,
    other_started: Result<u64, InitError>,
)
    requires
        forall|a: Result<String, String>, b: Result<String, String>|
            #![trigger may_resolve(resolve, Some(id), a), may_resolve(resolve, Some(id), b)]
            may_resolve(resolve, Some(id), a) && may_resolve(resolve, Some(id), b) ==> a == b,
        engine.loads_model_by_id(worker, resolve, id, n_threads, worker_after, started),
        engine.loads_model_by_id(
            worker,
            resolve,
            id,
            n_threads,
            other_worker_after,
            other_started,
        ),
    ensures
        worker_after == other_worker_after,
        started == other_started,
{
}

/// An explicit completion takes no candidate away and moves none: those on
/// offer stay in front, and what is added repeats no text. Every candidate of
/// the dictionaries is there afterwards, also if they were loaded meanwhile,
/// and so is every text of the models that is not filtered out.
pub proof fn law_explicit_merge(
    current: Seq<Candidate>,
    completion: ProposedCompletion,
    sources: ExplicitSources,
)
    ensures
        ({
            let list = merged_candidates(current, completion, sources);
            &&& current.len() <= list.len()
            &&& list.take(current.len() as int) == current
            &&& forall|i: int|
                0 <= i < sources.dictionary@.len() ==> has_text(
                    list,
                    (#[trigger] sources.dictionary@[i]).text@,
                )
            &&& forall|i: int|
                0 <= i < completion.model_candidates@.len() && !(sources.filter_script_variants
                    && holds_text(
                    sources.script_variants@,
                    (#[trigger] completion.model_candidates@[i])@,
                )) ==> has_text(list, completion.model_candidates@[i]@)
            &&& forall|i: int, j: int|
                0 <= i < j < list.len() && current.len() <= j ==> (#[trigger] list[i]).text@ != (
                #[trigger] list[j]).text@
        }),
{
    let dropped = if sources.filter_script_variants {
        sources.script_variants@
    } else {
        Seq::empty()
    };
    let texts = completion.model_candidates@;
    let proposed = proposals(texts, completion.snapshot.reading, dropped);
    let known = append_dedup(current, sources.dictionary@);
    let list = merged_candidates(current, completion, sources);
    law_append_dedup(current, sources.dictionary@);
    law_append_dedup(known, proposed);
    law_proposals(texts, completion.snapshot.reading, dropped);
    assert forall|i: int| 0 <= i < known.len() implies #[trigger] list[i] == known[i] by {
        assert(list.take(known.len() as int)[i] == list[i]);
    }
    assert(list.take(current.len() as int) =~= known.take(current.len() as int));
    assert forall|i: int| 0 <= i < sources.dictionary@.len() implies has_text(
        list,
        (#[trigger] sources.dictionary@[i]).text@,
    ) by {
        let k = choose|k: int|
            0 <= k < known.len() && (#[trigger] known[k]).text@ == sources.dictionary@[i].text@;
        assert(list[k].text@ == sources.dictionary@[i].text@);
    }
    assert forall|i: int|
        0 <= i < texts.len() && !(sources.filter_script_variants && holds_text(
            sources.script_variants@,
            (#[trigger] texts[i])@,
        )) implies has_text(list, texts[i]@) by {
        assert(!holds_text(dropped, texts[i]@));
        let k = choose|k: int|
            0 <= k < proposed.len() && (#[trigger] proposed[k]).text@ == texts[i]@;
        assert(has_text(list, proposed[k].text@));
    }
    assert forall|i: int, j: int| 0 <= i < j < list.len() && current.len() <= j implies (
    #[trigger] list[i]).text@ != (#[trigger] list[j]).text@ by {
        if j < known.len() {
            assert(known[i].text@ != known[j].text@);
        }
    }
}

proof fn lemma_entry_index(list: Seq<Candidate>, entry: Candidate)
    ensures
        ({
            let i = entry_index(list, entry);
            &&& 0 <= i <= list.len()
            &&& i < list.len() ==> same_entry(list[i], entry)
            &&& forall|k: int| 0 <= k < i ==> !same_entry(#[trigger] list[k], entry)
        }),
    decreases list.len(),
{
    if list.len() > 0 && !same_entry(list[0], entry) {
        let rest = list.drop_first();
        lemma_entry_index(rest, entry);
        assert forall|k: int| 0 <= k < entry_index(list, entry) implies !same_entry(
            #[trigger] list[k],
            entry,
        ) by {
            if k > 0 {
                assert(list[k] == rest[k - 1]);
            }
        }
    }
}

/// An explicit completion keeps the selection: the same text with the same
/// reading is selected afterwards, and the cursor does not move unless the
/// candidate was listed before itself.
pub proof fn law_selection_is_kept(
    current: CandidateListView,
    completion: ProposedCompletion,
    sources: ExplicitSources,
)
    requires
        current.cursor_in_range(),
        current.candidates.len() > 0,
    ensures
        ({
            let selected = current.candidates[current.cursor];
            let list = reselected(
                merged_candidates(current.candidates, completion, sources),
                current.selected(),
            );
            &&& list.cursor_in_range()
            &&& list.selected() matches Some(kept) && same_entry(kept, selected)
            &&& list.cursor <= current.cursor
            &&& (forall|k: int|
                0 <= k < current.cursor ==> !same_entry(
                    #[trigger] current.candidates[k],
                    selected,
                )) ==> list.cursor == current.cursor && list.selected() == current.selected()
        }),
{
    let selected = current.candidates[current.cursor];
    let merged = merged_candidates(current.candidates, completion, sources);
    law_explicit_merge(current.candidates, completion, sources);
    lemma_entry_index(merged, selected);
    assert forall|i: int| 0 <= i < current.candidates.len() implies merged[i]
        == #[trigger] current.candidates[i] by {
        assert(merged.take(current.candidates.len() as int)[i] == merged[i]);
    }
    assert(merged[current.cursor] == selected);
    let index = entry_index(merged, selected);
    if current.cursor < index {
        assert(!same_entry(merged[current.cursor], selected));
    }
    assert(merged[index] == current.candidates[index]);
}

/// What comes of a completion never uses up a key.
pub proof fn law_completions_leave_keys_to_the_host<D, L>(
    engine: InputMethodEngine<D, L>,
    list: CandidateListView,
    reading: Seq<char>,
    candidates: Seq<Candidate>,
    preedit: PreeditView,
)
    ensures
        !conversion_result(list, reading).consumed,
        !engine.suggestion_result(reading, candidates, preedit).consumed,
{
}

/// Suggestions start with what was learned, go on with what the models
/// proposed other than the reading itself, and repeat no text.
pub proof fn law_suggestions(completion: ProposedCompletion, sources: AutoSources)
    requires
        distinct_candidates(sources.learning@),
    ensures
        ({
            let list = suggested(completion, sources);
            let learned = sources.learning@;
            let model = append_dedup(learned, auto_proposals(completion));
            &&& distinct_candidates(list)
            &&& learned.len() <= model.len() <= list.len()
            &&& list.take(learned.len() as int) == learned
            &&& list.take(model.len() as int) == model
            &&& forall|k: int|
                0 <= k < auto_proposals(completion).len() ==> (
                #[trigger] auto_proposals(completion)[k]).text@ != completion.snapshot.reading@
        }),
{
    let reading = completion.snapshot.reading;
    let learned = sources.learning@;
    let model = append_dedup(learned, auto_proposals(completion));
    let known = append_dedup(model, sources.dictionary@);
    let list = suggested(completion, sources);
    law_append_keeps_texts_distinct(learned, auto_proposals(completion));
    law_append_keeps_texts_distinct(model, sources.dictionary@);
    law_append_keeps_texts_distinct(known, sources.rewriter@);
    law_append_dedup(learned, auto_proposals(completion));
    law_append_dedup(model, sources.dictionary@);
    law_append_dedup(known, sources.rewriter@);
    assert forall|i: int| 0 <= i < known.len() implies #[trigger] list[i] == known[i] by {
        assert(list.take(known.len() as int)[i] == list[i]);
    }
    assert(list.take(model.len() as int) =~= known.take(model.len() as int));
    assert forall|i: int| 0 <= i < model.len() implies #[trigger] list[i] == model[i] by {
        assert(list.take(model.len() as int)[i] == list[i]);
    }
    assert(list.take(learned.len() as int) =~= model.take(learned.len() as int));
    law_proposals(completion.model_candidates@, reading, seq![reading]);
    assert(seq![reading][0]@ == reading@);
}

/// A request describes the engine as it is: generation, reading, context,
/// mode, phase of input and chunks. An explicit request wants as many
/// candidates as the settings say, and an automatic one wants one. What the
/// engine remembers of it is the same.
pub proof fn law_request_describes_the_engine<D, L>(
    engine: InputMethodEngine<D, L>,
    request_kind: AsyncRequestKind,
    skip_learning: bool,
)
    ensures
        ({
            let metadata = engine.metadata(request_kind, skip_learning);
            let snapshot = engine.snapshot(metadata);
            &&& request_kind == AsyncRequestKind::Explicit ==> snapshot.candidate_count
                == engine.config.num_candidates
            &&& request_kind == AsyncRequestKind::AutoSuggest ==> snapshot.candidate_count == 1
            &&& metadata.candidate_count == snapshot.candidate_count
            &&& metadata.request_kind == request_kind
            &&& metadata.skip_learning == skip_learning
            &&& snapshot.request_kind == request_kind
            &&& snapshot.skip_learning == skip_learning
            &&& snapshot.generation == engine.generation
            &&& snapshot.reading@ == engine.input_buf.text@
            &&& snapshot.context@ == engine.context@
            &&& snapshot.mode == engine.mode.current
            &&& snapshot.chunk_cache_epoch == engine.chunk_cache_epoch
            &&& match engine.state {
                InputState::Empty => snapshot.input_state == AsyncInputState::Empty,
                InputState::Composing { .. } => snapshot.input_state
                    == AsyncInputState::Composing,
                InputState::Conversion { .. } => snapshot.input_state
                    == AsyncInputState::Conversion,
            }
        }),
{
}

/// There is something to convert exactly where the input has kana and is not
/// typed as katakana.
pub proof fn law_what_can_be_converted<D, L>(engine: InputMethodEngine<D, L>)
    ensures
        engine.is_convertible() <==> engine.mode.current != InputMode::Katakana && exists|i: int|
            0 <= i < engine.input_buf.text@.len() && ('ぁ' as int
                <= #[trigger] engine.input_buf.text@[i] as int <= 'ゖ' as int || '゠' as int
                <= engine.input_buf.text@[i] as int <= 'ヿ' as int),
{
    law_text_classes(engine.input_buf.text@);
}

/// A completion is accepted exactly if a model made it, the engine waits for a
/// request, and the snapshot agrees with that request and with the engine in
/// every field.
pub proof fn law_what_is_accepted<D, L>(
    engine: InputMethodEngine<D, L>,
    completion: ProposedCompletion,
)
    ensures
        ({
            let snapshot = completion.snapshot;
            engine.accepts(completion) <==> {
                &&& completion.ready
                &&& engine.pending_async_request matches Some(metadata) && {
                    &&& snapshot.request_kind == metadata.request_kind
                    &&& snapshot.candidate_count == metadata.candidate_count
                    &&& snapshot.skip_learning == metadata.skip_learning
                }
                &&& snapshot.generation == engine.generation
                &&& snapshot.reading@ == engine.input_buf.text@
                &&& snapshot.context@ == engine.context@
                &&& snapshot.mode == engine.mode.current
                &&& snapshot.input_state == engine.state.phase()
                &&& snapshot.chunk_cache_epoch == engine.chunk_cache_epoch
            }
        }),
{
}

/// Accepting a completion takes over its measurements and the token count,
/// ends the wait, and changes nothing else. It goes the way of its request.
pub proof fn law_what_accepting_does<D, L>(
    engine: InputMethodEngine<D, L>,
    completion: ProposedCompletion,
)
    ensures
        ({
            let after = engine.accept(completion);
            let measured = completion.metrics;
            &&& after.pending_async_request is None
            &&& after.metrics.conversion_ms == measured.conversion_ms
            &&& after.metrics.model_name@ == measured.model_name@
            &&& after.metrics.adaptive_use_light_model == measured.adaptive_use_light_model
            &&& after.metrics.token_count == measured.token_count
            &&& measured.token_count is None ==> after.converters.kanji is None
            &&& measured.token_count matches Some(n) ==> after.converters.kanji matches Some(
                counter,
            ) && counter.token_count == n
            &&& after == (InputMethodEngine {
                pending_async_request: after.pending_async_request,
                metrics: after.metrics,
                converters: after.converters,
                ..engine
            })
        }),
        completion.snapshot.request_kind == AsyncRequestKind::Explicit ==> accepted(completion)
            == AcceptedCompletion::Explicit(completion),
        completion.snapshot.request_kind == AsyncRequestKind::AutoSuggest ==> accepted(completion)
            == AcceptedCompletion::AutoSuggest(completion),
{
}

/// What the host is told is what it is given: every action in its place, with
/// its text, its list and its selection.
pub proof fn law_actions_reach_the_host(
    result: EngineResult,
    preedit: Preedit,
    list: CandidateList,
    reading: String,
)
    ensures
        result@.consumed == result.consumed,
        result@.actions.len() == result.actions@.len(),
        forall|i: int|
            0 <= i < result.actions@.len() ==> #[trigger] result@.actions[i] == result.actions@[i]@,
        EngineAction::UpdatePreedit(preedit)@ == EngineActionView::UpdatePreedit(preedit@),
        EngineAction::ShowCandidates(list)@ == EngineActionView::ShowCandidates(list@),
        EngineAction::HideCandidates@ == EngineActionView::HideCandidates,
        EngineAction::UpdateAuxText(AuxText::Suggest { reading })@
            == EngineActionView::UpdateAuxText(AuxTextView::Suggest { reading: reading@ }),
        EngineAction::UpdateAuxText(AuxText::Conversion { reading, page: Some(list) })@
            == EngineActionView::UpdateAuxText(
            AuxTextView::Conversion { reading: reading@, page: Some(list@) },
        ),
        EngineAction::UpdateAuxText(AuxText::Conversion { reading, page: None })@
            == EngineActionView::UpdateAuxText(
            AuxTextView::Conversion { reading: reading@, page: None },
        ),
        InputState::Empty@ is Empty,
        (InputState::Composing { preedit })@ == (InputStateView::Composing { preedit: preedit@ }),
        (InputState::Conversion { preedit, candidates: list })@ == (InputStateView::Conversion {
            preedit: preedit@,
            candidates: list@,
        }),
{
}

} // verus!
