//! How an accepted completion changes what the engine shows.

use vstd::prelude::*;

use crate::candidates::{append_candidates_dedup, append_dedup, model_proposals, proposals};
use crate::candidates::{Candidate, CandidateList, CandidateListView};
use crate::conversion::{AsyncRequestKind, InputMode, ProposedCompletion};
use crate::engine::{
    AcceptedCompletion, AuxText, AuxTextView, EngineAction, EngineActionView, EngineResult, EngineResultView,
    InputMethodEngine, InputState, InputStateView,
};
use crate::init::AssetReport;
use crate::preedit::{Preedit, PreeditAttribute, PreeditView};
use crate::worker::{text_view, WorkerState};

verus! {

/// What the engine knows of a reading besides the models.
#[derive(Debug, PartialEq, Eq)]
pub struct AutoSources {
    pub learning: Vec<Candidate>,
    pub dictionary: Vec<Candidate>,
    pub rewriter: Vec<Candidate>,
    /// The usual way to write the reading, if it is a number with a counter.
    pub counter_surface: Option<String>,
}

/// What the engine knows of an explicitly converted reading besides the
/// models.
#[derive(Debug, PartialEq, Eq)]
pub struct ExplicitSources {
    /// Candidates of the dictionaries, which may have been loaded since.
    pub dictionary: Vec<Candidate>,
    /// Whether texts that only differ from the reading in script are unwanted.
    pub filter_script_variants: bool,
    /// The texts that only differ from the reading in script.
    pub script_variants: Vec<String>,
}

/// Candidates to suggest for a reading.
#[derive(Debug, PartialEq, Eq)]
pub struct Suggestions {
    pub reading: String,
    pub candidates: Vec<Candidate>,
}

/// The model candidates of an automatic completion: those that differ from
/// the reading.
pub open spec fn auto_proposals(completion: ProposedCompletion) -> Seq<Candidate> {
    let reading = completion.snapshot.reading;
    proposals(completion.model_candidates@, reading, seq![reading])
}

/// All candidates to suggest: what was learned, then the models, the
/// dictionaries and the rewriters, without repeated texts.
pub open spec fn suggested(completion: ProposedCompletion, sources: AutoSources) -> Seq<Candidate> {
    append_dedup(
        append_dedup(
            append_dedup(sources.learning@, auto_proposals(completion)),
            sources.dictionary@,
        ),
        sources.rewriter@,
    )
}

/// The text of live conversion: the usual way to write a counter, or the
/// first model candidate, or nothing.
pub open spec fn live_text(completion: ProposedCompletion, sources: AutoSources) -> Seq<char> {
    match sources.counter_surface {
        Some(surface) => surface@,
        None => if auto_proposals(completion).len() > 0 {
            auto_proposals(completion)[0].text@
        } else {
            Seq::empty()
        },
    }
}

/// The candidates after an explicit completion: those on offer, then those of
/// the dictionaries and the models, without repeated texts.
pub open spec fn merged_candidates(
    current: Seq<Candidate>,
    completion: ProposedCompletion,
    sources: ExplicitSources,
) -> Seq<Candidate> {
    let dropped = if sources.filter_script_variants {
        sources.script_variants@
    } else {
        Seq::empty()
    };
    append_dedup(
        append_dedup(current, sources.dictionary@),
        proposals(completion.model_candidates@, completion.snapshot.reading, dropped),
    )
}

/// The candidates stand for the same text with the same reading.
pub open spec fn same_entry(a: Candidate, b: Candidate) -> bool {
    a.text@ == b.text@ && text_view(a.reading) == text_view(b.reading)
}

/// The position of the first candidate like this one, or the number of
/// candidates without one.
pub open spec fn entry_index(list: Seq<Candidate>, entry: Candidate) -> int
    decreases list.len(),
{
    if list.len() == 0 || same_entry(list[0], entry) {
        0
    } else {
        1 + entry_index(list.drop_first(), entry)
    }
}

/// The list with the cursor where it was: on the first candidate like the one
/// selected before.
pub open spec fn reselected(list: Seq<Candidate>, selected: Option<Candidate>) -> CandidateListView {
    CandidateListView {
        candidates: list,
        cursor: match selected {
            Some(entry) if entry_index(list, entry) < list.len() => entry_index(list, entry),
            _ => 0,
        },
    }
}

/// The text shown for a converted reading: the selected candidate, or the
/// reading where there is none.
pub open spec fn conversion_preedit(list: CandidateListView, reading: Seq<char>) -> PreeditView {
    match list.selected() {
        Some(candidate) => PreeditView::single(candidate.text@, PreeditAttribute::Highlight),
        None => PreeditView::single(reading, PreeditAttribute::Underline),
    }
}

/// What to show for a converted reading.
pub open spec fn conversion_result(list: CandidateListView, reading: Seq<char>) -> EngineResultView {
    let preedit = EngineActionView::UpdatePreedit(conversion_preedit(list, reading));
    EngineResultView {
        consumed: false,
        actions: match list.selected() {
            Some(candidate) => seq![
                preedit,
                EngineActionView::ShowCandidates(list),
                EngineActionView::UpdateAuxText(
                    AuxTextView::Conversion {
                        reading: match candidate.reading {
                            Some(own) => own@,
                            None => reading,
                        },
                        page: Some(list),
                    },
                ),
            ],
            None => seq![
                preedit,
                EngineActionView::HideCandidates,
                EngineActionView::UpdateAuxText(AuxTextView::Conversion { reading, page: None }),
            ],
        },
    }
}

impl<D, L> InputMethodEngine<D, L> {
    /// Live conversion replaces the text in this mode.
    pub open spec fn converts_live(self) -> bool {
        self.live.enabled && self.mode.current != InputMode::Katakana
    }

    /// Candidates stay hidden while live conversion shows its text.
    pub open spec fn hides_suggestions(self) -> bool {
        self.live.enabled && (self.mode.current == InputMode::Hiragana || self.mode.current
            == InputMode::Alphabet)
    }

    /// What to show for suggestions.
    pub open spec fn suggestion_result(
        self,
        reading: Seq<char>,
        candidates: Seq<Candidate>,
        preedit: PreeditView,
    ) -> EngineResultView {
        EngineResultView {
            consumed: false,
            actions: seq![
                EngineActionView::UpdatePreedit(preedit),
                EngineActionView::UpdateAuxText(AuxTextView::Suggest { reading }),
                if self.hides_suggestions() || candidates.len() == 0 {
                    EngineActionView::HideCandidates
                } else {
                    EngineActionView::ShowCandidates(CandidateListView::fresh(candidates))
                },
            ],
        }
    }
}

impl<D, L> InputMethodEngine<D, L> {
    /// What showing an automatic completion does to the engine, and what it
    /// answers; `render` draws the preedit text of the engine with the new
    /// chunks and live text.
    pub open spec fn shows_suggestions<R: FnOnce(&InputMethodEngine<D, L>) -> Preedit>(
        self,
        completion: ProposedCompletion,
        sources: AutoSources,
        render: R,
        after: Self,
        result: EngineResultView,
    ) -> bool {
        let drawn = InputMethodEngine {
            chunks: completion.chunk_cache,
            live: after.live,
            ..self
        };
        &&& after == (InputMethodEngine { state: after.state, ..drawn })
        &&& after.live.enabled == self.live.enabled
        &&& after.live.text@ == if self.converts_live() {
            live_text(completion, sources)
        } else {
            self.live.text@
        }
        &&& exists|preedit: Preedit| #[trigger]
            render.ensures((&drawn,), preedit) && after.state@ == (InputStateView::Composing {
                preedit: preedit@,
            }) && result == drawn.suggestion_result(
                completion.snapshot.reading@,
                suggested(completion, sources),
                preedit@,
            )
    }

    /// What merging an explicit completion does to the engine, and what it
    /// answers. The selected candidate stays selected; outside of conversion
    /// nothing happens.
    pub open spec fn shows_conversion(
        self,
        completion: ProposedCompletion,
        sources: ExplicitSources,
        after: Self,
        result: EngineResultView,
    ) -> bool {
        &&& after == (InputMethodEngine { state: after.state, ..self })
        &&& match self.state@ {
            InputStateView::Conversion { candidates, .. } => {
                let list = reselected(
                    merged_candidates(candidates.candidates, completion, sources),
                    candidates.selected(),
                );
                let reading = completion.snapshot.reading@;
                &&& after.state@ == (InputStateView::Conversion {
                    preedit: conversion_preedit(list, reading),
                    candidates: list,
                })
                &&& result == conversion_result(list, reading)
            },
            _ => {
                &&& after == self
                &&& result == (EngineResultView { consumed: false, actions: Seq::empty() })
            },
        }
    }
}

proof fn lemma_entry_index_unique(list: Seq<Candidate>, entry: Candidate, i: int)
    requires
        0 <= i <= list.len(),
        i < list.len() ==> same_entry(list[i], entry),
        forall|k: int| 0 <= k < i ==> !same_entry(#[trigger] list[k], entry),
    ensures
        entry_index(list, entry) == i,
    decreases list.len(),
{
    if i > 0 {
        let rest = list.drop_first();
        assert(!same_entry(list[0], entry));
        assert forall|k: int| 0 <= k < i - 1 implies !same_entry(#[trigger] rest[k], entry) by {
            assert(rest[k] == list[k + 1]);
        }
        lemma_entry_index_unique(rest, entry, i - 1);
    }
}

/// Whether two readings are the same.
fn same_reading(a: &Option<String>, b: &Option<String>) -> (r: bool)
    ensures
        r == (text_view(*a) == text_view(*b)),
{
    match (a, b) {
        (Some(a), Some(b)) => *a == *b,
        (None, None) => true,
        _ => false,
    }
}

/// The position of the first candidate like this one.
fn find_entry(list: &Vec<Candidate>, entry: &Candidate) -> (r: usize)
    ensures
        r == entry_index(list@, *entry),
        r <= list@.len(),
{
    let mut i: usize = 0;
    while i < list.len() && !(list[i].text == entry.text && same_reading(
        &list[i].reading,
        &entry.reading,
    ))
        invariant
            i <= list@.len(),
            forall|k: int| 0 <= k < i ==> !same_entry(#[trigger] list@[k], *entry),
        decreases list@.len() - i,
    {
        i = i + 1;
    }
    proof {
        lemma_entry_index_unique(list@, *entry, i as int);
    }
    i
}

impl<D, L> InputMethodEngine<D, L> {
    /// Takes over the converted chunks and the live text of an automatic
    /// completion, and collects the candidates to suggest.
    pub fn collect_suggestions(
        &mut self,
        completion: ProposedCompletion,
        sources: AutoSources,
    ) -> (r: Suggestions)
        ensures
            r.reading == completion.snapshot.reading,
            r.candidates@ == suggested(completion, sources),
            *final(self) == (InputMethodEngine {
                chunks: completion.chunk_cache,
                live: final(self).live,
                ..*old(self)
            }),
            final(self).live.enabled == old(self).live.enabled,
            final(self).live.text@ == if old(self).converts_live() {
                live_text(completion, sources)
            } else {
                old(self).live.text@
            },
    {
        self.chunks = completion.chunk_cache;
        let reading = completion.snapshot.reading;
        let mut dropped: Vec<String> = Vec::new();
        dropped.push(reading.clone());
        proof {
            assert(dropped@ =~= seq![reading]);
        }
        let model_candidates = model_proposals(completion.model_candidates, &reading, &dropped);
        if self.live.enabled && self.mode.current() != InputMode::Katakana {
            self.live.text = match sources.counter_surface {
                Some(surface) => surface,
                None => if model_candidates.len() > 0 {
                    model_candidates[0].text.clone()
                } else {
                    String::new()
                },
            };
        }
        let mut candidates = sources.learning;
        append_candidates_dedup(&mut candidates, model_candidates);
        append_candidates_dedup(&mut candidates, sources.dictionary);
        append_candidates_dedup(&mut candidates, sources.rewriter);
        Suggestions { reading, candidates }
    }

    /// Goes on composing with this preedit text and shows the suggestions.
    pub fn present_suggestions(&mut self, suggestions: Suggestions, preedit: Preedit) -> (r:
        EngineResult)
        ensures
            r@ == old(self).suggestion_result(
                suggestions.reading@,
                suggestions.candidates@,
                preedit@,
            ),
            final(self).state@ == (InputStateView::Composing { preedit: preedit@ }),
            *final(self) == (InputMethodEngine { state: final(self).state, ..*old(self) }),
    {
        let hidden: bool = self.live.enabled && (match self.mode.current() {
            InputMode::Hiragana | InputMode::Alphabet => true,
            _ => false,
        });
        let shown = if hidden || suggestions.candidates.len() == 0 {
            EngineAction::HideCandidates
        } else {
            EngineAction::ShowCandidates(CandidateList::new(suggestions.candidates))
        };
        self.state = InputState::Composing { preedit: preedit.clone() };
        EngineResult::not_consumed().with_action(EngineAction::UpdatePreedit(preedit)).with_action(
            EngineAction::UpdateAuxText(AuxText::Suggest { reading: suggestions.reading }),
        ).with_action(shown)
    }

    /// Shows an automatic completion; `render` draws the preedit text of the
    /// engine with the new chunks and live text.
    pub fn apply_auto_completion<R: FnOnce(&InputMethodEngine<D, L>) -> Preedit>(
        &mut self,
        completion: ProposedCompletion,
        sources: AutoSources,
        render: R,
    ) -> (r: EngineResult)
        requires
            forall|engine: &InputMethodEngine<D, L>| #[trigger] render.requires((engine,)),
        ensures
            old(self).shows_suggestions(completion, sources, render, *final(self), r@),
    {
        let suggestions = self.collect_suggestions(completion, sources);
        let preedit = render(&*self);
        self.present_suggestions(suggestions, preedit)
    }

    /// Merges an explicit completion into the candidates on offer. The
    /// selected candidate stays selected. Outside of conversion nothing
    /// happens.
    pub fn apply_explicit_completion(
        &mut self,
        completion: ProposedCompletion,
        sources: ExplicitSources,
    ) -> (r: EngineResult)
        ensures
            old(self).shows_conversion(completion, sources, *final(self), r@),
    {
        let current = match self.state.candidates() {
            Some(list) => list.clone(),
            None => {
                return EngineResult::not_consumed();
            },
        };
        let mut candidates = current.candidates().clone();
        proof {
            assert(candidates@ =~= current@.candidates);
        }
        let dropped: Vec<String> = if sources.filter_script_variants {
            sources.script_variants
        } else {
            Vec::new()
        };
        let reading = completion.snapshot.reading;
        append_candidates_dedup(&mut candidates, sources.dictionary);
        append_candidates_dedup(
            &mut candidates,
            model_proposals(completion.model_candidates, &reading, &dropped),
        );
        let mut updated = CandidateList::new(candidates);
        if let Some(selected) = current.selected() {
            let index: usize = find_entry(updated.candidates(), selected);
            let _found: bool = updated.select(index);
        }
        let (preedit, shown, aux) = match updated.selected() {
            None => (
                Preedit::with_text_underlined(reading.as_str()),
                EngineAction::HideCandidates,
                AuxText::Conversion { reading, page: None },
            ),
            Some(selected) => (
                Preedit::with_text_highlighted(selected.text.as_str()),
                EngineAction::ShowCandidates(updated.clone()),
                AuxText::Conversion {
                    reading: match &selected.reading {
                        Some(own) => own.clone(),
                        None => reading,
                    },
                    page: Some(updated.clone()),
                },
            ),
        };
        self.state = InputState::Conversion { preedit: preedit.clone(), candidates: updated };
        let r = EngineResult::not_consumed().with_action(
            EngineAction::UpdatePreedit(preedit),
        ).with_action(shown).with_action(EngineAction::UpdateAuxText(aux));
        proof {
            assert(r@ =~= conversion_result(updated@, completion.snapshot.reading@));
        }
        r
    }

    /// Collects loaded assets and a completion, without waiting, and shows the
    /// completion. It is shown only if a model made it and every field of its
    /// snapshot still describes the engine. `known` and `offered` look up what
    /// else is known of the reading, and `render` draws the composing text.
    pub fn poll_async_conversion<
        A: FnOnce(&InputMethodEngine<D, L>, &ProposedCompletion) -> AutoSources,
        E: FnOnce(&InputMethodEngine<D, L>, &ProposedCompletion) -> ExplicitSources,
        R: FnOnce(&InputMethodEngine<D, L>) -> Preedit,
    >(
        &mut self,
        worker: &mut WorkerState,
        report: &mut AssetReport<D, L>,
        known: A,
        offered: E,
        render: R,
    ) -> (r: Option<EngineResult>)
        requires
            forall|engine: &InputMethodEngine<D, L>, completion: &ProposedCompletion| #[trigger]
                known.requires((engine, completion)),
            forall|engine: &InputMethodEngine<D, L>, completion: &ProposedCompletion| #[trigger]
                offered.requires((engine, completion)),
            forall|engine: &InputMethodEngine<D, L>| #[trigger] render.requires((engine,)),
        ensures
            final(worker)@ == old(worker)@.after_poll(),
            *final(report) == old(self).report_left(*old(report)),
            r matches Some(result) ==> !result.consumed,
            r is Some ==> final(self).pending_async_request is None,
            ({
                let polled = old(self).after_assets(*old(report));
                match old(worker)@.completion {
                    Some(completion) if polled.accepts(completion) => {
                        let accepting = polled.accept(completion);
                        r matches Some(result) && match completion.snapshot.request_kind {
                            AsyncRequestKind::AutoSuggest => exists|sources: AutoSources|
                                #[trigger]
                                known.ensures((&accepting, &completion), sources)
                                    && accepting.shows_suggestions(
                                    completion,
                                    sources,
                                    render,
                                    *final(self),
                                    result@,
                                ),
                            AsyncRequestKind::Explicit => exists|sources: ExplicitSources|
                                #[trigger]
                                offered.ensures((&accepting, &completion), sources)
                                    && accepting.shows_conversion(
                                    completion,
                                    sources,
                                    *final(self),
                                    result@,
                                ),
                        }
                    },
                    _ => {
                        &&& r is None
                        &&& *final(self) == polled
                    },
                }
            }),
    {
        match self.poll_completion(worker, report) {
            None => None,
            Some(AcceptedCompletion::AutoSuggest(completion)) => {
                let sources = known(&*self, &completion);
                Some(self.apply_auto_completion(completion, sources, render))
            },
            Some(AcceptedCompletion::Explicit(completion)) => {
                let sources = offered(&*self, &completion);
                Some(self.apply_explicit_completion(completion, sources))
            },
        }
    }
}

} // verus!
