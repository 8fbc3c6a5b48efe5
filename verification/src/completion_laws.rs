//! What an accepted completion shows, and what it leaves out.

use vstd::prelude::*;

use crate::candidates::{append_dedup, has_text, holds_text, law_append_dedup, law_proposals};
use crate::candidates::{proposals, Candidate, CandidateListView, CandidateSource};
use crate::completion::{
    auto_proposals, conversion_preedit, conversion_result, live_text, merged_candidates,
    reselected, same_entry, suggested,
};
use crate::completion::{AutoSources, ExplicitSources};
use crate::conversion::{InputMode, ProposedCompletion};
use crate::engine::{
    AuxTextView, EngineActionView, EngineResultView, InputMethodEngine, InputStateView,
};
use crate::preedit::{Preedit, PreeditAttribute, PreeditView};

verus! {

/// The candidates that both lists have at the start, and what the longer one
/// has behind them.
proof fn lemma_appended(target: Seq<Candidate>, source: Seq<Candidate>)
    ensures
        ({
            let list = append_dedup(target, source);
            &&& target.len() <= list.len()
            &&& forall|k: int| 0 <= k < target.len() ==> #[trigger] list[k] == target[k]
            &&& forall|k: int|
                target.len() <= k < list.len() ==> source.contains(#[trigger] list[k])
            &&& forall|text: Seq<char>|
                has_text(target, text) || has_text(source, text) ==> #[trigger] has_text(list, text)
        }),
{
    law_append_dedup(target, source);
    let list = append_dedup(target, source);
    assert forall|k: int| 0 <= k < target.len() implies #[trigger] list[k] == target[k] by {
        assert(list.take(target.len() as int)[k] == list[k]);
    }
    assert forall|text: Seq<char>|
        has_text(target, text) || has_text(source, text) implies #[trigger] has_text(
        list,
        text,
    ) by {
        if has_text(target, text) {
            let k = choose|k: int| 0 <= k < target.len() && (#[trigger] target[k]).text@ == text;
            assert(list[k].text@ == text);
        } else {
            let k = choose|k: int| 0 <= k < source.len() && (#[trigger] source[k]).text@ == text;
            assert(has_text(list, source[k].text@));
        }
    }
}

/// The candidate was proposed by the models for this reading: it has one of
/// their texts, the reading, and no description.
pub open spec fn is_proposed(
    candidate: Candidate,
    completion: ProposedCompletion,
) -> bool {
    &&& completion.model_candidates@.contains(candidate.text)
    &&& candidate.reading == Some(completion.snapshot.reading)
    &&& candidate.source == Some(CandidateSource::Model)
    &&& candidate.description is None
}

/// Whatever the models proposed, every learned candidate, every text of theirs
/// other than the reading, and every candidate of the dictionaries and the
/// rewriters is suggested.
pub proof fn law_every_source_is_suggested(completion: ProposedCompletion, sources: AutoSources)
    ensures
        ({
            let list = suggested(completion, sources);
            let texts = completion.model_candidates@;
            &&& forall|i: int|
                0 <= i < sources.learning@.len() ==> exists|k: int|
                    0 <= k < list.len() && (#[trigger] list[k]).text@ == (
                    #[trigger] sources.learning@[i]).text@
            &&& forall|i: int|
                0 <= i < texts.len() && (#[trigger] texts[i])@ != completion.snapshot.reading@
                    ==> exists|k: int|
                    0 <= k < list.len() && (#[trigger] list[k]).text@ == texts[i]@
            &&& forall|i: int|
                0 <= i < sources.dictionary@.len() ==> exists|k: int|
                    0 <= k < list.len() && (#[trigger] list[k]).text@ == (
                    #[trigger] sources.dictionary@[i]).text@
            &&& forall|i: int|
                0 <= i < sources.rewriter@.len() ==> exists|k: int|
                    0 <= k < list.len() && (#[trigger] list[k]).text@ == (
                    #[trigger] sources.rewriter@[i]).text@
        }),
{
    let reading = completion.snapshot.reading;
    let texts = completion.model_candidates@;
    let model = auto_proposals(completion);
    let a = append_dedup(sources.learning@, model);
    let b = append_dedup(a, sources.dictionary@);
    let list = suggested(completion, sources);
    lemma_appended(sources.learning@, model);
    lemma_appended(a, sources.dictionary@);
    lemma_appended(b, sources.rewriter@);
    law_proposals(texts, reading, seq![reading]);
    assert forall|i: int| 0 <= i < sources.learning@.len() implies exists|k: int|
        0 <= k < list.len() && (#[trigger] list[k]).text@ == (
        #[trigger] sources.learning@[i]).text@ by {
        let text = sources.learning@[i].text@;
        assert(has_text(sources.learning@, text));
        assert(has_text(a, text) && has_text(b, text) && has_text(list, text));
    }
    assert forall|i: int| 0 <= i < texts.len() && (#[trigger] texts[i])@ != reading@ implies exists|
        k: int,
    |
        0 <= k < list.len() && (#[trigger] list[k]).text@ == texts[i]@ by {
        let text = texts[i]@;
        assert(!holds_text(seq![reading], text));
        assert(has_text(model, text));
        assert(has_text(a, text) && has_text(b, text) && has_text(list, text));
    }
    assert forall|i: int| 0 <= i < sources.dictionary@.len() implies exists|k: int|
        0 <= k < list.len() && (#[trigger] list[k]).text@ == (
        #[trigger] sources.dictionary@[i]).text@ by {
        let text = sources.dictionary@[i].text@;
        assert(has_text(sources.dictionary@, text));
        assert(has_text(b, text) && has_text(list, text));
    }
    assert forall|i: int| 0 <= i < sources.rewriter@.len() implies exists|k: int|
        0 <= k < list.len() && (#[trigger] list[k]).text@ == (
        #[trigger] sources.rewriter@[i]).text@ by {
        let text = sources.rewriter@[i].text@;
        assert(has_text(sources.rewriter@, text));
        assert(has_text(list, text));
    }
}

/// Nothing else is suggested. What was learned comes first, then what the
/// models proposed other than the reading, then the dictionaries, then the
/// rewriters: there are places in the list where one source ends and the next
/// begins.
pub proof fn law_suggestions_come_source_by_source(
    completion: ProposedCompletion,
    sources: AutoSources,
)
    ensures
        ({
            let list = suggested(completion, sources);
            let learned = sources.learning@.len() as int;
            exists|model: int, dictionary: int|
                #![trigger list.subrange(model, dictionary)]
                {
                    &&& learned <= model <= dictionary <= list.len()
                    &&& forall|k: int|
                        0 <= k < learned ==> #[trigger] list[k] == sources.learning@[k]
                    &&& forall|k: int|
                        learned <= k < model ==> {
                            &&& is_proposed(#[trigger] list[k], completion)
                            &&& list[k].text@ != completion.snapshot.reading@
                        }
                    &&& forall|k: int|
                        model <= k < dictionary ==> sources.dictionary@.contains(#[trigger] list[k])
                    &&& forall|k: int|
                        dictionary <= k < list.len() ==> sources.rewriter@.contains(
                            #[trigger] list[k],
                        )
                }
        }),
{
    let reading = completion.snapshot.reading;
    let texts = completion.model_candidates@;
    let proposed = auto_proposals(completion);
    let learned = sources.learning@;
    let a = append_dedup(learned, proposed);
    let b = append_dedup(a, sources.dictionary@);
    let list = suggested(completion, sources);
    lemma_appended(learned, proposed);
    lemma_appended(a, sources.dictionary@);
    lemma_appended(b, sources.rewriter@);
    law_proposals(texts, reading, seq![reading]);
    assert forall|k: int| 0 <= k < learned.len() implies #[trigger] list[k] == learned[k] by {
        assert(list[k] == b[k] && b[k] == a[k]);
    }
    assert forall|k: int| learned.len() <= k < a.len() implies {
        &&& is_proposed(#[trigger] list[k], completion)
        &&& list[k].text@ != reading@
    } by {
        assert(list[k] == b[k] && b[k] == a[k]);
        let m = choose|m: int| 0 <= m < proposed.len() && proposed[m] == a[k];
        assert(proposed[m].source == Some(CandidateSource::Model));
        assert(seq![reading][0]@ == reading@);
    }
    assert forall|k: int| a.len() <= k < b.len() implies sources.dictionary@.contains(
        #[trigger] list[k],
    ) by {
        assert(list[k] == b[k]);
    }
    let part = list.subrange(a.len() as int, b.len() as int);
}

/// The live text is the usual way to write a counter, if there is one.
/// Otherwise it is the first text of the models that is not the reading, and
/// nothing where there is none.
pub proof fn law_live_text(completion: ProposedCompletion, sources: AutoSources, i: int)
    ensures
        sources.counter_surface matches Some(surface) ==> live_text(completion, sources)
            == surface@,
        ({
            let texts = completion.model_candidates@;
            let reading = completion.snapshot.reading@;
            sources.counter_surface is None ==> {
                &&& 0 <= i < texts.len() && texts[i]@ != reading && (forall|k: int|
                    0 <= k < i ==> (#[trigger] texts[k])@ == reading) ==> live_text(
                    completion,
                    sources,
                ) == texts[i]@
                &&& (forall|k: int| 0 <= k < texts.len() ==> (#[trigger] texts[k])@ == reading)
                    ==> live_text(completion, sources).len() == 0
            }
        }),
{
    let texts = completion.model_candidates@;
    let reading = completion.snapshot.reading;
    law_proposals(texts, reading, seq![reading]);
    assert(seq![reading][0]@ == reading@);
    if sources.counter_surface is None {
        if forall|k: int| 0 <= k < texts.len() ==> (#[trigger] texts[k])@ == reading@ {
            let list = auto_proposals(completion);
            if list.len() > 0 {
                assert(texts.contains(list[0].text));
                let k = choose|k: int| 0 <= k < texts.len() && texts[k] == list[0].text;
                assert(texts[k]@ == reading@);
            }
        }
        if 0 <= i < texts.len() && texts[i]@ != reading@ && (forall|k: int|
            0 <= k < i ==> (#[trigger] texts[k])@ == reading@) {
            lemma_first_proposal(texts, reading, i);
        }
    }
}

proof fn lemma_first_proposal(texts: Seq<String>, reading: String, i: int)
    requires
        0 <= i < texts.len(),
        texts[i]@ != reading@,
        forall|k: int| 0 <= k < i ==> (#[trigger] texts[k])@ == reading@,
    ensures
        proposals(texts, reading, seq![reading]).len() > 0,
        proposals(texts, reading, seq![reading])[0].text == texts[i],
    decreases texts.len(),
{
    let rest = texts.drop_last();
    assert(seq![reading][0]@ == reading@);
    if i < rest.len() {
        assert(rest[i] == texts[i]);
        assert forall|k: int| 0 <= k < i implies (#[trigger] rest[k])@ == reading@ by {
            assert(rest[k] == texts[k]);
        }
        lemma_first_proposal(rest, reading, i);
    } else {
        let before = proposals(rest, reading, seq![reading]);
        law_proposals(rest, reading, seq![reading]);
        if before.len() > 0 {
            assert(rest.contains(before[0].text));
            let k = choose|k: int| 0 <= k < rest.len() && rest[k] == before[0].text;
            assert(texts[k]@ == reading@);
        }
        assert(before =~= Seq::empty());
        assert(!holds_text(seq![reading], texts.last()@));
    }
}

/// What an explicit completion adds behind the candidates on offer comes from
/// the dictionaries, and behind these from the models. No text that only
/// differs from the reading in script is added by the models where such texts
/// are filtered out.
pub proof fn law_filtered_texts_are_not_added(
    current: Seq<Candidate>,
    completion: ProposedCompletion,
    sources: ExplicitSources,
)
    ensures
        ({
            let list = merged_candidates(current, completion, sources);
            let variants = sources.script_variants@;
            exists|model: int|
                #![trigger list.take(model)]
                {
                    &&& current.len() <= model <= list.len()
                    &&& forall|k: int| 0 <= k < current.len() ==> #[trigger] list[k] == current[k]
                    &&& forall|k: int|
                        current.len() <= k < model ==> sources.dictionary@.contains(
                            #[trigger] list[k],
                        )
                    &&& forall|k: int|
                        model <= k < list.len() ==> is_proposed(#[trigger] list[k], completion)
                    &&& sources.filter_script_variants ==> forall|k: int, v: int|
                        model <= k < list.len() && 0 <= v < variants.len() ==> (
                        #[trigger] list[k]).text@ != (#[trigger] variants[v])@
                }
        }),
{
    let list = merged_candidates(current, completion, sources);
    let variants = sources.script_variants@;
    let dropped = if sources.filter_script_variants {
        variants
    } else {
        Seq::empty()
    };
    let texts = completion.model_candidates@;
    let reading = completion.snapshot.reading;
    let proposed = proposals(texts, reading, dropped);
    let known = append_dedup(current, sources.dictionary@);
    lemma_appended(current, sources.dictionary@);
    lemma_appended(known, proposed);
    law_proposals(texts, reading, dropped);
    assert forall|k: int| 0 <= k < current.len() implies #[trigger] list[k] == current[k] by {
        assert(list[k] == known[k]);
    }
    assert forall|k: int| current.len() <= k < known.len() implies sources.dictionary@.contains(
        #[trigger] list[k],
    ) by {
        assert(list[k] == known[k]);
    }
    assert forall|k: int| known.len() <= k < list.len() implies is_proposed(
        #[trigger] list[k],
        completion,
    ) && !holds_text(dropped, list[k].text@) by {
        let m = choose|m: int| 0 <= m < proposed.len() && proposed[m] == list[k];
        assert(proposed[m].source == Some(CandidateSource::Model));
    }
    let part = list.take(known.len() as int);
}

/// The selected candidate stays selected, or the first one is where nothing
/// was selected. Candidates are the same entry if text and reading are.
pub proof fn law_selection(list: Seq<Candidate>, selected: Option<Candidate>, a: Candidate, b: Candidate)
    ensures
        reselected(list, selected).candidates == list,
        selected is None ==> reselected(list, selected).cursor == 0,
        same_entry(a, b) <==> {
            &&& a.text@ == b.text@
            &&& match (a.reading, b.reading) {
                (Some(x), Some(y)) => x@ == y@,
                (None, None) => true,
                _ => false,
            }
        },
{
}

/// A conversion with candidates shows the selected text highlighted, the list,
/// and the reading of the selected candidate, or else that of the request.
/// Without candidates it shows the reading underlined and no list.
pub proof fn law_what_a_conversion_shows(list: CandidateListView, reading: Seq<char>)
    requires
        list.cursor_in_range(),
    ensures
        ({
            let shown = conversion_result(list, reading);
            let preedit = conversion_preedit(list, reading);
            &&& !shown.consumed
            &&& shown.actions.len() == 3
            &&& shown.actions[0] == EngineActionView::UpdatePreedit(preedit)
            &&& list.candidates.len() == 0 ==> {
                &&& preedit == PreeditView::single(reading, PreeditAttribute::Underline)
                &&& shown.actions[1] is HideCandidates
                &&& shown.actions[2] == EngineActionView::UpdateAuxText(
                    AuxTextView::Conversion { reading, page: None },
                )
            }
            &&& list.candidates.len() > 0 ==> {
                let selected = list.candidates[list.cursor];
                &&& preedit == PreeditView::single(selected.text@, PreeditAttribute::Highlight)
                &&& shown.actions[1] == EngineActionView::ShowCandidates(list)
                &&& shown.actions[2] == EngineActionView::UpdateAuxText(
                    AuxTextView::Conversion {
                        reading: if selected.reading is Some {
                            selected.reading->0@
                        } else {
                            reading
                        },
                        page: Some(list),
                    },
                )
            }
        }),
{
}

/// Suggestions show the preedit text and the reading. Candidates are shown if
/// there are any, unless live conversion shows its text in hiragana or
/// alphabet mode.
pub proof fn law_what_suggestions_show<D, L>(
    engine: InputMethodEngine<D, L>,
    reading: Seq<char>,
    candidates: Seq<Candidate>,
    preedit: PreeditView,
)
    ensures
        ({
            let shown = engine.suggestion_result(reading, candidates, preedit);
            let live = engine.live.enabled && (engine.mode.current == InputMode::Hiragana
                || engine.mode.current == InputMode::Alphabet);
            &&& !shown.consumed
            &&& shown.actions.len() == 3
            &&& shown.actions[0] == EngineActionView::UpdatePreedit(preedit)
            &&& shown.actions[1] == EngineActionView::UpdateAuxText(
                AuxTextView::Suggest { reading },
            )
            &&& candidates.len() == 0 || live ==> shown.actions[2] is HideCandidates
            &&& candidates.len() > 0 && !live ==> shown.actions[2]
                == EngineActionView::ShowCandidates(CandidateListView { candidates, cursor: 0 })
        }),
{
}

/// Showing an automatic completion takes over its chunks. It changes the live
/// text only where live conversion is on, outside of katakana mode. The input
/// stays in composition, with the preedit text that was drawn for it, and the
/// suggestions are shown. Nothing else changes.
pub proof fn law_showing_suggestions<D, L, R: FnOnce(&InputMethodEngine<D, L>) -> Preedit>(
    engine: InputMethodEngine<D, L>,
    completion: ProposedCompletion,
    sources: AutoSources,
    render: R,
    after: InputMethodEngine<D, L>,
    result: EngineResultView,
)
    requires
        engine.shows_suggestions(completion, sources, render, after, result),
    ensures
        after.chunks == completion.chunk_cache,
        after.live.enabled == engine.live.enabled,
        engine.live.enabled && engine.mode.current != InputMode::Katakana ==> after.live.text@
            == live_text(completion, sources),
        !engine.live.enabled || engine.mode.current == InputMode::Katakana ==> after.live.text@
            == engine.live.text@,
        after.state@ matches InputStateView::Composing { preedit } && result
            == engine.suggestion_result(
            completion.snapshot.reading@,
            suggested(completion, sources),
            preedit,
        ),
        exists|preedit: Preedit| #[trigger]
            render.ensures(
                (&InputMethodEngine { state: engine.state, ..after },),
                preedit,
            ) && after.state@ == (InputStateView::Composing { preedit: preedit@ }),
        after == (InputMethodEngine {
            chunks: after.chunks,
            live: after.live,
            state: after.state,
            ..engine
        }),
{
    let drawn = InputMethodEngine { chunks: completion.chunk_cache, live: after.live, ..engine };
    assert(drawn == InputMethodEngine { state: engine.state, ..after });
    let preedit = choose|preedit: Preedit| #[trigger]
        render.ensures((&drawn,), preedit) && after.state@ == (InputStateView::Composing {
            preedit: preedit@,
        }) && result == drawn.suggestion_result(
            completion.snapshot.reading@,
            suggested(completion, sources),
            preedit@,
        );
    law_what_suggestions_show(
        engine,
        completion.snapshot.reading@,
        suggested(completion, sources),
        preedit@,
    );
    law_what_suggestions_show(
        drawn,
        completion.snapshot.reading@,
        suggested(completion, sources),
        preedit@,
    );
    assert(result =~= engine.suggestion_result(
        completion.snapshot.reading@,
        suggested(completion, sources),
        preedit@,
    ));
}

/// Showing an explicit completion changes only the candidates on offer and
/// the preedit text, and only in conversion: the merged list with the same
/// selection, shown as a conversion is.
pub proof fn law_showing_a_conversion<D, L>(
    engine: InputMethodEngine<D, L>,
    completion: ProposedCompletion,
    sources: ExplicitSources,
    after: InputMethodEngine<D, L>,
    result: EngineResultView,
)
    requires
        engine.shows_conversion(completion, sources, after, result),
    ensures
        after == (InputMethodEngine { state: after.state, ..engine }),
        !result.consumed,
        engine.state@ matches InputStateView::Conversion { candidates, .. } ==> {
            &&& after.state@ matches InputStateView::Conversion { preedit, candidates: list } && {
                &&& list.candidates == merged_candidates(
                    candidates.candidates,
                    completion,
                    sources,
                )
                &&& list == reselected(list.candidates, candidates.selected())
                &&& preedit == conversion_preedit(list, completion.snapshot.reading@)
                &&& result == conversion_result(list, completion.snapshot.reading@)
            }
        },
        !(engine.state@ is Conversion) ==> after == engine && result.actions.len() == 0,
{
}

/// The list has one more candidate, at its end, unless one with its text is
/// there already.
pub open spec fn takes_one_more(
    before: Seq<Candidate>,
    one: Candidate,
    after: Seq<Candidate>,
) -> bool {
    if exists|k: int| 0 <= k < before.len() && (#[trigger] before[k]).text@ == one.text@ {
        after == before
    } else {
        after == before.push(one)
    }
}

/// Candidates are merged in the order in which they come. Without any, those
/// on offer stay alone. One more of the dictionaries, while the models have
/// none, goes to the end if its text is new. One more text of the models goes
/// to the end if it is new and not filtered out.
pub proof fn law_merging_one_more(
    current: Seq<Candidate>,
    completion: ProposedCompletion,
    longer: ProposedCompletion,
    text: String,
    sources: ExplicitSources,
    more: ExplicitSources,
    one: Candidate,
)
    requires
        longer.snapshot == completion.snapshot,
        longer.model_candidates@ == completion.model_candidates@.push(text),
        more.dictionary@ == sources.dictionary@.push(one),
    ensures
        completion.model_candidates@.len() == 0 && sources.dictionary@.len() == 0
            ==> merged_candidates(current, completion, sources) == current,
        completion.model_candidates@.len() == 0 ==> takes_one_more(
            merged_candidates(current, completion, sources),
            one,
            merged_candidates(current, completion, more),
        ),
        sources.filter_script_variants && (exists|v: int|
            0 <= v < sources.script_variants@.len() && (#[trigger] sources.script_variants@[v])@
                == text@) ==> merged_candidates(current, longer, sources) == merged_candidates(
            current,
            completion,
            sources,
        ),
        !(sources.filter_script_variants && (exists|v: int|
            0 <= v < sources.script_variants@.len() && (#[trigger] sources.script_variants@[v])@
                == text@)) ==> takes_one_more(
            merged_candidates(current, completion, sources),
            Candidate {
                text,
                reading: Some(completion.snapshot.reading),
                source: Some(CandidateSource::Model),
                description: None,
            },
            merged_candidates(current, longer, sources),
        ),
{
    let dropped = if sources.filter_script_variants {
        sources.script_variants@
    } else {
        Seq::empty()
    };
    let texts = completion.model_candidates@;
    let reading = completion.snapshot.reading;
    let proposed = proposals(texts, reading, dropped);
    assert(texts.push(text).drop_last() =~= texts);
    assert(texts.push(text).last() == text);
    assert(sources.dictionary@.push(one).drop_last() =~= sources.dictionary@);
    assert(sources.dictionary@.push(one).last() == one);
    if holds_text(dropped, text@) {
        assert(proposals(texts.push(text), reading, dropped) == proposed);
    } else {
        let candidate = Candidate {
            text,
            reading: Some(reading),
            source: Some(CandidateSource::Model),
            description: None,
        };
        let longer_list = proposals(texts.push(text), reading, dropped);
        assert(longer_list =~= proposed.push(candidate));
        assert(longer_list.drop_last() =~= proposed);
        assert(longer_list.last() == candidate);
    }
    if texts.len() == 0 {
        assert(proposed.len() == 0);
    }
}

/// Suggestions are collected in the order in which they come: one more of the
/// rewriters goes to the end if its text is new; so does one of the
/// dictionaries while the rewriters have none, and one text of the models
/// other than the reading while the dictionaries have none either. What was
/// learned is suggested as it is.
pub proof fn law_suggesting_one_more(
    completion: ProposedCompletion,
    longer: ProposedCompletion,
    text: String,
    sources: AutoSources,
    rewritten: AutoSources,
    looked_up: AutoSources,
    one: Candidate,
)
    requires
        longer.snapshot == completion.snapshot,
        longer.model_candidates@ == completion.model_candidates@.push(text),
        rewritten.learning@ == sources.learning@,
        rewritten.dictionary@ == sources.dictionary@,
        rewritten.rewriter@ == sources.rewriter@.push(one),
        looked_up.learning@ == sources.learning@,
        looked_up.dictionary@ == sources.dictionary@.push(one),
        looked_up.rewriter@ == sources.rewriter@,
    ensures
        takes_one_more(suggested(completion, sources), one, suggested(completion, rewritten)),
        sources.rewriter@.len() == 0 ==> takes_one_more(
            suggested(completion, sources),
            one,
            suggested(completion, looked_up),
        ),
        sources.rewriter@.len() == 0 && sources.dictionary@.len() == 0 ==> {
            &&& text@ == completion.snapshot.reading@ ==> suggested(longer, sources) == suggested(
                completion,
                sources,
            )
            &&& text@ != completion.snapshot.reading@ ==> takes_one_more(
                suggested(completion, sources),
                Candidate {
                    text,
                    reading: Some(completion.snapshot.reading),
                    source: Some(CandidateSource::Model),
                    description: None,
                },
                suggested(longer, sources),
            )
            &&& completion.model_candidates@.len() == 0 ==> suggested(completion, sources)
                == sources.learning@
        },
{
    let texts = completion.model_candidates@;
    let reading = completion.snapshot.reading;
    let proposed = auto_proposals(completion);
    assert(sources.rewriter@.push(one).drop_last() =~= sources.rewriter@);
    assert(sources.rewriter@.push(one).last() == one);
    assert(sources.dictionary@.push(one).drop_last() =~= sources.dictionary@);
    assert(sources.dictionary@.push(one).last() == one);
    assert(texts.push(text).drop_last() =~= texts);
    assert(texts.push(text).last() == text);
    assert(seq![reading][0]@ == reading@);
    if text@ == reading@ {
        assert(holds_text(seq![reading], text@));
        assert(auto_proposals(longer) == proposed);
    } else {
        let candidate = Candidate {
            text,
            reading: Some(reading),
            source: Some(CandidateSource::Model),
            description: None,
        };
        assert(!holds_text(seq![reading], text@));
        assert(auto_proposals(longer) =~= proposed.push(candidate));
        assert(auto_proposals(longer).drop_last() =~= proposed);
        assert(auto_proposals(longer).last() == candidate);
    }
    if texts.len() == 0 {
        assert(proposed.len() == 0);
    }
}

} // verus!
