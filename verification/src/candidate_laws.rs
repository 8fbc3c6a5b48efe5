//! How candidates are put together, part by part.

use vstd::prelude::*;

use crate::candidates::{append_dedup, distinct_texts, holds_text, merged_texts, proposals};
use crate::candidates::{Candidate, CandidateListView, CandidateSource};
use crate::preedit::{Preedit, PreeditAttribute, PreeditView};

verus! {

/// Appending nothing changes nothing. One candidate is appended at the end,
/// unless some candidate of the list has its text, whatever else they differ
/// in. Several are appended one after the other.
pub proof fn law_append_part_by_part(
    target: Seq<Candidate>,
    a: Seq<Candidate>,
    b: Seq<Candidate>,
    one: Candidate,
)
    ensures
        append_dedup(target, Seq::empty()) == target,
        append_dedup(target, seq![one]) == if exists|i: int|
            0 <= i < target.len() && (#[trigger] target[i]).text@ == one.text@ {
            target
        } else {
            target.push(one)
        },
        append_dedup(target, a + b) == append_dedup(append_dedup(target, a), b),
    decreases b.len(),
{
    reveal_with_fuel(append_dedup, 2);
    assert(seq![one].drop_last() =~= Seq::empty());
    assert(seq![one].last() == one);
    if b.len() == 0 {
        assert(a + b =~= a);
    } else {
        law_append_part_by_part(target, a, b.drop_last(), one);
        assert((a + b).drop_last() =~= a + b.drop_last());
        assert((a + b).last() == b.last());
    }
}

/// The texts of a model become candidates one after the other. Each is left
/// out if it is among the dropped texts, and otherwise becomes a candidate of
/// the model with the reading and without a description.
pub proof fn law_proposals_part_by_part(
    a: Seq<String>,
    b: Seq<String>,
    text: String,
    reading: String,
    dropped: Seq<String>,
)
    ensures
        proposals(Seq::empty(), reading, dropped) == Seq::<Candidate>::empty(),
        proposals(seq![text], reading, dropped) == if exists|i: int|
            0 <= i < dropped.len() && (#[trigger] dropped[i])@ == text@ {
            Seq::empty()
        } else {
            seq![
                Candidate {
                    text,
                    reading: Some(reading),
                    source: Some(CandidateSource::Model),
                    description: None,
                },
            ]
        },
        proposals(a + b, reading, dropped) == proposals(a, reading, dropped) + proposals(
            b,
            reading,
            dropped,
        ),
    decreases b.len(),
{
    reveal_with_fuel(Seq::<_>::filter_map::<_>, 2);
    assert(seq![text].drop_last() =~= Seq::empty());
    assert(seq![text].last() == text);
    assert(proposals(Seq::empty(), reading, dropped) =~= Seq::<Candidate>::empty());
    if b.len() == 0 {
        assert(a + b =~= a);
        assert(proposals(a, reading, dropped) + proposals(b, reading, dropped) =~= proposals(
            a,
            reading,
            dropped,
        ));
    } else {
        law_proposals_part_by_part(a, b.drop_last(), text, reading, dropped);
        assert((a + b).drop_last() =~= a + b.drop_last());
        assert((a + b).last() == b.last());
        assert(proposals(a + b, reading, dropped) =~= proposals(a, reading, dropped) + proposals(
            b,
            reading,
            dropped,
        ));
    }
}

/// At place `i` of the list, this text occurs for the first time.
spec fn first_at(list: Seq<String>, text: String, i: int) -> bool {
    &&& 0 <= i < list.len()
    &&& list[i] == text
    &&& forall|k: int| 0 <= k < i ==> (#[trigger] list[k])@ != text@
}

/// One of the texts placed up to `k` is this one.
spec fn placed_by(texts: Seq<String>, places: Seq<int>, text: Seq<char>, k: int) -> bool {
    exists|j: int| 0 <= j < places.len() && places[j] <= k && (#[trigger] texts[j])@ == text
}

proof fn lemma_first_places(list: Seq<String>) -> (places: Seq<int>)
    ensures
        places.len() == distinct_texts(list).len(),
        forall|j: int|
            0 <= j < places.len() ==> first_at(list, distinct_texts(list)[j], #[trigger] places[j]),
        forall|i: int, j: int| 0 <= i < j < places.len() ==> places[i] < places[j],
        forall|k: int|
            0 <= k < list.len() ==> #[trigger] placed_by(
                distinct_texts(list),
                places,
                list[k]@,
                k,
            ),
    decreases list.len(),
{
    let texts = distinct_texts(list);
    if list.len() == 0 {
        Seq::empty()
    } else {
        let rest = list.drop_last();
        let before = distinct_texts(rest);
        let so_far = lemma_first_places(rest);
        let last = list.len() - 1;
        let known = holds_text(before, list.last()@);
        let places = if known {
            so_far
        } else {
            so_far.push(last)
        };
        assert forall|j: int| 0 <= j < places.len() implies first_at(
            list,
            texts[j],
            #[trigger] places[j],
        ) by {
            if j < so_far.len() {
                assert(first_at(rest, before[j], so_far[j]));
                assert forall|k: int| 0 <= k < so_far[j] implies (#[trigger] list[k])@
                    != texts[j]@ by {
                    assert(rest[k] == list[k]);
                }
            } else {
                assert forall|k: int| 0 <= k < last implies (#[trigger] list[k])@
                    != list.last()@ by {
                    assert(placed_by(before, so_far, rest[k]@, k));
                    let m = choose|m: int|
                        0 <= m < so_far.len() && so_far[m] <= k && (#[trigger] before[m])@
                            == rest[k]@;
                    assert(before[m]@ != list.last()@);
                }
            }
        }
        assert forall|i: int, j: int| 0 <= i < j < places.len() implies places[i] < places[j] by {
            assert(first_at(rest, before[i], so_far[i]));
        }
        assert forall|k: int| 0 <= k < list.len() implies #[trigger] placed_by(
            texts,
            places,
            list[k]@,
            k,
        ) by {
            if k < last {
                assert(placed_by(before, so_far, rest[k]@, k));
                let m = choose|m: int|
                    0 <= m < so_far.len() && so_far[m] <= k && (#[trigger] before[m])@ == rest[k]@;
                assert(texts[m]@ == list[k]@);
            } else if known {
                let m = choose|m: int|
                    0 <= m < before.len() && (#[trigger] before[m])@ == list.last()@;
                assert(first_at(rest, before[m], so_far[m]));
                assert(texts[m]@ == list[k]@);
            } else {
                assert(texts[before.len() as int]@ == list[k]@);
            }
        }
        places
    }
}

/// Merged texts are the first occurrences of the two lists, in their order,
/// and none is passed over: what occurs before a merged text is merged, too.
/// Only the limit ends the merged list early.
pub proof fn law_merged_in_order(primary: Seq<String>, secondary: Seq<String>, limit: int)
    requires
        0 <= limit,
    ensures
        ({
            let all = primary + secondary;
            let merged = merged_texts(primary, secondary, limit);
            exists|places: Seq<int>|
                {
                    &&& #[trigger] places.len() == merged.len()
                    &&& merged.len() <= limit
                    &&& forall|j: int|
                        0 <= j < places.len() ==> {
                            &&& 0 <= #[trigger] places[j] < all.len()
                            &&& all[places[j]] == merged[j]
                            &&& forall|k: int|
                                0 <= k < places[j] ==> (#[trigger] all[k])@ != merged[j]@
                        }
                    &&& forall|i: int, j: int| 0 <= i < j < places.len() ==> places[i] < places[j]
                    &&& forall|k: int|
                        0 <= k < all.len() && (merged.len() < limit || exists|j: int|
                            0 <= j < places.len() && k < #[trigger] places[j]) ==> exists|j: int|
                            0 <= j < merged.len() && (#[trigger] merged[j])@ == (
                            #[trigger] all[k])@
                }
        }),
{
    let all = primary + secondary;
    let merged = merged_texts(primary, secondary, limit);
    let texts = distinct_texts(all);
    let all_places = lemma_first_places(all);
    let places = all_places.take(merged.len() as int);
    assert forall|j: int| 0 <= j < places.len() implies {
        &&& 0 <= #[trigger] places[j] < all.len()
        &&& all[places[j]] == merged[j]
        &&& forall|k: int| 0 <= k < places[j] ==> (#[trigger] all[k])@ != merged[j]@
    } by {
        assert(first_at(all, texts[j], all_places[j]));
    }
    assert forall|k: int|
        0 <= k < all.len() && (merged.len() < limit || exists|j: int|
            0 <= j < places.len() && k < #[trigger] places[j]) implies exists|j: int|
        0 <= j < merged.len() && (#[trigger] merged[j])@ == (#[trigger] all[k])@ by {
        assert(placed_by(texts, all_places, all[k]@, k));
        let m = choose|m: int|
            0 <= m < all_places.len() && all_places[m] <= k && (#[trigger] texts[m])@ == all[k]@;
        if merged.len() <= m {
            let j = choose|j: int| 0 <= j < places.len() && k < #[trigger] places[j];
            assert(all_places[j] < all_places[m]);
        }
        assert(merged[m]@ == all[k]@);
    }
    assert(places.len() == merged.len());
}

/// A list is first shown with its first candidate selected, if it has any;
/// the selected candidate is the one under the cursor.
pub proof fn law_selected_candidate(list: CandidateListView)
    ensures
        list.candidates.len() > 0 ==> CandidateListView::fresh(list.candidates).selected() == Some(
            list.candidates[0],
        ),
        CandidateListView::fresh(list.candidates).candidates == list.candidates,
        CandidateListView::fresh(list.candidates).cursor_in_range(),
        0 <= list.cursor < list.candidates.len() ==> list.selected() == Some(
            list.candidates[list.cursor],
        ),
        list.candidates.len() == 0 ==> list.selected() is None,
{
}

/// Preedit text in one stretch reads as that text, is drawn in the given way,
/// and has the caret behind it.
pub proof fn law_single_preedit(text: Seq<char>, attribute: PreeditAttribute)
    ensures
        PreeditView::single(text, attribute).text() == text,
        PreeditView::single(text, attribute).caret == text.len(),
        PreeditView::single(text, attribute).segments == seq![(text, attribute)],
{
    let texts = PreeditView::single(text, attribute).segments.map_values(
        |s: (Seq<char>, PreeditAttribute)| s.0,
    );
    assert(texts =~= seq![text]);
    reveal_with_fuel(Seq::<_>::flatten, 2);
    assert(seq![text].drop_first() =~= Seq::empty());
    assert(seq![text].flatten() =~= text);
}

/// Preedit text is drawn segment by segment, with the caret where it is.
pub proof fn law_preedit_is_drawn_as_it_is(preedit: Preedit)
    ensures
        preedit@.caret == preedit.caret,
        preedit@.segments.len() == preedit.segments@.len(),
        forall|i: int|
            0 <= i < preedit.segments@.len() ==> #[trigger] preedit@.segments[i] == (
                preedit.segments@[i].text@,
                preedit.segments@[i].attribute,
            ),
{
}

} // verus!
