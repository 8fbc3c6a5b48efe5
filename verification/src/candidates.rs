//! Conversion candidates and the list shown to the user.

use vstd::prelude::*;

verus! {

/// Where a candidate came from.
#[derive(Debug, Clone, Copy, PartialEq, Eq, Structural)]
pub enum CandidateSource {
    Learning,
    Dictionary,
    Model,
    Rewriter,
}

/// One candidate surface.
#[derive(Debug, PartialEq, Eq)]
pub struct Candidate {
    /// The text that would be committed.
    pub text: String,
    /// The reading it stands for.
    pub reading: Option<String>,
    pub source: Option<CandidateSource>,
    /// An annotation for the candidate window.
    pub description: Option<String>,
}

impl Clone for Candidate {
    fn clone(&self) -> (r: Self)
        ensures
            r == *self,
    {
        Candidate {
            text: self.text.clone(),
            reading: self.reading.clone(),
            source: self.source,
            description: self.description.clone(),
        }
    }
}

/// A candidate proposed by a conversion model.
pub open spec fn model_candidate(text: String, reading: String) -> Candidate {
    Candidate {
        text,
        reading: Some(reading),
        source: Some(CandidateSource::Model),
        description: None,
    }
}

impl Candidate {
    /// A candidate with a reading and nothing else.
    pub fn with_reading(text: &str, reading: &str) -> (r: Self)
        ensures
            r.text@ == text@,
            r.reading matches Some(s) && s@ == reading@,
            r.source is None,
            r.description is None,
    {
        Candidate {
            text: text.to_owned(),
            reading: Some(reading.to_owned()),
            source: None,
            description: None,
        }
    }

    /// A candidate proposed by a conversion model.
    pub fn from_model(text: String, reading: String) -> (r: Self)
        ensures
            r == model_candidate(text, reading),
    {
        Candidate {
            text,
            reading: Some(reading),
            source: Some(CandidateSource::Model),
            description: None,
        }
    }
}

/// Some candidate of the list has this text.
pub open spec fn has_text(list: Seq<Candidate>, text: Seq<char>) -> bool {
    exists|i: int| 0 <= i < list.len() && (#[trigger] list[i]).text@ == text
}

/// No two candidates of the list have the same text.
pub open spec fn distinct_candidates(list: Seq<Candidate>) -> bool {
    forall|i: int, j: int|
        0 <= i < j < list.len() ==> (#[trigger] list[i]).text@ != (#[trigger] list[j]).text@
}

/// The list with each candidate of `source` behind it whose text is not there
/// yet.
pub open spec fn append_dedup(target: Seq<Candidate>, source: Seq<Candidate>) -> Seq<Candidate>
    decreases source.len(),
{
    if source.len() == 0 {
        target
    } else {
        let list = append_dedup(target, source.drop_last());
        if has_text(list, source.last().text@) {
            list
        } else {
            list.push(source.last())
        }
    }
}

/// Whether some candidate of the list has this text.
pub fn contains_text(list: &Vec<Candidate>, text: &String) -> (r: bool)
    ensures
        r == has_text(list@, text@),
{
    for candidate in it: list.iter()
        invariant
            it.seq() == list@.map_values(|c: Candidate| &c),
            forall|i: int| 0 <= i < it.index() ==> (#[trigger] list@[i]).text@ != text@,
    {
        if candidate.text == *text {
            proof {
                assert(list@[it.index() as int].text@ == text@);
            }
            return true;
        }
    }
    false
}

/// Appends the candidates whose text the list does not hold yet, in order.
pub fn append_candidates_dedup(target: &mut Vec<Candidate>, source: Vec<Candidate>)
    ensures
        final(target)@ == append_dedup(old(target)@, source@),
{
    for candidate in it: source
        invariant
            it.seq() == source@,
            target@ == append_dedup(old(target)@, source@.take(it.index() as int)),
    {
        proof {
            let next = source@.take(it.index() as int + 1);
            assert(next.drop_last() == source@.take(it.index() as int));
            assert(next.last() == candidate);
        }
        if !contains_text(target, &candidate.text) {
            target.push(candidate);
        }
    }
    proof {
        assert(source@.take(source@.len() as int) == source@);
    }
}

/// Appending keeps the list in front, in its order; adds nothing that is not
/// in `source`; leaves every text of both lists present; and repeats no text
/// that a candidate before it has.
pub proof fn law_append_dedup(target: Seq<Candidate>, source: Seq<Candidate>)
    ensures
        ({
            let list = append_dedup(target, source);
            &&& target.len() <= list.len() <= target.len() + source.len()
            &&& list.take(target.len() as int) == target
            &&& forall|i: int|
                target.len() <= i < list.len() ==> source.contains(#[trigger] list[i])
            &&& forall|i: int|
                0 <= i < source.len() ==> has_text(list, (#[trigger] source[i]).text@)
            &&& forall|i: int, j: int|
                0 <= i < j < list.len() && target.len() <= j ==> (#[trigger] list[i]).text@ != (
                #[trigger] list[j]).text@
        }),
    decreases source.len(),
{
    let list = append_dedup(target, source);
    if source.len() == 0 {
        assert(list.take(target.len() as int) =~= target);
    } else {
        let rest = source.drop_last();
        let before = append_dedup(target, rest);
        law_append_dedup(target, rest);
        assert(list.take(target.len() as int) =~= target);
        assert forall|i: int| target.len() <= i < list.len() implies source.contains(
            #[trigger] list[i],
        ) by {
            if i < before.len() {
                assert(rest.contains(before[i]));
                let k = choose|k: int| 0 <= k < rest.len() && rest[k] == before[i];
                assert(source[k] == list[i]);
            } else {
                assert(source[source.len() - 1] == list[i]);
            }
        }
        assert forall|i: int| 0 <= i < source.len() implies has_text(
            list,
            (#[trigger] source[i]).text@,
        ) by {
            if i < rest.len() {
                assert(has_text(before, rest[i].text@));
                let k = choose|k: int|
                    0 <= k < before.len() && (#[trigger] before[k]).text@ == source[i].text@;
                assert(list[k].text@ == source[i].text@);
            } else if !has_text(before, source.last().text@) {
                assert(list[before.len() as int].text@ == source[i].text@);
            }
        }
        assert forall|i: int, j: int| 0 <= i < j < list.len() && target.len() <= j implies (
        #[trigger] list[i]).text@ != (#[trigger] list[j]).text@ by {
            if j < before.len() {
                assert(before[i].text@ != before[j].text@);
            } else {
                assert(list[i] == before[i]);
            }
        }
    }
}

/// A list without repeated texts stays one.
pub proof fn law_append_keeps_texts_distinct(target: Seq<Candidate>, source: Seq<Candidate>)
    requires
        distinct_candidates(target),
    ensures
        distinct_candidates(append_dedup(target, source)),
{
    law_append_dedup(target, source);
    let list = append_dedup(target, source);
    assert forall|i: int, j: int| 0 <= i < j < list.len() implies (#[trigger] list[i]).text@ != (
    #[trigger] list[j]).text@ by {
        if j < target.len() {
            assert(list.take(target.len() as int)[i] == list[i]);
            assert(list.take(target.len() as int)[j] == list[j]);
        }
    }
}

/// Some text of the list reads like this.
pub open spec fn holds_text(list: Seq<String>, text: Seq<char>) -> bool {
    exists|i: int| 0 <= i < list.len() && (#[trigger] list[i])@ == text
}

/// The texts of a list without those that occurred before.
pub open spec fn distinct_texts(list: Seq<String>) -> Seq<String>
    decreases list.len(),
{
    if list.len() == 0 {
        Seq::empty()
    } else {
        let texts = distinct_texts(list.drop_last());
        if holds_text(texts, list.last()@) {
            texts
        } else {
            texts.push(list.last())
        }
    }
}

/// The first `limit` distinct texts of two lists, one behind the other.
pub open spec fn merged_texts(primary: Seq<String>, secondary: Seq<String>, limit: int) -> Seq<String> {
    let texts = distinct_texts(primary + secondary);
    if limit < texts.len() {
        texts.take(limit)
    } else {
        texts
    }
}

fn contains_string(list: &Vec<String>, text: &String) -> (r: bool)
    ensures
        r == holds_text(list@, text@),
{
    for entry in it: list.iter()
        invariant
            it.seq() == list@.map_values(|s: String| &s),
            forall|i: int| 0 <= i < it.index() ==> (#[trigger] list@[i])@ != text@,
    {
        if *entry == *text {
            proof {
                assert(list@[it.index() as int]@ == text@);
            }
            return true;
        }
    }
    false
}

/// Merges two candidate lists: the first wins, repeated texts are dropped,
/// and at most `limit` texts stay.
pub fn merge_candidates_dedup(primary: Vec<String>, secondary: Vec<String>, limit: usize) -> (r: Vec<
    String,
>)
    ensures
        r@ == merged_texts(primary@, secondary@, limit as int),
{
    let ghost all = primary@ + secondary@;
    let mut merged: Vec<String> = Vec::new();
    let mut texts = primary;
    let mut secondary = secondary;
    texts.append(&mut secondary);
    for text in it: texts
        invariant
            it.seq() == all,
            merged@ == distinct_texts(all.take(it.index() as int)),
    {
        proof {
            let next = all.take(it.index() as int + 1);
            assert(next.drop_last() == all.take(it.index() as int));
            assert(next.last() == text);
        }
        if !contains_string(&merged, &text) {
            merged.push(text);
        }
    }
    proof {
        assert(all.take(all.len() as int) == all);
    }
    if limit < merged.len() {
        merged.truncate(limit);
    }
    merged
}

/// Merging repeats no text, keeps to the limit, and lets the first list lead.
pub proof fn law_merged_texts(primary: Seq<String>, secondary: Seq<String>, limit: int)
    requires
        0 <= limit,
    ensures
        ({
            let merged = merged_texts(primary, secondary, limit);
            &&& merged.len() <= limit
            &&& forall|i: int, j: int|
                0 <= i < j < merged.len() ==> (#[trigger] merged[i])@ != (#[trigger] merged[j])@
            &&& forall|i: int|
                0 <= i < merged.len() ==> (primary + secondary).contains(#[trigger] merged[i])
            &&& merged.len() < limit ==> forall|i: int|
                0 <= i < primary.len() + secondary.len() ==> holds_text(
                    merged,
                    (#[trigger] (primary + secondary)[i])@,
                )
            &&& primary.len() > 0 && limit > 0 ==> merged.len() > 0 && merged[0] == primary[0]
        }),
{
    lemma_distinct_texts(primary + secondary);
}

proof fn lemma_distinct_texts(list: Seq<String>)
    ensures
        ({
            let texts = distinct_texts(list);
            &&& forall|i: int, j: int|
                0 <= i < j < texts.len() ==> (#[trigger] texts[i])@ != (#[trigger] texts[j])@
            &&& forall|i: int| 0 <= i < texts.len() ==> list.contains(#[trigger] texts[i])
            &&& forall|i: int|
                0 <= i < list.len() ==> holds_text(texts, (#[trigger] list[i])@)
            &&& list.len() > 0 ==> texts.len() > 0 && texts[0] == list[0]
        }),
    decreases list.len(),
{
    if list.len() > 0 {
        let rest = list.drop_last();
        let before = distinct_texts(rest);
        let texts = distinct_texts(list);
        lemma_distinct_texts(rest);
        assert forall|i: int| 0 <= i < texts.len() implies list.contains(#[trigger] texts[i]) by {
            if i < before.len() {
                assert(rest.contains(before[i]));
                let k = choose|k: int| 0 <= k < rest.len() && rest[k] == before[i];
                assert(list[k] == texts[i]);
            } else {
                assert(list[list.len() - 1] == texts[i]);
            }
        }
        assert forall|i: int| 0 <= i < list.len() implies holds_text(
            texts,
            (#[trigger] list[i])@,
        ) by {
            if i < rest.len() {
                assert(holds_text(before, rest[i]@));
                let k = choose|k: int|
                    0 <= k < before.len() && (#[trigger] before[k])@ == list[i]@;
                assert(texts[k]@ == list[i]@);
            } else if !holds_text(before, list.last()@) {
                assert(texts[before.len() as int]@ == list[i]@);
            }
        }
    }
}

/// The texts of a model as candidates for a reading, without the dropped
/// ones.
pub open spec fn proposals(texts: Seq<String>, reading: String, dropped: Seq<String>) -> Seq<
    Candidate,
> {
    texts.filter_map(
        |text: String|
            if holds_text(dropped, text@) {
                None
            } else {
                Some(model_candidate(text, reading))
            },
    )
}

/// Every text that is not dropped becomes a candidate of the model with the
/// given reading, and nothing else does.
pub proof fn law_proposals(texts: Seq<String>, reading: String, dropped: Seq<String>)
    ensures
        ({
            let list = proposals(texts, reading, dropped);
            &&& list.len() <= texts.len()
            &&& forall|i: int|
                0 <= i < texts.len() && !holds_text(dropped, (#[trigger] texts[i])@) ==> has_text(
                    list,
                    texts[i]@,
                )
            &&& forall|k: int|
                0 <= k < list.len() ==> {
                    &&& texts.contains((#[trigger] list[k]).text)
                    &&& !holds_text(dropped, list[k].text@)
                    &&& list[k] == model_candidate(list[k].text, reading)
                }
        }),
    decreases texts.len(),
{
    if texts.len() > 0 {
        let rest = texts.drop_last();
        let before = proposals(rest, reading, dropped);
        let list = proposals(texts, reading, dropped);
        law_proposals(rest, reading, dropped);
        assert forall|i: int|
            0 <= i < texts.len() && !holds_text(dropped, (#[trigger] texts[i])@) implies has_text(
            list,
            texts[i]@,
        ) by {
            if i < rest.len() {
                assert(rest[i] == texts[i]);
                assert(has_text(before, rest[i]@));
                let k = choose|k: int|
                    0 <= k < before.len() && (#[trigger] before[k]).text@ == texts[i]@;
                assert(list[k].text@ == texts[i]@);
            } else {
                assert(list[before.len() as int].text@ == texts[i]@);
            }
        }
        assert forall|k: int| 0 <= k < list.len() implies {
            &&& texts.contains((#[trigger] list[k]).text)
            &&& !holds_text(dropped, list[k].text@)
            &&& list[k] == model_candidate(list[k].text, reading)
        } by {
            if k < before.len() {
                assert(list[k] == before[k]);
                let i = choose|i: int| 0 <= i < rest.len() && rest[i] == before[k].text;
                assert(texts[i] == list[k].text);
            } else {
                assert(texts[texts.len() - 1] == list[k].text);
            }
        }
    }
}

/// Turns the texts of a model into candidates, without the dropped ones.
pub fn model_proposals(texts: Vec<String>, reading: &String, dropped: &Vec<String>) -> (r: Vec<
    Candidate,
>)
    ensures
        r@ == proposals(texts@, *reading, dropped@),
{
    let mut candidates: Vec<Candidate> = Vec::new();
    for text in it: texts
        invariant
            it.seq() == texts@,
            candidates@ == proposals(texts@.take(it.index() as int), *reading, dropped@),
    {
        proof {
            let next = texts@.take(it.index() as int + 1);
            assert(next.drop_last() == texts@.take(it.index() as int));
            assert(next.last() == text);
        }
        if !contains_string(dropped, &text) {
            candidates.push(Candidate::from_model(text, reading.clone()));
        }
    }
    proof {
        assert(texts@.take(texts@.len() as int) == texts@);
    }
    candidates
}

/// Number of candidates on one page of the candidate window.
pub const PAGE_SIZE: usize = 9;

/// The candidates on offer and the one selected.
#[derive(Debug, PartialEq, Eq)]
pub struct CandidateList {
    candidates: Vec<Candidate>,
    cursor: usize,
}

/// What a [`CandidateList`] holds.
pub struct CandidateListView {
    pub candidates: Seq<Candidate>,
    pub cursor: int,
}

impl CandidateListView {
    /// The list as it is when its candidates are first shown.
    pub open spec fn fresh(candidates: Seq<Candidate>) -> Self {
        CandidateListView { candidates, cursor: 0 }
    }

    /// The candidate under the cursor.
    pub open spec fn selected(self) -> Option<Candidate> {
        if self.candidates.len() > 0 {
            Some(self.candidates[self.cursor])
        } else {
            None
        }
    }

    /// The cursor is on a candidate, or at the start of an empty list.
    pub open spec fn cursor_in_range(self) -> bool {
        0 <= self.cursor < self.candidates.len() || (self.cursor == 0 && self.candidates.len()
            == 0)
    }
}

impl View for CandidateList {
    type V = CandidateListView;

    closed spec fn view(&self) -> CandidateListView {
        CandidateListView { candidates: self.candidates@, cursor: self.cursor as int }
    }
}

impl Clone for CandidateList {
    fn clone(&self) -> (r: Self)
        ensures
            r@ == self@,
    {
        proof {
            use_type_invariant(self);
        }
        let candidates = self.candidates.clone();
        proof {
            assert(candidates@ =~= self.candidates@);
        }
        CandidateList { candidates, cursor: self.cursor }
    }
}

impl CandidateList {
    #[verifier::type_invariant]
    spec fn inv(self) -> bool {
        self.cursor < self.candidates@.len() || (self.cursor == 0 && self.candidates@.len() == 0)
    }

    /// A list with the cursor on its first candidate.
    pub fn new(candidates: Vec<Candidate>) -> (r: Self)
        ensures
            r@ == CandidateListView::fresh(candidates@),
    {
        CandidateList { candidates, cursor: 0 }
    }

    /// All candidates.
    pub fn candidates(&self) -> (r: &Vec<Candidate>)
        ensures
            r@ == self@.candidates,
    {
        &self.candidates
    }

    /// Whether there is no candidate.
    pub fn is_empty(&self) -> (r: bool)
        ensures
            r == (self@.candidates.len() == 0),
    {
        self.candidates.len() == 0
    }

    /// The position of the selected candidate.
    pub fn cursor(&self) -> (r: usize)
        ensures
            r == self@.cursor,
            self@.cursor_in_range(),
    {
        proof {
            use_type_invariant(self);
        }
        self.cursor
    }

    /// The selected candidate.
    pub fn selected(&self) -> (r: Option<&Candidate>)
        ensures
            self@.cursor_in_range(),
            match r {
                Some(c) => self@.selected() == Some(*c),
                None => self@.selected() is None,
            },
    {
        proof {
            use_type_invariant(self);
        }
        if self.candidates.len() == 0 {
            None
        } else {
            Some(&self.candidates[self.cursor])
        }
    }

    /// Moves the cursor to a candidate; says whether there is one.
    pub fn select(&mut self, index: usize) -> (r: bool)
        ensures
            r == (index < old(self)@.candidates.len()),
            final(self)@.candidates == old(self)@.candidates,
            final(self)@.cursor == if r { index as int } else { old(self)@.cursor },
    {
        proof {
            use_type_invariant(&*self);
        }
        if index < self.candidates.len() {
            self.cursor = index;
            true
        } else {
            false
        }
    }

    /// Number of candidates on a page.
    pub fn page_size(&self) -> (r: usize)
        ensures
            r == PAGE_SIZE,
    {
        PAGE_SIZE
    }

    /// Number of pages that the candidates fill.
    pub fn total_pages(&self) -> (r: usize)
        ensures
            r == (self@.candidates.len() + PAGE_SIZE - 1) / PAGE_SIZE as int,
    {
        let len: usize = self.candidates.len();
        if len % PAGE_SIZE == 0 {
            len / PAGE_SIZE
        } else {
            len / PAGE_SIZE + 1
        }
    }

    /// The page with the selected candidate.
    pub fn current_page(&self) -> (r: usize)
        ensures
            r == self@.cursor / PAGE_SIZE as int,
    {
        self.cursor / PAGE_SIZE
    }
}

} // verus!
