//! The text being composed, as the host shows it.

use vstd::prelude::*;

verus! {

/// How a stretch of preedit text is drawn.
#[derive(Debug, Clone, Copy, PartialEq, Eq, Structural)]
pub enum PreeditAttribute {
    Underline,
    Highlight,
}

/// A stretch of preedit text drawn in one way.
#[derive(Debug, PartialEq, Eq)]
pub struct PreeditSegment {
    pub text: String,
    pub attribute: PreeditAttribute,
}

/// Preedit text with the position of its caret, in characters.
#[derive(Debug, PartialEq, Eq)]
pub struct Preedit {
    pub segments: Vec<PreeditSegment>,
    pub caret: usize,
}

/// What a [`Preedit`] shows.
pub struct PreeditView {
    pub segments: Seq<(Seq<char>, PreeditAttribute)>,
    pub caret: nat,
}

impl View for PreeditSegment {
    type V = (Seq<char>, PreeditAttribute);

    open spec fn view(&self) -> (Seq<char>, PreeditAttribute) {
        (self.text@, self.attribute)
    }
}

impl View for Preedit {
    type V = PreeditView;

    open spec fn view(&self) -> PreeditView {
        PreeditView {
            segments: self.segments@.map_values(|s: PreeditSegment| s@),
            caret: self.caret as nat,
        }
    }
}

impl PreeditView {
    /// One stretch of text with the caret behind it.
    pub open spec fn single(text: Seq<char>, attribute: PreeditAttribute) -> Self {
        PreeditView { segments: seq![(text, attribute)], caret: text.len() }
    }

    /// The texts of all segments, one behind the other.
    pub open spec fn text(self) -> Seq<char> {
        self.segments.map_values(|s: (Seq<char>, PreeditAttribute)| s.0).flatten()
    }
}

impl Clone for PreeditSegment {
    fn clone(&self) -> (r: Self)
        ensures
            r == *self,
    {
        PreeditSegment { text: self.text.clone(), attribute: self.attribute }
    }
}

impl Clone for Preedit {
    fn clone(&self) -> (r: Self)
        ensures
            r@ == self@,
    {
        let segments = self.segments.clone();
        proof {
            assert(segments@ =~= self.segments@);
        }
        Preedit { segments, caret: self.caret }
    }
}

impl PreeditSegment {
    /// A highlighted stretch of text.
    pub fn highlighted(text: &str) -> (r: Self)
        ensures
            r@ == (text@, PreeditAttribute::Highlight),
    {
        PreeditSegment { text: text.to_owned(), attribute: PreeditAttribute::Highlight }
    }
}

impl Preedit {
    /// Preedit text made of segments.
    pub fn from_segments(segments: Vec<PreeditSegment>, caret: usize) -> (r: Self)
        ensures
            r.segments@ == segments@,
            r.caret == caret,
    {
        Preedit { segments, caret }
    }

    /// Underlined text with the caret behind it.
    pub fn with_text_underlined(text: &str) -> (r: Self)
        ensures
            r@ == PreeditView::single(text@, PreeditAttribute::Underline),
    {
        let caret: usize = text.unicode_len();
        let segment = PreeditSegment {
            text: text.to_owned(),
            attribute: PreeditAttribute::Underline,
        };
        let mut segments: Vec<PreeditSegment> = Vec::new();
        segments.push(segment);
        let r = Preedit { segments, caret };
        proof {
            assert(r@.segments =~= seq![(text@, PreeditAttribute::Underline)]);
        }
        r
    }

    /// Highlighted text with the caret behind it.
    pub fn with_text_highlighted(text: &str) -> (r: Self)
        ensures
            r@ == PreeditView::single(text@, PreeditAttribute::Highlight),
    {
        let mut segments: Vec<PreeditSegment> = Vec::new();
        segments.push(PreeditSegment::highlighted(text));
        let r = Preedit::from_segments(segments, text.unicode_len());
        proof {
            assert(r@.segments =~= seq![(text@, PreeditAttribute::Highlight)]);
        }
        r
    }

    /// The whole preedit text.
    pub fn text(&self) -> (r: String)
        ensures
            r@ == self@.text(),
    {
        let mut text = String::new();
        let ghost texts = self@.segments.map_values(|s: (Seq<char>, PreeditAttribute)| s.0);
        for segment in it: self.segments.iter()
            invariant
                it.seq() == self.segments@.map_values(|s: PreeditSegment| &s),
                texts == self@.segments.map_values(|s: (Seq<char>, PreeditAttribute)| s.0),
                text@ == texts.take(it.index() as int).flatten(),
        {
            proof {
                let done = texts.take(it.index() as int);
                assert(texts.take(it.index() as int + 1) =~= done.push(segment.text@));
                done.lemma_flatten_push(segment.text@);
            }
            text.append(segment.text.as_str());
        }
        proof {
            assert(texts.take(texts.len() as int) =~= texts);
        }
        text
    }
}

} // verus!
