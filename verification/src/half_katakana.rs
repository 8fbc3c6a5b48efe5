//! Katakana form rewriter: full-width and half-width katakana variants.
//!
//! Only candidates made of kana alone are rewritten, or of a decimal number
//! followed by kana. Candidates that mix kanji with kana are left alone:
//! turning `愛してる` into `愛ｼﾃﾙ` would be nonsense.
//!
//! For such a candidate the rewriter emits
//! - the full-width katakana form, if the candidate has hiragana, and
//! - the half-width katakana form, if it differs from the candidate.
//!
//! Variants equal to the candidate or to each other are not emitted. Each
//! variant carries a width annotation for the candidate window.

use vstd::prelude::*;

use crate::kana::{hiragana_to_katakana, katakana_to_half_width};
use crate::kana::{all_in_kana_blocks, half_width_of, has_hiragana, in_kana_block, is_hiragana};
use crate::kana::{katakana_of, to_half_width, to_katakana};

verus! {

/// Annotation shown on full-width katakana variants.
pub const FULL_KATAKANA_DESC: &'static str = "[全]カタカナ";

/// Annotation shown on half-width katakana variants.
pub const HALF_KATAKANA_DESC: &'static str = "[半]カタカナ";

/// A variant and its annotation.
pub type RewriteOutput = (String, Option<String>);

/// Rewriter that produces full-width and half-width katakana variants.
pub struct HalfWidthKatakanaRewriter;

/// The decimal digits, half-width and full-width.
pub open spec fn is_digit(c: char) -> bool {
    0x30 <= c as int <= 0x39 || 0xFF10 <= c as int <= 0xFF19
}

/// The kana that may follow a decimal number.
pub open spec fn is_counted_kana(c: char) -> bool {
    ||| 0x3041 <= c as int <= 0x3096
    ||| 0x3099 <= c as int <= 0x309F
    ||| 0x30A1 <= c as int <= 0x30FA
    ||| 0x30FC <= c as int <= 0x30FF
}

/// The first `n` characters are a number and the others kana, with at least
/// one of each.
pub open spec fn splits_at(text: Seq<char>, n: int) -> bool {
    &&& 0 < n < text.len()
    &&& forall|i: int| 0 <= i < n ==> is_digit(#[trigger] text[i])
    &&& forall|i: int| n <= i < text.len() ==> is_counted_kana(#[trigger] text[i])
}

/// The candidates that have variants: kana alone, or a number and kana.
pub open spec fn is_rewritable(candidate: Seq<char>) -> bool {
    all_in_kana_blocks(candidate) || exists|n: int| splits_at(candidate, n)
}

/// The full-width variant with its annotation.
pub open spec fn full_width_variant(candidate: Seq<char>) -> (Seq<char>, Option<Seq<char>>) {
    (to_katakana(candidate), Some(FULL_KATAKANA_DESC@))
}

/// The half-width variant with its annotation.
pub open spec fn half_width_variant(candidate: Seq<char>) -> (Seq<char>, Option<Seq<char>>) {
    (to_half_width(to_katakana(candidate)), Some(HALF_KATAKANA_DESC@))
}

/// All variants of a candidate.
pub open spec fn rewrites(candidate: Seq<char>) -> Seq<(Seq<char>, Option<Seq<char>>)> {
    let full = full_width_variant(candidate);
    let half = half_width_variant(candidate);
    let emit_full = has_hiragana(candidate);
    let emit_half = half.0 != candidate && half.0 != full.0;
    if !is_rewritable(candidate) {
        Seq::empty()
    } else if emit_full && emit_half {
        seq![full, half]
    } else if emit_full {
        seq![full]
    } else if emit_half {
        seq![half]
    } else {
        Seq::empty()
    }
}

/// Whether some character is a hiragana letter.
pub fn contains_hiragana(text: &str) -> (r: bool)
    ensures
        r == has_hiragana(text@),
{
    for c in it: text.chars()
        invariant
            it.seq() == text@,
            forall|i: int| 0 <= i < it.index() ==> !is_hiragana(#[trigger] text@[i]),
    {
        if matches!(c, '\u{3041}'..='\u{3096}') {
            return true;
        }
    }
    false
}

/// Whether every character is in the hiragana or katakana block, including
/// the prolonged sound mark, sokuon, dakuten and handakuten, and small kana.
pub fn is_pure_kana(text: &str) -> (r: bool)
    ensures
        r == all_in_kana_blocks(text@),
{
    for c in it: text.chars()
        invariant
            it.seq() == text@,
            forall|i: int| 0 <= i < it.index() ==> in_kana_block(#[trigger] text@[i]),
    {
        if !matches!(c, '\u{3040}'..='\u{30FF}') {
            return false;
        }
    }
    true
}

/// Whether a character is a decimal digit of either width.
pub fn is_decimal_prefix_digit(c: char) -> (r: bool)
    ensures
        r == is_digit(c),
{
    matches!(c, '0'..='9' | '\u{FF10}'..='\u{FF19}')
}

/// Whether a character may follow a decimal number.
pub fn is_decimal_prefix_suffix_char(c: char) -> (r: bool)
    ensures
        r == is_counted_kana(c),
{
    matches!(
        c,
        '\u{3041}'..='\u{3096}'
            | '\u{3099}'..='\u{309F}'
            | '\u{30A1}'..='\u{30FA}'
            | '\u{30FC}'..='\u{30FF}'
    )
}

/// Splits a text into a decimal number and the kana behind it.
pub fn decimal_prefix_parts(text: &str) -> (r: Option<(&str, &str)>)
    ensures
        r is Some <==> exists|n: int| splits_at(text@, n),
        r matches Some((prefix, suffix)) ==> {
            &&& text@ == prefix@ + suffix@
            &&& splits_at(text@, prefix@.len() as int)
        },
{
    let len: usize = text.unicode_len();
    let mut prefix_end: usize = 0;
    let mut in_prefix: bool = true;
    for c in it: text.chars()
        invariant
            it.seq() == text@,
            prefix_end <= it.index(),
            in_prefix ==> prefix_end == it.index(),
            !in_prefix ==> 0 < prefix_end < it.index(),
            forall|i: int| 0 <= i < prefix_end ==> is_digit(#[trigger] text@[i]),
            forall|i: int| prefix_end <= i < it.index() ==> is_counted_kana(#[trigger] text@[i]),
            len == text@.len(),
    {
        if in_prefix && is_decimal_prefix_digit(c) {
            prefix_end = prefix_end + 1;
        } else {
            in_prefix = false;
            if prefix_end == 0 || !is_decimal_prefix_suffix_char(c) {
                proof {
                    assert(text@[it.index() as int] == c);
                    assert forall|n: int| !splits_at(text@, n) by {
                        if splits_at(text@, n) {
                            assert(is_digit(text@[0]));
                            let at = text@[it.index() as int];
                            assert(n <= it.index() ==> is_counted_kana(at));
                            assert(n > prefix_end ==> is_digit(text@[prefix_end as int]));
                        }
                    }
                }
                return None;
            }
        }
    }
    if in_prefix {
        proof {
            assert forall|n: int| !splits_at(text@, n) by {
                if splits_at(text@, n) {
                    assert(is_counted_kana(text@[n]));
                }
            }
        }
        return None;
    }
    proof {
        assert(splits_at(text@, prefix_end as int));
    }
    let prefix = text.substring_char(0, prefix_end);
    let suffix = text.substring_char(prefix_end, len);
    Some((prefix, suffix))
}

/// The same text behind a prefix.
fn with_prefix(prefix: &str, text: &str) -> (r: String)
    ensures
        r@ == prefix@ + text@,
{
    let mut r = prefix.to_owned();
    r.append(text);
    r
}

/// A text splits into a number and kana in at most one way.
pub proof fn law_at_most_one_split(text: Seq<char>, m: int, n: int)
    requires
        splits_at(text, m),
        splits_at(text, n),
    ensures
        m == n,
{
    if m < n {
        assert(is_digit(text[m]) && is_counted_kana(text[m]));
    }
    if n < m {
        assert(is_digit(text[n]) && is_counted_kana(text[n]));
    }
}

/// Digits in front of a text change neither its katakana form nor its
/// half-width spelling, and hold no hiragana.
proof fn lemma_digits_stay(digits: Seq<char>, text: Seq<char>)
    requires
        forall|i: int| 0 <= i < digits.len() ==> is_digit(#[trigger] digits[i]),
    ensures
        has_hiragana(digits + text) == has_hiragana(text),
        to_katakana(digits + text) == digits + to_katakana(text),
        to_half_width(digits + to_katakana(text)) == digits + to_half_width(to_katakana(text)),
{
    let all = digits + text;
    assert forall|i: int| 0 <= i < digits.len() implies !is_hiragana(#[trigger] digits[i]) by {
        assert(is_digit(digits[i]));
    }
    if has_hiragana(text) {
        let i = choose|i: int| 0 <= i < text.len() && is_hiragana(#[trigger] text[i]);
        assert(is_hiragana(all[digits.len() + i]));
    }
    if has_hiragana(all) {
        let i = choose|i: int| 0 <= i < all.len() && is_hiragana(#[trigger] all[i]);
        assert(i >= digits.len()) by {
            if i < digits.len() {
                assert(all[i] == digits[i]);
            }
        }
        assert(is_hiragana(text[i - digits.len()]));
    }
    assert(to_katakana(all) =~= digits + to_katakana(text));
    lemma_half_width_of_digits(digits);
    lemma_half_width_concat(digits, to_katakana(text));
}

proof fn lemma_half_width_of_digits(digits: Seq<char>)
    requires
        forall|i: int| 0 <= i < digits.len() ==> is_digit(#[trigger] digits[i]),
    ensures
        to_half_width(digits) == digits,
    decreases digits.len(),
{
    if digits.len() > 0 {
        lemma_half_width_of_digits(digits.drop_last());
        assert(is_digit(digits.last()));
        assert(half_width_of(digits.last()) == seq![digits.last()]);
        assert(digits.drop_last() + seq![digits.last()] =~= digits);
    }
}

proof fn lemma_half_width_concat(a: Seq<char>, b: Seq<char>)
    ensures
        to_half_width(a + b) == to_half_width(a) + to_half_width(b),
    decreases b.len(),
{
    if b.len() == 0 {
        assert(a + b =~= a);
        assert(to_half_width(a) + to_half_width(b) =~= to_half_width(a));
    } else {
        lemma_half_width_concat(a, b.drop_last());
        assert((a + b).drop_last() =~= a + b.drop_last());
        assert((a + b).last() == b.last());
    }
}

/// Without hiragana the katakana form is the text itself.
pub proof fn law_katakana_stays(text: Seq<char>)
    requires
        !has_hiragana(text),
    ensures
        to_katakana(text) == text,
{
    assert forall|i: int| 0 <= i < text.len() implies to_katakana(text)[i] == text[i] by {
        assert(!is_hiragana(text[i]));
    }
    assert(to_katakana(text) =~= text);
}

/// A full-width katakana form holds no hiragana, so taking it twice changes
/// nothing.
pub proof fn law_katakana_has_no_hiragana(text: Seq<char>)
    ensures
        !has_hiragana(to_katakana(text)),
        to_katakana(to_katakana(text)) == to_katakana(text),
{
    assert forall|i: int| 0 <= i < text.len() implies !is_hiragana(#[trigger] to_katakana(text)[i]) by {
        assert(to_katakana(text)[i] == katakana_of(text[i]));
    }
    law_katakana_stays(to_katakana(text));
}

/// Variants equal to the candidate or to each other are not emitted.
pub proof fn law_variants_are_new_and_distinct(candidate: Seq<char>)
    ensures
        rewrites(candidate).len() <= 2,
        forall|i: int| 0 <= i < rewrites(candidate).len() ==> (#[trigger] rewrites(candidate)[i]).0
            != candidate,
        forall|i: int, j: int|
            0 <= i < j < rewrites(candidate).len() ==> (#[trigger] rewrites(candidate)[i]).0 != (
            #[trigger] rewrites(candidate)[j]).0,
{
    law_katakana_has_no_hiragana(candidate);
}

/// A candidate that is neither kana alone nor a number and kana has no
/// variants, whatever kana it holds.
pub proof fn law_other_candidates_are_left_alone(candidate: Seq<char>, i: int)
    requires
        0 <= i < candidate.len(),
        !in_kana_block(candidate[i]),
        !is_digit(candidate[i]),
    ensures
        rewrites(candidate).len() == 0,
{
    if exists|n: int| splits_at(candidate, n) {
        let n = choose|n: int| splits_at(candidate, n);
        assert(is_digit(candidate[i]) || is_counted_kana(candidate[i]));
    }
}

/// The full-width variant comes out exactly when a rewritable candidate has
/// hiragana, and comes first.
pub proof fn law_full_width_exactly_with_hiragana(candidate: Seq<char>)
    requires
        is_rewritable(candidate),
    ensures
        has_hiragana(candidate) ==> rewrites(candidate).len() > 0 && rewrites(candidate)[0]
            == full_width_variant(candidate),
        !has_hiragana(candidate) ==> rewrites(candidate).len() <= 1 && (rewrites(candidate).len() == 1
            ==> rewrites(candidate)[0] == half_width_variant(candidate)),
{
}

/// A number in front of kana keeps its spelling in every variant.
pub proof fn law_number_keeps_its_spelling(candidate: Seq<char>, n: int, i: int)
    requires
        splits_at(candidate, n),
        0 <= i < rewrites(candidate).len(),
    ensures
        rewrites(candidate)[i].0.len() >= n,
        rewrites(candidate)[i].0.take(n) == candidate.take(n),
{
    let digits = candidate.take(n);
    let kana = candidate.skip(n);
    assert(candidate =~= digits + kana);
    lemma_digits_stay(digits, kana);
    assert((digits + to_katakana(kana)).take(n) =~= digits);
    assert((digits + to_half_width(to_katakana(kana))).take(n) =~= digits);
}

impl HalfWidthKatakanaRewriter {
    /// The name of this rewriter.
    pub fn name(&self) -> (r: &'static str)
        ensures
            r@ == "katakana_form"@,
    {
        "katakana_form"
    }

    /// The katakana variants of a candidate, with their annotations.
    pub fn rewrite(&self, candidate: &str) -> (out: Vec<RewriteOutput>)
        ensures
            out.deep_view() == rewrites(candidate@),
    {
        let (prefix, suffix) = match decimal_prefix_parts(candidate) {
            Some(parts) => parts,
            None => {
                if candidate.is_empty() || !is_pure_kana(candidate) {
                    proof {
                        if candidate@.len() == 0 {
                            assert(candidate@ =~= Seq::empty());
                            assert(to_katakana(candidate@) =~= candidate@);
                        }
                    }
                    return Vec::new();
                }
                ("", candidate)
            },
        };
        proof {
            reveal_strlit("");
            assert(candidate@ =~= prefix@ + suffix@);
            assert(is_rewritable(candidate@));
            assert forall|i: int| 0 <= i < prefix@.len() implies is_digit(#[trigger] prefix@[i]) by {
                assert(prefix@[i] == candidate@[i]);
            }
            lemma_digits_stay(prefix@, suffix@);
            if !has_hiragana(suffix@) {
                law_katakana_stays(suffix@);
            }
        }
        let mut out: Vec<RewriteOutput> = Vec::new();
        let has_hiragana_suffix: bool = contains_hiragana(suffix);
        let full_suffix = if has_hiragana_suffix {
            hiragana_to_katakana(suffix)
        } else {
            suffix.to_owned()
        };
        let full = with_prefix(prefix, full_suffix.as_str());
        let half = with_prefix(prefix, katakana_to_half_width(full_suffix.as_str()).as_str());
        let unchanged = candidate.to_owned();
        let emit_half: bool = !(half == unchanged) && !(half == full);
        if has_hiragana_suffix {
            out.push((full, Some(FULL_KATAKANA_DESC.to_owned())));
        }
        if emit_half {
            out.push((half, Some(HALF_KATAKANA_DESC.to_owned())));
        }
        out
    }
}

} // verus!
