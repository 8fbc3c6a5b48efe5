//! What the kana classes, the width conversions and the rewriter amount to,
//! letter by letter.

use vstd::prelude::*;

use crate::half_katakana::{is_counted_kana, is_digit, is_rewritable, rewrites, splits_at};
use crate::kana::{
    all_in_kana_blocks, half_width_of, has_hiragana, has_kana, in_kana_block, is_hiragana, is_kana,
    katakana_of, to_half_width, to_katakana,
};

verus! {

/// The hiragana letters go from `ぁ` to `ゖ`; kana are these and all of the
/// katakana block; the kana blocks hold marks and punctuation as well. A
/// number has decimal digits of either width, and is followed by kana other
/// than the punctuation of the blocks.
pub proof fn law_kana_classes(c: char)
    ensures
        is_hiragana(c) <==> 'ぁ' as int <= c as int <= 'ゖ' as int,
        is_kana(c) <==> 'ぁ' as int <= c as int <= 'ゖ' as int || '゠' as int <= c as int
            <= 'ヿ' as int,
        in_kana_block(c) <==> 'ぁ' as int - 1 <= c as int <= 'ヿ' as int,
        is_digit(c) <==> '0' as int <= c as int <= '9' as int || '０' as int <= c as int
            <= '９' as int,
        is_counted_kana(c) <==> in_kana_block(c) && c as int >= 'ぁ' as int && c as int != 0x3097
            && c as int != 0x3098 && c != '゠' && c != '・',
{
}

/// A text has hiragana, or kana, if some character is; it is in the kana
/// blocks if every character is.
pub proof fn law_text_classes(text: Seq<char>)
    ensures
        has_hiragana(text) <==> exists|i: int|
            0 <= i < text.len() && 'ぁ' as int <= #[trigger] text[i] as int <= 'ゖ' as int,
        has_kana(text) <==> exists|i: int|
            0 <= i < text.len() && ('ぁ' as int <= #[trigger] text[i] as int <= 'ゖ' as int || '゠'
                as int <= text[i] as int <= 'ヿ' as int),
        all_in_kana_blocks(text) <==> forall|i: int|
            0 <= i < text.len() ==> 'ぁ' as int - 1 <= #[trigger] text[i] as int <= 'ヿ' as int,
{
    if has_hiragana(text) {
        let i = choose|i: int| 0 <= i < text.len() && is_hiragana(#[trigger] text[i]);
        law_kana_classes(text[i]);
    }
    if exists|i: int|
        0 <= i < text.len() && 'ぁ' as int <= #[trigger] text[i] as int <= 'ゖ' as int {
        let i = choose|i: int|
            0 <= i < text.len() && 'ぁ' as int <= #[trigger] text[i] as int <= 'ゖ' as int;
        assert(is_hiragana(text[i]));
    }
    if has_kana(text) {
        let i = choose|i: int| 0 <= i < text.len() && is_kana(#[trigger] text[i]);
        law_kana_classes(text[i]);
    }
    if exists|i: int|
        0 <= i < text.len() && ('ぁ' as int <= #[trigger] text[i] as int <= 'ゖ' as int || '゠' as int
            <= text[i] as int <= 'ヿ' as int) {
        let i = choose|i: int|
            0 <= i < text.len() && ('ぁ' as int <= #[trigger] text[i] as int <= 'ゖ' as int || '゠'
                as int <= text[i] as int <= 'ヿ' as int);
        assert(is_kana(text[i]));
    }
}

/// The katakana form has as many characters as the text. A hiragana letter
/// becomes the katakana letter in the same place of its block, and any other
/// character stays.
pub proof fn law_katakana_letter_by_letter(text: Seq<char>)
    ensures
        to_katakana(text).len() == text.len(),
        forall|i: int|
            0 <= i < text.len() ==> #[trigger] to_katakana(text)[i] as int == if 'ぁ' as int
                <= text[i] as int <= 'ゖ' as int {
                text[i] as int - 'ぁ' as int + 'ァ' as int
            } else {
                text[i] as int
            },
{
    assert forall|i: int| 0 <= i < text.len() implies #[trigger] to_katakana(text)[i] as int
        == if 'ぁ' as int <= text[i] as int <= 'ゖ' as int {
        text[i] as int - 'ぁ' as int + 'ァ' as int
    } else {
        text[i] as int
    } by {
        assert(to_katakana(text)[i] == katakana_of(text[i]));
    }
}

/// The half-width spelling of a text is that of its parts, one behind the
/// other.
pub proof fn law_half_width_part_by_part(a: Seq<char>, b: Seq<char>, c: char)
    ensures
        to_half_width(Seq::empty()) == Seq::<char>::empty(),
        to_half_width(seq![c]) == half_width_of(c),
        to_half_width(a + b) == to_half_width(a) + to_half_width(b),
    decreases b.len(),
{
    reveal_with_fuel(to_half_width, 2);
    assert(seq![c].drop_last() =~= Seq::empty());
    assert(seq![c].last() == c);
    assert(to_half_width(seq![c]) =~= half_width_of(c));
    if b.len() == 0 {
        assert(a + b =~= a);
        assert(to_half_width(a) + to_half_width(b) =~= to_half_width(a));
    } else {
        law_half_width_part_by_part(a, b.drop_last(), c);
        assert((a + b).drop_last() =~= a + b.drop_last());
        assert((a + b).last() == b.last());
    }
}

/// The half-width letter `k` places behind another.
pub open spec fn letter(first: char, k: int) -> char {
    (first as int + k) as char
}

/// Half-width letters come in the order of the full-width ones. A letter with
/// a voicing mark is spelled as its base letter and the mark. The rows are
/// small and large vowels, the rows that can be voiced, the one that can also
/// be half-voiced, and the others.
pub proof fn law_half_width_rows(k: int)
    ensures
        0 <= k < 5 ==> {
            &&& half_width_of(letter('ァ', 2 * k)) == seq![letter('ｧ', k)]
            &&& half_width_of(letter('ア', 2 * k)) == seq![letter('ｱ', k)]
            &&& half_width_of(letter('ナ', k)) == seq![letter('ﾅ', k)]
            &&& half_width_of(letter('ハ', 3 * k)) == seq![letter('ﾊ', k)]
            &&& half_width_of(letter('バ', 3 * k)) == seq![letter('ﾊ', k), 'ﾞ']
            &&& half_width_of(letter('パ', 3 * k)) == seq![letter('ﾊ', k), 'ﾟ']
            &&& half_width_of(letter('マ', k)) == seq![letter('ﾏ', k)]
            &&& half_width_of(letter('ラ', k)) == seq![letter('ﾗ', k)]
        },
        0 <= k < 12 ==> {
            &&& half_width_of(letter('カ', 2 * k)) == seq![letter('ｶ', k)]
            &&& half_width_of(letter('ガ', 2 * k)) == seq![letter('ｶ', k), 'ﾞ']
        },
        0 <= k < 3 ==> {
            &&& half_width_of(letter('ツ', 2 * k)) == seq![letter('ﾂ', k)]
            &&& half_width_of(letter('ヅ', 2 * k)) == seq![letter('ﾂ', k), 'ﾞ']
            &&& half_width_of(letter('ャ', 2 * k)) == seq![letter('ｬ', k)]
            &&& half_width_of(letter('ヤ', 2 * k)) == seq![letter('ﾔ', k)]
        },
        half_width_of('ッ') == seq!['ｯ'],
        half_width_of('ワ') == seq!['ﾜ'],
        half_width_of('ヲ') == seq!['ｦ'],
        half_width_of('ン') == seq!['ﾝ'],
        half_width_of('ヴ') == seq!['ｳ', 'ﾞ'],
        half_width_of('・') == seq!['･'],
        half_width_of('ー') == seq!['ｰ'],
{
}

/// What has no half-width letter stays: everything outside of the katakana
/// letters, and the letters that are not in use on their own.
pub proof fn law_other_characters_stay(c: char)
    requires
        (c as int) < 'ァ' as int || 'ー' as int <= c as int || 'ヮ' as int <= c as int <= 'ヺ' as int,
        c != 'ワ' && c != 'ヲ' && c != 'ン' && c != 'ヴ' && c != 'ー',
    ensures
        half_width_of(c) == seq![c],
{
}

/// A candidate splits behind its first `n` characters if these are all digits
/// and the others all kana, with at least one of each.
pub proof fn law_number_and_kana(text: Seq<char>, n: int)
    ensures
        splits_at(text, n) <==> {
            &&& 0 < n < text.len()
            &&& forall|i: int|
                0 <= i < n ==> '0' as int <= #[trigger] text[i] as int <= '9' as int || '０' as int
                    <= text[i] as int <= '９' as int
            &&& forall|i: int|
                n <= i < text.len() ==> {
                    &&& 'ぁ' as int <= #[trigger] text[i] as int <= 'ヿ' as int
                    &&& text[i] as int != 0x3097
                    &&& text[i] as int != 0x3098
                    &&& text[i] != '゠'
                    &&& text[i] != '・'
                }
        },
{
    assert forall|i: int| 0 <= i < text.len() implies {
        &&& is_digit(#[trigger] text[i]) <==> '0' as int <= text[i] as int <= '9' as int || '０'
            as int <= text[i] as int <= '９' as int
        &&& is_counted_kana(text[i]) <==> {
            &&& 'ぁ' as int <= text[i] as int <= 'ヿ' as int
            &&& text[i] as int != 0x3097
            &&& text[i] as int != 0x3098
            &&& text[i] != '゠'
            &&& text[i] != '・'
        }
    } by {
        law_kana_classes(text[i]);
    }
}

/// Kana alone, or a number and kana, has exactly these variants: the
/// full-width form where there is hiragana, and behind it the half-width form
/// where that is new. Nothing else has any.
pub proof fn law_variants(candidate: Seq<char>, variant: (Seq<char>, Option<Seq<char>>))
    ensures
        ({
            let full = to_katakana(candidate);
            let half = to_half_width(full);
            let out = rewrites(candidate);
            let rewritten = all_in_kana_blocks(candidate) || exists|n: int|
                #[trigger] splits_at(candidate, n);
            &&& out.contains(variant) <==> rewritten && ({
                ||| variant == (full, Some("[全]カタカナ"@)) && has_hiragana(candidate)
                ||| variant == (half, Some("[半]カタカナ"@)) && half != candidate && half != full
            })
            &&& out.len() > 1 ==> out.len() == 2 && out[0].0 == full && out[1].0 == half
        }),
{
    let full = (to_katakana(candidate), Some("[全]カタカナ"@));
    let half = (to_half_width(full.0), Some("[半]カタカナ"@));
    let out = rewrites(candidate);
    if is_rewritable(candidate) {
        assert(out.contains(variant) ==> variant == full || variant == half);
        if has_hiragana(candidate) {
            assert(out[0] == full);
        }
        if half.0 != candidate && half.0 != full.0 {
            assert(out[out.len() - 1] == half);
        }
    }
}

} // verus!
