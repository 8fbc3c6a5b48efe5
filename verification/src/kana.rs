//! Kana character classes and width conversions.

use vstd::prelude::*;

verus! {

/// `char::from_u32` yields the character with the given scalar value, and
/// nothing for a surrogate or a value past the last code point.
pub assume_specification[ char::from_u32 ](i: u32) -> (r: Option<char>)
    ensures
        r matches Some(c) ==> c as int == i,
        r is Some <==> (i < 0xD800 || 0xE000 <= i <= 0x10FFFF),
;

/// `String::push` appends the given character to the end of the string.
pub assume_specification[ String::push ](s: &mut String, c: char)
    ensures
        final(s)@ == old(s)@.push(c),
;

/// The hiragana letters.
pub open spec fn is_hiragana(c: char) -> bool {
    0x3041 <= c as int <= 0x3096
}

/// The characters of the katakana block, with its punctuation.
pub open spec fn is_katakana(c: char) -> bool {
    0x30A0 <= c as int <= 0x30FF
}

/// The hiragana letters and the katakana block.
pub open spec fn is_kana(c: char) -> bool {
    is_hiragana(c) || is_katakana(c)
}

/// Some character of the text is a hiragana letter.
pub open spec fn has_hiragana(text: Seq<char>) -> bool {
    exists|i: int| 0 <= i < text.len() && is_hiragana(#[trigger] text[i])
}

/// Some character of the text is kana.
pub open spec fn has_kana(text: Seq<char>) -> bool {
    exists|i: int| 0 <= i < text.len() && is_kana(#[trigger] text[i])
}

/// The characters of the hiragana and katakana blocks, letters, marks and
/// punctuation alike.
pub open spec fn in_kana_block(c: char) -> bool {
    0x3040 <= c as int <= 0x30FF
}

/// Every character of the text is in the hiragana or katakana block.
pub open spec fn all_in_kana_blocks(text: Seq<char>) -> bool {
    forall|i: int| 0 <= i < text.len() ==> in_kana_block(#[trigger] text[i])
}

/// The katakana letter with the same sound as a hiragana letter; any other
/// character stays as it is.
pub open spec fn katakana_of(c: char) -> char {
    if is_hiragana(c) {
        (c as int + 0x60) as char
    } else {
        c
    }
}

/// A text with every hiragana letter replaced by its katakana counterpart.
pub open spec fn to_katakana(text: Seq<char>) -> Seq<char> {
    text.map_values(|c: char| katakana_of(c))
}

/// The half-width spelling of one full-width katakana character. A voiced
/// letter becomes its base letter and a mark. A character without a
/// half-width form stays as it is.
pub open spec fn half_width_of(c: char) -> Seq<char> {
    match c {
        'ァ' => seq!['ｧ'], 'ア' => seq!['ｱ'],
        'ィ' => seq!['ｨ'], 'イ' => seq!['ｲ'],
        'ゥ' => seq!['ｩ'], 'ウ' => seq!['ｳ'],
        'ェ' => seq!['ｪ'], 'エ' => seq!['ｴ'],
        'ォ' => seq!['ｫ'], 'オ' => seq!['ｵ'],
        'カ' => seq!['ｶ'], 'ガ' => seq!['ｶ', 'ﾞ'],
        'キ' => seq!['ｷ'], 'ギ' => seq!['ｷ', 'ﾞ'],
        'ク' => seq!['ｸ'], 'グ' => seq!['ｸ', 'ﾞ'],
        'ケ' => seq!['ｹ'], 'ゲ' => seq!['ｹ', 'ﾞ'],
        'コ' => seq!['ｺ'], 'ゴ' => seq!['ｺ', 'ﾞ'],
        'サ' => seq!['ｻ'], 'ザ' => seq!['ｻ', 'ﾞ'],
        'シ' => seq!['ｼ'], 'ジ' => seq!['ｼ', 'ﾞ'],
        'ス' => seq!['ｽ'], 'ズ' => seq!['ｽ', 'ﾞ'],
        'セ' => seq!['ｾ'], 'ゼ' => seq!['ｾ', 'ﾞ'],
        'ソ' => seq!['ｿ'], 'ゾ' => seq!['ｿ', 'ﾞ'],
        'タ' => seq!['ﾀ'], 'ダ' => seq!['ﾀ', 'ﾞ'],
        'チ' => seq!['ﾁ'], 'ヂ' => seq!['ﾁ', 'ﾞ'],
        'ッ' => seq!['ｯ'],
        'ツ' => seq!['ﾂ'], 'ヅ' => seq!['ﾂ', 'ﾞ'],
        'テ' => seq!['ﾃ'], 'デ' => seq!['ﾃ', 'ﾞ'],
        'ト' => seq!['ﾄ'], 'ド' => seq!['ﾄ', 'ﾞ'],
        'ナ' => seq!['ﾅ'], 'ニ' => seq!['ﾆ'], 'ヌ' => seq!['ﾇ'],
        'ネ' => seq!['ﾈ'], 'ノ' => seq!['ﾉ'],
        'ハ' => seq!['ﾊ'], 'バ' => seq!['ﾊ', 'ﾞ'], 'パ' => seq!['ﾊ', 'ﾟ'],
        'ヒ' => seq!['ﾋ'], 'ビ' => seq!['ﾋ', 'ﾞ'], 'ピ' => seq!['ﾋ', 'ﾟ'],
        'フ' => seq!['ﾌ'], 'ブ' => seq!['ﾌ', 'ﾞ'], 'プ' => seq!['ﾌ', 'ﾟ'],
        'ヘ' => seq!['ﾍ'], 'ベ' => seq!['ﾍ', 'ﾞ'], 'ペ' => seq!['ﾍ', 'ﾟ'],
        'ホ' => seq!['ﾎ'], 'ボ' => seq!['ﾎ', 'ﾞ'], 'ポ' => seq!['ﾎ', 'ﾟ'],
        'マ' => seq!['ﾏ'], 'ミ' => seq!['ﾐ'], 'ム' => seq!['ﾑ'],
        'メ' => seq!['ﾒ'], 'モ' => seq!['ﾓ'],
        'ャ' => seq!['ｬ'], 'ヤ' => seq!['ﾔ'],
        'ュ' => seq!['ｭ'], 'ユ' => seq!['ﾕ'],
        'ョ' => seq!['ｮ'], 'ヨ' => seq!['ﾖ'],
        'ラ' => seq!['ﾗ'], 'リ' => seq!['ﾘ'], 'ル' => seq!['ﾙ'],
        'レ' => seq!['ﾚ'], 'ロ' => seq!['ﾛ'],
        'ワ' => seq!['ﾜ'], 'ヲ' => seq!['ｦ'], 'ン' => seq!['ﾝ'],
        'ヴ' => seq!['ｳ', 'ﾞ'],
        '・' => seq!['･'],
        'ー' => seq!['ｰ'],
        _ => seq![c],
    }
}

/// The half-width spelling of a text, character by character.
pub open spec fn to_half_width(text: Seq<char>) -> Seq<char>
    decreases text.len(),
{
    if text.len() == 0 {
        Seq::empty()
    } else {
        to_half_width(text.drop_last()) + half_width_of(text.last())
    }
}

/// The character with a scalar value that is one.
fn char_with_code(code: u32) -> (c: char)
    requires
        code < 0xD800 || 0xE000 <= code <= 0x10FFFF,
    ensures
        c as int == code,
{
    match char::from_u32(code) {
        Some(c) => c,
        None => {
            assert(false);
            ' '
        },
    }
}

fn is_kana_char(c: char) -> (r: bool)
    ensures
        r == is_kana(c),
{
    matches!(c, '\u{3041}'..='\u{3096}' | '\u{30A0}'..='\u{30FF}')
}

/// Whether some character of the text is kana.
pub fn contains_kana(text: &str) -> (r: bool)
    ensures
        r == has_kana(text@),
{
    for c in it: text.chars()
        invariant
            it.seq() == text@,
            forall|i: int| 0 <= i < it.index() ==> !is_kana(#[trigger] text@[i]),
    {
        if is_kana_char(c) {
            return true;
        }
    }
    false
}

/// Replaces every hiragana letter by the corresponding katakana letter.
pub fn hiragana_to_katakana(text: &str) -> (out: String)
    ensures
        out@ == to_katakana(text@),
{
    let mut out = String::new();
    for c in it: text.chars()
        invariant
            it.seq() == text@,
            out@ == to_katakana(text@.take(it.index() as int)),
    {
        let code: u32 = c as u32;
        proof {
            let done = text@.take(it.index() as int);
            assert(text@.take(it.index() as int + 1) == done.push(c));
            assert(to_katakana(done.push(c)) == to_katakana(done).push(katakana_of(c)));
        }
        if 0x3041 <= code && code <= 0x3096 {
            out.push(char_with_code(code + 0x60));
        } else {
            out.push(c);
        }
    }
    proof {
        assert(text@.take(text@.len() as int) == text@);
    }
    out
}

/// Appends one letter and, for a voiced letter, its mark.
fn push_half_width(out: &mut String, base: u32, mark: Option<char>)
    requires
        0xFF65 <= base <= 0xFF9D,
    ensures
        mark is None ==> final(out)@ == old(out)@ + seq![base as char],
        mark matches Some(m) ==> final(out)@ == old(out)@ + seq![base as char, m],
{
    out.push(char_with_code(base));
    match mark {
        Some(m) => out.push(m),
        None => {},
    }
}

/// Appends the half-width spelling of one character. The half-width block
/// keeps the order of the full-width one, without the voiced letters.
fn push_half_width_of(out: &mut String, c: char)
    ensures
        final(out)@ == old(out)@ + half_width_of(c),
{
    let code: u32 = c as u32;
    if 0x30A1 <= code && code <= 0x30AA {
        let offset: u32 = code - 0x30A1;
        if offset % 2 == 0 {
            push_half_width(out, 0xFF67 + offset / 2, None);
        } else {
            push_half_width(out, 0xFF71 + offset / 2, None);
        }
    } else if 0x30AB <= code && code <= 0x30C2 {
        let offset: u32 = code - 0x30AB;
        let mark = if offset % 2 == 0 { None } else { Some('ﾞ') };
        push_half_width(out, 0xFF76 + offset / 2, mark);
    } else if 0x30C4 <= code && code <= 0x30C9 {
        let offset: u32 = code - 0x30C4;
        let mark = if offset % 2 == 0 { None } else { Some('ﾞ') };
        push_half_width(out, 0xFF82 + offset / 2, mark);
    } else if 0x30CA <= code && code <= 0x30CE {
        push_half_width(out, 0xFF85 + (code - 0x30CA), None);
    } else if 0x30CF <= code && code <= 0x30DD {
        let offset: u32 = code - 0x30CF;
        let mark = if offset % 3 == 0 {
            None
        } else if offset % 3 == 1 {
            Some('ﾞ')
        } else {
            Some('ﾟ')
        };
        push_half_width(out, 0xFF8A + offset / 3, mark);
    } else if 0x30DE <= code && code <= 0x30E2 {
        push_half_width(out, 0xFF8F + (code - 0x30DE), None);
    } else if 0x30E3 <= code && code <= 0x30E8 {
        let offset: u32 = code - 0x30E3;
        if offset % 2 == 0 {
            push_half_width(out, 0xFF6C + offset / 2, None);
        } else {
            push_half_width(out, 0xFF94 + offset / 2, None);
        }
    } else if 0x30E9 <= code && code <= 0x30ED {
        push_half_width(out, 0xFF97 + (code - 0x30E9), None);
    } else {
        match c {
            'ッ' => push_half_width(out, 0xFF6F, None),
            'ワ' => push_half_width(out, 0xFF9C, None),
            'ヲ' => push_half_width(out, 0xFF66, None),
            'ン' => push_half_width(out, 0xFF9D, None),
            'ヴ' => push_half_width(out, 0xFF73, Some('ﾞ')),
            '・' => push_half_width(out, 0xFF65, None),
            'ー' => push_half_width(out, 0xFF70, None),
            _ => out.push(c),
        }
    }
}

/// Replaces every full-width katakana character by its half-width spelling.
pub fn katakana_to_half_width(text: &str) -> (out: String)
    ensures
        out@ == to_half_width(text@),
{
    let mut out = String::new();
    for c in it: text.chars()
        invariant
            it.seq() == text@,
            out@ == to_half_width(text@.take(it.index() as int)),
    {
        proof {
            let done = text@.take(it.index() as int);
            let next = text@.take(it.index() as int + 1);
            assert(next.drop_last() == done);
            assert(next.last() == c);
        }
        push_half_width_of(&mut out, c);
    }
    proof {
        assert(text@.take(text@.len() as int) == text@);
    }
    out
}

} // verus!
