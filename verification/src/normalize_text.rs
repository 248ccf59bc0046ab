//! Text normalization before dictionary lookup: ASCII and half-width
//! katakana become their full-width forms, and voiced and semi-voiced
//! sound marks are combined with the kana before them.

use vstd::prelude::*;

use crate::text::{char_from_u32, chars_of, push_char};

verus! {

/// The characters that are replaced by a fixed full-width or combined form.
pub open spec fn halfwidth_table(c: char) -> Option<char> {
    match c {
        ' ' => Some('\u{3000}'),
        '\u{a5}' => Some('￥'),
        '\u{5c}' => Some('￥'),
        '-' => Some('−'),
        '~' => Some('〜'),
        '`' => Some('‘'),
        '"' => Some('”'),
        '\u{27}' => Some('’'),
        '｡' => Some('。'),
        '｢' => Some('「'),
        '｣' => Some('」'),
        '､' => Some('、'),
        '･' => Some('・'),
        'ｦ' => Some('ヲ'),
        'ｧ' => Some('ァ'),
        'ｨ' => Some('ィ'),
        'ｩ' => Some('ゥ'),
        'ｪ' => Some('ェ'),
        'ｫ' => Some('ォ'),
        'ｬ' => Some('ャ'),
        'ｭ' => Some('ュ'),
        'ｮ' => Some('ョ'),
        'ｯ' => Some('ッ'),
        'ｰ' => Some('ー'),
        'ｱ' => Some('ア'),
        'ｲ' => Some('イ'),
        'ｳ' => Some('ウ'),
        'ｴ' => Some('エ'),
        'ｵ' => Some('オ'),
        'ｶ' => Some('カ'),
        'ｷ' => Some('キ'),
        'ｸ' => Some('ク'),
        'ｹ' => Some('ケ'),
        'ｺ' => Some('コ'),
        'ｻ' => Some('サ'),
        'ｼ' => Some('シ'),
        'ｽ' => Some('ス'),
        'ｾ' => Some('セ'),
        'ｿ' => Some('ソ'),
        'ﾀ' => Some('タ'),
        'ﾁ' => Some('チ'),
        'ﾂ' => Some('ツ'),
        'ﾃ' => Some('テ'),
        'ﾄ' => Some('ト'),
        'ﾅ' => Some('ナ'),
        'ﾆ' => Some('ニ'),
        'ﾇ' => Some('ヌ'),
        'ﾈ' => Some('ネ'),
        'ﾉ' => Some('ノ'),
        'ﾊ' => Some('ハ'),
        'ﾋ' => Some('ヒ'),
        'ﾌ' => Some('フ'),
        'ﾍ' => Some('ヘ'),
        'ﾎ' => Some('ホ'),
        'ﾏ' => Some('マ'),
        'ﾐ' => Some('ミ'),
        'ﾑ' => Some('ム'),
        'ﾒ' => Some('メ'),
        'ﾓ' => Some('モ'),
        'ﾔ' => Some('ヤ'),
        'ﾕ' => Some('ユ'),
        'ﾖ' => Some('ヨ'),
        'ﾗ' => Some('ラ'),
        'ﾘ' => Some('リ'),
        'ﾙ' => Some('ル'),
        'ﾚ' => Some('レ'),
        'ﾛ' => Some('ロ'),
        'ﾜ' => Some('ワ'),
        'ﾝ' => Some('ン'),
        _ => None,
    }
}

fn halfwidth_exec(c: char) -> (r: Option<char>)
    ensures
        r == halfwidth_table(c),
{
    match c {
        ' ' => Some('\u{3000}'),
        '\u{a5}' => Some('￥'),
        '\u{5c}' => Some('￥'),
        '-' => Some('−'),
        '~' => Some('〜'),
        '`' => Some('‘'),
        '"' => Some('”'),
        '\u{27}' => Some('’'),
        '｡' => Some('。'),
        '｢' => Some('「'),
        '｣' => Some('」'),
        '､' => Some('、'),
        '･' => Some('・'),
        'ｦ' => Some('ヲ'),
        'ｧ' => Some('ァ'),
        'ｨ' => Some('ィ'),
        'ｩ' => Some('ゥ'),
        'ｪ' => Some('ェ'),
        'ｫ' => Some('ォ'),
        'ｬ' => Some('ャ'),
        'ｭ' => Some('ュ'),
        'ｮ' => Some('ョ'),
        'ｯ' => Some('ッ'),
        'ｰ' => Some('ー'),
        'ｱ' => Some('ア'),
        'ｲ' => Some('イ'),
        'ｳ' => Some('ウ'),
        'ｴ' => Some('エ'),
        'ｵ' => Some('オ'),
        'ｶ' => Some('カ'),
        'ｷ' => Some('キ'),
        'ｸ' => Some('ク'),
        'ｹ' => Some('ケ'),
        'ｺ' => Some('コ'),
        'ｻ' => Some('サ'),
        'ｼ' => Some('シ'),
        'ｽ' => Some('ス'),
        'ｾ' => Some('セ'),
        'ｿ' => Some('ソ'),
        'ﾀ' => Some('タ'),
        'ﾁ' => Some('チ'),
        'ﾂ' => Some('ツ'),
        'ﾃ' => Some('テ'),
        'ﾄ' => Some('ト'),
        'ﾅ' => Some('ナ'),
        'ﾆ' => Some('ニ'),
        'ﾇ' => Some('ヌ'),
        'ﾈ' => Some('ネ'),
        'ﾉ' => Some('ノ'),
        'ﾊ' => Some('ハ'),
        'ﾋ' => Some('ヒ'),
        'ﾌ' => Some('フ'),
        'ﾍ' => Some('ヘ'),
        'ﾎ' => Some('ホ'),
        'ﾏ' => Some('マ'),
        'ﾐ' => Some('ミ'),
        'ﾑ' => Some('ム'),
        'ﾒ' => Some('メ'),
        'ﾓ' => Some('モ'),
        'ﾔ' => Some('ヤ'),
        'ﾕ' => Some('ユ'),
        'ﾖ' => Some('ヨ'),
        'ﾗ' => Some('ラ'),
        'ﾘ' => Some('リ'),
        'ﾙ' => Some('ル'),
        'ﾚ' => Some('レ'),
        'ﾛ' => Some('ロ'),
        'ﾜ' => Some('ワ'),
        'ﾝ' => Some('ン'),
        _ => None,
    }
}

/// The kana that a semi-voiced sound mark combines with.
pub open spec fn semivoiced_table(c: char) -> Option<char> {
    match c {
        'ハ' => Some('パ'),
        'ヒ' => Some('ピ'),
        'フ' => Some('プ'),
        'ヘ' => Some('ペ'),
        'ホ' => Some('ポ'),
        'は' => Some('ぱ'),
        'ひ' => Some('ぴ'),
        'ふ' => Some('ぷ'),
        'へ' => Some('ぺ'),
        'ほ' => Some('ぽ'),
        _ => None,
    }
}

fn semivoiced_exec(c: char) -> (r: Option<char>)
    ensures
        r == semivoiced_table(c),
{
    match c {
        'ハ' => Some('パ'),
        'ヒ' => Some('ピ'),
        'フ' => Some('プ'),
        'ヘ' => Some('ペ'),
        'ホ' => Some('ポ'),
        'は' => Some('ぱ'),
        'ひ' => Some('ぴ'),
        'ふ' => Some('ぷ'),
        'へ' => Some('ぺ'),
        'ほ' => Some('ぽ'),
        _ => None,
    }
}

/// The kana that a voiced sound mark combines with.
pub open spec fn voiced_table(c: char) -> Option<char> {
    match c {
        'カ' => Some('ガ'),
        'キ' => Some('ギ'),
        'ク' => Some('グ'),
        'ケ' => Some('ゲ'),
        'コ' => Some('ゴ'),
        'サ' => Some('ザ'),
        'シ' => Some('ジ'),
        'ス' => Some('ズ'),
        'セ' => Some('ゼ'),
        'ソ' => Some('ゾ'),
        'タ' => Some('ダ'),
        'チ' => Some('ヂ'),
        'ツ' => Some('ヅ'),
        'テ' => Some('デ'),
        'ト' => Some('ド'),
        'ハ' => Some('バ'),
        'ヒ' => Some('ビ'),
        'フ' => Some('ブ'),
        'ヘ' => Some('ベ'),
        'ホ' => Some('ボ'),
        'ウ' => Some('ヴ'),
        'ワ' => Some('ヷ'),
        'ヰ' => Some('ヸ'),
        'ヱ' => Some('ヹ'),
        'ヲ' => Some('ヺ'),
        'ヽ' => Some('ヾ'),
        'か' => Some('が'),
        'き' => Some('ぎ'),
        'く' => Some('ぐ'),
        'け' => Some('げ'),
        'こ' => Some('ご'),
        'さ' => Some('ざ'),
        'し' => Some('じ'),
        'す' => Some('ず'),
        'せ' => Some('ぜ'),
        'そ' => Some('ぞ'),
        'た' => Some('だ'),
        'ち' => Some('ぢ'),
        'つ' => Some('づ'),
        'て' => Some('で'),
        'と' => Some('ど'),
        'は' => Some('ば'),
        'ひ' => Some('び'),
        'ふ' => Some('ぶ'),
        'へ' => Some('べ'),
        'ほ' => Some('ぼ'),
        'う' => Some('ゔ'),
        _ => None,
    }
}

fn voiced_exec(c: char) -> (r: Option<char>)
    ensures
        r == voiced_table(c),
{
    match c {
        'カ' => Some('ガ'),
        'キ' => Some('ギ'),
        'ク' => Some('グ'),
        'ケ' => Some('ゲ'),
        'コ' => Some('ゴ'),
        'サ' => Some('ザ'),
        'シ' => Some('ジ'),
        'ス' => Some('ズ'),
        'セ' => Some('ゼ'),
        'ソ' => Some('ゾ'),
        'タ' => Some('ダ'),
        'チ' => Some('ヂ'),
        'ツ' => Some('ヅ'),
        'テ' => Some('デ'),
        'ト' => Some('ド'),
        'ハ' => Some('バ'),
        'ヒ' => Some('ビ'),
        'フ' => Some('ブ'),
        'ヘ' => Some('ベ'),
        'ホ' => Some('ボ'),
        'ウ' => Some('ヴ'),
        'ワ' => Some('ヷ'),
        'ヰ' => Some('ヸ'),
        'ヱ' => Some('ヹ'),
        'ヲ' => Some('ヺ'),
        'ヽ' => Some('ヾ'),
        'か' => Some('が'),
        'き' => Some('ぎ'),
        'く' => Some('ぐ'),
        'け' => Some('げ'),
        'こ' => Some('ご'),
        'さ' => Some('ざ'),
        'し' => Some('じ'),
        'す' => Some('ず'),
        'せ' => Some('ぜ'),
        'そ' => Some('ぞ'),
        'た' => Some('だ'),
        'ち' => Some('ぢ'),
        'つ' => Some('づ'),
        'て' => Some('で'),
        'と' => Some('ど'),
        'は' => Some('ば'),
        'ひ' => Some('び'),
        'ふ' => Some('ぶ'),
        'へ' => Some('べ'),
        'ほ' => Some('ぼ'),
        'う' => Some('ゔ'),
        _ => None,
    }
}

/// A semi-voiced sound mark (combining, spacing or half-width).
pub open spec fn is_semivoiced_mark(c: char) -> bool {
    c == '\u{309a}' || c == '\u{309c}' || c == '\u{ff9f}'
}

/// A voiced sound mark (combining, spacing or half-width).
pub open spec fn is_voiced_mark(c: char) -> bool {
    c == '\u{3099}' || c == '\u{309b}' || c == '\u{ff9e}'
}
/// The full-width or fixed replacement of a single character: the table
/// first, then printable ASCII moved to the full-width block, else the
/// character itself.
pub open spec fn widened(c: char) -> char {
    match halfwidth_table(c) {
        Some(r) => r,
        None => if 0x20 < (c as u32) < 0x7f {
            (((c as u32) + 0xfee0) as u32) as char
        } else {
            c
        },
    }
}

/// The state of the combining step: the text so far, and the character
/// still held back because a sound mark may follow it.
pub type Pending = (Seq<char>, Option<char>);

/// Takes the character `curr`: a sound mark combines with the held
/// character where the table has a combined form (and is dropped
/// otherwise); any other character is held back in turn.
pub open spec fn combine_step(st: Pending, curr: char) -> Pending {
    let (acc, prev) = st;
    let semi = is_semivoiced_mark(curr);
    let voiced = is_voiced_mark(curr);
    let combined = if semi {
        match prev {
            Some(p) => semivoiced_table(p),
            None => None,
        }
    } else if voiced {
        match prev {
            Some(p) => voiced_table(p),
            None => None,
        }
    } else {
        None
    };
    let acc1 = match combined {
        Some(x) => acc.push(x),
        None => match prev {
            Some(p) => acc.push(p),
            None => acc,
        },
    };
    (acc1, if semi || voiced {
        None
    } else {
        Some(curr)
    })
}

/// The combining step over all of `cs`.
pub open spec fn combine_all(cs: Seq<char>) -> Pending
    decreases cs.len(),
{
    if cs.len() == 0 {
        (Seq::empty(), None)
    } else {
        combine_step(combine_all(cs.drop_last()), cs.last())
    }
}

/// The normalized text.
pub open spec fn normalized(s: Seq<char>) -> Seq<char> {
    let (acc, last) = combine_all(s.map_values(|c: char| widened(c)));
    match last {
        Some(c) => acc.push(c),
        None => acc,
    }
}

proof fn lemma_char_code(c: char, v: u32)
    requires
        c as u32 == v,
    ensures
        c == v as char,
{
}

fn widen(c: char) -> (r: char)
    ensures
        r == widened(c),
{
    match halfwidth_exec(c) {
        Some(r) => r,
        None => {
            let v = c as u32;
            if 0x20 < v && v < 0x7f {
                let t: u32 = v + 0xfee0;
                match char_from_u32(t) {
                    Some(w) => {
                        assert(w as u32 == t);
                        proof {
                            lemma_char_code(w, t);
                        }
                        w
                    },
                    None => c,
                }
            } else {
                c
            }
        },
    }
}

/// Normalizes text before dictionary lookup (see `normalized`).
pub fn normalize_text_for_naist_jdic(input_text: &str) -> (r: String)
    ensures
        r@ == normalized(input_text@),
{
    let cs = chars_of(input_text);
    let ghost ws = input_text@.map_values(|c: char| widened(c));
    let mut s = String::new();
    let mut prev: Option<char> = None;
    let mut i: usize = 0;
    while i < cs.len()
        invariant
            cs@ == input_text@,
            ws == input_text@.map_values(|c: char| widened(c)),
            i <= cs@.len(),
            combine_all(ws.take(i as int)) == (s@, prev),
        decreases cs@.len() - i,
    {
        proof {
            assert(ws.take(i as int + 1).drop_last() =~= ws.take(i as int));
        }
        let curr = widen(cs[i]);
        let semi = curr == '\u{309a}' || curr == '\u{309c}' || curr == '\u{ff9f}';
        let voiced = curr == '\u{3099}' || curr == '\u{309b}' || curr == '\u{ff9e}';
        let combined = if semi {
            match prev {
                Some(p) => semivoiced_exec(p),
                None => None,
            }
        } else if voiced {
            match prev {
                Some(p) => voiced_exec(p),
                None => None,
            }
        } else {
            None
        };
        match combined {
            Some(x) => push_char(&mut s, x),
            None => match prev {
                Some(p) => push_char(&mut s, p),
                None => {},
            },
        }
        prev = if semi || voiced {
            None
        } else {
            Some(curr)
        };
        i = i + 1;
    }
    proof {
        assert(ws.take(i as int) =~= ws);
    }
    if let Some(c) = prev {
        push_char(&mut s, c);
    }
    s
}

} // verus!

verus! {

/// A character that normalization leaves as it is and that is no sound
/// mark.
pub open spec fn settled(c: char) -> bool {
    widened(c) == c && !is_semivoiced_mark(c) && !is_voiced_mark(c)
}

proof fn lemma_widened_settles(c: char)
    ensures
        !is_semivoiced_mark(widened(c)) && !is_voiced_mark(widened(c)) ==> settled(widened(c)),
{
    match halfwidth_table(c) {
        Some(r) => {
            assert(halfwidth_table(r) is None);
            assert(!(0x20 < (r as u32) < 0x7f));
        },
        None => {
            if 0x20 < (c as u32) < 0x7f {
                let w = (((c as u32) + 0xfee0) as u32) as char;
                assert(w as u32 == (c as u32) + 0xfee0);
                assert(0xff00 < (w as u32) < 0xff5f);
                assert(halfwidth_table(w) is None);
            }
        },
    }
}

proof fn lemma_combined_settled(p: char)
    ensures
        voiced_table(p) matches Some(x) ==> settled(x),
        semivoiced_table(p) matches Some(x) ==> settled(x),
{
    if let Some(x) = voiced_table(p) {
        assert(halfwidth_table(x) is None);
    }
    if let Some(x) = semivoiced_table(p) {
        assert(halfwidth_table(x) is None);
    }
}

/// Every character widened.
pub open spec fn widen_all(t: Seq<char>) -> Seq<char> {
    t.map_values(|c: char| widened(c))
}

/// Combining widened characters yields settled characters only.
proof fn lemma_combine_widened(t: Seq<char>)
    ensures
        forall|i: int|
            0 <= i < combine_all(widen_all(t)).0.len() ==> settled(
                #[trigger] combine_all(widen_all(t)).0[i],
            ),
        combine_all(widen_all(t)).1 matches Some(p) ==> settled(p),
    decreases t.len(),
{
    let cs = widen_all(t);
    if t.len() > 0 {
        lemma_combine_widened(t.drop_last());
        assert(widen_all(t.drop_last()) =~= cs.drop_last());
        let st = combine_all(cs.drop_last());
        assert(cs.last() == widened(t.last()));
        lemma_widened_settles(t.last());
        if let Some(p) = st.1 {
            lemma_combined_settled(p);
        }
    }
}

/// Combining settled characters gives them back, the last one held.
proof fn lemma_combine_settled(cs: Seq<char>)
    requires
        forall|i: int| 0 <= i < cs.len() ==> settled(#[trigger] cs[i]),
    ensures
        cs.len() == 0 ==> combine_all(cs) == (Seq::<char>::empty(), None::<char>),
        cs.len() > 0 ==> combine_all(cs) == (cs.drop_last(), Some(cs.last())),
    decreases cs.len(),
{
    if cs.len() > 0 {
        assert forall|i: int| 0 <= i < cs.drop_last().len() implies settled(#[trigger] cs.drop_last()[i]) by {
            assert(cs.drop_last()[i] == cs[i]);
        }
        lemma_combine_settled(cs.drop_last());
        assert(settled(cs[cs.len() - 1]));
        if cs.len() > 1 {
            assert(cs.drop_last().drop_last().push(cs.drop_last().last()) =~= cs.drop_last());
        }
    }
}

/// Normalizing normalized text changes nothing.
pub proof fn lemma_normalize_idempotent(s: Seq<char>)
    ensures
        normalized(normalized(s)) == normalized(s),
{
    let ws = s.map_values(|c: char| widened(c));
    lemma_combine_widened(s);
    let o = normalized(s);
    assert forall|i: int| 0 <= i < o.len() implies settled(#[trigger] o[i]) by {
        let st = combine_all(ws);
        if i < st.0.len() {
            assert(o[i] == st.0[i]);
        }
    }
    let wo = o.map_values(|c: char| widened(c));
    assert(wo =~= o);
    lemma_combine_settled(o);
    if o.len() > 0 {
        assert(o.drop_last().push(o.last()) =~= o);
    }
}


/// A sound mark: voiced or semi-voiced, combining, spacing or half-width.
pub open spec fn is_mark(c: char) -> bool {
    is_voiced_mark(c) || is_semivoiced_mark(c)
}

/// The characters of `s` that are no sound mark, counted.
pub open spec fn count_unmarked(s: Seq<char>) -> nat
    decreases s.len(),
{
    if s.len() == 0 {
        0
    } else {
        count_unmarked(s.drop_last()) + if is_mark(s.last()) {
            0nat
        } else {
            1nat
        }
    }
}

/// Widening keeps sound marks and makes no other character one.
proof fn lemma_widened_mark(c: char)
    ensures
        is_mark(widened(c)) == is_mark(c),
{
    if let Some(r) = halfwidth_table(c) {
        assert(!is_mark(r));
        assert(!is_mark(c));
    } else if 0x20 < (c as u32) < 0x7f {
        let w = (((c as u32) + 0xfee0) as u32) as char;
        assert(w as u32 == (c as u32) + 0xfee0);
    }
}

/// A settled character is no printable ASCII character: normalization
/// would replace it.
proof fn lemma_settled_not_ascii(c: char)
    requires
        settled(c),
    ensures
        !(0x20 <= (c as u32) <= 0x7e),
{
    if 0x20 <= (c as u32) <= 0x7e {
        if let Some(r) = halfwidth_table(c) {
            assert(r != c);
        } else {
            let w = (((c as u32) + 0xfee0) as u32) as char;
            assert(w as u32 == (c as u32) + 0xfee0);
        }
    }
}

/// Combining widened characters keeps one character, written or held
/// back, for each character that is no sound mark.
proof fn lemma_combine_count(t: Seq<char>)
    ensures
        combine_all(widen_all(t)).0.len() + (if combine_all(widen_all(t)).1 is Some {
            1nat
        } else {
            0nat
        }) == count_unmarked(t),
    decreases t.len(),
{
    if t.len() > 0 {
        lemma_combine_count(t.drop_last());
        assert(widen_all(t.drop_last()) =~= widen_all(t).drop_last());
        lemma_widened_mark(t.last());
        assert(widen_all(t).last() == widened(t.last()));
    }
}

/// Normalization drops or merges every sound mark and keeps one character
/// for each other character: the result has as many characters as the
/// text has characters that are no sound mark, and it holds neither a
/// sound mark nor a printable ASCII character.
pub proof fn lemma_normalize_counts(s: Seq<char>)
    ensures
        normalized(s).len() == count_unmarked(s),
        forall|i: int|
            0 <= i < normalized(s).len() ==> !is_mark(#[trigger] normalized(s)[i]) && !(0x20 <= (
            normalized(s)[i] as u32) <= 0x7e),
{
    let ws = s.map_values(|c: char| widened(c));
    assert(ws == widen_all(s));
    lemma_combine_count(s);
    lemma_combine_widened(s);
    let o = normalized(s);
    assert forall|i: int| 0 <= i < o.len() implies !is_mark(#[trigger] o[i]) && !(0x20 <= (o[i] as u32) <= 0x7e) by {
        let st = combine_all(ws);
        if i < st.0.len() {
            assert(o[i] == st.0[i]);
        }
        assert(settled(o[i]));
        lemma_settled_not_ascii(o[i]);
    }
}

} // verus!
