//! Pronunciations: sequences of morae with an accent position.

use vstd::prelude::*;

use crate::error::{parsed_as, JPreprocessError, JPreprocessErrorKind};
use crate::mora::{spec_double_mora, spec_single_mora, double_mora, single_mora, unvoiced_mark, Mora, MoraEnum};
use crate::text::{chars_of, has_char, push_char, slice_range, string_of};

verus! {

/// The symbol morae, which carry no sound: `？` and `、`.
pub open spec fn is_symbol(m: MoraEnum) -> bool {
    m == MoraEnum::Question || m == MoraEnum::Touten
}

/// How many morae of `ms` are sounded (symbols are not counted).
pub open spec fn mora_count(ms: Seq<Mora>) -> nat
    decreases ms.len(),
{
    if ms.len() == 0 {
        0
    } else {
        mora_count(ms.drop_last()) + if is_symbol(ms.last().mora_enum) {
            0nat
        } else {
            1nat
        }
    }
}

/// The written form of `ms`, with `’` after unvoiced morae.
pub open spec fn moras_text(ms: Seq<Mora>) -> Seq<char>
    decreases ms.len(),
{
    if ms.len() == 0 {
        Seq::<char>::empty()
    } else {
        moras_text(ms.drop_last()) + ms.last().text()
    }
}

/// The written form of `ms` without voicing marks.
pub open spec fn moras_plain(ms: Seq<Mora>) -> Seq<char>
    decreases ms.len(),
{
    if ms.len() == 0 {
        Seq::<char>::empty()
    } else {
        moras_plain(ms.drop_last()) + ms.last().mora_enum.text()
    }
}

/// The first mora written at the start of `s` and how many characters it
/// takes: a two-character mora is preferred over a one-character one.
pub open spec fn first_mora(s: Seq<char>) -> Option<(MoraEnum, int)> {
    if s.len() >= 2 && spec_double_mora((s[0], s[1])) is Some {
        Some((spec_double_mora((s[0], s[1])).unwrap(), 2))
    } else if s.len() >= 1 && spec_single_mora(s[0]) is Some {
        Some((spec_single_mora(s[0]).unwrap(), 1))
    } else {
        None
    }
}

/// Reads a written pronunciation: morae, each optionally followed by the
/// unvoiced mark `’`.
pub open spec fn parse_moras(s: Seq<char>) -> Option<Seq<Mora>>
    decreases s.len(),
{
    if s.len() == 0 {
        Some(Seq::<Mora>::empty())
    } else {
        match first_mora(s) {
            None => None,
            Some((m, k)) => {
                if 1 <= k <= s.len() {
                    let unvoiced = s.len() > k && s[k] == unvoiced_mark();
                    let k2 = if unvoiced { k + 1 } else { k };
                    match parse_moras(s.skip(k2)) {
                        Some(rest) => Some(seq![Mora { mora_enum: m, is_voiced: !unvoiced }] + rest),
                        None => None,
                    }
                } else {
                    None
                }
            },
        }
    }
}

/// The morae of a pronunciation field: `*` stands for none.
pub open spec fn pron_of(s: Seq<char>) -> Option<Seq<Mora>> {
    if s == "*"@ {
        Some(Seq::<Mora>::empty())
    } else {
        parse_moras(s)
    }
}

/// The mora at the start of `cs`, as `first_mora` computes it.
fn first_mora_at(cs: &Vec<char>, i: usize) -> (r: Option<(MoraEnum, usize)>)
    requires
        i <= cs@.len(),
    ensures
        match first_mora(cs@.skip(i as int)) {
            Some((m, k)) => r == Some((m, k as usize)) && (k == 1 || k == 2),
            None => r is None,
        },
{
    let ghost s = cs@.skip(i as int);
    if cs.len() - i >= 2 {
        if let Some(m) = double_mora((cs[i], cs[i + 1])) {
            assert(s[0] == cs@[i as int] && s[1] == cs@[i + 1]);
            return Some((m, 2));
        }
    }
    if i < cs.len() {
        assert(s[0] == cs@[i as int]);
        if let Some(m) = single_mora(cs[i]) {
            return Some((m, 1));
        }
    }
    None
}

/// A pronunciation: the morae of a word and its accent nucleus position
/// (0 for a flat accent).
#[derive(PartialEq, Eq, Debug)]
pub struct Pronunciation {
    pub moras: Vec<Mora>,
    pub accent: usize,
}

/// The katakana for a hiragana character; other characters are kept.
pub open spec fn spec_katakana_of(c: char) -> char {
    match c {
        'ぁ' => 'ァ',
        'あ' => 'ア',
        'ぃ' => 'ィ',
        'い' => 'イ',
        'ぅ' => 'ゥ',
        'う' => 'ウ',
        'ぇ' => 'ェ',
        'え' => 'エ',
        'ぉ' => 'ォ',
        'お' => 'オ',
        'か' => 'カ',
        'が' => 'ガ',
        'き' => 'キ',
        'ぎ' => 'ギ',
        'く' => 'ク',
        'ぐ' => 'グ',
        'け' => 'ケ',
        'げ' => 'ゲ',
        'こ' => 'コ',
        'ご' => 'ゴ',
        'さ' => 'サ',
        'ざ' => 'ザ',
        'し' => 'シ',
        'じ' => 'ジ',
        'す' => 'ス',
        'ず' => 'ズ',
        'せ' => 'セ',
        'ぜ' => 'ゼ',
        'そ' => 'ソ',
        'ぞ' => 'ゾ',
        'た' => 'タ',
        'だ' => 'ダ',
        'ち' => 'チ',
        'ぢ' => 'ヂ',
        'っ' => 'ッ',
        'つ' => 'ツ',
        'づ' => 'ヅ',
        'て' => 'テ',
        'で' => 'デ',
        'と' => 'ト',
        'ど' => 'ド',
        'な' => 'ナ',
        'に' => 'ニ',
        'ぬ' => 'ヌ',
        'ね' => 'ネ',
        'の' => 'ノ',
        'は' => 'ハ',
        'ば' => 'バ',
        'ぱ' => 'パ',
        'ひ' => 'ヒ',
        'び' => 'ビ',
        'ぴ' => 'ピ',
        'ふ' => 'フ',
        'ぶ' => 'ブ',
        'ぷ' => 'プ',
        'へ' => 'ヘ',
        'べ' => 'ベ',
        'ぺ' => 'ペ',
        'ほ' => 'ホ',
        'ぼ' => 'ボ',
        'ぽ' => 'ポ',
        'ま' => 'マ',
        'み' => 'ミ',
        'む' => 'ム',
        'め' => 'メ',
        'も' => 'モ',
        'ゃ' => 'ャ',
        'や' => 'ヤ',
        'ゅ' => 'ュ',
        'ゆ' => 'ユ',
        'ょ' => 'ョ',
        'よ' => 'ヨ',
        'ら' => 'ラ',
        'り' => 'リ',
        'る' => 'ル',
        'れ' => 'レ',
        'ろ' => 'ロ',
        'ゎ' => 'ヮ',
        'わ' => 'ワ',
        'ゐ' => 'ヰ',
        'ゑ' => 'ヱ',
        'を' => 'ヲ',
        'ん' => 'ン',
        'ゔ' => 'ヴ',
        'ゕ' => 'ヵ',
        'ゖ' => 'ヶ',
        _ => c,
    }
}

/// The katakana for a hiragana character; other characters are kept.
pub fn katakana_of(c: char) -> (r: char)
    ensures
        r == spec_katakana_of(c),
{
    match c {
        'ぁ' => 'ァ',
        'あ' => 'ア',
        'ぃ' => 'ィ',
        'い' => 'イ',
        'ぅ' => 'ゥ',
        'う' => 'ウ',
        'ぇ' => 'ェ',
        'え' => 'エ',
        'ぉ' => 'ォ',
        'お' => 'オ',
        'か' => 'カ',
        'が' => 'ガ',
        'き' => 'キ',
        'ぎ' => 'ギ',
        'く' => 'ク',
        'ぐ' => 'グ',
        'け' => 'ケ',
        'げ' => 'ゲ',
        'こ' => 'コ',
        'ご' => 'ゴ',
        'さ' => 'サ',
        'ざ' => 'ザ',
        'し' => 'シ',
        'じ' => 'ジ',
        'す' => 'ス',
        'ず' => 'ズ',
        'せ' => 'セ',
        'ぜ' => 'ゼ',
        'そ' => 'ソ',
        'ぞ' => 'ゾ',
        'た' => 'タ',
        'だ' => 'ダ',
        'ち' => 'チ',
        'ぢ' => 'ヂ',
        'っ' => 'ッ',
        'つ' => 'ツ',
        'づ' => 'ヅ',
        'て' => 'テ',
        'で' => 'デ',
        'と' => 'ト',
        'ど' => 'ド',
        'な' => 'ナ',
        'に' => 'ニ',
        'ぬ' => 'ヌ',
        'ね' => 'ネ',
        'の' => 'ノ',
        'は' => 'ハ',
        'ば' => 'バ',
        'ぱ' => 'パ',
        'ひ' => 'ヒ',
        'び' => 'ビ',
        'ぴ' => 'ピ',
        'ふ' => 'フ',
        'ぶ' => 'ブ',
        'ぷ' => 'プ',
        'へ' => 'ヘ',
        'べ' => 'ベ',
        'ぺ' => 'ペ',
        'ほ' => 'ホ',
        'ぼ' => 'ボ',
        'ぽ' => 'ポ',
        'ま' => 'マ',
        'み' => 'ミ',
        'む' => 'ム',
        'め' => 'メ',
        'も' => 'モ',
        'ゃ' => 'ャ',
        'や' => 'ヤ',
        'ゅ' => 'ュ',
        'ゆ' => 'ユ',
        'ょ' => 'ョ',
        'よ' => 'ヨ',
        'ら' => 'ラ',
        'り' => 'リ',
        'る' => 'ル',
        'れ' => 'レ',
        'ろ' => 'ロ',
        'ゎ' => 'ヮ',
        'わ' => 'ワ',
        'ゐ' => 'ヰ',
        'ゑ' => 'ヱ',
        'を' => 'ヲ',
        'ん' => 'ン',
        'ゔ' => 'ヴ',
        'ゕ' => 'ヵ',
        'ゖ' => 'ヶ',
        _ => c,
    }
}

/// The characters written as a pause (`、`) in running text.
pub open spec fn is_pause_char(c: char) -> bool {
    c == '、' || c == '。' || c == '，' || c == '．' || c == '・'
}

/// The sounded mora written at the start of `s`, hiragana read as
/// katakana, and how many characters it takes.
pub open spec fn kana_mora(s: Seq<char>) -> Option<(MoraEnum, int)> {
    if s.len() >= 2 && spec_double_mora((spec_katakana_of(s[0]), spec_katakana_of(s[1]))) is Some {
        Some((spec_double_mora((spec_katakana_of(s[0]), spec_katakana_of(s[1]))).unwrap(), 2))
    } else if s.len() >= 1 && spec_single_mora(spec_katakana_of(s[0])) is Some && !is_symbol(
        spec_single_mora(spec_katakana_of(s[0])).unwrap(),
    ) {
        Some((spec_single_mora(spec_katakana_of(s[0])).unwrap(), 1))
    } else {
        None
    }
}

/// The longest start of `s` written in sounded kana, as its length and its
/// morae.
pub open spec fn kana_run(s: Seq<char>) -> (int, Seq<Mora>)
    decreases s.len(),
{
    match kana_mora(s) {
        Some((m, k)) => if 1 <= k <= s.len() {
            let rest = kana_run(s.skip(k));
            (k + rest.0, seq![Mora { mora_enum: m, is_voiced: true }] + rest.1)
        } else {
            (0, Seq::<Mora>::empty())
        },
        None => (0, Seq::<Mora>::empty()),
    }
}

/// A kana run never reaches past the end of the text.
pub proof fn lemma_kana_run_len(s: Seq<char>)
    ensures
        0 <= kana_run(s).0 <= s.len(),
    decreases s.len(),
{
    if let Some((m, k)) = kana_mora(s) {
        if 1 <= k <= s.len() {
            lemma_kana_run_len(s.skip(k));
        }
    }
}

/// How running text is read as morae: each maximal run of kana is one
/// piece with its morae; each pause character is a piece read `、`; each
/// `？` is a piece read `？`; any other character is a piece with no
/// reading.
pub open spec fn segments(s: Seq<char>) -> Seq<(Seq<char>, Seq<Mora>)>
    decreases s.len(),
{
    if s.len() == 0 {
        Seq::empty()
    } else {
        let run = kana_run(s);
        if 0 < run.0 <= s.len() {
            seq![(s.take(run.0), run.1)] + segments(s.skip(run.0))
        } else if is_pause_char(s[0]) {
            seq![(s.take(1), seq![Mora { mora_enum: MoraEnum::Touten, is_voiced: true }])] + segments(s.skip(1))
        } else if s[0] == '？' {
            seq![(s.take(1), seq![Mora { mora_enum: MoraEnum::Question, is_voiced: true }])] + segments(s.skip(1))
        } else {
            seq![(s.take(1), Seq::<Mora>::empty())] + segments(s.skip(1))
        }
    }
}

/// The views of the pieces of running text.
pub open spec fn segment_views(v: Seq<(String, Vec<Mora>)>) -> Seq<(Seq<char>, Seq<Mora>)> {
    v.map_values(|p: (String, Vec<Mora>)| (p.0@, p.1@))
}

/// The sounded kana mora at position `i` of `cs`.
fn kana_mora_at(cs: &Vec<char>, i: usize) -> (r: Option<(MoraEnum, usize)>)
    requires
        i <= cs@.len(),
    ensures
        match kana_mora(cs@.skip(i as int)) {
            Some((m, k)) => r == Some((m, k as usize)) && (k == 1 || k == 2),
            None => r is None,
        },
{
    let ghost s = cs@.skip(i as int);
    if cs.len() - i >= 2 {
        assert(s[0] == cs@[i as int] && s[1] == cs@[i + 1]);
        if let Some(m) = double_mora((katakana_of(cs[i]), katakana_of(cs[i + 1]))) {
            return Some((m, 2));
        }
    }
    if i < cs.len() {
        assert(s[0] == cs@[i as int]);
        if let Some(m) = single_mora(katakana_of(cs[i])) {
            if !(m == MoraEnum::Question || m == MoraEnum::Touten) {
                return Some((m, 1));
            }
        }
    }
    None
}

/// The kana run starting at position `start` of `cs`.
fn kana_run_at(cs: &Vec<char>, start: usize) -> (r: (usize, Vec<Mora>))
    requires
        start <= cs@.len(),
    ensures
        r.0 as int == kana_run(cs@.skip(start as int)).0,
        r.1@ == kana_run(cs@.skip(start as int)).1,
        start + r.0 <= cs@.len(),
{
    let mut j = start;
    let mut acc: Vec<Mora> = Vec::new();
    loop
        invariant
            start <= j <= cs@.len(),
            kana_run(cs@.skip(start as int)).0 == (j - start) + kana_run(cs@.skip(j as int)).0,
            kana_run(cs@.skip(start as int)).1 == acc@ + kana_run(cs@.skip(j as int)).1,
        decreases cs@.len() - j,
    {
        match kana_mora_at(cs, j) {
            None => {
                proof {
                    assert(acc@ + Seq::<Mora>::empty() =~= acc@);
                }
                return (j - start, acc);
            },
            Some((m, k)) => {
                proof {
                    assert(cs@.skip(j as int).skip(k as int) =~= cs@.skip(j + k));
                    let rest = kana_run(cs@.skip(j + k));
                    assert(acc@ + (seq![Mora { mora_enum: m, is_voiced: true }] + rest.1) =~= acc@.push(Mora { mora_enum: m, is_voiced: true }) + rest.1);
                }
                let n = cs.len();
                assert(k as int <= cs@.skip(j as int).len());
                assert(j + k <= n);
                acc.push(Mora { mora_enum: m, is_voiced: true });
                j = j + k;
            },
        }
    }
}

/// Whether `s` is written entirely in sounded katakana.
pub open spec fn spec_is_mora_convertable(s: Seq<char>) -> bool {
    s.len() > 0 && forall|i: int|
        0 <= i < s.len() ==> #[trigger] spec_single_mora(s[i]) is Some && !is_symbol(
            spec_single_mora(s[i]).unwrap(),
        )
}

impl Pronunciation {
    /// Whether `s` is written entirely in sounded katakana.
    pub fn is_mora_convertable(s: &str) -> (r: bool)
        ensures
            r == spec_is_mora_convertable(s@),
    {
        let cs = chars_of(s);
        if cs.len() == 0 {
            return false;
        }
        let mut i: usize = 0;
        while i < cs.len()
            invariant
                cs@ == s@,
                i <= cs@.len(),
                forall|j: int|
                    0 <= j < i ==> #[trigger] spec_single_mora(cs@[j]) is Some && !is_symbol(
                        spec_single_mora(cs@[j]).unwrap(),
                    ),
            decreases cs@.len() - i,
        {
            match single_mora(cs[i]) {
                Some(m) => {
                    if m == MoraEnum::Question || m == MoraEnum::Touten {
                        return false;
                    }
                },
                None => {
                    return false;
                },
            }
            i = i + 1;
        }
        true
    }

    /// Reads running text as morae, piece by piece (see `segments`).
    pub fn parse_mora_str(s: &str) -> (r: Vec<(String, Vec<Mora>)>)
        ensures
            segment_views(r@) == segments(s@),
    {
        let cs = chars_of(s);
        let mut out: Vec<(String, Vec<Mora>)> = Vec::new();
        let mut i: usize = 0;
        proof {
            assert(cs@.skip(0) =~= cs@);
        }
        while i < cs.len()
            invariant
                cs@ == s@,
                i <= cs@.len(),
                segments(s@) == segment_views(out@) + segments(cs@.skip(i as int)),
            decreases cs@.len() - i,
        {
            let ghost t = cs@.skip(i as int);
            let (n, ms) = kana_run_at(&cs, i);
            let ghost old_out = out@;
            let k: usize;
            if n > 0 {
                let piece = string_of(slice_range(&cs, i, i + n));
                proof {
                    assert(t.take(n as int) =~= cs@.subrange(i as int, i + n));
                }
                out.push((piece, ms));
                k = n;
            } else {
                let c = cs[i];
                assert(t[0] == c);
                let piece = string_of(slice_range(&cs, i, i + 1));
                proof {
                    assert(t.take(1) =~= cs@.subrange(i as int, i + 1));
                }
                if c == '、' || c == '。' || c == '，' || c == '．' || c == '・' {
                    let mut v: Vec<Mora> = Vec::new();
                    v.push(Mora { mora_enum: MoraEnum::Touten, is_voiced: true });
                    out.push((piece, v));
                } else if c == '？' {
                    let mut v: Vec<Mora> = Vec::new();
                    v.push(Mora { mora_enum: MoraEnum::Question, is_voiced: true });
                    out.push((piece, v));
                } else {
                    out.push((piece, Vec::new()));
                }
                k = 1;
            }
            proof {
                assert(t.skip(k as int) =~= cs@.skip(i + k));
                assert(segment_views(out@) =~= segment_views(old_out).push(segment_views(out@).last()));
                assert(segments(t) == seq![segment_views(out@).last()] + segments(cs@.skip(i + k)));
                assert(segments(s@) =~= segment_views(out@) + segments(cs@.skip(i + k)));
            }
            i = i + k;
        }
        proof {
            assert(cs@.skip(i as int) =~= Seq::<char>::empty());
            assert(segments(s@) =~= segment_views(out@));
        }
        out
    }
}

/// A copy of the morae `v`.
pub fn copy_moras(v: &Vec<Mora>) -> (r: Vec<Mora>)
    ensures
        r@ == v@,
{
    let mut out: Vec<Mora> = Vec::new();
    let mut i: usize = 0;
    while i < v.len()
        invariant
            i <= v@.len(),
            out@ == v@.take(i as int),
        decreases v@.len() - i,
    {
        out.push(v[i]);
        proof {
            assert(v@.take(i as int + 1) =~= v@.take(i as int).push(v@[i as int]));
        }
        i = i + 1;
    }
    proof {
        assert(v@.take(v@.len() as int) =~= v@);
    }
    out
}

impl Clone for Pronunciation {
    fn clone(&self) -> (r: Pronunciation)
        ensures
            r.moras@ == self.moras@,
            r.accent == self.accent,
    {
        Pronunciation { moras: copy_moras(&self.moras), accent: self.accent }
    }
}

impl Pronunciation {
    /// The pronunciation with morae `moras` and accent `accent`.
    pub fn new(moras: Vec<Mora>, accent: usize) -> (r: Pronunciation)
        ensures
            r.moras@ == moras@,
            r.accent == accent,
    {
        Pronunciation { moras, accent }
    }

    /// The pronunciation with no morae.
    pub fn empty() -> (r: Pronunciation)
        ensures
            r.moras@ == Seq::<Mora>::empty(),
            r.accent == 0,
    {
        Pronunciation { moras: Vec::new(), accent: 0 }
    }

    /// The pronunciation of the voiced morae `ms` with accent `accent`.
    pub fn from_enums(ms: &[MoraEnum], accent: usize) -> (r: Pronunciation)
        ensures
            r.moras@.len() == ms@.len(),
            forall|i: int| 0 <= i < ms@.len() ==> r.moras@[i] == (Mora { mora_enum: ms@[i], is_voiced: true }),
            r.accent == accent,
    {
        let mut v: Vec<Mora> = Vec::new();
        let mut i: usize = 0;
        while i < ms.len()
            invariant
                i <= ms@.len(),
                v@.len() == i,
                forall|j: int| 0 <= j < i ==> v@[j] == (Mora { mora_enum: ms@[j], is_voiced: true }),
            decreases ms@.len() - i,
        {
            v.push(Mora { mora_enum: ms[i], is_voiced: true });
            i = i + 1;
        }
        Pronunciation { moras: v, accent }
    }

    /// Whether the pronunciation is the single mora `m`.
    pub open spec fn spec_mora_matches(&self, m: MoraEnum) -> bool {
        self.moras@.len() == 1 && self.moras@[0].mora_enum == m
    }

    /// Whether the pronunciation is the single mora `m`.
    pub fn mora_matches(&self, m: MoraEnum) -> (r: bool)
        ensures
            r == self.spec_mora_matches(m),
    {
        self.moras.len() == 1 && self.moras[0].mora_enum == m
    }

    /// Whether the pronunciation is the pause symbol `、` alone.
    pub fn is_touten(&self) -> (r: bool)
        ensures
            r == self.spec_mora_matches(MoraEnum::Touten),
    {
        self.mora_matches(MoraEnum::Touten)
    }

    /// Whether the pronunciation is the question symbol `？` alone.
    pub fn is_question(&self) -> (r: bool)
        ensures
            r == self.spec_mora_matches(MoraEnum::Question),
    {
        self.mora_matches(MoraEnum::Question)
    }

    /// Whether the pronunciation has no morae at all.
    pub fn is_empty(&self) -> (r: bool)
        ensures
            r == (self.moras@.len() == 0),
    {
        self.moras.len() == 0
    }

    /// The number of sounded morae.
    pub fn mora_size(&self) -> (r: usize)
        ensures
            r == mora_count(self.moras@),
    {
        let mut n: usize = 0;
        let mut i: usize = 0;
        while i < self.moras.len()
            invariant
                i <= self.moras@.len(),
                n == mora_count(self.moras@.take(i as int)),
                n <= i,
            decreases self.moras@.len() - i,
        {
            proof {
                assert(self.moras@.take(i as int + 1).drop_last() =~= self.moras@.take(i as int));
            }
            let m = self.moras[i].mora_enum;
            if !(m == MoraEnum::Question || m == MoraEnum::Touten) {
                n = n + 1;
            }
            i = i + 1;
        }
        proof {
            assert(self.moras@.take(i as int) =~= self.moras@);
        }
        n
    }

    /// The accent nucleus position.
    pub fn accent(&self) -> (r: usize)
        ensures
            r == self.accent,
    {
        self.accent
    }

    /// Sets the accent nucleus position; the morae are kept.
    pub fn set_accent(&mut self, accent: usize)
        ensures
            final(self).accent == accent,
            final(self).moras@ == old(self).moras@,
    {
        self.accent = accent;
    }

    /// Appends the morae of `other`; the accent is kept.
    pub fn transfer_from(&mut self, other: &Pronunciation)
        ensures
            final(self).moras@ == old(self).moras@ + other.moras@,
            final(self).accent == old(self).accent,
    {
        let mut i: usize = 0;
        let ghost start = self.moras@;
        while i < other.moras.len()
            invariant
                i <= other.moras@.len(),
                self.moras@ == start + other.moras@.take(i as int),
                self.accent == old(self).accent,
            decreases other.moras@.len() - i,
        {
            self.moras.push(other.moras[i]);
            proof {
                assert(other.moras@.take(i as int + 1) =~= other.moras@.take(i as int).push(other.moras@[i as int]));
            }
            i = i + 1;
        }
        proof {
            assert(other.moras@.take(i as int) =~= other.moras@);
        }
    }

    /// Turns the first mora, if any, into its voiced counterpart.
    pub fn convert_first_to_voiced(&mut self)
        ensures
            final(self).accent == old(self).accent,
            final(self).moras@ == if old(self).moras@.len() == 0 {
                old(self).moras@
            } else {
                old(self).moras@.update(0, Mora { mora_enum: old(self).moras@[0].mora_enum.spec_voiced(), is_voiced: old(self).moras@[0].is_voiced })
            },
    {
        if self.moras.len() > 0 {
            let mut m = self.moras[0];
            m.convert_to_voiced_sound();
            self.moras.set(0, m);
        }
    }

    /// Turns the first mora, if any, into its semi-voiced counterpart.
    pub fn convert_first_to_semivoiced(&mut self)
        ensures
            final(self).accent == old(self).accent,
            final(self).moras@ == if old(self).moras@.len() == 0 {
                old(self).moras@
            } else {
                old(self).moras@.update(0, Mora { mora_enum: old(self).moras@[0].mora_enum.spec_semivoiced(), is_voiced: old(self).moras@[0].is_voiced })
            },
    {
        if self.moras.len() > 0 {
            let mut m = self.moras[0];
            m.convert_to_semivoiced_sound();
            self.moras.set(0, m);
        }
    }

    /// The written form, with `’` after unvoiced morae.
    pub fn to_string(&self) -> (r: String)
        ensures
            r@ == moras_text(self.moras@),
    {
        let mut s = String::new();
        let mut i: usize = 0;
        while i < self.moras.len()
            invariant
                i <= self.moras@.len(),
                s@ == moras_text(self.moras@.take(i as int)),
            decreases self.moras@.len() - i,
        {
            proof {
                assert(self.moras@.take(i as int + 1).drop_last() =~= self.moras@.take(i as int));
            }
            let m = self.moras[i];
            s.append(m.mora_enum.as_str());
            if !m.is_voiced {
                push_char(&mut s, '’');
            }
            i = i + 1;
        }
        proof {
            assert(self.moras@.take(i as int) =~= self.moras@);
        }
        s
    }

    /// The written form without voicing marks.
    pub fn to_pure_string(&self) -> (r: String)
        ensures
            r@ == moras_plain(self.moras@),
    {
        let mut s = String::new();
        let mut i: usize = 0;
        while i < self.moras.len()
            invariant
                i <= self.moras@.len(),
                s@ == moras_plain(self.moras@.take(i as int)),
            decreases self.moras@.len() - i,
        {
            proof {
                assert(self.moras@.take(i as int + 1).drop_last() =~= self.moras@.take(i as int));
            }
            s.append(self.moras[i].mora_enum.as_str());
            i = i + 1;
        }
        proof {
            assert(self.moras@.take(i as int) =~= self.moras@);
        }
        s
    }

    /// Reads a written pronunciation such as `ボンサイ` or `キ’`; `*` is the
    /// empty pronunciation.
    pub fn parse(s: &str, accent: usize) -> (r: Result<Pronunciation, JPreprocessError>)
        ensures
            parsed_as(
                match r {
                    Ok(p) => Ok::<Seq<Mora>, JPreprocessError>(p.moras@),
                    Err(e) => Err(e),
                },
                pron_of(s@),
                JPreprocessErrorKind::PronunciationParseError,
            ),
            r matches Ok(p) ==> p.accent == accent,
    {
        if crate::text::str_eq(s, "*") {
            return Ok(Pronunciation::new(Vec::new(), accent));
        }
        let cs = chars_of(s);
        let mut out: Vec<Mora> = Vec::new();
        let mut i: usize = 0;
        proof {
            assert(cs@.skip(0) =~= cs@);
        }
        while i < cs.len()
            invariant
                i <= cs@.len(),
                cs@ == s@,
                s@ != "*"@,
                parse_moras(s@) == match parse_moras(cs@.skip(i as int)) {
                    Some(rest) => Some(out@ + rest),
                    None => None::<Seq<Mora>>,
                },
            decreases cs@.len() - i,
        {
            let ghost t = cs@.skip(i as int);
            match first_mora_at(&cs, i) {
                None => {
                    return Err(JPreprocessErrorKind::PronunciationParseError.with_error());
                },
                Some((m, k)) => {
                    let unvoiced = i + k < cs.len() && cs[i + k] == '’';
                    let k2 = if unvoiced { k + 1 } else { k };
                    proof {
                        if i + k < cs@.len() {
                            assert(t[k as int] == cs@[i + k]);
                        }
                        assert(t.skip(k2 as int) =~= cs@.skip(i + k2));
                    }
                    let ghost old_out = out@;
                    out.push(Mora { mora_enum: m, is_voiced: !unvoiced });
                    proof {
                        assert forall|rest: Seq<Mora>| #![auto] old_out + (seq![Mora { mora_enum: m, is_voiced: !unvoiced }] + rest) =~= out@ + rest by {}
                    }
                    i = i + k2;
                },
            }
        }
        proof {
            assert(cs@.skip(i as int) =~= Seq::<char>::empty());
            assert(out@ + Seq::<Mora>::empty() =~= out@);
        }
        Ok(Pronunciation::new(out, accent))
    }
}

} // verus!

verus! {

/// A text that reads as morae holds no comma: no mora is written with one.
proof fn lemma_parsed_no_comma(s: Seq<char>)
    requires
        parse_moras(s) is Some,
    ensures
        !has_char(s, ','),
    decreases s.len(),
{
    if s.len() > 0 {
        let (m, k) = first_mora(s).unwrap();
        let unvoiced = s.len() > k && s[k] == unvoiced_mark();
        let k2 = if unvoiced {
            k + 1
        } else {
            k
        };
        assert(spec_single_mora(',') is None);
        assert(forall|a: char| #[trigger] spec_double_mora((a, ',')) is None);
        assert(forall|b: char| #[trigger] spec_double_mora((',', b)) is None);
        lemma_parsed_no_comma(s.skip(k2));
        assert forall|i: int| 0 <= i < s.len() implies s[i] != ',' by {
            if i >= k2 {
                assert(s[i] == s.skip(k2)[i - k2]);
            } else if k == 2 && i < 2 {
                assert(spec_double_mora((s[0], s[1])) is Some);
            } else if i == 0 {
                assert(k == 1 ==> spec_single_mora(s[0]) is Some);
            }
        }
    }
}

/// A text that reads as a pronunciation holds no comma.
pub proof fn lemma_pron_no_comma(s: Seq<char>)
    requires
        pron_of(s) is Some,
    ensures
        !has_char(s, ','),
{
    if s == "*"@ {
        reveal_strlit("*");
        assert(s[0] == '*');
    } else {
        lemma_parsed_no_comma(s);
    }
}

} // verus!
