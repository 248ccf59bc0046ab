//! Morae (拍) of Japanese pronunciation, their written forms and their phonemes.

use vstd::prelude::*;

verus! {

/// A mora, named after its katakana.
#[derive(Clone, Copy, PartialEq, Eq, Debug, Structural)]
pub enum MoraEnum {
    /// ア
    A,
    /// イ
    I,
    /// ウ
    U,
    /// エ
    E,
    /// オ
    O,
    /// カ
    Ka,
    /// キ
    Ki,
    /// ク
    Ku,
    /// ケ
    Ke,
    /// コ
    Ko,
    /// ガ
    Ga,
    /// ギ
    Gi,
    /// グ
    Gu,
    /// ゲ
    Ge,
    /// ゴ
    Go,
    /// サ
    Sa,
    /// シ
    Shi,
    /// ス
    Su,
    /// セ
    Se,
    /// ソ
    So,
    /// ザ
    Za,
    /// ジ
    Ji,
    /// ズ
    Zu,
    /// ゼ
    Ze,
    /// ゾ
    Zo,
    /// タ
    Ta,
    /// チ
    Chi,
    /// ツ
    Tsu,
    /// テ
    Te,
    /// ト
    To,
    /// ダ
    Da,
    /// ヂ
    Di,
    /// ヅ
    Du,
    /// デ
    De,
    /// ド
    Do,
    /// ナ
    Na,
    /// ニ
    Ni,
    /// ヌ
    Nu,
    /// ネ
    Ne,
    /// ノ
    No,
    /// ハ
    Ha,
    /// ヒ
    Hi,
    /// フ
    Fu,
    /// ヘ
    He,
    /// ホ
    Ho,
    /// バ
    Ba,
    /// ビ
    Bi,
    /// ブ
    Bu,
    /// ベ
    Be,
    /// ボ
    Bo,
    /// パ
    Pa,
    /// ピ
    Pi,
    /// プ
    Pu,
    /// ペ
    Pe,
    /// ポ
    Po,
    /// マ
    Ma,
    /// ミ
    Mi,
    /// ム
    Mu,
    /// メ
    Me,
    /// モ
    Mo,
    /// ヤ
    Ya,
    /// ユ
    Yu,
    /// ヨ
    Yo,
    /// ラ
    Ra,
    /// リ
    Ri,
    /// ル
    Ru,
    /// レ
    Re,
    /// ロ
    Ro,
    /// ワ
    Wa,
    /// ヰ
    Wi,
    /// ヱ
    We,
    /// ヲ
    Wo,
    /// ン
    N,
    /// ッ
    Xtsu,
    /// ヴ
    Vu,
    /// ァ
    Xa,
    /// ィ
    Xi,
    /// ゥ
    Xu,
    /// ェ
    Xe,
    /// ォ
    Xo,
    /// ャ
    Xya,
    /// ュ
    Xyu,
    /// ョ
    Xyo,
    /// ヮ
    Xwa,
    /// ー
    Long,
    /// キャ
    Kya,
    /// キュ
    Kyu,
    /// キョ
    Kyo,
    /// キェ
    Kye,
    /// ギャ
    Gya,
    /// ギュ
    Gyu,
    /// ギョ
    Gyo,
    /// ギェ
    Gye,
    /// シャ
    Sha,
    /// シュ
    Shu,
    /// ショ
    Sho,
    /// シェ
    She,
    /// ジャ
    Ja,
    /// ジュ
    Ju,
    /// ジョ
    Jo,
    /// ジェ
    Je,
    /// チャ
    Cha,
    /// チュ
    Chu,
    /// チョ
    Cho,
    /// チェ
    Che,
    /// ヂャ
    Dja,
    /// ヂュ
    Dju,
    /// ヂョ
    Djo,
    /// ニャ
    Nya,
    /// ニュ
    Nyu,
    /// ニョ
    Nyo,
    /// ニェ
    Nye,
    /// ヒャ
    Hya,
    /// ヒュ
    Hyu,
    /// ヒョ
    Hyo,
    /// ヒェ
    Hye,
    /// ビャ
    Bya,
    /// ビュ
    Byu,
    /// ビョ
    Byo,
    /// ビェ
    Bye,
    /// ピャ
    Pya,
    /// ピュ
    Pyu,
    /// ピョ
    Pyo,
    /// ピェ
    Pye,
    /// ミャ
    Mya,
    /// ミュ
    Myu,
    /// ミョ
    Myo,
    /// ミェ
    Mye,
    /// リャ
    Rya,
    /// リュ
    Ryu,
    /// リョ
    Ryo,
    /// リェ
    Rye,
    /// ティ
    Thi,
    /// トゥ
    Twu,
    /// テュ
    Tyu,
    /// ディ
    Dhi,
    /// ドゥ
    Dwu,
    /// デュ
    Dyu,
    /// ファ
    Fa,
    /// フィ
    Fi,
    /// フェ
    Fe,
    /// フォ
    Fo,
    /// ウィ
    Whi,
    /// ウェ
    Whe,
    /// ウォ
    Who,
    /// ヴァ
    Va,
    /// ヴィ
    Vi,
    /// ヴェ
    Ve,
    /// ヴォ
    Vo,
    /// ヴュ
    Vyu,
    /// ツァ
    Tsa,
    /// ツィ
    Tsi,
    /// ツェ
    Tse,
    /// ツォ
    Tso,
    /// スィ
    Si,
    /// ズィ
    Zi,
    /// イェ
    Ye,
    /// ？
    Question,
    /// 、
    Touten,
}

/// A consonant phoneme.
#[derive(Clone, Copy, PartialEq, Eq, Debug, Structural)]
pub enum Consonant {
    K,
    Ky,
    G,
    Gy,
    S,
    Sh,
    Z,
    J,
    T,
    Ty,
    Ch,
    Ts,
    D,
    Dy,
    N,
    Ny,
    H,
    Hy,
    F,
    B,
    By,
    P,
    Py,
    M,
    My,
    Y,
    R,
    Ry,
    W,
    V,
}

/// A vowel phoneme; `N` and `Cl` are the moraic nasal and the geminate stop.
#[derive(Clone, Copy, PartialEq, Eq, Debug, Structural)]
pub enum Vowel {
    A,
    I,
    U,
    E,
    O,
    N,
    Cl,
}

/// The mora written with the single character `c`, if any.
pub open spec fn spec_single_mora(c: char) -> Option<MoraEnum> {
    match c {
        'ア' => Some(MoraEnum::A),
        'イ' => Some(MoraEnum::I),
        'ウ' => Some(MoraEnum::U),
        'エ' => Some(MoraEnum::E),
        'オ' => Some(MoraEnum::O),
        'カ' => Some(MoraEnum::Ka),
        'キ' => Some(MoraEnum::Ki),
        'ク' => Some(MoraEnum::Ku),
        'ケ' => Some(MoraEnum::Ke),
        'コ' => Some(MoraEnum::Ko),
        'ガ' => Some(MoraEnum::Ga),
        'ギ' => Some(MoraEnum::Gi),
        'グ' => Some(MoraEnum::Gu),
        'ゲ' => Some(MoraEnum::Ge),
        'ゴ' => Some(MoraEnum::Go),
        'サ' => Some(MoraEnum::Sa),
        'シ' => Some(MoraEnum::Shi),
        'ス' => Some(MoraEnum::Su),
        'セ' => Some(MoraEnum::Se),
        'ソ' => Some(MoraEnum::So),
        'ザ' => Some(MoraEnum::Za),
        'ジ' => Some(MoraEnum::Ji),
        'ズ' => Some(MoraEnum::Zu),
        'ゼ' => Some(MoraEnum::Ze),
        'ゾ' => Some(MoraEnum::Zo),
        'タ' => Some(MoraEnum::Ta),
        'チ' => Some(MoraEnum::Chi),
        'ツ' => Some(MoraEnum::Tsu),
        'テ' => Some(MoraEnum::Te),
        'ト' => Some(MoraEnum::To),
        'ダ' => Some(MoraEnum::Da),
        'ヂ' => Some(MoraEnum::Di),
        'ヅ' => Some(MoraEnum::Du),
        'デ' => Some(MoraEnum::De),
        'ド' => Some(MoraEnum::Do),
        'ナ' => Some(MoraEnum::Na),
        'ニ' => Some(MoraEnum::Ni),
        'ヌ' => Some(MoraEnum::Nu),
        'ネ' => Some(MoraEnum::Ne),
        'ノ' => Some(MoraEnum::No),
        'ハ' => Some(MoraEnum::Ha),
        'ヒ' => Some(MoraEnum::Hi),
        'フ' => Some(MoraEnum::Fu),
        'ヘ' => Some(MoraEnum::He),
        'ホ' => Some(MoraEnum::Ho),
        'バ' => Some(MoraEnum::Ba),
        'ビ' => Some(MoraEnum::Bi),
        'ブ' => Some(MoraEnum::Bu),
        'ベ' => Some(MoraEnum::Be),
        'ボ' => Some(MoraEnum::Bo),
        'パ' => Some(MoraEnum::Pa),
        'ピ' => Some(MoraEnum::Pi),
        'プ' => Some(MoraEnum::Pu),
        'ペ' => Some(MoraEnum::Pe),
        'ポ' => Some(MoraEnum::Po),
        'マ' => Some(MoraEnum::Ma),
        'ミ' => Some(MoraEnum::Mi),
        'ム' => Some(MoraEnum::Mu),
        'メ' => Some(MoraEnum::Me),
        'モ' => Some(MoraEnum::Mo),
        'ヤ' => Some(MoraEnum::Ya),
        'ユ' => Some(MoraEnum::Yu),
        'ヨ' => Some(MoraEnum::Yo),
        'ラ' => Some(MoraEnum::Ra),
        'リ' => Some(MoraEnum::Ri),
        'ル' => Some(MoraEnum::Ru),
        'レ' => Some(MoraEnum::Re),
        'ロ' => Some(MoraEnum::Ro),
        'ワ' => Some(MoraEnum::Wa),
        'ヰ' => Some(MoraEnum::Wi),
        'ヱ' => Some(MoraEnum::We),
        'ヲ' => Some(MoraEnum::Wo),
        'ン' => Some(MoraEnum::N),
        'ッ' => Some(MoraEnum::Xtsu),
        'ヴ' => Some(MoraEnum::Vu),
        'ァ' => Some(MoraEnum::Xa),
        'ィ' => Some(MoraEnum::Xi),
        'ゥ' => Some(MoraEnum::Xu),
        'ェ' => Some(MoraEnum::Xe),
        'ォ' => Some(MoraEnum::Xo),
        'ャ' => Some(MoraEnum::Xya),
        'ュ' => Some(MoraEnum::Xyu),
        'ョ' => Some(MoraEnum::Xyo),
        'ヮ' => Some(MoraEnum::Xwa),
        'ー' => Some(MoraEnum::Long),
        '？' => Some(MoraEnum::Question),
        '、' => Some(MoraEnum::Touten),
        _ => None,
    }
}

/// The mora written with the single character `c`, if any.
pub fn single_mora(c: char) -> (r: Option<MoraEnum>)
    ensures
        r == spec_single_mora(c),
{
    match c {
        'ア' => Some(MoraEnum::A),
        'イ' => Some(MoraEnum::I),
        'ウ' => Some(MoraEnum::U),
        'エ' => Some(MoraEnum::E),
        'オ' => Some(MoraEnum::O),
        'カ' => Some(MoraEnum::Ka),
        'キ' => Some(MoraEnum::Ki),
        'ク' => Some(MoraEnum::Ku),
        'ケ' => Some(MoraEnum::Ke),
        'コ' => Some(MoraEnum::Ko),
        'ガ' => Some(MoraEnum::Ga),
        'ギ' => Some(MoraEnum::Gi),
        'グ' => Some(MoraEnum::Gu),
        'ゲ' => Some(MoraEnum::Ge),
        'ゴ' => Some(MoraEnum::Go),
        'サ' => Some(MoraEnum::Sa),
        'シ' => Some(MoraEnum::Shi),
        'ス' => Some(MoraEnum::Su),
        'セ' => Some(MoraEnum::Se),
        'ソ' => Some(MoraEnum::So),
        'ザ' => Some(MoraEnum::Za),
        'ジ' => Some(MoraEnum::Ji),
        'ズ' => Some(MoraEnum::Zu),
        'ゼ' => Some(MoraEnum::Ze),
        'ゾ' => Some(MoraEnum::Zo),
        'タ' => Some(MoraEnum::Ta),
        'チ' => Some(MoraEnum::Chi),
        'ツ' => Some(MoraEnum::Tsu),
        'テ' => Some(MoraEnum::Te),
        'ト' => Some(MoraEnum::To),
        'ダ' => Some(MoraEnum::Da),
        'ヂ' => Some(MoraEnum::Di),
        'ヅ' => Some(MoraEnum::Du),
        'デ' => Some(MoraEnum::De),
        'ド' => Some(MoraEnum::Do),
        'ナ' => Some(MoraEnum::Na),
        'ニ' => Some(MoraEnum::Ni),
        'ヌ' => Some(MoraEnum::Nu),
        'ネ' => Some(MoraEnum::Ne),
        'ノ' => Some(MoraEnum::No),
        'ハ' => Some(MoraEnum::Ha),
        'ヒ' => Some(MoraEnum::Hi),
        'フ' => Some(MoraEnum::Fu),
        'ヘ' => Some(MoraEnum::He),
        'ホ' => Some(MoraEnum::Ho),
        'バ' => Some(MoraEnum::Ba),
        'ビ' => Some(MoraEnum::Bi),
        'ブ' => Some(MoraEnum::Bu),
        'ベ' => Some(MoraEnum::Be),
        'ボ' => Some(MoraEnum::Bo),
        'パ' => Some(MoraEnum::Pa),
        'ピ' => Some(MoraEnum::Pi),
        'プ' => Some(MoraEnum::Pu),
        'ペ' => Some(MoraEnum::Pe),
        'ポ' => Some(MoraEnum::Po),
        'マ' => Some(MoraEnum::Ma),
        'ミ' => Some(MoraEnum::Mi),
        'ム' => Some(MoraEnum::Mu),
        'メ' => Some(MoraEnum::Me),
        'モ' => Some(MoraEnum::Mo),
        'ヤ' => Some(MoraEnum::Ya),
        'ユ' => Some(MoraEnum::Yu),
        'ヨ' => Some(MoraEnum::Yo),
        'ラ' => Some(MoraEnum::Ra),
        'リ' => Some(MoraEnum::Ri),
        'ル' => Some(MoraEnum::Ru),
        'レ' => Some(MoraEnum::Re),
        'ロ' => Some(MoraEnum::Ro),
        'ワ' => Some(MoraEnum::Wa),
        'ヰ' => Some(MoraEnum::Wi),
        'ヱ' => Some(MoraEnum::We),
        'ヲ' => Some(MoraEnum::Wo),
        'ン' => Some(MoraEnum::N),
        'ッ' => Some(MoraEnum::Xtsu),
        'ヴ' => Some(MoraEnum::Vu),
        'ァ' => Some(MoraEnum::Xa),
        'ィ' => Some(MoraEnum::Xi),
        'ゥ' => Some(MoraEnum::Xu),
        'ェ' => Some(MoraEnum::Xe),
        'ォ' => Some(MoraEnum::Xo),
        'ャ' => Some(MoraEnum::Xya),
        'ュ' => Some(MoraEnum::Xyu),
        'ョ' => Some(MoraEnum::Xyo),
        'ヮ' => Some(MoraEnum::Xwa),
        'ー' => Some(MoraEnum::Long),
        '？' => Some(MoraEnum::Question),
        '、' => Some(MoraEnum::Touten),
        _ => None,
    }
}

/// The mora written with the two characters `p`, if any.
pub open spec fn spec_double_mora(p: (char, char)) -> Option<MoraEnum> {
    match p {
        ('キ', 'ャ') => Some(MoraEnum::Kya),
        ('キ', 'ュ') => Some(MoraEnum::Kyu),
        ('キ', 'ョ') => Some(MoraEnum::Kyo),
        ('キ', 'ェ') => Some(MoraEnum::Kye),
        ('ギ', 'ャ') => Some(MoraEnum::Gya),
        ('ギ', 'ュ') => Some(MoraEnum::Gyu),
        ('ギ', 'ョ') => Some(MoraEnum::Gyo),
        ('ギ', 'ェ') => Some(MoraEnum::Gye),
        ('シ', 'ャ') => Some(MoraEnum::Sha),
        ('シ', 'ュ') => Some(MoraEnum::Shu),
        ('シ', 'ョ') => Some(MoraEnum::Sho),
        ('シ', 'ェ') => Some(MoraEnum::She),
        ('ジ', 'ャ') => Some(MoraEnum::Ja),
        ('ジ', 'ュ') => Some(MoraEnum::Ju),
        ('ジ', 'ョ') => Some(MoraEnum::Jo),
        ('ジ', 'ェ') => Some(MoraEnum::Je),
        ('チ', 'ャ') => Some(MoraEnum::Cha),
        ('チ', 'ュ') => Some(MoraEnum::Chu),
        ('チ', 'ョ') => Some(MoraEnum::Cho),
        ('チ', 'ェ') => Some(MoraEnum::Che),
        ('ヂ', 'ャ') => Some(MoraEnum::Dja),
        ('ヂ', 'ュ') => Some(MoraEnum::Dju),
        ('ヂ', 'ョ') => Some(MoraEnum::Djo),
        ('ニ', 'ャ') => Some(MoraEnum::Nya),
        ('ニ', 'ュ') => Some(MoraEnum::Nyu),
        ('ニ', 'ョ') => Some(MoraEnum::Nyo),
        ('ニ', 'ェ') => Some(MoraEnum::Nye),
        ('ヒ', 'ャ') => Some(MoraEnum::Hya),
        ('ヒ', 'ュ') => Some(MoraEnum::Hyu),
        ('ヒ', 'ョ') => Some(MoraEnum::Hyo),
        ('ヒ', 'ェ') => Some(MoraEnum::Hye),
        ('ビ', 'ャ') => Some(MoraEnum::Bya),
        ('ビ', 'ュ') => Some(MoraEnum::Byu),
        ('ビ', 'ョ') => Some(MoraEnum::Byo),
        ('ビ', 'ェ') => Some(MoraEnum::Bye),
        ('ピ', 'ャ') => Some(MoraEnum::Pya),
        ('ピ', 'ュ') => Some(MoraEnum::Pyu),
        ('ピ', 'ョ') => Some(MoraEnum::Pyo),
        ('ピ', 'ェ') => Some(MoraEnum::Pye),
        ('ミ', 'ャ') => Some(MoraEnum::Mya),
        ('ミ', 'ュ') => Some(MoraEnum::Myu),
        ('ミ', 'ョ') => Some(MoraEnum::Myo),
        ('ミ', 'ェ') => Some(MoraEnum::Mye),
        ('リ', 'ャ') => Some(MoraEnum::Rya),
        ('リ', 'ュ') => Some(MoraEnum::Ryu),
        ('リ', 'ョ') => Some(MoraEnum::Ryo),
        ('リ', 'ェ') => Some(MoraEnum::Rye),
        ('テ', 'ィ') => Some(MoraEnum::Thi),
        ('ト', 'ゥ') => Some(MoraEnum::Twu),
        ('テ', 'ュ') => Some(MoraEnum::Tyu),
        ('デ', 'ィ') => Some(MoraEnum::Dhi),
        ('ド', 'ゥ') => Some(MoraEnum::Dwu),
        ('デ', 'ュ') => Some(MoraEnum::Dyu),
        ('フ', 'ァ') => Some(MoraEnum::Fa),
        ('フ', 'ィ') => Some(MoraEnum::Fi),
        ('フ', 'ェ') => Some(MoraEnum::Fe),
        ('フ', 'ォ') => Some(MoraEnum::Fo),
        ('ウ', 'ィ') => Some(MoraEnum::Whi),
        ('ウ', 'ェ') => Some(MoraEnum::Whe),
        ('ウ', 'ォ') => Some(MoraEnum::Who),
        ('ヴ', 'ァ') => Some(MoraEnum::Va),
        ('ヴ', 'ィ') => Some(MoraEnum::Vi),
        ('ヴ', 'ェ') => Some(MoraEnum::Ve),
        ('ヴ', 'ォ') => Some(MoraEnum::Vo),
        ('ヴ', 'ュ') => Some(MoraEnum::Vyu),
        ('ツ', 'ァ') => Some(MoraEnum::Tsa),
        ('ツ', 'ィ') => Some(MoraEnum::Tsi),
        ('ツ', 'ェ') => Some(MoraEnum::Tse),
        ('ツ', 'ォ') => Some(MoraEnum::Tso),
        ('ス', 'ィ') => Some(MoraEnum::Si),
        ('ズ', 'ィ') => Some(MoraEnum::Zi),
        ('イ', 'ェ') => Some(MoraEnum::Ye),
        _ => None,
    }
}

/// The mora written with the two characters `p`, if any.
pub fn double_mora(p: (char, char)) -> (r: Option<MoraEnum>)
    ensures
        r == spec_double_mora(p),
{
    match p {
        ('キ', 'ャ') => Some(MoraEnum::Kya),
        ('キ', 'ュ') => Some(MoraEnum::Kyu),
        ('キ', 'ョ') => Some(MoraEnum::Kyo),
        ('キ', 'ェ') => Some(MoraEnum::Kye),
        ('ギ', 'ャ') => Some(MoraEnum::Gya),
        ('ギ', 'ュ') => Some(MoraEnum::Gyu),
        ('ギ', 'ョ') => Some(MoraEnum::Gyo),
        ('ギ', 'ェ') => Some(MoraEnum::Gye),
        ('シ', 'ャ') => Some(MoraEnum::Sha),
        ('シ', 'ュ') => Some(MoraEnum::Shu),
        ('シ', 'ョ') => Some(MoraEnum::Sho),
        ('シ', 'ェ') => Some(MoraEnum::She),
        ('ジ', 'ャ') => Some(MoraEnum::Ja),
        ('ジ', 'ュ') => Some(MoraEnum::Ju),
        ('ジ', 'ョ') => Some(MoraEnum::Jo),
        ('ジ', 'ェ') => Some(MoraEnum::Je),
        ('チ', 'ャ') => Some(MoraEnum::Cha),
        ('チ', 'ュ') => Some(MoraEnum::Chu),
        ('チ', 'ョ') => Some(MoraEnum::Cho),
        ('チ', 'ェ') => Some(MoraEnum::Che),
        ('ヂ', 'ャ') => Some(MoraEnum::Dja),
        ('ヂ', 'ュ') => Some(MoraEnum::Dju),
        ('ヂ', 'ョ') => Some(MoraEnum::Djo),
        ('ニ', 'ャ') => Some(MoraEnum::Nya),
        ('ニ', 'ュ') => Some(MoraEnum::Nyu),
        ('ニ', 'ョ') => Some(MoraEnum::Nyo),
        ('ニ', 'ェ') => Some(MoraEnum::Nye),
        ('ヒ', 'ャ') => Some(MoraEnum::Hya),
        ('ヒ', 'ュ') => Some(MoraEnum::Hyu),
        ('ヒ', 'ョ') => Some(MoraEnum::Hyo),
        ('ヒ', 'ェ') => Some(MoraEnum::Hye),
        ('ビ', 'ャ') => Some(MoraEnum::Bya),
        ('ビ', 'ュ') => Some(MoraEnum::Byu),
        ('ビ', 'ョ') => Some(MoraEnum::Byo),
        ('ビ', 'ェ') => Some(MoraEnum::Bye),
        ('ピ', 'ャ') => Some(MoraEnum::Pya),
        ('ピ', 'ュ') => Some(MoraEnum::Pyu),
        ('ピ', 'ョ') => Some(MoraEnum::Pyo),
        ('ピ', 'ェ') => Some(MoraEnum::Pye),
        ('ミ', 'ャ') => Some(MoraEnum::Mya),
        ('ミ', 'ュ') => Some(MoraEnum::Myu),
        ('ミ', 'ョ') => Some(MoraEnum::Myo),
        ('ミ', 'ェ') => Some(MoraEnum::Mye),
        ('リ', 'ャ') => Some(MoraEnum::Rya),
        ('リ', 'ュ') => Some(MoraEnum::Ryu),
        ('リ', 'ョ') => Some(MoraEnum::Ryo),
        ('リ', 'ェ') => Some(MoraEnum::Rye),
        ('テ', 'ィ') => Some(MoraEnum::Thi),
        ('ト', 'ゥ') => Some(MoraEnum::Twu),
        ('テ', 'ュ') => Some(MoraEnum::Tyu),
        ('デ', 'ィ') => Some(MoraEnum::Dhi),
        ('ド', 'ゥ') => Some(MoraEnum::Dwu),
        ('デ', 'ュ') => Some(MoraEnum::Dyu),
        ('フ', 'ァ') => Some(MoraEnum::Fa),
        ('フ', 'ィ') => Some(MoraEnum::Fi),
        ('フ', 'ェ') => Some(MoraEnum::Fe),
        ('フ', 'ォ') => Some(MoraEnum::Fo),
        ('ウ', 'ィ') => Some(MoraEnum::Whi),
        ('ウ', 'ェ') => Some(MoraEnum::Whe),
        ('ウ', 'ォ') => Some(MoraEnum::Who),
        ('ヴ', 'ァ') => Some(MoraEnum::Va),
        ('ヴ', 'ィ') => Some(MoraEnum::Vi),
        ('ヴ', 'ェ') => Some(MoraEnum::Ve),
        ('ヴ', 'ォ') => Some(MoraEnum::Vo),
        ('ヴ', 'ュ') => Some(MoraEnum::Vyu),
        ('ツ', 'ァ') => Some(MoraEnum::Tsa),
        ('ツ', 'ィ') => Some(MoraEnum::Tsi),
        ('ツ', 'ェ') => Some(MoraEnum::Tse),
        ('ツ', 'ォ') => Some(MoraEnum::Tso),
        ('ス', 'ィ') => Some(MoraEnum::Si),
        ('ズ', 'ィ') => Some(MoraEnum::Zi),
        ('イ', 'ェ') => Some(MoraEnum::Ye),
        _ => None,
    }
}

impl MoraEnum {
    /// The katakana of the mora.
    pub open spec fn text(self) -> Seq<char> {
        match self {
            MoraEnum::A => "ア"@,
            MoraEnum::I => "イ"@,
            MoraEnum::U => "ウ"@,
            MoraEnum::E => "エ"@,
            MoraEnum::O => "オ"@,
            MoraEnum::Ka => "カ"@,
            MoraEnum::Ki => "キ"@,
            MoraEnum::Ku => "ク"@,
            MoraEnum::Ke => "ケ"@,
            MoraEnum::Ko => "コ"@,
            MoraEnum::Ga => "ガ"@,
            MoraEnum::Gi => "ギ"@,
            MoraEnum::Gu => "グ"@,
            MoraEnum::Ge => "ゲ"@,
            MoraEnum::Go => "ゴ"@,
            MoraEnum::Sa => "サ"@,
            MoraEnum::Shi => "シ"@,
            MoraEnum::Su => "ス"@,
            MoraEnum::Se => "セ"@,
            MoraEnum::So => "ソ"@,
            MoraEnum::Za => "ザ"@,
            MoraEnum::Ji => "ジ"@,
            MoraEnum::Zu => "ズ"@,
            MoraEnum::Ze => "ゼ"@,
            MoraEnum::Zo => "ゾ"@,
            MoraEnum::Ta => "タ"@,
            MoraEnum::Chi => "チ"@,
            MoraEnum::Tsu => "ツ"@,
            MoraEnum::Te => "テ"@,
            MoraEnum::To => "ト"@,
            MoraEnum::Da => "ダ"@,
            MoraEnum::Di => "ヂ"@,
            MoraEnum::Du => "ヅ"@,
            MoraEnum::De => "デ"@,
            MoraEnum::Do => "ド"@,
            MoraEnum::Na => "ナ"@,
            MoraEnum::Ni => "ニ"@,
            MoraEnum::Nu => "ヌ"@,
            MoraEnum::Ne => "ネ"@,
            MoraEnum::No => "ノ"@,
            MoraEnum::Ha => "ハ"@,
            MoraEnum::Hi => "ヒ"@,
            MoraEnum::Fu => "フ"@,
            MoraEnum::He => "ヘ"@,
            MoraEnum::Ho => "ホ"@,
            MoraEnum::Ba => "バ"@,
            MoraEnum::Bi => "ビ"@,
            MoraEnum::Bu => "ブ"@,
            MoraEnum::Be => "ベ"@,
            MoraEnum::Bo => "ボ"@,
            MoraEnum::Pa => "パ"@,
            MoraEnum::Pi => "ピ"@,
            MoraEnum::Pu => "プ"@,
            MoraEnum::Pe => "ペ"@,
            MoraEnum::Po => "ポ"@,
            MoraEnum::Ma => "マ"@,
            MoraEnum::Mi => "ミ"@,
            MoraEnum::Mu => "ム"@,
            MoraEnum::Me => "メ"@,
            MoraEnum::Mo => "モ"@,
            MoraEnum::Ya => "ヤ"@,
            MoraEnum::Yu => "ユ"@,
            MoraEnum::Yo => "ヨ"@,
            MoraEnum::Ra => "ラ"@,
            MoraEnum::Ri => "リ"@,
            MoraEnum::Ru => "ル"@,
            MoraEnum::Re => "レ"@,
            MoraEnum::Ro => "ロ"@,
            MoraEnum::Wa => "ワ"@,
            MoraEnum::Wi => "ヰ"@,
            MoraEnum::We => "ヱ"@,
            MoraEnum::Wo => "ヲ"@,
            MoraEnum::N => "ン"@,
            MoraEnum::Xtsu => "ッ"@,
            MoraEnum::Vu => "ヴ"@,
            MoraEnum::Xa => "ァ"@,
            MoraEnum::Xi => "ィ"@,
            MoraEnum::Xu => "ゥ"@,
            MoraEnum::Xe => "ェ"@,
            MoraEnum::Xo => "ォ"@,
            MoraEnum::Xya => "ャ"@,
            MoraEnum::Xyu => "ュ"@,
            MoraEnum::Xyo => "ョ"@,
            MoraEnum::Xwa => "ヮ"@,
            MoraEnum::Long => "ー"@,
            MoraEnum::Kya => "キャ"@,
            MoraEnum::Kyu => "キュ"@,
            MoraEnum::Kyo => "キョ"@,
            MoraEnum::Kye => "キェ"@,
            MoraEnum::Gya => "ギャ"@,
            MoraEnum::Gyu => "ギュ"@,
            MoraEnum::Gyo => "ギョ"@,
            MoraEnum::Gye => "ギェ"@,
            MoraEnum::Sha => "シャ"@,
            MoraEnum::Shu => "シュ"@,
            MoraEnum::Sho => "ショ"@,
            MoraEnum::She => "シェ"@,
            MoraEnum::Ja => "ジャ"@,
            MoraEnum::Ju => "ジュ"@,
            MoraEnum::Jo => "ジョ"@,
            MoraEnum::Je => "ジェ"@,
            MoraEnum::Cha => "チャ"@,
            MoraEnum::Chu => "チュ"@,
            MoraEnum::Cho => "チョ"@,
            MoraEnum::Che => "チェ"@,
            MoraEnum::Dja => "ヂャ"@,
            MoraEnum::Dju => "ヂュ"@,
            MoraEnum::Djo => "ヂョ"@,
            MoraEnum::Nya => "ニャ"@,
            MoraEnum::Nyu => "ニュ"@,
            MoraEnum::Nyo => "ニョ"@,
            MoraEnum::Nye => "ニェ"@,
            MoraEnum::Hya => "ヒャ"@,
            MoraEnum::Hyu => "ヒュ"@,
            MoraEnum::Hyo => "ヒョ"@,
            MoraEnum::Hye => "ヒェ"@,
            MoraEnum::Bya => "ビャ"@,
            MoraEnum::Byu => "ビュ"@,
            MoraEnum::Byo => "ビョ"@,
            MoraEnum::Bye => "ビェ"@,
            MoraEnum::Pya => "ピャ"@,
            MoraEnum::Pyu => "ピュ"@,
            MoraEnum::Pyo => "ピョ"@,
            MoraEnum::Pye => "ピェ"@,
            MoraEnum::Mya => "ミャ"@,
            MoraEnum::Myu => "ミュ"@,
            MoraEnum::Myo => "ミョ"@,
            MoraEnum::Mye => "ミェ"@,
            MoraEnum::Rya => "リャ"@,
            MoraEnum::Ryu => "リュ"@,
            MoraEnum::Ryo => "リョ"@,
            MoraEnum::Rye => "リェ"@,
            MoraEnum::Thi => "ティ"@,
            MoraEnum::Twu => "トゥ"@,
            MoraEnum::Tyu => "テュ"@,
            MoraEnum::Dhi => "ディ"@,
            MoraEnum::Dwu => "ドゥ"@,
            MoraEnum::Dyu => "デュ"@,
            MoraEnum::Fa => "ファ"@,
            MoraEnum::Fi => "フィ"@,
            MoraEnum::Fe => "フェ"@,
            MoraEnum::Fo => "フォ"@,
            MoraEnum::Whi => "ウィ"@,
            MoraEnum::Whe => "ウェ"@,
            MoraEnum::Who => "ウォ"@,
            MoraEnum::Va => "ヴァ"@,
            MoraEnum::Vi => "ヴィ"@,
            MoraEnum::Ve => "ヴェ"@,
            MoraEnum::Vo => "ヴォ"@,
            MoraEnum::Vyu => "ヴュ"@,
            MoraEnum::Tsa => "ツァ"@,
            MoraEnum::Tsi => "ツィ"@,
            MoraEnum::Tse => "ツェ"@,
            MoraEnum::Tso => "ツォ"@,
            MoraEnum::Si => "スィ"@,
            MoraEnum::Zi => "ズィ"@,
            MoraEnum::Ye => "イェ"@,
            MoraEnum::Question => "？"@,
            MoraEnum::Touten => "、"@,
        }
    }

    /// The katakana of the mora.
    pub fn as_str(&self) -> (r: &'static str)
        ensures
            r@ == self.text(),
    {
        match self {
            MoraEnum::A => "ア",
            MoraEnum::I => "イ",
            MoraEnum::U => "ウ",
            MoraEnum::E => "エ",
            MoraEnum::O => "オ",
            MoraEnum::Ka => "カ",
            MoraEnum::Ki => "キ",
            MoraEnum::Ku => "ク",
            MoraEnum::Ke => "ケ",
            MoraEnum::Ko => "コ",
            MoraEnum::Ga => "ガ",
            MoraEnum::Gi => "ギ",
            MoraEnum::Gu => "グ",
            MoraEnum::Ge => "ゲ",
            MoraEnum::Go => "ゴ",
            MoraEnum::Sa => "サ",
            MoraEnum::Shi => "シ",
            MoraEnum::Su => "ス",
            MoraEnum::Se => "セ",
            MoraEnum::So => "ソ",
            MoraEnum::Za => "ザ",
            MoraEnum::Ji => "ジ",
            MoraEnum::Zu => "ズ",
            MoraEnum::Ze => "ゼ",
            MoraEnum::Zo => "ゾ",
            MoraEnum::Ta => "タ",
            MoraEnum::Chi => "チ",
            MoraEnum::Tsu => "ツ",
            MoraEnum::Te => "テ",
            MoraEnum::To => "ト",
            MoraEnum::Da => "ダ",
            MoraEnum::Di => "ヂ",
            MoraEnum::Du => "ヅ",
            MoraEnum::De => "デ",
            MoraEnum::Do => "ド",
            MoraEnum::Na => "ナ",
            MoraEnum::Ni => "ニ",
            MoraEnum::Nu => "ヌ",
            MoraEnum::Ne => "ネ",
            MoraEnum::No => "ノ",
            MoraEnum::Ha => "ハ",
            MoraEnum::Hi => "ヒ",
            MoraEnum::Fu => "フ",
            MoraEnum::He => "ヘ",
            MoraEnum::Ho => "ホ",
            MoraEnum::Ba => "バ",
            MoraEnum::Bi => "ビ",
            MoraEnum::Bu => "ブ",
            MoraEnum::Be => "ベ",
            MoraEnum::Bo => "ボ",
            MoraEnum::Pa => "パ",
            MoraEnum::Pi => "ピ",
            MoraEnum::Pu => "プ",
            MoraEnum::Pe => "ペ",
            MoraEnum::Po => "ポ",
            MoraEnum::Ma => "マ",
            MoraEnum::Mi => "ミ",
            MoraEnum::Mu => "ム",
            MoraEnum::Me => "メ",
            MoraEnum::Mo => "モ",
            MoraEnum::Ya => "ヤ",
            MoraEnum::Yu => "ユ",
            MoraEnum::Yo => "ヨ",
            MoraEnum::Ra => "ラ",
            MoraEnum::Ri => "リ",
            MoraEnum::Ru => "ル",
            MoraEnum::Re => "レ",
            MoraEnum::Ro => "ロ",
            MoraEnum::Wa => "ワ",
            MoraEnum::Wi => "ヰ",
            MoraEnum::We => "ヱ",
            MoraEnum::Wo => "ヲ",
            MoraEnum::N => "ン",
            MoraEnum::Xtsu => "ッ",
            MoraEnum::Vu => "ヴ",
            MoraEnum::Xa => "ァ",
            MoraEnum::Xi => "ィ",
            MoraEnum::Xu => "ゥ",
            MoraEnum::Xe => "ェ",
            MoraEnum::Xo => "ォ",
            MoraEnum::Xya => "ャ",
            MoraEnum::Xyu => "ュ",
            MoraEnum::Xyo => "ョ",
            MoraEnum::Xwa => "ヮ",
            MoraEnum::Long => "ー",
            MoraEnum::Kya => "キャ",
            MoraEnum::Kyu => "キュ",
            MoraEnum::Kyo => "キョ",
            MoraEnum::Kye => "キェ",
            MoraEnum::Gya => "ギャ",
            MoraEnum::Gyu => "ギュ",
            MoraEnum::Gyo => "ギョ",
            MoraEnum::Gye => "ギェ",
            MoraEnum::Sha => "シャ",
            MoraEnum::Shu => "シュ",
            MoraEnum::Sho => "ショ",
            MoraEnum::She => "シェ",
            MoraEnum::Ja => "ジャ",
            MoraEnum::Ju => "ジュ",
            MoraEnum::Jo => "ジョ",
            MoraEnum::Je => "ジェ",
            MoraEnum::Cha => "チャ",
            MoraEnum::Chu => "チュ",
            MoraEnum::Cho => "チョ",
            MoraEnum::Che => "チェ",
            MoraEnum::Dja => "ヂャ",
            MoraEnum::Dju => "ヂュ",
            MoraEnum::Djo => "ヂョ",
            MoraEnum::Nya => "ニャ",
            MoraEnum::Nyu => "ニュ",
            MoraEnum::Nyo => "ニョ",
            MoraEnum::Nye => "ニェ",
            MoraEnum::Hya => "ヒャ",
            MoraEnum::Hyu => "ヒュ",
            MoraEnum::Hyo => "ヒョ",
            MoraEnum::Hye => "ヒェ",
            MoraEnum::Bya => "ビャ",
            MoraEnum::Byu => "ビュ",
            MoraEnum::Byo => "ビョ",
            MoraEnum::Bye => "ビェ",
            MoraEnum::Pya => "ピャ",
            MoraEnum::Pyu => "ピュ",
            MoraEnum::Pyo => "ピョ",
            MoraEnum::Pye => "ピェ",
            MoraEnum::Mya => "ミャ",
            MoraEnum::Myu => "ミュ",
            MoraEnum::Myo => "ミョ",
            MoraEnum::Mye => "ミェ",
            MoraEnum::Rya => "リャ",
            MoraEnum::Ryu => "リュ",
            MoraEnum::Ryo => "リョ",
            MoraEnum::Rye => "リェ",
            MoraEnum::Thi => "ティ",
            MoraEnum::Twu => "トゥ",
            MoraEnum::Tyu => "テュ",
            MoraEnum::Dhi => "ディ",
            MoraEnum::Dwu => "ドゥ",
            MoraEnum::Dyu => "デュ",
            MoraEnum::Fa => "ファ",
            MoraEnum::Fi => "フィ",
            MoraEnum::Fe => "フェ",
            MoraEnum::Fo => "フォ",
            MoraEnum::Whi => "ウィ",
            MoraEnum::Whe => "ウェ",
            MoraEnum::Who => "ウォ",
            MoraEnum::Va => "ヴァ",
            MoraEnum::Vi => "ヴィ",
            MoraEnum::Ve => "ヴェ",
            MoraEnum::Vo => "ヴォ",
            MoraEnum::Vyu => "ヴュ",
            MoraEnum::Tsa => "ツァ",
            MoraEnum::Tsi => "ツィ",
            MoraEnum::Tse => "ツェ",
            MoraEnum::Tso => "ツォ",
            MoraEnum::Si => "スィ",
            MoraEnum::Zi => "ズィ",
            MoraEnum::Ye => "イェ",
            MoraEnum::Question => "？",
            MoraEnum::Touten => "、",
        }
    }

    /// The consonant and vowel of the mora; the long-vowel mark and the
    /// symbols have neither.
    pub open spec fn spec_phonemes(self) -> (Option<Consonant>, Option<Vowel>) {
        match self {
            MoraEnum::A => (None, Some(Vowel::A)),
            MoraEnum::I => (None, Some(Vowel::I)),
            MoraEnum::U => (None, Some(Vowel::U)),
            MoraEnum::E => (None, Some(Vowel::E)),
            MoraEnum::O => (None, Some(Vowel::O)),
            MoraEnum::Ka => (Some(Consonant::K), Some(Vowel::A)),
            MoraEnum::Ki => (Some(Consonant::K), Some(Vowel::I)),
            MoraEnum::Ku => (Some(Consonant::K), Some(Vowel::U)),
            MoraEnum::Ke => (Some(Consonant::K), Some(Vowel::E)),
            MoraEnum::Ko => (Some(Consonant::K), Some(Vowel::O)),
            MoraEnum::Ga => (Some(Consonant::G), Some(Vowel::A)),
            MoraEnum::Gi => (Some(Consonant::G), Some(Vowel::I)),
            MoraEnum::Gu => (Some(Consonant::G), Some(Vowel::U)),
            MoraEnum::Ge => (Some(Consonant::G), Some(Vowel::E)),
            MoraEnum::Go => (Some(Consonant::G), Some(Vowel::O)),
            MoraEnum::Sa => (Some(Consonant::S), Some(Vowel::A)),
            MoraEnum::Shi => (Some(Consonant::Sh), Some(Vowel::I)),
            MoraEnum::Su => (Some(Consonant::S), Some(Vowel::U)),
            MoraEnum::Se => (Some(Consonant::S), Some(Vowel::E)),
            MoraEnum::So => (Some(Consonant::S), Some(Vowel::O)),
            MoraEnum::Za => (Some(Consonant::Z), Some(Vowel::A)),
            MoraEnum::Ji => (Some(Consonant::J), Some(Vowel::I)),
            MoraEnum::Zu => (Some(Consonant::Z), Some(Vowel::U)),
            MoraEnum::Ze => (Some(Consonant::Z), Some(Vowel::E)),
            MoraEnum::Zo => (Some(Consonant::Z), Some(Vowel::O)),
            MoraEnum::Ta => (Some(Consonant::T), Some(Vowel::A)),
            MoraEnum::Chi => (Some(Consonant::Ch), Some(Vowel::I)),
            MoraEnum::Tsu => (Some(Consonant::Ts), Some(Vowel::U)),
            MoraEnum::Te => (Some(Consonant::T), Some(Vowel::E)),
            MoraEnum::To => (Some(Consonant::T), Some(Vowel::O)),
            MoraEnum::Da => (Some(Consonant::D), Some(Vowel::A)),
            MoraEnum::Di => (Some(Consonant::J), Some(Vowel::I)),
            MoraEnum::Du => (Some(Consonant::Z), Some(Vowel::U)),
            MoraEnum::De => (Some(Consonant::D), Some(Vowel::E)),
            MoraEnum::Do => (Some(Consonant::D), Some(Vowel::O)),
            MoraEnum::Na => (Some(Consonant::N), Some(Vowel::A)),
            MoraEnum::Ni => (Some(Consonant::N), Some(Vowel::I)),
            MoraEnum::Nu => (Some(Consonant::N), Some(Vowel::U)),
            MoraEnum::Ne => (Some(Consonant::N), Some(Vowel::E)),
            MoraEnum::No => (Some(Consonant::N), Some(Vowel::O)),
            MoraEnum::Ha => (Some(Consonant::H), Some(Vowel::A)),
            MoraEnum::Hi => (Some(Consonant::H), Some(Vowel::I)),
            MoraEnum::Fu => (Some(Consonant::F), Some(Vowel::U)),
            MoraEnum::He => (Some(Consonant::H), Some(Vowel::E)),
            MoraEnum::Ho => (Some(Consonant::H), Some(Vowel::O)),
            MoraEnum::Ba => (Some(Consonant::B), Some(Vowel::A)),
            MoraEnum::Bi => (Some(Consonant::B), Some(Vowel::I)),
            MoraEnum::Bu => (Some(Consonant::B), Some(Vowel::U)),
            MoraEnum::Be => (Some(Consonant::B), Some(Vowel::E)),
            MoraEnum::Bo => (Some(Consonant::B), Some(Vowel::O)),
            MoraEnum::Pa => (Some(Consonant::P), Some(Vowel::A)),
            MoraEnum::Pi => (Some(Consonant::P), Some(Vowel::I)),
            MoraEnum::Pu => (Some(Consonant::P), Some(Vowel::U)),
            MoraEnum::Pe => (Some(Consonant::P), Some(Vowel::E)),
            MoraEnum::Po => (Some(Consonant::P), Some(Vowel::O)),
            MoraEnum::Ma => (Some(Consonant::M), Some(Vowel::A)),
            MoraEnum::Mi => (Some(Consonant::M), Some(Vowel::I)),
            MoraEnum::Mu => (Some(Consonant::M), Some(Vowel::U)),
            MoraEnum::Me => (Some(Consonant::M), Some(Vowel::E)),
            MoraEnum::Mo => (Some(Consonant::M), Some(Vowel::O)),
            MoraEnum::Ya => (Some(Consonant::Y), Some(Vowel::A)),
            MoraEnum::Yu => (Some(Consonant::Y), Some(Vowel::U)),
            MoraEnum::Yo => (Some(Consonant::Y), Some(Vowel::O)),
            MoraEnum::Ra => (Some(Consonant::R), Some(Vowel::A)),
            MoraEnum::Ri => (Some(Consonant::R), Some(Vowel::I)),
            MoraEnum::Ru => (Some(Consonant::R), Some(Vowel::U)),
            MoraEnum::Re => (Some(Consonant::R), Some(Vowel::E)),
            MoraEnum::Ro => (Some(Consonant::R), Some(Vowel::O)),
            MoraEnum::Wa => (Some(Consonant::W), Some(Vowel::A)),
            MoraEnum::Wi => (None, Some(Vowel::I)),
            MoraEnum::We => (None, Some(Vowel::E)),
            MoraEnum::Wo => (None, Some(Vowel::O)),
            MoraEnum::N => (None, Some(Vowel::N)),
            MoraEnum::Xtsu => (None, Some(Vowel::Cl)),
            MoraEnum::Vu => (Some(Consonant::V), Some(Vowel::U)),
            MoraEnum::Xa => (None, Some(Vowel::A)),
            MoraEnum::Xi => (None, Some(Vowel::I)),
            MoraEnum::Xu => (None, Some(Vowel::U)),
            MoraEnum::Xe => (None, Some(Vowel::E)),
            MoraEnum::Xo => (None, Some(Vowel::O)),
            MoraEnum::Xya => (Some(Consonant::Y), Some(Vowel::A)),
            MoraEnum::Xyu => (Some(Consonant::Y), Some(Vowel::U)),
            MoraEnum::Xyo => (Some(Consonant::Y), Some(Vowel::O)),
            MoraEnum::Xwa => (Some(Consonant::W), Some(Vowel::A)),
            MoraEnum::Long => (None, None),
            MoraEnum::Kya => (Some(Consonant::Ky), Some(Vowel::A)),
            MoraEnum::Kyu => (Some(Consonant::Ky), Some(Vowel::U)),
            MoraEnum::Kyo => (Some(Consonant::Ky), Some(Vowel::O)),
            MoraEnum::Kye => (Some(Consonant::Ky), Some(Vowel::E)),
            MoraEnum::Gya => (Some(Consonant::Gy), Some(Vowel::A)),
            MoraEnum::Gyu => (Some(Consonant::Gy), Some(Vowel::U)),
            MoraEnum::Gyo => (Some(Consonant::Gy), Some(Vowel::O)),
            MoraEnum::Gye => (Some(Consonant::Gy), Some(Vowel::E)),
            MoraEnum::Sha => (Some(Consonant::Sh), Some(Vowel::A)),
            MoraEnum::Shu => (Some(Consonant::Sh), Some(Vowel::U)),
            MoraEnum::Sho => (Some(Consonant::Sh), Some(Vowel::O)),
            MoraEnum::She => (Some(Consonant::Sh), Some(Vowel::E)),
            MoraEnum::Ja => (Some(Consonant::J), Some(Vowel::A)),
            MoraEnum::Ju => (Some(Consonant::J), Some(Vowel::U)),
            MoraEnum::Jo => (Some(Consonant::J), Some(Vowel::O)),
            MoraEnum::Je => (Some(Consonant::J), Some(Vowel::E)),
            MoraEnum::Cha => (Some(Consonant::Ch), Some(Vowel::A)),
            MoraEnum::Chu => (Some(Consonant::Ch), Some(Vowel::U)),
            MoraEnum::Cho => (Some(Consonant::Ch), Some(Vowel::O)),
            MoraEnum::Che => (Some(Consonant::Ch), Some(Vowel::E)),
            MoraEnum::Dja => (Some(Consonant::J), Some(Vowel::A)),
            MoraEnum::Dju => (Some(Consonant::J), Some(Vowel::U)),
            MoraEnum::Djo => (Some(Consonant::J), Some(Vowel::O)),
            MoraEnum::Nya => (Some(Consonant::Ny), Some(Vowel::A)),
            MoraEnum::Nyu => (Some(Consonant::Ny), Some(Vowel::U)),
            MoraEnum::Nyo => (Some(Consonant::Ny), Some(Vowel::O)),
            MoraEnum::Nye => (Some(Consonant::Ny), Some(Vowel::E)),
            MoraEnum::Hya => (Some(Consonant::Hy), Some(Vowel::A)),
            MoraEnum::Hyu => (Some(Consonant::Hy), Some(Vowel::U)),
            MoraEnum::Hyo => (Some(Consonant::Hy), Some(Vowel::O)),
            MoraEnum::Hye => (Some(Consonant::Hy), Some(Vowel::E)),
            MoraEnum::Bya => (Some(Consonant::By), Some(Vowel::A)),
            MoraEnum::Byu => (Some(Consonant::By), Some(Vowel::U)),
            MoraEnum::Byo => (Some(Consonant::By), Some(Vowel::O)),
            MoraEnum::Bye => (Some(Consonant::By), Some(Vowel::E)),
            MoraEnum::Pya => (Some(Consonant::Py), Some(Vowel::A)),
            MoraEnum::Pyu => (Some(Consonant::Py), Some(Vowel::U)),
            MoraEnum::Pyo => (Some(Consonant::Py), Some(Vowel::O)),
            MoraEnum::Pye => (Some(Consonant::Py), Some(Vowel::E)),
            MoraEnum::Mya => (Some(Consonant::My), Some(Vowel::A)),
            MoraEnum::Myu => (Some(Consonant::My), Some(Vowel::U)),
            MoraEnum::Myo => (Some(Consonant::My), Some(Vowel::O)),
            MoraEnum::Mye => (Some(Consonant::My), Some(Vowel::E)),
            MoraEnum::Rya => (Some(Consonant::Ry), Some(Vowel::A)),
            MoraEnum::Ryu => (Some(Consonant::Ry), Some(Vowel::U)),
            MoraEnum::Ryo => (Some(Consonant::Ry), Some(Vowel::O)),
            MoraEnum::Rye => (Some(Consonant::Ry), Some(Vowel::E)),
            MoraEnum::Thi => (Some(Consonant::T), Some(Vowel::I)),
            MoraEnum::Twu => (Some(Consonant::T), Some(Vowel::U)),
            MoraEnum::Tyu => (Some(Consonant::Ty), Some(Vowel::U)),
            MoraEnum::Dhi => (Some(Consonant::D), Some(Vowel::I)),
            MoraEnum::Dwu => (Some(Consonant::D), Some(Vowel::U)),
            MoraEnum::Dyu => (Some(Consonant::Dy), Some(Vowel::U)),
            MoraEnum::Fa => (Some(Consonant::F), Some(Vowel::A)),
            MoraEnum::Fi => (Some(Consonant::F), Some(Vowel::I)),
            MoraEnum::Fe => (Some(Consonant::F), Some(Vowel::E)),
            MoraEnum::Fo => (Some(Consonant::F), Some(Vowel::O)),
            MoraEnum::Whi => (Some(Consonant::W), Some(Vowel::I)),
            MoraEnum::Whe => (Some(Consonant::W), Some(Vowel::E)),
            MoraEnum::Who => (Some(Consonant::W), Some(Vowel::O)),
            MoraEnum::Va => (Some(Consonant::V), Some(Vowel::A)),
            MoraEnum::Vi => (Some(Consonant::V), Some(Vowel::I)),
            MoraEnum::Ve => (Some(Consonant::V), Some(Vowel::E)),
            MoraEnum::Vo => (Some(Consonant::V), Some(Vowel::O)),
            MoraEnum::Vyu => (Some(Consonant::By), Some(Vowel::U)),
            MoraEnum::Tsa => (Some(Consonant::Ts), Some(Vowel::A)),
            MoraEnum::Tsi => (Some(Consonant::Ts), Some(Vowel::I)),
            MoraEnum::Tse => (Some(Consonant::Ts), Some(Vowel::E)),
            MoraEnum::Tso => (Some(Consonant::Ts), Some(Vowel::O)),
            MoraEnum::Si => (Some(Consonant::S), Some(Vowel::I)),
            MoraEnum::Zi => (Some(Consonant::Z), Some(Vowel::I)),
            MoraEnum::Ye => (Some(Consonant::Y), Some(Vowel::E)),
            MoraEnum::Question => (None, None),
            MoraEnum::Touten => (None, None),
        }
    }

    /// The consonant and vowel of the mora.
    pub fn phonemes(&self) -> (r: (Option<Consonant>, Option<Vowel>))
        ensures
            r == self.spec_phonemes(),
    {
        match self {
            MoraEnum::A => (None, Some(Vowel::A)),
            MoraEnum::I => (None, Some(Vowel::I)),
            MoraEnum::U => (None, Some(Vowel::U)),
            MoraEnum::E => (None, Some(Vowel::E)),
            MoraEnum::O => (None, Some(Vowel::O)),
            MoraEnum::Ka => (Some(Consonant::K), Some(Vowel::A)),
            MoraEnum::Ki => (Some(Consonant::K), Some(Vowel::I)),
            MoraEnum::Ku => (Some(Consonant::K), Some(Vowel::U)),
            MoraEnum::Ke => (Some(Consonant::K), Some(Vowel::E)),
            MoraEnum::Ko => (Some(Consonant::K), Some(Vowel::O)),
            MoraEnum::Ga => (Some(Consonant::G), Some(Vowel::A)),
            MoraEnum::Gi => (Some(Consonant::G), Some(Vowel::I)),
            MoraEnum::Gu => (Some(Consonant::G), Some(Vowel::U)),
            MoraEnum::Ge => (Some(Consonant::G), Some(Vowel::E)),
            MoraEnum::Go => (Some(Consonant::G), Some(Vowel::O)),
            MoraEnum::Sa => (Some(Consonant::S), Some(Vowel::A)),
            MoraEnum::Shi => (Some(Consonant::Sh), Some(Vowel::I)),
            MoraEnum::Su => (Some(Consonant::S), Some(Vowel::U)),
            MoraEnum::Se => (Some(Consonant::S), Some(Vowel::E)),
            MoraEnum::So => (Some(Consonant::S), Some(Vowel::O)),
            MoraEnum::Za => (Some(Consonant::Z), Some(Vowel::A)),
            MoraEnum::Ji => (Some(Consonant::J), Some(Vowel::I)),
            MoraEnum::Zu => (Some(Consonant::Z), Some(Vowel::U)),
            MoraEnum::Ze => (Some(Consonant::Z), Some(Vowel::E)),
            MoraEnum::Zo => (Some(Consonant::Z), Some(Vowel::O)),
            MoraEnum::Ta => (Some(Consonant::T), Some(Vowel::A)),
            MoraEnum::Chi => (Some(Consonant::Ch), Some(Vowel::I)),
            MoraEnum::Tsu => (Some(Consonant::Ts), Some(Vowel::U)),
            MoraEnum::Te => (Some(Consonant::T), Some(Vowel::E)),
            MoraEnum::To => (Some(Consonant::T), Some(Vowel::O)),
            MoraEnum::Da => (Some(Consonant::D), Some(Vowel::A)),
            MoraEnum::Di => (Some(Consonant::J), Some(Vowel::I)),
            MoraEnum::Du => (Some(Consonant::Z), Some(Vowel::U)),
            MoraEnum::De => (Some(Consonant::D), Some(Vowel::E)),
            MoraEnum::Do => (Some(Consonant::D), Some(Vowel::O)),
            MoraEnum::Na => (Some(Consonant::N), Some(Vowel::A)),
            MoraEnum::Ni => (Some(Consonant::N), Some(Vowel::I)),
            MoraEnum::Nu => (Some(Consonant::N), Some(Vowel::U)),
            MoraEnum::Ne => (Some(Consonant::N), Some(Vowel::E)),
            MoraEnum::No => (Some(Consonant::N), Some(Vowel::O)),
            MoraEnum::Ha => (Some(Consonant::H), Some(Vowel::A)),
            MoraEnum::Hi => (Some(Consonant::H), Some(Vowel::I)),
            MoraEnum::Fu => (Some(Consonant::F), Some(Vowel::U)),
            MoraEnum::He => (Some(Consonant::H), Some(Vowel::E)),
            MoraEnum::Ho => (Some(Consonant::H), Some(Vowel::O)),
            MoraEnum::Ba => (Some(Consonant::B), Some(Vowel::A)),
            MoraEnum::Bi => (Some(Consonant::B), Some(Vowel::I)),
            MoraEnum::Bu => (Some(Consonant::B), Some(Vowel::U)),
            MoraEnum::Be => (Some(Consonant::B), Some(Vowel::E)),
            MoraEnum::Bo => (Some(Consonant::B), Some(Vowel::O)),
            MoraEnum::Pa => (Some(Consonant::P), Some(Vowel::A)),
            MoraEnum::Pi => (Some(Consonant::P), Some(Vowel::I)),
            MoraEnum::Pu => (Some(Consonant::P), Some(Vowel::U)),
            MoraEnum::Pe => (Some(Consonant::P), Some(Vowel::E)),
            MoraEnum::Po => (Some(Consonant::P), Some(Vowel::O)),
            MoraEnum::Ma => (Some(Consonant::M), Some(Vowel::A)),
            MoraEnum::Mi => (Some(Consonant::M), Some(Vowel::I)),
            MoraEnum::Mu => (Some(Consonant::M), Some(Vowel::U)),
            MoraEnum::Me => (Some(Consonant::M), Some(Vowel::E)),
            MoraEnum::Mo => (Some(Consonant::M), Some(Vowel::O)),
            MoraEnum::Ya => (Some(Consonant::Y), Some(Vowel::A)),
            MoraEnum::Yu => (Some(Consonant::Y), Some(Vowel::U)),
            MoraEnum::Yo => (Some(Consonant::Y), Some(Vowel::O)),
            MoraEnum::Ra => (Some(Consonant::R), Some(Vowel::A)),
            MoraEnum::Ri => (Some(Consonant::R), Some(Vowel::I)),
            MoraEnum::Ru => (Some(Consonant::R), Some(Vowel::U)),
            MoraEnum::Re => (Some(Consonant::R), Some(Vowel::E)),
            MoraEnum::Ro => (Some(Consonant::R), Some(Vowel::O)),
            MoraEnum::Wa => (Some(Consonant::W), Some(Vowel::A)),
            MoraEnum::Wi => (None, Some(Vowel::I)),
            MoraEnum::We => (None, Some(Vowel::E)),
            MoraEnum::Wo => (None, Some(Vowel::O)),
            MoraEnum::N => (None, Some(Vowel::N)),
            MoraEnum::Xtsu => (None, Some(Vowel::Cl)),
            MoraEnum::Vu => (Some(Consonant::V), Some(Vowel::U)),
            MoraEnum::Xa => (None, Some(Vowel::A)),
            MoraEnum::Xi => (None, Some(Vowel::I)),
            MoraEnum::Xu => (None, Some(Vowel::U)),
            MoraEnum::Xe => (None, Some(Vowel::E)),
            MoraEnum::Xo => (None, Some(Vowel::O)),
            MoraEnum::Xya => (Some(Consonant::Y), Some(Vowel::A)),
            MoraEnum::Xyu => (Some(Consonant::Y), Some(Vowel::U)),
            MoraEnum::Xyo => (Some(Consonant::Y), Some(Vowel::O)),
            MoraEnum::Xwa => (Some(Consonant::W), Some(Vowel::A)),
            MoraEnum::Long => (None, None),
            MoraEnum::Kya => (Some(Consonant::Ky), Some(Vowel::A)),
            MoraEnum::Kyu => (Some(Consonant::Ky), Some(Vowel::U)),
            MoraEnum::Kyo => (Some(Consonant::Ky), Some(Vowel::O)),
            MoraEnum::Kye => (Some(Consonant::Ky), Some(Vowel::E)),
            MoraEnum::Gya => (Some(Consonant::Gy), Some(Vowel::A)),
            MoraEnum::Gyu => (Some(Consonant::Gy), Some(Vowel::U)),
            MoraEnum::Gyo => (Some(Consonant::Gy), Some(Vowel::O)),
            MoraEnum::Gye => (Some(Consonant::Gy), Some(Vowel::E)),
            MoraEnum::Sha => (Some(Consonant::Sh), Some(Vowel::A)),
            MoraEnum::Shu => (Some(Consonant::Sh), Some(Vowel::U)),
            MoraEnum::Sho => (Some(Consonant::Sh), Some(Vowel::O)),
            MoraEnum::She => (Some(Consonant::Sh), Some(Vowel::E)),
            MoraEnum::Ja => (Some(Consonant::J), Some(Vowel::A)),
            MoraEnum::Ju => (Some(Consonant::J), Some(Vowel::U)),
            MoraEnum::Jo => (Some(Consonant::J), Some(Vowel::O)),
            MoraEnum::Je => (Some(Consonant::J), Some(Vowel::E)),
            MoraEnum::Cha => (Some(Consonant::Ch), Some(Vowel::A)),
            MoraEnum::Chu => (Some(Consonant::Ch), Some(Vowel::U)),
            MoraEnum::Cho => (Some(Consonant::Ch), Some(Vowel::O)),
            MoraEnum::Che => (Some(Consonant::Ch), Some(Vowel::E)),
            MoraEnum::Dja => (Some(Consonant::J), Some(Vowel::A)),
            MoraEnum::Dju => (Some(Consonant::J), Some(Vowel::U)),
            MoraEnum::Djo => (Some(Consonant::J), Some(Vowel::O)),
            MoraEnum::Nya => (Some(Consonant::Ny), Some(Vowel::A)),
            MoraEnum::Nyu => (Some(Consonant::Ny), Some(Vowel::U)),
            MoraEnum::Nyo => (Some(Consonant::Ny), Some(Vowel::O)),
            MoraEnum::Nye => (Some(Consonant::Ny), Some(Vowel::E)),
            MoraEnum::Hya => (Some(Consonant::Hy), Some(Vowel::A)),
            MoraEnum::Hyu => (Some(Consonant::Hy), Some(Vowel::U)),
            MoraEnum::Hyo => (Some(Consonant::Hy), Some(Vowel::O)),
            MoraEnum::Hye => (Some(Consonant::Hy), Some(Vowel::E)),
            MoraEnum::Bya => (Some(Consonant::By), Some(Vowel::A)),
            MoraEnum::Byu => (Some(Consonant::By), Some(Vowel::U)),
            MoraEnum::Byo => (Some(Consonant::By), Some(Vowel::O)),
            MoraEnum::Bye => (Some(Consonant::By), Some(Vowel::E)),
            MoraEnum::Pya => (Some(Consonant::Py), Some(Vowel::A)),
            MoraEnum::Pyu => (Some(Consonant::Py), Some(Vowel::U)),
            MoraEnum::Pyo => (Some(Consonant::Py), Some(Vowel::O)),
            MoraEnum::Pye => (Some(Consonant::Py), Some(Vowel::E)),
            MoraEnum::Mya => (Some(Consonant::My), Some(Vowel::A)),
            MoraEnum::Myu => (Some(Consonant::My), Some(Vowel::U)),
            MoraEnum::Myo => (Some(Consonant::My), Some(Vowel::O)),
            MoraEnum::Mye => (Some(Consonant::My), Some(Vowel::E)),
            MoraEnum::Rya => (Some(Consonant::Ry), Some(Vowel::A)),
            MoraEnum::Ryu => (Some(Consonant::Ry), Some(Vowel::U)),
            MoraEnum::Ryo => (Some(Consonant::Ry), Some(Vowel::O)),
            MoraEnum::Rye => (Some(Consonant::Ry), Some(Vowel::E)),
            MoraEnum::Thi => (Some(Consonant::T), Some(Vowel::I)),
            MoraEnum::Twu => (Some(Consonant::T), Some(Vowel::U)),
            MoraEnum::Tyu => (Some(Consonant::Ty), Some(Vowel::U)),
            MoraEnum::Dhi => (Some(Consonant::D), Some(Vowel::I)),
            MoraEnum::Dwu => (Some(Consonant::D), Some(Vowel::U)),
            MoraEnum::Dyu => (Some(Consonant::Dy), Some(Vowel::U)),
            MoraEnum::Fa => (Some(Consonant::F), Some(Vowel::A)),
            MoraEnum::Fi => (Some(Consonant::F), Some(Vowel::I)),
            MoraEnum::Fe => (Some(Consonant::F), Some(Vowel::E)),
            MoraEnum::Fo => (Some(Consonant::F), Some(Vowel::O)),
            MoraEnum::Whi => (Some(Consonant::W), Some(Vowel::I)),
            MoraEnum::Whe => (Some(Consonant::W), Some(Vowel::E)),
            MoraEnum::Who => (Some(Consonant::W), Some(Vowel::O)),
            MoraEnum::Va => (Some(Consonant::V), Some(Vowel::A)),
            MoraEnum::Vi => (Some(Consonant::V), Some(Vowel::I)),
            MoraEnum::Ve => (Some(Consonant::V), Some(Vowel::E)),
            MoraEnum::Vo => (Some(Consonant::V), Some(Vowel::O)),
            MoraEnum::Vyu => (Some(Consonant::By), Some(Vowel::U)),
            MoraEnum::Tsa => (Some(Consonant::Ts), Some(Vowel::A)),
            MoraEnum::Tsi => (Some(Consonant::Ts), Some(Vowel::I)),
            MoraEnum::Tse => (Some(Consonant::Ts), Some(Vowel::E)),
            MoraEnum::Tso => (Some(Consonant::Ts), Some(Vowel::O)),
            MoraEnum::Si => (Some(Consonant::S), Some(Vowel::I)),
            MoraEnum::Zi => (Some(Consonant::Z), Some(Vowel::I)),
            MoraEnum::Ye => (Some(Consonant::Y), Some(Vowel::E)),
            MoraEnum::Question => (None, None),
            MoraEnum::Touten => (None, None),
        }
    }

    /// The voiced (濁音) counterpart of the mora; morae without one are kept.
    pub open spec fn spec_voiced(self) -> MoraEnum {
        match self {
            MoraEnum::Ka => MoraEnum::Ga,
            MoraEnum::Ki => MoraEnum::Gi,
            MoraEnum::Ku => MoraEnum::Gu,
            MoraEnum::Ke => MoraEnum::Ge,
            MoraEnum::Ko => MoraEnum::Go,
            MoraEnum::Sa => MoraEnum::Za,
            MoraEnum::Shi => MoraEnum::Ji,
            MoraEnum::Su => MoraEnum::Zu,
            MoraEnum::Se => MoraEnum::Ze,
            MoraEnum::So => MoraEnum::Zo,
            MoraEnum::Ta => MoraEnum::Da,
            MoraEnum::Chi => MoraEnum::Di,
            MoraEnum::Tsu => MoraEnum::Du,
            MoraEnum::Te => MoraEnum::De,
            MoraEnum::To => MoraEnum::Do,
            MoraEnum::Ha => MoraEnum::Ba,
            MoraEnum::Hi => MoraEnum::Bi,
            MoraEnum::Fu => MoraEnum::Bu,
            MoraEnum::He => MoraEnum::Be,
            MoraEnum::Ho => MoraEnum::Bo,
            other => other,
        }
    }

    /// The voiced (濁音) counterpart of the mora; morae without one are kept.
    pub fn to_voiced(self) -> (r: MoraEnum)
        ensures
            r == self.spec_voiced(),
    {
        match self {
            MoraEnum::Ka => MoraEnum::Ga,
            MoraEnum::Ki => MoraEnum::Gi,
            MoraEnum::Ku => MoraEnum::Gu,
            MoraEnum::Ke => MoraEnum::Ge,
            MoraEnum::Ko => MoraEnum::Go,
            MoraEnum::Sa => MoraEnum::Za,
            MoraEnum::Shi => MoraEnum::Ji,
            MoraEnum::Su => MoraEnum::Zu,
            MoraEnum::Se => MoraEnum::Ze,
            MoraEnum::So => MoraEnum::Zo,
            MoraEnum::Ta => MoraEnum::Da,
            MoraEnum::Chi => MoraEnum::Di,
            MoraEnum::Tsu => MoraEnum::Du,
            MoraEnum::Te => MoraEnum::De,
            MoraEnum::To => MoraEnum::Do,
            MoraEnum::Ha => MoraEnum::Ba,
            MoraEnum::Hi => MoraEnum::Bi,
            MoraEnum::Fu => MoraEnum::Bu,
            MoraEnum::He => MoraEnum::Be,
            MoraEnum::Ho => MoraEnum::Bo,
            other => other,
        }
    }

    /// The semi-voiced (半濁音) counterpart of the mora; morae without one are kept.
    pub open spec fn spec_semivoiced(self) -> MoraEnum {
        match self {
            MoraEnum::Ha => MoraEnum::Pa,
            MoraEnum::Hi => MoraEnum::Pi,
            MoraEnum::Fu => MoraEnum::Pu,
            MoraEnum::He => MoraEnum::Pe,
            MoraEnum::Ho => MoraEnum::Po,
            other => other,
        }
    }

    /// The semi-voiced (半濁音) counterpart of the mora; morae without one are kept.
    pub fn to_semivoiced(self) -> (r: MoraEnum)
        ensures
            r == self.spec_semivoiced(),
    {
        match self {
            MoraEnum::Ha => MoraEnum::Pa,
            MoraEnum::Hi => MoraEnum::Pi,
            MoraEnum::Fu => MoraEnum::Pu,
            MoraEnum::He => MoraEnum::Pe,
            MoraEnum::Ho => MoraEnum::Po,
            other => other,
        }
    }

}

impl Consonant {
    /// The phoneme symbol.
    pub open spec fn text(self) -> Seq<char> {
        match self {
            Consonant::K => "k"@,
            Consonant::Ky => "ky"@,
            Consonant::G => "g"@,
            Consonant::Gy => "gy"@,
            Consonant::S => "s"@,
            Consonant::Sh => "sh"@,
            Consonant::Z => "z"@,
            Consonant::J => "j"@,
            Consonant::T => "t"@,
            Consonant::Ty => "ty"@,
            Consonant::Ch => "ch"@,
            Consonant::Ts => "ts"@,
            Consonant::D => "d"@,
            Consonant::Dy => "dy"@,
            Consonant::N => "n"@,
            Consonant::Ny => "ny"@,
            Consonant::H => "h"@,
            Consonant::Hy => "hy"@,
            Consonant::F => "f"@,
            Consonant::B => "b"@,
            Consonant::By => "by"@,
            Consonant::P => "p"@,
            Consonant::Py => "py"@,
            Consonant::M => "m"@,
            Consonant::My => "my"@,
            Consonant::Y => "y"@,
            Consonant::R => "r"@,
            Consonant::Ry => "ry"@,
            Consonant::W => "w"@,
            Consonant::V => "v"@,
        }
    }

    /// The phoneme symbol.
    pub fn as_str(&self) -> (r: &'static str)
        ensures
            r@ == self.text(),
    {
        match self {
            Consonant::K => "k",
            Consonant::Ky => "ky",
            Consonant::G => "g",
            Consonant::Gy => "gy",
            Consonant::S => "s",
            Consonant::Sh => "sh",
            Consonant::Z => "z",
            Consonant::J => "j",
            Consonant::T => "t",
            Consonant::Ty => "ty",
            Consonant::Ch => "ch",
            Consonant::Ts => "ts",
            Consonant::D => "d",
            Consonant::Dy => "dy",
            Consonant::N => "n",
            Consonant::Ny => "ny",
            Consonant::H => "h",
            Consonant::Hy => "hy",
            Consonant::F => "f",
            Consonant::B => "b",
            Consonant::By => "by",
            Consonant::P => "p",
            Consonant::Py => "py",
            Consonant::M => "m",
            Consonant::My => "my",
            Consonant::Y => "y",
            Consonant::R => "r",
            Consonant::Ry => "ry",
            Consonant::W => "w",
            Consonant::V => "v",
        }
    }
}

impl Vowel {
    /// The phoneme symbol; an unvoiced vowel is written in capitals.
    pub open spec fn text(self, voiced: bool) -> Seq<char> {
        match self {
            Vowel::A => if voiced { "a"@ } else { "A"@ },
            Vowel::I => if voiced { "i"@ } else { "I"@ },
            Vowel::U => if voiced { "u"@ } else { "U"@ },
            Vowel::E => if voiced { "e"@ } else { "E"@ },
            Vowel::O => if voiced { "o"@ } else { "O"@ },
            Vowel::N => if voiced { "N"@ } else { "N"@ },
            Vowel::Cl => if voiced { "cl"@ } else { "cl"@ },
        }
    }

    /// The phoneme symbol; an unvoiced vowel is written in capitals.
    pub fn as_str(&self, voiced: bool) -> (r: &'static str)
        ensures
            r@ == self.text(voiced),
    {
        match self {
            Vowel::A => if voiced { "a" } else { "A" },
            Vowel::I => if voiced { "i" } else { "I" },
            Vowel::U => if voiced { "u" } else { "U" },
            Vowel::E => if voiced { "e" } else { "E" },
            Vowel::O => if voiced { "o" } else { "O" },
            Vowel::N => if voiced { "N" } else { "N" },
            Vowel::Cl => if voiced { "cl" } else { "cl" },
        }
    }
}

/// The mark that follows an unvoiced mora in written pronunciations.
pub open spec fn unvoiced_mark() -> char {
    '’'
}

/// A mora together with whether its vowel is voiced.
#[derive(Clone, Copy, PartialEq, Eq, Debug, Structural)]
pub struct Mora {
    pub mora_enum: MoraEnum,
    pub is_voiced: bool,
}

impl Mora {
    /// The written form: the katakana, then `’` when the vowel is unvoiced.
    pub open spec fn text(self) -> Seq<char> {
        if self.is_voiced {
            self.mora_enum.text()
        } else {
            self.mora_enum.text().push(unvoiced_mark())
        }
    }

    /// The written form of the mora.
    pub fn to_string(&self) -> (r: String)
        ensures
            r@ == self.text(),
    {
        let mut s = String::from_str(self.mora_enum.as_str());
        if !self.is_voiced {
            crate::text::push_char(&mut s, '’');
        }
        s
    }

    /// Replaces the mora by its voiced counterpart (カ→ガ, ハ→バ, ...).
    pub fn convert_to_voiced_sound(&mut self)
        ensures
            final(self).mora_enum == old(self).mora_enum.spec_voiced(),
            final(self).is_voiced == old(self).is_voiced,
    {
        self.mora_enum = self.mora_enum.to_voiced();
    }

    /// Replaces the mora by its semi-voiced counterpart (ハ→パ, ...).
    pub fn convert_to_semivoiced_sound(&mut self)
        ensures
            final(self).mora_enum == old(self).mora_enum.spec_semivoiced(),
            final(self).is_voiced == old(self).is_voiced,
    {
        self.mora_enum = self.mora_enum.to_semivoiced();
    }

    /// The consonant and vowel of the mora.
    pub fn phonemes(&self) -> (r: (Option<Consonant>, Option<Vowel>))
        ensures
            r == self.mora_enum.spec_phonemes(),
    {
        self.mora_enum.phonemes()
    }
}

} // verus!
