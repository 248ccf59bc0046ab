//! Parts of speech (品詞) of the IPADIC scheme, read from and written to
//! their dictionary names.

use vstd::prelude::*;

use crate::error::{parsed_as, JPreprocessError, JPreprocessErrorKind, JPreprocessResult};
use crate::text::{has_char, str_eq};

verus! {

/// 記号の細分類
#[derive(Clone, Copy, PartialEq, Eq, Debug, Structural)]
pub enum Kigou {
    /// *
    Unspecified,
    /// アルファベット
    Alphabet,
    /// 一般
    General,
    /// 括弧開
    KakkoOpen,
    /// 括弧閉
    KakkoClose,
    /// 句点
    Kuten,
    /// 空白
    Space,
    /// 数
    Kazu,
    /// 読点
    Touten,
}

/// The Kigou named by `s`, if any.
pub open spec fn kigou_of(s: Seq<char>) -> Option<Kigou> {
    if s == "*"@ {
        Some(Kigou::Unspecified)
    } else if s == "アルファベット"@ {
        Some(Kigou::Alphabet)
    } else if s == "一般"@ {
        Some(Kigou::General)
    } else if s == "括弧開"@ {
        Some(Kigou::KakkoOpen)
    } else if s == "括弧閉"@ {
        Some(Kigou::KakkoClose)
    } else if s == "句点"@ {
        Some(Kigou::Kuten)
    } else if s == "空白"@ {
        Some(Kigou::Space)
    } else if s == "数"@ {
        Some(Kigou::Kazu)
    } else if s == "読点"@ {
        Some(Kigou::Touten)
    } else {
        None
    }
}

impl Kigou {
    /// Reads the value from its dictionary name.
    pub fn from_str(s: &str) -> (r: Result<Kigou, JPreprocessError>)
        ensures
            parsed_as(r, kigou_of(s@), JPreprocessErrorKind::PartOfSpeechParseError),
    {
        if str_eq(s, "*") {
            Ok(Kigou::Unspecified)
        } else if str_eq(s, "アルファベット") {
            Ok(Kigou::Alphabet)
        } else if str_eq(s, "一般") {
            Ok(Kigou::General)
        } else if str_eq(s, "括弧開") {
            Ok(Kigou::KakkoOpen)
        } else if str_eq(s, "括弧閉") {
            Ok(Kigou::KakkoClose)
        } else if str_eq(s, "句点") {
            Ok(Kigou::Kuten)
        } else if str_eq(s, "空白") {
            Ok(Kigou::Space)
        } else if str_eq(s, "数") {
            Ok(Kigou::Kazu)
        } else if str_eq(s, "読点") {
            Ok(Kigou::Touten)
        } else {
            Err(JPreprocessErrorKind::PartOfSpeechParseError.with_error())
        }
    }

    /// The dictionary name of the value.
    pub open spec fn label(self) -> Seq<char> {
        match self {
            Kigou::Unspecified => "*"@,
            Kigou::Alphabet => "アルファベット"@,
            Kigou::General => "一般"@,
            Kigou::KakkoOpen => "括弧開"@,
            Kigou::KakkoClose => "括弧閉"@,
            Kigou::Kuten => "句点"@,
            Kigou::Space => "空白"@,
            Kigou::Kazu => "数"@,
            Kigou::Touten => "読点"@,
        }
    }

    /// The dictionary name of the value.
    pub fn name(&self) -> (r: &'static str)
        ensures
            r@ == self.label(),
    {
        match self {
            Kigou::Unspecified => "*",
            Kigou::Alphabet => "アルファベット",
            Kigou::General => "一般",
            Kigou::KakkoOpen => "括弧開",
            Kigou::KakkoClose => "括弧閉",
            Kigou::Kuten => "句点",
            Kigou::Space => "空白",
            Kigou::Kazu => "数",
            Kigou::Touten => "読点",
        }
    }
}

/// 形容詞の細分類
#[derive(Clone, Copy, PartialEq, Eq, Debug, Structural)]
pub enum Keiyoushi {
    /// 自立
    Jiritsu,
    /// 接尾
    Setsubi,
    /// 非自立
    Hijiritsu,
}

/// The Keiyoushi named by `s`, if any.
pub open spec fn keiyoushi_of(s: Seq<char>) -> Option<Keiyoushi> {
    if s == "自立"@ {
        Some(Keiyoushi::Jiritsu)
    } else if s == "接尾"@ {
        Some(Keiyoushi::Setsubi)
    } else if s == "非自立"@ {
        Some(Keiyoushi::Hijiritsu)
    } else {
        None
    }
}

impl Keiyoushi {
    /// Reads the value from its dictionary name.
    pub fn from_str(s: &str) -> (r: Result<Keiyoushi, JPreprocessError>)
        ensures
            parsed_as(r, keiyoushi_of(s@), JPreprocessErrorKind::PartOfSpeechParseError),
    {
        if str_eq(s, "自立") {
            Ok(Keiyoushi::Jiritsu)
        } else if str_eq(s, "接尾") {
            Ok(Keiyoushi::Setsubi)
        } else if str_eq(s, "非自立") {
            Ok(Keiyoushi::Hijiritsu)
        } else {
            Err(JPreprocessErrorKind::PartOfSpeechParseError.with_error())
        }
    }

    /// The dictionary name of the value.
    pub open spec fn label(self) -> Seq<char> {
        match self {
            Keiyoushi::Jiritsu => "自立"@,
            Keiyoushi::Setsubi => "接尾"@,
            Keiyoushi::Hijiritsu => "非自立"@,
        }
    }

    /// The dictionary name of the value.
    pub fn name(&self) -> (r: &'static str)
        ensures
            r@ == self.label(),
    {
        match self {
            Keiyoushi::Jiritsu => "自立",
            Keiyoushi::Setsubi => "接尾",
            Keiyoushi::Hijiritsu => "非自立",
        }
    }
}

/// 動詞の細分類
#[derive(Clone, Copy, PartialEq, Eq, Debug, Structural)]
pub enum Doushi {
    /// 自立
    Jiritsu,
    /// 接尾
    Setsubi,
    /// 非自立
    Hijiritsu,
}

/// The Doushi named by `s`, if any.
pub open spec fn doushi_of(s: Seq<char>) -> Option<Doushi> {
    if s == "自立"@ {
        Some(Doushi::Jiritsu)
    } else if s == "接尾"@ {
        Some(Doushi::Setsubi)
    } else if s == "非自立"@ {
        Some(Doushi::Hijiritsu)
    } else {
        None
    }
}

impl Doushi {
    /// Reads the value from its dictionary name.
    pub fn from_str(s: &str) -> (r: Result<Doushi, JPreprocessError>)
        ensures
            parsed_as(r, doushi_of(s@), JPreprocessErrorKind::PartOfSpeechParseError),
    {
        if str_eq(s, "自立") {
            Ok(Doushi::Jiritsu)
        } else if str_eq(s, "接尾") {
            Ok(Doushi::Setsubi)
        } else if str_eq(s, "非自立") {
            Ok(Doushi::Hijiritsu)
        } else {
            Err(JPreprocessErrorKind::PartOfSpeechParseError.with_error())
        }
    }

    /// The dictionary name of the value.
    pub open spec fn label(self) -> Seq<char> {
        match self {
            Doushi::Jiritsu => "自立"@,
            Doushi::Setsubi => "接尾"@,
            Doushi::Hijiritsu => "非自立"@,
        }
    }

    /// The dictionary name of the value.
    pub fn name(&self) -> (r: &'static str)
        ensures
            r@ == self.label(),
    {
        match self {
            Doushi::Jiritsu => "自立",
            Doushi::Setsubi => "接尾",
            Doushi::Hijiritsu => "非自立",
        }
    }
}

/// 副詞の細分類
#[derive(Clone, Copy, PartialEq, Eq, Debug, Structural)]
pub enum Fukushi {
    /// *
    Unspecified,
    /// 一般
    General,
    /// 助詞類接続
    JoshiruiSetsuzoku,
}

/// The Fukushi named by `s`, if any.
pub open spec fn fukushi_of(s: Seq<char>) -> Option<Fukushi> {
    if s == "*"@ {
        Some(Fukushi::Unspecified)
    } else if s == "一般"@ {
        Some(Fukushi::General)
    } else if s == "助詞類接続"@ {
        Some(Fukushi::JoshiruiSetsuzoku)
    } else {
        None
    }
}

impl Fukushi {
    /// Reads the value from its dictionary name.
    pub fn from_str(s: &str) -> (r: Result<Fukushi, JPreprocessError>)
        ensures
            parsed_as(r, fukushi_of(s@), JPreprocessErrorKind::PartOfSpeechParseError),
    {
        if str_eq(s, "*") {
            Ok(Fukushi::Unspecified)
        } else if str_eq(s, "一般") {
            Ok(Fukushi::General)
        } else if str_eq(s, "助詞類接続") {
            Ok(Fukushi::JoshiruiSetsuzoku)
        } else {
            Err(JPreprocessErrorKind::PartOfSpeechParseError.with_error())
        }
    }

    /// The dictionary name of the value.
    pub open spec fn label(self) -> Seq<char> {
        match self {
            Fukushi::Unspecified => "*"@,
            Fukushi::General => "一般"@,
            Fukushi::JoshiruiSetsuzoku => "助詞類接続"@,
        }
    }

    /// The dictionary name of the value.
    pub fn name(&self) -> (r: &'static str)
        ensures
            r@ == self.label(),
    {
        match self {
            Fukushi::Unspecified => "*",
            Fukushi::General => "一般",
            Fukushi::JoshiruiSetsuzoku => "助詞類接続",
        }
    }
}

/// 接頭詞の細分類
#[derive(Clone, Copy, PartialEq, Eq, Debug, Structural)]
pub enum Settoushi {
    /// 形容詞接続
    KeiyoushiSetsuzoku,
    /// 数接続
    SuuSetsuzoku,
    /// 動詞接続
    DoushiSetsuzoku,
    /// 名詞接続
    MeishiSetsuzoku,
}

/// The Settoushi named by `s`, if any.
pub open spec fn settoushi_of(s: Seq<char>) -> Option<Settoushi> {
    if s == "形容詞接続"@ {
        Some(Settoushi::KeiyoushiSetsuzoku)
    } else if s == "数接続"@ {
        Some(Settoushi::SuuSetsuzoku)
    } else if s == "動詞接続"@ {
        Some(Settoushi::DoushiSetsuzoku)
    } else if s == "名詞接続"@ {
        Some(Settoushi::MeishiSetsuzoku)
    } else {
        None
    }
}

impl Settoushi {
    /// Reads the value from its dictionary name.
    pub fn from_str(s: &str) -> (r: Result<Settoushi, JPreprocessError>)
        ensures
            parsed_as(r, settoushi_of(s@), JPreprocessErrorKind::PartOfSpeechParseError),
    {
        if str_eq(s, "形容詞接続") {
            Ok(Settoushi::KeiyoushiSetsuzoku)
        } else if str_eq(s, "数接続") {
            Ok(Settoushi::SuuSetsuzoku)
        } else if str_eq(s, "動詞接続") {
            Ok(Settoushi::DoushiSetsuzoku)
        } else if str_eq(s, "名詞接続") {
            Ok(Settoushi::MeishiSetsuzoku)
        } else {
            Err(JPreprocessErrorKind::PartOfSpeechParseError.with_error())
        }
    }

    /// The dictionary name of the value.
    pub open spec fn label(self) -> Seq<char> {
        match self {
            Settoushi::KeiyoushiSetsuzoku => "形容詞接続"@,
            Settoushi::SuuSetsuzoku => "数接続"@,
            Settoushi::DoushiSetsuzoku => "動詞接続"@,
            Settoushi::MeishiSetsuzoku => "名詞接続"@,
        }
    }

    /// The dictionary name of the value.
    pub fn name(&self) -> (r: &'static str)
        ensures
            r@ == self.label(),
    {
        match self {
            Settoushi::KeiyoushiSetsuzoku => "形容詞接続",
            Settoushi::SuuSetsuzoku => "数接続",
            Settoushi::DoushiSetsuzoku => "動詞接続",
            Settoushi::MeishiSetsuzoku => "名詞接続",
        }
    }
}

/// 人名の細分類
#[derive(Clone, Copy, PartialEq, Eq, Debug, Structural)]
pub enum Person {
    /// 一般
    General,
    /// 姓
    Sei,
    /// 名
    Mei,
}

/// The Person named by `s`, if any.
pub open spec fn person_of(s: Seq<char>) -> Option<Person> {
    if s == "一般"@ {
        Some(Person::General)
    } else if s == "姓"@ {
        Some(Person::Sei)
    } else if s == "名"@ {
        Some(Person::Mei)
    } else {
        None
    }
}

impl Person {
    /// Reads the value from its dictionary name.
    pub fn from_str(s: &str) -> (r: Result<Person, JPreprocessError>)
        ensures
            parsed_as(r, person_of(s@), JPreprocessErrorKind::PartOfSpeechParseError),
    {
        if str_eq(s, "一般") {
            Ok(Person::General)
        } else if str_eq(s, "姓") {
            Ok(Person::Sei)
        } else if str_eq(s, "名") {
            Ok(Person::Mei)
        } else {
            Err(JPreprocessErrorKind::PartOfSpeechParseError.with_error())
        }
    }

    /// The dictionary name of the value.
    pub open spec fn label(self) -> Seq<char> {
        match self {
            Person::General => "一般"@,
            Person::Sei => "姓"@,
            Person::Mei => "名"@,
        }
    }

    /// The dictionary name of the value.
    pub fn name(&self) -> (r: &'static str)
        ensures
            r@ == self.label(),
    {
        match self {
            Person::General => "一般",
            Person::Sei => "姓",
            Person::Mei => "名",
        }
    }
}

/// 地域の細分類
#[derive(Clone, Copy, PartialEq, Eq, Debug, Structural)]
pub enum Region {
    /// 一般
    General,
    /// 国
    Country,
}

/// The Region named by `s`, if any.
pub open spec fn region_of(s: Seq<char>) -> Option<Region> {
    if s == "一般"@ {
        Some(Region::General)
    } else if s == "国"@ {
        Some(Region::Country)
    } else {
        None
    }
}

impl Region {
    /// Reads the value from its dictionary name.
    pub fn from_str(s: &str) -> (r: Result<Region, JPreprocessError>)
        ensures
            parsed_as(r, region_of(s@), JPreprocessErrorKind::PartOfSpeechParseError),
    {
        if str_eq(s, "一般") {
            Ok(Region::General)
        } else if str_eq(s, "国") {
            Ok(Region::Country)
        } else {
            Err(JPreprocessErrorKind::PartOfSpeechParseError.with_error())
        }
    }

    /// The dictionary name of the value.
    pub open spec fn label(self) -> Seq<char> {
        match self {
            Region::General => "一般"@,
            Region::Country => "国"@,
        }
    }

    /// The dictionary name of the value.
    pub fn name(&self) -> (r: &'static str)
        ensures
            r@ == self.label(),
    {
        match self {
            Region::General => "一般",
            Region::Country => "国",
        }
    }
}

/// 名詞,接尾の細分類
#[derive(Clone, Copy, PartialEq, Eq, Debug, Structural)]
pub enum Setsubi {
    /// サ変接続
    SahenSetsuzoku,
    /// 一般
    General,
    /// 形容動詞語幹
    KeiyoudoushiGokan,
    /// 助数詞
    Josuushi,
    /// 助動詞語幹
    JodoushiGokan,
    /// 人名
    Person,
    /// 地域
    Region,
    /// 特殊
    Special,
    /// 副詞可能
    FukushiKanou,
}

/// The Setsubi named by `s`, if any.
pub open spec fn setsubi_of(s: Seq<char>) -> Option<Setsubi> {
    if s == "サ変接続"@ {
        Some(Setsubi::SahenSetsuzoku)
    } else if s == "一般"@ {
        Some(Setsubi::General)
    } else if s == "形容動詞語幹"@ {
        Some(Setsubi::KeiyoudoushiGokan)
    } else if s == "助数詞"@ {
        Some(Setsubi::Josuushi)
    } else if s == "助動詞語幹"@ {
        Some(Setsubi::JodoushiGokan)
    } else if s == "人名"@ {
        Some(Setsubi::Person)
    } else if s == "地域"@ {
        Some(Setsubi::Region)
    } else if s == "特殊"@ {
        Some(Setsubi::Special)
    } else if s == "副詞可能"@ {
        Some(Setsubi::FukushiKanou)
    } else {
        None
    }
}

impl Setsubi {
    /// Reads the value from its dictionary name.
    pub fn from_str(s: &str) -> (r: Result<Setsubi, JPreprocessError>)
        ensures
            parsed_as(r, setsubi_of(s@), JPreprocessErrorKind::PartOfSpeechParseError),
    {
        if str_eq(s, "サ変接続") {
            Ok(Setsubi::SahenSetsuzoku)
        } else if str_eq(s, "一般") {
            Ok(Setsubi::General)
        } else if str_eq(s, "形容動詞語幹") {
            Ok(Setsubi::KeiyoudoushiGokan)
        } else if str_eq(s, "助数詞") {
            Ok(Setsubi::Josuushi)
        } else if str_eq(s, "助動詞語幹") {
            Ok(Setsubi::JodoushiGokan)
        } else if str_eq(s, "人名") {
            Ok(Setsubi::Person)
        } else if str_eq(s, "地域") {
            Ok(Setsubi::Region)
        } else if str_eq(s, "特殊") {
            Ok(Setsubi::Special)
        } else if str_eq(s, "副詞可能") {
            Ok(Setsubi::FukushiKanou)
        } else {
            Err(JPreprocessErrorKind::PartOfSpeechParseError.with_error())
        }
    }

    /// The dictionary name of the value.
    pub open spec fn label(self) -> Seq<char> {
        match self {
            Setsubi::SahenSetsuzoku => "サ変接続"@,
            Setsubi::General => "一般"@,
            Setsubi::KeiyoudoushiGokan => "形容動詞語幹"@,
            Setsubi::Josuushi => "助数詞"@,
            Setsubi::JodoushiGokan => "助動詞語幹"@,
            Setsubi::Person => "人名"@,
            Setsubi::Region => "地域"@,
            Setsubi::Special => "特殊"@,
            Setsubi::FukushiKanou => "副詞可能"@,
        }
    }

    /// The dictionary name of the value.
    pub fn name(&self) -> (r: &'static str)
        ensures
            r@ == self.label(),
    {
        match self {
            Setsubi::SahenSetsuzoku => "サ変接続",
            Setsubi::General => "一般",
            Setsubi::KeiyoudoushiGokan => "形容動詞語幹",
            Setsubi::Josuushi => "助数詞",
            Setsubi::JodoushiGokan => "助動詞語幹",
            Setsubi::Person => "人名",
            Setsubi::Region => "地域",
            Setsubi::Special => "特殊",
            Setsubi::FukushiKanou => "副詞可能",
        }
    }
}

/// 代名詞の細分類
#[derive(Clone, Copy, PartialEq, Eq, Debug, Structural)]
pub enum Daimeishi {
    /// 一般
    General,
    /// 縮約
    Contraction,
}

/// The Daimeishi named by `s`, if any.
pub open spec fn daimeishi_of(s: Seq<char>) -> Option<Daimeishi> {
    if s == "一般"@ {
        Some(Daimeishi::General)
    } else if s == "縮約"@ {
        Some(Daimeishi::Contraction)
    } else {
        None
    }
}

impl Daimeishi {
    /// Reads the value from its dictionary name.
    pub fn from_str(s: &str) -> (r: Result<Daimeishi, JPreprocessError>)
        ensures
            parsed_as(r, daimeishi_of(s@), JPreprocessErrorKind::PartOfSpeechParseError),
    {
        if str_eq(s, "一般") {
            Ok(Daimeishi::General)
        } else if str_eq(s, "縮約") {
            Ok(Daimeishi::Contraction)
        } else {
            Err(JPreprocessErrorKind::PartOfSpeechParseError.with_error())
        }
    }

    /// The dictionary name of the value.
    pub open spec fn label(self) -> Seq<char> {
        match self {
            Daimeishi::General => "一般"@,
            Daimeishi::Contraction => "縮約"@,
        }
    }

    /// The dictionary name of the value.
    pub fn name(&self) -> (r: &'static str)
        ensures
            r@ == self.label(),
    {
        match self {
            Daimeishi::General => "一般",
            Daimeishi::Contraction => "縮約",
        }
    }
}

/// 名詞,非自立の細分類
#[derive(Clone, Copy, PartialEq, Eq, Debug, Structural)]
pub enum MeishiHijiritsu {
    /// 一般
    General,
    /// 形容動詞語幹
    KeiyoudoushiGokan,
    /// 助動詞語幹
    JodoushiGokan,
    /// 副詞可能
    FukushiKanou,
    /// *
    Unspecified,
}

/// The MeishiHijiritsu named by `s`, if any.
pub open spec fn meishi_hijiritsu_of(s: Seq<char>) -> Option<MeishiHijiritsu> {
    if s == "一般"@ {
        Some(MeishiHijiritsu::General)
    } else if s == "形容動詞語幹"@ {
        Some(MeishiHijiritsu::KeiyoudoushiGokan)
    } else if s == "助動詞語幹"@ {
        Some(MeishiHijiritsu::JodoushiGokan)
    } else if s == "副詞可能"@ {
        Some(MeishiHijiritsu::FukushiKanou)
    } else if s == "*"@ {
        Some(MeishiHijiritsu::Unspecified)
    } else {
        None
    }
}

impl MeishiHijiritsu {
    /// Reads the value from its dictionary name.
    pub fn from_str(s: &str) -> (r: Result<MeishiHijiritsu, JPreprocessError>)
        ensures
            parsed_as(r, meishi_hijiritsu_of(s@), JPreprocessErrorKind::PartOfSpeechParseError),
    {
        if str_eq(s, "一般") {
            Ok(MeishiHijiritsu::General)
        } else if str_eq(s, "形容動詞語幹") {
            Ok(MeishiHijiritsu::KeiyoudoushiGokan)
        } else if str_eq(s, "助動詞語幹") {
            Ok(MeishiHijiritsu::JodoushiGokan)
        } else if str_eq(s, "副詞可能") {
            Ok(MeishiHijiritsu::FukushiKanou)
        } else if str_eq(s, "*") {
            Ok(MeishiHijiritsu::Unspecified)
        } else {
            Err(JPreprocessErrorKind::PartOfSpeechParseError.with_error())
        }
    }

    /// The dictionary name of the value.
    pub open spec fn label(self) -> Seq<char> {
        match self {
            MeishiHijiritsu::General => "一般"@,
            MeishiHijiritsu::KeiyoudoushiGokan => "形容動詞語幹"@,
            MeishiHijiritsu::JodoushiGokan => "助動詞語幹"@,
            MeishiHijiritsu::FukushiKanou => "副詞可能"@,
            MeishiHijiritsu::Unspecified => "*"@,
        }
    }

    /// The dictionary name of the value.
    pub fn name(&self) -> (r: &'static str)
        ensures
            r@ == self.label(),
    {
        match self {
            MeishiHijiritsu::General => "一般",
            MeishiHijiritsu::KeiyoudoushiGokan => "形容動詞語幹",
            MeishiHijiritsu::JodoushiGokan => "助動詞語幹",
            MeishiHijiritsu::FukushiKanou => "副詞可能",
            MeishiHijiritsu::Unspecified => "*",
        }
    }
}

/// 格助詞の細分類
#[derive(Clone, Copy, PartialEq, Eq, Debug, Structural)]
pub enum KakuJoshi {
    /// 一般
    General,
    /// 引用
    Quote,
    /// 連語
    Rengo,
}

/// The KakuJoshi named by `s`, if any.
pub open spec fn kaku_joshi_of(s: Seq<char>) -> Option<KakuJoshi> {
    if s == "一般"@ {
        Some(KakuJoshi::General)
    } else if s == "引用"@ {
        Some(KakuJoshi::Quote)
    } else if s == "連語"@ {
        Some(KakuJoshi::Rengo)
    } else {
        None
    }
}

impl KakuJoshi {
    /// Reads the value from its dictionary name.
    pub fn from_str(s: &str) -> (r: Result<KakuJoshi, JPreprocessError>)
        ensures
            parsed_as(r, kaku_joshi_of(s@), JPreprocessErrorKind::PartOfSpeechParseError),
    {
        if str_eq(s, "一般") {
            Ok(KakuJoshi::General)
        } else if str_eq(s, "引用") {
            Ok(KakuJoshi::Quote)
        } else if str_eq(s, "連語") {
            Ok(KakuJoshi::Rengo)
        } else {
            Err(JPreprocessErrorKind::PartOfSpeechParseError.with_error())
        }
    }

    /// The dictionary name of the value.
    pub open spec fn label(self) -> Seq<char> {
        match self {
            KakuJoshi::General => "一般"@,
            KakuJoshi::Quote => "引用"@,
            KakuJoshi::Rengo => "連語"@,
        }
    }

    /// The dictionary name of the value.
    pub fn name(&self) -> (r: &'static str)
        ensures
            r@ == self.label(),
    {
        match self {
            KakuJoshi::General => "一般",
            KakuJoshi::Quote => "引用",
            KakuJoshi::Rengo => "連語",
        }
    }
}

/// 名詞の細分類
#[derive(Clone, Copy, PartialEq, Eq, Debug, Structural)]
pub enum Meishi {
    /// サ変接続
    SahenSetsuzoku,
    /// ナイ形容詞語幹
    NaiKeiyoushiGokan,
    /// 一般
    General,
    /// 引用文字列
    QuoteStr,
    /// 形容動詞語幹
    KeiyoudoushiGokan,
    /// 固有名詞
    KoyuMeishi(KoyuMeishi),
    /// 数
    Kazu,
    /// 接続詞的
    Setsuzokushiteki,
    /// 接尾
    Setsubi(Setsubi),
    /// 代名詞
    Daimeishi(Daimeishi),
    /// 動詞非自立的
    DoushiHijiritsuteki,
    /// 特殊
    Special,
    /// 非自立
    Hijiritsu(MeishiHijiritsu),
    /// 副詞可能
    FukushiKanou,
    /// *
    Unspecified,
}

/// 固有名詞の細分類
#[derive(Clone, Copy, PartialEq, Eq, Debug, Structural)]
pub enum KoyuMeishi {
    /// 一般
    General,
    /// 人名
    Person(Person),
    /// 組織
    Organization,
    /// 地域
    Region(Region),
}

/// The 固有名詞 subclass named by its second and third group.
pub open spec fn koyu_meishi_of(g2: Seq<char>, g3: Seq<char>) -> Option<KoyuMeishi> {
    if g2 == "一般"@ {
        Some(KoyuMeishi::General)
    } else if g2 == "人名"@ {
        match person_of(g3) {
            Some(p) => Some(KoyuMeishi::Person(p)),
            None => None,
        }
    } else if g2 == "組織"@ {
        Some(KoyuMeishi::Organization)
    } else if g2 == "地域"@ {
        match region_of(g3) {
            Some(r) => Some(KoyuMeishi::Region(r)),
            None => None,
        }
    } else {
        None
    }
}

impl KoyuMeishi {
    /// Reads the subclass from its second and third group names.
    pub fn from_strs(g2: &str, g3: &str) -> (r: JPreprocessResult<KoyuMeishi>)
        ensures
            parsed_as(r, koyu_meishi_of(g2@, g3@), JPreprocessErrorKind::PartOfSpeechParseError),
    {
        if str_eq(g2, "一般") {
            Ok(KoyuMeishi::General)
        } else if str_eq(g2, "人名") {
            match Person::from_str(g3) {
                Ok(p) => Ok(KoyuMeishi::Person(p)),
                Err(e) => Err(e),
            }
        } else if str_eq(g2, "組織") {
            Ok(KoyuMeishi::Organization)
        } else if str_eq(g2, "地域") {
            match Region::from_str(g3) {
                Ok(p) => Ok(KoyuMeishi::Region(p)),
                Err(e) => Err(e),
            }
        } else {
            Err(JPreprocessErrorKind::PartOfSpeechParseError.with_error())
        }
    }

    /// The second and third group names.
    pub open spec fn labels(self) -> (Seq<char>, Seq<char>) {
        match self {
            KoyuMeishi::General => ("一般"@, "*"@),
            KoyuMeishi::Person(p) => ("人名"@, p.label()),
            KoyuMeishi::Organization => ("組織"@, "*"@),
            KoyuMeishi::Region(r) => ("地域"@, r.label()),
        }
    }

    /// The second and third group names.
    pub fn names(&self) -> (r: (&'static str, &'static str))
        ensures
            r.0@ == self.labels().0,
            r.1@ == self.labels().1,
    {
        match self {
            KoyuMeishi::General => ("一般", "*"),
            KoyuMeishi::Person(p) => ("人名", p.name()),
            KoyuMeishi::Organization => ("組織", "*"),
            KoyuMeishi::Region(r) => ("地域", r.name()),
        }
    }
}

/// The 名詞 subclass named by its first to third group.
pub open spec fn meishi_of(g1: Seq<char>, g2: Seq<char>, g3: Seq<char>) -> Option<Meishi> {
    if g1 == "サ変接続"@ {
        Some(Meishi::SahenSetsuzoku)
    } else if g1 == "ナイ形容詞語幹"@ {
        Some(Meishi::NaiKeiyoushiGokan)
    } else if g1 == "一般"@ {
        Some(Meishi::General)
    } else if g1 == "引用文字列"@ {
        Some(Meishi::QuoteStr)
    } else if g1 == "形容動詞語幹"@ {
        Some(Meishi::KeiyoudoushiGokan)
    } else if g1 == "固有名詞"@ {
        match koyu_meishi_of(g2, g3) {
            Some(k) => Some(Meishi::KoyuMeishi(k)),
            None => None,
        }
    } else if g1 == "数"@ {
        Some(Meishi::Kazu)
    } else if g1 == "接続詞的"@ {
        Some(Meishi::Setsuzokushiteki)
    } else if g1 == "接尾"@ {
        match setsubi_of(g2) {
            Some(k) => Some(Meishi::Setsubi(k)),
            None => None,
        }
    } else if g1 == "代名詞"@ {
        match daimeishi_of(g2) {
            Some(k) => Some(Meishi::Daimeishi(k)),
            None => None,
        }
    } else if g1 == "動詞非自立的"@ {
        Some(Meishi::DoushiHijiritsuteki)
    } else if g1 == "特殊"@ {
        Some(Meishi::Special)
    } else if g1 == "非自立"@ {
        match meishi_hijiritsu_of(g2) {
            Some(k) => Some(Meishi::Hijiritsu(k)),
            None => None,
        }
    } else if g1 == "副詞可能"@ {
        Some(Meishi::FukushiKanou)
    } else if g1 == "*"@ {
        Some(Meishi::Unspecified)
    } else {
        None
    }
}

impl Meishi {
    /// Reads the subclass from the first to third group names.
    pub fn from_strs(g1: &str, g2: &str, g3: &str) -> (r: JPreprocessResult<Meishi>)
        ensures
            parsed_as(r, meishi_of(g1@, g2@, g3@), JPreprocessErrorKind::PartOfSpeechParseError),
    {
        if str_eq(g1, "サ変接続") {
            Ok(Meishi::SahenSetsuzoku)
        } else if str_eq(g1, "ナイ形容詞語幹") {
            Ok(Meishi::NaiKeiyoushiGokan)
        } else if str_eq(g1, "一般") {
            Ok(Meishi::General)
        } else if str_eq(g1, "引用文字列") {
            Ok(Meishi::QuoteStr)
        } else if str_eq(g1, "形容動詞語幹") {
            Ok(Meishi::KeiyoudoushiGokan)
        } else if str_eq(g1, "固有名詞") {
            match KoyuMeishi::from_strs(g2, g3) {
                Ok(k) => Ok(Meishi::KoyuMeishi(k)),
                Err(e) => Err(e),
            }
        } else if str_eq(g1, "数") {
            Ok(Meishi::Kazu)
        } else if str_eq(g1, "接続詞的") {
            Ok(Meishi::Setsuzokushiteki)
        } else if str_eq(g1, "接尾") {
            match Setsubi::from_str(g2) {
                Ok(k) => Ok(Meishi::Setsubi(k)),
                Err(e) => Err(e),
            }
        } else if str_eq(g1, "代名詞") {
            match Daimeishi::from_str(g2) {
                Ok(k) => Ok(Meishi::Daimeishi(k)),
                Err(e) => Err(e),
            }
        } else if str_eq(g1, "動詞非自立的") {
            Ok(Meishi::DoushiHijiritsuteki)
        } else if str_eq(g1, "特殊") {
            Ok(Meishi::Special)
        } else if str_eq(g1, "非自立") {
            match MeishiHijiritsu::from_str(g2) {
                Ok(k) => Ok(Meishi::Hijiritsu(k)),
                Err(e) => Err(e),
            }
        } else if str_eq(g1, "副詞可能") {
            Ok(Meishi::FukushiKanou)
        } else if str_eq(g1, "*") {
            Ok(Meishi::Unspecified)
        } else {
            Err(JPreprocessErrorKind::PartOfSpeechParseError.with_error())
        }
    }

    /// The first to third group names.
    pub open spec fn labels(self) -> (Seq<char>, Seq<char>, Seq<char>) {
        match self {
            Meishi::SahenSetsuzoku => ("サ変接続"@, "*"@, "*"@),
            Meishi::NaiKeiyoushiGokan => ("ナイ形容詞語幹"@, "*"@, "*"@),
            Meishi::General => ("一般"@, "*"@, "*"@),
            Meishi::QuoteStr => ("引用文字列"@, "*"@, "*"@),
            Meishi::KeiyoudoushiGokan => ("形容動詞語幹"@, "*"@, "*"@),
            Meishi::KoyuMeishi(k) => ("固有名詞"@, k.labels().0, k.labels().1),
            Meishi::Kazu => ("数"@, "*"@, "*"@),
            Meishi::Setsuzokushiteki => ("接続詞的"@, "*"@, "*"@),
            Meishi::Setsubi(k) => ("接尾"@, k.label(), "*"@),
            Meishi::Daimeishi(k) => ("代名詞"@, k.label(), "*"@),
            Meishi::DoushiHijiritsuteki => ("動詞非自立的"@, "*"@, "*"@),
            Meishi::Special => ("特殊"@, "*"@, "*"@),
            Meishi::Hijiritsu(k) => ("非自立"@, k.label(), "*"@),
            Meishi::FukushiKanou => ("副詞可能"@, "*"@, "*"@),
            Meishi::Unspecified => ("*"@, "*"@, "*"@),
        }
    }

    /// The first to third group names.
    pub fn names(&self) -> (r: (&'static str, &'static str, &'static str))
        ensures
            r.0@ == self.labels().0,
            r.1@ == self.labels().1,
            r.2@ == self.labels().2,
    {
        match self {
            Meishi::SahenSetsuzoku => ("サ変接続", "*", "*"),
            Meishi::NaiKeiyoushiGokan => ("ナイ形容詞語幹", "*", "*"),
            Meishi::General => ("一般", "*", "*"),
            Meishi::QuoteStr => ("引用文字列", "*", "*"),
            Meishi::KeiyoudoushiGokan => ("形容動詞語幹", "*", "*"),
            Meishi::KoyuMeishi(k) => {
                let (a, b) = k.names();
                ("固有名詞", a, b)
            },
            Meishi::Kazu => ("数", "*", "*"),
            Meishi::Setsuzokushiteki => ("接続詞的", "*", "*"),
            Meishi::Setsubi(k) => ("接尾", k.name(), "*"),
            Meishi::Daimeishi(k) => ("代名詞", k.name(), "*"),
            Meishi::DoushiHijiritsuteki => ("動詞非自立的", "*", "*"),
            Meishi::Special => ("特殊", "*", "*"),
            Meishi::Hijiritsu(k) => ("非自立", k.name(), "*"),
            Meishi::FukushiKanou => ("副詞可能", "*", "*"),
            Meishi::Unspecified => ("*", "*", "*"),
        }
    }
}

/// 助詞の細分類
#[derive(Clone, Copy, PartialEq, Eq, Debug, Structural)]
pub enum Joshi {
    /// 格助詞
    KakuJoshi(KakuJoshi),
    /// 係助詞
    Kakarijoshi,
    /// 終助詞
    Shuujoshi,
    /// 接続助詞
    SetsuzokuJoshi,
    /// 特殊
    Tokushu,
    /// 副詞化
    Fukushika,
    /// 副助詞／並立助詞／終助詞
    FukuHeiritsuShuujoshi,
    /// 副助詞
    Fukujoshi,
    /// 並立助詞
    Heiritsujoshi,
    /// 連体化
    Rentaika,
}

/// The 助詞 subclass named by its first and second group.
pub open spec fn joshi_of(g1: Seq<char>, g2: Seq<char>) -> Option<Joshi> {
    if g1 == "格助詞"@ {
        match kaku_joshi_of(g2) {
            Some(k) => Some(Joshi::KakuJoshi(k)),
            None => None,
        }
    } else if g1 == "係助詞"@ {
        Some(Joshi::Kakarijoshi)
    } else if g1 == "終助詞"@ {
        Some(Joshi::Shuujoshi)
    } else if g1 == "接続助詞"@ {
        Some(Joshi::SetsuzokuJoshi)
    } else if g1 == "特殊"@ {
        Some(Joshi::Tokushu)
    } else if g1 == "副詞化"@ {
        Some(Joshi::Fukushika)
    } else if g1 == "副助詞／並立助詞／終助詞"@ {
        Some(Joshi::FukuHeiritsuShuujoshi)
    } else if g1 == "副助詞"@ {
        Some(Joshi::Fukujoshi)
    } else if g1 == "並立助詞"@ {
        Some(Joshi::Heiritsujoshi)
    } else if g1 == "連体化"@ {
        Some(Joshi::Rentaika)
    } else {
        None
    }
}

impl Joshi {
    /// Reads the subclass from the first and second group names.
    pub fn from_strs(g1: &str, g2: &str) -> (r: JPreprocessResult<Joshi>)
        ensures
            parsed_as(r, joshi_of(g1@, g2@), JPreprocessErrorKind::PartOfSpeechParseError),
    {
        if str_eq(g1, "格助詞") {
            match KakuJoshi::from_str(g2) {
                Ok(k) => Ok(Joshi::KakuJoshi(k)),
                Err(e) => Err(e),
            }
        } else if str_eq(g1, "係助詞") {
            Ok(Joshi::Kakarijoshi)
        } else if str_eq(g1, "終助詞") {
            Ok(Joshi::Shuujoshi)
        } else if str_eq(g1, "接続助詞") {
            Ok(Joshi::SetsuzokuJoshi)
        } else if str_eq(g1, "特殊") {
            Ok(Joshi::Tokushu)
        } else if str_eq(g1, "副詞化") {
            Ok(Joshi::Fukushika)
        } else if str_eq(g1, "副助詞／並立助詞／終助詞") {
            Ok(Joshi::FukuHeiritsuShuujoshi)
        } else if str_eq(g1, "副助詞") {
            Ok(Joshi::Fukujoshi)
        } else if str_eq(g1, "並立助詞") {
            Ok(Joshi::Heiritsujoshi)
        } else if str_eq(g1, "連体化") {
            Ok(Joshi::Rentaika)
        } else {
            Err(JPreprocessErrorKind::PartOfSpeechParseError.with_error())
        }
    }

    /// The first and second group names.
    pub open spec fn labels(self) -> (Seq<char>, Seq<char>) {
        match self {
            Joshi::KakuJoshi(k) => ("格助詞"@, k.label()),
            Joshi::Kakarijoshi => ("係助詞"@, "*"@),
            Joshi::Shuujoshi => ("終助詞"@, "*"@),
            Joshi::SetsuzokuJoshi => ("接続助詞"@, "*"@),
            Joshi::Tokushu => ("特殊"@, "*"@),
            Joshi::Fukushika => ("副詞化"@, "*"@),
            Joshi::FukuHeiritsuShuujoshi => ("副助詞／並立助詞／終助詞"@, "*"@),
            Joshi::Fukujoshi => ("副助詞"@, "*"@),
            Joshi::Heiritsujoshi => ("並立助詞"@, "*"@),
            Joshi::Rentaika => ("連体化"@, "*"@),
        }
    }

    /// The first and second group names.
    pub fn names(&self) -> (r: (&'static str, &'static str))
        ensures
            r.0@ == self.labels().0,
            r.1@ == self.labels().1,
    {
        match self {
            Joshi::KakuJoshi(k) => ("格助詞", k.name()),
            Joshi::Kakarijoshi => ("係助詞", "*"),
            Joshi::Shuujoshi => ("終助詞", "*"),
            Joshi::SetsuzokuJoshi => ("接続助詞", "*"),
            Joshi::Tokushu => ("特殊", "*"),
            Joshi::Fukushika => ("副詞化", "*"),
            Joshi::FukuHeiritsuShuujoshi => ("副助詞／並立助詞／終助詞", "*"),
            Joshi::Fukujoshi => ("副助詞", "*"),
            Joshi::Heiritsujoshi => ("並立助詞", "*"),
            Joshi::Rentaika => ("連体化", "*"),
        }
    }
}

/// 品詞
#[derive(Clone, Copy, PartialEq, Eq, Debug, Structural)]
pub enum POS {
    /// フィラー
    Filler,
    /// 感動詞
    Kandoushi,
    /// 記号
    Kigou(Kigou),
    /// 形容詞
    Keiyoushi(Keiyoushi),
    /// 助詞
    Joshi(Joshi),
    /// 助動詞
    Jodoushi,
    /// 接続詞
    Setsuzokushi,
    /// 接頭詞
    Settoushi(Settoushi),
    /// 動詞
    Doushi(Doushi),
    /// 副詞
    Fukushi(Fukushi),
    /// 名詞
    Meishi(Meishi),
    /// 連体詞
    Rentaishi,
    /// その他
    Others,
}

/// The part of speech named by its four groups.
pub open spec fn pos_of(g0: Seq<char>, g1: Seq<char>, g2: Seq<char>, g3: Seq<char>) -> Option<POS> {
    if g0 == "フィラー"@ {
        Some(POS::Filler)
    } else if g0 == "感動詞"@ {
        Some(POS::Kandoushi)
    } else if g0 == "記号"@ {
        match kigou_of(g1) {
            Some(k) => Some(POS::Kigou(k)),
            None => None,
        }
    } else if g0 == "形容詞"@ {
        match keiyoushi_of(g1) {
            Some(k) => Some(POS::Keiyoushi(k)),
            None => None,
        }
    } else if g0 == "助詞"@ {
        match joshi_of(g1, g2) {
            Some(k) => Some(POS::Joshi(k)),
            None => None,
        }
    } else if g0 == "助動詞"@ {
        Some(POS::Jodoushi)
    } else if g0 == "接続詞"@ {
        Some(POS::Setsuzokushi)
    } else if g0 == "接頭詞"@ {
        match settoushi_of(g1) {
            Some(k) => Some(POS::Settoushi(k)),
            None => None,
        }
    } else if g0 == "動詞"@ {
        match doushi_of(g1) {
            Some(k) => Some(POS::Doushi(k)),
            None => None,
        }
    } else if g0 == "副詞"@ {
        match fukushi_of(g1) {
            Some(k) => Some(POS::Fukushi(k)),
            None => None,
        }
    } else if g0 == "名詞"@ {
        match meishi_of(g1, g2, g3) {
            Some(k) => Some(POS::Meishi(k)),
            None => None,
        }
    } else if g0 == "連体詞"@ {
        Some(POS::Rentaishi)
    } else if g0 == "その他"@ {
        Some(POS::Others)
    } else {
        None
    }
}

impl POS {
    /// Reads a part of speech from its four group names.
    pub fn from_strs(g0: &str, g1: &str, g2: &str, g3: &str) -> (r: JPreprocessResult<POS>)
        ensures
            parsed_as(r, pos_of(g0@, g1@, g2@, g3@), JPreprocessErrorKind::PartOfSpeechParseError),
    {
        if str_eq(g0, "フィラー") {
            Ok(POS::Filler)
        } else if str_eq(g0, "感動詞") {
            Ok(POS::Kandoushi)
        } else if str_eq(g0, "記号") {
            match Kigou::from_str(g1) {
                Ok(k) => Ok(POS::Kigou(k)),
                Err(e) => Err(e),
            }
        } else if str_eq(g0, "形容詞") {
            match Keiyoushi::from_str(g1) {
                Ok(k) => Ok(POS::Keiyoushi(k)),
                Err(e) => Err(e),
            }
        } else if str_eq(g0, "助詞") {
            match Joshi::from_strs(g1, g2) {
                Ok(k) => Ok(POS::Joshi(k)),
                Err(e) => Err(e),
            }
        } else if str_eq(g0, "助動詞") {
            Ok(POS::Jodoushi)
        } else if str_eq(g0, "接続詞") {
            Ok(POS::Setsuzokushi)
        } else if str_eq(g0, "接頭詞") {
            match Settoushi::from_str(g1) {
                Ok(k) => Ok(POS::Settoushi(k)),
                Err(e) => Err(e),
            }
        } else if str_eq(g0, "動詞") {
            match Doushi::from_str(g1) {
                Ok(k) => Ok(POS::Doushi(k)),
                Err(e) => Err(e),
            }
        } else if str_eq(g0, "副詞") {
            match Fukushi::from_str(g1) {
                Ok(k) => Ok(POS::Fukushi(k)),
                Err(e) => Err(e),
            }
        } else if str_eq(g0, "名詞") {
            match Meishi::from_strs(g1, g2, g3) {
                Ok(k) => Ok(POS::Meishi(k)),
                Err(e) => Err(e),
            }
        } else if str_eq(g0, "連体詞") {
            Ok(POS::Rentaishi)
        } else if str_eq(g0, "その他") {
            Ok(POS::Others)
        } else {
            Err(JPreprocessErrorKind::PartOfSpeechParseError.with_error())
        }
    }

    /// The four group names.
    pub open spec fn labels(self) -> (Seq<char>, Seq<char>, Seq<char>, Seq<char>) {
        match self {
            POS::Filler => ("フィラー"@, "*"@, "*"@, "*"@),
            POS::Kandoushi => ("感動詞"@, "*"@, "*"@, "*"@),
            POS::Kigou(k) => ("記号"@, k.label(), "*"@, "*"@),
            POS::Keiyoushi(k) => ("形容詞"@, k.label(), "*"@, "*"@),
            POS::Joshi(k) => ("助詞"@, k.labels().0, k.labels().1, "*"@),
            POS::Jodoushi => ("助動詞"@, "*"@, "*"@, "*"@),
            POS::Setsuzokushi => ("接続詞"@, "*"@, "*"@, "*"@),
            POS::Settoushi(k) => ("接頭詞"@, k.label(), "*"@, "*"@),
            POS::Doushi(k) => ("動詞"@, k.label(), "*"@, "*"@),
            POS::Fukushi(k) => ("副詞"@, k.label(), "*"@, "*"@),
            POS::Meishi(k) => ("名詞"@, k.labels().0, k.labels().1, k.labels().2),
            POS::Rentaishi => ("連体詞"@, "*"@, "*"@, "*"@),
            POS::Others => ("その他"@, "*"@, "*"@, "*"@),
        }
    }

    /// The four group names.
    pub fn names(&self) -> (r: (&'static str, &'static str, &'static str, &'static str))
        ensures
            r.0@ == self.labels().0,
            r.1@ == self.labels().1,
            r.2@ == self.labels().2,
            r.3@ == self.labels().3,
    {
        match self {
            POS::Filler => ("フィラー", "*", "*", "*"),
            POS::Kandoushi => ("感動詞", "*", "*", "*"),
            POS::Kigou(k) => ("記号", k.name(), "*", "*"),
            POS::Keiyoushi(k) => ("形容詞", k.name(), "*", "*"),
            POS::Joshi(k) => {
                let (a, b) = k.names();
                ("助詞", a, b, "*")
            },
            POS::Jodoushi => ("助動詞", "*", "*", "*"),
            POS::Setsuzokushi => ("接続詞", "*", "*", "*"),
            POS::Settoushi(k) => ("接頭詞", k.name(), "*", "*"),
            POS::Doushi(k) => ("動詞", k.name(), "*", "*"),
            POS::Fukushi(k) => ("副詞", k.name(), "*", "*"),
            POS::Meishi(k) => {
                let (a, b, c) = k.names();
                ("名詞", a, b, c)
            },
            POS::Rentaishi => ("連体詞", "*", "*", "*"),
            POS::Others => ("その他", "*", "*", "*"),
        }
    }

    /// 名詞,数
    pub open spec fn spec_is_kazu(self) -> bool {
        self == POS::Meishi(Meishi::Kazu)
    }

    /// Whether this is 名詞,数.
    pub fn is_kazu(&self) -> (r: bool)
        ensures
            r == self.spec_is_kazu(),
    {
        match self {
            POS::Meishi(Meishi::Kazu) => true,
            _ => false,
        }
    }

    /// Turns any part of speech other than 記号 into 記号 with no
    /// subclass; a 記号 stays as it is.
    pub fn convert_to_kigou(&mut self)
        ensures
            *final(self) == (if (*old(self)) is Kigou { *old(self) } else { POS::Kigou(Kigou::Unspecified) }),
    {
        match self {
            POS::Kigou(_) => {},
            _ => {
                *self = POS::Kigou(Kigou::Unspecified);
            },
        }
    }
}

} // verus!

verus! {

/// The group names of every part of speech read back as that part of
/// speech, and none of them holds a comma.
#[verifier::rlimit(50)]
pub proof fn lemma_pos_labels_parse(p: POS)
    ensures
        pos_of(p.labels().0, p.labels().1, p.labels().2, p.labels().3) == Some(p),
        !has_char(p.labels().0, ','),
        !has_char(p.labels().1, ','),
        !has_char(p.labels().2, ','),
        !has_char(p.labels().3, ','),
{
    reveal_strlit("*");
    assert("*"@.len() == 1);
    assert("*"@[0] == '*');
    reveal_strlit("アルファベット");
    assert("アルファベット"@.len() == 7);
    assert("アルファベット"@[0] == 'ア');
    assert("アルファベット"@[1] == 'ル');
    assert("アルファベット"@[2] == 'フ');
    assert("アルファベット"@[3] == 'ァ');
    assert("アルファベット"@[4] == 'ベ');
    assert("アルファベット"@[5] == 'ッ');
    assert("アルファベット"@[6] == 'ト');
    reveal_strlit("一般");
    assert("一般"@.len() == 2);
    assert("一般"@[0] == '一');
    assert("一般"@[1] == '般');
    reveal_strlit("括弧開");
    assert("括弧開"@.len() == 3);
    assert("括弧開"@[0] == '括');
    assert("括弧開"@[1] == '弧');
    assert("括弧開"@[2] == '開');
    reveal_strlit("括弧閉");
    assert("括弧閉"@.len() == 3);
    assert("括弧閉"@[0] == '括');
    assert("括弧閉"@[1] == '弧');
    assert("括弧閉"@[2] == '閉');
    reveal_strlit("句点");
    assert("句点"@.len() == 2);
    assert("句点"@[0] == '句');
    assert("句点"@[1] == '点');
    reveal_strlit("空白");
    assert("空白"@.len() == 2);
    assert("空白"@[0] == '空');
    assert("空白"@[1] == '白');
    reveal_strlit("数");
    assert("数"@.len() == 1);
    assert("数"@[0] == '数');
    reveal_strlit("読点");
    assert("読点"@.len() == 2);
    assert("読点"@[0] == '読');
    assert("読点"@[1] == '点');
    reveal_strlit("自立");
    assert("自立"@.len() == 2);
    assert("自立"@[0] == '自');
    assert("自立"@[1] == '立');
    reveal_strlit("接尾");
    assert("接尾"@.len() == 2);
    assert("接尾"@[0] == '接');
    assert("接尾"@[1] == '尾');
    reveal_strlit("非自立");
    assert("非自立"@.len() == 3);
    assert("非自立"@[0] == '非');
    assert("非自立"@[1] == '自');
    assert("非自立"@[2] == '立');
    reveal_strlit("助詞類接続");
    assert("助詞類接続"@.len() == 5);
    assert("助詞類接続"@[0] == '助');
    assert("助詞類接続"@[1] == '詞');
    assert("助詞類接続"@[2] == '類');
    assert("助詞類接続"@[3] == '接');
    assert("助詞類接続"@[4] == '続');
    reveal_strlit("形容詞接続");
    assert("形容詞接続"@.len() == 5);
    assert("形容詞接続"@[0] == '形');
    assert("形容詞接続"@[1] == '容');
    assert("形容詞接続"@[2] == '詞');
    assert("形容詞接続"@[3] == '接');
    assert("形容詞接続"@[4] == '続');
    reveal_strlit("数接続");
    assert("数接続"@.len() == 3);
    assert("数接続"@[0] == '数');
    assert("数接続"@[1] == '接');
    assert("数接続"@[2] == '続');
    reveal_strlit("動詞接続");
    assert("動詞接続"@.len() == 4);
    assert("動詞接続"@[0] == '動');
    assert("動詞接続"@[1] == '詞');
    assert("動詞接続"@[2] == '接');
    assert("動詞接続"@[3] == '続');
    reveal_strlit("名詞接続");
    assert("名詞接続"@.len() == 4);
    assert("名詞接続"@[0] == '名');
    assert("名詞接続"@[1] == '詞');
    assert("名詞接続"@[2] == '接');
    assert("名詞接続"@[3] == '続');
    reveal_strlit("姓");
    assert("姓"@.len() == 1);
    assert("姓"@[0] == '姓');
    reveal_strlit("名");
    assert("名"@.len() == 1);
    assert("名"@[0] == '名');
    reveal_strlit("国");
    assert("国"@.len() == 1);
    assert("国"@[0] == '国');
    reveal_strlit("サ変接続");
    assert("サ変接続"@.len() == 4);
    assert("サ変接続"@[0] == 'サ');
    assert("サ変接続"@[1] == '変');
    assert("サ変接続"@[2] == '接');
    assert("サ変接続"@[3] == '続');
    reveal_strlit("形容動詞語幹");
    assert("形容動詞語幹"@.len() == 6);
    assert("形容動詞語幹"@[0] == '形');
    assert("形容動詞語幹"@[1] == '容');
    assert("形容動詞語幹"@[2] == '動');
    assert("形容動詞語幹"@[3] == '詞');
    assert("形容動詞語幹"@[4] == '語');
    assert("形容動詞語幹"@[5] == '幹');
    reveal_strlit("助数詞");
    assert("助数詞"@.len() == 3);
    assert("助数詞"@[0] == '助');
    assert("助数詞"@[1] == '数');
    assert("助数詞"@[2] == '詞');
    reveal_strlit("助動詞語幹");
    assert("助動詞語幹"@.len() == 5);
    assert("助動詞語幹"@[0] == '助');
    assert("助動詞語幹"@[1] == '動');
    assert("助動詞語幹"@[2] == '詞');
    assert("助動詞語幹"@[3] == '語');
    assert("助動詞語幹"@[4] == '幹');
    reveal_strlit("人名");
    assert("人名"@.len() == 2);
    assert("人名"@[0] == '人');
    assert("人名"@[1] == '名');
    reveal_strlit("地域");
    assert("地域"@.len() == 2);
    assert("地域"@[0] == '地');
    assert("地域"@[1] == '域');
    reveal_strlit("特殊");
    assert("特殊"@.len() == 2);
    assert("特殊"@[0] == '特');
    assert("特殊"@[1] == '殊');
    reveal_strlit("副詞可能");
    assert("副詞可能"@.len() == 4);
    assert("副詞可能"@[0] == '副');
    assert("副詞可能"@[1] == '詞');
    assert("副詞可能"@[2] == '可');
    assert("副詞可能"@[3] == '能');
    reveal_strlit("縮約");
    assert("縮約"@.len() == 2);
    assert("縮約"@[0] == '縮');
    assert("縮約"@[1] == '約');
    reveal_strlit("引用");
    assert("引用"@.len() == 2);
    assert("引用"@[0] == '引');
    assert("引用"@[1] == '用');
    reveal_strlit("連語");
    assert("連語"@.len() == 2);
    assert("連語"@[0] == '連');
    assert("連語"@[1] == '語');
    reveal_strlit("組織");
    assert("組織"@.len() == 2);
    assert("組織"@[0] == '組');
    assert("組織"@[1] == '織');
    reveal_strlit("ナイ形容詞語幹");
    assert("ナイ形容詞語幹"@.len() == 7);
    assert("ナイ形容詞語幹"@[0] == 'ナ');
    assert("ナイ形容詞語幹"@[1] == 'イ');
    assert("ナイ形容詞語幹"@[2] == '形');
    assert("ナイ形容詞語幹"@[3] == '容');
    assert("ナイ形容詞語幹"@[4] == '詞');
    assert("ナイ形容詞語幹"@[5] == '語');
    assert("ナイ形容詞語幹"@[6] == '幹');
    reveal_strlit("引用文字列");
    assert("引用文字列"@.len() == 5);
    assert("引用文字列"@[0] == '引');
    assert("引用文字列"@[1] == '用');
    assert("引用文字列"@[2] == '文');
    assert("引用文字列"@[3] == '字');
    assert("引用文字列"@[4] == '列');
    reveal_strlit("固有名詞");
    assert("固有名詞"@.len() == 4);
    assert("固有名詞"@[0] == '固');
    assert("固有名詞"@[1] == '有');
    assert("固有名詞"@[2] == '名');
    assert("固有名詞"@[3] == '詞');
    reveal_strlit("接続詞的");
    assert("接続詞的"@.len() == 4);
    assert("接続詞的"@[0] == '接');
    assert("接続詞的"@[1] == '続');
    assert("接続詞的"@[2] == '詞');
    assert("接続詞的"@[3] == '的');
    reveal_strlit("代名詞");
    assert("代名詞"@.len() == 3);
    assert("代名詞"@[0] == '代');
    assert("代名詞"@[1] == '名');
    assert("代名詞"@[2] == '詞');
    reveal_strlit("動詞非自立的");
    assert("動詞非自立的"@.len() == 6);
    assert("動詞非自立的"@[0] == '動');
    assert("動詞非自立的"@[1] == '詞');
    assert("動詞非自立的"@[2] == '非');
    assert("動詞非自立的"@[3] == '自');
    assert("動詞非自立的"@[4] == '立');
    assert("動詞非自立的"@[5] == '的');
    reveal_strlit("格助詞");
    assert("格助詞"@.len() == 3);
    assert("格助詞"@[0] == '格');
    assert("格助詞"@[1] == '助');
    assert("格助詞"@[2] == '詞');
    reveal_strlit("係助詞");
    assert("係助詞"@.len() == 3);
    assert("係助詞"@[0] == '係');
    assert("係助詞"@[1] == '助');
    assert("係助詞"@[2] == '詞');
    reveal_strlit("終助詞");
    assert("終助詞"@.len() == 3);
    assert("終助詞"@[0] == '終');
    assert("終助詞"@[1] == '助');
    assert("終助詞"@[2] == '詞');
    reveal_strlit("接続助詞");
    assert("接続助詞"@.len() == 4);
    assert("接続助詞"@[0] == '接');
    assert("接続助詞"@[1] == '続');
    assert("接続助詞"@[2] == '助');
    assert("接続助詞"@[3] == '詞');
    reveal_strlit("副詞化");
    assert("副詞化"@.len() == 3);
    assert("副詞化"@[0] == '副');
    assert("副詞化"@[1] == '詞');
    assert("副詞化"@[2] == '化');
    reveal_strlit("副助詞／並立助詞／終助詞");
    assert("副助詞／並立助詞／終助詞"@.len() == 12);
    assert("副助詞／並立助詞／終助詞"@[0] == '副');
    assert("副助詞／並立助詞／終助詞"@[1] == '助');
    assert("副助詞／並立助詞／終助詞"@[2] == '詞');
    assert("副助詞／並立助詞／終助詞"@[3] == '／');
    assert("副助詞／並立助詞／終助詞"@[4] == '並');
    assert("副助詞／並立助詞／終助詞"@[5] == '立');
    assert("副助詞／並立助詞／終助詞"@[6] == '助');
    assert("副助詞／並立助詞／終助詞"@[7] == '詞');
    assert("副助詞／並立助詞／終助詞"@[8] == '／');
    assert("副助詞／並立助詞／終助詞"@[9] == '終');
    assert("副助詞／並立助詞／終助詞"@[10] == '助');
    assert("副助詞／並立助詞／終助詞"@[11] == '詞');
    reveal_strlit("副助詞");
    assert("副助詞"@.len() == 3);
    assert("副助詞"@[0] == '副');
    assert("副助詞"@[1] == '助');
    assert("副助詞"@[2] == '詞');
    reveal_strlit("並立助詞");
    assert("並立助詞"@.len() == 4);
    assert("並立助詞"@[0] == '並');
    assert("並立助詞"@[1] == '立');
    assert("並立助詞"@[2] == '助');
    assert("並立助詞"@[3] == '詞');
    reveal_strlit("連体化");
    assert("連体化"@.len() == 3);
    assert("連体化"@[0] == '連');
    assert("連体化"@[1] == '体');
    assert("連体化"@[2] == '化');
    reveal_strlit("フィラー");
    assert("フィラー"@.len() == 4);
    assert("フィラー"@[0] == 'フ');
    assert("フィラー"@[1] == 'ィ');
    assert("フィラー"@[2] == 'ラ');
    assert("フィラー"@[3] == 'ー');
    reveal_strlit("感動詞");
    assert("感動詞"@.len() == 3);
    assert("感動詞"@[0] == '感');
    assert("感動詞"@[1] == '動');
    assert("感動詞"@[2] == '詞');
    reveal_strlit("記号");
    assert("記号"@.len() == 2);
    assert("記号"@[0] == '記');
    assert("記号"@[1] == '号');
    reveal_strlit("形容詞");
    assert("形容詞"@.len() == 3);
    assert("形容詞"@[0] == '形');
    assert("形容詞"@[1] == '容');
    assert("形容詞"@[2] == '詞');
    reveal_strlit("助詞");
    assert("助詞"@.len() == 2);
    assert("助詞"@[0] == '助');
    assert("助詞"@[1] == '詞');
    reveal_strlit("助動詞");
    assert("助動詞"@.len() == 3);
    assert("助動詞"@[0] == '助');
    assert("助動詞"@[1] == '動');
    assert("助動詞"@[2] == '詞');
    reveal_strlit("接続詞");
    assert("接続詞"@.len() == 3);
    assert("接続詞"@[0] == '接');
    assert("接続詞"@[1] == '続');
    assert("接続詞"@[2] == '詞');
    reveal_strlit("接頭詞");
    assert("接頭詞"@.len() == 3);
    assert("接頭詞"@[0] == '接');
    assert("接頭詞"@[1] == '頭');
    assert("接頭詞"@[2] == '詞');
    reveal_strlit("動詞");
    assert("動詞"@.len() == 2);
    assert("動詞"@[0] == '動');
    assert("動詞"@[1] == '詞');
    reveal_strlit("副詞");
    assert("副詞"@.len() == 2);
    assert("副詞"@[0] == '副');
    assert("副詞"@[1] == '詞');
    reveal_strlit("名詞");
    assert("名詞"@.len() == 2);
    assert("名詞"@[0] == '名');
    assert("名詞"@[1] == '詞');
    reveal_strlit("連体詞");
    assert("連体詞"@.len() == 3);
    assert("連体詞"@[0] == '連');
    assert("連体詞"@[1] == '体');
    assert("連体詞"@[2] == '詞');
    reveal_strlit("その他");
    assert("その他"@.len() == 3);
    assert("その他"@[0] == 'そ');
    assert("その他"@[1] == 'の');
    assert("その他"@[2] == '他');
}

} // verus!

