//! 活用型 (conjugation type).

use vstd::prelude::*;

use crate::error::{parsed_as, JPreprocessError, JPreprocessErrorKind};
use crate::text::{before_first, has_char, split_spec, str_eq};

verus! {

/// 活用型
#[derive(Clone, Copy, PartialEq, Eq, Debug, Structural)]
pub enum CType {
    /// カ変
    KaIrregular,
    /// サ変
    SaIrregular,
    /// ラ変
    RaIrregular,
    /// 一段
    One,
    /// 下二
    LowerTwo,
    /// 形容詞
    Keiyoushi,
    /// 五段
    Five,
    /// 四段
    Four,
    /// 上二
    UpperTwo,
    /// 特殊
    Special,
    /// 不変化型
    NoConjugation,
    /// 文語
    Old,
    /// *
    Unspecified,
}

/// The conjugation type named by the major part `s`, if any.
pub open spec fn c_type_of(s: Seq<char>) -> Option<CType> {
    if s == "カ変"@ {
        Some(CType::KaIrregular)
    } else if s == "サ変"@ {
        Some(CType::SaIrregular)
    } else if s == "ラ変"@ {
        Some(CType::RaIrregular)
    } else if s == "一段"@ {
        Some(CType::One)
    } else if s == "下二"@ {
        Some(CType::LowerTwo)
    } else if s == "形容詞"@ {
        Some(CType::Keiyoushi)
    } else if s == "五段"@ {
        Some(CType::Five)
    } else if s == "四段"@ {
        Some(CType::Four)
    } else if s == "上二"@ {
        Some(CType::UpperTwo)
    } else if s == "特殊"@ {
        Some(CType::Special)
    } else if s == "不変化型"@ {
        Some(CType::NoConjugation)
    } else if s == "文語"@ {
        Some(CType::Old)
    } else if s == "*"@ {
        Some(CType::Unspecified)
    } else {
        None
    }
}

impl CType {
    /// Reads the value from its dictionary name.
    fn from_major(s: &str) -> (r: Result<CType, JPreprocessError>)
        ensures
            parsed_as(r, c_type_of(s@), JPreprocessErrorKind::CTypeParseError),
    {
        if str_eq(s, "カ変") {
            Ok(CType::KaIrregular)
        } else if str_eq(s, "サ変") {
            Ok(CType::SaIrregular)
        } else if str_eq(s, "ラ変") {
            Ok(CType::RaIrregular)
        } else if str_eq(s, "一段") {
            Ok(CType::One)
        } else if str_eq(s, "下二") {
            Ok(CType::LowerTwo)
        } else if str_eq(s, "形容詞") {
            Ok(CType::Keiyoushi)
        } else if str_eq(s, "五段") {
            Ok(CType::Five)
        } else if str_eq(s, "四段") {
            Ok(CType::Four)
        } else if str_eq(s, "上二") {
            Ok(CType::UpperTwo)
        } else if str_eq(s, "特殊") {
            Ok(CType::Special)
        } else if str_eq(s, "不変化型") {
            Ok(CType::NoConjugation)
        } else if str_eq(s, "文語") {
            Ok(CType::Old)
        } else if str_eq(s, "*") {
            Ok(CType::Unspecified)
        } else {
            Err(JPreprocessErrorKind::CTypeParseError.with_error())
        }
    }

    /// The dictionary name of the value.
    pub open spec fn label(self) -> Seq<char> {
        match self {
            CType::KaIrregular => "カ変"@,
            CType::SaIrregular => "サ変"@,
            CType::RaIrregular => "ラ変"@,
            CType::One => "一段"@,
            CType::LowerTwo => "下二"@,
            CType::Keiyoushi => "形容詞"@,
            CType::Five => "五段"@,
            CType::Four => "四段"@,
            CType::UpperTwo => "上二"@,
            CType::Special => "特殊"@,
            CType::NoConjugation => "不変化型"@,
            CType::Old => "文語"@,
            CType::Unspecified => "*"@,
        }
    }

    /// The dictionary name of the value.
    pub fn name(&self) -> (r: &'static str)
        ensures
            r@ == self.label(),
    {
        match self {
            CType::KaIrregular => "カ変",
            CType::SaIrregular => "サ変",
            CType::RaIrregular => "ラ変",
            CType::One => "一段",
            CType::LowerTwo => "下二",
            CType::Keiyoushi => "形容詞",
            CType::Five => "五段",
            CType::Four => "四段",
            CType::UpperTwo => "上二",
            CType::Special => "特殊",
            CType::NoConjugation => "不変化型",
            CType::Old => "文語",
            CType::Unspecified => "*",
        }
    }
}

impl CType {
    /// Reads the conjugation type from its dictionary name; only the part
    /// before the first `・` (the major type) decides it.
    pub fn from_str(s: &str) -> (r: Result<CType, JPreprocessError>)
        ensures
            parsed_as(r, c_type_of(split_spec(s@, '・')[0]), JPreprocessErrorKind::CTypeParseError),
    {
        let major = before_first(s, '・');
        CType::from_major(major.as_str())
    }
}

} // verus!

verus! {

/// The name of every conjugation type reads back as that type; it holds
/// neither a comma nor `・`.
pub proof fn lemma_ctype_label_parses(c: CType)
    ensures
        c_type_of(c.label()) == Some(c),
        !has_char(c.label(), ','),
        !has_char(c.label(), '・'),
{
    reveal_strlit("カ変");
    assert("カ変"@.len() == 2);
    assert("カ変"@[0] == 'カ');
    assert("カ変"@[1] == '変');
    reveal_strlit("サ変");
    assert("サ変"@.len() == 2);
    assert("サ変"@[0] == 'サ');
    assert("サ変"@[1] == '変');
    reveal_strlit("ラ変");
    assert("ラ変"@.len() == 2);
    assert("ラ変"@[0] == 'ラ');
    assert("ラ変"@[1] == '変');
    reveal_strlit("一段");
    assert("一段"@.len() == 2);
    assert("一段"@[0] == '一');
    assert("一段"@[1] == '段');
    reveal_strlit("下二");
    assert("下二"@.len() == 2);
    assert("下二"@[0] == '下');
    assert("下二"@[1] == '二');
    reveal_strlit("形容詞");
    assert("形容詞"@.len() == 3);
    assert("形容詞"@[0] == '形');
    assert("形容詞"@[1] == '容');
    assert("形容詞"@[2] == '詞');
    reveal_strlit("五段");
    assert("五段"@.len() == 2);
    assert("五段"@[0] == '五');
    assert("五段"@[1] == '段');
    reveal_strlit("四段");
    assert("四段"@.len() == 2);
    assert("四段"@[0] == '四');
    assert("四段"@[1] == '段');
    reveal_strlit("上二");
    assert("上二"@.len() == 2);
    assert("上二"@[0] == '上');
    assert("上二"@[1] == '二');
    reveal_strlit("特殊");
    assert("特殊"@.len() == 2);
    assert("特殊"@[0] == '特');
    assert("特殊"@[1] == '殊');
    reveal_strlit("不変化型");
    assert("不変化型"@.len() == 4);
    assert("不変化型"@[0] == '不');
    assert("不変化型"@[1] == '変');
    assert("不変化型"@[2] == '化');
    assert("不変化型"@[3] == '型');
    reveal_strlit("文語");
    assert("文語"@.len() == 2);
    assert("文語"@[0] == '文');
    assert("文語"@[1] == '語');
    reveal_strlit("*");
    assert("*"@.len() == 1);
    assert("*"@[0] == '*');
}

} // verus!
