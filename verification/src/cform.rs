//! 活用形 (conjugation form).

use vstd::prelude::*;

use crate::error::{parsed_as, JPreprocessError, JPreprocessErrorKind};
use crate::text::{has_char, str_eq};

verus! {

/// 活用形
#[derive(Clone, Copy, PartialEq, Eq, Debug, Structural)]
pub enum CForm {
    /// ガル接続
    ConjunctionGaru,
    /// 音便基本形
    BasicEuphony,
    /// 仮定形
    Conditional,
    /// 仮定縮約１
    ConditionalContraction1,
    /// 仮定縮約２
    ConditionalContraction2,
    /// 基本形
    Basic,
    /// 基本形-促音便
    BasicDoubledConsonant,
    /// 現代基本形
    BasicModern,
    /// 体言接続
    TaigenConjunction,
    /// 体言接続特殊
    TaigenConjunctionSpecial,
    /// 体言接続特殊２
    TaigenConjunctionSpecial2,
    /// 文語基本形
    BasicOld,
    /// 未然ウ接続
    MizenConjunctionU,
    /// 未然ヌ接続
    MizenConjunctionNu,
    /// 未然レル接続
    MizenConjunctionReru,
    /// 未然形
    Mizen,
    /// 未然特殊
    MizenSpecial,
    /// 命令ｅ
    ImperativeE,
    /// 命令ｉ
    ImperativeI,
    /// 命令ｒｏ
    ImperativeRo,
    /// 命令ｙｏ
    ImperativeYo,
    /// 連用ゴザイ接続
    RenyouConjunctionGozai,
    /// 連用タ接続
    RenyouConjunctionTa,
    /// 連用テ接続
    RenyouConjunctionTe,
    /// 連用デ接続
    RenyouConjunctionDe,
    /// 連用ニ接続
    RenyouConjunctionNi,
    /// 連用形
    Renyou,
    /// *
    Unspecified,
}

/// The conjugation form named by `s`, if any.
pub open spec fn c_form_of(s: Seq<char>) -> Option<CForm> {
    if s == "ガル接続"@ {
        Some(CForm::ConjunctionGaru)
    } else if s == "音便基本形"@ {
        Some(CForm::BasicEuphony)
    } else if s == "仮定形"@ {
        Some(CForm::Conditional)
    } else if s == "仮定縮約１"@ {
        Some(CForm::ConditionalContraction1)
    } else if s == "仮定縮約２"@ {
        Some(CForm::ConditionalContraction2)
    } else if s == "基本形"@ {
        Some(CForm::Basic)
    } else if s == "基本形-促音便"@ {
        Some(CForm::BasicDoubledConsonant)
    } else if s == "現代基本形"@ {
        Some(CForm::BasicModern)
    } else if s == "体言接続"@ {
        Some(CForm::TaigenConjunction)
    } else if s == "体言接続特殊"@ {
        Some(CForm::TaigenConjunctionSpecial)
    } else if s == "体言接続特殊２"@ {
        Some(CForm::TaigenConjunctionSpecial2)
    } else if s == "文語基本形"@ {
        Some(CForm::BasicOld)
    } else if s == "未然ウ接続"@ {
        Some(CForm::MizenConjunctionU)
    } else if s == "未然ヌ接続"@ {
        Some(CForm::MizenConjunctionNu)
    } else if s == "未然レル接続"@ {
        Some(CForm::MizenConjunctionReru)
    } else if s == "未然形"@ {
        Some(CForm::Mizen)
    } else if s == "未然特殊"@ {
        Some(CForm::MizenSpecial)
    } else if s == "命令ｅ"@ {
        Some(CForm::ImperativeE)
    } else if s == "命令ｉ"@ {
        Some(CForm::ImperativeI)
    } else if s == "命令ｒｏ"@ {
        Some(CForm::ImperativeRo)
    } else if s == "命令ｙｏ"@ {
        Some(CForm::ImperativeYo)
    } else if s == "連用ゴザイ接続"@ {
        Some(CForm::RenyouConjunctionGozai)
    } else if s == "連用タ接続"@ {
        Some(CForm::RenyouConjunctionTa)
    } else if s == "連用テ接続"@ {
        Some(CForm::RenyouConjunctionTe)
    } else if s == "連用デ接続"@ {
        Some(CForm::RenyouConjunctionDe)
    } else if s == "連用ニ接続"@ {
        Some(CForm::RenyouConjunctionNi)
    } else if s == "連用形"@ {
        Some(CForm::Renyou)
    } else if s == "*"@ {
        Some(CForm::Unspecified)
    } else {
        None
    }
}

impl CForm {
    /// Reads the value from its dictionary name.
    pub fn from_str(s: &str) -> (r: Result<CForm, JPreprocessError>)
        ensures
            parsed_as(r, c_form_of(s@), JPreprocessErrorKind::CFormParseError),
    {
        if str_eq(s, "ガル接続") {
            Ok(CForm::ConjunctionGaru)
        } else if str_eq(s, "音便基本形") {
            Ok(CForm::BasicEuphony)
        } else if str_eq(s, "仮定形") {
            Ok(CForm::Conditional)
        } else if str_eq(s, "仮定縮約１") {
            Ok(CForm::ConditionalContraction1)
        } else if str_eq(s, "仮定縮約２") {
            Ok(CForm::ConditionalContraction2)
        } else if str_eq(s, "基本形") {
            Ok(CForm::Basic)
        } else if str_eq(s, "基本形-促音便") {
            Ok(CForm::BasicDoubledConsonant)
        } else if str_eq(s, "現代基本形") {
            Ok(CForm::BasicModern)
        } else if str_eq(s, "体言接続") {
            Ok(CForm::TaigenConjunction)
        } else if str_eq(s, "体言接続特殊") {
            Ok(CForm::TaigenConjunctionSpecial)
        } else if str_eq(s, "体言接続特殊２") {
            Ok(CForm::TaigenConjunctionSpecial2)
        } else if str_eq(s, "文語基本形") {
            Ok(CForm::BasicOld)
        } else if str_eq(s, "未然ウ接続") {
            Ok(CForm::MizenConjunctionU)
        } else if str_eq(s, "未然ヌ接続") {
            Ok(CForm::MizenConjunctionNu)
        } else if str_eq(s, "未然レル接続") {
            Ok(CForm::MizenConjunctionReru)
        } else if str_eq(s, "未然形") {
            Ok(CForm::Mizen)
        } else if str_eq(s, "未然特殊") {
            Ok(CForm::MizenSpecial)
        } else if str_eq(s, "命令ｅ") {
            Ok(CForm::ImperativeE)
        } else if str_eq(s, "命令ｉ") {
            Ok(CForm::ImperativeI)
        } else if str_eq(s, "命令ｒｏ") {
            Ok(CForm::ImperativeRo)
        } else if str_eq(s, "命令ｙｏ") {
            Ok(CForm::ImperativeYo)
        } else if str_eq(s, "連用ゴザイ接続") {
            Ok(CForm::RenyouConjunctionGozai)
        } else if str_eq(s, "連用タ接続") {
            Ok(CForm::RenyouConjunctionTa)
        } else if str_eq(s, "連用テ接続") {
            Ok(CForm::RenyouConjunctionTe)
        } else if str_eq(s, "連用デ接続") {
            Ok(CForm::RenyouConjunctionDe)
        } else if str_eq(s, "連用ニ接続") {
            Ok(CForm::RenyouConjunctionNi)
        } else if str_eq(s, "連用形") {
            Ok(CForm::Renyou)
        } else if str_eq(s, "*") {
            Ok(CForm::Unspecified)
        } else {
            Err(JPreprocessErrorKind::CFormParseError.with_error())
        }
    }

    /// The dictionary name of the value.
    pub open spec fn label(self) -> Seq<char> {
        match self {
            CForm::ConjunctionGaru => "ガル接続"@,
            CForm::BasicEuphony => "音便基本形"@,
            CForm::Conditional => "仮定形"@,
            CForm::ConditionalContraction1 => "仮定縮約１"@,
            CForm::ConditionalContraction2 => "仮定縮約２"@,
            CForm::Basic => "基本形"@,
            CForm::BasicDoubledConsonant => "基本形-促音便"@,
            CForm::BasicModern => "現代基本形"@,
            CForm::TaigenConjunction => "体言接続"@,
            CForm::TaigenConjunctionSpecial => "体言接続特殊"@,
            CForm::TaigenConjunctionSpecial2 => "体言接続特殊２"@,
            CForm::BasicOld => "文語基本形"@,
            CForm::MizenConjunctionU => "未然ウ接続"@,
            CForm::MizenConjunctionNu => "未然ヌ接続"@,
            CForm::MizenConjunctionReru => "未然レル接続"@,
            CForm::Mizen => "未然形"@,
            CForm::MizenSpecial => "未然特殊"@,
            CForm::ImperativeE => "命令ｅ"@,
            CForm::ImperativeI => "命令ｉ"@,
            CForm::ImperativeRo => "命令ｒｏ"@,
            CForm::ImperativeYo => "命令ｙｏ"@,
            CForm::RenyouConjunctionGozai => "連用ゴザイ接続"@,
            CForm::RenyouConjunctionTa => "連用タ接続"@,
            CForm::RenyouConjunctionTe => "連用テ接続"@,
            CForm::RenyouConjunctionDe => "連用デ接続"@,
            CForm::RenyouConjunctionNi => "連用ニ接続"@,
            CForm::Renyou => "連用形"@,
            CForm::Unspecified => "*"@,
        }
    }

    /// The dictionary name of the value.
    pub fn name(&self) -> (r: &'static str)
        ensures
            r@ == self.label(),
    {
        match self {
            CForm::ConjunctionGaru => "ガル接続",
            CForm::BasicEuphony => "音便基本形",
            CForm::Conditional => "仮定形",
            CForm::ConditionalContraction1 => "仮定縮約１",
            CForm::ConditionalContraction2 => "仮定縮約２",
            CForm::Basic => "基本形",
            CForm::BasicDoubledConsonant => "基本形-促音便",
            CForm::BasicModern => "現代基本形",
            CForm::TaigenConjunction => "体言接続",
            CForm::TaigenConjunctionSpecial => "体言接続特殊",
            CForm::TaigenConjunctionSpecial2 => "体言接続特殊２",
            CForm::BasicOld => "文語基本形",
            CForm::MizenConjunctionU => "未然ウ接続",
            CForm::MizenConjunctionNu => "未然ヌ接続",
            CForm::MizenConjunctionReru => "未然レル接続",
            CForm::Mizen => "未然形",
            CForm::MizenSpecial => "未然特殊",
            CForm::ImperativeE => "命令ｅ",
            CForm::ImperativeI => "命令ｉ",
            CForm::ImperativeRo => "命令ｒｏ",
            CForm::ImperativeYo => "命令ｙｏ",
            CForm::RenyouConjunctionGozai => "連用ゴザイ接続",
            CForm::RenyouConjunctionTa => "連用タ接続",
            CForm::RenyouConjunctionTe => "連用テ接続",
            CForm::RenyouConjunctionDe => "連用デ接続",
            CForm::RenyouConjunctionNi => "連用ニ接続",
            CForm::Renyou => "連用形",
            CForm::Unspecified => "*",
        }
    }
}

impl CForm {
    /// 連用形 and its variants.
    pub open spec fn spec_is_renyou(self) -> bool {
        ||| self == CForm::RenyouConjunctionGozai
        ||| self == CForm::RenyouConjunctionTa
        ||| self == CForm::RenyouConjunctionTe
        ||| self == CForm::RenyouConjunctionDe
        ||| self == CForm::RenyouConjunctionNi
        ||| self == CForm::Renyou
    }

    /// Whether this is 連用形 or one of its variants.
    pub fn is_renyou(&self) -> (r: bool)
        ensures
            r == self.spec_is_renyou(),
    {
        match self {
            CForm::RenyouConjunctionGozai | CForm::RenyouConjunctionTa | CForm::RenyouConjunctionTe
            | CForm::RenyouConjunctionDe | CForm::RenyouConjunctionNi | CForm::Renyou => true,
            _ => false,
        }
    }
}

} // verus!

verus! {

/// The name of every conjugation form reads back as that form; it holds no
/// comma.
pub proof fn lemma_cform_label_parses(c: CForm)
    ensures
        c_form_of(c.label()) == Some(c),
        !has_char(c.label(), ','),
{
    reveal_strlit("ガル接続");
    assert("ガル接続"@.len() == 4);
    assert("ガル接続"@[0] == 'ガ');
    assert("ガル接続"@[1] == 'ル');
    assert("ガル接続"@[2] == '接');
    assert("ガル接続"@[3] == '続');
    reveal_strlit("音便基本形");
    assert("音便基本形"@.len() == 5);
    assert("音便基本形"@[0] == '音');
    assert("音便基本形"@[1] == '便');
    assert("音便基本形"@[2] == '基');
    assert("音便基本形"@[3] == '本');
    assert("音便基本形"@[4] == '形');
    reveal_strlit("仮定形");
    assert("仮定形"@.len() == 3);
    assert("仮定形"@[0] == '仮');
    assert("仮定形"@[1] == '定');
    assert("仮定形"@[2] == '形');
    reveal_strlit("仮定縮約１");
    assert("仮定縮約１"@.len() == 5);
    assert("仮定縮約１"@[0] == '仮');
    assert("仮定縮約１"@[1] == '定');
    assert("仮定縮約１"@[2] == '縮');
    assert("仮定縮約１"@[3] == '約');
    assert("仮定縮約１"@[4] == '１');
    reveal_strlit("仮定縮約２");
    assert("仮定縮約２"@.len() == 5);
    assert("仮定縮約２"@[0] == '仮');
    assert("仮定縮約２"@[1] == '定');
    assert("仮定縮約２"@[2] == '縮');
    assert("仮定縮約２"@[3] == '約');
    assert("仮定縮約２"@[4] == '２');
    reveal_strlit("基本形");
    assert("基本形"@.len() == 3);
    assert("基本形"@[0] == '基');
    assert("基本形"@[1] == '本');
    assert("基本形"@[2] == '形');
    reveal_strlit("基本形-促音便");
    assert("基本形-促音便"@.len() == 7);
    assert("基本形-促音便"@[0] == '基');
    assert("基本形-促音便"@[1] == '本');
    assert("基本形-促音便"@[2] == '形');
    assert("基本形-促音便"@[3] == '-');
    assert("基本形-促音便"@[4] == '促');
    assert("基本形-促音便"@[5] == '音');
    assert("基本形-促音便"@[6] == '便');
    reveal_strlit("現代基本形");
    assert("現代基本形"@.len() == 5);
    assert("現代基本形"@[0] == '現');
    assert("現代基本形"@[1] == '代');
    assert("現代基本形"@[2] == '基');
    assert("現代基本形"@[3] == '本');
    assert("現代基本形"@[4] == '形');
    reveal_strlit("体言接続");
    assert("体言接続"@.len() == 4);
    assert("体言接続"@[0] == '体');
    assert("体言接続"@[1] == '言');
    assert("体言接続"@[2] == '接');
    assert("体言接続"@[3] == '続');
    reveal_strlit("体言接続特殊");
    assert("体言接続特殊"@.len() == 6);
    assert("体言接続特殊"@[0] == '体');
    assert("体言接続特殊"@[1] == '言');
    assert("体言接続特殊"@[2] == '接');
    assert("体言接続特殊"@[3] == '続');
    assert("体言接続特殊"@[4] == '特');
    assert("体言接続特殊"@[5] == '殊');
    reveal_strlit("体言接続特殊２");
    assert("体言接続特殊２"@.len() == 7);
    assert("体言接続特殊２"@[0] == '体');
    assert("体言接続特殊２"@[1] == '言');
    assert("体言接続特殊２"@[2] == '接');
    assert("体言接続特殊２"@[3] == '続');
    assert("体言接続特殊２"@[4] == '特');
    assert("体言接続特殊２"@[5] == '殊');
    assert("体言接続特殊２"@[6] == '２');
    reveal_strlit("文語基本形");
    assert("文語基本形"@.len() == 5);
    assert("文語基本形"@[0] == '文');
    assert("文語基本形"@[1] == '語');
    assert("文語基本形"@[2] == '基');
    assert("文語基本形"@[3] == '本');
    assert("文語基本形"@[4] == '形');
    reveal_strlit("未然ウ接続");
    assert("未然ウ接続"@.len() == 5);
    assert("未然ウ接続"@[0] == '未');
    assert("未然ウ接続"@[1] == '然');
    assert("未然ウ接続"@[2] == 'ウ');
    assert("未然ウ接続"@[3] == '接');
    assert("未然ウ接続"@[4] == '続');
    reveal_strlit("未然ヌ接続");
    assert("未然ヌ接続"@.len() == 5);
    assert("未然ヌ接続"@[0] == '未');
    assert("未然ヌ接続"@[1] == '然');
    assert("未然ヌ接続"@[2] == 'ヌ');
    assert("未然ヌ接続"@[3] == '接');
    assert("未然ヌ接続"@[4] == '続');
    reveal_strlit("未然レル接続");
    assert("未然レル接続"@.len() == 6);
    assert("未然レル接続"@[0] == '未');
    assert("未然レル接続"@[1] == '然');
    assert("未然レル接続"@[2] == 'レ');
    assert("未然レル接続"@[3] == 'ル');
    assert("未然レル接続"@[4] == '接');
    assert("未然レル接続"@[5] == '続');
    reveal_strlit("未然形");
    assert("未然形"@.len() == 3);
    assert("未然形"@[0] == '未');
    assert("未然形"@[1] == '然');
    assert("未然形"@[2] == '形');
    reveal_strlit("未然特殊");
    assert("未然特殊"@.len() == 4);
    assert("未然特殊"@[0] == '未');
    assert("未然特殊"@[1] == '然');
    assert("未然特殊"@[2] == '特');
    assert("未然特殊"@[3] == '殊');
    reveal_strlit("命令ｅ");
    assert("命令ｅ"@.len() == 3);
    assert("命令ｅ"@[0] == '命');
    assert("命令ｅ"@[1] == '令');
    assert("命令ｅ"@[2] == 'ｅ');
    reveal_strlit("命令ｉ");
    assert("命令ｉ"@.len() == 3);
    assert("命令ｉ"@[0] == '命');
    assert("命令ｉ"@[1] == '令');
    assert("命令ｉ"@[2] == 'ｉ');
    reveal_strlit("命令ｒｏ");
    assert("命令ｒｏ"@.len() == 4);
    assert("命令ｒｏ"@[0] == '命');
    assert("命令ｒｏ"@[1] == '令');
    assert("命令ｒｏ"@[2] == 'ｒ');
    assert("命令ｒｏ"@[3] == 'ｏ');
    reveal_strlit("命令ｙｏ");
    assert("命令ｙｏ"@.len() == 4);
    assert("命令ｙｏ"@[0] == '命');
    assert("命令ｙｏ"@[1] == '令');
    assert("命令ｙｏ"@[2] == 'ｙ');
    assert("命令ｙｏ"@[3] == 'ｏ');
    reveal_strlit("連用ゴザイ接続");
    assert("連用ゴザイ接続"@.len() == 7);
    assert("連用ゴザイ接続"@[0] == '連');
    assert("連用ゴザイ接続"@[1] == '用');
    assert("連用ゴザイ接続"@[2] == 'ゴ');
    assert("連用ゴザイ接続"@[3] == 'ザ');
    assert("連用ゴザイ接続"@[4] == 'イ');
    assert("連用ゴザイ接続"@[5] == '接');
    assert("連用ゴザイ接続"@[6] == '続');
    reveal_strlit("連用タ接続");
    assert("連用タ接続"@.len() == 5);
    assert("連用タ接続"@[0] == '連');
    assert("連用タ接続"@[1] == '用');
    assert("連用タ接続"@[2] == 'タ');
    assert("連用タ接続"@[3] == '接');
    assert("連用タ接続"@[4] == '続');
    reveal_strlit("連用テ接続");
    assert("連用テ接続"@.len() == 5);
    assert("連用テ接続"@[0] == '連');
    assert("連用テ接続"@[1] == '用');
    assert("連用テ接続"@[2] == 'テ');
    assert("連用テ接続"@[3] == '接');
    assert("連用テ接続"@[4] == '続');
    reveal_strlit("連用デ接続");
    assert("連用デ接続"@.len() == 5);
    assert("連用デ接続"@[0] == '連');
    assert("連用デ接続"@[1] == '用');
    assert("連用デ接続"@[2] == 'デ');
    assert("連用デ接続"@[3] == '接');
    assert("連用デ接続"@[4] == '続');
    reveal_strlit("連用ニ接続");
    assert("連用ニ接続"@.len() == 5);
    assert("連用ニ接続"@[0] == '連');
    assert("連用ニ接続"@[1] == '用');
    assert("連用ニ接続"@[2] == 'ニ');
    assert("連用ニ接続"@[3] == '接');
    assert("連用ニ接続"@[4] == '続');
    reveal_strlit("連用形");
    assert("連用形"@.len() == 3);
    assert("連用形"@[0] == '連');
    assert("連用形"@[1] == '用');
    assert("連用形"@[2] == '形');
    reveal_strlit("*");
    assert("*"@.len() == 1);
    assert("*"@[0] == '*');
}

} // verus!
