//! Words of a context label: part-of-speech and conjugation numbers of the
//! label format, and the limits that label numbers are clamped to.

use vstd::prelude::*;

use crate::cform::CForm;
use crate::ctype::CType;
use crate::mora::Mora;
use crate::node::{NJDNode, NodeView};
use crate::pos::{Doushi, Joshi, Keiyoushi, Meishi, POS};
use crate::pronunciation::{copy_moras, mora_count, Pronunciation};
use crate::text::{dec, push_char, push_dec};

verus! {

/// The label number of a part of speech, where the label format has one.
pub open spec fn pos_id(pos: POS) -> Option<u8> {
    match pos {
        POS::Filler => Some(25),
        POS::Kandoushi => Some(9),
        POS::Kigou(_) => None,
        POS::Keiyoushi(k) => match k {
            Keiyoushi::Setsubi => Some(15),
            _ => Some(1),
        },
        POS::Joshi(j) => match j {
            Joshi::KakuJoshi(_) => Some(13),
            Joshi::Kakarijoshi => Some(24),
            Joshi::Shuujoshi => Some(14),
            Joshi::SetsuzokuJoshi => Some(12),
            Joshi::Fukujoshi => Some(11),
            Joshi::FukuHeiritsuShuujoshi => Some(11),
            _ => Some(23),
        },
        POS::Jodoushi => Some(10),
        POS::Setsuzokushi => Some(8),
        POS::Settoushi(_) => Some(16),
        POS::Doushi(d) => match d {
            Doushi::Jiritsu => Some(20),
            Doushi::Setsubi => Some(15),
            Doushi::Hijiritsu => Some(21),
        },
        POS::Fukushi(_) => Some(6),
        POS::Meishi(m) => match m {
            Meishi::SahenSetsuzoku => Some(17),
            Meishi::KeiyoudoushiGokan => Some(19),
            Meishi::KoyuMeishi(_) => Some(18),
            Meishi::Kazu => Some(5),
            Meishi::Setsuzokushiteki => Some(8),
            Meishi::Setsubi(_) => Some(15),
            Meishi::Daimeishi(_) => Some(4),
            Meishi::DoushiHijiritsuteki => Some(22),
            Meishi::Special => Some(22),
            Meishi::Hijiritsu(_) => Some(22),
            Meishi::Unspecified => None,
            _ => Some(2),
        },
        POS::Rentaishi => Some(7),
        POS::Others => None,
    }
}

/// The label number of a conjugation type.
pub open spec fn ctype_id(c: CType) -> Option<u8> {
    match c {
        CType::KaIrregular => Some(5),
        CType::SaIrregular => Some(4),
        CType::One => Some(3),
        CType::Keiyoushi => Some(7),
        CType::Five => Some(1),
        CType::Special => Some(7),
        CType::Unspecified => None,
        _ => Some(6),
    }
}

/// The label number of a conjugation form.
pub open spec fn cform_id(c: CForm) -> Option<u8> {
    match c {
        CForm::ConjunctionGaru => Some(6),
        CForm::Conditional | CForm::ConditionalContraction1 | CForm::ConditionalContraction2 => Some(4),
        CForm::BasicEuphony | CForm::Basic | CForm::BasicDoubledConsonant | CForm::BasicModern | CForm::BasicOld => Some(
            2,
        ),
        CForm::TaigenConjunction | CForm::TaigenConjunctionSpecial | CForm::TaigenConjunctionSpecial2 => Some(3),
        CForm::MizenConjunctionU | CForm::MizenConjunctionNu | CForm::MizenConjunctionReru | CForm::Mizen
        | CForm::MizenSpecial => Some(0),
        CForm::ImperativeE | CForm::ImperativeI | CForm::ImperativeRo | CForm::ImperativeYo => Some(5),
        CForm::Unspecified => None,
        _ => Some(1),
    }
}

/// The label number of a part of speech.
pub fn pos_to_id(pos: &POS) -> (r: Option<u8>)
    ensures
        r == pos_id(*pos),
{
    match pos {
        POS::Filler => Some(25),
        POS::Kandoushi => Some(9),
        POS::Kigou(_) => None,
        POS::Keiyoushi(k) => match k {
            Keiyoushi::Setsubi => Some(15),
            _ => Some(1),
        },
        POS::Joshi(j) => match j {
            Joshi::KakuJoshi(_) => Some(13),
            Joshi::Kakarijoshi => Some(24),
            Joshi::Shuujoshi => Some(14),
            Joshi::SetsuzokuJoshi => Some(12),
            Joshi::Fukujoshi => Some(11),
            Joshi::FukuHeiritsuShuujoshi => Some(11),
            _ => Some(23),
        },
        POS::Jodoushi => Some(10),
        POS::Setsuzokushi => Some(8),
        POS::Settoushi(_) => Some(16),
        POS::Doushi(d) => match d {
            Doushi::Jiritsu => Some(20),
            Doushi::Setsubi => Some(15),
            Doushi::Hijiritsu => Some(21),
        },
        POS::Fukushi(_) => Some(6),
        POS::Meishi(m) => match m {
            Meishi::SahenSetsuzoku => Some(17),
            Meishi::KeiyoudoushiGokan => Some(19),
            Meishi::KoyuMeishi(_) => Some(18),
            Meishi::Kazu => Some(5),
            Meishi::Setsuzokushiteki => Some(8),
            Meishi::Setsubi(_) => Some(15),
            Meishi::Daimeishi(_) => Some(4),
            Meishi::DoushiHijiritsuteki => Some(22),
            Meishi::Special => Some(22),
            Meishi::Hijiritsu(_) => Some(22),
            Meishi::Unspecified => None,
            _ => Some(2),
        },
        POS::Rentaishi => Some(7),
        POS::Others => None,
    }
}

/// The label number of a conjugation type.
pub fn ctype_to_id(c: &CType) -> (r: Option<u8>)
    ensures
        r == ctype_id(*c),
{
    match c {
        CType::KaIrregular => Some(5),
        CType::SaIrregular => Some(4),
        CType::One => Some(3),
        CType::Keiyoushi => Some(7),
        CType::Five => Some(1),
        CType::Special => Some(7),
        CType::Unspecified => None,
        _ => Some(6),
    }
}

/// The label number of a conjugation form.
pub fn cform_to_id(c: &CForm) -> (r: Option<u8>)
    ensures
        r == cform_id(*c),
{
    match c {
        CForm::ConjunctionGaru => Some(6),
        CForm::Conditional | CForm::ConditionalContraction1 | CForm::ConditionalContraction2 => Some(4),
        CForm::BasicEuphony | CForm::Basic | CForm::BasicDoubledConsonant | CForm::BasicModern | CForm::BasicOld => Some(
            2,
        ),
        CForm::TaigenConjunction | CForm::TaigenConjunctionSpecial | CForm::TaigenConjunctionSpecial2 => Some(3),
        CForm::MizenConjunctionU | CForm::MizenConjunctionNu | CForm::MizenConjunctionReru | CForm::Mizen
        | CForm::MizenSpecial => Some(0),
        CForm::ImperativeE | CForm::ImperativeI | CForm::ImperativeRo | CForm::ImperativeYo => Some(5),
        CForm::Unspecified => None,
        _ => Some(1),
    }
}

/// The ranges that label numbers are clamped to.
#[derive(Clone, Copy, PartialEq, Eq, Debug, Structural)]
pub enum Limit {
    S,
    M,
    L,
    LL,
}

/// `v` clamped to `lo..=hi`.
pub open spec fn clamped(v: int, lo: int, hi: int) -> int {
    if v < lo {
        lo
    } else if hi < v {
        hi
    } else {
        v
    }
}

impl Limit {
    /// The largest number of the range.
    pub open spec fn bound(self) -> int {
        match self {
            Limit::S => 19,
            Limit::M => 49,
            Limit::L => 99,
            Limit::LL => 199,
        }
    }

    /// `value` clamped to `1..=bound`.
    pub fn ulimit(self, value: usize) -> (r: usize)
        ensures
            r == clamped(value as int, 1, self.bound()),
    {
        match self {
            Limit::S => Limit::clamp_u(value, 1, 19),
            Limit::M => Limit::clamp_u(value, 1, 49),
            Limit::L => Limit::clamp_u(value, 1, 99),
            Limit::LL => Limit::clamp_u(value, 1, 199),
        }
    }

    /// `value` clamped to `-bound..=bound`.
    pub fn ilimit(self, value: isize) -> (r: isize)
        ensures
            r == clamped(value as int, -self.bound(), self.bound()),
    {
        match self {
            Limit::S => Limit::clamp_i(value, -19, 19),
            Limit::M => Limit::clamp_i(value, -49, 49),
            Limit::L => Limit::clamp_i(value, -99, 99),
            Limit::LL => Limit::clamp_i(value, -199, 199),
        }
    }

    fn clamp_u(value: usize, lower_bound: usize, upper_bound: usize) -> (r: usize)
        ensures
            r == clamped(value as int, lower_bound as int, upper_bound as int),
    {
        if value < lower_bound {
            lower_bound
        } else if upper_bound < value {
            upper_bound
        } else {
            value
        }
    }

    fn clamp_i(value: isize, lower_bound: isize, upper_bound: isize) -> (r: isize)
        ensures
            r == clamped(value as int, lower_bound as int, upper_bound as int),
    {
        if value < lower_bound {
            lower_bound
        } else if upper_bound < value {
            upper_bound
        } else {
            value
        }
    }
}

/// A word of a label, as values.
pub struct WordView {
    pub pos: Option<u8>,
    pub ctype: Option<u8>,
    pub cform: Option<u8>,
    pub moras: Seq<Mora>,
}

/// A word of a label: its numbers and its morae.
pub struct Word {
    pub pos: Option<u8>,
    pub ctype: Option<u8>,
    pub cform: Option<u8>,
    pub moras: Pronunciation,
}

impl View for Word {
    type V = WordView;

    open spec fn view(&self) -> WordView {
        WordView { pos: self.pos, ctype: self.ctype, cform: self.cform, moras: self.moras.moras@ }
    }
}

/// A label number written with two digits, or `xx` when there is none.
pub open spec fn id_text(id: Option<u8>) -> Seq<char> {
    match id {
        Some(v) => if v < 10 {
            seq!['0'] + dec(v as nat)
        } else {
            dec(v as nat)
        },
        None => "xx"@,
    }
}

/// The word part of a label, `/X:` then the three numbers with the given
/// separators.
pub open spec fn word_part(head: Seq<char>, w: WordView, s1: char, s2: char) -> Seq<char> {
    head + id_text(w.pos) + seq![s1] + id_text(w.ctype) + seq![s2] + id_text(w.cform)
}

/// The label word of a dictionary word.
pub open spec fn word_of(n: NodeView) -> WordView {
    WordView {
        pos: pos_id(n.details.pos),
        ctype: ctype_id(n.details.ctype),
        cform: cform_id(n.details.cform),
        moras: n.details.moras,
    }
}

impl Word {
    /// The label word of a dictionary word.
    pub fn from_node(node: &NJDNode) -> (r: Word)
        ensures
            r@ == word_of(node@),
    {
        Word {
            pos: pos_to_id(node.get_pos()),
            ctype: ctype_to_id(node.get_ctype()),
            cform: cform_to_id(node.get_cform()),
            moras: Pronunciation::new(copy_moras(&node.get_pron().moras), node.get_pron().accent()),
        }
    }

    /// A label number written with two digits, or `xx`.
    fn format_id(id: Option<u8>) -> (r: String)
        ensures
            r@ == id_text(id),
    {
        let mut s = String::new();
        match id {
            Some(v) => {
                if v < 10 {
                    push_char(&mut s, '0');
                }
                push_dec(&mut s, v as u64);
                proof {
                    if v < 10 {
                        assert(s@ =~= seq!['0'] + dec(v as nat));
                    } else {
                        assert(s@ =~= dec(v as nat));
                    }
                }
            },
            None => {
                push_char(&mut s, 'x');
                push_char(&mut s, 'x');
                proof {
                    reveal_strlit("xx");
                    assert(s@ =~= "xx"@);
                }
            },
        }
        s
    }

    fn part(&self, head: &str, s1: char, s2: char) -> (r: String)
        ensures
            r@ == word_part(head@, self@, s1, s2),
    {
        let mut s = String::from_str(head);
        s.append(Word::format_id(self.pos).as_str());
        push_char(&mut s, s1);
        s.append(Word::format_id(self.ctype).as_str());
        push_char(&mut s, s2);
        s.append(Word::format_id(self.cform).as_str());
        proof {
            assert(s@ =~= word_part(head@, self@, s1, s2));
        }
        s
    }

    /// The label part for the word before the current one.
    pub fn to_b(&self) -> (r: String)
        ensures
            r@ == word_part("/B:"@, self@, '-', '_'),
    {
        self.part("/B:", '-', '_')
    }

    /// The label part for the current word.
    pub fn to_c(&self) -> (r: String)
        ensures
            r@ == word_part("/C:"@, self@, '_', '+'),
    {
        self.part("/C:", '_', '+')
    }

    /// The label part for the word after the current one.
    pub fn to_d(&self) -> (r: String)
        ensures
            r@ == word_part("/D:"@, self@, '+', '_'),
    {
        self.part("/D:", '+', '_')
    }

    /// The number of sounded morae.
    pub fn count_mora(&self) -> (r: usize)
        ensures
            r == mora_count(self@.moras),
    {
        self.moras.mora_size()
    }
}

} // verus!
