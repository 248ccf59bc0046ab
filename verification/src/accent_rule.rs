//! Accent chain rules (アクセント結合規則): how the accent of an accent
//! phrase changes when a word is attached to the word before it.

use vstd::prelude::*;

use crate::error::{parsed_as, JPreprocessError, JPreprocessErrorKind, JPreprocessResult};
use crate::pos::POS;
use crate::text::{
    chars_of, dec, digit_char, has_char, join_spec, join_strings, lemma_has_char_concat, lemma_join_no_char,
    lemma_split_join, push_signed_dec, signed_dec, split_chars, split_spec, str_eq, views,
};

verus! {

/// The accent combination type of a chain rule.
#[derive(Clone, Copy, PartialEq, Eq, Debug, Structural)]
pub enum AccentType {
    /// F1
    F1,
    /// F2
    F2,
    /// F3
    F3,
    /// F4
    F4,
    /// F5
    F5,
    /// F6
    F6,
    /// C1
    C1,
    /// C2
    C2,
    /// C3
    C3,
    /// C4
    C4,
    /// C5
    C5,
    /// P1
    P1,
    /// P2
    P2,
    /// P6
    P6,
    /// P14
    P14,
}

/// The accent type named by `s`, if any.
pub open spec fn accent_type_of(s: Seq<char>) -> Option<AccentType> {
    if s == "F1"@ {
        Some(AccentType::F1)
    } else if s == "F2"@ {
        Some(AccentType::F2)
    } else if s == "F3"@ {
        Some(AccentType::F3)
    } else if s == "F4"@ {
        Some(AccentType::F4)
    } else if s == "F5"@ {
        Some(AccentType::F5)
    } else if s == "F6"@ {
        Some(AccentType::F6)
    } else if s == "C1"@ {
        Some(AccentType::C1)
    } else if s == "C2"@ {
        Some(AccentType::C2)
    } else if s == "C3"@ {
        Some(AccentType::C3)
    } else if s == "C4"@ {
        Some(AccentType::C4)
    } else if s == "C5"@ {
        Some(AccentType::C5)
    } else if s == "P1"@ {
        Some(AccentType::P1)
    } else if s == "P2"@ {
        Some(AccentType::P2)
    } else if s == "P6"@ {
        Some(AccentType::P6)
    } else if s == "P14"@ {
        Some(AccentType::P14)
    } else {
        None
    }
}

impl AccentType {
    /// Reads the value from its dictionary name.
    pub fn from_str(s: &str) -> (r: Result<AccentType, JPreprocessError>)
        ensures
            parsed_as(r, accent_type_of(s@), JPreprocessErrorKind::AccentRuleParseError),
    {
        if str_eq(s, "F1") {
            Ok(AccentType::F1)
        } else if str_eq(s, "F2") {
            Ok(AccentType::F2)
        } else if str_eq(s, "F3") {
            Ok(AccentType::F3)
        } else if str_eq(s, "F4") {
            Ok(AccentType::F4)
        } else if str_eq(s, "F5") {
            Ok(AccentType::F5)
        } else if str_eq(s, "F6") {
            Ok(AccentType::F6)
        } else if str_eq(s, "C1") {
            Ok(AccentType::C1)
        } else if str_eq(s, "C2") {
            Ok(AccentType::C2)
        } else if str_eq(s, "C3") {
            Ok(AccentType::C3)
        } else if str_eq(s, "C4") {
            Ok(AccentType::C4)
        } else if str_eq(s, "C5") {
            Ok(AccentType::C5)
        } else if str_eq(s, "P1") {
            Ok(AccentType::P1)
        } else if str_eq(s, "P2") {
            Ok(AccentType::P2)
        } else if str_eq(s, "P6") {
            Ok(AccentType::P6)
        } else if str_eq(s, "P14") {
            Ok(AccentType::P14)
        } else {
            Err(JPreprocessErrorKind::AccentRuleParseError.with_error())
        }
    }

    /// The dictionary name of the value.
    pub open spec fn label(self) -> Seq<char> {
        match self {
            AccentType::F1 => "F1"@,
            AccentType::F2 => "F2"@,
            AccentType::F3 => "F3"@,
            AccentType::F4 => "F4"@,
            AccentType::F5 => "F5"@,
            AccentType::F6 => "F6"@,
            AccentType::C1 => "C1"@,
            AccentType::C2 => "C2"@,
            AccentType::C3 => "C3"@,
            AccentType::C4 => "C4"@,
            AccentType::C5 => "C5"@,
            AccentType::P1 => "P1"@,
            AccentType::P2 => "P2"@,
            AccentType::P6 => "P6"@,
            AccentType::P14 => "P14"@,
        }
    }

    /// The dictionary name of the value.
    pub fn name(&self) -> (r: &'static str)
        ensures
            r@ == self.label(),
    {
        match self {
            AccentType::F1 => "F1",
            AccentType::F2 => "F2",
            AccentType::F3 => "F3",
            AccentType::F4 => "F4",
            AccentType::F5 => "F5",
            AccentType::F6 => "F6",
            AccentType::C1 => "C1",
            AccentType::C2 => "C2",
            AccentType::C3 => "C3",
            AccentType::C4 => "C4",
            AccentType::C5 => "C5",
            AccentType::P1 => "P1",
            AccentType::P2 => "P2",
            AccentType::P6 => "P6",
            AccentType::P14 => "P14",
        }
    }
}

/// The value of one decimal digit.
pub open spec fn digit_of(c: char) -> Option<int> {
    if '0' <= c && c <= '9' {
        Some((c as int) - ('0' as int))
    } else {
        None
    }
}

/// The value of a non-empty run of decimal digits.
pub open spec fn digits_value(s: Seq<char>) -> Option<int>
    decreases s.len(),
{
    if s.len() == 0 {
        None
    } else if s.len() == 1 {
        digit_of(s[0])
    } else {
        match (digits_value(s.drop_last()), digit_of(s.last())) {
            (Some(a), Some(d)) => Some(a * 10 + d),
            _ => None,
        }
    }
}

/// The integer written as an optional `-` and one to six digits.
pub open spec fn small_int_of(s: Seq<char>) -> Option<int> {
    if s.len() > 0 && s[0] == '-' {
        if s.len() <= 7 {
            match digits_value(s.skip(1)) {
                Some(v) => Some(-v),
                None => None,
            }
        } else {
            None
        }
    } else if s.len() <= 6 {
        digits_value(s)
    } else {
        None
    }
}

/// Ten to the power `n`.
pub open spec fn pow10(n: nat) -> int
    decreases n,
{
    if n == 0 {
        1
    } else {
        10 * pow10((n - 1) as nat)
    }
}

/// Reads the digits `cs[from..]` (at most six of them).
fn digits_at(cs: &Vec<char>, from: usize) -> (r: Option<i64>)
    requires
        from <= cs@.len(),
        cs@.len() - from <= 6,
    ensures
        match digits_value(cs@.skip(from as int)) {
            Some(v) => r == Some(v as i64) && 0 <= v < 1000000,
            None => r is None,
        },
{
    let n = cs.len();
    if from == n {
        return None;
    }
    let mut v: i64 = 0;
    let mut i = from;
    while i < n
        invariant
            from <= i <= n,
            n == cs@.len(),
            n - from <= 6,
            i > from ==> digits_value(cs@.subrange(from as int, i as int)) == Some(v as int),
            i == from ==> v == 0,
            0 <= v < pow10((i - from) as nat),
        decreases n - i,
    {
        let c = cs[i];
        if !('0' <= c && c <= '9') {
            proof {
                lemma_digits_none(cs@.skip(from as int), (i - from) as int);
            }
            return None;
        }
        let d = (c as u32 - '0' as u32) as i64;
        proof {
            let t = cs@.subrange(from as int, i as int + 1);
            assert(t.drop_last() =~= cs@.subrange(from as int, i as int));
            assert(t.last() == c);
            let p = pow10((i - from) as nat);
            assert(v * 10 + d < 10 * p) by (nonlinear_arith)
                requires
                    0 <= v < p,
                    0 <= d < 10,
            ;
            assert(pow10((i + 1 - from) as nat) == 10 * p);
            reveal_with_fuel(pow10, 7);
            lemma_pow10_mono((i - from) as nat, 6);
        }
        v = v * 10 + d;
        i = i + 1;
    }
    proof {
        assert(cs@.subrange(from as int, n as int) =~= cs@.skip(from as int));
        reveal_with_fuel(pow10, 7);
        assert(pow10(6) == 1000000);
        lemma_pow10_mono((n - from) as nat, 6);
    }
    Some(v)
}

/// `pow10` grows with its argument.
proof fn lemma_pow10_mono(a: nat, b: nat)
    requires
        a <= b,
    ensures
        pow10(a) <= pow10(b),
        pow10(a) >= 1,
    decreases b,
{
    if b > 0 {
        if a < b {
            lemma_pow10_mono(a, (b - 1) as nat);
        } else {
            lemma_pow10_mono((a - 1) as nat, (b - 1) as nat);
        }
    }
}

/// A run with a non-digit character somewhere has no value.
proof fn lemma_digits_none(s: Seq<char>, k: int)
    requires
        0 <= k < s.len(),
        digit_of(s[k]) is None,
    ensures
        digits_value(s) is None,
    decreases s.len(),
{
    if s.len() > 1 {
        if k < s.len() - 1 {
            lemma_digits_none(s.drop_last(), k);
        }
    }
}

/// Reads an optional `-` followed by one to six digits.
pub fn small_int(s: &str) -> (r: Option<isize>)
    ensures
        small_int_of(s@) matches Some(v) ==> -1000000 < v < 1000000,
        match small_int_of(s@) {
            Some(v) => r == Some(v as isize),
            None => r is None,
        },
{
    let cs = chars_of(s);
    let n = cs.len();
    if n > 0 && cs[0] == '-' {
        if n > 7 {
            return None;
        }
        match digits_at(&cs, 1) {
            Some(v) => Some(-(v as isize)),
            None => None,
        }
    } else {
        if n > 6 {
            return None;
        }
        proof {
            assert(cs@.skip(0) =~= cs@);
        }
        match digits_at(&cs, 0) {
            Some(v) => Some(v as isize),
            None => None,
        }
    }
}

/// One chain rule: an accent type and a shift.
#[derive(Clone, Copy, PartialEq, Eq, Debug, Structural)]
pub struct ChainRule {
    pub accent_type: AccentType,
    pub add_type: isize,
}

/// A chain rule written `TYPE` or `TYPE@SHIFT`.
pub open spec fn chain_rule_of(s: Seq<char>) -> Option<ChainRule> {
    let p = split_spec(s, '@');
    if p.len() == 1 {
        match accent_type_of(p[0]) {
            Some(t) => Some(ChainRule { accent_type: t, add_type: 0 }),
            None => None,
        }
    } else if p.len() == 2 {
        match (accent_type_of(p[0]), small_int_of(p[1])) {
            (Some(t), Some(a)) => Some(ChainRule { accent_type: t, add_type: a as isize }),
            _ => None,
        }
    } else {
        None
    }
}

impl ChainRule {
    /// Reads a chain rule written `TYPE` or `TYPE@SHIFT`.
    pub fn from_str(s: &str) -> (r: JPreprocessResult<ChainRule>)
        ensures
            parsed_as(r, chain_rule_of(s@), JPreprocessErrorKind::AccentRuleParseError),
    {
        let parts = split_chars(s, '@');
        proof {
            assert(views(parts@).len() == parts@.len());
        }
        if parts.len() == 1 {
            assert(views(parts@)[0] == parts@[0]@);
            match AccentType::from_str(parts[0].as_str()) {
                Ok(t) => Ok(ChainRule { accent_type: t, add_type: 0 }),
                Err(e) => Err(e),
            }
        } else if parts.len() == 2 {
            assert(views(parts@)[0] == parts@[0]@);
            assert(views(parts@)[1] == parts@[1]@);
            match (AccentType::from_str(parts[0].as_str()), small_int(parts[1].as_str())) {
                (Ok(t), Some(a)) => Ok(ChainRule { accent_type: t, add_type: a }),
                _ => Err(JPreprocessErrorKind::AccentRuleParseError.with_error()),
            }
        } else {
            Err(JPreprocessErrorKind::AccentRuleParseError.with_error())
        }
    }
}

/// The chain rules of a word, one for each class of the word before it.
#[derive(Clone, Copy, PartialEq, Eq, Debug, Structural)]
pub struct ChainRules {
    pub default: Option<ChainRule>,
    pub doushi: Option<ChainRule>,
    pub jodoushi: Option<ChainRule>,
    pub joshi: Option<ChainRule>,
    pub keiyoushi: Option<ChainRule>,
    pub meishi: Option<ChainRule>,
}

/// The class of the preceding word that a rule is for.
#[derive(Clone, Copy, PartialEq, Eq, Debug, Structural)]
pub enum RuleTarget {
    Default,
    Doushi,
    Jodoushi,
    Joshi,
    Keiyoushi,
    Meishi,
    Other,
}

/// The class named before `%` in a rule.
pub open spec fn target_of(s: Seq<char>) -> RuleTarget {
    if s == "動詞"@ {
        RuleTarget::Doushi
    } else if s == "助動詞"@ {
        RuleTarget::Jodoushi
    } else if s == "助詞"@ {
        RuleTarget::Joshi
    } else if s == "形容詞"@ {
        RuleTarget::Keiyoushi
    } else if s == "名詞"@ {
        RuleTarget::Meishi
    } else {
        RuleTarget::Other
    }
}

fn target(s: &str) -> (r: RuleTarget)
    ensures
        r == target_of(s@),
{
    if str_eq(s, "動詞") {
        RuleTarget::Doushi
    } else if str_eq(s, "助動詞") {
        RuleTarget::Jodoushi
    } else if str_eq(s, "助詞") {
        RuleTarget::Joshi
    } else if str_eq(s, "形容詞") {
        RuleTarget::Keiyoushi
    } else if str_eq(s, "名詞") {
        RuleTarget::Meishi
    } else {
        RuleTarget::Other
    }
}

/// One rule, written `RULE` (for any class) or `CLASS%RULE`.
pub open spec fn rule_piece_of(s: Seq<char>) -> Option<(RuleTarget, ChainRule)> {
    let p = split_spec(s, '%');
    if p.len() == 1 {
        match chain_rule_of(p[0]) {
            Some(r) => Some((RuleTarget::Default, r)),
            None => None,
        }
    } else if p.len() == 2 {
        match chain_rule_of(p[1]) {
            Some(r) => Some((target_of(p[0]), r)),
            None => None,
        }
    } else {
        None
    }
}

impl ChainRules {
    /// No rules.
    pub open spec fn none() -> ChainRules {
        ChainRules {
            default: None,
            doushi: None,
            jodoushi: None,
            joshi: None,
            keiyoushi: None,
            meishi: None,
        }
    }

    /// These rules with the rule for `t` replaced by `r`.
    pub open spec fn with_rule(self, t: RuleTarget, r: ChainRule) -> ChainRules {
        match t {
            RuleTarget::Default => ChainRules { default: Some(r), ..self },
            RuleTarget::Doushi => ChainRules { doushi: Some(r), ..self },
            RuleTarget::Jodoushi => ChainRules { jodoushi: Some(r), ..self },
            RuleTarget::Joshi => ChainRules { joshi: Some(r), ..self },
            RuleTarget::Keiyoushi => ChainRules { keiyoushi: Some(r), ..self },
            RuleTarget::Meishi => ChainRules { meishi: Some(r), ..self },
            RuleTarget::Other => self,
        }
    }
}

/// The rules written by the pieces `ps`, later pieces overriding earlier
/// ones for the same class.
pub open spec fn fold_rules(ps: Seq<Seq<char>>) -> Option<ChainRules>
    decreases ps.len(),
{
    if ps.len() == 0 {
        Some(ChainRules::none())
    } else {
        match (fold_rules(ps.drop_last()), rule_piece_of(ps.last())) {
            (Some(rs), Some((t, r))) => Some(rs.with_rule(t, r)),
            _ => None,
        }
    }
}

/// The chain rules of a dictionary field: `*` (or nothing) for none, else
/// rules separated by `/`.
pub open spec fn chain_rules_of(s: Seq<char>) -> Option<ChainRules> {
    if s == "*"@ || s.len() == 0 {
        Some(ChainRules::none())
    } else {
        fold_rules(split_spec(s, '/'))
    }
}

impl ChainRules {
    /// No rules.
    pub fn empty() -> (r: ChainRules)
        ensures
            r == ChainRules::none(),
    {
        ChainRules {
            default: None,
            doushi: None,
            jodoushi: None,
            joshi: None,
            keiyoushi: None,
            meishi: None,
        }
    }

    fn set_rule(&mut self, t: RuleTarget, r: ChainRule)
        ensures
            *final(self) == old(self).with_rule(t, r),
    {
        match t {
            RuleTarget::Default => self.default = Some(r),
            RuleTarget::Doushi => self.doushi = Some(r),
            RuleTarget::Jodoushi => self.jodoushi = Some(r),
            RuleTarget::Joshi => self.joshi = Some(r),
            RuleTarget::Keiyoushi => self.keiyoushi = Some(r),
            RuleTarget::Meishi => self.meishi = Some(r),
            RuleTarget::Other => {},
        }
    }

    /// Reads the chain rules of a dictionary field.
    pub fn from_str(s: &str) -> (r: JPreprocessResult<ChainRules>)
        ensures
            parsed_as(r, chain_rules_of(s@), JPreprocessErrorKind::AccentRuleParseError),
    {
        if str_eq(s, "*") || s.is_empty() {
            return Ok(ChainRules::empty());
        }
        let pieces = split_chars(s, '/');
        let ghost ps = views(pieces@);
        let mut rules = ChainRules::empty();
        let mut i: usize = 0;
        while i < pieces.len()
            invariant
                ps == views(pieces@),
                ps == split_spec(s@, '/'),
                !(s@ == "*"@ || s@.len() == 0),
                i <= pieces@.len(),
                fold_rules(ps.take(i as int)) == Some(rules),
            decreases pieces@.len() - i,
        {
            proof {
                assert(ps.take(i as int + 1).drop_last() =~= ps.take(i as int));
                assert(ps.take(i as int + 1).last() == pieces@[i as int]@);
            }
            let piece = pieces[i].as_str();
            let parts = split_chars(piece, '%');
            assert(views(parts@).len() == parts@.len());
            if parts.len() == 1 {
                assert(views(parts@)[0] == parts@[0]@);
                match ChainRule::from_str(parts[0].as_str()) {
                    Ok(r) => rules.set_rule(RuleTarget::Default, r),
                    Err(e) => {
                        proof {
                            lemma_fold_fails(ps, i as int);
                        }
                        return Err(e);
                    },
                }
            } else if parts.len() == 2 {
                assert(views(parts@)[0] == parts@[0]@);
                assert(views(parts@)[1] == parts@[1]@);
                match ChainRule::from_str(parts[1].as_str()) {
                    Ok(r) => {
                        let t = target(parts[0].as_str());
                        rules.set_rule(t, r);
                    },
                    Err(e) => {
                        proof {
                            lemma_fold_fails(ps, i as int);
                        }
                        return Err(e);
                    },
                }
            } else {
                proof {
                    lemma_fold_fails(ps, i as int);
                }
                return Err(JPreprocessErrorKind::AccentRuleParseError.with_error());
            }
            i = i + 1;
        }
        proof {
            assert(ps.take(i as int) =~= ps);
        }
        Ok(rules)
    }

    /// The rule for a word that follows a word of part of speech `pos`:
    /// the rule for its class if there is one, else the default rule.
    pub open spec fn spec_get_rule(self, pos: POS) -> Option<ChainRule> {
        let specific = match pos {
            POS::Doushi(_) => self.doushi,
            POS::Jodoushi => self.jodoushi,
            POS::Joshi(_) => self.joshi,
            POS::Keiyoushi(_) => self.keiyoushi,
            POS::Meishi(_) => self.meishi,
            _ => None,
        };
        if specific is Some {
            specific
        } else {
            self.default
        }
    }

    /// The rule for a word that follows a word of part of speech `pos`.
    pub fn get_rule(&self, pos: &POS) -> (r: Option<ChainRule>)
        ensures
            r == self.spec_get_rule(*pos),
    {
        let specific = match pos {
            POS::Doushi(_) => self.doushi,
            POS::Jodoushi => self.jodoushi,
            POS::Joshi(_) => self.joshi,
            POS::Keiyoushi(_) => self.keiyoushi,
            POS::Meishi(_) => self.meishi,
            _ => None,
        };
        match specific {
            Some(r) => Some(r),
            None => self.default,
        }
    }

    /// Removes every rule.
    pub fn unset(&mut self)
        ensures
            *final(self) == ChainRules::none(),
    {
        *self = ChainRules::empty();
    }
}

/// The written form of one rule: `TYPE`, or `TYPE@SHIFT` for a non-zero
/// shift.
pub open spec fn rule_text(r: ChainRule) -> Seq<char> {
    if r.add_type == 0 {
        r.accent_type.label()
    } else {
        r.accent_type.label() + "@"@ + signed_dec(r.add_type as int)
    }
}

/// The written piece for an optional rule with class prefix `prefix`.
pub open spec fn rule_piece_text(prefix: Seq<char>, r: Option<ChainRule>) -> Seq<Seq<char>> {
    match r {
        Some(x) => seq![prefix + rule_text(x)],
        None => Seq::empty(),
    }
}

/// The written pieces of the rules, the default first.
pub open spec fn rules_pieces(rs: ChainRules) -> Seq<Seq<char>> {
    rule_piece_text(Seq::empty(), rs.default) + rule_piece_text("動詞%"@, rs.doushi)
        + rule_piece_text("助動詞%"@, rs.jodoushi) + rule_piece_text("助詞%"@, rs.joshi)
        + rule_piece_text("形容詞%"@, rs.keiyoushi) + rule_piece_text("名詞%"@, rs.meishi)
}

/// The written form of the rules: `*` for none, else the pieces joined by
/// `/`.
pub open spec fn rules_text(rs: ChainRules) -> Seq<char> {
    if rules_pieces(rs).len() == 0 {
        "*"@
    } else {
        join_spec(rules_pieces(rs), '/')
    }
}

impl ChainRule {
    /// The written form of the rule.
    pub fn to_string(&self) -> (r: String)
        ensures
            r@ == rule_text(*self),
    {
        let mut s = String::from_str(self.accent_type.name());
        if self.add_type != 0 {
            s.append("@");
            push_signed_dec(&mut s, self.add_type as i64);
        }
        s
    }
}

fn push_piece(out: &mut Vec<String>, prefix: &str, r: Option<ChainRule>)
    ensures
        views(final(out)@) == views(old(out)@) + rule_piece_text(prefix@, r),
{
    match r {
        Some(x) => {
            let mut s = String::from_str(prefix);
            s.append(x.to_string().as_str());
            let ghost o = out@;
            out.push(s);
            proof {
                assert(views(out@) =~= views(o) + rule_piece_text(prefix@, r));
            }
        },
        None => {
            proof {
                assert(views(out@) =~= views(out@) + rule_piece_text(prefix@, r));
            }
        },
    }
}

impl ChainRules {
    /// The written form of the rules.
    pub fn to_string(&self) -> (r: String)
        ensures
            r@ == rules_text(*self),
    {
        let mut out: Vec<String> = Vec::new();
        proof {
            reveal_strlit("");
            assert(views(out@) =~= Seq::<Seq<char>>::empty());
        }
        push_piece(&mut out, "", self.default);
        push_piece(&mut out, "動詞%", self.doushi);
        push_piece(&mut out, "助動詞%", self.jodoushi);
        push_piece(&mut out, "助詞%", self.joshi);
        push_piece(&mut out, "形容詞%", self.keiyoushi);
        push_piece(&mut out, "名詞%", self.meishi);
        proof {
            assert(""@ =~= Seq::<char>::empty());
            assert(views(out@) =~= rules_pieces(*self));
        }
        if out.len() == 0 {
            String::from_str("*")
        } else {
            join_strings(&out, '/')
        }
    }
}

/// Once a piece fails to read, the whole list of rules fails to read.
proof fn lemma_fold_fails(ps: Seq<Seq<char>>, i: int)
    requires
        0 <= i < ps.len(),
        rule_piece_of(ps[i]) is None,
    ensures
        fold_rules(ps) is None,
    decreases ps.len(),
{
    if i < ps.len() - 1 {
        lemma_fold_fails(ps.drop_last(), i);
    }
}

} // verus!

verus! {

/// The name of every accent type reads back as that type; it holds none
/// of the separators `,` `/` `@` `%`.
pub proof fn lemma_accent_type_label_parses(t: AccentType)
    ensures
        accent_type_of(t.label()) == Some(t),
        t.label().len() >= 2,
        !has_char(t.label(), ','),
        !has_char(t.label(), '/'),
        !has_char(t.label(), '@'),
        !has_char(t.label(), '%'),
{
    reveal_strlit("F1");
    assert("F1"@.len() == 2);
    assert("F1"@[0] == 'F');
    assert("F1"@[1] == '1');
    reveal_strlit("F2");
    assert("F2"@.len() == 2);
    assert("F2"@[0] == 'F');
    assert("F2"@[1] == '2');
    reveal_strlit("F3");
    assert("F3"@.len() == 2);
    assert("F3"@[0] == 'F');
    assert("F3"@[1] == '3');
    reveal_strlit("F4");
    assert("F4"@.len() == 2);
    assert("F4"@[0] == 'F');
    assert("F4"@[1] == '4');
    reveal_strlit("F5");
    assert("F5"@.len() == 2);
    assert("F5"@[0] == 'F');
    assert("F5"@[1] == '5');
    reveal_strlit("F6");
    assert("F6"@.len() == 2);
    assert("F6"@[0] == 'F');
    assert("F6"@[1] == '6');
    reveal_strlit("C1");
    assert("C1"@.len() == 2);
    assert("C1"@[0] == 'C');
    assert("C1"@[1] == '1');
    reveal_strlit("C2");
    assert("C2"@.len() == 2);
    assert("C2"@[0] == 'C');
    assert("C2"@[1] == '2');
    reveal_strlit("C3");
    assert("C3"@.len() == 2);
    assert("C3"@[0] == 'C');
    assert("C3"@[1] == '3');
    reveal_strlit("C4");
    assert("C4"@.len() == 2);
    assert("C4"@[0] == 'C');
    assert("C4"@[1] == '4');
    reveal_strlit("C5");
    assert("C5"@.len() == 2);
    assert("C5"@[0] == 'C');
    assert("C5"@[1] == '5');
    reveal_strlit("P1");
    assert("P1"@.len() == 2);
    assert("P1"@[0] == 'P');
    assert("P1"@[1] == '1');
    reveal_strlit("P2");
    assert("P2"@.len() == 2);
    assert("P2"@[0] == 'P');
    assert("P2"@[1] == '2');
    reveal_strlit("P6");
    assert("P6"@.len() == 2);
    assert("P6"@[0] == 'P');
    assert("P6"@[1] == '6');
    reveal_strlit("P14");
    assert("P14"@.len() == 3);
    assert("P14"@[0] == 'P');
    assert("P14"@[1] == '1');
    assert("P14"@[2] == '4');
}

} // verus!

verus! {

/// The decimal form of `n` is a non-empty run of digits worth `n`, no
/// longer than `m` digits when `n` is below ten to the `m`.
proof fn lemma_dec_digits(n: nat, m: nat)
    ensures
        dec(n).len() >= 1,
        forall|i: int| 0 <= i < dec(n).len() ==> '0' <= #[trigger] dec(n)[i] && dec(n)[i] <= '9',
        digits_value(dec(n)) == Some(n as int),
        m >= 1 && n < pow10(m) ==> dec(n).len() <= m,
    decreases n,
{
    assert(digit_of(digit_char(n % 10)) == Some((n % 10) as int));
    if n >= 10 {
        let q = n / 10;
        if m >= 1 {
            lemma_dec_digits(q, (m - 1) as nat);
            if n < pow10(m) && m == 1 {
                assert(pow10(1) == 10) by {
                    reveal_with_fuel(pow10, 2);
                }
            }
            if n < pow10(m) && m >= 2 {
                assert(q < pow10((m - 1) as nat));
                lemma_pow10_mono(1, (m - 1) as nat);
            }
        } else {
            lemma_dec_digits(q, 0);
        }
        assert(dec(n) == dec(q).push(digit_char(n % 10)));
        assert(dec(n).drop_last() =~= dec(q));
        assert forall|i: int| 0 <= i < dec(n).len() implies '0' <= #[trigger] dec(n)[i] && dec(n)[i] <= '9' by {
            if i < dec(q).len() {
                assert(dec(n)[i] == dec(q)[i]);
            }
        }
    } else {
        assert(dec(n) == seq![digit_char(n)]);
    }
}

/// The decimal form of a number holds digits only, so none of the
/// separators `,` `/`.
pub proof fn lemma_dec_plain(n: nat)
    ensures
        !has_char(dec(n), ','),
        !has_char(dec(n), '/'),
{
    lemma_dec_digits(n, 0);
}

/// The decimal form of a number below a million reads back as that number;
/// it holds no sign and none of the separators `,` `/` `@` `%` `:`.
pub proof fn lemma_dec_reads_back(n: nat)
    requires
        n < 1000000,
    ensures
        small_int_of(dec(n)) == Some(n as int),
        dec(n).len() >= 1,
        dec(n)[0] != '-',
        !has_char(dec(n), ','),
        !has_char(dec(n), '/'),
        !has_char(dec(n), '@'),
        !has_char(dec(n), '%'),
        !has_char(dec(n), ':'),
{
    assert(pow10(6) == 1000000) by {
        reveal_with_fuel(pow10, 7);
    }
    lemma_dec_digits(n, 6);
    assert('0' <= dec(n)[0]);
}

/// The signed decimal form of a number above minus a million and below a
/// million reads back as that number; it holds none of the separators.
pub proof fn lemma_signed_dec_reads_back(v: int)
    requires
        -1000000 < v < 1000000,
    ensures
        small_int_of(signed_dec(v)) == Some(v),
        !has_char(signed_dec(v), ','),
        !has_char(signed_dec(v), '/'),
        !has_char(signed_dec(v), '@'),
        !has_char(signed_dec(v), '%'),
{
    if v < 0 {
        let d = dec((-v) as nat);
        lemma_dec_reads_back((-v) as nat);
        let s = seq!['-'] + d;
        assert(s.skip(1) =~= d);
        assert(d.len() <= 6) by {
            assert(pow10(6) == 1000000) by {
                reveal_with_fuel(pow10, 7);
            }
            lemma_dec_digits((-v) as nat, 6);
        }
        assert forall|c: char| c == ',' || c == '/' || c == '@' || c == '%' implies !has_char(s, c) by {
            if has_char(s, c) {
                let i = choose|i: int| 0 <= i < s.len() && s[i] == c;
                if i > 0 {
                    assert(d[i - 1] == c);
                }
            }
        }
    } else {
        lemma_dec_reads_back(v as nat);
        assert(dec(v as nat).len() <= 6) by {
            assert(pow10(6) == 1000000) by {
                reveal_with_fuel(pow10, 7);
            }
            lemma_dec_digits(v as nat, 6);
        }
    }
}

} // verus!

verus! {

/// A split of text without `c` is the text alone.
proof fn lemma_split_single(s: Seq<char>, c: char)
    requires
        !has_char(s, c),
    ensures
        split_spec(s, c) == seq![s],
{
    lemma_split_join(seq![s], c);
}

/// A rule whose shift is above minus a million and below a million reads
/// back from its written form, which holds none of `,` `/` `%`.
proof fn lemma_rule_text_reads_back(x: ChainRule)
    requires
        -1000000 < x.add_type < 1000000,
    ensures
        chain_rule_of(rule_text(x)) == Some(x),
        rule_text(x).len() >= 2,
        !has_char(rule_text(x), ','),
        !has_char(rule_text(x), '/'),
        !has_char(rule_text(x), '%'),
{
    let l = x.accent_type.label();
    lemma_accent_type_label_parses(x.accent_type);
    if x.add_type == 0 {
        lemma_split_single(l, '@');
    } else {
        let sd = signed_dec(x.add_type as int);
        lemma_signed_dec_reads_back(x.add_type as int);
        reveal_strlit("@");
        assert("@"@ =~= seq!['@']);
        assert(l + "@"@ + sd =~= join_spec(seq![l, sd], '@')) by {
            assert(seq![l, sd].drop_last() =~= seq![l]);
            assert(join_spec(seq![l], '@') == l);
            assert(join_spec(seq![l, sd], '@') == join_spec(seq![l], '@').push('@') + sd);
            assert(l + "@"@ + sd =~= l.push('@') + sd);
        }
        lemma_split_join(seq![l, sd], '@');
        assert forall|c: char| c == ',' || c == '/' || c == '%' implies !has_char(rule_text(x), c) by {
            lemma_has_char_concat(l, "@"@, c);
            lemma_has_char_concat(l + "@"@, sd, c);
            if has_char("@"@, c) {
                let i = choose|i: int| 0 <= i < 1 && "@"@[i] == c;
            }
        }
    }
}

/// A written rule piece `CLASS%RULE` (or `RULE` for the default) reads back
/// as its class and rule.
proof fn lemma_piece_reads_back(name: Seq<char>, x: ChainRule, t: RuleTarget)
    requires
        -1000000 < x.add_type < 1000000,
        name.len() == 0 ==> t == RuleTarget::Default,
        name.len() > 0 ==> !has_char(name, '%') && !has_char(name, ',') && !has_char(name, '/') && target_of(name)
            == t,
    ensures
        rule_piece_of(piece_prefix(name) + rule_text(x)) == Some((t, x)),
        piece_ok(piece_prefix(name) + rule_text(x)),
{
    lemma_rule_text_reads_back(x);
    let rt = rule_text(x);
    if name.len() == 0 {
        assert(piece_prefix(name) + rt =~= rt);
        lemma_split_single(rt, '%');
    } else {
        assert(piece_prefix(name) + rt =~= join_spec(seq![name, rt], '%')) by {
            assert(seq![name, rt].drop_last() =~= seq![name]);
            assert(join_spec(seq![name], '%') == name);
            assert(join_spec(seq![name, rt], '%') == join_spec(seq![name], '%').push('%') + rt);
        }
        lemma_split_join(seq![name, rt], '%');
        lemma_has_char_concat(name.push('%'), rt, ',');
        lemma_has_char_concat(name.push('%'), rt, '/');
        lemma_has_char_concat(name, seq!['%'], ',');
        lemma_has_char_concat(name, seq!['%'], '/');
        assert(name.push('%') =~= name + seq!['%']);
        assert(!has_char(seq!['%'], ',') && !has_char(seq!['%'], '/')) by {
            if has_char(seq!['%'], ',') {
                let i = choose|i: int| 0 <= i < 1 && seq!['%'][i] == ',';
            }
            if has_char(seq!['%'], '/') {
                let i = choose|i: int| 0 <= i < 1 && seq!['%'][i] == '/';
            }
        }
    }
}

/// A written piece that a split at `,` or `/` keeps whole, and that is
/// longer than `*`.
pub open spec fn piece_ok(p: Seq<char>) -> bool {
    !has_char(p, ',') && !has_char(p, '/') && p.len() >= 2
}

/// Appending pieces that are each whole keeps every piece whole.
proof fn lemma_pieces_ok_append(q: Seq<Seq<char>>, t: Seq<Seq<char>>)
    requires
        forall|i: int| 0 <= i < q.len() ==> piece_ok(#[trigger] q[i]),
        forall|i: int| 0 <= i < t.len() ==> piece_ok(#[trigger] t[i]),
    ensures
        forall|i: int| 0 <= i < (q + t).len() ==> piece_ok(#[trigger] (q + t)[i]),
{
    assert forall|i: int| 0 <= i < (q + t).len() implies piece_ok(#[trigger] (q + t)[i]) by {
        if i < q.len() {
            assert((q + t)[i] == q[i]);
        } else {
            assert((q + t)[i] == t[i - q.len()]);
        }
    }
}

/// The optional piece of a rule is whole.
proof fn lemma_opt_piece_ok(name: Seq<char>, r: Option<ChainRule>)
    requires
        r matches Some(x) ==> piece_ok(piece_prefix(name) + rule_text(x)),
    ensures
        forall|i: int|
            0 <= i < rule_piece_text(piece_prefix(name), r).len() ==> piece_ok(
                #[trigger] rule_piece_text(piece_prefix(name), r)[i],
            ),
{
}

/// The prefix written before a rule of the class named `name`: nothing for
/// the default rule, else the name and `%`.
pub open spec fn piece_prefix(name: Seq<char>) -> Seq<char> {
    if name.len() == 0 {
        Seq::empty()
    } else {
        name.push('%')
    }
}


/// Whether every rule's shift lies above minus a million and below a
/// million (the shifts that the written form carries).
pub open spec fn rules_writable(rs: ChainRules) -> bool {
    &&& (rs.default matches Some(x) ==> -1000000 < x.add_type < 1000000)
    &&& (rs.doushi matches Some(x) ==> -1000000 < x.add_type < 1000000)
    &&& (rs.jodoushi matches Some(x) ==> -1000000 < x.add_type < 1000000)
    &&& (rs.joshi matches Some(x) ==> -1000000 < x.add_type < 1000000)
    &&& (rs.keiyoushi matches Some(x) ==> -1000000 < x.add_type < 1000000)
    &&& (rs.meishi matches Some(x) ==> -1000000 < x.add_type < 1000000)
}

/// Reading one more optional piece after pieces that read as `acc`.
proof fn lemma_fold_opt(ps: Seq<Seq<char>>, name: Seq<char>, r: Option<ChainRule>, t: RuleTarget, acc: ChainRules)
    requires
        fold_rules(ps) == Some(acc),
        r matches Some(x) ==> rule_piece_of(piece_prefix(name) + rule_text(x)) == Some((t, x)),
    ensures
        fold_rules(ps + rule_piece_text(piece_prefix(name), r)) == Some(
            match r {
                Some(x) => acc.with_rule(t, x),
                None => acc,
            },
        ),
{
    match r {
        Some(x) => {
            let q = ps + rule_piece_text(piece_prefix(name), r);
            assert(q.drop_last() =~= ps);
            assert(q.last() == piece_prefix(name) + rule_text(x));
        },
        None => {
            assert(ps + rule_piece_text(piece_prefix(name), r) =~= ps);
        },
    }
}

/// A join is at least as long as its last piece.
proof fn lemma_join_len(ps: Seq<Seq<char>>, sep: char)
    requires
        ps.len() >= 1,
    ensures
        join_spec(ps, sep).len() >= ps.last().len(),
{
}

/// The class names of rule pieces: none holds a separator, and each names
/// its class.
proof fn lemma_class_names()
    ensures
        target_of("動詞"@) == RuleTarget::Doushi,
        target_of("助動詞"@) == RuleTarget::Jodoushi,
        target_of("助詞"@) == RuleTarget::Joshi,
        target_of("形容詞"@) == RuleTarget::Keiyoushi,
        target_of("名詞"@) == RuleTarget::Meishi,
        forall|c: char|
            c == '%' || c == ',' || c == '/' ==> !has_char("動詞"@, c) && !has_char("助動詞"@, c) && !has_char(
                "助詞"@,
                c,
            ) && !has_char("形容詞"@, c) && !has_char("名詞"@, c),
        "動詞"@.len() > 0 && "助動詞"@.len() > 0 && "助詞"@.len() > 0 && "形容詞"@.len() > 0 && "名詞"@.len() > 0,
{
    reveal_strlit("動詞");
    reveal_strlit("助動詞");
    reveal_strlit("助詞");
    reveal_strlit("形容詞");
    reveal_strlit("名詞");
    assert("動詞"@[0] == '動' && "助動詞"@[0] == '助' && "助動詞"@[1] == '動' && "助詞"@[0] == '助' && "助詞"@[1]
        == '詞' && "形容詞"@[0] == '形' && "名詞"@[0] == '名');
    assert forall|c: char| c == '%' || c == ',' || c == '/' implies !has_char("動詞"@, c) && !has_char("助動詞"@, c)
        && !has_char("助詞"@, c) && !has_char("形容詞"@, c) && !has_char("名詞"@, c) by {
        assert(!has_char("動詞"@, c));
        assert(!has_char("助動詞"@, c));
        assert(!has_char("助詞"@, c));
        assert(!has_char("形容詞"@, c));
        assert(!has_char("名詞"@, c));
    }
}

/// Rules whose shifts fit the written form read back from it, and the
/// written form holds no comma.
pub proof fn lemma_rules_text_reads_back(rs: ChainRules)
    requires
        rules_writable(rs),
    ensures
        chain_rules_of(rules_text(rs)) == Some(rs),
        !has_char(rules_text(rs), ','),
{
    lemma_class_names();
    reveal_strlit("動詞%");
    reveal_strlit("動詞");
    reveal_strlit("助動詞%");
    reveal_strlit("助動詞");
    reveal_strlit("助詞%");
    reveal_strlit("助詞");
    reveal_strlit("形容詞%");
    reveal_strlit("形容詞");
    reveal_strlit("名詞%");
    reveal_strlit("名詞");
    reveal_strlit("*");
    assert("動詞%"@ =~= piece_prefix("動詞"@));
    assert("助動詞%"@ =~= piece_prefix("助動詞"@));
    assert("助詞%"@ =~= piece_prefix("助詞"@));
    assert("形容詞%"@ =~= piece_prefix("形容詞"@));
    assert("名詞%"@ =~= piece_prefix("名詞"@));
    assert(piece_prefix(Seq::<char>::empty()) == Seq::<char>::empty());
    if let Some(x) = rs.default {
        lemma_piece_reads_back(Seq::empty(), x, RuleTarget::Default);
    }
    if let Some(x) = rs.doushi {
        lemma_piece_reads_back("動詞"@, x, RuleTarget::Doushi);
    }
    if let Some(x) = rs.jodoushi {
        lemma_piece_reads_back("助動詞"@, x, RuleTarget::Jodoushi);
    }
    if let Some(x) = rs.joshi {
        lemma_piece_reads_back("助詞"@, x, RuleTarget::Joshi);
    }
    if let Some(x) = rs.keiyoushi {
        lemma_piece_reads_back("形容詞"@, x, RuleTarget::Keiyoushi);
    }
    if let Some(x) = rs.meishi {
        lemma_piece_reads_back("名詞"@, x, RuleTarget::Meishi);
    }
    let a = rule_piece_text(piece_prefix(Seq::empty()), rs.default);
    let b = rule_piece_text(piece_prefix("動詞"@), rs.doushi);
    let c = rule_piece_text(piece_prefix("助動詞"@), rs.jodoushi);
    let d = rule_piece_text(piece_prefix("助詞"@), rs.joshi);
    let e = rule_piece_text(piece_prefix("形容詞"@), rs.keiyoushi);
    let f = rule_piece_text(piece_prefix("名詞"@), rs.meishi);
    let ps = rules_pieces(rs);
    assert(ps == a + b + c + d + e + f);
    lemma_fold_opt(Seq::empty(), Seq::empty(), rs.default, RuleTarget::Default, ChainRules::none());
    assert(Seq::<Seq<char>>::empty() + a =~= a);
    let r1 = ChainRules { default: rs.default, ..ChainRules::none() };
    lemma_fold_opt(a, "動詞"@, rs.doushi, RuleTarget::Doushi, r1);
    let r2 = ChainRules { doushi: rs.doushi, ..r1 };
    lemma_fold_opt(a + b, "助動詞"@, rs.jodoushi, RuleTarget::Jodoushi, r2);
    let r3 = ChainRules { jodoushi: rs.jodoushi, ..r2 };
    lemma_fold_opt(a + b + c, "助詞"@, rs.joshi, RuleTarget::Joshi, r3);
    let r4 = ChainRules { joshi: rs.joshi, ..r3 };
    lemma_fold_opt(a + b + c + d, "形容詞"@, rs.keiyoushi, RuleTarget::Keiyoushi, r4);
    let r5 = ChainRules { keiyoushi: rs.keiyoushi, ..r4 };
    lemma_fold_opt(a + b + c + d + e, "名詞"@, rs.meishi, RuleTarget::Meishi, r5);
    assert(fold_rules(ps) == Some(rs));
    lemma_opt_piece_ok(Seq::empty(), rs.default);
    lemma_opt_piece_ok("動詞"@, rs.doushi);
    lemma_opt_piece_ok("助動詞"@, rs.jodoushi);
    lemma_opt_piece_ok("助詞"@, rs.joshi);
    lemma_opt_piece_ok("形容詞"@, rs.keiyoushi);
    lemma_opt_piece_ok("名詞"@, rs.meishi);
    lemma_pieces_ok_append(a, b);
    lemma_pieces_ok_append(a + b, c);
    lemma_pieces_ok_append(a + b + c, d);
    lemma_pieces_ok_append(a + b + c + d, e);
    lemma_pieces_ok_append(a + b + c + d + e, f);
    assert forall|i: int| 0 <= i < ps.len() implies !has_char(#[trigger] ps[i], ',') && !has_char(ps[i], '/')
        && ps[i].len() >= 2 by {
        assert(piece_ok(ps[i]));
    }
    if ps.len() == 0 {
        assert(rs == ChainRules::none());
        assert(!has_char("*"@, ','));
    } else {
        lemma_split_join(ps, '/');
        lemma_join_no_char(ps, '/', ',');
        lemma_join_len(ps, '/');
        assert(ps.last() == ps[ps.len() - 1]);
    }
}

} // verus!
