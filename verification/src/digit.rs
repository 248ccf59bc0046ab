//! Numbers: digit words are normalized, a decimal point between numerals
//! is read テン, digits before counter words and counter words after
//! digits take their spoken forms, and some dates get their special
//! readings.

use vstd::prelude::*;

use crate::digit_table::{
    class1_lookup, class1_pron, class2_lookup, class2_type, class3_lookup, class3_pron, digit_normal,
    digit_normal_lookup, in_class3, in_class3_exec, DigitType,
};
use crate::mora::{Mora, MoraEnum};
use crate::njd::{audible, NJD};
use crate::node::{contains_char, node_views, reset_node, single_of, DetailsView, NJDNode, NodeView};
use crate::pos::{Meishi, Setsubi, POS};
use crate::pronunciation::{moras_plain, Pronunciation};
use crate::set_pronunciation::{voiced_moras, with_pron};
use crate::text::{has_char, str_eq};

verus! {

pub const TEN_FEATURE: &'static str = "．,名詞,接尾,助数詞,*,*,*,．,テン,テン,0/2,*,-1";
pub const ZERO1: &'static str = "〇";
pub const ZERO2: &'static str = "０";
pub const TWO: &'static str = "二";
pub const FIVE: &'static str = "五";
pub const SIX: &'static str = "六";
pub const NICHI: &'static str = "日";
pub const NICHIKAN: &'static str = "日間";
pub const ONE: &'static str = "一";
pub const TSUITACHI: &'static str = "一日,名詞,副詞可能,*,*,*,*,一日,ツイタチ,ツイタチ,4/4,*";
pub const FOUR: &'static str = "四";
pub const TEN: &'static str = "十";
pub const JUYOKKA: &'static str = "十四日,名詞,副詞可能,*,*,*,*,十四日,ジュウヨッカ,ジューヨッカ,1/5,*";
pub const JUYOKKAKAN: &'static str = "十四日間,名詞,副詞可能,*,*,*,*,十四日間,ジュウヨッカカン,ジューヨッカカン,5/7,*";
pub const NIJU: &'static str = "二十,名詞,副詞可能,*,*,*,*,二十,ニジュウ,ニジュー,1/3,*";
pub const YOKKA: &'static str = "四日,名詞,副詞可能,*,*,*,*,四日,ヨッカ,ヨッカ,0/3,*,0";
pub const YOKKAKAN: &'static str = "四日間,名詞,副詞可能,*,*,*,*,四日間,ヨッカカン,ヨッカカン,3/5,*,0";
pub const HATSUKA: &'static str = "二十日,名詞,副詞可能,*,*,*,*,二十日,ハツカ,ハツカ,0/3,*";
pub const HATSUKAKAN: &'static str = "二十日間,名詞,副詞可能,*,*,*,*,二十日間,ハツカカン,ハツカカン,3/5,*";

/// A decimal point: `．` or `・`.
pub open spec fn spec_is_period(s: Seq<char>) -> bool {
    s == "．"@ || s == "・"@
}

/// Whether `s` is a decimal point.
pub fn is_period(s: &str) -> (r: bool)
    ensures
        r == spec_is_period(s@),
{
    str_eq(s, "．") || str_eq(s, "・")
}

/// A numeral word (名詞,数).
pub open spec fn kazu(n: NodeView) -> bool {
    n.details.pos.spec_is_kazu()
}

/// A numeral word with its string in normal form.
pub open spec fn normalized_node(n: NodeView) -> NodeView {
    if n.string != "*"@ && kazu(n) {
        match digit_normal(n.string) {
            Some(v) => NodeView { string: v, ..n },
            None => n,
        }
    } else {
        n
    }
}

/// Puts the string of a numeral word in normal form; returns whether it
/// changed it.
pub fn normalize_digit(node: &mut NJDNode) -> (r: bool)
    ensures
        final(node)@ == normalized_node(old(node)@),
        r == (old(node)@.string != "*"@ && kazu(old(node)@) && digit_normal(old(node)@.string) is Some),
{
    if !str_eq(node.get_string(), "*") && node.get_pos().is_kazu() {
        if let Some(replace) = digit_normal_lookup(node.get_string()) {
            node.replace_string(replace);
            return true;
        }
    }
    false
}

/// `ns` with word `i` replaced by the word of the CSV line `csv`, when that
/// line reads to one word.
pub open spec fn replaced(ns: Seq<NodeView>, i: int, csv: Seq<char>) -> Seq<NodeView> {
    match single_of(csv) {
        Some(n) => ns.update(i, n),
        None => ns,
    }
}

/// `n` with chain flag `f`.
pub open spec fn with_chain(n: NodeView, f: bool) -> NodeView {
    NodeView { details: DetailsView { chain_flag: Some(f), ..n.details }, ..n }
}

/// `n` with its first mora turned by `t`.
pub open spec fn first_converted(n: NodeView, t: DigitType) -> NodeView {
    if n.details.moras.len() == 0 {
        n
    } else {
        let m = n.details.moras[0];
        let e = match t {
            DigitType::Voiced => m.mora_enum.spec_voiced(),
            DigitType::SemiVoiced => m.mora_enum.spec_semivoiced(),
        };
        NodeView {
            details: DetailsView { moras: n.details.moras.update(0, Mora { mora_enum: e, ..m }), ..n.details },
            ..n
        }
    }
}

/// Where the decimal-point pass stands.
#[derive(Clone, Copy, PartialEq, Eq, Debug, Structural)]
pub enum SkipState {
    Disabled,
    IfMeishi,
    Skipping,
}

/// The reading of a numeral right before a decimal point.
pub open spec fn before_point(prev: NodeView) -> Option<(Seq<MoraEnum>, nat)> {
    if prev.string == ZERO1@ || prev.string == ZERO2@ {
        Some((seq![MoraEnum::Re, MoraEnum::Long], 1))
    } else if prev.string == TWO@ {
        Some((seq![MoraEnum::Ni, MoraEnum::Long], 1))
    } else if prev.string == FIVE@ {
        Some((seq![MoraEnum::Go, MoraEnum::Long], 1))
    } else if prev.string == SIX@ {
        Some((seq![MoraEnum::Ro, MoraEnum::Ku], 1))
    } else {
        None
    }
}

/// One step of the decimal-point pass at word `t`: a period between two
/// numerals becomes テン chained to the numeral before it, which takes its
/// reading before a point; the word after it is then skipped, and so are
/// the 名詞 that follow.
pub open spec fn period_step(st: (Seq<NodeView>, SkipState), t: int) -> (Seq<NodeView>, SkipState) {
    let (ns, skip) = st;
    if !(1 <= t && t + 1 < ns.len()) {
        st
    } else {
        match skip {
            SkipState::IfMeishi => (ns, SkipState::Skipping),
            SkipState::Skipping => if ns[t].details.pos is Meishi {
                (ns, SkipState::Skipping)
            } else {
                (ns, SkipState::Disabled)
            },
            SkipState::Disabled => {
                let prev = ns[t - 1];
                let node = ns[t];
                let next = ns[t + 1];
                if node.string.len() > 0 && prev.string.len() > 0 && spec_is_period(node.string) && kazu(prev)
                    && kazu(next) {
                    let ten = match single_of(TEN_FEATURE@) {
                        Some(x) => x,
                        None => node,
                    };
                    let ns1 = ns.update(t, with_chain(ten, true));
                    let ns2 = match before_point(prev) {
                        Some((ms, a)) => ns1.update(t - 1, with_pron(prev, voiced_moras(ms), a)),
                        None => ns1,
                    };
                    (ns2, SkipState::IfMeishi)
                } else {
                    (ns, SkipState::Disabled)
                }
            },
        }
    }
}

/// The decimal-point pass over the first `k` words.
pub open spec fn period_run(ns: Seq<NodeView>, k: nat) -> (Seq<NodeView>, SkipState)
    decreases k,
{
    if k == 0 {
        (ns, SkipState::Disabled)
    } else {
        period_step(period_run(ns, (k - 1) as nat), k - 1)
    }
}

/// A counter word (名詞,副詞可能 or 名詞,接尾,助数詞).
pub open spec fn is_counter(n: NodeView) -> bool {
    n.details.pos == POS::Meishi(Meishi::FukushiKanou) || n.details.pos == POS::Meishi(
        Meishi::Setsubi(Setsubi::Josuushi),
    )
}

/// One step of the counter pass at word `t`: a numeral before a counter
/// word takes its reading before that counter, the counter's first mora
/// may become voiced or semi-voiced, and the counter is chained to the
/// numeral (which starts a phrase).
pub open spec fn counter_step(ns: Seq<NodeView>, t: int) -> Seq<NodeView> {
    if 1 <= t < ns.len() && kazu(ns[t - 1]) && is_counter(ns[t]) {
        let prev = ns[t - 1];
        let node = ns[t];
        let ns1 = match class1_pron(node.string, prev.string) {
            Some((ms, a)) => ns.update(t - 1, with_pron(prev, voiced_moras(ms), a)),
            None => ns,
        };
        let ns2 = match class2_type(node.string, prev.string) {
            Some(ty) => ns1.update(t, first_converted(ns1[t], ty)),
            None => ns1,
        };
        ns2.update(t - 1, with_chain(ns2[t - 1], false)).update(t, with_chain(ns2[t], true))
    } else {
        ns
    }
}

/// The counter pass over the first `k` words.
pub open spec fn counter_run(ns: Seq<NodeView>, k: nat) -> Seq<NodeView>
    decreases k,
{
    if k == 0 {
        ns
    } else {
        counter_step(counter_run(ns, (k - 1) as nat), k - 1)
    }
}

/// One step of the native-reading pass at word `t`, for a numeral not
/// after another numeral and before a counter word: before a counter of
/// table 3 with the reading that the table names, the numeral takes the
/// native reading of the digit; 一 before 日 right after a word holding 月
/// becomes the date word 一日 (ツイタチ), and the 日 is dropped.
pub open spec fn native_step(ns: Seq<NodeView>, t: int) -> Seq<NodeView> {
    if 0 <= t && t + 1 < ns.len() {
        let node = ns[t];
        let next = ns[t + 1];
        let read = match next.details.read {
            Some(r) => r,
            None => "*"@,
        };
        if next.string.len() > 0 && kazu(node) && !(t > 0 && kazu(ns[t - 1])) && is_counter(next) {
            let ns1 = if in_class3(next.string, read) {
                match class3_pron(node.string) {
                    Some((ms, a)) => ns.update(
                        t,
                        NodeView {
                            details: DetailsView {
                                read: Some(moras_plain(voiced_moras(ms))),
                                moras: voiced_moras(ms),
                                accent: a,
                                ..node.details
                            },
                            ..node
                        },
                    ),
                    None => ns,
                }
            } else {
                ns
            };
            if next.string == NICHI@ && t > 0 && has_char(ns[t - 1].string, '月') && node.string == ONE@ {
                replaced(ns1, t, TSUITACHI@).update(t + 1, reset_node())
            } else {
                ns1
            }
        } else {
            ns
        }
    } else {
        ns
    }
}

/// The native-reading pass over the first `k` words.
pub open spec fn native_run(ns: Seq<NodeView>, k: nat) -> Seq<NodeView>
    decreases k,
{
    if k == 0 {
        ns
    } else {
        native_step(native_run(ns, (k - 1) as nat), k - 1)
    }
}

/// One step of the date pass at word `t`, which needs two words after it
/// and no numeral before it: 十四日, 十四日間, 二十日, 二十日間, 二十四日 and
/// 二十四日間 written as separate words are joined into the date words.
pub open spec fn date_step(ns: Seq<NodeView>, t: int) -> Seq<NodeView> {
    if 0 <= t && t + 2 < ns.len() && (t == 0 || !kazu(ns[t - 1])) {
        let a = ns[t].string;
        let b = ns[t + 1].string;
        let c = ns[t + 2].string;
        let d = if t + 3 < ns.len() {
            Some(ns[t + 3].string)
        } else {
            None
        };
        if a == TEN@ && b == FOUR@ && c == NICHI@ {
            replaced(ns, t, JUYOKKA@).update(t + 1, reset_node()).update(t + 2, reset_node())
        } else if a == TEN@ && b == FOUR@ && c == NICHIKAN@ {
            replaced(ns, t, JUYOKKAKAN@).update(t + 1, reset_node()).update(t + 2, reset_node())
        } else if a == TWO@ && b == TEN@ && c == NICHI@ {
            replaced(ns, t, HATSUKA@).update(t + 1, reset_node()).update(t + 2, reset_node())
        } else if a == TWO@ && b == TEN@ && c == NICHIKAN@ {
            replaced(ns, t, HATSUKAKAN@).update(t + 1, reset_node()).update(t + 2, reset_node())
        } else if a == TWO@ && b == TEN@ && c == FOUR@ && d == Some(NICHI@) {
            replaced(replaced(ns, t, NIJU@), t + 1, YOKKA@).update(t + 2, reset_node()).update(t + 3, reset_node())
        } else if a == TWO@ && b == TEN@ && c == FOUR@ && d == Some(NICHIKAN@) {
            replaced(replaced(ns, t, NIJU@), t + 1, YOKKAKAN@).update(t + 2, reset_node()).update(
                t + 3,
                reset_node(),
            )
        } else {
            ns
        }
    } else {
        ns
    }
}

/// The date pass over the first `k` words.
pub open spec fn date_run(ns: Seq<NodeView>, k: nat) -> Seq<NodeView>
    decreases k,
{
    if k == 0 {
        ns
    } else {
        date_step(date_run(ns, (k - 1) as nat), k - 1)
    }
}

/// Whether any word is a numeral.
pub open spec fn has_kazu(ns: Seq<NodeView>) -> bool {
    exists|i: int| 0 <= i < ns.len() && kazu(#[trigger] ns[i])
}

/// The words after the number pass.
pub open spec fn digit_set(ns: Seq<NodeView>) -> Seq<NodeView> {
    let n0 = Seq::new(ns.len(), |i: int| normalized_node(ns[i]));
    if !has_kazu(ns) {
        n0
    } else {
        let n1 = audible(n0);
        let n2 = period_run(n1, n1.len()).0;
        let n3 = counter_run(n2, n2.len());
        let n4 = native_run(n3, n3.len());
        let n5 = if n4.len() > 2 {
            date_run(n4, n4.len())
        } else {
            n4
        };
        audible(n5)
    }
}

/// The reading of a numeral right before a decimal point.
fn before_point_lookup(s: &str) -> (r: Option<(&'static [MoraEnum], usize)>)
    ensures
        match r {
            Some((ms, a)) => before_point_str(s@) == Some((ms@, a as nat)),
            None => before_point_str(s@) is None,
        },
{
    if str_eq(s, ZERO1) || str_eq(s, ZERO2) {
        Some((&[MoraEnum::Re, MoraEnum::Long], 1))
    } else if str_eq(s, TWO) {
        Some((&[MoraEnum::Ni, MoraEnum::Long], 1))
    } else if str_eq(s, FIVE) {
        Some((&[MoraEnum::Go, MoraEnum::Long], 1))
    } else if str_eq(s, SIX) {
        Some((&[MoraEnum::Ro, MoraEnum::Ku], 1))
    } else {
        None
    }
}

/// The reading of a numeral with string `s` right before a decimal point.
pub open spec fn before_point_str(s: Seq<char>) -> Option<(Seq<MoraEnum>, nat)> {
    before_point(NodeView { string: s, details: crate::node::default_details() })
}

/// The pronunciation of the voiced morae `ms` with accent `a`.
fn voiced_pron(ms: &[MoraEnum], a: usize) -> (r: Pronunciation)
    ensures
        r.moras@ == voiced_moras(ms@),
        r.accent == a,
{
    let p = Pronunciation::from_enums(ms, a);
    proof {
        assert(p.moras@ =~= voiced_moras(ms@));
    }
    p
}

fn nonempty(s: &str) -> (r: bool)
    ensures
        r == (s@.len() > 0),
{
    s.unicode_len() > 0
}

/// Replaces word `i` by the word of the CSV line `csv`, when that line
/// reads to one word.
fn replace_at(nodes: &mut Vec<NJDNode>, i: usize, csv: &str)
    requires
        i < old(nodes)@.len(),
    ensures
        final(nodes)@.len() == old(nodes)@.len(),
        node_views(final(nodes)@) == replaced(node_views(old(nodes)@), i as int, csv@),
{
    if let Some(n) = NJDNode::try_single(csv) {
        nodes.set(i, n);
    }
    proof {
        assert(node_views(nodes@) =~= replaced(node_views(old(nodes)@), i as int, csv@));
    }
}

/// Resets word `i`.
fn reset_at(nodes: &mut Vec<NJDNode>, i: usize)
    requires
        i < old(nodes)@.len(),
    ensures
        final(nodes)@.len() == old(nodes)@.len(),
        node_views(final(nodes)@) == node_views(old(nodes)@).update(i as int, reset_node()),
{
    nodes[i].reset();
    proof {
        assert(node_views(nodes@) =~= node_views(old(nodes)@).update(i as int, reset_node()));
    }
}

fn period_at(njd: &mut NJD, t: usize, skip: SkipState) -> (r: SkipState)
    requires
        t < old(njd).nodes@.len(),
    ensures
        final(njd).nodes@.len() == old(njd).nodes@.len(),
        (final(njd)@, r) == period_step((old(njd)@, skip), t as int),
{
    let n = njd.nodes.len();
    if !(t >= 1 && n - t > 1) {
        return skip;
    }
    match skip {
        SkipState::IfMeishi => SkipState::Skipping,
        SkipState::Skipping => if matches!(njd.nodes[t].get_pos(), POS::Meishi(_)) {
            SkipState::Skipping
        } else {
            SkipState::Disabled
        },
        SkipState::Disabled => {
            let ok = nonempty(njd.nodes[t].get_string()) && nonempty(njd.nodes[t - 1].get_string()) && is_period(
                njd.nodes[t].get_string(),
            ) && njd.nodes[t - 1].get_pos().is_kazu() && njd.nodes[t + 1].get_pos().is_kazu();
            if ok {
                let ghost ns = njd@;
                let ghost prev = ns[t - 1];
                let bp = before_point_lookup(njd.nodes[t - 1].get_string());
                proof {
                    assert(before_point_str(prev.string) == before_point(prev));
                }
                let ten = match NJDNode::try_single(TEN_FEATURE) {
                    Some(x) => x,
                    None => njd.nodes[t].clone(),
                };
                njd.nodes.set(t, ten);
                njd.nodes[t].set_chain_flag(true);
                let ghost mid = njd@;
                proof {
                    assert(mid =~= ns.update(t as int, with_chain(ten@, true)));
                }
                if let Some((ms, a)) = bp {
                    njd.nodes[t - 1].set_pron(voiced_pron(ms, a));
                    proof {
                        assert(njd@ =~= mid.update(t - 1, with_pron(prev, voiced_moras(ms@), a as nat)));
                    }
                }
                SkipState::IfMeishi
            } else {
                SkipState::Disabled
            }
        },
    }
}

fn counter_at(njd: &mut NJD, t: usize)
    requires
        t < old(njd).nodes@.len(),
    ensures
        final(njd).nodes@.len() == old(njd).nodes@.len(),
        final(njd)@ == counter_step(old(njd)@, t as int),
{
    if t == 0 || !njd.nodes[t - 1].get_pos().is_kazu() {
        return;
    }
    let p = *njd.nodes[t].get_pos();
    if !(p == POS::Meishi(Meishi::FukushiKanou) || p == POS::Meishi(Meishi::Setsubi(Setsubi::Josuushi))) {
        return;
    }
    let ghost ns = njd@;
    if let Some((ms, a)) = class1_lookup(njd.nodes[t].get_string(), njd.nodes[t - 1].get_string()) {
        njd.nodes[t - 1].set_pron(voiced_pron(ms, a));
        proof {
            assert(njd@ =~= ns.update(t - 1, with_pron(ns[t - 1], voiced_moras(ms@), a as nat)));
        }
    }
    let ghost ns1 = njd@;
    match class2_lookup(njd.nodes[t].get_string(), njd.nodes[t - 1].get_string()) {
        Some(DigitType::Voiced) => {
            njd.nodes[t].get_pron_mut().convert_first_to_voiced();
            proof {
                assert(njd@ =~= ns1.update(t as int, first_converted(ns1[t as int], DigitType::Voiced)));
            }
        },
        Some(DigitType::SemiVoiced) => {
            njd.nodes[t].get_pron_mut().convert_first_to_semivoiced();
            proof {
                assert(njd@ =~= ns1.update(t as int, first_converted(ns1[t as int], DigitType::SemiVoiced)));
            }
        },
        None => {},
    }
    let ghost ns2 = njd@;
    njd.nodes[t - 1].set_chain_flag(false);
    njd.nodes[t].set_chain_flag(true);
    proof {
        assert(njd@ =~= ns2.update(t - 1, with_chain(ns2[t - 1], false)).update(t as int, with_chain(ns2[t as int], true)));
    }
}

fn native_at(njd: &mut NJD, t: usize)
    requires
        t < old(njd).nodes@.len(),
    ensures
        final(njd).nodes@.len() == old(njd).nodes@.len(),
        final(njd)@ == native_step(old(njd)@, t as int),
{
    let n = njd.nodes.len();
    if n - t <= 1 {
        return;
    }
    let ghost ns = njd@;
    let next = &njd.nodes[t + 1];
    let read = match next.get_read() {
        Some(r) => r,
        None => "*",
    };
    let np = *next.get_pos();
    let ok = nonempty(next.get_string()) && njd.nodes[t].get_pos().is_kazu() && !(t > 0
        && njd.nodes[t - 1].get_pos().is_kazu()) && (np == POS::Meishi(Meishi::FukushiKanou) || np == POS::Meishi(
        Meishi::Setsubi(Setsubi::Josuushi),
    ));
    if !ok {
        return;
    }
    let class3 = in_class3_exec(next.get_string(), read);
    let first_of_month = str_eq(next.get_string(), NICHI) && t > 0 && contains_char(
        njd.nodes[t - 1].get_string(),
        '月',
    ) && str_eq(njd.nodes[t].get_string(), ONE);
    if class3 {
        if let Some((ms, a)) = class3_lookup(njd.nodes[t].get_string()) {
            let pron = voiced_pron(ms, a);
            let rs = pron.to_pure_string();
            njd.nodes[t].set_read(rs.as_str());
            njd.nodes[t].set_pron(pron);
            proof {
                let node = ns[t as int];
                assert(njd@ =~= ns.update(
                    t as int,
                    NodeView {
                        details: DetailsView {
                            read: Some(moras_plain(voiced_moras(ms@))),
                            moras: voiced_moras(ms@),
                            accent: a as nat,
                            ..node.details
                        },
                        ..node
                    },
                ));
            }
        }
    }
    if first_of_month {
        replace_at(&mut njd.nodes, t, TSUITACHI);
        reset_at(&mut njd.nodes, t + 1);
    }
}

fn date_at(njd: &mut NJD, t: usize)
    requires
        t < old(njd).nodes@.len(),
    ensures
        final(njd).nodes@.len() == old(njd).nodes@.len(),
        final(njd)@ == date_step(old(njd)@, t as int),
{
    let n = njd.nodes.len();
    if n - t <= 2 || (t > 0 && njd.nodes[t - 1].get_pos().is_kazu()) {
        return;
    }
    let a = njd.nodes[t].get_string();
    let b = njd.nodes[t + 1].get_string();
    let c = njd.nodes[t + 2].get_string();
    let has_d = n - t > 3;
    let d_nichi = has_d && str_eq(njd.nodes[t + 3].get_string(), NICHI);
    let d_nichikan = has_d && str_eq(njd.nodes[t + 3].get_string(), NICHIKAN);
    if str_eq(a, TEN) && str_eq(b, FOUR) && str_eq(c, NICHI) {
        replace_at(&mut njd.nodes, t, JUYOKKA);
        reset_at(&mut njd.nodes, t + 1);
        reset_at(&mut njd.nodes, t + 2);
    } else if str_eq(a, TEN) && str_eq(b, FOUR) && str_eq(c, NICHIKAN) {
        replace_at(&mut njd.nodes, t, JUYOKKAKAN);
        reset_at(&mut njd.nodes, t + 1);
        reset_at(&mut njd.nodes, t + 2);
    } else if str_eq(a, TWO) && str_eq(b, TEN) && str_eq(c, NICHI) {
        replace_at(&mut njd.nodes, t, HATSUKA);
        reset_at(&mut njd.nodes, t + 1);
        reset_at(&mut njd.nodes, t + 2);
    } else if str_eq(a, TWO) && str_eq(b, TEN) && str_eq(c, NICHIKAN) {
        replace_at(&mut njd.nodes, t, HATSUKAKAN);
        reset_at(&mut njd.nodes, t + 1);
        reset_at(&mut njd.nodes, t + 2);
    } else if str_eq(a, TWO) && str_eq(b, TEN) && str_eq(c, FOUR) && d_nichi {
        replace_at(&mut njd.nodes, t, NIJU);
        replace_at(&mut njd.nodes, t + 1, YOKKA);
        reset_at(&mut njd.nodes, t + 2);
        reset_at(&mut njd.nodes, t + 3);
    } else if str_eq(a, TWO) && str_eq(b, TEN) && str_eq(c, FOUR) && d_nichikan {
        replace_at(&mut njd.nodes, t, NIJU);
        replace_at(&mut njd.nodes, t + 1, YOKKAKAN);
        reset_at(&mut njd.nodes, t + 2);
        reset_at(&mut njd.nodes, t + 3);
    }
}

/// Reads numbers (see `digit_set`).
pub fn njd_set_digit(njd: &mut NJD)
    ensures
        final(njd)@ == digit_set(old(njd)@),
{
    let ghost ns0 = njd@;
    let mut find = false;
    let n = njd.nodes.len();
    let mut i: usize = 0;
    while i < n
        invariant
            n == ns0.len(),
            njd.nodes@.len() == n,
            i <= n,
            forall|j: int| 0 <= j < i ==> #[trigger] njd@[j] == normalized_node(ns0[j]),
            forall|j: int| i <= j < n ==> #[trigger] njd@[j] == ns0[j],
            find == exists|j: int| 0 <= j < i && kazu(#[trigger] ns0[j]),
        decreases n - i,
    {
        let ghost before = njd@;
        let ghost bnodes = njd.nodes@;
        assert(before[i as int] == ns0[i as int]);
        if njd.nodes[i].get_pos().is_kazu() {
            find = true;
        }
        normalize_digit(&mut njd.nodes[i]);
        proof {
            assert(njd.nodes@ == bnodes.update(i as int, njd.nodes@[i as int]));
            assert(njd.nodes@[i as int]@ == normalized_node(bnodes[i as int]@));
            assert(njd@ =~= before.update(i as int, normalized_node(ns0[i as int])));
            assert(kazu(ns0[i as int]) == kazu(before[i as int]));
        }
        i = i + 1;
    }
    proof {
        assert(njd@ =~= Seq::new(ns0.len(), |i: int| normalized_node(ns0[i])));
    }
    if !find {
        return;
    }
    njd.remove_silent_node();
    let ghost n1 = njd@;
    let n = njd.nodes.len();
    let mut skip = SkipState::Disabled;
    let mut t: usize = 0;
    while t < n
        invariant
            n == n1.len(),
            njd.nodes@.len() == n,
            t <= n,
            period_run(n1, t as nat) == (njd@, skip),
        decreases n - t,
    {
        skip = period_at(njd, t, skip);
        t = t + 1;
    }
    let ghost n2 = njd@;
    let mut t: usize = 0;
    while t < n
        invariant
            n == n2.len(),
            njd.nodes@.len() == n,
            t <= n,
            counter_run(n2, t as nat) == njd@,
        decreases n - t,
    {
        counter_at(njd, t);
        t = t + 1;
    }
    let ghost n3 = njd@;
    let mut t: usize = 0;
    while t < n
        invariant
            n == n3.len(),
            njd.nodes@.len() == n,
            t <= n,
            native_run(n3, t as nat) == njd@,
        decreases n - t,
    {
        native_at(njd, t);
        t = t + 1;
    }
    let ghost n4 = njd@;
    if n > 2 {
        let mut t: usize = 0;
        while t < n
            invariant
                n == n4.len(),
                njd.nodes@.len() == n,
                t <= n,
                date_run(n4, t as nat) == njd@,
            decreases n - t,
        {
            date_at(njd, t);
            t = t + 1;
        }
    }
    njd.remove_silent_node();
}


/// The counter pass keeps every word's string and part of speech, and
/// leaves the words from `k` on as they were.
proof fn lemma_counter_shape(ns: Seq<NodeView>, k: nat)
    requires
        k <= ns.len(),
    ensures
        counter_run(ns, k).len() == ns.len(),
        forall|j: int|
            0 <= j < ns.len() ==> (#[trigger] counter_run(ns, k)[j]).string == ns[j].string && counter_run(
                ns,
                k,
            )[j].details.pos == ns[j].details.pos,
        forall|j: int| k <= j < ns.len() ==> #[trigger] counter_run(ns, k)[j] == ns[j],
    decreases k,
{
    if k > 0 {
        lemma_counter_shape(ns, (k - 1) as nat);
    }
}

/// The steps from `k` on leave the words before `k - 1` as they are.
proof fn lemma_counter_tail(ns: Seq<NodeView>, k: nat, j: int)
    requires
        0 <= j,
        j + 1 < k <= ns.len(),
    ensures
        counter_run(ns, ns.len())[j] == counter_run(ns, k)[j],
    decreases ns.len() - k,
{
    if k < ns.len() {
        lemma_counter_shape(ns, k);
        lemma_counter_tail(ns, k + 1, j);
    }
}

/// A numeral 四 right before the counter word 年 or 円 (名詞,接尾,助数詞)
/// is read ヨ with accent 0 (四年 is read ヨネン, 四円 ヨエン), and starts a
/// phrase that the counter joins; this holds wherever the two stand among
/// any other words.
pub proof fn lemma_four_before_nen_reads_yo(ns: Seq<NodeView>, t: int)
    requires
        1 <= t < ns.len(),
        kazu(ns[t - 1]),
        ns[t - 1].string == "四"@,
        ns[t].string == "年"@ || ns[t].string == "円"@,
        ns[t].details.pos == POS::Meishi(Meishi::Setsubi(Setsubi::Josuushi)),
    ensures
        counter_run(ns, ns.len())[t - 1].details.moras == seq![Mora { mora_enum: MoraEnum::Yo, is_voiced: true }],
        counter_run(ns, ns.len())[t - 1].details.accent == 0,
        counter_run(ns, ns.len())[t - 1].details.chain_flag == Some(false),
        counter_run(ns, ns.len())[t].details.chain_flag == Some(true),
{
    lemma_counter_shape(ns, t as nat);
    let s0 = counter_run(ns, t as nat);
    assert(s0[t] == ns[t]);
    assert(s0[t - 1].string == ns[t - 1].string && s0[t - 1].details.pos == ns[t - 1].details.pos);
    assert(class1_pron(s0[t].string, s0[t - 1].string) == Some((seq![MoraEnum::Yo], 0nat)));
    let s1 = counter_run(ns, (t + 1) as nat);
    assert(s1 == counter_step(s0, t));
    assert(voiced_moras(seq![MoraEnum::Yo]) =~= seq![Mora { mora_enum: MoraEnum::Yo, is_voiced: true }]);
    assert(s1[t - 1].details.moras == seq![Mora { mora_enum: MoraEnum::Yo, is_voiced: true }]);
    if t + 1 < ns.len() {
        lemma_counter_shape(ns, (t + 1) as nat);
        let s2 = counter_run(ns, (t + 2) as nat);
        assert(s2 == counter_step(s1, t + 1));
        assert(!kazu(s1[t]));
        assert(s2[t] == s1[t]);
        assert(s2[t - 1] == s1[t - 1]);
        if t + 2 < ns.len() {
            lemma_counter_tail(ns, (t + 2) as nat, t - 1);
            lemma_counter_tail(ns, (t + 2) as nat, t);
        }
    }
}

} // verus!
