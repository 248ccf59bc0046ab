//! Accent nucleus positions of accent phrases: the accent of a phrase's
//! first word is recomputed word by word from the chain rules of the words
//! that join it, and numerals get the accents of spoken numbers.

use vstd::prelude::*;

use crate::accent_rule::{AccentType, ChainRule};
use crate::njd::NJD;
use crate::node::{node_views, DetailsView, NJDNode, NodeView};
use crate::pronunciation::mora_count;
use crate::text::str_eq;

verus! {

pub const ICHI: &'static str = "一";
pub const NI: &'static str = "二";
pub const SAN: &'static str = "三";
pub const YON: &'static str = "四";
pub const GO: &'static str = "五";
pub const ROKU: &'static str = "六";
pub const NANA: &'static str = "七";
pub const HACHI: &'static str = "八";
pub const KYUU: &'static str = "九";
pub const JYUU: &'static str = "十";
pub const HYAKU: &'static str = "百";
pub const SEN: &'static str = "千";
pub const MAN: &'static str = "万";
pub const OKU: &'static str = "億";
pub const CHOU: &'static str = "兆";
pub const NAN: &'static str = "何";
pub const IKU: &'static str = "幾";

/// The number of sounded morae of a word.
pub open spec fn word_moras(n: NodeView) -> nat {
    mora_count(n.details.moras)
}

/// The accent of the first word of a phrase once `node` joins the phrase
/// after `prev`, where the phrase so far has `mora_size` morae and its
/// first word has accent `top_acc`: what the chain rule of `node` for the
/// part of speech of `prev` says, or `top_acc` when it has none.
pub open spec fn top_node_acc(node: NodeView, prev: NodeView, top_acc: nat, mora_size: nat) -> nat {
    let node_acc = node.details.accent;
    match node.details.chain_rule.spec_get_rule(prev.details.pos) {
        None => top_acc,
        Some(rule) => {
            let shifted = (((mora_size as isize) + rule.add_type) as usize) as nat;
            match rule.accent_type {
                AccentType::F1 => top_acc,
                AccentType::F2 => if top_acc == 0 {
                    shifted
                } else {
                    top_acc
                },
                AccentType::F3 => if top_acc != 0 {
                    shifted
                } else {
                    top_acc
                },
                AccentType::F4 => shifted,
                AccentType::F5 => 0,
                AccentType::C1 => mora_size + node_acc,
                AccentType::C2 => mora_size + 1,
                AccentType::C3 => mora_size,
                AccentType::C4 => 0,
                AccentType::C5 => top_acc,
                AccentType::P1 => if top_acc == 0 {
                    0
                } else {
                    mora_size + node_acc
                },
                AccentType::P2 => if top_acc == 0 {
                    0
                } else {
                    mora_size + node_acc
                },
                AccentType::P6 => 0,
                AccentType::P14 => if top_acc != 0 {
                    mora_size + node_acc
                } else {
                    top_acc
                },
                _ => top_acc,
            }
        },
    }
}

/// `s` is one of the numerals 一 to 九.
pub open spec fn is_one_to_nine(s: Seq<char>) -> bool {
    s == ICHI@ || s == NI@ || s == SAN@ || s == YON@ || s == GO@ || s == ROKU@ || s == NANA@ || s == HACHI@
        || s == KYUU@
}

/// The accent of the numeral `prev` when the numeral `current` (and then
/// `next`, if there is a word after it) follows it, where spoken numbers
/// fix one.
pub open spec fn digit_acc(prev: NodeView, current: NodeView, next: Option<NodeView>) -> Option<nat> {
    let p = prev.string;
    let c = current.string;
    if (p == GO@ || p == ROKU@ || p == HACHI@) && c == JYUU@ && (next matches Some(nx) && is_one_to_nine(
        nx.string,
    )) {
        Some(0)
    } else if c == JYUU@ {
        Some(1)
    } else if p == NANA@ && c == HYAKU@ {
        Some(2)
    } else if (p == SAN@ || p == YON@ || p == KYUU@ || p == NAN@) && c == HYAKU@ {
        Some(1)
    } else if c == HYAKU@ {
        Some(word_moras(prev) + word_moras(current))
    } else if c == SEN@ || c == MAN@ {
        Some(word_moras(prev) + 1)
    } else if (p == ICHI@ || p == ROKU@ || p == NANA@ || p == HACHI@ || p == IKU@) && c == OKU@ {
        Some(2)
    } else if c == OKU@ {
        Some(1)
    } else if (p == ROKU@ || p == NANA@) && c == CHOU@ {
        Some(2)
    } else if c == CHOU@ {
        Some(1)
    } else {
        None
    }
}

/// `n` with accent `a`.
pub open spec fn with_accent(n: NodeView, a: nat) -> NodeView {
    NodeView { details: DetailsView { accent: a, ..n.details }, ..n }
}

/// `ns` with the accent of word `i` set to `a`, when there is one.
pub open spec fn set_acc(ns: Seq<NodeView>, i: int, a: Option<nat>) -> Seq<NodeView> {
    match a {
        Some(v) => ns.update(i, with_accent(ns[i], v)),
        None => ns,
    }
}

/// The state of the pass after some words: the words, the position of the
/// first word of the current phrase, and the morae of the phrase so far.
pub type AccentState = (Seq<NodeView>, int, nat);

/// One step of the pass, for word `i`: a word that starts a phrase (the
/// first word, or one not chained) resets the phrase (and a 十 before a
/// numeral gets accent 0); a chained word recomputes the accent of the
/// phrase's first word and, between numerals, the accent of the word
/// before it.
pub open spec fn accent_step(st: AccentState, i: int) -> AccentState {
    let (ns, top, ms) = st;
    let cur = ns[i];
    let next = if i + 1 < ns.len() {
        Some(ns[i + 1])
    } else {
        None
    };
    if i == 0 || cur.details.chain_flag != Some(true) {
        let cur_acc = if cur.string == JYUU@ && (next matches Some(nx) && nx.details.pos.spec_is_kazu()) {
            Some(0nat)
        } else {
            None
        };
        (set_acc(ns, i, cur_acc), i, word_moras(cur))
    } else {
        let prev = ns[i - 1];
        let top_acc = top_node_acc(cur, prev, ns[top].details.accent, ms);
        let prev_acc = if prev.details.pos.spec_is_kazu() && cur.details.pos.spec_is_kazu() {
            digit_acc(prev, cur, next)
        } else {
            None
        };
        (set_acc(set_acc(ns, top, Some(top_acc)), i - 1, prev_acc), top, ms + word_moras(cur))
    }
}

/// The state after the first `k` words.
pub open spec fn accent_run(ns: Seq<NodeView>, k: nat) -> AccentState
    decreases k,
{
    if k == 0 {
        (ns, 0, 0)
    } else {
        accent_step(accent_run(ns, (k - 1) as nat), k - 1)
    }
}

/// The words after the accent type pass.
pub open spec fn accent_typed(ns: Seq<NodeView>) -> Seq<NodeView> {
    accent_run(ns, ns.len()).0
}

/// The sums that the accent of a phrase's first word takes, when `node`
/// joins the phrase after `prev`, fit the machine: the phrase's morae plus
/// the rule's shift (as `isize`), the morae plus the word's accent, or the
/// morae plus one, each where the rule computes it.
pub open spec fn top_sums_fit(node: NodeView, prev: NodeView, top_acc: nat, mora_size: nat) -> bool {
    match node.details.chain_rule.spec_get_rule(prev.details.pos) {
        None => true,
        Some(rule) => {
            let add_ok = isize::MIN <= (mora_size as isize) + rule.add_type <= isize::MAX;
            let acc_ok = mora_size + node.details.accent <= usize::MAX;
            match rule.accent_type {
                AccentType::F2 => top_acc == 0 ==> add_ok,
                AccentType::F3 => top_acc != 0 ==> add_ok,
                AccentType::F4 => add_ok,
                AccentType::C1 => acc_ok,
                AccentType::C2 => mora_size + 1 <= usize::MAX,
                AccentType::P1 => top_acc != 0 ==> acc_ok,
                AccentType::P2 => top_acc != 0 ==> acc_ok,
                AccentType::P14 => top_acc != 0 ==> acc_ok,
                _ => true,
            }
        },
    }
}

/// The sums that the accent of the numeral `prev` before `current` takes
/// fit the machine, where it is computed.
pub open spec fn digit_sums_fit(prev: NodeView, current: NodeView, next: Option<NodeView>) -> bool {
    let p = prev.string;
    let c = current.string;
    if (p == GO@ || p == ROKU@ || p == HACHI@) && c == JYUU@ && (next matches Some(nx) && is_one_to_nine(
        nx.string,
    )) {
        true
    } else if c == JYUU@ {
        true
    } else if p == NANA@ && c == HYAKU@ {
        true
    } else if (p == SAN@ || p == YON@ || p == KYUU@ || p == NAN@) && c == HYAKU@ {
        true
    } else if c == HYAKU@ {
        word_moras(prev) + word_moras(current) <= usize::MAX
    } else if c == SEN@ || c == MAN@ {
        word_moras(prev) + 1 <= usize::MAX
    } else {
        true
    }
}

/// The sums that step `i` of the pass forms fit the machine: the morae of
/// the phrase with the word added, and the accents it computes.
pub open spec fn step_fits(st: AccentState, i: int) -> bool {
    let (ns, top, ms) = st;
    let cur = ns[i];
    if i == 0 || cur.details.chain_flag != Some(true) {
        word_moras(cur) <= usize::MAX
    } else {
        let prev = ns[i - 1];
        let next = if i + 1 < ns.len() {
            Some(ns[i + 1])
        } else {
            None
        };
        &&& ms + word_moras(cur) <= usize::MAX
        &&& top_sums_fit(cur, prev, ns[top].details.accent, ms)
        &&& (prev.details.pos.spec_is_kazu() && cur.details.pos.spec_is_kazu() ==> digit_sums_fit(prev, cur, next))
    }
}

/// Every sum that the pass forms over `ns` fits the machine.
pub open spec fn accent_inputs_bounded(ns: Seq<NodeView>) -> bool {
    forall|i: int| 0 <= i < ns.len() ==> #[trigger] step_fits(accent_run(ns, i as nat), i)
}

/// The pass changes accents only: strings, morae and all else stay, and
/// the phrase start never lies ahead of the current word.
proof fn lemma_run_shape(ns: Seq<NodeView>, k: nat)
    requires
        k <= ns.len(),
    ensures
        accent_run(ns, k).0.len() == ns.len(),
        k > 0 ==> 0 <= accent_run(ns, k).1 < k,
        k == 0 ==> accent_run(ns, k).1 == 0,
        forall|j: int|
            0 <= j < ns.len() ==> (#[trigger] accent_run(ns, k).0[j]).string == ns[j].string
                && accent_run(ns, k).0[j].details == (DetailsView { accent: accent_run(ns, k).0[j].details.accent, ..ns[j].details }),
        forall|j: int| k <= j < ns.len() ==> #[trigger] accent_run(ns, k).0[j] == ns[j],
    decreases k,
{
    if k > 0 {
        lemma_run_shape(ns, (k - 1) as nat);
    }
}

/// The accent of the first word of the phrase once `node` joins it, or
/// `None` where a sum it takes does not fit the machine.
fn calc_top_node_acc(node: &NJDNode, prev: &NJDNode, top_node: &NJDNode, mora_size: usize) -> (r: Option<usize>)
    ensures
        r is Some <==> top_sums_fit(node@, prev@, top_node@.details.accent, mora_size as nat),
        r matches Some(v) ==> v == top_node_acc(node@, prev@, top_node@.details.accent, mora_size as nat),
{
    let node_acc = node.get_pron().accent();
    let top_node_acc = top_node.get_pron().accent();
    let rule: ChainRule = match node.get_chain_rule().get_rule(prev.get_pos()) {
        Some(r) => r,
        None => {
            return Some(top_node_acc);
        },
    };
    let shifted = (mora_size as isize).checked_add(rule.add_type);
    let with_acc = mora_size.checked_add(node_acc);
    match rule.accent_type {
        AccentType::F1 => Some(top_node_acc),
        AccentType::F2 => if top_node_acc == 0 {
            match shifted {
                Some(v) => Some(v as usize),
                None => None,
            }
        } else {
            Some(top_node_acc)
        },
        AccentType::F3 => if top_node_acc != 0 {
            match shifted {
                Some(v) => Some(v as usize),
                None => None,
            }
        } else {
            Some(top_node_acc)
        },
        AccentType::F4 => match shifted {
            Some(v) => Some(v as usize),
            None => None,
        },
        AccentType::F5 => Some(0),
        AccentType::C1 => with_acc,
        AccentType::C2 => mora_size.checked_add(1),
        AccentType::C3 => Some(mora_size),
        AccentType::C4 => Some(0),
        AccentType::C5 => Some(top_node_acc),
        AccentType::P1 => if top_node_acc == 0 {
            Some(0)
        } else {
            with_acc
        },
        AccentType::P2 => if top_node_acc == 0 {
            Some(0)
        } else {
            with_acc
        },
        AccentType::P6 => Some(0),
        AccentType::P14 => if top_node_acc != 0 {
            with_acc
        } else {
            Some(top_node_acc)
        },
        _ => Some(top_node_acc),
    }
}

fn is_one_to_nine_exec(s: &str) -> (r: bool)
    ensures
        r == is_one_to_nine(s@),
{
    str_eq(s, ICHI) || str_eq(s, NI) || str_eq(s, SAN) || str_eq(s, YON) || str_eq(s, GO) || str_eq(s, ROKU)
        || str_eq(s, NANA) || str_eq(s, HACHI) || str_eq(s, KYUU)
}

/// The view of a word that may be missing.
pub open spec fn opt_view(o: Option<&NJDNode>) -> Option<NodeView> {
    match o {
        Some(n) => Some(n@),
        None => None,
    }
}

/// The accent of the numeral `prev` before the numeral `current`, or
/// `Err` where a sum it takes does not fit the machine.
fn calc_digit_acc(prev: &NJDNode, current: &NJDNode, next: Option<&NJDNode>) -> (r: Result<Option<usize>, ()>)
    ensures
        r is Ok <==> digit_sums_fit(prev@, current@, opt_view(next)),
        match r {
            Ok(Some(v)) => digit_acc(prev@, current@, opt_view(next)) == Some(v as nat),
            Ok(None) => digit_acc(prev@, current@, opt_view(next)) is None,
            Err(_) => true,
        },
{
    let p = prev.get_string();
    let c = current.get_string();
    let next_ok = match next {
        Some(nx) => is_one_to_nine_exec(nx.get_string()),
        None => false,
    };
    if (str_eq(p, GO) || str_eq(p, ROKU) || str_eq(p, HACHI)) && str_eq(c, JYUU) && next_ok {
        Ok(Some(0))
    } else if str_eq(c, JYUU) {
        Ok(Some(1))
    } else if str_eq(p, NANA) && str_eq(c, HYAKU) {
        Ok(Some(2))
    } else if (str_eq(p, SAN) || str_eq(p, YON) || str_eq(p, KYUU) || str_eq(p, NAN)) && str_eq(c, HYAKU) {
        Ok(Some(1))
    } else if str_eq(c, HYAKU) {
        match prev.get_pron().mora_size().checked_add(current.get_pron().mora_size()) {
            Some(v) => Ok(Some(v)),
            None => Err(()),
        }
    } else if str_eq(c, SEN) || str_eq(c, MAN) {
        match prev.get_pron().mora_size().checked_add(1) {
            Some(v) => Ok(Some(v)),
            None => Err(()),
        }
    } else if (str_eq(p, ICHI) || str_eq(p, ROKU) || str_eq(p, NANA) || str_eq(p, HACHI) || str_eq(p, IKU))
        && str_eq(c, OKU) {
        Ok(Some(2))
    } else if str_eq(c, OKU) {
        Ok(Some(1))
    } else if (str_eq(p, ROKU) || str_eq(p, NANA)) && str_eq(c, CHOU) {
        Ok(Some(2))
    } else if str_eq(c, CHOU) {
        Ok(Some(1))
    } else {
        Ok(None)
    }
}

/// Sets the accent of word `i`; nothing else changes.
fn set_node_accent(nodes: &mut Vec<NJDNode>, i: usize, a: usize)
    requires
        i < old(nodes)@.len(),
    ensures
        final(nodes)@.len() == old(nodes)@.len(),
        node_views(final(nodes)@) == node_views(old(nodes)@).update(i as int, with_accent(old(nodes)@[i as int]@, a as nat)),
{
    nodes[i].get_pron_mut().set_accent(a);
    proof {
        assert(node_views(nodes@) =~= node_views(old(nodes)@).update(i as int, with_accent(old(nodes)@[i as int]@, a as nat)));
    }
}

/// A step whose sums do not fit makes the whole pass not fit.
proof fn lemma_step_fails(ns: Seq<NodeView>, i: int)
    requires
        0 <= i < ns.len(),
        !step_fits(accent_run(ns, i as nat), i),
    ensures
        !accent_inputs_bounded(ns),
{
}

/// Runs the accent type pass while every sum it forms fits the machine;
/// returns whether they all did (and then the words are the pass's result).
fn accent_type_checked(njd: &mut NJD) -> (ok: bool)
    ensures
        ok == accent_inputs_bounded(old(njd)@),
        ok ==> final(njd)@ == accent_typed(old(njd)@),
{
    let ghost ns0 = njd@;
    let n = njd.nodes.len();
    if n == 0 {
        proof {
            assert(njd@ =~= accent_typed(ns0));
        }
        return true;
    }
    let mut top_node_i: usize = 0;
    let mut mora_size: usize = 0;
    let mut i: usize = 0;
    while i < n
        invariant
            n == njd.nodes@.len(),
            n == ns0.len(),
            ns0 == old(njd)@,
            i <= n,
            forall|j: int| 0 <= j < i ==> #[trigger] step_fits(accent_run(ns0, j as nat), j),
            accent_run(ns0, i as nat) == (njd@, top_node_i as int, mora_size as nat),
        decreases n - i,
    {
        proof {
            lemma_run_shape(ns0, i as nat);
            assert(njd@[i as int] == ns0[i as int]);
        }
        let ghost st = (njd@, top_node_i as int, mora_size as nat);
        let mut top_acc: Option<usize> = None;
        let mut prev_acc: Option<usize> = None;
        let mut current_acc: Option<usize> = None;
        let cur_moras = njd.nodes[i].get_pron().mora_size();
        if i == 0 || njd.nodes[i].get_chain_flag() != Some(true) {
            top_node_i = i;
            mora_size = 0;
            if str_eq(njd.nodes[i].get_string(), JYUU) && i + 1 < n && njd.nodes[i + 1].get_pos().is_kazu() {
                current_acc = Some(0);
            }
        } else {
            let next: Option<&NJDNode> = if i + 1 < n {
                Some(&njd.nodes[i + 1])
            } else {
                None
            };
            proof {
                assert(opt_view(next) == (if i + 1 < n { Some(njd@[i + 1]) } else { None::<NodeView> }));
            }
            match calc_top_node_acc(&njd.nodes[i], &njd.nodes[i - 1], &njd.nodes[top_node_i], mora_size) {
                Some(a) => {
                    top_acc = Some(a);
                },
                None => {
                    proof {
                        lemma_step_fails(ns0, i as int);
                    }
                    return false;
                },
            }
            if njd.nodes[i - 1].get_pos().is_kazu() && njd.nodes[i].get_pos().is_kazu() {
                match calc_digit_acc(&njd.nodes[i - 1], &njd.nodes[i], next) {
                    Ok(a) => {
                        prev_acc = a;
                    },
                    Err(_) => {
                        proof {
                            lemma_step_fails(ns0, i as int);
                        }
                        return false;
                    },
                }
            }
        }
        match mora_size.checked_add(cur_moras) {
            Some(m) => {
                mora_size = m;
            },
            None => {
                proof {
                    lemma_step_fails(ns0, i as int);
                }
                return false;
            },
        }
        proof {
            assert(step_fits(accent_run(ns0, i as nat), i as int));
        }
        if let Some(a) = top_acc {
            set_node_accent(&mut njd.nodes, top_node_i, a);
        }
        if let Some(a) = prev_acc {
            set_node_accent(&mut njd.nodes, i - 1, a);
        }
        if let Some(a) = current_acc {
            set_node_accent(&mut njd.nodes, i, a);
        }
        proof {
            let nx = if i + 1 < n { Some(st.0[i + 1]) } else { None::<NodeView> };
            assert(accent_step(st, i as int) == (njd@, top_node_i as int, mora_size as nat));
        }
        i = i + 1;
    }
    true
}

/// Whether every sum that the accent type pass forms over the words fits
/// the machine (see `accent_inputs_bounded`); the words are not changed.
pub fn accent_inputs_fit(njd: &NJD) -> (r: bool)
    ensures
        r == accent_inputs_bounded(njd@),
{
    let mut nodes: Vec<NJDNode> = Vec::new();
    let mut i: usize = 0;
    while i < njd.nodes.len()
        invariant
            i <= njd.nodes@.len(),
            node_views(nodes@) == node_views(njd.nodes@).take(i as int),
        decreases njd.nodes@.len() - i,
    {
        let c = njd.nodes[i].clone();
        assert(c@ == njd.nodes@[i as int]@);
        let ghost before = nodes@;
        nodes.push(c);
        proof {
            assert(node_views(nodes@) =~= node_views(before).push(c@));
            assert(node_views(nodes@) =~= node_views(njd.nodes@).take(i as int + 1));
        }
        i = i + 1;
    }
    proof {
        assert(node_views(njd.nodes@).take(i as int) =~= node_views(njd.nodes@));
    }
    let mut scratch = NJD { nodes };
    accent_type_checked(&mut scratch)
}

/// Sets the accent of each accent phrase and of numerals.
pub fn njd_set_accent_type(njd: &mut NJD)
    requires
        accent_inputs_bounded(old(njd)@),
    ensures
        final(njd)@ == accent_typed(old(njd)@),
{
    accent_type_checked(njd);
}

} // verus!

verus! {

/// The accent type pass changes nothing but accents: every word keeps its
/// string and all its other details, and the number of words stays.
pub proof fn lemma_accent_type_keeps(ns: Seq<NodeView>)
    ensures
        accent_typed(ns).len() == ns.len(),
        forall|j: int|
            0 <= j < ns.len() ==> (#[trigger] accent_typed(ns)[j]).string == ns[j].string
                && accent_typed(ns)[j].details == (DetailsView { accent: accent_typed(ns)[j].details.accent, ..ns[j].details }),
{
    lemma_run_shape(ns, ns.len());
}

} // verus!
