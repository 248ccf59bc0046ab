//! Accent phrase boundaries: whether each word is chained to the word
//! before it into one accent phrase.
//!
//! The rules, in order of precedence (the first that applies decides):
//! 18 a 接尾 word is chained; 17 a 名 after a 名詞 is not; 16 a 名詞 after a
//! 姓 is not; 15 a 接頭詞 is not; 14 a 記号 is on its own; 13 a 動詞,
//! 形容詞 or 形容動詞語幹 after a 名詞 is not; 12 a 動詞,非自立 after a 連用
//! 動詞 is; 11 a 形容詞,非自立 after a 連用 動詞 or 形容詞, or after the
//! 接続助詞 て or で, is; 10 a 名詞 after a 接尾 is not; 8 a 助詞 or 助動詞
//! joins the word before it; 9 a word after one is not chained unless it is
//! one itself; 7 a 名詞,副詞可能 and 6 a 副詞, 接続詞 or 連体詞 are on their
//! own; 5 a 形容詞 or 名詞 after a 動詞 is not chained; 4 nor a 名詞 after a
//! 形容動詞語幹; 3 nor a 名詞 after a 形容詞; 2 名詞 sequences and 1
//! anything else are chained.

use vstd::prelude::*;

use crate::njd::NJD;
use crate::node::{node_views, DetailsView, NJDNode, NodeView};
use crate::pos::{Doushi, Joshi, Keiyoushi, KoyuMeishi, Meishi, Person, POS};
use crate::text::str_eq;
use crate::window::{IterQuintMut, Quintuple};

verus! {

/// The connective particle て.
pub const TE: &'static str = "て";
/// The connective particle で.
pub const DE: &'static str = "で";

/// A 接尾 word of 形容詞, 動詞 or 名詞.
pub open spec fn is_setsubi(p: POS) -> bool {
    p == POS::Keiyoushi(Keiyoushi::Setsubi) || p == POS::Doushi(Doushi::Setsubi) || p matches POS::Meishi(
        Meishi::Setsubi(_),
    )
}

/// An auxiliary word: 助詞 or 助動詞.
pub open spec fn is_fuzokugo(p: POS) -> bool {
    p is Jodoushi || p is Joshi
}

/// A word that stands as an accent phrase of its own: 副詞, 接続詞, 連体詞.
pub open spec fn is_standalone(p: POS) -> bool {
    p is Fukushi || p is Setsuzokushi || p is Rentaishi
}

/// Whether a word of part of speech `cp` is chained to the word before it,
/// which has part of speech `pp`, is in a 連用 form when `prev_renyou`, and
/// has the surface string `prev_str`.
pub open spec fn chain_flag_of(pp: POS, prev_renyou: bool, prev_str: Seq<char>, cp: POS) -> bool {
    if is_setsubi(cp) {
        true
    } else if pp is Meishi && cp == POS::Meishi(Meishi::KoyuMeishi(KoyuMeishi::Person(Person::Mei))) {
        false
    } else if pp == POS::Meishi(Meishi::KoyuMeishi(KoyuMeishi::Person(Person::Sei))) && cp is Meishi {
        false
    } else if cp is Settoushi {
        false
    } else if pp is Kigou || cp is Kigou {
        false
    } else if pp is Meishi && (cp is Doushi || cp is Keiyoushi || cp == POS::Meishi(Meishi::KeiyoudoushiGokan)) {
        false
    } else if pp is Doushi && cp == POS::Doushi(Doushi::Hijiritsu) && prev_renyou {
        true
    } else if (pp is Doushi || pp is Keiyoushi) && cp == POS::Keiyoushi(Keiyoushi::Hijiritsu) && prev_renyou {
        true
    } else if pp == POS::Joshi(Joshi::SetsuzokuJoshi) && cp == POS::Keiyoushi(Keiyoushi::Hijiritsu) && (prev_str
        == TE@ || prev_str == DE@) {
        true
    } else if is_setsubi(pp) && cp is Meishi {
        false
    } else if is_fuzokugo(pp) {
        is_fuzokugo(cp)
    } else if is_fuzokugo(cp) {
        true
    } else if pp == POS::Meishi(Meishi::FukushiKanou) || cp == POS::Meishi(Meishi::FukushiKanou) {
        false
    } else if is_standalone(pp) || is_standalone(cp) {
        false
    } else if pp is Doushi && (cp is Keiyoushi || cp is Meishi) {
        false
    } else if pp == POS::Meishi(Meishi::KeiyoudoushiGokan) && cp is Meishi {
        false
    } else if pp is Keiyoushi && cp is Meishi {
        false
    } else {
        true
    }
}

/// Whether `node` is chained to `prev`.
pub open spec fn chain_between(prev: NodeView, node: NodeView) -> bool {
    chain_flag_of(prev.details.pos, prev.details.cform.spec_is_renyou(), prev.string, node.details.pos)
}

/// The words after the accent phrase pass: every word but the first whose
/// chain flag is unknown gets the flag that the rules give it.
pub open spec fn accent_phrased(ns: Seq<NodeView>) -> Seq<NodeView> {
    Seq::new(
        ns.len(),
        |i: int|
            if i > 0 && ns[i].details.chain_flag is None {
                NodeView {
                    details: DetailsView { chain_flag: Some(chain_between(ns[i - 1], ns[i])), ..ns[i].details },
                    ..ns[i]
                }
            } else {
                ns[i]
            },
    )
}

fn is_setsubi_exec(p: &POS) -> (r: bool)
    ensures
        r == is_setsubi(*p),
{
    match p {
        POS::Keiyoushi(Keiyoushi::Setsubi) | POS::Doushi(Doushi::Setsubi) | POS::Meishi(Meishi::Setsubi(_)) => true,
        _ => false,
    }
}

fn is_fuzokugo_exec(p: &POS) -> (r: bool)
    ensures
        r == is_fuzokugo(*p),
{
    match p {
        POS::Jodoushi | POS::Joshi(_) => true,
        _ => false,
    }
}

fn is_standalone_exec(p: &POS) -> (r: bool)
    ensures
        r == is_standalone(*p),
{
    match p {
        POS::Fukushi(_) | POS::Setsuzokushi | POS::Rentaishi => true,
        _ => false,
    }
}

/// Whether `node` is chained to `prev`.
pub fn chain_flag(prev: &NJDNode, node: &NJDNode) -> (r: bool)
    ensures
        r == chain_between(prev@, node@),
{
    let pp = *prev.get_pos();
    let cp = *node.get_pos();
    let renyou = prev.is_renyou();
    let p_meishi = matches!(pp, POS::Meishi(_));
    let c_meishi = matches!(cp, POS::Meishi(_));
    if is_setsubi_exec(&cp) {
        true
    } else if p_meishi && cp == POS::Meishi(Meishi::KoyuMeishi(KoyuMeishi::Person(Person::Mei))) {
        false
    } else if pp == POS::Meishi(Meishi::KoyuMeishi(KoyuMeishi::Person(Person::Sei))) && c_meishi {
        false
    } else if matches!(cp, POS::Settoushi(_)) {
        false
    } else if matches!(pp, POS::Kigou(_)) || matches!(cp, POS::Kigou(_)) {
        false
    } else if p_meishi && (matches!(cp, POS::Doushi(_)) || matches!(cp, POS::Keiyoushi(_)) || cp == POS::Meishi(
        Meishi::KeiyoudoushiGokan,
    )) {
        false
    } else if matches!(pp, POS::Doushi(_)) && cp == POS::Doushi(Doushi::Hijiritsu) && renyou {
        true
    } else if (matches!(pp, POS::Doushi(_)) || matches!(pp, POS::Keiyoushi(_))) && cp == POS::Keiyoushi(
        Keiyoushi::Hijiritsu,
    ) && renyou {
        true
    } else if pp == POS::Joshi(Joshi::SetsuzokuJoshi) && cp == POS::Keiyoushi(Keiyoushi::Hijiritsu) && (str_eq(
        prev.get_string(),
        TE,
    ) || str_eq(prev.get_string(), DE)) {
        true
    } else if is_setsubi_exec(&pp) && c_meishi {
        false
    } else if is_fuzokugo_exec(&pp) {
        is_fuzokugo_exec(&cp)
    } else if is_fuzokugo_exec(&cp) {
        true
    } else if pp == POS::Meishi(Meishi::FukushiKanou) || cp == POS::Meishi(Meishi::FukushiKanou) {
        false
    } else if is_standalone_exec(&pp) || is_standalone_exec(&cp) {
        false
    } else if matches!(pp, POS::Doushi(_)) && (matches!(cp, POS::Keiyoushi(_)) || c_meishi) {
        false
    } else if pp == POS::Meishi(Meishi::KeiyoudoushiGokan) && c_meishi {
        false
    } else if matches!(pp, POS::Keiyoushi(_)) && c_meishi {
        false
    } else {
        true
    }
}

/// Sets the chain flag of every word but the first whose flag is unknown.
pub fn njd_set_accent_phrase(njd: &mut NJD)
    ensures
        final(njd)@ == accent_phrased(old(njd)@),
{
    let ghost old_ns = njd@;
    let n = njd.nodes.len();
    let mut iter = IterQuintMut::new(n);
    loop
        invariant
            iter.len == n,
            iter.target <= n,
            njd.nodes@.len() == n,
            old_ns.len() == n,
            forall|j: int| 0 <= j < iter.target ==> #[trigger] njd@[j] == accent_phrased(old_ns)[j],
            forall|j: int| iter.target <= j < n ==> #[trigger] njd@[j] == old_ns[j],
        ensures
            njd.nodes@.len() == n,
            forall|j: int| 0 <= j < n ==> #[trigger] njd@[j] == accent_phrased(old_ns)[j],
        decreases n - iter.target,
    {
        let ghost t = iter.target;
        let q = iter.next();
        let (p, c) = match q {
            None => {
                break;
            },
            Some(Quintuple::Full(p, c, _, _, _)) => (p, c),
            Some(Quintuple::ThreeLeft(p, c, _, _)) => (p, c),
            Some(Quintuple::TwoLeft(p, c, _)) => (p, c),
            Some(Quintuple::Last(p, c)) => (p, c),
            Some(_) => {
                assert(t == 0);
                assert(njd@[0] == accent_phrased(old_ns)[0]);
                continue;
            },
        };
        assert(c == t && p == t - 1);
        assert(njd@[p as int] == accent_phrased(old_ns)[p as int]);
        assert(njd@[c as int] == old_ns[c as int]);
        let ghost before = njd.nodes@;
        if njd.nodes[c].get_chain_flag().is_none() {
            let chain = chain_flag(&njd.nodes[p], &njd.nodes[c]);
            njd.nodes[c].set_chain_flag(chain);
            proof {
                assert(njd@[c as int] == accent_phrased(old_ns)[c as int]);
            }
        }
        proof {
            assert(njd.nodes@.len() == n);
            assert forall|j: int| 0 <= j < n && j != c implies njd.nodes@[j] == before[j] by {}
            assert forall|j: int| 0 <= j < iter.target implies #[trigger] njd@[j] == accent_phrased(old_ns)[j] by {
                if j != c {
                    assert(njd@[j] == njd.nodes@[j]@);
                    assert(node_views(before)[j] == before[j]@);
                }
            }
            assert forall|j: int| iter.target <= j < n implies #[trigger] njd@[j] == old_ns[j] by {
                assert(njd@[j] == njd.nodes@[j]@);
                assert(node_views(before)[j] == before[j]@);
            }
        }
    }
    proof {
        assert(njd@ =~= accent_phrased(old_ns));
    }
}

/// Setting accent phrases a second time changes nothing: after one pass
/// every word but the first has a chain flag.
pub proof fn lemma_accent_phrase_idempotent(ns: Seq<NodeView>)
    ensures
        accent_phrased(accent_phrased(ns)) == accent_phrased(ns),
{
    assert(accent_phrased(accent_phrased(ns)) =~= accent_phrased(ns));
}

/// The pass only fills in unknown chain flags: a word's string and other
/// details, and any flag it already had, stay as they were.
pub proof fn lemma_accent_phrase_keeps(ns: Seq<NodeView>, i: int)
    requires
        0 <= i < ns.len(),
    ensures
        accent_phrased(ns).len() == ns.len(),
        accent_phrased(ns)[i].string == ns[i].string,
        accent_phrased(ns)[i].details.pos == ns[i].details.pos,
        accent_phrased(ns)[i].details.moras == ns[i].details.moras,
        ns[i].details.chain_flag is Some ==> accent_phrased(ns)[i] == ns[i],
        i == 0 ==> accent_phrased(ns)[i] == ns[i],
{
}


/// Rule 3: a 名詞 other than a 接尾 one right after a 形容詞 starts an
/// accent phrase of its own (when its chain flag is not already known).
pub proof fn lemma_noun_after_adjective_not_chained(ns: Seq<NodeView>, i: int)
    requires
        0 < i < ns.len(),
        ns[i].details.chain_flag is None,
        ns[i - 1].details.pos is Keiyoushi,
        ns[i].details.pos is Meishi,
        !(ns[i].details.pos matches POS::Meishi(Meishi::Setsubi(_))),
    ensures
        accent_phrased(ns)[i].details.chain_flag == Some(false),
        accent_phrased(ns)[i].string == ns[i].string,
{
}

} // verus!
