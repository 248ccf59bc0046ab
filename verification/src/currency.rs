//! Currency signs before numbers: `￥100` is read 百円. The sign word is
//! replaced by the word for the unit and moved behind the number.
//!
//! The backslash `\` is treated as a yen sign, like `￥`.

use vstd::prelude::*;

use crate::njd::NJD;
use crate::node::{single_of, NJDNode, NodeView};
use crate::text::str_eq;
use crate::window::{IterQuintMut, Quintuple};

verus! {

/// The word for the unit that a currency sign is read as, in the
/// dictionary form.
pub open spec fn currency_entry(s: Seq<char>) -> Option<Seq<char>> {
    if s == "￥"@ || s == "\\"@ {
        Some("円,名詞,接尾,助数詞,*,*,*,円,エン,エン,1/2,C3,1"@)
    } else if s == "＄"@ {
        Some("ドル,名詞,接尾,助数詞,*,*,*,＄,ドル,ドル,1/2,C3,1"@)
    } else if s == "€"@ {
        Some("ユーロ,名詞,接尾,助数詞,*,*,*,€,ユーロ,ユーロ,1/3,C3,1"@)
    } else {
        None
    }
}

/// The word for the unit that a currency sign is read as.
pub fn currency_table(s: &str) -> (r: Option<&'static str>)
    ensures
        match r {
            Some(e) => currency_entry(s@) == Some(e@),
            None => currency_entry(s@) is None,
        },
{
    if str_eq(s, "￥") || str_eq(s, "\\") {
        Some("円,名詞,接尾,助数詞,*,*,*,円,エン,エン,1/2,C3,1")
    } else if str_eq(s, "＄") {
        Some("ドル,名詞,接尾,助数詞,*,*,*,＄,ドル,ドル,1/2,C3,1")
    } else if str_eq(s, "€") {
        Some("ユーロ,名詞,接尾,助数詞,*,*,*,€,ユーロ,ユーロ,1/3,C3,1")
    } else {
        None
    }
}

/// A word that is part of a number: a numeral or the decimal point `．`.
pub open spec fn is_number_part(n: NodeView) -> bool {
    n.details.pos.spec_is_kazu() || n.string == "．"@
}

fn is_kazu(node: &NJDNode) -> (r: bool)
    ensures
        r == is_number_part(node@),
{
    node.get_pos().is_kazu() || str_eq(node.get_string(), "．")
}

/// One step of the pass, at word `t`, with whether a unit word is being
/// moved: while it is, each number part after it swaps places with it; then
/// a currency sign right before a number part becomes the unit word.
pub open spec fn currency_step(st: (Seq<NodeView>, bool), t: int) -> (Seq<NodeView>, bool) {
    let (ns, moving) = st;
    let (ns1, moving1) = if moving && t > 0 {
        if is_number_part(ns[t]) {
            (ns.update(t - 1, ns[t]).update(t, ns[t - 1]), true)
        } else {
            (ns, false)
        }
    } else {
        (ns, moving)
    };
    if !is_number_part(ns1[t]) && t + 1 < ns1.len() && is_number_part(ns1[t + 1]) {
        match currency_entry(ns1[t].string) {
            Some(e) => match single_of(e) {
                Some(unit) => (ns1.update(t, unit), true),
                None => (ns1, moving1),
            },
            None => (ns1, moving1),
        }
    } else {
        (ns1, moving1)
    }
}

/// The pass over the first `k` words.
pub open spec fn currency_run(ns: Seq<NodeView>, k: nat) -> (Seq<NodeView>, bool)
    decreases k,
{
    if k == 0 {
        (ns, false)
    } else {
        currency_step(currency_run(ns, (k - 1) as nat), k - 1)
    }
}

/// The words after the currency pass.
pub open spec fn currency_processed(ns: Seq<NodeView>) -> Seq<NodeView> {
    currency_run(ns, ns.len()).0
}

proof fn lemma_currency_len(ns: Seq<NodeView>, k: nat)
    requires
        k <= ns.len(),
    ensures
        currency_run(ns, k).0.len() == ns.len(),
    decreases k,
{
    if k > 0 {
        lemma_currency_len(ns, (k - 1) as nat);
    }
}

/// Reads currency signs before numbers as units after them.
pub fn process_currency(njd: &mut NJD)
    ensures
        final(njd)@ == currency_processed(old(njd)@),
{
    let ghost ns0 = njd@;
    let n = njd.nodes.len();
    let mut is_currency = false;
    let mut iter = IterQuintMut::new(n);
    loop
        invariant
            iter.len == n,
            iter.target <= n,
            n == ns0.len(),
            njd.nodes@.len() == n,
            currency_run(ns0, iter.target as nat) == (njd@, is_currency),
        ensures
            njd@ == currency_processed(ns0),
        decreases n - iter.target,
    {
        proof {
            lemma_currency_len(ns0, iter.target as nat);
        }
        let ghost t = iter.target as int;
        let ghost st = njd@;
        let q = iter.next();
        let c: usize = match q {
            None => {
                break;
            },
            Some(Quintuple::Single(c)) => c,
            Some(Quintuple::Double(c, _)) => c,
            Some(Quintuple::Triple(c, _, _)) => c,
            Some(Quintuple::First(c, _, _, _)) => c,
            Some(Quintuple::Full(_, c, _, _, _)) => c,
            Some(Quintuple::ThreeLeft(_, c, _, _)) => c,
            Some(Quintuple::TwoLeft(_, c, _)) => c,
            Some(Quintuple::Last(_, c)) => c,
        };
        assert(c == t);
        is_currency = currency_at(njd, c, is_currency);
    }
}

/// One step of the pass at word `c`; returns whether a unit word is being
/// moved afterwards.
fn currency_at(njd: &mut NJD, c: usize, is_currency: bool) -> (r: bool)
    requires
        c < old(njd).nodes@.len(),
    ensures
        final(njd).nodes@.len() == old(njd).nodes@.len(),
        (final(njd)@, r) == currency_step((old(njd)@, is_currency), c as int),
{
    let ghost st = njd@;
    let n = njd.nodes.len();
    let mut moving = is_currency;
    if is_currency && c > 0 {
        if is_kazu(&njd.nodes[c]) {
            let a = njd.nodes[c - 1].clone();
            let b = njd.nodes[c].clone();
            njd.nodes.set(c - 1, b);
            njd.nodes.set(c, a);
            proof {
                assert(njd@ =~= st.update(c - 1, st[c as int]).update(c as int, st[c - 1]));
            }
        } else {
            moving = false;
        }
    }
    let ghost st1 = njd@;
    if !is_kazu(&njd.nodes[c]) && c + 1 < n && is_kazu(&njd.nodes[c + 1]) {
        if let Some(entry) = currency_table(njd.nodes[c].get_string()) {
            if let Some(unit) = NJDNode::try_single(entry) {
                njd.nodes.set(c, unit);
                proof {
                    assert(njd@ =~= st1.update(c as int, unit@));
                }
                moving = true;
            }
        }
    }
    moving
}

} // verus!

verus! {

/// The currency pass keeps the number of words: it only swaps neighbours
/// and replaces a sign by its unit word.
pub proof fn lemma_currency_keeps_count(ns: Seq<NodeView>)
    ensures
        currency_processed(ns).len() == ns.len(),
{
    lemma_currency_len(ns, ns.len());
}

} // verus!
