//! Vowel devoicing.
//!
//! Rule 0: a filler is not devoiced. Rule 1: the す of the auxiliaries です
//! and ます is devoiced unless `？` or a long vowel follows. Rule 2: し of a
//! 動詞, 助動詞 or 助詞 is devoiced readily. Rule 3: no two morae in a row
//! are devoiced. Rule 4: the accent nucleus is not devoiced. Rule 5: `i`
//! and `u` between voiceless consonants (k ky s sh t ty ch ts h f hy p py)
//! are devoiced, except after s before s or sh, and after f or h before f,
//! h or hy.

use vstd::prelude::*;

use crate::mora::{Consonant, Mora, MoraEnum, Vowel};
use crate::njd::NJD;
use crate::node::{DetailsView, NodeView};
use crate::pos::POS;
use crate::pronunciation::Pronunciation;

verus! {

/// A mora of the sentence, with what the pass knows of it.
#[derive(Clone, Copy)]
pub struct MoraState {
    pub mora: Mora,
    /// The word that the mora belongs to.
    pub node_index: usize,
    /// The part of speech of that word.
    pub pos: POS,
    /// Whether the mora is voiced, once decided.
    pub is_voiced_flag: Option<bool>,
    /// The position of the mora in its accent phrase.
    pub midx: usize,
    /// The accent of its word.
    pub atype: usize,
}

/// A voiceless consonant.
pub open spec fn is_voiceless(c: Consonant) -> bool {
    c == Consonant::K || c == Consonant::Ky || c == Consonant::S || c == Consonant::Sh || c == Consonant::T || c
        == Consonant::Ty || c == Consonant::Ch || c == Consonant::Ts || c == Consonant::H || c == Consonant::F || c
        == Consonant::Hy || c == Consonant::P || c == Consonant::Py
}

/// Rule 5 for `curr` followed by `next`: `None` when the vowel of `curr`
/// is neither `i` nor `u`, else whether it stays voiced.
pub open spec fn unvoice_rule(curr: Mora, next: Option<Mora>) -> Option<bool> {
    match next {
        None => Some(true),
        Some(nx) => {
            let (cc, cv) = curr.mora_enum.spec_phonemes();
            let (nc, _) = nx.mora_enum.spec_phonemes();
            if !(cv == Some(Vowel::I) || cv == Some(Vowel::U)) {
                None
            } else {
                Some(
                    match (cc, nc) {
                        (Some(c), Some(n)) => if c == Consonant::S && (n == Consonant::S || n == Consonant::Sh) {
                            true
                        } else if (c == Consonant::F || c == Consonant::H) && (n == Consonant::F || n == Consonant::H
                            || n == Consonant::Hy) {
                            true
                        } else {
                            !(is_voiceless(c) && is_voiceless(n))
                        },
                        _ => true,
                    },
                )
            }
        },
    }
}

/// Rule 5.
fn apply_unvoice_rule(mora_curr: &Mora, mora_next: Option<&Mora>) -> (r: Option<bool>)
    ensures
        r == unvoice_rule(
            *mora_curr,
            match mora_next {
                Some(m) => Some(*m),
                None => None,
            },
        ),
{
    let mora_next = match mora_next {
        Some(m) => m,
        None => {
            return Some(true);
        },
    };
    let (curr_consonant, curr_vowel) = mora_curr.phonemes();
    let (next_consonant, _) = mora_next.phonemes();
    if !(curr_vowel == Some(Vowel::I) || curr_vowel == Some(Vowel::U)) {
        return None;
    }
    Some(
        match (curr_consonant, next_consonant) {
            (Some(c), Some(n)) => if c == Consonant::S && (n == Consonant::S || n == Consonant::Sh) {
                true
            } else if (c == Consonant::F || c == Consonant::H) && (n == Consonant::F || n == Consonant::H || n
                == Consonant::Hy) {
                true
            } else {
                !(is_voiceless_exec(c) && is_voiceless_exec(n))
            },
            _ => true,
        },
    )
}

fn is_voiceless_exec(c: Consonant) -> (r: bool)
    ensures
        r == is_voiceless(c),
{
    c == Consonant::K || c == Consonant::Ky || c == Consonant::S || c == Consonant::Sh || c == Consonant::T || c
        == Consonant::Ty || c == Consonant::Ch || c == Consonant::Ts || c == Consonant::H || c == Consonant::F || c
        == Consonant::Hy || c == Consonant::P || c == Consonant::Py
}

/// The states of the morae of word `idx`, whose first mora has position
/// `midx0` in its phrase.
pub open spec fn node_states(n: NodeView, idx: int, midx0: int) -> Seq<MoraState> {
    Seq::new(
        n.details.moras.len(),
        |j: int|
            MoraState {
                mora: n.details.moras[j],
                node_index: idx as usize,
                pos: n.details.pos,
                is_voiced_flag: if n.details.moras[j].is_voiced {
                    None
                } else {
                    Some(false)
                },
                midx: (midx0 + j) as usize,
                atype: n.details.accent as usize,
            },
    )
}

/// The states of the morae of the first `k` words, and the phrase position
/// that comes next; a word not chained to the one before starts a phrase.
pub open spec fn states_run(ns: Seq<NodeView>, k: nat) -> (Seq<MoraState>, int)
    decreases k,
{
    if k == 0 {
        (Seq::empty(), 0)
    } else {
        let (ss, m) = states_run(ns, (k - 1) as nat);
        let n = ns[k - 1];
        let m0 = if n.details.chain_flag == Some(true) {
            m
        } else {
            0
        };
        (ss + node_states(n, k - 1, m0), m0 + n.details.moras.len())
    }
}

/// Whether a flag is still open or says voiced.
pub open spec fn not_unvoiced(f: Option<bool>) -> bool {
    f != Some(false)
}

/// A flag decided as voiced if it was still open.
pub open spec fn or_voiced(f: Option<bool>) -> Option<bool> {
    if f is None {
        Some(true)
    } else {
        f
    }
}

/// `s` with flag `f`.
pub open spec fn with_flag(s: MoraState, f: Option<bool>) -> MoraState {
    MoraState { is_voiced_flag: f, ..s }
}

/// Whether `s` is at its word's accent nucleus.
pub open spec fn at_nucleus(s: MoraState) -> bool {
    s.atype == s.midx + 1
}

/// Rule 1 at mora `k`.
pub open spec fn rule1(ss: Seq<MoraState>, k: int) -> Seq<MoraState> {
    if k + 2 < ss.len() {
        let c = ss[k];
        let nx = ss[k + 1];
        let nn = ss[k + 2];
        if c.node_index == nx.node_index && nx.node_index != nn.node_index && (nx.pos is Doushi || nx.pos
            == POS::Jodoushi || nx.pos == POS::Kandoushi) && (c.mora.mora_enum == MoraEnum::Ma || c.mora.mora_enum
            == MoraEnum::De) && nx.mora.mora_enum == MoraEnum::Su {
            ss.update(
                k + 1,
                with_flag(nx, Some(nn.mora.mora_enum == MoraEnum::Question || nn.mora.mora_enum == MoraEnum::Long)),
            )
        } else {
            ss
        }
    } else {
        ss
    }
}

/// Rule 2 at mora `k`.
pub open spec fn rule2(ss: Seq<MoraState>, k: int) -> Seq<MoraState> {
    if k + 1 < ss.len() {
        let c = ss[k];
        let nx = ss[k + 1];
        let nn_ok = k + 2 >= ss.len() || not_unvoiced(ss[k + 2].is_voiced_flag);
        if not_unvoiced(c.is_voiced_flag) && nx.is_voiced_flag is None && nn_ok && (nx.pos is Doushi || nx.pos
            == POS::Jodoushi || nx.pos is Joshi) && nx.mora.mora_enum == MoraEnum::Shi {
            let f = if at_nucleus(nx) {
                Some(true)
            } else {
                unvoice_rule(c.mora, Some(nx.mora))
            };
            let s1 = ss.update(k + 1, with_flag(nx, f));
            if f == Some(false) {
                let s2 = s1.update(k, with_flag(c, or_voiced(c.is_voiced_flag)));
                if k + 2 < ss.len() {
                    s2.update(k + 2, with_flag(s2[k + 2], or_voiced(s2[k + 2].is_voiced_flag)))
                } else {
                    s2
                }
            } else {
                s1
            }
        } else {
            ss
        }
    } else {
        ss
    }
}

/// The decision for mora `k` itself, and its effect on the next mora.
pub open spec fn decide(ss: Seq<MoraState>, k: int) -> Seq<MoraState> {
    let c = ss[k];
    let next = if k + 1 < ss.len() {
        Some(ss[k + 1])
    } else {
        None
    };
    let f = if c.is_voiced_flag is None {
        if c.pos == POS::Filler || (next matches Some(nx) && nx.is_voiced_flag == Some(false)) || at_nucleus(c) {
            Some(true)
        } else {
            unvoice_rule(
                c.mora,
                match next {
                    Some(nx) => Some(nx.mora),
                    None => None,
                },
            )
        }
    } else {
        c.is_voiced_flag
    };
    let s1 = ss.update(
        k,
        MoraState {
            is_voiced_flag: f,
            mora: Mora {
                is_voiced: match f {
                    Some(v) => v,
                    None => true,
                },
                ..c.mora
            },
            ..c
        },
    );
    if f == Some(false) && k + 1 < ss.len() {
        s1.update(k + 1, with_flag(s1[k + 1], or_voiced(s1[k + 1].is_voiced_flag)))
    } else {
        s1
    }
}

/// One step of the pass, at mora `k`.
pub open spec fn unvoice_step(ss: Seq<MoraState>, k: int) -> Seq<MoraState> {
    decide(rule2(rule1(ss, k), k), k)
}

/// The pass over the first `k` morae.
pub open spec fn unvoice_run(ss: Seq<MoraState>, k: nat) -> Seq<MoraState>
    decreases k,
{
    if k == 0 {
        ss
    } else {
        unvoice_step(unvoice_run(ss, (k - 1) as nat), k - 1)
    }
}

/// All the morae of the words `ns`, one word after the other.
pub open spec fn all_moras(ns: Seq<NodeView>) -> Seq<Mora>
    decreases ns.len(),
{
    if ns.len() == 0 {
        Seq::empty()
    } else {
        all_moras(ns.drop_last()) + ns.last().details.moras
    }
}

/// The words after the devoicing pass: each keeps everything but the
/// voicing of its morae, and the morae of all words, in order, are those
/// that the pass over all morae gives.
pub open spec fn unvoiced_result(old_ns: Seq<NodeView>, new_ns: Seq<NodeView>) -> bool {
    let ss = states_run(old_ns, old_ns.len()).0;
    &&& new_ns.len() == old_ns.len()
    &&& forall|i: int|
        0 <= i < old_ns.len() ==> (#[trigger] new_ns[i]).string == old_ns[i].string && new_ns[i].details
            == (DetailsView { moras: new_ns[i].details.moras, ..old_ns[i].details }) && new_ns[i].details.moras.len()
            == old_ns[i].details.moras.len()
    &&& all_moras(new_ns) == unvoice_run(ss, ss.len()).map_values(|s: MoraState| s.mora)
}

proof fn lemma_states_len(ns: Seq<NodeView>, k: nat)
    requires
        k <= ns.len(),
    ensures
        states_run(ns, k).0.len() == all_moras(ns.take(k as int)).len(),
        states_run(ns, k).1 <= states_run(ns, k).0.len(),
        states_run(ns, k).1 >= 0,
    decreases k,
{
    if k > 0 {
        lemma_states_len(ns, (k - 1) as nat);
        assert(ns.take(k as int).drop_last() =~= ns.take(k - 1));
    }
}

proof fn lemma_run_len(ss: Seq<MoraState>, k: nat)
    requires
        k <= ss.len(),
    ensures
        unvoice_run(ss, k).len() == ss.len(),
    decreases k,
{
    if k > 0 {
        lemma_run_len(ss, (k - 1) as nat);
    }
}

/// Decides, in order, whether each mora is voiced (see the module's rules).
pub fn njd_set_unvoiced_vowel(njd: &mut NJD)
    ensures
        unvoiced_result(old(njd)@, final(njd)@),
{
    let ghost ns0 = njd@;
    let mut states: Vec<MoraState> = Vec::new();
    let mut midx: usize = 0;
    let mut i: usize = 0;
    while i < njd.nodes.len()
        invariant
            njd@ == ns0,
            i <= ns0.len(),
            midx <= states@.len(),
            states_run(ns0, i as nat) == (states@, midx as int),
        decreases ns0.len() - i,
    {
        proof {
            lemma_states_len(ns0, i as nat);
        }
        let node = &njd.nodes[i];
        if node.get_chain_flag() != Some(true) {
            midx = 0;
        }
        let acc = node.get_pron().accent();
        let pos = *node.get_pos();
        let ghost before = states@;
        let ghost m0 = midx as int;
        let mut j: usize = 0;
        while j < node.get_pron().moras.len()
            invariant
                njd@ == ns0,
                i < ns0.len(),
                node@ == ns0[i as int],
                acc == node@.details.accent,
                pos == node@.details.pos,
                j <= node@.details.moras.len(),
                midx as int == m0 + j,
                0 <= m0 <= before.len(),
                midx <= states@.len(),
                states@ == before + node_states(node@, i as int, m0).take(j as int),
            decreases node@.details.moras.len() - j,
        {
            let mora = node.get_pron().moras[j];
            let s = MoraState {
                mora,
                node_index: i,
                pos,
                is_voiced_flag: if mora.is_voiced {
                    None
                } else {
                    Some(false)
                },
                midx,
                atype: acc,
            };
            states.push(s);
            let _n = states.len();
            proof {
                assert(node_states(node@, i as int, m0).take(j as int + 1) =~= node_states(node@, i as int, m0).take(j as int).push(s));
            }
            midx = midx + 1;
            j = j + 1;
        }
        proof {
            assert(node_states(node@, i as int, m0).take(j as int) =~= node_states(node@, i as int, m0));
        }
        i = i + 1;
    }
    proof {
        lemma_states_len(ns0, i as nat);
        assert(ns0.take(i as int) =~= ns0);
    }
    let ghost ss0 = states@;
    unvoice_states(&mut states);
    let ghost fin = states@.map_values(|s: MoraState| s.mora);
    proof {
        lemma_run_len(ss0, ss0.len());
    }
    let n = njd.nodes.len();
    let total = states.len();
    let mut c: usize = 0;
    let mut i: usize = 0;
    proof {
        assert(all_moras(njd@.take(0)) =~= fin.take(0));
    }
    while i < n
        invariant
            n == ns0.len(),
            njd@.len() == n,
            states@.len() == all_moras(ns0).len(),
            total == states@.len(),
            fin == states@.map_values(|s: MoraState| s.mora),
            i <= n,
            c as int == all_moras(ns0.take(i as int)).len(),
            all_moras(njd@.take(i as int)) == fin.take(c as int),
            forall|j: int| i <= j < n ==> #[trigger] njd@[j] == ns0[j],
            forall|j: int|
                0 <= j < i ==> (#[trigger] njd@[j]).string == ns0[j].string && njd@[j].details == (DetailsView {
                    moras: njd@[j].details.moras,
                    ..ns0[j].details
                }) && njd@[j].details.moras.len() == ns0[j].details.moras.len(),
        decreases n - i,
    {
        proof {
            lemma_all_moras_prefix(ns0, i as int);
            assert(njd@[i as int] == ns0[i as int]);
        }
        let len = njd.nodes[i].get_pron().moras.len();
        let acc = njd.nodes[i].get_pron().accent();
        let mut nm: Vec<Mora> = Vec::new();
        let mut j: usize = 0;
        while j < len
            invariant
                j <= len,
                c + len <= total,
                total == states@.len(),
                fin == states@.map_values(|s: MoraState| s.mora),
                nm@ == fin.subrange(c as int, c + j),
            decreases len - j,
        {
            nm.push(states[c + j].mora);
            proof {
                assert(nm@ =~= fin.subrange(c as int, c + j + 1));
            }
            j = j + 1;
        }
        assert(c + len <= total);
        let ghost before = njd@;
        njd.nodes[i].set_pron(Pronunciation::new(nm, acc));
        proof {
            assert(njd@ =~= before.update(i as int, njd@[i as int]));
            let t = njd@.take(i as int + 1);
            assert(t.drop_last() =~= before.take(i as int));
            assert(fin.take(c as int) + fin.subrange(c as int, c + len) =~= fin.take(c + len));
            let u = ns0.take(i as int + 1);
            assert(u.drop_last() =~= ns0.take(i as int));
        }
        c = c + len;
        i = i + 1;
    }
    proof {
        assert(njd@.take(n as int) =~= njd@);
        assert(ns0.take(n as int) =~= ns0);
        assert(fin.take(c as int) =~= fin);
    }
}

/// The morae of a prefix are a prefix of all the morae.
proof fn lemma_all_moras_prefix(ns: Seq<NodeView>, k: int)
    requires
        0 <= k < ns.len(),
    ensures
        all_moras(ns.take(k + 1)) == all_moras(ns.take(k)) + ns[k].details.moras,
        all_moras(ns.take(k + 1)).len() <= all_moras(ns).len(),
    decreases ns.len() - k,
{
    assert(ns.take(k + 1).drop_last() =~= ns.take(k));
    if k + 1 < ns.len() {
        lemma_all_moras_prefix(ns, k + 1);
    } else {
        assert(ns.take(k + 1) =~= ns);
    }
}


/// What holds of the states after the pass has run over the first `k`
/// morae of `ss0`, when no mora of `ss0` was unvoiced to begin with: each
/// decided mora is voiced unless its flag says otherwise, no two decided
/// morae in a row are unvoiced, a mora after an unvoiced one is decided
/// voiced, and only the next mora may already be unvoiced, as the す of
/// です or ます or as a し.
pub open spec fn devoicing_inv(ss0: Seq<MoraState>, t: Seq<MoraState>, k: int) -> bool {
    &&& t.len() == ss0.len()
    &&& 0 <= k <= t.len()
    &&& forall|j: int| 0 <= j < k ==> (#[trigger] t[j]).mora.is_voiced == not_unvoiced(t[j].is_voiced_flag)
    &&& forall|j: int|
        0 <= j && j + 1 < k ==> !(#[trigger] t[j].is_voiced_flag == Some(false) && t[j + 1].is_voiced_flag == Some(
            false,
        ))
    &&& (1 <= k < t.len() && t[k - 1].is_voiced_flag == Some(false) ==> t[k].is_voiced_flag == Some(true))
    &&& forall|j: int| k < j < t.len() ==> not_unvoiced((#[trigger] t[j]).is_voiced_flag)
    &&& (k < t.len() && t[k].is_voiced_flag == Some(false) ==> t[k].mora.mora_enum == MoraEnum::Su
        || t[k].mora.mora_enum == MoraEnum::Shi)
}

proof fn lemma_devoicing_step(ss0: Seq<MoraState>, t: Seq<MoraState>, k: int)
    requires
        devoicing_inv(ss0, t, k),
        k < t.len(),
    ensures
        devoicing_inv(ss0, unvoice_step(t, k), k + 1),
{
    let t1 = rule1(t, k);
    let t2 = rule2(t1, k);
    let t3 = decide(t2, k);
    assert(t1.len() == t.len());
    assert(forall|j: int| 0 <= j < t.len() && j != k + 1 ==> t1[j] == t[j]);
    assert(k + 1 < t.len() ==> t1[k + 1].mora == t[k + 1].mora);
    assert(k + 1 < t.len() && t1[k + 1].is_voiced_flag == Some(false) ==> (t[k].mora.mora_enum == MoraEnum::Ma
        || t[k].mora.mora_enum == MoraEnum::De) && t1[k + 1].mora.mora_enum == MoraEnum::Su);
    assert(k + 1 < t.len() && t1[k + 1].is_voiced_flag != t[k + 1].is_voiced_flag ==> t1[k + 1].is_voiced_flag
        is Some);
    assert(t2.len() == t.len());
    assert(forall|j: int| 0 <= j < t.len() && j != k && j != k + 1 && j != k + 2 ==> t2[j] == t1[j]);
    assert(forall|j: int| 0 <= j < t.len() ==> (#[trigger] t2[j]).mora == t1[j].mora);
    assert(not_unvoiced(t1[k].is_voiced_flag) ==> not_unvoiced(t2[k].is_voiced_flag));
    assert(!not_unvoiced(t1[k].is_voiced_flag) ==> t2[k] == t1[k]);
    assert(k + 2 < t.len() ==> not_unvoiced(t2[k + 2].is_voiced_flag));
    assert(k + 1 < t.len() && t2[k + 1].is_voiced_flag == Some(false) ==> (t2[k + 1].mora.mora_enum
        == MoraEnum::Su || t2[k + 1].mora.mora_enum == MoraEnum::Shi) && not_unvoiced(t2[k].is_voiced_flag));
    assert(t3.len() == t.len());
    assert(forall|j: int| 0 <= j < t.len() && j != k && j != k + 1 ==> t3[j] == t2[j]);
    assert(unvoice_step(t, k) == t3);
    assert(t3[k].mora.is_voiced == not_unvoiced(t3[k].is_voiced_flag));
    assert(forall|j: int| 0 <= j < k + 1 ==> (#[trigger] t3[j]).mora.is_voiced == not_unvoiced(t3[j].is_voiced_flag));
    assert(k >= 1 ==> !(t3[k - 1].is_voiced_flag == Some(false) && t3[k].is_voiced_flag == Some(false)));
    assert(forall|j: int|
        0 <= j && j + 1 < k + 1 ==> !(#[trigger] t3[j].is_voiced_flag == Some(false) && t3[j + 1].is_voiced_flag
            == Some(false)));
    assert(k + 1 < t.len() && t3[k].is_voiced_flag == Some(false) ==> t3[k + 1].is_voiced_flag == Some(true));
    assert(forall|j: int| k + 1 < j < t.len() ==> not_unvoiced((#[trigger] t3[j]).is_voiced_flag));
    assert(k + 1 < t.len() && t3[k + 1].is_voiced_flag == Some(false) ==> t3[k + 1].mora.mora_enum == MoraEnum::Su
        || t3[k + 1].mora.mora_enum == MoraEnum::Shi);
}

proof fn lemma_devoicing_run(ss0: Seq<MoraState>, k: nat)
    requires
        devoicing_inv(ss0, ss0, 0),
        k <= ss0.len(),
    ensures
        devoicing_inv(ss0, unvoice_run(ss0, k), k as int),
    decreases k,
{
    if k > 0 {
        lemma_devoicing_run(ss0, (k - 1) as nat);
        lemma_devoicing_step(ss0, unvoice_run(ss0, (k - 1) as nat), k - 1);
    }
}

/// The states of the first `k` words hold their morae in order, each with
/// an open flag when voiced and an unvoiced one otherwise.
proof fn lemma_states_moras(ns: Seq<NodeView>, k: nat)
    requires
        k <= ns.len(),
    ensures
        states_run(ns, k).0.map_values(|s: MoraState| s.mora) == all_moras(ns.take(k as int)),
        forall|j: int|
            0 <= j < states_run(ns, k).0.len() ==> (#[trigger] states_run(ns, k).0[j]).is_voiced_flag == (if states_run(
                ns,
                k,
            ).0[j].mora.is_voiced {
                None
            } else {
                Some(false)
            }),
    decreases k,
{
    if k > 0 {
        lemma_states_moras(ns, (k - 1) as nat);
        assert(ns.take(k as int).drop_last() =~= ns.take(k - 1));
        let (ss, m) = states_run(ns, (k - 1) as nat);
        let n = ns[k - 1];
        let m0 = if n.details.chain_flag == Some(true) {
            m
        } else {
            0
        };
        let all = ss + node_states(n, k - 1, m0);
        assert(states_run(ns, k).0 == all);
        assert(all.map_values(|s: MoraState| s.mora) =~= ss.map_values(|s: MoraState| s.mora) + n.details.moras);
    } else {
        assert(states_run(ns, 0).0.map_values(|s: MoraState| s.mora) =~= all_moras(ns.take(0)));
    }
}

/// Rule 3: when every mora is voiced before the pass, no two morae in a row
/// (across word boundaries too) are unvoiced after it.
pub proof fn lemma_no_consecutive_unvoiced(old_ns: Seq<NodeView>, new_ns: Seq<NodeView>)
    requires
        unvoiced_result(old_ns, new_ns),
        forall|j: int| 0 <= j < all_moras(old_ns).len() ==> (#[trigger] all_moras(old_ns)[j]).is_voiced,
    ensures
        forall|j: int|
            0 <= j && j + 1 < all_moras(new_ns).len() ==> (#[trigger] all_moras(new_ns)[j]).is_voiced
                || all_moras(new_ns)[j + 1].is_voiced,
{
    let ss = states_run(old_ns, old_ns.len()).0;
    lemma_states_moras(old_ns, old_ns.len());
    assert(old_ns.take(old_ns.len() as int) =~= old_ns);
    assert forall|j: int| 0 <= j < ss.len() implies (#[trigger] ss[j]).is_voiced_flag is None by {
        assert(ss.map_values(|s: MoraState| s.mora)[j] == ss[j].mora);
    }
    assert(devoicing_inv(ss, ss, 0));
    lemma_devoicing_run(ss, ss.len());
    let fin = unvoice_run(ss, ss.len());
    assert forall|j: int| 0 <= j && j + 1 < all_moras(new_ns).len() implies (#[trigger] all_moras(new_ns)[j]).is_voiced
        || all_moras(new_ns)[j + 1].is_voiced by {
        assert(fin[j].is_voiced_flag == Some(false) ==> !(fin[j + 1].is_voiced_flag == Some(false)));
    }
}

/// Rule 1 at mora `k`.
fn apply_rule1(states: &mut Vec<MoraState>, k: usize)
    requires
        k < old(states)@.len(),
    ensures
        final(states)@ == rule1(old(states)@, k as int),
{
    let n = states.len();
    if n - k > 2 {
        let c = states[k];
        let nx = states[k + 1];
        let nn = states[k + 2];
        if c.node_index == nx.node_index && nx.node_index != nn.node_index && (matches!(nx.pos, POS::Doushi(_))
            || nx.pos == POS::Jodoushi || nx.pos == POS::Kandoushi) && (c.mora.mora_enum == MoraEnum::Ma
            || c.mora.mora_enum == MoraEnum::De) && nx.mora.mora_enum == MoraEnum::Su {
            let f = nn.mora.mora_enum == MoraEnum::Question || nn.mora.mora_enum == MoraEnum::Long;
            states.set(k + 1, MoraState { is_voiced_flag: Some(f), ..nx });
        }
    }
    proof {
        assert(states@ =~= rule1(old(states)@, k as int));
    }
}

/// Rule 2 at mora `k`.
fn apply_rule2(states: &mut Vec<MoraState>, k: usize)
    requires
        k < old(states)@.len(),
    ensures
        final(states)@ == rule2(old(states)@, k as int),
{
    let n = states.len();
    if n - k > 1 {
        let c = states[k];
        let nx = states[k + 1];
        let nn_ok = if n - k > 2 {
            states[k + 2].is_voiced_flag != Some(false)
        } else {
            true
        };
        if c.is_voiced_flag != Some(false) && nx.is_voiced_flag.is_none() && nn_ok && (matches!(nx.pos, POS::Doushi(_))
            || nx.pos == POS::Jodoushi || matches!(nx.pos, POS::Joshi(_))) && nx.mora.mora_enum == MoraEnum::Shi {
            let f = if nx.atype > 0 && nx.atype - 1 == nx.midx {
                Some(true)
            } else {
                apply_unvoice_rule(&c.mora, Some(&nx.mora))
            };
            states.set(k + 1, MoraState { is_voiced_flag: f, ..nx });
            if f == Some(false) {
                if c.is_voiced_flag.is_none() {
                    states.set(k, MoraState { is_voiced_flag: Some(true), ..c });
                }
                if n - k > 2 {
                    let nn = states[k + 2];
                    if nn.is_voiced_flag.is_none() {
                        states.set(k + 2, MoraState { is_voiced_flag: Some(true), ..nn });
                    }
                }
            }
        }
    }
    proof {
        assert(states@ =~= rule2(old(states)@, k as int));
    }
}

/// The decision for mora `k` itself.
fn apply_decide(states: &mut Vec<MoraState>, k: usize)
    requires
        k < old(states)@.len(),
    ensures
        final(states)@ == decide(old(states)@, k as int),
{
    let n = states.len();
    let c = states[k];
    let f = if c.is_voiced_flag.is_none() {
        let next_unvoiced = n - k > 1 && states[k + 1].is_voiced_flag == Some(false);
        if c.pos == POS::Filler || next_unvoiced || (c.atype > 0 && c.atype - 1 == c.midx) {
            Some(true)
        } else if n - k > 1 {
            apply_unvoice_rule(&c.mora, Some(&states[k + 1].mora))
        } else {
            apply_unvoice_rule(&c.mora, None)
        }
    } else {
        c.is_voiced_flag
    };
    let voiced = match f {
        Some(v) => v,
        None => true,
    };
    states.set(k, MoraState { is_voiced_flag: f, mora: Mora { is_voiced: voiced, ..c.mora }, ..c });
    if f == Some(false) && n - k > 1 {
        let nx = states[k + 1];
        if nx.is_voiced_flag.is_none() {
            states.set(k + 1, MoraState { is_voiced_flag: Some(true), ..nx });
        }
    }
    proof {
        assert(states@ =~= decide(old(states)@, k as int));
    }
}

/// Runs the devoicing pass over all morae.
fn unvoice_states(states: &mut Vec<MoraState>)
    ensures
        final(states)@ == unvoice_run(old(states)@, old(states)@.len()),
{
    let ghost ss0 = states@;
    let n = states.len();
    let mut k: usize = 0;
    while k < n
        invariant
            n == ss0.len(),
            k <= n,
            states@ == unvoice_run(ss0, k as nat),
        decreases n - k,
    {
        proof {
            lemma_run_len(ss0, k as nat);
        }
        apply_rule1(states, k);
        apply_rule2(states, k);
        apply_decide(states, k);
        k = k + 1;
    }
}


/// Rule 5 for one mora: an `i` or `u` mora whose consonant is voiceless (k,
/// ky, s, sh, t, ty, ch, ts, h, f, hy, p, py) and whose next mora begins
/// with a voiceless consonant loses its voice, except after s before s or
/// sh and after f or h before f, h or hy.
pub proof fn lemma_devoiced_between_voiceless(curr: Mora, next: Mora)
    requires
        curr.mora_enum.spec_phonemes().1 == Some(Vowel::I) || curr.mora_enum.spec_phonemes().1 == Some(Vowel::U),
        curr.mora_enum.spec_phonemes().0 matches Some(c) && (c == Consonant::K || c == Consonant::Ky || c
            == Consonant::S || c == Consonant::Sh || c == Consonant::T || c == Consonant::Ty || c == Consonant::Ch
            || c == Consonant::Ts || c == Consonant::H || c == Consonant::F || c == Consonant::Hy || c
            == Consonant::P || c == Consonant::Py),
        next.mora_enum.spec_phonemes().0 matches Some(n) && (n == Consonant::K || n == Consonant::Ky || n
            == Consonant::S || n == Consonant::Sh || n == Consonant::T || n == Consonant::Ty || n == Consonant::Ch
            || n == Consonant::Ts || n == Consonant::H || n == Consonant::F || n == Consonant::Hy || n
            == Consonant::P || n == Consonant::Py),
        !(curr.mora_enum.spec_phonemes().0 == Some(Consonant::S) && (next.mora_enum.spec_phonemes().0 == Some(
            Consonant::S,
        ) || next.mora_enum.spec_phonemes().0 == Some(Consonant::Sh))),
        !((curr.mora_enum.spec_phonemes().0 == Some(Consonant::F) || curr.mora_enum.spec_phonemes().0 == Some(
            Consonant::H,
        )) && (next.mora_enum.spec_phonemes().0 == Some(Consonant::F) || next.mora_enum.spec_phonemes().0 == Some(
            Consonant::H,
        ) || next.mora_enum.spec_phonemes().0 == Some(Consonant::Hy))),
    ensures
        unvoice_rule(curr, Some(next)) == Some(false),
{
}

/// A word of two voiced morae on its own (no filler, first mora not its
/// accent nucleus) whose first mora is `i` or `u` after a voiceless
/// consonant and whose second mora begins with `t` has its first mora
/// devoiced and its second kept voiced: 下 シタ is read シ’タ, 北 キタ
/// キ’タ.
pub proof fn lemma_devoiced_before_t(old_ns: Seq<NodeView>, new_ns: Seq<NodeView>)
    requires
        unvoiced_result(old_ns, new_ns),
        old_ns.len() == 1,
        old_ns[0].details.moras.len() == 2,
        old_ns[0].details.moras[0].is_voiced && old_ns[0].details.moras[1].is_voiced,
        old_ns[0].details.pos != POS::Filler,
        old_ns[0].details.accent != 1,
        old_ns[0].details.accent < usize::MAX,
        ({
            let m = old_ns[0].details.moras[0].mora_enum.spec_phonemes();
            &&& (m.1 == Some(Vowel::I) || m.1 == Some(Vowel::U))
            &&& m.0 matches Some(c) && (c == Consonant::K || c == Consonant::Ky || c == Consonant::S || c
                == Consonant::Sh || c == Consonant::T || c == Consonant::Ty || c == Consonant::Ch || c
                == Consonant::Ts || c == Consonant::H || c == Consonant::F || c == Consonant::Hy || c
                == Consonant::P || c == Consonant::Py)
        }),
        old_ns[0].details.moras[1].mora_enum.spec_phonemes().0 == Some(Consonant::T),
    ensures
        new_ns.len() == 1,
        new_ns[0].details.moras == seq![
            Mora { mora_enum: old_ns[0].details.moras[0].mora_enum, is_voiced: false },
            Mora { mora_enum: old_ns[0].details.moras[1].mora_enum, is_voiced: true },
        ],
{
    let n = old_ns[0];
    let m0 = n.details.moras[0];
    let m1 = n.details.moras[1];
    lemma_devoiced_between_voiceless(m0, m1);
    assert(m1.mora_enum != MoraEnum::Shi);
    let ss = states_run(old_ns, 1).0;
    assert(states_run(old_ns, 0).0 == Seq::<MoraState>::empty());
    assert(ss =~= node_states(n, 0, 0));
    assert(ss.len() == 2);
    assert(ss[0].is_voiced_flag is None && ss[1].is_voiced_flag is None);
    assert(ss[0].midx == 0 && ss[0].atype == n.details.accent as usize);
    let t0 = unvoice_run(ss, 0);
    assert(t0 == ss);
    assert(rule1(ss, 0) == ss);
    assert(rule2(ss, 0) == ss);
    let t1 = unvoice_run(ss, 1);
    assert(t1 == decide(ss, 0));
    assert(t1[0].mora == Mora { mora_enum: m0.mora_enum, is_voiced: false });
    assert(t1[1].is_voiced_flag == Some(true));
    assert(rule1(t1, 1) == t1);
    assert(rule2(t1, 1) == t1);
    let t2 = unvoice_run(ss, 2);
    assert(t2 == decide(t1, 1));
    assert(t2[1].mora == Mora { mora_enum: m1.mora_enum, is_voiced: true });
    assert(t2[0] == t1[0]);
    let fin = t2.map_values(|s: MoraState| s.mora);
    assert(all_moras(new_ns) == fin);
    assert(new_ns.drop_last() =~= Seq::<NodeView>::empty());
    assert(all_moras(new_ns.drop_last()) == Seq::<Mora>::empty());
    assert(all_moras(new_ns) =~= new_ns[0].details.moras);
    assert(fin =~= seq![
        Mora { mora_enum: m0.mora_enum, is_voiced: false },
        Mora { mora_enum: m1.mora_enum, is_voiced: true },
    ]);
}

} // verus!
