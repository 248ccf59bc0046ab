//! Pronunciations from the written form: words the dictionary could not
//! read are read as kana where they are written in kana, runs of kana
//! fillers are joined into one word, and a few auxiliary verbs get their
//! spoken forms.

use vstd::prelude::*;

use crate::mora::{Mora, MoraEnum};
use crate::njd::{audible, NJD};
use crate::node::{node_views, reset_node, transferred, DetailsView, NJDNode, NodeView};
use crate::pos::{Kigou, POS};
use crate::pronunciation::{
    copy_moras, mora_count, moras_plain, segment_views, segments, spec_is_mora_convertable, Pronunciation,
};
use crate::text::str_eq;

verus! {

/// The question mark word.
pub const QUESTION: &'static str = "？";
/// The polite copula.
pub const DESU_STR: &'static str = "です";
/// The polite auxiliary verb.
pub const MASU_STR: &'static str = "ます";

/// The voiced morae `es`.
pub open spec fn voiced_moras(es: Seq<MoraEnum>) -> Seq<Mora> {
    Seq::new(es.len(), |i: int| Mora { mora_enum: es[i], is_voiced: true })
}

/// `n` pronounced `moras` with accent `acc`.
pub open spec fn with_pron(n: NodeView, moras: Seq<Mora>, acc: nat) -> NodeView {
    NodeView { details: DetailsView { moras, accent: acc, ..n.details }, ..n }
}

/// A part of speech made 記号 (one that already is stays as it is).
pub open spec fn to_kigou(p: POS) -> POS {
    if p is Kigou {
        p
    } else {
        POS::Kigou(Kigou::Unspecified)
    }
}

/// The word made from a piece of the written form of `n`: the piece is its
/// string, its morae its pronunciation (accent 0) and their plain text its
/// reading; a sounded piece is a filler, a pause piece a 記号.
pub open spec fn piece_node(n: NodeView, piece: Seq<char>, moras: Seq<Mora>) -> NodeView {
    let pos = if mora_count(moras) == 0 {
        if moras.len() == 1 && moras[0].mora_enum == MoraEnum::Touten {
            to_kigou(n.details.pos)
        } else {
            n.details.pos
        }
    } else {
        POS::Filler
    };
    NodeView {
        string: piece,
        details: DetailsView { pos, read: Some(moras_plain(moras)), moras, accent: 0, ..n.details },
    }
}

/// The words made from the pieces `segs` of the written form of `n`;
/// pieces with no reading are dropped.
pub open spec fn piece_nodes(n: NodeView, segs: Seq<(Seq<char>, Seq<Mora>)>) -> Seq<NodeView>
    decreases segs.len(),
{
    if segs.len() == 0 {
        Seq::empty()
    } else if segs.last().1.len() == 0 {
        piece_nodes(n, segs.drop_last())
    } else {
        piece_nodes(n, segs.drop_last()).push(piece_node(n, segs.last().0, segs.last().1))
    }
}

/// A word as it comes out of the reading step: a word with sounded morae
/// stays; any other is read piece by piece from its written form.
pub open spec fn read_node(n: NodeView) -> Seq<NodeView> {
    if mora_count(n.details.moras) != 0 {
        seq![n]
    } else {
        piece_nodes(n, segments(n.string))
    }
}

/// The reading step over all words.
pub open spec fn read_all(ns: Seq<NodeView>) -> Seq<NodeView>
    decreases ns.len(),
{
    if ns.len() == 0 {
        Seq::empty()
    } else {
        read_all(ns.drop_last()) + read_node(ns.last())
    }
}

/// One step of joining kana fillers, for word `i`, with the position of the
/// first word of the current run of kana fillers: a kana filler after such
/// a run is appended to its first word (and emptied); any other word ends
/// the run.
pub open spec fn kana_step(st: (Seq<NodeView>, Option<int>), i: int) -> (Seq<NodeView>, Option<int>) {
    let (ns, head) = st;
    let node = ns[i];
    if node.details.pos == POS::Filler && spec_is_mora_convertable(node.string) {
        match head {
            Some(h) => (ns.update(h, transferred(ns[h], node)).update(i, reset_node()), head),
            None => (ns, Some(i)),
        }
    } else {
        (ns, None)
    }
}

/// The joining of kana fillers over the first `k` words.
pub open spec fn kana_run(ns: Seq<NodeView>, k: nat) -> (Seq<NodeView>, Option<int>)
    decreases k,
{
    if k == 0 {
        (ns, None)
    } else {
        kana_step(kana_run(ns, (k - 1) as nat), k - 1)
    }
}

/// One step of the final pass, for word `i` and the word after it: a ウ
/// 助動詞 after a sounded 動詞 or 助動詞 is read as a long vowel, and です
/// and ます before `？` get their spoken accents.
pub open spec fn spoken_step(ns: Seq<NodeView>, i: int) -> Seq<NodeView> {
    if i + 1 < ns.len() {
        let node = ns[i];
        let next = ns[i + 1];
        let ns1 = if next.details.moras.len() == 1 && next.details.moras[0].mora_enum == MoraEnum::U
            && next.details.pos == POS::Jodoushi
            && (node.details.pos is Doushi || node.details.pos == POS::Jodoushi) && mora_count(node.details.moras)
            > 0 {
            ns.update(i + 1, with_pron(next, voiced_moras(seq![MoraEnum::Long]), 0))
        } else {
            ns
        };
        if node.details.pos == POS::Jodoushi && next.string == QUESTION@ {
            if node.string == DESU_STR@ {
                ns1.update(i, with_pron(node, voiced_moras(seq![MoraEnum::De, MoraEnum::Su]), 1))
            } else if node.string == MASU_STR@ {
                ns1.update(i, with_pron(node, voiced_moras(seq![MoraEnum::Ma, MoraEnum::Su]), 1))
            } else {
                ns1
            }
        } else {
            ns1
        }
    } else {
        ns
    }
}

/// The final pass over the first `k` words.
pub open spec fn spoken_run(ns: Seq<NodeView>, k: nat) -> Seq<NodeView>
    decreases k,
{
    if k == 0 {
        ns
    } else {
        spoken_step(spoken_run(ns, (k - 1) as nat), k - 1)
    }
}

/// The words after the pronunciation pass.
pub open spec fn pronunciation_set(ns: Seq<NodeView>) -> Seq<NodeView> {
    let a = audible(read_all(ns));
    let b = audible(kana_run(a, a.len()).0);
    spoken_run(b, b.len())
}

proof fn lemma_kana_shape(ns: Seq<NodeView>, k: nat)
    requires
        k <= ns.len(),
    ensures
        kana_run(ns, k).0.len() == ns.len(),
        kana_run(ns, k).1 matches Some(h) ==> 0 <= h < k,
        forall|j: int| k <= j < ns.len() ==> #[trigger] kana_run(ns, k).0[j] == ns[j],
    decreases k,
{
    if k > 0 {
        lemma_kana_shape(ns, (k - 1) as nat);
    }
}

proof fn lemma_spoken_shape(ns: Seq<NodeView>, k: nat)
    requires
        k <= ns.len(),
    ensures
        spoken_run(ns, k).len() == ns.len(),
        forall|j: int| k < j < ns.len() ==> #[trigger] spoken_run(ns, k)[j] == ns[j],
        k < ns.len() ==> spoken_run(ns, k)[k as int].string == ns[k as int].string,
        k < ns.len() ==> spoken_run(ns, k)[k as int].details.pos == ns[k as int].details.pos,
    decreases k,
{
    if k > 0 {
        lemma_spoken_shape(ns, (k - 1) as nat);
    }
}

/// Appends the words read from the pieces `segs` of the written form of
/// `node`.
fn push_pieces(out: &mut Vec<NJDNode>, node: &NJDNode, segs: &Vec<(String, Vec<crate::mora::Mora>)>)
    ensures
        node_views(final(out)@) == node_views(old(out)@) + piece_nodes(node@, segment_views(segs@)),
{
    let ghost start = node_views(out@);
    let mut j: usize = 0;
    while j < segs.len()
        invariant
            j <= segs@.len(),
            node_views(out@) == start + piece_nodes(node@, segment_views(segs@).take(j as int)),
        decreases segs@.len() - j,
    {
        let ghost sv = segment_views(segs@).take(j as int + 1);
        proof {
            assert(sv.drop_last() =~= segment_views(segs@).take(j as int));
            assert(sv.last() == (segs@[j as int].0@, segs@[j as int].1@));
        }
        let moras = copy_moras(&segs[j].1);
        let pron = Pronunciation::new(moras, 0);
        if !pron.is_empty() {
            let mut nd = node.clone();
            nd.replace_string(segs[j].0.as_str());
            let mut pos = *nd.get_pos();
            if pron.mora_size() == 0 {
                if pron.is_touten() {
                    pos.convert_to_kigou();
                }
            } else {
                pos = POS::Filler;
            }
            *nd.get_pos_mut() = pos;
            let rs = pron.to_pure_string();
            nd.set_pron(pron);
            nd.set_read(rs.as_str());
            let ghost before = out@;
            out.push(nd);
            proof {
                assert(nd@ == piece_node(node@, sv.last().0, sv.last().1));
                assert(node_views(out@) =~= node_views(before).push(nd@));
            }
        }
        j = j + 1;
    }
    proof {
        assert(segment_views(segs@).take(j as int) =~= segment_views(segs@));
    }
}

/// Sets pronunciations from the written form (see `pronunciation_set`).
pub fn njd_set_pronunciation(njd: &mut NJD)
    ensures
        final(njd)@ == pronunciation_set(old(njd)@),
{
    let ghost ns0 = njd@;
    let mut out: Vec<NJDNode> = Vec::new();
    let mut i: usize = 0;
    while i < njd.nodes.len()
        invariant
            i <= njd.nodes@.len(),
            njd@ == ns0,
            node_views(out@) == read_all(ns0.take(i as int)),
        decreases njd.nodes@.len() - i,
    {
        proof {
            assert(ns0.take(i as int + 1).drop_last() =~= ns0.take(i as int));
            assert(ns0.take(i as int + 1).last() == njd.nodes@[i as int]@);
        }
        if njd.nodes[i].get_pron().mora_size() != 0 {
            let ghost before = out@;
            let nd = njd.nodes[i].clone();
            out.push(nd);
            proof {
                assert(node_views(out@) =~= node_views(before) + seq![nd@]);
            }
        } else {
            let segs = Pronunciation::parse_mora_str(njd.nodes[i].get_string());
            push_pieces(&mut out, &njd.nodes[i], &segs);
        }
        i = i + 1;
    }
    proof {
        assert(ns0.take(i as int) =~= ns0);
    }
    njd.nodes = out;
    njd.remove_silent_node();

    let ghost a = njd@;
    let n = njd.nodes.len();
    let mut head: Option<usize> = None;
    let mut i: usize = 0;
    while i < n
        invariant
            n == njd.nodes@.len(),
            n == a.len(),
            i <= n,
            kana_run(a, i as nat) == (njd@, match head {
                Some(h) => Some(h as int),
                None => None::<int>,
            }),
        decreases n - i,
    {
        proof {
            lemma_kana_shape(a, i as nat);
        }
        let is_filler = *njd.nodes[i].get_pos() == POS::Filler;
        if is_filler && Pronunciation::is_mora_convertable(njd.nodes[i].get_string()) {
            match head {
                Some(h) => {
                    let mut taken = njd.nodes[i].clone();
                    let ghost before = njd.nodes@;
                    njd.nodes[h].transfer_from(&mut taken);
                    njd.nodes[i] = taken;
                    proof {
                        assert(node_views(njd.nodes@) =~= node_views(before).update(h as int, transferred(before[h as int]@, before[i as int]@)).update(i as int, reset_node()));
                    }
                },
                None => {
                    head = Some(i);
                },
            }
        } else {
            head = None;
        }
        i = i + 1;
    }
    njd.remove_silent_node();

    let ghost b = njd@;
    let n = njd.nodes.len();
    let mut i: usize = 0;
    while i < n
        invariant
            n == njd.nodes@.len(),
            n == b.len(),
            i <= n,
            spoken_run(b, i as nat) == njd@,
        decreases n - i,
    {
        proof {
            lemma_spoken_shape(b, i as nat);
        }
        let ghost before = njd@;
        if i + 1 < n {
            let next_u = njd.nodes[i + 1].get_pron().mora_matches(MoraEnum::U);
            let next_jodoushi = *njd.nodes[i + 1].get_pos() == POS::Jodoushi;
            let node_pos = *njd.nodes[i].get_pos();
            let node_ok = (matches!(node_pos, POS::Doushi(_)) || node_pos == POS::Jodoushi)
                && njd.nodes[i].get_pron().mora_size() > 0;
            if next_u && next_jodoushi && node_ok {
                let p = Pronunciation::from_enums(&[MoraEnum::Long], 0);
                proof {
                    assert(p.moras@ =~= voiced_moras(seq![MoraEnum::Long]));
                }
                njd.nodes[i + 1].set_pron(p);
            }
            let ghost mid = njd@;
            if node_pos == POS::Jodoushi && str_eq(njd.nodes[i + 1].get_string(), QUESTION) {
                if str_eq(njd.nodes[i].get_string(), DESU_STR) {
                    let p = Pronunciation::from_enums(&[MoraEnum::De, MoraEnum::Su], 1);
                    proof {
                        assert(p.moras@ =~= voiced_moras(seq![MoraEnum::De, MoraEnum::Su]));
                    }
                    njd.nodes[i].set_pron(p);
                } else if str_eq(njd.nodes[i].get_string(), MASU_STR) {
                    let p = Pronunciation::from_enums(&[MoraEnum::Ma, MoraEnum::Su], 1);
                    proof {
                        assert(p.moras@ =~= voiced_moras(seq![MoraEnum::Ma, MoraEnum::Su]));
                    }
                    njd.nodes[i].set_pron(p);
                }
            }
            proof {
                assert(njd@ =~= spoken_step(before, i as int));
            }
        }
        i = i + 1;
    }
}

} // verus!

verus! {

proof fn lemma_spoken_keeps_audible(ns: Seq<NodeView>, k: nat)
    requires
        k <= ns.len(),
        forall|i: int| 0 <= i < ns.len() ==> crate::njd::is_audible(#[trigger] ns[i]),
    ensures
        spoken_run(ns, k).len() == ns.len(),
        forall|i: int| 0 <= i < ns.len() ==> crate::njd::is_audible(#[trigger] spoken_run(ns, k)[i]),
    decreases k,
{
    if k > 0 {
        lemma_spoken_keeps_audible(ns, (k - 1) as nat);
        let prev = spoken_run(ns, (k - 1) as nat);
        assert forall|i: int| 0 <= i < ns.len() implies crate::njd::is_audible(#[trigger] spoken_run(ns, k)[i]) by {
            assert(crate::njd::is_audible(prev[i]));
            assert(voiced_moras(seq![MoraEnum::Long]).len() == 1);
            assert(voiced_moras(seq![MoraEnum::De, MoraEnum::Su]).len() == 2);
            assert(voiced_moras(seq![MoraEnum::Ma, MoraEnum::Su]).len() == 2);
        }
    }
}

/// After the pronunciation pass no word is silent: every word has at least
/// one mora.
pub proof fn lemma_pronunciation_set_audible(ns: Seq<NodeView>)
    ensures
        forall|i: int|
            0 <= i < pronunciation_set(ns).len() ==> crate::njd::is_audible(#[trigger] pronunciation_set(ns)[i]),
{
    let a = audible(read_all(ns));
    let b = audible(kana_run(a, a.len()).0);
    crate::njd::lemma_audible(kana_run(a, a.len()).0);
    lemma_spoken_keeps_audible(b, b.len());
}


/// The sounded morae of `ms` are no more than its morae.
proof fn lemma_mora_count_le(ms: Seq<Mora>)
    ensures
        mora_count(ms) <= ms.len(),
    decreases ms.len(),
{
    if ms.len() > 0 {
        lemma_mora_count_le(ms.drop_last());
    }
}

/// Words that all have sounded morae come out of the reading step as they
/// are.
proof fn lemma_read_all_sounded(ns: Seq<NodeView>)
    requires
        forall|j: int| 0 <= j < ns.len() ==> mora_count(#[trigger] ns[j].details.moras) > 0,
    ensures
        read_all(ns) == ns,
    decreases ns.len(),
{
    if ns.len() > 0 {
        let init = ns.drop_last();
        assert forall|j: int| 0 <= j < init.len() implies mora_count(#[trigger] init[j].details.moras) > 0 by {
            assert(init[j] == ns[j]);
        }
        lemma_read_all_sounded(init);
        assert(mora_count(ns.last().details.moras) > 0) by {
            assert(ns.last() == ns[ns.len() - 1]);
        }
        assert(init + seq![ns.last()] =~= ns);
    }
}

/// Without fillers, joining kana fillers changes nothing.
proof fn lemma_kana_run_no_filler(ns: Seq<NodeView>, k: nat)
    requires
        k <= ns.len(),
        forall|j: int| 0 <= j < ns.len() ==> (#[trigger] ns[j]).details.pos != POS::Filler,
    ensures
        kana_run(ns, k) == (ns, None::<int>),
    decreases k,
{
    if k > 0 {
        lemma_kana_run_no_filler(ns, (k - 1) as nat);
    }
}

/// A 助動詞 pronounced as the single mora ウ right after a 動詞 is read as
/// the long vowel ー, with accent 0 (行こう is read イコー). This holds for
/// words that all have sounded morae and include no filler, whatever else
/// stands around them; only です or ます (which before ？ get their own
/// reading) are left out.
pub proof fn lemma_u_after_verb_is_long(ns: Seq<NodeView>, i: int)
    requires
        0 <= i,
        i + 1 < ns.len(),
        forall|j: int|
            0 <= j < ns.len() ==> mora_count(#[trigger] ns[j].details.moras) > 0 && ns[j].details.pos != POS::Filler,
        ns[i].details.pos is Doushi,
        ns[i + 1].details.pos == POS::Jodoushi,
        ns[i + 1].details.moras.len() == 1,
        ns[i + 1].details.moras[0].mora_enum == MoraEnum::U,
        ns[i + 1].string != "です"@,
        ns[i + 1].string != "ます"@,
    ensures
        pronunciation_set(ns).len() == ns.len(),
        pronunciation_set(ns)[i + 1].details.moras == seq![Mora { mora_enum: MoraEnum::Long, is_voiced: true }],
        pronunciation_set(ns)[i + 1].details.accent == 0,
        pronunciation_set(ns)[i + 1].string == ns[i + 1].string,
{
    assert forall|j: int| 0 <= j < ns.len() implies mora_count(#[trigger] ns[j].details.moras) > 0 by {}
    lemma_read_all_sounded(ns);
    assert forall|j: int| 0 <= j < ns.len() implies crate::njd::is_audible(#[trigger] ns[j]) by {
        lemma_mora_count_le(ns[j].details.moras);
    }
    crate::njd::lemma_audible(ns);
    assert forall|j: int| 0 <= j < ns.len() implies (#[trigger] ns[j]).details.pos != POS::Filler by {}
    lemma_kana_run_no_filler(ns, ns.len());
    assert(pronunciation_set(ns) == spoken_run(ns, ns.len()));
    let n = ns.len();
    lemma_spoken_shape(ns, i as nat);
    let s0 = spoken_run(ns, i as nat);
    assert(s0[i + 1] == ns[i + 1]);
    assert(s0[i] == ns[i]) by {
        if i > 0 {
            lemma_spoken_shape(ns, (i - 1) as nat);
            let sp = spoken_run(ns, (i - 1) as nat);
            assert(sp[i] == ns[i]);
        }
    }
    let s1 = spoken_run(ns, (i + 1) as nat);
    assert(s1 == spoken_step(s0, i));
    assert(s1[i + 1] == with_pron(ns[i + 1], voiced_moras(seq![MoraEnum::Long]), 0));
    assert(voiced_moras(seq![MoraEnum::Long]) =~= seq![Mora { mora_enum: MoraEnum::Long, is_voiced: true }]);
    lemma_spoken_tail(ns, (i + 1) as nat, i + 1);
    lemma_spoken_shape(ns, ns.len());
}

/// The steps from word `p` on leave it as it is, unless it is です or ます.
proof fn lemma_spoken_tail(ns: Seq<NodeView>, k: nat, p: int)
    requires
        0 <= p <= k <= ns.len(),
        p < ns.len(),
        spoken_run(ns, k)[p].string != "です"@,
        spoken_run(ns, k)[p].string != "ます"@,
    ensures
        spoken_run(ns, ns.len())[p] == spoken_run(ns, k)[p],
    decreases ns.len() - k,
{
    reveal_strlit("です");
    reveal_strlit("ます");
    lemma_spoken_shape(ns, k);
    if k < ns.len() {
        let s = spoken_run(ns, k);
        let s2 = spoken_run(ns, k + 1);
        assert(s2 == spoken_step(s, k as int));
        assert(s2[p] == s[p]);
        lemma_spoken_tail(ns, k + 1, p);
    }
}

} // verus!
