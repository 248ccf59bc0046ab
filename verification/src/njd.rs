//! An NJD: the words of a sentence, in order, as the rule passes see them.

use vstd::prelude::*;

use crate::error::JPreprocessResult;
use crate::node::{
    csv_nodes, entry_views, lemma_node_text_reads_back, node_text, node_views, writable, NJDNode, NodeView, WordEntry,
};
use crate::text::views;

verus! {

/// The words of a sentence.
#[derive(Debug, PartialEq)]
pub struct NJD {
    pub nodes: Vec<NJDNode>,
}

impl View for NJD {
    type V = Seq<NodeView>;

    open spec fn view(&self) -> Seq<NodeView> {
        node_views(self.nodes@)
    }
}

/// Whether a word is heard: it has at least one mora.
pub open spec fn is_audible(n: NodeView) -> bool {
    n.details.moras.len() > 0
}

/// The words of `ns` that are heard, in order.
pub open spec fn audible(ns: Seq<NodeView>) -> Seq<NodeView>
    decreases ns.len(),
{
    if ns.len() == 0 {
        ns
    } else if is_audible(ns.last()) {
        audible(ns.drop_last()).push(ns.last())
    } else {
        audible(ns.drop_last())
    }
}

/// The words of the CSV lines `fs`, one line after the other.
pub open spec fn csv_all(fs: Seq<Seq<char>>) -> Seq<NodeView>
    decreases fs.len(),
{
    if fs.len() == 0 {
        Seq::empty()
    } else {
        csv_all(fs.drop_last()) + csv_nodes(fs.last()).unwrap()
    }
}

/// The words of the entries `es`, one entry after the other.
pub open spec fn entries_all(es: Seq<(Seq<char>, WordEntry)>) -> Seq<NodeView>
    decreases es.len(),
{
    if es.len() == 0 {
        Seq::empty()
    } else {
        entries_all(es.drop_last()) + entry_views(es.last().1, es.last().0)
    }
}

/// The entries `es` with their strings taken by value.
pub open spec fn entry_pairs(es: Seq<(String, WordEntry)>) -> Seq<(Seq<char>, WordEntry)> {
    es.map_values(|e: (String, WordEntry)| (e.0@, e.1))
}

/// Appends copies of the words `add` to `out`.
fn extend_nodes(out: &mut Vec<NJDNode>, add: &Vec<NJDNode>)
    ensures
        node_views(final(out)@) == node_views(old(out)@) + node_views(add@),
{
    let mut i: usize = 0;
    let ghost start = node_views(out@);
    while i < add.len()
        invariant
            i <= add@.len(),
            node_views(out@) == start + node_views(add@).take(i as int),
        decreases add@.len() - i,
    {
        let ghost before = out@;
        let n = add[i].clone();
        out.push(n);
        proof {
            assert(node_views(out@) =~= node_views(before).push(n@));
            assert(node_views(add@).take(i as int + 1) =~= node_views(add@).take(i as int).push(add@[i as int]@));
        }
        i = i + 1;
    }
    proof {
        assert(node_views(add@).take(i as int) =~= node_views(add@));
    }
}

impl NJD {
    /// Drops every word that has no mora.
    pub fn remove_silent_node(&mut self)
        ensures
            final(self)@ == audible(old(self)@),
    {
        let mut out: Vec<NJDNode> = Vec::new();
        let mut i: usize = 0;
        let ghost all = self@;
        proof {
            assert(audible(all.take(0)) =~= node_views(out@));
        }
        while i < self.nodes.len()
            invariant
                i <= self.nodes@.len(),
                all == self@,
                node_views(out@) == audible(all.take(i as int)),
            decreases self.nodes@.len() - i,
        {
            proof {
                assert(all.take(i as int + 1).drop_last() =~= all.take(i as int));
                assert(all.take(i as int + 1).last() == self.nodes@[i as int]@);
            }
            if !self.nodes[i].get_pron().is_empty() {
                let ghost before = out@;
                let n = self.nodes[i].clone();
                out.push(n);
                proof {
                    assert(node_views(out@) =~= node_views(before).push(n@));
                }
            }
            i = i + 1;
        }
        proof {
            assert(all.take(i as int) =~= all);
        }
        self.nodes = out;
    }

    /// The words of the CSV lines `njd_features`, one line after the other.
    pub fn from_strings(njd_features: Vec<String>) -> (r: NJD)
        requires
            forall|i: int| 0 <= i < njd_features@.len() ==> csv_nodes(#[trigger] njd_features@[i]@) is Some,
        ensures
            r@ == csv_all(views(njd_features@)),
    {
        let mut out: Vec<NJDNode> = Vec::new();
        let mut i: usize = 0;
        while i < njd_features.len()
            invariant
                i <= njd_features@.len(),
                forall|j: int| 0 <= j < njd_features@.len() ==> csv_nodes(#[trigger] njd_features@[j]@) is Some,
                node_views(out@) == csv_all(views(njd_features@).take(i as int)),
            decreases njd_features@.len() - i,
        {
            let ns = NJDNode::load_csv(njd_features[i].as_str());
            extend_nodes(&mut out, &ns);
            proof {
                let fs = views(njd_features@).take(i as int + 1);
                assert(fs.drop_last() =~= views(njd_features@).take(i as int));
                assert(fs.last() == njd_features@[i as int]@);
            }
            i = i + 1;
        }
        proof {
            assert(views(njd_features@).take(i as int) =~= views(njd_features@));
        }
        NJD { nodes: out }
    }

    /// The words of dictionary entries, each with its surface string, one
    /// entry after the other.
    pub fn from_entries(entries: &Vec<(String, WordEntry)>) -> (r: NJD)
        ensures
            r@ == entries_all(entry_pairs(entries@)),
    {
        let mut out: Vec<NJDNode> = Vec::new();
        let mut i: usize = 0;
        while i < entries.len()
            invariant
                i <= entries@.len(),
                node_views(out@) == entries_all(entry_pairs(entries@).take(i as int)),
            decreases entries@.len() - i,
        {
            let ns = NJDNode::load(entries[i].0.as_str(), &entries[i].1);
            extend_nodes(&mut out, &ns);
            proof {
                let es = entry_pairs(entries@).take(i as int + 1);
                assert(es.drop_last() =~= entry_pairs(entries@).take(i as int));
                assert(es.last() == (entries@[i as int].0@, entries@[i as int].1));
            }
            i = i + 1;
        }
        proof {
            assert(entry_pairs(entries@).take(i as int) =~= entry_pairs(entries@));
        }
        NJD { nodes: out }
    }

    /// The words of looked-up tokens, one token after the other; the first
    /// failed lookup is the error.
    pub fn from_tokens(tokens: &Vec<JPreprocessResult<(String, WordEntry)>>) -> (r: JPreprocessResult<NJD>)
        ensures
            match r {
                Ok(njd) => (forall|i: int| 0 <= i < tokens@.len() ==> #[trigger] tokens@[i] is Ok)
                    && njd@ == entries_all(Seq::new(tokens@.len(), |i: int| (tokens@[i]->Ok_0.0@, tokens@[i]->Ok_0.1))),
                Err(e) => exists|i: int| 0 <= i < tokens@.len() && tokens@[i] == Err::<(String, WordEntry), _>(e)
                    && forall|j: int| 0 <= j < i ==> #[trigger] tokens@[j] is Ok,
            },
    {
        let ghost pairs = Seq::new(tokens@.len(), |i: int| (tokens@[i]->Ok_0.0@, tokens@[i]->Ok_0.1));
        let mut out: Vec<NJDNode> = Vec::new();
        let mut i: usize = 0;
        while i < tokens.len()
            invariant
                i <= tokens@.len(),
                pairs == Seq::new(tokens@.len(), |i: int| (tokens@[i]->Ok_0.0@, tokens@[i]->Ok_0.1)),
                forall|j: int| 0 <= j < i ==> #[trigger] tokens@[j] is Ok,
                node_views(out@) == entries_all(pairs.take(i as int)),
            decreases tokens@.len() - i,
        {
            match &tokens[i] {
                Ok(t) => {
                    let ns = NJDNode::load(t.0.as_str(), &t.1);
                    extend_nodes(&mut out, &ns);
                    proof {
                        let es = pairs.take(i as int + 1);
                        assert(es.drop_last() =~= pairs.take(i as int));
                    }
                },
                Err(e) => {
                    return Err(*e);
                },
            }
            i = i + 1;
        }
        proof {
            assert(pairs.take(i as int) =~= pairs);
        }
        Ok(NJD { nodes: out })
    }

    /// Each word in the dictionary form.
    pub fn to_strings(&self) -> (r: Vec<String>)
        ensures
            views(r@) == self@.map_values(|n: NodeView| node_text(n)),
    {
        let mut out: Vec<String> = Vec::new();
        let mut i: usize = 0;
        while i < self.nodes.len()
            invariant
                i <= self.nodes@.len(),
                views(out@) == self@.take(i as int).map_values(|n: NodeView| node_text(n)),
            decreases self.nodes@.len() - i,
        {
            let ghost before = out@;
            let s = self.nodes[i].to_string();
            out.push(s);
            proof {
                assert(views(out@) =~= views(before).push(s@));
                assert(self@.take(i as int + 1).map_values(|n: NodeView| node_text(n)) =~= self@.take(i as int).map_values(|n: NodeView| node_text(n)).push(node_text(self.nodes@[i as int]@)));
            }
            i = i + 1;
        }
        proof {
            assert(self@.take(i as int) =~= self@);
        }
        out
    }
}

} // verus!

verus! {

/// After dropping silent words every word is heard, the heard words keep
/// their order, and dropping again changes nothing.
pub proof fn lemma_audible(ns: Seq<NodeView>)
    ensures
        forall|i: int| 0 <= i < audible(ns).len() ==> is_audible(#[trigger] audible(ns)[i]),
        audible(ns).len() <= ns.len(),
        audible(audible(ns)) == audible(ns),
        (forall|i: int| 0 <= i < ns.len() ==> is_audible(#[trigger] ns[i])) ==> audible(ns) == ns,
    decreases ns.len(),
{
    if ns.len() > 0 {
        lemma_audible(ns.drop_last());
        let a = audible(ns.drop_last());
        if is_audible(ns.last()) {
            assert(audible(ns) == a.push(ns.last()));
            assert(audible(ns).drop_last() =~= a);
            assert(audible(audible(ns)) == audible(a).push(ns.last()));
        }
        if forall|i: int| 0 <= i < ns.len() ==> is_audible(#[trigger] ns[i]) {
            assert forall|i: int| 0 <= i < ns.drop_last().len() implies is_audible(#[trigger] ns.drop_last()[i]) by {
                assert(ns.drop_last()[i] == ns[i]);
            }
            assert(ns.drop_last().push(ns.last()) =~= ns);
        }
    }
}

} // verus!

verus! {

/// The words in the dictionary form, one line each.
pub open spec fn node_lines(ns: Seq<NodeView>) -> Seq<Seq<char>> {
    ns.map_values(|n: NodeView| node_text(n))
}

/// Words written in the dictionary form, one line each, read back as the
/// same words (when each can be written, see `writable`): every line reads,
/// and reading all lines gives the words in order.
#[verifier::rlimit(100)]
pub proof fn lemma_lines_read_back(ns: Seq<NodeView>)
    requires
        forall|i: int| 0 <= i < ns.len() ==> writable(#[trigger] ns[i]),
    ensures
        forall|i: int| 0 <= i < ns.len() ==> csv_nodes(#[trigger] node_lines(ns)[i]) is Some,
        csv_all(node_lines(ns)) == ns,
    decreases ns.len(),
{
    let ls = node_lines(ns);
    assert forall|i: int| 0 <= i < ns.len() implies csv_nodes(#[trigger] ls[i]) is Some by {
        line_reads_back(ns, i);
    }
    if ns.len() > 0 {
        let init = ns.drop_last();
        assert forall|i: int| 0 <= i < init.len() implies writable(#[trigger] init[i]) by {
            assert(init[i] == ns[i]);
        }
        lemma_lines_read_back(init);
        assert(ls.drop_last() =~= node_lines(init));
        line_reads_back(ns, ns.len() - 1);
        assert(init + seq![ns.last()] =~= ns);
    } else {
        assert(ls =~= Seq::<Seq<char>>::empty());
    }
}

/// Line `i` of the words reads back as word `i`.
proof fn line_reads_back(ns: Seq<NodeView>, i: int)
    requires
        0 <= i < ns.len(),
        writable(ns[i]),
    ensures
        csv_nodes(node_lines(ns)[i]) == Some(seq![ns[i]]),
{
    lemma_node_text_reads_back(ns[i]);
}


/// The words of two lists of lines together are the words of the first
/// followed by those of the second.
#[verifier::rlimit(100)]
proof fn lemma_csv_all_append(a: Seq<Seq<char>>, b: Seq<Seq<char>>)
    ensures
        csv_all(a + b) == csv_all(a) + csv_all(b),
    decreases b.len(),
{
    if b.len() == 0 {
        assert(a + b =~= a);
        assert(csv_all(a) + csv_all(b) =~= csv_all(a));
    } else {
        lemma_csv_all_append(a, b.drop_last());
        let x = csv_nodes(b.last()).unwrap();
        assert((a + b).drop_last() =~= a + b.drop_last());
        assert((a + b).last() == b.last());
        assert(csv_all(a + b) == csv_all(a + b.drop_last()) + x);
        assert(csv_all(b) == csv_all(b.drop_last()) + x);
        assert(csv_all(a) + csv_all(b.drop_last()) + x =~= csv_all(a) + (csv_all(b.drop_last()) + x));
    }
}

/// One line gives its own words.
#[verifier::rlimit(100)]
proof fn lemma_csv_all_single(l: Seq<char>)
    ensures
        csv_all(seq![l]) == csv_nodes(l).unwrap(),
{
    let x = csv_nodes(l).unwrap();
    assert(seq![l].drop_last() =~= Seq::<Seq<char>>::empty());
    assert(seq![l].last() == l);
    assert(csv_all(Seq::<Seq<char>>::empty()) == Seq::<NodeView>::empty());
    assert(csv_all(seq![l]) == csv_all(seq![l].drop_last()) + csv_nodes(seq![l].last()).unwrap());
    assert(Seq::<NodeView>::empty() + x =~= x);
}

/// Reading lines is reading them one list after another: the words of two
/// lists of lines together are the words of the first followed by those
/// of the second; no lines give no words, and one line gives its own words.
pub proof fn lemma_csv_all_concat(a: Seq<Seq<char>>, b: Seq<Seq<char>>, l: Seq<char>)
    ensures
        csv_all(a + b) == csv_all(a) + csv_all(b),
        csv_all(Seq::empty()) == Seq::<NodeView>::empty(),
        csv_all(seq![l]) == csv_nodes(l).unwrap(),
{
    lemma_csv_all_append(a, b);
    lemma_csv_all_single(l);
}

} // verus!
