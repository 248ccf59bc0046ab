//! Context labels: words are grouped into accent phrases and breath
//! groups, and every phoneme gets a label that describes its mora, word,
//! accent phrase, breath group and utterance.

use vstd::prelude::*;

use crate::mora::{Mora, MoraEnum};
use crate::node::{NJDNode, NodeView};
use crate::pronunciation::mora_count;
use crate::text::{dec, push_dec, push_signed_dec, signed_dec};
use crate::word_attr::{clamped, word_of, word_part, Limit, Word, WordView};

verus! {

/// An accent phrase, as values.
pub struct APView {
    pub accent: nat,
    pub interrogative: bool,
    pub words: Seq<WordView>,
}

/// An accent phrase: its accent, whether it ends a question, and its words.
pub struct AccentPhrase {
    pub accent: usize,
    pub is_interrogative: bool,
    pub words: Vec<Word>,
}

/// The views of words.
pub open spec fn word_views(ws: Seq<Word>) -> Seq<WordView> {
    ws.map_values(|w: Word| w@)
}

impl View for AccentPhrase {
    type V = APView;

    open spec fn view(&self) -> APView {
        APView { accent: self.accent as nat, interrogative: self.is_interrogative, words: word_views(self.words@) }
    }
}

/// A breath group: accent phrases between pauses.
pub struct BreathGroup {
    pub accent_phrases: Vec<AccentPhrase>,
}

/// The views of accent phrases.
pub open spec fn ap_views(aps: Seq<AccentPhrase>) -> Seq<APView> {
    aps.map_values(|a: AccentPhrase| a@)
}

impl View for BreathGroup {
    type V = Seq<APView>;

    open spec fn view(&self) -> Seq<APView> {
        ap_views(self.accent_phrases@)
    }
}

/// An utterance: its breath groups.
pub struct Utterance {
    pub breath_groups: Vec<BreathGroup>,
}

/// The views of breath groups.
pub open spec fn bg_views(bgs: Seq<BreathGroup>) -> Seq<Seq<APView>> {
    bgs.map_values(|b: BreathGroup| b@)
}

impl View for Utterance {
    type V = Seq<Seq<APView>>;

    open spec fn view(&self) -> Seq<Seq<APView>> {
        bg_views(self.breath_groups@)
    }
}

/// The sum of `s`.
pub open spec fn sum(s: Seq<nat>) -> nat
    decreases s.len(),
{
    if s.len() == 0 {
        0
    } else {
        sum(s.drop_last()) + s.last()
    }
}

/// A sum over a prefix grows by the next element and stays below the
/// whole sum.
pub proof fn lemma_sum_prefix(s: Seq<nat>, i: int)
    requires
        0 <= i < s.len(),
    ensures
        sum(s.take(i + 1)) == sum(s.take(i)) + s[i],
        sum(s.take(i + 1)) <= sum(s),
    decreases s.len() - i,
{
    assert(s.take(i + 1).drop_last() =~= s.take(i));
    if i + 1 < s.len() {
        lemma_sum_prefix(s, i + 1);
    } else {
        assert(s.take(i + 1) =~= s);
    }
}

/// The sounded morae of each word.
pub open spec fn word_counts(ws: Seq<WordView>) -> Seq<nat> {
    ws.map_values(|w: WordView| mora_count(w.moras))
}

/// The sounded morae of an accent phrase.
pub open spec fn ap_moras(ap: APView) -> nat {
    sum(word_counts(ap.words))
}

/// The sounded morae of each accent phrase.
pub open spec fn ap_counts(aps: Seq<APView>) -> Seq<nat> {
    aps.map_values(|a: APView| ap_moras(a))
}

/// The sounded morae of a breath group.
pub open spec fn bg_moras(bg: Seq<APView>) -> nat {
    sum(ap_counts(bg))
}

/// The sounded morae of each breath group.
pub open spec fn bg_counts(bgs: Seq<Seq<APView>>) -> Seq<nat> {
    bgs.map_values(|b: Seq<APView>| bg_moras(b))
}

/// The accent phrases of each breath group.
pub open spec fn bg_sizes(bgs: Seq<Seq<APView>>) -> Seq<nat> {
    bgs.map_values(|b: Seq<APView>| b.len())
}

/// The sounded morae of an utterance.
pub open spec fn utt_moras(u: Seq<Seq<APView>>) -> nat {
    sum(bg_counts(u))
}

/// The accent phrases of an utterance.
pub open spec fn utt_aps(u: Seq<Seq<APView>>) -> nat {
    sum(bg_sizes(u))
}

/// The accent as labels show it: a flat phrase (accent 0) shows its mora
/// count.
pub open spec fn shown_accent(ap: APView) -> nat {
    if ap.accent == 0 {
        ap_moras(ap)
    } else {
        ap.accent
    }
}

/// `1` or `0`.
pub open spec fn flag01(b: bool) -> Seq<char> {
    if b {
        "1"@
    } else {
        "0"@
    }
}

/// `1`, `0`, or `xx` when unknown.
pub open spec fn opt_flag(b: Option<bool>) -> Seq<char> {
    match b {
        Some(v) => flag01(v),
        None => "xx"@,
    }
}

/// A number clamped to `1..=bound` of `l`, in decimal.
pub open spec fn ul(l: Limit, v: int) -> Seq<char> {
    dec(clamped(v, 1, l.bound()) as nat)
}

/// The label part for the accent phrase before the current one.
pub open spec fn e_text(ap: APView, pause: Option<bool>) -> Seq<char> {
    "/E:"@ + ul(Limit::M, ap_moras(ap) as int) + "_"@ + ul(Limit::M, shown_accent(ap) as int) + "!"@ + flag01(
        ap.interrogative,
    ) + "_xx-"@ + opt_flag(pause)
}

/// The label part for the current accent phrase: its place among the
/// `count` phrases of its breath group and the place of its first mora
/// among the `moras` morae of the group.
pub open spec fn f_text(ap: APView, count: int, idx: int, moras: int, mora_idx: int) -> Seq<char> {
    "/F:"@ + ul(Limit::M, ap_moras(ap) as int) + "_"@ + ul(Limit::M, shown_accent(ap) as int) + "#"@ + flag01(
        ap.interrogative,
    ) + "_xx@"@ + ul(Limit::M, idx + 1) + "_"@ + ul(Limit::M, count - idx) + "|"@ + ul(Limit::L, mora_idx + 1)
        + "_"@ + ul(Limit::L, moras - mora_idx)
}

/// The label part for the accent phrase after the current one.
pub open spec fn g_text(ap: APView, pause: Option<bool>) -> Seq<char> {
    "/G:"@ + ul(Limit::M, ap_moras(ap) as int) + "_"@ + ul(Limit::M, shown_accent(ap) as int) + "%"@ + flag01(
        ap.interrogative,
    ) + "_xx_"@ + opt_flag(pause)
}

/// The label part for a neighbouring breath group.
pub open spec fn hj_text(head: Seq<char>, bg: Seq<APView>) -> Seq<char> {
    head + ul(Limit::M, bg.len() as int) + "_"@ + ul(Limit::L, bg_moras(bg) as int)
}

/// The label part for the current breath group: its place among the
/// `bg_count` groups of the utterance, and the places of its first phrase
/// and first mora among the `ap_count` phrases and `mora_count` morae.
pub open spec fn i_text(
    bg: Seq<APView>,
    bg_count: int,
    bg_idx: int,
    ap_count: int,
    ap_idx: int,
    mora_count: int,
    mora_idx: int,
) -> Seq<char> {
    "/I:"@ + ul(Limit::M, bg.len() as int) + "-"@ + ul(Limit::L, bg_moras(bg) as int) + "@"@ + ul(Limit::S, bg_idx + 1)
        + "+"@ + ul(Limit::S, bg_count - bg_idx) + "&"@ + ul(Limit::M, ap_idx + 1) + "-"@ + ul(Limit::M, ap_count - ap_idx)
        + "|"@ + ul(Limit::LL, mora_idx + 1) + "+"@ + ul(Limit::LL, mora_count - mora_idx)
}

/// The label part for the utterance.
pub open spec fn k_text(u: Seq<Seq<APView>>) -> Seq<char> {
    "/K:"@ + ul(Limit::S, u.len() as int) + "+"@ + ul(Limit::M, utt_aps(u) as int) + "-"@ + ul(
        Limit::LL,
        utt_moras(u) as int,
    )
}

/// The label part for mora `i` of an accent phrase: its distance from
/// the accent, and its place counted from either end.
pub open spec fn a_text(ap: APView, i: int) -> Seq<char> {
    "/A:"@ + signed_dec(clamped(i + 1 - shown_accent(ap), -49, 49)) + "+"@ + ul(Limit::M, i + 1) + "+"@ + ul(
        Limit::M,
        ap_moras(ap) - i,
    )
}

pub open spec fn default_a() -> Seq<char> {
    "/A:xx+xx+xx"@
}

pub open spec fn default_b() -> Seq<char> {
    "/B:xx-xx_xx"@
}

pub open spec fn default_c() -> Seq<char> {
    "/C:xx_xx+xx"@
}

pub open spec fn default_d() -> Seq<char> {
    "/D:xx+xx_xx"@
}

pub open spec fn default_e() -> Seq<char> {
    "/E:xx_xx!xx_xx-xx"@
}

pub open spec fn default_f() -> Seq<char> {
    "/F:xx_xx#xx_xx@xx_xx|xx_xx"@
}

pub open spec fn default_g() -> Seq<char> {
    "/G:xx_xx%xx_xx_xx"@
}

pub open spec fn default_h() -> Seq<char> {
    "/H:xx_xx"@
}

pub open spec fn default_i() -> Seq<char> {
    "/I:xx-xx@xx+xx&xx-xx|xx+xx"@
}

pub open spec fn default_j() -> Seq<char> {
    "/J:xx_xx"@
}

#[verifier::opaque]
/// The label of a pause between breath groups (or of silence at an end):
/// it describes the last word and phrase of the group before and the last
/// word and phrase of the group after, either of which may be missing or
/// left out.
pub open spec fn pau_text(
    u: Seq<Seq<APView>>,
    prev: Option<Seq<APView>>,
    next: Option<Seq<APView>>,
    ignore_b: bool,
    ignore_d: bool,
) -> Seq<char> {
    let ap_prev = match prev {
        Some(bg) => if bg.len() > 0 {
            Some(bg.last())
        } else {
            None
        },
        None => None,
    };
    let ap_next = match next {
        Some(bg) => if bg.len() > 0 {
            Some(bg.last())
        } else {
            None
        },
        None => None,
    };
    let b = match ap_prev {
        Some(ap) => if ap.words.len() > 0 && !ignore_b {
            word_part("/B:"@, ap.words.last(), '-', '_')
        } else {
            default_b()
        },
        None => default_b(),
    };
    let d = match ap_next {
        Some(ap) => if ap.words.len() > 0 && !ignore_d {
            word_part("/D:"@, ap.words.last(), '+', '_')
        } else {
            default_d()
        },
        None => default_d(),
    };
    let e = match ap_prev {
        Some(ap) => e_text(ap, None),
        None => default_e(),
    };
    let g = match ap_next {
        Some(ap) => g_text(ap, None),
        None => default_g(),
    };
    let h = match prev {
        Some(bg) => hj_text("/H:"@, bg),
        None => default_h(),
    };
    let j = match next {
        Some(bg) => hj_text("/J:"@, bg),
        None => default_j(),
    };
    default_a() + b + default_c() + d + e + default_f() + g + h + default_i() + j + k_text(u)
}

/// An element of a sum of naturals is at most the sum.
pub proof fn lemma_elem_le_sum(s: Seq<nat>, i: int)
    requires
        0 <= i < s.len(),
    ensures
        s[i] <= sum(s),
{
    lemma_sum_prefix(s, i);
    lemma_sum_prefix_le(s, i);
}

/// A sum over a prefix is at most the whole sum.
pub proof fn lemma_sum_prefix_le(s: Seq<nat>, i: int)
    requires
        0 <= i <= s.len(),
    ensures
        sum(s.take(i)) <= sum(s),
    decreases s.len() - i,
{
    if i < s.len() {
        lemma_sum_prefix(s, i);
    } else {
        assert(s.take(i) =~= s);
    }
}

/// An accent phrase of one word, with the accent of that word.
pub open spec fn new_ap(n: NodeView) -> APView {
    APView { accent: n.details.accent, interrogative: false, words: seq![word_of(n)] }
}

/// Whether a word is the pause symbol `、` alone.
pub open spec fn is_touten(n: NodeView) -> bool {
    n.details.moras.len() == 1 && n.details.moras[0].mora_enum == MoraEnum::Touten
}

/// Whether a word is the question symbol `？` alone.
pub open spec fn is_question(n: NodeView) -> bool {
    n.details.moras.len() == 1 && n.details.moras[0].mora_enum == MoraEnum::Question
}

/// The grouping state after some words: the finished breath groups and
/// the accent phrases of the current one.
pub open spec fn group_step(st: (Seq<Seq<APView>>, Seq<APView>), n: NodeView) -> (Seq<Seq<APView>>, Seq<APView>) {
    let (bgs, aps) = st;
    let aps1 = if is_question(n) && aps.len() > 0 {
        aps.update(aps.len() - 1, APView { interrogative: true, ..aps.last() })
    } else {
        aps
    };
    if is_touten(n) || is_question(n) {
        (bgs.push(aps1), Seq::empty())
    } else if n.details.chain_flag == Some(true) {
        if aps1.len() > 0 {
            (bgs, aps1.update(aps1.len() - 1, APView { words: aps1.last().words.push(word_of(n)), ..aps1.last() }))
        } else {
            (bgs, aps1)
        }
    } else {
        (bgs, aps1.push(new_ap(n)))
    }
}

/// The grouping of the first `k` words.
pub open spec fn group_run(ns: Seq<NodeView>, k: nat) -> (Seq<Seq<APView>>, Seq<APView>)
    decreases k,
{
    if k == 0 {
        (Seq::empty(), Seq::empty())
    } else {
        group_step(group_run(ns, (k - 1) as nat), ns[k - 1])
    }
}

/// The utterance of the words `ns`: a `、` or `？` ends a breath group (a
/// `？` makes the phrase before it interrogative), a chained word joins the
/// current accent phrase, any other word starts a new one.
pub open spec fn utterance_of(ns: Seq<NodeView>) -> Seq<Seq<APView>> {
    let (bgs, aps) = group_run(ns, ns.len());
    if aps.len() > 0 {
        bgs.push(aps)
    } else {
        bgs
    }
}

impl AccentPhrase {
    /// An accent phrase of the one word `node`.
    pub fn new(node: &NJDNode) -> (r: AccentPhrase)
        ensures
            r@ == new_ap(node@),
    {
        let mut words: Vec<Word> = Vec::new();
        words.push(Word::from_node(node));
        let r = AccentPhrase { accent: node.get_pron().accent(), is_interrogative: false, words };
        proof {
            assert(r@.words =~= seq![word_of(node@)]);
        }
        r
    }

    /// Appends the word `node`.
    pub fn push_node(&mut self, node: &NJDNode)
        ensures
            final(self)@ == (APView { words: old(self)@.words.push(word_of(node@)), ..old(self)@ }),
    {
        self.words.push(Word::from_node(node));
        proof {
            assert(self@.words =~= old(self)@.words.push(word_of(node@)));
        }
    }

    /// Marks the phrase as ending a question.
    pub fn set_interrogative(&mut self)
        ensures
            final(self)@ == (APView { interrogative: true, ..old(self)@ }),
    {
        self.is_interrogative = true;
    }

    /// The sounded morae of the phrase.
    pub fn count_mora(&self) -> (r: usize)
        requires
            ap_moras(self@) <= usize::MAX,
        ensures
            r == ap_moras(self@),
    {
        let ghost cs = word_counts(self@.words);
        let mut total: usize = 0;
        let mut i: usize = 0;
        while i < self.words.len()
            invariant
                cs == word_counts(self@.words),
                cs.len() == self.words@.len(),
                i <= self.words@.len(),
                total == sum(cs.take(i as int)),
                sum(cs) <= usize::MAX,
            decreases self.words@.len() - i,
        {
            proof {
                lemma_sum_prefix(cs, i as int);
                assert(cs[i as int] == mora_count(self.words@[i as int]@.moras));
            }
            total = total + self.words[i].count_mora();
            i = i + 1;
        }
        proof {
            assert(cs.take(i as int) =~= cs);
        }
        total
    }
}

/// Appends `t`.
fn push_str(s: &mut String, t: &str)
    ensures
        final(s)@ == old(s)@ + t@,
{
    s.append(t);
}

/// Appends `v` clamped to the range of `l`.
fn push_ul(s: &mut String, l: Limit, v: usize)
    ensures
        final(s)@ == old(s)@ + ul(l, v as int),
{
    let c = l.ulimit(v);
    push_dec(s, c as u64);
}

/// Appends `1` or `0`.
fn push_flag(s: &mut String, b: bool)
    ensures
        final(s)@ == old(s)@ + flag01(b),
{
    if b {
        push_str(s, "1");
    } else {
        push_str(s, "0");
    }
}

/// Appends `1`, `0` or `xx`.
fn push_opt_flag(s: &mut String, b: Option<bool>)
    ensures
        final(s)@ == old(s)@ + opt_flag(b),
{
    match b {
        Some(v) => push_flag(s, v),
        None => push_str(s, "xx"),
    }
}

/// Whether every mora of every word of `ap` is sounded.
pub open spec fn ap_all_sounded(ap: APView) -> bool {
    forall|w: int| 0 <= w < ap.words.len() ==> mora_count(#[trigger] ap.words[w].moras) == ap.words[w].moras.len()
}

/// The numbers that labels of `u` are made of fit the machine, and every
/// mora of every word is sounded.
pub open spec fn utterance_ok(u: Seq<Seq<APView>>) -> bool {
    &&& utt_moras(u) < usize::MAX
    &&& utt_aps(u) < usize::MAX
    &&& forall|b: int, a: int| 0 <= b < u.len() && 0 <= a < u[b].len() ==> #[trigger] ap_all_sounded(u[b][a])
}

impl AccentPhrase {
    /// The accent as labels show it.
    fn shown_accent(&self) -> (r: usize)
        requires
            ap_moras(self@) <= usize::MAX,
        ensures
            r == shown_accent(self@),
    {
        if self.accent == 0 {
            self.count_mora()
        } else {
            self.accent
        }
    }

    /// Appends the mora count, the accent and the question flag, with the
    /// two separators given.
    fn push_head(&self, s: &mut String, s1: &str, s2: &str)
        requires
            ap_moras(self@) <= usize::MAX,
        ensures
            final(s)@ == old(s)@ + ul(Limit::M, ap_moras(self@) as int) + s1@ + ul(Limit::M, shown_accent(self@) as int)
                + s2@ + flag01(self@.interrogative),
    {
        push_ul(s, Limit::M, self.count_mora());
        push_str(s, s1);
        push_ul(s, Limit::M, self.shown_accent());
        push_str(s, s2);
        push_flag(s, self.is_interrogative);
    }

    /// The label part for this phrase as the one before the current one.
    pub fn to_e(&self, pause: Option<bool>) -> (r: String)
        requires
            ap_moras(self@) <= usize::MAX,
        ensures
            r@ == e_text(self@, pause),
    {
        let mut s = String::from_str("/E:");
        self.push_head(&mut s, "_", "!");
        push_str(&mut s, "_xx-");
        push_opt_flag(&mut s, pause);
        s
    }

    /// The label part for this phrase as the one after the current one.
    pub fn to_g(&self, pause: Option<bool>) -> (r: String)
        requires
            ap_moras(self@) <= usize::MAX,
        ensures
            r@ == g_text(self@, pause),
    {
        let mut s = String::from_str("/G:");
        self.push_head(&mut s, "_", "%");
        push_str(&mut s, "_xx_");
        push_opt_flag(&mut s, pause);
        s
    }

    /// The label part for this phrase as the current one.
    pub fn to_f(&self, count: usize, idx: usize, moras: usize, mora_idx: usize) -> (r: String)
        requires
            ap_moras(self@) <= usize::MAX,
            idx < count,
            mora_idx <= moras,
            moras < usize::MAX,
        ensures
            r@ == f_text(self@, count as int, idx as int, moras as int, mora_idx as int),
    {
        let mut s = String::from_str("/F:");
        self.push_head(&mut s, "_", "#");
        push_str(&mut s, "_xx@");
        push_ul(&mut s, Limit::M, idx + 1);
        push_str(&mut s, "_");
        push_ul(&mut s, Limit::M, count - idx);
        push_str(&mut s, "|");
        push_ul(&mut s, Limit::L, mora_idx + 1);
        push_str(&mut s, "_");
        push_ul(&mut s, Limit::L, moras - mora_idx);
        s
    }

    /// The `A` label part of each mora of the phrase.
    pub fn generate_mora_a(&self) -> (r: Vec<String>)
        requires
            ap_moras(self@) < usize::MAX,
        ensures
            r@.len() == ap_moras(self@),
            forall|i: int| 0 <= i < r@.len() ==> (#[trigger] r@[i])@ == a_text(self@, i),
    {
        let count = self.count_mora();
        let acc = self.shown_accent();
        let mut out: Vec<String> = Vec::new();
        let mut i: usize = 0;
        while i < count
            invariant
                count == ap_moras(self@),
                acc == shown_accent(self@),
                count < usize::MAX,
                i <= count,
                out@.len() == i,
                forall|j: int| 0 <= j < i ==> (#[trigger] out@[j])@ == a_text(self@, j),
            decreases count - i,
        {
            let mut s = String::from_str("/A:");
            let d: i128 = (i as i128) + 1 - (acc as i128);
            let c: i64 = if d < -49 {
                -49
            } else if d > 49 {
                49
            } else {
                d as i64
            };
            push_signed_dec(&mut s, c);
            push_str(&mut s, "+");
            push_ul(&mut s, Limit::M, i + 1);
            push_str(&mut s, "+");
            push_ul(&mut s, Limit::M, count - i);
            proof {
                assert(c as int == clamped(i + 1 - shown_accent(self@), -49, 49));
                assert(s@ == a_text(self@, i as int));
            }
            out.push(s);
            i = i + 1;
        }
        out
    }
}

impl BreathGroup {
    /// A breath group of the phrases `aps`.
    pub fn new(accent_phrases: Vec<AccentPhrase>) -> (r: BreathGroup)
        ensures
            r@ == ap_views(accent_phrases@),
    {
        BreathGroup { accent_phrases }
    }

    /// The sounded morae of the group.
    pub fn count_mora(&self) -> (r: usize)
        requires
            bg_moras(self@) <= usize::MAX,
        ensures
            r == bg_moras(self@),
    {
        let ghost cs = ap_counts(self@);
        let mut total: usize = 0;
        let mut i: usize = 0;
        while i < self.accent_phrases.len()
            invariant
                cs == ap_counts(self@),
                cs.len() == self.accent_phrases@.len(),
                i <= self.accent_phrases@.len(),
                total == sum(cs.take(i as int)),
                sum(cs) <= usize::MAX,
            decreases self.accent_phrases@.len() - i,
        {
            proof {
                lemma_sum_prefix(cs, i as int);
                assert(cs[i as int] == ap_moras(self.accent_phrases@[i as int]@));
            }
            total = total + self.accent_phrases[i].count_mora();
            i = i + 1;
        }
        proof {
            assert(cs.take(i as int) =~= cs);
        }
        total
    }

    /// The number of accent phrases.
    pub fn count_accent_phrase(&self) -> (r: usize)
        ensures
            r == self@.len(),
    {
        self.accent_phrases.len()
    }

    fn push_hj(&self, s: &mut String)
        requires
            bg_moras(self@) <= usize::MAX,
        ensures
            final(s)@ == old(s)@ + ul(Limit::M, self@.len() as int) + "_"@ + ul(Limit::L, bg_moras(self@) as int),
    {
        push_ul(s, Limit::M, self.accent_phrases.len());
        push_str(s, "_");
        push_ul(s, Limit::L, self.count_mora());
    }

    /// The label part for this group as the one before the current one.
    pub fn to_h(&self) -> (r: String)
        requires
            bg_moras(self@) <= usize::MAX,
        ensures
            r@ == hj_text("/H:"@, self@),
    {
        let mut s = String::from_str("/H:");
        self.push_hj(&mut s);
        s
    }

    /// The label part for this group as the one after the current one.
    pub fn to_j(&self) -> (r: String)
        requires
            bg_moras(self@) <= usize::MAX,
        ensures
            r@ == hj_text("/J:"@, self@),
    {
        let mut s = String::from_str("/J:");
        self.push_hj(&mut s);
        s
    }
}

impl BreathGroup {
    /// The label part for this group as the current one.
    pub fn to_i(
        &self,
        bg_count: usize,
        bg_idx: usize,
        ap_count: usize,
        ap_idx: usize,
        mora_count: usize,
        mora_idx: usize,
    ) -> (r: String)
        requires
            bg_moras(self@) <= usize::MAX,
            bg_idx < bg_count,
            ap_idx <= ap_count < usize::MAX,
            mora_idx <= mora_count < usize::MAX,
        ensures
            r@ == i_text(self@, bg_count as int, bg_idx as int, ap_count as int, ap_idx as int, mora_count as int, mora_idx as int),
    {
        let mut s = String::from_str("/I:");
        push_ul(&mut s, Limit::M, self.accent_phrases.len());
        push_str(&mut s, "-");
        push_ul(&mut s, Limit::L, self.count_mora());
        push_str(&mut s, "@");
        push_ul(&mut s, Limit::S, bg_idx + 1);
        push_str(&mut s, "+");
        push_ul(&mut s, Limit::S, bg_count - bg_idx);
        push_str(&mut s, "&");
        push_ul(&mut s, Limit::M, ap_idx + 1);
        push_str(&mut s, "-");
        push_ul(&mut s, Limit::M, ap_count - ap_idx);
        push_str(&mut s, "|");
        push_ul(&mut s, Limit::LL, mora_idx + 1);
        push_str(&mut s, "+");
        push_ul(&mut s, Limit::LL, mora_count - mora_idx);
        s
    }
}

/// A breath group's morae are at most the utterance's.
pub proof fn lemma_bg_le(u: Seq<Seq<APView>>, b: int)
    requires
        0 <= b < u.len(),
    ensures
        bg_moras(u[b]) <= utt_moras(u),
        u[b].len() <= utt_aps(u),
{
    lemma_elem_le_sum(bg_counts(u), b);
    lemma_elem_le_sum(bg_sizes(u), b);
}

/// An accent phrase's morae are at most its breath group's.
pub proof fn lemma_ap_le(bg: Seq<APView>, a: int)
    requires
        0 <= a < bg.len(),
    ensures
        ap_moras(bg[a]) <= bg_moras(bg),
{
    lemma_elem_le_sum(ap_counts(bg), a);
}

impl Utterance {
    /// The utterance of the words `nodes` (see `utterance_of`).
    pub fn from_nodes(nodes: &[NJDNode]) -> (r: Utterance)
        ensures
            r@ == utterance_of(nodes@.map_values(|n: NJDNode| n@)),
    {
        let ghost ns = nodes@.map_values(|n: NJDNode| n@);
        let mut bgs: Vec<BreathGroup> = Vec::new();
        let mut aps: Vec<AccentPhrase> = Vec::new();
        let mut i: usize = 0;
        while i < nodes.len()
            invariant
                ns == nodes@.map_values(|n: NJDNode| n@),
                i <= nodes@.len(),
                group_run(ns, i as nat) == (bg_views(bgs@), ap_views(aps@)),
            decreases nodes@.len() - i,
        {
            let node = &nodes[i];
            let ghost st = (bg_views(bgs@), ap_views(aps@));
            let q = node.get_pron().is_question();
            let ghost aps0 = aps@;
            if q && aps.len() > 0 {
                let last = aps.len() - 1;
                aps[last].set_interrogative();
            }
            proof {
                assert(ns[i as int] == node@);
                if q && aps0.len() > 0 {
                    assert(ap_views(aps@) =~= ap_views(aps0).update(aps0.len() - 1, APView { interrogative: true, ..ap_views(aps0).last() }));
                } else {
                    assert(ap_views(aps@) =~= ap_views(aps0));
                }
            }
            let ghost aps1 = aps@;
            if node.get_pron().is_touten() || q {
                let mut done: Vec<AccentPhrase> = Vec::new();
                std::mem::swap(&mut aps, &mut done);
                let ghost old_bgs = bgs@;
                bgs.push(BreathGroup::new(done));
                proof {
                    assert(bg_views(bgs@) =~= bg_views(old_bgs).push(ap_views(aps1)));
                    assert(ap_views(aps@) =~= Seq::<APView>::empty());
                }
            } else if node.get_chain_flag() == Some(true) {
                if aps.len() > 0 {
                    let last = aps.len() - 1;
                    aps[last].push_node(node);
                    proof {
                        assert(ap_views(aps@) =~= ap_views(aps1).update(last as int, APView { words: ap_views(aps1).last().words.push(word_of(node@)), ..ap_views(aps1).last() }));
                    }
                }
            } else {
                let ap = AccentPhrase::new(node);
                aps.push(ap);
                proof {
                    assert(ap_views(aps@) =~= ap_views(aps1).push(new_ap(node@)));
                }
            }
            i = i + 1;
        }
        if aps.len() > 0 {
            let ghost old_bgs = bgs@;
            let ghost last = aps@;
            bgs.push(BreathGroup::new(aps));
            proof {
                assert(bg_views(bgs@) =~= bg_views(old_bgs).push(ap_views(last)));
            }
        }
        Utterance { breath_groups: bgs }
    }

    /// The number of sounded morae.
    pub fn count_mora(&self) -> (r: usize)
        requires
            utt_moras(self@) <= usize::MAX,
        ensures
            r == utt_moras(self@),
    {
        let ghost cs = bg_counts(self@);
        let mut total: usize = 0;
        let mut i: usize = 0;
        while i < self.breath_groups.len()
            invariant
                cs == bg_counts(self@),
                cs.len() == self.breath_groups@.len(),
                i <= self.breath_groups@.len(),
                total == sum(cs.take(i as int)),
                sum(cs) <= usize::MAX,
            decreases self.breath_groups@.len() - i,
        {
            proof {
                lemma_sum_prefix(cs, i as int);
                assert(cs[i as int] == bg_moras(self.breath_groups@[i as int]@));
            }
            total = total + self.breath_groups[i].count_mora();
            i = i + 1;
        }
        proof {
            assert(cs.take(i as int) =~= cs);
        }
        total
    }

    /// The number of accent phrases.
    pub fn count_accent_phrase(&self) -> (r: usize)
        requires
            utt_aps(self@) <= usize::MAX,
        ensures
            r == utt_aps(self@),
    {
        let ghost cs = bg_sizes(self@);
        let mut total: usize = 0;
        let mut i: usize = 0;
        while i < self.breath_groups.len()
            invariant
                cs == bg_sizes(self@),
                cs.len() == self.breath_groups@.len(),
                i <= self.breath_groups@.len(),
                total == sum(cs.take(i as int)),
                sum(cs) <= usize::MAX,
            decreases self.breath_groups@.len() - i,
        {
            proof {
                lemma_sum_prefix(cs, i as int);
                assert(cs[i as int] == self.breath_groups@[i as int]@.len());
            }
            total = total + self.breath_groups[i].count_accent_phrase();
            i = i + 1;
        }
        proof {
            assert(cs.take(i as int) =~= cs);
        }
        total
    }

    /// The label part for the utterance.
    pub fn to_k(&self) -> (r: String)
        requires
            utt_moras(self@) <= usize::MAX,
            utt_aps(self@) <= usize::MAX,
        ensures
            r@ == k_text(self@),
    {
        let mut s = String::from_str("/K:");
        push_ul(&mut s, Limit::S, self.breath_groups.len());
        push_str(&mut s, "+");
        push_ul(&mut s, Limit::M, self.count_accent_phrase());
        push_str(&mut s, "-");
        push_ul(&mut s, Limit::LL, self.count_mora());
        s
    }
}

/// The mora lengths of words.
pub open spec fn word_lens(ws: Seq<WordView>) -> Seq<nat> {
    ws.map_values(|w: WordView| w.moras.len())
}

/// The phrases before breath group `bi`.
pub open spec fn aps_before(u: Seq<Seq<APView>>, bi: int) -> nat {
    sum(bg_sizes(u).take(bi))
}

/// The sounded morae before breath group `bi`.
pub open spec fn moras_before(u: Seq<Seq<APView>>, bi: int) -> nat {
    sum(bg_counts(u).take(bi))
}

/// The sounded morae of a breath group before its phrase `ai`.
pub open spec fn moras_before_in_bg(bg: Seq<APView>, ai: int) -> nat {
    sum(ap_counts(bg).take(ai))
}

#[verifier::opaque]
/// The label parts `B` to `K` of the morae of word `wi` of phrase `ai` of
/// breath group `bi`: the neighbouring words (across phrase boundaries
/// within the group), the neighbouring phrases within the group, the
/// current phrase and its place, the neighbouring groups, the current
/// group and its place, and the utterance.
pub open spec fn word_rest(u: Seq<Seq<APView>>, bi: int, ai: int, wi: int) -> Seq<char> {
    let bg = u[bi];
    let ap = bg[ai];
    let ws = ap.words;
    let b = if wi > 0 {
        word_part("/B:"@, ws[wi - 1], '-', '_')
    } else if ai > 0 && bg[ai - 1].words.len() > 0 {
        word_part("/B:"@, bg[ai - 1].words.last(), '-', '_')
    } else {
        default_b()
    };
    let c = word_part("/C:"@, ws[wi], '_', '+');
    let d = if wi + 1 < ws.len() {
        word_part("/D:"@, ws[wi + 1], '+', '_')
    } else if ai + 1 < bg.len() && bg[ai + 1].words.len() > 0 {
        word_part("/D:"@, bg[ai + 1].words[0], '+', '_')
    } else {
        default_d()
    };
    let e = if ai > 0 {
        e_text(bg[ai - 1], Some(ai == bg.len() - 1))
    } else {
        default_e()
    };
    let f = f_text(ap, bg.len() as int, ai, bg_moras(bg) as int, moras_before_in_bg(bg, ai) as int);
    let g = if ai + 1 < bg.len() {
        g_text(bg[ai + 1], Some(ai == 0))
    } else {
        default_g()
    };
    let h = if bi > 0 {
        hj_text("/H:"@, u[bi - 1])
    } else {
        default_h()
    };
    let i = i_text(
        bg,
        u.len() as int,
        bi,
        utt_aps(u) as int,
        aps_before(u, bi) as int,
        utt_moras(u) as int,
        moras_before(u, bi) as int,
    );
    let j = if bi + 1 < u.len() {
        hj_text("/J:"@, u[bi + 1])
    } else {
        default_j()
    };
    b + c + d + e + f + g + h + i + j + k_text(u)
}

/// A phoneme and its label.
pub type PhonemeLabel = (Seq<char>, Seq<char>);

/// The phonemes of a mora, each with the label `label`: its consonant, if
/// any, then its vowel, if any (in capitals when unvoiced).
pub open spec fn mora_phonemes(m: Mora, label: Seq<char>) -> Seq<PhonemeLabel> {
    let (c, v) = m.mora_enum.spec_phonemes();
    (match c {
        Some(c) => seq![(c.text(), label)],
        None => Seq::<PhonemeLabel>::empty(),
    }) + (match v {
        Some(v) => seq![(v.text(m.is_voiced), label)],
        None => Seq::<PhonemeLabel>::empty(),
    })
}

/// The phonemes of the morae `ms` of a word whose first mora is mora
/// `start` of the phrase `ap`.
pub open spec fn word_phonemes(ms: Seq<Mora>, ap: APView, start: int, rest: Seq<char>) -> Seq<PhonemeLabel>
    decreases ms.len(),
{
    if ms.len() == 0 {
        Seq::empty()
    } else {
        word_phonemes(ms.drop_last(), ap, start, rest) + mora_phonemes(
            ms.last(),
            a_text(ap, start + ms.len() - 1) + rest,
        )
    }
}

/// The phonemes of the first `k` words of phrase `ai` of group `bi`.
pub open spec fn ap_phonemes(u: Seq<Seq<APView>>, bi: int, ai: int, k: nat) -> Seq<PhonemeLabel>
    decreases k,
{
    if k == 0 {
        Seq::empty()
    } else {
        let ap = u[bi][ai];
        ap_phonemes(u, bi, ai, (k - 1) as nat) + word_phonemes(
            ap.words[k - 1].moras,
            ap,
            sum(word_lens(ap.words).take(k - 1)) as int,
            word_rest(u, bi, ai, k - 1),
        )
    }
}

/// The phonemes of the first `k` phrases of group `bi`.
pub open spec fn bg_body(u: Seq<Seq<APView>>, bi: int, k: nat) -> Seq<PhonemeLabel>
    decreases k,
{
    if k == 0 {
        Seq::empty()
    } else {
        bg_body(u, bi, (k - 1) as nat) + ap_phonemes(u, bi, k - 1, u[bi][k - 1].words.len())
    }
}

/// The phonemes of breath group `bi`: silence (before the first group) or
/// a pause, the phonemes of its phrases, and silence after the last group.
pub open spec fn bg_phonemes(u: Seq<Seq<APView>>, bi: int) -> Seq<PhonemeLabel> {
    let lead = if bi > 0 {
        seq![("pau"@, pau_text(u, Some(u[bi - 1]), Some(u[bi]), false, false))]
    } else {
        seq![("sil"@, pau_text(u, None, Some(u[bi]), false, bi + 1 >= u.len()))]
    };
    let tail = if bi + 1 >= u.len() {
        seq![("sil"@, pau_text(u, Some(u[bi]), None, bi == 0, false))]
    } else {
        Seq::<PhonemeLabel>::empty()
    };
    lead + bg_body(u, bi, u[bi].len()) + tail
}

/// The phonemes of the first `k` breath groups.
pub open spec fn utt_phonemes(u: Seq<Seq<APView>>, k: nat) -> Seq<PhonemeLabel>
    decreases k,
{
    if k == 0 {
        Seq::empty()
    } else {
        utt_phonemes(u, (k - 1) as nat) + bg_phonemes(u, k - 1)
    }
}

/// The phonemes of an utterance with their labels.
pub open spec fn utterance_phonemes(u: Seq<Seq<APView>>) -> Seq<PhonemeLabel> {
    utt_phonemes(u, u.len())
}

/// The values of phoneme and label pairs.
pub open spec fn pair_views(v: Seq<(String, String)>) -> Seq<PhonemeLabel> {
    v.map_values(|p: (String, String)| (p.0@, p.1@))
}

/// Appends `(a, b)`.
fn push_pair(out: &mut Vec<(String, String)>, a: String, b: String)
    ensures
        pair_views(final(out)@) == pair_views(old(out)@).push((a@, b@)),
{
    out.push((a, b));
    proof {
        assert(pair_views(out@) =~= pair_views(old(out)@).push((a@, b@)));
    }
}

/// Appends the phonemes of a mora.
fn push_mora_phonemes(out: &mut Vec<(String, String)>, m: Mora, label: &String)
    ensures
        pair_views(final(out)@) == pair_views(old(out)@) + mora_phonemes(m, label@),
{
    let (c, v) = m.phonemes();
    let ghost start = pair_views(out@);
    if let Some(c) = c {
        push_pair(out, String::from_str(c.as_str()), label.clone());
    }
    let ghost mid = pair_views(out@);
    if let Some(v) = v {
        push_pair(out, String::from_str(v.as_str(m.is_voiced)), label.clone());
    }
    proof {
        assert(pair_views(out@) =~= start + mora_phonemes(m, label@));
    }
}

/// Appends the phonemes of the morae of `word`, the first of which is mora
/// `start` of its phrase.
fn push_word_phonemes(
    out: &mut Vec<(String, String)>,
    word: &Word,
    ap: &AccentPhrase,
    mora_a: &Vec<String>,
    start: usize,
    rest: &String,
)
    requires
        start + word@.moras.len() <= mora_a@.len(),
        forall|i: int| 0 <= i < mora_a@.len() ==> (#[trigger] mora_a@[i])@ == a_text(ap@, i),
    ensures
        pair_views(final(out)@) == pair_views(old(out)@) + word_phonemes(word@.moras, ap@, start as int, rest@),
{
    let ghost base = pair_views(out@);
    let ms = &word.moras.moras;
    let n_a = mora_a.len();
    let mut j: usize = 0;
    while j < ms.len()
        invariant
            j <= ms@.len(),
            ms@ == word@.moras,
            n_a == mora_a@.len(),
            start + ms@.len() <= n_a,
            forall|i: int| 0 <= i < mora_a@.len() ==> (#[trigger] mora_a@[i])@ == a_text(ap@, i),
            pair_views(out@) == base + word_phonemes(ms@.take(j as int), ap@, start as int, rest@),
        decreases ms@.len() - j,
    {
        let mut label = mora_a[start + j].clone();
        label.append(rest.as_str());
        push_mora_phonemes(out, ms[j], &label);
        proof {
            let t = ms@.take(j as int + 1);
            assert(t.drop_last() =~= ms@.take(j as int));
            assert(t.last() == ms@[j as int]);
            assert(label@ == a_text(ap@, start + t.len() - 1) + rest@);
        }
        j = j + 1;
    }
    proof {
        assert(ms@.take(j as int) =~= ms@);
    }
}

/// The view of a breath group that may be missing.
pub open spec fn opt_bg(b: Option<&BreathGroup>) -> Option<Seq<APView>> {
    match b {
        Some(g) => Some(g@),
        None => None,
    }
}

/// The bounds that the labels of a breath group need.
pub open spec fn bg_ok(bg: Seq<APView>) -> bool {
    bg_moras(bg) < usize::MAX
}

/// The label of a pause or silence (see `pau_text`).
fn pau_feature(
    u: &Utterance,
    prev: Option<&BreathGroup>,
    next: Option<&BreathGroup>,
    ignore_b: bool,
    ignore_d: bool,
    k: &String,
) -> (r: String)
    requires
        k@ == k_text(u@),
        prev matches Some(b) ==> bg_ok(b@),
        next matches Some(b) ==> bg_ok(b@),
    ensures
        r@ == pau_text(u@, opt_bg(prev), opt_bg(next), ignore_b, ignore_d),
{
    reveal(pau_text);
    let ap_prev: Option<&AccentPhrase> = match prev {
        Some(bg) => if bg.accent_phrases.len() > 0 {
            proof {
                lemma_ap_le(bg@, bg@.len() - 1);
            }
            Some(&bg.accent_phrases[bg.accent_phrases.len() - 1])
        } else {
            None
        },
        None => None,
    };
    let ap_next: Option<&AccentPhrase> = match next {
        Some(bg) => if bg.accent_phrases.len() > 0 {
            proof {
                lemma_ap_le(bg@, bg@.len() - 1);
            }
            Some(&bg.accent_phrases[bg.accent_phrases.len() - 1])
        } else {
            None
        },
        None => None,
    };
    let mut s = String::from_str("/A:xx+xx+xx");
    match ap_prev {
        Some(ap) => if ap.words.len() > 0 && !ignore_b {
            s.append(ap.words[ap.words.len() - 1].to_b().as_str());
        } else {
            push_str(&mut s, "/B:xx-xx_xx");
        },
        None => push_str(&mut s, "/B:xx-xx_xx"),
    }
    push_str(&mut s, "/C:xx_xx+xx");
    match ap_next {
        Some(ap) => if ap.words.len() > 0 && !ignore_d {
            s.append(ap.words[ap.words.len() - 1].to_d().as_str());
        } else {
            push_str(&mut s, "/D:xx+xx_xx");
        },
        None => push_str(&mut s, "/D:xx+xx_xx"),
    }
    match ap_prev {
        Some(ap) => s.append(ap.to_e(None).as_str()),
        None => push_str(&mut s, "/E:xx_xx!xx_xx-xx"),
    }
    push_str(&mut s, "/F:xx_xx#xx_xx@xx_xx|xx_xx");
    match ap_next {
        Some(ap) => s.append(ap.to_g(None).as_str()),
        None => push_str(&mut s, "/G:xx_xx%xx_xx_xx"),
    }
    match prev {
        Some(bg) => s.append(bg.to_h().as_str()),
        None => push_str(&mut s, "/H:xx_xx"),
    }
    push_str(&mut s, "/I:xx-xx@xx+xx&xx-xx|xx+xx");
    match next {
        Some(bg) => s.append(bg.to_j().as_str()),
        None => push_str(&mut s, "/J:xx_xx"),
    }
    s.append(k.as_str());
    proof {
        let ap_p = match opt_bg(prev) {
            Some(bg) => if bg.len() > 0 { Some(bg.last()) } else { None },
            None => None,
        };
        assert(ap_p == match ap_prev { Some(a) => Some(a@), None => None::<APView> });
        let ap_n = match opt_bg(next) {
            Some(bg) => if bg.len() > 0 { Some(bg.last()) } else { None },
            None => None,
        };
        assert(ap_n == match ap_next { Some(a) => Some(a@), None => None::<APView> });
        if let Some(ap) = ap_prev {
            if ap.words@.len() > 0 {
                assert(ap@.words.last() == ap.words@[ap.words@.len() - 1]@);
            }
        }
        if let Some(ap) = ap_next {
            if ap.words@.len() > 0 {
                assert(ap@.words.last() == ap.words@[ap.words@.len() - 1]@);
            }
        }
    }
    s
}

/// The numbers of an utterance that every label of it uses.
pub struct UtteranceCounts {
    pub bgs: usize,
    pub aps: usize,
    pub moras: usize,
}

/// The place of a breath group in its utterance.
pub struct BgPlace {
    pub idx: usize,
    pub aps_before: usize,
    pub moras_before: usize,
    pub moras: usize,
}

pub open spec fn counts_ok(u: Seq<Seq<APView>>, c: UtteranceCounts) -> bool {
    c.bgs == u.len() && c.aps == utt_aps(u) && c.moras == utt_moras(u)
}

pub open spec fn place_ok(u: Seq<Seq<APView>>, p: BgPlace) -> bool {
    &&& p.idx < u.len()
    &&& p.aps_before == aps_before(u, p.idx as int)
    &&& p.moras_before == moras_before(u, p.idx as int)
    &&& p.moras == bg_moras(u[p.idx as int])
}

/// The label parts `B` to `K` of the morae of word `wi` of phrase `ai`.
fn word_rest_exec(
    u: &Utterance,
    c: &UtteranceCounts,
    p: &BgPlace,
    ai: usize,
    moras_in_bg: usize,
    wi: usize,
    k: &String,
) -> (r: String)
    requires
        utterance_ok(u@),
        counts_ok(u@, *c),
        place_ok(u@, *p),
        ai < u@[p.idx as int].len(),
        moras_in_bg == moras_before_in_bg(u@[p.idx as int], ai as int),
        wi < u@[p.idx as int][ai as int].words.len(),
        k@ == k_text(u@),
    ensures
        r@ == word_rest(u@, p.idx as int, ai as int, wi as int),
{
    reveal(word_rest);
    let bi = p.idx;
    let ghost uv = u@;
    let bg = &u.breath_groups[bi];
    let aps = &bg.accent_phrases;
    let ap = &aps[ai];
    let ws = &ap.words;
    proof {
        assert(uv[bi as int] == bg@);
        assert(bg@[ai as int] == ap@);
        lemma_bg_le(uv, bi as int);
        lemma_sum_prefix_le(bg_sizes(uv), bi as int);
        lemma_sum_prefix_le(bg_counts(uv), bi as int);
        lemma_sum_prefix_le(ap_counts(bg@), ai as int);
        lemma_ap_le(bg@, ai as int);
        if ai > 0 {
            lemma_ap_le(bg@, ai - 1);
            assert(bg@[ai - 1] == aps@[ai - 1]@);
        }
        if ai + 1 < aps@.len() {
            lemma_ap_le(bg@, ai + 1);
            assert(bg@[ai + 1] == aps@[ai + 1]@);
        }
        if bi > 0 {
            lemma_bg_le(uv, bi - 1);
            assert(uv[bi - 1] == u.breath_groups@[bi - 1]@);
        }
        if bi + 1 < uv.len() {
            lemma_bg_le(uv, bi + 1);
            assert(uv[bi + 1] == u.breath_groups@[bi + 1]@);
        }
        assert(ap@.words[wi as int] == ws@[wi as int]@);
        if wi > 0 {
            assert(ap@.words[wi - 1] == ws@[wi - 1]@);
        }
        if wi + 1 < ws@.len() {
            assert(ap@.words[wi + 1] == ws@[wi + 1]@);
        }
    }
    let mut s = if wi > 0 {
        ws[wi - 1].to_b()
    } else if ai > 0 && aps[ai - 1].words.len() > 0 {
        let pw = &aps[ai - 1].words;
        proof {
            assert(aps@[ai - 1]@.words.last() == pw@[pw@.len() - 1]@);
        }
        pw[pw.len() - 1].to_b()
    } else {
        String::from_str("/B:xx-xx_xx")
    };
    s.append(ws[wi].to_c().as_str());
    if wi < ws.len() - 1 {
        s.append(ws[wi + 1].to_d().as_str());
    } else if ai < aps.len() - 1 && aps[ai + 1].words.len() > 0 {
        proof {
            assert(aps@[ai + 1]@.words[0] == aps@[ai + 1].words@[0]@);
        }
        s.append(aps[ai + 1].words[0].to_d().as_str());
    } else {
        push_str(&mut s, "/D:xx+xx_xx");
    }
    if ai > 0 {
        s.append(aps[ai - 1].to_e(Some(ai == aps.len() - 1)).as_str());
    } else {
        push_str(&mut s, "/E:xx_xx!xx_xx-xx");
    }
    s.append(ap.to_f(aps.len(), ai, p.moras, moras_in_bg).as_str());
    if ai < aps.len() - 1 {
        s.append(aps[ai + 1].to_g(Some(ai == 0)).as_str());
    } else {
        push_str(&mut s, "/G:xx_xx%xx_xx_xx");
    }
    if bi > 0 {
        s.append(u.breath_groups[bi - 1].to_h().as_str());
    } else {
        push_str(&mut s, "/H:xx_xx");
    }
    s.append(bg.to_i(c.bgs, bi, c.aps, p.aps_before, c.moras, p.moras_before).as_str());
    if bi < u.breath_groups.len() - 1 {
        s.append(u.breath_groups[bi + 1].to_j().as_str());
    } else {
        push_str(&mut s, "/J:xx_xx");
    }
    s.append(k.as_str());
    s
}

/// In a phrase whose morae are all sounded, word lengths are word counts.
proof fn lemma_lens_are_counts(ap: APView)
    requires
        ap_all_sounded(ap),
    ensures
        word_lens(ap.words) == word_counts(ap.words),
{
    assert forall|w: int| 0 <= w < ap.words.len() implies word_lens(ap.words)[w] == word_counts(ap.words)[w] by {
        assert(mora_count(ap.words[w].moras) == ap.words[w].moras.len());
    }
    assert(word_lens(ap.words) =~= word_counts(ap.words));
}

/// Appends the phonemes of phrase `ai` of the breath group at `p`.
fn push_ap_phonemes(
    out: &mut Vec<(String, String)>,
    u: &Utterance,
    c: &UtteranceCounts,
    p: &BgPlace,
    ai: usize,
    moras_in_bg: usize,
    k: &String,
)
    requires
        utterance_ok(u@),
        counts_ok(u@, *c),
        place_ok(u@, *p),
        ai < u@[p.idx as int].len(),
        moras_in_bg == moras_before_in_bg(u@[p.idx as int], ai as int),
        k@ == k_text(u@),
    ensures
        pair_views(final(out)@) == pair_views(old(out)@) + ap_phonemes(
            u@,
            p.idx as int,
            ai as int,
            u@[p.idx as int][ai as int].words.len(),
        ),
{
    let ghost uv = u@;
    let ghost bi = p.idx as int;
    let ghost base = pair_views(out@);
    let ap = &u.breath_groups[p.idx].accent_phrases[ai];
    proof {
        assert(uv[bi] == u.breath_groups@[bi]@);
        assert(uv[bi][ai as int] == ap@);
        lemma_bg_le(uv, bi);
        lemma_ap_le(uv[bi], ai as int);
        assert(ap_all_sounded(uv[bi][ai as int]));
        lemma_lens_are_counts(ap@);
    }
    let mora_a = ap.generate_mora_a();
    let ghost lens = word_lens(ap@.words);
    let mut start: usize = 0;
    let mut wi: usize = 0;
    while wi < ap.words.len()
        invariant
            uv == u@,
            utterance_ok(uv),
            counts_ok(uv, *c),
            place_ok(uv, *p),
            bi == p.idx as int,
            ai < uv[bi].len(),
            uv[bi][ai as int] == ap@,
            moras_in_bg == moras_before_in_bg(uv[bi], ai as int),
            k@ == k_text(uv),
            lens == word_lens(ap@.words),
            lens == word_counts(ap@.words),
            ap_moras(ap@) < usize::MAX,
            mora_a@.len() == ap_moras(ap@),
            forall|i: int| 0 <= i < mora_a@.len() ==> (#[trigger] mora_a@[i])@ == a_text(ap@, i),
            wi <= ap.words@.len(),
            start == sum(lens.take(wi as int)),
            pair_views(out@) == base + ap_phonemes(uv, bi, ai as int, wi as nat),
        decreases ap.words@.len() - wi,
    {
        proof {
            lemma_sum_prefix(lens, wi as int);
            assert(lens[wi as int] == ap.words@[wi as int]@.moras.len());
        }
        let rest = word_rest_exec(u, c, p, ai, moras_in_bg, wi, k);
        push_word_phonemes(out, &ap.words[wi], ap, &mora_a, start, &rest);
        proof {
            assert(ap@.words[wi as int] == ap.words@[wi as int]@);
        }
        start = start + ap.words[wi].moras.moras.len();
        wi = wi + 1;
    }
}

/// Appends the phonemes of the breath group at `p`.
fn push_bg_phonemes(out: &mut Vec<(String, String)>, u: &Utterance, c: &UtteranceCounts, p: &BgPlace, k: &String)
    requires
        utterance_ok(u@),
        counts_ok(u@, *c),
        place_ok(u@, *p),
        k@ == k_text(u@),
    ensures
        pair_views(final(out)@) == pair_views(old(out)@) + bg_phonemes(u@, p.idx as int),
{
    let ghost uv = u@;
    let ghost bi = p.idx as int;
    let ghost base = pair_views(out@);
    let bg = &u.breath_groups[p.idx];
    proof {
        assert(uv[bi] == bg@);
        lemma_bg_le(uv, bi);
        if bi > 0 {
            lemma_bg_le(uv, bi - 1);
            assert(uv[bi - 1] == u.breath_groups@[bi - 1]@);
        }
    }
    if p.idx > 0 {
        let f = pau_feature(u, Some(&u.breath_groups[p.idx - 1]), Some(bg), false, false, k);
        push_pair(out, String::from_str("pau"), f);
    } else {
        let last = p.idx + 1 >= u.breath_groups.len();
        let f = pau_feature(u, None, Some(bg), false, last, k);
        push_pair(out, String::from_str("sil"), f);
    }
    let ghost after_lead = pair_views(out@);
    let aps = &bg.accent_phrases;
    let mut moras_in_bg: usize = 0;
    let mut ai: usize = 0;
    while ai < aps.len()
        invariant
            uv == u@,
            utterance_ok(uv),
            counts_ok(uv, *c),
            place_ok(uv, *p),
            bi == p.idx as int,
            uv[bi] == bg@,
            aps@ == bg.accent_phrases@,
            aps@.len() == uv[bi].len(),
            bg_moras(bg@) < usize::MAX,
            k@ == k_text(uv),
            ai <= aps@.len(),
            moras_in_bg == moras_before_in_bg(bg@, ai as int),
            pair_views(out@) == after_lead + bg_body(uv, bi, ai as nat),
        decreases aps@.len() - ai,
    {
        proof {
            lemma_sum_prefix(ap_counts(bg@), ai as int);
            lemma_sum_prefix_le(ap_counts(bg@), ai as int + 1);
            lemma_ap_le(bg@, ai as int);
            assert(ap_views(aps@)[ai as int] == aps@[ai as int]@);
            assert(bg@[ai as int] == aps@[ai as int]@);
            assert(ap_counts(bg@)[ai as int] == ap_moras(aps@[ai as int]@));
        }
        push_ap_phonemes(out, u, c, p, ai, moras_in_bg, k);
        moras_in_bg = moras_in_bg + aps[ai].count_mora();
        ai = ai + 1;
    }
    if p.idx + 1 >= u.breath_groups.len() {
        let f = pau_feature(u, Some(bg), None, p.idx == 0, false, k);
        push_pair(out, String::from_str("sil"), f);
    }
    proof {
        assert(pair_views(out@) =~= base + bg_phonemes(uv, bi));
    }
}

/// The phonemes of an utterance, each with its context label.
pub fn utterance_to_phoneme_vec(u: &Utterance) -> (r: Vec<(String, String)>)
    requires
        utterance_ok(u@),
    ensures
        pair_views(r@) == utterance_phonemes(u@),
{
    let ghost uv = u@;
    let c = UtteranceCounts { bgs: u.breath_groups.len(), aps: u.count_accent_phrase(), moras: u.count_mora() };
    let k = u.to_k();
    let mut out: Vec<(String, String)> = Vec::new();
    let mut aps_before_n: usize = 0;
    let mut moras_before_n: usize = 0;
    let mut bi: usize = 0;
    proof {
        assert(pair_views(out@) =~= utt_phonemes(uv, 0));
    }
    while bi < u.breath_groups.len()
        invariant
            uv == u@,
            utterance_ok(uv),
            counts_ok(uv, c),
            k@ == k_text(uv),
            bi <= uv.len(),
            aps_before_n == aps_before(uv, bi as int),
            moras_before_n == moras_before(uv, bi as int),
            pair_views(out@) == utt_phonemes(uv, bi as nat),
        decreases uv.len() - bi,
    {
        proof {
            lemma_sum_prefix(bg_sizes(uv), bi as int);
            lemma_sum_prefix(bg_counts(uv), bi as int);
            lemma_bg_le(uv, bi as int);
            assert(uv[bi as int] == u.breath_groups@[bi as int]@);
        }
        let bg = &u.breath_groups[bi];
        let p = BgPlace { idx: bi, aps_before: aps_before_n, moras_before: moras_before_n, moras: bg.count_mora() };
        push_bg_phonemes(&mut out, u, &c, &p, &k);
        aps_before_n = aps_before_n + bg.accent_phrases.len();
        moras_before_n = moras_before_n + p.moras;
        bi = bi + 1;
    }
    out
}

/// Whether every mora of every word of a phrase is sounded.
fn ap_sounded_exec(ap: &AccentPhrase) -> (r: bool)
    ensures
        r == ap_all_sounded(ap@),
{
    let mut i: usize = 0;
    while i < ap.words.len()
        invariant
            i <= ap.words@.len(),
            forall|w: int| 0 <= w < i ==> mora_count(#[trigger] ap@.words[w].moras) == ap@.words[w].moras.len(),
        decreases ap.words@.len() - i,
    {
        proof {
            assert(ap@.words[i as int] == ap.words@[i as int]@);
        }
        if ap.words[i].count_mora() != ap.words[i].moras.moras.len() {
            return false;
        }
        i = i + 1;
    }
    true
}

impl Utterance {
    /// Whether labels can be made for the utterance: its counts fit the
    /// machine and every mora of every word is sounded.
    pub fn is_labelable(&self) -> (r: bool)
        ensures
            r == utterance_ok(self@),
    {
        let ghost uv = self@;
        let mut moras: usize = 0;
        let mut aps: usize = 0;
        let mut b: usize = 0;
        let mut fits = true;
        let mut sounded = true;
        while b < self.breath_groups.len()
            invariant
                uv == self@,
                b <= uv.len(),
                fits ==> moras == sum(bg_counts(uv).take(b as int)) && aps == sum(bg_sizes(uv).take(b as int)),
                fits ==> moras < usize::MAX && aps < usize::MAX,
                !fits ==> (utt_moras(uv) >= usize::MAX || utt_aps(uv) >= usize::MAX),
                sounded == (forall|bb: int, a: int| 0 <= bb < b && 0 <= a < uv[bb].len() ==> #[trigger] ap_all_sounded(uv[bb][a])),
            decreases uv.len() - b,
        {
            let bg = &self.breath_groups[b];
            proof {
                assert(uv[b as int] == bg@);
                lemma_sum_prefix(bg_counts(uv), b as int);
                lemma_sum_prefix(bg_sizes(uv), b as int);
            }
            let mut a: usize = 0;
            let mut bg_sounded = true;
            let mut bg_m: usize = 0;
            let mut bg_fits = true;
            while a < bg.accent_phrases.len()
                invariant
                    a <= bg@.len(),
                    bg@.len() == bg.accent_phrases@.len(),
                    bg_sounded == (forall|x: int| 0 <= x < a ==> #[trigger] ap_all_sounded(bg@[x])),
                    bg_fits ==> bg_m == sum(ap_counts(bg@).take(a as int)) && bg_m < usize::MAX,
                    !bg_fits ==> bg_moras(bg@) >= usize::MAX,
                decreases bg@.len() - a,
            {
                let ap = &bg.accent_phrases[a];
                proof {
                    assert(bg@[a as int] == ap@);
                    lemma_sum_prefix(ap_counts(bg@), a as int);
                    lemma_sum_prefix_le(ap_counts(bg@), a as int + 1);
                }
                if !ap_sounded_exec(ap) {
                    bg_sounded = false;
                }
                if bg_fits {
                    let ghost cs = word_counts(ap@.words);
                    let mut w: usize = 0;
                    let mut m: usize = 0;
                    let mut ok = true;
                    while w < ap.words.len()
                        invariant
                            cs == word_counts(ap@.words),
                            cs.len() == ap.words@.len(),
                            w <= ap.words@.len(),
                            ok ==> m == sum(cs.take(w as int)) && m < usize::MAX,
                            !ok ==> sum(cs) >= usize::MAX,
                        decreases ap.words@.len() - w,
                    {
                        proof {
                            lemma_sum_prefix(cs, w as int);
                            lemma_sum_prefix_le(cs, w as int + 1);
                            assert(cs[w as int] == mora_count(ap.words@[w as int]@.moras));
                        }
                        if ok {
                            let c = ap.words[w].count_mora();
                            if c < usize::MAX - m {
                                m = m + c;
                            } else {
                                ok = false;
                            }
                        }
                        w = w + 1;
                    }
                    proof {
                        assert(cs.take(w as int) =~= cs);
                    }
                    if ok && m < usize::MAX - bg_m {
                        bg_m = bg_m + m;
                    } else {
                        bg_fits = false;
                    }
                }
                a = a + 1;
            }
            proof {
                assert(ap_counts(bg@).take(a as int) =~= ap_counts(bg@));
            }
            if !bg_sounded {
                sounded = false;
            }
            if fits {
                if bg_fits && bg_m < usize::MAX - moras && bg.accent_phrases.len() < usize::MAX - aps {
                    moras = moras + bg_m;
                    aps = aps + bg.accent_phrases.len();
                } else {
                    fits = false;
                    proof {
                        lemma_sum_prefix_le(bg_counts(uv), b as int + 1);
                        lemma_sum_prefix_le(bg_sizes(uv), b as int + 1);
                    }
                }
            }
            b = b + 1;
        }
        proof {
            assert(bg_counts(uv).take(b as int) =~= bg_counts(uv));
            assert(bg_sizes(uv).take(b as int) =~= bg_sizes(uv));
        }
        fits && sounded
    }
}

/// The full-context label of phoneme `i`: the phonemes two before to two
/// after it (`xx` beyond the ends), then its label.
pub open spec fn fullcontext_at(ps: Seq<PhonemeLabel>, i: int) -> Seq<char> {
    let p = |j: int| if 0 <= j < ps.len() {
        ps[j].0
    } else {
        "xx"@
    };
    p(i - 2) + "^"@ + p(i - 1) + "-"@ + p(i) + "+"@ + p(i + 1) + "="@ + p(i + 2) + ps[i].1
}

/// The full-context labels of the phonemes `ps`.
pub open spec fn fullcontext(ps: Seq<PhonemeLabel>) -> Seq<Seq<char>> {
    Seq::new(ps.len(), |i: int| fullcontext_at(ps, i))
}

/// The phoneme at `i - back` (`xx` before the start).
fn phoneme_before(v: &Vec<(String, String)>, i: usize, back: usize) -> (r: String)
    requires
        i < v@.len(),
    ensures
        r@ == (if 0 <= i - back < v@.len() {
            v@[i - back].0@
        } else {
            "xx"@
        }),
{
    if i >= back {
        v[i - back].0.clone()
    } else {
        String::from_str("xx")
    }
}

/// The phoneme at `i + fwd` (`xx` after the end).
fn phoneme_after(v: &Vec<(String, String)>, i: usize, fwd: usize) -> (r: String)
    requires
        i < v@.len(),
    ensures
        r@ == (if 0 <= i + fwd < v@.len() {
            v@[i + fwd].0@
        } else {
            "xx"@
        }),
{
    if v.len() - i > fwd {
        v[i + fwd].0.clone()
    } else {
        String::from_str("xx")
    }
}

/// The full-context labels of an utterance.
pub fn utterance_to_features(u: &Utterance) -> (r: Vec<String>)
    requires
        utterance_ok(u@),
    ensures
        crate::text::views(r@) == fullcontext(utterance_phonemes(u@)),
{
    let v = utterance_to_phoneme_vec(u);
    let ghost ps = pair_views(v@);
    let mut out: Vec<String> = Vec::new();
    let mut i: usize = 0;
    while i < v.len()
        invariant
            ps == pair_views(v@),
            ps == utterance_phonemes(u@),
            i <= v@.len(),
            crate::text::views(out@) == fullcontext(ps).take(i as int),
        decreases v@.len() - i,
    {
        let mut s = phoneme_before(&v, i, 2);
        push_str(&mut s, "^");
        s.append(phoneme_before(&v, i, 1).as_str());
        push_str(&mut s, "-");
        s.append(phoneme_before(&v, i, 0).as_str());
        push_str(&mut s, "+");
        s.append(phoneme_after(&v, i, 1).as_str());
        push_str(&mut s, "=");
        s.append(phoneme_after(&v, i, 2).as_str());
        s.append(v[i].1.as_str());
        let ghost before = out@;
        out.push(s);
        proof {
            assert(s@ == fullcontext_at(ps, i as int));
            assert(crate::text::views(out@) =~= crate::text::views(before).push(s@));
            assert(fullcontext(ps).take(i as int + 1) =~= fullcontext(ps).take(i as int).push(s@));
        }
        i = i + 1;
    }
    proof {
        assert(fullcontext(ps).take(i as int) =~= fullcontext(ps));
    }
    out
}

/// The full-context labels of the words `njd_nodes`.
pub fn njdnodes_to_features(njd_nodes: &[NJDNode]) -> (r: Vec<String>)
    requires
        utterance_ok(utterance_of(njd_nodes@.map_values(|n: NJDNode| n@))),
    ensures
        crate::text::views(r@) == fullcontext(utterance_phonemes(utterance_of(njd_nodes@.map_values(|n: NJDNode| n@)))),
{
    let u = Utterance::from_nodes(njd_nodes);
    utterance_to_features(&u)
}

} // verus!
