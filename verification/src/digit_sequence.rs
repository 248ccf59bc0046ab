//! Sequences of digits: whether a digit sequence is read as a number
//! (百二十三) or digit by digit (いちにーさん), and the conversion of the
//! sequence's words for either reading.

use vstd::prelude::*;

use crate::accent_rule::{chain_rules_of, small_int_of, ChainRules};
use crate::cform::{lemma_cform_label_parses, CForm};
use crate::ctype::{lemma_ctype_label_parses, CType};
use crate::mora::{spec_double_mora, Mora};
use crate::pos::lemma_pos_labels_parse;
use crate::pronunciation::{first_mora, parse_moras, pron_of};
use crate::text::{has_char, join_spec, lemma_split_join};
use crate::node::{acc_of, csv_fields, details_of, flag_of, read_of};
use crate::accent_type::with_accent;
use crate::digit::{is_period, kazu, normalize_digit, normalized_node, spec_is_period, with_chain};
use crate::njd::audible;
use crate::mora::MoraEnum;
use crate::njd::NJD;
use crate::node::{node_views, reset_node, single_of, DetailsView, NJDNode, NodeView};
use crate::pos::{Meishi, Settoushi, Setsubi, POS};
use crate::pronunciation::Pronunciation;
use crate::set_pronunciation::{voiced_moras, with_pron};
use crate::text::str_eq;

verus! {

pub const HAIHUN1: &'static str = "―";
pub const HAIHUN2: &'static str = "−";
pub const HAIHUN3: &'static str = "‐";
pub const HAIHUN4: &'static str = "—";
pub const HAIHUN5: &'static str = "－";
pub const KAKKO1: &'static str = "（";
pub const KAKKO2: &'static str = "）";
pub const BANGOU: &'static str = "番号";

/// A dash or hyphen.
pub open spec fn is_haihun(s: Seq<char>) -> bool {
    s == HAIHUN1@ || s == HAIHUN2@ || s == HAIHUN3@ || s == HAIHUN4@ || s == HAIHUN5@
}

fn is_haihun_exec(s: &str) -> (r: bool)
    ensures
        r == is_haihun(s@),
{
    str_eq(s, HAIHUN1) || str_eq(s, HAIHUN2) || str_eq(s, HAIHUN3) || str_eq(s, HAIHUN4) || str_eq(s, HAIHUN5)
}

/// What the words before a digit sequence starting at `start` say for
/// reading it as a number (positive) or digit by digit (negative).
pub open spec fn score_start_of(ns: Seq<NodeView>, start: int) -> int {
    if start <= 0 {
        0
    } else {
        let p1 = ns[start - 1];
        let s1: int = if p1.details.pos == POS::Settoushi(Settoushi::SuuSetsuzoku) {
            2
        } else if p1.details.pos == POS::Meishi(Meishi::FukushiKanou) || p1.details.pos == POS::Meishi(
            Meishi::Setsubi(Setsubi::Josuushi),
        ) {
            1
        } else {
            0
        };
        let p2_kazu = start > 1 && kazu(ns[start - 2]);
        let p2_bangou = start > 1 && ns[start - 2].string == BANGOU@;
        let s2: int = if spec_is_period(p1.string) {
            if p2_kazu {
                -5
            } else {
                0
            }
        } else if is_haihun(p1.string) || (p1.string == KAKKO1@ && p2_kazu) || p1.string == KAKKO2@ || p1.string
            == BANGOU@ {
            -2
        } else {
            0
        };
        s1 + s2 + if p2_bangou {
            -2int
        } else {
            0
        }
    }
}

/// What the words after a digit sequence ending at `end` say.
pub open spec fn score_end_of(ns: Seq<NodeView>, end: int) -> int {
    if end + 1 < ns.len() {
        let n = ns[end + 1];
        let s1: int = if n.details.pos == POS::Meishi(Meishi::FukushiKanou) || n.details.pos == POS::Meishi(
            Meishi::Setsubi(Setsubi::Josuushi),
        ) {
            2
        } else {
            0
        };
        let s2: int = if is_haihun(n.string) || n.string == KAKKO1@ {
            -2
        } else if n.string == KAKKO2@ {
            if end + 2 < ns.len() && kazu(ns[end + 2]) {
                -2
            } else {
                0
            }
        } else if n.string == BANGOU@ {
            -2
        } else if spec_is_period(n.string) {
            4
        } else {
            0
        };
        s1 + s2
    } else {
        0
    }
}

fn score_start(njd: &NJD, start: usize) -> (r: i8)
    requires
        start <= njd@.len(),
    ensures
        r == score_start_of(njd@, start as int),
{
    if start == 0 {
        return 0;
    }
    let p1 = &njd.nodes[start - 1];
    let p = *p1.get_pos();
    let s1: i8 = if p == POS::Settoushi(Settoushi::SuuSetsuzoku) {
        2
    } else if p == POS::Meishi(Meishi::FukushiKanou) || p == POS::Meishi(Meishi::Setsubi(Setsubi::Josuushi)) {
        1
    } else {
        0
    };
    let (p2_kazu, p2_bangou) = if start > 1 {
        let n = &njd.nodes[start - 2];
        (n.get_pos().is_kazu(), str_eq(n.get_string(), BANGOU))
    } else {
        (false, false)
    };
    let s = p1.get_string();
    let s2: i8 = if is_period(s) {
        if p2_kazu {
            -5
        } else {
            0
        }
    } else if is_haihun_exec(s) || (str_eq(s, KAKKO1) && p2_kazu) || str_eq(s, KAKKO2) || str_eq(s, BANGOU) {
        -2
    } else {
        0
    };
    let s3: i8 = if p2_bangou {
        -2
    } else {
        0
    };
    s1 + s2 + s3
}

fn score_end(njd: &NJD, end: usize) -> (r: i8)
    ensures
        r == score_end_of(njd@, end as int),
{
    let len = njd.nodes.len();
    if !(end < len && len - end > 1) {
        return 0;
    }
    let n = &njd.nodes[end + 1];
    let p = *n.get_pos();
    let s1: i8 = if p == POS::Meishi(Meishi::FukushiKanou) || p == POS::Meishi(Meishi::Setsubi(Setsubi::Josuushi)) {
        2
    } else {
        0
    };
    let s = n.get_string();
    let s2: i8 = if is_haihun_exec(s) || str_eq(s, KAKKO1) {
        -2
    } else if str_eq(s, KAKKO2) {
        if len - end > 2 && njd.nodes[end + 2].get_pos().is_kazu() {
            -2
        } else {
            0
        }
    } else if str_eq(s, BANGOU) {
        -2
    } else if is_period(s) {
        4
    } else {
        0
    };
    s1 + s2
}

/// What the words around a digit sequence from `start` to `end` say for
/// reading it as a number (at least 0) or digit by digit.
pub fn score(njd: &NJD, start: usize, end: usize) -> (r: i8)
    requires
        start <= njd@.len(),
    ensures
        r == score_start_of(njd@, start as int) + score_end_of(njd@, end as int),
{
    score_start(njd, start) + score_end(njd, end)
}

/// The dictionary line of the power of ten `10^k` within a block of four digits.
pub open spec fn numeral_list2(k: int) -> Seq<char> {
    if k == 0 {
        ""@
    } else if k == 1 {
        "十,名詞,数,*,*,*,*,十,ジュウ,ジュー,1/2,*"@
    } else if k == 2 {
        "百,名詞,数,*,*,*,*,百,ヒャク,ヒャク,2/2,*"@
    } else if k == 3 {
        "千,名詞,数,*,*,*,*,千,セン,セン,1/2,*"@
    } else {
        ""@
    }
}

fn numeral_list2_exec(k: usize) -> (r: &'static str)
    ensures
        r@ == numeral_list2(k as int),
{
    if k == 0 {
        ""
    } else if k == 1 {
        "十,名詞,数,*,*,*,*,十,ジュウ,ジュー,1/2,*"
    } else if k == 2 {
        "百,名詞,数,*,*,*,*,百,ヒャク,ヒャク,2/2,*"
    } else if k == 3 {
        "千,名詞,数,*,*,*,*,千,セン,セン,1/2,*"
    } else {
        ""
    }
}

/// The dictionary line of the `k`-th power of ten thousand.
pub open spec fn numeral_list3(k: int) -> Seq<char> {
    if k == 0 {
        ""@
    } else if k == 1 {
        "万,名詞,数,*,*,*,*,万,マン,マン,1/2,*"@
    } else if k == 2 {
        "億,名詞,数,*,*,*,*,億,オク,オク,1/2,*"@
    } else if k == 3 {
        "兆,名詞,数,*,*,*,*,兆,チョウ,チョー,1/2,C3"@
    } else if k == 4 {
        "京,名詞,数,*,*,*,*,京,ケイ,ケー,1/2,*"@
    } else if k == 5 {
        "垓,名詞,数,*,*,*,*,垓,ガイ,ガイ,1/2,*"@
    } else if k == 6 {
        "𥝱,名詞,数,*,*,*,*,𥝱,ジョ,ジョ,1/1,*"@
    } else if k == 7 {
        "穣,名詞,数,*,*,*,*,穣,ジョウ,ジョー,1/2,*"@
    } else if k == 8 {
        "溝,名詞,数,*,*,*,*,溝,コウ,コウ,1/2,*"@
    } else if k == 9 {
        "澗,名詞,数,*,*,*,*,澗,カン,カン,1/2,*"@
    } else if k == 10 {
        "正,名詞,数,*,*,*,*,正,セイ,セー,1/2,*"@
    } else if k == 11 {
        "載,名詞,数,*,*,*,*,載,サイ,サイ,1/2,*"@
    } else if k == 12 {
        "極,名詞,数,*,*,*,*,極,ゴク,ゴク,1/2,*"@
    } else if k == 13 {
        "恒河沙,名詞,数,*,*,*,*,恒河沙,ゴウガシャ,ゴウガシャ,1/4,*"@
    } else if k == 14 {
        "阿僧祇,名詞,数,*,*,*,*,阿僧祇,アソウギ,アソーギ,2/4,*"@
    } else if k == 15 {
        "那由他,名詞,数,*,*,*,*,那由他,ナユタ,ナユタ,1/3,*"@
    } else if k == 16 {
        "不可思議,名詞,数,*,*,*,*,不可思議,フカシギ,フカシギ,2/4,*"@
    } else if k == 17 {
        "無量大数,名詞,数,*,*,*,*,無量大数,ムリョウタイスウ,ムリョータイスー,6/7,*"@
    } else {
        ""@
    }
}

fn numeral_list3_exec(k: usize) -> (r: &'static str)
    ensures
        r@ == numeral_list3(k as int),
{
    if k == 0 {
        ""
    } else if k == 1 {
        "万,名詞,数,*,*,*,*,万,マン,マン,1/2,*"
    } else if k == 2 {
        "億,名詞,数,*,*,*,*,億,オク,オク,1/2,*"
    } else if k == 3 {
        "兆,名詞,数,*,*,*,*,兆,チョウ,チョー,1/2,C3"
    } else if k == 4 {
        "京,名詞,数,*,*,*,*,京,ケイ,ケー,1/2,*"
    } else if k == 5 {
        "垓,名詞,数,*,*,*,*,垓,ガイ,ガイ,1/2,*"
    } else if k == 6 {
        "𥝱,名詞,数,*,*,*,*,𥝱,ジョ,ジョ,1/1,*"
    } else if k == 7 {
        "穣,名詞,数,*,*,*,*,穣,ジョウ,ジョー,1/2,*"
    } else if k == 8 {
        "溝,名詞,数,*,*,*,*,溝,コウ,コウ,1/2,*"
    } else if k == 9 {
        "澗,名詞,数,*,*,*,*,澗,カン,カン,1/2,*"
    } else if k == 10 {
        "正,名詞,数,*,*,*,*,正,セイ,セー,1/2,*"
    } else if k == 11 {
        "載,名詞,数,*,*,*,*,載,サイ,サイ,1/2,*"
    } else if k == 12 {
        "極,名詞,数,*,*,*,*,極,ゴク,ゴク,1/2,*"
    } else if k == 13 {
        "恒河沙,名詞,数,*,*,*,*,恒河沙,ゴウガシャ,ゴウガシャ,1/4,*"
    } else if k == 14 {
        "阿僧祇,名詞,数,*,*,*,*,阿僧祇,アソウギ,アソーギ,2/4,*"
    } else if k == 15 {
        "那由他,名詞,数,*,*,*,*,那由他,ナユタ,ナユタ,1/3,*"
    } else if k == 16 {
        "不可思議,名詞,数,*,*,*,*,不可思議,フカシギ,フカシギ,2/4,*"
    } else if k == 17 {
        "無量大数,名詞,数,*,*,*,*,無量大数,ムリョウタイスウ,ムリョータイスー,6/7,*"
    } else {
        ""
    }
}

/// A run of digit words: where it starts and ends, its digits, and how it
/// is to be read (as a number, or digit by digit), once known.
pub struct DigitSequence {
    pub start: usize,
    pub end: usize,
    pub digits: Vec<u8>,
    pub is_numerical_reading: Option<bool>,
}

/// `n` with no chain rules.
pub open spec fn without_rules(n: NodeView) -> NodeView {
    NodeView { details: DetailsView { chain_rule: ChainRules::none(), ..n.details }, ..n }
}

/// Digit `i` (of `len`) of a sequence read digit by digit: 0, 2 and 5 take
/// their long readings, rules are dropped, and digits are paired into
/// phrases (each even digit starts one and, unless last, has accent 3).
pub open spec fn digit_read_node(n: NodeView, d: u8, i: int, len: int) -> NodeView {
    let n1 = if d == 0 {
        with_pron(n, voiced_moras(seq![MoraEnum::Ze, MoraEnum::Ro]), 1)
    } else if d == 2 {
        with_pron(n, voiced_moras(seq![MoraEnum::Ni, MoraEnum::Long]), 1)
    } else if d == 5 {
        with_pron(n, voiced_moras(seq![MoraEnum::Go, MoraEnum::Long]), 1)
    } else {
        n
    };
    let n2 = without_rules(n1);
    if i % 2 == 0 {
        let n3 = with_chain(n2, false);
        if i != len - 1 {
            with_accent(n3, 3)
        } else {
            n3
        }
    } else {
        with_chain(n2, true)
    }
}

/// The words after converting the digits from `start` for reading digit
/// by digit.
pub open spec fn non_numerical(ns: Seq<NodeView>, start: int, digits: Seq<u8>) -> Seq<NodeView> {
    Seq::new(
        ns.len(),
        |j: int|
            if start <= j && j - start < digits.len() {
                digit_read_node(ns[j], digits[j - start], j - start, digits.len() as int)
            } else {
                ns[j]
            },
    )
}

/// The first `k` words with the commas from `start` to `end` dropped, and
/// how many were dropped.
pub open spec fn drop_commas(ns: Seq<NodeView>, start: int, end: int, k: nat) -> (Seq<NodeView>, nat)
    decreases k,
{
    if k == 0 {
        (Seq::empty(), 0)
    } else {
        let (r, c) = drop_commas(ns, start, end, (k - 1) as nat);
        let j = k - 1;
        if start <= j <= end && ns[j].string == "，"@ {
            (r, c + 1)
        } else {
            (r.push(ns[j]), c)
        }
    }
}

/// The state of the numerical conversion: the words, whether the current
/// block of four digits has a non-zero digit, and how many words were
/// inserted.
pub type NumState = (Seq<NodeView>, bool, int);

/// `ns` with the word of the CSV line `csv` inserted at `i`, when the line
/// reads to one word, and whether it did.
pub open spec fn inserted(ns: Seq<NodeView>, i: int, csv: Seq<char>) -> (Seq<NodeView>, bool) {
    match single_of(csv) {
        Some(x) => (ns.insert(i, x), true),
        None => (ns, false),
    }
}

/// Step `i` of the numerical conversion of the digits `d` from `start`: a
/// zero digit's word is emptied; the end of each block of four digits
/// gets its power of ten thousand (if the block had a non-zero digit);
/// within a block, a 1 becomes the power of ten itself and other non-zero
/// digits are followed by it.
pub open spec fn num_step(st: Option<NumState>, i: int, start: int, d: Seq<u8>) -> Option<NumState> {
    match st {
        None => None,
        Some((ns, have, offset)) => {
            let idx = start + i + offset;
            if !(0 <= idx < ns.len()) {
                None
            } else {
                let rev = d.len() - i - 1;
                let ns1 = if d[i] == 0 {
                    ns.update(idx, reset_node())
                } else {
                    ns
                };
                let have1 = have || d[i] != 0;
                if rev % 4 == 0 {
                    if have1 && rev > 0 {
                        let (ns2, did) = inserted(ns1, idx + 1, numeral_list3(rev / 4));
                        Some((ns2, false, if did {
                            offset + 1
                        } else {
                            offset
                        }))
                    } else {
                        Some((ns1, false, offset))
                    }
                } else if d[i] == 0 {
                    Some((ns1, have1, offset))
                } else if d[i] == 1 {
                    match single_of(numeral_list2(rev % 4)) {
                        Some(x) => Some((ns1.update(idx, x), have1, offset)),
                        None => Some((ns1, have1, offset)),
                    }
                } else {
                    let (ns2, did) = inserted(ns1, idx + 1, numeral_list2(rev % 4));
                    Some((ns2, have1, if did {
                        offset + 1
                    } else {
                        offset
                    }))
                }
            }
        },
    }
}

/// The first `k` steps of the numerical conversion.
pub open spec fn num_run(ns: Seq<NodeView>, start: int, d: Seq<u8>, k: nat) -> Option<NumState>
    decreases k,
{
    if k == 0 {
        Some((ns, false, 0))
    } else {
        num_step(num_run(ns, start, d, (k - 1) as nat), k - 1, start, d)
    }
}

/// The words after converting the digits `d` from `start` to `end` for
/// reading as a number, and the change in the number of words: commas in
/// the sequence are dropped first; a sequence of more than 72 digits is
/// left as it is (and the number of dropped commas is given). `None` where
/// a digit has no word to convert.
pub open spec fn numerical(ns: Seq<NodeView>, start: int, end: int, d: Seq<u8>) -> Option<(Seq<NodeView>, int)> {
    let (ns1, c) = drop_commas(ns, start, end, ns.len());
    if d.len() > 72 {
        Some((ns1, c as int))
    } else {
        match num_run(ns1, start, d, d.len()) {
            Some((ns2, _, off)) => Some((ns2, off - c)),
            None => None,
        }
    }
}

proof fn lemma_drop_commas(ns: Seq<NodeView>, start: int, end: int, k: nat)
    requires
        k <= ns.len(),
    ensures
        drop_commas(ns, start, end, k).0.len() + drop_commas(ns, start, end, k).1 == k,
    decreases k,
{
    if k > 0 {
        lemma_drop_commas(ns, start, end, (k - 1) as nat);
    }
}

proof fn lemma_num_run_prefix(ns: Seq<NodeView>, start: int, d: Seq<u8>, k: nat, j: nat)
    requires
        j <= k,
        num_run(ns, start, d, k) is Some,
    ensures
        num_run(ns, start, d, j) is Some,
    decreases k,
{
    if j < k {
        lemma_num_run_prefix(ns, start, d, (k - 1) as nat, j);
    }
}

proof fn lemma_num_run_bounds(ns: Seq<NodeView>, start: int, d: Seq<u8>, k: nat)
    requires
        num_run(ns, start, d, k) is Some,
    ensures
        0 <= num_run(ns, start, d, k).unwrap().2 <= k,
        num_run(ns, start, d, k).unwrap().0.len() == ns.len() + num_run(ns, start, d, k).unwrap().2,
    decreases k,
{
    if k > 0 {
        lemma_num_run_prefix(ns, start, d, k, (k - 1) as nat);
        lemma_num_run_bounds(ns, start, d, (k - 1) as nat);
    }
}

/// Inserts the word of the CSV line `csv` at `i`, when the line reads to
/// one word; returns whether it did.
fn insert_at(nodes: &mut Vec<NJDNode>, i: usize, csv: &str) -> (r: bool)
    requires
        i <= old(nodes)@.len(),
    ensures
        (node_views(final(nodes)@), r) == inserted(node_views(old(nodes)@), i as int, csv@),
        final(nodes)@.len() == old(nodes)@.len() + if r { 1int } else { 0 },
{
    match NJDNode::try_single(csv) {
        Some(x) => {
            nodes.insert(i, x);
            proof {
                assert(node_views(nodes@) =~= node_views(old(nodes)@).insert(i as int, x@));
            }
            true
        },
        None => false,
    }
}

/// Converts word `k`, digit `i` of `nd` digits `d` of a sequence read
/// digit by digit.
fn read_digit_at(nodes: &mut Vec<NJDNode>, k: usize, d: u8, i: usize, nd: usize)
    requires
        k < old(nodes)@.len(),
        i < nd,
    ensures
        final(nodes)@.len() == old(nodes)@.len(),
        node_views(final(nodes)@) == node_views(old(nodes)@).update(
            k as int,
            digit_read_node(old(nodes)@[k as int]@, d, i as int, nd as int),
        ),
{
    let mut n = nodes[k].clone();
    if d == 0 {
        n.set_pron(Pronunciation::from_enums(&[MoraEnum::Ze, MoraEnum::Ro], 1));
    } else if d == 2 {
        n.set_pron(Pronunciation::from_enums(&[MoraEnum::Ni, MoraEnum::Long], 1));
    } else if d == 5 {
        n.set_pron(Pronunciation::from_enums(&[MoraEnum::Go, MoraEnum::Long], 1));
    }
    n.unset_chain_rule();
    if i % 2 == 0 {
        n.set_chain_flag(false);
        if i != nd - 1 {
            n.get_pron_mut().set_accent(3);
        }
    } else {
        n.set_chain_flag(true);
    }
    proof {
        assert(n@.details.moras =~= digit_read_node(old(nodes)@[k as int]@, d, i as int, nd as int).details.moras);
    }
    nodes.set(k, n);
    proof {
        assert(node_views(nodes@) =~= node_views(old(nodes)@).update(
            k as int,
            digit_read_node(old(nodes)@[k as int]@, d, i as int, nd as int),
        ));
    }
}

impl DigitSequence {
    /// A digit sequence.
    pub fn new(start: usize, end: usize, digits: Vec<u8>, is_numerical_reading: Option<bool>) -> (r: DigitSequence)
        ensures
            r.start == start,
            r.end == end,
            r.digits@ == digits@,
            r.is_numerical_reading == is_numerical_reading,
    {
        DigitSequence { start, end, digits, is_numerical_reading }
    }

    /// Decides, unless already decided, to read the sequence as a number
    /// when the words around it score at least 0.
    pub fn estimate_numerical_reading(&mut self, njd: &NJD)
        requires
            old(self).is_numerical_reading is None ==> old(self).start <= njd@.len(),
        ensures
            final(self).start == old(self).start,
            final(self).end == old(self).end,
            final(self).digits@ == old(self).digits@,
            final(self).is_numerical_reading == match old(self).is_numerical_reading {
                Some(b) => Some(b),
                None => Some(score_start_of(njd@, old(self).start as int) + score_end_of(njd@, old(self).end as int) >= 0),
            },
    {
        if self.is_numerical_reading.is_none() {
            self.is_numerical_reading = Some(score(njd, self.start, self.end) >= 0);
        }
    }

    /// Converts the digits for reading digit by digit.
    fn convert_for_non_numerical_reading(&self, njd: &mut NJD)
        requires
            self.start <= old(njd)@.len(),
        ensures
            final(njd)@ == non_numerical(old(njd)@, self.start as int, self.digits@),
    {
        let ghost ns0 = njd@;
        let len = njd.nodes.len();
        let nd = self.digits.len();
        let mut i: usize = 0;
        while i < nd && i < len - self.start
            invariant
                ns0.len() == len,
                njd.nodes@.len() == len,
                nd == self.digits@.len(),
                self.start <= len,
                i <= nd,
                i <= len - self.start,
                forall|j: int| 0 <= j < len ==> #[trigger] njd@[j] == if self.start <= j < self.start + i {
                    non_numerical(ns0, self.start as int, self.digits@)[j]
                } else {
                    ns0[j]
                },
            decreases nd - i,
        {
            let k = self.start + i;
            let d = self.digits[i];
            let ghost before = njd@;
            assert(before[k as int] == ns0[k as int]);
            read_digit_at(&mut njd.nodes, k, d, i, nd);
            i = i + 1;
        }
        proof {
            assert(njd@ =~= non_numerical(ns0, self.start as int, self.digits@));
        }
    }

    /// Converts the digits for reading as a number (see `numerical`);
    /// returns the change in the number of words.
    fn convert_for_numerical_reading(&self, njd: &mut NJD) -> (r: i64)
        requires
            old(njd)@.len() <= i64::MAX,
            numerical(old(njd)@, self.start as int, self.end as int, self.digits@) is Some,
        ensures
            (final(njd)@, r as int) == numerical(old(njd)@, self.start as int, self.end as int, self.digits@).unwrap(),
    {
        let ghost ns0 = njd@;
        let len = njd.nodes.len();
        let mut out: Vec<NJDNode> = Vec::new();
        let mut removed: usize = 0;
        let mut j: usize = 0;
        while j < len
            invariant
                ns0 == njd@,
                len == ns0.len(),
                j <= len,
                (node_views(out@), removed as nat) == drop_commas(ns0, self.start as int, self.end as int, j as nat),
            decreases len - j,
        {
            proof {
                lemma_drop_commas(ns0, self.start as int, self.end as int, j as nat);
            }
            if self.start <= j && j <= self.end && str_eq(njd.nodes[j].get_string(), "，") {
                removed = removed + 1;
            } else {
                let ghost before = out@;
                let n = njd.nodes[j].clone();
                out.push(n);
                proof {
                    assert(node_views(out@) =~= node_views(before).push(ns0[j as int]));
                }
            }
            j = j + 1;
        }
        proof {
            lemma_drop_commas(ns0, self.start as int, self.end as int, len as nat);
        }
        njd.nodes = out;
        let nd = self.digits.len();
        if nd > 72 {
            return removed as i64;
        }
        let ghost ns1 = njd@;
        proof {
            lemma_num_run_prefix(ns1, self.start as int, self.digits@, nd as nat, 0);
        }
        let mut have = false;
        let mut offset: usize = 0;
        let mut i: usize = 0;
        while i < nd
            invariant
                nd == self.digits@.len(),
                nd <= 72,
                i <= nd,
                ns1.len() <= i64::MAX,
                num_run(ns1, self.start as int, self.digits@, nd as nat) is Some,
                num_run(ns1, self.start as int, self.digits@, i as nat) == Some((njd@, have, offset as int)),
                njd.nodes@.len() == ns1.len() + offset,
                offset <= i,
            decreases nd - i,
        {
            proof {
                lemma_num_run_prefix(ns1, self.start as int, self.digits@, nd as nat, i as nat + 1);
                assert(num_run(ns1, self.start as int, self.digits@, (i + 1) as nat) == num_step(
                    num_run(ns1, self.start as int, self.digits@, i as nat),
                    i as int,
                    self.start as int,
                    self.digits@,
                ));
                assert(self.start + i + offset < njd@.len());
            }
            let _cur_len = njd.nodes.len();
            let idx = self.start + i + offset;
            let rev = nd - i - 1;
            let d = self.digits[i];
            let ghost st = njd@;
            if d == 0 {
                njd.nodes[idx].reset();
                proof {
                    assert(njd@ =~= st.update(idx as int, reset_node()));
                }
            } else {
                have = true;
            }
            if rev % 4 == 0 {
                if have && rev > 0 {
                    if insert_at(&mut njd.nodes, idx + 1, numeral_list3_exec(rev / 4)) {
                        offset = offset + 1;
                    }
                }
                have = false;
            } else if d == 1 {
                if let Some(x) = NJDNode::try_single(numeral_list2_exec(rev % 4)) {
                    let ghost s1 = njd@;
                    njd.nodes.set(idx, x);
                    proof {
                        assert(njd@ =~= s1.update(idx as int, x@));
                    }
                }
            } else if d != 0 {
                if insert_at(&mut njd.nodes, idx + 1, numeral_list2_exec(rev % 4)) {
                    offset = offset + 1;
                }
            }
            i = i + 1;
        }
        proof {
            lemma_num_run_bounds(ns1, self.start as int, self.digits@, nd as nat);
        }
        offset as i64 - removed as i64
    }

    /// Converts the words of the sequence for its reading, after moving it
    /// by `offset` words; returns the change in the number of words.
    pub fn convert(&mut self, njd: &mut NJD, offset: i64) -> (r: i64)
        requires
            old(self).is_numerical_reading is Some,
            old(self).start <= i64::MAX,
            old(self).end <= i64::MAX,
            0 <= old(self).start + offset <= i64::MAX,
            0 <= old(self).end + offset <= i64::MAX,
            old(self).start + offset <= usize::MAX,
            old(self).end + offset <= usize::MAX,
            old(njd)@.len() <= i64::MAX,
            old(self).is_numerical_reading == Some(true) ==> numerical(
                old(njd)@,
                old(self).start + offset,
                old(self).end + offset,
                old(self).digits@,
            ) is Some,
            old(self).is_numerical_reading == Some(false) ==> old(self).start + offset <= old(njd)@.len(),
        ensures
            final(self).start == old(self).start + offset,
            final(self).end == old(self).end + offset,
            final(self).digits@ == old(self).digits@,
            final(self).is_numerical_reading == old(self).is_numerical_reading,
            if old(self).is_numerical_reading == Some(true) {
                (final(njd)@, r as int) == numerical(
                    old(njd)@,
                    old(self).start + offset,
                    old(self).end + offset,
                    old(self).digits@,
                ).unwrap()
            } else {
                final(njd)@ == non_numerical(old(njd)@, old(self).start + offset, old(self).digits@) && r == 0
            },
    {
        let s = self.start as i64 + offset;
        let e = self.end as i64 + offset;
        self.start = s as usize;
        self.end = e as usize;
        assert(self.start == old(self).start + offset);
        assert(self.end == old(self).end + offset);
        match self.is_numerical_reading {
            Some(true) => self.convert_for_numerical_reading(njd),
            _ => {
                self.convert_for_non_numerical_reading(njd);
                0
            },
        }
    }

}


/// A digit sequence, as values.
pub struct SequenceView {
    pub start: int,
    pub end: int,
    pub digits: Seq<u8>,
    pub reading: Option<bool>,
}

impl View for DigitSequence {
    type V = SequenceView;

    open spec fn view(&self) -> SequenceView {
        SequenceView {
            start: self.start as int,
            end: self.end as int,
            digits: self.digits@,
            reading: self.is_numerical_reading,
        }
    }
}

/// The views of digit sequences.
pub open spec fn sequence_views(v: Seq<DigitSequence>) -> Seq<SequenceView> {
    v.map_values(|d: DigitSequence| d@)
}

/// The words, and the change in their number so far, after converting
/// sequence `s` moved by that change; `None` where its reading is not
/// decided, a position leaves the words or the machine's integers, or a
/// digit has no word to convert.
pub open spec fn sequence_step(st: Option<(Seq<NodeView>, int)>, s: SequenceView) -> Option<(Seq<NodeView>, int)> {
    match st {
        None => None,
        Some((ns, off)) => {
            let start = s.start + off;
            let end = s.end + off;
            if !(s.reading is Some && s.start <= i64::MAX && s.end <= i64::MAX && 0 <= start <= i64::MAX && 0 <= end
                <= i64::MAX && start <= usize::MAX && end <= usize::MAX && ns.len() <= i64::MAX) {
                None
            } else if s.reading == Some(true) {
                match numerical(ns, start, end, s.digits) {
                    Some((ns2, c)) => if i64::MIN <= off + c <= i64::MAX {
                        Some((ns2, off + c))
                    } else {
                        None
                    },
                    None => None,
                }
            } else if start <= ns.len() {
                Some((non_numerical(ns, start, s.digits), off))
            } else {
                None
            }
        },
    }
}

/// The first `k` sequences converted in order, each moved by the change
/// in the number of words that the ones before it made.
pub open spec fn sequences_run(ns: Seq<NodeView>, seqs: Seq<SequenceView>, k: nat) -> Option<(Seq<NodeView>, int)>
    decreases k,
{
    if k == 0 {
        Some((ns, 0))
    } else {
        sequence_step(sequences_run(ns, seqs, (k - 1) as nat), seqs[k - 1])
    }
}

/// The words with every numeral word's string in normal form.
pub open spec fn digits_normalized(ns: Seq<NodeView>) -> Seq<NodeView> {
    Seq::new(ns.len(), |i: int| normalized_node(ns[i]))
}

proof fn lemma_sequences_prefix(ns: Seq<NodeView>, seqs: Seq<SequenceView>, k: nat, j: nat)
    requires
        j <= k,
        sequences_run(ns, seqs, k) is Some,
    ensures
        sequences_run(ns, seqs, j) is Some,
    decreases k,
{
    if j < k {
        lemma_sequences_prefix(ns, seqs, (k - 1) as nat, j);
    }
}

/// Puts the string of every numeral word in normal form.
fn normalize_all(njd: &mut NJD)
    ensures
        final(njd)@ == digits_normalized(old(njd)@),
{
    let ghost ns0 = njd@;
    let n = njd.nodes.len();
    let mut i: usize = 0;
    while i < n
        invariant
            n == ns0.len(),
            njd.nodes@.len() == n,
            i <= n,
            forall|j: int| 0 <= j < i ==> #[trigger] njd@[j] == normalized_node(ns0[j]),
            forall|j: int| i <= j < n ==> #[trigger] njd@[j] == ns0[j],
        decreases n - i,
    {
        let ghost before = njd@;
        let ghost bnodes = njd.nodes@;
        assert(before[i as int] == ns0[i as int]);
        normalize_digit(&mut njd.nodes[i]);
        proof {
            assert(njd.nodes@ == bnodes.update(i as int, njd.nodes@[i as int]));
            assert(njd@ =~= before.update(i as int, normalized_node(ns0[i as int])));
        }
        i = i + 1;
    }
    proof {
        assert(njd@ =~= digits_normalized(ns0));
    }
}

/// The numerical conversion can be carried out exactly when every digit
/// has a word: the words after dropping commas reach past the last digit
/// (inserted words move the positions and the length alike).
proof fn lemma_num_run_some(ns: Seq<NodeView>, start: int, d: Seq<u8>, k: nat)
    requires
        0 <= start,
        k <= d.len(),
    ensures
        num_run(ns, start, d, k) is Some <==> (k == 0 || start + k <= ns.len()),
    decreases k,
{
    if k > 0 {
        lemma_num_run_some(ns, start, d, (k - 1) as nat);
        if num_run(ns, start, d, (k - 1) as nat) is Some {
            lemma_num_run_bounds(ns, start, d, (k - 1) as nat);
        }
    }
}

/// When the conversion of a sequence for reading as a number has a
/// result.
proof fn lemma_numerical_some(ns: Seq<NodeView>, start: int, end: int, d: Seq<u8>)
    requires
        0 <= start,
    ensures
        numerical(ns, start, end, d) is Some <==> (d.len() > 72 || d.len() == 0 || start + d.len() + drop_commas(
            ns,
            start,
            end,
            ns.len(),
        ).1 <= ns.len()),
{
    lemma_drop_commas(ns, start, end, ns.len());
    let ns1 = drop_commas(ns, start, end, ns.len()).0;
    lemma_num_run_some(ns1, start, d, d.len());
}

/// The number of commas `，` among the words from `start` to `end`.
fn count_commas(njd: &NJD, start: usize, end: usize) -> (r: usize)
    ensures
        r == drop_commas(njd@, start as int, end as int, njd@.len()).1,
{
    let ghost ns = njd@;
    let n = njd.nodes.len();
    let mut c: usize = 0;
    let mut j: usize = 0;
    while j < n
        invariant
            ns == njd@,
            n == ns.len(),
            j <= n,
            c == drop_commas(ns, start as int, end as int, j as nat).1,
        decreases n - j,
    {
        proof {
            lemma_drop_commas(ns, start as int, end as int, j as nat);
        }
        if start <= j && j <= end && str_eq(njd.nodes[j].get_string(), "，") {
            c = c + 1;
        }
        j = j + 1;
    }
    c
}

/// A copy of the digits.
fn copy_digits(v: &Vec<u8>) -> (r: Vec<u8>)
    ensures
        r@ == v@,
{
    let mut out: Vec<u8> = Vec::new();
    let mut i: usize = 0;
    while i < v.len()
        invariant
            i <= v@.len(),
            out@ == v@.take(i as int),
        decreases v@.len() - i,
    {
        out.push(v[i]);
        proof {
            assert(out@ =~= v@.take(i as int + 1));
        }
        i = i + 1;
    }
    proof {
        assert(v@.take(i as int) =~= v@);
    }
    out
}

/// A copy of the words.
fn copy_njd(njd: &NJD) -> (r: NJD)
    ensures
        r@ == njd@,
{
    let mut nodes: Vec<NJDNode> = Vec::new();
    let mut i: usize = 0;
    while i < njd.nodes.len()
        invariant
            i <= njd.nodes@.len(),
            node_views(nodes@) == node_views(njd.nodes@).take(i as int),
        decreases njd.nodes@.len() - i,
    {
        let c = njd.nodes[i].clone();
        assert(c@ == njd.nodes@[i as int]@);
        let ghost before = nodes@;
        nodes.push(c);
        proof {
            assert(node_views(nodes@) =~= node_views(before).push(c@));
            assert(node_views(nodes@) =~= node_views(njd.nodes@).take(i as int + 1));
        }
        i = i + 1;
    }
    proof {
        assert(node_views(njd.nodes@).take(i as int) =~= node_views(njd.nodes@));
    }
    NJD { nodes }
}

/// Whether the digit sequences `seqs` can be converted in the words, one
/// after the other (see `sequences_run`); the words are not changed.
pub fn sequences_fit(njd: &NJD, seqs: &Vec<DigitSequence>) -> (r: bool)
    ensures
        r == (sequences_run(digits_normalized(njd@), sequence_views(seqs@), seqs@.len()) is Some),
{
    let mut scratch = copy_njd(njd);
    normalize_all(&mut scratch);
    let ghost n1 = scratch@;
    let ghost sv = sequence_views(seqs@);
    let count = seqs.len();
    let mut offset: i64 = 0;
    let mut k: usize = 0;
    while k < count
        invariant
            n1 == digits_normalized(njd@),
            sv == sequence_views(seqs@),
            count == seqs@.len(),
            k <= count,
            sequences_run(n1, sv, k as nat) == Some((scratch@, offset as int)),
        decreases count - k,
    {
        let s = &seqs[k];
        let ghost sk = sv[k as int];
        assert(s@ == sk);
        proof {
            assert(sequences_run(n1, sv, k as nat + 1) == sequence_step(sequences_run(n1, sv, k as nat), sk));
        }
        let len = scratch.nodes.len();
        if s.is_numerical_reading.is_none() || (s.start as u64) > 0x7fff_ffff_ffff_ffff || (s.end as u64)
            > 0x7fff_ffff_ffff_ffff || (len as u64) > 0x7fff_ffff_ffff_ffff {
            proof {
                lemma_sequences_none_after(n1, sv, k as nat, count as nat);
            }
            return false;
        }
        let st = match (s.start as i64).checked_add(offset) {
            Some(v) => v,
            None => {
                proof {
                    lemma_sequences_none_after(n1, sv, k as nat, count as nat);
                }
                return false;
            },
        };
        let en = match (s.end as i64).checked_add(offset) {
            Some(v) => v,
            None => {
                proof {
                    lemma_sequences_none_after(n1, sv, k as nat, count as nat);
                }
                return false;
            },
        };
        if st < 0 || en < 0 || (st as u64) > (usize::MAX as u64) || (en as u64) > (usize::MAX as u64) {
            proof {
                lemma_sequences_none_after(n1, sv, k as nat, count as nat);
            }
            return false;
        }
        let stu = st as usize;
        let enu = en as usize;
        if s.is_numerical_reading == Some(true) {
            let nd = s.digits.len();
            if nd <= 72 && nd > 0 {
                let commas = count_commas(&scratch, stu, enu);
                proof {
                    lemma_drop_commas(scratch@, stu as int, enu as int, len as nat);
                }
                if stu > len - commas || nd > len - commas - stu {
                    proof {
                        lemma_numerical_some(scratch@, stu as int, enu as int, s.digits@);
                        lemma_sequences_none_after(n1, sv, k as nat, count as nat);
                    }
                    return false;
                }
            }
            proof {
                lemma_numerical_some(scratch@, stu as int, enu as int, s.digits@);
            }
        } else if stu > len {
            proof {
                lemma_sequences_none_after(n1, sv, k as nat, count as nat);
            }
            return false;
        }
        let mut seq = DigitSequence::new(s.start, s.end, copy_digits(&s.digits), s.is_numerical_reading);
        let c = seq.convert(&mut scratch, offset);
        match offset.checked_add(c) {
            Some(o) => {
                offset = o;
            },
            None => {
                proof {
                    lemma_sequences_none_after(n1, sv, k as nat, count as nat);
                }
                return false;
            },
        }
        k = k + 1;
    }
    true
}

/// Once the conversion of sequence `k` has no result, neither has that of
/// all `n` sequences.
proof fn lemma_sequences_none_after(ns: Seq<NodeView>, seqs: Seq<SequenceView>, k: nat, n: nat)
    requires
        k < n,
        sequences_run(ns, seqs, k + 1) is None,
    ensures
        sequences_run(ns, seqs, n) is None,
{
    if sequences_run(ns, seqs, n) is Some {
        lemma_sequences_prefix(ns, seqs, n, k + 1);
    }
}

/// Reads digit sequences: numeral words are put in normal form, then each
/// of `sequences` (the digit sequences of the words, in order) is
/// converted for its reading, moved by the change in the number of words
/// that the ones before it made; words left without morae are dropped.
pub fn njd_digit_sequence(njd: &mut NJD, sequences: Vec<DigitSequence>)
    requires
        sequences_run(digits_normalized(old(njd)@), sequence_views(sequences@), sequences@.len()) is Some,
    ensures
        final(njd)@ == audible(
            sequences_run(digits_normalized(old(njd)@), sequence_views(sequences@), sequences@.len()).unwrap().0,
        ),
{
    normalize_all(njd);
    let ghost n1 = njd@;
    let ghost sv = sequence_views(sequences@);
    let mut sequences = sequences;
    let count = sequences.len();
    let mut offset: i64 = 0;
    let mut k: usize = 0;
    while k < count
        invariant
            count == sv.len(),
            sequences@.len() == count,
            k <= count,
            sequences_run(n1, sv, count as nat) is Some,
            sequences_run(n1, sv, k as nat) == Some((njd@, offset as int)),
            forall|j: int| k <= j < count ==> (#[trigger] sequences@[j])@ == sv[j],
        decreases count - k,
    {
        proof {
            lemma_sequences_prefix(n1, sv, count as nat, k as nat + 1);
        }
        let ghost s = sv[k as int];
        assert(sequences@[k as int]@ == s);
        let c = sequences[k].convert(njd, offset);
        offset = offset + c;
        k = k + 1;
    }
    njd.remove_silent_node();
}


/// The dictionary line of the numeral 万 (ten thousand, マン).
pub open spec fn man_line() -> Seq<char> {
    "万,名詞,数,*,*,*,*,万,マン,マン,1/2,*"@
}

/// After the first step of the numerical conversion of five digits led by
/// a non-zero digit, the word after the first digit is the 万 word, and no
/// later step moves or changes it.
proof fn lemma_man_stays(ns: Seq<NodeView>, start: int, d: Seq<u8>, k: nat, x: NodeView)
    requires
        0 <= start,
        d.len() == 5,
        d[0] != 0,
        1 <= k <= 5,
        num_run(ns, start, d, k) is Some,
        single_of(man_line()) == Some(x),
    ensures
        num_run(ns, start, d, k).unwrap().2 >= 1,
        num_run(ns, start, d, k).unwrap().0.len() > start + 1,
        num_run(ns, start, d, k).unwrap().0[start + 1] == x,
    decreases k,
{
    lemma_num_run_prefix(ns, start, d, k, (k - 1) as nat);
    if k == 1 {
        assert(num_run(ns, start, d, 0) == Some((ns, false, 0int)));
        assert(numeral_list3(1) == man_line());
    } else {
        lemma_man_stays(ns, start, d, (k - 1) as nat, x);
        lemma_num_run_bounds(ns, start, d, (k - 1) as nat);
    }
}

/// Reading a five-digit number whose first digit is not zero (12345 is
/// 一万二千三百四十五): the word right after the first digit's word is the
/// word 万, ten thousand (マン), whatever the other digits and the words
/// around.
pub proof fn lemma_five_digits_read_man(ns: Seq<NodeView>, start: int, end: int, d: Seq<u8>)
    requires
        0 <= start,
        d.len() == 5,
        d[0] != 0,
        numerical(ns, start, end, d) is Some,
    ensures
        numerical(ns, start, end, d).unwrap().0.len() > start + 1,
        numerical(ns, start, end, d).unwrap().0[start + 1] == man_word(),
        numerical(ns, start, end, d).unwrap().0[start + 1].string == "万"@,
{
    let ns1 = drop_commas(ns, start, end, ns.len()).0;
    lemma_man_line_reads();
    lemma_man_stays(ns1, start, d, 5, man_word());
}


/// The word 万 as its dictionary line reads: 名詞,数, read and pronounced
/// マン, accent 1.
pub open spec fn man_word() -> NodeView {
    NodeView {
        string: "万"@,
        details: DetailsView {
            pos: POS::Meishi(Meishi::Kazu),
            ctype: CType::Unspecified,
            cform: CForm::Unspecified,
            read: Some("マン"@),
            moras: seq![
                Mora { mora_enum: MoraEnum::Ma, is_voiced: true },
                Mora { mora_enum: MoraEnum::N, is_voiced: true },
            ],
            accent: 1,
            chain_rule: ChainRules::none(),
            chain_flag: None,
        },
    }
}

/// The dictionary line of 万 reads as the one word 万.
proof fn lemma_man_line_reads()
    ensures
        single_of(man_line()) == Some(man_word()),
{
    reveal_strlit("万,名詞,数,*,*,*,*,万,マン,マン,1/2,*");
    reveal_strlit("万");
    reveal_strlit("名詞");
    reveal_strlit("数");
    reveal_strlit("*");
    reveal_strlit("マン");
    reveal_strlit("1/2");
    reveal_strlit("1");
    reveal_strlit("0");
    let f = seq!["万"@, "名詞"@, "数"@, "*"@, "*"@, "*"@, "*"@, "万"@, "マン"@, "マン"@, "1/2"@, "*"@];
    assert(man_line() =~= join_spec(f, ',')) by {
        reveal_with_fuel(join_spec, 13);
    }
    assert forall|i: int| 0 <= i < f.len() implies !has_char(#[trigger] f[i], ',') by {
        assert(!has_char("万"@, ','));
        assert(!has_char("名詞"@, ','));
        assert(!has_char("数"@, ','));
        assert(!has_char("*"@, ','));
        assert(!has_char("マン"@, ','));
        assert(!has_char("1/2"@, ','));
    }
    lemma_split_join(f, ',');
    let cf = csv_fields(man_line());
    assert(cf =~= f + seq![Seq::<char>::empty()]);
    let d = cf.skip(1);
    assert(!has_char("万"@, ':'));
    assert(d[6] == "万"@);
    lemma_pos_labels_parse(POS::Meishi(Meishi::Kazu));
    lemma_ctype_label_parses(CType::Unspecified);
    lemma_cform_label_parses(CForm::Unspecified);
    lemma_split_join(seq!["*"@], '・');
    assert(join_spec(seq!["*"@], '・') == "*"@);
    assert(!has_char("1"@, '/') && !has_char("2"@, '/')) by {
        reveal_strlit("2");
    }
    reveal_strlit("2");
    lemma_split_join(seq!["1"@, "2"@], '/');
    assert("1/2"@ =~= join_spec(seq!["1"@, "2"@], '/')) by {
        reveal_with_fuel(join_spec, 3);
    }
    assert(small_int_of("1"@) == Some(1int));
    assert(acc_of("1/2"@) == Some(1nat));
    assert(pron_of("マン"@) == Some(man_word().details.moras)) by {
        reveal_with_fuel(parse_moras, 3);
        let t = "マン"@;
        assert(t.skip(1) =~= seq!['ン']);
        assert(t.skip(1).skip(1) =~= Seq::<char>::empty());
        assert(spec_double_mora(('マ', 'ン')) is None);
        assert(first_mora(t) == Some((MoraEnum::Ma, 1int)));
        assert(first_mora(t.skip(1)) == Some((MoraEnum::N, 1int)));
    }
    assert(chain_rules_of("*"@) == Some(ChainRules::none()));
    assert(flag_of(Seq::<char>::empty()) is None);
    assert(read_of("マン"@) == Some("マン"@));
    assert(details_of(d) == Some(man_word().details));
}

} // verus!
