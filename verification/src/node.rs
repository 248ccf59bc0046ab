//! Words of an NJD (a sentence under analysis): their surface string and
//! their dictionary details, read from and written to the dictionary's
//! CSV form.

use vstd::prelude::*;

use crate::accent_rule::{
    chain_rules_of, lemma_dec_plain, lemma_dec_reads_back, lemma_rules_text_reads_back, rules_text, rules_writable, small_int,
    small_int_of, ChainRules,
};
use crate::cform::{c_form_of, lemma_cform_label_parses, CForm};
use crate::ctype::{c_type_of, lemma_ctype_label_parses, CType};
use crate::error::{JPreprocessErrorKind, JPreprocessResult};
use crate::mora::Mora;
use crate::pos::{lemma_pos_labels_parse, pos_of, Meishi, POS};
use crate::pronunciation::{lemma_pron_no_comma, mora_count, moras_text, pron_of, Pronunciation};
use crate::text::{
    dec, has_char, join_spec, join_strings, lemma_has_char_concat, lemma_split_join, push_dec, split_chars, split_spec, str_eq,
    views,
};

verus! {

/// The dictionary details of a word, as values.
pub struct DetailsView {
    pub pos: POS,
    pub ctype: CType,
    pub cform: CForm,
    pub read: Option<Seq<char>>,
    pub moras: Seq<Mora>,
    pub accent: nat,
    pub chain_rule: ChainRules,
    pub chain_flag: Option<bool>,
}

/// A word of an NJD, as values.
pub struct NodeView {
    pub string: Seq<char>,
    pub details: DetailsView,
}

/// The dictionary details of a word.
#[derive(Debug, PartialEq)]
pub struct WordDetails {
    pub pos: POS,
    pub ctype: CType,
    pub cform: CForm,
    pub read: Option<String>,
    pub pron: Pronunciation,
    pub chain_rule: ChainRules,
    pub chain_flag: Option<bool>,
}

impl View for WordDetails {
    type V = DetailsView;

    open spec fn view(&self) -> DetailsView {
        DetailsView {
            pos: self.pos,
            ctype: self.ctype,
            cform: self.cform,
            read: match self.read {
                Some(r) => Some(r@),
                None => None,
            },
            moras: self.pron.moras@,
            accent: self.pron.accent as nat,
            chain_rule: self.chain_rule,
            chain_flag: self.chain_flag,
        }
    }
}

/// The details of an unknown word: 名詞 with nothing else known.
pub open spec fn default_details() -> DetailsView {
    DetailsView {
        pos: POS::Meishi(Meishi::Unspecified),
        ctype: CType::Unspecified,
        cform: CForm::Unspecified,
        read: None,
        moras: Seq::empty(),
        accent: 0,
        chain_rule: ChainRules::none(),
        chain_flag: None,
    }
}

/// The accent of an `ACCENT/MORA_SIZE` field; `*` or nothing means 0.
pub open spec fn acc_of(s: Seq<char>) -> Option<nat> {
    if s == "*"@ || s.len() == 0 {
        Some(0)
    } else {
        match small_int_of(split_spec(s, '/')[0]) {
            Some(v) => if v >= 0 {
                Some(v as nat)
            } else {
                None
            },
            None => None,
        }
    }
}

/// The chain flag of a field: `1` chained, `0` not chained, else unknown.
pub open spec fn flag_of(s: Seq<char>) -> Option<bool> {
    if s == "1"@ {
        Some(true)
    } else if s == "0"@ {
        Some(false)
    } else {
        None
    }
}

/// The reading of a field: `*` means none.
pub open spec fn read_of(s: Seq<char>) -> Option<Seq<char>> {
    if s == "*"@ {
        None
    } else {
        Some(s)
    }
}

/// The details written by the twelve detail fields `d` (four part-of-speech
/// groups, conjugation type and form, base form, reading, pronunciation,
/// accent/mora size, chain rules, chain flag).
pub open spec fn details_of(d: Seq<Seq<char>>) -> Option<DetailsView> {
    match (
        pos_of(d[0], d[1], d[2], d[3]),
        c_type_of(split_spec(d[4], '・')[0]),
        c_form_of(d[5]),
        pron_of(d[8]),
        acc_of(d[9]),
        chain_rules_of(d[10]),
    ) {
        (Some(p), Some(ct), Some(cf), Some(ms), Some(a), Some(cr)) => Some(
            DetailsView {
                pos: p,
                ctype: ct,
                cform: cf,
                read: read_of(d[7]),
                moras: ms,
                accent: a,
                chain_rule: cr,
                chain_flag: flag_of(d[11]),
            },
        ),
        _ => None,
    }
}

/// Reads an `ACCENT/MORA_SIZE` field.
fn parse_acc(s: &str) -> (r: Option<usize>)
    ensures
        acc_of(s@) matches Some(a) ==> a < 1000000,
        match acc_of(s@) {
            Some(a) => r == Some(a as usize),
            None => r is None,
        },
{
    if str_eq(s, "*") || s.is_empty() {
        return Some(0);
    }
    let parts = split_chars(s, '/');
    proof {
        crate::text::lemma_split_nonempty(s@, '/');
        assert(views(parts@)[0] == parts@[0]@);
    }
    match small_int(parts[0].as_str()) {
        Some(v) => if v >= 0 {
            Some(v as usize)
        } else {
            None
        },
        None => None,
    }
}

fn parse_flag(s: &str) -> (r: Option<bool>)
    ensures
        r == flag_of(s@),
{
    if str_eq(s, "1") {
        Some(true)
    } else if str_eq(s, "0") {
        Some(false)
    } else {
        None
    }
}

impl WordDetails {
    /// The details of an unknown word.
    pub fn default() -> (r: WordDetails)
        ensures
            r@ == default_details(),
    {
        WordDetails {
            pos: POS::Meishi(Meishi::Unspecified),
            ctype: CType::Unspecified,
            cform: CForm::Unspecified,
            read: None,
            pron: Pronunciation::empty(),
            chain_rule: ChainRules::empty(),
            chain_flag: None,
        }
    }

    /// Reads the details from the twelve detail fields.
    pub fn load(d: &Vec<String>) -> (r: JPreprocessResult<WordDetails>)
        requires
            d@.len() == 12,
        ensures
            match r {
                Ok(w) => details_of(views(d@)) == Some(w@),
                Err(_) => details_of(views(d@)) is None,
            },
    {
        let ghost v = views(d@);
        assert(v[0] == d@[0]@ && v[1] == d@[1]@ && v[2] == d@[2]@ && v[3] == d@[3]@);
        assert(v[4] == d@[4]@ && v[5] == d@[5]@ && v[7] == d@[7]@ && v[8] == d@[8]@);
        assert(v[9] == d@[9]@ && v[10] == d@[10]@ && v[11] == d@[11]@);
        let pos = match POS::from_strs(d[0].as_str(), d[1].as_str(), d[2].as_str(), d[3].as_str()) {
            Ok(p) => p,
            Err(e) => {
                return Err(e);
            },
        };
        let ctype = match CType::from_str(d[4].as_str()) {
            Ok(p) => p,
            Err(e) => {
                return Err(e);
            },
        };
        let cform = match CForm::from_str(d[5].as_str()) {
            Ok(p) => p,
            Err(e) => {
                return Err(e);
            },
        };
        let accent = match parse_acc(d[9].as_str()) {
            Some(a) => a,
            None => {
                return Err(JPreprocessErrorKind::PronunciationParseError.with_error());
            },
        };
        let pron = match Pronunciation::parse(d[8].as_str(), accent) {
            Ok(p) => p,
            Err(e) => {
                return Err(e);
            },
        };
        let chain_rule = match ChainRules::from_str(d[10].as_str()) {
            Ok(p) => p,
            Err(e) => {
                return Err(e);
            },
        };
        let read = if str_eq(d[7].as_str(), "*") {
            None
        } else {
            Some(d[7].clone())
        };
        let chain_flag = parse_flag(d[11].as_str());
        let w = WordDetails { pos, ctype, cform, read, pron, chain_rule, chain_flag };
        assert(w@.pos == details_of(v).unwrap().pos);
        assert(w@.ctype == details_of(v).unwrap().ctype);
        assert(w@.cform == details_of(v).unwrap().cform);
        assert(w@.read == details_of(v).unwrap().read);
        assert(w@.moras == details_of(v).unwrap().moras);
        assert(w@.accent == details_of(v).unwrap().accent);
        assert(w@.chain_rule == details_of(v).unwrap().chain_rule);
        assert(w@.chain_flag == details_of(v).unwrap().chain_flag);
        assert(w@ == details_of(v).unwrap());
        Ok(w)
    }
}


/// The smallest of four numbers.
pub open spec fn min4(a: nat, b: nat, c: nat, d: nat) -> nat {
    let ab = if a < b { a } else { b };
    let cd = if c < d { c } else { d };
    if ab < cd { ab } else { cd }
}

/// The detail fields of the `k`-th word of a compound entry: base form,
/// reading, pronunciation and accent are the `k`-th pieces, and every word
/// after the first is marked as not chained.
pub open spec fn part_fields(
    d: Seq<Seq<char>>,
    o: Seq<Seq<char>>,
    r: Seq<Seq<char>>,
    p: Seq<Seq<char>>,
    a: Seq<Seq<char>>,
    k: int,
) -> Seq<Seq<char>> {
    d.update(6, o[k]).update(7, r[k]).update(8, p[k]).update(9, a[k]).update(
        11,
        if k > 0 {
            "0"@
        } else {
            d[11]
        },
    )
}

/// The first `n` words of a compound entry.
pub open spec fn compound_nodes(
    d: Seq<Seq<char>>,
    o: Seq<Seq<char>>,
    r: Seq<Seq<char>>,
    p: Seq<Seq<char>>,
    a: Seq<Seq<char>>,
    n: nat,
) -> Option<Seq<NodeView>>
    decreases n,
{
    if n == 0 {
        Some(Seq::empty())
    } else {
        match (
            compound_nodes(d, o, r, p, a, (n - 1) as nat),
            details_of(part_fields(d, o, r, p, a, n - 1)),
        ) {
            (Some(ns), Some(dv)) => Some(ns.push(NodeView { string: o[n - 1], details: dv })),
            _ => None,
        }
    }
}

/// The words of a dictionary entry with surface `string` and detail fields
/// `d`. An entry whose base form holds `:` is a compound: it gives one word
/// per `:`-separated piece (as many as the shortest of base form, reading,
/// pronunciation and accent has), each with its piece as its string.
pub open spec fn entry_nodes(string: Seq<char>, d: Seq<Seq<char>>) -> Option<Seq<NodeView>> {
    if has_char(d[6], ':') {
        let o = split_spec(d[6], ':');
        let r = split_spec(d[7], ':');
        let p = split_spec(d[8], ':');
        let a = split_spec(d[9], ':');
        compound_nodes(d, o, r, p, a, min4(o.len(), r.len(), p.len(), a.len()))
    } else {
        match details_of(d) {
            Some(dv) => Some(seq![NodeView { string, details: dv }]),
            None => None,
        }
    }
}

/// The thirteen fields of a CSV line: its comma-separated pieces, cut to
/// thirteen or filled up with empty ones.
pub open spec fn csv_fields(s: Seq<char>) -> Seq<Seq<char>> {
    let p = split_spec(s, ',');
    if p.len() >= 13 {
        p.take(13)
    } else {
        p + Seq::new((13 - p.len()) as nat, |i: int| Seq::<char>::empty())
    }
}

/// The words of a CSV line: the surface string, then the twelve detail
/// fields.
pub open spec fn csv_nodes(s: Seq<char>) -> Option<Seq<NodeView>> {
    entry_nodes(csv_fields(s)[0], csv_fields(s).skip(1))
}

/// A word of an NJD: its surface string and its details.
#[derive(Debug, PartialEq)]
pub struct NJDNode {
    pub string: String,
    pub details: WordDetails,
}

impl View for NJDNode {
    type V = NodeView;

    open spec fn view(&self) -> NodeView {
        NodeView { string: self.string@, details: self.details@ }
    }
}

/// The views of a list of words.
pub open spec fn node_views(v: Seq<NJDNode>) -> Seq<NodeView> {
    v.map_values(|n: NJDNode| n@)
}

impl WordDetails {
    /// A copy of the details.
    pub fn copy(&self) -> (r: WordDetails)
        ensures
            r@ == self@,
    {
        WordDetails {
            pos: self.pos,
            ctype: self.ctype,
            cform: self.cform,
            read: match &self.read {
                Some(r) => Some(r.clone()),
                None => None,
            },
            pron: self.pron.clone(),
            chain_rule: self.chain_rule,
            chain_flag: self.chain_flag,
        }
    }
}

impl Clone for NJDNode {
    fn clone(&self) -> (r: NJDNode)
        ensures
            r@ == self@,
    {
        NJDNode { string: self.string.clone(), details: self.details.copy() }
    }
}

/// Reads the details of the `k`-th word of a compound entry.
fn load_part(
    d: &Vec<String>,
    o: &Vec<String>,
    r: &Vec<String>,
    p: &Vec<String>,
    a: &Vec<String>,
    k: usize,
) -> (res: JPreprocessResult<WordDetails>)
    requires
        d@.len() == 12,
        k < o@.len(),
        k < r@.len(),
        k < p@.len(),
        k < a@.len(),
    ensures
        match res {
            Ok(w) => details_of(part_fields(views(d@), views(o@), views(r@), views(p@), views(a@), k as int)) == Some(w@),
            Err(_) => details_of(part_fields(views(d@), views(o@), views(r@), views(p@), views(a@), k as int)) is None,
        },
{
    let ghost pf = part_fields(views(d@), views(o@), views(r@), views(p@), views(a@), k as int);
    let mut f: Vec<String> = Vec::new();
    let mut i: usize = 0;
    while i < 12
        invariant
            d@.len() == 12,
            k < o@.len(),
            k < r@.len(),
            k < p@.len(),
            k < a@.len(),
            pf == part_fields(views(d@), views(o@), views(r@), views(p@), views(a@), k as int),
            i <= 12,
            f@.len() == i,
            forall|j: int| 0 <= j < i ==> #[trigger] f@[j]@ == pf[j],
        decreases 12 - i,
    {
        let piece = if i == 6 {
            o[k].clone()
        } else if i == 7 {
            r[k].clone()
        } else if i == 8 {
            p[k].clone()
        } else if i == 9 {
            a[k].clone()
        } else if i == 11 && k > 0 {
            proof {
                reveal_strlit("0");
            }
            String::from_str("0")
        } else {
            d[i].clone()
        };
        proof {
            assert(views(o@)[k as int] == o@[k as int]@);
            assert(views(r@)[k as int] == r@[k as int]@);
            assert(views(p@)[k as int] == p@[k as int]@);
            assert(views(a@)[k as int] == a@[k as int]@);
            assert(views(d@)[i as int] == d@[i as int]@);
            assert(piece@ == pf[i as int]);
        }
        f.push(piece);
        i = i + 1;
    }
    proof {
        assert(views(f@) =~= pf);
    }
    WordDetails::load(&f)
}

/// Reads the first `n` words of a compound entry.
fn load_compound(
    d: &Vec<String>,
    o: &Vec<String>,
    r: &Vec<String>,
    p: &Vec<String>,
    a: &Vec<String>,
    n: usize,
) -> (res: JPreprocessResult<Vec<NJDNode>>)
    requires
        d@.len() == 12,
        n <= o@.len(),
        n <= r@.len(),
        n <= p@.len(),
        n <= a@.len(),
    ensures
        match res {
            Ok(ns) => compound_nodes(views(d@), views(o@), views(r@), views(p@), views(a@), n as nat) == Some(node_views(ns@)),
            Err(_) => compound_nodes(views(d@), views(o@), views(r@), views(p@), views(a@), n as nat) is None,
        },
{
    let mut out: Vec<NJDNode> = Vec::new();
    let mut k: usize = 0;
    proof {
        assert(node_views(out@) =~= Seq::<NodeView>::empty());
    }
    while k < n
        invariant
            d@.len() == 12,
            k <= n,
            out@.len() == k,
            n <= o@.len() && n <= r@.len() && n <= p@.len() && n <= a@.len(),
            compound_nodes(views(d@), views(o@), views(r@), views(p@), views(a@), k as nat) == Some(node_views(out@)),
        decreases n - k,
    {
        match load_part(d, o, r, p, a, k) {
            Ok(w) => {
                let ghost old_out = out@;
                let node = NJDNode { string: o[k].clone(), details: w };
                out.push(node);
                proof {
                    assert(views(o@)[k as int] == o@[k as int]@);
                    assert(out@ == old_out.push(node));
                    assert(node_views(out@) =~= node_views(old_out).push(node@));
                }
            },
            Err(e) => {
                proof {
                    lemma_compound_fails(views(d@), views(o@), views(r@), views(p@), views(a@), k as nat, n as nat);
                }
                return Err(e);
            },
        }
        k = k + 1;
    }
    Ok(out)
}

/// A word dictionary entry: one word, or a compound of several.
pub enum WordEntry {
    Single(WordDetails),
    Multiple(Vec<(String, WordDetails)>),
}

impl NJDNode {
    /// The words of a dictionary entry with surface `string` and the twelve
    /// detail fields `d`.
    pub fn load_str(string: &str, d: &Vec<String>) -> (r: JPreprocessResult<Vec<NJDNode>>)
        requires
            d@.len() == 12,
        ensures
            match r {
                Ok(ns) => entry_nodes(string@, views(d@)) == Some(node_views(ns@)),
                Err(_) => entry_nodes(string@, views(d@)) is None,
            },
    {
        let ghost dv = views(d@);
        assert(dv[6] == d@[6]@ && dv[7] == d@[7]@ && dv[8] == d@[8]@ && dv[9] == d@[9]@);
        if contains_char(d[6].as_str(), ':') {
            let o = split_chars(d[6].as_str(), ':');
            let r = split_chars(d[7].as_str(), ':');
            let p = split_chars(d[8].as_str(), ':');
            let a = split_chars(d[9].as_str(), ':');
            assert(views(o@).len() == o@.len() && views(r@).len() == r@.len());
            assert(views(p@).len() == p@.len() && views(a@).len() == a@.len());
            let mut n = o.len();
            if r.len() < n {
                n = r.len();
            }
            if p.len() < n {
                n = p.len();
            }
            if a.len() < n {
                n = a.len();
            }
            assert(n as nat == min4(o@.len(), r@.len(), p@.len(), a@.len()));
            load_compound(d, &o, &r, &p, &a, n)
        } else {
            match WordDetails::load(d) {
                Ok(w) => {
                    let mut out: Vec<NJDNode> = Vec::new();
                    out.push(NJDNode { string: String::from_str(string), details: w });
                    proof {
                        assert(node_views(out@) =~= seq![out@[0]@]);
                    }
                    Ok(out)
                },
                Err(e) => Err(e),
            }
        }
    }

    /// Reads the thirteen fields of a CSV line.
    fn load_csv_fields(s: &str) -> (r: JPreprocessResult<Vec<NJDNode>>)
        ensures
            match r {
                Ok(ns) => csv_nodes(s@) == Some(node_views(ns@)),
                Err(_) => csv_nodes(s@) is None,
            },
    {
        let mut fields = split_chars(s, ',');
        proof {
            crate::text::lemma_split_nonempty(s@, ',');
        }
        let ghost p = views(fields@);
        if fields.len() >= 13 {
            fields.truncate(13);
        } else {
            proof {
                assert(views(fields@) =~= p + Seq::new(0, |i: int| Seq::<char>::empty()));
            }
            while fields.len() < 13
                invariant
                    p == split_spec(s@, ','),
                    p.len() < 13,
                    fields@.len() <= 13,
                    fields@.len() >= p.len(),
                    views(fields@) == p + Seq::new((fields@.len() - p.len()) as nat, |i: int| Seq::<char>::empty()),
                decreases 13 - fields@.len(),
            {
                let ghost old_f = fields@;
                fields.push(String::new());
                proof {
                    assert(views(fields@) =~= views(old_f).push(Seq::<char>::empty()));
                    assert(views(fields@) =~= p + Seq::new((fields@.len() - p.len()) as nat, |i: int| Seq::<char>::empty()));
                }
            }
        }
        proof {
            assert(views(fields@) =~= csv_fields(s@));
        }
        let rest = tail_fields(&fields);
        proof {
            assert(views(rest@) =~= csv_fields(s@).skip(1));
            assert(views(fields@)[0] == fields@[0]@);
        }
        NJDNode::load_str(fields[0].as_str(), &rest)
    }
}

/// The node that a CSV line reads to, where it reads to exactly one.
pub open spec fn single_of(s: Seq<char>) -> Option<NodeView> {
    match csv_nodes(s) {
        Some(ns) => if ns.len() == 1 {
            Some(ns[0])
        } else {
            None
        },
        None => None,
    }
}

/// The words of a dictionary entry, each with its string.
pub open spec fn entry_views(e: WordEntry, string: Seq<char>) -> Seq<NodeView> {
    match e {
        WordEntry::Single(d) => seq![NodeView { string, details: d@ }],
        WordEntry::Multiple(v) => v@.map_values(|p: (String, WordDetails)| NodeView { string: p.0@, details: p.1@ }),
    }
}

/// The chain flag as written: `1`, `0`, or `-1` when unknown.
pub open spec fn flag_text(f: Option<bool>) -> Seq<char> {
    match f {
        Some(true) => "1"@,
        Some(false) => "0"@,
        None => "-1"@,
    }
}

/// The thirteen fields of a word in the dictionary form: string, the four
/// part-of-speech groups, conjugation type and form, base form (the
/// string), reading, pronunciation, `ACCENT/MORA_SIZE`, chain rules and
/// chain flag.
pub open spec fn node_fields(n: NodeView) -> Seq<Seq<char>> {
    let (g0, g1, g2, g3) = n.details.pos.labels();
    seq![
        n.string,
        g0,
        g1,
        g2,
        g3,
        n.details.ctype.label(),
        n.details.cform.label(),
        n.string,
        match n.details.read {
            Some(r) => r,
            None => "*"@,
        },
        moras_text(n.details.moras),
        dec(n.details.accent).push('/') + dec(mora_count(n.details.moras)),
        rules_text(n.details.chain_rule),
        flag_text(n.details.chain_flag),
    ]
}

/// A word in the dictionary form: its fields joined by commas.
pub open spec fn node_text(n: NodeView) -> Seq<char> {
    join_spec(node_fields(n), ',')
}

/// `n` with its string and details made those of `other` appended: strings
/// and readings are concatenated (a missing reading counts as nothing, two
/// missing readings stay missing), morae appended, everything else kept.
pub open spec fn transferred(n: NodeView, other: NodeView) -> NodeView {
    NodeView {
        string: n.string + other.string,
        details: DetailsView {
            read: match (n.details.read, other.details.read) {
                (Some(a), Some(b)) => Some(a + b),
                (None, Some(b)) => Some(b),
                (a, None) => a,
            },
            moras: n.details.moras + other.details.moras,
            ..n.details
        },
    }
}

/// A word with no string and unknown details.
pub open spec fn reset_node() -> NodeView {
    NodeView { string: Seq::empty(), details: default_details() }
}

impl NJDNode {
    /// The words of one CSV line, or the error that its fields give.
    pub fn try_load_csv(s: &str) -> (r: JPreprocessResult<Vec<NJDNode>>)
        ensures
            match r {
                Ok(ns) => csv_nodes(s@) == Some(node_views(ns@)),
                Err(_) => csv_nodes(s@) is None,
            },
    {
        NJDNode::load_csv_fields(s)
    }

    /// The words of one CSV line of the dictionary form.
    pub fn load_csv(s: &str) -> (r: Vec<NJDNode>)
        requires
            csv_nodes(s@) is Some,
        ensures
            csv_nodes(s@) == Some(node_views(r@)),
    {
        match NJDNode::load_csv_fields(s) {
            Ok(ns) => ns,
            Err(_) => Vec::new(),
        }
    }

    /// The single word of a CSV line, if the line reads to exactly one.
    pub fn try_single(s: &str) -> (r: Option<NJDNode>)
        ensures
            match r {
                Some(n) => single_of(s@) == Some(n@),
                None => single_of(s@) is None,
            },
    {
        match NJDNode::load_csv_fields(s) {
            Ok(ns) => {
                if ns.len() == 1 {
                    let mut ns = ns;
                    let n = ns.swap_remove(0);
                    Some(n)
                } else {
                    None
                }
            },
            Err(_) => None,
        }
    }

    /// The single word of a CSV line that reads to exactly one word.
    pub fn new_single(s: &str) -> (r: NJDNode)
        requires
            single_of(s@) is Some,
        ensures
            single_of(s@) == Some(r@),
    {
        match NJDNode::try_single(s) {
            Some(n) => n,
            None => NJDNode { string: String::new(), details: WordDetails::default() },
        }
    }

    /// The words of a dictionary entry for the surface `string`.
    pub fn load(string: &str, entry: &WordEntry) -> (r: Vec<NJDNode>)
        ensures
            node_views(r@) == entry_views(*entry, string@),
    {
        match entry {
            WordEntry::Single(d) => {
                let mut out: Vec<NJDNode> = Vec::new();
                out.push(NJDNode { string: String::from_str(string), details: d.copy() });
                proof {
                    assert(node_views(out@) =~= entry_views(*entry, string@));
                }
                out
            },
            WordEntry::Multiple(v) => {
                let mut out: Vec<NJDNode> = Vec::new();
                let mut i: usize = 0;
                while i < v.len()
                    invariant
                        i <= v@.len(),
                        *entry == WordEntry::Multiple(*v),
                        node_views(out@) == entry_views(*entry, string@).take(i as int),
                    decreases v@.len() - i,
                {
                    let ghost old_out = out@;
                    let n = NJDNode { string: v[i].0.clone(), details: v[i].1.copy() };
                    out.push(n);
                    proof {
                        assert(node_views(out@) =~= node_views(old_out).push(n@));
                        assert(entry_views(*entry, string@).take(i as int + 1) =~= entry_views(*entry, string@).take(i as int).push(n@));
                    }
                    i = i + 1;
                }
                proof {
                    assert(entry_views(*entry, string@).take(i as int) =~= entry_views(*entry, string@));
                }
                out
            },
        }
    }

    /// Appends the string, reading and morae of `node` to this word, then
    /// resets `node`.
    pub fn transfer_from(&mut self, node: &mut NJDNode)
        ensures
            final(self)@ == transferred(old(self)@, old(node)@),
            final(node)@ == reset_node(),
    {
        self.string.append(node.string.as_str());
        match &node.details.read {
            Some(add) => {
                let new_read = match &self.details.read {
                    Some(r) => {
                        let mut r2 = r.clone();
                        r2.append(add.as_str());
                        r2
                    },
                    None => add.clone(),
                };
                self.details.read = Some(new_read);
            },
            None => {},
        }
        self.details.pron.transfer_from(&node.details.pron);
        node.reset();
        proof {
            assert(self@.details =~= transferred(old(self)@, old(node)@).details);
        }
    }

    /// Empties the string and forgets the details.
    pub fn reset(&mut self)
        ensures
            final(self)@ == reset_node(),
    {
        self.string = String::new();
        self.details = WordDetails::default();
    }

    /// The chain flag.
    pub fn get_chain_flag(&self) -> (r: Option<bool>)
        ensures
            r == self@.details.chain_flag,
    {
        self.details.chain_flag
    }

    /// Sets the chain flag; nothing else changes.
    pub fn set_chain_flag(&mut self, chain_flag: bool)
        ensures
            final(self)@ == (NodeView { details: DetailsView { chain_flag: Some(chain_flag), ..old(self)@.details }, ..old(self)@ }),
    {
        self.details.chain_flag = Some(chain_flag);
    }

    /// The chain rules.
    pub fn get_chain_rule(&self) -> (r: &ChainRules)
        ensures
            *r == self@.details.chain_rule,
    {
        &self.details.chain_rule
    }

    /// Removes every chain rule; nothing else changes.
    pub fn unset_chain_rule(&mut self)
        ensures
            final(self)@ == (NodeView { details: DetailsView { chain_rule: ChainRules::none(), ..old(self)@.details }, ..old(self)@ }),
    {
        self.details.chain_rule.unset();
    }

    /// The part of speech.
    pub fn get_pos(&self) -> (r: &POS)
        ensures
            *r == self@.details.pos,
    {
        &self.details.pos
    }

    /// The part of speech, to change in place.
    pub fn get_pos_mut(&mut self) -> (r: &mut POS)
        ensures
            *r == old(self)@.details.pos,
            final(self)@ == (NodeView { details: DetailsView { pos: *final(r), ..old(self)@.details }, ..old(self)@ }),
    {
        &mut self.details.pos
    }

    /// Whether the conjugation form is a 連用 form.
    pub fn is_renyou(&self) -> (r: bool)
        ensures
            r == self@.details.cform.spec_is_renyou(),
    {
        self.details.cform.is_renyou()
    }

    /// The conjugation type.
    pub fn get_ctype(&self) -> (r: &CType)
        ensures
            *r == self@.details.ctype,
    {
        &self.details.ctype
    }

    /// The conjugation form.
    pub fn get_cform(&self) -> (r: &CForm)
        ensures
            *r == self@.details.cform,
    {
        &self.details.cform
    }

    /// The surface string.
    pub fn get_string(&self) -> (r: &str)
        ensures
            r@ == self@.string,
    {
        self.string.as_str()
    }

    /// Replaces the surface string; nothing else changes.
    pub fn replace_string(&mut self, new_string: &str)
        ensures
            final(self)@ == (NodeView { string: new_string@, ..old(self)@ }),
    {
        self.string = String::from_str(new_string);
    }

    /// The reading, if known.
    pub fn get_read(&self) -> (r: Option<&str>)
        ensures
            match r {
                Some(s) => self@.details.read == Some(s@),
                None => self@.details.read is None,
            },
    {
        match &self.details.read {
            Some(s) => Some(s.as_str()),
            None => None,
        }
    }

    /// Sets the reading; nothing else changes.
    pub fn set_read(&mut self, read: &str)
        ensures
            final(self)@ == (NodeView { details: DetailsView { read: Some(read@), ..old(self)@.details }, ..old(self)@ }),
    {
        self.details.read = Some(String::from_str(read));
    }

    /// Forgets the reading; nothing else changes.
    pub fn unset_read(&mut self)
        ensures
            final(self)@ == (NodeView { details: DetailsView { read: None, ..old(self)@.details }, ..old(self)@ }),
    {
        self.details.read = None;
    }

    /// The pronunciation.
    pub fn get_pron(&self) -> (r: &Pronunciation)
        ensures
            r.moras@ == self@.details.moras,
            r.accent == self@.details.accent,
    {
        &self.details.pron
    }

    /// The pronunciation, to change in place.
    pub fn get_pron_mut(&mut self) -> (r: &mut Pronunciation)
        ensures
            r.moras@ == old(self)@.details.moras,
            r.accent == old(self)@.details.accent,
            final(self)@ == (NodeView {
                details: DetailsView { moras: final(r).moras@, accent: final(r).accent as nat, ..old(self)@.details },
                ..old(self)@
            }),
    {
        &mut self.details.pron
    }

    /// Sets the pronunciation; nothing else changes.
    pub fn set_pron(&mut self, pron: Pronunciation)
        ensures
            final(self)@ == (NodeView {
                details: DetailsView { moras: pron.moras@, accent: pron.accent as nat, ..old(self)@.details },
                ..old(self)@
            }),
    {
        self.details.pron = pron;
    }

    /// The word in the dictionary form, as a CSV line.
    pub fn to_string(&self) -> (r: String)
        ensures
            r@ == node_text(self@),
    {
        let (g0, g1, g2, g3) = self.details.pos.names();
        let mut f: Vec<String> = Vec::new();
        f.push(self.string.clone());
        f.push(String::from_str(g0));
        f.push(String::from_str(g1));
        f.push(String::from_str(g2));
        f.push(String::from_str(g3));
        f.push(String::from_str(self.details.ctype.name()));
        f.push(String::from_str(self.details.cform.name()));
        f.push(self.string.clone());
        f.push(match &self.details.read {
            Some(r) => r.clone(),
            None => {
                proof {
                    reveal_strlit("*");
                }
                String::from_str("*")
            },
        });
        f.push(self.details.pron.to_string());
        let mut acc = String::new();
        push_dec(&mut acc, self.details.pron.accent as u64);
        crate::text::push_char(&mut acc, '/');
        push_dec(&mut acc, self.details.pron.mora_size() as u64);
        f.push(acc);
        f.push(self.details.chain_rule.to_string());
        let flag = match self.details.chain_flag {
            Some(true) => "1",
            Some(false) => "0",
            None => "-1",
        };
        proof {
            reveal_strlit("1");
            reveal_strlit("0");
            reveal_strlit("-1");
        }
        f.push(String::from_str(flag));
        proof {
            assert(views(f@) =~= node_fields(self@));
        }
        join_strings(&f, ',')
    }
}

/// The fields after the first.
fn tail_fields(f: &Vec<String>) -> (r: Vec<String>)
    requires
        f@.len() == 13,
    ensures
        r@.len() == 12,
        views(r@) == views(f@).skip(1),
{
    let mut r: Vec<String> = Vec::new();
    let mut i: usize = 1;
    while i < 13
        invariant
            f@.len() == 13,
            1 <= i <= 13,
            r@.len() == i - 1,
            forall|j: int| 0 <= j < i - 1 ==> #[trigger] r@[j]@ == f@[j + 1]@,
        decreases 13 - i,
    {
        r.push(f[i].clone());
        i = i + 1;
    }
    proof {
        assert(views(r@) =~= views(f@).skip(1));
    }
    r
}

/// Whether `s` holds the character `c`.
pub fn contains_char(s: &str, c: char) -> (r: bool)
    ensures
        r == has_char(s@, c),
{
    let n = s.unicode_len();
    let mut i: usize = 0;
    while i < n
        invariant
            n == s@.len(),
            i <= n,
            forall|j: int| 0 <= j < i ==> s@[j] != c,
        decreases n - i,
    {
        if s.get_char(i) == c {
            return true;
        }
        i = i + 1;
    }
    false
}

/// Once a word of a compound fails to read, the compound fails to read.
proof fn lemma_compound_fails(
    d: Seq<Seq<char>>,
    o: Seq<Seq<char>>,
    r: Seq<Seq<char>>,
    p: Seq<Seq<char>>,
    a: Seq<Seq<char>>,
    k: nat,
    n: nat,
)
    requires
        k < n,
        details_of(part_fields(d, o, r, p, a, k as int)) is None,
    ensures
        compound_nodes(d, o, r, p, a, n) is None,
    decreases n,
{
    if k < n - 1 {
        lemma_compound_fails(d, o, r, p, a, k, (n - 1) as nat);
    }
}

} // verus!

verus! {

/// Whether a word can be written in the dictionary form and read back: its
/// string holds neither `,` nor `:` (which would split the line or make a
/// compound entry), its reading, if any, is not `*` and holds no `,`, its
/// morae read back from their written form, its accent is below a million,
/// and the shifts of its chain rules fit their written form.
pub open spec fn writable(n: NodeView) -> bool {
    &&& !has_char(n.string, ',')
    &&& !has_char(n.string, ':')
    &&& (n.details.read matches Some(r) ==> r != "*"@ && !has_char(r, ','))
    &&& pron_of(moras_text(n.details.moras)) == Some(n.details.moras)
    &&& n.details.accent < 1000000
    &&& rules_writable(n.details.chain_rule)
}

/// The chain flag reads back from its written form, which holds no comma.
proof fn lemma_flag_text_reads_back(f: Option<bool>)
    ensures
        flag_of(flag_text(f)) == f,
        !has_char(flag_text(f), ','),
{
    reveal_strlit("1");
    reveal_strlit("0");
    reveal_strlit("-1");
    assert("1"@[0] == '1' && "0"@[0] == '0' && "-1"@[0] == '-' && "-1"@[1] == '1');
    assert(!has_char("1"@, ','));
    assert(!has_char("0"@, ','));
    assert(!has_char("-1"@, ','));
}

/// The `ACCENT/MORA_SIZE` field reads back as the accent, and holds no
/// comma.
proof fn lemma_acc_text_reads_back(a: nat, m: nat)
    requires
        a < 1000000,
    ensures
        acc_of(dec(a).push('/') + dec(m)) == Some(a),
        !has_char(dec(a).push('/') + dec(m), ','),
{
    let t = dec(a).push('/') + dec(m);
    lemma_dec_reads_back(a);
    lemma_dec_plain(a);
    lemma_dec_plain(m);
    assert(t =~= join_spec(seq![dec(a), dec(m)], '/')) by {
        assert(seq![dec(a), dec(m)].drop_last() =~= seq![dec(a)]);
        assert(join_spec(seq![dec(a)], '/') == dec(a));
    }
    lemma_split_join(seq![dec(a), dec(m)], '/');
    reveal_strlit("*");
    assert(t.len() >= 2);
    assert(t != "*"@);
    lemma_has_char_concat(dec(a), seq!['/'], ',');
    assert(dec(a).push('/') =~= dec(a) + seq!['/']);
    assert(!has_char(seq!['/'], ',')) by {
        if has_char(seq!['/'], ',') {
            let i = choose|i: int| 0 <= i < 1 && seq!['/'][i] == ',';
        }
    }
    lemma_has_char_concat(dec(a).push('/'), dec(m), ',');
}

/// A word written in the dictionary form reads back as that word (when it
/// can be written at all, see `writable`).
pub proof fn lemma_node_text_reads_back(n: NodeView)
    requires
        writable(n),
    ensures
        csv_nodes(node_text(n)) == Some(seq![n]),
{
    let d = n.details;
    let fs = node_fields(n);
    let (g0, g1, g2, g3) = d.pos.labels();
    lemma_pos_labels_parse(d.pos);
    lemma_ctype_label_parses(d.ctype);
    lemma_cform_label_parses(d.cform);
    lemma_pron_no_comma(moras_text(d.moras));
    lemma_acc_text_reads_back(d.accent, mora_count(d.moras));
    lemma_rules_text_reads_back(d.chain_rule);
    lemma_flag_text_reads_back(d.chain_flag);
    reveal_strlit("*");
    assert(!has_char("*"@, ',')) by {
        assert("*"@[0] == '*');
    }
    assert(fs.len() == 13);
    assert forall|i: int| 0 <= i < fs.len() implies !has_char(#[trigger] fs[i], ',') by {
    }
    lemma_split_join(fs, ',');
    assert(csv_fields(node_text(n)) =~= fs);
    let ds = fs.skip(1);
    assert(ds[6] == n.string);
    assert(split_spec(ds[4], '・') == seq![d.ctype.label()]) by {
        lemma_split_join(seq![d.ctype.label()], '・');
    }
    assert(details_of(ds) == Some(d));
}

} // verus!
