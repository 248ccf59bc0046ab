use jpreprocess::accent_phrase::{chain_flag, njd_set_accent_phrase};
use jpreprocess::njd::NJD;
use jpreprocess::node::NJDNode;
use jpreprocess::window::{IterQuintMut, Quintuple};

fn njd(lines: &[&str]) -> NJD {
    NJD::from_strings(lines.iter().map(|s| s.to_string()).collect())
}

#[test]
fn window_walks_five_items() {
    let mut iter = IterQuintMut::new(5);
    assert!(matches!(iter.next(), Some(Quintuple::First(0, 1, 2, 3))));
    assert!(matches!(iter.next(), Some(Quintuple::Full(0, 1, 2, 3, 4))));
    assert!(matches!(iter.next(), Some(Quintuple::ThreeLeft(1, 2, 3, 4))));
    assert!(matches!(iter.next(), Some(Quintuple::TwoLeft(2, 3, 4))));
    assert!(matches!(iter.next(), Some(Quintuple::Last(3, 4))));
    assert!(iter.next().is_none());
    assert!(iter.next().is_none());
}

#[test]
fn window_short_lists() {
    let mut one = IterQuintMut::new(1);
    assert!(matches!(one.next(), Some(Quintuple::Single(0))));
    assert!(one.next().is_none());
    let mut two = IterQuintMut::new(2);
    assert!(matches!(two.next(), Some(Quintuple::Double(0, 1))));
    assert!(matches!(two.next(), Some(Quintuple::Last(0, 1))));
    assert!(two.next().is_none());
    let mut three = IterQuintMut::new(3);
    assert!(matches!(three.next(), Some(Quintuple::Triple(0, 1, 2))));
    assert!(matches!(three.next(), Some(Quintuple::TwoLeft(0, 1, 2))));
    assert!(matches!(three.next(), Some(Quintuple::Last(1, 2))));
    assert!(three.next().is_none());
    assert!(IterQuintMut::new(0).next().is_none());
}

#[test]
fn nouns_are_chained() {
    let a = NJDNode::new_single("盆栽,名詞,一般,*,*,*,*,盆栽,ボンサイ,ボンサイ,0/4,C2");
    let b = NJDNode::new_single("展,名詞,接尾,一般,*,*,*,展,テン,テン,1/2,C3");
    assert!(chain_flag(&a, &b));
}

#[test]
fn particle_joins_noun_and_symbol_stands_alone() {
    let noun = NJDNode::new_single("盆栽,名詞,一般,*,*,*,*,盆栽,ボンサイ,ボンサイ,0/4,C2");
    let particle = NJDNode::new_single("が,助詞,格助詞,一般,*,*,*,が,ガ,ガ,0/1,名詞%F1");
    let sym = NJDNode::new_single("、,記号,読点,*,*,*,*,、,、,、,0/0,*");
    assert!(chain_flag(&noun, &particle));
    assert!(!chain_flag(&particle, &sym));
    assert!(!chain_flag(&sym, &noun));
}

#[test]
fn accent_phrase_sets_only_unknown_flags() {
    let mut n = njd(&[
        "盆栽,名詞,一般,*,*,*,*,盆栽,ボンサイ,ボンサイ,0/4,C2",
        "が,助詞,格助詞,一般,*,*,*,が,ガ,ガ,0/1,名詞%F1",
        "好き,名詞,形容動詞語幹,*,*,*,*,好き,スキ,スキ,2/2,C1,0",
    ]);
    njd_set_accent_phrase(&mut n);
    assert_eq!(n.nodes[0].get_chain_flag(), None);
    assert_eq!(n.nodes[1].get_chain_flag(), Some(true));
    assert_eq!(n.nodes[2].get_chain_flag(), Some(false));
    let once: Vec<String> = n.to_strings();
    njd_set_accent_phrase(&mut n);
    assert_eq!(n.to_strings(), once);
}
