use jpreprocess::njd::NJD;
use jpreprocess::dictionary::{Dictionary, DictionaryTrait, LinderaDict, LinderaDictionary};
use jpreprocess::error::JPreprocessErrorKind;
use jpreprocess::label::{utterance_to_features, utterance_to_phoneme_vec, Utterance};
use jpreprocess::node::NJDNode;
use jpreprocess::normalize_text::normalize_text_for_naist_jdic;
use jpreprocess::text::{join_strings, split_chars};
use jpreprocess::word_attr::{Limit, Word};

fn dict_bytes(entries: &[Vec<String>]) -> (Vec<u8>, Vec<u8>) {
    let mut words = Vec::new();
    let mut idx = Vec::new();
    for e in entries {
        idx.extend_from_slice(&(words.len() as u32).to_le_bytes());
        words.extend(bincode::serialize(e).unwrap());
    }
    (words, idx)
}

#[test]
fn dictionary_round_trip() {
    let entries = vec![
        vec!["盆栽".to_string(), "名詞".to_string()],
        vec!["が".to_string()],
        vec![],
    ];
    let (words, idx) = dict_bytes(&entries);
    let d: Dictionary = LinderaDict::load(words.clone(), &idx).unwrap();
    assert_eq!(d.words_idx_data.len(), 3);
    assert_eq!(d.words_idx_data[0], 0);
    assert!(d.is_well_formed());
    let second_start = d.words_idx_data[1] as usize;
    assert_eq!(d.get(0).unwrap(), &words[..second_start]);
    assert!(d.get(3).is_none());
    let ld = LinderaDict(d);
    for (i, e) in entries.iter().enumerate() {
        assert_eq!(ld.get(i).as_ref(), Some(e));
    }
    assert!(ld.get(7).is_none());
}

#[test]
fn dictionary_iter_walks_the_entries_in_order() {
    let entries = vec![
        vec!["盆栽".to_string(), "名詞".to_string()],
        vec!["が".to_string()],
    ];
    let (words, idx) = dict_bytes(&entries);
    let dict = LinderaDictionary(Dictionary::load(words, &idx).unwrap());
    let mut it = dict.iter();
    assert_eq!(it.next().as_ref(), Some(&entries[0]));
    assert_eq!(it.next().as_ref(), Some(&entries[1]));
    assert_eq!(it.next(), None);
    assert_eq!(it.index, 3);
    assert_eq!(dict.get(1).as_ref(), Some(&entries[1]));
}

#[test]
fn dictionary_offsets_are_little_endian() {
    let idx = vec![1u8, 2, 0, 0, 0, 0, 1, 0];
    let d = Dictionary::load(vec![0u8; 300], &idx).unwrap();
    assert_eq!(d.words_idx_data, vec![0x0201, 0x10000]);
    assert!(!d.is_well_formed());
}

#[test]
fn undecodable_entry_is_none() {
    let words = vec![0xffu8, 0xff, 0xff, 0xff, 0xff, 0xff, 0xff, 0xff, 1];
    let idx = vec![0u8, 0, 0, 0];
    let ld = LinderaDict(Dictionary::load(words, &idx).unwrap());
    assert!(ld.get(0).is_none());
}

#[test]
fn parse_errors() {
    let bad_pos = NJDNode::try_load_csv("a,名刺,*,*,*,*,*,a,ア,ア,1/1,*");
    assert_eq!(bad_pos.unwrap_err().kind, JPreprocessErrorKind::PartOfSpeechParseError);
    let bad_ctype = NJDNode::try_load_csv("a,名詞,一般,*,*,謎,*,a,ア,ア,1/1,*");
    assert_eq!(bad_ctype.unwrap_err().kind, JPreprocessErrorKind::CTypeParseError);
    let bad_cform = NJDNode::try_load_csv("a,名詞,一般,*,*,*,謎,a,ア,ア,1/1,*");
    assert_eq!(bad_cform.unwrap_err().kind, JPreprocessErrorKind::CFormParseError);
    let bad_rule = NJDNode::try_load_csv("a,名詞,一般,*,*,*,*,a,ア,ア,1/1,Z9");
    assert_eq!(bad_rule.unwrap_err().kind, JPreprocessErrorKind::AccentRuleParseError);
    let bad_pron = NJDNode::try_load_csv("a,名詞,一般,*,*,*,*,a,ア,abc,1/1,*");
    assert_eq!(bad_pron.unwrap_err().kind, JPreprocessErrorKind::PronunciationParseError);
    assert!(NJDNode::try_single("あーあ,感動詞,*,*,*,*,*,あー:あ,アー:ア,アー:ア,1/2:1/1,C1").is_none());
}

#[test]
fn node_transfer_and_reset() {
    let mut a = NJDNode::new_single("ア,フィラー,*,*,*,*,*,ア,ア,ア,0/1,*");
    let mut b = NJDNode::new_single("イ,フィラー,*,*,*,*,*,イ,イ,イ,0/1,*");
    a.transfer_from(&mut b);
    assert_eq!(a.get_string(), "アイ");
    assert_eq!(a.get_read(), Some("アイ"));
    assert_eq!(a.get_pron().to_string(), "アイ");
    assert_eq!(b.get_string(), "");
    assert_eq!(b.get_pron().mora_size(), 0);
    assert_eq!(b.get_read(), None);
}

#[test]
fn normalize_twice_is_normalize_once() {
    for s in ["ｶﾞｷﾞ abc 123 ﾊﾟ", "は゛は゜ﾞ", "ｱｲｳｴｵ～\\"] {
        let once = normalize_text_for_naist_jdic(s);
        assert_eq!(normalize_text_for_naist_jdic(&once), once);
    }
    assert_eq!(normalize_text_for_naist_jdic(""), "");
}

#[test]
fn split_then_join() {
    for s in ["a:b::c", "", ":", "abc"] {
        let parts = split_chars(s, ':');
        assert_eq!(join_strings(&parts, ':'), s);
    }
    assert_eq!(split_chars("a:b::c", ':').len(), 4);
}

#[test]
fn limits() {
    assert_eq!(Limit::S.ulimit(0), 1);
    assert_eq!(Limit::S.ulimit(25), 19);
    assert_eq!(Limit::M.ulimit(30), 30);
    assert_eq!(Limit::L.ulimit(150), 99);
    assert_eq!(Limit::LL.ulimit(150), 150);
    assert_eq!(Limit::M.ilimit(-60), -49);
    assert_eq!(Limit::LL.ilimit(-150), -150);
    assert_eq!(Limit::S.ilimit(20), 19);
}

#[test]
fn word_label_parts() {
    let node = NJDNode::new_single("盆栽,名詞,一般,*,*,*,*,盆栽,ボンサイ,ボンサイ,0/4,C2");
    let w = Word::from_node(&node);
    assert_eq!(w.to_b(), "/B:02-xx_xx");
    assert_eq!(w.to_c(), "/C:02_xx+xx");
    assert_eq!(w.to_d(), "/D:02+xx_xx");
    assert_eq!(w.count_mora(), 4);
    let verb = NJDNode::new_single("聞く,動詞,自立,*,*,五段・カ行イ音便,基本形,聞く,キク,キク,0/2,*");
    assert_eq!(Word::from_node(&verb).to_c(), "/C:20_01+02");
}

#[test]
fn pause_splits_breath_groups() {
    let nodes = vec![
        NJDNode::new_single("盆栽,名詞,一般,*,*,*,*,盆栽,ボンサイ,ボンサイ,0/4,C2"),
        NJDNode::new_single("、,記号,読点,*,*,*,*,、,、,、,0/0,*,0"),
        NJDNode::new_single("箸,名詞,一般,*,*,*,*,箸,ハシ,ハシ,1/2,C3"),
    ];
    let u = Utterance::from_nodes(&nodes);
    assert_eq!(u.breath_groups.len(), 2);
    assert_eq!(u.count_accent_phrase(), 2);
    assert_eq!(u.count_mora(), 6);
    assert_eq!(u.to_k(), "/K:2+2-6");
    assert!(u.is_labelable());
    let v = utterance_to_phoneme_vec(&u);
    let phonemes: Vec<&str> = v.iter().map(|p| p.0.as_str()).collect();
    assert_eq!(phonemes, vec!["sil", "b", "o", "N", "s", "a", "i", "pau", "h", "a", "sh", "i", "sil"]);
    let labels = utterance_to_features(&u);
    assert_eq!(labels.len(), v.len());
    assert!(labels[0].starts_with("xx^xx-sil+b=o/A:xx+xx+xx"));
    assert!(labels[8].starts_with("i^pau-h+a=sh/A:0+1+2"));
}

#[test]
fn written_words_read_back() {
    let lines = [
        "盆栽,名詞,一般,*,*,*,*,盆栽,ボンサイ,ボンサイ,0/4,C2,-1",
        "です,助動詞,*,*,*,特殊・デス,基本形,です,デス,デス’,1/2,名詞%F2@1/動詞%F1,1",
        "聞く,動詞,自立,*,*,五段・カ行イ音便,基本形,聞く,キク,キ’ク,0/2,C1,0",
    ];
    for line in lines {
        let nodes = NJDNode::load_csv(line);
        assert_eq!(nodes.len(), 1);
        let written = nodes[0].to_string();
        let back = NJDNode::load_csv(&written);
        assert_eq!(back, nodes);
        assert_eq!(back[0].to_string(), written);
    }
}

#[test]
fn reading_lines_in_two_lists_concatenates() {
    let a = vec!["盆栽,名詞,一般,*,*,*,*,盆栽,ボンサイ,ボンサイ,0/4,C2".to_string()];
    let b = vec![
        "あーあ,感動詞,*,*,*,*,*,あー:あ,アー:ア,アー:ア,1/2:1/1,C1".to_string(),
        "が,助詞,格助詞,一般,*,*,*,が,ガ,ガ,0/1,名詞%F1".to_string(),
    ];
    let both = NJD::from_strings([a.clone(), b.clone()].concat()).nodes;
    assert_eq!(both, [NJD::from_strings(a).nodes, NJD::from_strings(b.clone()).nodes].concat());
    assert!(NJD::from_strings(vec![]).nodes.is_empty());
    assert_eq!(NJD::from_strings(vec![b[0].clone()]).nodes, NJDNode::load_csv(&b[0]));
}
