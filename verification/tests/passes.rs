use jpreprocess::accent_type::njd_set_accent_type;
use jpreprocess::currency::process_currency;
use jpreprocess::digit::{is_period, njd_set_digit};
use jpreprocess::digit_sequence::{njd_digit_sequence, score, DigitSequence};
use jpreprocess::njd::NJD;
use jpreprocess::node::NJDNode;
use jpreprocess::unvoiced_vowel::njd_set_unvoiced_vowel;

fn njd(lines: &[&str]) -> NJD {
    NJD::from_strings(lines.iter().map(|s| s.to_string()).collect())
}

#[test]
fn remove_silent_node_drops_words_without_morae() {
    let mut n = njd(&[
        "盆栽,名詞,一般,*,*,*,*,盆栽,ボンサイ,ボンサイ,0/4,C2",
        "x,名詞,一般,*,*,*,*,x,*,*,0/0,*",
        "が,助詞,格助詞,一般,*,*,*,が,ガ,ガ,0/1,名詞%F1",
    ]);
    n.remove_silent_node();
    assert_eq!(n.nodes.len(), 2);
    assert_eq!(n.nodes[0].get_string(), "盆栽");
    assert_eq!(n.nodes[1].get_string(), "が");
    n.remove_silent_node();
    assert_eq!(n.nodes.len(), 2);
}

#[test]
fn accent_type_follows_chain_rule() {
    // が carries the rule F1 after a noun: the phrase keeps the noun's accent.
    let mut n = njd(&[
        "箸,名詞,一般,*,*,*,*,箸,ハシ,ハシ,1/2,C3",
        "が,助詞,格助詞,一般,*,*,*,が,ガ,ガ,0/1,名詞%F1,1",
    ]);
    njd_set_accent_type(&mut n);
    assert_eq!(n.nodes[0].get_pron().accent(), 1);
    // C3 rule: the phrase accent moves to the mora count before the word.
    let mut m = njd(&[
        "盆栽,名詞,一般,*,*,*,*,盆栽,ボンサイ,ボンサイ,0/4,C2",
        "展,名詞,接尾,一般,*,*,*,展,テン,テン,1/2,C3,1",
    ]);
    njd_set_accent_type(&mut m);
    assert_eq!(m.nodes[0].get_pron().accent(), 4);
}

#[test]
fn accent_type_of_numerals() {
    // 五十: 十 after 五 gets accent 1, the phrase accent comes from the C rule.
    let mut n = njd(&[
        "五,名詞,数,*,*,*,*,五,ゴ,ゴ,1/1,C3",
        "十,名詞,数,*,*,*,*,十,ジュウ,ジュー,1/2,C3,1",
    ]);
    njd_set_accent_type(&mut n);
    assert_eq!(n.nodes[0].get_pron().accent(), 1);
}

#[test]
fn unvoiced_between_voiceless_consonants() {
    let mut n = njd(&["聞く,動詞,自立,*,*,五段・カ行イ音便,基本形,聞く,キク,キク,0/2,*,-1"]);
    njd_set_unvoiced_vowel(&mut n);
    assert_eq!(n.nodes[0].get_pron().to_string(), "キ’ク");
}

#[test]
fn desu_before_question_stays_voiced() {
    let mut n = njd(&[
        "です,助動詞,*,*,*,特殊・デス,基本形,です,デス,デス,1/2,*,1",
        "？,記号,一般,*,*,*,*,？,？,？,0/0,*,0",
    ]);
    njd_set_unvoiced_vowel(&mut n);
    assert_eq!(n.nodes[0].get_pron().to_string(), "デス");
    let mut m = njd(&[
        "です,助動詞,*,*,*,特殊・デス,基本形,です,デス,デス,1/2,*,1",
        "。,記号,句点,*,*,*,*,。,、,、,0/0,*,0",
    ]);
    njd_set_unvoiced_vowel(&mut m);
    assert_eq!(m.nodes[0].get_pron().to_string(), "デス’");
}

#[test]
fn currency_keeps_count() {
    let mut n = njd(&[
        "￥,記号,*,*,*,*,*,￥,、,、,0/0,*,-1",
        "千,名詞,数,*,*,*,*,千,セン,セン,1/2,*,0",
    ]);
    process_currency(&mut n);
    assert_eq!(n.nodes.len(), 2);
    let mut plain = njd(&["盆栽,名詞,一般,*,*,*,*,盆栽,ボンサイ,ボンサイ,0/4,C2"]);
    let before = plain.to_strings();
    process_currency(&mut plain);
    assert_eq!(plain.to_strings(), before);
}

#[test]
fn periods() {
    assert!(is_period("．"));
    assert!(is_period("・"));
    assert!(!is_period("."));
}

#[test]
fn decimal_point_is_read_ten() {
    let mut n = njd(&[
        "一,名詞,数,*,*,*,*,一,イチ,イチ,2/2,*",
        "．,記号,句点,*,*,*,*,．,、,、,0/0,*",
        "五,名詞,数,*,*,*,*,五,ゴ,ゴ,1/1,*",
    ]);
    njd_set_digit(&mut n);
    assert_eq!(n.nodes.len(), 3);
    assert_eq!(n.nodes[1].get_string(), "．");
    assert_eq!(n.nodes[1].get_pron().to_string(), "テン");
    assert_eq!(n.nodes[1].get_chain_flag(), Some(true));
}

#[test]
fn counter_after_digit_is_voiced() {
    let mut n = njd(&[
        "三,名詞,数,*,*,*,*,三,サン,サン,0/2,*",
        "本,名詞,接尾,助数詞,*,*,*,本,ホン,ホン,1/2,*",
    ]);
    njd_set_digit(&mut n);
    assert_eq!(n.nodes[1].get_pron().to_string(), "ボン");
    assert_eq!(n.nodes[0].get_chain_flag(), Some(false));
    assert_eq!(n.nodes[1].get_chain_flag(), Some(true));
}

#[test]
fn digit_before_counter_takes_its_reading() {
    let mut n = njd(&[
        "四,名詞,数,*,*,*,*,四,ヨン,ヨン,1/2,*",
        "人,名詞,接尾,助数詞,*,*,*,人,ニン,ニン,1/2,*",
    ]);
    njd_set_digit(&mut n);
    assert_eq!(n.nodes[0].get_pron().to_string(), "ヨ");
}

#[test]
fn twentieth_day() {
    let mut n = njd(&[
        "二,名詞,数,*,*,*,*,二,ニ,ニ,1/1,*",
        "十,名詞,数,*,*,*,*,十,ジュウ,ジュー,1/2,*",
        "日,名詞,接尾,助数詞,*,*,*,日,ニチ,ニチ,1/2,*",
    ]);
    njd_set_digit(&mut n);
    assert_eq!(n.nodes.len(), 1);
    assert_eq!(n.nodes[0].get_string(), "二十日");
    assert_eq!(n.nodes[0].get_pron().to_string(), "ハツカ");
}

#[test]
fn full_width_digit_is_normalized() {
    let mut n = njd(&["１,名詞,数,*,*,*,*,１,イチ,イチ,2/2,*"]);
    njd_set_digit(&mut n);
    assert_eq!(n.nodes[0].get_string(), "一");
}

#[test]
fn score_of_surroundings() {
    let n = njd(&[
        "第,接頭詞,数接続,*,*,*,*,第,ダイ,ダイ,1/2,*",
        "一,名詞,数,*,*,*,*,一,イチ,イチ,2/2,*",
        "回,名詞,接尾,助数詞,*,*,*,回,カイ,カイ,1/2,*",
    ]);
    assert_eq!(score(&n, 1, 1), 4);
    let m = njd(&[
        "一,名詞,数,*,*,*,*,一,イチ,イチ,2/2,*",
        "－,記号,一般,*,*,*,*,－,、,、,0/0,*",
        "二,名詞,数,*,*,*,*,二,ニ,ニ,1/1,*",
    ]);
    assert_eq!(score(&m, 2, 2), -2);
}

#[test]
fn digit_sequence_estimate() {
    let n = njd(&[
        "一,名詞,数,*,*,*,*,一,イチ,イチ,2/2,*",
        "回,名詞,接尾,助数詞,*,*,*,回,カイ,カイ,1/2,*",
    ]);
    let mut seq = DigitSequence::new(0, 0, vec![1], None);
    seq.estimate_numerical_reading(&n);
    assert_eq!(seq.is_numerical_reading, Some(true));
    let mut fixed = DigitSequence::new(0, 0, vec![1], Some(false));
    fixed.estimate_numerical_reading(&n);
    assert_eq!(fixed.is_numerical_reading, Some(false));
}

#[test]
fn digit_sequence_read_as_number() {
    let mut n = njd(&[
        "一,名詞,数,*,*,*,*,一,イチ,イチ,2/2,*",
        "二,名詞,数,*,*,*,*,二,ニ,ニ,1/1,*",
        "三,名詞,数,*,*,*,*,三,サン,サン,0/2,*",
    ]);
    let mut seq = DigitSequence::new(0, 2, vec![1, 2, 3], Some(true));
    let change = seq.convert(&mut n, 0);
    assert_eq!(change, 1);
    let strings: Vec<&str> = n.nodes.iter().map(|x| x.get_string()).collect();
    assert_eq!(strings, vec!["百", "二", "十", "三"]);
}

#[test]
fn digit_sequence_read_digit_by_digit() {
    let mut n = njd(&[
        "二,名詞,数,*,*,*,*,二,ニ,ニ,1/1,*",
        "〇,名詞,数,*,*,*,*,〇,ゼロ,ゼロ,1/2,*",
        "五,名詞,数,*,*,*,*,五,ゴ,ゴ,1/1,*",
    ]);
    let mut seq = DigitSequence::new(0, 2, vec![2, 0, 5], Some(false));
    let change = seq.convert(&mut n, 0);
    assert_eq!(change, 0);
    assert_eq!(n.nodes[0].get_pron().to_string(), "ニー");
    assert_eq!(n.nodes[0].get_pron().accent(), 3);
    assert_eq!(n.nodes[0].get_chain_flag(), Some(false));
    assert_eq!(n.nodes[1].get_chain_flag(), Some(true));
    assert_eq!(n.nodes[2].get_pron().to_string(), "ゴー");
    assert_eq!(n.nodes[2].get_pron().accent(), 1);
    let _ = NJDNode::new_single("二,名詞,数,*,*,*,*,二,ニ,ニ,1/1,*");
}

#[test]
fn devoicing_never_takes_two_morae_in_a_row() {
    // Every vowel here stands between voiceless consonants; the pass
    // devoices every other mora only.
    let mut n = njd(&["チキチキ,名詞,一般,*,*,*,*,チキチキ,チキチキ,チキチキ,0/4,*"]);
    njd_set_unvoiced_vowel(&mut n);
    let moras = &n.nodes[0].get_pron().moras;
    assert_eq!(n.nodes[0].get_pron().to_string(), "チ’キチ’キ");
    for w in moras.windows(2) {
        assert!(w[0].is_voiced || w[1].is_voiced);
    }
}

#[test]
fn digit_sequence_pass_normalizes_converts_and_drops_silent_words() {
    // １０５ read as a number: 百 and 五; the word of ０ is emptied and dropped.
    let mut n = njd(&[
        "１,名詞,数,*,*,*,*,１,イチ,イチ,2/2,*",
        "０,名詞,数,*,*,*,*,０,ゼロ,ゼロ,1/2,*",
        "５,名詞,数,*,*,*,*,５,ゴ,ゴ,1/1,*",
    ]);
    njd_digit_sequence(&mut n, vec![DigitSequence::new(0, 2, vec![1, 0, 5], Some(true))]);
    let strings: Vec<&str> = n.nodes.iter().map(|x| x.get_string()).collect();
    assert_eq!(strings, vec!["百", "五"]);

    // Two sequences: the second moves by the words that the first added.
    let mut m = njd(&[
        "２,名詞,数,*,*,*,*,２,ニ,ニ,1/1,*",
        "３,名詞,数,*,*,*,*,３,サン,サン,0/2,*",
        "と,助詞,並立助詞,*,*,*,*,と,ト,ト,0/1,*",
        "４,名詞,数,*,*,*,*,４,ヨン,ヨン,1/2,*",
    ]);
    njd_digit_sequence(
        &mut m,
        vec![
            DigitSequence::new(0, 1, vec![2, 3], Some(true)),
            DigitSequence::new(3, 3, vec![4], Some(false)),
        ],
    );
    let strings: Vec<&str> = m.nodes.iter().map(|x| x.get_string()).collect();
    assert_eq!(strings, vec!["二", "十", "三", "と", "四"]);
    assert_eq!(m.nodes[4].get_chain_flag(), Some(false));
}

#[test]
fn first_day_of_a_month_reads_tsuitachi() {
    let mut n = njd(&[
        "五,名詞,数,*,*,*,*,五,ゴ,ゴ,1/1,*",
        "月,名詞,接尾,助数詞,*,*,*,月,ガツ,ガツ,1/2,*",
        "一,名詞,数,*,*,*,*,一,イチ,イチ,2/2,*",
        "日,名詞,接尾,助数詞,*,*,*,日,ニチ,ニチ,1/2,*",
    ]);
    njd_set_digit(&mut n);
    let strings: Vec<&str> = n.nodes.iter().map(|x| x.get_string()).collect();
    assert_eq!(strings, vec!["五", "月", "一日"]);
    assert_eq!(n.nodes[2].get_pron().to_string(), "ツイタチ");
    assert_eq!(n.nodes[2].get_pron().accent(), 4);
    // Without a month before it, 一日 stays two words.
    let mut m = njd(&[
        "一,名詞,数,*,*,*,*,一,イチ,イチ,2/2,*",
        "日,名詞,接尾,助数詞,*,*,*,日,ニチ,ニチ,1/2,*",
    ]);
    njd_set_digit(&mut m);
    assert_eq!(m.nodes.len(), 2);
}
