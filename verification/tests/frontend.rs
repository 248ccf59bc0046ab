use jpreprocess::error::{JPreprocessErrorKind, JPreprocessResult};
use jpreprocess::frontend::{JPreprocess, Tokenizer};
use jpreprocess::digit_sequence::DigitSequence;
use jpreprocess::label::njdnodes_to_features;
use jpreprocess::njd::NJD;
use jpreprocess::node::{WordDetails, WordEntry};

/// Splits nothing: hands out the same words whatever the text.
struct FixedTokenizer {
    words: Vec<Vec<&'static str>>,
}

impl Tokenizer for FixedTokenizer {
    fn tokenize(&self, _text: &str) -> JPreprocessResult<Vec<(String, WordEntry)>> {
        let mut out = Vec::new();
        for w in &self.words {
            let fields: Vec<String> = w[1..].iter().map(|s| s.to_string()).collect();
            let details = WordDetails::load(&fields)?;
            out.push((w[0].to_string(), WordEntry::Single(details)));
        }
        Ok(out)
    }
}

/// A tokenizer that finds no word.
struct FailingTokenizer;

impl Tokenizer for FailingTokenizer {
    fn tokenize(&self, _text: &str) -> JPreprocessResult<Vec<(String, WordEntry)>> {
        Err(JPreprocessErrorKind::WordNotFoundError.with_error())
    }
}

const BONSAI: [&str; 13] = ["盆栽", "名詞", "一般", "*", "*", "*", "*", "盆栽", "ボンサイ", "ボンサイ", "0/4", "C2", "-1"];
const GA: [&str; 13] = ["が", "助詞", "格助詞", "一般", "*", "*", "*", "が", "ガ", "ガ", "0/1", "名詞%F1", "-1"];

fn bonsai_ga() -> JPreprocess<FixedTokenizer> {
    JPreprocess::from_tokenizer(FixedTokenizer { words: vec![BONSAI.to_vec(), GA.to_vec()] })
}

#[test]
fn run_frontend_runs_every_pass() {
    let jp = bonsai_ga();
    let lines = jp.run_frontend("盆栽が", vec![]).unwrap();
    let mut njd = jp.text_to_njd("盆栽が").unwrap();
    assert!(njd.try_preprocess(vec![]).is_ok());
    assert_eq!(lines, njd.to_strings());
    assert_eq!(lines.len(), 2);
    assert!(lines[0].starts_with("盆栽,名詞,一般"));
    // が joins the noun's accent phrase.
    assert!(lines[1].ends_with(",1"));
}

#[test]
fn run_frontend_passes_on_the_tokenizer_error() {
    let jp = JPreprocess::from_tokenizer(FailingTokenizer);
    let err = jp.run_frontend("盆栽", vec![]).unwrap_err();
    assert_eq!(err.kind, JPreprocessErrorKind::WordNotFoundError);
}

/// Hands out 盆栽 and then a word chained to it by the rule C1 (the
/// phrase's morae plus the word's accent), with the given accent.
struct AccentTokenizer {
    accent: usize,
}

impl Tokenizer for AccentTokenizer {
    fn tokenize(&self, _text: &str) -> JPreprocessResult<Vec<(String, WordEntry)>> {
        let first: Vec<String> = BONSAI[1..].iter().map(|s| s.to_string()).collect();
        let second: Vec<String> = ["助詞", "格助詞", "一般", "*", "*", "*", "が", "ガ", "ガ", "0/1", "C1", "1"]
            .iter()
            .map(|s| s.to_string())
            .collect();
        let mut details = WordDetails::load(&second)?;
        details.pron.set_accent(self.accent);
        Ok(vec![
            (BONSAI[0].to_string(), WordEntry::Single(WordDetails::load(&first)?)),
            ("が".to_string(), WordEntry::Single(details)),
        ])
    }
}

#[test]
fn run_frontend_refuses_accents_beyond_the_limit() {
    // 4 morae plus the largest accent does not fit in usize.
    let jp = JPreprocess::from_tokenizer(AccentTokenizer { accent: usize::MAX });
    let err = jp.run_frontend("盆栽が", vec![]).unwrap_err();
    assert_eq!(err.kind, JPreprocessErrorKind::LimitExceeded);
    // A large accent whose sum fits is computed: 4 + 2000000000.
    let jp = JPreprocess::from_tokenizer(AccentTokenizer { accent: 2_000_000_000 });
    let lines = jp.run_frontend("盆栽が", vec![]).unwrap();
    assert!(lines[0].contains(",2000000004/4,"));
}

#[test]
fn run_frontend_converts_the_digit_sequences() {
    let jp = JPreprocess::from_tokenizer(FixedTokenizer {
        words: vec![
            vec!["１", "名詞", "数", "*", "*", "*", "*", "１", "イチ", "イチ", "2/2", "*", "-1"],
            vec!["２", "名詞", "数", "*", "*", "*", "*", "２", "ニ", "ニ", "1/1", "*", "-1"],
            vec!["３", "名詞", "数", "*", "*", "*", "*", "３", "サン", "サン", "0/2", "*", "-1"],
        ],
    });
    let lines = jp.run_frontend("１２３", vec![DigitSequence::new(0, 2, vec![1, 2, 3], Some(true))]).unwrap();
    let strings: Vec<&str> = lines.iter().map(|l| l.split(',').next().unwrap()).collect();
    assert_eq!(strings, vec!["百", "二", "十", "三"]);
    // Read digit by digit, the three words stay, as 一 二 三.
    let lines = jp.run_frontend("１２３", vec![DigitSequence::new(0, 2, vec![1, 2, 3], Some(false))]).unwrap();
    let strings: Vec<&str> = lines.iter().map(|l| l.split(',').next().unwrap()).collect();
    assert_eq!(strings, vec!["一", "二", "三"]);
    // A sequence past the words is refused.
    let err = jp.run_frontend("１２３", vec![DigitSequence::new(2, 4, vec![1, 2, 3], Some(true))]).unwrap_err();
    assert_eq!(err.kind, JPreprocessErrorKind::DigitSequenceMismatch);
    let err = jp.run_frontend("１２３", vec![DigitSequence::new(0, 2, vec![1, 2, 3], None)]).unwrap_err();
    assert_eq!(err.kind, JPreprocessErrorKind::DigitSequenceMismatch);
}

#[test]
fn make_label_reads_back_the_frontend_lines() {
    let jp = bonsai_ga();
    let lines = jp.run_frontend("盆栽が", vec![]).unwrap();
    let labels = jp.make_label(lines.clone());
    let njd = NJD::from_strings(lines);
    assert_eq!(labels, njdnodes_to_features(&njd.nodes));
    // b o N s a i g a between two silences.
    assert_eq!(labels.len(), 10);
    assert!(labels[0].starts_with("xx^xx-sil+b=o/A:"));
    assert!(labels[9].starts_with("g^a-sil+xx=xx/A:"));
}

#[test]
fn multithread() {
    fn tester<T: Send + Sync>() {}
    tester::<JPreprocess<FixedTokenizer>>();
}
