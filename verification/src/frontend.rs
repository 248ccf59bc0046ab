//! The text frontend: normalized text is split into dictionary words by a
//! tokenizer, the rule passes run over the words, and the result is given
//! as dictionary-form lines or as context labels.

use vstd::prelude::*;

use crate::accent_phrase::{accent_phrased, njd_set_accent_phrase};
use crate::accent_type::{accent_inputs_bounded, accent_inputs_fit, accent_typed, njd_set_accent_type};
use crate::digit::{digit_set, njd_set_digit};
use crate::digit_sequence::{
    digits_normalized, njd_digit_sequence, sequence_views, sequences_fit, sequences_run, DigitSequence, SequenceView,
};
use crate::error::{JPreprocessError, JPreprocessErrorKind, JPreprocessResult};
use crate::label::{fullcontext, njdnodes_to_features, utterance_ok, utterance_of, utterance_phonemes};
use crate::node::{csv_nodes, writable, NJDNode};
use crate::njd::{csv_all, entries_all, entry_pairs, lemma_lines_read_back, node_lines};
use crate::text::views;

use crate::njd::{audible, NJD};
use crate::node::{NodeView, WordEntry};
use crate::normalize_text::{normalize_text_for_naist_jdic, normalized};
use crate::set_pronunciation::{njd_set_pronunciation, pronunciation_set};

use crate::unvoiced_vowel::{njd_set_unvoiced_vowel, unvoiced_result};

verus! {

/// The words after the pronunciation pass and the digit-sequence pass
/// with the sequences `sv`, where those fit the words.
pub open spec fn after_sequences(ns: Seq<NodeView>, sv: Seq<SequenceView>) -> Option<Seq<NodeView>> {
    match sequences_run(digits_normalized(pronunciation_set(ns)), sv, sv.len()) {
        Some((ns2, _)) => Some(audible(ns2)),
        None => None,
    }
}

/// The words as they reach the accent type pass.
pub open spec fn before_accent_type(ns: Seq<NodeView>, sv: Seq<SequenceView>) -> Seq<NodeView> {
    accent_phrased(digit_set(after_sequences(ns, sv).unwrap()))
}

/// The words and digit sequences for which the passes can run: the
/// sequences fit the words, and every sum the accent pass forms fits the
/// machine.
pub open spec fn preprocess_ok(ns: Seq<NodeView>, sv: Seq<SequenceView>) -> bool {
    after_sequences(ns, sv) is Some && accent_inputs_bounded(before_accent_type(ns, sv))
}

impl NJD {
    /// Runs the rule passes in order: pronunciation, digit sequences (the
    /// sequences of the words once their pronunciation is set, see
    /// `njd_digit_sequence`), numbers, accent phrases, accent types,
    /// devoicing.
    pub fn preprocess(&mut self, sequences: Vec<DigitSequence>)
        requires
            preprocess_ok(old(self)@, sequence_views(sequences@)),
        ensures
            unvoiced_result(accent_typed(before_accent_type(old(self)@, sequence_views(sequences@))), final(self)@),
    {
        njd_set_pronunciation(self);
        njd_digit_sequence(self, sequences);
        njd_set_digit(self);
        njd_set_accent_phrase(self);
        njd_set_accent_type(self);
        njd_set_unvoiced_vowel(self);
    }

    /// Runs the rule passes (as `preprocess` does) when the words and
    /// sequences allow it (`preprocess_ok`); otherwise stops with an error:
    /// after the pronunciation pass where the sequences do not fit the
    /// words, before the accent type pass where its sums would not fit the
    /// machine.
    pub fn try_preprocess(&mut self, sequences: Vec<DigitSequence>) -> (r: JPreprocessResult<()>)
        ensures
            r is Ok == preprocess_ok(old(self)@, sequence_views(sequences@)),
            r is Ok ==> unvoiced_result(
                accent_typed(before_accent_type(old(self)@, sequence_views(sequences@))),
                final(self)@,
            ),
            match r {
                Ok(_) => true,
                Err(e) => if after_sequences(old(self)@, sequence_views(sequences@)) is None {
                    e.kind == JPreprocessErrorKind::DigitSequenceMismatch && final(self)@ == pronunciation_set(
                        old(self)@,
                    )
                } else {
                    e.kind == JPreprocessErrorKind::LimitExceeded && final(self)@ == before_accent_type(
                        old(self)@,
                        sequence_views(sequences@),
                    )
                },
            },
    {
        njd_set_pronunciation(self);
        if !sequences_fit(self, &sequences) {
            return Err(JPreprocessErrorKind::DigitSequenceMismatch.with_error());
        }
        njd_digit_sequence(self, sequences);
        njd_set_digit(self);
        njd_set_accent_phrase(self);
        if !accent_inputs_fit(self) {
            return Err(JPreprocessErrorKind::LimitExceeded.with_error());
        }
        njd_set_accent_type(self);
        njd_set_unvoiced_vowel(self);
        Ok(())
    }
}

/// The lines of the words after all rule passes: `ns2` is what the passes
/// make of `ns` with the digit sequences `sv`, and `lines` its words in
/// dictionary form.
pub open spec fn frontend_lines(ns: Seq<NodeView>, sv: Seq<SequenceView>, ns2: Seq<NodeView>, lines: Seq<Seq<char>>) -> bool {
    &&& unvoiced_result(accent_typed(before_accent_type(ns, sv)), ns2)
    &&& lines == node_lines(ns2)
}

/// The lines that the frontend gives read back, line by line, as the
/// processed words (when each of them can be written, see `writable`): so
/// they meet the first demand of `make_label`, which then labels those
/// words.
pub proof fn lemma_frontend_lines_read_back(
    ns: Seq<NodeView>,
    sv: Seq<SequenceView>,
    ns2: Seq<NodeView>,
    lines: Seq<Seq<char>>,
)
    requires
        frontend_lines(ns, sv, ns2, lines),
        forall|i: int| 0 <= i < ns2.len() ==> writable(#[trigger] ns2[i]),
    ensures
        forall|i: int| 0 <= i < lines.len() ==> csv_nodes(#[trigger] lines[i]) is Some,
        csv_all(lines) == ns2,
{
    lemma_lines_read_back(ns2);
}

/// Runs the rule passes over the words with the digit sequences and gives
/// the words in dictionary form; sequences that do not fit the words, and
/// words beyond the machine's limits, are errors.
pub fn preprocessed_lines(njd: NJD, sequences: Vec<DigitSequence>) -> (r: JPreprocessResult<Vec<String>>)
    ensures
        match r {
            Ok(lines) => preprocess_ok(njd@, sequence_views(sequences@)),
            Err(e) => !preprocess_ok(njd@, sequence_views(sequences@)) && (if after_sequences(
                njd@,
                sequence_views(sequences@),
            ) is None {
                e.kind == JPreprocessErrorKind::DigitSequenceMismatch
            } else {
                e.kind == JPreprocessErrorKind::LimitExceeded
            }),
        },
        r matches Ok(lines) ==> exists|ns2: Seq<NodeView>|
            #[trigger] frontend_lines(njd@, sequence_views(sequences@), ns2, views(lines@)),
{
    let ghost ns0 = njd@;
    let ghost sv = sequence_views(sequences@);
    let mut njd = njd;
    match njd.try_preprocess(sequences) {
        Ok(()) => {},
        Err(e) => {
            return Err(e);
        },
    }
    let lines = njd.to_strings();
    assert(frontend_lines(ns0, sv, njd@, views(lines@)));
    let r: JPreprocessResult<Vec<String>> = Ok(lines);
    assert(r matches Ok(l) && l@ == lines@);
    r
}

/// What a tokenizer gives, as values: the surface string and dictionary
/// entry of each token, or an error.
pub open spec fn tokens_view(r: JPreprocessResult<Vec<(String, WordEntry)>>) -> JPreprocessResult<
    Seq<(Seq<char>, WordEntry)>,
> {
    match r {
        Ok(v) => Ok(entry_pairs(v@)),
        Err(e) => Err(e),
    }
}

/// Splits normalized text into dictionary words, each with its surface
/// string and dictionary entry.
pub trait Tokenizer {
    /// Whether `r` is a result that this tokenizer may give for `text`; each
    /// tokenizer may say which (a dictionary, chance or anything else may
    /// decide). One that says nothing may give any result.
    open spec fn tokenized(&self, text: Seq<char>, r: JPreprocessResult<Seq<(Seq<char>, WordEntry)>>) -> bool {
        true
    }

    fn tokenize(&self, text: &str) -> (r: JPreprocessResult<Vec<(String, WordEntry)>>)
        ensures
            self.tokenized(text@, tokens_view(r)),
    ;
}

/// The text frontend over a tokenizer.
pub struct JPreprocess<T: Tokenizer> {
    pub tokenizer: T,
}

impl<T: Tokenizer> JPreprocess<T> {
    /// The frontend over `tokenizer`.
    pub fn from_tokenizer(tokenizer: T) -> (r: JPreprocess<T>)
        ensures
            r.tokenizer == tokenizer,
    {
        JPreprocess { tokenizer }
    }

    /// The words of a text: the text is normalized, split by the tokenizer,
    /// and each token's entry gives its words. The tokenizer's error is the
    /// error.
    pub fn text_to_njd(&self, text: &str) -> (r: JPreprocessResult<NJD>)
        ensures
            exists|t: JPreprocessResult<Seq<(Seq<char>, WordEntry)>>|
                #[trigger] self.tokenizer.tokenized(normalized(text@), t) && match t {
                    Ok(es) => r matches Ok(njd) && njd@ == entries_all(es),
                    Err(e) => r == Err::<NJD, JPreprocessError>(e),
                },
    {
        let normalized_input_text = normalize_text_for_naist_jdic(text);
        let result = self.tokenizer.tokenize(normalized_input_text.as_str());
        let tokens = match result {
            Ok(t) => t,
            Err(e) => {
                return Err(e);
            },
        };
        let njd = NJD::from_entries(&tokens);
        Ok(njd)
    }

    /// Tokenizes a text, runs the rule passes with the digit sequences of
    /// its words (once their pronunciation is set) and gives the words in
    /// dictionary form. The tokenizer's error is the error; sequences that
    /// do not fit the words and words beyond the machine's limits are
    /// errors too.
    pub fn run_frontend(&self, text: &str, sequences: Vec<DigitSequence>) -> (r: JPreprocessResult<Vec<String>>)
        ensures
            exists|t: JPreprocessResult<Seq<(Seq<char>, WordEntry)>>|
                #[trigger] self.tokenizer.tokenized(normalized(text@), t) && match t {
                    Ok(es) => match r {
                        Ok(lines) => preprocess_ok(entries_all(es), sequence_views(sequences@)) && exists|
                            ns2: Seq<NodeView>,
                        |
                            #[trigger] frontend_lines(entries_all(es), sequence_views(sequences@), ns2, views(lines@)),
                        Err(e) => !preprocess_ok(entries_all(es), sequence_views(sequences@)) && (if after_sequences(
                            entries_all(es),
                            sequence_views(sequences@),
                        ) is None {
                            e.kind == JPreprocessErrorKind::DigitSequenceMismatch
                        } else {
                            e.kind == JPreprocessErrorKind::LimitExceeded
                        }),
                    },
                    Err(e) => r == Err::<Vec<String>, JPreprocessError>(e),
                },
    {
        let njd = match self.text_to_njd(text) {
            Ok(n) => n,
            Err(e) => {
                return Err(e);
            },
        };
        preprocessed_lines(njd, sequences)
    }

    /// Full-context labels of words given in dictionary form (as
    /// `run_frontend` gives them).
    pub fn make_label(&self, njd_features: Vec<String>) -> (r: Vec<String>)
        requires
            forall|i: int| 0 <= i < njd_features@.len() ==> csv_nodes(#[trigger] njd_features@[i]@) is Some,
            utterance_ok(utterance_of(csv_all(views(njd_features@)))),
        ensures
            views(r@) == fullcontext(utterance_phonemes(utterance_of(csv_all(views(njd_features@))))),
    {
        let njd = NJD::from_strings(njd_features);
        proof {
            assert(njd.nodes@.map_values(|n: NJDNode| n@) == njd@);
        }
        njdnodes_to_features(njd.nodes.as_slice())
    }
}

} // verus!
