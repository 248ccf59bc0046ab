//! Japanese text preprocessing for speech synthesis: part-of-speech data,
//! pronunciations, and the rule passes that turn a word sequence into
//! context labels.

pub mod text;
pub mod error;
pub mod pos;
pub mod cform;
pub mod ctype;
pub mod mora;
pub mod pronunciation;
pub mod accent_rule;
pub mod node;
pub mod window;
pub mod njd;
pub mod accent_phrase;
pub mod accent_type;
pub mod set_pronunciation;
pub mod unvoiced_vowel;
pub mod currency;
pub mod normalize_text;
pub mod digit_table;
pub mod word_attr;
pub mod label;
pub mod digit;
pub mod frontend;
pub mod dictionary;
pub mod digit_sequence;
