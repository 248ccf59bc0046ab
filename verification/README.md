# jpreprocess

A Japanese text frontend for speech synthesis, written in Verus. Words from
a dictionary (part of speech, conjugation, reading, pronunciation, accent
and accent-phrase rules) go through a series of rule passes (pronunciation,
digit sequences, numbers, accent phrases, accent types, vowel devoicing), and the result is
given as dictionary-form lines or as full-context labels.

Every function of the library states its behaviour in `requires` / `ensures`
over mathematical models (`Seq`, `Map`, spec functions), and Verus proves it.

## Layout

- `src/`: the verified library.
  - `text`, `error`: strings, decimal numbers, splitting and joining; errors.
  - `pos`, `ctype`, `cform`, `accent_rule`, `mora`, `pronunciation`, `node`:
    the word model and its parsers and printers.
  - `njd`, `window`: a sentence's words and the windows the passes look
    through.
  - `set_pronunciation`, `digit`, `digit_table`, `digit_sequence`,
    `accent_phrase`, `accent_type`, `unvoiced_vowel`, `currency`: the rule
    passes.
  - `normalize_text`: full-width normalization of the input text.
  - `word_attr`, `label`: full-context labels.
  - `dictionary`: dictionaries stored as entry data plus an offset table.
  - `frontend`: the tokenizer interface and the whole pipeline.
- `tests/`: tests of the library.
- `app/`: a command-line program that reads words in dictionary form, runs
  the passes and prints lines and labels, or lists a dictionary's entries.
