//! Errors of the library.

use vstd::prelude::*;

verus! {

/// What went wrong.
#[derive(Clone, Copy, PartialEq, Eq, Debug, Structural)]
pub enum JPreprocessErrorKind {
    Io,
    DictionaryIndexOutOfRange,
    PronunciationParseError,
    PartOfSpeechParseError,
    CFormParseError,
    CTypeParseError,
    AccentRuleParseError,
    WordNotFoundError,
    /// A number in the words (an accent, or the count of their morae) lies
    /// beyond what the accent rules compute with.
    LimitExceeded,
    /// A digit sequence given for the words does not fit them: its reading
    /// is not decided, or it reaches past the words.
    DigitSequenceMismatch,
}

/// An error, tagged with its kind.
#[derive(Clone, Copy, PartialEq, Eq, Debug, Structural)]
pub struct JPreprocessError {
    pub kind: JPreprocessErrorKind,
}

impl JPreprocessErrorKind {
    pub fn with_error(self) -> (r: JPreprocessError)
        ensures
            r.kind == self,
    {
        JPreprocessError { kind: self }
    }
}

pub type JPreprocessResult<T> = Result<T, JPreprocessError>;

/// `r` is the result of a parser whose accepted inputs and values are
/// given by `expected`: `Ok(v)` exactly when `expected` is `Some(v)`,
/// and otherwise an error of kind `kind`.
pub open spec fn parsed_as<T>(
    r: Result<T, JPreprocessError>,
    expected: Option<T>,
    kind: JPreprocessErrorKind,
) -> bool {
    match r {
        Ok(v) => expected == Some(v),
        Err(e) => expected is None && e.kind == kind,
    }
}

} // verus!
