//! The failures a lookup can end in.

use vstd::prelude::*;
use vstd::std_specs::convert::FromSpecImpl;

verus! {

/// Why a selector pattern was refused: the parser's description of the fault
/// and the place in the pattern where it was met. All of it is owned, so the
/// value outlives the pattern text it was reported for.
#[derive(Debug, PartialEq, Eq)]
pub struct SelectorParseError {
    /// The parser's name for the fault.
    pub kind: String,
    /// Line of the fault within the pattern, counted from 0.
    pub line: u32,
    /// Column of the fault within its line, counted from 1.
    pub column: u32,
}

/// Mathematical model of a [`SelectorParseError`].
pub struct SelectorParseErrorView {
    pub kind: Seq<char>,
    pub line: u32,
    pub column: u32,
}

impl View for SelectorParseError {
    type V = SelectorParseErrorView;

    open spec fn view(&self) -> SelectorParseErrorView {
        SelectorParseErrorView { kind: self.kind@, line: self.line, column: self.column }
    }
}

/// Every way a lookup can fail.
#[derive(Debug, PartialEq, Eq)]
pub enum TranslError {
    /// The server could not be reached, or its answer could not be read.
    ReqError { message: String },
    /// The selector pattern did not compile.
    ParseError(SelectorParseError),
    /// The server answered, but not with status 200: it does not know the word.
    FindError,
    /// The page was delivered but holds no translation entry.
    EmptyError,
}

/// Mathematical model of a [`TranslError`].
pub enum TranslErrorView {
    ReqError { message: Seq<char> },
    ParseError(SelectorParseErrorView),
    FindError,
    EmptyError,
}

impl View for TranslError {
    type V = TranslErrorView;

    open spec fn view(&self) -> TranslErrorView {
        match self {
            TranslError::ReqError { message } => TranslErrorView::ReqError { message: message@ },
            TranslError::ParseError(fault) => TranslErrorView::ParseError(fault@),
            TranslError::FindError => TranslErrorView::FindError,
            TranslError::EmptyError => TranslErrorView::EmptyError,
        }
    }
}

impl TranslErrorView {
    /// The sentence that describes the failure to a reader.
    pub open spec fn message(self) -> Seq<char> {
        match self {
            TranslErrorView::ReqError { .. } => "Reqwest error."@,
            TranslErrorView::ParseError(_) => "Could not retrieve selector."@,
            TranslErrorView::FindError => "Could not find the inputted word."@,
            TranslErrorView::EmptyError => "Could not find a translation on the page."@,
        }
    }
}

impl TranslError {
    /// The sentence that describes the failure to a reader.
    pub fn message(&self) -> (text: String)
        ensures
            text@ == self@.message(),
    {
        match self {
            TranslError::ReqError { .. } => String::from_str("Reqwest error."),
            TranslError::ParseError(_) => String::from_str("Could not retrieve selector."),
            TranslError::FindError => String::from_str("Could not find the inputted word."),
            TranslError::EmptyError => String::from_str("Could not find a translation on the page."),
        }
    }
}

impl From<SelectorParseError> for TranslError {
    /// A refused selector pattern ends the lookup as a `ParseError`.
    fn from(fault: SelectorParseError) -> (error: TranslError) {
        TranslError::ParseError(fault)
    }
}

impl FromSpecImpl<SelectorParseError> for TranslError {
    open spec fn obeys_from_spec() -> bool {
        true
    }

    open spec fn from_spec(fault: SelectorParseError) -> TranslError {
        TranslError::ParseError(fault)
    }
}

} // verus!
