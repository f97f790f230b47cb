//! Querying a page: the markup is parsed leniently, a selector pattern is
//! compiled, and every element the selector matches is handed out as the text
//! found beneath it.
//!
//! Matches come in the order in which the parser created their elements. For
//! markup that the parser does not have to repair, that is document order.

use crate::error::{SelectorParseError, SelectorParseErrorView, TranslError, TranslErrorView};
use cssparser::ParseError;
use scraper::{Html, Selector};
use selectors::parser::SelectorParseErrorKind;
use vstd::prelude::*;

verus! {

/// An element that a selector matched, held as the contents of the text nodes
/// beneath it, in the order of a walk through the element's subtree. Markup
/// nested in the element contributes its text nodes and nothing of its tags.
#[derive(Debug, PartialEq, Eq)]
pub struct NodeRef {
    pub texts: Vec<String>,
}

impl View for NodeRef {
    type V = Seq<Seq<char>>;

    open spec fn view(&self) -> Seq<Seq<char>> {
        self.texts.deep_view()
    }
}

impl DeepView for NodeRef {
    type V = Seq<Seq<char>>;

    open spec fn deep_view(&self) -> Seq<Seq<char>> {
        self.texts.deep_view()
    }
}

/// What `scraper::Selector::parse` makes of `pattern`: `None` where the
/// pattern compiles, else the fault the parser stops at, with the fault's
/// kind in its `Debug` form.
pub uninterp spec fn selector_fault(pattern: Seq<char>) -> Option<SelectorParseErrorView>;

/// What `scraper::Html::select` yields on the page parsed from `document` for
/// the selector compiled from `pattern`: the matching elements in the order
/// in which the parser created them, each as the text nodes that
/// `scraper::ElementRef::text` finds beneath it. Meaningful only where
/// `pattern` compiles.
pub uninterp spec fn matched_text(document: Seq<char>, pattern: Seq<char>) -> Seq<Seq<Seq<char>>>;

/// Parses `document` with `scraper::Html::parse_document`, compiles `pattern`
/// with `scraper::Selector::parse`, collects what `Html::select` yields and
/// reads each match with `ElementRef::text`. A fault of the selector parser,
/// a `cssparser::ParseError`, is copied into owned values.
///
/// Trusted: the call returns for every document, since the parser repairs
/// broken markup instead of refusing it; it fails exactly where the pattern
/// does not compile; and fault and matches depend on the two texts alone.
/// Nothing more is claimed: which elements a pattern matches is left to
/// `matched_text`.
#[verifier::external_body]
fn select_text_nodes(document: &str, pattern: &str) -> (selection: Result<
    Vec<NodeRef>,
    SelectorParseError,
>)
    ensures
        match selection {
            Ok(nodes) => selector_fault(pattern@) is None && nodes.deep_view() == matched_text(
                document@,
                pattern@,
            ),
            Err(fault) => selector_fault(pattern@) == Some(fault@),
        },
{
    let html = Html::parse_document(document);
    let selector = Selector::parse(pattern).map_err(
        |error: ParseError<'_, SelectorParseErrorKind<'_>>|
            SelectorParseError {
                kind: format!("{:?}", error.kind),
                line: error.location.line,
                column: error.location.column,
            },
    )?;
    Ok(
        html.select(&selector).map(
            |element| NodeRef { texts: element.text().map(String::from).collect() },
        ).collect(),
    )
}

/// The outcome of a query, given the parser's verdict on the pattern and the
/// matches the pattern has in the page.
pub open spec fn spec_select(
    fault: Option<SelectorParseErrorView>,
    matched: Seq<Seq<Seq<char>>>,
) -> Result<Seq<Seq<Seq<char>>>, TranslErrorView> {
    match fault {
        None => Ok(matched),
        Some(fault) => Err(TranslErrorView::ParseError(fault)),
    }
}

/// Mathematical model of a query's outcome.
pub open spec fn selection_view(selection: Result<Vec<NodeRef>, TranslError>) -> Result<
    Seq<Seq<Seq<char>>>,
    TranslErrorView,
> {
    match selection {
        Ok(nodes) => Ok(nodes.deep_view()),
        Err(error) => Err(error@),
    }
}

/// Parses `document`, compiles `pattern` and returns the elements that the
/// pattern matches, in the order in which the parser created them.
///
/// Broken markup is no failure: the only error is a pattern that does not
/// compile, and it comes back as `TranslError::ParseError` with the parser's
/// fault. A pattern that matches nothing gives an empty vector.
pub fn select(document: &str, pattern: &str) -> (selection: Result<Vec<NodeRef>, TranslError>)
    ensures
        selection_view(selection) == spec_select(
            selector_fault(pattern@),
            matched_text(document@, pattern@),
        ),
{
    match select_text_nodes(document, pattern) {
        Ok(nodes) => Ok(nodes),
        Err(fault) => Err(TranslError::from(fault)),
    }
}

} // verus!
