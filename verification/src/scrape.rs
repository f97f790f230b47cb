//! Scraping a dictionary page: from the page's markup to the translation
//! candidates it lists.

use crate::error::{TranslError, TranslErrorView};
use crate::extract::{extract, spec_extract};
use crate::select::{matched_text, select, selection_view, selector_fault, spec_select, NodeRef};
use vstd::prelude::*;

verus! {

/// The selector of a translation entry on the dictionary's pages: a paragraph
/// of class `tl`.
pub const TRANSLATION_SELECTOR: &'static str = "p.tl";

/// Mathematical model of a scrape's outcome.
pub open spec fn candidates_view(outcome: Result<Vec<String>, TranslError>) -> Result<
    Seq<Seq<char>>,
    TranslErrorView,
> {
    match outcome {
        Ok(candidates) => Ok(candidates.deep_view()),
        Err(error) => Err(error@),
    }
}

/// The candidates that a query's outcome stands for: the text of each match
/// in order, or the query's failure unchanged.
pub open spec fn spec_candidates(
    selection: Result<Seq<Seq<Seq<char>>>, TranslErrorView>,
) -> Result<Seq<Seq<char>>, TranslErrorView> {
    match selection {
        Ok(nodes) => Ok(spec_extract(nodes)),
        Err(error) => Err(error),
    }
}

/// The outcome of scraping `document` for the entries that `pattern` selects.
pub open spec fn spec_scrape_with(document: Seq<char>, pattern: Seq<char>) -> Result<
    Seq<Seq<char>>,
    TranslErrorView,
> {
    spec_candidates(spec_select(selector_fault(pattern), matched_text(document, pattern)))
}

/// The outcome of scraping `document` for translation entries.
pub open spec fn spec_scrape(document: Seq<char>) -> Result<Seq<Seq<char>>, TranslErrorView> {
    spec_scrape_with(document, TRANSLATION_SELECTOR@)
}

/// Finishes a query: every matched element becomes its text, in order; a
/// failed query stays the failure it was.
pub fn candidates(selection: Result<Vec<NodeRef>, TranslError>) -> (outcome: Result<
    Vec<String>,
    TranslError,
>)
    ensures
        candidates_view(outcome) == spec_candidates(selection_view(selection)),
{
    match selection {
        Ok(nodes) => Ok(extract(&nodes)),
        Err(error) => Err(error),
    }
}

/// Scrapes `raw_html` for the elements that `pattern` selects and returns
/// their texts in the order of the matches.
///
/// Fails only where `pattern` does not compile, with
/// `TranslError::ParseError`; the markup itself is never refused.
pub fn scrape_with(raw_html: &str, pattern: &str) -> (outcome: Result<Vec<String>, TranslError>)
    ensures
        candidates_view(outcome) == spec_scrape_with(raw_html@, pattern@),
        outcome is Ok <==> selector_fault(pattern@) is None,
        outcome matches Ok(found) ==> found.len() == matched_text(raw_html@, pattern@).len(),
{
    let outcome = candidates(select(raw_html, pattern));
    assert(outcome matches Ok(found) ==> found.deep_view().len() == found.len());
    outcome
}

/// Scrapes a dictionary page for its translation entries and returns their
/// texts in the order of the page: the first is the page's primary
/// translation.
///
/// A page without entries gives an empty vector. The only failure is
/// `TranslError::ParseError`, should the entry selector not compile.
pub fn scrape(raw_html: &str) -> (outcome: Result<Vec<String>, TranslError>)
    ensures
        candidates_view(outcome) == spec_scrape(raw_html@),
        outcome is Ok <==> selector_fault(TRANSLATION_SELECTOR@) is None,
        outcome matches Ok(found) ==> found.len() == matched_text(
            raw_html@,
            TRANSLATION_SELECTOR@,
        ).len(),
{
    scrape_with(raw_html, TRANSLATION_SELECTOR)
}

/// Whether a scrape succeeds is decided by the pattern alone: no markup,
/// however broken, turns a pattern that compiles into a failure, and on
/// success there is one candidate for each element that the pattern matches.
pub proof fn lemma_markup_never_fails(document: Seq<char>, pattern: Seq<char>)
    ensures
        spec_scrape_with(document, pattern) is Ok <==> selector_fault(pattern) is None,
        spec_scrape_with(document, pattern) matches Ok(candidates) ==> candidates.len()
            == matched_text(document, pattern).len(),
{
}

} // verus!
