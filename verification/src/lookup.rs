//! The whole lookup after the fetch: from what the fetch ended in to the
//! lines to print. A failure of any stage passes through the later stages
//! unchanged and is told at the end.

use crate::error::{TranslError, TranslErrorView};
use crate::fetch::fetched_view;
use crate::present::{report, spec_not_found, spec_report, Line, LineView};
use crate::scrape::{candidates_view, scrape, spec_scrape};
use vstd::prelude::*;

verus! {

/// The candidates that a fetch's outcome leads to: those scraped from the
/// page, or the fetch's failure unchanged.
pub open spec fn spec_scrape_fetched(fetched: Result<Seq<char>, TranslErrorView>) -> Result<
    Seq<Seq<char>>,
    TranslErrorView,
> {
    match fetched {
        Ok(body) => spec_scrape(body),
        Err(error) => Err(error),
    }
}

/// The lines that a fetch's outcome leads to.
pub open spec fn spec_translate(fetched: Result<Seq<char>, TranslErrorView>) -> Seq<LineView> {
    spec_report(spec_scrape_fetched(fetched))
}

/// Scrapes the page that a fetch ended with. A fetch that failed is not
/// scraped: its failure is handed on as it is.
pub fn scrape_fetched(fetched: Result<String, TranslError>) -> (outcome: Result<
    Vec<String>,
    TranslError,
>)
    ensures
        candidates_view(outcome) == spec_scrape_fetched(fetched_view(fetched)),
{
    match fetched {
        Ok(body) => scrape(body.as_str()),
        Err(error) => Err(error),
    }
}

/// Carries a finished fetch through to the lines to print: the page is
/// scraped, the candidates are split and laid out; where the fetch or a later
/// stage failed, the result is the not-found line.
pub fn translate(fetched: Result<String, TranslError>) -> (lines: Vec<Line>)
    ensures
        lines.deep_view() == spec_translate(fetched_view(fetched)),
{
    report(scrape_fetched(fetched))
}

/// A fetch that failed always ends in the not-found line, and so does a page
/// that was fetched but lists no candidate.
pub proof fn lemma_failure_prints_not_found(error: TranslErrorView)
    ensures
        spec_translate(Err(error)) == spec_not_found(),
        spec_report(Err(error)) == spec_not_found(),
        spec_report(Ok(Seq::empty())) == spec_not_found(),
{
}

} // verus!
