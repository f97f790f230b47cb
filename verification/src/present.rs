//! Laying out what a lookup prints: which lines, in which words, and how each
//! line's label is painted. Writing them to a terminal is left to the caller.

use crate::error::{TranslError, TranslErrorView};
use crate::partition::{partition, spec_partition, Translation, TranslationView};
use crate::scrape::candidates_view;
use vstd::prelude::*;

verus! {

/// How a line's label is painted on a terminal.
#[derive(Debug, Clone, Copy, PartialEq, Eq, Structural)]
pub enum Paint {
    /// As the terminal writes by default.
    Plain,
    /// Green and bold.
    GreenBold,
    /// Cyan.
    Cyan,
}

/// One printed line: a painted label, then unpainted text.
#[derive(Debug, PartialEq, Eq)]
pub struct Line {
    pub label: String,
    pub paint: Paint,
    pub text: String,
}

/// Mathematical model of a [`Line`].
pub struct LineView {
    pub label: Seq<char>,
    pub paint: Paint,
    pub text: Seq<char>,
}

impl LineView {
    /// The line's characters with the paint left out: label, then text.
    pub open spec fn plain(self) -> Seq<char> {
        self.label + self.text
    }
}

impl View for Line {
    type V = LineView;

    open spec fn view(&self) -> LineView {
        LineView { label: self.label@, paint: self.paint, text: self.text@ }
    }
}

impl DeepView for Line {
    type V = LineView;

    open spec fn deep_view(&self) -> LineView {
        self@
    }
}

impl Line {
    /// The line's characters with the paint left out: label, then text.
    pub fn plain(&self) -> (characters: String)
        ensures
            characters@ == self@.plain(),
    {
        let mut characters = String::from_str(self.label.as_str());
        characters.append(self.text.as_str());
        characters
    }
}

/// The parts in order with `separator` between each two neighbours: nothing
/// before the first part and nothing after the last.
pub open spec fn spec_join(parts: Seq<Seq<char>>, separator: Seq<char>) -> Seq<char>
    decreases parts.len(),
{
    if parts.len() == 0 {
        Seq::empty()
    } else if parts.len() == 1 {
        parts[0]
    } else {
        spec_join(parts.drop_last(), separator) + separator + parts.last()
    }
}

/// Joins `parts` in order, with `separator` between each two neighbours.
pub fn join(parts: &Vec<String>, separator: &str) -> (joined: String)
    ensures
        joined@ == spec_join(parts.deep_view(), separator@),
{
    let ghost all = parts.deep_view();
    let mut joined = String::new();
    let mut i: usize = 0;
    while i < parts.len()
        invariant
            i <= parts.len(),
            all == parts.deep_view(),
            joined@ == spec_join(all.take(i as int), separator@),
        decreases parts.len() - i,
    {
        if i > 0 {
            joined.append(separator);
        }
        joined.append(parts[i].as_str());
        assert(all.take(i + 1).drop_last() =~= all.take(i as int));
        i += 1;
    }
    assert(all.take(i as int) =~= all);
    joined
}

/// The two lines of a translation: the primary under its heading, then the
/// alternates joined by `", "`, or a note that there are none.
pub open spec fn spec_render(translation: TranslationView) -> Seq<LineView> {
    seq![
        LineView { label: "Translation: "@, paint: Paint::GreenBold, text: translation.primary },
        if translation.alternates.len() == 0 {
            LineView {
                label: "No alternative translations available."@,
                paint: Paint::Cyan,
                text: Seq::empty(),
            }
        } else {
            LineView {
                label: "Alternative(s): "@,
                paint: Paint::Cyan,
                text: spec_join(translation.alternates, ", "@),
            }
        },
    ]
}

/// The single line of a lookup that found nothing.
pub open spec fn spec_not_found() -> Seq<LineView> {
    seq![LineView { label: "Could not find the word."@, paint: Paint::Plain, text: Seq::empty() }]
}

/// The lines of a run of candidates: those of their translation, or the
/// not-found line where there is no candidate.
pub open spec fn spec_print_vec(candidates: Seq<Seq<char>>) -> Seq<LineView> {
    match spec_partition(candidates) {
        Ok(translation) => spec_render(translation),
        Err(_) => spec_not_found(),
    }
}

/// The lines of a lookup's outcome: every failure, of whatever kind, is told
/// by the same not-found line.
pub open spec fn spec_report(outcome: Result<Seq<Seq<char>>, TranslErrorView>) -> Seq<LineView> {
    match outcome {
        Ok(candidates) => spec_print_vec(candidates),
        Err(_) => spec_not_found(),
    }
}

/// Lays out a translation: the line `Translation: ` with the primary, then
/// the line `Alternative(s): ` with the alternates joined by `", "`, or, with
/// no alternates, the note that none are available.
pub fn render(translation: Translation) -> (lines: Vec<Line>)
    ensures
        lines.deep_view() == spec_render(translation@),
        lines.len() == 2,
{
    let Translation { primary, alternates } = translation;
    let heading = Line {
        label: String::from_str("Translation: "),
        paint: Paint::GreenBold,
        text: primary,
    };
    let second = if alternates.len() == 0 {
        Line {
            label: String::from_str("No alternative translations available."),
            paint: Paint::Cyan,
            text: String::new(),
        }
    } else {
        Line {
            label: String::from_str("Alternative(s): "),
            paint: Paint::Cyan,
            text: join(&alternates, ", "),
        }
    };
    let mut lines: Vec<Line> = Vec::new();
    lines.push(heading);
    lines.push(second);
    lines
}

/// The one line printed for a lookup that found nothing.
pub fn not_found() -> (lines: Vec<Line>)
    ensures
        lines.deep_view() == spec_not_found(),
        lines.len() == 1,
{
    let mut lines: Vec<Line> = Vec::new();
    lines.push(
        Line {
            label: String::from_str("Could not find the word."),
            paint: Paint::Plain,
            text: String::new(),
        },
    );
    lines
}

/// Lays out the lines for the translated words in `vec`: the first word is
/// the translation, the others are its alternatives. With no word at all the
/// result is the not-found line.
pub fn print_vec(vec: Vec<String>) -> (lines: Vec<Line>)
    ensures
        lines.deep_view() == spec_print_vec(vec.deep_view()),
        lines.len() == if vec.len() == 0 { 1nat } else { 2nat },
{
    match partition(vec) {
        Ok(translation) => render(translation),
        Err(_) => not_found(),
    }
}

/// Lays out the lines for a lookup's outcome: the translation where there is
/// one, the not-found line for every failure.
pub fn report(outcome: Result<Vec<String>, TranslError>) -> (lines: Vec<Line>)
    ensures
        lines.deep_view() == spec_report(candidates_view(outcome)),
{
    match outcome {
        Ok(candidates) => print_vec(candidates),
        Err(_) => not_found(),
    }
}

} // verus!
