//! Splitting the candidates into the primary translation and its alternates.

use crate::error::{TranslError, TranslErrorView};
use vecshard::{ShardExt, VecShard};
use vstd::prelude::*;

verus! {

/// A word's translation: the candidate the page lists first, and the
/// candidates after it in the page's order.
#[derive(Debug, PartialEq, Eq)]
pub struct Translation {
    pub primary: String,
    pub alternates: Vec<String>,
}

/// Mathematical model of a [`Translation`].
pub struct TranslationView {
    pub primary: Seq<char>,
    pub alternates: Seq<Seq<char>>,
}

impl View for Translation {
    type V = TranslationView;

    open spec fn view(&self) -> TranslationView {
        TranslationView { primary: self.primary@, alternates: self.alternates.deep_view() }
    }
}

impl TranslationView {
    /// The candidates that the translation was made from, primary first.
    pub open spec fn candidates(self) -> Seq<Seq<char>> {
        seq![self.primary] + self.alternates
    }
}

/// The split of a run of candidates: none at all is a failure, otherwise the
/// first is the primary translation and the rest are its alternates.
pub open spec fn spec_partition(candidates: Seq<Seq<char>>) -> Result<
    TranslationView,
    TranslErrorView,
> {
    if candidates.len() == 0 {
        Err(TranslErrorView::EmptyError)
    } else {
        Ok(
            TranslationView {
                primary: candidates[0],
                alternates: candidates.subrange(1, candidates.len() as int),
            },
        )
    }
}

/// Mathematical model of a split's outcome.
pub open spec fn partition_view(outcome: Result<Translation, TranslError>) -> Result<
    TranslationView,
    TranslErrorView,
> {
    match outcome {
        Ok(translation) => Ok(translation@),
        Err(error) => Err(error@),
    }
}

/// Splits `items` in two with `vecshard::ShardExt::split_inplace_at` and
/// turns each shard back into a vector with the shard's `Into<Vec<T>>`.
///
/// Trusted: the left part holds the items before index `at`, the right part
/// those from `at` on, both in their old order. The split panics where `at`
/// exceeds the length, which `requires` rules out.
#[verifier::external_body]
fn split_inplace_at(items: Vec<String>, at: usize) -> (parts: (Vec<String>, Vec<String>))
    requires
        at <= items.len(),
    ensures
        parts.0@ == items@.subrange(0, at as int),
        parts.1@ == items@.subrange(at as int, items.len() as int),
{
    let (left, right): (VecShard<String>, VecShard<String>) = items.split_inplace_at(at);
    (left.into(), right.into())
}

/// Splits the candidates into the primary translation, which is the first of
/// them, and the alternates, which are all the others in their order.
///
/// Fails with `TranslError::EmptyError` where there is no candidate, and only
/// there.
pub fn partition(candidates: Vec<String>) -> (outcome: Result<Translation, TranslError>)
    ensures
        partition_view(outcome) == spec_partition(candidates.deep_view()),
        candidates.len() == 0 <==> outcome is Err,
        outcome matches Ok(translation) ==> translation.primary@ == candidates[0]@
            && translation.alternates.deep_view() == candidates.deep_view().subrange(
            1,
            candidates.len() as int,
        ) && translation.alternates.len() == candidates.len() - 1,
{
    if candidates.len() == 0 {
        return Err(TranslError::EmptyError);
    }
    let (mut first, rest) = split_inplace_at(candidates, 1);
    let primary = first.remove(0);
    assert(rest.deep_view() =~= candidates.deep_view().subrange(1, candidates.len() as int));
    Ok(Translation { primary, alternates: rest })
}

/// A split loses nothing and adds nothing: of a run with at least one
/// candidate the primary is the first, the alternates are the rest and are
/// one fewer than the candidates, and the primary followed by the alternates
/// is the run again. An empty run has no split.
pub proof fn lemma_partition_keeps_candidates(candidates: Seq<Seq<char>>)
    ensures
        candidates.len() == 0 ==> spec_partition(candidates) == Err::<
            TranslationView,
            TranslErrorView,
        >(TranslErrorView::EmptyError),
        candidates.len() > 0 ==> spec_partition(candidates) is Ok,
        spec_partition(candidates) matches Ok(translation) ==> {
            &&& translation.primary == candidates[0]
            &&& translation.alternates == candidates.subrange(1, candidates.len() as int)
            &&& translation.alternates.len() == candidates.len() - 1
            &&& translation.candidates() == candidates
        },
{
}

} // verus!
