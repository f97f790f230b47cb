//! Turning matched elements into candidate strings.

use crate::select::NodeRef;
use vstd::prelude::*;

verus! {

/// The candidate strings of a run of matched elements: one per element, in
/// the same order, each the element's text nodes joined end to end.
pub open spec fn spec_extract(nodes: Seq<Seq<Seq<char>>>) -> Seq<Seq<char>> {
    Seq::new(nodes.len(), |i: int| nodes[i].flatten())
}

/// The text of one matched element: its text nodes joined end to end, with
/// nothing put between them. An element without text gives the empty string.
pub fn inner_text(node: &NodeRef) -> (text: String)
    ensures
        text@ == node@.flatten(),
{
    let mut text = String::new();
    let mut i: usize = 0;
    while i < node.texts.len()
        invariant
            i <= node.texts.len(),
            node@.len() == node.texts.len(),
            text@ == node@.take(i as int).flatten(),
        decreases node.texts.len() - i,
    {
        text.append(node.texts[i].as_str());
        proof {
            let done = node@.take(i as int);
            assert(node@.take(i + 1) =~= done.push(node@[i as int]));
            done.lemma_flatten_push(node@[i as int]);
        }
        i += 1;
    }
    assert(node@.take(i as int) =~= node@);
    text
}

/// Maps each matched element to its text, keeping the order. Nothing is
/// skipped: the result has one string per element, empty where the element
/// holds no text.
pub fn extract(nodes: &Vec<NodeRef>) -> (candidates: Vec<String>)
    ensures
        candidates.deep_view() == spec_extract(nodes.deep_view()),
        candidates.len() == nodes.len(),
{
    let mut candidates: Vec<String> = Vec::new();
    let mut i: usize = 0;
    while i < nodes.len()
        invariant
            i <= nodes.len(),
            candidates.len() == i,
            forall|k: int| 0 <= k < i ==> candidates[k]@ == #[trigger] nodes[k]@.flatten(),
        decreases nodes.len() - i,
    {
        let text = inner_text(&nodes[i]);
        candidates.push(text);
        i += 1;
    }
    assert forall|k: int| 0 <= k < nodes.len() implies candidates.deep_view()[k] == spec_extract(
        nodes.deep_view(),
    )[k] by {
        assert(candidates[k]@ == nodes[k]@.flatten());
    }
    candidates
}

} // verus!
