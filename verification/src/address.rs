//! From the word to look up to the address of its dictionary page.

use vstd::prelude::*;

verus! {

/// What the user asks for: the word to translate.
#[derive(Debug, PartialEq, Eq)]
pub struct ClapArgs {
    /// The word to be translated, as it was typed.
    pub word: String,
}

impl View for ClapArgs {
    type V = Seq<char>;

    open spec fn view(&self) -> Seq<char> {
        self.word@
    }
}

/// The address under which the dictionary keeps its word pages.
pub const BASE_ADDRESS: &'static str = "https://en.openrussian.org/ru/";

/// The address of the page of `word`: the base address with the word behind
/// it, character for character.
pub open spec fn spec_build_url(word: Seq<char>) -> Seq<char> {
    BASE_ADDRESS@ + word
}

/// Builds the address of the page of the word `string`.
///
/// The word is appended as it is: nothing is checked, escaped or trimmed, and
/// an empty word gives the base address itself.
pub fn build_url(string: &str) -> (url: String)
    ensures
        url@ == spec_build_url(string@),
        BASE_ADDRESS@.is_prefix_of(url@),
        string@.is_suffix_of(url@),
{
    let mut url = String::from_str(BASE_ADDRESS);
    url.append(string);
    proof {
        lemma_address_frames_word(string@);
    }
    url
}

/// Every address begins with the base address and ends with the word it was
/// built for, and holds nothing else.
pub proof fn lemma_address_frames_word(word: Seq<char>)
    ensures
        BASE_ADDRESS@.is_prefix_of(spec_build_url(word)),
        word.is_suffix_of(spec_build_url(word)),
        spec_build_url(word).len() == BASE_ADDRESS@.len() + word.len(),
{
}

} // verus!
