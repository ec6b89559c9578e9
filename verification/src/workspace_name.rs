//! Names for new workspaces: two random words of the BIP-39 English list.

use vstd::prelude::*;

verus! {

/// The number of words in the list.
pub const WORD_COUNT: usize = 2048;

/// The word at `index` of the English word list of BIP-39.
pub uninterp spec fn english_word(index: int) -> Seq<char>;

/// Calls `Language::word_list` of `bip39` for English and takes the word at
/// `index`. The list is a constant of 2048 words, so the word is a function
/// of the index alone; the contract names it.
#[verifier::external_body]
fn word_at(index: usize) -> (word: String)
    requires
        index < WORD_COUNT,
    ensures
        word@ == english_word(index as int),
{
    bip39::Language::English.word_list()[index].to_owned()
}

/// Calls `Rng::gen_range` of `rand` on the random source of the operating
/// system, for the range from 0 up to `bound`: some index below the bound.
#[verifier::external_body]
fn random_index(bound: usize) -> (index: usize)
    requires
        bound > 0,
    ensures
        index < bound,
{
    rand::Rng::gen_range(&mut rand::rngs::OsRng, 0..bound)
}

/// The name made of the words at `first` and `second`: the two words with
/// a hyphen between them.
pub open spec fn name_of_words(first: int, second: int) -> Seq<char> {
    english_word(first) + "-"@ + english_word(second)
}

/// The workspace name for two indices into the word list.
pub fn workspace_name_of(first: usize, second: usize) -> (name: String)
    requires
        first < WORD_COUNT,
        second < WORD_COUNT,
    ensures
        name@ == name_of_words(first as int, second as int),
{
    let mut name = word_at(first);
    name.append("-");
    name.append(word_at(second).as_str());
    name
}

/// A workspace name of two words picked at random.
pub fn generate_workspace_name() -> (name: String)
    ensures
        exists|first: int, second: int|
            0 <= first < WORD_COUNT && 0 <= second < WORD_COUNT && name@ == name_of_words(
                first,
                second,
            ),
{
    let first = random_index(WORD_COUNT);
    let second = random_index(WORD_COUNT);
    let name = workspace_name_of(first, second);
    assert(name@ == name_of_words(first as int, second as int));
    name
}

} // verus!
