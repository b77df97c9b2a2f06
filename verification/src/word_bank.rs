//! The word bank: the list of candidate words, read from JSON text, and the
//! drawing of a hand of words from it.

use itertools::Itertools;
use rand::seq::SliceRandom;
use vstd::prelude::*;

verus! {

/// One entry of a word bank.
#[derive(Debug)]
pub struct Word {
    pub text: String,
}

/// Why a text could not be read as a word bank.
#[derive(Clone, Copy, Debug, PartialEq, Eq, Structural)]
pub enum WordBankError {
    /// The text is not a JSON array of strings.
    Malformed,
}

/// The characters of each word of a list.
pub open spec fn texts(words: Seq<String>) -> Seq<Seq<char>> {
    Seq::new(words.len(), |i: int| words[i]@)
}

/// `picked` is drawn from `bank` at the seats `seats`: one seat per picked
/// word, no seat twice.
pub open spec fn drawn_at(picked: Seq<Seq<char>>, bank: Seq<Seq<char>>, seats: Seq<int>) -> bool {
    &&& seats.len() == picked.len()
    &&& seats.no_duplicates()
    &&& forall|i: int|
        0 <= i < seats.len() ==> 0 <= #[trigger] seats[i] < bank.len() && picked[i]
            == bank[seats[i]]
}

/// `picked` is a draw of `amount` words from `bank` without replacement: as
/// many words as were asked for, or the whole bank where it holds fewer, each
/// taken from a seat of its own.
pub open spec fn is_sample(picked: Seq<Seq<char>>, bank: Seq<Seq<char>>, amount: nat) -> bool {
    &&& picked.len() == if amount <= bank.len() {
        amount
    } else {
        bank.len()
    }
    &&& exists|seats: Seq<int>| drawn_at(picked, bank, seats)
}

/// The list of strings that `text` denotes as JSON, or `None` where it is no
/// JSON array of strings.
pub uninterp spec fn json_string_list(text: Seq<char>) -> Option<Seq<Seq<char>>>;

/// `serde_json::Error`, the error of a failed parse. It is carried from the
/// parser to [`WordBankError::from`] and never looked into.
#[verifier::external_type_specification]
#[verifier::external_body]
pub struct ExJsonError(serde_json::Error);

/// Every failure of the parser means the same here: the text is no word bank.
impl From<serde_json::Error> for WordBankError {
    fn from(error: serde_json::Error) -> (mapped: WordBankError) {
        WordBankError::Malformed
    }
}

impl vstd::std_specs::convert::FromSpecImpl<serde_json::Error> for WordBankError {
    open spec fn obeys_from_spec() -> bool {
        true
    }

    open spec fn from_spec(error: serde_json::Error) -> WordBankError {
        WordBankError::Malformed
    }
}

/// Parses `contents` with `serde_json::from_str` as a list of strings.
/// Trusted: the outcome depends on the text alone, and is the list that
/// [`json_string_list`] names, or an error where it names none.
#[verifier::external_body]
fn from_json(contents: &str) -> (parsed: Result<Vec<String>, serde_json::Error>)
    ensures
        match parsed {
            Ok(words) => json_string_list(contents@) == Some(texts(words@)),
            Err(_) => json_string_list(contents@) is None,
        },
{
    serde_json::from_str(contents)
}

/// Draws `amount` words from `word_bank` with `SliceRandom::choose_multiple`
/// on the thread's random generator. Trusted: whatever the generator gives,
/// the words come from distinct seats of the bank, and there are `amount` of
/// them, or as many as the bank holds where that is fewer.
#[verifier::external_body]
fn choose_multiple(word_bank: &Vec<String>, amount: usize) -> (picked: Vec<String>)
    ensures
        is_sample(texts(picked@), texts(word_bank@), amount as nat),
{
    let mut rng = &mut rand::thread_rng();
    word_bank.choose_multiple(&mut rng, amount).cloned().collect_vec()
}

/// Reads the word bank that `contents` holds as a JSON array of strings.
pub fn read_word_bank(contents: &str) -> (bank: Result<Vec<String>, WordBankError>)
    ensures
        match bank {
            Ok(words) => json_string_list(contents@) == Some(texts(words@)),
            Err(error) => json_string_list(contents@) is None && error
                == WordBankError::Malformed,
        },
{
    match from_json(contents) {
        Ok(words) => Ok(words),
        Err(error) => Err(WordBankError::from(error)),
    }
}

/// Draws `n` words from `word_bank` at random, without replacement.
pub fn sample_word_bank(word_bank: &Vec<String>, n: usize) -> (picked: Vec<String>)
    ensures
        is_sample(texts(picked@), texts(word_bank@), n as nat),
{
    choose_multiple(word_bank, n)
}

} // verus!
