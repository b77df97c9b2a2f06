use codenames::word_bank::{read_word_bank, sample_word_bank, Word, WordBankError};

fn bank(n: usize) -> Vec<String> {
    (0..n).map(|i| format!("w{}", i)).collect()
}

#[test]
fn reads_a_json_array_of_strings() {
    let got = read_word_bank("[\"apple\", \"river\",\"cloud\"]");
    assert_eq!(got, Ok(vec!["apple".to_string(), "river".to_string(), "cloud".to_string()]));
}

#[test]
fn reads_an_empty_bank() {
    assert_eq!(read_word_bank(" [ ] "), Ok(Vec::<String>::new()));
}

#[test]
fn reads_escapes_as_json_does() {
    let got = read_word_bank("[\"caf\\u00e9\", \"a\\\"b\"]");
    assert_eq!(got, Ok(vec!["caf\u{e9}".to_string(), "a\"b".to_string()]));
}

#[test]
fn refuses_text_that_is_no_json() {
    assert_eq!(read_word_bank("apple, river"), Err(WordBankError::Malformed));
    assert_eq!(read_word_bank(""), Err(WordBankError::Malformed));
    assert_eq!(read_word_bank("[\"apple\""), Err(WordBankError::Malformed));
}

#[test]
fn refuses_json_that_is_no_list_of_strings() {
    assert_eq!(read_word_bank("[1, 2, 3]"), Err(WordBankError::Malformed));
    assert_eq!(read_word_bank("{\"text\": \"apple\"}"), Err(WordBankError::Malformed));
    assert_eq!(read_word_bank("\"apple\""), Err(WordBankError::Malformed));
}

#[test]
fn sample_holds_as_many_distinct_words_as_asked() {
    let bank = bank(30);
    let mut picked = sample_word_bank(&bank, 25);
    assert_eq!(picked.len(), 25);
    assert!(picked.iter().all(|word| bank.contains(word)));
    picked.sort();
    picked.dedup();
    assert_eq!(picked.len(), 25);
}

#[test]
fn sample_of_more_than_the_bank_is_the_whole_bank() {
    let bank = bank(4);
    let mut picked = sample_word_bank(&bank, 25);
    picked.sort();
    assert_eq!(picked, bank);
}

#[test]
fn sample_of_nothing_is_empty() {
    assert!(sample_word_bank(&bank(4), 0).is_empty());
    assert!(sample_word_bank(&bank(0), 3).is_empty());
}

#[test]
fn sample_takes_equal_words_from_seats_of_their_own() {
    let bank = vec!["same".to_string(), "same".to_string(), "other".to_string()];
    let mut picked = sample_word_bank(&bank, 3);
    picked.sort();
    assert_eq!(picked, vec!["other".to_string(), "same".to_string(), "same".to_string()]);
}

#[test]
fn word_holds_its_text() {
    let word = Word { text: "apple".to_string() };
    assert_eq!(word.text, "apple");
}
