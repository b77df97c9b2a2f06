//! What holds of every deal and of every grid.

use crate::game::{
    button_of, card_type_at, chunk_count, dealt, emoji_of, grid, player_grid, spymaster_grid,
    CardType, CardView, BOARD_SIZE, ROW_SIZE,
};
use crate::word_bank::{drawn_at, is_sample};
use vstd::prelude::*;

verus! {

/// How many of `cards` belong to `card_type`.
pub open spec fn count_of(cards: Seq<CardView>, card_type: CardType) -> nat
    decreases cards.len(),
{
    if cards.len() == 0 {
        0
    } else {
        count_of(cards.drop_last(), card_type) + if cards.last().card_type == card_type {
            1nat
        } else {
            0nat
        }
    }
}

/// How many cards of a full board belong to `card_type`.
pub open spec fn quota(card_type: CardType) -> nat {
    match card_type {
        CardType::Red => 8,
        CardType::Blue => 9,
        CardType::Neutral => 7,
        CardType::Assassin => 1,
    }
}

/// Every card carries the team of its seat.
pub open spec fn seated(cards: Seq<CardView>) -> bool {
    forall|i: int| 0 <= i < cards.len() ==> (#[trigger] cards[i]).card_type == card_type_at(i)
}

/// How many of the first `len` seats belong to `card_type`.
pub open spec fn seats_before(len: nat, card_type: CardType) -> nat {
    let first: nat = match card_type {
        CardType::Red => 0,
        CardType::Blue => 8,
        CardType::Neutral => 17,
        CardType::Assassin => 24,
    };
    if len <= first {
        0
    } else if len - first <= quota(card_type) {
        (len - first) as nat
    } else {
        quota(card_type)
    }
}

/// On a board of at most twenty-five cards that carry the teams of their
/// seats, each team has as many cards as it has seats among those taken.
pub proof fn lemma_seated_counts(cards: Seq<CardView>, card_type: CardType)
    requires
        cards.len() <= BOARD_SIZE,
        seated(cards),
    ensures
        count_of(cards, card_type) == seats_before(cards.len(), card_type),
    decreases cards.len(),
{
    if cards.len() > 0 {
        let rest = cards.drop_last();
        assert(seated(rest)) by {
            assert forall|i: int| 0 <= i < rest.len() implies (#[trigger] rest[i]).card_type
                == card_type_at(i) by {
                assert(rest[i] == cards[i]);
            }
        }
        lemma_seated_counts(rest, card_type);
        assert(cards.last() == cards[cards.len() - 1]);
    }
}

/// A deal leaves every card untouched and gives it the team of its seat.
pub proof fn lemma_dealt_is_seated(words: Seq<Seq<char>>)
    ensures
        dealt(words).len() == words.len(),
        seated(dealt(words)),
        forall|i: int| 0 <= i < words.len() ==> !(#[trigger] dealt(words)[i]).is_touched,
        forall|i: int| 0 <= i < words.len() ==> (#[trigger] dealt(words)[i]).text == words[i],
{
}

/// A deal of twenty-five words is partitioned into eight red cards, nine
/// blue, seven neutral and one assassin.
pub proof fn lemma_full_deal_partition(words: Seq<Seq<char>>)
    requires
        words.len() == BOARD_SIZE,
    ensures
        count_of(dealt(words), CardType::Red) == 8,
        count_of(dealt(words), CardType::Blue) == 9,
        count_of(dealt(words), CardType::Neutral) == 7,
        count_of(dealt(words), CardType::Assassin) == 1,
        forall|card_type: CardType| count_of(dealt(words), card_type) == quota(card_type),
{
    lemma_dealt_is_seated(words);
    lemma_seated_counts(dealt(words), CardType::Red);
    lemma_seated_counts(dealt(words), CardType::Blue);
    lemma_seated_counts(dealt(words), CardType::Neutral);
    lemma_seated_counts(dealt(words), CardType::Assassin);
}

/// A draw holds no more words than were asked for, nor more than the bank
/// holds, and each of its words is a word of the bank.
pub proof fn lemma_sample_comes_from_bank(
    picked: Seq<Seq<char>>,
    bank: Seq<Seq<char>>,
    amount: nat,
)
    requires
        is_sample(picked, bank, amount),
    ensures
        picked.len() <= amount,
        picked.len() <= bank.len(),
        forall|i: int| 0 <= i < picked.len() ==> bank.contains(#[trigger] picked[i]),
{
    let seats = choose|seats: Seq<int>| drawn_at(picked, bank, seats);
    assert forall|i: int| 0 <= i < picked.len() implies bank.contains(#[trigger] picked[i]) by {
        assert(bank[seats[i]] == picked[i]);
    }
}

/// From a bank that holds no word twice, no word is drawn twice.
pub proof fn lemma_sample_of_distinct_words_is_distinct(
    picked: Seq<Seq<char>>,
    bank: Seq<Seq<char>>,
    amount: nat,
)
    requires
        is_sample(picked, bank, amount),
        bank.no_duplicates(),
    ensures
        picked.no_duplicates(),
{
    let seats = choose|seats: Seq<int>| drawn_at(picked, bank, seats);
    assert forall|i: int, j: int|
        0 <= i < picked.len() && 0 <= j < picked.len() && i != j implies picked[i]
        != picked[j] by {
        assert(picked[i] == bank[seats[i]]);
        assert(picked[j] == bank[seats[j]]);
        assert(seats[i] != seats[j]);
    }
}

/// A game drawn from a bank of at least twenty-five words has a full board:
/// eight red cards, nine blue, seven neutral and one assassin.
pub proof fn lemma_large_bank_gives_full_board(words: Seq<Seq<char>>, bank: Seq<Seq<char>>)
    requires
        is_sample(words, bank, BOARD_SIZE as nat),
        bank.len() >= BOARD_SIZE,
    ensures
        dealt(words).len() == BOARD_SIZE,
        forall|card_type: CardType| count_of(dealt(words), card_type) == quota(card_type),
{
    lemma_full_deal_partition(words);
}

/// The four marks differ, so a spymaster's button tells its card's team.
pub proof fn lemma_emoji_tells_team(a: CardType, b: CardType)
    requires
        emoji_of(a) == emoji_of(b),
    ensures
        a == b,
{
    reveal_strlit("\u{1F534}");
    reveal_strlit("\u{1F535}");
    reveal_strlit("\u{1F7E4}");
    reveal_strlit("\u{2620}\u{FE0F}");
    assert("\u{1F534}"@[0] == '\u{1F534}');
    assert("\u{1F535}"@[0] == '\u{1F535}');
    assert("\u{1F7E4}"@[0] == '\u{1F7E4}');
    assert("\u{2620}\u{FE0F}"@[0] == '\u{2620}');
}

/// A grid holds one button for each card, in seat order: card `seat` stands
/// in row `seat / 5` at place `seat % 5`. No row is empty or holds more than
/// five buttons, and every row but the last is full.
pub proof fn lemma_grid_holds_every_card(cards: Seq<CardView>, seen: bool)
    ensures
        grid(cards, seen).len() == chunk_count(cards.len(), ROW_SIZE as nat),
        grid(cards, seen).len() * ROW_SIZE >= cards.len() > (grid(cards, seen).len() - 1)
            * ROW_SIZE,
        forall|row: int|
            0 <= row < grid(cards, seen).len() ==> 1 <= (#[trigger] grid(cards, seen)[row]).len()
                <= ROW_SIZE,
        forall|row: int|
            0 <= row < grid(cards, seen).len() - 1 ==> (#[trigger] grid(cards, seen)[row]).len()
                == ROW_SIZE,
        forall|seat: int|
            0 <= seat < cards.len() ==> {
                &&& seat / 5 < grid(cards, seen).len()
                &&& seat % 5 < grid(cards, seen)[seat / 5].len()
                &&& grid(cards, seen)[seat / 5][seat % 5] == button_of(#[trigger] cards[seat], seen)
            },
{
}

/// The players' grid depends on the words alone: two boards with the same
/// words in the same seats look the same, whatever teams their cards have and
/// whether or not they were touched.
pub proof fn lemma_player_grid_hides_teams(a: Seq<CardView>, b: Seq<CardView>)
    requires
        a.len() == b.len(),
        forall|i: int| 0 <= i < a.len() ==> a[i].text == b[i].text,
    ensures
        player_grid(a) == player_grid(b),
{
    assert forall|row: int| 0 <= row < player_grid(a).len() implies player_grid(a)[row]
        =~= player_grid(b)[row] by {
        assert forall|j: int| 0 <= j < player_grid(a)[row].len() implies player_grid(a)[row][j]
            == player_grid(b)[row][j] by {
            assert(a[row * ROW_SIZE + j].text == b[row * ROW_SIZE + j].text);
        }
    }
    assert(player_grid(a) =~= player_grid(b));
}

/// In the spymasters' grid every button is disabled and bears the mark of
/// its card's team.
pub proof fn lemma_spymaster_grid_reveals_teams(cards: Seq<CardView>, seat: int)
    requires
        0 <= seat < cards.len(),
    ensures
        seat / 5 < spymaster_grid(cards).len(),
        seat % 5 < spymaster_grid(cards)[seat / 5].len(),
        spymaster_grid(cards)[seat / 5][seat % 5].emoji == Some(emoji_of(cards[seat].card_type)),
        spymaster_grid(cards)[seat / 5][seat % 5].disabled,
{
    lemma_grid_holds_every_card(cards, true);
}

} // verus!
