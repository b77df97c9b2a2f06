//! The board model: cards, their teams, and how a deal assigns teams by seat.

use crate::component::{rows_view, ActionRow, Button, ButtonStyle, ButtonView};
use crate::word_bank::{is_sample, sample_word_bank, texts};
use itertools::Itertools;
use vstd::prelude::*;

verus! {

/// Number of cards on a full board.
pub const BOARD_SIZE: usize = 25;

/// Number of buttons in a full row of the grid.
pub const ROW_SIZE: usize = 5;

/// The team, or fate, that a card secretly belongs to.
#[derive(Clone, Copy, Debug, PartialEq, Eq, Structural)]
pub enum CardType {
    Red,
    Blue,
    Neutral,
    Assassin,
}

/// The team of the card dealt to seat `position` of a board: the first eight
/// seats are red, the next nine blue, the next seven neutral, and the last
/// one hides the assassin.
pub open spec fn card_type_at(position: int) -> CardType
    recommends
        0 <= position < BOARD_SIZE,
{
    if position <= 7 {
        CardType::Red
    } else if position <= 16 {
        CardType::Blue
    } else if position <= 23 {
        CardType::Neutral
    } else {
        CardType::Assassin
    }
}

impl CardType {
    /// The team of the card dealt to seat `position`.
    pub fn for_position(position: usize) -> (card_type: CardType)
        requires
            position < BOARD_SIZE,
        ensures
            card_type == card_type_at(position as int),
    {
        if position <= 7 {
            CardType::Red
        } else if position <= 16 {
            CardType::Blue
        } else if position <= 23 {
            CardType::Neutral
        } else {
            CardType::Assassin
        }
    }
}

/// One card of a board.
#[derive(Debug)]
pub struct Card {
    pub text: String,
    pub is_touched: bool,
    pub card_type: CardType,
}

/// What a [`Card`] holds, as mathematical values.
pub struct CardView {
    pub text: Seq<char>,
    pub is_touched: bool,
    pub card_type: CardType,
}

impl View for Card {
    type V = CardView;

    open spec fn view(&self) -> CardView {
        CardView { text: self.text@, is_touched: self.is_touched, card_type: self.card_type }
    }
}

/// The mark that tells a spymaster which team a card belongs to.
pub open spec fn emoji_of(card_type: CardType) -> Seq<char> {
    match card_type {
        CardType::Red => "\u{1F534}"@,
        CardType::Blue => "\u{1F535}"@,
        CardType::Neutral => "\u{1F7E4}"@,
        CardType::Assassin => "\u{2620}\u{FE0F}"@,
    }
}

/// The button of a card before any look is chosen: the card's word is both
/// what the button shows and what it reports when pressed.
pub open spec fn plain_button(card: CardView) -> ButtonView {
    ButtonView {
        label: card.text,
        custom_id: card.text,
        style: None,
        emoji: None,
        disabled: false,
    }
}

/// The button that players see: grey, pressable, and silent about the team.
pub open spec fn untouched_button(card: CardView) -> ButtonView {
    ButtonView { style: Some(ButtonStyle::Secondary), ..plain_button(card) }
}

/// The button that spymasters see: grey, marked with the team, and disabled.
pub open spec fn touched_button(card: CardView) -> ButtonView {
    ButtonView {
        style: Some(ButtonStyle::Secondary),
        emoji: Some(emoji_of(card.card_type)),
        disabled: true,
        ..plain_button(card)
    }
}

impl Card {
    /// The card's button before any look is chosen.
    pub fn build_button(&self) -> (button: Button)
        ensures
            button@ == plain_button(self@),
    {
        Button {
            label: self.text.clone(),
            custom_id: self.text.clone(),
            style: None,
            emoji: None,
            disabled: false,
        }
    }

    /// The card as the players see it.
    pub fn build_untouched_button(&self) -> (button: Button)
        ensures
            button@ == untouched_button(self@),
    {
        let mut my_button = self.build_button();
        my_button.style = Some(ButtonStyle::Secondary);
        my_button
    }

    /// The card as the spymasters see it.
    pub fn build_touched_button(&self) -> (button: Button)
        ensures
            button@ == touched_button(self@),
    {
        let mut my_button = self.build_button();
        my_button.style = Some(ButtonStyle::Secondary);

        let emoji = match self.card_type {
            CardType::Red => "\u{1F534}".to_string(),
            CardType::Blue => "\u{1F535}".to_string(),
            CardType::Neutral => "\u{1F7E4}".to_string(),
            CardType::Assassin => "\u{2620}\u{FE0F}".to_string(),
        };

        my_button.emoji = Some(emoji);
        my_button.disabled = true;
        my_button
    }
}

/// A game on record, known by the identifier it was stored under.
#[derive(Debug)]
pub struct Game {
    pub id: i32,
}

/// The cards of one game, in the order of their seats.
#[derive(Debug)]
pub struct Board {
    pub cards: Vec<Card>,
}

impl View for Board {
    type V = Seq<CardView>;

    open spec fn view(&self) -> Seq<CardView> {
        Seq::new(self.cards@.len(), |i: int| self.cards@[i]@)
    }
}

/// The six cards of the board that stands in until a game is created.
pub open spec fn starter_cards() -> Seq<CardView> {
    seq![
        CardView { text: "streak"@, is_touched: false, card_type: CardType::Neutral },
        CardView { text: "word"@, is_touched: false, card_type: CardType::Blue },
        CardView { text: "chicken"@, is_touched: false, card_type: CardType::Red },
        CardView { text: "nuggies"@, is_touched: false, card_type: CardType::Blue },
        CardView { text: "beef"@, is_touched: false, card_type: CardType::Red },
        CardView { text: "cow"@, is_touched: false, card_type: CardType::Assassin },
    ]
}

/// How many chunks a sequence of `len` items falls into when cut every
/// `size` items: all are full but possibly the last.
pub open spec fn chunk_count(len: nat, size: nat) -> nat {
    if size == 0 {
        0
    } else {
        ((len + size - 1) / (size as int)) as nat
    }
}

/// How many items chunk `i` holds.
pub open spec fn chunk_len(len: nat, size: nat, i: int) -> nat {
    if (i + 1) * size <= len {
        size
    } else {
        (len - i * size) as nat
    }
}

/// Place `j` of chunk `i` is a place of the sequence that was cut into rows.
proof fn lemma_chunk_within(len: nat, i: int, j: int)
    requires
        0 <= i < chunk_count(len, 5),
        0 <= j < chunk_len(len, 5, i),
    ensures
        0 <= i * 5 + j < len,
{
}

/// The button that shows `card`: to the spymasters where `seen`, to the
/// players otherwise.
pub open spec fn button_of(card: CardView, seen: bool) -> ButtonView {
    if seen {
        touched_button(card)
    } else {
        untouched_button(card)
    }
}

/// The cards' buttons in seat order, five to a row; only the last row may be
/// shorter.
pub open spec fn grid(cards: Seq<CardView>, seen: bool) -> Seq<Seq<ButtonView>> {
    Seq::new(
        chunk_count(cards.len(), ROW_SIZE as nat),
        |i: int|
            Seq::new(
                chunk_len(cards.len(), ROW_SIZE as nat, i),
                |j: int| button_of(cards[i * ROW_SIZE + j], seen),
            ),
    )
}

/// The grid that players see: no button tells its card's team.
pub open spec fn player_grid(cards: Seq<CardView>) -> Seq<Seq<ButtonView>> {
    grid(cards, false)
}

/// The grid that spymasters see: every button is marked with its card's team
/// and disabled.
pub open spec fn spymaster_grid(cards: Seq<CardView>) -> Seq<Seq<ButtonView>> {
    grid(cards, true)
}

/// The board that a deal of `words` gives: one untouched card per word, in
/// order, each with the team of its seat.
pub open spec fn dealt(words: Seq<Seq<char>>) -> Seq<CardView> {
    Seq::new(
        words.len(),
        |i: int| CardView { text: words[i], is_touched: false, card_type: card_type_at(i) },
    )
}

/// Cuts `cards` into consecutive chunks with `Itertools::chunks` and collects
/// each chunk. Trusted: the chunks come in order, each holds `size` cards but
/// the last, which holds what is left, and chunk `i` starts at card
/// `i * size`. `size` is not zero, for which `chunks` panics.
#[verifier::external_body]
fn chunks<'a>(cards: &'a Vec<Card>, size: usize) -> (rows: Vec<Vec<&'a Card>>)
    requires
        size > 0,
    ensures
        rows@.len() == chunk_count(cards@.len(), size as nat),
        forall|i: int|
            0 <= i < rows@.len() ==> (#[trigger] rows@[i])@.len() == chunk_len(
                cards@.len(),
                size as nat,
                i,
            ),
        forall|i: int, j: int|
            0 <= i < rows@.len() && 0 <= j < rows@[i]@.len() ==> *(#[trigger] rows@[i]@[j])
                == cards@[i * size + j],
{
    let chunks = cards.iter().chunks(size);
    chunks.into_iter().map(|chunk| chunk.collect_vec()).collect_vec()
}

impl Board {
    /// The board that stands in until a game is created.
    pub fn create_list() -> (board: Board)
        ensures
            board@ == starter_cards(),
    {
        let list: Vec<Card> = vec![
            Card {
                text: "streak".to_string(),
                is_touched: false,
                card_type: CardType::Neutral,
            },
            Card { text: "word".to_string(), is_touched: false, card_type: CardType::Blue },
            Card { text: "chicken".to_string(), is_touched: false, card_type: CardType::Red },
            Card { text: "nuggies".to_string(), is_touched: false, card_type: CardType::Blue },
            Card { text: "beef".to_string(), is_touched: false, card_type: CardType::Red },
            Card { text: "cow".to_string(), is_touched: false, card_type: CardType::Assassin },
        ];

        let board = Board { cards: list };
        assert(board@ =~= starter_cards());
        board
    }

    /// Deals `words` onto a board: one untouched card per word, in order,
    /// each with the team of its seat.
    pub fn deal(words: &Vec<String>) -> (board: Board)
        requires
            words@.len() <= BOARD_SIZE,
        ensures
            board@ == dealt(texts(words@)),
    {
        let mut cards: Vec<Card> = Vec::new();
        let mut position: usize = 0;
        while position < words.len()
            invariant
                position <= words@.len() <= BOARD_SIZE,
                cards@.len() == position,
                forall|i: int|
                    0 <= i < position ==> (#[trigger] cards@[i])@ == dealt(texts(words@))[i],
            decreases words@.len() - position,
        {
            cards.push(
                Card {
                    text: words[position].clone(),
                    is_touched: false,
                    card_type: CardType::for_position(position),
                },
            );
            position += 1;
        }
        let board = Board { cards };
        assert(board@ =~= dealt(texts(words@)));
        board
    }

    /// The rows of buttons that show the board to the players.
    pub fn build(&self) -> (action_rows: Vec<ActionRow>)
        ensures
            rows_view(action_rows@) == player_grid(self@),
    {
        self.build_rows(false)
    }

    /// The rows of buttons that show the board to the spymasters.
    pub fn build_seen(&self) -> (action_rows: Vec<ActionRow>)
        ensures
            rows_view(action_rows@) == spymaster_grid(self@),
    {
        self.build_rows(true)
    }

    fn build_rows(&self, seen: bool) -> (action_rows: Vec<ActionRow>)
        ensures
            rows_view(action_rows@) == grid(self@, seen),
    {
        let mut action_rows: Vec<ActionRow> = vec![];
        let word_chunks = chunks(&self.cards, ROW_SIZE);
        let mut row: usize = 0;
        while row < word_chunks.len()
            invariant
                row <= word_chunks@.len(),
                word_chunks@.len() == chunk_count(self.cards@.len(), ROW_SIZE as nat),
                forall|i: int|
                    0 <= i < word_chunks@.len() ==> (#[trigger] word_chunks@[i])@.len()
                        == chunk_len(self.cards@.len(), ROW_SIZE as nat, i),
                forall|i: int, j: int|
                    0 <= i < word_chunks@.len() && 0 <= j < word_chunks@[i]@.len() ==> *(
                    #[trigger] word_chunks@[i]@[j]) == self.cards@[i * ROW_SIZE + j],
                action_rows@.len() == row,
                forall|i: int|
                    0 <= i < row ==> (#[trigger] action_rows@[i])@ == grid(self@, seen)[i],
            decreases word_chunks@.len() - row,
        {
            let chunk = &word_chunks[row];
            let mut new_action_row = ActionRow { buttons: vec![] };
            let mut seat: usize = 0;
            while seat < chunk.len()
                invariant
                    seat <= chunk@.len(),
                    row < word_chunks@.len(),
                    chunk == word_chunks@[row as int],
                    chunk@.len() == chunk_len(self.cards@.len(), ROW_SIZE as nat, row as int),
                    row < chunk_count(self.cards@.len(), ROW_SIZE as nat),
                    forall|j: int|
                        0 <= j < chunk@.len() ==> *(#[trigger] chunk@[j]) == self.cards@[row
                            * ROW_SIZE + j],
                    new_action_row.buttons@.len() == seat,
                    forall|j: int|
                        0 <= j < seat ==> (#[trigger] new_action_row.buttons@[j])@ == button_of(
                            self@[row * ROW_SIZE + j],
                            seen,
                        ),
                decreases chunk@.len() - seat,
            {
                proof {
                    lemma_chunk_within(self.cards@.len(), row as int, seat as int);
                }
                let word = chunk[seat];
                let button = if seen {
                    word.build_touched_button()
                } else {
                    word.build_untouched_button()
                };
                new_action_row.buttons.push(button);
                seat += 1;
            }
            assert(new_action_row@ =~= grid(self@, seen)[row as int]);
            action_rows.push(new_action_row);
            row += 1;
        }
        assert(rows_view(action_rows@) =~= grid(self@, seen));
        action_rows
    }
}

/// Draws the words of a new game from `word_bank` and deals them: a full
/// board where the bank holds enough words, else one card for each word of
/// the bank.
pub fn create_game(word_bank: &Vec<String>) -> (board: Board)
    ensures
        exists|words: Seq<Seq<char>>|
            is_sample(words, texts(word_bank@), BOARD_SIZE as nat) && board@ == dealt(words),
{
    let select_words = sample_word_bank(word_bank, BOARD_SIZE);
    Board::deal(&select_words)
}

} // verus!
