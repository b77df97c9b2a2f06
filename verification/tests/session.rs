use codenames::command::{ready, show, HOME_GUILD};
use codenames::game::Board;
use codenames::session::Sessions;

fn texts(board: &Board) -> Vec<String> {
    board.cards.iter().map(|card| card.text.clone()).collect()
}

#[test]
fn new_table_holds_no_board() {
    let sessions = Sessions::new();
    assert!(sessions.get(HOME_GUILD).is_none());
    assert!(sessions.get(0).is_none());
}

#[test]
fn inserted_board_is_found_under_its_guild_only() {
    let mut sessions = Sessions::new();
    sessions.or_insert(7, Board::deal(&vec!["a".to_string(), "b".to_string()]));
    assert_eq!(texts(sessions.get(7).unwrap()), vec!["a", "b"]);
    assert!(sessions.get(8).is_none());
}

#[test]
fn board_in_play_is_never_replaced() {
    let mut sessions = Sessions::new();
    sessions.or_insert(7, Board::deal(&vec!["first".to_string()]));
    sessions.or_insert(7, Board::deal(&vec!["second".to_string(), "third".to_string()]));
    assert_eq!(texts(sessions.get(7).unwrap()), vec!["first"]);
}

#[test]
fn guilds_keep_boards_of_their_own() {
    let mut sessions = Sessions::new();
    sessions.or_insert(1, Board::deal(&vec!["one".to_string()]));
    sessions.or_insert(2, Board::deal(&vec!["two".to_string()]));
    assert_eq!(texts(sessions.get(1).unwrap()), vec!["one"]);
    assert_eq!(texts(sessions.get(2).unwrap()), vec!["two"]);
}

#[test]
fn ready_gives_the_home_guild_the_starter_board() {
    assert_eq!(HOME_GUILD, 741467935939231822);
    let mut sessions = Sessions::new();
    ready(&mut sessions);
    let board = sessions.get(HOME_GUILD).unwrap();
    assert_eq!(texts(board), vec!["streak", "word", "chicken", "nuggies", "beef", "cow"]);
}

#[test]
fn ready_keeps_a_board_that_the_home_guild_plays() {
    let mut sessions = Sessions::new();
    sessions.or_insert(HOME_GUILD, Board::deal(&vec!["kept".to_string()]));
    ready(&mut sessions);
    ready(&mut sessions);
    assert_eq!(texts(sessions.get(HOME_GUILD).unwrap()), vec!["kept"]);
}

#[test]
fn show_opens_with_the_players_view_of_the_home_board() {
    let mut sessions = Sessions::new();
    ready(&mut sessions);
    let response = show(&sessions);
    assert_eq!(response.content, Some("Let's start a new game".to_string()));
    assert!(!response.ephemeral);
    assert_eq!(response.components.len(), 2);
    assert_eq!(response.components[0].buttons.len(), 5);
    assert_eq!(response.components[1].buttons.len(), 1);
    assert_eq!(response.components[1].buttons[0].label, "cow");
    for row in &response.components {
        for button in &row.buttons {
            assert_eq!(button.emoji, None);
            assert!(!button.disabled);
        }
    }
}
