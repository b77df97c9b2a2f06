use codenames::command::{
    disclose, interaction_create, CodenameCommand, CommandInteraction, OptionValue, Reaction,
};
use codenames::game::Board;

fn invocation(name: &str, guild_id: Option<u64>, choice: OptionValue) -> CommandInteraction {
    CommandInteraction { name: name.to_string(), guild_id, options: vec![Some(choice)] }
}

fn text(choice: &str) -> OptionValue {
    OptionValue::Text(choice.to_string())
}

fn content_for(choice: OptionValue) -> String {
    let data = invocation("codename", Some(1), choice.clone());
    CodenameCommand { data, option: choice }.content()
}

#[test]
fn content_tells_what_each_choice_does() {
    assert_eq!(
        content_for(text("show")),
        "Here's the secret board. Don't speak to anyone about it!"
    );
    assert_eq!(content_for(text("create")), "New Game Created!");
    assert_eq!(content_for(text("shuffle")), "Command not implemented");
    assert_eq!(content_for(text("")), "Command not implemented");
    assert_eq!(content_for(text("Show")), "Command not implemented");
    assert_eq!(content_for(OptionValue::Other), "Invalid Option sent to the command");
}

#[test]
fn codename_command_is_taken_with_its_first_option() {
    let mut value = invocation("codename", Some(9), text("show"));
    value.options.push(Some(OptionValue::Other));
    let command = CodenameCommand::try_from(value).unwrap();
    assert!(matches!(&command.option, OptionValue::Text(choice) if choice == "show"));
    assert_eq!(command.data.name, "codename");
    assert_eq!(command.data.guild_id, Some(9));
    assert_eq!(command.data.options.len(), 2);
}

#[test]
fn other_commands_are_refused() {
    assert!(CodenameCommand::try_from(invocation("ping", Some(9), text("show"))).is_err());
    assert!(CodenameCommand::try_from(invocation("Codename", None, text("show"))).is_err());
    let bare = CommandInteraction { name: "ping".to_string(), guild_id: None, options: vec![] };
    assert!(CodenameCommand::try_from(bare).is_err());
}

#[test]
fn what_is_no_command_is_ignored() {
    assert!(matches!(interaction_create(None), Reaction::Ignore));
}

#[test]
fn option_that_is_no_text_is_ignored() {
    let value = invocation("codename", Some(5), OptionValue::Other);
    assert!(matches!(interaction_create(Some(&value)), Reaction::Ignore));
}

#[test]
fn show_asks_for_the_board_of_the_guild() {
    let value = invocation("codename", Some(741467935939231822), text("show"));
    match interaction_create(Some(&value)) {
        Reaction::Show { guild_id } => assert_eq!(guild_id, 741467935939231822),
        other => panic!("unexpected reaction: {:?}", other),
    }
}

#[test]
fn create_starts_a_game_and_says_so() {
    let value = invocation("codename", Some(12), text("create"));
    match interaction_create(Some(&value)) {
        Reaction::Create { origin, response } => {
            assert_eq!(origin, Some(12));
            assert_eq!(response.content, Some("Game created".to_string()));
            assert!(response.components.is_empty());
            assert!(!response.ephemeral);
        }
        other => panic!("unexpected reaction: {:?}", other),
    }
}

#[test]
fn create_outside_a_guild_still_answers() {
    let value = invocation("codename", None, text("create"));
    match interaction_create(Some(&value)) {
        Reaction::Create { origin, response } => {
            assert_eq!(origin, None);
            assert_eq!(response.content, Some("Game created".to_string()));
        }
        other => panic!("unexpected reaction: {:?}", other),
    }
}

#[test]
fn unknown_choice_is_turned_down() {
    let value = invocation("codename", None, text("reset"));
    match interaction_create(Some(&value)) {
        Reaction::Reply { response } => {
            assert_eq!(response.content, Some("Failed to recognize command".to_string()));
            assert!(response.components.is_empty());
            assert!(!response.ephemeral);
        }
        other => panic!("unexpected reaction: {:?}", other),
    }
}

#[test]
fn only_the_first_option_decides() {
    let mut value = invocation("codename", Some(3), text("create"));
    value.options.push(Some(text("show")));
    assert!(matches!(interaction_create(Some(&value)), Reaction::Create { .. }));
}

#[test]
fn disclosed_board_is_marked_and_private() {
    let response = disclose(&Board::create_list());
    assert_eq!(response.content, None);
    assert!(response.ephemeral);
    assert_eq!(response.components.len(), 2);
    assert_eq!(response.components[0].buttons[0].label, "streak");
    assert_eq!(response.components[0].buttons[0].emoji, Some("\u{1F7E4}".to_string()));
    assert_eq!(response.components[1].buttons[0].emoji, Some("\u{2620}\u{FE0F}".to_string()));
    assert!(response.components.iter().all(|row| row.buttons.iter().all(|b| b.disabled)));
}
