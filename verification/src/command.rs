//! The rules by which the bot answers: what a slash command asks for, what
//! is answered, and what is done on the way.

use crate::component::{rows_view, ActionRow, ButtonView};
use crate::game::{player_grid, spymaster_grid, starter_cards, Board};
use crate::session::{or_inserted, Sessions};
use vstd::prelude::*;

verus! {

/// The guild whose board stands ready as soon as the bot is connected.
pub const HOME_GUILD: u64 = 741467935939231822;

/// The value that an option of a slash command resolved to.
#[derive(Debug)]
pub enum OptionValue {
    /// A choice given as text.
    Text(String),
    /// A value of any other kind.
    Other,
}

impl View for OptionValue {
    type V = Option<Seq<char>>;

    /// The text chosen, or `None` for a value of another kind.
    open spec fn view(&self) -> Option<Seq<char>> {
        match self {
            OptionValue::Text(selection) => Some(selection@),
            OptionValue::Other => None,
        }
    }
}

impl Clone for OptionValue {
    fn clone(&self) -> (copy: Self)
        ensures
            copy == *self,
    {
        match self {
            OptionValue::Text(selection) => OptionValue::Text(selection.clone()),
            OptionValue::Other => OptionValue::Other,
        }
    }
}

/// An invocation of a slash command: its name, the guild it came from, and
/// for each option the value it resolved to, if it resolved.
#[derive(Debug)]
pub struct CommandInteraction {
    pub name: String,
    pub guild_id: Option<u64>,
    pub options: Vec<Option<OptionValue>>,
}

impl CommandInteraction {
    /// The invocation has a first option, and it resolved.
    pub open spec fn has_option(&self) -> bool {
        self.options@.len() > 0 && self.options@[0] is Some
    }

    /// The value of the first option.
    pub open spec fn option(&self) -> OptionValue
        recommends
            self.has_option(),
    {
        self.options@[0]->0
    }
}

/// An invocation of the `codename` command, with the option it was given.
#[derive(Debug)]
pub struct CodenameCommand {
    pub data: CommandInteraction,
    pub option: OptionValue,
}

/// The line that tells what the choice `option` of the `codename` command
/// does.
pub open spec fn content_of(option: Option<Seq<char>>) -> Seq<char> {
    match option {
        Some(selection) => if selection == "show"@ {
            "Here's the secret board. Don't speak to anyone about it!"@
        } else if selection == "create"@ {
            "New Game Created!"@
        } else {
            "Command not implemented"@
        },
        None => "Invalid Option sent to the command"@,
    }
}

/// Whether `selection` reads `word`.
fn reads(selection: &String, word: &str) -> (same: bool)
    ensures
        same == (selection@ == word@),
{
    *selection == word.to_string()
}

impl CodenameCommand {
    /// The line that tells what the command does.
    pub fn content(&self) -> (text: String)
        ensures
            text@ == content_of(self.option@),
    {
        match &self.option {
            OptionValue::Text(selection) => {
                if reads(selection, "show") {
                    "Here's the secret board. Don't speak to anyone about it!".to_string()
                } else if reads(selection, "create") {
                    "New Game Created!".to_string()
                } else {
                    "Command not implemented".to_string()
                }
            },
            OptionValue::Other => "Invalid Option sent to the command".to_string(),
        }
    }

    /// Takes `value` for an invocation of the `codename` command, with its
    /// first option; any other command is refused. A `codename` command
    /// always comes with its option.
    pub fn try_from(value: CommandInteraction) -> (command: Result<CodenameCommand, ()>)
        requires
            value.name@ == "codename"@ ==> value.has_option(),
        ensures
            match command {
                Ok(command) => value.name@ == "codename"@ && command.data == value
                    && command.option == value.option(),
                Err(_) => value.name@ != "codename"@,
            },
    {
        if reads(&value.name, "codename") {
            match &value.options[0] {
                Some(option) => {
                    let option = option.clone();
                    Ok(CodenameCommand { data: value, option })
                },
                None => unreached(),
            }
        } else {
            Err(())
        }
    }
}

/// A message of the bot: a line of text, rows of buttons, and whether only
/// the one who asked may see it.
#[derive(Debug)]
pub struct Response {
    pub content: Option<String>,
    pub components: Vec<ActionRow>,
    pub ephemeral: bool,
}

/// What a [`Response`] holds, as mathematical values.
pub struct ResponseView {
    pub content: Option<Seq<char>>,
    pub components: Seq<Seq<ButtonView>>,
    pub ephemeral: bool,
}

impl View for Response {
    type V = ResponseView;

    open spec fn view(&self) -> ResponseView {
        ResponseView {
            content: match self.content {
                Some(text) => Some(text@),
                None => None,
            },
            components: rows_view(self.components@),
            ephemeral: self.ephemeral,
        }
    }
}

/// A public message of one line and no buttons.
pub open spec fn line(text: Seq<char>) -> ResponseView {
    ResponseView { content: Some(text), components: Seq::empty(), ephemeral: false }
}

/// What the bot does about an interaction.
#[derive(Debug)]
pub enum Reaction {
    /// Fetch the board that the guild plays and answer with [`disclose`] of it.
    Show { guild_id: u64 },
    /// Answer with `response`, and start a new game for the guild that the
    /// command came from.
    Create { origin: Option<u64>, response: Response },
    /// Answer with `response`.
    Reply { response: Response },
    /// Do nothing.
    Ignore,
}

/// What a [`Reaction`] holds, as mathematical values.
pub enum ReactionView {
    Show { guild_id: u64 },
    Create { origin: Option<u64>, response: ResponseView },
    Reply { response: ResponseView },
    Ignore,
}

impl View for Reaction {
    type V = ReactionView;

    open spec fn view(&self) -> ReactionView {
        match self {
            Reaction::Show { guild_id } => ReactionView::Show { guild_id: *guild_id },
            Reaction::Create { origin, response } => ReactionView::Create {
                origin: *origin,
                response: response@,
            },
            Reaction::Reply { response } => ReactionView::Reply { response: response@ },
            Reaction::Ignore => ReactionView::Ignore,
        }
    }
}

/// An interaction can be answered: where it is a command, its first option
/// resolved, and where that option reads `show`, the command came from a
/// guild.
pub open spec fn answerable(interaction: Option<&CommandInteraction>) -> bool {
    match interaction {
        Some(command) => command.has_option() && (command.option()@ == Some("show"@)
            ==> command.guild_id is Some),
        None => true,
    }
}

/// The reaction that an interaction calls for. What is no command, and a
/// command whose option is no text, gets none. `show` has the guild's board
/// revealed, `create` starts a game, and any other choice is turned down.
pub open spec fn reaction_to(interaction: Option<&CommandInteraction>) -> ReactionView {
    match interaction {
        Some(command) => match command.option()@ {
            Some(selection) => if selection == "show"@ {
                ReactionView::Show { guild_id: command.guild_id->0 }
            } else if selection == "create"@ {
                ReactionView::Create { origin: command.guild_id, response: line("Game created"@) }
            } else {
                ReactionView::Reply { response: line("Failed to recognize command"@) }
            },
            None => ReactionView::Ignore,
        },
        None => ReactionView::Ignore,
    }
}

/// A public message of the one line `text`.
fn say(text: &str) -> (response: Response)
    ensures
        response@ == line(text@),
{
    let response = Response {
        content: Some(text.to_string()),
        components: vec![],
        ephemeral: false,
    };
    assert(response@.components =~= Seq::empty());
    response
}

/// Decides what to do about an interaction: `interaction` is the slash
/// command it carries, if it carries one.
pub fn interaction_create(interaction: Option<&CommandInteraction>) -> (reaction: Reaction)
    requires
        answerable(interaction),
    ensures
        reaction@ == reaction_to(interaction),
{
    match interaction {
        Some(command) => match &command.options[0] {
            Some(OptionValue::Text(selection)) => {
                if reads(selection, "show") {
                    match command.guild_id {
                        Some(guild_id) => Reaction::Show { guild_id },
                        None => unreached(),
                    }
                } else if reads(selection, "create") {
                    Reaction::Create { origin: command.guild_id, response: say("Game created") }
                } else {
                    Reaction::Reply { response: say("Failed to recognize command") }
                }
            },
            _ => Reaction::Ignore,
        },
        None => Reaction::Ignore,
    }
}

/// The answer to `show`: the spymasters' grid of `board`, for the eyes of
/// the one who asked only.
pub fn disclose(board: &Board) -> (response: Response)
    ensures
        response@ == (ResponseView {
            content: None,
            components: spymaster_grid(board@),
            ephemeral: true,
        }),
{
    Response { content: None, components: board.build_seen(), ephemeral: true }
}

/// Makes the table ready once the bot is connected: the home guild gets the
/// starter board, unless it has a board already.
pub fn ready(sessions: &mut Sessions)
    ensures
        final(sessions)@ == or_inserted(old(sessions)@, HOME_GUILD, starter_cards()),
{
    sessions.or_insert(HOME_GUILD, Board::create_list());
}

/// The message that opens a game in the home guild: its board as the
/// players see it. The home guild has a board once [`ready`] has run.
pub fn show(sessions: &Sessions) -> (response: Response)
    requires
        sessions@.contains_key(HOME_GUILD),
    ensures
        response@ == (ResponseView {
            content: Some("Let's start a new game"@),
            components: player_grid(sessions@[HOME_GUILD]),
            ephemeral: false,
        }),
{
    match sessions.get(HOME_GUILD) {
        Some(board) => Response {
            content: Some("Let's start a new game".to_string()),
            components: board.build(),
            ephemeral: false,
        },
        None => unreached(),
    }
}

} // verus!
