//! A Codenames-style word game for chat communities: the board of cards, the
//! two ways of showing it, the table of boards kept per guild, and the rules
//! by which a slash command is answered.

pub mod command;
pub mod component;
pub mod game;
pub mod lemmas;
pub mod session;
pub mod word_bank;
