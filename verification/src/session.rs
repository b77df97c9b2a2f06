//! The table of boards in play, one per guild.

use crate::game::{Board, CardView};
use std::collections::HashMap;
use vstd::prelude::*;

verus! {

/// The boards in play, keyed by the identifier of the guild that plays them.
pub struct Sessions {
    boards: HashMap<u64, Board>,
}

impl View for Sessions {
    type V = Map<u64, Seq<CardView>>;

    closed spec fn view(&self) -> Map<u64, Seq<CardView>> {
        Map::new(
            |guild_id: u64| self.boards@.contains_key(guild_id),
            |guild_id: u64| self.boards@[guild_id]@,
        )
    }
}

/// The table after `guild_id` was offered `board`: the guild takes it only
/// where it has no board yet.
pub open spec fn or_inserted(
    table: Map<u64, Seq<CardView>>,
    guild_id: u64,
    board: Seq<CardView>,
) -> Map<u64, Seq<CardView>> {
    if table.contains_key(guild_id) {
        table
    } else {
        table.insert(guild_id, board)
    }
}

impl Sessions {
    /// A table with no board.
    pub fn new() -> (sessions: Sessions)
        ensures
            sessions@ == Map::<u64, Seq<CardView>>::empty(),
    {
        let sessions = Sessions { boards: HashMap::new() };
        assert(sessions@ =~= Map::<u64, Seq<CardView>>::empty());
        sessions
    }

    /// Gives `guild_id` the board `board` unless it has one already: a board
    /// in play is never replaced.
    pub fn or_insert(&mut self, guild_id: u64, board: Board)
        ensures
            final(self)@ == or_inserted(old(self)@, guild_id, board@),
    {
        broadcast use vstd::std_specs::hash::group_hash_axioms;

        self.boards.entry(guild_id).or_insert(board);
        assert(self@ =~= or_inserted(old(self)@, guild_id, board@));
    }

    /// The board that `guild_id` plays, if it has one.
    pub fn get(&self, guild_id: u64) -> (board: Option<&Board>)
        ensures
            match board {
                Some(board) => self@.contains_key(guild_id) && board@ == self@[guild_id],
                None => !self@.contains_key(guild_id),
            },
    {
        broadcast use vstd::std_specs::hash::group_hash_axioms;

        self.boards.get(&guild_id)
    }
}

/// Once a guild was offered a board it has one, and a board in play is never
/// replaced: a second offer changes nothing.
pub proof fn lemma_board_in_play_stays(
    table: Map<u64, Seq<CardView>>,
    guild_id: u64,
    first: Seq<CardView>,
    second: Seq<CardView>,
)
    ensures
        or_inserted(table, guild_id, first).contains_key(guild_id),
        table.contains_key(guild_id) ==> or_inserted(table, guild_id, first) == table,
        !table.contains_key(guild_id) ==> or_inserted(table, guild_id, first)[guild_id] == first,
        or_inserted(or_inserted(table, guild_id, first), guild_id, second) == or_inserted(
            table,
            guild_id,
            first,
        ),
{
}

/// An offer to one guild leaves the boards of all others as they were.
pub proof fn lemma_other_guilds_untouched(
    table: Map<u64, Seq<CardView>>,
    guild_id: u64,
    board: Seq<CardView>,
    other: u64,
)
    requires
        other != guild_id,
    ensures
        or_inserted(table, guild_id, board).contains_key(other) == table.contains_key(other),
        table.contains_key(other) ==> or_inserted(table, guild_id, board)[other] == table[other],
{
}

} // verus!
