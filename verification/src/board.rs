//! The board: geometry, lifecycle flags, the players keyed by token, and the
//! audit log.

pub mod action;
pub mod laws;
pub mod player;
pub mod rules;

use std::collections::hash_map::Entry;
use std::collections::HashMap;
use vstd::prelude::*;

pub use crate::board::action::{
    act, as_client_player, extend_with_players, fits_limits, is_alive, is_hit, is_outside,
    logs_since, move_in, Action, ClientPlayer, ClientPlayerView, Direction, LogEntry, Request,
    Response, ResponseView,
};
pub use crate::board::player::{Player, PlayerView};

verus! {

/// The authoritative state of one match.
#[derive(Debug)]
pub struct Board {
    pub id: u128,
    pub width: i64,
    pub height: i64,
    pub logfile: String,
    pub lastlog: bool,
    pub has_started: bool,
    pub has_ended: bool,
    pub winner: Option<Player>,
    pub players: HashMap<u128, Player>,
    pub logs: Vec<LogEntry>,
}

/// A board as the rules see it: the players as a map from token to player,
/// the log as a sequence, the bounds as mathematical integers.
pub struct BoardView {
    pub id: u128,
    pub width: int,
    pub height: int,
    pub logfile: Seq<char>,
    pub lastlog: bool,
    pub has_started: bool,
    pub has_ended: bool,
    pub winner: Option<PlayerView>,
    pub players: Map<u128, PlayerView>,
    pub logs: Seq<LogEntry>,
}

impl View for Board {
    type V = BoardView;

    open spec fn view(&self) -> BoardView {
        BoardView {
            id: self.id,
            width: self.width as int,
            height: self.height as int,
            logfile: self.logfile@,
            lastlog: self.lastlog,
            has_started: self.has_started,
            has_ended: self.has_ended,
            winner: match self.winner {
                Some(player) => Some(player@),
                None => None,
            },
            players: self.players@.map_values(|player: Player| player@),
            logs: self.logs@,
        }
    }
}

impl BoardView {
    /// `position` lies outside `[0, width) x [0, height)`.
    pub open spec fn outside(self, position: (int, int)) -> bool {
        0 > position.0 || position.0 >= self.width || 0 > position.1 || position.1 >= self.height
    }

    /// Every player is stored under its own token.
    pub open spec fn tokens_agree(self) -> bool {
        forall|token: u128| #[trigger]
            self.players.contains_key(token) ==> self.players[token].token == token
    }

    /// The board's invariant: positive bounds, and every player stored under
    /// its own token.
    pub open spec fn wf(self) -> bool {
        &&& self.width > 0
        &&& self.height > 0
        &&& self.tokens_agree()
    }

    /// Every player stands on the board.
    pub open spec fn all_inside(self) -> bool {
        forall|token: u128| #[trigger]
            self.players.contains_key(token) ==> !self.outside(self.players[token].position)
    }

    /// This board with other players.
    pub open spec fn with_players(self, players: Map<u128, PlayerView>) -> BoardView {
        BoardView { players, ..self }
    }

    /// This board after `player` has been stored under its token, in place
    /// of any player that was stored there.
    pub open spec fn stored(self, player: PlayerView) -> BoardView {
        self.with_players(self.players.insert(player.token, player))
    }

    /// This board after the player under `token`, if there is one, has been
    /// given one action point.
    pub open spec fn granted(self, token: u128) -> BoardView {
        if self.players.contains_key(token) {
            self.with_players(self.players.insert(token, self.players[token].credited()))
        } else {
            self
        }
    }
}

/// Creates a board of the given bounds that no file backs: no players, an
/// empty log, neither started nor ended.
pub fn create_local_board(id: u128, width: i64, height: i64) -> (board: Board)
    requires
        width > 0,
        height > 0,
    ensures
        board@ == (BoardView {
            id,
            width: width as int,
            height: height as int,
            logfile: Seq::empty(),
            lastlog: true,
            has_started: false,
            has_ended: false,
            winner: None,
            players: Map::empty(),
            logs: Seq::empty(),
        }),
        board@.wf(),
        board@.all_inside(),
{
    let board = Board {
        id,
        width,
        height,
        logfile: String::new(),
        lastlog: true,
        has_ended: false,
        has_started: false,
        winner: None,
        players: HashMap::new(),
        logs: Vec::new(),
    };
    assert(board@.players =~= Map::empty());
    board
}

/// Stores `player` under its token, in place of any player that was stored
/// there. Nothing about the player is checked.
pub fn update_player(board: &mut Board, player: Player)
    ensures
        final(board)@ == old(board)@.stored(player@),
        old(board)@.wf() ==> final(board)@.wf(),
{
    board.players.insert(player.token, player);
    assert(board@.players =~= old(board)@.players.insert(player.token, player@));
}

/// Gives the player stored under `player_token` one action point. A token
/// that names no player changes nothing.
pub fn grant_action(board: &mut Board, player_token: u128)
    requires
        old(board)@.players.contains_key(player_token) ==> old(
            board,
        )@.players[player_token].action_points < i32::MAX,
    ensures
        final(board)@ == old(board)@.granted(player_token),
        old(board)@.wf() ==> final(board)@.wf(),
{
    match board.players.entry(player_token) {
        Entry::Occupied(mut slot) => {
            let sender = slot.get_mut();
            sender.action_points += 1;
        },
        Entry::Vacant(_) => {},
    }
    assert(board@.players =~= old(board)@.granted(player_token).players);
}

} // verus!
