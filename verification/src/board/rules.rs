//! The rules of the game as mathematical functions over the views of the
//! board and its players: for each action, the verdict on a request and the
//! board that an accepted request leaves.

use vstd::prelude::*;

use crate::board::action::{Action, ClientPlayerView, Direction, LogEntry, ResponseView};
use crate::board::player::PlayerView;
use crate::board::BoardView;

verus! {

/// The verdict on a move of `sender_token` by one step in `direction`: the
/// sender must exist, be alive, be able to pay, and land on the board, and
/// is asked in this order.
pub open spec fn move_verdict(board: BoardView, sender_token: u128, direction: Direction)
    -> ResponseView {
    if !board.players.contains_key(sender_token) {
        ResponseView::SenderNotFound
    } else if !board.players[sender_token].alive() {
        ResponseView::SenderNotAlive
    } else if board.players[sender_token].action_points - 1 < 0 {
        ResponseView::NoActionPoints
    } else if board.outside(direction.step(board.players[sender_token].position)) {
        ResponseView::MovesOutside
    } else {
        ResponseView::Accepted
    }
}

/// The board after an accepted move: the sender has paid and stands one
/// step further, stored under its own token.
pub open spec fn moved(board: BoardView, sender_token: u128, direction: Direction) -> BoardView {
    let sender = board.players[sender_token];
    board.stored(sender.charged().placed_at(direction.step(sender.position)))
}

/// The verdict on a shot of `sender_token` at `target_token`. A shot at
/// oneself is turned down before any player is looked up. Whether the target
/// is alive decides the effect of the shot, not its verdict.
pub open spec fn shoot_verdict(board: BoardView, sender_token: u128, target_token: u128)
    -> ResponseView {
    if sender_token == target_token {
        ResponseView::TargetIsSelf
    } else if !board.players.contains_key(sender_token) {
        ResponseView::SenderNotFound
    } else if !board.players.contains_key(target_token) {
        ResponseView::TargetNotFound
    } else if !board.players[sender_token].alive() {
        ResponseView::SenderNotAlive
    } else if board.players[sender_token].action_points - 1 < 0 {
        ResponseView::NoActionPoints
    } else {
        ResponseView::Accepted
    }
}

/// The board after an accepted shot: the sender has paid, and the target
/// has lost a hit point if it was alive and within range. The sender is
/// stored first, the target second, each under its own token.
pub open spec fn shot(board: BoardView, sender_token: u128, target_token: u128) -> BoardView {
    let sender = board.players[sender_token];
    let target = board.players[target_token];
    board.stored(sender.charged()).stored(target.fired_at_by(sender))
}

/// The verdict on an upgrade asked by `sender_token`. A dead player may
/// upgrade.
pub open spec fn upgrade_verdict(board: BoardView, sender_token: u128) -> ResponseView {
    if !board.players.contains_key(sender_token) {
        ResponseView::SenderNotFound
    } else if board.players[sender_token].action_points - 1 < 0 {
        ResponseView::NoActionPoints
    } else {
        ResponseView::Accepted
    }
}

/// The board after an accepted upgrade: the sender has paid and its range
/// has grown by one.
pub open spec fn upgraded(board: BoardView, sender_token: u128) -> BoardView {
    board.stored(board.players[sender_token].charged().upgraded())
}

/// The verdict on a donation of one action point from `sender_token` to
/// `target_token`. A donation to oneself is turned down before any player is
/// looked up, and both players must be alive.
pub open spec fn donate_verdict(board: BoardView, sender_token: u128, target_token: u128)
    -> ResponseView {
    if sender_token == target_token {
        ResponseView::TargetIsSelf
    } else if !board.players.contains_key(sender_token) {
        ResponseView::SenderNotFound
    } else if !board.players.contains_key(target_token) {
        ResponseView::TargetNotFound
    } else if !board.players[sender_token].alive() {
        ResponseView::SenderNotAlive
    } else if !board.players[target_token].alive() {
        ResponseView::TargetNotAlive
    } else if board.players[sender_token].action_points - 1 < 0 {
        ResponseView::NoActionPoints
    } else {
        ResponseView::Accepted
    }
}

/// The board after an accepted donation: the sender has paid and the target
/// has one action point more. The sender is stored first, the target second,
/// each under its own token.
pub open spec fn donated(board: BoardView, sender_token: u128, target_token: u128) -> BoardView {
    let sender = board.players[sender_token];
    let target = board.players[target_token];
    board.stored(sender.charged()).stored(target.credited())
}

/// The test that an audit record passes when its sequence number is at
/// least `since`.
pub open spec fn not_before(since: u64) -> spec_fn(LogEntry) -> bool {
    |entry: LogEntry| entry.id >= since
}

/// The audit records whose sequence number is at least `since`, in the
/// order of the log.
pub open spec fn records_since(logs: Seq<LogEntry>, since: u64) -> Seq<LogEntry> {
    logs.filter(not_before(since))
}

/// `order` names every token of `players` exactly once.
pub open spec fn enumerates(order: Seq<u128>, players: Map<u128, PlayerView>) -> bool {
    order.no_duplicates() && order.to_set() == players.dom()
}

/// The public views of the players that `order` names, in that order.
pub open spec fn listing(players: Map<u128, PlayerView>, order: Seq<u128>) -> Seq<
    ClientPlayerView,
> {
    Seq::new(order.len(), |i: int| players[order[i]].public())
}

/// The answer to every action but `Players`. The answer to `Players` lists
/// the players in an order that the rules leave open; it is one of the
/// `listing`s of the board.
pub open spec fn verdict(board: BoardView, sender_token: u128, action: Action) -> ResponseView
    recommends
        !(action is Players),
{
    match action {
        Action::Players => arbitrary(),
        Action::TankMove { direction } => move_verdict(board, sender_token, direction),
        Action::TankShoot { target_token } => shoot_verdict(board, sender_token, target_token),
        Action::TankUpgrade => upgrade_verdict(board, sender_token),
        Action::Donate { target_token } => donate_verdict(board, sender_token, target_token),
        Action::Log { since } => ResponseView::Log { logs: records_since(board.logs, since) },
    }
}

/// The board that an action leaves once it has been accepted.
pub open spec fn committed(board: BoardView, sender_token: u128, action: Action) -> BoardView {
    match action {
        Action::Players => board,
        Action::TankMove { direction } => moved(board, sender_token, direction),
        Action::TankShoot { target_token } => shot(board, sender_token, target_token),
        Action::TankUpgrade => upgraded(board, sender_token),
        Action::Donate { target_token } => donated(board, sender_token, target_token),
        Action::Log { since } => board,
    }
}

/// The board that an action leaves: `Players` and `Log` only read it, and
/// any other action changes it exactly when it is accepted.
pub open spec fn resolved(board: BoardView, sender_token: u128, action: Action) -> BoardView {
    match action {
        Action::Players => board,
        Action::Log { since } => board,
        _ => if verdict(board, sender_token, action) is Accepted {
            committed(board, sender_token, action)
        } else {
            board
        },
    }
}

/// The counters that an accepted action raises have room for it: an upgrade
/// needs a range below `u64::MAX`, a donation a target with fewer than
/// `i32::MAX` action points.
pub open spec fn within_limits(board: BoardView, sender_token: u128, action: Action) -> bool {
    match action {
        Action::TankUpgrade => upgrade_verdict(board, sender_token) is Accepted
            ==> board.players[sender_token].range < u64::MAX,
        Action::Donate { target_token } => donate_verdict(board, sender_token, target_token)
            is Accepted ==> board.players[target_token].action_points < i32::MAX,
        _ => true,
    }
}

} // verus!
