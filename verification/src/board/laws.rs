//! Laws that the rules obey, each proved from the definitions it speaks of.

use vstd::prelude::*;

use crate::board::action::{Action, Direction};
use crate::board::player::PlayerView;
use crate::board::rules::{
    donate_verdict, move_verdict, moved, resolved, shoot_verdict, verdict,
};
use crate::board::BoardView;

verus! {

/// The board after each player of `batch` has been stored in turn.
pub open spec fn stored_all(board: BoardView, batch: Seq<PlayerView>) -> BoardView
    decreases batch.len(),
{
    if batch.len() == 0 {
        board
    } else {
        stored_all(board, batch.drop_last()).stored(batch.last())
    }
}

/// Token uniqueness, first part. However many players are stored one after
/// another, every player on the board is stored under its own token, so a
/// token names one player and a player has one entry.
pub proof fn stored_players_keep_their_tokens(board: BoardView, batch: Seq<PlayerView>)
    requires
        board.tokens_agree(),
    ensures
        stored_all(board, batch).tokens_agree(),
    decreases batch.len(),
{
    if batch.len() > 0 {
        stored_players_keep_their_tokens(board, batch.drop_last());
    }
}

/// Token uniqueness, second part. Storing a player under a token that is
/// taken replaces the earlier player whole: after a batch, a token names the
/// last player of the batch that carries it.
pub proof fn last_stored_player_wins(board: BoardView, batch: Seq<PlayerView>, i: int)
    requires
        0 <= i < batch.len(),
        forall|j: int| i < j < batch.len() ==> #[trigger] batch[j].token != batch[i].token,
    ensures
        stored_all(board, batch).players.contains_key(batch[i].token),
        stored_all(board, batch).players[batch[i].token] == batch[i],
    decreases batch.len(),
{
    if i < batch.len() - 1 {
        last_stored_player_wins(board, batch.drop_last(), i);
    }
}

/// Token uniqueness, third part. A token that no player of the batch
/// carries names afterwards what it named before: the same player, or none.
pub proof fn other_tokens_are_untouched(board: BoardView, batch: Seq<PlayerView>, token: u128)
    requires
        forall|i: int| 0 <= i < batch.len() ==> #[trigger] batch[i].token != token,
    ensures
        stored_all(board, batch).players.contains_key(token) == board.players.contains_key(token),
        board.players.contains_key(token) ==> stored_all(board, batch).players[token]
            == board.players[token],
    decreases batch.len(),
{
    if batch.len() > 0 {
        other_tokens_are_untouched(board, batch.drop_last(), token);
    }
}

/// Hit boundary. A target whose squared distance from the sender is exactly
/// the square of the sender's range is reached; one unit further it is not.
pub proof fn hit_boundary(sender: PlayerView, target: PlayerView)
    ensures
        sender.distance_squared(target) == sender.range * sender.range ==> sender.reaches(target),
        sender.distance_squared(target) == sender.range * sender.range + 1 ==> !sender.reaches(
            target,
        ),
{
}

/// Bounds, first part. An accepted move leaves the player that moved on
/// the board, one step from where it stood and one action point poorer.
pub proof fn accepted_move_lands_inside(board: BoardView, sender_token: u128, direction: Direction)
    requires
        move_verdict(board, sender_token, direction) is Accepted,
    ensures
        ({
            let sender = board.players[sender_token];
            let after = moved(board, sender_token, direction);
            &&& after.players.contains_key(sender.token)
            &&& after.players[sender.token].position == direction.step(sender.position)
            &&& after.players[sender.token].action_points == sender.action_points - 1
            &&& !after.outside(after.players[sender.token].position)
        }),
{
}

/// Bounds, second part. No action moves a player off the board: where every
/// player stands on the board before an action, every player stands on it
/// afterwards.
pub proof fn players_stay_inside(board: BoardView, sender_token: u128, action: Action)
    requires
        board.all_inside(),
    ensures
        resolved(board, sender_token, action).all_inside(),
{
}

/// The board's invariant holds after an action if it held before.
pub proof fn resolved_board_stays_well_formed(board: BoardView, sender_token: u128, action: Action)
    requires
        board.wf(),
    ensures
        resolved(board, sender_token, action).wf(),
{
}

/// No unpaid action is stored. An action that is turned down for want of
/// action points leaves the whole board as it was, the sender's action
/// points with it; so does every action that is not accepted.
pub proof fn rejected_actions_change_nothing(board: BoardView, sender_token: u128, action: Action)
    requires
        !(action is Players),
        !(verdict(board, sender_token, action) is Accepted),
    ensures
        resolved(board, sender_token, action) == board,
{
}

/// A request that targets its own sender is turned down as such whatever
/// the board holds, even where the token names no player.
pub proof fn self_target_is_turned_down_first(board: BoardView, token: u128)
    ensures
        shoot_verdict(board, token, token) is TargetIsSelf,
        donate_verdict(board, token, token) is TargetIsSelf,
        resolved(board, token, Action::TankShoot { target_token: token }) == board,
        resolved(board, token, Action::Donate { target_token: token }) == board,
{
}

} // verus!
