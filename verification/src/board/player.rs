//! A participant's combat state.

use vstd::prelude::*;

use crate::board::action::ClientPlayerView;

verus! {

/// One participant of a match.
///
/// `token` addresses the player in every request. `action_points` is signed:
/// an action is paid before it is judged, and a negative balance voids it.
#[derive(Debug)]
pub struct Player {
    pub token: u128,
    pub nickname: String,
    pub contact: String,
    pub position: (i64, i64),
    pub action_points: i32,
    pub hit_points: i32,
    pub range: u64,
}

/// A player as the rules see it: texts as sequences of characters, numbers
/// as mathematical integers.
pub struct PlayerView {
    pub token: u128,
    pub nickname: Seq<char>,
    pub contact: Seq<char>,
    pub position: (int, int),
    pub action_points: int,
    pub hit_points: int,
    pub range: nat,
}

impl View for Player {
    type V = PlayerView;

    open spec fn view(&self) -> PlayerView {
        PlayerView {
            token: self.token,
            nickname: self.nickname@,
            contact: self.contact@,
            position: (self.position.0 as int, self.position.1 as int),
            action_points: self.action_points as int,
            hit_points: self.hit_points as int,
            range: self.range as nat,
        }
    }
}

impl PlayerView {
    /// A player is alive while it has hit points left.
    pub open spec fn alive(self) -> bool {
        self.hit_points > 0
    }

    /// Squared Euclidean distance between the positions of two players.
    pub open spec fn distance_squared(self, other: PlayerView) -> int {
        let dx = other.position.0 - self.position.0;
        let dy = other.position.1 - self.position.1;
        dx * dx + dy * dy
    }

    /// `target` lies within this player's range, the boundary included.
    pub open spec fn reaches(self, target: PlayerView) -> bool {
        self.distance_squared(target) <= self.range * self.range
    }

    /// What other participants may see of this player.
    pub open spec fn public(self) -> ClientPlayerView {
        ClientPlayerView {
            token: self.token,
            position: self.position,
            contact: self.contact,
            alive: self.alive(),
        }
    }

    /// This player after it has paid for one action.
    pub open spec fn charged(self) -> PlayerView {
        PlayerView { action_points: self.action_points - 1, ..self }
    }

    /// This player after it has been given one action point.
    pub open spec fn credited(self) -> PlayerView {
        PlayerView { action_points: self.action_points + 1, ..self }
    }

    /// This player after `sender` has fired at it: alive and within range it
    /// loses one hit point, otherwise it stays as it is.
    pub open spec fn fired_at_by(self, sender: PlayerView) -> PlayerView {
        if self.alive() && sender.reaches(self) {
            PlayerView { hit_points: self.hit_points - 1, ..self }
        } else {
            self
        }
    }

    /// This player with its range grown by one.
    pub open spec fn upgraded(self) -> PlayerView {
        PlayerView { range: self.range + 1, ..self }
    }

    /// This player at another position.
    pub open spec fn placed_at(self, position: (int, int)) -> PlayerView {
        PlayerView { position, ..self }
    }
}

impl Clone for Player {
    fn clone(&self) -> (copy: Self)
        ensures
            copy == *self,
    {
        Player {
            token: self.token,
            nickname: self.nickname.clone(),
            contact: self.contact.clone(),
            position: self.position,
            action_points: self.action_points,
            hit_points: self.hit_points,
            range: self.range,
        }
    }
}

} // verus!
