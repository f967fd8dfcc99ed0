//! Requests, responses and the resolution of one action against a board.

use vstd::prelude::*;

use crate::board::player::{Player, PlayerView};
use crate::board::rules::{
    donate_verdict, donated, enumerates, listing, move_verdict, moved, not_before, records_since,
    resolved, shoot_verdict, shot, upgrade_verdict, upgraded, verdict, within_limits,
};
use crate::board::{update_player, Board};

verus! {

/// A request as it reaches the board: who asks, and for what.
#[derive(PartialEq, Eq, Debug, Clone, Copy)]
pub struct Request {
    pub sender_token: u128,
    pub action: Action,
}

/// What a player may ask of the board.
#[derive(PartialEq, Eq, Debug, Clone, Copy)]
pub enum Action {
    Players,
    TankMove { direction: Direction },
    TankShoot { target_token: u128 },
    TankUpgrade,
    Donate { target_token: u128 },
    Log { since: u64 },
}

/// The four unit steps on the grid.
#[derive(PartialEq, Eq, Debug, Clone, Copy)]
pub enum Direction {
    Right,
    Up,
    Left,
    Down,
}

/// The board's answer to one request.
#[derive(PartialEq, Debug)]
pub enum Response {
    Players { players: Vec<ClientPlayer> },
    /// The action was applied and its effects are stored.
    Accepted,
    SenderNotFound,
    SenderNotAlive,
    TargetNotFound,
    TargetNotAlive,
    TargetIsSelf,
    NoActionPoints,
    MovesOutside,
    Log { logs: Vec<LogEntry> },
    Error,
}

/// One audit record: a sequence number and the request it stands for.
#[derive(PartialEq, Eq, Debug, Clone, Copy)]
pub struct LogEntry {
    pub id: u64,
    pub request: Request,
}

/// The part of a player that every participant may see.
#[derive(PartialEq, Debug)]
pub struct ClientPlayer {
    pub token: u128,
    pub position: (i64, i64),
    pub contact: String,
    pub alive: bool,
}

impl Clone for ClientPlayer {
    fn clone(&self) -> (copy: Self)
        ensures
            copy == *self,
    {
        ClientPlayer {
            token: self.token,
            position: self.position,
            contact: self.contact.clone(),
            alive: self.alive,
        }
    }
}

/// A `ClientPlayer` as the rules see it.
pub struct ClientPlayerView {
    pub token: u128,
    pub position: (int, int),
    pub contact: Seq<char>,
    pub alive: bool,
}

impl View for ClientPlayer {
    type V = ClientPlayerView;

    open spec fn view(&self) -> ClientPlayerView {
        ClientPlayerView {
            token: self.token,
            position: (self.position.0 as int, self.position.1 as int),
            contact: self.contact@,
            alive: self.alive,
        }
    }
}

/// The views of a list of `ClientPlayer`s, in the order of the list.
pub open spec fn client_views(list: Seq<ClientPlayer>) -> Seq<ClientPlayerView> {
    list.map_values(|player: ClientPlayer| player@)
}

/// A `Response` as the rules see it.
pub enum ResponseView {
    Players { players: Seq<ClientPlayerView> },
    Accepted,
    SenderNotFound,
    SenderNotAlive,
    TargetNotFound,
    TargetNotAlive,
    TargetIsSelf,
    NoActionPoints,
    MovesOutside,
    Log { logs: Seq<LogEntry> },
    Error,
}

impl View for Response {
    type V = ResponseView;

    open spec fn view(&self) -> ResponseView {
        match self {
            Response::Players { players } => ResponseView::Players {
                players: client_views(players@),
            },
            Response::Accepted => ResponseView::Accepted,
            Response::SenderNotFound => ResponseView::SenderNotFound,
            Response::SenderNotAlive => ResponseView::SenderNotAlive,
            Response::TargetNotFound => ResponseView::TargetNotFound,
            Response::TargetNotAlive => ResponseView::TargetNotAlive,
            Response::TargetIsSelf => ResponseView::TargetIsSelf,
            Response::NoActionPoints => ResponseView::NoActionPoints,
            Response::MovesOutside => ResponseView::MovesOutside,
            Response::Log { logs } => ResponseView::Log { logs: logs@ },
            Response::Error => ResponseView::Error,
        }
    }
}

impl Clone for Response {
    fn clone(&self) -> (copy: Self)
        ensures
            copy@ == self@,
    {
        match self {
            Response::Players { players } => Response::Players { players: players.clone() },
            Response::Accepted => Response::Accepted,
            Response::SenderNotFound => Response::SenderNotFound,
            Response::SenderNotAlive => Response::SenderNotAlive,
            Response::TargetNotFound => Response::TargetNotFound,
            Response::TargetNotAlive => Response::TargetNotAlive,
            Response::TargetIsSelf => Response::TargetIsSelf,
            Response::NoActionPoints => Response::NoActionPoints,
            Response::MovesOutside => Response::MovesOutside,
            Response::Log { logs } => Response::Log { logs: logs.clone() },
            Response::Error => Response::Error,
        }
    }
}

impl Direction {
    /// The position one step from `position` in this direction.
    pub open spec fn step(self, position: (int, int)) -> (int, int) {
        match self {
            Direction::Right => (position.0 + 1, position.1),
            Direction::Up => (position.0, position.1 + 1),
            Direction::Left => (position.0 - 1, position.1),
            Direction::Down => (position.0, position.1 - 1),
        }
    }
}

/// The coordinates of a position as mathematical integers.
pub open spec fn coordinates(position: (i64, i64)) -> (int, int) {
    (position.0 as int, position.1 as int)
}

/// Takes one step from `position` in `direction`. The step must not leave
/// the range of the coordinates.
pub fn move_in(direction: &Direction, position: (i64, i64)) -> (moved: (i64, i64))
    requires
        i64::MIN <= direction.step(coordinates(position)).0 <= i64::MAX,
        i64::MIN <= direction.step(coordinates(position)).1 <= i64::MAX,
    ensures
        coordinates(moved) == direction.step(coordinates(position)),
{
    match direction {
        Direction::Right => (position.0 + 1, position.1),
        Direction::Up => (position.0, position.1 + 1),
        Direction::Left => (position.0 - 1, position.1),
        Direction::Down => (position.0, position.1 - 1),
    }
}

/// Tells whether `position` lies off the board.
pub fn is_outside(board: &Board, position: (i64, i64)) -> (out: bool)
    ensures
        out == board@.outside(coordinates(position)),
{
    0 > position.0 || position.0 >= board.width || 0 > position.1 || position.1 >= board.height
}

/// The distance between two coordinates on one axis.
fn axis_distance(from: i64, to: i64) -> (distance: u128)
    ensures
        distance == if to >= from {
            to - from
        } else {
            from - to
        },
{
    if to >= from {
        (to as i128 - from as i128) as u128
    } else {
        (from as i128 - to as i128) as u128
    }
}

/// Tells whether a shot of `sender` reaches `target`: the squared distance
/// between the two is at most the square of the sender's range.
pub fn is_hit(sender: &Player, target: &Player) -> (hit: bool)
    ensures
        hit == sender@.reaches(target@),
{
    let dx: u128 = axis_distance(sender.position.0, target.position.0);
    let dy: u128 = axis_distance(sender.position.1, target.position.1);
    let range: u128 = sender.range as u128;
    proof {
        let limit: int = 0xffff_ffff_ffff_ffff;
        let sx: int = target.position.0 - sender.position.0;
        let sy: int = target.position.1 - sender.position.1;
        assert(dx * dx <= limit * limit) by (nonlinear_arith)
            requires
                0 <= dx <= limit,
        ;
        assert(dy * dy <= limit * limit) by (nonlinear_arith)
            requires
                0 <= dy <= limit,
        ;
        assert(range * range <= limit * limit) by (nonlinear_arith)
            requires
                0 <= range <= limit,
        ;
        assert(dx * dx == sx * sx) by (nonlinear_arith)
            requires
                dx == sx || dx == -sx,
        ;
        assert(dy * dy == sy * sy) by (nonlinear_arith)
            requires
                dy == sy || dy == -sy,
        ;
    }
    let range_squared: u128 = range * range;
    match (dx * dx).checked_add(dy * dy) {
        Some(distance_squared) => distance_squared <= range_squared,
        None => false,
    }
}

/// Projects a player onto what other participants may see of it.
pub fn as_client_player(player: &Player) -> (public: ClientPlayer)
    ensures
        public@ == player@.public(),
{
    ClientPlayer {
        token: player.token,
        position: player.position,
        contact: player.contact.clone(),
        alive: is_alive(player),
    }
}

/// Tells whether a player has hit points left.
pub fn is_alive(sender: &Player) -> (alive: bool)
    ensures
        alive == sender@.alive(),
{
    sender.hit_points > 0
}

/// Charges `player` one action point and tells whether it could pay: whether
/// the balance is still at least zero. A balance that cannot go lower stays
/// as it is, and does not pay.
fn charge(player: &mut Player) -> (paid: bool)
    ensures
        paid == (old(player)@.action_points - 1 >= 0),
        paid ==> final(player)@ == old(player)@.charged(),
        final(player)@ == (PlayerView {
            action_points: final(player)@.action_points,
            ..old(player)@
        }),
{
    if player.action_points > i32::MIN {
        player.action_points -= 1;
    }
    player.action_points >= 0
}

/// Appends the public view of every player on `board` to `list`: each
/// player once, in the order in which the map hands them out.
pub fn extend_with_players(list: &mut Vec<ClientPlayer>, board: &Board)
    ensures
        exists|order: Seq<u128>|
            enumerates(order, board@.players) && client_views(final(list)@) == client_views(
                old(list)@,
            ) + listing(board@.players, order),
        final(list)@.len() == old(list)@.len() + board@.players.len(),
{
    let ghost before = list@;
    let ghost mut order: Seq<u128> = Seq::empty();
    for entry in iter: board.players.iter()
        invariant
            iter.seq().no_duplicates(),
            iter.seq().len() == board.players@.dom().len(),
            forall|i: int|
                0 <= i < iter.seq().len() ==> board.players@.contains_key(*iter.seq()[i].0)
                    && board.players@[*iter.seq()[i].0] == *iter.seq()[i].1,
            order.len() == iter.index(),
            forall|i: int| 0 <= i < order.len() ==> order[i] == *iter.seq()[i].0,
            client_views(list@) == client_views(before) + listing(board@.players, order),
            list@.len() == before.len() + order.len(),
    {
        let (token, player) = entry;
        let ghost listed = client_views(list@);
        list.push(as_client_player(player));
        proof {
            order = order.push(*token);
            assert(client_views(list@) =~= listed.push(player@.public()));
        }
    }
    proof {
        order.unique_seq_to_set();
        vstd::set_lib::lemma_subset_equality(order.to_set(), board.players@.dom());
        assert(board@.players.dom() =~= board.players@.dom());
        assert(enumerates(order, board@.players));
    }
}

/// The audit records of `board` whose sequence number is at least `since`,
/// in the order of the log.
pub fn logs_since(board: &Board, since: u64) -> (logs: Vec<LogEntry>)
    ensures
        logs@ == records_since(board@.logs, since),
{
    let mut logs: Vec<LogEntry> = Vec::new();
    let mut i: usize = 0;
    proof {
        reveal(Seq::filter);
    }
    while i < board.logs.len()
        invariant
            i <= board.logs.len(),
            logs@ == records_since(board.logs@.subrange(0, i as int), since),
        decreases board.logs.len() - i,
    {
        let entry = board.logs[i];
        proof {
            let seen = board.logs@.subrange(0, i as int);
            assert(board.logs@.subrange(0, i + 1) =~= seen.push(entry));
            seen.lemma_filter_push(entry, not_before(since));
        }
        if entry.id >= since {
            logs.push(entry);
        }
        i += 1;
    }
    assert(board.logs@.subrange(0, i as int) =~= board.logs@);
    logs
}

/// Resolves a move of `sender_token` by one step in `direction`.
fn tank_move(board: &mut Board, sender_token: &u128, direction: &Direction) -> (response: Response)
    ensures
        response@ == move_verdict(old(board)@, *sender_token, *direction),
        final(board)@ == if response is Accepted {
            moved(old(board)@, *sender_token, *direction)
        } else {
            old(board)@
        },
{
    let mut sender = match board.players.get(sender_token) {
        None => return Response::SenderNotFound,
        Some(sender) => sender.clone(),
    };
    if !is_alive(&sender) {
        return Response::SenderNotAlive;
    }
    let paid = charge(&mut sender);
    // A step that leaves the range of the coordinates leaves the board too.
    let leaves = match direction {
        Direction::Right => sender.position.0 == i64::MAX,
        Direction::Up => sender.position.1 == i64::MAX,
        Direction::Left => sender.position.0 == i64::MIN,
        Direction::Down => sender.position.1 == i64::MIN,
    };
    if !leaves {
        sender.position = move_in(direction, sender.position);
    }
    if !paid {
        return Response::NoActionPoints;
    }
    if leaves || is_outside(board, sender.position) {
        return Response::MovesOutside;
    }
    update_player(board, sender);
    Response::Accepted
}

/// Resolves a shot of `sender_token` at `target_token`.
fn tank_shoot(board: &mut Board, sender_token: &u128, target_token: &u128) -> (response: Response)
    ensures
        response@ == shoot_verdict(old(board)@, *sender_token, *target_token),
        final(board)@ == if response is Accepted {
            shot(old(board)@, *sender_token, *target_token)
        } else {
            old(board)@
        },
{
    if *sender_token == *target_token {
        return Response::TargetIsSelf;
    }
    let mut sender = match board.players.get(sender_token) {
        None => return Response::SenderNotFound,
        Some(sender) => sender.clone(),
    };
    let mut target = match board.players.get(target_token) {
        None => return Response::TargetNotFound,
        Some(target) => target.clone(),
    };
    if !is_alive(&sender) {
        return Response::SenderNotAlive;
    }
    let paid = charge(&mut sender);
    if is_alive(&target) && is_hit(&sender, &target) {
        target.hit_points -= 1;
    }
    if !paid {
        return Response::NoActionPoints;
    }
    update_player(board, sender);
    update_player(board, target);
    Response::Accepted
}

/// Resolves an upgrade of the range of `sender_token`.
fn tank_upgrade(board: &mut Board, sender_token: &u128) -> (response: Response)
    requires
        within_limits(old(board)@, *sender_token, Action::TankUpgrade),
    ensures
        response@ == upgrade_verdict(old(board)@, *sender_token),
        final(board)@ == if response is Accepted {
            upgraded(old(board)@, *sender_token)
        } else {
            old(board)@
        },
{
    let mut sender = match board.players.get(sender_token) {
        None => return Response::SenderNotFound,
        Some(sender) => sender.clone(),
    };
    let paid = charge(&mut sender);
    if !paid {
        return Response::NoActionPoints;
    }
    sender.range += 1;
    update_player(board, sender);
    Response::Accepted
}

/// Resolves a donation of one action point from `sender_token` to
/// `target_token`.
fn donate(board: &mut Board, sender_token: &u128, target_token: &u128) -> (response: Response)
    requires
        within_limits(old(board)@, *sender_token, Action::Donate { target_token: *target_token }),
    ensures
        response@ == donate_verdict(old(board)@, *sender_token, *target_token),
        final(board)@ == if response is Accepted {
            donated(old(board)@, *sender_token, *target_token)
        } else {
            old(board)@
        },
{
    if *sender_token == *target_token {
        return Response::TargetIsSelf;
    }
    let mut sender = match board.players.get(sender_token) {
        None => return Response::SenderNotFound,
        Some(sender) => sender.clone(),
    };
    let mut target = match board.players.get(target_token) {
        None => return Response::TargetNotFound,
        Some(target) => target.clone(),
    };
    if !is_alive(&sender) {
        return Response::SenderNotAlive;
    }
    if !is_alive(&target) {
        return Response::TargetNotAlive;
    }
    let paid = charge(&mut sender);
    if !paid {
        return Response::NoActionPoints;
    }
    target.action_points += 1;
    update_player(board, sender);
    update_player(board, target);
    Response::Accepted
}

/// Tells whether the counters that `action` would raise have room for it.
pub fn fits_limits(board: &Board, sender_token: &u128, action: &Action) -> (fits: bool)
    ensures
        fits == within_limits(board@, *sender_token, *action),
{
    match action {
        Action::TankUpgrade => match board.players.get(sender_token) {
            None => true,
            Some(sender) => sender.action_points < 1 || sender.range < u64::MAX,
        },
        Action::Donate { target_token } => {
            if *sender_token == *target_token {
                return true;
            }
            match (board.players.get(sender_token), board.players.get(target_token)) {
                (Some(sender), Some(target)) => !is_alive(sender) || !is_alive(target)
                    || sender.action_points < 1 || target.action_points < i32::MAX,
                _ => true,
            }
        },
        _ => true,
    }
}

/// Resolves one action of `sender_token` against `board`.
///
/// `Players` and `Log` read the board and answer with what they read; a
/// listing that finds no memory answers `Error`. Every other action is judged
/// by the rules, and changes the board only when it is accepted.
pub fn act(board: &mut Board, sender_token: &u128, action: &Action) -> (response: Response)
    requires
        within_limits(old(board)@, *sender_token, *action),
    ensures
        final(board)@ == resolved(old(board)@, *sender_token, *action),
        match *action {
            Action::Players => response@ is Error || exists|order: Seq<u128>|
                enumerates(order, old(board)@.players) && order.len() == old(board)@.players.len()
                    && response@ == (ResponseView::Players {
                    players: listing(old(board)@.players, order),
                }),
            _ => response@ == verdict(old(board)@, *sender_token, *action),
        },
        // Nothing is stored unless the action is accepted: a sender that
        // cannot pay keeps its action points, and everything else with them.
        !(response is Accepted) ==> final(board)@ == old(board)@,
        // A request that targets its own sender is turned down before any
        // player is looked up.
        (*action matches Action::TankShoot { target_token } && target_token == *sender_token)
            ==> response is TargetIsSelf,
        (*action matches Action::Donate { target_token } && target_token == *sender_token)
            ==> response is TargetIsSelf,
        // An accepted move leaves the player that moved on the board.
        (*action is TankMove && response is Accepted) ==> ({
            let mover = old(board)@.players[*sender_token].token;
            &&& final(board)@.players.contains_key(mover)
            &&& !final(board)@.outside(final(board)@.players[mover].position)
        }),
        old(board)@.all_inside() ==> final(board)@.all_inside(),
        old(board)@.wf() ==> final(board)@.wf(),
{
    match action {
        Action::Players => {
            let mut players: Vec<ClientPlayer> = Vec::new();
            match players.try_reserve(board.players.len()) {
                Err(_) => Response::Error,
                Ok(_) => {
                    extend_with_players(&mut players, board);
                    Response::Players { players }
                },
            }
        },
        Action::TankMove { direction } => tank_move(board, sender_token, direction),
        Action::TankShoot { target_token } => tank_shoot(board, sender_token, target_token),
        Action::TankUpgrade => tank_upgrade(board, sender_token),
        Action::Donate { target_token } => donate(board, sender_token, target_token),
        Action::Log { since } => Response::Log { logs: logs_since(board, *since) },
    }
}

} // verus!
