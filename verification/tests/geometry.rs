use tank_board::board::{
    as_client_player, create_local_board, extend_with_players, is_alive, is_hit, is_outside,
    move_in, update_player, ClientPlayer, Direction, Player,
};

fn tank(token: u128, position: (i64, i64), hit_points: i32, range: u64) -> Player {
    Player {
        token,
        nickname: format!("tank{}", token),
        contact: format!("tank{}@localhost", token),
        position,
        action_points: 0,
        hit_points,
        range,
    }
}

#[test]
fn move_in_takes_one_step_per_direction() {
    assert_eq!(move_in(&Direction::Right, (3, 7)), (4, 7));
    assert_eq!(move_in(&Direction::Up, (3, 7)), (3, 8));
    assert_eq!(move_in(&Direction::Left, (3, 7)), (2, 7));
    assert_eq!(move_in(&Direction::Down, (3, 7)), (3, 6));
}

#[test]
fn move_in_crosses_zero() {
    assert_eq!(move_in(&Direction::Left, (0, 0)), (-1, 0));
    assert_eq!(move_in(&Direction::Down, (0, 0)), (0, -1));
}

#[test]
fn move_in_reaches_the_last_coordinates() {
    assert_eq!(move_in(&Direction::Right, (i64::MAX - 1, 0)), (i64::MAX, 0));
    assert_eq!(move_in(&Direction::Up, (0, i64::MAX - 1)), (0, i64::MAX));
    assert_eq!(move_in(&Direction::Left, (i64::MIN + 1, 0)), (i64::MIN, 0));
    assert_eq!(move_in(&Direction::Down, (0, i64::MIN + 1)), (0, i64::MIN));
}

#[test]
fn move_in_along_one_axis_keeps_the_other_at_its_limit() {
    assert_eq!(move_in(&Direction::Up, (i64::MAX, 0)), (i64::MAX, 1));
    assert_eq!(move_in(&Direction::Right, (0, i64::MIN)), (1, i64::MIN));
}

#[test]
fn is_outside_on_the_corners() {
    let board = create_local_board(1, 10, 5);
    assert!(!is_outside(&board, (0, 0)));
    assert!(!is_outside(&board, (9, 0)));
    assert!(!is_outside(&board, (0, 4)));
    assert!(!is_outside(&board, (9, 4)));
}

#[test]
fn is_outside_just_past_each_edge() {
    let board = create_local_board(1, 10, 5);
    assert!(is_outside(&board, (-1, 0)));
    assert!(is_outside(&board, (10, 0)));
    assert!(is_outside(&board, (0, -1)));
    assert!(is_outside(&board, (0, 5)));
}

#[test]
fn is_outside_tells_width_from_height() {
    let board = create_local_board(1, 10, 5);
    assert!(!is_outside(&board, (7, 2)));
    assert!(is_outside(&board, (2, 7)));
}

#[test]
fn is_outside_far_away() {
    let board = create_local_board(1, 1, 1);
    assert!(!is_outside(&board, (0, 0)));
    assert!(is_outside(&board, (i64::MAX, i64::MAX)));
    assert!(is_outside(&board, (i64::MIN, i64::MIN)));
}

#[test]
fn is_hit_at_the_boundary() {
    let sender = tank(1, (0, 0), 3, 5);
    // 3 * 3 + 4 * 4 = 25 = 5 * 5
    assert!(is_hit(&sender, &tank(2, (3, 4), 3, 0)));
    assert!(is_hit(&sender, &tank(2, (5, 0), 3, 0)));
    assert!(is_hit(&sender, &tank(2, (0, -5), 3, 0)));
}

#[test]
fn is_hit_one_past_the_boundary() {
    let sender = tank(1, (0, 0), 3, 5);
    // 1 * 1 + 5 * 5 = 26 = 5 * 5 + 1
    assert!(!is_hit(&sender, &tank(2, (1, 5), 3, 0)));
    assert!(!is_hit(&sender, &tank(2, (-5, -1), 3, 0)));
}

#[test]
fn is_hit_uses_the_senders_range() {
    let near = tank(1, (0, 0), 3, 1);
    let far = tank(2, (0, 3), 3, 3);
    assert!(!is_hit(&near, &far));
    assert!(is_hit(&far, &near));
}

#[test]
fn is_hit_with_range_zero() {
    let sender = tank(1, (4, 4), 3, 0);
    assert!(is_hit(&sender, &tank(2, (4, 4), 3, 0)));
    assert!(!is_hit(&sender, &tank(2, (4, 5), 3, 0)));
}

#[test]
fn is_hit_is_symmetric_in_the_positions() {
    let a = tank(1, (-2, 7), 3, 10);
    let b = tank(2, (4, -1), 3, 10);
    // 6 * 6 + 8 * 8 = 100 = 10 * 10
    assert!(is_hit(&a, &b));
    assert!(is_hit(&b, &a));
}

#[test]
fn is_hit_across_the_whole_plane() {
    let corner = tank(1, (i64::MIN, i64::MIN), 3, u64::MAX);
    let opposite = tank(2, (i64::MAX, i64::MAX), 3, 0);
    // Both axes are u64::MAX apart: twice the square of the range.
    assert!(!is_hit(&corner, &opposite));
    let along = tank(3, (i64::MAX, i64::MIN), 3, 0);
    // One axis is u64::MAX apart, the other not at all: the boundary.
    assert!(is_hit(&corner, &along));
    let shorter = tank(4, (i64::MIN, i64::MIN), 3, u64::MAX - 1);
    assert!(!is_hit(&shorter, &along));
}

#[test]
fn is_hit_with_large_range_and_small_distance() {
    let sender = tank(1, (0, 0), 3, u64::MAX);
    assert!(is_hit(&sender, &tank(2, (1, 1), 3, 0)));
}

#[test]
fn is_alive_needs_a_hit_point() {
    assert!(is_alive(&tank(1, (0, 0), 1, 0)));
    assert!(is_alive(&tank(1, (0, 0), i32::MAX, 0)));
    assert!(!is_alive(&tank(1, (0, 0), 0, 0)));
    assert!(!is_alive(&tank(1, (0, 0), -1, 0)));
    assert!(!is_alive(&tank(1, (0, 0), i32::MIN, 0)));
}

#[test]
fn as_client_player_projects_four_fields() {
    let player = Player {
        token: 77,
        nickname: String::from("seven"),
        contact: String::from("seven@localhost"),
        position: (-3, 12),
        action_points: 9,
        hit_points: 2,
        range: 4,
    };
    let public = as_client_player(&player);
    assert_eq!(
        public,
        ClientPlayer {
            token: 77,
            position: (-3, 12),
            contact: String::from("seven@localhost"),
            alive: true,
        }
    );
}

#[test]
fn as_client_player_of_a_dead_player() {
    let public = as_client_player(&tank(5, (1, 1), 0, 2));
    assert_eq!(public.token, 5);
    assert_eq!(public.position, (1, 1));
    assert_eq!(public.contact, "tank5@localhost");
    assert!(!public.alive);
}

#[test]
fn extend_with_players_keeps_what_the_list_held() {
    let mut board = create_local_board(1, 10, 10);
    update_player(&mut board, tank(1, (0, 0), 3, 2));
    update_player(&mut board, tank(2, (5, 5), 0, 2));
    let first = as_client_player(&tank(9, (9, 9), 1, 1));
    let mut list = vec![first.clone()];
    extend_with_players(&mut list, &board);
    assert_eq!(list.len(), 3);
    assert_eq!(list[0], first);
    let mut tokens = vec![list[1].token, list[2].token];
    tokens.sort();
    assert_eq!(tokens, vec![1, 2]);
    for public in &list[1..] {
        assert_eq!(public, &as_client_player(&board.players[&public.token]));
    }
}

#[test]
fn extend_with_players_of_an_empty_board() {
    let board = create_local_board(1, 10, 10);
    let mut list: Vec<ClientPlayer> = Vec::new();
    extend_with_players(&mut list, &board);
    assert!(list.is_empty());
}

#[test]
fn client_player_clone_is_equal() {
    let public = as_client_player(&tank(5, (1, 1), 3, 2));
    assert_eq!(public.clone(), public);
}
