use pong::game::{BALL_START_X, BALL_START_Y, PADDLE_MAX_Y};
use pong::sim::{apply_input, step, tick};
use pong::{Ball, GameState, Key, LoopState};

fn fresh() -> GameState {
    GameState::new()
}

#[test]
fn initial_state() {
    let s = fresh();
    assert_eq!(s.left_paddle.x, 4);
    assert_eq!(s.left_paddle.y, 10);
    assert_eq!(s.left_paddle.height, 5);
    assert_eq!(s.left_paddle.width, 1);
    assert_eq!(s.right_paddle.x, 75);
    assert_eq!(s.right_paddle.y, 10);
    assert_eq!(s.ball.x, 40);
    assert_eq!(s.ball.y, 12);
    assert_eq!(s.ball.dx, 1);
    assert_eq!(s.ball.dy, 1);
    assert_eq!(s.ball.width, 2);
    assert_eq!(s.ball.height, 1);
    assert_eq!(s.left_score, 0);
    assert_eq!(s.right_score, 0);
    assert!(s.check_wf());
}

#[test]
fn reset_position_recenters_and_flips() {
    let mut b = Ball { x: 3, y: 7, dx: -1, dy: -1, height: 1, width: 2 };
    b.reset_position();
    assert_eq!((b.x, b.y), (BALL_START_X, BALL_START_Y));
    assert_eq!(b.dx, 1);
    assert_eq!(b.dy, 1);
    let mut c = Ball { x: 70, y: 2, dx: 1, dy: -1, height: 1, width: 2 };
    c.reset_position();
    assert_eq!((c.x, c.y), (40, 12));
    assert_eq!(c.dx, -1);
    assert_eq!(c.dy, 1);
}

#[test]
fn paddle_clamped_at_top() {
    let mut s = fresh();
    for _ in 0..30 {
        apply_input(&mut s, Some(Key::LeftUp));
    }
    assert_eq!(s.left_paddle.y, 0);
    for _ in 0..3 {
        apply_input(&mut s, Some(Key::LeftUp));
    }
    assert_eq!(s.left_paddle.y, 0);
}

#[test]
fn paddle_clamped_at_bottom() {
    let mut s = fresh();
    for _ in 0..30 {
        apply_input(&mut s, Some(Key::RightDown));
    }
    assert_eq!(s.right_paddle.y, PADDLE_MAX_Y);
    apply_input(&mut s, Some(Key::RightDown));
    assert_eq!(s.right_paddle.y, PADDLE_MAX_Y);
}

#[test]
fn movement_keys_move_one_row() {
    let mut s = fresh();
    apply_input(&mut s, Some(Key::LeftUp));
    assert_eq!(s.left_paddle.y, 9);
    apply_input(&mut s, Some(Key::LeftDown));
    assert_eq!(s.left_paddle.y, 10);
    apply_input(&mut s, Some(Key::RightUp));
    assert_eq!(s.right_paddle.y, 9);
    apply_input(&mut s, Some(Key::RightDown));
    assert_eq!(s.right_paddle.y, 10);
    apply_input(&mut s, Some(Key::Other));
    apply_input(&mut s, None);
    assert_eq!(s.left_paddle.y, 10);
    assert_eq!(s.right_paddle.y, 10);
}

#[test]
fn tick_moves_ball_one_cell_per_axis() {
    let mut s = fresh();
    tick(&mut s, None);
    assert_eq!((s.ball.x, s.ball.y), (41, 13));
    assert_eq!((s.ball.dx, s.ball.dy), (1, 1));
    assert_eq!((s.left_score, s.right_score), (0, 0));
}

#[test]
fn ball_bounces_off_top_row() {
    let mut s = fresh();
    s.ball = Ball { x: 10, y: 1, dx: 1, dy: -1, height: 1, width: 2 };
    assert!(s.check_wf());
    tick(&mut s, None);
    assert_eq!((s.ball.x, s.ball.y), (11, 0));
    assert_eq!(s.ball.dy, 1);
}

#[test]
fn ball_bounces_off_bottom_row() {
    let mut s = fresh();
    s.ball = Ball { x: 10, y: 21, dx: 1, dy: 1, height: 1, width: 2 };
    tick(&mut s, None);
    assert_eq!((s.ball.x, s.ball.y), (11, 22));
    assert_eq!(s.ball.dy, -1);
}

#[test]
fn right_scores_when_ball_crosses_left_wall() {
    // Ball one cell from the left wall, no paddle on its row.
    let mut s = fresh();
    s.ball = Ball { x: 1, y: 12, dx: -1, dy: 1, height: 1, width: 2 };
    s.left_paddle.y = 0;
    tick(&mut s, None);
    assert_eq!(s.right_score, 1);
    assert_eq!(s.left_score, 0);
    assert_eq!((s.ball.x, s.ball.y), (40, 12));
    assert_eq!(s.ball.dy, 1);
    assert_eq!(s.ball.dx, 1, "serve direction flips relative to the pre-reset value");
}

#[test]
fn left_scores_when_ball_reaches_right_wall() {
    let mut s = fresh();
    s.ball = Ball { x: 76, y: 12, dx: 1, dy: 1, height: 1, width: 2 };
    s.right_paddle.y = 0;
    tick(&mut s, None);
    assert_eq!(s.left_score, 1);
    assert_eq!(s.right_score, 0);
    assert_eq!((s.ball.x, s.ball.y), (40, 12));
    assert_eq!((s.ball.dx, s.ball.dy), (-1, 1));
}

#[test]
fn right_paddle_saves_the_ball() {
    // The ball's box reaches the right paddle's edge within its extent:
    // the horizontal direction flips and no point is scored this tick.
    let mut s = fresh();
    s.right_paddle.y = 10;
    s.ball = Ball { x: 72, y: 11, dx: 1, dy: 1, height: 1, width: 2 };
    tick(&mut s, None);
    assert_eq!((s.ball.x, s.ball.y), (73, 12));
    assert_eq!(s.ball.dx, -1);
    assert_eq!((s.left_score, s.right_score), (0, 0));
}

#[test]
fn left_paddle_saves_the_ball() {
    let mut s = fresh();
    s.left_paddle.y = 10;
    s.ball = Ball { x: 6, y: 11, dx: -1, dy: 1, height: 1, width: 2 };
    tick(&mut s, None);
    assert_eq!((s.ball.x, s.ball.y), (5, 12));
    assert_eq!(s.ball.dx, 1);
    assert_eq!((s.left_score, s.right_score), (0, 0));
}

#[test]
fn ball_misses_paddle_outside_extent() {
    // Same column as a save, but the paddle sits elsewhere: no bounce.
    let mut s = fresh();
    s.right_paddle.y = 0;
    s.ball = Ball { x: 72, y: 11, dx: 1, dy: 1, height: 1, width: 2 };
    tick(&mut s, None);
    assert_eq!((s.ball.x, s.ball.y), (73, 12));
    assert_eq!(s.ball.dx, 1);
}

#[test]
fn quit_stops_loop_and_leaves_state_untouched() {
    let mut s = fresh();
    let before = s;
    let next = step(&mut s, Some(Key::Quit));
    assert_eq!(next, LoopState::Stopped);
    assert_eq!(s, before);
}

#[test]
fn other_keys_keep_the_loop_running() {
    let mut s = fresh();
    let next = step(&mut s, Some(Key::Other));
    assert_eq!(next, LoopState::Running);
    assert_eq!((s.ball.x, s.ball.y), (41, 13));
    let next = step(&mut s, None);
    assert_eq!(next, LoopState::Running);
    assert_eq!((s.ball.x, s.ball.y), (42, 14));
}

#[test]
fn scores_accumulate_one_point_per_event() {
    let mut s = fresh();
    s.left_paddle.y = 0;
    s.ball = Ball { x: 1, y: 12, dx: -1, dy: 1, height: 1, width: 2 };
    tick(&mut s, None);
    assert_eq!((s.left_score, s.right_score), (0, 1));
    s.ball = Ball { x: 1, y: 12, dx: -1, dy: 1, height: 1, width: 2 };
    tick(&mut s, None);
    assert_eq!((s.left_score, s.right_score), (0, 2));
}

#[test]
fn check_wf_rejects_broken_states() {
    let mut s = fresh();
    assert!(s.check_wf());
    s.ball.width = 3;
    assert!(!s.check_wf());
    let mut t = fresh();
    t.ball.x = 0;
    assert!(!t.check_wf());
    let mut u = fresh();
    u.left_paddle.y = 21;
    assert!(!u.check_wf());
}
