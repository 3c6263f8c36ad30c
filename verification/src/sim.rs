//! The simulation step: one key event (or none) plus the previous state
//! gives the next state. Paddle movement, ball motion, wall and paddle
//! bounces, and scoring are applied in a fixed order, stated by
//! [`tick_model`] and proved of [`tick`].

use vstd::prelude::*;
use crate::game::BallModel;
use crate::game::GameModel;
use crate::game::GameState;
use crate::game::PaddleModel;
use crate::game::ball_wf;
use crate::game::down_y;
use crate::game::paddle_wf;
use crate::game::reset_ball;
use crate::game::up_y;
use crate::game::wf_model;
use crate::game::FIELD_HEIGHT;
use crate::game::FIELD_WIDTH;
use crate::game::PADDLE_MAX_Y;

verus! {

/// A keyboard event, as the simulation sees it. `Other` stands for any
/// key the game does not react to.
#[derive(Clone, Copy, Debug, PartialEq, Eq, Structural)]
pub enum Key {
    Quit,
    RightUp,
    RightDown,
    LeftUp,
    LeftDown,
    Other,
}

/// The two states of the main loop: it keeps running until the quit key
/// arrives, and then stays stopped.
#[derive(Clone, Copy, Debug, PartialEq, Eq, Structural)]
pub enum LoopState {
    Running,
    Stopped,
}

/// The state after the input phase of a tick: one paddle moved one
/// clamped step, or nothing at all. The quit key moves no paddle.
pub open spec fn input_step(s: GameModel, input: Option<Key>) -> GameModel {
    match input {
        Some(Key::RightUp) => GameModel {
            right: PaddleModel { y: up_y(s.right.y), ..s.right },
            ..s
        },
        Some(Key::RightDown) => GameModel {
            right: PaddleModel { y: down_y(s.right.y), ..s.right },
            ..s
        },
        Some(Key::LeftUp) => GameModel { left: PaddleModel { y: up_y(s.left.y), ..s.left }, ..s },
        Some(Key::LeftDown) => GameModel {
            left: PaddleModel { y: down_y(s.left.y), ..s.left },
            ..s
        },
        _ => s,
    }
}

/// The ball advanced one cell on each axis.
pub open spec fn advanced(b: BallModel) -> BallModel {
    BallModel { x: b.x + b.dx, y: b.y + b.dy, ..b }
}

/// True when the ball sits on the top row or on the bottom bounce row.
pub open spec fn at_wall(b: BallModel) -> bool {
    b.y == 0 || b.y == FIELD_HEIGHT - 1 - b.height
}

/// The ball after the wall check: vertical direction flipped exactly on
/// the two bounce rows.
pub open spec fn wall_bounced(b: BallModel) -> BallModel {
    if at_wall(b) {
        BallModel { dy: -b.dy, ..b }
    } else {
        b
    }
}

/// The ball's bounding box touches the left paddle's inner edge within
/// the paddle's vertical extent.
pub open spec fn hits_left(b: BallModel, p: PaddleModel) -> bool {
    b.x == p.x + p.width && p.y <= b.y <= p.y + p.height - b.height
}

/// The ball's bounding box touches the right paddle's edge within the
/// paddle's vertical extent.
pub open spec fn hits_right(b: BallModel, p: PaddleModel) -> bool {
    b.x + b.width == p.x && p.y <= b.y <= p.y + p.height - b.height
}

/// The ball after the paddle check: horizontal direction flipped exactly
/// when one of the paddles is touched.
pub open spec fn paddle_bounced(b: BallModel, l: PaddleModel, r: PaddleModel) -> BallModel {
    if hits_left(b, l) || hits_right(b, r) {
        BallModel { dx: -b.dx, ..b }
    } else {
        b
    }
}

/// The ball crossed the left wall, so the right player scores.
pub open spec fn scores_right(b: BallModel) -> bool {
    b.x == 0
}

/// The ball reached the right wall, so the left player scores.
pub open spec fn scores_left(b: BallModel) -> bool {
    b.x >= FIELD_WIDTH - 1 - b.width
}

/// The ball after the motion phases of a tick: advance, wall check,
/// paddle check, in that order, before scoring is judged.
pub open spec fn moved_ball(s: GameModel) -> BallModel {
    paddle_bounced(wall_bounced(advanced(s.ball)), s.left, s.right)
}

/// One full tick: the input phase, then ball motion, then scoring. A ball
/// on a scoring column awards one point to the far side and is put back
/// at the center for the next serve.
pub open spec fn tick_model(s: GameModel, input: Option<Key>) -> GameModel {
    let s1 = input_step(s, input);
    let b = moved_ball(s1);
    if scores_right(b) {
        GameModel { right_score: s1.right_score + 1, ball: reset_ball(b), ..s1 }
    } else if scores_left(b) {
        GameModel { left_score: s1.left_score + 1, ball: reset_ball(b), ..s1 }
    } else {
        GameModel { ball: b, ..s1 }
    }
}

/// Apply the input phase of a tick to the real state.
pub fn apply_input(state: &mut GameState, input: Option<Key>)
    ensures
        final(state)@ == input_step(old(state)@, input),
{
    match input {
        Some(Key::RightUp) => state.right_paddle.move_up(),
        Some(Key::RightDown) => state.right_paddle.move_down(),
        Some(Key::LeftUp) => state.left_paddle.move_up(),
        Some(Key::LeftDown) => state.left_paddle.move_down(),
        _ => {},
    }
}

/// A tick preserves well-formedness: the paddles stay clamped and the
/// ball stays in play, headed away from any bounce row it rests on.
pub proof fn lemma_tick_preserves_wf(s: GameModel, input: Option<Key>)
    requires
        wf_model(s),
    ensures
        wf_model(tick_model(s, input)),
{
}

/// One full tick on the real state.
pub fn tick(state: &mut GameState, input: Option<Key>)
    requires
        old(state).wf(),
        old(state).left_score < u32::MAX,
        old(state).right_score < u32::MAX,
    ensures
        final(state)@ == tick_model(old(state)@, input),
        final(state).wf(),
{
    let ghost s0 = state@;
    apply_input(state, input);
    let ghost s1 = input_step(s0, input);
    assert(state@ == s1);
    assert(ball_wf(s1.ball) && paddle_wf(s1.left, 4) && paddle_wf(s1.right, 75));

    // Advance the ball one cell on each axis.
    if state.ball.dx == 1 {
        state.ball.x = state.ball.x + 1;
    } else {
        state.ball.x = state.ball.x - 1;
    }
    if state.ball.dy == 1 {
        state.ball.y = state.ball.y + 1;
    } else {
        state.ball.y = state.ball.y - 1;
    }
    assert(state@.ball == advanced(s1.ball));

    // Bounce off the top row or the bottom bounce row.
    if state.ball.y == 0 || state.ball.y == FIELD_HEIGHT - 1 - state.ball.height {
        state.ball.dy = -state.ball.dy;
    }
    assert(state@.ball == wall_bounced(advanced(s1.ball)));

    // Bounce off a paddle whose vertical extent the ball touches.
    let hit_left = state.ball.x == state.left_paddle.x + state.left_paddle.width
        && state.ball.y >= state.left_paddle.y
        && state.ball.y <= state.left_paddle.y + state.left_paddle.height - state.ball.height;
    let hit_right = state.ball.x + state.ball.width == state.right_paddle.x
        && state.ball.y >= state.right_paddle.y
        && state.ball.y <= state.right_paddle.y + state.right_paddle.height - state.ball.height;
    if hit_left || hit_right {
        state.ball.dx = -state.ball.dx;
    }
    assert(state@.ball == moved_ball(s1));

    // Judge scoring against the side walls, after the paddle check.
    if state.ball.x == 0 {
        state.right_score = state.right_score + 1;
        state.ball.reset_position();
    } else if state.ball.x >= FIELD_WIDTH - 1 - state.ball.width {
        state.left_score = state.left_score + 1;
        state.ball.reset_position();
    }
    assert(state@ == tick_model(s0, input));
    proof {
        lemma_tick_preserves_wf(s0, input);
    }
}

/// How the score counters may change across one tick: neither decreases,
/// at most one of them grows, and then by exactly one point.
pub open spec fn scores_step_ok(pre: GameModel, post: GameModel) -> bool {
    &&& (post.left_score == pre.left_score || post.left_score == pre.left_score + 1)
    &&& (post.right_score == pre.right_score || post.right_score == pre.right_score + 1)
    &&& (post.left_score == pre.left_score || post.right_score == pre.right_score)
}

/// On every tick the score counters are non-decreasing, and at most one
/// of them is incremented, by exactly one.
pub proof fn lemma_tick_scores(s: GameModel, input: Option<Key>)
    ensures
        scores_step_ok(s, tick_model(s, input)),
{
}

/// The state after any number of ticks, fed one input each.
pub open spec fn run_ticks(s: GameModel, inputs: Seq<Option<Key>>) -> GameModel
    decreases inputs.len(),
{
    if inputs.len() == 0 {
        s
    } else {
        run_ticks(tick_model(s, inputs[0]), inputs.subrange(1, inputs.len() as int))
    }
}

/// Well-formedness survives any run of ticks.
pub proof fn lemma_run_ticks_wf(s: GameModel, inputs: Seq<Option<Key>>)
    requires
        wf_model(s),
    ensures
        wf_model(run_ticks(s, inputs)),
    decreases inputs.len(),
{
    if inputs.len() > 0 {
        lemma_tick_preserves_wf(s, inputs[0]);
        lemma_run_ticks_wf(tick_model(s, inputs[0]), inputs.subrange(1, inputs.len() as int));
    }
}

/// Over any run of ticks both score counters are monotonically
/// non-decreasing.
pub proof fn lemma_run_scores_monotone(s: GameModel, inputs: Seq<Option<Key>>)
    ensures
        run_ticks(s, inputs).left_score >= s.left_score,
        run_ticks(s, inputs).right_score >= s.right_score,
    decreases inputs.len(),
{
    if inputs.len() > 0 {
        lemma_tick_scores(s, inputs[0]);
        lemma_run_scores_monotone(tick_model(s, inputs[0]), inputs.subrange(1, inputs.len() as int));
    }
}

/// The vertical direction is negated exactly when the ball sits on the
/// top row or on the bottom bounce row at the moment the wall check runs,
/// and the wall check changes nothing else.
pub proof fn lemma_wall_bounce_iff(b: BallModel)
    requires
        b.dy == 1 || b.dy == -1,
    ensures
        at_wall(b) <==> wall_bounced(b).dy == -b.dy,
        !at_wall(b) ==> wall_bounced(b) == b,
        wall_bounced(b) == (BallModel { dy: wall_bounced(b).dy, ..b }),
{
}

/// The horizontal direction is negated exactly when the ball's bounding
/// box touches a paddle's edge within that paddle's vertical extent, and
/// the paddle check changes nothing else.
pub proof fn lemma_paddle_bounce_iff(b: BallModel, l: PaddleModel, r: PaddleModel)
    requires
        b.dx == 1 || b.dx == -1,
    ensures
        (hits_left(b, l) || hits_right(b, r)) <==> paddle_bounced(b, l, r).dx == -b.dx,
        !(hits_left(b, l) || hits_right(b, r)) ==> paddle_bounced(b, l, r) == b,
        paddle_bounced(b, l, r) == (BallModel { dx: paddle_bounced(b, l, r).dx, ..b }),
{
}

/// Whenever a tick awards a point, the ball leaves that tick exactly at
/// the field center and moving downward.
pub proof fn lemma_score_resets_ball(s: GameModel, input: Option<Key>)
    ensures
        tick_model(s, input).left_score + tick_model(s, input).right_score > s.left_score
            + s.right_score ==> {
            &&& tick_model(s, input).ball.x == 40
            &&& tick_model(s, input).ball.y == 12
            &&& tick_model(s, input).ball.dy == 1
        },
{
}

/// However many ticks run, with whatever keys, both paddles' rows stay
/// clamped to the fixed range.
pub proof fn lemma_paddles_stay_clamped(s: GameModel, inputs: Seq<Option<Key>>)
    requires
        wf_model(s),
    ensures
        0 <= run_ticks(s, inputs).left.y <= PADDLE_MAX_Y,
        0 <= run_ticks(s, inputs).right.y <= PADDLE_MAX_Y,
{
    lemma_run_ticks_wf(s, inputs);
}

/// One iteration of the main loop's decision: the quit key stops the loop
/// and leaves the state untouched; anything else runs a full tick and
/// keeps the loop running.
pub fn step(state: &mut GameState, input: Option<Key>) -> (next: LoopState)
    requires
        old(state).wf(),
        old(state).left_score < u32::MAX,
        old(state).right_score < u32::MAX,
    ensures
        input == Some(Key::Quit) ==> next == LoopState::Stopped && *final(state) == *old(state),
        input != Some(Key::Quit) ==> next == LoopState::Running && final(state)@ == tick_model(
            old(state)@,
            input,
        ) && final(state).wf(),
{
    match input {
        Some(Key::Quit) => LoopState::Stopped,
        _ => {
            tick(state, input);
            LoopState::Running
        },
    }
}

} // verus!
