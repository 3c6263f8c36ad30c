//! Game state: the two paddles, the ball, and the score counters,
//! together with the integer models that the contracts are stated over.

use vstd::prelude::*;

verus! {

/// Width of the play field in character cells.
pub const FIELD_WIDTH: u16 = 80;

/// Height of the play field in character cells.
pub const FIELD_HEIGHT: u16 = 24;

/// Largest row a paddle's top edge may be moved down to. This bound is a
/// fixed constant of the rules, independent of the paddle height, so a
/// paddle may protrude one cell past the bottom of the visible field.
pub const PADDLE_MAX_Y: u16 = 20;

/// Column the ball is placed on at the start and after a point is scored.
pub const BALL_START_X: u16 = 40;

/// Row the ball is placed on at the start and after a point is scored.
pub const BALL_START_Y: u16 = 12;

/// One vertical bar controlled by a player.
#[derive(Clone, Copy, Debug, PartialEq, Eq, Structural)]
pub struct Paddle {
    pub x: u16,
    pub y: u16,
    pub height: u16,
    pub width: u16,
}

/// The moving puck. Velocity is one cell per axis per tick; `dx` and `dy`
/// only ever hold `1` or `-1`.
#[derive(Clone, Copy, Debug, PartialEq, Eq, Structural)]
pub struct Ball {
    pub x: u16,
    pub y: u16,
    pub dx: i16,
    pub dy: i16,
    pub height: u16,
    pub width: u16,
}

/// The whole game: both paddles, the ball, and the two score counters.
#[derive(Clone, Copy, Debug, PartialEq, Eq, Structural)]
pub struct GameState {
    pub left_paddle: Paddle,
    pub right_paddle: Paddle,
    pub ball: Ball,
    pub left_score: u32,
    pub right_score: u32,
}

/// Mathematical image of a paddle, over unbounded integers.
pub struct PaddleModel {
    pub x: int,
    pub y: int,
    pub height: int,
    pub width: int,
}

/// Mathematical image of the ball, over unbounded integers.
pub struct BallModel {
    pub x: int,
    pub y: int,
    pub dx: int,
    pub dy: int,
    pub height: int,
    pub width: int,
}

/// Mathematical image of the whole game state.
pub struct GameModel {
    pub left: PaddleModel,
    pub right: PaddleModel,
    pub ball: BallModel,
    pub left_score: int,
    pub right_score: int,
}

impl View for Paddle {
    type V = PaddleModel;

    open spec fn view(&self) -> PaddleModel {
        PaddleModel {
            x: self.x as int,
            y: self.y as int,
            height: self.height as int,
            width: self.width as int,
        }
    }
}

impl View for Ball {
    type V = BallModel;

    open spec fn view(&self) -> BallModel {
        BallModel {
            x: self.x as int,
            y: self.y as int,
            dx: self.dx as int,
            dy: self.dy as int,
            height: self.height as int,
            width: self.width as int,
        }
    }
}

impl View for GameState {
    type V = GameModel;

    open spec fn view(&self) -> GameModel {
        GameModel {
            left: self.left_paddle@,
            right: self.right_paddle@,
            ball: self.ball@,
            left_score: self.left_score as int,
            right_score: self.right_score as int,
        }
    }
}

/// A paddle is well formed when it keeps the fixed column and size it was
/// created with and its top edge stays inside the movement bounds.
pub open spec fn paddle_wf(p: PaddleModel, column: int) -> bool {
    &&& p.x == column
    &&& p.height == 5
    &&& p.width == 1
    &&& 0 <= p.y <= PADDLE_MAX_Y
}

/// The ball is well formed when it has its fixed size, unit speed on both
/// axes, sits strictly between the side walls, and — when resting on the
/// top or bottom bounce row — is headed back into the field, which is
/// exactly the situation every tick leaves it in.
pub open spec fn ball_wf(b: BallModel) -> bool {
    &&& b.height == 1
    &&& b.width == 2
    &&& (b.dx == 1 || b.dx == -1)
    &&& (b.dy == 1 || b.dy == -1)
    &&& 1 <= b.x <= FIELD_WIDTH - 2 - b.width
    &&& 0 <= b.y <= FIELD_HEIGHT - 1 - b.height
    &&& (b.y == 0 ==> b.dy == 1)
    &&& (b.y == FIELD_HEIGHT - 1 - b.height ==> b.dy == -1)
}

/// The whole state is well formed: the left paddle sits on column 4, the
/// right paddle on column 75, and the ball is in play.
pub open spec fn wf_model(s: GameModel) -> bool {
    &&& paddle_wf(s.left, 4)
    &&& paddle_wf(s.right, 75)
    &&& ball_wf(s.ball)
}

/// The state every game starts from: paddles at row 10 on their fixed
/// columns, ball at the field center moving down-right, no points scored.
pub open spec fn init_model() -> GameModel {
    GameModel {
        left: PaddleModel { x: 4, y: 10, height: 5, width: 1 },
        right: PaddleModel { x: 75, y: 10, height: 5, width: 1 },
        ball: BallModel { x: 40, y: 12, dx: 1, dy: 1, height: 1, width: 2 },
        left_score: 0,
        right_score: 0,
    }
}

/// The ball after a point: back at the field center, horizontal direction
/// reversed relative to the last serve, moving down.
pub open spec fn reset_ball(b: BallModel) -> BallModel {
    BallModel { x: BALL_START_X as int, y: BALL_START_Y as int, dx: -b.dx, dy: 1, ..b }
}

/// A paddle row moved one step up, stopped at the top of the field.
pub open spec fn up_y(y: int) -> int {
    if y > 0 {
        y - 1
    } else {
        y
    }
}

/// A paddle row moved one step down, stopped at the fixed lower bound.
pub open spec fn down_y(y: int) -> int {
    if y < PADDLE_MAX_Y {
        y + 1
    } else {
        y
    }
}

impl Paddle {
    /// Move the paddle one cell up unless it already touches the top.
    pub fn move_up(&mut self)
        ensures
            final(self)@ == (PaddleModel { y: up_y(old(self)@.y), ..old(self)@ }),
    {
        if self.y > 0 {
            self.y = self.y - 1;
        }
    }

    /// Move the paddle one cell down unless it already sits on the bound.
    pub fn move_down(&mut self)
        ensures
            final(self)@ == (PaddleModel { y: down_y(old(self)@.y), ..old(self)@ }),
    {
        if self.y < PADDLE_MAX_Y {
            self.y = self.y + 1;
        }
    }
}

impl Ball {
    /// Put the ball back at the field center for the next serve: the
    /// horizontal direction flips, the vertical direction is reset to
    /// downward, and the size is kept.
    pub fn reset_position(&mut self)
        requires
            old(self).dx == 1 || old(self).dx == -1,
        ensures
            final(self)@ == reset_ball(old(self)@),
    {
        self.x = BALL_START_X;
        self.y = BALL_START_Y;
        self.dx = -self.dx;
        self.dy = 1;
    }
}

impl GameState {
    /// Well-formedness of the aggregate, stated over its integer model.
    pub open spec fn wf(&self) -> bool {
        wf_model(self@)
    }

    /// A fresh game in the starting position.
    pub fn new() -> (s: GameState)
        ensures
            s@ == init_model(),
            s.wf(),
    {
        GameState {
            left_paddle: Paddle { x: 4, y: 10, height: 5, width: 1 },
            right_paddle: Paddle { x: 75, y: 10, height: 5, width: 1 },
            ball: Ball { x: 40, y: 12, dx: 1, dy: 1, height: 1, width: 2 },
            left_score: 0,
            right_score: 0,
        }
    }

    /// Runtime check of the well-formedness invariant, for callers outside
    /// the verified world that must establish it before a tick.
    pub fn check_wf(&self) -> (b: bool)
        ensures
            b == self.wf(),
    {
        let lp = &self.left_paddle;
        let rp = &self.right_paddle;
        let ball = &self.ball;
        lp.x == 4 && lp.height == 5 && lp.width == 1 && lp.y <= PADDLE_MAX_Y
            && rp.x == 75 && rp.height == 5 && rp.width == 1 && rp.y <= PADDLE_MAX_Y
            && ball.height == 1 && ball.width == 2
            && (ball.dx == 1 || ball.dx == -1)
            && (ball.dy == 1 || ball.dy == -1)
            && 1 <= ball.x && ball.x <= FIELD_WIDTH - 2 - ball.width
            && ball.y <= FIELD_HEIGHT - 1 - ball.height
            && (ball.y != 0 || ball.dy == 1)
            && (ball.y != FIELD_HEIGHT - 1 - ball.height || ball.dy == -1)
    }
}

} // verus!
