//! The pong simulation itself: state, constants, the mathematical step
//! function `game_step`, and the executable `new` / `update` operations,
//! each proved to compute exactly what the step function says.
//!
//! Units are chosen so that every frame is exact integer arithmetic:
//! - lengths and positions are in *subunits*, [`SUBUNITS`] to a screen unit
//!   (screen coordinates: origin top-left, y growing downward);
//! - velocities are in screen units per second;
//! - frame times `dt` are in milliseconds.
//!
//! A velocity multiplied by a frame time then lands directly in subunits
//! (`1 unit/s * 1 ms = 1 subunit`), so no rounding happens anywhere.

use vstd::prelude::*;

use crate::geom::Point2;
use crate::geom::Point2View;
use crate::geom::abs_int;
use crate::geom::abs_i64;
use crate::geom::boxes_overlap;
use crate::geom::boxes_overlap_i64;
use crate::geom::clamped;
use crate::geom::clamp_i64;

verus! {

/// Subunits per screen unit.
pub const SUBUNITS: i64 = 1000;

/// Paddle horizontal extent, in subunits.
pub const PADDLE_WIDTH: i64 = 20_000;

/// Paddle vertical extent, in subunits.
pub const PADDLE_HEIGHT: i64 = 100_000;

/// Half the paddle width, in subunits.
pub const PADDLE_WIDTH_HALF: i64 = 10_000;

/// Half the paddle height, in subunits.
pub const PADDLE_HEIGHT_HALF: i64 = 50_000;

/// Side of the square ball, in subunits.
pub const BALL_SIZE: i64 = 30_000;

/// Half the ball side, in subunits.
pub const BALL_SIZE_HALF: i64 = 15_000;

/// Paddle movement rate, in screen units per second.
pub const PLAYER_SPEED: i64 = 600;

/// Initial ball speed along each axis, in screen units per second.
pub const BALL_SPEED: i64 = 400;

/// Horizontal inset of each paddle from its screen edge, in subunits.
pub const PADDING: i64 = 40_000;

/// Largest frame time `update` accepts, in milliseconds.
pub const MAX_DT: i64 = 1_000_000_000;

/// Largest velocity magnitude per axis `update` accepts, in units per second.
pub const MAX_SPEED: i64 = 1_000_000;

/// Largest screen dimension `update` accepts, in subunits.
pub const MAX_DIM: i64 = 1_000_000_000_000;

/// Largest position magnitude per axis `update` accepts, in subunits.
pub const MAX_COORD: i64 = 1_000_000_000_000_000;

/// The four key states the simulation reads, polled once per frame.
#[derive(Clone, Copy, Debug, PartialEq, Eq, Structural)]
pub struct InputState {
    pub player_1_up: bool,
    pub player_1_down: bool,
    pub player_2_up: bool,
    pub player_2_down: bool,
}

/// The whole game state: scores, paddle centers, ball center and velocity.
pub struct PongGame {
    pub player_1_score: u16,
    pub player_2_score: u16,
    pub player_1_pos: Point2,
    pub player_2_pos: Point2,
    pub ball_pos: Point2,
    pub ball_vel: Point2,
}

/// The mathematical value of a [`PongGame`].
pub ghost struct GameView {
    pub player_1_score: int,
    pub player_2_score: int,
    pub player_1_pos: Point2View,
    pub player_2_pos: Point2View,
    pub ball_pos: Point2View,
    pub ball_vel: Point2View,
}

impl View for PongGame {
    type V = GameView;

    open spec fn view(&self) -> GameView {
        GameView {
            player_1_score: self.player_1_score as int,
            player_2_score: self.player_2_score as int,
            player_1_pos: self.player_1_pos@,
            player_2_pos: self.player_2_pos@,
            ball_pos: self.ball_pos@,
            ball_vel: self.ball_vel@,
        }
    }
}

/// Every coordinate small enough that one frame of arithmetic stays inside
/// `i64`.
pub open spec fn state_bounded(g: GameView) -> bool {
    &&& -(MAX_COORD as int) <= g.player_1_pos.x <= MAX_COORD as int
    &&& -(MAX_COORD as int) <= g.player_1_pos.y <= MAX_COORD as int
    &&& -(MAX_COORD as int) <= g.player_2_pos.x <= MAX_COORD as int
    &&& -(MAX_COORD as int) <= g.player_2_pos.y <= MAX_COORD as int
    &&& -(MAX_COORD as int) <= g.ball_pos.x <= MAX_COORD as int
    &&& -(MAX_COORD as int) <= g.ball_pos.y <= MAX_COORD as int
    &&& -(MAX_SPEED as int) <= g.ball_vel.x <= MAX_SPEED as int
    &&& -(MAX_SPEED as int) <= g.ball_vel.y <= MAX_SPEED as int
}

/// The screen center, in subunits.
pub open spec fn screen_center(w: int, h: int) -> Point2View {
    Point2View { x: w / 2, y: h / 2 }
}

/// The state a fresh game starts in: paddles inset and centered vertically,
/// ball at the screen center moving toward player 1 and downward, no points.
pub open spec fn initial_state(w: int, h: int) -> GameView {
    GameView {
        player_1_score: 0,
        player_2_score: 0,
        player_1_pos: Point2View {
            x: PADDLE_WIDTH_HALF as int + PADDING as int,
            y: h / 2,
        },
        player_2_pos: Point2View {
            x: w - PADDLE_WIDTH_HALF as int - PADDING as int,
            y: h / 2,
        },
        ball_pos: screen_center(w, h),
        ball_vel: Point2View { x: -(BALL_SPEED as int), y: BALL_SPEED as int },
    }
}

/// One frame of paddle motion: an "up" press moves and clamps, then a
/// "down" press moves and clamps — sequentially, as the game plays it, so
/// pressing both keys is not a no-op.
pub open spec fn paddle_step(y: int, up: bool, down: bool, dt: int, h: int) -> int {
    let lo = PADDLE_HEIGHT_HALF as int;
    let hi = h - PADDLE_HEIGHT_HALF as int;
    let after_up = if up {
        clamped(y - (PLAYER_SPEED as int) * dt, lo, hi)
    } else {
        y
    };
    if down {
        clamped(after_up + (PLAYER_SPEED as int) * dt, lo, hi)
    } else {
        after_up
    }
}

/// The ball translated by one frame of its velocity.
pub open spec fn ball_moved(g: GameView, dt: int) -> Point2View {
    Point2View { x: g.ball_pos.x + g.ball_vel.x * dt, y: g.ball_pos.y + g.ball_vel.y * dt }
}

/// Whether the moved ball has left the screen on the left, scoring for
/// player 2.
pub open spec fn exits_left(g: GameView, dt: int) -> bool {
    ball_moved(g, dt).x < 0
}

/// Whether the ball — after a possible left-exit reset — stands beyond the
/// right edge, scoring for player 1.
pub open spec fn exits_right(g: GameView, dt: int, w: int, h: int) -> bool {
    (if exits_left(g, dt) {
        screen_center(w, h).x
    } else {
        ball_moved(g, dt).x
    }) > w
}

/// The ball position once scoring is resolved: each exit puts it back at
/// the screen center.
pub open spec fn ball_after_scoring(g: GameView, dt: int, w: int, h: int) -> Point2View {
    let after_left = if exits_left(g, dt) {
        screen_center(w, h)
    } else {
        ball_moved(g, dt)
    };
    if after_left.x > w {
        screen_center(w, h)
    } else {
        after_left
    }
}

/// Whether the ball stands past the top wall after scoring is resolved.
pub open spec fn hits_top(g: GameView, dt: int, w: int, h: int) -> bool {
    ball_after_scoring(g, dt, w, h).y < BALL_SIZE_HALF as int
}

/// Whether the ball — after a possible top clamp — stands past the bottom
/// wall.
pub open spec fn hits_bottom(g: GameView, dt: int, w: int, h: int) -> bool {
    (if hits_top(g, dt, w, h) {
        BALL_SIZE_HALF as int
    } else {
        ball_after_scoring(g, dt, w, h).y
    }) > h - BALL_SIZE_HALF as int
}

/// The ball position once wall bounces are resolved: clamped to the top
/// bound, then to the bottom bound.
pub open spec fn ball_after_walls(g: GameView, dt: int, w: int, h: int) -> Point2View {
    let scored = ball_after_scoring(g, dt, w, h);
    let y1 = if scored.y < BALL_SIZE_HALF as int {
        BALL_SIZE_HALF as int
    } else {
        scored.y
    };
    let y2 = if y1 > h - BALL_SIZE_HALF as int {
        h - BALL_SIZE_HALF as int
    } else {
        y1
    };
    Point2View { x: scored.x, y: y2 }
}

/// The vertical velocity once wall bounces are resolved: a top hit reflects
/// it downward, a bottom hit reflects it upward.
pub open spec fn vel_y_after_walls(g: GameView, dt: int, w: int, h: int) -> int {
    let vy1 = if hits_top(g, dt, w, h) {
        abs_int(g.ball_vel.y)
    } else {
        g.ball_vel.y
    };
    if hits_bottom(g, dt, w, h) {
        -abs_int(vy1)
    } else {
        vy1
    }
}

/// Whether the settled ball box overlaps the given paddle box (the paddle
/// at its position after this frame's motion).
pub open spec fn ball_hits_paddle(
    g: GameView,
    dt: int,
    w: int,
    h: int,
    paddle_x: int,
    paddle_y: int,
) -> bool {
    let ball = ball_after_walls(g, dt, w, h);
    boxes_overlap(
        ball.x,
        ball.y,
        BALL_SIZE_HALF as int,
        BALL_SIZE_HALF as int,
        paddle_x,
        paddle_y,
        PADDLE_WIDTH_HALF as int,
        PADDLE_HEIGHT_HALF as int,
    )
}

/// Whether this frame ends with the ball overlapping paddle 1.
pub open spec fn hits_paddle_1(g: GameView, inp: InputState, dt: int, w: int, h: int) -> bool {
    ball_hits_paddle(
        g,
        dt,
        w,
        h,
        g.player_1_pos.x,
        paddle_step(g.player_1_pos.y, inp.player_1_up, inp.player_1_down, dt, h),
    )
}

/// Whether this frame ends with the ball overlapping paddle 2.
pub open spec fn hits_paddle_2(g: GameView, inp: InputState, dt: int, w: int, h: int) -> bool {
    ball_hits_paddle(
        g,
        dt,
        w,
        h,
        g.player_2_pos.x,
        paddle_step(g.player_2_pos.y, inp.player_2_up, inp.player_2_down, dt, h),
    )
}

/// The horizontal velocity once paddle bounces are resolved: paddle 1
/// reflects the ball rightward, then paddle 2 reflects it leftward.
pub open spec fn vel_x_after_paddles(
    g: GameView,
    inp: InputState,
    dt: int,
    w: int,
    h: int,
) -> int {
    let vx1 = if hits_paddle_1(g, inp, dt, w, h) {
        abs_int(g.ball_vel.x)
    } else {
        g.ball_vel.x
    };
    if hits_paddle_2(g, inp, dt, w, h) {
        -abs_int(vx1)
    } else {
        vx1
    }
}

/// One whole frame: paddle motion, ball translation, scoring resets, wall
/// bounces, paddle bounces — in the game's evaluation order.
pub open spec fn game_step(g: GameView, inp: InputState, dt: int, w: int, h: int) -> GameView {
    GameView {
        player_1_score: g.player_1_score + if exits_right(g, dt, w, h) {
            1int
        } else {
            0int
        },
        player_2_score: g.player_2_score + if exits_left(g, dt) {
            1int
        } else {
            0int
        },
        player_1_pos: Point2View {
            x: g.player_1_pos.x,
            y: paddle_step(g.player_1_pos.y, inp.player_1_up, inp.player_1_down, dt, h),
        },
        player_2_pos: Point2View {
            x: g.player_2_pos.x,
            y: paddle_step(g.player_2_pos.y, inp.player_2_up, inp.player_2_down, dt, h),
        },
        ball_pos: ball_after_walls(g, dt, w, h),
        ball_vel: Point2View {
            x: vel_x_after_paddles(g, inp, dt, w, h),
            y: vel_y_after_walls(g, dt, w, h),
        },
    }
}

impl PongGame {
    /// A fresh game for a screen of the given size (in subunits).
    pub fn new(screen_width: i64, screen_height: i64) -> (game: PongGame)
        requires
            0 < screen_width <= MAX_DIM,
            0 < screen_height <= MAX_DIM,
        ensures
            game@ == initial_state(screen_width as int, screen_height as int),
            state_bounded(game@),
    {
        let center_y = screen_height / 2;
        PongGame {
            player_1_score: 0,
            player_2_score: 0,
            player_1_pos: Point2 { x: PADDLE_WIDTH_HALF + PADDING, y: center_y },
            player_2_pos: Point2 {
                x: screen_width - PADDLE_WIDTH_HALF - PADDING,
                y: center_y,
            },
            ball_pos: Point2 { x: screen_width / 2, y: center_y },
            ball_vel: Point2 { x: -BALL_SPEED, y: BALL_SPEED },
        }
    }

    /// One frame of the simulation, exactly [`game_step`] of the old state.
    pub fn update(&mut self, input: InputState, dt: i64, screen_width: i64, screen_height: i64)
        requires
            state_bounded(old(self)@),
            old(self).player_1_score < u16::MAX,
            old(self).player_2_score < u16::MAX,
            0 <= dt <= MAX_DT,
            0 < screen_width <= MAX_DIM,
            0 < screen_height <= MAX_DIM,
        ensures
            final(self)@ == game_step(
                old(self)@,
                input,
                dt as int,
                screen_width as int,
                screen_height as int,
            ),
            state_bounded(final(self)@),
    {
        let paddle_lo = PADDLE_HEIGHT_HALF;
        let paddle_hi = screen_height - PADDLE_HEIGHT_HALF;
        let paddle_delta = PLAYER_SPEED * dt;

        if input.player_1_up {
            self.player_1_pos.y = clamp_i64(self.player_1_pos.y - paddle_delta, paddle_lo, paddle_hi);
        }
        if input.player_1_down {
            self.player_1_pos.y = clamp_i64(self.player_1_pos.y + paddle_delta, paddle_lo, paddle_hi);
        }
        if input.player_2_up {
            self.player_2_pos.y = clamp_i64(self.player_2_pos.y - paddle_delta, paddle_lo, paddle_hi);
        }
        if input.player_2_down {
            self.player_2_pos.y = clamp_i64(self.player_2_pos.y + paddle_delta, paddle_lo, paddle_hi);
        }

        proof {
            let vx: int = self.ball_vel.x as int;
            let vy: int = self.ball_vel.y as int;
            let d: int = dt as int;
            assert(-(MAX_COORD as int) <= vx * d <= MAX_COORD as int) by (nonlinear_arith)
                requires
                    -(MAX_SPEED as int) <= vx <= MAX_SPEED as int,
                    0 <= d <= MAX_DT as int,
            ;
            assert(-(MAX_COORD as int) <= vy * d <= MAX_COORD as int) by (nonlinear_arith)
                requires
                    -(MAX_SPEED as int) <= vy <= MAX_SPEED as int,
                    0 <= d <= MAX_DT as int,
            ;
        }
        self.ball_pos.x = self.ball_pos.x + self.ball_vel.x * dt;
        self.ball_pos.y = self.ball_pos.y + self.ball_vel.y * dt;

        let center_x = screen_width / 2;
        let center_y = screen_height / 2;
        if self.ball_pos.x < 0 {
            self.ball_pos.x = center_x;
            self.ball_pos.y = center_y;
            self.player_2_score = self.player_2_score + 1;
        }
        if self.ball_pos.x > screen_width {
            self.ball_pos.x = center_x;
            self.ball_pos.y = center_y;
            self.player_1_score = self.player_1_score + 1;
        }

        if self.ball_pos.y < BALL_SIZE_HALF {
            self.ball_pos.y = BALL_SIZE_HALF;
            self.ball_vel.y = abs_i64(self.ball_vel.y);
        }
        if self.ball_pos.y > screen_height - BALL_SIZE_HALF {
            self.ball_pos.y = screen_height - BALL_SIZE_HALF;
            self.ball_vel.y = -abs_i64(self.ball_vel.y);
        }

        let hit_1 = boxes_overlap_i64(
            self.ball_pos.x,
            self.ball_pos.y,
            BALL_SIZE_HALF,
            BALL_SIZE_HALF,
            self.player_1_pos.x,
            self.player_1_pos.y,
            PADDLE_WIDTH_HALF,
            PADDLE_HEIGHT_HALF,
        );
        if hit_1 {
            self.ball_vel.x = abs_i64(self.ball_vel.x);
        }

        let hit_2 = boxes_overlap_i64(
            self.ball_pos.x,
            self.ball_pos.y,
            BALL_SIZE_HALF,
            BALL_SIZE_HALF,
            self.player_2_pos.x,
            self.player_2_pos.y,
            PADDLE_WIDTH_HALF,
            PADDLE_HEIGHT_HALF,
        );
        if hit_2 {
            self.ball_vel.x = -abs_i64(self.ball_vel.x);
        }
    }
}

} // verus!
