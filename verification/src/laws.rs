//! The laws of the simulation, each proved once and for all over the step
//! function [`game_step`]: paddles stay on screen across any run of frames,
//! scores only ever grow and only on the matching exit, a scoring frame
//! puts the ball back at the screen center, and each bounce leaves the
//! velocity pointing away from what was hit.

use vstd::prelude::*;

use crate::game::BALL_SIZE;
use crate::game::BALL_SIZE_HALF;
use crate::game::GameView;
use crate::game::InputState;
use crate::game::PADDLE_HEIGHT;
use crate::game::PADDLE_HEIGHT_HALF;
use crate::game::ball_moved;
use crate::game::exits_left;
use crate::game::exits_right;
use crate::game::game_step;
use crate::game::hits_bottom;
use crate::game::hits_paddle_1;
use crate::game::hits_paddle_2;
use crate::game::hits_top;
use crate::game::screen_center;
use crate::geom::abs_int;

verus! {

/// A paddle center inside the vertical play bounds of a screen of height
/// `h`.
pub open spec fn paddle_in_bounds(y: int, h: int) -> bool {
    PADDLE_HEIGHT_HALF as int <= y <= h - PADDLE_HEIGHT_HALF as int
}

/// One frame as the simulation sees it: the key states and the elapsed
/// time, in milliseconds.
pub ghost struct Frame {
    pub input: InputState,
    pub dt: int,
}

/// The state after playing the given frames in order on a fixed screen.
pub open spec fn run_steps(g: GameView, frames: Seq<Frame>, w: int, h: int) -> GameView
    decreases frames.len(),
{
    if frames.len() == 0 {
        g
    } else {
        run_steps(game_step(g, frames[0].input, frames[0].dt, w, h), frames.drop_first(), w, h)
    }
}

/// Paddle clamp law, one frame: whatever keys are held and however long
/// the frame (dt >= 0), a paddle that starts inside the vertical bounds
/// ends inside them, provided the screen is at least one paddle tall.
pub proof fn lemma_paddle_clamp(g: GameView, inp: InputState, dt: int, w: int, h: int)
    requires
        dt >= 0,
        h >= PADDLE_HEIGHT,
        paddle_in_bounds(g.player_1_pos.y, h),
        paddle_in_bounds(g.player_2_pos.y, h),
    ensures
        paddle_in_bounds(game_step(g, inp, dt, w, h).player_1_pos.y, h),
        paddle_in_bounds(game_step(g, inp, dt, w, h).player_2_pos.y, h),
{
}

/// Paddle clamp law, any run: over any sequence of frames with
/// non-negative frame times, both paddles stay inside the vertical bounds.
pub proof fn lemma_paddle_clamp_run(g: GameView, frames: Seq<Frame>, w: int, h: int)
    requires
        forall|i: int| 0 <= i < frames.len() ==> frames[i].dt >= 0,
        h >= PADDLE_HEIGHT,
        paddle_in_bounds(g.player_1_pos.y, h),
        paddle_in_bounds(g.player_2_pos.y, h),
    ensures
        paddle_in_bounds(run_steps(g, frames, w, h).player_1_pos.y, h),
        paddle_in_bounds(run_steps(g, frames, w, h).player_2_pos.y, h),
    decreases frames.len(),
{
    if frames.len() > 0 {
        lemma_paddle_clamp(g, frames[0].input, frames[0].dt, w, h);
        let stepped = game_step(g, frames[0].input, frames[0].dt, w, h);
        assert(forall|i: int|
            0 <= i < frames.drop_first().len() ==> frames.drop_first()[i].dt >= 0);
        lemma_paddle_clamp_run(stepped, frames.drop_first(), w, h);
    }
}

/// Score law: neither score ever drops, each rises by at most one per
/// frame, player 1's rises exactly when the moved ball passes the right
/// edge, and player 2's exactly when it passes the left edge.
pub proof fn lemma_score_monotonic(g: GameView, inp: InputState, dt: int, w: int, h: int)
    requires
        w >= 0,
    ensures
        game_step(g, inp, dt, w, h).player_1_score >= g.player_1_score,
        game_step(g, inp, dt, w, h).player_2_score >= g.player_2_score,
        game_step(g, inp, dt, w, h).player_1_score <= g.player_1_score + 1,
        game_step(g, inp, dt, w, h).player_2_score <= g.player_2_score + 1,
        game_step(g, inp, dt, w, h).player_1_score > g.player_1_score <==> ball_moved(g, dt).x
            > w,
        game_step(g, inp, dt, w, h).player_2_score > g.player_2_score <==> ball_moved(g, dt).x
            < 0,
{
}

/// Reset law: a frame in which either side scores ends with the ball at
/// the exact screen center, provided the screen is at least one ball tall.
pub proof fn lemma_score_reset(g: GameView, inp: InputState, dt: int, w: int, h: int)
    requires
        w >= 0,
        h >= BALL_SIZE,
        exits_left(g, dt) || exits_right(g, dt, w, h),
    ensures
        game_step(g, inp, dt, w, h).ball_pos == screen_center(w, h),
{
}

/// Wall reflection law: a ball clamped to the top bound leaves the frame
/// with a downward (non-negative) vertical velocity, one clamped to the
/// bottom bound with an upward (non-positive) one, provided the screen is
/// at least one ball tall.
pub proof fn lemma_wall_reflection(g: GameView, inp: InputState, dt: int, w: int, h: int)
    requires
        h >= BALL_SIZE,
    ensures
        hits_top(g, dt, w, h) ==> game_step(g, inp, dt, w, h).ball_pos.y == BALL_SIZE_HALF as int
            && game_step(g, inp, dt, w, h).ball_vel.y >= 0,
        hits_bottom(g, dt, w, h) ==> game_step(g, inp, dt, w, h).ball_pos.y == h
            - BALL_SIZE_HALF as int && game_step(g, inp, dt, w, h).ball_vel.y <= 0,
{
}

/// Paddle reflection law: a frame that ends with the ball overlapping
/// paddle 1 alone leaves the horizontal velocity at its absolute value
/// (rightward, toward paddle 2); one that ends overlapping paddle 2 leaves
/// it at the negated absolute value (leftward). Either way the velocity is
/// strictly directed whenever its magnitude is nonzero. A frame that ends
/// overlapping both paddles at once — possible only for a degenerate
/// layout — resolves as a paddle 2 hit, since that bounce is applied last.
pub proof fn lemma_paddle_reflection(g: GameView, inp: InputState, dt: int, w: int, h: int)
    ensures
        hits_paddle_1(g, inp, dt, w, h) && !hits_paddle_2(g, inp, dt, w, h) ==> game_step(
            g,
            inp,
            dt,
            w,
            h,
        ).ball_vel.x == abs_int(g.ball_vel.x),
        hits_paddle_2(g, inp, dt, w, h) ==> game_step(g, inp, dt, w, h).ball_vel.x == -abs_int(
            g.ball_vel.x,
        ),
        hits_paddle_1(g, inp, dt, w, h) && !hits_paddle_2(g, inp, dt, w, h) && g.ball_vel.x != 0
            ==> game_step(g, inp, dt, w, h).ball_vel.x > 0,
        hits_paddle_2(g, inp, dt, w, h) && g.ball_vel.x != 0 ==> game_step(
            g,
            inp,
            dt,
            w,
            h,
        ).ball_vel.x < 0,
{
}

} // verus!
