use pong::game::InputState;
use pong::game::PongGame;
use pong::text::score_line_chars;

// Screen of 1280 x 800 units, in subunits.
const W: i64 = 1_280_000;
const H: i64 = 800_000;

fn idle() -> InputState {
    InputState {
        player_1_up: false,
        player_1_down: false,
        player_2_up: false,
        player_2_down: false,
    }
}

#[test]
fn initial_state_1280_800() {
    let g = PongGame::new(W, H);
    assert_eq!(g.player_1_score, 0);
    assert_eq!(g.player_2_score, 0);
    // Paddle 1 at (50, 400), paddle 2 at (1230, 400), in units.
    assert_eq!(g.player_1_pos.x, 50_000);
    assert_eq!(g.player_1_pos.y, 400_000);
    assert_eq!(g.player_2_pos.x, 1_230_000);
    assert_eq!(g.player_2_pos.y, 400_000);
    // Ball at the center, moving toward player 1 and downward.
    assert_eq!(g.ball_pos.x, 640_000);
    assert_eq!(g.ball_pos.y, 400_000);
    assert_eq!(g.ball_vel.x, -400);
    assert_eq!(g.ball_vel.y, 400);
}

#[test]
fn one_second_frame_bounces_off_bottom() {
    let mut g = PongGame::new(W, H);
    // One full second, no keys: the ball flies to (240, 800); the bottom
    // clamp brings y to 785 and flips the vertical velocity.
    g.update(idle(), 1000, W, H);
    assert_eq!(g.ball_pos.x, 240_000);
    assert_eq!(g.ball_pos.y, 785_000);
    assert_eq!(g.ball_vel.x, -400);
    assert_eq!(g.ball_vel.y, -400);
    assert_eq!(g.player_1_score, 0);
    assert_eq!(g.player_2_score, 0);
}

#[test]
fn left_exit_scores_for_player_2() {
    let mut g = PongGame::new(W, H);
    // Ball just exited left.
    g.ball_pos.x = -5_000;
    g.update(idle(), 0, W, H);
    assert_eq!(g.ball_pos.x, 640_000);
    assert_eq!(g.ball_pos.y, 400_000);
    assert_eq!(g.player_2_score, 1);
    assert_eq!(g.player_1_score, 0);
}

#[test]
fn right_exit_scores_for_player_1() {
    let mut g = PongGame::new(W, H);
    g.ball_pos.x = 1_285_000;
    g.update(idle(), 0, W, H);
    assert_eq!(g.ball_pos.x, 640_000);
    assert_eq!(g.ball_pos.y, 400_000);
    assert_eq!(g.player_1_score, 1);
    assert_eq!(g.player_2_score, 0);
}

#[test]
fn paddle_clamps_at_top() {
    let mut g = PongGame::new(W, H);
    let input = InputState { player_1_up: true, ..idle() };
    // 600 units of travel from y = 400 would overshoot the top bound.
    g.update(input, 1000, W, H);
    assert_eq!(g.player_1_pos.y, 50_000);
}

#[test]
fn paddle_clamps_at_bottom() {
    let mut g = PongGame::new(W, H);
    let input = InputState { player_2_down: true, ..idle() };
    g.update(input, 1000, W, H);
    assert_eq!(g.player_2_pos.y, 750_000);
}

#[test]
fn both_keys_apply_in_sequence() {
    let mut g = PongGame::new(W, H);
    let input = InputState { player_1_up: true, player_1_down: true, ..idle() };
    // Up first: clamped to 50; then down: 50 + 600 = 650. Holding both keys
    // is not a no-op.
    g.update(input, 1000, W, H);
    assert_eq!(g.player_1_pos.y, 650_000);
}

#[test]
fn top_wall_reflects_downward() {
    let mut g = PongGame::new(W, H);
    g.ball_pos.y = 10_000;
    g.ball_vel.y = -400;
    g.update(idle(), 0, W, H);
    assert_eq!(g.ball_pos.y, 15_000);
    assert_eq!(g.ball_vel.y, 400);
}

#[test]
fn bottom_wall_reflects_upward() {
    let mut g = PongGame::new(W, H);
    g.ball_pos.y = 795_000;
    g.ball_vel.y = 400;
    g.update(idle(), 0, W, H);
    assert_eq!(g.ball_pos.y, 785_000);
    assert_eq!(g.ball_vel.y, -400);
}

#[test]
fn paddle_1_reflects_rightward() {
    let mut g = PongGame::new(W, H);
    g.ball_pos.x = 65_000;
    g.ball_pos.y = 400_000;
    g.ball_vel.x = -400;
    g.update(idle(), 0, W, H);
    assert_eq!(g.ball_vel.x, 400);
}

#[test]
fn paddle_2_reflects_leftward() {
    let mut g = PongGame::new(W, H);
    g.ball_pos.x = 1_215_000;
    g.ball_pos.y = 400_000;
    g.ball_vel.x = 400;
    g.update(idle(), 0, W, H);
    assert_eq!(g.ball_vel.x, -400);
}

#[test]
fn scores_only_grow_over_a_rally() {
    let mut g = PongGame::new(W, H);
    let mut last = (g.player_1_score, g.player_2_score);
    for _ in 0..200 {
        g.update(idle(), 16, W, H);
        let now = (g.player_1_score, g.player_2_score);
        assert!(now.0 >= last.0);
        assert!(now.1 >= last.1);
        last = now;
    }
}

#[test]
fn score_line_zero_zero() {
    let line: String = score_line_chars(0, 0).into_iter().collect();
    assert_eq!(line, "0          0");
}

#[test]
fn score_line_two_digits() {
    let line: String = score_line_chars(12, 3).into_iter().collect();
    assert_eq!(line, "12          3");
}

#[test]
fn score_line_largest() {
    let line: String = score_line_chars(u16::MAX, 65534).into_iter().collect();
    assert_eq!(line, "65535          65534");
}
