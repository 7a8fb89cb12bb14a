use gl_pong::fixed::UNIT;
use gl_pong::ball::{Ball, DEFAULT_X_VELO, DEFAULT_Y_VELO, MAX_SPEED};
use gl_pong::game::{Frame, Game, GameData, GameState, SceneState, START_DELAY};
use gl_pong::motion::{clamp_position_2d, FIELD_MAX, FIELD_MIN};
use gl_pong::paddle::{Paddle, PADDLE_HEIGHT, PADDLE_WIDTH};
use gl_pong::player::{ai_decide, PaddleMove, Player, AI_REACH, AI_SLACK};
use gl_pong::input::{
    mask_from_key_kind, ElementState, InputState, Key, KeyEvent, KeyKind, KeyMap, NamedKey,
};
use gl_pong::physics::{Surface, Vec2};

fn units(x: f64, y: f64) -> Vec2 {
    Vec2::new((x * UNIT as f64).round() as i32, (y * UNIT as f64).round() as i32)
}

fn no_keys() -> InputState {
    InputState::new(0, Vec2::new(0, 0))
}

fn holding(keys: &[KeyKind]) -> InputState {
    let mut flags = 0;
    for key in keys {
        flags |= mask_from_key_kind(key);
    }
    InputState::new(flags, Vec2::new(0, 0))
}

fn paddle_at(x: f64, y: f64) -> Paddle {
    Paddle::new(0, units(x, y), Vec2::new(0, 1000), PADDLE_WIDTH, PADDLE_HEIGHT, false)
}

#[test]
fn constants() {
    assert_eq!(UNIT, 1_000_000);
    assert_eq!(FIELD_MIN, -UNIT);
    assert_eq!(FIELD_MAX, UNIT);
    assert_eq!(PADDLE_WIDTH, 30_000);
    assert_eq!(PADDLE_HEIGHT, 200_000);
    assert_eq!((DEFAULT_X_VELO, DEFAULT_Y_VELO), (-1000, 300));
    assert_eq!(MAX_SPEED, 2000);
    assert_eq!(AI_REACH, 1_300_000);
    assert_eq!(AI_SLACK, 50_000);
    assert_eq!(START_DELAY, 1000);
}

#[test]
fn clamping_moves_a_body_back_between_the_bounds() {
    let clamp = |x: i32, y: i32| clamp_position_2d(Vec2::new(x, y), -100, 100, -50, 50, 10, 5);
    assert_eq!(clamp(0, 0), Vec2::new(0, 0));
    assert_eq!(clamp(90, 45), Vec2::new(90, 45));
    assert_eq!(clamp(91, 46), Vec2::new(90, 45));
    assert_eq!(clamp(-91, -46), Vec2::new(-90, -45));
    assert_eq!(clamp(1000, -1000), Vec2::new(90, -45));
    assert_eq!(clamp(-90, 45), Vec2::new(-90, 45));
}

#[test]
fn clamping_looks_at_the_lower_bound_first() {
    // a body wider than the field sticks out on both sides
    assert_eq!(
        clamp_position_2d(Vec2::new(0, 0), -100, 100, -100, 100, 150, 150),
        Vec2::new(50, 50)
    );
}

#[test]
fn clamping_at_the_ends_of_the_range() {
    assert_eq!(
        clamp_position_2d(Vec2::new(i32::MAX, i32::MIN), i32::MIN, i32::MAX, i32::MIN, i32::MAX, 0, 0),
        Vec2::new(i32::MAX, i32::MIN)
    );
    assert_eq!(
        clamp_position_2d(Vec2::new(0, 0), i32::MAX, i32::MAX, i32::MIN, i32::MIN, i32::MAX, i32::MAX),
        Vec2::new(i32::MAX, i32::MIN)
    );
    assert_eq!(
        clamp_position_2d(Vec2::new(0, 0), i32::MIN, i32::MAX, -5, 5, i32::MIN, 10),
        Vec2::new(0, 5)
    );
}

#[test]
fn a_paddle_moved_past_the_top_stops_at_the_top() {
    let mut paddle = paddle_at(-0.975, 0.0);
    paddle.move_y(1_500_000);
    assert_eq!(paddle.position(), Vec2::new(-975_000, UNIT - PADDLE_HEIGHT / 2));
    assert_eq!(paddle.position().y, 900_000);
    paddle.move_y(-1_500_000);
    assert_eq!(paddle.position().y, -900_000);
    paddle.move_y(250_000);
    assert_eq!(paddle.position().y, 250_000);
    paddle.move_y(900_001);
    assert_eq!(paddle.position().y, 900_000);
}

#[test]
fn a_paddle_of_any_height_stops_half_its_height_from_the_edge() {
    for height in [0, 2, 100_000, 500_000, 2_000_000] {
        let mut paddle =
            Paddle::new(1, units(0.0, 0.0), Vec2::new(0, 1000), PADDLE_WIDTH, height, false);
        paddle.move_y(1_500_000);
        assert_eq!(paddle.position().y, UNIT - height / 2);
    }
}

#[test]
fn a_new_paddle_is_moved_into_the_field() {
    let paddle = Paddle::new(3, units(5.0, -5.0), Vec2::new(0, 1000), 30_000, 200_000, true);
    assert_eq!(paddle.position(), Vec2::new(985_000, -900_000));
    assert_eq!(paddle.id(), 3);
    assert_eq!(paddle.width(), 30_000);
    assert_eq!(paddle.height(), 200_000);
    assert_eq!(paddle.velocity(), Vec2::new(0, 1000));
}

#[test]
fn paddle_moves_by_velocity_times_time() {
    let mut paddle = paddle_at(0.5, 0.0);
    paddle.move_up(16);
    assert_eq!(paddle.position(), units(0.5, 0.016));
    assert_eq!(paddle.velocity(), Vec2::new(0, 1000));
    paddle.move_down(16);
    assert_eq!(paddle.position(), units(0.5, 0.0));
    assert_eq!(paddle.velocity(), Vec2::new(0, -1000));
    paddle.move_down(100);
    assert_eq!(paddle.position(), units(0.5, -0.1));
    paddle.move_up(50);
    assert_eq!(paddle.position(), units(0.5, -0.05));
    assert_eq!(paddle.velocity(), Vec2::new(0, 1000));
    paddle.apply_velocity(10_000);
    assert_eq!(paddle.position(), units(0.5, 0.9));
    paddle.reset();
    assert_eq!(paddle.position(), units(0.5, 0.0));
}

#[test]
fn paddle_template() {
    let paddle = paddle_at(0.0, 0.0);
    let vertices = paddle.vertices();
    assert_eq!(vertices.len(), 30);
    assert_eq!(&vertices[0..5], &[-15_000, -100_000, UNIT, UNIT, UNIT]);
    assert_eq!(&vertices[5..10], &[15_000, 100_000, UNIT, UNIT, UNIT]);
    assert_eq!(&vertices[10..15], &[15_000, -100_000, UNIT, UNIT, UNIT]);
    assert_eq!(&vertices[15..20], &[-15_000, -100_000, UNIT, UNIT, UNIT]);
    assert_eq!(&vertices[20..25], &[15_000, 100_000, UNIT, UNIT, UNIT]);
    assert_eq!(&vertices[25..30], &[-15_000, 100_000, UNIT, UNIT, UNIT]);
}

#[test]
fn ball_template() {
    let ball = Ball::new(2, 20_000);
    let vertices = ball.vertices();
    assert_eq!(vertices.len(), 30);
    let corners: Vec<(i32, i32)> = vertices.chunks(5).map(|v| (v[0], v[1])).collect();
    assert_eq!(
        corners,
        vec![(-UNIT, -UNIT), (UNIT, UNIT), (UNIT, -UNIT), (-UNIT, -UNIT), (UNIT, UNIT), (-UNIT, UNIT)]
    );
    for vertex in vertices.chunks(5) {
        assert_eq!(&vertex[2..], &[UNIT, UNIT, UNIT]);
    }
}

#[test]
fn a_paddle_shows_the_edge_that_faces_the_target() {
    let paddle = paddle_at(0.5, 0.2);
    assert_eq!(
        paddle.surface(units(0.0, 0.0)),
        Surface { a: units(0.485, 0.1), b: units(0.485, 0.3) }
    );
    assert_eq!(
        paddle.surface(units(0.9, 0.0)),
        Surface { a: units(0.515, 0.1), b: units(0.515, 0.3) }
    );
    // a target straight above or below sees the right edge
    assert_eq!(
        paddle.surface(units(0.5, 0.9)),
        Surface { a: units(0.515, 0.1), b: units(0.515, 0.3) }
    );
}

#[test]
fn ball_basics() {
    let mut ball = Ball::new(2, 20_000);
    assert_eq!(ball.id(), 2);
    assert_eq!(ball.radius(), 20_000);
    assert_eq!(ball.position(), Vec2::new(0, 0));
    assert_eq!(ball.velocity(), Vec2::new(-1000, 300));
    ball.apply_velocity(16);
    assert_eq!(ball.position(), Vec2::new(-16_000, 4_800));
    ball.apply_velocity(0);
    assert_eq!(ball.position(), Vec2::new(-16_000, 4_800));
    ball.reset();
    assert_eq!(ball.position(), Vec2::new(0, 0));
    assert_eq!(ball.velocity(), Vec2::new(-1000, 300));
}

#[test]
fn ball_speed_is_limited_along_each_axis() {
    let mut ball = Ball::with_motion(0, 1, Vec2::new(0, 0), Vec2::new(2001, -2001));
    ball.clamp_velocity();
    assert_eq!(ball.velocity(), Vec2::new(2000, -2000));
    let mut slow = Ball::with_motion(0, 1, Vec2::new(0, 0), Vec2::new(-2000, 1999));
    slow.clamp_velocity();
    assert_eq!(slow.velocity(), Vec2::new(-2000, 1999));
    let mut fast = Ball::with_motion(0, 1, Vec2::new(0, 0), Vec2::new(i32::MIN, i32::MAX));
    fast.clamp_velocity();
    assert_eq!(fast.velocity(), Vec2::new(-2000, 2000));
}

#[test]
fn ball_position_saturates_and_clamps_on_request() {
    let mut ball = Ball::with_motion(0, 20_000, Vec2::new(0, 0), Vec2::new(2000, -2000));
    ball.apply_velocity(u32::MAX);
    assert_eq!(ball.position(), Vec2::new(i32::MAX, i32::MIN));
    ball.clamp_position();
    assert_eq!(ball.position(), Vec2::new(980_000, -980_000));
}

#[test]
fn the_computer_follows_a_ball_that_comes_its_way() {
    let right = paddle_at(0.975, 0.0);
    let rising = Ball::with_motion(0, 20_000, units(0.0, 0.0), Vec2::new(1000, 300));
    // arrives at x = 0.975 at height 0.2925
    assert_eq!(ai_decide(&right, &rising), PaddleMove::Up);
    let falling = Ball::with_motion(0, 20_000, units(0.0, 0.0), Vec2::new(1000, -300));
    assert_eq!(ai_decide(&right, &falling), PaddleMove::Down);
    let level = Ball::with_motion(0, 20_000, units(0.0, 0.04), Vec2::new(1000, 0));
    assert_eq!(ai_decide(&right, &level), PaddleMove::Stay);
    let leaving = Ball::with_motion(0, 20_000, units(0.0, 0.0), Vec2::new(-1000, 300));
    assert_eq!(ai_decide(&right, &leaving), PaddleMove::Stay);

    let left = paddle_at(-0.975, 0.0);
    assert_eq!(ai_decide(&left, &leaving), PaddleMove::Up);
    assert_eq!(ai_decide(&left, &rising), PaddleMove::Stay);
}

#[test]
fn the_computer_ignores_a_ball_out_of_reach() {
    let right = paddle_at(0.975, 0.0);
    let far = Ball::with_motion(0, 20_000, units(-0.5, 0.0), Vec2::new(1000, 300));
    assert_eq!(ai_decide(&right, &far), PaddleMove::Stay);
    let just_within = Ball::with_motion(0, 20_000, units(-0.325, 0.0), Vec2::new(1000, 300));
    assert_eq!(ai_decide(&right, &just_within), PaddleMove::Up);
    let just_beyond =
        Ball::with_motion(0, 20_000, Vec2::new(-325_001, 0), Vec2::new(1000, 300));
    assert_eq!(ai_decide(&right, &just_beyond), PaddleMove::Stay);
}

#[test]
fn the_computer_allows_some_slack() {
    let right = paddle_at(0.975, 0.0);
    // arrives exactly 0.05 above the centre
    let at_slack = Ball::with_motion(0, 20_000, units(0.475, 0.0), Vec2::new(1000, 100));
    assert_eq!(ai_decide(&right, &at_slack), PaddleMove::Stay);
    let above_slack = Ball::with_motion(0, 20_000, Vec2::new(475_000, 1), Vec2::new(1000, 100));
    assert_eq!(ai_decide(&right, &above_slack), PaddleMove::Up);
    let below_slack = Ball::with_motion(0, 20_000, Vec2::new(475_000, -1), Vec2::new(1000, -100));
    assert_eq!(ai_decide(&right, &below_slack), PaddleMove::Down);
}

#[test]
fn a_ball_without_horizontal_speed_counts_as_moving_right() {
    let right = paddle_at(0.975, 0.0);
    let left = paddle_at(-0.975, 0.0);
    let up = Ball::with_motion(0, 20_000, units(0.0, 0.0), Vec2::new(0, 300));
    assert_eq!(ai_decide(&right, &up), PaddleMove::Up);
    assert_eq!(ai_decide(&left, &up), PaddleMove::Stay);
    let down = Ball::with_motion(0, 20_000, units(0.0, 0.0), Vec2::new(0, -300));
    assert_eq!(ai_decide(&right, &down), PaddleMove::Down);
    let still = Ball::with_motion(0, 20_000, units(0.0, 0.0), Vec2::new(0, 0));
    assert_eq!(ai_decide(&right, &still), PaddleMove::Stay);
    let beyond = Ball::with_motion(0, 20_000, units(0.99, 0.0), Vec2::new(0, 300));
    assert_eq!(ai_decide(&right, &beyond), PaddleMove::Down);
}

#[test]
fn a_human_player_follows_the_keys_and_down_wins() {
    let map = KeyMap { move_up: vec![KeyKind::Q, KeyKind::K], move_down: vec![KeyKind::A] };
    let mut player = Player::new(0, paddle_at(-0.975, 0.0), Some(map));
    assert!(player.is_human());
    let ball = Ball::new(2, 20_000);
    assert_eq!(player.decide(&no_keys(), &ball), PaddleMove::Stay);
    assert_eq!(player.decide(&holding(&[KeyKind::K]), &ball), PaddleMove::Up);
    assert_eq!(player.decide(&holding(&[KeyKind::A]), &ball), PaddleMove::Down);
    assert_eq!(player.decide(&holding(&[KeyKind::A, KeyKind::Q]), &ball), PaddleMove::Down);
    assert_eq!(player.decide(&holding(&[KeyKind::ArrowUp]), &ball), PaddleMove::Stay);

    player.update(20, &holding(&[KeyKind::Q]), &ball);
    assert_eq!(player.paddle().position(), units(-0.975, 0.02));
    player.update(20, &holding(&[KeyKind::A]), &ball);
    assert_eq!(player.paddle().position(), units(-0.975, 0.0));
    player.update(20, &no_keys(), &ball);
    assert_eq!(player.paddle().position(), units(-0.975, 0.0));
}

#[test]
fn a_computer_player_moves_its_paddle() {
    let mut player = Player::new(1, paddle_at(0.975, 0.0), None);
    assert!(!player.is_human());
    let ball = Ball::with_motion(2, 20_000, units(0.0, 0.0), Vec2::new(1000, 300));
    player.update(16, &holding(&[KeyKind::ArrowDown]), &ball);
    assert_eq!(player.paddle().position(), units(0.975, 0.016));
}

#[test]
fn scores() {
    let mut player = Player::new(1, paddle_at(0.975, 0.0), None);
    assert_eq!(player.id(), 1);
    assert_eq!(player.score(), 0);
    player.increment_score();
    player.increment_score();
    assert_eq!(player.score(), 2);
    player.reset();
    assert_eq!(player.score(), 0);
}

#[test]
fn a_new_game() {
    let game = GameData::new(0, 5000);
    assert_eq!(game.state(), GameState::Starting);
    assert_eq!(game.ball().id(), 2);
    assert_eq!(game.ball().radius(), 20_000);
    assert_eq!(game.ball().position(), Vec2::new(0, 0));
    assert_eq!(game.ball().velocity(), Vec2::new(-1000, 300));
    let players = game.players();
    assert_eq!(players.len(), 2);
    assert_eq!(players[0].id(), 0);
    assert_eq!(players[1].id(), 1);
    assert_eq!(players[0].paddle().id(), 0);
    assert_eq!(players[1].paddle().id(), 1);
    assert_eq!(players[0].paddle().position(), units(-0.975, 0.0));
    assert_eq!(players[1].paddle().position(), units(0.975, 0.0));
    assert_eq!(players[0].paddle().velocity(), Vec2::new(0, 1000));
    assert_eq!(players[0].paddle().width(), 30_000);
    assert_eq!(players[0].paddle().height(), 200_000);
    assert!(!players[0].is_human());
    assert!(!players[1].is_human());
    assert_eq!(
        game.surfaces(),
        &[
            Surface { a: units(-1.0, -1.0), b: units(1.0, -1.0) },
            Surface { a: units(1.0, 1.0), b: units(-1.0, 1.0) },
        ]
    );
}

#[test]
fn humans_get_their_keys() {
    let one = GameData::new(1, 0);
    assert!(one.players()[0].is_human());
    assert!(!one.players()[1].is_human());
    let ball = Ball::new(2, 20_000);
    let left = &one.players()[0];
    for key in [KeyKind::ArrowDown, KeyKind::A, KeyKind::J] {
        assert_eq!(left.decide(&holding(&[key]), &ball), PaddleMove::Down);
    }
    for key in [KeyKind::ArrowUp, KeyKind::Q, KeyKind::K] {
        assert_eq!(left.decide(&holding(&[key]), &ball), PaddleMove::Up);
    }

    let two = GameData::new(2, 0);
    let left = &two.players()[0];
    let right = &two.players()[1];
    assert!(left.is_human() && right.is_human());
    assert_eq!(left.decide(&holding(&[KeyKind::A]), &ball), PaddleMove::Down);
    assert_eq!(left.decide(&holding(&[KeyKind::J]), &ball), PaddleMove::Down);
    assert_eq!(left.decide(&holding(&[KeyKind::Q]), &ball), PaddleMove::Up);
    assert_eq!(left.decide(&holding(&[KeyKind::K]), &ball), PaddleMove::Up);
    assert_eq!(left.decide(&holding(&[KeyKind::ArrowDown]), &ball), PaddleMove::Stay);
    assert_eq!(right.decide(&holding(&[KeyKind::ArrowDown]), &ball), PaddleMove::Down);
    assert_eq!(right.decide(&holding(&[KeyKind::ArrowUp]), &ball), PaddleMove::Up);
    assert_eq!(right.decide(&holding(&[KeyKind::A]), &ball), PaddleMove::Stay);

    let three = GameData::new(3, 0);
    assert!(!three.players()[0].is_human());
    assert!(!three.players()[1].is_human());
}

#[test]
fn a_round_starts_after_a_second() {
    let mut game = GameData::new(0, 5000);
    game.update(5999, 16, no_keys());
    assert_eq!(game.state(), GameState::Starting);
    assert_eq!(game.ball().position(), Vec2::new(0, 0));
    game.update(4000, 16, no_keys());
    assert_eq!(game.state(), GameState::Starting);
    game.update(6000, 16, no_keys());
    assert_eq!(game.state(), GameState::Playing);
    assert_eq!(game.ball().position(), Vec2::new(0, 0));
    game.update(6016, 16, no_keys());
    assert_eq!(game.state(), GameState::Playing);
    assert_eq!(game.ball().position(), Vec2::new(-16_000, 4_800));
}

#[test]
fn space_pauses_and_enter_resumes() {
    let mut game = GameData::new(0, 0);
    game.update(1000, 16, no_keys());
    assert_eq!(game.state(), GameState::Playing);
    game.update(1016, 16, holding(&[KeyKind::Space]));
    assert_eq!(game.state(), GameState::Pause);
    let position = game.ball().position();
    assert_eq!(position, Vec2::new(-16_000, 4_800));
    game.update(1032, 16, no_keys());
    game.update(1048, 16, holding(&[KeyKind::Space]));
    assert_eq!(game.state(), GameState::Pause);
    assert_eq!(game.ball().position(), position);
    game.update(1064, 16, holding(&[KeyKind::Enter]));
    assert_eq!(game.state(), GameState::Playing);
    assert_eq!(game.ball().position(), position);
    game.update(1080, 16, holding(&[KeyKind::Enter]));
    assert_eq!(game.ball().position(), Vec2::new(-32_000, 9_600));
}

#[test]
fn pause_and_unpause_only_act_on_their_state() {
    let mut game = GameData::new(0, 0);
    game.pause();
    assert_eq!(game.state(), GameState::Starting);
    game.unpause();
    assert_eq!(game.state(), GameState::Starting);
    game.update(1000, 0, no_keys());
    game.unpause();
    assert_eq!(game.state(), GameState::Playing);
    game.pause();
    assert_eq!(game.state(), GameState::Pause);
    game.pause();
    assert_eq!(game.state(), GameState::Pause);
    game.unpause();
    assert_eq!(game.state(), GameState::Playing);
}

#[test]
fn the_ball_bounces_off_the_left_paddle() {
    let mut game = GameData::new(0, 0);
    game.update(1000, 0, no_keys());
    // the ball reaches the paddle's right edge at x = -0.96, less its radius
    let mut now = 1000;
    let mut bounced = false;
    for _ in 0..200 {
        now += 10;
        game.update(now, 10, no_keys());
        assert_eq!(game.state(), GameState::Playing);
        if game.ball().velocity().x > 0 {
            bounced = true;
            break;
        }
    }
    assert!(bounced);
    assert_eq!(game.ball().velocity(), Vec2::new(1000, 300));
    assert_eq!(game.ball().position().x, -940_000);
    // the computer has followed the ball upwards
    assert!(game.players()[0].paddle().position().y > 0);
    assert_eq!(game.players()[1].paddle().position().y, 0);
}

#[test]
fn a_ball_that_leaves_the_field_starts_the_round_over() {
    let mut game = GameData::new(1, 0);
    game.update(1000, 0, no_keys());
    // the left player is human and holds still at the centre; the ball passes above
    let mut now = 1000;
    game.update(now + 16, 16, holding(&[KeyKind::ArrowDown]));
    now += 16;
    for _ in 0..50 {
        now += 16;
        game.update(now, 16, holding(&[KeyKind::ArrowDown]));
    }
    assert_eq!(game.players()[0].paddle().position().y, -816_000);
    let mut restarted_at = 0;
    for _ in 0..100 {
        now += 16;
        game.update(now, 16, no_keys());
        if game.state() == GameState::Starting {
            restarted_at = now;
            break;
        }
    }
    assert!(restarted_at > 0);
    assert_eq!(game.ball().position(), Vec2::new(0, 0));
    assert_eq!(game.ball().velocity(), Vec2::new(-1000, 300));
    assert_eq!(game.players()[0].paddle().position().y, -816_000);
    game.update(restarted_at + 999, 16, no_keys());
    assert_eq!(game.state(), GameState::Starting);
    game.update(restarted_at + 1000, 16, no_keys());
    assert_eq!(game.state(), GameState::Playing);
}

#[test]
fn reset_keeps_the_players() {
    let mut game = GameData::new(0, 0);
    game.update(1000, 0, no_keys());
    game.update(1100, 100, no_keys());
    let paddle = game.players()[0].paddle().position();
    game.reset(7000);
    assert_eq!(game.state(), GameState::Starting);
    assert_eq!(game.ball().position(), Vec2::new(0, 0));
    assert_eq!(game.players()[0].paddle().position(), paddle);
    game.update(7999, 16, no_keys());
    assert_eq!(game.state(), GameState::Starting);
    game.update(8000, 16, no_keys());
    assert_eq!(game.state(), GameState::Playing);
}

#[test]
fn a_session_counts_frames_and_runs_the_game() {
    let mut game = Game::new(800, 600, 10_000);
    assert_eq!(game.scene_state(), SceneState::Playing);
    assert_eq!(game.game_data().state(), GameState::Starting);
    assert_eq!(game.update(10_500), Frame { fps: None, playing: true });
    assert_eq!(game.game_data().state(), GameState::Starting);
    assert_eq!(game.update(11_000), Frame { fps: None, playing: true });
    assert_eq!(game.game_data().state(), GameState::Playing);
    assert_eq!(game.update(11_020), Frame { fps: None, playing: true });
    assert_eq!(game.game_data().ball().position(), Vec2::new(-20_000, 6_000));
    let frame = game.update(13_000);
    assert!(frame.playing);
    let rate = frame.fps.unwrap();
    assert_eq!(rate.frames, 4);
    assert_eq!(rate.seconds, 3);
    assert_eq!(game.update(13_016).fps, None);
}

#[test]
fn a_session_takes_keys_and_cursor() {
    let mut game = Game::new(800, 600, 0);
    game.handle_keyboard(KeyEvent {
        logical_key: Key::Named(NamedKey::Space),
        state: ElementState::Pressed,
    });
    assert!(game.input_state().is_key_pressed(&KeyKind::Space));
    game.update(1000);
    assert_eq!(game.game_data().state(), GameState::Playing);
    game.update(1016);
    assert_eq!(game.game_data().state(), GameState::Pause);

    game.update_cursor(400, 300);
    assert_eq!(game.input_state().cursor_pos(), Vec2::new(0, 0));
    game.update_cursor(0, 600);
    assert_eq!(game.input_state().cursor_pos(), Vec2::new(-UNIT, UNIT));
    game.update_cursor(600, 150);
    assert_eq!(game.input_state().cursor_pos(), Vec2::new(500_000, -500_000));
    game.update_cursor(1, 1);
    assert_eq!(game.input_state().cursor_pos(), Vec2::new(-997_500, -996_667));
    assert!(game.input_state().is_key_pressed(&KeyKind::Space));

    game.resize(0, 0);
    game.update_cursor(10, 10);
    assert_eq!(game.input_state().cursor_pos(), Vec2::new(-997_500, -996_667));
    game.resize(100, 200);
    game.update_cursor(75, 50);
    assert_eq!(game.input_state().cursor_pos(), Vec2::new(500_000, -500_000));
}
