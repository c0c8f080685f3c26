use pong_game::config::Config;
use pong_game::draw::{score_label, Color, DrawCommand};
use pong_game::game::{Paddle, PongGame, Vec2};

fn game_with_ball(x: i64, y: i64, vx: i64, vy: i64) -> PongGame {
    let mut g = PongGame::new();
    g.ball_pos = Vec2 { x, y };
    g.ball_velocity = Vec2 { x: vx, y: vy };
    g
}

fn label(text: &[char]) -> String {
    text.iter().collect()
}

#[test]
fn standard_match_starts_centred() {
    let g = PongGame::new();
    assert_eq!(g.config, Config::standard());
    assert_eq!(g.player1.pos, Vec2 { x: 0, y: 250 });
    assert_eq!(g.player2.pos, Vec2 { x: 780, y: 250 });
    assert_eq!(g.player1.score, 0);
    assert_eq!(g.player2.score, 0);
    assert_eq!(g.ball_pos, Vec2 { x: 400, y: 300 });
    assert_eq!(g.ball_velocity, Vec2 { x: 2, y: 2 });
}

#[test]
fn custom_geometry_is_used() {
    let c = Config { width: 101, height: 51, paddle_width: 5, paddle_height: 10, ball_radius: 2, ball_speed: 3 };
    let g = PongGame::with_config(c);
    assert_eq!(g.player1.pos, Vec2 { x: 0, y: 20 });
    assert_eq!(g.player2.pos, Vec2 { x: 96, y: 20 });
    assert_eq!(g.ball_pos, Vec2 { x: 50, y: 25 });
    assert_eq!(g.ball_velocity, Vec2 { x: 3, y: 3 });
}

#[test]
fn one_tick_moves_the_ball() {
    let mut g = PongGame::new();
    g.update();
    assert_eq!(g.ball_pos, Vec2 { x: 402, y: 302 });
    assert_eq!(g.ball_velocity, Vec2 { x: 2, y: 2 });
}

#[test]
fn ball_between_walls_keeps_vertical_velocity() {
    let mut g = game_with_ball(300, 200, 3, -4);
    g.update();
    assert_eq!(g.ball_pos, Vec2 { x: 303, y: 196 });
    assert_eq!(g.ball_velocity.y, -4);
}

#[test]
fn top_wall_bounces_once() {
    let mut g = game_with_ball(300, 10, 2, -2);
    g.update();
    assert_eq!(g.ball_pos, Vec2 { x: 302, y: 8 });
    assert_eq!(g.ball_velocity, Vec2 { x: 2, y: 2 });
    g.update();
    assert_eq!(g.ball_pos, Vec2 { x: 304, y: 10 });
    assert_eq!(g.ball_velocity, Vec2 { x: 2, y: -2 });
}

#[test]
fn bottom_wall_bound_is_inclusive() {
    let mut g = game_with_ball(300, 588, 2, 2);
    g.update();
    assert_eq!(g.ball_pos.y, 590);
    assert_eq!(g.ball_velocity.y, -2);
}

#[test]
fn left_edge_scores_for_right_player() {
    let mut g = game_with_ball(1, 100, -2, 3);
    g.update();
    assert_eq!(g.player2.score, 1);
    assert_eq!(g.player1.score, 0);
    assert_eq!(g.ball_pos, Vec2 { x: 400, y: 300 });
    assert_eq!(g.ball_velocity, Vec2 { x: -2, y: 3 });
}

#[test]
fn left_edge_at_zero_scores() {
    let mut g = game_with_ball(2, 100, -2, 0);
    g.update();
    assert_eq!(g.player2.score, 1);
    assert_eq!(g.ball_pos, Vec2 { x: 400, y: 300 });
}

#[test]
fn right_edge_scores_for_left_player() {
    let mut g = game_with_ball(799, 100, 2, 0);
    g.update();
    assert_eq!(g.player1.score, 1);
    assert_eq!(g.player2.score, 0);
    assert_eq!(g.ball_pos, Vec2 { x: 400, y: 300 });
}

#[test]
fn at_most_one_point_per_tick() {
    let c = Config { width: 0, height: 600, paddle_width: 0, paddle_height: 0, ball_radius: 10, ball_speed: 0 };
    let mut g = PongGame::with_config(c);
    g.ball_pos = Vec2 { x: 0, y: 300 };
    g.update();
    assert_eq!(g.player1.score + g.player2.score, 1);
    assert_eq!(g.player2.score, 1);
}

#[test]
fn paddles_stay_put_over_many_ticks() {
    let mut g = PongGame::new();
    for _ in 0..5000 {
        assert!(g.can_update());
        g.update();
        assert_eq!(g.player1.pos, Vec2 { x: 0, y: 250 });
        assert_eq!(g.player2.pos, Vec2 { x: 780, y: 250 });
    }
}

#[test]
fn paddle_update_changes_nothing() {
    let mut p = Paddle::new(7, 9);
    p.score = 4;
    let before = p;
    p.update();
    assert_eq!(p, before);
}

#[test]
fn ball_reaching_right_edge_scores_and_returns_to_centre() {
    let mut g = PongGame::new();
    let mut n: u32 = 0;
    while g.player1.score == 0 && n < 10000 {
        g.update();
        n += 1;
    }
    assert_eq!(n, 200);
    assert_eq!(g.player1.score, 1);
    assert_eq!(g.player2.score, 0);
    assert_eq!(g.ball_pos, Vec2 { x: 400, y: 300 });
}

#[test]
fn left_paddle_reflects_ball() {
    let mut g = game_with_ball(15, 250, -2, 2);
    assert_eq!(g.player1.pos.y, 250);
    g.update();
    assert!(g.ball_velocity.x > 0);
    assert_eq!(g.ball_velocity, Vec2 { x: 2, y: 2 });
    assert_eq!(g.ball_pos, Vec2 { x: 13, y: 252 });
}

#[test]
fn ball_below_left_paddle_is_not_reflected() {
    let mut g = game_with_ball(15, 349, -2, 2);
    g.update();
    assert_eq!(g.ball_pos, Vec2 { x: 13, y: 351 });
    assert_eq!(g.ball_velocity.x, -2);
}

#[test]
fn right_paddle_reflects_ball() {
    let mut g = game_with_ball(778, 350, 2, -2);
    g.update();
    assert_eq!(g.ball_pos, Vec2 { x: 780, y: 348 });
    assert_eq!(g.ball_velocity, Vec2 { x: -2, y: -2 });
}

#[test]
fn both_paddles_in_a_narrow_field_reflect_twice() {
    let c = Config { width: 30, height: 600, paddle_width: 20, paddle_height: 100, ball_radius: 10, ball_speed: 1 };
    let mut g = PongGame::with_config(c);
    g.ball_pos = Vec2 { x: 14, y: 300 };
    g.ball_velocity = Vec2 { x: 1, y: 0 };
    g.update();
    assert_eq!(g.ball_velocity.x, 1);
}

#[test]
fn reset_ball_keeps_velocity() {
    let mut g = game_with_ball(5, 6, -7, 8);
    g.reset_ball();
    assert_eq!(g.ball_pos, Vec2 { x: 400, y: 300 });
    assert_eq!(g.ball_velocity, Vec2 { x: -7, y: 8 });
}

#[test]
fn can_update_detects_overflow() {
    let g = game_with_ball(i64::MAX - 1, 300, 2, 0);
    assert!(!g.can_update());
    let mut g = game_with_ball(5, 300, -10, 0);
    g.player2.score = u64::MAX;
    assert!(!g.can_update());
    g.player2.score = u64::MAX - 1;
    assert!(g.can_update());
}

#[test]
fn score_labels() {
    assert_eq!(label(&score_label(0, 0)), "0 - 0");
    assert_eq!(label(&score_label(12, 3)), "12 - 3");
    assert_eq!(label(&score_label(100, 9)), "100 - 9");
    assert_eq!(label(&score_label(u64::MAX, 10)), "18446744073709551615 - 10");
}

#[test]
fn draw_emits_frame_in_order() {
    let mut g = PongGame::new();
    g.player1.score = 3;
    g.player2.score = 12;
    let cmds = g.draw();
    assert_eq!(cmds.len(), 6);
    assert_eq!(cmds[0], DrawCommand::Clear { color: Color::Black });
    assert_eq!(cmds[1], DrawCommand::Rectangle { x: 0, y: 250, width: 20, height: 100, color: Color::White });
    assert_eq!(cmds[2], DrawCommand::Rectangle { x: 780, y: 250, width: 20, height: 100, color: Color::White });
    assert_eq!(cmds[3], DrawCommand::Circle { x: 400, y: 300, radius: 10, tolerance: 2, color: Color::White });
    match &cmds[4] {
        DrawCommand::Text { x, y, text, color } => {
            assert_eq!((*x, *y, *color), (10, 10, Color::White));
            assert_eq!(label(text), "3 - 12");
        }
        other => panic!("expected the score label, got {:?}", other),
    }
    assert_eq!(cmds[5], DrawCommand::Present);
}

#[test]
fn drawing_twice_gives_same_commands() {
    let mut g = game_with_ball(123, 45, -2, 2);
    g.player2.score = 7;
    let before = g;
    let first = g.draw();
    let second = g.draw();
    assert_eq!(first, second);
    assert_eq!(g, before);
}

#[test]
fn paddle_draws_its_rectangle() {
    let c = Config::standard();
    let p = Paddle::new(780, 42);
    assert_eq!(p.draw(&c), DrawCommand::Rectangle { x: 780, y: 42, width: 20, height: 100, color: Color::White });
}
