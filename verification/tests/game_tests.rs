use pong::ball::{Ball, BallState};
use pong::game::{FrameInput, Game, GameState};
use pong::geometry::{Circle, Rect, Vec2, Viewport};
use pong::pad::PadType;
use pong::score::Score;
use pong::utils::reset_game;

fn screen() -> Viewport {
    Viewport { width: 1200, height: 650 }
}

fn idle() -> FrameInput {
    FrameInput { confirm: false, quit: false, serve: false, up: false, down: false }
}

fn confirm() -> FrameInput {
    FrameInput { confirm: true, ..idle() }
}

fn quit() -> FrameInput {
    FrameInput { quit: true, ..idle() }
}

fn serve() -> FrameInput {
    FrameInput { serve: true, ..idle() }
}

/// A match in play with the ball waiting, set to leave up and to the left.
fn in_game() -> Game {
    let mut game = Game::new(screen());
    game.ball = Ball::with_direction(Vec2 { x: 600, y: 325 }, false, false);
    game.tick(&confirm());
    game
}

#[test]
fn supports_viewports_in_which_paddles_fit() {
    assert!(Game::supports(&screen()));
    assert!(Game::supports(&Viewport { width: 1, height: 166 }));
    assert!(!Game::supports(&Viewport { width: 1200, height: 165 }));
    assert!(!Game::supports(&Viewport { width: 1200, height: 100 }));
    assert!(!Game::supports(&Viewport { width: 0, height: 650 }));
    assert!(!Game::supports(&Viewport { width: 1200, height: 1_000_001 }));
    assert!(Game::supports(&Viewport { width: 1_000_000, height: 1_000_000 }));
}

#[test]
fn new_game_opens_on_the_title_screen() {
    let game = Game::new(screen());
    assert_eq!(game.state, GameState::TitleScreen);
    assert!(!game.paused);
    assert_eq!(game.player.rect, Rect { x: 10, y: 260, w: 30, h: 100 });
    assert_eq!(game.player.pad_type, PadType::Player);
    assert_eq!(game.enemy.rect, Rect { x: 1160, y: 260, w: 30, h: 100 });
    assert_eq!(game.enemy.pad_type, PadType::Enemy);
    assert_eq!(game.ball.circle, Circle { x: 600, y: 325, r: 10 });
    assert_eq!(game.ball.state, BallState::Inactive);
    assert_eq!((game.ball.speed.x.abs(), game.ball.speed.y.abs()), (6, 6));
    assert_eq!(game.score, Score::new());
    assert_eq!(game.viewport, screen());
    assert!(game.is_wf());
}

#[test]
fn only_confirm_leaves_the_title_screen() {
    let mut game = Game::new(screen());
    let start = game;
    game.tick(&FrameInput { confirm: false, quit: true, serve: true, up: true, down: true });
    assert_eq!(game, start);
    game.tick(&confirm());
    assert_eq!(game, Game { state: GameState::InGame, ..start });
}

#[test]
fn confirm_toggles_the_pause() {
    let mut game = in_game();
    assert_eq!(game.state, GameState::InGame);
    assert!(!game.paused);
    game.tick(&confirm());
    assert!(game.paused);
    assert_eq!(game.state, GameState::InGame);
    game.tick(&idle());
    assert!(game.paused);
    game.tick(&confirm());
    assert!(!game.paused);
}

#[test]
fn nothing_moves_while_paused() {
    let mut game = in_game();
    game.tick(&serve());
    game.tick(&idle());
    assert_eq!(game.ball.circle, Circle { x: 594, y: 319, r: 10 });
    game.tick(&confirm());
    let frozen = game;
    assert!(frozen.paused);
    // The tick that pauses moves nothing either.
    assert_eq!(frozen.ball.circle, Circle { x: 594, y: 319, r: 10 });
    let mut n: i64 = 0;
    while n < 10 {
        game.tick(&FrameInput { confirm: false, quit: false, serve: true, up: true, down: false });
        assert_eq!(game, frozen);
        n += 1;
    }
    // The tick that resumes moves the objects again.
    game.tick(&confirm());
    assert!(!game.paused);
    assert_eq!(game.ball.circle, Circle { x: 588, y: 313, r: 10 });
}

#[test]
fn serve_sets_the_ball_in_motion_next_tick() {
    let mut game = in_game();
    game.tick(&FrameInput { confirm: false, quit: false, serve: true, up: true, down: false });
    // The paddles saw a waiting ball and stayed.
    assert_eq!(game.player.rect.y, 260);
    assert_eq!(game.enemy.rect.y, 260);
    assert_eq!(game.ball.state, BallState::Active);
    assert_eq!(game.ball.circle, Circle { x: 600, y: 325, r: 10 });
    game.tick(&FrameInput { confirm: false, quit: false, serve: false, up: true, down: false });
    assert_eq!(game.player.rect.y, 255);
    // The ball was level with the enemy's paddle as the tick began.
    assert_eq!(game.enemy.rect.y, 256);
    assert_eq!(game.ball.circle, Circle { x: 594, y: 319, r: 10 });
    assert_eq!(game.ball.speed, Vec2 { x: -6, y: -6 });
}

#[test]
fn ball_meets_the_paddles_where_they_have_moved_to() {
    let mut game = in_game();
    game.player.rect.y = 100;
    game.ball = Ball {
        circle: Circle { x: 51, y: 103, r: 10 },
        speed: Vec2 { x: -6, y: -6 },
        state: BallState::Active,
    };
    assert!(game.is_wf());
    game.tick(&FrameInput { confirm: false, quit: false, serve: false, up: true, down: false });
    assert_eq!(game.player.rect.y, 95);
    assert_eq!(game.enemy.rect.y, 256);
    // At 97 the centre is above the face the paddle had, and on the face it
    // has now: 48 above the middle, 48 * 6 / 50 = 5.76.
    assert_eq!(game.ball.circle, Circle { x: 45, y: 97, r: 10 });
    assert_eq!(game.ball.speed, Vec2 { x: 6, y: -5 });
}

#[test]
fn quit_resets_the_match() {
    let mut game = in_game();
    game.tick(&serve());
    let mut n: i64 = 0;
    while n < 120 {
        game.tick(&FrameInput { confirm: false, quit: false, serve: true, up: true, down: false });
        n += 1;
    }
    assert_eq!((game.score.player(), game.score.enemy()), (0, 1));
    assert_eq!(game.player.rect.y, 0);
    game.tick(&quit());
    assert_eq!(game.state, GameState::GameOver);
    assert!(!game.paused);
    assert_eq!(game.score, Score::new());
    assert_eq!(game.player.rect, Rect { x: 10, y: 260, w: 30, h: 100 });
    assert_eq!(game.enemy.rect, Rect { x: 1160, y: 260, w: 30, h: 100 });
    assert_eq!(game.ball.circle, Circle { x: 600, y: 325, r: 10 });
    assert_eq!(game.ball.state, BallState::Inactive);
    assert_eq!((game.ball.speed.x.abs(), game.ball.speed.y.abs()), (6, 6));
    assert!(game.is_wf());
}

#[test]
fn quit_lifts_the_pause() {
    let mut game = in_game();
    game.tick(&confirm());
    assert!(game.paused);
    game.tick(&quit());
    assert_eq!(game.state, GameState::GameOver);
    assert!(!game.paused);
}

#[test]
fn quit_and_confirm_in_one_tick_end_unpaused() {
    let mut game = in_game();
    game.tick(&FrameInput { confirm: true, quit: true, serve: false, up: false, down: false });
    assert_eq!(game.state, GameState::GameOver);
    assert!(!game.paused);
}

#[test]
fn objects_still_move_in_the_tick_that_quits() {
    let mut game = in_game();
    game.tick(&FrameInput { confirm: false, quit: true, serve: true, up: false, down: false });
    assert_eq!(game.state, GameState::GameOver);
    // The reset ball took the serve of the same tick.
    assert_eq!(game.ball.state, BallState::Active);
    assert_eq!(game.ball.circle, Circle { x: 600, y: 325, r: 10 });
}

#[test]
fn only_confirm_leaves_the_game_over_screen() {
    let mut game = in_game();
    game.tick(&quit());
    let over = game;
    game.tick(&FrameInput { confirm: false, quit: true, serve: true, up: true, down: true });
    assert_eq!(game, over);
    game.tick(&confirm());
    assert_eq!(game, Game { state: GameState::InGame, ..over });
}

#[test]
fn advance_moves_paddles_then_ball() {
    let mut game = in_game();
    game.ball.activate_ball();
    game.advance(&FrameInput { confirm: true, quit: true, serve: false, up: false, down: true });
    assert_eq!(game.state, GameState::InGame);
    assert_eq!(game.player.rect.y, 265);
    assert_eq!(game.enemy.rect.y, 256);
    assert_eq!(game.ball.circle, Circle { x: 594, y: 319, r: 10 });
}

#[test]
fn quit_method_brings_up_game_over() {
    let mut game = in_game();
    game.paused = true;
    game.player.rect.y = 3;
    game.quit();
    assert_eq!(game.state, GameState::GameOver);
    assert!(!game.paused);
    assert_eq!(game.player.rect.y, 260);
    assert_eq!(game.ball.state, BallState::Inactive);
}

#[test]
fn reset_game_resets_every_object() {
    let mut game = in_game();
    game.tick(&serve());
    game.tick(&FrameInput { confirm: false, quit: false, serve: false, up: true, down: false });
    game.score.increment_player();
    let viewport = game.viewport;
    reset_game(&mut game.player, &mut game.enemy, &mut game.ball, &mut game.score, &viewport);
    assert_eq!(game.state, GameState::InGame);
    assert_eq!(game.score, Score::new());
    assert_eq!(game.player.rect, Rect { x: 10, y: 260, w: 30, h: 100 });
    assert_eq!(game.enemy.rect, Rect { x: 1160, y: 260, w: 30, h: 100 });
    assert_eq!(game.ball.circle, Circle { x: 600, y: 325, r: 10 });
    assert_eq!(game.ball.state, BallState::Inactive);
    assert_eq!((game.ball.speed.x.abs(), game.ball.speed.y.abs()), (6, 6));
}

#[test]
fn at_most_one_point_per_tick_and_only_on_leaving() {
    let mut game = in_game();
    let mut tick: i64 = 0;
    let mut points: u32 = 0;
    while tick < 20000 {
        let before = game;
        let input = FrameInput {
            confirm: false,
            quit: false,
            serve: true,
            up: tick % 97 < 40,
            down: tick % 89 < 30,
        };
        game.tick(&input);
        let gained_player = game.score.player() - before.score.player();
        let gained_enemy = game.score.enemy() - before.score.enemy();
        assert!(gained_player + gained_enemy <= 1);
        let next_x = before.ball.circle.x + before.ball.speed.x;
        let left = before.ball.state == BallState::Active && next_x < 0;
        let right = before.ball.state == BallState::Active && next_x > 1200;
        assert_eq!(gained_enemy == 1, left);
        assert_eq!(gained_player == 1, right);
        if left || right {
            assert_eq!(game.ball.state, BallState::Inactive);
            assert_eq!(game.ball.circle, Circle { x: 600, y: 325, r: 10 });
        }
        points += gained_player + gained_enemy;
        tick += 1;
    }
    assert!(points > 0);
}

#[test]
fn match_stays_well_formed() {
    let mut game = Game::new(screen());
    let mut tick: i64 = 0;
    while tick < 20000 {
        let input = FrameInput {
            confirm: tick % 211 == 0,
            quit: tick % 4099 == 4098,
            serve: tick % 3 == 0,
            up: tick % 97 < 40,
            down: tick % 89 < 30,
        };
        game.tick(&input);
        assert!(game.is_wf());
        assert!(0 <= game.player.rect.y && game.player.rect.y <= 550);
        assert!(0 <= game.enemy.rect.y && game.enemy.rect.y <= 550);
        assert!(0 <= game.ball.circle.x && game.ball.circle.x <= 1200);
        assert!(-6 <= game.ball.circle.y && game.ball.circle.y <= 656);
        assert_eq!(game.ball.speed.x.abs(), 6);
        assert!(game.ball.speed.y.abs() <= 6);
        tick += 1;
    }
}

#[test]
fn is_wf_rejects_broken_matches() {
    let good = in_game();
    assert!(good.is_wf());
    let mut pad_out = good;
    pad_out.player.rect.y = 551;
    assert!(!pad_out.is_wf());
    let mut pad_high = good;
    pad_high.enemy.rect.y = -1;
    assert!(!pad_high.is_wf());
    let mut tall = good;
    tall.enemy.rect.h = 391;
    tall.enemy.rect.y = 0;
    assert!(!tall.is_wf());
    let mut ball_out = good;
    ball_out.ball.circle.x = 1201;
    assert!(!ball_out.is_wf());
    let mut ball_lost = good;
    ball_lost.ball.circle.y = -7;
    ball_lost.ball.speed.y = 6;
    assert!(!ball_lost.is_wf());
    let mut ball_back = good;
    ball_back.ball.circle.y = -6;
    ball_back.ball.speed.y = 6;
    assert!(ball_back.is_wf());
    let mut ball_leaving = good;
    ball_leaving.ball.circle.y = 651;
    ball_leaving.ball.speed.y = 2;
    assert!(!ball_leaving.is_wf());
    let mut slow = good;
    slow.ball.speed.x = 5;
    assert!(!slow.is_wf());
    let mut no_field = good;
    no_field.viewport.width = 0;
    assert!(!no_field.is_wf());
}
