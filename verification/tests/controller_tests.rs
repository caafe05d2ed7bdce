use pong::ball::Ball;
use pong::pong_controller::{BallEvent, ButtonSnapshot, PongController};

const IDLE: ButtonSnapshot = ButtonSnapshot { up: false, down: false, start: false, confirm: false };

fn press(up: bool, down: bool, start: bool, confirm: bool) -> ButtonSnapshot {
    ButtonSnapshot { up, down, start, confirm }
}

fn game() -> PongController {
    PongController::new(20, 7)
}

fn set_ball(c: &mut PongController, x: i32, y: i32, dir_x: i32, dir_y: i32) {
    c.ball = Ball {
        x,
        y,
        radius: 10,
        dir_x,
        dir_y,
        speed_counter: c.ball.speed_counter,
        base_speed: dir_y.unsigned_abs(),
    };
}

#[test]
fn new_game_layout() {
    let c = game();
    assert_eq!(c.ticks_per_update, 50);
    assert_eq!(c.last_tick, 0);
    assert_eq!((c.score.player, c.score.opponent), (0, 0));
    assert_eq!((c.player.x, c.player.y), (10, 136));
    assert_eq!((c.player.thickness, c.player.height), (10, 40));
    assert_eq!(c.opponent.paddle.x, 465);
    assert_eq!(c.opponent.detection_x, 245);
    assert_eq!((c.ball.x, c.ball.y), (240, 136));
    assert_eq!(c.ball.radius, 10);
    assert_eq!(c.ball.base_speed, 3);
    let (dx, dy) = c.ball.get_direction();
    assert!(dx == 3 || dx == -3);
    assert!(dy == 3 || dy == -3);
    assert!(!c.menu_open);
    assert_eq!(c.main_menu.title, "Main Menu");
    assert_eq!(
        c.main_menu.items,
        vec!["Set Difficulty".to_string(), "Reset Score".to_string(), "Close Menu".to_string()]
    );
    assert_eq!(c.main_menu.return_selected_index(), 0);
}

#[test]
fn ball_at_the_player_paddle_far_edge_still_bounces() {
    // The player's paddle spans x 10..20; a ball whose left edge sits
    // exactly at the far edge (x == 20) counts as a hit, not a miss.
    let mut c = game();
    set_ball(&mut c, 30, 150, -2, 2);
    let e = c.step_game(IDLE);
    assert_eq!(e, BallEvent::PlayerPaddle);
    assert_eq!(c.ball.get_direction().0, 2);
}

#[test]
fn ball_out_left_scores_for_opponent_and_respawns() {
    let mut c = game();
    set_ball(&mut c, 5, 60, -3, 3);
    let e = c.step_game(IDLE);
    assert_eq!(e, BallEvent::OpponentScored);
    assert_eq!(c.score.opponent, 1);
    assert_eq!(c.score.player, 0);
    // Fresh ball: spawned at screen center with base radius and speed,
    // direction components in {-3, +3}, then advanced one step.
    let (dx, dy) = c.ball.get_direction();
    assert!(dx == 3 || dx == -3);
    assert!(dy == 3 || dy == -3);
    assert_eq!(c.ball.x, 240 + dx);
    assert_eq!(c.ball.y, 136 + dy);
    assert_eq!(c.ball.radius, 10);
    assert_eq!(c.ball.base_speed, 3);
    assert_eq!(c.ball.speed_counter, 0);
}

#[test]
fn ball_out_right_scores_for_player() {
    let mut c = game();
    set_ball(&mut c, 476, 60, 3, 3);
    let e = c.step_game(IDLE);
    assert_eq!(e, BallEvent::PlayerScored);
    assert_eq!(c.score.player, 1);
    assert_eq!(c.score.opponent, 0);
    let (dx, dy) = c.ball.get_direction();
    assert_eq!(c.ball.x, 240 + dx);
    assert_eq!(c.ball.y, 136 + dy);
}

#[test]
fn top_wall_bounce_flips_vertical_only() {
    let mut c = game();
    set_ball(&mut c, 100, 9, 2, -2);
    let e = c.step_game(IDLE);
    assert_eq!(e, BallEvent::TopWall);
    assert_eq!(c.ball.get_direction(), (2, 2));
    assert_eq!((c.ball.x, c.ball.y), (102, 11));
    assert_eq!((c.score.player, c.score.opponent), (0, 0));
}

#[test]
fn bottom_wall_bounce_flips_vertical_only() {
    let mut c = game();
    set_ball(&mut c, 100, 263, 2, 2);
    let e = c.step_game(IDLE);
    assert_eq!(e, BallEvent::BottomWall);
    assert_eq!(c.ball.get_direction(), (2, -2));
}

#[test]
fn player_paddle_hit_flips_horizontal_and_counts() {
    let mut c = game();
    set_ball(&mut c, 25, 150, -2, 2);
    let player_before = c.player;
    let e = c.step_game(IDLE);
    assert_eq!(e, BallEvent::PlayerPaddle);
    assert_eq!(c.ball.speed_counter, 1);
    assert_eq!(c.ball.get_direction(), (2, 2));
    assert_eq!((c.ball.x, c.ball.y), (27, 152));
    // The defensive nudge leaves the paddle where it was.
    assert_eq!(c.player, player_before);
}

#[test]
fn opponent_paddle_hit_flips_horizontal() {
    let mut c = game();
    // Opponent paddle spans x 465..475, y 136..176; probe its left edge.
    set_ball(&mut c, 458, 150, 2, 2);
    let e = c.step_game(IDLE);
    assert_eq!(e, BallEvent::OpponentPaddle);
    assert_eq!(c.ball.get_direction().0, -2);
    assert_eq!(c.ball.speed_counter, 1);
}

#[test]
fn plain_advance_when_nothing_is_hit() {
    let mut c = game();
    set_ball(&mut c, 240, 136, 2, 2);
    let e = c.step_game(IDLE);
    assert_eq!(e, BallEvent::NoContact);
    assert_eq!((c.ball.x, c.ball.y), (242, 138));
}

#[test]
fn player_paddle_answers_held_input() {
    let mut c = game();
    set_ball(&mut c, 240, 136, 2, 2);
    c.step_game(press(true, false, false, false));
    assert_eq!(c.player.y, 132);
    set_ball(&mut c, 240, 136, 2, 2);
    c.step_game(press(false, true, false, false));
    assert_eq!(c.player.y, 136);
}

#[test]
fn player_paddle_clamps_at_screen_edges() {
    let mut c = game();
    c.player.y = 0;
    set_ball(&mut c, 240, 136, 2, 2);
    c.step_game(press(true, false, false, false));
    assert_eq!(c.player.y, 0);
    c.player.y = 232;
    set_ball(&mut c, 240, 136, 2, 2);
    c.step_game(press(false, true, false, false));
    assert_eq!(c.player.y, 232);
}

#[test]
fn start_edge_opens_menu_and_freezes_gameplay() {
    let mut c = game();
    let ball_before = c.ball;
    c.step_frame(press(false, false, true, false));
    assert!(c.menu_open);
    assert!(c.main_menu.visible);
    assert_eq!(c.ball, ball_before);
    // Menu open: further frames leave gameplay untouched.
    c.step_frame(IDLE);
    assert_eq!(c.ball, ball_before);
}

#[test]
fn menu_navigation_fires_once_per_press() {
    let mut c = game();
    c.step_frame(press(false, false, true, false));
    assert!(c.menu_open);
    // Holding Down across two frames moves the cursor only once.
    c.step_frame(press(false, true, false, false));
    c.step_frame(press(false, true, false, false));
    assert_eq!(c.main_menu.return_selected_index(), 1);
    // Release, press again: one more move, clamped thereafter.
    c.step_frame(IDLE);
    c.step_frame(press(false, true, false, false));
    assert_eq!(c.main_menu.return_selected_index(), 2);
    c.step_frame(IDLE);
    c.step_frame(press(false, true, false, false));
    assert_eq!(c.main_menu.return_selected_index(), 2);
    // And Up walks back, clamping at the top.
    for _ in 0..4 {
        c.step_frame(IDLE);
        c.step_frame(press(true, false, false, false));
    }
    assert_eq!(c.main_menu.return_selected_index(), 0);
}

#[test]
fn reset_score_clears_both_counters_and_closes() {
    let mut c = game();
    c.score.player = 3;
    c.score.opponent = 5;
    c.step_frame(press(false, false, true, false));
    c.step_frame(press(false, true, false, false));
    assert_eq!(c.main_menu.return_selected_index(), 1);
    c.step_frame(IDLE);
    c.step_frame(press(false, false, false, true));
    assert_eq!((c.score.player, c.score.opponent), (0, 0));
    assert!(!c.menu_open);
    assert!(!c.main_menu.visible);
    assert_eq!(c.main_menu.return_selected_index(), 0);
}

#[test]
fn close_menu_keeps_score() {
    let mut c = game();
    c.score.player = 2;
    c.step_frame(press(false, false, true, false));
    c.step_frame(press(false, true, false, false));
    c.step_frame(IDLE);
    c.step_frame(press(false, true, false, false));
    assert_eq!(c.main_menu.return_selected_index(), 2);
    c.step_frame(IDLE);
    c.step_frame(press(false, false, false, true));
    assert!(!c.menu_open);
    assert_eq!(c.score.player, 2);
}

#[test]
fn first_menu_item_is_a_stub() {
    let mut c = game();
    c.step_frame(press(false, false, true, false));
    c.step_frame(press(false, false, false, true));
    // Confirming "Set Difficulty" does nothing and keeps the menu open.
    assert!(c.menu_open);
    assert_eq!(c.main_menu.return_selected_index(), 0);
}

#[test]
fn held_start_does_not_reopen_after_close() {
    let mut c = game();
    c.step_frame(press(false, false, true, false));
    // Navigate to "Close Menu" and confirm, all while Start stays held.
    c.step_frame(press(false, true, true, false));
    c.step_frame(press(false, false, true, false));
    c.step_frame(press(false, true, true, false));
    c.step_frame(press(false, false, true, true));
    assert!(!c.menu_open);
    // Start is still held: the next frame is a gameplay step, not a reopen.
    c.step_frame(press(false, false, true, false));
    assert!(!c.menu_open);
    // After releasing, a fresh press opens the menu again.
    c.step_frame(IDLE);
    c.step_frame(press(false, false, true, false));
    assert!(c.menu_open);
}

#[test]
fn poll_paces_frames_and_drops_missed_intervals() {
    let mut c = game();
    assert_eq!(c.ticks_per_update, 50);
    set_ball(&mut c, 240, 136, 2, 2);
    assert!(!c.poll(30, IDLE));
    assert_eq!((c.ball.x, c.ball.y), (240, 136));
    assert_eq!(c.last_tick, 0);
    assert!(!c.poll(50, IDLE));
    assert!(c.poll(60, IDLE));
    assert_eq!(c.last_tick, 60);
    assert_eq!((c.ball.x, c.ball.y), (242, 138));
    // Far later: still exactly one step, no catch-up loop.
    assert!(c.poll(1000, IDLE));
    assert_eq!(c.last_tick, 1000);
    assert_eq!((c.ball.x, c.ball.y), (244, 140));
    assert!(!c.poll(1040, IDLE));
}

#[test]
fn goals_accumulate_independently() {
    let mut c = game();
    for _ in 0..3 {
        set_ball(&mut c, 5, 60, -3, 3);
        assert_eq!(c.step_game(IDLE), BallEvent::OpponentScored);
    }
    for _ in 0..2 {
        set_ball(&mut c, 476, 60, 3, 3);
        assert_eq!(c.step_game(IDLE), BallEvent::PlayerScored);
    }
    assert_eq!((c.score.player, c.score.opponent), (2, 3));
}

#[test]
fn speed_escalates_across_rallies_of_player_hits() {
    let mut c = game();
    // Three player-paddle hits escalate the horizontal magnitude to base+1.
    for _ in 0..3 {
        set_ball(&mut c, 25, 150, -2, 2);
        let e = c.step_game(IDLE);
        assert_eq!(e, BallEvent::PlayerPaddle);
    }
    assert_eq!(c.ball.speed_counter, 3);
    assert_eq!(c.ball.get_direction().0.abs(), 3);
}
