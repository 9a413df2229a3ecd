use arcade_core::config::ConfigError;
use arcade_core::input::{Key, KeyAction, KeyEvent};
use arcade_core::pong::{MainState, PongConfig};

fn world() -> MainState {
    MainState::new(PongConfig::standard()).expect("the standard configuration is valid")
}

fn no_events() -> Vec<KeyEvent> {
    Vec::new()
}

#[test]
fn pong_new_world_has_documented_start_state() {
    let s = world();
    assert_eq!(s.score, (0, 0));
    assert_eq!(s.hits, 0);
    assert!(!s.score_changed);
    assert_eq!(s.reset_timer, 0);
    assert_eq!(s.player_l.x, 80);
    assert_eq!(s.player_r.x, 9000 - 400);
    assert_eq!(s.player_l.y, 3000);
    assert_eq!(s.ball.x, 4500);
    assert_eq!(s.ball.y, 3500);
    assert_eq!(s.ball.radius, 100);
    assert!(20 <= s.ball.vel_x && s.ball.vel_x < 30);
    assert!(0 <= s.ball.vel_y && s.ball.vel_y < 10);
    assert_eq!(s.score_display, "Score: 0x0");
    assert!(s.check_wf());
}

#[test]
fn zero_sized_window_is_rejected() {
    let mut c = PongConfig::standard();
    c.window_w = 0;
    match MainState::new(c) {
        Err(e) => {
            assert_eq!(e, ConfigError::WindowTooSmall);
            assert_eq!(e.text(), "window too small");
        }
        Ok(_) => panic!("a zero-sized window must be refused"),
    }
}

#[test]
fn negative_paddle_speed_is_rejected() {
    let mut c = PongConfig::standard();
    c.paddle_speed = -1;
    assert_eq!(MainState::new(c).err(), Some(ConfigError::PaddleSpeedOutOfRange));
}

#[test]
fn negative_ball_acceleration_is_rejected() {
    let mut c = PongConfig::standard();
    c.ball_acc = -1;
    assert_eq!(MainState::new(c).err(), Some(ConfigError::BallAccelOutOfRange));
}

#[test]
fn ball_off_left_edge_scores_and_reserves() {
    let mut s = world();
    s.ball.x = -10;
    s.ball.y = 3500;
    s.ball.vel_x = 0;
    s.ball.vel_y = 0;
    s.step(&no_events());
    assert_eq!(s.score, (1, 0));
    assert_eq!(s.ball.x, 4500);
    assert_eq!(s.ball.y, 3500);
    assert!(10 <= s.ball.vel_x && s.ball.vel_x < 20);
    assert!(0 <= s.ball.vel_y && s.ball.vel_y < 10);
    assert_eq!(s.hits, 0);
    assert_eq!(s.reset_timer, 60);
    assert_eq!(s.score_display, "Score: 1x0 - Hits: 0");
}

#[test]
fn ball_off_right_edge_scores_for_the_other_side() {
    let mut s = world();
    s.ball.x = 9010;
    s.ball.y = 3500;
    s.ball.vel_x = 0;
    s.ball.vel_y = 0;
    s.step(&no_events());
    assert_eq!(s.score, (0, 1));
    assert_eq!(s.ball.x, 4500);
    assert!(-20 < s.ball.vel_x && s.ball.vel_x <= -10);
}

#[test]
fn ball_past_bottom_wall_bounces_back_inside() {
    let mut s = world();
    s.ball.x = 4500;
    s.ball.vel_x = 0;
    s.ball.y = 6910;
    s.ball.vel_y = 10;
    s.step(&no_events());
    assert_eq!(s.ball.vel_y, -10);
    assert_eq!(s.ball.y, 6919);
    assert!(s.ball.y <= 7000);
}

#[test]
fn right_paddle_hit_adds_spin_and_speed() {
    let mut s = world();
    s.ball.x = 8480;
    s.ball.y = 3600;
    s.ball.vel_x = 20;
    s.ball.vel_y = 0;
    s.step(&no_events());
    assert_eq!(s.ball.vel_x, -22);
    assert_eq!(s.ball.vel_y, -1);
    assert_eq!(s.hits, 1);
    assert_eq!(s.score_display, "Score: 0x0 - Hits: 1");
}

#[test]
fn reset_substate_only_counts_down() {
    let mut s = world();
    s.ball.x = -10;
    s.ball.vel_x = 0;
    s.ball.vel_y = 0;
    s.step(&no_events());
    assert_eq!(s.reset_timer, 60);
    let ball_before = s.ball;
    let events = vec![KeyEvent { key: Key::Up, action: KeyAction::Pressed }];
    s.step(&events);
    assert_eq!(s.reset_timer, 59);
    assert_eq!(s.ball, ball_before);
    assert!(!s.player_r.moving);
}

#[test]
fn key_latch_moves_and_stops_the_paddle() {
    let mut s = world();
    let press = vec![KeyEvent { key: Key::MoveUp, action: KeyAction::Pressed }];
    s.step(&press);
    assert_eq!(s.player_l.y, 3000 - 35);
    assert!(s.player_l.moving);
    let release = vec![KeyEvent { key: Key::MoveUp, action: KeyAction::Released }];
    s.step(&release);
    assert_eq!(s.player_l.y, 3000 - 35);
    assert!(!s.player_l.moving);
    assert_eq!(s.player_l.vel_y, -35);
}

#[test]
fn render_state_twice_is_identical() {
    let mut s = world();
    s.step(&no_events());
    let r1 = s.render_state();
    let r2 = s.render_state();
    assert_eq!(r1, r2);
    assert_eq!(r1.shapes.len(), 4);
    assert_eq!(r1.texts.len(), 1);
}
