use arcade_core::config::ConfigError;
use arcade_core::frogger::{Enemy, FroggerConfig, MainState};
use arcade_core::geom::GameRect;
use arcade_core::input::{Key, KeyAction, KeyEvent};

fn world() -> MainState {
    MainState::new(FroggerConfig::standard()).expect("the standard configuration is valid")
}

fn no_events() -> Vec<KeyEvent> {
    Vec::new()
}

fn press(key: Key) -> Vec<KeyEvent> {
    vec![KeyEvent { key, action: KeyAction::Pressed }]
}

fn hazard_at(x: i64, y: i64, w: i64, vel_x: i64) -> Enemy {
    Enemy { body: GameRect { x, y, w, h: 320 }, vel_x, lane: 0 }
}

#[test]
fn frogger_new_world_has_documented_start_state() {
    let s = world();
    assert_eq!(s.lives, 15);
    assert_eq!(s.max_enemies, 22);
    assert_eq!(s.score, 0);
    assert!(s.score_changed);
    assert_eq!(s.score_display, "begin");
    assert_eq!(s.player.body.x, 1600);
    assert_eq!(s.player.body.y, 6080);
    assert_eq!(s.enms.len(), 0);
    assert!(s.check_wf());
}

#[test]
fn undersized_window_is_rejected() {
    let mut c = FroggerConfig::standard();
    c.window_h = 5000;
    assert_eq!(MainState::new(c).err(), Some(ConfigError::WindowTooSmall));
}

#[test]
fn negative_lives_are_rejected() {
    let mut c = FroggerConfig::standard();
    c.lives = -1;
    assert_eq!(MainState::new(c).err(), Some(ConfigError::LivesOutOfRange));
}

#[test]
fn negative_spawn_limit_is_rejected() {
    let mut c = FroggerConfig::standard();
    c.max_enemies = -1;
    match MainState::new(c) {
        Err(e) => {
            assert_eq!(e, ConfigError::SpawnLimitOutOfRange);
            assert_eq!(e.text(), "spawn limit out of range");
        }
        Ok(_) => panic!("a negative spawn limit must be refused"),
    }
}

#[test]
fn winning_row_scores_and_ramps_difficulty() {
    let mut s = world();
    s.player.body.y = 640;
    s.step(&no_events());
    assert_eq!(s.score, 1);
    assert_eq!(s.max_enemies, 23);
    assert_eq!(s.player.body.x, 1600);
    assert_eq!(s.player.body.y, 6080);
    assert_eq!(s.reset_timer, 60);
    assert_eq!(s.score_display, "Score: 1 Lives: 15");
    assert_eq!(s.enms.len(), 1);
}

#[test]
fn one_overlapping_hazard_costs_one_life_and_respawns() {
    let mut s = world();
    s.player.body.x = 4000;
    s.player.body.y = 3200;
    s.enms.push(hazard_at(3900, 3100, 320, 10));
    s.step(&no_events());
    assert_eq!(s.lives, 14);
    assert_eq!(s.player.body.x, 1600);
    assert_eq!(s.player.body.y, 6080);
    assert_eq!(s.reset_timer, 60);
    assert_eq!(s.score_display, "Score: 0 Lives: 14");
}

#[test]
fn each_overlapping_hazard_costs_a_life() {
    let mut s = world();
    // The first hazard overlaps the frog where it stands; the second
    // overlaps the start square the frog respawns onto, so the same pass
    // charges it too: one life per overlapping hazard.
    s.player.body.x = 4000;
    s.player.body.y = 3200;
    s.enms.push(hazard_at(3900, 3100, 320, 10));
    s.enms.push(hazard_at(1500, 6000, 320, 10));
    s.step(&no_events());
    assert_eq!(s.lives, 13);
    assert_eq!(s.player.body.x, 1600);
    assert_eq!(s.player.body.y, 6080);
    assert_eq!(s.score_display, "Score: 0 Lives: 13");
}

#[test]
fn offscreen_hazard_is_culled_and_spawn_is_in_range() {
    let mut s = world();
    s.max_enemies = 1;
    s.enms.push(hazard_at(8330, 3200, 320, 10));
    s.step(&no_events());
    assert_eq!(s.enms.len(), 1);
    let e = s.enms[0];
    assert!(e.lane < 12);
    let speed = e.vel_x.abs();
    assert!(10 <= speed && speed < 30, "hazard speed out of range: {speed}");
    assert!(320 <= e.body.w && e.body.w <= 1600);
    assert_eq!(e.body.w % 320, 0);
    // Even lanes scroll leftward from past the right edge, odd lanes
    // rightward from past the left edge; all have moved one frame inward.
    if e.lane % 2 == 0 {
        assert!(e.vel_x < 0);
        assert_eq!(e.body.x, 8000 + 100 + e.vel_x);
    } else {
        assert!(e.vel_x > 0);
        assert_eq!(e.body.x, -e.body.w - 100 + e.vel_x);
    }
    assert_eq!(e.body.y, 6400 - (e.lane as i64 + 4) * 320);
}

#[test]
fn frog_steps_one_block_and_stops_at_edges() {
    let mut s = world();
    s.step(&press(Key::Up));
    assert_eq!(s.player.body.y, 6080 - 320);
    s.step(&press(Key::Left));
    assert_eq!(s.player.body.x, 1600 - 320);
    // At the top edge the step guard blocks the move; tested on the frog
    // directly, since a frog that high has already won the crossing.
    let mut f = arcade_core::frogger::Frog::new(FroggerConfig::standard());
    f.body.y = 320;
    f.move_up();
    assert_eq!(f.body.y, 320);
    let mut u = world();
    u.player.body.x = 320;
    u.step(&press(Key::Left));
    assert_eq!(u.player.body.x, 320);
}

#[test]
fn terminal_state_ignores_movement_and_shows_message() {
    let mut s = world();
    s.lives = -1;
    let y_before = s.player.body.y;
    s.step(&press(Key::Up));
    assert_eq!(s.player.body.y, y_before);
    let r = s.render_state();
    assert_eq!(r.texts.len(), 2);
    assert_eq!(r.texts[1].text, "You Ded :(");
    assert_eq!(r.texts[1].x, 4000);
    assert_eq!(r.texts[1].y, 3200);
}

#[test]
fn render_state_twice_is_identical_frogger() {
    let mut s = world();
    s.step(&no_events());
    let r1 = s.render_state();
    let r2 = s.render_state();
    assert_eq!(r1, r2);
    // goal band, frog, and one spawned hazard
    assert_eq!(r1.shapes.len(), 3);
}

#[test]
fn reset_substate_freezes_the_world() {
    let mut s = world();
    s.player.body.y = 640;
    s.step(&no_events());
    assert_eq!(s.reset_timer, 60);
    let enemies_before = s.enms.clone();
    s.step(&press(Key::Up));
    assert_eq!(s.reset_timer, 59);
    assert_eq!(s.enms, enemies_before);
    assert_eq!(s.player.body.y, 6080);
}
