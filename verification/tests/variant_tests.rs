use arcade_core::breakout;
use arcade_core::spinner;

#[test]
fn breakout_skeleton_refreshes_its_display_once() {
    let mut s = breakout::MainState::new();
    assert_eq!(s.score_display, "begin");
    assert!(s.score_changed);
    s.step();
    assert_eq!(s.score_display, "Score: 0 Lives: 15");
    assert!(!s.score_changed);
    s.step();
    assert_eq!(s.score_display, "Score: 0 Lives: 15");
}

#[test]
fn breakout_render_twice_is_identical() {
    let mut s = breakout::MainState::new();
    s.step();
    let r1 = s.render_state();
    let r2 = s.render_state();
    assert_eq!(r1, r2);
    assert_eq!(r1.shapes.len(), 0);
    assert_eq!(r1.texts.len(), 1);
}

#[test]
fn breakout_terminal_message_appears() {
    let mut s = breakout::MainState::new();
    s.lives = -1;
    s.step();
    let r = s.render_state();
    assert_eq!(r.texts.len(), 2);
    assert_eq!(r.texts[1].text, "You Ded :(");
}

#[test]
fn spinner_steps_and_wraps() {
    let mut s = spinner::MainState::new();
    assert_eq!(s.pos_x, 0);
    s.update();
    assert_eq!(s.pos_x, 10);
    s.pos_x = 7990;
    s.update();
    assert_eq!(s.pos_x, 8000);
    s.update();
    assert_eq!(s.pos_x, 10);
}

#[test]
fn spinner_render_twice_is_identical() {
    let mut s = spinner::MainState::new();
    s.update();
    let r1 = s.render_state();
    let r2 = s.render_state();
    assert_eq!(r1, r2);
    assert_eq!(r1.shapes.len(), 1);
}
