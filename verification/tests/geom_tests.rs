use arcade_core::geom::{
    advance, collision, dec_sat, div_trunc, inc_sat, vel_clamp, GameRect, ADV_LIMIT, POS_LIMIT,
    VEL_LIMIT,
};

fn rect(x: i64, y: i64, w: i64, h: i64) -> GameRect {
    GameRect { x, y, w, h }
}

#[test]
fn overlap_when_rectangles_intersect() {
    let a = rect(0, 0, 100, 100);
    let b = rect(50, 50, 100, 100);
    assert!(collision(&a, &b));
}

#[test]
fn overlap_is_symmetric_on_samples() {
    let cases = [
        (rect(0, 0, 100, 100), rect(50, 50, 100, 100)),
        (rect(0, 0, 100, 100), rect(300, 300, 10, 10)),
        (rect(-50, -50, 60, 60), rect(0, 0, 100, 100)),
        (rect(0, 0, 100, 100), rect(100, 0, 100, 100)),
    ];
    for (a, b) in cases {
        assert_eq!(collision(&a, &b), collision(&b, &a));
    }
}

#[test]
fn edge_touch_is_no_overlap() {
    let a = rect(0, 0, 100, 100);
    let right_edge = rect(100, 0, 100, 100);
    let bottom_edge = rect(0, 100, 100, 100);
    let corner = rect(100, 100, 100, 100);
    assert!(!collision(&a, &right_edge));
    assert!(!collision(&a, &bottom_edge));
    assert!(!collision(&a, &corner));
}

#[test]
fn advance_adds_velocity_exactly() {
    assert_eq!(advance(5, 3), 8);
    assert_eq!(advance(-5, 3), -2);
    assert_eq!(advance(0, -7), -7);
}

#[test]
fn advance_saturates_at_model_limit() {
    assert_eq!(advance(POS_LIMIT, VEL_LIMIT), ADV_LIMIT);
    assert_eq!(advance(-POS_LIMIT, -VEL_LIMIT), -ADV_LIMIT);
}

#[test]
fn div_trunc_rounds_toward_zero() {
    assert_eq!(div_trunc(7, 2), 3);
    assert_eq!(div_trunc(-7, 2), -3);
    assert_eq!(div_trunc(-40, 30), -1);
    assert_eq!(div_trunc(0, 20), 0);
}

#[test]
fn counters_saturate_at_machine_limits() {
    assert_eq!(inc_sat(3), 4);
    assert_eq!(inc_sat(u32::MAX), u32::MAX);
    assert_eq!(dec_sat(0), -1);
    assert_eq!(dec_sat(i64::MIN), i64::MIN);
}

#[test]
fn vel_clamp_saturates() {
    assert_eq!(vel_clamp(123), 123);
    assert_eq!(vel_clamp(VEL_LIMIT + 5), VEL_LIMIT);
    assert_eq!(vel_clamp(-VEL_LIMIT - 5), -VEL_LIMIT);
}
