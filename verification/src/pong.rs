//! The paddle-ball variant: two paddles, one ball, walls that reflect,
//! paddles that add spin and speed, and a score per side.
//!
//! Geometry is in fixed-point units (ten per pixel). The pause after a
//! point is a timed, non-interactive reset sub-state: while `reset_timer`
//! is positive a step only counts the timer down and ignores input.

use vstd::prelude::*;

use crate::config::ConfigError;
use crate::geom::{
    advance, div_trunc, half_i64, inc_sat, spec_advance, spec_div_trunc, spec_inc_sat,
    spec_vel_clamp, vel_clamp, ADV_LIMIT, ANCHOR_LIMIT, DIM_LIMIT, POS_LIMIT, VEL_LIMIT,
};
use crate::input::{Key, KeyAction, KeyEvent};
use crate::render::{ColorTag, RenderState, Shape, TextItem};
use crate::rng::rand_below;
use crate::text::{pong_text, spec_pong_text};

verus! {

/// Paddle width, in units.
pub const PLAYER_W: i64 = 320;

/// Paddle height, in units.
pub const PLAYER_H: i64 = 1280;

/// Ball radius, in units.
pub const BALL_RADIUS: i64 = 100;

/// How far a ball is nudged off a wall it just hit (a tenth of a pixel).
pub const EDGE_EPS: i64 = 1;

/// Reach tolerance of the paddle collision test (a fifth of a pixel).
pub const PADDLE_EPS: i64 = 2;

/// Clearance put between ball and paddle after a hit (one pixel).
pub const PADDLE_CLEAR: i64 = 10;

/// The left paddle's horizontal anchor.
pub const LEFT_PADDLE_X: i64 = 80;

/// The right paddle sits this far inside the right window edge.
pub const RIGHT_PADDLE_MARGIN: i64 = 400;

/// Both paddles start at this height.
pub const PLAYER_START_Y: i64 = 3000;

/// Spin divisor of the left paddle.
pub const SPIN_DIV_L: i64 = 20;

/// Spin divisor of the right paddle.
pub const SPIN_DIV_R: i64 = 30;

/// A serve after a point has horizontal speed in `[SERVE_MIN, SERVE_MIN + RAND_SPAN)`.
pub const SERVE_MIN: i64 = 10;

/// The opening serve has horizontal speed in `[OPENING_MIN, OPENING_MIN + RAND_SPAN)`.
pub const OPENING_MIN: i64 = 20;

/// Width of each randomized velocity range (one pixel per frame).
pub const RAND_SPAN: i64 = 10;

/// Fixed parameters of one paddle-ball world.
#[derive(Clone, Copy, PartialEq, Eq, Structural, Debug)]
pub struct PongConfig {
    pub window_w: i64,
    pub window_h: i64,
    pub paddle_speed: i64,
    pub ball_acc: i64,
    pub reset_frames: u32,
}

pub open spec fn spec_pong_valid(c: PongConfig) -> bool {
    &&& 1 <= c.window_w <= ANCHOR_LIMIT
    &&& 1 <= c.window_h <= ANCHOR_LIMIT
    &&& 0 <= c.paddle_speed <= VEL_LIMIT
    &&& 0 <= c.ball_acc <= VEL_LIMIT
}

/// The first reason, in checking order, for which a configuration is refused.
pub open spec fn spec_pong_config_error(c: PongConfig) -> ConfigError {
    if c.window_w < 1 || c.window_h < 1 {
        ConfigError::WindowTooSmall
    } else if c.window_w > ANCHOR_LIMIT || c.window_h > ANCHOR_LIMIT {
        ConfigError::WindowTooLarge
    } else if c.paddle_speed < 0 || c.paddle_speed > VEL_LIMIT {
        ConfigError::PaddleSpeedOutOfRange
    } else {
        ConfigError::BallAccelOutOfRange
    }
}

impl PongConfig {
    /// The demo's stock configuration: a 900 by 700 pixel window,
    /// 3.5 pixels of paddle speed per frame, 0.2 pixels of acceleration per
    /// paddle hit, and a one-second pause at sixty frames per second.
    pub fn standard() -> (c: PongConfig)
        ensures
            c == (PongConfig {
                window_w: 9000,
                window_h: 7000,
                paddle_speed: 35,
                ball_acc: 2,
                reset_frames: 60,
            }),
            spec_pong_valid(c),
    {
        PongConfig { window_w: 9000, window_h: 7000, paddle_speed: 35, ball_acc: 2, reset_frames: 60 }
    }
}

/// The ball: a circle with a position and a per-frame velocity.
#[derive(Clone, Copy, PartialEq, Eq, Structural, Debug)]
pub struct Ball {
    pub x: i64,
    pub y: i64,
    pub vel_x: i64,
    pub vel_y: i64,
    pub radius: i64,
}

impl Ball {
    pub open spec fn wf(self) -> bool {
        &&& -POS_LIMIT <= self.x <= POS_LIMIT
        &&& -POS_LIMIT <= self.y <= POS_LIMIT
        &&& -VEL_LIMIT <= self.vel_x <= VEL_LIMIT
        &&& -VEL_LIMIT <= self.vel_y <= VEL_LIMIT
        &&& 0 <= self.radius <= DIM_LIMIT
    }

    /// A fresh ball at the window's center, served rightward with a
    /// randomized velocity: `vel_x` in `[OPENING_MIN, OPENING_MIN + RAND_SPAN)`,
    /// `vel_y` in `[0, RAND_SPAN)`.
    pub fn new(window_w: i64, window_h: i64) -> (b: Ball)
        requires
            1 <= window_w <= ANCHOR_LIMIT,
            1 <= window_h <= ANCHOR_LIMIT,
        ensures
            b.x == window_w as int / 2,
            b.y == window_h as int / 2,
            OPENING_MIN <= b.vel_x < OPENING_MIN + RAND_SPAN,
            0 <= b.vel_y < RAND_SPAN,
            b.radius == BALL_RADIUS,
            b.wf(),
    {
        let vx = rand_below(RAND_SPAN as u64) as i64 + OPENING_MIN;
        let vy = rand_below(RAND_SPAN as u64) as i64;
        Ball {
            x: half_i64(window_w),
            y: half_i64(window_h),
            vel_x: vx,
            vel_y: vy,
            radius: BALL_RADIUS,
        }
    }

    /// One frame of motion: the position moves by exactly the velocity.
    pub fn update(&mut self)
        requires
            old(self).wf(),
        ensures
            *final(self) == (Ball {
                x: spec_advance(old(self).x as int, old(self).vel_x as int) as i64,
                y: spec_advance(old(self).y as int, old(self).vel_y as int) as i64,
                ..*old(self)
            }),
            -ADV_LIMIT <= old(self).x + old(self).vel_x <= ADV_LIMIT ==> final(self).x == old(
                self,
            ).x + old(self).vel_x,
            -ADV_LIMIT <= old(self).y + old(self).vel_y <= ADV_LIMIT ==> final(self).y == old(
                self,
            ).y + old(self).vel_y,
            final(self).wf(),
    {
        self.x = advance(self.x, self.vel_x);
        self.y = advance(self.y, self.vel_y);
    }
}

/// Which side a paddle defends.
#[derive(Clone, Copy, PartialEq, Eq, Structural, Debug)]
pub enum PlayerSide {
    Left,
    Right,
}

/// A paddle: fixed horizontal anchor, vertical velocity, and a latch that
/// says whether the velocity is currently applied.
#[derive(Clone, Copy, PartialEq, Eq, Structural, Debug)]
pub struct Player {
    pub x: i64,
    pub y: i64,
    pub vel_y: i64,
    pub moving: bool,
}

pub open spec fn spec_player_start_x(c: PongConfig, side: PlayerSide) -> int {
    match side {
        PlayerSide::Left => LEFT_PADDLE_X as int,
        PlayerSide::Right => c.window_w - RIGHT_PADDLE_MARGIN,
    }
}

pub open spec fn spec_move_up(p: Player, speed: int) -> Player {
    Player { vel_y: (-speed) as i64, moving: true, ..p }
}

pub open spec fn spec_move_down(p: Player, speed: int) -> Player {
    Player { vel_y: speed as i64, moving: true, ..p }
}

pub open spec fn spec_stop(p: Player) -> Player {
    Player { moving: false, ..p }
}

/// One frame of paddle motion: the velocity applies only while the latch is
/// set, then the paddle is clamped to the window's vertical extent.
pub open spec fn spec_player_update(p: Player, window_h: int) -> Player {
    let y1 = if p.moving {
        spec_advance(p.y as int, p.vel_y as int)
    } else {
        p.y as int
    };
    let y2 = if y1 <= 0 {
        0
    } else {
        y1
    };
    let y3 = if y2 + PLAYER_H >= window_h {
        window_h - PLAYER_H
    } else {
        y2
    };
    Player { y: y3 as i64, ..p }
}

impl Player {
    pub open spec fn wf(self) -> bool {
        &&& -ANCHOR_LIMIT <= self.x <= ANCHOR_LIMIT
        &&& -POS_LIMIT <= self.y <= POS_LIMIT
        &&& -VEL_LIMIT <= self.vel_y <= VEL_LIMIT
    }

    pub fn new(c: PongConfig, side: PlayerSide) -> (p: Player)
        requires
            spec_pong_valid(c),
        ensures
            p == (Player {
                x: spec_player_start_x(c, side) as i64,
                y: PLAYER_START_Y,
                vel_y: 0,
                moving: false,
            }),
            p.wf(),
    {
        Player {
            x: match side {
                PlayerSide::Left => LEFT_PADDLE_X,
                PlayerSide::Right => c.window_w - RIGHT_PADDLE_MARGIN,
            },
            y: PLAYER_START_Y,
            vel_y: 0,
            moving: false,
        }
    }

    pub fn update(&mut self, window_h: i64)
        requires
            old(self).wf(),
            1 <= window_h <= ANCHOR_LIMIT,
        ensures
            *final(self) == spec_player_update(*old(self), window_h as int),
            final(self).wf(),
    {
        if self.moving {
            self.y = advance(self.y, self.vel_y);
        }
        if self.y <= 0 {
            self.y = 0;
        }
        if self.y + PLAYER_H >= window_h {
            self.y = window_h - PLAYER_H;
        }
    }

    /// Sets an upward velocity and the latch.
    pub fn move_up(&mut self, speed: i64)
        requires
            0 <= speed <= VEL_LIMIT,
        ensures
            *final(self) == spec_move_up(*old(self), speed as int),
    {
        self.vel_y = -speed;
        self.moving = true;
    }

    /// Sets a downward velocity and the latch.
    pub fn move_down(&mut self, speed: i64)
        requires
            0 <= speed <= VEL_LIMIT,
        ensures
            *final(self) == spec_move_down(*old(self), speed as int),
    {
        self.vel_y = speed;
        self.moving = true;
    }

    /// Clears the latch: the velocity is retained but no longer applied.
    pub fn stop(&mut self)
        ensures
            *final(self) == spec_stop(*old(self)),
    {
        self.moving = false;
    }
}

/// The full mutable state of one paddle-ball world.
pub struct MainState {
    pub config: PongConfig,
    pub score: (u32, u32),
    pub hits: u32,
    pub score_changed: bool,
    pub player_l: Player,
    pub player_r: Player,
    pub ball: Ball,
    pub score_display: String,
    pub reset_timer: u32,
}

/// The mathematical content of a paddle-ball world; the fixed configuration
/// is carried alongside, not in the view.
pub struct PongView {
    pub score: (u32, u32),
    pub hits: u32,
    pub score_changed: bool,
    pub player_l: Player,
    pub player_r: Player,
    pub ball: Ball,
    pub reset_timer: u32,
    pub display: Seq<char>,
}

impl View for MainState {
    type V = PongView;

    open spec fn view(&self) -> PongView {
        PongView {
            score: self.score,
            hits: self.hits,
            score_changed: self.score_changed,
            player_l: self.player_l,
            player_r: self.player_r,
            ball: self.ball,
            reset_timer: self.reset_timer,
            display: self.score_display@,
        }
    }
}

/// A pressed key sets a paddle's velocity and latch; the left paddle answers
/// to `MoveUp`/`MoveDown`, the right to `Up`/`Down`.
pub open spec fn spec_key_down(v: PongView, c: PongConfig, key: Key) -> PongView {
    match key {
        Key::MoveUp => PongView { player_l: spec_move_up(v.player_l, c.paddle_speed as int), ..v },
        Key::MoveDown => PongView {
            player_l: spec_move_down(v.player_l, c.paddle_speed as int),
            ..v
        },
        Key::Up => PongView { player_r: spec_move_up(v.player_r, c.paddle_speed as int), ..v },
        Key::Down => PongView { player_r: spec_move_down(v.player_r, c.paddle_speed as int), ..v },
        _ => v,
    }
}

/// A released key clears the owning paddle's latch.
pub open spec fn spec_key_up(v: PongView, key: Key) -> PongView {
    match key {
        Key::MoveUp => PongView { player_l: spec_stop(v.player_l), ..v },
        Key::MoveDown => PongView { player_l: spec_stop(v.player_l), ..v },
        Key::Up => PongView { player_r: spec_stop(v.player_r), ..v },
        Key::Down => PongView { player_r: spec_stop(v.player_r), ..v },
        _ => v,
    }
}

pub open spec fn spec_apply_event(v: PongView, c: PongConfig, e: KeyEvent) -> PongView {
    match e.action {
        KeyAction::Pressed => spec_key_down(v, c, e.key),
        KeyAction::Released => spec_key_up(v, e.key),
    }
}

/// Queued events apply in order, before motion integration.
pub open spec fn spec_apply_events(v: PongView, c: PongConfig, es: Seq<KeyEvent>) -> PongView
    decreases es.len(),
{
    if es.len() == 0 {
        v
    } else {
        spec_apply_events(spec_apply_event(v, c, es[0]), c, es.drop_first())
    }
}

/// Both paddles and the ball move by their velocities.
pub open spec fn spec_motion(v: PongView, c: PongConfig) -> PongView {
    PongView {
        player_l: spec_player_update(v.player_l, c.window_h as int),
        player_r: spec_player_update(v.player_r, c.window_h as int),
        ball: (Ball {
            x: spec_advance(v.ball.x as int, v.ball.vel_x as int) as i64,
            y: spec_advance(v.ball.y as int, v.ball.vel_y as int) as i64,
            ..v.ball
        }),
        ..v
    }
}

/// A ball touching the top or bottom wall has its vertical velocity flipped
/// and is nudged a tenth of a pixel back into the field.
pub open spec fn spec_wall_phase(v: PongView, c: PongConfig) -> PongView {
    let b = v.ball;
    let b1 = if b.y - b.radius <= 0 {
        (Ball {
            y: spec_advance(b.y as int, EDGE_EPS as int) as i64,
            vel_y: (-(b.vel_y as int)) as i64,
            ..b
        })
    } else {
        b
    };
    let b2 = if b1.y + b1.radius >= c.window_h {
        (Ball {
            y: spec_advance(b1.y as int, -EDGE_EPS as int) as i64,
            vel_y: (-(b1.vel_y as int)) as i64,
            ..b1
        })
    } else {
        b1
    };
    PongView { ball: b2, ..v }
}

/// A ball past the left or right edge scores for that side and is re-served
/// from the center: horizontal speed `rvx` away from the edge it left,
/// vertical speed `rvy`, rally count cleared, display dirty, and the world
/// put into its reset sub-state.
pub open spec fn spec_score_phase(v: PongView, c: PongConfig, rvx: int, rvy: int) -> PongView {
    let b = v.ball;
    let exited_left = b.x < 0;
    let exited_right = b.x > c.window_w;
    let score0 = if exited_left {
        spec_inc_sat(v.score.0)
    } else {
        v.score.0
    };
    let score1 = if exited_right {
        spec_inc_sat(v.score.1)
    } else {
        v.score.1
    };
    if exited_left || exited_right {
        let vx: int = if exited_left {
            rvx
        } else {
            -rvx
        };
        PongView {
            score: (score0, score1),
            hits: 0,
            score_changed: true,
            reset_timer: c.reset_frames,
            ball: (Ball {
                x: (c.window_w as int / 2) as i64,
                y: (c.window_h as int / 2) as i64,
                vel_x: vx as i64,
                vel_y: rvy as i64,
                radius: b.radius,
            }),
            ..v
        }
    } else {
        PongView { score: (score0, score1), ..v }
    }
}

/// A ball within reach of the left paddle gains spin proportional to where
/// on the paddle it hit, speeds up, flips direction, and is clamped clear of
/// the paddle.
pub open spec fn spec_paddle_left_phase(v: PongView, c: PongConfig) -> PongView {
    let b = v.ball;
    let pl = v.player_l;
    if b.x - b.radius <= pl.x + PLAYER_W + PADDLE_EPS && b.y + b.radius / 2 >= pl.y && b.y - b.radius
        / 2 < pl.y + PLAYER_H {
        let mid = pl.y + PLAYER_H as int / 2;
        let dif = b.y - mid;
        let vy = spec_vel_clamp(b.vel_y + spec_div_trunc(dif, SPIN_DIV_L as int)) as i64;
        let vx = spec_vel_clamp(c.ball_acc - b.vel_x) as i64;
        let x2 = if b.x <= PLAYER_W + pl.x {
            (pl.x + PLAYER_W + PADDLE_CLEAR + b.radius) as i64
        } else {
            b.x
        };
        PongView {
            ball: (Ball { x: x2, vel_x: vx, vel_y: vy, ..b }),
            hits: spec_inc_sat(v.hits),
            score_changed: true,
            ..v
        }
    } else {
        v
    }
}

/// The right paddle's mirror image of the left paddle rule, with its own
/// spin divisor and a slightly different reach test, kept exactly as the
/// motion rules have it.
pub open spec fn spec_paddle_right_phase(v: PongView, c: PongConfig) -> PongView {
    let b = v.ball;
    let pr = v.player_r;
    if b.x + b.radius >= pr.x - PADDLE_EPS && b.y + b.radius / 2 > pr.y && b.y - b.radius / 2 < pr.y
        + PLAYER_H {
        let mid = pr.y + PLAYER_H as int / 2;
        let dif = b.y - mid;
        let vy = spec_vel_clamp(b.vel_y + spec_div_trunc(dif, SPIN_DIV_R as int)) as i64;
        let vx = spec_vel_clamp(-(b.vel_x + c.ball_acc)) as i64;
        let x2 = if b.x >= pr.x {
            (pr.x - PADDLE_CLEAR - b.radius) as i64
        } else {
            b.x
        };
        PongView {
            ball: (Ball { x: x2, vel_x: vx, vel_y: vy, ..b }),
            hits: spec_inc_sat(v.hits),
            score_changed: true,
            ..v
        }
    } else {
        v
    }
}

/// Collision resolution in its fixed order: walls, scoring, left paddle,
/// right paddle.
pub open spec fn spec_collision(v: PongView, c: PongConfig, rvx: int, rvy: int) -> PongView {
    spec_paddle_right_phase(
        spec_paddle_left_phase(spec_score_phase(spec_wall_phase(v, c), c, rvx, rvy), c),
        c,
    )
}

/// A dirty display is regenerated from the counters and marked clean.
pub open spec fn spec_text_phase(v: PongView) -> PongView {
    if v.score_changed {
        PongView {
            display: spec_pong_text(v.score.0 as nat, v.score.1 as nat, v.hits as nat),
            score_changed: false,
            ..v
        }
    } else {
        v
    }
}

/// One logical frame. In the reset sub-state only the timer counts down;
/// otherwise queued events apply, everything moves, collisions resolve with
/// the serve randomness `rvx`/`rvy`, and a dirty display is regenerated.
pub open spec fn spec_step(
    v: PongView,
    c: PongConfig,
    es: Seq<KeyEvent>,
    rvx: int,
    rvy: int,
) -> PongView {
    if v.reset_timer > 0 {
        PongView { reset_timer: (v.reset_timer - 1) as u32, ..v }
    } else {
        spec_text_phase(spec_collision(spec_motion(spec_apply_events(v, c, es), c), c, rvx, rvy))
    }
}

pub proof fn lemma_apply_events_snoc(v: PongView, c: PongConfig, es: Seq<KeyEvent>, e: KeyEvent)
    ensures
        spec_apply_events(v, c, es.push(e)) == spec_apply_event(spec_apply_events(v, c, es), c, e),
    decreases es.len(),
{
    let p = es.push(e);
    assert(p.len() == es.len() + 1);
    assert(spec_apply_events(v, c, p) == spec_apply_events(spec_apply_event(v, c, p[0]), c,
        p.drop_first()));
    if es.len() == 0 {
        assert(p[0] == e);
        assert(p.drop_first() =~= Seq::<KeyEvent>::empty());
        assert(spec_apply_events(v, c, es) == v);
        assert(spec_apply_events(spec_apply_event(v, c, e), c, p.drop_first())
            == spec_apply_event(v, c, e));
    } else {
        assert(p[0] == es[0]);
        assert(p.drop_first() =~= es.drop_first().push(e));
        lemma_apply_events_snoc(spec_apply_event(v, c, es[0]), c, es.drop_first(), e);
        assert(spec_apply_events(v, c, es) == spec_apply_events(spec_apply_event(v, c, es[0]), c,
            es.drop_first()));
    }
}

/// Input events touch only the paddles: every other component of the view
/// is as it was.
pub proof fn lemma_apply_events_fix_rest(v: PongView, c: PongConfig, es: Seq<KeyEvent>)
    ensures
        spec_apply_events(v, c, es).score == v.score,
        spec_apply_events(v, c, es).hits == v.hits,
        spec_apply_events(v, c, es).score_changed == v.score_changed,
        spec_apply_events(v, c, es).ball == v.ball,
        spec_apply_events(v, c, es).reset_timer == v.reset_timer,
        spec_apply_events(v, c, es).display == v.display,
    decreases es.len(),
{
    if es.len() > 0 {
        lemma_apply_events_fix_rest(spec_apply_event(v, c, es[0]), c, es.drop_first());
    }
}

/// Law: a score only rises on a scoring event and never falls — no step
/// lowers either side's counter.
pub proof fn lemma_step_score_monotonic(
    v: PongView,
    c: PongConfig,
    es: Seq<KeyEvent>,
    rvx: int,
    rvy: int,
)
    ensures
        spec_step(v, c, es, rvx, rvy).score.0 >= v.score.0,
        spec_step(v, c, es, rvx, rvy).score.1 >= v.score.1,
{
    if v.reset_timer > 0 {
    } else {
        lemma_apply_events_fix_rest(v, c, es);
    }
}

impl MainState {
    /// Bounds under which every arithmetic step of the simulation fits.
    pub open spec fn wf(self) -> bool {
        &&& spec_pong_valid(self.config)
        &&& self.ball.wf()
        &&& self.player_l.wf()
        &&& self.player_r.wf()
    }

    /// Runtime check of `wf`, for callers outside verified code.
    pub fn check_wf(&self) -> (b: bool)
        ensures
            b == self.wf(),
    {
        1 <= self.config.window_w && self.config.window_w <= ANCHOR_LIMIT && 1
            <= self.config.window_h && self.config.window_h <= ANCHOR_LIMIT && 0
            <= self.config.paddle_speed && self.config.paddle_speed <= VEL_LIMIT && 0
            <= self.config.ball_acc && self.config.ball_acc <= VEL_LIMIT && -POS_LIMIT
            <= self.ball.x && self.ball.x <= POS_LIMIT && -POS_LIMIT <= self.ball.y && self.ball.y
            <= POS_LIMIT && -VEL_LIMIT <= self.ball.vel_x && self.ball.vel_x <= VEL_LIMIT
            && -VEL_LIMIT <= self.ball.vel_y && self.ball.vel_y <= VEL_LIMIT && 0
            <= self.ball.radius && self.ball.radius <= DIM_LIMIT && -ANCHOR_LIMIT
            <= self.player_l.x && self.player_l.x <= ANCHOR_LIMIT && -POS_LIMIT <= self.player_l.y
            && self.player_l.y <= POS_LIMIT && -VEL_LIMIT <= self.player_l.vel_y
            && self.player_l.vel_y <= VEL_LIMIT && -ANCHOR_LIMIT <= self.player_r.x
            && self.player_r.x <= ANCHOR_LIMIT && -POS_LIMIT <= self.player_r.y && self.player_r.y
            <= POS_LIMIT && -VEL_LIMIT <= self.player_r.vel_y && self.player_r.vel_y <= VEL_LIMIT
    }

    /// A new world, or the first reason its configuration is malformed.
    /// On success: zero scores, zero rally count, clean display reading the
    /// zero score line, paddles at their anchors, and a fresh center ball.
    pub fn new(c: PongConfig) -> (r: Result<MainState, ConfigError>)
        ensures
            match r {
                Ok(s) => {
                    &&& spec_pong_valid(c)
                    &&& s.config == c
                    &&& s.score == (0u32, 0u32)
                    &&& s.hits == 0
                    &&& !s.score_changed
                    &&& s.reset_timer == 0
                    &&& s.player_l == (Player {
                        x: spec_player_start_x(c, PlayerSide::Left) as i64,
                        y: PLAYER_START_Y,
                        vel_y: 0,
                        moving: false,
                    })
                    &&& s.player_r == (Player {
                        x: spec_player_start_x(c, PlayerSide::Right) as i64,
                        y: PLAYER_START_Y,
                        vel_y: 0,
                        moving: false,
                    })
                    &&& s.ball.x == c.window_w as int / 2
                    &&& s.ball.y == c.window_h as int / 2
                    &&& OPENING_MIN <= s.ball.vel_x < OPENING_MIN + RAND_SPAN
                    &&& 0 <= s.ball.vel_y < RAND_SPAN
                    &&& s.ball.radius == BALL_RADIUS
                    &&& s.score_display@ == "Score: 0x0"@
                    &&& s.wf()
                },
                Err(e) => !spec_pong_valid(c) && e == spec_pong_config_error(c),
            },
    {
        if c.window_w < 1 || c.window_h < 1 {
            Err(ConfigError::WindowTooSmall)
        } else if c.window_w > ANCHOR_LIMIT || c.window_h > ANCHOR_LIMIT {
            Err(ConfigError::WindowTooLarge)
        } else if c.paddle_speed < 0 || c.paddle_speed > VEL_LIMIT {
            Err(ConfigError::PaddleSpeedOutOfRange)
        } else if c.ball_acc < 0 || c.ball_acc > VEL_LIMIT {
            Err(ConfigError::BallAccelOutOfRange)
        } else {
            let display = String::from_str("Score: 0x0");
            Ok(
                MainState {
                    config: c,
                    score: (0, 0),
                    hits: 0,
                    score_changed: false,
                    player_l: Player::new(c, PlayerSide::Left),
                    player_r: Player::new(c, PlayerSide::Right),
                    ball: Ball::new(c.window_w, c.window_h),
                    score_display: display,
                    reset_timer: 0,
                },
            )
        }
    }

    /// Applies one pressed key.
    pub fn key_down_event(&mut self, key: Key)
        requires
            old(self).wf(),
        ensures
            final(self)@ == spec_key_down(old(self)@, old(self).config, key),
            final(self).config == old(self).config,
            final(self).wf(),
    {
        match key {
            Key::MoveUp => self.player_l.move_up(self.config.paddle_speed),
            Key::MoveDown => self.player_l.move_down(self.config.paddle_speed),
            Key::Up => self.player_r.move_up(self.config.paddle_speed),
            Key::Down => self.player_r.move_down(self.config.paddle_speed),
            _ => {},
        }
    }

    /// Applies one released key.
    pub fn key_up_event(&mut self, key: Key)
        requires
            old(self).wf(),
        ensures
            final(self)@ == spec_key_up(old(self)@, key),
            final(self).config == old(self).config,
            final(self).wf(),
    {
        match key {
            Key::MoveUp => self.player_l.stop(),
            Key::MoveDown => self.player_l.stop(),
            Key::Up => self.player_r.stop(),
            Key::Down => self.player_r.stop(),
            _ => {},
        }
    }

    fn wall_phase(&mut self)
        requires
            old(self).wf(),
        ensures
            final(self)@ == spec_wall_phase(old(self)@, old(self).config),
            final(self).config == old(self).config,
            final(self).wf(),
    {
        if self.ball.y - self.ball.radius <= 0 {
            self.ball.vel_y = -self.ball.vel_y;
            self.ball.y = advance(self.ball.y, EDGE_EPS);
        }
        if self.ball.y + self.ball.radius >= self.config.window_h {
            self.ball.vel_y = -self.ball.vel_y;
            self.ball.y = advance(self.ball.y, -EDGE_EPS);
        }
    }

    fn score_phase(&mut self, rvx: i64, rvy: i64)
        requires
            old(self).wf(),
            SERVE_MIN <= rvx < SERVE_MIN + RAND_SPAN,
            0 <= rvy < RAND_SPAN,
        ensures
            final(self)@ == spec_score_phase(old(self)@, old(self).config, rvx as int, rvy as int),
            final(self).config == old(self).config,
            final(self).wf(),
    {
        let exited_left = self.ball.x < 0;
        let exited_right = self.ball.x > self.config.window_w;
        if exited_left {
            self.score.0 = inc_sat(self.score.0);
        }
        if exited_right {
            self.score.1 = inc_sat(self.score.1);
        }
        if exited_left || exited_right {
            self.ball.vel_x = if exited_left {
                rvx
            } else {
                -rvx
            };
            self.ball.vel_y = rvy;
            self.ball.x = half_i64(self.config.window_w);
            self.ball.y = half_i64(self.config.window_h);
            self.score_changed = true;
            self.reset_timer = self.config.reset_frames;
            self.hits = 0;
        }
    }

    fn paddle_left_phase(&mut self)
        requires
            old(self).wf(),
        ensures
            final(self)@ == spec_paddle_left_phase(old(self)@, old(self).config),
            final(self).config == old(self).config,
            final(self).wf(),
    {
        let half_r = div_trunc(self.ball.radius, 2);
        if self.ball.x - self.ball.radius <= self.player_l.x + PLAYER_W + PADDLE_EPS
            && self.ball.y + half_r >= self.player_l.y && self.ball.y - half_r < self.player_l.y
            + PLAYER_H {
            let mid = self.player_l.y + PLAYER_H / 2;
            let dif = self.ball.y - mid;
            self.ball.vel_y = vel_clamp(self.ball.vel_y + div_trunc(dif, SPIN_DIV_L));
            self.ball.vel_x = vel_clamp(self.config.ball_acc - self.ball.vel_x);
            self.hits = inc_sat(self.hits);
            self.score_changed = true;
            if self.ball.x <= PLAYER_W + self.player_l.x {
                self.ball.x = self.player_l.x + PLAYER_W + PADDLE_CLEAR + self.ball.radius;
            }
        }
    }

    fn paddle_right_phase(&mut self)
        requires
            old(self).wf(),
        ensures
            final(self)@ == spec_paddle_right_phase(old(self)@, old(self).config),
            final(self).config == old(self).config,
            final(self).wf(),
    {
        let half_r = div_trunc(self.ball.radius, 2);
        if self.ball.x + self.ball.radius >= self.player_r.x - PADDLE_EPS && self.ball.y + half_r
            > self.player_r.y && self.ball.y - half_r < self.player_r.y + PLAYER_H {
            let mid = self.player_r.y + PLAYER_H / 2;
            let dif = self.ball.y - mid;
            self.ball.vel_y = vel_clamp(self.ball.vel_y + div_trunc(dif, SPIN_DIV_R));
            self.ball.vel_x = vel_clamp(-(self.ball.vel_x + self.config.ball_acc));
            self.hits = inc_sat(self.hits);
            self.score_changed = true;
            if self.ball.x >= self.player_r.x {
                self.ball.x = self.player_r.x - PADDLE_CLEAR - self.ball.radius;
            }
        }
    }

    /// Collision resolution against a given serve velocity, fully
    /// deterministic: walls, then scoring, then each paddle.
    pub fn collision_with(&mut self, rvx: i64, rvy: i64)
        requires
            old(self).wf(),
            SERVE_MIN <= rvx < SERVE_MIN + RAND_SPAN,
            0 <= rvy < RAND_SPAN,
        ensures
            final(self)@ == spec_collision(old(self)@, old(self).config, rvx as int, rvy as int),
            final(self).config == old(self).config,
            final(self).wf(),
    {
        self.wall_phase();
        self.score_phase(rvx, rvy);
        self.paddle_left_phase();
        self.paddle_right_phase();
    }

    /// Collision resolution as the frame loop runs it, drawing the serve
    /// velocity from the randomness source; the outcome is
    /// `spec_collision` for some serve in the documented ranges.
    pub fn collision(&mut self)
        requires
            old(self).wf(),
        ensures
            final(self).config == old(self).config,
            final(self).wf(),
            exists|rvx: int, rvy: int|
                SERVE_MIN <= rvx < SERVE_MIN + RAND_SPAN && 0 <= rvy < RAND_SPAN && final(self)@
                    == spec_collision(old(self)@, old(self).config, rvx, rvy),
    {
        let rvx = rand_below(RAND_SPAN as u64) as i64 + SERVE_MIN;
        let rvy = rand_below(RAND_SPAN as u64) as i64;
        self.collision_with(rvx, rvy);
        proof {
            assert(SERVE_MIN <= (rvx as int) && (rvx as int) < SERVE_MIN + RAND_SPAN && 0 <= (
            rvy as int) && (rvy as int) < RAND_SPAN && self@ == spec_collision(
                old(self)@,
                old(self).config,
                rvx as int,
                rvy as int,
            ));
        }
    }

    /// One logical frame, exactly `spec_step` for some serve velocity in the
    /// documented ranges.
    pub fn step(&mut self, events: &Vec<KeyEvent>)
        requires
            old(self).wf(),
        ensures
            final(self).config == old(self).config,
            final(self).wf(),
            exists|rvx: int, rvy: int|
                SERVE_MIN <= rvx < SERVE_MIN + RAND_SPAN && 0 <= rvy < RAND_SPAN && final(self)@
                    == spec_step(old(self)@, old(self).config, events@, rvx, rvy),
    {
        let ghost v0 = self@;
        let ghost c = self.config;
        if self.reset_timer > 0 {
            self.reset_timer = self.reset_timer - 1;
            proof {
                assert(self@ == spec_step(v0, c, events@, SERVE_MIN as int, 0));
            }
        } else {
            let mut i: usize = 0;
            while i < events.len()
                invariant
                    i <= events.len(),
                    self@ == spec_apply_events(v0, c, events@.take(i as int)),
                    self.config == c,
                    self.wf(),
                decreases events.len() - i,
            {
                let e = events[i];
                match e.action {
                    KeyAction::Pressed => self.key_down_event(e.key),
                    KeyAction::Released => self.key_up_event(e.key),
                }
                proof {
                    lemma_apply_events_snoc(v0, c, events@.take(i as int), e);
                    assert(events@.take(i as int).push(e) =~= events@.take(i as int + 1));
                }
                i = i + 1;
            }
            proof {
                assert(events@.take(events@.len() as int) =~= events@);
            }
            let ghost v1 = self@;
            let h = self.config.window_h;
            self.player_l.update(h);
            self.player_r.update(h);
            self.ball.update();
            proof {
                assert(self@ == spec_motion(v1, c));
            }
            let ghost v2 = self@;
            self.collision();
            let ghost (rvx, rvy) = choose|rvx: int, rvy: int|
                SERVE_MIN <= rvx < SERVE_MIN + RAND_SPAN && 0 <= rvy < RAND_SPAN && self@
                    == spec_collision(v2, c, rvx, rvy);
            if self.score_changed {
                self.score_display = pong_text(self.score.0, self.score.1, self.hits);
                self.score_changed = false;
            }
            proof {
                assert(self@ == spec_step(v0, c, events@, rvx, rvy));
            }
        }
    }

    /// The drawable content of the current frame: the midline, both
    /// paddles, the ball, and the score line.
    pub fn render_state(&self) -> (r: RenderState)
        requires
            self.wf(),
        ensures
            crate::render::spec_render_view(r) == spec_pong_render(self@, self.config),
    {
        let mut shapes: Vec<Shape> = Vec::new();
        shapes.push(
            Shape::Rect {
                x: half_i64(self.config.window_w) - 50,
                y: 100,
                w: 50,
                h: self.config.window_h - 200,
                color: ColorTag::White,
            },
        );
        shapes.push(
            Shape::Rect {
                x: self.player_l.x,
                y: self.player_l.y,
                w: PLAYER_W,
                h: PLAYER_H,
                color: ColorTag::White,
            },
        );
        shapes.push(
            Shape::Rect {
                x: self.player_r.x,
                y: self.player_r.y,
                w: PLAYER_W,
                h: PLAYER_H,
                color: ColorTag::White,
            },
        );
        shapes.push(Shape::Circle { x: self.ball.x, y: self.ball.y, radius: self.ball.radius });
        let mut texts: Vec<TextItem> = Vec::new();
        texts.push(TextItem { x: 500, y: 200, text: self.score_display.clone() });
        let r = RenderState { shapes, texts };
        proof {
            assert(r.shapes@ =~= spec_pong_render(self@, self.config).0);
            assert(r.texts@.map(|i: int, t: TextItem| crate::render::spec_text_item(t))
                =~= spec_pong_render(self@, self.config).1);
        }
        r
    }
}

/// The shapes and text lines a paddle-ball world draws as.
pub open spec fn spec_pong_render(v: PongView, c: PongConfig) -> (
    Seq<Shape>,
    Seq<(int, int, Seq<char>)>,
) {
    (
        seq![
            (Shape::Rect {
                x: (c.window_w as int / 2 - 50) as i64,
                y: 100,
                w: 50,
                h: (c.window_h - 200) as i64,
                color: ColorTag::White,
            }),
            (Shape::Rect {
                x: v.player_l.x,
                y: v.player_l.y,
                w: PLAYER_W,
                h: PLAYER_H,
                color: ColorTag::White,
            }),
            (Shape::Rect {
                x: v.player_r.x,
                y: v.player_r.y,
                w: PLAYER_W,
                h: PLAYER_H,
                color: ColorTag::White,
            }),
            (Shape::Circle { x: v.ball.x, y: v.ball.y, radius: v.ball.radius }),
        ],
        seq![(500int, 200int, v.display)],
    )
}

/// Law: rendering reads the world without changing it, so two renders with
/// no step in between have the same content.
pub proof fn lemma_render_state_idempotent(s: &MainState, r1: RenderState, r2: RenderState)
    requires
        crate::render::spec_render_view(r1) == spec_pong_render(s@, s.config),
        crate::render::spec_render_view(r2) == spec_pong_render(s@, s.config),
    ensures
        crate::render::spec_render_view(r1) == crate::render::spec_render_view(r2),
{
}

} // verus!
