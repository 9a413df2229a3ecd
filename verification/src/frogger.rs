//! The lane-crosser variant: a frog stepping one block at a time toward a
//! goal band, across lanes of randomized hazards that scroll in from the
//! sides.
//!
//! Geometry is in fixed-point units (ten per pixel), laid out in blocks of
//! 320 units (32 pixels). The pause after a win or a hit is the timed
//! reset sub-state, as in the paddle-ball variant.

use vstd::prelude::*;

use crate::config::ConfigError;
use crate::geom::{
    advance, collision, dec_sat, half_i64, inc_sat, spec_advance, spec_dec_sat, spec_inc_sat,
    spec_overlaps, GameRect, ADV_LIMIT, ANCHOR_LIMIT, DIM_LIMIT, POS_LIMIT, VEL_LIMIT,
};
use crate::input::{Key, KeyAction, KeyEvent};
use crate::render::{ColorTag, RenderState, Shape, TextItem};
use crate::rng::rand_below;
use crate::text::{score_lives_text, spec_score_lives_text};

verus! {

/// One block of the playfield grid (32 pixels).
pub const BLOCK_SIZE: i64 = 320;

/// The frog starts five blocks in from the left edge.
pub const FROG_START_COL: i64 = 5;

/// Hazards occupy this many lanes, counted up from four blocks above the
/// window's bottom edge.
pub const LANE_COUNT: u64 = 12;

/// Reaching this many blocks above the bottom edge wins a crossing.
pub const WIN_BAND_BLOCKS: i64 = 18;

/// Hazards spawn this far outside the window edge (ten pixels).
pub const SPAWN_MARGIN: i64 = 100;

/// A hazard's speed is drawn from `[HAZARD_SPEED_MIN, HAZARD_SPEED_MAX)`.
pub const HAZARD_SPEED_MIN: i64 = 10;

pub const HAZARD_SPEED_MAX: i64 = 30;

/// A hazard is one to this many blocks wide.
pub const HAZARD_BLOCKS_MAX: i64 = 5;

/// The difficulty ramp saturates here, a machine limit far past play.
pub const ENEMY_CAP: i64 = 1_000_000_000;

/// Fixed parameters of one lane-crosser world.
#[derive(Clone, Copy, PartialEq, Eq, Structural, Debug)]
pub struct FroggerConfig {
    pub window_w: i64,
    pub window_h: i64,
    pub lives: i64,
    pub max_enemies: i64,
    pub reset_frames: u32,
}

pub open spec fn spec_frogger_valid(c: FroggerConfig) -> bool {
    &&& 7 * BLOCK_SIZE <= c.window_w <= ANCHOR_LIMIT
    &&& WIN_BAND_BLOCKS * BLOCK_SIZE <= c.window_h <= ANCHOR_LIMIT
    &&& 0 <= c.lives <= ENEMY_CAP
    &&& 0 <= c.max_enemies <= ENEMY_CAP
}

/// The first reason, in checking order, for which a configuration is refused.
pub open spec fn spec_frogger_config_error(c: FroggerConfig) -> ConfigError {
    if c.window_w < 7 * BLOCK_SIZE || c.window_h < WIN_BAND_BLOCKS * BLOCK_SIZE {
        ConfigError::WindowTooSmall
    } else if c.window_w > ANCHOR_LIMIT || c.window_h > ANCHOR_LIMIT {
        ConfigError::WindowTooLarge
    } else if c.lives < 0 || c.lives > ENEMY_CAP {
        ConfigError::LivesOutOfRange
    } else {
        ConfigError::SpawnLimitOutOfRange
    }
}

impl FroggerConfig {
    /// The demo's stock configuration: a 25 by 20 block window,
    /// fifteen lives, up to 22 hazards, and a one-second pause at sixty
    /// frames per second.
    pub fn standard() -> (c: FroggerConfig)
        ensures
            c == (FroggerConfig {
                window_w: 8000,
                window_h: 6400,
                lives: 15,
                max_enemies: 22,
                reset_frames: 60,
            }),
            spec_frogger_valid(c),
    {
        FroggerConfig { window_w: 8000, window_h: 6400, lives: 15, max_enemies: 22, reset_frames: 60 }
    }
}

/// The player: one block-sized rectangle.
#[derive(Clone, Copy, PartialEq, Eq, Structural, Debug)]
pub struct Frog {
    pub body: GameRect,
}

/// The frog's start rectangle, keeping the extent of `f`'s body.
pub open spec fn spec_respawn(f: Frog, c: FroggerConfig) -> Frog {
    Frog {
        body: (GameRect {
            x: (FROG_START_COL * BLOCK_SIZE) as i64,
            y: (c.window_h - BLOCK_SIZE) as i64,
            ..f.body
        }),
    }
}

pub open spec fn spec_frog_start(c: FroggerConfig) -> Frog {
    Frog {
        body: (GameRect {
            x: (FROG_START_COL * BLOCK_SIZE) as i64,
            y: (c.window_h - BLOCK_SIZE) as i64,
            w: BLOCK_SIZE,
            h: BLOCK_SIZE,
        }),
    }
}

pub open spec fn spec_move_up(f: Frog) -> Frog {
    if f.body.y - BLOCK_SIZE > 0 {
        Frog { body: (GameRect { y: (f.body.y - BLOCK_SIZE) as i64, ..f.body }) }
    } else {
        f
    }
}

pub open spec fn spec_move_down(f: Frog, window_h: int) -> Frog {
    if f.body.y + BLOCK_SIZE < window_h {
        Frog { body: (GameRect { y: (f.body.y + BLOCK_SIZE) as i64, ..f.body }) }
    } else {
        f
    }
}

pub open spec fn spec_move_right(f: Frog, window_w: int) -> Frog {
    if f.body.x + BLOCK_SIZE < window_w - BLOCK_SIZE {
        Frog { body: (GameRect { x: (f.body.x + BLOCK_SIZE) as i64, ..f.body }) }
    } else {
        f
    }
}

pub open spec fn spec_move_left(f: Frog) -> Frog {
    if f.body.x - BLOCK_SIZE > 0 {
        Frog { body: (GameRect { x: (f.body.x - BLOCK_SIZE) as i64, ..f.body }) }
    } else {
        f
    }
}

impl Frog {
    pub fn new(c: FroggerConfig) -> (f: Frog)
        requires
            spec_frogger_valid(c),
        ensures
            f == spec_frog_start(c),
            f.body.wf(),
    {
        Frog {
            body: GameRect {
                x: FROG_START_COL * BLOCK_SIZE,
                y: c.window_h - BLOCK_SIZE,
                w: BLOCK_SIZE,
                h: BLOCK_SIZE,
            },
        }
    }

    /// One discrete step up, unless the block above would leave the window.
    pub fn move_up(&mut self)
        requires
            old(self).body.wf(),
        ensures
            *final(self) == spec_move_up(*old(self)),
            final(self).body.wf(),
    {
        if self.body.y - BLOCK_SIZE > 0 {
            self.body.y = self.body.y - BLOCK_SIZE;
        }
    }

    /// One discrete step down, stopping at the bottom edge.
    pub fn move_down(&mut self, window_h: i64)
        requires
            old(self).body.wf(),
            0 <= window_h <= ANCHOR_LIMIT,
        ensures
            *final(self) == spec_move_down(*old(self), window_h as int),
            final(self).body.wf(),
    {
        if self.body.y + BLOCK_SIZE < window_h {
            self.body.y = self.body.y + BLOCK_SIZE;
        }
    }

    /// One discrete step right, stopping a block short of the right edge.
    pub fn move_right(&mut self, window_w: i64)
        requires
            old(self).body.wf(),
            0 <= window_w <= ANCHOR_LIMIT,
        ensures
            *final(self) == spec_move_right(*old(self), window_w as int),
            final(self).body.wf(),
    {
        if self.body.x + BLOCK_SIZE < window_w - BLOCK_SIZE {
            self.body.x = self.body.x + BLOCK_SIZE;
        }
    }

    /// One discrete step left, stopping at the left edge.
    pub fn move_left(&mut self)
        requires
            old(self).body.wf(),
        ensures
            *final(self) == spec_move_left(*old(self)),
            final(self).body.wf(),
    {
        if self.body.x - BLOCK_SIZE > 0 {
            self.body.x = self.body.x - BLOCK_SIZE;
        }
    }
}

/// A hazard: a rectangle scrolling horizontally along its lane.
#[derive(Clone, Copy, PartialEq, Eq, Structural, Debug)]
pub struct Enemy {
    pub body: GameRect,
    pub vel_x: i64,
    pub lane: u32,
}

/// The hazard built from its three random draws: even lanes scroll leftward
/// and spawn off the right edge, odd lanes the reverse; the width is
/// `width_blocks` blocks; the lane fixes the height above the bottom edge.
pub open spec fn spec_enemy_from_parts(lane: int, speed: int, width_blocks: int, c: FroggerConfig) -> Enemy {
    let vel: int = if lane % 2 == 0 {
        -speed
    } else {
        speed
    };
    let width = width_blocks * BLOCK_SIZE;
    let x: int = if vel > 0 {
        -width - SPAWN_MARGIN
    } else {
        c.window_w + SPAWN_MARGIN
    };
    let y = c.window_h - (lane + 4) * BLOCK_SIZE;
    Enemy {
        body: (GameRect { x: x as i64, y: y as i64, w: width as i64, h: BLOCK_SIZE }),
        vel_x: vel as i64,
        lane: lane as u32,
    }
}

/// One frame of hazard motion.
pub open spec fn spec_enemy_update(e: Enemy) -> Enemy {
    Enemy {
        body: (GameRect { x: spec_advance(e.body.x as int, e.vel_x as int) as i64, ..e.body }),
        ..e
    }
}

impl Enemy {
    pub open spec fn wf(self) -> bool {
        &&& self.body.wf()
        &&& -VEL_LIMIT <= self.vel_x <= VEL_LIMIT
    }

    /// A deterministic constructor from the three random draws.
    pub fn from_parts(lane: u64, speed: i64, width_blocks: i64, c: FroggerConfig) -> (e: Enemy)
        requires
            lane < LANE_COUNT,
            HAZARD_SPEED_MIN <= speed < HAZARD_SPEED_MAX,
            1 <= width_blocks <= HAZARD_BLOCKS_MAX,
            spec_frogger_valid(c),
        ensures
            e == spec_enemy_from_parts(lane as int, speed as int, width_blocks as int, c),
            e.wf(),
    {
        let vel: i64 = if lane % 2 == 0 {
            -speed
        } else {
            speed
        };
        let width = width_blocks * BLOCK_SIZE;
        let x: i64 = if vel > 0 {
            -width - SPAWN_MARGIN
        } else {
            c.window_w + SPAWN_MARGIN
        };
        let y = c.window_h - (lane as i64 + 4) * BLOCK_SIZE;
        Enemy { body: GameRect { x, y, w: width, h: BLOCK_SIZE }, vel_x: vel, lane: lane as u32 }
    }

    /// A fresh hazard with randomized lane, speed, direction and width; the
    /// result is `spec_enemy_from_parts` for some draws in the documented
    /// ranges.
    pub fn new(c: FroggerConfig) -> (e: Enemy)
        requires
            spec_frogger_valid(c),
        ensures
            e.wf(),
            exists|lane: int, speed: int, wb: int|
                0 <= lane < LANE_COUNT && HAZARD_SPEED_MIN <= speed < HAZARD_SPEED_MAX && 1 <= wb
                    <= HAZARD_BLOCKS_MAX && e == spec_enemy_from_parts(lane, speed, wb, c),
    {
        let lane = rand_below(LANE_COUNT);
        let speed = rand_below((HAZARD_SPEED_MAX - HAZARD_SPEED_MIN) as u64) as i64
            + HAZARD_SPEED_MIN;
        let wb = rand_below(HAZARD_BLOCKS_MAX as u64) as i64 + 1;
        let e = Enemy::from_parts(lane, speed, wb, c);
        proof {
            assert(0 <= (lane as int) && (lane as int) < LANE_COUNT && HAZARD_SPEED_MIN <= (
            speed as int) && (speed as int) < HAZARD_SPEED_MAX && 1 <= (wb as int) && (wb as int)
                <= HAZARD_BLOCKS_MAX && e == spec_enemy_from_parts(
                lane as int,
                speed as int,
                wb as int,
                c,
            ));
        }
        e
    }

    /// One frame of motion: the hazard moves by exactly its velocity.
    pub fn update(&mut self)
        requires
            old(self).wf(),
        ensures
            *final(self) == spec_enemy_update(*old(self)),
            -ADV_LIMIT <= old(self).body.x + old(self).vel_x <= ADV_LIMIT ==> final(self).body.x
                == old(self).body.x + old(self).vel_x,
            final(self).wf(),
    {
        self.body.x = advance(self.body.x, self.vel_x);
    }
}

/// The full mutable state of one lane-crosser world.
pub struct MainState {
    pub config: FroggerConfig,
    pub max_enemies: i64,
    pub lives: i64,
    pub score: u32,
    pub score_changed: bool,
    pub score_display: String,
    pub player: Frog,
    pub enms: Vec<Enemy>,
    pub reset_timer: u32,
}

/// The mathematical content of a lane-crosser world.
pub struct FroggerView {
    pub max_enemies: i64,
    pub lives: i64,
    pub score: u32,
    pub score_changed: bool,
    pub player: Frog,
    pub enms: Seq<Enemy>,
    pub reset_timer: u32,
    pub display: Seq<char>,
}

impl View for MainState {
    type V = FroggerView;

    open spec fn view(&self) -> FroggerView {
        FroggerView {
            max_enemies: self.max_enemies,
            lives: self.lives,
            score: self.score,
            score_changed: self.score_changed,
            player: self.player,
            enms: self.enms@,
            reset_timer: self.reset_timer,
            display: self.score_display@,
        }
    }
}

/// A pressed key moves the frog one block, unless the world is in its
/// terminal state (lives below zero), which ignores movement input.
pub open spec fn spec_key_down(v: FroggerView, c: FroggerConfig, key: Key) -> FroggerView {
    if v.lives >= 0 {
        match key {
            Key::Up => FroggerView { player: spec_move_up(v.player), ..v },
            Key::Down => FroggerView {
                player: spec_move_down(v.player, c.window_h as int),
                ..v
            },
            Key::Right => FroggerView {
                player: spec_move_right(v.player, c.window_w as int),
                ..v
            },
            Key::Left => FroggerView { player: spec_move_left(v.player), ..v },
            _ => v,
        }
    } else {
        v
    }
}

/// Released keys mean nothing to this variant: the frog moves one cell per
/// discrete key-down, with no repeat-while-held.
pub open spec fn spec_apply_event(v: FroggerView, c: FroggerConfig, e: KeyEvent) -> FroggerView {
    match e.action {
        KeyAction::Pressed => spec_key_down(v, c, e.key),
        KeyAction::Released => v,
    }
}

pub open spec fn spec_apply_events(v: FroggerView, c: FroggerConfig, es: Seq<KeyEvent>) -> FroggerView
    decreases es.len(),
{
    if es.len() == 0 {
        v
    } else {
        spec_apply_events(spec_apply_event(v, c, es[0]), c, es.drop_first())
    }
}

pub proof fn lemma_apply_events_snoc(v: FroggerView, c: FroggerConfig, es: Seq<KeyEvent>, e: KeyEvent)
    ensures
        spec_apply_events(v, c, es.push(e)) == spec_apply_event(spec_apply_events(v, c, es), c, e),
    decreases es.len(),
{
    let p = es.push(e);
    assert(spec_apply_events(v, c, p) == spec_apply_events(spec_apply_event(v, c, p[0]), c,
        p.drop_first()));
    if es.len() == 0 {
        assert(p[0] == e);
        assert(p.drop_first() =~= Seq::<KeyEvent>::empty());
        assert(spec_apply_events(v, c, es) == v);
        assert(spec_apply_events(spec_apply_event(v, c, e), c, p.drop_first())
            == spec_apply_event(v, c, e));
    } else {
        assert(p[0] == es[0]);
        assert(p.drop_first() =~= es.drop_first().push(e));
        lemma_apply_events_snoc(spec_apply_event(v, c, es[0]), c, es.drop_first(), e);
        assert(spec_apply_events(v, c, es) == spec_apply_events(spec_apply_event(v, c, es[0]), c,
            es.drop_first()));
    }
}

/// A frog in the goal band scores a crossing: the score rises by one, the
/// frog respawns at its start, the hazard allowance grows by one (up to the
/// machine cap), the display is dirty, and the reset sub-state begins.
pub open spec fn spec_win_phase(v: FroggerView, c: FroggerConfig) -> FroggerView {
    if v.player.body.y <= c.window_h - WIN_BAND_BLOCKS * BLOCK_SIZE {
        FroggerView {
            score: spec_inc_sat(v.score),
            score_changed: true,
            player: spec_respawn(v.player, c),
            max_enemies: (if v.max_enemies < ENEMY_CAP {
                v.max_enemies + 1
            } else {
                v.max_enemies as int
            }) as i64,
            reset_timer: c.reset_frames,
            ..v
        }
    } else {
        v
    }
}

/// The hazard pass, exactly as the frame loop walks it: hazards are checked
/// in order against the frog's position at the time of the check; each
/// overlap costs a life and respawns the frog at its start, so later
/// hazards are checked against the start position. Returns the frog, the
/// lives, the dirty flag and the reset timer after the pass.
pub open spec fn spec_hazard_pass(
    enms: Seq<Enemy>,
    frog: Frog,
    lives: i64,
    dirty: bool,
    timer: u32,
    c: FroggerConfig,
) -> (Frog, i64, bool, u32)
    decreases enms.len(),
{
    if enms.len() == 0 {
        (frog, lives, dirty, timer)
    } else if spec_overlaps(frog.body, enms[0].body) {
        spec_hazard_pass(
            enms.drop_first(),
            spec_respawn(frog, c),
            spec_dec_sat(lives),
            true,
            c.reset_frames,
            c,
        )
    } else {
        spec_hazard_pass(enms.drop_first(), frog, lives, dirty, timer, c)
    }
}

pub open spec fn spec_collision_phase(v: FroggerView, c: FroggerConfig) -> FroggerView {
    let out = spec_hazard_pass(v.enms, v.player, v.lives, v.score_changed, v.reset_timer, c);
    FroggerView { player: out.0, lives: out.1, score_changed: out.2, reset_timer: out.3, ..v }
}

/// A hazard survives the cull while any part of it is within a block of the
/// window.
pub open spec fn spec_keep(e: Enemy, w: int) -> bool {
    e.body.x < w + BLOCK_SIZE && e.body.x + e.body.w + BLOCK_SIZE > 0
}

pub open spec fn spec_retain(s: Seq<Enemy>, w: int) -> Seq<Enemy>
    decreases s.len(),
{
    if s.len() == 0 {
        Seq::empty()
    } else if spec_keep(s[0], w) {
        seq![s[0]] + spec_retain(s.drop_first(), w)
    } else {
        spec_retain(s.drop_first(), w)
    }
}

pub proof fn lemma_retain_snoc(s: Seq<Enemy>, e: Enemy, w: int)
    ensures
        spec_retain(s.push(e), w) == spec_retain(s, w) + (if spec_keep(e, w) {
            seq![e]
        } else {
            Seq::<Enemy>::empty()
        }),
    decreases s.len(),
{
    let p = s.push(e);
    let tail: Seq<Enemy> = if spec_keep(e, w) {
        seq![e]
    } else {
        Seq::<Enemy>::empty()
    };
    if s.len() == 0 {
        assert(p[0] == e);
        assert(p.drop_first() =~= Seq::<Enemy>::empty());
        assert(spec_retain(Seq::<Enemy>::empty(), w) =~= Seq::<Enemy>::empty());
        assert(spec_retain(s, w) =~= Seq::<Enemy>::empty());
        assert(spec_retain(p, w) =~= tail);
    } else {
        assert(p[0] == s[0]);
        assert(p.drop_first() =~= s.drop_first().push(e));
        lemma_retain_snoc(s.drop_first(), e, w);
        if spec_keep(s[0], w) {
            assert(spec_retain(p, w) =~= spec_retain(s, w) + tail);
        } else {
            assert(spec_retain(p, w) =~= spec_retain(s, w) + tail);
        }
    }
}

pub open spec fn spec_retain_phase(v: FroggerView, c: FroggerConfig) -> FroggerView {
    FroggerView { enms: spec_retain(v.enms, c.window_w as int), ..v }
}

/// While the hazard count is below the allowance, one new randomized hazard
/// appears per frame.
pub open spec fn spec_spawn_phase(
    v: FroggerView,
    c: FroggerConfig,
    lane: int,
    speed: int,
    wb: int,
) -> FroggerView {
    if v.enms.len() < v.max_enemies {
        FroggerView { enms: v.enms.push(spec_enemy_from_parts(lane, speed, wb, c)), ..v }
    } else {
        v
    }
}

pub open spec fn spec_advance_phase(v: FroggerView) -> FroggerView {
    FroggerView { enms: v.enms.map_values(|e: Enemy| spec_enemy_update(e)), ..v }
}

/// A dirty display is regenerated from the counters and marked clean.
pub open spec fn spec_text_phase(v: FroggerView) -> FroggerView {
    if v.score_changed {
        FroggerView {
            display: spec_score_lives_text(v.score as nat, v.lives as int),
            score_changed: false,
            ..v
        }
    } else {
        v
    }
}

/// How many lives the hazard pass costs: one per hazard that overlaps the
/// frog's position at the time that hazard is checked.
pub open spec fn spec_penalty(enms: Seq<Enemy>, frog: Frog, c: FroggerConfig) -> nat
    decreases enms.len(),
{
    if enms.len() == 0 {
        0
    } else if spec_overlaps(frog.body, enms[0].body) {
        1 + spec_penalty(enms.drop_first(), spec_respawn(frog, c), c)
    } else {
        spec_penalty(enms.drop_first(), frog, c)
    }
}

/// Law: the hazard pass decrements `lives` once per overlapping hazard (in
/// the order-sensitive sense of `spec_penalty`, which matches the pass), and
/// any hit leaves the frog at its start, the display dirty, and the reset
/// sub-state armed; a pass with no hit changes nothing.
pub proof fn lemma_hazard_pass_penalty(
    enms: Seq<Enemy>,
    frog: Frog,
    lives: i64,
    dirty: bool,
    timer: u32,
    c: FroggerConfig,
)
    requires
        i64::MIN + spec_penalty(enms, frog, c) <= lives,
    ensures
        spec_hazard_pass(enms, frog, lives, dirty, timer, c).1 == lives - spec_penalty(
            enms,
            frog,
            c,
        ),
        spec_hazard_pass(enms, frog, lives, dirty, timer, c).0 == (if spec_penalty(enms, frog, c)
            > 0 {
            spec_respawn(frog, c)
        } else {
            frog
        }),
        spec_hazard_pass(enms, frog, lives, dirty, timer, c).2 == (spec_penalty(enms, frog, c) > 0
            || dirty),
        spec_hazard_pass(enms, frog, lives, dirty, timer, c).3 == (if spec_penalty(enms, frog, c)
            > 0 {
            c.reset_frames
        } else {
            timer
        }),
    decreases enms.len(),
{
    if enms.len() == 0 {
    } else if spec_overlaps(frog.body, enms[0].body) {
        lemma_hazard_pass_penalty(
            enms.drop_first(),
            spec_respawn(frog, c),
            spec_dec_sat(lives),
            true,
            c.reset_frames,
            c,
        );
        assert(spec_respawn(spec_respawn(frog, c), c) == spec_respawn(frog, c));
    } else {
        lemma_hazard_pass_penalty(enms.drop_first(), frog, lives, dirty, timer, c);
    }
}

/// Input events touch only the frog: every other component of the view is
/// as it was.
pub proof fn lemma_apply_events_fix_rest(v: FroggerView, c: FroggerConfig, es: Seq<KeyEvent>)
    ensures
        spec_apply_events(v, c, es).max_enemies == v.max_enemies,
        spec_apply_events(v, c, es).lives == v.lives,
        spec_apply_events(v, c, es).score == v.score,
        spec_apply_events(v, c, es).score_changed == v.score_changed,
        spec_apply_events(v, c, es).enms == v.enms,
        spec_apply_events(v, c, es).reset_timer == v.reset_timer,
        spec_apply_events(v, c, es).display == v.display,
    decreases es.len(),
{
    if es.len() > 0 {
        lemma_apply_events_fix_rest(spec_apply_event(v, c, es[0]), c, es.drop_first());
    }
}

pub proof fn lemma_hazard_pass_lives_monotonic(
    enms: Seq<Enemy>,
    frog: Frog,
    lives: i64,
    dirty: bool,
    timer: u32,
    c: FroggerConfig,
)
    ensures
        spec_hazard_pass(enms, frog, lives, dirty, timer, c).1 <= lives,
    decreases enms.len(),
{
    if enms.len() == 0 {
    } else if spec_overlaps(frog.body, enms[0].body) {
        lemma_hazard_pass_lives_monotonic(
            enms.drop_first(),
            spec_respawn(frog, c),
            spec_dec_sat(lives),
            true,
            c.reset_frames,
            c,
        );
    } else {
        lemma_hazard_pass_lives_monotonic(enms.drop_first(), frog, lives, dirty, timer, c);
    }
}

/// Law: lives only fall (on hazard hits), the score only rises (on
/// crossings), and the hazard allowance only rises — no step reverses any
/// of the three.
pub proof fn lemma_step_counters_monotonic(
    v: FroggerView,
    c: FroggerConfig,
    es: Seq<KeyEvent>,
    lane: int,
    speed: int,
    wb: int,
)
    ensures
        spec_step(v, c, es, lane, speed, wb).lives <= v.lives,
        spec_step(v, c, es, lane, speed, wb).score >= v.score,
        spec_step(v, c, es, lane, speed, wb).max_enemies >= v.max_enemies,
{
    if v.reset_timer > 0 {
    } else {
        lemma_apply_events_fix_rest(v, c, es);
        let v1 = spec_apply_events(v, c, es);
        let v2 = spec_win_phase(v1, c);
        lemma_hazard_pass_lives_monotonic(
            v2.enms,
            v2.player,
            v2.lives,
            v2.score_changed,
            v2.reset_timer,
            c,
        );
    }
}

/// One logical frame. In the reset sub-state only the timer counts down;
/// otherwise queued events apply, a goal-band frog scores, the hazard pass
/// runs, off-screen hazards are culled, at most one hazard spawns from the
/// draws `lane`/`speed`/`wb`, every hazard moves, and a dirty display is
/// regenerated.
pub open spec fn spec_step(
    v: FroggerView,
    c: FroggerConfig,
    es: Seq<KeyEvent>,
    lane: int,
    speed: int,
    wb: int,
) -> FroggerView {
    if v.reset_timer > 0 {
        FroggerView { reset_timer: (v.reset_timer - 1) as u32, ..v }
    } else {
        spec_text_phase(
            spec_advance_phase(
                spec_spawn_phase(
                    spec_retain_phase(
                        spec_collision_phase(spec_win_phase(spec_apply_events(v, c, es), c), c),
                        c,
                    ),
                    c,
                    lane,
                    speed,
                    wb,
                ),
            ),
        )
    }
}

impl MainState {
    /// Bounds under which every arithmetic step of the simulation fits, plus
    /// the structural invariant: never more hazards than the allowance.
    pub open spec fn wf(self) -> bool {
        &&& spec_frogger_valid(self.config)
        &&& self.player.body.wf()
        &&& forall|i: int| 0 <= i < self.enms@.len() ==> (#[trigger] self.enms@[i]).wf()
        &&& 0 <= self.max_enemies <= ENEMY_CAP
        &&& self.enms@.len() <= self.max_enemies
    }

    /// Runtime check of `wf`, for callers outside verified code.
    pub fn check_wf(&self) -> (b: bool)
        ensures
            b == self.wf(),
    {
        let c = self.config;
        if !(7 * BLOCK_SIZE <= c.window_w && c.window_w <= ANCHOR_LIMIT && WIN_BAND_BLOCKS
            * BLOCK_SIZE <= c.window_h && c.window_h <= ANCHOR_LIMIT && 0 <= c.lives && c.lives
            <= ENEMY_CAP && 0 <= c.max_enemies && c.max_enemies <= ENEMY_CAP) {
            return false;
        }
        let b = self.player.body;
        if !(-POS_LIMIT <= b.x && b.x <= POS_LIMIT && -POS_LIMIT <= b.y && b.y <= POS_LIMIT && 0
            <= b.w && b.w <= DIM_LIMIT && 0 <= b.h && b.h <= DIM_LIMIT) {
            return false;
        }
        if !(0 <= self.max_enemies && self.max_enemies <= ENEMY_CAP) {
            return false;
        }
        if self.enms.len() > self.max_enemies as usize {
            return false;
        }
        let mut i: usize = 0;
        while i < self.enms.len()
            invariant
                i <= self.enms.len(),
                forall|j: int| 0 <= j < i ==> (#[trigger] self.enms@[j]).wf(),
            decreases self.enms.len() - i,
        {
            let e = self.enms[i];
            if !(-POS_LIMIT <= e.body.x && e.body.x <= POS_LIMIT && -POS_LIMIT <= e.body.y
                && e.body.y <= POS_LIMIT && 0 <= e.body.w && e.body.w <= DIM_LIMIT && 0 <= e.body.h
                && e.body.h <= DIM_LIMIT && -VEL_LIMIT <= e.vel_x && e.vel_x <= VEL_LIMIT) {
                assert(!self.enms@[i as int].wf());
                return false;
            }
            i = i + 1;
        }
        true
    }

    /// A new world, or the first reason its configuration is malformed.
    /// On success: the configured lives and hazard allowance, zero score, no
    /// hazards yet, the frog at its start, and a dirty placeholder display.
    pub fn new(c: FroggerConfig) -> (r: Result<MainState, ConfigError>)
        ensures
            match r {
                Ok(s) => {
                    &&& spec_frogger_valid(c)
                    &&& s.config == c
                    &&& s.max_enemies == c.max_enemies
                    &&& s.lives == c.lives
                    &&& s.score == 0
                    &&& s.score_changed
                    &&& s.player == spec_frog_start(c)
                    &&& s.enms@ =~= Seq::<Enemy>::empty()
                    &&& s.reset_timer == 0
                    &&& s.score_display@ == "begin"@
                    &&& s.wf()
                },
                Err(e) => !spec_frogger_valid(c) && e == spec_frogger_config_error(c),
            },
    {
        if c.window_w < 7 * BLOCK_SIZE || c.window_h < WIN_BAND_BLOCKS * BLOCK_SIZE {
            Err(ConfigError::WindowTooSmall)
        } else if c.window_w > ANCHOR_LIMIT || c.window_h > ANCHOR_LIMIT {
            Err(ConfigError::WindowTooLarge)
        } else if c.lives < 0 || c.lives > ENEMY_CAP {
            Err(ConfigError::LivesOutOfRange)
        } else if c.max_enemies < 0 || c.max_enemies > ENEMY_CAP {
            Err(ConfigError::SpawnLimitOutOfRange)
        } else {
            Ok(
                MainState {
                    config: c,
                    max_enemies: c.max_enemies,
                    lives: c.lives,
                    score: 0,
                    score_changed: true,
                    score_display: String::from_str("begin"),
                    player: Frog::new(c),
                    enms: Vec::new(),
                    reset_timer: 0,
                },
            )
        }
    }

    /// Applies one pressed key; movement is ignored once lives are below
    /// zero (the terminal state) — drawing continues, input does not.
    pub fn key_down_event(&mut self, key: Key)
        requires
            old(self).wf(),
        ensures
            final(self)@ == spec_key_down(old(self)@, old(self).config, key),
            final(self).config == old(self).config,
            final(self).wf(),
    {
        if self.lives >= 0 {
            match key {
                Key::Up => self.player.move_up(),
                Key::Down => self.player.move_down(self.config.window_h),
                Key::Right => self.player.move_right(self.config.window_w),
                Key::Left => self.player.move_left(),
                _ => {},
            }
        }
    }

    /// One logical frame, exactly `spec_step` for some random draws in the
    /// documented ranges.
    pub fn step(&mut self, events: &Vec<KeyEvent>)
        requires
            old(self).wf(),
        ensures
            final(self).config == old(self).config,
            final(self).wf(),
            exists|lane: int, speed: int, wb: int|
                0 <= lane < LANE_COUNT && HAZARD_SPEED_MIN <= speed < HAZARD_SPEED_MAX && 1 <= wb
                    <= HAZARD_BLOCKS_MAX && final(self)@ == spec_step(
                    old(self)@,
                    old(self).config,
                    events@,
                    lane,
                    speed,
                    wb,
                ),
    {
        let ghost v0 = self@;
        let ghost c = self.config;
        if self.reset_timer > 0 {
            self.reset_timer = self.reset_timer - 1;
            proof {
                assert(self@ == spec_step(v0, c, events@, 0, HAZARD_SPEED_MIN as int, 1));
            }
        } else {
            let mut i: usize = 0;
            while i < events.len()
                invariant
                    i <= events.len(),
                    self@ == spec_apply_events(v0, c, events@.take(i as int)),
                    self.config == c,
                    self.wf(),
                decreases events.len() - i,
            {
                let e = events[i];
                match e.action {
                    KeyAction::Pressed => self.key_down_event(e.key),
                    KeyAction::Released => {},
                }
                proof {
                    lemma_apply_events_snoc(v0, c, events@.take(i as int), e);
                    assert(events@.take(i as int).push(e) =~= events@.take(i as int + 1));
                }
                i = i + 1;
            }
            proof {
                assert(events@.take(events@.len() as int) =~= events@);
            }
            let ghost v1 = self@;
            if self.player.body.y <= self.config.window_h - WIN_BAND_BLOCKS * BLOCK_SIZE {
                self.score = inc_sat(self.score);
                self.score_changed = true;
                self.player.body.y = self.config.window_h - BLOCK_SIZE;
                self.player.body.x = FROG_START_COL * BLOCK_SIZE;
                if self.max_enemies < ENEMY_CAP {
                    self.max_enemies = self.max_enemies + 1;
                }
                self.reset_timer = self.config.reset_frames;
            }
            proof {
                assert(self@ == spec_win_phase(v1, c));
            }
            let ghost v2 = self@;
            proof {
                assert(v2.enms.skip(0) =~= v2.enms);
            }
            let mut j: usize = 0;
            while j < self.enms.len()
                invariant
                    j <= self.enms.len(),
                    self.config == c,
                    self@.enms == v2.enms,
                    self@.max_enemies == v2.max_enemies,
                    self@.score == v2.score,
                    self@.display == v2.display,
                    spec_hazard_pass(v2.enms, v2.player, v2.lives, v2.score_changed, v2.reset_timer, c)
                        == spec_hazard_pass(
                        v2.enms.skip(j as int),
                        self.player,
                        self.lives,
                        self.score_changed,
                        self.reset_timer,
                        c,
                    ),
                    self.wf(),
                decreases self.enms.len() - j,
            {
                let ghost pre_frog = self.player;
                let e = self.enms[j];
                proof {
                    assert(v2.enms.skip(j as int)[0] == v2.enms[j as int]);
                    assert(v2.enms.skip(j as int).drop_first() =~= v2.enms.skip(j as int + 1));
                    assert(self.enms@[j as int].wf());
                }
                if collision(&self.player.body, &e.body) {
                    self.lives = dec_sat(self.lives);
                    self.player.body.y = self.config.window_h - BLOCK_SIZE;
                    self.player.body.x = FROG_START_COL * BLOCK_SIZE;
                    self.score_changed = true;
                    self.reset_timer = self.config.reset_frames;
                    proof {
                        assert(self.player == spec_respawn(pre_frog, c));
                    }
                }
                j = j + 1;
            }
            proof {
                assert(v2.enms.skip(v2.enms.len() as int) =~= Seq::<Enemy>::empty());
                assert(self@ == spec_collision_phase(v2, c));
            }
            let ghost v3 = self@;
            let mut kept: Vec<Enemy> = Vec::new();
            let mut k: usize = 0;
            while k < self.enms.len()
                invariant
                    k <= self.enms.len(),
                    self.config == c,
                    kept@ == spec_retain(v3.enms.take(k as int), c.window_w as int),
                    kept@.len() <= k,
                    forall|m: int| 0 <= m < kept@.len() ==> (#[trigger] kept@[m]).wf(),
                    self@ == v3,
                    self.wf(),
                decreases self.enms.len() - k,
            {
                let e = self.enms[k];
                proof {
                    assert(self.enms@[k as int].wf());
                    lemma_retain_snoc(v3.enms.take(k as int), e, c.window_w as int);
                    assert(v3.enms.take(k as int).push(e) =~= v3.enms.take(k as int + 1));
                }
                if e.body.x < self.config.window_w + BLOCK_SIZE && e.body.x + e.body.w + BLOCK_SIZE
                    > 0 {
                    kept.push(e);
                }
                k = k + 1;
            }
            proof {
                assert(v3.enms.take(v3.enms.len() as int) =~= v3.enms);
            }
            self.enms = kept;
            proof {
                assert(self@ == spec_retain_phase(v3, c));
            }
            let ghost v4 = self@;
            let ghost lane: int;
            let ghost speed: int;
            let ghost wb: int;
            if self.enms.len() < self.max_enemies as usize {
                let e = Enemy::new(self.config);
                proof {
                    let (l, s, w) = choose|l: int, s: int, w: int|
                        0 <= l < LANE_COUNT && HAZARD_SPEED_MIN <= s < HAZARD_SPEED_MAX && 1 <= w
                            <= HAZARD_BLOCKS_MAX && e == spec_enemy_from_parts(l, s, w, c);
                    lane = l;
                    speed = s;
                    wb = w;
                }
                self.enms.push(e);
            } else {
                proof {
                    lane = 0;
                    speed = HAZARD_SPEED_MIN as int;
                    wb = 1;
                }
            }
            proof {
                assert(self@ == spec_spawn_phase(v4, c, lane, speed, wb));
            }
            let ghost v5 = self@;
            let mut moved: Vec<Enemy> = Vec::new();
            let mut n: usize = 0;
            while n < self.enms.len()
                invariant
                    n <= self.enms.len(),
                    self.config == c,
                    moved@ =~= v5.enms.take(n as int).map_values(|e: Enemy| spec_enemy_update(e)),
                    forall|m: int| 0 <= m < moved@.len() ==> (#[trigger] moved@[m]).wf(),
                    self@ == v5,
                    self.wf(),
                decreases self.enms.len() - n,
            {
                let mut e = self.enms[n];
                proof {
                    assert(self.enms@[n as int].wf());
                }
                e.update();
                moved.push(e);
                proof {
                    assert(moved@ =~= v5.enms.take(n as int + 1).map_values(
                        |e: Enemy| spec_enemy_update(e),
                    ));
                }
                n = n + 1;
            }
            proof {
                assert(v5.enms.take(v5.enms.len() as int) =~= v5.enms);
                assert(moved@.len() == v5.enms.len());
            }
            self.enms = moved;
            proof {
                assert(self@.enms =~= spec_advance_phase(v5).enms);
                assert(self@ == spec_advance_phase(v5));
            }
            let ghost v6 = self@;
            if self.score_changed {
                self.score_display = score_lives_text(self.score, self.lives);
                self.score_changed = false;
            }
            proof {
                assert(self@ == spec_text_phase(v6));
                assert(self@ == spec_step(v0, c, events@, lane, speed, wb));
            }
        }
    }

    /// The drawable content of the current frame: the goal band, the frog,
    /// every hazard, the score line, and — once lives are below zero — the
    /// terminal message, drawing on while input is dead.
    pub fn render_state(&self) -> (r: RenderState)
        requires
            self.wf(),
        ensures
            crate::render::spec_render_view(r) == spec_frogger_render(self@, self.config),
    {
        let ghost v = self@;
        let ghost c = self.config;
        let mut shapes: Vec<Shape> = Vec::new();
        shapes.push(
            Shape::Rect {
                x: 0,
                y: self.config.window_h - WIN_BAND_BLOCKS * BLOCK_SIZE,
                w: self.config.window_w,
                h: BLOCK_SIZE,
                color: ColorTag::Cyan,
            },
        );
        shapes.push(
            Shape::Rect {
                x: self.player.body.x,
                y: self.player.body.y,
                w: self.player.body.w,
                h: self.player.body.h,
                color: ColorTag::Green,
            },
        );
        let mut i: usize = 0;
        while i < self.enms.len()
            invariant
                i <= self.enms.len(),
                self.config == c,
                self@ == v,
                shapes@ =~= spec_frogger_fixed_shapes(v, c) + v.enms.take(i as int).map_values(
                    |e: Enemy| spec_enemy_shape(e),
                ),
            decreases self.enms.len() - i,
        {
            let e = self.enms[i];
            shapes.push(
                Shape::Rect {
                    x: e.body.x,
                    y: e.body.y,
                    w: e.body.w,
                    h: e.body.h,
                    color: ColorTag::Red,
                },
            );
            proof {
                assert(shapes@ =~= spec_frogger_fixed_shapes(v, c) + v.enms.take(
                    i as int + 1,
                ).map_values(|e: Enemy| spec_enemy_shape(e)));
            }
            i = i + 1;
        }
        proof {
            assert(v.enms.take(v.enms.len() as int) =~= v.enms);
        }
        let mut texts: Vec<TextItem> = Vec::new();
        texts.push(TextItem { x: 500, y: 200, text: self.score_display.clone() });
        if self.lives < 0 {
            texts.push(
                TextItem {
                    x: half_i64(self.config.window_w),
                    y: half_i64(self.config.window_h),
                    text: String::from_str("You Ded :("),
                },
            );
        }
        let r = RenderState { shapes, texts };
        proof {
            assert(r.shapes@ =~= spec_frogger_render(v, c).0);
            assert(r.texts@.map(|idx: int, t: TextItem| crate::render::spec_text_item(t))
                =~= spec_frogger_render(v, c).1);
        }
        r
    }
}

/// The goal band and the frog, ahead of the hazards in draw order.
pub open spec fn spec_frogger_fixed_shapes(v: FroggerView, c: FroggerConfig) -> Seq<Shape> {
    seq![
        (Shape::Rect {
            x: 0,
            y: (c.window_h - WIN_BAND_BLOCKS * BLOCK_SIZE) as i64,
            w: c.window_w,
            h: BLOCK_SIZE,
            color: ColorTag::Cyan,
        }),
        (Shape::Rect {
            x: v.player.body.x,
            y: v.player.body.y,
            w: v.player.body.w,
            h: v.player.body.h,
            color: ColorTag::Green,
        }),
    ]
}

pub open spec fn spec_enemy_shape(e: Enemy) -> Shape {
    Shape::Rect { x: e.body.x, y: e.body.y, w: e.body.w, h: e.body.h, color: ColorTag::Red }
}

/// The shapes and text lines a lane-crosser world draws as.
pub open spec fn spec_frogger_render(v: FroggerView, c: FroggerConfig) -> (
    Seq<Shape>,
    Seq<(int, int, Seq<char>)>,
) {
    (
        spec_frogger_fixed_shapes(v, c) + v.enms.map_values(|e: Enemy| spec_enemy_shape(e)),
        if v.lives < 0 {
            seq![
                (500int, 200int, v.display),
                (c.window_w as int / 2, c.window_h as int / 2, "You Ded :("@),
            ]
        } else {
            seq![(500int, 200int, v.display)]
        },
    )
}

/// Law: rendering reads the world without changing it, so two renders with
/// no step in between have the same content.
pub proof fn lemma_render_state_idempotent(s: &MainState, r1: RenderState, r2: RenderState)
    requires
        crate::render::spec_render_view(r1) == spec_frogger_render(s@, s.config),
        crate::render::spec_render_view(r2) == spec_frogger_render(s@, s.config),
    ensures
        crate::render::spec_render_view(r1) == crate::render::spec_render_view(r2),
{
}

} // verus!
