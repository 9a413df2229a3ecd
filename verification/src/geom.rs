//! Fixed-point playfield geometry: rectangles, the strict overlap test,
//! and the saturating arithmetic every variant's motion rules use.

use vstd::prelude::*;

verus! {

/// Coordinate units per screen pixel of the playfields.
pub const SCALE: i64 = 10;

/// Positions admitted by the well-formedness predicates.
pub const POS_LIMIT: i64 = 1_000_000_000_000;

/// Motion integration saturates here, comfortably inside `POS_LIMIT` so the
/// small post-collision nudges and clamps stay admissible.
pub const ADV_LIMIT: i64 = 999_990_000_000;

/// Player-controlled entities never leave this much smaller band: their
/// horizontal placement comes straight from the window configuration.
pub const ANCHOR_LIMIT: i64 = 2_000_000_000;

/// Velocities saturate here (one hundred thousand pixels per frame).
pub const VEL_LIMIT: i64 = 1_000_000;

/// Entity extents (widths, heights, radii) are bounded by this.
pub const DIM_LIMIT: i64 = 1_000_000;

/// An axis-aligned rectangle of the playfield, in fixed-point units.
#[derive(Clone, Copy, PartialEq, Eq, Structural, Debug)]
pub struct GameRect {
    pub x: i64,
    pub y: i64,
    pub w: i64,
    pub h: i64,
}

impl GameRect {
    /// Bounds under which every arithmetic step of the simulation fits in `i64`.
    pub open spec fn wf(self) -> bool {
        &&& -POS_LIMIT <= self.x <= POS_LIMIT
        &&& -POS_LIMIT <= self.y <= POS_LIMIT
        &&& 0 <= self.w <= DIM_LIMIT
        &&& 0 <= self.h <= DIM_LIMIT
    }

    pub fn new(x: i64, y: i64, w: i64, h: i64) -> (r: GameRect)
        ensures
            r == (GameRect { x, y, w, h }),
    {
        GameRect { x, y, w, h }
    }
}

/// Strict axis-aligned intersection: rectangles that merely share an edge or
/// a corner do not overlap.
pub open spec fn spec_overlaps(a: GameRect, b: GameRect) -> bool {
    &&& a.x < b.x + b.w
    &&& a.x + a.w > b.x
    &&& a.y < b.y + b.h
    &&& a.y + a.h > b.y
}

/// The overlap test every variant runs between entity rectangles.
pub fn collision(o1: &GameRect, o2: &GameRect) -> (r: bool)
    requires
        o1.wf(),
        o2.wf(),
    ensures
        r == spec_overlaps(*o1, *o2),
{
    o1.x < o2.x + o2.w && o1.x + o1.w > o2.x && o1.y < o2.y + o2.h && o1.y + o1.h > o2.y
}

/// Law: the overlap test does not depend on the order of its arguments.
pub proof fn lemma_overlaps_symmetric(a: GameRect, b: GameRect)
    ensures
        spec_overlaps(a, b) == spec_overlaps(b, a),
{
}

/// Law: rectangles that only touch — some edge of one lies exactly on an
/// edge of the other — never count as overlapping.
pub proof fn lemma_overlaps_touch_is_no_overlap(a: GameRect, b: GameRect)
    requires
        a.x + a.w == b.x || b.x + b.w == a.x || a.y + a.h == b.y || b.y + b.h == a.y,
    ensures
        !spec_overlaps(a, b),
{
}

pub open spec fn spec_clamp(v: int, lo: int, hi: int) -> int {
    if v < lo {
        lo
    } else if v > hi {
        hi
    } else {
        v
    }
}

/// One frame of motion for one coordinate, saturating at `ADV_LIMIT`.
pub open spec fn spec_advance(p: int, v: int) -> int {
    spec_clamp(p + v, -ADV_LIMIT as int, ADV_LIMIT as int)
}

/// Adds one frame's velocity to a coordinate. Saturation at `ADV_LIMIT` is a
/// machine limit of the integer model; it is unreachable from any playfield-
/// sized state.
pub fn advance(p: i64, v: i64) -> (r: i64)
    requires
        -POS_LIMIT <= p <= POS_LIMIT,
        -VEL_LIMIT <= v <= VEL_LIMIT,
    ensures
        r == spec_advance(p as int, v as int),
        -ADV_LIMIT <= r <= ADV_LIMIT,
{
    let s = p + v;
    if s < -ADV_LIMIT {
        -ADV_LIMIT
    } else if s > ADV_LIMIT {
        ADV_LIMIT
    } else {
        s
    }
}

/// Law: within the model's range, one advance moves a coordinate by exactly
/// its velocity — fixed per-step integration, no drift.
pub proof fn lemma_advance_exact(p: int, v: int)
    requires
        -ADV_LIMIT <= p + v <= ADV_LIMIT,
    ensures
        spec_advance(p, v) == p + v,
{
}

/// Velocity adjustments (paddle spin, horizontal acceleration) saturate here.
pub open spec fn spec_vel_clamp(v: int) -> int {
    spec_clamp(v, -VEL_LIMIT as int, VEL_LIMIT as int)
}

pub fn vel_clamp(v: i64) -> (r: i64)
    ensures
        r == spec_vel_clamp(v as int),
{
    if v < -VEL_LIMIT {
        -VEL_LIMIT
    } else if v > VEL_LIMIT {
        VEL_LIMIT
    } else {
        v
    }
}

/// Division truncating toward zero, as the motion rules expect of their
/// spin adjustments.
pub open spec fn spec_div_trunc(a: int, d: int) -> int
    recommends
        d > 0,
{
    if a >= 0 {
        a / d
    } else {
        -((-a) / d)
    }
}

pub fn div_trunc(a: i64, d: i64) -> (r: i64)
    requires
        0 < d,
        -POS_LIMIT * 4 <= a <= POS_LIMIT * 4,
    ensures
        r == spec_div_trunc(a as int, d as int),
{
    if a >= 0 {
        let q = a as u64 / d as u64;
        assert(q == a as int / d as int);
        q as i64
    } else {
        let m = -a;
        let q = m as u64 / d as u64;
        assert(q == (-(a as int)) / (d as int));
        -(q as i64)
    }
}

/// Halves a non-negative coordinate.
pub fn half_i64(v: i64) -> (r: i64)
    requires
        0 <= v,
    ensures
        r == v as int / 2,
{
    let q = (v as u64) / 2;
    assert(q == v as int / 2);
    q as i64
}

/// A score counter's increment; saturation at `u32::MAX` is a machine limit.
pub open spec fn spec_inc_sat(x: u32) -> u32 {
    if x < u32::MAX {
        (x + 1) as u32
    } else {
        x
    }
}

pub fn inc_sat(x: u32) -> (r: u32)
    ensures
        r == spec_inc_sat(x),
{
    if x < u32::MAX {
        x + 1
    } else {
        x
    }
}

/// A lives counter's decrement; saturation at `i64::MIN` is a machine limit.
pub open spec fn spec_dec_sat(x: i64) -> i64 {
    if x > i64::MIN {
        (x - 1) as i64
    } else {
        x
    }
}

pub fn dec_sat(x: i64) -> (r: i64)
    ensures
        r == spec_dec_sat(x),
{
    if x > i64::MIN {
        x - 1
    } else {
        x
    }
}

} // verus!
