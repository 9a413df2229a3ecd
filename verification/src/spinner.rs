//! The spinning-circle toy: one circle sweeping across a fixed window, one
//! unit-pixel step per frame, wrapping at the right edge.

use vstd::prelude::*;

use crate::render::{RenderState, Shape, TextItem};

verus! {

/// The fixed 800 by 600 pixel window, in units.
pub const SPINNER_WINDOW_W: i64 = 8000;

pub const SPINNER_WINDOW_H: i64 = 6000;

/// The circle wraps when its anchor passes this.
pub const SPINNER_WRAP: i64 = 8000;

/// One pixel of motion per frame.
pub const SPINNER_STEP: i64 = 10;

/// The circle's fixed height and radius.
pub const SPINNER_Y: i64 = 3800;

pub const SPINNER_RADIUS: i64 = 1000;

/// The toy's whole state: the circle's horizontal anchor.
#[derive(Clone, Copy, PartialEq, Eq, Structural, Debug)]
pub struct MainState {
    pub pos_x: i64,
}

/// One frame: a step to the right, wrapped into the window.
pub open spec fn spec_update(v: MainState) -> MainState {
    MainState { pos_x: (v.pos_x % SPINNER_WRAP + SPINNER_STEP) as i64 }
}

/// The toy's drawable content: the one circle.
pub open spec fn spec_spinner_render(v: MainState) -> (Seq<Shape>, Seq<(int, int, Seq<char>)>) {
    (
        seq![(Shape::Circle { x: v.pos_x, y: SPINNER_Y, radius: SPINNER_RADIUS })],
        Seq::<(int, int, Seq<char>)>::empty(),
    )
}

impl MainState {
    /// Positions the update rule keeps stable.
    pub open spec fn wf(self) -> bool {
        0 <= self.pos_x < SPINNER_WRAP + SPINNER_STEP
    }

    pub fn new() -> (s: MainState)
        ensures
            s.pos_x == 0,
            s.wf(),
    {
        MainState { pos_x: 0 }
    }

    /// Runtime check of `wf`, for callers outside verified code.
    pub fn check_wf(&self) -> (b: bool)
        ensures
            b == self.wf(),
    {
        0 <= self.pos_x && self.pos_x < SPINNER_WRAP + SPINNER_STEP
    }

    /// One frame of motion, exactly `spec_update`.
    pub fn update(&mut self)
        requires
            old(self).wf(),
        ensures
            *final(self) == spec_update(*old(self)),
            final(self).wf(),
    {
        let wrapped = ((self.pos_x as u64) % (SPINNER_WRAP as u64)) as i64;
        assert(wrapped == self.pos_x as int % (SPINNER_WRAP as int));
        self.pos_x = wrapped + SPINNER_STEP;
    }

    /// The drawable content of the current frame.
    pub fn render_state(&self) -> (r: RenderState)
        ensures
            crate::render::spec_render_view(r) == spec_spinner_render(*self),
    {
        let mut shapes: Vec<Shape> = Vec::new();
        shapes.push(Shape::Circle { x: self.pos_x, y: SPINNER_Y, radius: SPINNER_RADIUS });
        let texts: Vec<TextItem> = Vec::new();
        let r = RenderState { shapes, texts };
        proof {
            assert(r.shapes@ =~= spec_spinner_render(*self).0);
            assert(r.texts@.map(|idx: int, t: TextItem| crate::render::spec_text_item(t))
                =~= spec_spinner_render(*self).1);
        }
        r
    }
}

/// Law: rendering reads the state without changing it, so two renders with
/// no step in between have the same content.
pub proof fn lemma_render_state_idempotent(s: MainState, r1: RenderState, r2: RenderState)
    requires
        crate::render::spec_render_view(r1) == spec_spinner_render(s),
        crate::render::spec_render_view(r2) == spec_spinner_render(s),
    ensures
        crate::render::spec_render_view(r1) == crate::render::spec_render_view(r2),
{
}

} // verus!
