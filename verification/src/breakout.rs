//! The brick-breaker variant. In this family it exists only as a skeleton:
//! the score/lives counters and their display line are live, but no ball,
//! paddle or brick mechanics are — the model keeps the variant's shape
//! deliberately, rather than inventing rules the family never had.

use vstd::prelude::*;

use crate::render::{RenderState, Shape, TextItem};
use crate::text::{score_lives_text, spec_score_lives_text};
use crate::geom::half_i64;

verus! {

/// The fixed 25 by 20 block window, in units.
pub const BREAKOUT_WINDOW_W: i64 = 8000;

pub const BREAKOUT_WINDOW_H: i64 = 6400;

/// The full mutable state of the brick-breaker skeleton.
pub struct MainState {
    pub max_enemies: u32,
    pub lives: i64,
    pub score: u32,
    pub score_changed: bool,
    pub score_display: String,
}

/// The mathematical content of the skeleton's state.
pub struct BreakoutView {
    pub max_enemies: u32,
    pub lives: i64,
    pub score: u32,
    pub score_changed: bool,
    pub display: Seq<char>,
}

impl View for MainState {
    type V = BreakoutView;

    open spec fn view(&self) -> BreakoutView {
        BreakoutView {
            max_enemies: self.max_enemies,
            lives: self.lives,
            score: self.score,
            score_changed: self.score_changed,
            display: self.score_display@,
        }
    }
}

/// One logical frame of the skeleton: only a dirty display is regenerated.
pub open spec fn spec_step(v: BreakoutView) -> BreakoutView {
    if v.score_changed {
        BreakoutView {
            display: spec_score_lives_text(v.score as nat, v.lives as int),
            score_changed: false,
            ..v
        }
    } else {
        v
    }
}

/// The skeleton's drawable content: the score line, and the terminal
/// message once lives are below zero.
pub open spec fn spec_breakout_render(v: BreakoutView) -> (
    Seq<Shape>,
    Seq<(int, int, Seq<char>)>,
) {
    (
        Seq::<Shape>::empty(),
        if v.lives < 0 {
            seq![
                (500int, 200int, v.display),
                (
                    BREAKOUT_WINDOW_W as int / 2,
                    BREAKOUT_WINDOW_H as int / 2,
                    "You Ded :("@,
                ),
            ]
        } else {
            seq![(500int, 200int, v.display)]
        },
    )
}

impl MainState {
    /// The skeleton's fixed initial state: 22 for the unused hazard
    /// allowance, fifteen lives, zero score, and a dirty placeholder
    /// display.
    pub fn new() -> (s: MainState)
        ensures
            s.max_enemies == 22,
            s.lives == 15,
            s.score == 0,
            s.score_changed,
            s.score_display@ == "begin"@,
    {
        MainState {
            max_enemies: 22,
            lives: 15,
            score: 0,
            score_changed: true,
            score_display: String::from_str("begin"),
        }
    }

    /// Pressed keys are recognized only outside the terminal state, and none
    /// of them is bound to anything yet: the state never changes.
    pub fn key_down_event(&mut self)
        ensures
            *final(self) == *old(self),
    {
    }

    /// One logical frame, exactly `spec_step`.
    pub fn step(&mut self)
        ensures
            final(self)@ == spec_step(old(self)@),
    {
        if self.score_changed {
            self.score_display = score_lives_text(self.score, self.lives);
            self.score_changed = false;
        }
    }

    /// The skeleton's drawable content.
    pub fn render_state(&self) -> (r: RenderState)
        ensures
            crate::render::spec_render_view(r) == spec_breakout_render(self@),
    {
        let shapes: Vec<Shape> = Vec::new();
        let mut texts: Vec<TextItem> = Vec::new();
        texts.push(TextItem { x: 500, y: 200, text: self.score_display.clone() });
        if self.lives < 0 {
            texts.push(
                TextItem {
                    x: half_i64(BREAKOUT_WINDOW_W),
                    y: half_i64(BREAKOUT_WINDOW_H),
                    text: String::from_str("You Ded :("),
                },
            );
        }
        let r = RenderState { shapes, texts };
        proof {
            assert(r.shapes@ =~= spec_breakout_render(self@).0);
            assert(r.texts@.map(|idx: int, t: TextItem| crate::render::spec_text_item(t))
                =~= spec_breakout_render(self@).1);
        }
        r
    }
}

/// Law: rendering reads the state without changing it, so two renders with
/// no step in between have the same content.
pub proof fn lemma_render_state_idempotent(s: &MainState, r1: RenderState, r2: RenderState)
    requires
        crate::render::spec_render_view(r1) == spec_breakout_render(s@),
        crate::render::spec_render_view(r2) == spec_breakout_render(s@),
    ensures
        crate::render::spec_render_view(r1) == crate::render::spec_render_view(r2),
{
}

} // verus!
