//! What a world hands the presentation host each frame: plain drawable
//! primitives and positioned text, nothing toolkit-specific.

use vstd::prelude::*;

verus! {

/// A rendering hint for a shape; the host picks the actual colors.
#[derive(Clone, Copy, PartialEq, Eq, Structural, Debug)]
pub enum ColorTag {
    White,
    Green,
    Red,
    Cyan,
}

/// A filled primitive in playfield coordinates.
#[derive(Clone, Copy, PartialEq, Eq, Structural, Debug)]
pub enum Shape {
    Rect { x: i64, y: i64, w: i64, h: i64, color: ColorTag },
    Circle { x: i64, y: i64, radius: i64 },
}

/// A text line anchored at a playfield position.
#[derive(Clone, PartialEq, Debug)]
pub struct TextItem {
    pub x: i64,
    pub y: i64,
    pub text: String,
}

/// One frame's drawable output.
#[derive(Clone, PartialEq, Debug)]
pub struct RenderState {
    pub shapes: Vec<Shape>,
    pub texts: Vec<TextItem>,
}

/// The mathematical content of a text item.
pub open spec fn spec_text_item(t: TextItem) -> (int, int, Seq<char>) {
    (t.x as int, t.y as int, t.text@)
}

/// The mathematical content of a frame's output: every contract about
/// `render_state` speaks of this view.
pub open spec fn spec_render_view(r: RenderState) -> (Seq<Shape>, Seq<(int, int, Seq<char>)>) {
    (r.shapes@, r.texts@.map(|i: int, t: TextItem| spec_text_item(t)))
}

} // verus!
