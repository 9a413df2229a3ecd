//! Verified simulation core for a family of small 2D arcade demos.
//!
//! The crate models the entity motion / collision / scoring loop that the
//! demos share: a world of moving axis-aligned rectangles (and one ball),
//! advanced one logical frame at a time, with key events mutating player
//! entities and a render pass reading the world out as plain primitives.
//! All coordinates are fixed-point integers, ten units per screen pixel,
//! so the sub-pixel epsilons of the motion rules stay exact.
//!
//! The presentation host (window, timing loop, drawing, raw key codes)
//! lives outside this crate; it drives `step` once per frame, forwards
//! key events, and draws whatever `render_state` returns.

pub mod breakout;
pub mod config;
pub mod frogger;
pub mod geom;
pub mod input;
pub mod pong;
pub mod render;
mod rng;
pub mod spinner;
pub mod text;
