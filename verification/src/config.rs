//! Rejection of malformed world configuration, shared by the variants.

use vstd::prelude::*;

verus! {

/// Why a world refused its configuration.
#[derive(Clone, Copy, PartialEq, Eq, Structural, Debug)]
pub enum ConfigError {
    WindowTooSmall,
    WindowTooLarge,
    PaddleSpeedOutOfRange,
    BallAccelOutOfRange,
    LivesOutOfRange,
    SpawnLimitOutOfRange,
}

pub open spec fn spec_config_error_text(e: ConfigError) -> Seq<char> {
    match e {
        ConfigError::WindowTooSmall => "window too small"@,
        ConfigError::WindowTooLarge => "window too large"@,
        ConfigError::PaddleSpeedOutOfRange => "paddle speed out of range"@,
        ConfigError::BallAccelOutOfRange => "ball acceleration out of range"@,
        ConfigError::LivesOutOfRange => "lives out of range"@,
        ConfigError::SpawnLimitOutOfRange => "spawn limit out of range"@,
    }
}

impl ConfigError {
    /// A short description of the rejected configuration field.
    pub fn text(&self) -> (s: &'static str)
        ensures
            s@ == spec_config_error_text(*self),
    {
        match self {
            ConfigError::WindowTooSmall => "window too small",
            ConfigError::WindowTooLarge => "window too large",
            ConfigError::PaddleSpeedOutOfRange => "paddle speed out of range",
            ConfigError::BallAccelOutOfRange => "ball acceleration out of range",
            ConfigError::LivesOutOfRange => "lives out of range",
            ConfigError::SpawnLimitOutOfRange => "spawn limit out of range",
        }
    }
}

} // verus!
