//! What varies between one window program and the next.

use crate::color::{ambient_color, raised_color, Palette};
use vstd::prelude::*;

verus! {

/// What becomes of the program when a frame is given up.
#[derive(Clone, Copy, Debug, PartialEq, Eq, Structural)]
pub enum FramePolicy {
    /// The failure is logged, the frame is skipped, the window stays open.
    LogAndContinue,
    /// The failure is logged and the program exits.
    Fatal,
}

/// What is tried before a failed frame is given up.
#[derive(Clone, Copy, Debug, PartialEq, Eq, Structural)]
pub enum Recovery {
    /// Nothing: the frame is skipped.
    SkipFrame,
    /// Where it may help, the surface is configured anew and the frame is
    /// tried once more. A frame that fails again is given up.
    ReconfigureOnce,
}

/// The optional behaviours of a window program.
#[derive(Clone, Copy, Debug, PartialEq, Eq, Structural)]
pub struct FeatureSet {
    /// Each pass binds a pipeline and draws degenerate geometry.
    pub pipeline: bool,
    /// Pointer input toggles the cursor flag, which selects the clear colour.
    pub cursor_toggle: bool,
    /// Touch input is logged.
    pub touch_logging: bool,
}

/// The configuration of a window program.
#[derive(Clone, Copy, Debug, PartialEq, Eq, Structural)]
pub struct Config {
    pub features: FeatureSet,
    /// What becomes of the program when a frame is given up.
    pub policy: FramePolicy,
    pub recovery: Recovery,
    pub palette: Palette,
}

/// The configuration that `Config::default()` gives.
pub open spec fn default_config() -> Config {
    Config {
        features: FeatureSet { pipeline: false, cursor_toggle: false, touch_logging: false },
        policy: FramePolicy::LogAndContinue,
        recovery: Recovery::SkipFrame,
        palette: Palette { base: ambient_color(), highlight: raised_color() },
    }
}

impl Default for Config {
    /// No optional behaviour, failed frames are skipped and logged, the
    /// default palette.
    fn default() -> (config: Config)
        ensures
            config == default_config(),
    {
        Config {
            features: FeatureSet { pipeline: false, cursor_toggle: false, touch_logging: false },
            policy: FramePolicy::LogAndContinue,
            recovery: Recovery::SkipFrame,
            palette: Palette::default(),
        }
    }
}

impl Config {
    /// The same configuration with the pipeline switched on or off.
    pub fn with_pipeline(self, on: bool) -> (config: Config)
        ensures
            config == (Config {
                features: FeatureSet { pipeline: on, ..self.features },
                ..self
            }),
    {
        Config { features: FeatureSet { pipeline: on, ..self.features }, ..self }
    }

    /// The same configuration with the cursor toggle switched on or off.
    pub fn with_cursor_toggle(self, on: bool) -> (config: Config)
        ensures
            config == (Config {
                features: FeatureSet { cursor_toggle: on, ..self.features },
                ..self
            }),
    {
        Config { features: FeatureSet { cursor_toggle: on, ..self.features }, ..self }
    }

    /// The same configuration with touch logging switched on or off.
    pub fn with_touch_logging(self, on: bool) -> (config: Config)
        ensures
            config == (Config {
                features: FeatureSet { touch_logging: on, ..self.features },
                ..self
            }),
    {
        Config { features: FeatureSet { touch_logging: on, ..self.features }, ..self }
    }

    /// The same configuration with another policy on failed frames.
    pub fn with_policy(self, policy: FramePolicy) -> (config: Config)
        ensures
            config == (Config { policy, ..self }),
    {
        Config { policy, ..self }
    }

    /// The same configuration with another way to recover failed frames.
    pub fn with_recovery(self, recovery: Recovery) -> (config: Config)
        ensures
            config == (Config { recovery, ..self }),
    {
        Config { recovery, ..self }
    }

    /// The same configuration with another palette.
    pub fn with_palette(self, palette: Palette) -> (config: Config)
        ensures
            config == (Config { palette, ..self }),
    {
        Config { palette, ..self }
    }
}

} // verus!
