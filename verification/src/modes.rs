//! Engine option values that the settings file stores.
use vstd::prelude::*;

verus! {

/// Game tick rate.
#[derive(Clone, Copy, Debug, PartialEq, Eq, Structural)]
pub enum TimingMode {
    _50Hz,
    _60Hz,
    FrameSynchronized,
}

impl TimingMode {
    /// Game ticks per second (0 when ticks follow frames).
    pub fn get_tps(self) -> (r: u32)
        ensures
            r == (match self {
                TimingMode::_50Hz => 50u32,
                TimingMode::_60Hz => 60u32,
                TimingMode::FrameSynchronized => 0u32,
            }),
    {
        match self {
            TimingMode::_50Hz => 50,
            TimingMode::_60Hz => 60,
            TimingMode::FrameSynchronized => 0,
        }
    }
}

/// Organya sample interpolation.
#[derive(Clone, Copy, Debug, PartialEq, Eq, Structural)]
pub enum InterpolationMode {
    Nearest,
    Linear,
    Cosine,
    Cubic,
    Polyphase,
}

/// Window or full screen.
#[derive(Clone, Copy, Debug, PartialEq, Eq, Structural)]
pub enum WindowMode {
    Windowed,
    Fullscreen,
}

/// Frame pacing.
#[derive(Clone, Copy, Debug, PartialEq, Eq, Structural)]
pub enum VSyncMode {
    Uncapped,
    VSync,
    VRRTickSync1x,
    VRRTickSync2x,
    VRRTickSync3x,
}

/// Strength of screen shake.
#[derive(Clone, Copy, Debug, PartialEq, Eq, Structural)]
pub enum ScreenShakeIntensity {
    Full,
    Half,
    Off,
}

/// How cutscenes are skipped.
#[derive(Clone, Copy, Debug, PartialEq, Eq, Structural)]
pub enum CutsceneSkipMode {
    Hold,
    FastForward,
    Auto,
}

} // verus!
