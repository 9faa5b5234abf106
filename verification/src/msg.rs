use crate::color::Led;
use vstd::prelude::*;

verus! {

/// How long, in milliseconds, the device holds each rendered color.
pub const HOLD_MILLIS: u64 = 500;

/// One atomic rendering instruction to the indicator device: a color held for a
/// duration.
#[derive(Clone, Copy, Debug, PartialEq, Eq, Structural)]
pub struct VisualStep {
    /// The color rendered by this step.
    pub led: Led,
    /// How long, in milliseconds, the color is held.
    pub millis: u64,
}

/// The step that fades the device to `led` for the standard hold time.
pub open spec fn fade_step(led: Led) -> VisualStep {
    VisualStep { led, millis: HOLD_MILLIS }
}

impl VisualStep {
    /// Builds the step that fades the device to `led` for the standard hold
    /// time.
    pub fn fade(led: Led) -> (r: VisualStep)
        ensures
            r == fade_step(led),
    {
        VisualStep { led, millis: HOLD_MILLIS }
    }
}

/// A terminal message: the single visual step rendered when an outcome is
/// reported.
#[derive(Clone, Copy, Debug, PartialEq, Eq, Structural)]
pub struct ColorMessage {
    /// The step this message renders.
    pub step: VisualStep,
}

impl ColorMessage {
    /// Builds the message that renders `color` for the standard hold time.
    pub fn new(color: &Led) -> (r: ColorMessage)
        ensures
            r.step == fade_step(*color),
    {
        ColorMessage { step: VisualStep::fade(*color) }
    }
}

} // verus!
