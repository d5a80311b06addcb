//! The frame presenter: owns the surface configuration, reconfigures it on
//! resize, describes the one clear-and-present cycle of each tick, and
//! classifies presentation outcomes.

use vstd::prelude::*;

use crate::config::FormatOption;
use crate::config::SurfaceConfig;

verus! {

/// Intensity of one color channel, in thousandths of full intensity.
pub type ChannelMilli = u32;

pub const CHANNEL_FULL: ChannelMilli = 1000;

/// An RGBA color with each channel in thousandths of full intensity.
#[derive(Clone, Copy, PartialEq, Eq, Structural, Debug)]
pub struct Rgba {
    pub r: ChannelMilli,
    pub g: ChannelMilli,
    pub b: ChannelMilli,
    pub a: ChannelMilli,
}

/// The fixed color every frame is cleared to: full red, a fifth green,
/// three tenths blue, opaque.
pub open spec fn spec_clear_color() -> Rgba {
    Rgba { r: 1000, g: 200, b: 300, a: 1000 }
}

pub fn clear_color() -> (c: Rgba)
    ensures
        c == spec_clear_color(),
{
    Rgba { r: 1000, g: 200, b: 300, a: 1000 }
}

/// Everything one render-present cycle does: clear one acquired image of the
/// given dimensions to the given color, with no other draw call.
#[derive(Clone, Copy, PartialEq, Eq, Structural, Debug)]
pub struct FrameSpec {
    pub width: u32,
    pub height: u32,
    pub clear: Rgba,
}

/// How one acquire-clear-submit-present cycle ended, as the GPU backend
/// reports it.
#[derive(Clone, Copy, PartialEq, Eq, Structural, Debug)]
pub enum PresentOutcome {
    /// The image was presented.
    Success,
    /// The frame took too long to present; the frame is skipped, nothing retried.
    Timeout,
    /// The surface was lost; it must be reconfigured before the next present.
    Lost,
    /// The surface no longer matches the window; it must be reconfigured
    /// before the next present.
    Outdated,
    /// The backend ran out of memory; the loop must terminate.
    OutOfMemory,
}

/// What the driver must do after a presentation outcome.
#[derive(Clone, Copy, PartialEq, Eq, Structural, Debug)]
pub enum PresentDecision {
    /// Success or a timeout: carry on with the next tick.
    Proceed,
    /// Lost or outdated: reconfigure the surface with the last known size
    /// before any further present attempt.
    Reconfigure,
    /// Out of memory: terminate the event loop.
    Fatal,
}

/// The decision each outcome forces.
pub open spec fn spec_decide(outcome: PresentOutcome) -> PresentDecision {
    match outcome {
        PresentOutcome::Success => PresentDecision::Proceed,
        PresentOutcome::Timeout => PresentDecision::Proceed,
        PresentOutcome::Lost => PresentDecision::Reconfigure,
        PresentOutcome::Outdated => PresentDecision::Reconfigure,
        PresentOutcome::OutOfMemory => PresentDecision::Fatal,
    }
}

pub fn decide_present_outcome(outcome: PresentOutcome) -> (d: PresentDecision)
    ensures
        d == spec_decide(outcome),
{
    match outcome {
        PresentOutcome::Success => PresentDecision::Proceed,
        PresentOutcome::Timeout => PresentDecision::Proceed,
        PresentOutcome::Lost => PresentDecision::Reconfigure,
        PresentOutcome::Outdated => PresentDecision::Reconfigure,
        PresentOutcome::OutOfMemory => PresentDecision::Fatal,
    }
}

/// The presenter in its ready state: a configured surface. The GPU device,
/// queue and surface handles themselves live with the caller; the presenter
/// holds the configuration they are bound to and keeps it well-formed.
#[derive(Clone, Copy, PartialEq, Eq, Structural, Debug)]
pub struct Presenter {
    pub config: SurfaceConfig,
}

impl Presenter {
    pub open spec fn wf(self) -> bool {
        self.config.wf()
    }

    /// Enters the ready state with a surface configured from the window's
    /// current size and the platform's offered modes.
    pub fn new(
        width: u32,
        height: u32,
        format: FormatOption,
        present_mode: u32,
        alpha_mode: u32,
    ) -> (p: Presenter)
        requires
            width > 0,
            height > 0,
        ensures
            p.wf(),
            p.config.width == width,
            p.config.height == height,
            p.config.format == format,
            p.config.present_mode == present_mode,
            p.config.alpha_mode == alpha_mode,
    {
        Presenter { config: SurfaceConfig::new(width, height, format, present_mode, alpha_mode) }
    }

    /// The presenter after a resize request: the configuration takes the new
    /// dimensions when both are positive and is untouched otherwise.
    pub open spec fn spec_reconfigure(self, width: u32, height: u32) -> Presenter {
        Presenter { config: self.config.spec_resized(width, height) }
    }

    /// Applies a resize: rebuilds the configuration in place when both
    /// dimensions are positive, ignores the event otherwise. Returns whether
    /// the configuration changed shape, i.e. whether the caller must
    /// reconfigure the swap surface.
    pub fn reconfigure(&mut self, width: u32, height: u32) -> (changed: bool)
        requires
            old(self).wf(),
        ensures
            final(self).wf(),
            *final(self) == old(self).spec_reconfigure(width, height),
            changed <==> (width > 0 && height > 0),
            changed ==> final(self).config.width == width && final(self).config.height == height,
            !changed ==> *final(self) == *old(self),
    {
        if width > 0 && height > 0 {
            self.config.width = width;
            self.config.height = height;
            true
        } else {
            false
        }
    }

    /// What one frame rendered now looks like.
    pub open spec fn spec_frame(self) -> FrameSpec {
        FrameSpec { width: self.config.width, height: self.config.height, clear: spec_clear_color() }
    }

    /// Describes the next frame: one image of exactly the configured
    /// dimensions, cleared to the fixed color, nothing else drawn.
    pub fn begin_frame(&self) -> (f: FrameSpec)
        requires
            self.wf(),
        ensures
            f == self.spec_frame(),
            f.width == self.config.width,
            f.height == self.config.height,
            f.width > 0,
            f.height > 0,
            f.clear == spec_clear_color(),
    {
        FrameSpec { width: self.config.width, height: self.config.height, clear: clear_color() }
    }
}

/// A frame begun right after a reconfiguration to positive dimensions
/// `(width, height)` has exactly those dimensions.
pub proof fn lemma_frame_matches_reconfigured_size(p: Presenter, width: u32, height: u32)
    requires
        width > 0,
        height > 0,
    ensures
        p.spec_reconfigure(width, height).spec_frame().width == width,
        p.spec_reconfigure(width, height).spec_frame().height == height,
{
}

} // verus!
