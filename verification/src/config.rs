//! Surface configuration: pixel-format selection and the always-positive
//! width/height invariant.

use vstd::prelude::*;

verus! {

/// One pixel format offered by the platform surface, reduced to what the
/// selection rule reads: an identifying code and whether the format is
/// sRGB-capable. The caller that enumerates the platform's formats assigns
/// the codes and maps the chosen code back to its own format value.
#[derive(Clone, Copy, PartialEq, Eq, Structural, Debug)]
pub struct FormatOption {
    pub code: u32,
    pub srgb: bool,
}

/// The first sRGB-capable format of the sequence, if any.
pub open spec fn first_srgb(formats: Seq<FormatOption>) -> Option<FormatOption>
    decreases formats.len(),
{
    if formats.len() == 0 {
        None
    } else if formats[0].srgb {
        Some(formats[0])
    } else {
        first_srgb(formats.skip(1))
    }
}

/// The format the presenter uses: the first sRGB-capable one offered,
/// falling back to the first offered at all; nothing when none is offered.
pub open spec fn chosen_format(formats: Seq<FormatOption>) -> Option<FormatOption> {
    match first_srgb(formats) {
        Some(f) => Some(f),
        None => if formats.len() == 0 { None } else { Some(formats[0]) },
    }
}

proof fn lemma_first_srgb_skip(formats: Seq<FormatOption>, i: int)
    requires
        0 <= i <= formats.len(),
        forall|j: int| 0 <= j < i ==> !formats[j].srgb,
    ensures
        first_srgb(formats) == first_srgb(formats.skip(i)),
    decreases i,
{
    if i > 0 {
        lemma_first_srgb_skip(formats, i - 1);
        let tail = formats.skip(i - 1);
        assert(tail.len() > 0);
        assert(tail[0] == formats[i - 1]);
        assert(first_srgb(tail) == first_srgb(tail.skip(1)));
        assert(tail.skip(1) =~= formats.skip(i));
    } else {
        assert(formats.skip(0) =~= formats);
    }
}

/// Picks the surface format as `chosen_format` describes: the first
/// sRGB-capable format, else the first format, else nothing.
pub fn choose_format(formats: &Vec<FormatOption>) -> (r: Option<FormatOption>)
    ensures
        r == chosen_format(formats@),
        r is None <==> formats@.len() == 0,
{
    let n = formats.len();
    let mut i: usize = 0;
    while i < n
        invariant
            0 <= i <= n,
            n == formats@.len(),
            forall|j: int| 0 <= j < i ==> !formats@[j].srgb,
        decreases n - i,
    {
        if formats[i].srgb {
            proof {
                lemma_first_srgb_skip(formats@, i as int);
            }
            return Some(formats[i]);
        }
        i += 1;
    }
    proof {
        lemma_first_srgb_skip(formats@, n as int);
    }
    if n > 0 {
        Some(formats[0])
    } else {
        None
    }
}

/// Number of frames the presentation engine may queue ahead.
pub const MAX_FRAME_LATENCY: u32 = 2;

/// The swap-surface configuration. Width and height mirror the window's
/// physical size and are always positive: a resize with a zero dimension is
/// ignored and the prior configuration retained.
#[derive(Clone, Copy, PartialEq, Eq, Structural, Debug)]
pub struct SurfaceConfig {
    pub width: u32,
    pub height: u32,
    pub format: FormatOption,
    /// Code for the present mode the platform offered first.
    pub present_mode: u32,
    /// Code for the alpha compositing mode the platform offered first.
    pub alpha_mode: u32,
    pub max_frame_latency: u32,
}

impl SurfaceConfig {
    /// Both dimensions are positive and the frame-queue bound is the fixed one.
    pub open spec fn wf(self) -> bool {
        &&& self.width > 0
        &&& self.height > 0
        &&& self.max_frame_latency == MAX_FRAME_LATENCY
    }

    pub fn new(
        width: u32,
        height: u32,
        format: FormatOption,
        present_mode: u32,
        alpha_mode: u32,
    ) -> (c: SurfaceConfig)
        requires
            width > 0,
            height > 0,
        ensures
            c.wf(),
            c.width == width,
            c.height == height,
            c.format == format,
            c.present_mode == present_mode,
            c.alpha_mode == alpha_mode,
            c.max_frame_latency == MAX_FRAME_LATENCY,
    {
        SurfaceConfig {
            width,
            height,
            format,
            present_mode,
            alpha_mode,
            max_frame_latency: MAX_FRAME_LATENCY,
        }
    }

    /// The configuration after a resize request: the new dimensions when both
    /// are positive, the old configuration unchanged otherwise.
    pub open spec fn spec_resized(self, width: u32, height: u32) -> SurfaceConfig {
        if width > 0 && height > 0 {
            SurfaceConfig { width, height, ..self }
        } else {
            self
        }
    }
}

} // verus!
