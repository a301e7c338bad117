use rand::Rng;
use vstd::prelude::*;

verus! {

/// Fixed-point scale for color channels: `COLOR_UNIT` stands for an
/// intensity of one; a channel value `v` stands for `v / COLOR_UNIT`.
pub const COLOR_UNIT: u32 = 65536;

/// The background color used when clearing a frame, in fixed point.
#[derive(Clone, Copy, Debug, PartialEq, Eq, Structural)]
pub struct ClearColor {
    pub red: u32,
    pub green: u32,
    pub blue: u32,
    pub alpha: u32,
}

impl ClearColor {
    /// A clear color is meaningful when every channel is at most full
    /// intensity and the alpha channel is exactly full intensity.
    pub open spec fn wf(self) -> bool {
        self.red <= COLOR_UNIT
            && self.green <= COLOR_UNIT
            && self.blue <= COLOR_UNIT
            && self.alpha == COLOR_UNIT
    }

    /// The startup background: opaque white.
    pub fn opaque_white() -> (c: ClearColor)
        ensures
            c == (ClearColor {
                red: COLOR_UNIT,
                green: COLOR_UNIT,
                blue: COLOR_UNIT,
                alpha: COLOR_UNIT,
            }),
            c.wf(),
    {
        ClearColor { red: COLOR_UNIT, green: COLOR_UNIT, blue: COLOR_UNIT, alpha: COLOR_UNIT }
    }

    /// Builds the color chosen by a pointer-button press from three uniform
    /// channel draws; the alpha channel is pinned to full intensity.
    pub fn from_draws(red: u32, green: u32, blue: u32) -> (c: ClearColor)
        requires
            red < COLOR_UNIT,
            green < COLOR_UNIT,
            blue < COLOR_UNIT,
        ensures
            c == (ClearColor { red, green, blue, alpha: COLOR_UNIT }),
            c.wf(),
    {
        ClearColor { red, green, blue, alpha: COLOR_UNIT }
    }
}

/// Relies on rand's `Rng::gen_range` over the range `0..bound`: it returns
/// a uniform sample from that half-open range, and panics only when the
/// range is empty, which `bound > 0` rules out.
#[verifier::external_body]
fn random_below(bound: u32) -> (r: u32)
    requires
        bound > 0,
    ensures
        r < bound,
{
    rand::thread_rng().gen_range(0..bound)
}

/// Draws a fresh background color: three independent uniform draws strictly
/// below full intensity, one per color channel, with alpha exactly at full
/// intensity.
pub fn random_clear_color() -> (c: ClearColor)
    ensures
        c.wf(),
        c.red < COLOR_UNIT,
        c.green < COLOR_UNIT,
        c.blue < COLOR_UNIT,
        c.alpha == COLOR_UNIT,
{
    let red = random_below(COLOR_UNIT);
    let green = random_below(COLOR_UNIT);
    let blue = random_below(COLOR_UNIT);
    ClearColor::from_draws(red, green, blue)
}

} // verus!
