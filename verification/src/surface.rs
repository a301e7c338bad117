use vstd::prelude::*;

verus! {

/// The swapchain configuration: a color format, a presentation mode and an
/// alpha mode — each named by its position in the capability lists that the
/// adapter reported at startup — and the current pixel size.
#[derive(Clone, Copy, Debug, PartialEq, Eq, Structural)]
pub struct SurfaceConfig {
    pub format: u32,
    pub present_mode: u32,
    pub alpha_mode: u32,
    pub width: u32,
    pub height: u32,
}

impl SurfaceConfig {
    /// A configuration is applicable only with a strictly positive size.
    pub open spec fn wf(self) -> bool {
        self.width > 0 && self.height > 0
    }
}

/// Picks the color format for the surface from the capability list, given
/// whether each reported format is sRGB-capable, in reported order: the
/// first sRGB-capable format wins, else the first format listed.
pub fn choose_format_index(srgb: &Vec<bool>) -> (i: usize)
    requires
        srgb@.len() > 0,
    ensures
        i < srgb@.len(),
        (exists|j: int| 0 <= j < srgb@.len() && srgb@[j]) ==> {
            &&& srgb@[i as int]
            &&& forall|j: int| 0 <= j < i ==> !srgb@[j]
        },
        (forall|j: int| 0 <= j < srgb@.len() ==> !srgb@[j]) ==> i == 0,
{
    let mut k: usize = 0;
    while k < srgb.len()
        invariant
            k <= srgb@.len(),
            forall|j: int| 0 <= j < k ==> !srgb@[j],
        decreases srgb@.len() - k,
    {
        if srgb[k] {
            return k;
        }
        k = k + 1;
    }
    0
}

/// Owns the swapchain configuration and keeps it in sync with the window:
/// it decides what the surface is to be configured with, and when a resize
/// is to be absorbed as a no-op instead.
#[derive(Clone, Copy, Debug, PartialEq, Eq, Structural)]
pub struct SurfaceConfigurator {
    pub config: SurfaceConfig,
}

impl SurfaceConfigurator {
    pub open spec fn wf(self) -> bool {
        self.config.wf()
    }

    /// Derives the startup configuration: the chosen format, the initial
    /// window size, and — as the deterministic tie-break — the first
    /// presentation mode and the first alpha mode the adapter reported,
    /// position zero of each capability list.
    pub fn startup(format: u32, width: u32, height: u32) -> (s: SurfaceConfigurator)
        requires
            width > 0,
            height > 0,
        ensures
            s.config == (SurfaceConfig { format, present_mode: 0, alpha_mode: 0, width, height }),
            s.wf(),
    {
        SurfaceConfigurator { config: SurfaceConfig { format, present_mode: 0, alpha_mode: 0, width, height } }
    }

    /// The configuration to apply to the surface for the given size, or
    /// nothing when a dimension is zero: a minimized window must not be
    /// configured, and must not crash the renderer either.
    pub fn configure(&self, width: u32, height: u32) -> (r: Option<SurfaceConfig>)
        ensures
            (width > 0 && height > 0) <==> r is Some,
            r matches Some(c) ==> c == (SurfaceConfig { width, height, ..self.config }),
    {
        if width > 0 && height > 0 {
            Some(
                SurfaceConfig {
                    format: self.config.format,
                    present_mode: self.config.present_mode,
                    alpha_mode: self.config.alpha_mode,
                    width,
                    height,
                },
            )
        } else {
            None
        }
    }

    /// Absorbs a window resize: with a positive size the stored width and
    /// height move to the new size and the returned configuration is to be
    /// applied; with a zero dimension nothing changes and nothing is applied.
    pub fn reconfigure_on_resize(&mut self, width: u32, height: u32) -> (r: Option<SurfaceConfig>)
        ensures
            width > 0 && height > 0 ==> {
                &&& final(self).config == (SurfaceConfig { width, height, ..old(self).config })
                &&& r == Some(final(self).config)
            },
            !(width > 0 && height > 0) ==> {
                &&& *final(self) == *old(self)
                &&& r is None
            },
            old(self).wf() ==> final(self).wf(),
    {
        let apply = self.configure(width, height);
        if let Some(c) = apply {
            self.config = c;
        }
        apply
    }

    /// The response to a lost surface: re-apply the last known configuration
    /// unchanged.
    pub fn recover_from_loss(&self) -> (r: SurfaceConfig)
        ensures
            r == self.config,
    {
        self.config
    }
}

} // verus!
