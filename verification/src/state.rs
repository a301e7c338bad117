use vstd::prelude::*;

use crate::color::{ClearColor, COLOR_UNIT, random_clear_color};
use crate::frame::{
    AcquireError, FrameDecision, RenderCommand, acquire_policy, frame_commands, pass_well_formed,
    record_frame, decide_acquire_failure,
};
use crate::input::{InputEvent, triggers_color, triggers_toggle};
use crate::registry::{Registry, toggled};
use crate::surface::{SurfaceConfig, SurfaceConfigurator};

verus! {

/// The rendering host's shared state: the surface configuration, the
/// resource registry with its active variant, and the clear color. The
/// input router writes it, the frame driver reads it, both on the one
/// event-loop thread.
#[derive(Debug, PartialEq, Eq)]
pub struct HostState {
    pub surface: SurfaceConfigurator,
    pub registry: Registry,
    pub clear_color: ClearColor,
}

impl HostState {
    pub open spec fn wf(self) -> bool {
        &&& self.surface.wf()
        &&& self.registry.wf()
        &&& self.registry.matches_format(self.surface.config.format)
        &&& self.clear_color.wf()
    }

    /// Assembles the startup state: the configured surface, the uploaded
    /// registry, and an opaque white background.
    pub fn startup(surface: SurfaceConfigurator, registry: Registry) -> (s: HostState)
        requires
            surface.wf(),
            registry.wf(),
            registry.matches_format(surface.config.format),
        ensures
            s.surface == surface,
            s.registry == registry,
            s.clear_color == (ClearColor {
                red: COLOR_UNIT,
                green: COLOR_UNIT,
                blue: COLOR_UNIT,
                alpha: COLOR_UNIT,
            }),
            s.wf(),
    {
        HostState { surface, registry, clear_color: ClearColor::opaque_white() }
    }

    /// Absorbs a window resize. A positive size moves the stored
    /// configuration and returns it for the host to apply; a zero dimension
    /// leaves everything exactly as it was and applies nothing. The
    /// registry and the clear color are never touched by a resize.
    pub fn resize(&mut self, width: u32, height: u32) -> (r: Option<SurfaceConfig>)
        requires
            old(self).wf(),
        ensures
            final(self).registry == old(self).registry,
            final(self).clear_color == old(self).clear_color,
            width > 0 && height > 0 ==> {
                &&& final(self).surface.config == (SurfaceConfig {
                    width,
                    height,
                    ..old(self).surface.config
                })
                &&& r == Some(final(self).surface.config)
            },
            !(width > 0 && height > 0) ==> {
                &&& *final(self) == *old(self)
                &&& r is None
            },
            final(self).wf(),
    {
        self.surface.reconfigure_on_resize(width, height)
    }

    /// Sets the clear color from three channel draws, alpha pinned to full
    /// intensity; nothing else moves.
    pub fn set_clear_color(&mut self, red: u32, green: u32, blue: u32)
        requires
            old(self).wf(),
            red < COLOR_UNIT,
            green < COLOR_UNIT,
            blue < COLOR_UNIT,
        ensures
            final(self).clear_color == (ClearColor { red, green, blue, alpha: COLOR_UNIT }),
            final(self).surface == old(self).surface,
            final(self).registry == old(self).registry,
            final(self).wf(),
    {
        self.clear_color = ClearColor::from_draws(red, green, blue);
    }

    /// The input router. A press of the primary pointer button randomizes
    /// the clear color and asks for a redraw; a press of the toggle key
    /// switches the scene variant as one unit; everything else is left to
    /// the host's default handling. The returned pair says whether the
    /// event was consumed and whether a redraw is requested.
    pub fn handle_event(&mut self, event: &InputEvent) -> (r: (bool, bool))
        requires
            old(self).wf(),
        ensures
            triggers_color(*event) ==> {
                &&& final(self).surface == old(self).surface
                &&& final(self).registry == old(self).registry
                &&& final(self).clear_color.red < COLOR_UNIT
                &&& final(self).clear_color.green < COLOR_UNIT
                &&& final(self).clear_color.blue < COLOR_UNIT
                &&& final(self).clear_color.alpha == COLOR_UNIT
                &&& r == (true, true)
            },
            triggers_toggle(*event) ==> {
                &&& final(self).surface == old(self).surface
                &&& final(self).registry == toggled(old(self).registry)
                &&& final(self).clear_color == old(self).clear_color
                &&& r == (true, false)
            },
            !triggers_color(*event) && !triggers_toggle(*event) ==> {
                &&& *final(self) == *old(self)
                &&& r == (false, false)
            },
            final(self).wf(),
    {
        match event {
            InputEvent::PointerButton { primary: true, pressed: true } => {
                self.clear_color = random_clear_color();
                (true, true)
            },
            InputEvent::ToggleKey { pressed: true } => {
                self.registry.toggle_variant();
                (true, false)
            },
            _ => (false, false),
        }
    }

    /// Records the command sequence for one frame from the current shared
    /// state: the clear color and the active variant, drawn over the whole
    /// index range, inside one properly closed render pass.
    pub fn plan_frame(&self) -> (cmds: Vec<RenderCommand>)
        requires
            self.wf(),
        ensures
            cmds@ == frame_commands(self.registry, self.clear_color),
            pass_well_formed(cmds@),
    {
        record_frame(&self.registry, self.clear_color)
    }

    /// Decides what a refused acquire means. A lost surface hands back the
    /// stored configuration, unchanged, for the host to re-apply; out of
    /// memory tells the host to terminate; anything else costs one
    /// reported, skipped frame. The state itself is read, never written:
    /// a failed frame cannot corrupt it.
    pub fn handle_acquire_failure(&self, err: &AcquireError) -> (r: (
        FrameDecision,
        Option<SurfaceConfig>,
    ))
        ensures
            r.0 == acquire_policy(*err),
            *err is Lost ==> r.1 == Some(self.surface.config),
            !(*err is Lost) ==> r.1 is None,
    {
        let d = decide_acquire_failure(err);
        if let AcquireError::Lost = err {
            (d, Some(self.surface.recover_from_loss()))
        } else {
            (d, None)
        }
    }
}

} // verus!
