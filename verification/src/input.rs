use vstd::prelude::*;

verus! {

/// A window input event, as the router reads it: which of the two gestures
/// the core reacts to it carries, if any. The host maps the windowing
/// system's events onto this shape and keeps everything else — close,
/// resize, escape — for its own default handling.
#[derive(Clone, Copy, Debug, PartialEq, Eq, Structural)]
pub enum InputEvent {
    /// A pointer button changed state; `primary` names the primary button.
    PointerButton { primary: bool, pressed: bool },
    /// The designated variant-toggle key changed state.
    ToggleKey { pressed: bool },
    /// Anything else; never consumed here.
    Other,
}

/// A press of the primary pointer button: the gesture that randomizes the
/// clear color. Releases and other buttons do not trigger it.
pub open spec fn triggers_color(e: InputEvent) -> bool {
    e matches InputEvent::PointerButton { primary, pressed } && primary && pressed
}

/// A press of the toggle key: the gesture that switches the scene variant.
/// Edge-triggered on the press; a release triggers nothing.
pub open spec fn triggers_toggle(e: InputEvent) -> bool {
    e matches InputEvent::ToggleKey { pressed } && pressed
}

} // verus!
