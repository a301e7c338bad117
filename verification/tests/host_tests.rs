use render_host::color::{ClearColor, COLOR_UNIT};
use render_host::frame::{AcquireError, FrameDecision, RenderCommand};
use render_host::input::InputEvent;
use render_host::scene::{default_scene, FRAGMENT_ENTRY_ALT, FRAGMENT_ENTRY_MAIN};
use render_host::state::HostState;
use render_host::surface::SurfaceConfigurator;
use render_host::texture::TextureBinding;

fn host(format: u32, width: u32, height: u32) -> HostState {
    let surface = SurfaceConfigurator::startup(format, width, height);
    let registry = default_scene(format, Some(TextureBinding { width: 2, height: 2 }));
    HostState::startup(surface, registry)
}

#[test]
fn startup_clears_to_opaque_white() {
    let s = host(1, 640, 480);
    assert_eq!(
        s.clear_color,
        ClearColor { red: COLOR_UNIT, green: COLOR_UNIT, blue: COLOR_UNIT, alpha: COLOR_UNIT }
    );
}

#[test]
fn pointer_press_randomizes_each_channel_below_one_with_alpha_one() {
    let mut s = host(1, 640, 480);
    for _ in 0..64 {
        let (consumed, redraw) = s.handle_event(&InputEvent::PointerButton {
            primary: true,
            pressed: true,
        });
        assert!(consumed);
        assert!(redraw);
        assert!(s.clear_color.red < COLOR_UNIT);
        assert!(s.clear_color.green < COLOR_UNIT);
        assert!(s.clear_color.blue < COLOR_UNIT);
        assert_eq!(s.clear_color.alpha, COLOR_UNIT);
    }
}

#[test]
fn pointer_release_is_not_consumed() {
    let mut s = host(1, 640, 480);
    let before_color = s.clear_color;
    let (consumed, redraw) =
        s.handle_event(&InputEvent::PointerButton { primary: true, pressed: false });
    assert!(!consumed);
    assert!(!redraw);
    assert_eq!(s.clear_color, before_color);
}

#[test]
fn secondary_button_is_not_consumed() {
    let mut s = host(1, 640, 480);
    let (consumed, _) =
        s.handle_event(&InputEvent::PointerButton { primary: false, pressed: true });
    assert!(!consumed);
}

#[test]
fn toggle_key_release_is_not_consumed() {
    let mut s = host(1, 640, 480);
    let (consumed, _) = s.handle_event(&InputEvent::ToggleKey { pressed: false });
    assert!(!consumed);
    assert_eq!(s.registry.active_index(), 0);
}

#[test]
fn other_events_pass_through_untouched() {
    let mut s = host(1, 640, 480);
    let before_active = s.registry.active_index();
    let before_color = s.clear_color;
    let before_config = s.surface.config;
    let (consumed, redraw) = s.handle_event(&InputEvent::Other);
    assert!(!consumed);
    assert!(!redraw);
    assert_eq!(s.registry.active_index(), before_active);
    assert_eq!(s.clear_color, before_color);
    assert_eq!(s.surface.config, before_config);
}

#[test]
fn set_clear_color_pins_alpha_to_one() {
    let mut s = host(1, 640, 480);
    s.set_clear_color(1, 2, 3);
    assert_eq!(
        s.clear_color,
        ClearColor { red: 1, green: 2, blue: 3, alpha: COLOR_UNIT }
    );
}

#[test]
fn scenario_a_one_toggle_flips_pipeline_and_index_count() {
    let mut s = host(1, 640, 480);
    assert_eq!(s.registry.active_index(), 0);
    assert_eq!(s.registry.active_pipeline().fragment_entry, FRAGMENT_ENTRY_MAIN);
    assert_eq!(s.registry.active_index_count(), 9);

    let (consumed, _) = s.handle_event(&InputEvent::ToggleKey { pressed: true });
    assert!(consumed);
    assert_eq!(s.registry.active_index(), 1);
    assert_eq!(s.registry.active_pipeline().fragment_entry, FRAGMENT_ENTRY_ALT);
    assert_eq!(s.registry.active_index_count(), 15);
}

#[test]
fn scenario_b_zero_resize_has_no_lingering_effect() {
    let mut via_zero = host(1, 640, 480);
    assert_eq!(via_zero.resize(0, 0), None);
    let applied = via_zero.resize(800, 600);

    let mut direct = host(1, 640, 480);
    let direct_applied = direct.resize(800, 600);

    assert_eq!(applied, direct_applied);
    assert_eq!(via_zero.surface.config, direct.surface.config);
    assert_eq!(via_zero.surface.config.width, 800);
    assert_eq!(via_zero.surface.config.height, 600);
}

#[test]
fn scenario_c_lost_acquire_recovers_with_the_same_size() {
    let s = host(1, 320, 200);
    let before = s.surface.config;

    let (decision, reapply) = s.handle_acquire_failure(&AcquireError::Lost);
    assert_eq!(decision, FrameDecision::RecoverAndSkip);
    assert_eq!(reapply, Some(before));
    assert_eq!(s.surface.config, before);

    let cmds = s.plan_frame();
    assert!(matches!(cmds[0], RenderCommand::BeginPass { .. }));
    assert_eq!(s.surface.config.width, 320);
    assert_eq!(s.surface.config.height, 200);

    let (decision, reapply) = s.handle_acquire_failure(&AcquireError::OutOfMemory);
    assert_eq!(decision, FrameDecision::Terminate);
    assert_eq!(reapply, None);
}

#[test]
fn a_frame_plan_draws_the_active_variant() {
    let mut s = host(3, 640, 480);
    s.handle_event(&InputEvent::ToggleKey { pressed: true });
    let cmds = s.plan_frame();
    assert!(cmds.contains(&RenderCommand::SetPipeline { variant: 1 }));
    assert!(cmds.contains(&RenderCommand::DrawIndexed { first: 0, count: 15, instances: 1 }));
}
