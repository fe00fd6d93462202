use dim_screen::alpha::Alpha;
use dim_screen::buffer::{BufferManager, BufferType, Rgba};
use dim_screen::dim::{Capability, DimData, DimError, KeyboardInteractivity, PointerEventKind};
use dim_screen::opts::DimOpts;
use dim_screen::surface::DrawRequest;

const HALF: u32 = 2147483647;

fn dimmer(mgr: BufferManager, alpha: u32, fade_ms: u64, passthrough: bool) -> DimData {
    let opts = DimOpts {
        duration: None,
        alpha: Some(Alpha::from_level(alpha)),
        fade: Some(fade_ms),
        passthrough,
    };
    DimData::new(mgr, opts)
}

fn alpha_of(b: BufferType) -> u32 {
    match b {
        BufferType::Wl(c) => c.a,
        other => panic!("expected a native buffer, got {:?}", other),
    }
}

#[test]
fn fade_over_two_outputs() {
    let mut d = dimmer(BufferManager::SinglePixel, HALF, 2000, false);
    let b = d.new_output(1, 11).unwrap();
    assert_eq!(b, BufferType::Wl(Rgba { r: 0, g: 0, b: 0, a: 0 }));
    d.new_output(2, 12).unwrap();
    for sid in [11, 12] {
        let step = d.configure(sid, 1920, 1080).unwrap();
        assert!(step.draw.request_frame);
    }

    let quarter = u32::MAX as f64 * 0.25;
    for (sid, out) in [(11, 1), (12, 2)] {
        let step = d.frame(sid, 1000).unwrap();
        assert_eq!(step.output, out);
        let a = alpha_of(step.back_buffer);
        assert!((a as f64 - quarter).abs() <= 1.0);
        assert!(step.draw.request_frame);
        assert_eq!(d.surface(out).unwrap().buffer, BufferType::Wl(Rgba { r: 0, g: 0, b: 0, a }));
    }

    let half = u32::MAX as f64 * 0.5;
    let step = d.frame(11, 2500).unwrap();
    let a = alpha_of(step.back_buffer);
    assert!((a as f64 - half).abs() <= 1.0);
    assert!(!step.draw.request_frame);
    assert!(d.fade_done());

    // the fade is over for the second output too, which still shows the target
    let step = d.frame(12, 2500).unwrap();
    assert_eq!(alpha_of(step.back_buffer), HALF);
    assert!(!step.draw.request_frame);
    for out in [1, 2] {
        assert!((alpha_of(d.surface(out).unwrap().buffer) as f64 - half).abs() <= 1.0);
    }
    assert!(!d.should_exit());
}

#[test]
fn frames_after_the_fade_keep_the_target() {
    let mut d = dimmer(BufferManager::SinglePixel, HALF, 1000, false);
    d.new_output(1, 11).unwrap();
    d.configure(11, 800, 600).unwrap();
    let step = d.frame(11, 1500).unwrap();
    assert_eq!(alpha_of(step.back_buffer), HALF);
    let step = d.frame(11, 1600).unwrap();
    assert_eq!(alpha_of(step.back_buffer), HALF);
    assert!(!step.draw.request_frame);
    assert_eq!(alpha_of(d.surface(1).unwrap().buffer), HALF);
    let step = d.configure(11, 1024, 768).unwrap();
    assert_eq!(step.back_buffer, Some(BufferType::Wl(Rgba { r: 0, g: 0, b: 0, a: HALF })));
    assert!(!step.draw.request_frame);
    assert_eq!(alpha_of(d.surface(1).unwrap().buffer), HALF);
}

#[test]
fn output_added_after_the_fade_shows_the_target() {
    let mut d = dimmer(BufferManager::Shm, u32::MAX, 0, false);
    d.new_output(1, 11).unwrap();
    d.configure(11, 800, 600).unwrap();
    d.frame(11, 0).unwrap();
    assert!(d.fade_done());
    d.new_output(2, 12).unwrap();
    let step = d.configure(12, 640, 480).unwrap();
    assert_eq!(step.back_buffer, Some(BufferType::Shared([0, 0, 0, 255])));
    assert_eq!(step.draw.buffer, BufferType::Shared([0, 0, 0, 255]));
    assert!(!step.draw.request_frame);
}

#[test]
fn zero_fade_is_done_at_first_frame() {
    let mut d = dimmer(BufferManager::SinglePixel, HALF, 0, false);
    d.new_output(1, 11).unwrap();
    d.configure(11, 800, 600).unwrap();
    let step = d.frame(11, 0).unwrap();
    assert_eq!(alpha_of(step.back_buffer), HALF);
    assert!(!step.draw.request_frame);
    assert!(d.fade_done());
}

#[test]
fn shm_fade_repaints_back_canvas() {
    let mut d = dimmer(BufferManager::Shm, u32::MAX, 1000, false);
    assert_eq!(d.new_output(3, 30), Ok(BufferType::Shared([0, 0, 0, 0])));
    d.configure(30, 0, 0).unwrap();
    let step = d.frame(30, 500).unwrap();
    assert_eq!(step.back_buffer, BufferType::Shared([0, 0, 0, 127]));
    assert_eq!(
        step.draw,
        DrawRequest { width: 100, height: 100, request_frame: true, buffer: BufferType::Shared([0, 0, 0, 127]) }
    );
    let step = d.frame(30, 1000).unwrap();
    assert_eq!(step.back_buffer, BufferType::Shared([0, 0, 0, 255]));
    assert!(!step.draw.request_frame);
}

#[test]
fn configure_sets_size_and_draws() {
    let mut d = dimmer(BufferManager::SinglePixel, HALF, 500, false);
    d.new_output(1, 11).unwrap();
    let step = d.configure(11, 1280, 0).unwrap();
    assert_eq!((step.output, step.width, step.height), (1, 1280, 100));
    assert_eq!(step.back_buffer, None);
    assert_eq!(
        step.draw,
        DrawRequest { width: 1280, height: 100, request_frame: true, buffer: BufferType::Wl(Rgba { r: 0, g: 0, b: 0, a: 0 }) }
    );
    let s = d.surface(1).unwrap();
    assert!(s.configured);
    assert_eq!((s.width, s.height), (1280, 100));
}

#[test]
fn events_for_unknown_or_unconfigured_surfaces_are_refused() {
    let mut d = dimmer(BufferManager::SinglePixel, HALF, 500, false);
    assert_eq!(d.configure(99, 10, 10), Err(DimError::UnknownSurface));
    assert_eq!(d.frame(99, 10), Err(DimError::UnknownSurface));
    d.new_output(1, 11).unwrap();
    assert_eq!(d.frame(11, 10), Err(DimError::NotConfigured));
    assert!(!d.fade_done());
}

#[test]
fn hot_plug_adds_replaces_and_removes_one_surface() {
    let mut d = dimmer(BufferManager::SinglePixel, HALF, 500, false);
    d.new_output(1, 11).unwrap();
    d.new_output(2, 12).unwrap();
    d.configure(12, 640, 480).unwrap();
    let before = d.surface(2).unwrap();

    d.configure(11, 800, 600).unwrap();
    d.update_output(1, 21).unwrap();
    let replaced = d.surface(1).unwrap();
    assert_eq!(replaced.surface_id, 21);
    assert!(!replaced.configured);
    assert_eq!(d.surface(2), Some(before));

    assert!(d.output_destroyed(1));
    assert_eq!(d.surface(1), None);
    assert_eq!(d.surface(2), Some(before));
    assert!(!d.output_destroyed(1));
    assert_eq!(d.surface(2), Some(before));
}

#[test]
fn hot_plug_errors() {
    let mut d = dimmer(BufferManager::SinglePixel, HALF, 500, false);
    assert_eq!(d.update_output(7, 70), Err(DimError::UnknownOutput));
    assert_eq!(d.surface(7), None);
    d.new_output(1, 11).unwrap();
    d.new_output(2, 12).unwrap();
    assert_eq!(d.new_output(3, 11), Err(DimError::SurfaceInUse));
    assert_eq!(d.update_output(2, 11), Err(DimError::SurfaceInUse));
    assert_eq!(d.surface(2).unwrap().surface_id, 12);
    assert_eq!(d.surface(3), None);
}

#[test]
fn passthrough_surfaces_let_input_through_but_keys_still_exit() {
    let mut d = dimmer(BufferManager::SinglePixel, HALF, 500, true);
    let setup = d.surface_setup(Some((2560, 1440)));
    assert!(setup.empty_input_region);
    assert_eq!(setup.keyboard, KeyboardInteractivity::Disabled);
    assert_eq!((setup.width, setup.height, setup.exclusive_zone), (2560, 1440, -1));
    d.press_key();
    assert!(d.should_exit());
}

#[test]
fn surface_setup_without_passthrough_takes_keyboard() {
    let d = dimmer(BufferManager::Shm, HALF, 500, false);
    let setup = d.surface_setup(None);
    assert!(!setup.empty_input_region);
    assert_eq!(setup.keyboard, KeyboardInteractivity::Exclusive);
    assert_eq!((setup.width, setup.height), (100, 100));
    let setup = d.surface_setup(Some((-1, 5)));
    assert_eq!((setup.width, setup.height), (100, 100));
}

#[test]
fn pointer_enter_and_leave_do_not_exit() {
    let mut d = dimmer(BufferManager::SinglePixel, HALF, 500, false);
    let hidden = d.pointer_frame(&vec![
        PointerEventKind::Enter { serial: 4 },
        PointerEventKind::Leave,
    ]);
    assert!(hidden.is_empty());
    assert!(!d.should_exit());
    d.pointer_frame(&vec![PointerEventKind::Motion]);
    assert!(d.should_exit());
}

#[test]
fn pointer_press_or_touch_exits() {
    let mut d = dimmer(BufferManager::SinglePixel, HALF, 500, false);
    d.pointer_frame(&vec![PointerEventKind::Leave, PointerEventKind::Press]);
    assert!(d.should_exit());
    let mut d = dimmer(BufferManager::SinglePixel, HALF, 500, false);
    d.down();
    assert!(d.should_exit());
    d.down();
    assert!(d.should_exit());
}

#[test]
fn opaque_overlay_hides_cursor_on_enter() {
    let mut d = dimmer(BufferManager::SinglePixel, u32::MAX, 500, false);
    let hidden = d.pointer_frame(&vec![
        PointerEventKind::Enter { serial: 4 },
        PointerEventKind::Leave,
        PointerEventKind::Enter { serial: 9 },
    ]);
    assert_eq!(hidden, vec![4, 9]);
    assert!(!d.should_exit());
}

#[test]
fn capabilities_are_acquired_and_released() {
    let mut d = dimmer(BufferManager::SinglePixel, HALF, 500, false);
    assert_eq!(d.remove_capability(Capability::Keyboard), Err(DimError::CapabilityNotHeld));
    d.new_capability(Capability::Keyboard);
    d.new_capability(Capability::Touch);
    assert_eq!(d.remove_capability(Capability::Keyboard), Ok(()));
    assert_eq!(d.remove_capability(Capability::Keyboard), Err(DimError::CapabilityNotHeld));
    assert_eq!(d.remove_capability(Capability::Pointer), Err(DimError::CapabilityNotHeld));
    assert_eq!(d.remove_capability(Capability::Touch), Ok(()));
}
