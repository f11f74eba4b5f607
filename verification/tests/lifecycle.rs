use wincomp::controller::{
    Action, Controller, DeviceStackIds, DispatchOutcome, Event, GpuSurfaceReport, NativeError,
    Phase, VisualTreeReport, WM_DESTROY, WM_PAINT, WM_SIZE,
};
use wincomp::geometry::ClientRect;
use wincomp::pixels::{AlphaMode, PixelFormat};
use wincomp::surface::SurfaceCaps;

fn caps_with_srgb() -> SurfaceCaps {
    SurfaceCaps {
        formats: vec![PixelFormat::Bgra8Unorm, PixelFormat::Bgra8UnormSrgb],
        alpha_modes: vec![AlphaMode::PreMultiplied, AlphaMode::Opaque],
    }
}

/// Drives a full successful rebuild for a controller whose device stack is
/// absent, answering each requested step with a success, and returns the
/// handles used.
fn drive_successful_rebuild(c: &mut Controller, base: u64, width: i32, height: i32) {
    let a = match c.message_handler(WM_PAINT, 0) {
        DispatchOutcome::Handled { action } => action,
        other => panic!("paint not handled: {:?}", other),
    };
    assert!(matches!(a, Action::CreateDeviceStack));
    let mut a = c.step(Event::DeviceStackCreated(Ok(DeviceStackIds {
        device3d: base + 1,
        device2d: base + 2,
        desktop: base + 3,
    })));
    if matches!(a, Action::ReleaseTarget) {
        a = c.step(Event::TargetReleased);
    }
    assert!(matches!(a, Action::CreateTarget { .. }));
    let a = c.step(Event::TargetCreated(Ok(base + 4)));
    assert!(matches!(a, Action::BuildVisualTree { .. }));
    let a = c.step(Event::VisualTreeBuilt(Ok(VisualTreeReport {
        root_visual: base + 5,
        content_visual: base + 6,
        client_rect: ClientRect { left: 0, top: 0, right: width, bottom: height },
    })));
    assert!(matches!(a, Action::CreateGpuSurface { .. }));
    let a = c.step(Event::GpuSurfaceCreated(Ok(GpuSurfaceReport {
        surface: base + 7,
        adapter: base + 8,
        device: base + 9,
        queue: base + 10,
        caps: caps_with_srgb(),
    })));
    assert!(matches!(a, Action::ConfigureSurface { .. }));
    let a = c.step(Event::SurfaceConfigured);
    assert!(matches!(a, Action::CommitComposition { .. }));
    let a = c.step(Event::CompositionCommitted(Ok(())));
    assert!(matches!(a, Action::RenderFrame { .. }));
    let a = c.step(Event::FrameRendered(Ok(())));
    assert!(matches!(a, Action::AcknowledgePaint { .. }));
    assert!(c.is_idle());
}

#[test]
fn first_paint_builds_everything_in_order() {
    let mut c = Controller::new();
    c.associate_window(7);

    let a = match c.message_handler(WM_PAINT, 0) {
        DispatchOutcome::Handled { action } => action,
        other => panic!("paint not handled: {:?}", other),
    };
    assert_eq!(a, Action::CreateDeviceStack);

    let a = c.step(Event::DeviceStackCreated(Ok(DeviceStackIds {
        device3d: 1,
        device2d: 2,
        desktop: 3,
    })));
    // no target was bound yet, so none needs releasing
    assert_eq!(a, Action::CreateTarget { desktop: 3, hwnd: 7 });

    let a = c.step(Event::TargetCreated(Ok(4)));
    assert_eq!(a, Action::BuildVisualTree { desktop: 3, target: 4 });

    let a = c.step(Event::VisualTreeBuilt(Ok(VisualTreeReport {
        root_visual: 5,
        content_visual: 6,
        client_rect: ClientRect { left: 0, top: 0, right: 800, bottom: 600 },
    })));
    assert_eq!(a, Action::CreateGpuSurface { visual: 6, width: 800, height: 600 });

    let a = c.step(Event::GpuSurfaceCreated(Ok(GpuSurfaceReport {
        surface: 8,
        adapter: 9,
        device: 10,
        queue: 11,
        caps: caps_with_srgb(),
    })));
    match a {
        Action::ConfigureSurface { surface, device, config } => {
            assert_eq!(surface, 8);
            assert_eq!(device, 10);
            assert_eq!(config.width, 800);
            assert_eq!(config.height, 600);
            assert_eq!(config.format, PixelFormat::Bgra8UnormSrgb);
            // the first reported alpha mode is selected
            assert_eq!(config.alpha_mode, AlphaMode::PreMultiplied);
            assert_eq!(config.desired_maximum_frame_latency, 0);
        }
        other => panic!("expected a configure action: {:?}", other),
    }

    let a = c.step(Event::SurfaceConfigured);
    assert_eq!(a, Action::CommitComposition { desktop: 3 });

    let a = c.step(Event::CompositionCommitted(Ok(())));
    match a {
        Action::RenderFrame { plan, surface, device, queue } => {
            assert_eq!(plan.view_format, PixelFormat::Bgra8UnormSrgb);
            assert_eq!(plan.clear.red_milli, 1000);
            assert_eq!(plan.clear.green_milli, 0);
            assert_eq!(plan.clear.blue_milli, 0);
            assert_eq!(plan.clear.alpha_milli, 500);
            assert!(plan.store);
            assert_eq!((surface, device, queue), (8, 10, 11));
        }
        other => panic!("expected a render action: {:?}", other),
    }

    let a = c.step(Event::FrameRendered(Ok(())));
    assert_eq!(a, Action::AcknowledgePaint { hwnd: 7 });
    assert!(c.is_idle());
    assert_eq!(c.device3d, Some(1));
    assert_eq!(c.desktop, Some(3));
    assert_eq!(c.target, Some(4));
}

#[test]
fn end_to_end_resize_loss_and_recovery() {
    let mut c = Controller::new();
    c.associate_window(7);
    drive_successful_rebuild(&mut c, 0, 800, 600);
    assert_eq!(c.surface.unwrap().config.width, 800);
    assert_eq!(c.surface.unwrap().config.height, 600);

    // resize to 400x300 updates the configuration before the next paint
    let lparam: u32 = 400 | (300 << 16);
    match c.message_handler(WM_SIZE, lparam) {
        DispatchOutcome::Handled { action: Action::ConfigureSurface { config, .. } } => {
            assert_eq!(config.width, 400);
            assert_eq!(config.height, 300);
        }
        other => panic!("expected a configure action: {:?}", other),
    }
    assert!(c.is_idle());

    // the next paint revalidates the healthy stack and presents at 400x300
    let a = match c.message_handler(WM_PAINT, 0) {
        DispatchOutcome::Handled { action } => action,
        other => panic!("paint not handled: {:?}", other),
    };
    assert_eq!(a, Action::CheckDeviceLiveness { device3d: 1 });
    let a = c.step(Event::LivenessChecked(Ok(())));
    match a {
        Action::RenderFrame { surface, .. } => assert_eq!(surface, 7),
        other => panic!("expected a render action: {:?}", other),
    }
    assert_eq!(c.surface.unwrap().config.width, 400);
    assert_eq!(c.surface.unwrap().config.height, 300);
    let a = c.step(Event::FrameRendered(Ok(())));
    assert_eq!(a, Action::AcknowledgePaint { hwnd: 7 });

    // simulated device removal: the stack is cleared, nothing else yet
    let a = match c.message_handler(WM_PAINT, 0) {
        DispatchOutcome::Handled { action } => action,
        other => panic!("paint not handled: {:?}", other),
    };
    assert_eq!(a, Action::CheckDeviceLiveness { device3d: 1 });
    let a = c.step(Event::LivenessChecked(Err(NativeError { code: -2005270523 })));
    assert_eq!(a, Action::AcknowledgePaint { hwnd: 7 });
    assert_eq!(c.device3d, None);
    assert!(c.surface.is_some());

    // the next paint rebuilds from scratch, releasing the stale target first
    drive_successful_rebuild(&mut c, 20, 400, 300);
    assert_eq!(c.device3d, Some(21));
    assert_eq!(c.target, Some(24));

    // and subsequent paints keep presenting
    let a = match c.message_handler(WM_PAINT, 0) {
        DispatchOutcome::Handled { action } => action,
        other => panic!("paint not handled: {:?}", other),
    };
    assert_eq!(a, Action::CheckDeviceLiveness { device3d: 21 });
    let a = c.step(Event::LivenessChecked(Ok(())));
    assert!(matches!(a, Action::RenderFrame { .. }));
    let a = c.step(Event::FrameRendered(Ok(())));
    assert_eq!(a, Action::AcknowledgePaint { hwnd: 7 });
}

#[test]
fn resize_sequence_last_one_wins() {
    let mut c = Controller::new();
    c.associate_window(1);
    drive_successful_rebuild(&mut c, 0, 640, 480);

    let sizes: [(u32, u32); 4] = [(1024, 768), (0, 0), (33, 44), (400, 300)];
    for (w, h) in sizes {
        let lparam = w | (h << 16);
        match c.message_handler(WM_SIZE, lparam) {
            DispatchOutcome::Handled { .. } => {}
            other => panic!("size not handled: {:?}", other),
        }
    }
    let config = c.surface.unwrap().config;
    assert_eq!((config.width, config.height), (400, 300));
    // resizing never touched the devices or the target
    assert_eq!(c.device3d, Some(1));
    assert_eq!(c.target, Some(4));
}

#[test]
fn resize_before_any_surface_is_a_noop() {
    let mut c = Controller::new();
    c.associate_window(1);
    let lparam: u32 = 800 | (600 << 16);
    match c.message_handler(WM_SIZE, lparam) {
        DispatchOutcome::Handled { action } => assert_eq!(action, Action::NoAction),
        other => panic!("size not handled: {:?}", other),
    }
    assert!(c.surface.is_none());
    assert!(c.device3d.is_none());
}

#[test]
fn zero_sized_surface_skips_the_frame() {
    let mut c = Controller::new();
    c.associate_window(1);
    drive_successful_rebuild(&mut c, 0, 800, 600);

    // minimize: zero client area is recorded but such a frame is skipped
    match c.message_handler(WM_SIZE, 0) {
        DispatchOutcome::Handled { action } => {
            assert!(matches!(action, Action::ConfigureSurface { .. }));
        }
        other => panic!("size not handled: {:?}", other),
    }
    let a = match c.message_handler(WM_PAINT, 0) {
        DispatchOutcome::Handled { action } => action,
        other => panic!("paint not handled: {:?}", other),
    };
    assert_eq!(a, Action::CheckDeviceLiveness { device3d: 1 });
    let a = c.step(Event::LivenessChecked(Ok(())));
    // no render is requested at a zero size; the paint is acknowledged
    assert_eq!(a, Action::AcknowledgePaint { hwnd: 1 });
    assert!(c.is_idle());
}

#[test]
fn failure_during_rebuild_clears_stack_and_retries() {
    let mut c = Controller::new();
    c.associate_window(9);

    // fail at target creation
    match c.message_handler(WM_PAINT, 0) {
        DispatchOutcome::Handled { action } => assert_eq!(action, Action::CreateDeviceStack),
        other => panic!("paint not handled: {:?}", other),
    }
    let a = c.step(Event::DeviceStackCreated(Ok(DeviceStackIds {
        device3d: 1,
        device2d: 2,
        desktop: 3,
    })));
    assert!(matches!(a, Action::CreateTarget { .. }));
    let a = c.step(Event::TargetCreated(Err(NativeError { code: -1 })));
    assert_eq!(a, Action::AcknowledgePaint { hwnd: 9 });
    assert_eq!(c.device3d, None);
    assert!(c.is_idle());

    // fail at device-stack creation on the retry
    match c.message_handler(WM_PAINT, 0) {
        DispatchOutcome::Handled { action } => assert_eq!(action, Action::CreateDeviceStack),
        other => panic!("paint not handled: {:?}", other),
    }
    let a = c.step(Event::DeviceStackCreated(Err(NativeError { code: -3 })));
    assert_eq!(a, Action::AcknowledgePaint { hwnd: 9 });
    assert_eq!(c.device3d, None);

    // and a full rebuild still succeeds afterwards
    drive_successful_rebuild(&mut c, 40, 320, 200);
    assert_eq!(c.device3d, Some(41));
}

#[test]
fn render_failure_is_treated_as_device_loss() {
    let mut c = Controller::new();
    c.associate_window(3);
    drive_successful_rebuild(&mut c, 0, 100, 100);

    match c.message_handler(WM_PAINT, 0) {
        DispatchOutcome::Handled { action } => {
            assert_eq!(action, Action::CheckDeviceLiveness { device3d: 1 });
        }
        other => panic!("paint not handled: {:?}", other),
    }
    let a = c.step(Event::LivenessChecked(Ok(())));
    assert!(matches!(a, Action::RenderFrame { .. }));
    let a = c.step(Event::FrameRendered(Err(NativeError { code: -7 })));
    assert_eq!(a, Action::AcknowledgePaint { hwnd: 3 });
    assert_eq!(c.device3d, None);
    assert!(matches!(c.message_handler(WM_PAINT, 0),
        DispatchOutcome::Handled { action: Action::CreateDeviceStack }));
}

#[test]
fn missing_srgb_format_fails_the_rebuild_deterministically() {
    let mut c = Controller::new();
    c.associate_window(5);

    match c.message_handler(WM_PAINT, 0) {
        DispatchOutcome::Handled { action } => assert_eq!(action, Action::CreateDeviceStack),
        other => panic!("paint not handled: {:?}", other),
    }
    let a = c.step(Event::DeviceStackCreated(Ok(DeviceStackIds {
        device3d: 1,
        device2d: 2,
        desktop: 3,
    })));
    assert!(matches!(a, Action::CreateTarget { .. }));
    let a = c.step(Event::TargetCreated(Ok(4)));
    assert!(matches!(a, Action::BuildVisualTree { .. }));
    let a = c.step(Event::VisualTreeBuilt(Ok(VisualTreeReport {
        root_visual: 5,
        content_visual: 6,
        client_rect: ClientRect { left: 0, top: 0, right: 64, bottom: 64 },
    })));
    assert!(matches!(a, Action::CreateGpuSurface { .. }));

    // the surface only offers non-sRGB formats: no fallback, the paint fails
    let a = c.step(Event::GpuSurfaceCreated(Ok(GpuSurfaceReport {
        surface: 8,
        adapter: 9,
        device: 10,
        queue: 11,
        caps: SurfaceCaps {
            formats: vec![PixelFormat::Bgra8Unorm, PixelFormat::Rgba8UnormSrgb],
            alpha_modes: vec![AlphaMode::Opaque],
        },
    })));
    assert_eq!(a, Action::AcknowledgePaint { hwnd: 5 });
    assert!(c.surface.is_none());
    assert_eq!(c.device3d, None);
    assert!(c.is_idle());
}

#[test]
fn destroy_quits_and_unknown_messages_fall_through() {
    let mut c = Controller::new();
    c.associate_window(1);
    assert!(matches!(c.message_handler(WM_DESTROY, 0), DispatchOutcome::Quit));
    // 0x0084 is a hit-test message this host does not handle
    assert!(matches!(c.message_handler(0x0084, 0), DispatchOutcome::PassToDefault));
    assert!(matches!(c.message_handler(0x0001, 0), DispatchOutcome::PassToDefault));
}

#[test]
fn new_controller_is_empty_and_phase_starts_idle() {
    let c = Controller::new();
    assert!(c.hwnd.is_none());
    assert!(c.device3d.is_none());
    assert!(c.desktop.is_none());
    assert!(c.target.is_none());
    assert!(c.surface.is_none());
    assert_eq!(c.phase, Phase::Idle);
    assert!(c.is_idle());
}
