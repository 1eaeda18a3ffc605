use zxpresent::machine::{
    AcquireError, AcquireRecovery, Action, Event, Phase, Presenter, SurfaceConfig,
};
use zxpresent::palette::Rgba;

fn configured_presenter() -> Presenter {
    let mut p = Presenter::new(320, 240);
    p.configure(640, 480);
    p
}

#[test]
fn configure_establishes_surface_and_quad() {
    let mut p = Presenter::new(320, 240);
    assert_eq!(p.phase, Phase::Uninitialized);
    p.configure(640, 480);
    assert_eq!(p.phase, Phase::Configured);
    assert_eq!(p.config, SurfaceConfig { width: 640, height: 480 });
    assert_eq!(p.quad.zoom, 2);
    assert_eq!(p.quad.scaled_width, 640);
    assert_eq!(p.quad.scaled_height, 480);
}

#[test]
fn valid_resize_reconfigures_and_regenerates_quad() {
    let mut p = configured_presenter();
    let action = p.handle_event(Event::Resized { width: 800, height: 480 });
    assert_eq!(action, Action::Reconfigure);
    assert_eq!(p.config, SurfaceConfig { width: 800, height: 480 });
    assert_eq!(p.quad.zoom, 2);
    assert_eq!(p.quad.scaled_width, 640);
    assert_eq!(p.quad.window_width, 800);
}

#[test]
fn zero_sized_resize_is_ignored() {
    let mut p = configured_presenter();
    let before = p.config;
    assert_eq!(p.handle_event(Event::Resized { width: 0, height: 480 }), Action::Ignore);
    assert_eq!(p.handle_event(Event::Resized { width: 800, height: 0 }), Action::Ignore);
    assert_eq!(p.config, before);
    assert_eq!(p.phase, Phase::Configured);
}

#[test]
fn close_request_closes_and_later_events_are_dropped() {
    let mut p = configured_presenter();
    assert_eq!(p.handle_event(Event::CloseRequested), Action::Close);
    assert_eq!(p.phase, Phase::Closed);
    assert_eq!(p.handle_event(Event::RedrawRequested), Action::Ignore);
    assert_eq!(p.handle_event(Event::Resized { width: 100, height: 100 }), Action::Ignore);
    assert_eq!(p.handle_event(Event::CloseRequested), Action::Ignore);
    assert_eq!(p.phase, Phase::Closed);
}

#[test]
fn redraw_renders_only_when_configured() {
    let mut p = Presenter::new(320, 240);
    assert_eq!(p.handle_event(Event::RedrawRequested), Action::Ignore);
    p.configure(640, 480);
    assert_eq!(p.handle_event(Event::RedrawRequested), Action::Render);
    assert_eq!(p.handle_event(Event::Other), Action::Ignore);
}

#[test]
fn render_frame_plans_both_uploads() {
    let mut p = configured_presenter();
    let pixels = vec![7u8; 320 * 240];
    let plan = p.render_frame(&pixels, 16_000_000);
    assert_eq!(plan.palette_bytes.len(), 1024);
    // Width 320 padded to the 256-byte alignment quantum.
    assert_eq!(plan.bytes_per_row, 512);
    assert_eq!(plan.pixel_rows.len(), 512 * 240);
    for y in 0..240usize {
        let row = &plan.pixel_rows[y * 512..y * 512 + 512];
        assert!(row[..320].iter().all(|&b| b == 7));
        assert!(row[320..].iter().all(|&b| b == 0));
    }
    assert!(plan.summary.is_none());
    assert_eq!(p.frame, 1);
    assert_eq!(p.stats.count, 1);
}

#[test]
fn transient_acquire_failures_skip_and_reconfigure() {
    for err in [AcquireError::Timeout, AcquireError::Outdated, AcquireError::Lost] {
        let mut p = configured_presenter();
        assert_eq!(p.on_acquire_error(err), AcquireRecovery::SkipAndReconfigure);
        assert_eq!(p.phase, Phase::Configured);
    }
}

#[test]
fn fatal_acquire_failures_close_the_window() {
    for err in [AcquireError::OutOfMemory, AcquireError::Other] {
        let mut p = configured_presenter();
        assert_eq!(p.on_acquire_error(err), AcquireRecovery::CloseWindow);
        assert_eq!(p.phase, Phase::Closed);
    }
}

#[test]
fn set_palette_replaces_the_upload_payload() {
    let mut p = configured_presenter();
    let entries = vec![Rgba(1, 2, 3, 4); 256];
    p.set_palette(entries);
    let pixels = vec![0u8; 320 * 240];
    let plan = p.render_frame(&pixels, 1);
    assert_eq!(&plan.palette_bytes[0..4], &[1, 2, 3, 4]);
    assert_eq!(&plan.palette_bytes[1020..1024], &[1, 2, 3, 4]);
}

#[test]
fn set_palette_partial_pads_with_transparent_black() {
    let mut p = configured_presenter();
    p.set_palette_partial(&vec![Rgba(9, 9, 9, 9)]);
    let pixels = vec![0u8; 320 * 240];
    let plan = p.render_frame(&pixels, 1);
    assert_eq!(&plan.palette_bytes[0..4], &[9, 9, 9, 9]);
    assert_eq!(&plan.palette_bytes[4..8], &[0, 0, 0, 0]);
}
