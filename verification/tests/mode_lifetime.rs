use core_graphics::display::CGDisplay;
use core_graphics::display::CGDisplayMode;
use core_graphics::geometry::CGPoint;
use core_graphics::geometry::CGRect;
use core_graphics::geometry::CGSize;
use core_graphics::server::DisplayProperties;
use core_graphics::server::ModeInfo;
use core_graphics::server::WindowServer;

fn plain_display(id: u32) -> DisplayProperties {
    DisplayProperties {
        id,
        active: 1,
        always_in_mirror_set: 0,
        asleep: 0,
        builtin: 0,
        in_hw_mirror_set: 0,
        in_mirror_set: 0,
        main: 0,
        online: 1,
        uses_gl_acceleration: 0,
        stereo: 0,
        mirrors: 0,
        primary: id,
        rotation_degrees: 0,
        screen_size: CGSize { width: 0, height: 0 },
        serial_number: 0,
        unit_number: 0,
        vendor_number: 0,
        model_number: 0,
        pixels_high: 0,
        pixels_wide: 0,
        bounds: CGRect {
            origin: CGPoint { x: 0, y: 0 },
            size: CGSize { width: 0, height: 0 },
        },
        mode: None,
        capturable: 0,
    }
}

fn empty_server() -> WindowServer {
    WindowServer {
        displays: vec![],
        records: vec![],
        main_id: 0,
        active_list: vec![],
        list_code: 0,
        cursor_code: 0,
        cursor_hide_level: 0,
        cursor_position: CGPoint { x: 0, y: 0 },
        mouse_associated: 0,
        window_list_available: false,
        window_count: 0,
        capture_available: false,
        last_capture: None,
        last_array_capture: None,
        last_window_query: None,
    }
}

fn sample_mode() -> ModeInfo {
    ModeInfo {
        width: 1920,
        height: 1080,
        pixel_width: 3840,
        pixel_height: 2160,
        refresh_rate_millihertz: 60_000,
    }
}

fn server_with_mode() -> WindowServer {
    let mut d = plain_display(1);
    d.mode = Some(sample_mode());
    let mut server = empty_server();
    server.displays = vec![d];
    server
}

#[test]
fn released_exactly_once_after_last_wrapper() {
    let mut server = server_with_mode();
    let display = CGDisplay::new(1);
    let first = display.display_mode(&mut server).unwrap();
    assert_eq!(server.records[0].ref_count, 1);
    assert_eq!(server.records[0].frees, 0);

    let second = first.duplicate(&mut server);
    let third = second.duplicate(&mut server);
    assert_eq!(server.records[0].ref_count, 3);

    second.destroy(&mut server);
    assert_eq!(server.records[0].ref_count, 2);
    assert_eq!(server.records[0].frees, 0);

    first.destroy(&mut server);
    assert_eq!(server.records[0].ref_count, 1);
    assert_eq!(server.records[0].frees, 0);

    third.destroy(&mut server);
    assert_eq!(server.records[0].ref_count, 0);
    assert_eq!(server.records[0].frees, 1);
}

#[test]
fn lone_wrapper_frees_on_destruction() {
    let mut server = server_with_mode();
    let display = CGDisplay::new(1);
    let wrapper = display.display_mode(&mut server).unwrap();
    wrapper.destroy(&mut server);
    assert_eq!(server.records[0].ref_count, 0);
    assert_eq!(server.records[0].frees, 1);
}

#[test]
fn duplicate_of_destroyed_original_keeps_record_alive() {
    let mut server = server_with_mode();
    let display = CGDisplay::new(1);
    let original = display.display_mode(&mut server).unwrap();
    let duplicate = original.duplicate(&mut server);
    original.destroy(&mut server);
    assert_eq!(server.records[0].ref_count, 1);
    assert_eq!(server.records[0].frees, 0);
    duplicate.destroy(&mut server);
    assert_eq!(server.records[0].frees, 1);
}

#[test]
fn adopting_null_is_rejected() {
    assert!(CGDisplayMode::adopt(0).is_none());
}

#[test]
fn adopting_nonnull_never_holds_null() {
    let wrapper = CGDisplayMode::adopt(5).unwrap();
    assert_ne!(wrapper.raw_handle(), 0);
    assert_eq!(wrapper.raw_handle(), 5);
}

#[test]
fn mode_lookup_without_configuration_is_absent_not_failure() {
    let mut server = empty_server();
    server.displays = vec![plain_display(1)];
    let display = CGDisplay::new(1);
    assert!(display.display_mode(&mut server).is_none());
    assert!(server.records.is_empty());
}

#[test]
fn mode_lookup_on_unknown_display_is_absent() {
    let mut server = server_with_mode();
    let display = CGDisplay::new(99);
    assert!(display.display_mode(&mut server).is_none());
    assert!(server.records.is_empty());
}

#[test]
fn accessors_return_adopted_values_unmodified() {
    let mut server = server_with_mode();
    let display = CGDisplay::new(1);
    let wrapper = display.display_mode(&mut server).unwrap();
    assert_eq!(wrapper.width(&server), 1920);
    assert_eq!(wrapper.height(&server), 1080);
    assert_eq!(wrapper.pixel_width(&server), 3840);
    assert_eq!(wrapper.pixel_height(&server), 2160);
    assert_eq!(wrapper.refresh_rate(&server), 60_000);
    wrapper.destroy(&mut server);
}

#[test]
fn accessors_survive_duplication() {
    let mut server = server_with_mode();
    let display = CGDisplay::new(1);
    let original = display.display_mode(&mut server).unwrap();
    let duplicate = original.duplicate(&mut server);
    original.destroy(&mut server);
    assert_eq!(duplicate.width(&server), 1920);
    assert_eq!(duplicate.refresh_rate(&server), 60_000);
    duplicate.destroy(&mut server);
}
