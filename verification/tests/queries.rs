use core_graphics::display::CGDisplay;
use core_graphics::geometry::CGPoint;
use core_graphics::geometry::CGRect;
use core_graphics::geometry::CGSize;
use core_graphics::server::DisplayProperties;
use core_graphics::server::WindowServer;

fn fitted_display() -> DisplayProperties {
    DisplayProperties {
        id: 3,
        active: 1,
        always_in_mirror_set: 0,
        asleep: 2,
        builtin: 1,
        in_hw_mirror_set: 0,
        in_mirror_set: 1,
        main: 1,
        online: 1,
        uses_gl_acceleration: 0,
        stereo: 0,
        mirrors: 9,
        primary: 3,
        rotation_degrees: 90,
        screen_size: CGSize { width: 600, height: 340 },
        serial_number: 1234,
        unit_number: 2,
        vendor_number: 610,
        model_number: 41001,
        pixels_high: 2160,
        pixels_wide: 3840,
        bounds: CGRect {
            origin: CGPoint { x: 10, y: 20 },
            size: CGSize { width: 1920, height: 1080 },
        },
        mode: None,
        capturable: 0,
    }
}

fn query_server() -> WindowServer {
    WindowServer {
        displays: vec![fitted_display()],
        records: vec![],
        main_id: 3,
        active_list: vec![3],
        list_code: 0,
        cursor_code: 0,
        cursor_hide_level: 0,
        cursor_position: CGPoint { x: 0, y: 0 },
        mouse_associated: 0,
        window_list_available: false,
        window_count: 0,
        capture_available: false,
        last_capture: None,
        last_array_capture: None,
        last_window_query: None,
    }
}

#[test]
fn boolean_queries_translate_nonzero_to_true() {
    let server = query_server();
    let display = CGDisplay::new(3);
    assert!(display.is_active(&server));
    // the flag holds 2: any non-zero native boolean is true
    assert!(display.is_asleep(&server));
    assert!(display.is_builtin(&server));
    assert!(display.is_in_mirror_set(&server));
    assert!(display.is_main(&server));
    assert!(display.is_online(&server));
    assert!(!display.is_always_in_mirror_set(&server));
    assert!(!display.is_in_hw_mirror_set(&server));
    assert!(!display.uses_open_gl_acceleration(&server));
    assert!(!display.is_stereo(&server));
}

#[test]
fn numeric_queries_forward_the_recorded_values() {
    let server = query_server();
    let display = CGDisplay::new(3);
    assert_eq!(display.mirrors_display(&server), 9);
    assert_eq!(display.primary_display(&server), 3);
    assert_eq!(display.rotation(&server), 90);
    assert_eq!(display.serial_number(&server), 1234);
    assert_eq!(display.unit_number(&server), 2);
    assert_eq!(display.vendor_number(&server), 610);
    assert_eq!(display.model_number(&server), 41001);
    assert_eq!(display.pixels_high(&server), 2160);
    assert_eq!(display.pixels_wide(&server), 3840);
    assert_eq!(display.screen_size(&server), CGSize { width: 600, height: 340 });
    assert_eq!(
        display.bounds(&server),
        CGRect {
            origin: CGPoint { x: 10, y: 20 },
            size: CGSize { width: 1920, height: 1080 },
        }
    );
}

#[test]
fn unknown_display_reports_inactive_and_empty() {
    let server = query_server();
    let display = CGDisplay::new(77);
    assert!(!display.is_active(&server));
    assert!(!display.is_online(&server));
    assert!(!display.is_main(&server));
    assert_eq!(display.mirrors_display(&server), 0);
    assert_eq!(display.primary_display(&server), 0);
    assert_eq!(display.rotation(&server), 0);
    assert_eq!(display.serial_number(&server), 0);
    assert_eq!(display.pixels_wide(&server), 0);
    assert_eq!(display.screen_size(&server), CGSize { width: 0, height: 0 });
    assert_eq!(
        display.bounds(&server),
        CGRect {
            origin: CGPoint { x: 0, y: 0 },
            size: CGSize { width: 0, height: 0 },
        }
    );
}

#[test]
fn new_wraps_the_identifier() {
    let display = CGDisplay::new(12);
    assert_eq!(display.id, 12);
}
