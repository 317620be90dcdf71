use core_graphics::base::bool_from_native;
use core_graphics::base::result_from_code;
use core_graphics::display::CGDisplay;
use core_graphics::geometry::CGPoint;
use core_graphics::server::WindowServer;

fn cursor_server(cursor_code: i32) -> WindowServer {
    WindowServer {
        displays: vec![],
        records: vec![],
        main_id: 0,
        active_list: vec![],
        list_code: 0,
        cursor_code,
        cursor_hide_level: 0,
        cursor_position: CGPoint { x: 0, y: 0 },
        mouse_associated: 0,
        window_list_available: false,
        window_count: 0,
        capture_available: false,
        last_capture: None,
        last_array_capture: None,
        last_window_query: None,
    }
}

#[test]
fn nonzero_code_surfaces_verbatim() {
    let mut server = cursor_server(1000);
    let display = CGDisplay::new(1);
    assert_eq!(display.hide_cursor(&mut server), Err(1000));
    assert_eq!(display.show_cursor(&mut server), Err(1000));
    assert_eq!(
        display.move_cursor_to_point(CGPoint { x: 3, y: 4 }, &mut server),
        Err(1000)
    );
    assert_eq!(
        CGDisplay::warp_mouse_cursor_position(CGPoint { x: 5, y: 6 }, &mut server),
        Err(1000)
    );
    assert_eq!(
        CGDisplay::associate_mouse_and_mouse_cursor_position(true, &mut server),
        Err(1000)
    );
    assert_eq!(server.cursor_hide_level, 0);
    assert_eq!(server.cursor_position, CGPoint { x: 0, y: 0 });
    assert_eq!(server.mouse_associated, 0);
}

#[test]
fn hide_and_show_balance_the_level() {
    let mut server = cursor_server(0);
    let display = CGDisplay::new(1);
    assert_eq!(display.hide_cursor(&mut server), Ok(()));
    assert_eq!(display.hide_cursor(&mut server), Ok(()));
    assert_eq!(server.cursor_hide_level, 2);
    assert_eq!(display.show_cursor(&mut server), Ok(()));
    assert_eq!(server.cursor_hide_level, 1);
    assert_eq!(display.show_cursor(&mut server), Ok(()));
    assert_eq!(server.cursor_hide_level, 0);
}

#[test]
fn show_below_zero_saturates() {
    let mut server = cursor_server(0);
    let display = CGDisplay::new(1);
    assert_eq!(display.show_cursor(&mut server), Ok(()));
    assert_eq!(server.cursor_hide_level, 0);
}

#[test]
fn move_and_warp_record_the_point_verbatim() {
    let mut server = cursor_server(0);
    let display = CGDisplay::new(1);
    let p = CGPoint { x: -17, y: 250 };
    assert_eq!(display.move_cursor_to_point(p, &mut server), Ok(()));
    assert_eq!(server.cursor_position, p);
    let q = CGPoint { x: 800, y: 600 };
    assert_eq!(CGDisplay::warp_mouse_cursor_position(q, &mut server), Ok(()));
    assert_eq!(server.cursor_position, q);
}

#[test]
fn association_flag_reaches_the_server() {
    let mut server = cursor_server(0);
    assert_eq!(
        CGDisplay::associate_mouse_and_mouse_cursor_position(true, &mut server),
        Ok(())
    );
    assert_eq!(server.mouse_associated, 1);
    assert_eq!(
        CGDisplay::associate_mouse_and_mouse_cursor_position(false, &mut server),
        Ok(())
    );
    assert_eq!(server.mouse_associated, 0);
}

#[test]
fn code_translation_is_exact() {
    assert_eq!(result_from_code(0), Ok(()));
    assert_eq!(result_from_code(1000), Err(1000));
    assert_eq!(result_from_code(-3), Err(-3));
}

#[test]
fn native_boolean_translation() {
    assert!(!bool_from_native(0));
    assert!(bool_from_native(1));
    assert!(bool_from_native(2));
}
