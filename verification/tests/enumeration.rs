use core_graphics::display::CGDisplay;
use core_graphics::geometry::CGPoint;
use core_graphics::server::WindowServer;

fn server_with_active(active_list: Vec<u32>, list_code: i32) -> WindowServer {
    WindowServer {
        displays: vec![],
        records: vec![],
        main_id: 0,
        active_list,
        list_code,
        cursor_code: 0,
        cursor_hide_level: 0,
        cursor_position: CGPoint { x: 0, y: 0 },
        mouse_associated: 0,
        window_list_available: false,
        window_count: 0,
        capture_available: false,
        last_capture: None,
        last_array_capture: None,
        last_window_query: None,
    }
}

#[test]
fn count_then_enumeration_lengths_agree() {
    let server = server_with_active(vec![1, 2, 3], 0);
    let count = CGDisplay::active_display_count(&server).unwrap();
    assert_eq!(count, 3);
    let ids = CGDisplay::active_displays(&server).unwrap();
    assert_eq!(ids.len(), count as usize);
    assert_eq!(ids, vec![1, 2, 3]);
}

#[test]
fn empty_active_list_counts_zero() {
    let server = server_with_active(vec![], 0);
    assert_eq!(CGDisplay::active_display_count(&server).unwrap(), 0);
    assert_eq!(CGDisplay::active_displays(&server).unwrap(), vec![]);
}

#[test]
fn enumeration_failure_surfaces_code_verbatim() {
    let server = server_with_active(vec![1, 2, 3], 77);
    assert_eq!(CGDisplay::active_display_count(&server), Err(77));
    assert_eq!(CGDisplay::active_displays(&server), Err(77));
}

#[test]
fn fill_phase_honours_the_probe_size() {
    let server = server_with_active(vec![4, 5, 6, 7], 0);
    let (code, prefix) = server.native_active_display_fill(2);
    assert_eq!(code, 0);
    assert_eq!(prefix, vec![4, 5]);
    let (code, all) = server.native_active_display_fill(9);
    assert_eq!(code, 0);
    assert_eq!(all, vec![4, 5, 6, 7]);
}

#[test]
fn main_display_carries_the_servers_main_identifier() {
    let mut server = server_with_active(vec![], 0);
    server.main_id = 21;
    let display = CGDisplay::main(&server);
    assert_eq!(display.id, 21);
}
