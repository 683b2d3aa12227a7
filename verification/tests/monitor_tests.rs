use recenter_mouse::config::AppConfig;
use recenter_mouse::daemon::{execute_recenter, RecenterPlan};
use recenter_mouse::monitor::{get_rect_center, is_primary_monitor, primary_rect_or_screen, Rect};
use recenter_mouse::window::{plan_window_move, WindowMove};

fn rect(left: i32, top: i32, right: i32, bottom: i32) -> Rect {
    Rect { left, top, right, bottom }
}

#[test]
fn center_of_a_full_hd_display() {
    assert_eq!(get_rect_center(&rect(0, 0, 1920, 1080)), (960, 540));
}

#[test]
fn center_of_an_offset_display() {
    assert_eq!(get_rect_center(&rect(-1280, 100, 0, 1124)), (-640, 612));
    assert_eq!(get_rect_center(&rect(10, 10, 13, 15)), (11, 12));
}

#[test]
fn center_rounds_toward_zero_for_inverted_rects() {
    assert_eq!(get_rect_center(&rect(0, 0, -3, -5)), (-1, -2));
}

#[test]
fn center_lies_inside_a_nonempty_rect() {
    for r in [rect(0, 0, 1, 1), rect(-5, -5, -4, 7), rect(100, 200, 101, 203)] {
        let (x, y) = get_rect_center(&r);
        assert!(r.left <= x && x < r.right);
        assert!(r.top <= y && y < r.bottom);
    }
}

#[test]
fn primary_flag_is_read_from_monitor_info() {
    assert!(is_primary_monitor(true, 1));
    assert!(is_primary_monitor(true, 3));
    assert!(!is_primary_monitor(true, 2));
    assert!(!is_primary_monitor(false, 1));
    assert_eq!(
        recenter_mouse::monitor::MONITORINFOF_PRIMARY,
        windows_sys::Win32::UI::WindowsAndMessaging::MONITORINFOF_PRIMARY
    );
}

#[test]
fn enumerated_rect_is_used_when_valid() {
    let found = rect(0, 0, 2560, 1440);
    assert_eq!(primary_rect_or_screen(true, found, 1920, 1080), found);
}

#[test]
fn screen_size_is_used_otherwise() {
    let screen = rect(0, 0, 1920, 1080);
    assert_eq!(primary_rect_or_screen(false, rect(0, 0, 2560, 1440), 1920, 1080), screen);
    assert_eq!(primary_rect_or_screen(true, rect(0, 0, 0, 0), 1920, 1080), screen);
    assert_eq!(primary_rect_or_screen(true, rect(5, 5, 5, 10), 1920, 1080), screen);
}

#[test]
fn recenter_moves_the_window_when_configured() {
    let cfg = AppConfig::default();
    let r = rect(0, 0, 1920, 1080);
    assert_eq!(
        execute_recenter(&cfg, &r),
        RecenterPlan { cursor_x: 960, cursor_y: 540, window_target: Some(r) }
    );
}

#[test]
fn recenter_leaves_the_window_otherwise() {
    let mut cfg = AppConfig::default();
    cfg.move_window = false;
    let r = rect(-1920, 0, 0, 1200);
    assert_eq!(
        execute_recenter(&cfg, &r),
        RecenterPlan { cursor_x: -960, cursor_y: 600, window_target: None }
    );
}

#[test]
fn window_move_plan() {
    assert_eq!(plan_window_move(false, false, false, false), WindowMove::Leave);
    assert_eq!(plan_window_move(true, true, false, true), WindowMove::Leave);
    assert_eq!(plan_window_move(true, false, true, false), WindowMove::Leave);
    assert_eq!(plan_window_move(true, false, false, false), WindowMove::MoveTo { restore_first: false });
    assert_eq!(plan_window_move(true, false, false, true), WindowMove::MoveTo { restore_first: true });
}
