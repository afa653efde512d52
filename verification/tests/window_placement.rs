use recorder::config::Config;
use recorder::windows::{
    checked_monitor_at, checked_place_window_at_mouse,
    get_mouse_location, main_window_spec, monitor_at, place_window_at_mouse, placement, MonitorRect,
    MouseReading, Placement, Position, Size,
};

fn monitor(x: i32, y: i32, width: u32, height: u32) -> MonitorRect {
    MonitorRect { position: Position { x, y }, size: Size { width, height } }
}

#[test]
fn window_opens_at_the_mouse_when_it_fits() {
    let r = place_window_at_mouse(
        Position { x: 100, y: 50 },
        Size { width: 620, height: 700 },
        monitor(0, 0, 1920, 1080),
    );
    assert_eq!(r, Position { x: 100, y: 50 });
}

#[test]
fn window_is_drawn_back_from_the_right_and_bottom_edges() {
    let r = place_window_at_mouse(
        Position { x: 1800, y: 900 },
        Size { width: 620, height: 700 },
        monitor(0, 0, 1920, 1080),
    );
    assert_eq!(r, Position { x: 1300, y: 380 });
}

#[test]
fn window_touching_the_edge_is_not_moved() {
    let r = place_window_at_mouse(
        Position { x: 1300, y: 380 },
        Size { width: 620, height: 700 },
        monitor(0, 0, 1920, 1080),
    );
    assert_eq!(r, Position { x: 1300, y: 380 });
}

#[test]
fn placement_on_a_second_monitor_left_of_the_first() {
    let r = place_window_at_mouse(
        Position { x: -100, y: 10 },
        Size { width: 620, height: 700 },
        monitor(-1280, 0, 1280, 1024),
    );
    assert_eq!(r, Position { x: -620, y: 10 });
}

#[test]
fn window_larger_than_the_monitor_starts_left_of_it() {
    let r = place_window_at_mouse(
        Position { x: 10, y: 10 },
        Size { width: 900, height: 100 },
        monitor(0, 0, 800, 600),
    );
    assert_eq!(r, Position { x: -100, y: 10 });
}

#[test]
fn widths_past_i32_max_wrap_as_in_a_cast() {
    // 0xFFFF_FF9C is -100 as an i32: the window counts as 100 pixels narrower
    // than nothing, so it never passes the edge.
    let r = place_window_at_mouse(
        Position { x: 10, y: 10 },
        Size { width: 0xFFFF_FF9C, height: 10 },
        monitor(0, 0, 800, 600),
    );
    assert_eq!(r, Position { x: 10, y: 10 });
}

#[test]
fn placing_again_changes_nothing() {
    let win = Size { width: 620, height: 700 };
    let m = monitor(0, 0, 1920, 1080);
    let once = place_window_at_mouse(Position { x: 1900, y: 1000 }, win, m);
    let twice = place_window_at_mouse(once, win, m);
    assert_eq!(once, twice);
}

#[test]
fn first_monitor_under_the_mouse_is_chosen() {
    let ms = vec![monitor(0, 0, 1920, 1080), monitor(1920, 0, 1280, 1024), monitor(1920, 0, 100, 100)];
    assert_eq!(monitor_at(&ms, Position { x: 10, y: 10 }), Some(0));
    assert_eq!(monitor_at(&ms, Position { x: 1950, y: 50 }), Some(1));
    // The edges belong to the monitor, so the shared edge goes to the first.
    assert_eq!(monitor_at(&ms, Position { x: 1920, y: 0 }), Some(0));
    assert_eq!(monitor_at(&ms, Position { x: 5000, y: 0 }), None);
    assert_eq!(monitor_at(&ms, Position { x: 10, y: -1 }), None);
    assert_eq!(monitor_at(&Vec::new(), Position { x: 0, y: 0 }), None);
}

#[test]
fn placement_prefers_the_mouse() {
    assert_eq!(placement(true, true), Placement::FollowMouse);
    assert_eq!(placement(false, true), Placement::FollowMouse);
    assert_eq!(placement(true, false), Placement::Center);
    assert_eq!(placement(false, false), Placement::Unchanged);
}

#[test]
fn mouse_reading_becomes_a_location() {
    assert_eq!(get_mouse_location(MouseReading::Position { x: 3, y: -4 }), Ok((3, -4)));
    assert_eq!(
        get_mouse_location(MouseReading::Error),
        Err("Error getting mouse position".to_string())
    );
}

#[test]
fn main_window_is_made_hidden_and_sized() {
    let mut c = Config {
        hotkey: None,
        display_window_hotkey: None,
        writing_hotkey: None,
        always_show_icons: None,
        hide_the_icon_in_the_dock: None,
    };
    let s = main_window_spec(&c);
    assert_eq!(s.label, "main");
    assert_eq!(s.url, "/index.html");
    assert_eq!(s.title, "Recorder");
    assert!(!s.fullscreen);
    assert_eq!(s.inner_size, Size { width: 620, height: 700 });
    assert_eq!(s.min_inner_size, Size { width: 540, height: 600 });
    assert!(s.resizable);
    assert!(s.skip_taskbar);
    assert!(!s.visible);
    assert!(!s.focused);
    c.hide_the_icon_in_the_dock = Some(false);
    assert!(!main_window_spec(&c).skip_taskbar);
}

#[test]
fn checked_placement_refuses_overflow() {
    let win = Size { width: 620, height: 700 };
    let m = monitor(0, 0, 1920, 1080);
    assert_eq!(
        checked_place_window_at_mouse(Position { x: 1800, y: 900 }, win, m),
        Some(Position { x: 1300, y: 380 })
    );
    // The mouse's x plus the width passes i32::MAX.
    assert_eq!(checked_place_window_at_mouse(Position { x: i32::MAX - 10, y: 0 }, win, m), None);
    // The monitor's bottom edge passes i32::MAX.
    assert_eq!(
        checked_place_window_at_mouse(Position { x: 0, y: 0 }, win, monitor(0, i32::MAX - 5, 1920, 1080)),
        None
    );
    // Drawing back from the edge passes i32::MIN.
    assert_eq!(
        checked_place_window_at_mouse(
            Position { x: 0, y: 0 },
            Size { width: 0x7fff_ffff, height: 10 },
            monitor(i32::MIN, 0, 10, 100)
        ),
        None
    );
}

#[test]
fn checked_search_refuses_overflow_only_where_it_looks() {
    let p = Position { x: 10, y: 10 };
    // The first monitor covers the mouse, so the second is never tested.
    let ms = vec![monitor(0, 0, 100, 100), monitor(i32::MAX - 1, 0, 100, 100)];
    assert_eq!(checked_monitor_at(&ms, p), Some(Some(0)));
    let far = Position { x: i32::MAX, y: 10 };
    assert_eq!(checked_monitor_at(&ms, far), None);
    // The second monitor starts below the mouse, so its bottom edge is never added up.
    let ms = vec![monitor(20, 0, 100, 100), monitor(0, i32::MAX - 1, 100, 100)];
    assert_eq!(checked_monitor_at(&ms, p), Some(None));
    assert_eq!(checked_monitor_at(&Vec::new(), p), Some(None));
}
