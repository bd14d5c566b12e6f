use cap_recorder::displays::DisplayImpl;
use cap_recorder::platform::{
    bring_window_to_focus, display_for_window, display_names, get_cursor_shape,
    get_display_refresh_rate, get_on_screen_windows, logical_monitor_bounds, monitor_bounds,
    primary_monitor_bounds, Bounds, CursorShape, LogicalBounds, LogicalPosition, LogicalSize,
};

#[test]
fn one_default_display_is_listed() {
    let displays = DisplayImpl::list();
    assert_eq!(displays.len(), 1);
    assert_eq!(displays[0].id(), 0);
}

#[test]
fn primary_display_is_display_zero() {
    let primary = DisplayImpl::primary();
    assert_eq!(primary.id(), 0);
    assert_eq!(primary, DisplayImpl::list()[0]);
}

#[test]
fn display_id_is_the_field() {
    let display = DisplayImpl { id: 7 };
    assert_eq!(display.id(), 7);
}

#[test]
fn no_windows_are_on_screen() {
    assert!(get_on_screen_windows().is_empty());
}

#[test]
fn focusing_a_window_does_nothing() {
    bring_window_to_focus(0);
    bring_window_to_focus(u32::MAX);
    assert!(get_on_screen_windows().is_empty());
}

#[test]
fn every_monitor_has_the_default_bounds() {
    let expected = Bounds { x: 0, y: 0, width: 1920, height: 1080 };
    assert_eq!(monitor_bounds(0), expected);
    assert_eq!(monitor_bounds(3), expected);
    assert_eq!(monitor_bounds(u32::MAX), expected);
    assert_eq!(primary_monitor_bounds(), expected);
}

#[test]
fn every_monitor_has_the_default_logical_bounds() {
    let expected = LogicalBounds {
        position: LogicalPosition { x: 0, y: 0 },
        size: LogicalSize { width: 1920, height: 1080 },
    };
    assert_eq!(logical_monitor_bounds(0), Some(expected));
    assert_eq!(logical_monitor_bounds(12), Some(expected));
}

#[test]
fn no_display_has_a_name() {
    let names = display_names();
    assert!(names.is_empty());
    assert_eq!(names.get(&0), None);
}

#[test]
fn refresh_rate_is_sixty_hertz() {
    assert_eq!(get_display_refresh_rate(0), Ok(60));
    assert_eq!(get_display_refresh_rate(9), Ok(60));
}

#[test]
fn every_window_is_on_display_zero() {
    assert_eq!(display_for_window(0), Some(0));
    assert_eq!(display_for_window(4242), Some(0));
}

#[test]
fn cursor_shape_is_unknown() {
    assert_eq!(get_cursor_shape(), CursorShape::Unknown);
}
