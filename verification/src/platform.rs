//! Window, monitor and cursor queries.
//!
//! No window system is consulted: every query answers with a fixed default,
//! so that callers can run on a machine without one. Geometry is measured in
//! whole pixels.

use std::collections::HashMap;
use vstd::prelude::*;

verus! {

/// A rectangle on the desktop, in physical pixels.
#[derive(Clone, Copy, Debug, PartialEq, Eq, Structural)]
pub struct Bounds {
    pub x: i32,
    pub y: i32,
    pub width: u32,
    pub height: u32,
}

/// A position on the desktop, in logical pixels.
#[derive(Clone, Copy, Debug, PartialEq, Eq, Structural)]
pub struct LogicalPosition {
    pub x: i32,
    pub y: i32,
}

/// A size in logical pixels.
#[derive(Clone, Copy, Debug, PartialEq, Eq, Structural)]
pub struct LogicalSize {
    pub width: u32,
    pub height: u32,
}

/// A rectangle on the desktop, in logical pixels.
#[derive(Clone, Copy, Debug, PartialEq, Eq, Structural)]
pub struct LogicalBounds {
    pub position: LogicalPosition,
    pub size: LogicalSize,
}

/// A window that is currently on screen.
#[derive(Clone, Debug, PartialEq, Eq)]
pub struct Window {
    pub window_id: u32,
    pub name: String,
    pub owner_name: String,
    pub process_id: u32,
    pub bounds: Bounds,
}

/// The shape of the mouse cursor.
#[derive(Clone, Copy, Debug, PartialEq, Eq, Structural)]
pub enum CursorShape {
    Arrow,
    IBeam,
    Crosshair,
    OpenHand,
    ClosedHand,
    PointingHand,
    ResizeLeftRight,
    ResizeUpDown,
    NotAllowed,
    Hidden,
    Unknown,
}

/// Width of the default monitor, in pixels.
pub const DEFAULT_WIDTH: u32 = 1920;

/// Height of the default monitor, in pixels.
pub const DEFAULT_HEIGHT: u32 = 1080;

/// Refresh rate of the default monitor, in hertz.
pub const DEFAULT_REFRESH_RATE: u32 = 60;

/// The bounds every monitor is reported with: the default size at the origin.
pub open spec fn default_bounds() -> Bounds {
    Bounds { x: 0, y: 0, width: DEFAULT_WIDTH, height: DEFAULT_HEIGHT }
}

/// The logical bounds every monitor is reported with.
pub open spec fn default_logical_bounds() -> LogicalBounds {
    LogicalBounds {
        position: LogicalPosition { x: 0, y: 0 },
        size: LogicalSize { width: DEFAULT_WIDTH, height: DEFAULT_HEIGHT },
    }
}

/// The windows that are on screen: none, since no window system is asked.
pub fn get_on_screen_windows() -> (windows: Vec<Window>)
    ensures
        windows@ == Seq::<Window>::empty(),
{
    Vec::new()
}

/// Raises a window. Without a window system there is nothing to raise.
pub fn bring_window_to_focus(_window_id: u32) {
}

/// The physical bounds of a monitor: the default bounds, whatever the id.
pub fn monitor_bounds(_id: u32) -> (bounds: Bounds)
    ensures
        bounds == default_bounds(),
{
    Bounds { x: 0, y: 0, width: DEFAULT_WIDTH, height: DEFAULT_HEIGHT }
}

/// The physical bounds of the primary monitor: the default bounds.
pub fn primary_monitor_bounds() -> (bounds: Bounds)
    ensures
        bounds == default_bounds(),
{
    Bounds { x: 0, y: 0, width: DEFAULT_WIDTH, height: DEFAULT_HEIGHT }
}

/// The logical bounds of a monitor: always present, always the default.
pub fn logical_monitor_bounds(_monitor_id: u32) -> (bounds: Option<LogicalBounds>)
    ensures
        bounds == Some(default_logical_bounds()),
{
    Some(
        LogicalBounds {
            position: LogicalPosition { x: 0, y: 0 },
            size: LogicalSize { width: DEFAULT_WIDTH, height: DEFAULT_HEIGHT },
        },
    )
}

/// The name of each display, by id: empty, since no display is enumerated.
pub fn display_names() -> (names: HashMap<u32, String>)
    ensures
        names@ == Map::<u32, String>::empty(),
{
    HashMap::new()
}

/// The refresh rate of a monitor in hertz: always the default rate.
pub fn get_display_refresh_rate(_monitor_id: u32) -> (rate: Result<u32, String>)
    ensures
        rate == Ok::<u32, String>(DEFAULT_REFRESH_RATE),
{
    Ok(DEFAULT_REFRESH_RATE)
}

/// The display a window is on: always display 0.
pub fn display_for_window(_window_id: u32) -> (display: Option<u32>)
    ensures
        display == Some(0u32),
{
    Some(0)
}

/// The current cursor shape, which cannot be told without a window system.
pub fn get_cursor_shape() -> (shape: CursorShape)
    ensures
        shape == CursorShape::Unknown,
{
    CursorShape::Unknown
}

} // verus!
