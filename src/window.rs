//! Where the overlay window goes and how large it is.

use vstd::prelude::*;
use crate::shape::ShapeSize;

verus! {

/// A top-left window position in physical pixels; it is negative where the
/// window is larger than the monitor.
#[derive(Debug, Clone, Copy, PartialEq, Eq, Structural)]
pub struct WindowPosition {
    pub x: i64,
    pub y: i64,
}

/// The coordinate that centers an extent of `extent` pixels on a monitor
/// extent of `monitor` pixels, with floor division on both halves.
pub open spec fn centered_coord(monitor: u32, extent: u32) -> int {
    monitor as int / 2 - extent as int / 2
}

/// The top-left position that centers a window of footprint `size` on a
/// monitor of `monitor_width` by `monitor_height` pixels.
pub fn center(monitor_width: u32, monitor_height: u32, size: &ShapeSize) -> (r: WindowPosition)
    ensures
        r.x == centered_coord(monitor_width, size.width),
        r.y == centered_coord(monitor_height, size.height),
{
    let x = (monitor_width / 2) as i64 - (size.width / 2) as i64;
    let y = (monitor_height / 2) as i64 - (size.height / 2) as i64;
    WindowPosition { x, y }
}

} // verus!
