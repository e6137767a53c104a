//! Where a window goes when it is moved to the bottom right of the screen.

use vstd::prelude::*;

verus! {

/// A size in physical pixels.
#[derive(Clone, Copy, Debug, PartialEq, Eq, Structural)]
pub struct Extent {
    pub width: u32,
    pub height: u32,
}

/// A position, or a displacement, in physical pixels.
#[derive(Clone, Copy, Debug, PartialEq, Eq, Structural)]
pub struct Position {
    pub x: i32,
    pub y: i32,
}

/// The width and height of the screen to place a window on. Without a
/// primary monitor the screen counts as empty.
pub open spec fn screen_extent(screen: Option<Extent>) -> (int, int) {
    match screen {
        Some(extent) => (extent.width as int, extent.height as int),
        None => (0, 0),
    }
}

/// The left edge of a window whose right edge meets that of the screen,
/// moved by `nudge`.
pub open spec fn bottom_right_x(screen: Option<Extent>, window: Extent, nudge: Position) -> int {
    screen_extent(screen).0 - window.width + nudge.x
}

/// The top edge of a window whose bottom edge meets that of the screen,
/// moved by `nudge`.
pub open spec fn bottom_right_y(screen: Option<Extent>, window: Extent, nudge: Position) -> int {
    screen_extent(screen).1 - window.height + nudge.y
}

/// The position that puts the outer frame of a window into the bottom right
/// corner of the screen, moved by `nudge` to allow for what the desktop
/// draws around it. `None` where a coordinate does not fit an `i32`.
pub fn bottom_right(screen: Option<Extent>, window: Extent, nudge: Position) -> (place: Option<
    Position,
>)
    ensures
        match place {
            Some(position) => position.x == bottom_right_x(screen, window, nudge) && position.y
                == bottom_right_y(screen, window, nudge),
            None => !(i32::MIN <= bottom_right_x(screen, window, nudge) <= i32::MAX) || !(i32::MIN
                <= bottom_right_y(screen, window, nudge) <= i32::MAX),
        },
{
    let (screen_width, screen_height): (i64, i64) = match screen {
        Some(extent) => (extent.width as i64, extent.height as i64),
        None => (0, 0),
    };
    let x: i64 = screen_width - window.width as i64 + nudge.x as i64;
    let y: i64 = screen_height - window.height as i64 + nudge.y as i64;
    if x < i32::MIN as i64 || x > i32::MAX as i64 || y < i32::MIN as i64 || y > i32::MAX as i64 {
        None
    } else {
        Some(Position { x: x as i32, y: y as i32 })
    }
}

} // verus!
