use vstd::prelude::*;

verus! {

/// Largest coordinate and largest extent a rectangle may have: half the `i32`
/// range, so that `x + w` and `y + h` never overflow.
pub const MAX_EXTENT: i32 = 1073741823;

/// Smallest coordinate a rectangle may have.
pub const MIN_POSITION: i32 = -1073741824;

/// A position on the canvas, in whole pixels.
#[derive(Clone, Copy, Debug, PartialEq, Eq, Structural)]
pub struct Point {
    pub x: i32,
    pub y: i32,
}

/// An axis-aligned, non-empty rectangle on the canvas.
#[derive(Clone, Copy, Debug, PartialEq, Eq, Structural)]
pub struct Rect {
    pub x: i32,
    pub y: i32,
    pub w: i32,
    pub h: i32,
}

/// A coordinate pulled into `MIN_POSITION ..= MAX_EXTENT`.
pub open spec fn clamp_position(v: int) -> int {
    if v > MAX_EXTENT {
        MAX_EXTENT as int
    } else if v < MIN_POSITION {
        MIN_POSITION as int
    } else {
        v
    }
}

/// An extent pulled into `1 ..= MAX_EXTENT`: an empty side becomes one pixel.
pub open spec fn clamp_size(v: int) -> int {
    if v <= 0 {
        1
    } else if v > MAX_EXTENT {
        MAX_EXTENT as int
    } else {
        v
    }
}

impl Rect {
    /// The rectangle asked for, with every component clamped.
    pub open spec fn clamped(x: int, y: int, width: int, height: int) -> Rect {
        Rect {
            x: clamp_position(x) as i32,
            y: clamp_position(y) as i32,
            w: clamp_size(width) as i32,
            h: clamp_size(height) as i32,
        }
    }

    /// Both corners lie on the canvas grid and the rectangle is not empty.
    pub open spec fn wf(self) -> bool {
        &&& MIN_POSITION <= self.x <= MAX_EXTENT
        &&& MIN_POSITION <= self.y <= MAX_EXTENT
        &&& 1 <= self.w <= MAX_EXTENT
        &&& 1 <= self.h <= MAX_EXTENT
    }

    /// Whether `(px, py)` lies in the rectangle, all four edges included.
    pub open spec fn covers(self, px: int, py: int) -> bool {
        &&& self.x <= px <= self.x + self.w
        &&& self.y <= py <= self.y + self.h
    }

    pub fn new(x: i32, y: i32, width: u32, height: u32) -> (r: Rect)
        ensures
            r == Rect::clamped(x as int, y as int, width as int, height as int),
            r.wf(),
    {
        Rect {
            x: position_within_limits(x),
            y: position_within_limits(y),
            w: size_within_limits(width),
            h: size_within_limits(height),
        }
    }

    pub fn contains(&self, px: i32, py: i32) -> (inside: bool)
        ensures
            inside == self.covers(px as int, py as int),
    {
        let right: i64 = self.x as i64 + self.w as i64;
        let bottom: i64 = self.y as i64 + self.h as i64;
        px >= self.x && px as i64 <= right && py >= self.y && py as i64 <= bottom
    }
}

fn position_within_limits(v: i32) -> (r: i32)
    ensures
        r == clamp_position(v as int),
{
    if v > MAX_EXTENT {
        MAX_EXTENT
    } else if v < MIN_POSITION {
        MIN_POSITION
    } else {
        v
    }
}

fn size_within_limits(v: u32) -> (r: i32)
    ensures
        r == clamp_size(v as int),
{
    if v == 0 {
        1
    } else if v > MAX_EXTENT as u32 {
        MAX_EXTENT
    } else {
        v as i32
    }
}

} // verus!
