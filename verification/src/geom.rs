//! Integer 2D geometry: vectors, axis-aligned rectangles, and the
//! collision classification used by the collision detector.
//!
//! A collision between the ball's bounding box and a bounce-capable
//! rectangle is classified by the side of the rectangle that the ball
//! sticks out of: the overlap depth is computed on both axes, and the
//! axis with the smaller depth decides between Left/Right and
//! Top/Bottom. A ball fully contained in the rectangle classifies as
//! Inside, which the bounce resolver treats as a no-op.

use vstd::prelude::*;

verus! {

/// Largest coordinate magnitude a position may take; integration clamps
/// positions into `[-POS_LIMIT, POS_LIMIT]` on each axis.
pub const POS_LIMIT: i64 = 1_000_000_000_000;

/// Largest half-extent a rectangle may have on either axis.
pub const EXT_LIMIT: i64 = 3_000_000_000;

/// Largest velocity-component magnitude; the speed ramp saturates here.
pub const VEL_LIMIT: i64 = 1_000_000;

/// Largest coordinate magnitude the arena's center may take; the block
/// grid and the paddle are placed relative to it without overflow.
pub const ARENA_CENTER_LIMIT: i64 = 1_000_000_000;

/// Largest elapsed time a single tick may integrate, in milliseconds.
pub const DT_LIMIT: u32 = 10_000;

/// A 2D point or vector in integer world units.
#[derive(Clone, Copy, PartialEq, Eq, Structural, Debug)]
pub struct Vec2i {
    pub x: i64,
    pub y: i64,
}

impl Vec2i {
    pub open spec fn in_bounds(self, limit: int) -> bool {
        &&& -limit <= self.x <= limit
        &&& -limit <= self.y <= limit
    }
}

/// An axis-aligned rectangle given by its center and half-extents.
#[derive(Clone, Copy, PartialEq, Eq, Structural, Debug)]
pub struct Rect {
    pub center: Vec2i,
    pub half: Vec2i,
}

impl Rect {
    /// Positions stay within the world limits and both half-extents are
    /// positive, so the rectangle has area and its corners fit in `i64`.
    pub open spec fn wf(self) -> bool {
        &&& self.center.in_bounds(POS_LIMIT as int)
        &&& 1 <= self.half.x <= EXT_LIMIT
        &&& 1 <= self.half.y <= EXT_LIMIT
    }

    pub open spec fn left(self) -> int {
        self.center.x - self.half.x
    }

    pub open spec fn right(self) -> int {
        self.center.x + self.half.x
    }

    pub open spec fn bottom(self) -> int {
        self.center.y - self.half.y
    }

    pub open spec fn top(self) -> int {
        self.center.y + self.half.y
    }
}

/// The side of the struck rectangle on which the ball hit it, or
/// `Inside` when the ball is fully contained (a benign edge case the
/// resolver ignores).
#[derive(Clone, Copy, PartialEq, Eq, Structural, Debug)]
pub enum Collision {
    Left,
    Right,
    Top,
    Bottom,
    Inside,
}

impl Collision {
    /// The sides that flip the ball's horizontal velocity.
    pub open spec fn is_horizontal(self) -> bool {
        self == Collision::Left || self == Collision::Right
    }

    /// The sides that flip the ball's vertical velocity.
    pub open spec fn is_vertical(self) -> bool {
        self == Collision::Top || self == Collision::Bottom
    }

    /// A resolved bounce: any classification but `Inside`.
    pub open spec fn is_resolved(self) -> bool {
        self != Collision::Inside
    }
}

/// The two rectangles overlap with positive area.
pub open spec fn overlaps(a: Rect, b: Rect) -> bool {
    &&& a.left() < b.right()
    &&& b.left() < a.right()
    &&& a.bottom() < b.top()
    &&& b.bottom() < a.top()
}

/// Horizontal classification: the side of `b` that `a` sticks out of on
/// the x axis, with the penetration depth past that side's boundary.
/// `None` when `a` neither sticks out left nor right (contained on x, or
/// spanning `b` entirely).
pub open spec fn x_class(a: Rect, b: Rect) -> Option<(Collision, int)> {
    if a.left() < b.left() && b.left() < a.right() && a.right() < b.right() {
        Some((Collision::Left, a.right() - b.left()))
    } else if b.left() < a.left() && a.left() < b.right() && b.right() < a.right() {
        Some((Collision::Right, b.right() - a.left()))
    } else {
        None
    }
}

/// Vertical classification, symmetric to [`x_class`].
pub open spec fn y_class(a: Rect, b: Rect) -> Option<(Collision, int)> {
    if a.bottom() < b.bottom() && b.bottom() < a.top() && a.top() < b.top() {
        Some((Collision::Bottom, a.top() - b.bottom()))
    } else if b.bottom() < a.bottom() && a.bottom() < b.top() && b.top() < a.top() {
        Some((Collision::Top, b.top() - a.bottom()))
    } else {
        None
    }
}

/// Full classification of the contact between `a` (the ball's box) and
/// `b` (a bounce-capable rectangle): `None` when they do not overlap;
/// otherwise the side with the smaller overlap depth, the x axis winning
/// ties; `Inside` when neither axis shows a side.
pub open spec fn spec_collide(a: Rect, b: Rect) -> Option<Collision> {
    if !overlaps(a, b) {
        None
    } else {
        match (x_class(a, b), y_class(a, b)) {
            (Option::None, Option::None) => Some(Collision::Inside),
            (Option::Some((cx, dx)), Option::None) => Some(cx),
            (Option::None, Option::Some((cy, dy))) => Some(cy),
            (Option::Some((cx, dx)), Option::Some((cy, dy))) => if dy < dx {
                Some(cy)
            } else {
                Some(cx)
            },
        }
    }
}

/// Classify the contact between the ball's bounding box `a` and a
/// bounce-capable rectangle `b`, exactly as [`spec_collide`] states.
pub fn collide(a: &Rect, b: &Rect) -> (r: Option<Collision>)
    requires
        a.wf(),
        b.wf(),
    ensures
        r == spec_collide(*a, *b),
{
    let a_min_x: i64 = a.center.x - a.half.x;
    let a_max_x: i64 = a.center.x + a.half.x;
    let a_min_y: i64 = a.center.y - a.half.y;
    let a_max_y: i64 = a.center.y + a.half.y;
    let b_min_x: i64 = b.center.x - b.half.x;
    let b_max_x: i64 = b.center.x + b.half.x;
    let b_min_y: i64 = b.center.y - b.half.y;
    let b_max_y: i64 = b.center.y + b.half.y;

    if !(a_min_x < b_max_x && b_min_x < a_max_x && a_min_y < b_max_y && b_min_y < a_max_y) {
        return None;
    }

    let x_side: Option<(Collision, i64)> = if a_min_x < b_min_x && b_min_x < a_max_x && a_max_x
        < b_max_x {
        Some((Collision::Left, a_max_x - b_min_x))
    } else if b_min_x < a_min_x && a_min_x < b_max_x && b_max_x < a_max_x {
        Some((Collision::Right, b_max_x - a_min_x))
    } else {
        None
    };

    let y_side: Option<(Collision, i64)> = if a_min_y < b_min_y && b_min_y < a_max_y && a_max_y
        < b_max_y {
        Some((Collision::Bottom, a_max_y - b_min_y))
    } else if b_min_y < a_min_y && a_min_y < b_max_y && b_max_y < a_max_y {
        Some((Collision::Top, b_max_y - a_min_y))
    } else {
        None
    };

    match (x_side, y_side) {
        (Option::None, Option::None) => Some(Collision::Inside),
        (Option::Some((cx, _)), Option::None) => Some(cx),
        (Option::None, Option::Some((cy, _))) => Some(cy),
        (Option::Some((cx, dx)), Option::Some((cy, dy))) => if dy < dx {
            Some(cy)
        } else {
            Some(cx)
        },
    }
}

/// `v` clamped into `[lo, hi]`.
pub open spec fn clamp_i(v: int, lo: int, hi: int) -> int {
    if v < lo {
        lo
    } else if v > hi {
        hi
    } else {
        v
    }
}

/// Clamp a coordinate into the world position limits.
pub fn clamp_pos(v: i64) -> (r: i64)
    ensures
        r == clamp_i(v as int, -POS_LIMIT as int, POS_LIMIT as int),
{
    if v < -POS_LIMIT {
        -POS_LIMIT
    } else if v > POS_LIMIT {
        POS_LIMIT
    } else {
        v
    }
}

} // verus!
