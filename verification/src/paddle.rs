//! The player-controlled paddle: its spawn placement at round start and
//! its horizontal motion from directional input.

use vstd::prelude::*;

use crate::config::{Config, CONFIG_EXT_LIMIT};
use crate::geom::{
    clamp_i, clamp_pos, Rect, Vec2i, ARENA_CENTER_LIMIT, DT_LIMIT, POS_LIMIT, VEL_LIMIT,
};

verus! {

/// The full extents of an entity's rectangle, as configured.
#[derive(Clone, Copy, PartialEq, Eq, Structural, Debug)]
pub struct Dimensions {
    pub width: u32,
    pub height: u32,
}

impl Dimensions {
    pub open spec fn valid(self) -> bool {
        &&& 2 <= self.width <= CONFIG_EXT_LIMIT
        &&& 2 <= self.height <= CONFIG_EXT_LIMIT
    }

    /// Half of the width, rounded down.
    pub open spec fn half_x(self) -> int {
        self.width as int / 2
    }

    /// Half of the height, rounded down.
    pub open spec fn half_y(self) -> int {
        self.height as int / 2
    }
}

/// The paddle: center position, full extents, and the horizontal speed
/// it moves at under player input, in world units per millisecond.
#[derive(Clone, Copy, PartialEq, Eq, Structural, Debug)]
pub struct Paddle {
    pub position: Vec2i,
    pub dimensions: Dimensions,
    pub speed: u32,
}

impl Paddle {
    pub open spec fn wf(self) -> bool {
        &&& self.position.in_bounds(POS_LIMIT as int)
        &&& self.dimensions.valid()
        &&& self.speed <= VEL_LIMIT
    }

    /// The paddle's bounding rectangle.
    pub open spec fn spec_rect(self) -> Rect {
        Rect {
            center: self.position,
            half: Vec2i {
                x: self.dimensions.half_x() as i64,
                y: self.dimensions.half_y() as i64,
            },
        }
    }

    pub fn rect(&self) -> (r: Rect)
        ensures
            r == self.spec_rect(),
    {
        Rect {
            center: self.position,
            half: Vec2i {
                x: (self.dimensions.width / 2) as i64,
                y: (self.dimensions.height / 2) as i64,
            },
        }
    }
}

/// Where the paddle stands at round start: horizontally centered in the
/// arena, its center a configured offset above the arena's bottom edge.
pub open spec fn spec_spawn_paddle(config: Config, bounds: Rect) -> Paddle {
    Paddle {
        position: Vec2i {
            x: bounds.center.x,
            y: (bounds.bottom() + config.paddle.offset_from_bottom) as i64,
        },
        dimensions: Dimensions { width: config.paddle.width, height: config.paddle.height },
        speed: config.paddle.initial_speed,
    }
}

/// Create the paddle for a new round, placed as [`spec_spawn_paddle`]
/// states.
pub fn spawn_paddle(config: &Config, bounds: &Rect) -> (paddle: Paddle)
    requires
        config.valid(),
        bounds.wf(),
        bounds.center.in_bounds(ARENA_CENTER_LIMIT as int),
    ensures
        paddle == spec_spawn_paddle(*config, *bounds),
        paddle.wf(),
{
    Paddle {
        position: Vec2i {
            x: bounds.center.x,
            y: bounds.center.y - bounds.half.y + config.paddle.offset_from_bottom as i64,
        },
        dimensions: Dimensions { width: config.paddle.width, height: config.paddle.height },
        speed: config.paddle.initial_speed,
    }
}

/// The paddle's x coordinate after integrating directional input for
/// `delta_ms` milliseconds: one held direction moves the paddle by
/// `speed * delta_ms`, clamped into the world position limits; holding
/// both directions, or neither, leaves it in place.
pub open spec fn spec_paddle_moved_x(
    x: int,
    speed: int,
    move_left: bool,
    move_right: bool,
    delta_ms: int,
) -> int {
    if move_right && !move_left {
        clamp_i(x + speed * delta_ms, -POS_LIMIT as int, POS_LIMIT as int)
    } else if move_left && !move_right {
        clamp_i(x - speed * delta_ms, -POS_LIMIT as int, POS_LIMIT as int)
    } else {
        x
    }
}

/// Integrate player input into the paddle's horizontal position. Only
/// the x coordinate changes; vertical position, extents and speed are
/// untouched.
pub fn move_paddle(paddle: &mut Paddle, move_left: bool, move_right: bool, delta_ms: u32)
    requires
        old(paddle).wf(),
        delta_ms <= DT_LIMIT,
    ensures
        final(paddle).wf(),
        final(paddle).position.x == spec_paddle_moved_x(
            old(paddle).position.x as int,
            old(paddle).speed as int,
            move_left,
            move_right,
            delta_ms as int,
        ),
        final(paddle).position.y == old(paddle).position.y,
        final(paddle).dimensions == old(paddle).dimensions,
        final(paddle).speed == old(paddle).speed,
{
    let ghost sp: int = paddle.speed as int;
    let ghost dm: int = delta_ms as int;
    proof {
        assert(sp * dm <= 10_000_000_000int) by (nonlinear_arith)
            requires
                0 <= sp <= 1_000_000,
                0 <= dm <= 10_000,
        ;
    }
    let step: i64 = (paddle.speed as i64) * (delta_ms as i64);
    if move_right && !move_left {
        paddle.position.x = clamp_pos(paddle.position.x + step);
    } else if move_left && !move_right {
        paddle.position.x = clamp_pos(paddle.position.x - step);
    }
}

} // verus!
