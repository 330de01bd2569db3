//! Round configuration: the plain values an external loader hands the
//! engine before a round starts, and their validation.
//!
//! Parsing a configuration document is an external collaborator's job;
//! the engine only receives the finished values. A round cannot start on
//! values outside the documented ranges: [`Config::validate`] reports
//! the first offending field and the engine aborts startup rather than
//! run with partial defaults.

use vstd::prelude::*;

use crate::geom::VEL_LIMIT;

verus! {

/// Largest configured dimension or offset, in world units.
pub const CONFIG_EXT_LIMIT: u32 = 1_000_000;

/// Largest row or column count of the block grid.
pub const GRID_DIM_LIMIT: u32 = 1_024;

/// Largest speed increase, in percent per bounce.
pub const PERCENT_LIMIT: u32 = 1_000;

/// Ball parameters. `color` is opaque to the core: it is carried for
/// the rendering collaborator and never interpreted.
#[derive(Clone, Copy, PartialEq, Eq, Structural, Debug)]
pub struct BallConfig {
    pub radius: u32,
    pub color: u32,
    pub initial_speed: i64,
    pub speed_increase: u32,
    pub offset_from_paddle: u32,
}

impl BallConfig {
    pub open spec fn valid(self) -> bool {
        &&& 1 <= self.radius <= CONFIG_EXT_LIMIT
        &&& -VEL_LIMIT <= self.initial_speed <= VEL_LIMIT
        &&& self.speed_increase <= PERCENT_LIMIT
        &&& self.offset_from_paddle <= CONFIG_EXT_LIMIT
    }
}

/// Paddle parameters. `width` and `height` are the full extents of the
/// paddle's rectangle; `offset_from_bottom` places its center above the
/// arena's bottom edge.
#[derive(Clone, Copy, PartialEq, Eq, Structural, Debug)]
pub struct PaddleConfig {
    pub width: u32,
    pub height: u32,
    pub offset_from_bottom: u32,
    pub color: u32,
    pub initial_speed: u32,
}

impl PaddleConfig {
    pub open spec fn valid(self) -> bool {
        &&& 2 <= self.width <= CONFIG_EXT_LIMIT
        &&& 2 <= self.height <= CONFIG_EXT_LIMIT
        &&& self.offset_from_bottom <= CONFIG_EXT_LIMIT
        &&& self.initial_speed <= VEL_LIMIT
    }
}

/// Block-grid parameters: the size of one block, the spacing between
/// neighbours, the grid's row and column counts, and the margin between
/// the arena's top edge and the first row.
#[derive(Clone, Copy, PartialEq, Eq, Structural, Debug)]
pub struct BlockConfig {
    pub width: u32,
    pub height: u32,
    pub horizontal_offset: u32,
    pub vertical_offset: u32,
    pub rows: u32,
    pub columns: u32,
    pub offset_from_top: u32,
}

impl BlockConfig {
    pub open spec fn valid(self) -> bool {
        &&& 2 <= self.width <= CONFIG_EXT_LIMIT
        &&& 2 <= self.height <= CONFIG_EXT_LIMIT
        &&& self.horizontal_offset <= CONFIG_EXT_LIMIT
        &&& self.vertical_offset <= CONFIG_EXT_LIMIT
        &&& 1 <= self.rows <= GRID_DIM_LIMIT
        &&& 1 <= self.columns <= GRID_DIM_LIMIT
        &&& self.offset_from_top <= CONFIG_EXT_LIMIT
    }
}

/// Player statistics configuration: the lives a round starts with.
#[derive(Clone, Copy, PartialEq, Eq, Structural, Debug)]
pub struct StatsConfig {
    pub lifes: u32,
}

impl StatsConfig {
    pub open spec fn valid(self) -> bool {
        self.lifes >= 1
    }
}

/// The full round configuration.
#[derive(Clone, Copy, PartialEq, Eq, Structural, Debug)]
pub struct Config {
    pub ball: BallConfig,
    pub paddle: PaddleConfig,
    pub block: BlockConfig,
    pub stats: StatsConfig,
}

/// A fatal configuration failure: the named part of the configuration is
/// outside its documented range, and the round must not start.
#[derive(Clone, Copy, PartialEq, Eq, Structural, Debug)]
pub enum ConfigError {
    BallRadius,
    BallSpeed,
    SpeedIncrease,
    BallOffset,
    PaddleSize,
    PaddleSpeed,
    PaddleOffset,
    BlockSize,
    BlockSpacing,
    GridSize,
    GridOffset,
    Lives,
    Arena,
}

impl Config {
    pub open spec fn valid(self) -> bool {
        &&& self.ball.valid()
        &&& self.paddle.valid()
        &&& self.block.valid()
        &&& self.stats.valid()
    }

    /// The first failing range check, in the order the fields are
    /// documented, or `Ok` when every value is in range.
    pub open spec fn spec_validate(self) -> Result<(), ConfigError> {
        if !(1 <= self.ball.radius <= CONFIG_EXT_LIMIT) {
            Err(ConfigError::BallRadius)
        } else if !(-VEL_LIMIT <= self.ball.initial_speed <= VEL_LIMIT) {
            Err(ConfigError::BallSpeed)
        } else if !(self.ball.speed_increase <= PERCENT_LIMIT) {
            Err(ConfigError::SpeedIncrease)
        } else if !(self.ball.offset_from_paddle <= CONFIG_EXT_LIMIT) {
            Err(ConfigError::BallOffset)
        } else if !(2 <= self.paddle.width <= CONFIG_EXT_LIMIT && 2 <= self.paddle.height
            <= CONFIG_EXT_LIMIT) {
            Err(ConfigError::PaddleSize)
        } else if !(self.paddle.initial_speed <= VEL_LIMIT) {
            Err(ConfigError::PaddleSpeed)
        } else if !(self.paddle.offset_from_bottom <= CONFIG_EXT_LIMIT) {
            Err(ConfigError::PaddleOffset)
        } else if !(2 <= self.block.width <= CONFIG_EXT_LIMIT && 2 <= self.block.height
            <= CONFIG_EXT_LIMIT) {
            Err(ConfigError::BlockSize)
        } else if !(self.block.horizontal_offset <= CONFIG_EXT_LIMIT && self.block.vertical_offset
            <= CONFIG_EXT_LIMIT) {
            Err(ConfigError::BlockSpacing)
        } else if !(1 <= self.block.rows <= GRID_DIM_LIMIT && 1 <= self.block.columns
            <= GRID_DIM_LIMIT) {
            Err(ConfigError::GridSize)
        } else if !(self.block.offset_from_top <= CONFIG_EXT_LIMIT) {
            Err(ConfigError::GridOffset)
        } else if !(self.stats.lifes >= 1) {
            Err(ConfigError::Lives)
        } else {
            Ok(())
        }
    }

    /// Check every configured value against its documented range,
    /// reporting the first field out of range. Succeeds exactly on the
    /// configurations a round may start from.
    pub fn validate(&self) -> (r: Result<(), ConfigError>)
        ensures
            r == self.spec_validate(),
            r is Ok <==> self.valid(),
    {
        if !(1 <= self.ball.radius && self.ball.radius <= CONFIG_EXT_LIMIT) {
            Err(ConfigError::BallRadius)
        } else if !(-VEL_LIMIT <= self.ball.initial_speed && self.ball.initial_speed <= VEL_LIMIT) {
            Err(ConfigError::BallSpeed)
        } else if !(self.ball.speed_increase <= PERCENT_LIMIT) {
            Err(ConfigError::SpeedIncrease)
        } else if !(self.ball.offset_from_paddle <= CONFIG_EXT_LIMIT) {
            Err(ConfigError::BallOffset)
        } else if !(2 <= self.paddle.width && self.paddle.width <= CONFIG_EXT_LIMIT
            && 2 <= self.paddle.height && self.paddle.height <= CONFIG_EXT_LIMIT) {
            Err(ConfigError::PaddleSize)
        } else if !(self.paddle.initial_speed <= VEL_LIMIT as u32) {
            Err(ConfigError::PaddleSpeed)
        } else if !(self.paddle.offset_from_bottom <= CONFIG_EXT_LIMIT) {
            Err(ConfigError::PaddleOffset)
        } else if !(2 <= self.block.width && self.block.width <= CONFIG_EXT_LIMIT
            && 2 <= self.block.height && self.block.height <= CONFIG_EXT_LIMIT) {
            Err(ConfigError::BlockSize)
        } else if !(self.block.horizontal_offset <= CONFIG_EXT_LIMIT
            && self.block.vertical_offset <= CONFIG_EXT_LIMIT) {
            Err(ConfigError::BlockSpacing)
        } else if !(1 <= self.block.rows && self.block.rows <= GRID_DIM_LIMIT
            && 1 <= self.block.columns && self.block.columns <= GRID_DIM_LIMIT) {
            Err(ConfigError::GridSize)
        } else if !(self.block.offset_from_top <= CONFIG_EXT_LIMIT) {
            Err(ConfigError::GridOffset)
        } else if !(self.stats.lifes >= 1) {
            Err(ConfigError::Lives)
        } else {
            Ok(())
        }
    }
}

} // verus!
