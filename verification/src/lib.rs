//! Core simulation engine for a Breakout-style arcade game.
//!
//! A ball bounces between a player-controlled paddle and a grid of
//! destructible blocks inside a bounded arena. The player loses a life
//! each time the ball escapes past the paddle, and the game ends when
//! lives reach zero.
//!
//! The crate covers the simulation and game-phase engine: entity motion
//! integration, axis-aligned collision detection and bounce resolution,
//! the ball-launch/life/game-over state machine, and block destruction
//! triggered by collisions. Rendering, input-device polling and
//! configuration-file parsing are external collaborators: they hand the
//! engine plain values and read back notifications.
//!
//! All geometry is carried in integer world units so that every state
//! transition is exact and deterministic frame-to-frame.

pub mod ball;
pub mod block;
pub mod config;
pub mod game;
pub mod geom;
pub mod paddle;
pub mod stats;
