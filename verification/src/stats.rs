//! Player statistics: the lives counter and its reaction to the ball
//! crossing the arena's bottom edge.

use vstd::prelude::*;

use crate::ball::{ball_touched_bottom, spec_hit_bottom, BallCollisionEvent};

verus! {

/// Remaining lives. Initialized from configuration at round start,
/// decremented by exactly one each time the ball crosses the arena's
/// bottom edge, never incremented during a round, and never negative.
#[derive(Clone, Copy, PartialEq, Eq, Structural, Debug)]
pub struct Lives(pub u32);

/// The lives counter after a tick's collision reports: one less when
/// some report says the ball crossed the arena's bottom edge, unchanged
/// otherwise, and never below zero.
pub open spec fn spec_lives_after(lives: int, events: Seq<BallCollisionEvent>) -> int {
    if spec_hit_bottom(events) && lives > 0 {
        lives - 1
    } else {
        lives
    }
}

/// Decrement the lives counter when a tick's reports contain a
/// bottom-edge crossing, exactly once and never below zero.
pub fn decrease_lifes_counter(lives: &mut Lives, events: &Vec<BallCollisionEvent>)
    ensures
        final(lives).0 == spec_lives_after(old(lives).0 as int, events@),
        final(lives).0 <= old(lives).0,
{
    if ball_touched_bottom(events) && lives.0 > 0 {
        lives.0 = lives.0 - 1;
    }
}

} // verus!
