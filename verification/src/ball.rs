//! The ball: spawn placement, motion integration, collision detection
//! against every bounce-capable rectangle, bounce resolution, and the
//! speed ramp.

use vstd::prelude::*;

use vstd::arithmetic::div_mod::lemma_div_multiples_vanish;
use vstd::arithmetic::power::{lemma_pow_positive, pow};

use crate::block::Block;
use crate::config::{Config, CONFIG_EXT_LIMIT, PERCENT_LIMIT};
use crate::geom::{
    clamp_i, clamp_pos, collide, spec_collide, Collision, Rect, Vec2i, DT_LIMIT, POS_LIMIT,
    VEL_LIMIT,
};
use crate::paddle::Paddle;

verus! {

/// Fixed tuning factor of the ball's motion integration: the ball
/// advances by `velocity * elapsed_ms * MOVE_SCALE` per tick.
pub const MOVE_SCALE: i64 = 150;

/// The ball's fixed vertical velocity component at spawn and after a
/// life is lost.
pub const SPAWN_VERTICAL_SPEED: i64 = 150;

/// The ball: center position, per-axis signed velocity, and radius. The
/// radius is constant for the entity's lifetime; its bounding box is the
/// square of half-extent `radius` around the center.
#[derive(Clone, Copy, PartialEq, Eq, Structural, Debug)]
pub struct Ball {
    pub position: Vec2i,
    pub velocity: Vec2i,
    pub radius: u32,
}

impl Ball {
    pub open spec fn wf(self) -> bool {
        &&& self.position.in_bounds(POS_LIMIT as int)
        &&& self.velocity.in_bounds(VEL_LIMIT as int)
        &&& 1 <= self.radius <= CONFIG_EXT_LIMIT
    }

    /// The ball's bounding box.
    pub open spec fn spec_rect(self) -> Rect {
        Rect {
            center: self.position,
            half: Vec2i { x: self.radius as i64, y: self.radius as i64 },
        }
    }

    pub fn rect(&self) -> (r: Rect)
        ensures
            r == self.spec_rect(),
    {
        Rect {
            center: self.position,
            half: Vec2i { x: self.radius as i64, y: self.radius as i64 },
        }
    }
}

/// The bounce counter: how many resolved bounces the round has seen.
/// Monotone within a round; reset to zero at round start.
#[derive(Clone, Copy, PartialEq, Eq, Structural, Debug, Default)]
pub struct Bounces(pub u32);

/// What the ball collided with: the paddle, the arena's bounding box, or
/// the block at the given index of the block store.
#[derive(Clone, Copy, PartialEq, Eq, Structural, Debug)]
pub enum CollisionTarget {
    Paddle,
    BoundingBox,
    Block(usize),
}

/// One collision report of a tick: which rectangle the ball struck and
/// on which of that rectangle's sides.
#[derive(Clone, Copy, PartialEq, Eq, Structural, Debug)]
pub struct BallCollisionEvent {
    pub with: CollisionTarget,
    pub collision: Collision,
}

/// A report is well formed against a block store of `n_blocks` entries
/// when any block it names exists.
pub open spec fn event_wf(e: BallCollisionEvent, n_blocks: int) -> bool {
    match e.with {
        CollisionTarget::Block(i) => i < n_blocks,
        _ => true,
    }
}

/// How many reports strike a left or right side (each flips the
/// horizontal velocity once).
pub open spec fn count_horizontal(events: Seq<BallCollisionEvent>) -> nat
    decreases events.len(),
{
    if events.len() == 0 {
        0
    } else {
        count_horizontal(events.drop_last()) + (if events.last().collision.is_horizontal() {
            1nat
        } else {
            0nat
        })
    }
}

/// How many reports strike a top or bottom side (each flips the
/// vertical velocity once).
pub open spec fn count_vertical(events: Seq<BallCollisionEvent>) -> nat
    decreases events.len(),
{
    if events.len() == 0 {
        0
    } else {
        count_vertical(events.drop_last()) + (if events.last().collision.is_vertical() {
            1nat
        } else {
            0nat
        })
    }
}

/// How many reports resolve to a bounce: every report but the `Inside`
/// ones, which are no-ops.
pub open spec fn count_resolved(events: Seq<BallCollisionEvent>) -> nat
    decreases events.len(),
{
    if events.len() == 0 {
        0
    } else {
        count_resolved(events.drop_last()) + (if events.last().collision.is_resolved() {
            1nat
        } else {
            0nat
        })
    }
}

/// A velocity component after `n` sign flips: unchanged for an even
/// count, negated for an odd one.
pub open spec fn flipped(v: int, n: nat) -> int {
    if n % 2 == 0 {
        v
    } else {
        -v
    }
}

/// Some report says the ball struck the arena's bottom edge — the
/// life-loss trigger.
pub open spec fn spec_hit_bottom(events: Seq<BallCollisionEvent>) -> bool
    decreases events.len(),
{
    if events.len() == 0 {
        false
    } else {
        spec_hit_bottom(events.drop_last()) || (events.last().with == CollisionTarget::BoundingBox
            && events.last().collision == Collision::Bottom)
    }
}

/// The bounce counter after `n` more resolved bounces, saturating at the
/// counter's maximum.
pub open spec fn sat_bounces(b: int, n: nat) -> int {
    if b + n <= u32::MAX {
        b + n
    } else {
        u32::MAX as int
    }
}

/// Scan the ball's bounding box against every bounce-capable rectangle —
/// the paddle and the arena's bounding box first, then each live block
/// in store order — and report at most one classified collision per
/// rectangle, exactly as [`spec_detect`] states. Removed blocks are not
/// scanned.
pub fn detect_collision(
    ball: &Ball,
    paddle: &Paddle,
    bounds: &Rect,
    blocks: &Vec<Block>,
) -> (events: Vec<BallCollisionEvent>)
    requires
        ball.wf(),
        paddle.wf(),
        bounds.wf(),
        forall|i: int| 0 <= i < blocks@.len() ==> (#[trigger] blocks@[i]).wf(),
    ensures
        events@ == spec_detect(ball.spec_rect(), *paddle, *bounds, blocks@),
        forall|k: int| 0 <= k < events@.len() ==> event_wf(#[trigger] events@[k], blocks@.len() as int),
{
    let ball_rect = ball.rect();
    let mut events: Vec<BallCollisionEvent> = Vec::new();

    let paddle_rect = paddle.rect();
    if let Some(c) = collide(&ball_rect, &paddle_rect) {
        events.push(BallCollisionEvent { with: CollisionTarget::Paddle, collision: c });
    }
    if let Some(c) = collide(&ball_rect, bounds) {
        events.push(BallCollisionEvent { with: CollisionTarget::BoundingBox, collision: c });
    }
    proof {
        assert(events@ =~= opt_event(ball.spec_rect(), paddle.spec_rect(), CollisionTarget::Paddle)
            + opt_event(ball.spec_rect(), *bounds, CollisionTarget::BoundingBox));
        assert(blocks@.take(0) =~= Seq::<Block>::empty());
    }
    let ghost head = events@;

    let n: usize = blocks.len();
    let mut k: usize = 0;
    while k < n
        invariant
            k <= n,
            n == blocks@.len(),
            ball_rect == ball.spec_rect(),
            forall|i: int| 0 <= i < blocks@.len() ==> (#[trigger] blocks@[i]).wf(),
            ball.wf(),
            events@ == head + block_events(ball.spec_rect(), blocks@.take(k as int)),
            forall|j: int|
                0 <= j < events@.len() ==> event_wf(#[trigger] events@[j], blocks@.len() as int),
        decreases n - k,
    {
        proof {
            assert(blocks@.take(k as int + 1).drop_last() =~= blocks@.take(k as int));
            assert(blocks@.take(k as int + 1).last() == blocks@[k as int]);
        }
        if blocks[k].alive {
            let block_rect = blocks[k].rect();
            if let Some(c) = collide(&ball_rect, &block_rect) {
                events.push(
                    BallCollisionEvent { with: CollisionTarget::Block(k), collision: c },
                );
            }
        }
        proof {
            assert(events@ =~= head + block_events(ball.spec_rect(), blocks@.take(k as int + 1)));
        }
        k = k + 1;
    }
    proof {
        assert(blocks@.take(n as int) =~= blocks@);
    }
    events
}

/// The at-most-one report that scanning a single rectangle yields.
pub open spec fn opt_event(ball_rect: Rect, target_rect: Rect, target: CollisionTarget) -> Seq<
    BallCollisionEvent,
> {
    match spec_collide(ball_rect, target_rect) {
        Option::None => Seq::empty(),
        Option::Some(c) => seq![BallCollisionEvent { with: target, collision: c }],
    }
}

/// The reports from scanning the block store in order, skipping removed
/// blocks.
pub open spec fn block_events(ball_rect: Rect, blocks: Seq<Block>) -> Seq<BallCollisionEvent>
    decreases blocks.len(),
{
    if blocks.len() == 0 {
        Seq::empty()
    } else {
        block_events(ball_rect, blocks.drop_last()) + (if blocks.last().alive {
            opt_event(
                ball_rect,
                blocks.last().spec_rect(),
                CollisionTarget::Block((blocks.len() - 1) as usize),
            )
        } else {
            Seq::empty()
        })
    }
}

/// Every report of one tick, in detection order: paddle and arena
/// bounding box first, then the live blocks in store order.
pub open spec fn spec_detect(
    ball_rect: Rect,
    paddle: Paddle,
    bounds: Rect,
    blocks: Seq<Block>,
) -> Seq<BallCollisionEvent> {
    opt_event(ball_rect, paddle.spec_rect(), CollisionTarget::Paddle) + opt_event(
        ball_rect,
        bounds,
        CollisionTarget::BoundingBox,
    ) + block_events(ball_rect, blocks)
}

/// Resolve a tick's collision reports against the ball's velocity and
/// the bounce counter: a left/right strike negates the horizontal
/// component and leaves the vertical one unchanged, a top/bottom strike
/// does the symmetric thing, and `Inside` changes nothing. Every
/// resolved report increments the bounce counter by exactly one
/// (saturating at the counter's maximum); the counter never decreases.
pub fn change_ball_direction(
    ball: &mut Ball,
    bounces: &mut Bounces,
    events: &Vec<BallCollisionEvent>,
)
    requires
        old(ball).wf(),
    ensures
        final(ball).wf(),
        final(ball).velocity.x == flipped(old(ball).velocity.x as int, count_horizontal(events@)),
        final(ball).velocity.y == flipped(old(ball).velocity.y as int, count_vertical(events@)),
        final(ball).position == old(ball).position,
        final(ball).radius == old(ball).radius,
        final(bounces).0 == sat_bounces(old(bounces).0 as int, count_resolved(events@)),
        final(bounces).0 >= old(bounces).0,
{
    let ghost v0 = old(ball).velocity;
    let ghost b0 = old(bounces).0;
    let n: usize = events.len();
    let mut k: usize = 0;
    while k < n
        invariant
            k <= n,
            n == events@.len(),
            ball.wf(),
            ball.velocity.x == flipped(v0.x as int, count_horizontal(events@.take(k as int))),
            ball.velocity.y == flipped(v0.y as int, count_vertical(events@.take(k as int))),
            ball.position == old(ball).position,
            ball.radius == old(ball).radius,
            bounces.0 == sat_bounces(b0 as int, count_resolved(events@.take(k as int))),
        decreases n - k,
    {
        proof {
            assert(events@.take(k as int + 1).drop_last() =~= events@.take(k as int));
            assert(events@.take(k as int + 1).last() == events@[k as int]);
        }
        let e = events[k];
        match e.collision {
            Collision::Left | Collision::Right => {
                ball.velocity.x = -ball.velocity.x;
                if bounces.0 < u32::MAX {
                    bounces.0 = bounces.0 + 1;
                }
            },
            Collision::Top | Collision::Bottom => {
                ball.velocity.y = -ball.velocity.y;
                if bounces.0 < u32::MAX {
                    bounces.0 = bounces.0 + 1;
                }
            },
            Collision::Inside => {},
        }
        k = k + 1;
    }
    proof {
        assert(events@.take(n as int) =~= events@);
    }
}

/// Whether some report of this tick says the ball crossed the arena's
/// bottom edge.
pub fn ball_touched_bottom(events: &Vec<BallCollisionEvent>) -> (r: bool)
    ensures
        r == spec_hit_bottom(events@),
{
    let n: usize = events.len();
    let mut found = false;
    let mut k: usize = 0;
    while k < n
        invariant
            k <= n,
            n == events@.len(),
            found == spec_hit_bottom(events@.take(k as int)),
        decreases n - k,
    {
        proof {
            assert(events@.take(k as int + 1).drop_last() =~= events@.take(k as int));
            assert(events@.take(k as int + 1).last() == events@[k as int]);
        }
        let e = events[k];
        match (e.with, e.collision) {
            (CollisionTarget::BoundingBox, Collision::Bottom) => {
                found = true;
            },
            _ => {},
        }
        k = k + 1;
    }
    proof {
        assert(events@.take(n as int) =~= events@);
    }
    found
}

/// A velocity magnitude after one ramp step: grown by `percent` percent
/// (rounded down), saturating at the velocity limit.
pub open spec fn ramp_mag(m: int, percent: int) -> int {
    let scaled = m + (m * percent) / 100;
    if scaled > VEL_LIMIT {
        VEL_LIMIT as int
    } else {
        scaled
    }
}

/// A signed velocity component after one ramp step: the magnitude grows
/// as [`ramp_mag`] states and the sign is kept.
pub open spec fn ramp_component(v: int, percent: int) -> int {
    if v >= 0 {
        ramp_mag(v, percent)
    } else {
        -ramp_mag(-v, percent)
    }
}

/// One ramp step of a single velocity component.
fn ramp_axis(v: i64, percent: u32) -> (r: i64)
    requires
        -VEL_LIMIT <= v <= VEL_LIMIT,
        percent <= PERCENT_LIMIT,
    ensures
        r == ramp_component(v as int, percent as int),
        -VEL_LIMIT <= r <= VEL_LIMIT,
{
    let neg = v < 0;
    let m: u64 = if neg {
        (-v) as u64
    } else {
        v as u64
    };
    let ghost mi: int = m as int;
    let ghost pi: int = percent as int;
    proof {
        assert(0 <= mi * pi <= 1_000_000_000int) by (nonlinear_arith)
            requires
                0 <= mi <= 1_000_000,
                0 <= pi <= 1_000,
        ;
    }
    let scaled: u64 = m + (m * (percent as u64)) / 100;
    let capped: u64 = if scaled > VEL_LIMIT as u64 {
        VEL_LIMIT as u64
    } else {
        scaled
    };
    let out: i64 = capped as i64;
    if neg {
        -out
    } else {
        out
    }
}

/// Apply the speed ramp once: scale both velocity components up by the
/// configured percentage, compounding multiplicatively bounce over
/// bounce. Fired only on a bounce-counter change, never per tick.
pub fn increase_ball_speed(ball: &mut Ball, speed_increase: u32)
    requires
        old(ball).wf(),
        speed_increase <= PERCENT_LIMIT,
    ensures
        final(ball).wf(),
        final(ball).velocity.x == ramp_component(
            old(ball).velocity.x as int,
            speed_increase as int,
        ),
        final(ball).velocity.y == ramp_component(
            old(ball).velocity.y as int,
            speed_increase as int,
        ),
        final(ball).position == old(ball).position,
        final(ball).radius == old(ball).radius,
{
    ball.velocity.x = ramp_axis(ball.velocity.x, speed_increase);
    ball.velocity.y = ramp_axis(ball.velocity.y, speed_increase);
}

/// A coordinate after integrating a velocity component for `delta_ms`
/// milliseconds, clamped into the world position limits.
pub open spec fn spec_moved_coord(pos: int, vel: int, delta_ms: int) -> int {
    clamp_i(pos + vel * delta_ms * MOVE_SCALE, -POS_LIMIT as int, POS_LIMIT as int)
}

/// Advance the ball by `velocity * delta_ms * MOVE_SCALE` on each axis.
/// Velocity and radius are untouched.
pub fn move_ball(ball: &mut Ball, delta_ms: u32)
    requires
        old(ball).wf(),
        delta_ms <= DT_LIMIT,
    ensures
        final(ball).wf(),
        final(ball).position.x == spec_moved_coord(
            old(ball).position.x as int,
            old(ball).velocity.x as int,
            delta_ms as int,
        ),
        final(ball).position.y == spec_moved_coord(
            old(ball).position.y as int,
            old(ball).velocity.y as int,
            delta_ms as int,
        ),
        final(ball).velocity == old(ball).velocity,
        final(ball).radius == old(ball).radius,
{
    let ghost vx: int = ball.velocity.x as int;
    let ghost vy: int = ball.velocity.y as int;
    let ghost dm: int = delta_ms as int;
    proof {
        assert(-1_500_000_000_000int <= vx * dm * 150 <= 1_500_000_000_000int
            && -1_500_000_000_000int <= vy * dm * 150 <= 1_500_000_000_000int)
            by (nonlinear_arith)
            requires
                -1_000_000 <= vx <= 1_000_000,
                -1_000_000 <= vy <= 1_000_000,
                0 <= dm <= 10_000,
        ;
    }
    let disp_x: i64 = ball.velocity.x * (delta_ms as i64) * MOVE_SCALE;
    let disp_y: i64 = ball.velocity.y * (delta_ms as i64) * MOVE_SCALE;
    ball.position.x = clamp_pos(ball.position.x + disp_x);
    ball.position.y = clamp_pos(ball.position.y + disp_y);
}

/// Where the ball stands while slaved to the paddle: the paddle's x, and
/// the paddle's y plus the configured spawn offset.
pub open spec fn spec_follow_pos(paddle: Paddle, offset_from_paddle: int) -> Vec2i {
    Vec2i {
        x: paddle.position.x,
        y: clamp_i(
            paddle.position.y + offset_from_paddle,
            -POS_LIMIT as int,
            POS_LIMIT as int,
        ) as i64,
    }
}

/// Slave the ball to the paddle: while aiming, the ball does not
/// integrate independently but sits a fixed offset above the paddle.
pub fn follow_paddle(ball: &mut Ball, paddle: &Paddle, offset_from_paddle: u32)
    requires
        old(ball).wf(),
        paddle.wf(),
        offset_from_paddle <= CONFIG_EXT_LIMIT,
    ensures
        final(ball).wf(),
        final(ball).position == spec_follow_pos(*paddle, offset_from_paddle as int),
        final(ball).velocity == old(ball).velocity,
        final(ball).radius == old(ball).radius,
{
    ball.position.x = paddle.position.x;
    ball.position.y = clamp_pos(paddle.position.y + offset_from_paddle as i64);
}

/// A velocity component clamped into the velocity limits.
pub open spec fn clamp_vel(v: int) -> int {
    clamp_i(v, -VEL_LIMIT as int, VEL_LIMIT as int)
}

/// Point the ball at an aim vector while aiming: the velocity is set to
/// the aim vector, each component clamped into the velocity limits.
/// Position and radius are untouched.
pub fn calculate_ball_direction(ball: &mut Ball, aim: Vec2i)
    requires
        old(ball).wf(),
    ensures
        final(ball).wf(),
        final(ball).velocity.x == clamp_vel(aim.x as int),
        final(ball).velocity.y == clamp_vel(aim.y as int),
        final(ball).position == old(ball).position,
        final(ball).radius == old(ball).radius,
{
    ball.velocity.x = clamp_velocity(aim.x);
    ball.velocity.y = clamp_velocity(aim.y);
}

/// Clamp one velocity component into the velocity limits.
pub fn clamp_velocity(v: i64) -> (r: i64)
    ensures
        r == clamp_vel(v as int),
{
    if v < -VEL_LIMIT {
        -VEL_LIMIT
    } else if v > VEL_LIMIT {
        VEL_LIMIT
    } else {
        v
    }
}

/// The ball's velocity at spawn and after a life is lost: the configured
/// initial horizontal speed and the fixed vertical component.
pub open spec fn spec_spawn_velocity(config: Config) -> Vec2i {
    Vec2i { x: config.ball.initial_speed, y: SPAWN_VERTICAL_SPEED }
}

/// The ball at spawn: slaved to the paddle, at spawn velocity, with the
/// configured radius.
pub open spec fn spec_spawn_ball(config: Config, paddle: Paddle) -> Ball {
    Ball {
        position: spec_follow_pos(paddle, config.ball.offset_from_paddle as int),
        velocity: spec_spawn_velocity(config),
        radius: config.ball.radius,
    }
}

/// Create the ball for a new round, exactly as [`spec_spawn_ball`]
/// states.
pub fn spawn_ball(config: &Config, paddle: &Paddle) -> (ball: Ball)
    requires
        config.valid(),
        paddle.wf(),
    ensures
        ball == spec_spawn_ball(*config, *paddle),
        ball.wf(),
{
    Ball {
        position: Vec2i {
            x: paddle.position.x,
            y: clamp_pos(paddle.position.y + config.ball.offset_from_paddle as i64),
        },
        velocity: Vec2i { x: config.ball.initial_speed, y: SPAWN_VERTICAL_SPEED },
        radius: config.ball.radius,
    }
}

/// A single resolved report flips exactly one velocity axis and leaves
/// the other unchanged: a left or right strike negates the horizontal
/// component only, a top or bottom strike the vertical one only, and an
/// `Inside` report changes neither and resolves no bounce. Each resolved
/// report counts exactly one bounce.
pub proof fn lemma_single_bounce(v: Vec2i, e: BallCollisionEvent)
    ensures
        e.collision.is_horizontal() ==> flipped(v.x as int, count_horizontal(seq![e])) == -v.x
            && flipped(v.y as int, count_vertical(seq![e])) == v.y,
        e.collision.is_vertical() ==> flipped(v.y as int, count_vertical(seq![e])) == -v.y
            && flipped(v.x as int, count_horizontal(seq![e])) == v.x,
        e.collision == Collision::Inside ==> flipped(v.x as int, count_horizontal(seq![e])) == v.x
            && flipped(v.y as int, count_vertical(seq![e])) == v.y,
        count_resolved(seq![e]) == (if e.collision.is_resolved() {
            1nat
        } else {
            0nat
        }),
{
    let s: Seq<BallCollisionEvent> = seq![e];
    assert(s.len() == 1);
    assert(s.drop_last() =~= Seq::<BallCollisionEvent>::empty());
    assert(s.last() == e);
    assert(count_horizontal(Seq::<BallCollisionEvent>::empty()) == 0);
    assert(count_vertical(Seq::<BallCollisionEvent>::empty()) == 0);
    assert(count_resolved(Seq::<BallCollisionEvent>::empty()) == 0);
    assert(count_horizontal(s) == count_horizontal(s.drop_last()) + (if e.collision.is_horizontal() {
        1nat
    } else {
        0nat
    }));
    assert(count_vertical(s) == count_vertical(s.drop_last()) + (if e.collision.is_vertical() {
        1nat
    } else {
        0nat
    }));
    assert(count_resolved(s) == count_resolved(s.drop_last()) + (if e.collision.is_resolved() {
        1nat
    } else {
        0nat
    }));
}

/// The bounce counter increases by exactly one per resolved report as
/// long as the counter's machine limit is not reached, and it never
/// decreases.
pub proof fn lemma_bounce_counter_exact(b: int, events: Seq<BallCollisionEvent>)
    requires
        0 <= b <= u32::MAX,
    ensures
        b + count_resolved(events) <= u32::MAX ==> sat_bounces(b, count_resolved(events)) == b
            + count_resolved(events),
        sat_bounces(b, count_resolved(events)) >= b,
{
}

/// A velocity component after `n` ramp steps.
pub open spec fn ramped_n(v: int, percent: int, n: nat) -> int
    decreases n,
{
    if n == 0 {
        v
    } else {
        ramp_component(ramped_n(v, percent, (n - 1) as nat), percent)
    }
}

/// The ramp treats the two velocity signs symmetrically: ramping a
/// negated component negates the ramped component.
pub proof fn lemma_ramp_component_odd(v: int, percent: int)
    ensures
        ramp_component(-v, percent) == -ramp_component(v, percent),
{
    if v > 0 {
        assert(ramp_component(-v, percent) == -ramp_mag(v, percent));
        assert(ramp_component(v, percent) == ramp_mag(v, percent));
    } else if v == 0 {
        assert(ramp_component(0, percent) == ramp_mag(0, percent));
        assert((0int * percent) / 100int == 0int);
        assert(ramp_mag(0, percent) == 0);
    } else {
        assert(ramp_component(-v, percent) == ramp_mag(-v, percent));
        assert(ramp_component(v, percent) == -ramp_mag(-v, percent));
    }
}

/// The ramp never slows the ball: within the velocity limits a ramp
/// step keeps or grows each component's magnitude, so difficulty only
/// escalates.
pub proof fn lemma_ramp_never_slows(v: int, percent: int)
    requires
        -VEL_LIMIT <= v <= VEL_LIMIT,
        0 <= percent,
    ensures
        v >= 0 ==> ramp_component(v, percent) >= v,
        v < 0 ==> ramp_component(v, percent) <= v,
{
    let m = if v >= 0 {
        v
    } else {
        -v
    };
    assert(m * percent >= 0) by (nonlinear_arith)
        requires
            m >= 0,
            percent >= 0,
    ;
    assert((m * percent) / 100 >= 0);
}

/// The speed ramp compounds multiplicatively: starting from a component
/// `m * 100^n` and applying the ramp once per bounce, `n` bounces later
/// the component is exactly `m * (100 + percent)^n` — the integer-exact
/// form of growing by `percent` percent per bounce — as long as the
/// result stays below the velocity limit (beyond it the ramp
/// saturates).
pub proof fn lemma_ramp_compounds(m: int, percent: int, n: nat)
    requires
        0 <= m,
        0 <= percent <= PERCENT_LIMIT,
        m * pow(100 + percent, n) <= VEL_LIMIT,
    ensures
        ramped_n(m * pow(100, n), percent, n) == m * pow(100 + percent, n),
    decreases n,
{
    reveal(pow);
    if n == 0 {
        assert(pow(100int, 0) == 1);
        assert(pow(100 + percent, 0) == 1);
    } else {
        let n1 = (n - 1) as nat;
        let a = pow(100int, n1);
        let q = pow(100 + percent, n1);
        lemma_pow_positive(100int, n1);
        lemma_pow_positive(100 + percent, n1);
        assert(pow(100int, n) == 100 * a);
        assert(pow(100 + percent, n) == (100 + percent) * q);
        assert(m * (100 * a) == (100 * m) * a) by (nonlinear_arith);
        assert((100 * m) * q <= m * ((100 + percent) * q)) by (nonlinear_arith)
            requires
                0 <= m,
                0 < q,
                0 <= percent,
        ;
        lemma_ramp_compounds(100 * m, percent, n1);
        let w = (100 * m) * q;
        assert(ramped_n(m * pow(100int, n), percent, n1) == w);
        let t = m * q * percent;
        assert(0 <= w && 0 <= t && w * percent == 100 * t && w + t == m * ((100 + percent) * q))
            by (nonlinear_arith)
            requires
                0 <= m,
                0 < q,
                0 <= percent,
                w == (100 * m) * q,
                t == m * q * percent,
        ;
        lemma_div_multiples_vanish(t, 100);
        assert((w * percent) / 100 == t);
        assert(ramp_mag(w, percent) == w + t);
    }
}

/// A report's target names a live block of the given store.
pub open spec fn event_targets_live_block(e: BallCollisionEvent, blocks: Seq<Block>) -> bool {
    match e.with {
        CollisionTarget::Block(i) => i < blocks.len() && blocks[i as int].alive,
        _ => false,
    }
}

/// The block scan reports only live blocks: a removed block produces no
/// report, so it is gone from every subsequent collision scan.
pub proof fn lemma_only_live_blocks_scanned(ball_rect: Rect, blocks: Seq<Block>)
    requires
        blocks.len() <= usize::MAX,
    ensures
        forall|k: int|
            0 <= k < block_events(ball_rect, blocks).len() ==> event_targets_live_block(
                #[trigger] block_events(ball_rect, blocks)[k],
                blocks,
            ),
    decreases blocks.len(),
{
    if blocks.len() > 0 {
        lemma_only_live_blocks_scanned(ball_rect, blocks.drop_last());
        let front = block_events(ball_rect, blocks.drop_last());
        let whole = block_events(ball_rect, blocks);
        let last_id = (blocks.len() - 1) as usize;
        let tail = if blocks.last().alive {
            opt_event(ball_rect, blocks.last().spec_rect(), CollisionTarget::Block(last_id))
        } else {
            Seq::<BallCollisionEvent>::empty()
        };
        assert(whole == front + tail);
        assert forall|k: int| 0 <= k < whole.len() implies event_targets_live_block(
            #[trigger] whole[k],
            blocks,
        ) by {
            if k < front.len() {
                assert(whole[k] == front[k]);
                assert(event_targets_live_block(front[k], blocks.drop_last()));
                match front[k].with {
                    CollisionTarget::Block(i) => {
                        assert(blocks.drop_last()[i as int] == blocks[i as int]);
                    },
                    _ => {},
                }
            } else {
                assert(whole[k] == tail[k - front.len()]);
                assert(blocks.last().alive);
                match spec_collide(ball_rect, blocks.last().spec_rect()) {
                    Option::None => {
                        assert(false);
                    },
                    Option::Some(c) => {
                        assert(tail[0] == BallCollisionEvent {
                            with: CollisionTarget::Block(last_id),
                            collision: c,
                        });
                        assert(k == front.len());
                        assert(blocks[last_id as int].alive);
                    },
                }
            }
        }
    }
}

/// Reset the ball's velocity to the spawn default, as happens when a
/// life is lost and the round returns to aiming.
pub fn reset_speed_on_new_life(ball: &mut Ball, config: &Config)
    requires
        old(ball).wf(),
        config.valid(),
    ensures
        final(ball).wf(),
        final(ball).velocity == spec_spawn_velocity(*config),
        final(ball).position == old(ball).position,
        final(ball).radius == old(ball).radius,
{
    ball.velocity.x = config.ball.initial_speed;
    ball.velocity.y = SPAWN_VERTICAL_SPEED;
}

} // verus!
