use breakout::ball::{
    change_ball_direction, increase_ball_speed, Ball, BallCollisionEvent, Bounces, CollisionTarget,
};
use breakout::config::{BallConfig, BlockConfig, Config, PaddleConfig, StatsConfig};
use breakout::game::{Notification, PlayState, Simulation, TickInput};
use breakout::geom::{Collision, Vec2i};

fn ramp_config(speed_increase: u32) -> Config {
    Config {
        ball: BallConfig {
            radius: 10,
            color: 0,
            initial_speed: 5,
            speed_increase,
            offset_from_paddle: 30,
        },
        paddle: PaddleConfig {
            width: 80,
            height: 20,
            offset_from_bottom: 40,
            color: 0,
            initial_speed: 100,
        },
        block: BlockConfig {
            width: 40,
            height: 20,
            horizontal_offset: 5,
            vertical_offset: 5,
            rows: 2,
            columns: 2,
            offset_from_top: 50,
        },
        stats: StatsConfig { lifes: 3 },
    }
}

fn ball_at(x: i64, y: i64, vx: i64, vy: i64) -> Ball {
    Ball { position: Vec2i { x, y }, velocity: Vec2i { x: vx, y: vy }, radius: 10 }
}

fn event(with: CollisionTarget, collision: Collision) -> BallCollisionEvent {
    BallCollisionEvent { with, collision }
}

#[test]
fn left_strike_flips_horizontal_velocity_only() {
    let mut ball = ball_at(0, 0, 5, -5);
    let mut bounces = Bounces(0);
    let events = vec![event(CollisionTarget::Paddle, Collision::Left)];
    change_ball_direction(&mut ball, &mut bounces, &events);
    assert_eq!(ball.velocity.x, -5);
    assert_eq!(ball.velocity.y, -5);
    assert_eq!(bounces.0, 1);
}

#[test]
fn top_strike_flips_vertical_velocity_only() {
    let mut ball = ball_at(0, 0, 5, -5);
    let mut bounces = Bounces(0);
    let events = vec![event(CollisionTarget::Paddle, Collision::Top)];
    change_ball_direction(&mut ball, &mut bounces, &events);
    assert_eq!(ball.velocity.x, 5);
    assert_eq!(ball.velocity.y, 5);
    assert_eq!(bounces.0, 1);
}

#[test]
fn inside_report_is_a_no_op() {
    let mut ball = ball_at(0, 0, 5, -5);
    let mut bounces = Bounces(7);
    let events = vec![event(CollisionTarget::BoundingBox, Collision::Inside)];
    change_ball_direction(&mut ball, &mut bounces, &events);
    assert_eq!(ball.velocity.x, 5);
    assert_eq!(ball.velocity.y, -5);
    assert_eq!(bounces.0, 7);
}

#[test]
fn bounce_counter_counts_each_resolved_report_once() {
    let mut ball = ball_at(0, 0, 5, -5);
    let mut bounces = Bounces(0);
    let events = vec![
        event(CollisionTarget::Paddle, Collision::Left),
        event(CollisionTarget::BoundingBox, Collision::Inside),
        event(CollisionTarget::Block(0), Collision::Top),
    ];
    change_ball_direction(&mut ball, &mut bounces, &events);
    assert_eq!(bounces.0, 2);
    assert_eq!(ball.velocity.x, -5);
    assert_eq!(ball.velocity.y, 5);
}

#[test]
fn speed_ramp_grows_by_the_configured_percent() {
    let mut ball = ball_at(0, 0, 100, -200);
    increase_ball_speed(&mut ball, 10);
    assert_eq!(ball.velocity.x, 110);
    assert_eq!(ball.velocity.y, -220);
}

#[test]
fn speed_ramp_compounds_over_bounces() {
    let mut ball = ball_at(0, 0, 10000, 0);
    increase_ball_speed(&mut ball, 10);
    increase_ball_speed(&mut ball, 10);
    // 10000 -> 11000 -> 12100: exactly (1 + 10/100)^2 compounding
    assert_eq!(ball.velocity.x, 12100);
}

#[test]
fn speed_ramp_saturates_at_the_velocity_limit() {
    let mut ball = ball_at(0, 0, 999_999, 0);
    increase_ball_speed(&mut ball, 1000);
    assert_eq!(ball.velocity.x, 1_000_000);
}

#[test]
fn paddle_top_strike_reflects_ball_upward() {
    // Lives=3, ball moving (5,-5) straddles the paddle's top edge.
    let mut sim = Simulation::new(ramp_config(0), 800, 600).unwrap();
    sim.tick(&TickInput {
        start: true,
        launch: false,
        move_left: false,
        move_right: false,
        aim: None,
        delta_ms: 0,
    });
    sim.tick(&TickInput {
        start: false,
        launch: true,
        move_left: false,
        move_right: false,
        aim: None,
        delta_ms: 0,
    });
    assert_eq!(sim.play_state, PlayState::BallInGame);
    // paddle center is at (0, -260) with half extents (40, 10)
    sim.ball.position = Vec2i { x: 0, y: -245 };
    sim.ball.velocity = Vec2i { x: 5, y: -5 };
    assert_eq!(sim.bounces.0, 0);
    let notes = sim.tick(&TickInput {
        start: false,
        launch: false,
        move_left: false,
        move_right: false,
        aim: None,
        delta_ms: 0,
    });
    assert_eq!(sim.ball.velocity.x, 5);
    assert_eq!(sim.ball.velocity.y, 5);
    assert_eq!(sim.bounces.0, 1);
    assert!(notes.contains(&Notification::BounceCounterChanged(1)));
}

#[test]
fn ramp_fires_once_per_counter_change_not_per_flip() {
    // Two rectangles struck on different axes in one tick: the counter
    // moves by two, and the ramp scales the flipped velocity once.
    let mut sim = Simulation::new(ramp_config(10), 800, 600).unwrap();
    sim.tick(&TickInput {
        start: true,
        launch: false,
        move_left: false,
        move_right: false,
        aim: None,
        delta_ms: 0,
    });
    sim.tick(&TickInput {
        start: false,
        launch: true,
        move_left: false,
        move_right: false,
        aim: None,
        delta_ms: 0,
    });
    sim.ball.velocity = Vec2i { x: 100, y: -200 };
    let events = vec![
        event(CollisionTarget::Paddle, Collision::Left),
        event(CollisionTarget::Block(0), Collision::Top),
    ];
    let notes = sim.resolve_events(&events);
    assert_eq!(sim.bounces.0, 2);
    // flipped to (-100, 200), then ramped by 10 percent exactly once
    assert_eq!(sim.ball.velocity.x, -110);
    assert_eq!(sim.ball.velocity.y, 220);
    assert!(notes.contains(&Notification::BounceCounterChanged(2)));
}
