use breakout::ball::{
    calculate_ball_direction, follow_paddle, move_ball, spawn_ball, Ball,
};
use breakout::config::{BallConfig, BlockConfig, Config, PaddleConfig, StatsConfig};
use breakout::geom::{collide, Collision, Rect, Vec2i, POS_LIMIT, VEL_LIMIT};
use breakout::paddle::{move_paddle, spawn_paddle, Dimensions, Paddle};

fn test_config() -> Config {
    Config {
        ball: BallConfig {
            radius: 10,
            color: 0,
            initial_speed: 5,
            speed_increase: 10,
            offset_from_paddle: 30,
        },
        paddle: PaddleConfig {
            width: 80,
            height: 20,
            offset_from_bottom: 40,
            color: 0,
            initial_speed: 100,
        },
        block: BlockConfig {
            width: 40,
            height: 20,
            horizontal_offset: 5,
            vertical_offset: 5,
            rows: 2,
            columns: 2,
            offset_from_top: 50,
        },
        stats: StatsConfig { lifes: 3 },
    }
}

fn arena() -> Rect {
    Rect { center: Vec2i { x: 0, y: 0 }, half: Vec2i { x: 400, y: 300 } }
}

fn ball_at(x: i64, y: i64, vx: i64, vy: i64) -> Ball {
    Ball { position: Vec2i { x, y }, velocity: Vec2i { x: vx, y: vy }, radius: 10 }
}

#[test]
fn ball_advances_by_velocity_times_time_times_scale() {
    let mut ball = ball_at(0, 0, 2, -3);
    move_ball(&mut ball, 10);
    // displacement = velocity * 10 ms * 150
    assert_eq!(ball.position.x, 3000);
    assert_eq!(ball.position.y, -4500);
    assert_eq!(ball.velocity, Vec2i { x: 2, y: -3 });
}

#[test]
fn ball_position_is_clamped_at_the_world_limit() {
    let mut ball = ball_at(POS_LIMIT, 0, 1000, 0);
    move_ball(&mut ball, 10);
    assert_eq!(ball.position.x, POS_LIMIT);
}

#[test]
fn paddle_moves_horizontally_from_input() {
    let config = test_config();
    let mut paddle = spawn_paddle(&config, &arena());
    let x0 = paddle.position.x;
    move_paddle(&mut paddle, false, true, 10);
    assert_eq!(paddle.position.x, x0 + 1000);
    move_paddle(&mut paddle, true, false, 10);
    assert_eq!(paddle.position.x, x0);
    move_paddle(&mut paddle, true, true, 10);
    assert_eq!(paddle.position.x, x0);
    assert_eq!(paddle.position.y, -260);
}

#[test]
fn paddle_spawns_centered_above_the_bottom_edge() {
    let config = test_config();
    let paddle = spawn_paddle(&config, &arena());
    assert_eq!(paddle.position, Vec2i { x: 0, y: -260 });
    assert_eq!(paddle.dimensions, Dimensions { width: 80, height: 20 });
    assert_eq!(paddle.speed, 100);
}

#[test]
fn ball_spawns_offset_above_the_paddle() {
    let config = test_config();
    let paddle = spawn_paddle(&config, &arena());
    let ball = spawn_ball(&config, &paddle);
    assert_eq!(ball.position, Vec2i { x: 0, y: -230 });
    assert_eq!(ball.velocity, Vec2i { x: 5, y: 150 });
    assert_eq!(ball.radius, 10);
}

#[test]
fn ball_follows_the_paddle_while_aiming() {
    let config = test_config();
    let paddle = Paddle {
        position: Vec2i { x: 55, y: -260 },
        dimensions: Dimensions { width: 80, height: 20 },
        speed: 100,
    };
    let mut ball = ball_at(0, 0, 5, 150);
    follow_paddle(&mut ball, &paddle, config.ball.offset_from_paddle);
    assert_eq!(ball.position, Vec2i { x: 55, y: -230 });
}

#[test]
fn aim_vector_sets_the_velocity_clamped() {
    let mut ball = ball_at(0, 0, 5, 150);
    calculate_ball_direction(&mut ball, Vec2i { x: 3, y: 4 });
    assert_eq!(ball.velocity, Vec2i { x: 3, y: 4 });
    calculate_ball_direction(&mut ball, Vec2i { x: 2_000_000, y: -2_000_000 });
    assert_eq!(ball.velocity, Vec2i { x: VEL_LIMIT, y: -VEL_LIMIT });
}

#[test]
fn collide_classifies_each_side() {
    let b = Rect { center: Vec2i { x: 0, y: 0 }, half: Vec2i { x: 40, y: 10 } };
    let left = Rect { center: Vec2i { x: -45, y: 0 }, half: Vec2i { x: 10, y: 5 } };
    let right = Rect { center: Vec2i { x: 45, y: 0 }, half: Vec2i { x: 10, y: 5 } };
    let top = Rect { center: Vec2i { x: 0, y: 12 }, half: Vec2i { x: 10, y: 5 } };
    let bottom = Rect { center: Vec2i { x: 0, y: -12 }, half: Vec2i { x: 10, y: 5 } };
    let inside = Rect { center: Vec2i { x: 0, y: 0 }, half: Vec2i { x: 10, y: 5 } };
    let apart = Rect { center: Vec2i { x: 200, y: 200 }, half: Vec2i { x: 10, y: 5 } };
    assert_eq!(collide(&left, &b), Some(Collision::Left));
    assert_eq!(collide(&right, &b), Some(Collision::Right));
    assert_eq!(collide(&top, &b), Some(Collision::Top));
    assert_eq!(collide(&bottom, &b), Some(Collision::Bottom));
    assert_eq!(collide(&inside, &b), Some(Collision::Inside));
    assert_eq!(collide(&apart, &b), None);
}

#[test]
fn collide_picks_the_shallower_axis() {
    let b = Rect { center: Vec2i { x: 0, y: 0 }, half: Vec2i { x: 40, y: 40 } };
    // past the left boundary by 2 and the bottom boundary by 15
    let corner_x = Rect { center: Vec2i { x: -48, y: -35 }, half: Vec2i { x: 10, y: 10 } };
    assert_eq!(collide(&corner_x, &b), Some(Collision::Left));
    // past the left boundary by 8 and the bottom boundary by 2
    let corner_y = Rect { center: Vec2i { x: -42, y: -48 }, half: Vec2i { x: 10, y: 10 } };
    assert_eq!(collide(&corner_y, &b), Some(Collision::Bottom));
}
