use breakout::ball::{detect_collision, BallCollisionEvent, CollisionTarget};
use breakout::block::{count_live_blocks, hit_block, spawn_blocks};
use breakout::config::{BallConfig, BlockConfig, Config, PaddleConfig, StatsConfig};
use breakout::game::{Notification, Simulation, TickInput};
use breakout::geom::{Collision, Rect, Vec2i};

fn grid_config(rows: u32, columns: u32) -> Config {
    Config {
        ball: BallConfig {
            radius: 10,
            color: 0,
            initial_speed: 5,
            speed_increase: 10,
            offset_from_paddle: 30,
        },
        paddle: PaddleConfig {
            width: 80,
            height: 20,
            offset_from_bottom: 40,
            color: 0,
            initial_speed: 100,
        },
        block: BlockConfig {
            width: 40,
            height: 20,
            horizontal_offset: 5,
            vertical_offset: 5,
            rows,
            columns,
            offset_from_top: 50,
        },
        stats: StatsConfig { lifes: 3 },
    }
}

fn in_game_sim(rows: u32, columns: u32) -> Simulation {
    let mut sim = Simulation::new(grid_config(rows, columns), 800, 600).unwrap();
    sim.tick(&TickInput {
        start: true,
        launch: false,
        move_left: false,
        move_right: false,
        aim: None,
        delta_ms: 0,
    });
    sim.tick(&TickInput {
        start: false,
        launch: true,
        move_left: false,
        move_right: false,
        aim: None,
        delta_ms: 0,
    });
    sim
}

fn strike(i: usize) -> Vec<BallCollisionEvent> {
    vec![BallCollisionEvent { with: CollisionTarget::Block(i), collision: Collision::Left }]
}

#[test]
fn ten_by_ten_grid_spawns_one_hundred_blocks() {
    let sim = in_game_sim(10, 10);
    assert_eq!(sim.blocks.len(), 100);
    assert_eq!(count_live_blocks(&sim.blocks), 100);
}

#[test]
fn striking_one_block_leaves_ninety_nine_untouched() {
    let mut sim = in_game_sim(10, 10);
    let before = sim.blocks.clone();
    sim.resolve_events(&strike(42));
    assert_eq!(sim.blocks.len(), 100);
    assert_eq!(count_live_blocks(&sim.blocks), 99);
    assert!(!sim.blocks[42].alive);
    for i in 0..100 {
        assert_eq!(sim.blocks[i].position, before[i].position);
        assert_eq!(sim.blocks[i].dimensions, before[i].dimensions);
        if i != 42 {
            assert!(sim.blocks[i].alive);
        }
    }
    assert_eq!(sim.lives.0, 3);
}

#[test]
fn destroying_a_block_is_idempotent() {
    let mut sim = in_game_sim(3, 3);
    let events = strike(4);
    let destroyed = hit_block(&mut sim.blocks, &events);
    assert_eq!(destroyed, vec![4]);
    assert_eq!(count_live_blocks(&sim.blocks), 8);
    let destroyed_again = hit_block(&mut sim.blocks, &events);
    assert_eq!(destroyed_again.len(), 0);
    assert_eq!(count_live_blocks(&sim.blocks), 8);
}

#[test]
fn destroyed_block_leaves_collision_scans() {
    let mut sim = in_game_sim(3, 3);
    // park the ball exactly on a block so the scan reports it
    let target = sim.blocks[4];
    sim.ball.position = target.position;
    let events = detect_collision(&sim.ball, &sim.paddle, &sim.bounds, &sim.blocks);
    assert!(events.iter().any(|e| e.with == CollisionTarget::Block(4)));
    hit_block(&mut sim.blocks, &strike(4));
    let events_after = detect_collision(&sim.ball, &sim.paddle, &sim.bounds, &sim.blocks);
    assert!(!events_after.iter().any(|e| e.with == CollisionTarget::Block(4)));
}

#[test]
fn strike_naming_a_nonexistent_block_is_ignored() {
    let mut sim = in_game_sim(3, 3);
    let notes = sim.resolve_events(&strike(999));
    assert_eq!(sim.blocks.len(), 9);
    assert_eq!(count_live_blocks(&sim.blocks), 9);
    assert!(!notes.iter().any(|n| matches!(n, Notification::BlockDestroyed(_))));
}

#[test]
fn block_destruction_is_notified_once() {
    let mut sim = in_game_sim(3, 3);
    let notes = sim.resolve_events(&strike(4));
    let hits = notes.iter().filter(|n| **n == Notification::BlockDestroyed(4)).count();
    assert_eq!(hits, 1);
    let notes_again = sim.resolve_events(&strike(4));
    assert!(!notes_again.contains(&Notification::BlockDestroyed(4)));
}

#[test]
fn grid_is_laid_out_row_major_below_the_top_edge() {
    let bounds = Rect { center: Vec2i { x: 0, y: 0 }, half: Vec2i { x: 400, y: 300 } };
    let config = grid_config(2, 2);
    let blocks = spawn_blocks(&bounds, &config.block);
    assert_eq!(blocks.len(), 4);
    // total grid width 85; first column center at -22, second at 23;
    // first row 50 below the top edge (300) less half a block height
    assert_eq!(blocks[0].position, Vec2i { x: -22, y: 240 });
    assert_eq!(blocks[1].position, Vec2i { x: 23, y: 240 });
    assert_eq!(blocks[2].position, Vec2i { x: -22, y: 215 });
    assert_eq!(blocks[3].position, Vec2i { x: 23, y: 215 });
    assert!(blocks.iter().all(|b| b.alive));
}
