use breakout::config::{BallConfig, BlockConfig, Config, ConfigError, PaddleConfig, StatsConfig};
use breakout::game::Simulation;

fn good_config() -> Config {
    Config {
        ball: BallConfig {
            radius: 10,
            color: 0,
            initial_speed: 5,
            speed_increase: 10,
            offset_from_paddle: 30,
        },
        paddle: PaddleConfig {
            width: 80,
            height: 20,
            offset_from_bottom: 40,
            color: 0,
            initial_speed: 100,
        },
        block: BlockConfig {
            width: 40,
            height: 20,
            horizontal_offset: 5,
            vertical_offset: 5,
            rows: 10,
            columns: 10,
            offset_from_top: 50,
        },
        stats: StatsConfig { lifes: 3 },
    }
}

#[test]
fn a_valid_config_passes_validation() {
    assert_eq!(good_config().validate(), Ok(()));
}

#[test]
fn zero_radius_is_a_fatal_config_failure() {
    let mut c = good_config();
    c.ball.radius = 0;
    assert_eq!(c.validate(), Err(ConfigError::BallRadius));
    assert!(Simulation::new(c, 800, 600).is_err());
}

#[test]
fn oversized_initial_speed_is_rejected() {
    let mut c = good_config();
    c.ball.initial_speed = 2_000_000;
    assert_eq!(c.validate(), Err(ConfigError::BallSpeed));
}

#[test]
fn oversized_speed_increase_is_rejected() {
    let mut c = good_config();
    c.ball.speed_increase = 1_001;
    assert_eq!(c.validate(), Err(ConfigError::SpeedIncrease));
}

#[test]
fn oversized_spawn_offset_is_rejected() {
    let mut c = good_config();
    c.ball.offset_from_paddle = 2_000_000;
    assert_eq!(c.validate(), Err(ConfigError::BallOffset));
}

#[test]
fn degenerate_paddle_is_rejected() {
    let mut c = good_config();
    c.paddle.width = 1;
    assert_eq!(c.validate(), Err(ConfigError::PaddleSize));
}

#[test]
fn oversized_paddle_speed_is_rejected() {
    let mut c = good_config();
    c.paddle.initial_speed = 2_000_000;
    assert_eq!(c.validate(), Err(ConfigError::PaddleSpeed));
}

#[test]
fn oversized_paddle_offset_is_rejected() {
    let mut c = good_config();
    c.paddle.offset_from_bottom = 2_000_000;
    assert_eq!(c.validate(), Err(ConfigError::PaddleOffset));
}

#[test]
fn degenerate_block_is_rejected() {
    let mut c = good_config();
    c.block.height = 0;
    assert_eq!(c.validate(), Err(ConfigError::BlockSize));
}

#[test]
fn oversized_block_spacing_is_rejected() {
    let mut c = good_config();
    c.block.vertical_offset = 2_000_000;
    assert_eq!(c.validate(), Err(ConfigError::BlockSpacing));
}

#[test]
fn empty_grid_is_rejected() {
    let mut c = good_config();
    c.block.rows = 0;
    assert_eq!(c.validate(), Err(ConfigError::GridSize));
}

#[test]
fn oversized_grid_margin_is_rejected() {
    let mut c = good_config();
    c.block.offset_from_top = 2_000_000;
    assert_eq!(c.validate(), Err(ConfigError::GridOffset));
}

#[test]
fn zero_lives_is_a_fatal_config_failure() {
    let mut c = good_config();
    c.stats.lifes = 0;
    assert_eq!(c.validate(), Err(ConfigError::Lives));
}

#[test]
fn degenerate_arena_is_rejected() {
    assert_eq!(Simulation::new(good_config(), 1, 600).err(), Some(ConfigError::Arena));
}

#[test]
fn round_starts_with_configured_lives_and_zero_bounces() {
    let sim = Simulation::new(good_config(), 800, 600).unwrap();
    assert_eq!(sim.lives.0, 3);
    assert_eq!(sim.bounces.0, 0);
    assert_eq!(sim.blocks.len(), 100);
}
