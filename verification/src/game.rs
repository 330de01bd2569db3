//! The game-phase state machine and the tick pipeline that drives one
//! simulation step: integrate motion, detect collisions, resolve
//! bounces, ramp the speed, remove struck blocks, account lives, and
//! take the phase transitions — all in one deterministic order.

use vstd::prelude::*;

use crate::ball::{
    ball_touched_bottom, change_ball_direction, count_horizontal, count_resolved, count_vertical,
    detect_collision, flipped, follow_paddle, increase_ball_speed, move_ball,
    ramp_component, calculate_ball_direction, reset_speed_on_new_life, sat_bounces, spawn_ball,
    spec_detect,
    spec_follow_pos, spec_hit_bottom, spec_moved_coord, spec_spawn_ball, spec_spawn_velocity,
    Ball, BallCollisionEvent, Bounces, clamp_vel,
};
use crate::block::{
    apply_strikes, destroyed_ids, hit_block, lemma_apply_strikes_alive, spawn_blocks, spec_grid,
    Block,
};
use crate::config::{Config, ConfigError};
use crate::geom::{Rect, Vec2i, ARENA_CENTER_LIMIT, DT_LIMIT};
use crate::paddle::{move_paddle, spawn_paddle, spec_paddle_moved_x, spec_spawn_paddle, Paddle};
use crate::stats::{decrease_lifes_counter, spec_lives_after, Lives};

verus! {

/// The outer game phase. It is authoritative for whether the simulation
/// runs at all: only `Playing` ticks simulate, and `GameOver` is
/// terminal (restart is an external concern).
#[derive(Clone, Copy, PartialEq, Eq, Structural, Debug)]
pub enum AppState {
    Menu,
    Playing,
    GameOver,
}

/// The inner sub-phase while playing: whether the ball is slaved to the
/// paddle (`ReadyToShoot`) or simulating freely (`BallInGame`).
#[derive(Clone, Copy, PartialEq, Eq, Structural, Debug)]
pub enum PlayState {
    ReadyToShoot,
    BallInGame,
}

/// A notification produced for external UI, audio or rendering
/// collaborators to consume. All notifications of a tick are returned
/// from that tick; nothing is buffered across ticks.
#[derive(Clone, Copy, PartialEq, Eq, Structural, Debug)]
pub enum Notification {
    BounceCounterChanged(u32),
    LifeLost(u32),
    BlockDestroyed(usize),
    PhaseChanged(AppState, PlayState),
}

/// The discrete input signals of one tick, already translated to plain
/// values by the external input collaborator. `aim` is a world-space
/// direction vector; `delta_ms` is the elapsed real time since the
/// previous tick.
#[derive(Clone, Copy, PartialEq, Eq, Structural, Debug)]
pub struct TickInput {
    pub start: bool,
    pub launch: bool,
    pub move_left: bool,
    pub move_right: bool,
    pub aim: Option<Vec2i>,
    pub delta_ms: u32,
}

/// The whole simulation state: configuration, arena bounds, the two
/// phase levels, lives, the bounce counter, and the entity store (ball,
/// paddle, block grid).
pub struct Simulation {
    pub config: Config,
    pub bounds: Rect,
    pub app_state: AppState,
    pub play_state: PlayState,
    pub lives: Lives,
    pub bounces: Bounces,
    pub ball: Ball,
    pub paddle: Paddle,
    pub blocks: Vec<Block>,
}

/// The arena rectangle for a window of the given size, centered on the
/// world origin.
pub open spec fn spec_arena(arena_width: u32, arena_height: u32) -> Rect {
    Rect {
        center: Vec2i { x: 0, y: 0 },
        half: Vec2i { x: (arena_width as int / 2) as i64, y: (arena_height as int / 2) as i64 },
    }
}

/// Validate a round's inputs: the configuration ranges first, then the
/// arena size (each half-extent must be at least one world unit).
pub open spec fn spec_validate_round(config: Config, arena_width: u32, arena_height: u32) -> Result<
    (),
    ConfigError,
> {
    match config.spec_validate() {
        Result::Err(e) => Err(e),
        Result::Ok(_) => if arena_width >= 2 && arena_height >= 2 {
            Ok(())
        } else {
            Err(ConfigError::Arena)
        },
    }
}

/// The entity store and counters exactly as a fresh round places them:
/// paddle at its spawn position, ball slaved to the paddle at spawn
/// velocity, the full block grid alive, the configured lives, and a
/// bounce counter of zero.
pub open spec fn round_entities(config: Config, bounds: Rect, s: Simulation) -> bool {
    &&& s.paddle == spec_spawn_paddle(config, bounds)
    &&& s.ball == spec_spawn_ball(config, spec_spawn_paddle(config, bounds))
    &&& s.blocks@ == spec_grid(bounds, config.block)
    &&& s.lives.0 == config.stats.lifes
    &&& s.bounces.0 == 0
}

/// Two simulation states that are equal field for field.
pub open spec fn sim_unchanged(pre: Simulation, post: Simulation) -> bool {
    &&& post.config == pre.config
    &&& post.bounds == pre.bounds
    &&& post.app_state == pre.app_state
    &&& post.play_state == pre.play_state
    &&& post.lives == pre.lives
    &&& post.bounces == pre.bounces
    &&& post.ball == pre.ball
    &&& post.paddle == pre.paddle
    &&& post.blocks@ == pre.blocks@
}

/// What a tick does in the menu: an explicit start signal begins the
/// round and reports the phase change; anything else changes nothing.
pub open spec fn menu_post(
    pre: Simulation,
    post: Simulation,
    input: TickInput,
    notes: Seq<Notification>,
) -> bool {
    if input.start {
        &&& post.config == pre.config
        &&& post.bounds == pre.bounds
        &&& post.app_state == AppState::Playing
        &&& post.play_state == PlayState::ReadyToShoot
        &&& round_entities(pre.config, pre.bounds, post)
        &&& notes == seq![
            Notification::PhaseChanged(AppState::Playing, PlayState::ReadyToShoot),
        ]
    } else {
        &&& sim_unchanged(pre, post)
        &&& notes == Seq::<Notification>::empty()
    }
}

/// The paddle after one tick's directional input.
pub open spec fn spec_moved_paddle(paddle: Paddle, input: TickInput) -> Paddle {
    Paddle {
        position: Vec2i {
            x: spec_paddle_moved_x(
                paddle.position.x as int,
                paddle.speed as int,
                input.move_left,
                input.move_right,
                input.delta_ms as int,
            ) as i64,
            y: paddle.position.y,
        },
        dimensions: paddle.dimensions,
        speed: paddle.speed,
    }
}

/// The ball after one tick's free motion.
pub open spec fn spec_moved_ball(ball: Ball, delta_ms: int) -> Ball {
    Ball {
        position: Vec2i {
            x: spec_moved_coord(ball.position.x as int, ball.velocity.x as int, delta_ms) as i64,
            y: spec_moved_coord(ball.position.y as int, ball.velocity.y as int, delta_ms) as i64,
        },
        velocity: ball.velocity,
        radius: ball.radius,
    }
}

/// What a tick does while aiming: the paddle integrates input, the ball
/// stays slaved to it, an aim vector redirects the ball's velocity, and
/// an explicit launch signal releases the ball into play.
pub open spec fn aiming_post(
    pre: Simulation,
    post: Simulation,
    input: TickInput,
    notes: Seq<Notification>,
) -> bool {
    let paddle1 = spec_moved_paddle(pre.paddle, input);
    &&& post.config == pre.config
    &&& post.bounds == pre.bounds
    &&& post.lives == pre.lives
    &&& post.bounces == pre.bounces
    &&& post.blocks@ == pre.blocks@
    &&& post.paddle == paddle1
    &&& post.ball.position == spec_follow_pos(paddle1, pre.config.ball.offset_from_paddle as int)
    &&& post.ball.velocity == (match input.aim {
        Option::Some(aim) => (Vec2i {
            x: clamp_vel(aim.x as int) as i64,
            y: clamp_vel(aim.y as int) as i64,
        }),
        Option::None => pre.ball.velocity,
    })
    &&& post.ball.radius == pre.ball.radius
    &&& post.app_state == AppState::Playing
    &&& post.play_state == (if input.launch {
        PlayState::BallInGame
    } else {
        PlayState::ReadyToShoot
    })
    &&& notes == (if input.launch {
        seq![Notification::PhaseChanged(AppState::Playing, PlayState::BallInGame)]
    } else {
        Seq::<Notification>::empty()
    })
}

/// The notifications of destroyed blocks, in removal order.
pub open spec fn block_destroyed_notes(ids: Seq<usize>) -> Seq<Notification> {
    ids.map_values(|i: usize| Notification::BlockDestroyed(i))
}

/// The notifications one resolution step produces, in pipeline order:
/// the bounce-counter change if the counter moved, one block-destroyed
/// notification per removed block, the life lost with the lives that
/// remain, and the phase change the life loss forced.
pub open spec fn resolve_notes(pre: Simulation, events: Seq<BallCollisionEvent>) -> Seq<
    Notification,
> {
    let b1 = sat_bounces(pre.bounces.0 as int, count_resolved(events));
    let lost = spec_hit_bottom(events);
    let lives1 = spec_lives_after(pre.lives.0 as int, events);
    (if b1 != pre.bounces.0 as int {
        seq![Notification::BounceCounterChanged(b1 as u32)]
    } else {
        Seq::<Notification>::empty()
    }) + block_destroyed_notes(destroyed_ids(pre.blocks@, events)) + (if lost {
        seq![Notification::LifeLost(lives1 as u32)]
    } else {
        Seq::<Notification>::empty()
    }) + (if lost {
        if lives1 == 0 {
            seq![Notification::PhaseChanged(AppState::GameOver, PlayState::BallInGame)]
        } else {
            seq![Notification::PhaseChanged(AppState::Playing, PlayState::ReadyToShoot)]
        }
    } else {
        Seq::<Notification>::empty()
    })
}

/// What resolving one tick's collision reports does to the simulation.
///
/// Every resolved report flips one velocity axis and counts one bounce;
/// the speed ramp fires exactly once if and only if the bounce counter
/// changed, scaling the flipped velocity; struck blocks are removed
/// idempotently; a bottom-edge crossing costs one life, and the phase
/// machine reacts in the same tick: to `GameOver` when the lives reach
/// zero, back to aiming (with the ball reset to its spawn place and
/// velocity) when lives remain.
pub open spec fn resolve_post(
    pre: Simulation,
    post: Simulation,
    events: Seq<BallCollisionEvent>,
    notes: Seq<Notification>,
) -> bool {
    let nres = count_resolved(events);
    let b1 = sat_bounces(pre.bounces.0 as int, nres);
    let changed = b1 != pre.bounces.0 as int;
    let p = pre.config.ball.speed_increase as int;
    let fx = flipped(pre.ball.velocity.x as int, count_horizontal(events));
    let fy = flipped(pre.ball.velocity.y as int, count_vertical(events));
    let rx = if changed {
        ramp_component(fx, p)
    } else {
        fx
    };
    let ry = if changed {
        ramp_component(fy, p)
    } else {
        fy
    };
    let lost = spec_hit_bottom(events);
    let lives1 = spec_lives_after(pre.lives.0 as int, events);
    let over = lost && lives1 == 0;
    let reset = lost && lives1 > 0;
    &&& post.config == pre.config
    &&& post.bounds == pre.bounds
    &&& post.paddle == pre.paddle
    &&& post.bounces.0 == b1
    &&& post.bounces.0 >= pre.bounces.0
    &&& post.blocks@ == apply_strikes(pre.blocks@, events)
    &&& post.lives.0 == lives1
    &&& post.lives.0 <= pre.lives.0
    &&& post.app_state == (if over {
        AppState::GameOver
    } else {
        AppState::Playing
    })
    &&& post.play_state == (if reset {
        PlayState::ReadyToShoot
    } else {
        PlayState::BallInGame
    })
    &&& post.ball.radius == pre.ball.radius
    &&& post.ball.velocity == (if reset {
        spec_spawn_velocity(pre.config)
    } else {
        Vec2i { x: rx as i64, y: ry as i64 }
    })
    &&& post.ball.position == (if reset {
        spec_follow_pos(pre.paddle, pre.config.ball.offset_from_paddle as int)
    } else {
        pre.ball.position
    })
    &&& notes == resolve_notes(pre, events)
}

/// The simulation after the motion-integration stage of an in-play tick:
/// the paddle has integrated input and the ball its velocity; nothing
/// else has moved yet.
pub open spec fn spec_integrate(pre: Simulation, input: TickInput) -> Simulation {
    Simulation {
        config: pre.config,
        bounds: pre.bounds,
        app_state: pre.app_state,
        play_state: pre.play_state,
        lives: pre.lives,
        bounces: pre.bounces,
        ball: spec_moved_ball(pre.ball, input.delta_ms as int),
        paddle: spec_moved_paddle(pre.paddle, input),
        blocks: pre.blocks,
    }
}

/// The collision reports one in-play tick detects, after motion, in
/// detection order.
pub open spec fn spec_tick_events(pre: Simulation, input: TickInput) -> Seq<BallCollisionEvent> {
    let moved = spec_integrate(pre, input);
    spec_detect(moved.ball.spec_rect(), moved.paddle, moved.bounds, moved.blocks@)
}

/// What a tick does while the ball is in play: motion integration, then
/// collision detection, then resolution as [`resolve_post`] states.
pub open spec fn in_play_post(
    pre: Simulation,
    post: Simulation,
    input: TickInput,
    notes: Seq<Notification>,
) -> bool {
    resolve_post(spec_integrate(pre, input), post, spec_tick_events(pre, input), notes)
}

/// A life loss that empties the lives counter moves the outer phase to
/// `GameOver` in the same resolution step, never a tick later, and the
/// counter stops at exactly zero.
pub proof fn lemma_game_over_same_tick(
    pre: Simulation,
    post: Simulation,
    events: Seq<BallCollisionEvent>,
    notes: Seq<Notification>,
)
    requires
        pre.lives.0 == 1,
        spec_hit_bottom(events),
        resolve_post(pre, post, events, notes),
    ensures
        post.lives.0 == 0,
        post.app_state == AppState::GameOver,
{
}

/// A life loss with lives to spare keeps the round going: the lives
/// counter drops by exactly one, the sub-phase returns to aiming, and
/// the ball is reset to its spawn place relative to the paddle at spawn
/// velocity.
pub proof fn lemma_life_lost_resets_ball(
    pre: Simulation,
    post: Simulation,
    events: Seq<BallCollisionEvent>,
    notes: Seq<Notification>,
)
    requires
        pre.lives.0 > 1,
        spec_hit_bottom(events),
        resolve_post(pre, post, events, notes),
    ensures
        post.lives.0 == pre.lives.0 - 1,
        post.app_state == AppState::Playing,
        post.play_state == PlayState::ReadyToShoot,
        post.ball.position == spec_follow_pos(
            pre.paddle,
            pre.config.ball.offset_from_paddle as int,
        ),
        post.ball.velocity == spec_spawn_velocity(pre.config),
{
}

/// The speed ramp fires exactly once per bounce-counter change: when the
/// counter moved and no life-loss reset overrides it, the new velocity
/// is one ramp step of the flipped velocity; when the counter did not
/// move, the velocity is the flipped velocity alone, unramped.
pub proof fn lemma_ramp_once_per_counter_change(
    pre: Simulation,
    post: Simulation,
    events: Seq<BallCollisionEvent>,
    notes: Seq<Notification>,
)
    requires
        resolve_post(pre, post, events, notes),
        !spec_hit_bottom(events),
    ensures
        post.bounces.0 != pre.bounces.0 ==> post.ball.velocity == (Vec2i {
            x: ramp_component(
                flipped(pre.ball.velocity.x as int, count_horizontal(events)),
                pre.config.ball.speed_increase as int,
            ) as i64,
            y: ramp_component(
                flipped(pre.ball.velocity.y as int, count_vertical(events)),
                pre.config.ball.speed_increase as int,
            ) as i64,
        }),
        post.bounces.0 == pre.bounces.0 ==> post.ball.velocity == (Vec2i {
            x: flipped(pre.ball.velocity.x as int, count_horizontal(events)) as i64,
            y: flipped(pre.ball.velocity.y as int, count_vertical(events)) as i64,
        }),
{
}

impl Simulation {
    /// The internal invariant every public step preserves: the
    /// configuration is valid, the arena and entities lie within the
    /// world limits, and a playing round always has a life to lose.
    pub open spec fn wf(self) -> bool {
        &&& self.config.valid()
        &&& self.bounds.wf()
        &&& self.bounds.center.in_bounds(ARENA_CENTER_LIMIT as int)
        &&& self.ball.wf()
        &&& self.paddle.wf()
        &&& forall|i: int| 0 <= i < self.blocks@.len() ==> (#[trigger] self.blocks@[i]).wf()
        &&& (self.app_state == AppState::Playing ==> self.lives.0 >= 1)
    }

    /// Build a simulation for the given configuration and arena size.
    /// Fails, with the first offending field, exactly on inputs outside
    /// the documented ranges; succeeds with a round ready to start from
    /// the menu, its entities already at their round-start places.
    pub fn new(config: Config, arena_width: u32, arena_height: u32) -> (r: Result<
        Simulation,
        ConfigError,
    >)
        ensures
            r is Ok <==> spec_validate_round(config, arena_width, arena_height) is Ok,
            r is Err ==> Result::<(), ConfigError>::Err(r->Err_0) == spec_validate_round(
                config,
                arena_width,
                arena_height,
            ),
            r is Ok ==> ({
                let s = r->Ok_0;
                &&& s.wf()
                &&& s.config == config
                &&& s.bounds == spec_arena(arena_width, arena_height)
                &&& s.app_state == AppState::Menu
                &&& s.play_state == PlayState::ReadyToShoot
                &&& round_entities(config, spec_arena(arena_width, arena_height), s)
            }),
    {
        if let Err(e) = config.validate() {
            return Err(e);
        }
        if !(arena_width >= 2 && arena_height >= 2) {
            return Err(ConfigError::Arena);
        }
        let bounds = Rect {
            center: Vec2i { x: 0, y: 0 },
            half: Vec2i { x: (arena_width / 2) as i64, y: (arena_height / 2) as i64 },
        };
        let paddle = spawn_paddle(&config, &bounds);
        let ball = spawn_ball(&config, &paddle);
        let blocks = spawn_blocks(&bounds, &config.block);
        Ok(
            Simulation {
                config,
                bounds,
                app_state: AppState::Menu,
                play_state: PlayState::ReadyToShoot,
                lives: Lives(config.stats.lifes),
                bounces: Bounces(0),
                ball,
                paddle,
                blocks,
            },
        )
    }

    /// Start the round from the menu: spawn the paddle, the ball slaved
    /// to it, and the block grid; set the configured lives; zero the
    /// bounce counter; and enter `Playing`/`ReadyToShoot`.
    pub fn start_game(&mut self)
        requires
            old(self).wf(),
            old(self).app_state == AppState::Menu,
        ensures
            final(self).wf(),
            final(self).config == old(self).config,
            final(self).bounds == old(self).bounds,
            final(self).app_state == AppState::Playing,
            final(self).play_state == PlayState::ReadyToShoot,
            round_entities(old(self).config, old(self).bounds, *final(self)),
    {
        let paddle = spawn_paddle(&self.config, &self.bounds);
        let ball = spawn_ball(&self.config, &paddle);
        let blocks = spawn_blocks(&self.bounds, &self.config.block);
        self.paddle = paddle;
        self.ball = ball;
        self.blocks = blocks;
        self.lives = Lives(self.config.stats.lifes);
        self.bounces = Bounces(0);
        self.app_state = AppState::Playing;
        self.play_state = PlayState::ReadyToShoot;
    }

    /// Release the ball: the launch signal moves the sub-phase from
    /// aiming to in-play.
    pub fn play_ball(&mut self)
        ensures
            final(self).play_state == PlayState::BallInGame,
            final(self).config == old(self).config,
            final(self).bounds == old(self).bounds,
            final(self).app_state == old(self).app_state,
            final(self).lives == old(self).lives,
            final(self).bounces == old(self).bounces,
            final(self).ball == old(self).ball,
            final(self).paddle == old(self).paddle,
            final(self).blocks@ == old(self).blocks@,
    {
        self.play_state = PlayState::BallInGame;
    }

    /// Resolve one tick's collision reports, exactly as [`resolve_post`]
    /// states: flip velocity axes, count bounces, ramp the speed once if
    /// the counter changed, remove struck blocks, account a lost life,
    /// and take the forced phase transition — all within this call.
    pub fn resolve_events(&mut self, events: &Vec<BallCollisionEvent>) -> (notes: Vec<
        Notification,
    >)
        requires
            old(self).wf(),
            old(self).app_state == AppState::Playing,
            old(self).play_state == PlayState::BallInGame,
        ensures
            final(self).wf(),
            resolve_post(*old(self), *final(self), events@, notes@),
    {
        let ghost pre = *old(self);
        let pre_bounces: u32 = self.bounces.0;
        change_ball_direction(&mut self.ball, &mut self.bounces, events);

        let mut notes: Vec<Notification> = Vec::new();
        if self.bounces.0 != pre_bounces {
            increase_ball_speed(&mut self.ball, self.config.ball.speed_increase);
            notes.push(Notification::BounceCounterChanged(self.bounces.0));
        }
        let ghost bounce_part = notes@;

        let destroyed = hit_block(&mut self.blocks, events);
        proof {
            lemma_apply_strikes_alive(pre.blocks@, events@);
            assert forall|i: int| 0 <= i < self.blocks@.len() implies (
            #[trigger] self.blocks@[i]).wf() by {
                assert(self.blocks@[i].position == pre.blocks@[i].position);
                assert(self.blocks@[i].dimensions == pre.blocks@[i].dimensions);
                assert(pre.blocks@[i].wf());
            }
        }
        let n_destroyed: usize = destroyed.len();
        let mut k: usize = 0;
        while k < n_destroyed
            invariant
                k <= n_destroyed,
                n_destroyed == destroyed@.len(),
                notes@ == bounce_part + block_destroyed_notes(destroyed@.take(k as int)),
            decreases n_destroyed - k,
        {
            proof {
                assert(block_destroyed_notes(destroyed@.take(k as int + 1))
                    =~= block_destroyed_notes(destroyed@.take(k as int)).push(
                    Notification::BlockDestroyed(destroyed@[k as int]),
                ));
            }
            notes.push(Notification::BlockDestroyed(destroyed[k]));
            k = k + 1;
        }
        proof {
            assert(destroyed@.take(n_destroyed as int) =~= destroyed@);
        }

        let lost = ball_touched_bottom(events);
        decrease_lifes_counter(&mut self.lives, events);
        if lost {
            notes.push(Notification::LifeLost(self.lives.0));
            if self.lives.0 == 0 {
                self.app_state = AppState::GameOver;
                notes.push(
                    Notification::PhaseChanged(AppState::GameOver, PlayState::BallInGame),
                );
            } else {
                reset_speed_on_new_life(&mut self.ball, &self.config);
                follow_paddle(&mut self.ball, &self.paddle, self.config.ball.offset_from_paddle);
                self.play_state = PlayState::ReadyToShoot;
                notes.push(
                    Notification::PhaseChanged(AppState::Playing, PlayState::ReadyToShoot),
                );
            }
        }
        proof {
            assert(notes@ =~= resolve_notes(pre, events@));
        }
        notes
    }

    /// Advance the simulation by one tick in the strict component order:
    /// in the menu, react to the start signal ([`menu_post`]); while
    /// aiming, follow the paddle and react to aim and launch
    /// ([`aiming_post`]); in play, integrate, detect and resolve
    /// ([`in_play_post`]); after game over, do nothing. All
    /// notifications the tick produces are returned and nothing is
    /// buffered across ticks.
    pub fn tick(&mut self, input: &TickInput) -> (notes: Vec<Notification>)
        requires
            old(self).wf(),
            input.delta_ms <= DT_LIMIT,
        ensures
            final(self).wf(),
            old(self).app_state == AppState::Menu ==> menu_post(
                *old(self),
                *final(self),
                *input,
                notes@,
            ),
            old(self).app_state == AppState::GameOver ==> sim_unchanged(*old(self), *final(self))
                && notes@ == Seq::<Notification>::empty(),
            old(self).app_state == AppState::Playing && old(self).play_state
                == PlayState::ReadyToShoot ==> aiming_post(*old(self), *final(self), *input, notes@),
            old(self).app_state == AppState::Playing && old(self).play_state
                == PlayState::BallInGame ==> in_play_post(*old(self), *final(self), *input, notes@),
    {
        let mut notes: Vec<Notification> = Vec::new();
        match self.app_state {
            AppState::Menu => {
                if input.start {
                    self.start_game();
                    notes.push(
                        Notification::PhaseChanged(AppState::Playing, PlayState::ReadyToShoot),
                    );
                }
            },
            AppState::GameOver => {},
            AppState::Playing => {
                match self.play_state {
                    PlayState::ReadyToShoot => {
                        move_paddle(&mut self.paddle, input.move_left, input.move_right, input.delta_ms);
                        follow_paddle(
                            &mut self.ball,
                            &self.paddle,
                            self.config.ball.offset_from_paddle,
                        );
                        if let Some(aim) = input.aim {
                            calculate_ball_direction(&mut self.ball, aim);
                        }
                        if input.launch {
                            self.play_ball();
                            notes.push(
                                Notification::PhaseChanged(AppState::Playing, PlayState::BallInGame),
                            );
                        }
                    },
                    PlayState::BallInGame => {
                        move_paddle(&mut self.paddle, input.move_left, input.move_right, input.delta_ms);
                        move_ball(&mut self.ball, input.delta_ms);
                        proof {
                            assert(self.ball == spec_integrate(*old(self), *input).ball);
                            assert(self.paddle == spec_integrate(*old(self), *input).paddle);
                        }
                        let events = detect_collision(
                            &self.ball,
                            &self.paddle,
                            &self.bounds,
                            &self.blocks,
                        );
                        proof {
                            assert(events@ == spec_tick_events(*old(self), *input));
                        }
                        notes = self.resolve_events(&events);
                    },
                }
            },
        }
        notes
    }
}

} // verus!
