//! The whole arena: validated once at startup, stepped once per fixed tick.
//!
//! Building a [`World`] performs every startup-time validation (timestep
//! parameters, grid fit, paddle bounds), so a degenerate configuration — a
//! grid with no columns, reversed paddle bounds — is a construction error,
//! not undefined arithmetic later. Each tick then runs the two step
//! functions in a fixed order: paddle input and clamping first, then ball
//! velocity integration.

use vstd::prelude::*;

use crate::clamped;
use crate::ConfigError;
use crate::UNIT_LIMIT;
use crate::ball::Ball;
use crate::layout::BrickGrid;
use crate::layout::GridConfig;
use crate::paddle::Paddle;
use crate::paddle::direction_from_input;
use crate::paddle::paddle_bounds;
use crate::paddle::spec_direction;
use crate::paddle::spec_left_bound;
use crate::paddle::spec_right_bound;
use crate::paddle::x_after;
use crate::timestep::TickParams;

verus! {

/// Everything a simulation needs, in raw unscaled units (except the ball
/// velocity, which is a per-tick displacement in scaled units, since a
/// continuous velocity need not be an integer).
#[derive(Clone, Copy, Debug, PartialEq, Eq, Structural)]
pub struct WorldConfig {
    /// Scaled units per coordinate unit. Must be even.
    pub scale: u32,
    /// Tick duration numerator, in time units.
    pub dt_num: u32,
    /// Tick duration denominator. Must divide `scale`.
    pub dt_den: u32,
    /// Walls, brick size and gaps.
    pub grid: GridConfig,
    /// Thickness of the arena walls.
    pub wall_thickness: i64,
    /// Width of the paddle.
    pub paddle_width: i64,
    /// Padding the paddle keeps from the walls.
    pub paddle_padding: i64,
    /// Paddle speed, in unscaled units per time unit. Non-negative.
    pub paddle_speed: i64,
    /// The paddle's start x position, unscaled.
    pub paddle_start_x: i64,
    /// The ball's start x position, unscaled.
    pub ball_start_x: i64,
    /// The ball's start y position, unscaled.
    pub ball_start_y: i64,
    /// The ball's x displacement per tick, in scaled units.
    pub ball_vx: i64,
    /// The ball's y displacement per tick, in scaled units.
    pub ball_vy: i64,
}

impl WorldConfig {
    /// The raw paddle inputs lie within `[-UNIT_LIMIT, UNIT_LIMIT]`.
    pub open spec fn paddle_inputs_in_range(self) -> bool {
        &&& -UNIT_LIMIT <= self.wall_thickness <= UNIT_LIMIT
        &&& -UNIT_LIMIT <= self.paddle_width <= UNIT_LIMIT
        &&& -UNIT_LIMIT <= self.paddle_padding <= UNIT_LIMIT
        &&& -UNIT_LIMIT <= self.paddle_speed <= UNIT_LIMIT
        &&& -UNIT_LIMIT <= self.paddle_start_x <= UNIT_LIMIT
    }

    /// The raw ball start position lies within `[-UNIT_LIMIT, UNIT_LIMIT]`.
    pub open spec fn ball_inputs_in_range(self) -> bool {
        &&& -UNIT_LIMIT <= self.ball_start_x <= UNIT_LIMIT
        &&& -UNIT_LIMIT <= self.ball_start_y <= UNIT_LIMIT
    }
}

/// The simulation state: the fixed parameters and grid, and the moving
/// paddle and ball.
#[derive(Clone, Copy, Debug, PartialEq, Eq, Structural)]
pub struct World {
    /// The scale and tick-duration parameters.
    pub params: TickParams,
    /// The brick grid, fixed after startup.
    pub grid: BrickGrid,
    /// The paddle.
    pub paddle: Paddle,
    /// The ball.
    pub ball: Ball,
}

impl World {
    /// The validity invariant: every part is well-formed. Construction
    /// establishes it; ticking preserves it.
    pub open spec fn wf(self) -> bool {
        &&& self.params.wf()
        &&& self.grid.wf()
        &&& self.paddle.wf()
    }

    /// What `new` returns: the first failed validation, else the world with
    /// the grid computed, the paddle placed at its start clamped into the
    /// derived bounds, and the ball at its start.
    pub open spec fn spec_new(cfg: WorldConfig) -> Result<World, ConfigError> {
        match TickParams::spec_new(cfg.scale, cfg.dt_num, cfg.dt_den) {
            Err(e) => Err(e),
            Ok(params) => match BrickGrid::spec_new(cfg.grid, params) {
                Err(e) => Err(e),
                Ok(grid) => if !cfg.paddle_inputs_in_range() {
                    Err(ConfigError::PaddleValueOutOfRange)
                } else if cfg.paddle_speed < 0 {
                    Err(ConfigError::SpeedNegative)
                } else if !cfg.ball_inputs_in_range() {
                    Err(ConfigError::BallValueOutOfRange)
                } else {
                    let lb = spec_left_bound(
                        params,
                        cfg.grid.left_wall as int,
                        cfg.wall_thickness as int,
                        cfg.paddle_width as int,
                        cfg.paddle_padding as int,
                    );
                    let rb = spec_right_bound(
                        params,
                        cfg.grid.right_wall as int,
                        cfg.wall_thickness as int,
                        cfg.paddle_width as int,
                        cfg.paddle_padding as int,
                    );
                    let step = cfg.paddle_speed * params.dt_num * params.scale_per_den();
                    match Paddle::spec_new(
                        (cfg.paddle_start_x * params.scale) as i64,
                        lb as i64,
                        rb as i64,
                        step as i64,
                    ) {
                        Err(e) => Err(e),
                        Ok(paddle) => Ok(
                            World {
                                params,
                                grid,
                                paddle,
                                ball: Ball {
                                    x: (cfg.ball_start_x * params.scale) as i64,
                                    y: (cfg.ball_start_y * params.scale) as i64,
                                    vx: cfg.ball_vx,
                                    vy: cfg.ball_vy,
                                },
                            },
                        ),
                    }
                },
            },
        }
    }

    /// Validate the whole configuration and build the starting state.
    pub fn new(cfg: &WorldConfig) -> (r: Result<World, ConfigError>)
        ensures
            r == Self::spec_new(*cfg),
            (r matches Ok(w) ==> w.wf()),
    {
        let params = match TickParams::new(cfg.scale, cfg.dt_num, cfg.dt_den) {
            Err(e) => {
                return Err(e);
            },
            Ok(p) => p,
        };
        let grid = match BrickGrid::new(&cfg.grid, &params) {
            Err(e) => {
                return Err(e);
            },
            Ok(g) => g,
        };
        if !(-UNIT_LIMIT <= cfg.wall_thickness && cfg.wall_thickness <= UNIT_LIMIT) || !(
        -UNIT_LIMIT <= cfg.paddle_width && cfg.paddle_width <= UNIT_LIMIT) || !(-UNIT_LIMIT
            <= cfg.paddle_padding && cfg.paddle_padding <= UNIT_LIMIT) || !(-UNIT_LIMIT
            <= cfg.paddle_speed && cfg.paddle_speed <= UNIT_LIMIT) || !(-UNIT_LIMIT
            <= cfg.paddle_start_x && cfg.paddle_start_x <= UNIT_LIMIT) {
            return Err(ConfigError::PaddleValueOutOfRange);
        }
        if cfg.paddle_speed < 0 {
            return Err(ConfigError::SpeedNegative);
        }
        if !(-UNIT_LIMIT <= cfg.ball_start_x && cfg.ball_start_x <= UNIT_LIMIT) || !(-UNIT_LIMIT
            <= cfg.ball_start_y && cfg.ball_start_y <= UNIT_LIMIT) {
            return Err(ConfigError::BallValueOutOfRange);
        }
        let bounds: (i64, i64) = paddle_bounds(
            &params,
            cfg.grid.left_wall,
            cfg.grid.right_wall,
            cfg.wall_thickness,
            cfg.paddle_width,
            cfg.paddle_padding,
        );
        let step: i64 = params.scaled_per_tick(cfg.paddle_speed);
        let paddle_start: i64 = params.scale_coord(cfg.paddle_start_x);
        let paddle = match Paddle::new(paddle_start, bounds.0, bounds.1, step) {
            Err(e) => {
                return Err(e);
            },
            Ok(p) => p,
        };
        let ball = Ball::new(
            params.scale_coord(cfg.ball_start_x),
            params.scale_coord(cfg.ball_start_y),
            cfg.ball_vx,
            cfg.ball_vy,
        );
        Ok(World { params, grid, paddle, ball })
    }

    /// Advance one fixed tick: read the input flags, move and clamp the
    /// paddle, then integrate the ball's position by its velocity.
    pub fn tick(&mut self, left: bool, right: bool)
        requires
            old(self).wf(),
            i64::MIN <= old(self).ball.x + old(self).ball.vx <= i64::MAX,
            i64::MIN <= old(self).ball.y + old(self).ball.vy <= i64::MAX,
        ensures
            final(self).paddle.x == clamped(
                old(self).paddle.x + spec_direction(left, right) * old(self).paddle.step,
                old(self).paddle.left_bound as int,
                old(self).paddle.right_bound as int,
            ),
            final(self).ball.x == old(self).ball.x + old(self).ball.vx,
            final(self).ball.y == old(self).ball.y + old(self).ball.vy,
            final(self).ball.vx == old(self).ball.vx,
            final(self).ball.vy == old(self).ball.vy,
            final(self).paddle.left_bound == old(self).paddle.left_bound,
            final(self).paddle.right_bound == old(self).paddle.right_bound,
            final(self).paddle.step == old(self).paddle.step,
            final(self).grid == old(self).grid,
            final(self).params == old(self).params,
            final(self).wf(),
    {
        let dir: i64 = direction_from_input(left, right);
        self.paddle.tick(dir);
        self.ball.tick();
    }

    /// Run one tick per entry of `inputs` (the left and right key flags), in
    /// order: the paddle folds the clamped steps, and the ball lands exactly
    /// on its start plus the tick count times its velocity. The bounds asked
    /// of the caller say that the ball's final position fits `i64`; every
    /// intermediate position lies between start and end.
    pub fn run(&mut self, inputs: &Vec<(bool, bool)>)
        requires
            old(self).wf(),
            i64::MIN <= old(self).ball.x + inputs@.len() * old(self).ball.vx <= i64::MAX,
            i64::MIN <= old(self).ball.y + inputs@.len() * old(self).ball.vy <= i64::MAX,
        ensures
            final(self).paddle.x == x_after(
                old(self).paddle.x as int,
                old(self).paddle.step as int,
                old(self).paddle.left_bound as int,
                old(self).paddle.right_bound as int,
                input_directions(inputs@),
            ),
            final(self).ball.x == old(self).ball.x + inputs@.len() * old(self).ball.vx,
            final(self).ball.y == old(self).ball.y + inputs@.len() * old(self).ball.vy,
            final(self).ball.vx == old(self).ball.vx,
            final(self).ball.vy == old(self).ball.vy,
            final(self).paddle.left_bound == old(self).paddle.left_bound,
            final(self).paddle.right_bound == old(self).paddle.right_bound,
            final(self).paddle.step == old(self).paddle.step,
            final(self).grid == old(self).grid,
            final(self).params == old(self).params,
            final(self).wf(),
    {
        let ghost start: World = *self;
        let ghost dirs: Seq<i64> = input_directions(inputs@);
        let mut i: usize = 0;
        while i < inputs.len()
            invariant
                start.wf(),
                dirs == input_directions(inputs@),
                dirs.len() == inputs@.len(),
                0 <= i <= inputs@.len(),
                self.params == start.params,
                self.grid == start.grid,
                self.paddle.left_bound == start.paddle.left_bound,
                self.paddle.right_bound == start.paddle.right_bound,
                self.paddle.step == start.paddle.step,
                self.ball.vx == start.ball.vx,
                self.ball.vy == start.ball.vy,
                self.wf(),
                self.paddle.x == x_after(
                    start.paddle.x as int,
                    start.paddle.step as int,
                    start.paddle.left_bound as int,
                    start.paddle.right_bound as int,
                    dirs.take(i as int),
                ),
                self.ball.x == start.ball.x + i * start.ball.vx,
                self.ball.y == start.ball.y + i * start.ball.vy,
                i64::MIN <= start.ball.x + inputs@.len() * start.ball.vx <= i64::MAX,
                i64::MIN <= start.ball.y + inputs@.len() * start.ball.vy <= i64::MAX,
            decreases inputs@.len() - i,
        {
            proof {
                lemma_tick_fits(start.ball.x as int, start.ball.vx as int, i as int, inputs@.len() as int);
                lemma_tick_fits(start.ball.y as int, start.ball.vy as int, i as int, inputs@.len() as int);
            }
            let flags: (bool, bool) = inputs[i];
            self.tick(flags.0, flags.1);
            proof {
                assert(dirs.take(i + 1).drop_last() =~= dirs.take(i as int));
                assert(dirs.take(i + 1).last() == dirs[i as int]);
            }
            i = i + 1;
        }
        proof {
            assert(dirs.take(dirs.len() as int) =~= dirs);
        }
    }
}

/// The signed direction each tick's input pair yields.
pub open spec fn input_directions(inputs: Seq<(bool, bool)>) -> Seq<i64> {
    inputs.map_values(|p: (bool, bool)| spec_direction(p.0, p.1) as i64)
}

/// For `0 <= i < n`, one more step of `v` from `start + i * v` stays between
/// `start` and `start + n * v`, so it fits `i64` whenever those two do.
proof fn lemma_tick_fits(start: int, v: int, i: int, n: int)
    requires
        0 <= i < n,
    ensures
        start + i * v + v == start + (i + 1) * v,
        v >= 0 ==> start <= start + i * v + v <= start + n * v,
        v < 0 ==> start + n * v <= start + i * v + v <= start,
{
    assert((i + 1) * v == i * v + v) by (nonlinear_arith);
    if v >= 0 {
        assert((i + 1) * v <= n * v && 0 <= (i + 1) * v) by (nonlinear_arith)
            requires
                0 <= i < n,
                v >= 0,
        ;
    } else {
        assert((i + 1) * v >= n * v && (i + 1) * v <= 0) by (nonlinear_arith)
            requires
                0 <= i < n,
                v < 0,
        ;
    }
}

} // verus!
