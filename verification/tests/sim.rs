use breakout_sim::ball::Ball;
use breakout_sim::layout::BrickGrid;
use breakout_sim::layout::GridConfig;
use breakout_sim::paddle::direction_from_input;
use breakout_sim::paddle::paddle_bounds;
use breakout_sim::paddle::Paddle;
use breakout_sim::timestep::TickParams;
use breakout_sim::world::World;
use breakout_sim::world::WorldConfig;
use breakout_sim::ConfigError;

// The constants of the classic arena, in unscaled units. The scale 60 with a
// 1/60 tick keeps every per-tick displacement an exact integer.
const SCALE: u32 = 60;

fn classic_grid() -> GridConfig {
    GridConfig {
        left_wall: -450,
        right_wall: 450,
        bottom_wall: -300,
        top_wall: 300,
        paddle_floor_gap: 60,
        brick_width: 100,
        brick_height: 30,
        paddle_brick_gap: 270,
        brick_gap: 5,
        ceiling_gap: 20,
        side_gap: 20,
    }
}

fn classic_params() -> TickParams {
    TickParams::new(SCALE, 1, 60).unwrap()
}

fn classic_world_config() -> WorldConfig {
    WorldConfig {
        scale: SCALE,
        dt_num: 1,
        dt_den: 60,
        grid: classic_grid(),
        wall_thickness: 10,
        paddle_width: 120,
        paddle_padding: 10,
        paddle_speed: 500,
        paddle_start_x: 0,
        ball_start_x: 0,
        ball_start_y: -50,
        // Roughly the classic ball velocity (speed 400 at 45 degrees down),
        // rounded to whole scaled units per tick.
        ball_vx: 283,
        ball_vy: -283,
    }
}

#[test]
fn grid_example_has_eight_columns() {
    // Walls at +-450, side gap 20 => total width 860; brick 100 plus gap 5
    // => pitch 105; 860 / 105 rounds down to exactly 8 columns.
    let grid = BrickGrid::new(&classic_grid(), &classic_params()).unwrap();
    assert_eq!(grid.cols, 8);
}

#[test]
fn grid_example_has_seven_rows() {
    // Bottom edge -300 + 60 + 270 = 30; height 300 - 30 - 20 = 250;
    // pitch 35 => 7 rows.
    let grid = BrickGrid::new(&classic_grid(), &classic_params()).unwrap();
    assert_eq!(grid.rows, 7);
}

#[test]
fn grid_example_first_centre_and_pitch() {
    let grid = BrickGrid::new(&classic_grid(), &classic_params()).unwrap();
    // Occupied span 8 * 100 + 7 * 5 = 835, centred in the arena: the first
    // column's centre is at -835 / 2 + 50 = -367.5 units, i.e. -22050 at
    // scale 60. The first row's centre is at 30 + 15 = 45 units = 2700.
    assert_eq!(grid.first_cx, -22050);
    assert_eq!(grid.first_cy, 2700);
    assert_eq!(grid.pitch_x, 105 * 60);
    assert_eq!(grid.pitch_y, 35 * 60);
}

#[test]
fn grid_centres_are_row_major() {
    let grid = BrickGrid::new(&classic_grid(), &classic_params()).unwrap();
    let centres = grid.centers();
    assert_eq!(centres.len(), 56);
    assert_eq!(centres[0], (-22050, 2700));
    assert_eq!(centres[1], (-22050 + 6300, 2700));
    assert_eq!(centres[7], (-22050 + 7 * 6300, 2700));
    assert_eq!(centres[8], (-22050, 2700 + 2100));
    assert_eq!(centres[55], (22050, 2700 + 6 * 2100));
}

#[test]
fn grid_occupied_width_fits_available_width() {
    let grid = BrickGrid::new(&classic_grid(), &classic_params()).unwrap();
    let occupied = (grid.cols as i64) * 100 + (grid.cols as i64 - 1) * 5;
    assert_eq!(occupied, 835);
    assert!(occupied <= 860);
}

#[test]
fn grid_rejects_zero_columns() {
    let mut g = classic_grid();
    // Narrow arena: total width 60 holds no whole 105-unit pitch.
    g.left_wall = -50;
    g.right_wall = 50;
    g.side_gap = 20;
    assert_eq!(
        BrickGrid::new(&g, &classic_params()),
        Err(ConfigError::ZeroColumns)
    );
}

#[test]
fn grid_rejects_zero_rows() {
    let mut g = classic_grid();
    // Ceiling right above the bricks' bottom edge: no whole row fits.
    g.top_wall = 60;
    assert_eq!(
        BrickGrid::new(&g, &classic_params()),
        Err(ConfigError::ZeroRows)
    );
}

#[test]
fn grid_rejects_bad_sizes_and_gaps() {
    let mut g = classic_grid();
    g.brick_width = 0;
    assert_eq!(
        BrickGrid::new(&g, &classic_params()),
        Err(ConfigError::BrickSizeNonPositive)
    );
    let mut g2 = classic_grid();
    g2.brick_gap = -1;
    assert_eq!(
        BrickGrid::new(&g2, &classic_params()),
        Err(ConfigError::GapNegative)
    );
    let mut g3 = classic_grid();
    g3.left_wall = -2_000_000;
    assert_eq!(
        BrickGrid::new(&g3, &classic_params()),
        Err(ConfigError::GridValueOutOfRange)
    );
}

#[test]
fn timestep_validation_errors() {
    assert_eq!(TickParams::new(0, 1, 60), Err(ConfigError::ScaleZero));
    assert_eq!(TickParams::new(61, 1, 60), Err(ConfigError::ScaleOdd));
    assert_eq!(
        TickParams::new(2_000_000, 1, 60),
        Err(ConfigError::ScaleTooLarge)
    );
    assert_eq!(TickParams::new(60, 0, 60), Err(ConfigError::DtNumZero));
    assert_eq!(
        TickParams::new(60, 2_000_000, 60),
        Err(ConfigError::DtNumTooLarge)
    );
    assert_eq!(TickParams::new(60, 1, 0), Err(ConfigError::DtDenZero));
    assert_eq!(
        TickParams::new(60, 1, 2_000_000),
        Err(ConfigError::DtDenTooLarge)
    );
    assert_eq!(
        TickParams::new(60, 1, 7),
        Err(ConfigError::DtDenNotDividingScale)
    );
    let p = TickParams::new(60, 1, 60).unwrap();
    assert_eq!((p.scale, p.dt_num, p.dt_den), (60, 1, 60));
}

#[test]
fn scaled_per_tick_is_exact() {
    // speed 500, dt 1/60, scale 60: 500 * 1 * (60 / 60) = 500 scaled units,
    // i.e. 8.33... units per tick, held exactly.
    let p = classic_params();
    assert_eq!(p.scaled_per_tick(500), 500);
    // At scale 120 the same speed gives 1000 scaled units.
    let p2 = TickParams::new(120, 1, 60).unwrap();
    assert_eq!(p2.scaled_per_tick(500), 1000);
    // A two-tick-unit duration doubles the step.
    let p3 = TickParams::new(60, 2, 60).unwrap();
    assert_eq!(p3.scaled_per_tick(500), 1000);
}

#[test]
fn direction_accumulates_both_keys() {
    assert_eq!(direction_from_input(false, false), 0);
    assert_eq!(direction_from_input(true, false), -1);
    assert_eq!(direction_from_input(false, true), 1);
    assert_eq!(direction_from_input(true, true), 0);
}

#[test]
fn paddle_bounds_example() {
    // left bound: -450 + 10/2 + 120/2 + 10 = -375 units = -22500 scaled;
    // right bound: 450 - 10/2 - 120/2 - 10 = 375 units = 22500 scaled.
    let p = classic_params();
    let (lb, rb) = paddle_bounds(&p, -450, 450, 10, 120, 10);
    assert_eq!(lb, -22500);
    assert_eq!(rb, 22500);
}

#[test]
fn paddle_one_tick_example() {
    // Paddle at x = 0, speed 500, dt 1/60, direction +1: the new position is
    // 500 / 60 = 8.33... units, within bounds, held exactly as 500 at
    // scale 60.
    let p = classic_params();
    let (lb, rb) = paddle_bounds(&p, -450, 450, 10, 120, 10);
    let step = p.scaled_per_tick(500);
    let mut paddle = Paddle::new(0, lb, rb, step).unwrap();
    paddle.tick(1);
    assert_eq!(paddle.x, 500);
}

#[test]
fn paddle_clamps_at_right_bound() {
    let mut paddle = Paddle::new(22300, -22500, 22500, 500).unwrap();
    paddle.tick(1);
    assert_eq!(paddle.x, 22500);
    paddle.tick(1);
    assert_eq!(paddle.x, 22500);
}

#[test]
fn paddle_clamps_at_left_bound() {
    let mut paddle = Paddle::new(-22400, -22500, 22500, 500).unwrap();
    paddle.tick(-1);
    assert_eq!(paddle.x, -22500);
    paddle.tick(-1);
    assert_eq!(paddle.x, -22500);
}

#[test]
fn paddle_stays_in_bounds_under_sustained_input() {
    let mut paddle = Paddle::new(0, -2000, 2000, 500).unwrap();
    let dirs = vec![1i64; 100];
    paddle.run(&dirs);
    assert_eq!(paddle.x, 2000);
    let dirs_back = vec![-1i64; 100];
    paddle.run(&dirs_back);
    assert_eq!(paddle.x, -2000);
    // Alternating input never leaves the bounds either.
    let mut wiggle = Vec::new();
    for k in 0..50 {
        wiggle.push(if k % 2 == 0 { 1i64 } else { -1i64 });
    }
    paddle.run(&wiggle);
    assert!(-2000 <= paddle.x && paddle.x <= 2000);
}

#[test]
fn paddle_start_is_clamped_into_bounds() {
    let paddle = Paddle::new(1_000_000, -2000, 2000, 500).unwrap();
    assert_eq!(paddle.x, 2000);
}

#[test]
fn paddle_validation_errors() {
    assert_eq!(
        Paddle::new(0, 2000, -2000, 500),
        Err(ConfigError::BoundsReversed)
    );
    assert_eq!(
        Paddle::new(0, -2000, 2000, -1),
        Err(ConfigError::SpeedNegative)
    );
    assert_eq!(
        Paddle::new(0, -20_000_000_000_000, 2000, 500),
        Err(ConfigError::PaddleValueOutOfRange)
    );
}

#[test]
fn ball_one_tick_adds_velocity() {
    let mut ball = Ball::new(0, -3000, 283, -283);
    ball.tick();
    assert_eq!((ball.x, ball.y), (283, -3283));
}

#[test]
fn ball_n_ticks_is_linear() {
    // After n ticks the position is exactly start + n * velocity: ten ticks
    // one at a time land on the same point as one call covering all ten.
    let mut one_at_a_time = Ball::new(120, -3000, 283, -283);
    for _ in 0..10 {
        one_at_a_time.tick();
    }
    let mut all_at_once = Ball::new(120, -3000, 283, -283);
    all_at_once.fly(10);
    assert_eq!((one_at_a_time.x, one_at_a_time.y), (all_at_once.x, all_at_once.y));
    assert_eq!(all_at_once.x, 120 + 10 * 283);
    assert_eq!(all_at_once.y, -3000 - 10 * 283);
}

#[test]
fn ball_flies_backwards_too() {
    let mut ball = Ball::new(0, 0, -7, 9);
    ball.fly(1000);
    assert_eq!((ball.x, ball.y), (-7000, 9000));
}

#[test]
fn world_builds_the_classic_arena() {
    let world = World::new(&classic_world_config()).unwrap();
    assert_eq!(world.grid.cols, 8);
    assert_eq!(world.grid.rows, 7);
    assert_eq!(world.paddle.x, 0);
    assert_eq!(world.paddle.left_bound, -22500);
    assert_eq!(world.paddle.right_bound, 22500);
    assert_eq!(world.paddle.step, 500);
    assert_eq!(world.ball.x, 0);
    assert_eq!(world.ball.y, -50 * 60);
    assert_eq!((world.ball.vx, world.ball.vy), (283, -283));
}

#[test]
fn world_tick_moves_paddle_and_ball() {
    let mut world = World::new(&classic_world_config()).unwrap();
    world.tick(false, true);
    assert_eq!(world.paddle.x, 500);
    assert_eq!((world.ball.x, world.ball.y), (283, -3283));
    world.tick(true, false);
    assert_eq!(world.paddle.x, 0);
    assert_eq!((world.ball.x, world.ball.y), (566, -3566));
    world.tick(true, true);
    assert_eq!(world.paddle.x, 0);
}

#[test]
fn world_run_matches_single_ticks() {
    let mut scripted = World::new(&classic_world_config()).unwrap();
    let mut stepped = World::new(&classic_world_config()).unwrap();
    let mut inputs = Vec::new();
    for tick in 0..120u32 {
        inputs.push((tick >= 60, tick < 60));
    }
    scripted.run(&inputs);
    for (left, right) in inputs.iter() {
        stepped.tick(*left, *right);
    }
    assert_eq!(scripted.paddle.x, stepped.paddle.x);
    assert_eq!((scripted.ball.x, scripted.ball.y), (stepped.ball.x, stepped.ball.y));
    // The ball's travel is exactly linear over the whole script.
    assert_eq!(scripted.ball.x, 120 * 283);
    assert_eq!(scripted.ball.y, -50 * 60 - 120 * 283);
    // A second of right reaches the right bound (22500 < 60 * 500), so the
    // clamp swallows 7500 scaled units; a second of left then overshoots the
    // start by exactly that amount.
    assert_eq!(scripted.paddle.x, -7500);
}

#[test]
fn world_validation_errors() {
    let mut cfg = classic_world_config();
    cfg.scale = 0;
    assert_eq!(World::new(&cfg), Err(ConfigError::ScaleZero));
    let mut cfg2 = classic_world_config();
    cfg2.grid.brick_width = -5;
    assert_eq!(World::new(&cfg2), Err(ConfigError::BrickSizeNonPositive));
    let mut cfg3 = classic_world_config();
    cfg3.paddle_speed = -1;
    assert_eq!(World::new(&cfg3), Err(ConfigError::SpeedNegative));
    let mut cfg4 = classic_world_config();
    cfg4.paddle_width = 2_000_000;
    assert_eq!(World::new(&cfg4), Err(ConfigError::PaddleValueOutOfRange));
    let mut cfg5 = classic_world_config();
    cfg5.ball_start_y = -2_000_000;
    assert_eq!(World::new(&cfg5), Err(ConfigError::BallValueOutOfRange));
}

#[test]
fn world_rejects_reversed_paddle_bounds() {
    // A huge padding pushes the left bound past the right bound.
    let mut cfg = classic_world_config();
    cfg.paddle_padding = 500_000;
    assert_eq!(World::new(&cfg), Err(ConfigError::BoundsReversed));
}
