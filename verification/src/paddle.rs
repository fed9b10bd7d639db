//! Paddle motion: one clamped step per fixed tick.
//!
//! Every tick the player input yields a direction in `{-1, 0, +1}` (both keys
//! pressed cancel out). The candidate position is the current position plus
//! `direction * speed * dt`, and the new position is that candidate clamped
//! into `[left_bound, right_bound]`. All values are in scaled units, so the
//! step is exact.

use vstd::prelude::*;

use crate::clamped;
use crate::ConfigError;
use crate::COORD_LIMIT;
use crate::STEP_LIMIT;
use crate::UNIT_LIMIT;
use crate::timestep::TickParams;

verus! {

/// The direction one tick's input yields: `+1` for right, `-1` for left,
/// `0` for neither or both.
pub open spec fn spec_direction(left: bool, right: bool) -> int {
    (if right {
        1int
    } else {
        0int
    }) - (if left {
        1int
    } else {
        0int
    })
}

/// Turn the two key flags into a signed direction.
pub fn direction_from_input(left: bool, right: bool) -> (d: i64)
    ensures
        d == spec_direction(left, right),
        -1 <= d <= 1,
{
    let mut d: i64 = 0;
    if left {
        d = d - 1;
    }
    if right {
        d = d + 1;
    }
    d
}

/// The paddle: a position on a horizontal rail, clamped into fixed bounds,
/// moved by a fixed step per tick. All fields are in scaled units.
#[derive(Clone, Copy, Debug, PartialEq, Eq, Structural)]
pub struct Paddle {
    /// Current centre position. Always within `[left_bound, right_bound]`.
    pub x: i64,
    /// Smallest position the paddle centre may take.
    pub left_bound: i64,
    /// Largest position the paddle centre may take.
    pub right_bound: i64,
    /// Displacement per tick at full speed: `speed * dt * scale`, non-negative.
    pub step: i64,
}

impl Paddle {
    /// The validity invariant: the bounds are ordered and moderate, the
    /// position lies within them, and the step is non-negative and small
    /// enough that a candidate position never overflows `i64`.
    pub open spec fn wf(self) -> bool {
        &&& -COORD_LIMIT <= self.left_bound <= self.right_bound <= COORD_LIMIT
        &&& self.left_bound <= self.x <= self.right_bound
        &&& 0 <= self.step <= STEP_LIMIT
    }

    /// What `new` returns: the first failed check, else the paddle with its
    /// start position clamped into the bounds.
    pub open spec fn spec_new(x0: i64, left_bound: i64, right_bound: i64, step: i64) -> Result<
        Paddle,
        ConfigError,
    > {
        if !(-COORD_LIMIT <= left_bound <= COORD_LIMIT) || !(-COORD_LIMIT <= right_bound
            <= COORD_LIMIT) {
            Err(ConfigError::PaddleValueOutOfRange)
        } else if left_bound > right_bound {
            Err(ConfigError::BoundsReversed)
        } else if !(0 <= step <= STEP_LIMIT) {
            Err(ConfigError::SpeedNegative)
        } else {
            Ok(
                Paddle {
                    x: clamped(x0 as int, left_bound as int, right_bound as int) as i64,
                    left_bound,
                    right_bound,
                    step,
                },
            )
        }
    }

    /// Validate the bounds and step, and place the paddle at the start
    /// position clamped into the bounds.
    pub fn new(x0: i64, left_bound: i64, right_bound: i64, step: i64) -> (r: Result<
        Paddle,
        ConfigError,
    >)
        ensures
            r == Self::spec_new(x0, left_bound, right_bound, step),
            (r matches Ok(p) ==> p.wf() && p.x == clamped(
                x0 as int,
                left_bound as int,
                right_bound as int,
            )),
    {
        if !(-COORD_LIMIT <= left_bound && left_bound <= COORD_LIMIT) || !(-COORD_LIMIT
            <= right_bound && right_bound <= COORD_LIMIT) {
            Err(ConfigError::PaddleValueOutOfRange)
        } else if left_bound > right_bound {
            Err(ConfigError::BoundsReversed)
        } else if !(0 <= step && step <= STEP_LIMIT) {
            Err(ConfigError::SpeedNegative)
        } else {
            let x: i64 = if x0 < left_bound {
                left_bound
            } else if x0 > right_bound {
                right_bound
            } else {
                x0
            };
            Ok(Paddle { x, left_bound, right_bound, step })
        }
    }

    /// Advance one tick: move by `dir * step` and clamp into the bounds.
    /// The new position is exactly the clamped candidate, for every
    /// direction and every (validated) speed and tick duration.
    pub fn tick(&mut self, dir: i64)
        requires
            old(self).wf(),
            -1 <= dir <= 1,
        ensures
            final(self).x == clamped(
                old(self).x + dir * old(self).step,
                old(self).left_bound as int,
                old(self).right_bound as int,
            ),
            final(self).left_bound == old(self).left_bound,
            final(self).right_bound == old(self).right_bound,
            final(self).step == old(self).step,
            final(self).wf(),
    {
        proof {
            assert(-self.step <= dir * self.step <= self.step) by (nonlinear_arith)
                requires
                    -1 <= dir <= 1,
                    0 <= self.step,
            ;
        }
        let candidate: i64 = self.x + dir * self.step;
        if candidate < self.left_bound {
            self.x = self.left_bound;
        } else if candidate > self.right_bound {
            self.x = self.right_bound;
        } else {
            self.x = candidate;
        }
    }

    /// Advance one tick per entry of `dirs`, in order.
    pub fn run(&mut self, dirs: &Vec<i64>)
        requires
            old(self).wf(),
            forall|i: int| 0 <= i < dirs@.len() ==> -1 <= #[trigger] dirs@[i] <= 1,
        ensures
            final(self).x == x_after(
                old(self).x as int,
                old(self).step as int,
                old(self).left_bound as int,
                old(self).right_bound as int,
                dirs@,
            ),
            final(self).left_bound == old(self).left_bound,
            final(self).right_bound == old(self).right_bound,
            final(self).step == old(self).step,
            final(self).wf(),
    {
        let ghost start: Paddle = *self;
        let mut i: usize = 0;
        while i < dirs.len()
            invariant
                start.wf(),
                forall|j: int| 0 <= j < dirs@.len() ==> -1 <= #[trigger] dirs@[j] <= 1,
                0 <= i <= dirs@.len(),
                self.left_bound == start.left_bound,
                self.right_bound == start.right_bound,
                self.step == start.step,
                self.wf(),
                self.x == x_after(
                    start.x as int,
                    start.step as int,
                    start.left_bound as int,
                    start.right_bound as int,
                    dirs@.take(i as int),
                ),
            decreases dirs@.len() - i,
        {
            self.tick(dirs[i]);
            proof {
                assert(dirs@.take(i + 1).drop_last() =~= dirs@.take(i as int));
            }
            i = i + 1;
        }
        proof {
            assert(dirs@.take(dirs@.len() as int) =~= dirs@);
        }
    }
}

/// The scaled left bound of the paddle centre: the left wall plus half the
/// wall thickness, half the paddle width, and the padding.
pub open spec fn spec_left_bound(
    params: TickParams,
    left_wall: int,
    wall_thickness: int,
    paddle_width: int,
    padding: int,
) -> int {
    params.scale * left_wall + (params.scale as int / 2) * wall_thickness + (params.scale as int
        / 2) * paddle_width + params.scale * padding
}

/// The scaled right bound of the paddle centre: the right wall minus half the
/// wall thickness, half the paddle width, and the padding — the mirror of the
/// left bound, so the padding holds the paddle off both walls alike.
pub open spec fn spec_right_bound(
    params: TickParams,
    right_wall: int,
    wall_thickness: int,
    paddle_width: int,
    padding: int,
) -> int {
    params.scale * right_wall - (params.scale as int / 2) * wall_thickness - (params.scale as int
        / 2) * paddle_width - params.scale * padding
}

/// Derive the scaled bounds of the paddle centre from the wall positions,
/// the wall thickness, the paddle width and the padding kept from the walls.
pub fn paddle_bounds(
    params: &TickParams,
    left_wall: i64,
    right_wall: i64,
    wall_thickness: i64,
    paddle_width: i64,
    padding: i64,
) -> (r: (i64, i64))
    requires
        params.wf(),
        -UNIT_LIMIT <= left_wall <= UNIT_LIMIT,
        -UNIT_LIMIT <= right_wall <= UNIT_LIMIT,
        -UNIT_LIMIT <= wall_thickness <= UNIT_LIMIT,
        -UNIT_LIMIT <= paddle_width <= UNIT_LIMIT,
        -UNIT_LIMIT <= padding <= UNIT_LIMIT,
    ensures
        r.0 == spec_left_bound(
            *params,
            left_wall as int,
            wall_thickness as int,
            paddle_width as int,
            padding as int,
        ),
        r.1 == spec_right_bound(
            *params,
            right_wall as int,
            wall_thickness as int,
            paddle_width as int,
            padding as int,
        ),
{
    let half_thickness: i64 = params.half_scale_times(wall_thickness);
    let half_width: i64 = params.half_scale_times(paddle_width);
    let scaled_padding: i64 = params.scale_coord(padding);
    let lb: i64 = params.scale_coord(left_wall) + half_thickness + half_width + scaled_padding;
    let rb: i64 = params.scale_coord(right_wall) - half_thickness - half_width - scaled_padding;
    proof {
        assert(lb == params.scale * left_wall + (params.scale as int / 2) * wall_thickness + (
        params.scale as int / 2) * paddle_width + params.scale * padding);
        assert(rb == params.scale * right_wall - (params.scale as int / 2) * wall_thickness - (
        params.scale as int / 2) * paddle_width - params.scale * padding);
    }
    (lb, rb)
}

/// The paddle position after ticks with the given directions, starting from
/// `x0` with per-tick step `step` and bounds `[lo, hi]`: each tick clamps
/// `previous + direction * step` into the bounds.
pub open spec fn x_after(x0: int, step: int, lo: int, hi: int, dirs: Seq<i64>) -> int
    decreases dirs.len(),
{
    if dirs.len() == 0 {
        x0
    } else {
        clamped(x_after(x0, step, lo, hi, dirs.drop_last()) + dirs.last() * step, lo, hi)
    }
}

/// However many ticks run and whatever the inputs, a paddle that starts
/// within its bounds stays within them: clamping re-establishes the
/// invariant every tick.
pub proof fn lemma_paddle_stays_in_bounds(x0: int, step: int, lo: int, hi: int, dirs: Seq<i64>)
    requires
        lo <= x0 <= hi,
    ensures
        lo <= x_after(x0, step, lo, hi, dirs) <= hi,
    decreases dirs.len(),
{
    if dirs.len() > 0 {
        lemma_paddle_stays_in_bounds(x0, step, lo, hi, dirs.drop_last());
    }
}

} // verus!
