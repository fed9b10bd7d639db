//! Ball motion: linear velocity integration per fixed tick.
//!
//! The ball's velocity is given as a displacement per tick in scaled units
//! (that is, `velocity * dt * scale`, computed exactly by the caller, for
//! instance with [`crate::timestep::TickParams::scaled_per_tick`]). Each tick
//! adds it to the position, so the motion is exact: after `n` ticks the
//! position is the start plus `n` times the per-tick displacement, with no
//! drift. Collision response is not part of this model.

use vstd::prelude::*;

verus! {

/// The ball: a position and a constant velocity, both in scaled units; the
/// velocity is the displacement one tick adds.
#[derive(Clone, Copy, Debug, PartialEq, Eq, Structural)]
pub struct Ball {
    /// Scaled x position.
    pub x: i64,
    /// Scaled y position.
    pub y: i64,
    /// Scaled x displacement per tick.
    pub vx: i64,
    /// Scaled y displacement per tick.
    pub vy: i64,
}

/// The position after `n` ticks of adding `v`, one tick at a time.
pub open spec fn pos_after_ticks(start: int, v: int, n: nat) -> int
    decreases n,
{
    if n == 0 {
        start
    } else {
        pos_after_ticks(start, v, (n - 1) as nat) + v
    }
}

/// Integration is linear and drift-free: ticking `n` times from `start` with
/// constant per-tick displacement `v` lands exactly on `start + v * n`.
pub proof fn lemma_linear_motion(start: int, v: int, n: nat)
    ensures
        pos_after_ticks(start, v, n) == start + v * n,
    decreases n,
{
    if n == 0 {
        assert(v * n == 0) by (nonlinear_arith)
            requires
                n == 0,
        ;
    } else {
        lemma_linear_motion(start, v, (n - 1) as nat);
        assert(v * n == v * (n - 1) + v) by (nonlinear_arith)
            requires
                n >= 1,
        ;
    }
}

impl Ball {
    /// A ball at the given scaled position with the given scaled per-tick
    /// velocity.
    pub fn new(x: i64, y: i64, vx: i64, vy: i64) -> (b: Ball)
        ensures
            b == (Ball { x, y, vx, vy }),
    {
        Ball { x, y, vx, vy }
    }

    /// Advance one tick: add the per-tick velocity to the position. The
    /// bounds asked of the caller say only that the new position fits `i64`.
    pub fn tick(&mut self)
        requires
            i64::MIN <= old(self).x + old(self).vx <= i64::MAX,
            i64::MIN <= old(self).y + old(self).vy <= i64::MAX,
        ensures
            final(self).x == old(self).x + old(self).vx,
            final(self).y == old(self).y + old(self).vy,
            final(self).vx == old(self).vx,
            final(self).vy == old(self).vy,
    {
        self.x = self.x + self.vx;
        self.y = self.y + self.vy;
    }

    /// Advance `n` ticks. The bounds asked of the caller say that the final
    /// position fits `i64`; every intermediate position then lies between
    /// the start and the end, so none overflows.
    pub fn fly(&mut self, n: u64)
        requires
            i64::MIN <= old(self).x + n * old(self).vx <= i64::MAX,
            i64::MIN <= old(self).y + n * old(self).vy <= i64::MAX,
        ensures
            final(self).x == old(self).x + n * old(self).vx,
            final(self).y == old(self).y + n * old(self).vy,
            final(self).x == pos_after_ticks(old(self).x as int, old(self).vx as int, n as nat),
            final(self).y == pos_after_ticks(old(self).y as int, old(self).vy as int, n as nat),
            final(self).vx == old(self).vx,
            final(self).vy == old(self).vy,
    {
        let ghost start: Ball = *self;
        let mut i: u64 = 0;
        while i < n
            invariant
                0 <= i <= n,
                self.vx == start.vx,
                self.vy == start.vy,
                self.x == start.x + i * start.vx,
                self.y == start.y + i * start.vy,
                i64::MIN <= start.x + n * start.vx <= i64::MAX,
                i64::MIN <= start.y + n * start.vy <= i64::MAX,
            decreases n - i,
        {
            proof {
                lemma_step_between(start.x as int, start.vx as int, i as int, n as int);
                lemma_step_between(start.y as int, start.vy as int, i as int, n as int);
            }
            self.x = self.x + self.vx;
            self.y = self.y + self.vy;
            i = i + 1;
        }
        proof {
            lemma_linear_motion(start.x as int, start.vx as int, n as nat);
            lemma_linear_motion(start.y as int, start.vy as int, n as nat);
        }
    }
}

/// For `0 <= i < n`, the position after `i + 1` steps of `v` lies between
/// the start and the position after `n` steps, whichever order those are in.
/// This keeps every intermediate position of a bounded flight within bounds.
proof fn lemma_step_between(start: int, v: int, i: int, n: int)
    requires
        0 <= i < n,
    ensures
        start + i * v + v == start + (i + 1) * v,
        v >= 0 ==> start + i * v + v <= start + n * v,
        v < 0 ==> start + i * v + v >= start + n * v,
        v >= 0 ==> start + i * v + v >= start,
        v < 0 ==> start + i * v + v <= start,
{
    assert((i + 1) * v == i * v + v) by (nonlinear_arith);
    if v >= 0 {
        assert((i + 1) * v <= n * v && i * v + v >= 0) by (nonlinear_arith)
            requires
                0 <= i < n,
                v >= 0,
        ;
    } else {
        assert((i + 1) * v >= n * v && i * v + v <= 0) by (nonlinear_arith)
            requires
                0 <= i < n,
                v < 0,
        ;
    }
}

} // verus!
