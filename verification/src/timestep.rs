//! Scale and tick-duration parameters.
//!
//! All positions the simulation stores are integers in *scaled units*: a real
//! coordinate `c` is stored as `c * scale`. The tick duration is the rational
//! `dt_num / dt_den` time units. Validation demands that `scale` is even and
//! that `dt_den` divides `scale`; every halving and every per-tick
//! displacement the simulation forms is then exact in scaled units.

use vstd::prelude::*;

use crate::ConfigError;
use crate::SCALE_LIMIT;
use crate::TIME_LIMIT;
use crate::UNIT_LIMIT;

verus! {

/// The fixed-timestep parameters: coordinate scale and tick duration.
#[derive(Clone, Copy, Debug, PartialEq, Eq, Structural)]
pub struct TickParams {
    /// Scaled units per unscaled coordinate unit. Even, positive.
    pub scale: u32,
    /// Tick duration numerator, in time units. Positive.
    pub dt_num: u32,
    /// Tick duration denominator. Positive, divides `scale`.
    pub dt_den: u32,
}

impl TickParams {
    /// The validity invariant every constructed `TickParams` satisfies.
    pub open spec fn wf(self) -> bool {
        &&& 0 < self.scale <= SCALE_LIMIT
        &&& self.scale % 2 == 0
        &&& 0 < self.dt_num <= TIME_LIMIT
        &&& 0 < self.dt_den <= TIME_LIMIT
        &&& self.scale % self.dt_den == 0
    }

    /// What `new` returns: the first failed check, else the parameters.
    pub open spec fn spec_new(scale: u32, dt_num: u32, dt_den: u32) -> Result<
        TickParams,
        ConfigError,
    > {
        if scale == 0 {
            Err(ConfigError::ScaleZero)
        } else if scale > SCALE_LIMIT {
            Err(ConfigError::ScaleTooLarge)
        } else if scale % 2 != 0 {
            Err(ConfigError::ScaleOdd)
        } else if dt_num == 0 {
            Err(ConfigError::DtNumZero)
        } else if dt_num > TIME_LIMIT {
            Err(ConfigError::DtNumTooLarge)
        } else if dt_den == 0 {
            Err(ConfigError::DtDenZero)
        } else if dt_den > TIME_LIMIT {
            Err(ConfigError::DtDenTooLarge)
        } else if scale % dt_den != 0 {
            Err(ConfigError::DtDenNotDividingScale)
        } else {
            Ok(TickParams { scale, dt_num, dt_den })
        }
    }

    /// Validate the raw parameters. Succeeds exactly on well-formed input.
    pub fn new(scale: u32, dt_num: u32, dt_den: u32) -> (r: Result<TickParams, ConfigError>)
        ensures
            r == Self::spec_new(scale, dt_num, dt_den),
            (r is Ok) <==> (TickParams { scale, dt_num, dt_den }).wf(),
            (r matches Ok(p) ==> p == (TickParams { scale, dt_num, dt_den })),
    {
        if scale == 0 {
            Err(ConfigError::ScaleZero)
        } else if scale > SCALE_LIMIT {
            Err(ConfigError::ScaleTooLarge)
        } else if scale % 2 != 0 {
            Err(ConfigError::ScaleOdd)
        } else if dt_num == 0 {
            Err(ConfigError::DtNumZero)
        } else if dt_num > TIME_LIMIT {
            Err(ConfigError::DtNumTooLarge)
        } else if dt_den == 0 {
            Err(ConfigError::DtDenZero)
        } else if dt_den > TIME_LIMIT {
            Err(ConfigError::DtDenTooLarge)
        } else if scale % dt_den != 0 {
            Err(ConfigError::DtDenNotDividingScale)
        } else {
            Ok(TickParams { scale, dt_num, dt_den })
        }
    }

    /// `scale / dt_den`, exact by the invariant: the number of scaled units
    /// one coordinate unit spans per tick-duration denominator.
    pub open spec fn scale_per_den(self) -> int {
        self.scale as int / self.dt_den as int
    }

    /// A coordinate or span taken to scaled units: `v * scale`. Accepts a few
    /// multiples of `UNIT_LIMIT`, since spans derived from raw inputs (an
    /// arena width, a grid bottom edge) sum a handful of them.
    pub fn scale_coord(&self, v: i64) -> (r: i64)
        requires
            self.wf(),
            -8 * UNIT_LIMIT <= v <= 8 * UNIT_LIMIT,
        ensures
            r == v * self.scale,
            -8 * UNIT_LIMIT * SCALE_LIMIT <= r <= 8 * UNIT_LIMIT * SCALE_LIMIT,
    {
        proof {
            assert(-8 * (UNIT_LIMIT as int) * (SCALE_LIMIT as int) <= v * self.scale <= 8 * (
            UNIT_LIMIT as int) * (SCALE_LIMIT as int)) by (nonlinear_arith)
                requires
                    -8 * UNIT_LIMIT <= v <= 8 * UNIT_LIMIT,
                    0 < self.scale <= SCALE_LIMIT,
            ;
        }
        v * (self.scale as i64)
    }

    /// Half the scale times `v`: the exact scaled form of `v / 2`, used for
    /// half brick sizes, half spans and half thicknesses. Exact because the
    /// scale is even.
    pub fn half_scale_times(&self, v: i64) -> (r: i64)
        requires
            self.wf(),
            -8 * UNIT_LIMIT <= v <= 8 * UNIT_LIMIT,
        ensures
            r == (self.scale as int / 2) * v,
            2 * r == self.scale * v,
            -8 * UNIT_LIMIT * SCALE_LIMIT <= r <= 8 * UNIT_LIMIT * SCALE_LIMIT,
    {
        let half: i64 = (self.scale / 2) as i64;
        proof {
            assert(self.scale as int / 2 <= SCALE_LIMIT as int / 2);
            assert(-(SCALE_LIMIT as int) * 8 * (UNIT_LIMIT as int) <= (self.scale as int / 2) * v
                <= (SCALE_LIMIT as int) * 8 * (UNIT_LIMIT as int)) by (nonlinear_arith)
                requires
                    -8 * UNIT_LIMIT <= v <= 8 * UNIT_LIMIT,
                    0 <= self.scale as int / 2 <= SCALE_LIMIT,
            ;
            assert(2 * ((self.scale as int / 2) * v) == self.scale * v) by (nonlinear_arith)
                requires
                    self.scale % 2 == 0,
                    2 * (self.scale as int / 2) == self.scale,
            ;
            assert(2 * (self.scale as int / 2) == self.scale);
        }
        half * v
    }

    /// The displacement per tick, in scaled units, of a body moving at `v`
    /// unscaled units per time unit: `v * dt_num * (scale / dt_den)`. By the
    /// invariant this equals `v * (dt_num / dt_den) * scale` exactly.
    pub fn scaled_per_tick(&self, v: i64) -> (r: i64)
        requires
            self.wf(),
            -UNIT_LIMIT <= v <= UNIT_LIMIT,
        ensures
            r == v * self.dt_num * self.scale_per_den(),
            -UNIT_LIMIT * TIME_LIMIT * SCALE_LIMIT <= r <= UNIT_LIMIT * TIME_LIMIT * SCALE_LIMIT,
    {
        let q: i64 = (self.scale / self.dt_den) as i64;
        proof {
            let qi: int = self.scale as int / self.dt_den as int;
            vstd::arithmetic::div_mod::lemma_fundamental_div_mod(
                self.scale as int,
                self.dt_den as int,
            );
            assert(self.scale == self.dt_den * qi);
            assert(0 < qi <= SCALE_LIMIT) by (nonlinear_arith)
                requires
                    self.scale == self.dt_den * qi,
                    0 < self.dt_den,
                    0 < self.scale <= SCALE_LIMIT,
            ;
            assert(0 < self.scale as int / self.dt_den as int <= SCALE_LIMIT);
            assert(-(UNIT_LIMIT as int) * (TIME_LIMIT as int) <= v * self.dt_num <= (
            UNIT_LIMIT as int) * (TIME_LIMIT as int)) by (nonlinear_arith)
                requires
                    -UNIT_LIMIT <= v <= UNIT_LIMIT,
                    0 < self.dt_num <= TIME_LIMIT,
            ;
            assert(-(UNIT_LIMIT as int) * (TIME_LIMIT as int) * (SCALE_LIMIT as int) <= (v
                * self.dt_num) * (self.scale as int / self.dt_den as int) <= (UNIT_LIMIT as int) * (
            TIME_LIMIT as int) * (SCALE_LIMIT as int)) by (nonlinear_arith)
                requires
                    -(UNIT_LIMIT as int) * (TIME_LIMIT as int) <= v * self.dt_num <= (
                    UNIT_LIMIT as int) * (TIME_LIMIT as int),
                    0 < self.scale as int / self.dt_den as int <= SCALE_LIMIT,
            ;
        }
        v * (self.dt_num as i64) * q
    }
}

} // verus!
