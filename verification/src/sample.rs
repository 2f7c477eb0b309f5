//! Sampling a density function at one position, and computing its bounds.
use vstd::prelude::*;

use crate::fixed::{
    fixed_clamp, fixed_max, fixed_min, quotient, sat_abs, sat_add, sat_div, sat_mul, sat_neg,
    scale_blocks, UNIT,
};
use crate::function::{
    BeardifyerFunction, BinaryFunction, BinaryType, BlendAlphaFunction, BlendDensityFunction,
    BlendOffsetFunction, ClampFunction, ConstantFunction, DensityFunction, EndIslandFunction,
    LinearFunction, NoiseFunction, RangeFunction, RarityMapper, ShiftAFunction, ShiftBFunction,
    ShiftedNoiseFunction, SplineFunction, UnaryFunction, UnaryType, WierdScaledFunction,
    WrapperFunction, YClampedFunction,
};
use crate::interface::{lemma_quarter_of_blocks, OffsetDensityFunction};
use crate::noise::{InterpolatedNoiseSampler, Primitives};
use crate::position::{NoisePos, NoisePosImpl};
use crate::semantics::{
    binary_lower, binary_upper, binary_value, clamped_line, cubed, linear_value, rarity_max,
    rarity_value, unary_lower, unary_upper, unary_value, HALF, QUARTER, THREE_QUARTERS,
};

verus! {

/// The cube of a scalar.
pub fn cube_of(v: i64) -> (r: i64)
    ensures
        r == cubed(v as int),
{
    sat_mul(sat_mul(v, v), v)
}

/// Applies a unary operation to a sampled density.
pub fn apply_density(action: UnaryType, density: i64) -> (r: i64)
    ensures
        r == unary_value(action, density as int),
{
    match action {
        UnaryType::Abs => sat_abs(density),
        UnaryType::Square => sat_mul(density, density),
        UnaryType::Cube => cube_of(density),
        UnaryType::HalfNeg => if density < 0 {
            sat_mul(density, HALF)
        } else {
            density
        },
        UnaryType::QuartNeg => if density < 0 {
            sat_mul(density, QUARTER)
        } else {
            density
        },
        UnaryType::Squeeze => {
            let c: i64 = fixed_clamp(density, -UNIT, UNIT);
            let cube: i64 = cube_of(c);
            c / 2 - cube / 24
        },
    }
}

/// The lower bound of a unary operation on inputs between `lo` and `hi`.
pub fn unary_min(action: UnaryType, lo: i64, hi: i64) -> (r: i64)
    ensures
        r == unary_lower(action, lo as int, hi as int),
{
    match action {
        UnaryType::Abs => if lo >= 0 {
            lo
        } else if hi <= 0 {
            sat_abs(hi)
        } else {
            0
        },
        UnaryType::Square => if lo >= 0 {
            sat_mul(lo, lo)
        } else if hi <= 0 {
            sat_mul(hi, hi)
        } else {
            0
        },
        UnaryType::Squeeze => -HALF,
        UnaryType::Cube => apply_density(action, lo),
        UnaryType::HalfNeg => apply_density(action, lo),
        UnaryType::QuartNeg => apply_density(action, lo),
    }
}

/// The upper bound of a unary operation on inputs between `lo` and `hi`.
pub fn unary_max(action: UnaryType, lo: i64, hi: i64) -> (r: i64)
    ensures
        r == unary_upper(action, lo as int, hi as int),
{
    match action {
        UnaryType::Abs => fixed_max(sat_abs(lo), sat_abs(hi)),
        UnaryType::Square => fixed_max(sat_mul(lo, lo), sat_mul(hi, hi)),
        UnaryType::Squeeze => HALF,
        UnaryType::Cube => apply_density(action, hi),
        UnaryType::HalfNeg => apply_density(action, hi),
        UnaryType::QuartNeg => apply_density(action, hi),
    }
}

/// Applies a binary operation to two sampled densities.
pub fn apply_binary(action: BinaryType, a: i64, b: i64) -> (r: i64)
    ensures
        r == binary_value(action, a as int, b as int),
{
    match action {
        BinaryType::Add => sat_add(a, b),
        BinaryType::Mul => sat_mul(a, b),
        BinaryType::Min => fixed_min(a, b),
        BinaryType::Max => fixed_max(a, b),
    }
}

/// The lower bound of a binary operation on arguments within the given bounds.
pub fn binary_min(action: BinaryType, alo: i64, ahi: i64, blo: i64, bhi: i64) -> (r: i64)
    ensures
        r == binary_lower(action, alo as int, ahi as int, blo as int, bhi as int),
{
    match action {
        BinaryType::Add => sat_add(alo, blo),
        BinaryType::Mul => fixed_min(
            fixed_min(sat_mul(alo, blo), sat_mul(alo, bhi)),
            fixed_min(sat_mul(ahi, blo), sat_mul(ahi, bhi)),
        ),
        BinaryType::Min => fixed_min(alo, blo),
        BinaryType::Max => fixed_max(alo, blo),
    }
}

/// The upper bound of a binary operation on arguments within the given bounds.
pub fn binary_max(action: BinaryType, alo: i64, ahi: i64, blo: i64, bhi: i64) -> (r: i64)
    ensures
        r == binary_upper(action, alo as int, ahi as int, blo as int, bhi as int),
{
    match action {
        BinaryType::Add => sat_add(ahi, bhi),
        BinaryType::Mul => fixed_max(
            fixed_max(sat_mul(alo, blo), sat_mul(alo, bhi)),
            fixed_max(sat_mul(ahi, blo), sat_mul(ahi, bhi)),
        ),
        BinaryType::Min => fixed_min(ahi, bhi),
        BinaryType::Max => fixed_max(ahi, bhi),
    }
}

/// `slope * v + offset`.
pub fn apply_linear(slope: i64, offset: i64, v: i64) -> (r: i64)
    ensures
        r == linear_value(slope as int, offset as int, v as int),
{
    sat_add(sat_mul(slope, v), offset)
}

/// A part of a difference, taken in proportion, lies between nothing and the
/// whole difference.
pub proof fn lemma_proportion(delta: int, step: int, span: int)
    requires
        0 < step < span,
    ensures
        delta >= 0 ==> 0 <= quotient(delta * step, span) <= delta,
        delta <= 0 ==> delta <= quotient(delta * step, span) <= 0,
{
    if delta >= 0 {
        assert(0 <= delta * step <= delta * span) by (nonlinear_arith)
            requires
                delta >= 0,
                0 < step < span,
        ;
        assert((delta * step) / span <= delta) by (nonlinear_arith)
            requires
                0 <= delta * step <= delta * span,
                span > 0,
        ;
        assert(0 <= (delta * step) / span) by (nonlinear_arith)
            requires
                0 <= delta * step,
                span > 0,
        ;
    } else {
        let m = -delta;
        assert(delta * step == -(m * step)) by (nonlinear_arith)
            requires
                m == -delta,
        ;
        assert(0 <= m * step <= m * span) by (nonlinear_arith)
            requires
                m >= 0,
                0 < step < span,
        ;
        assert((m * step) / span <= m) by (nonlinear_arith)
            requires
                0 <= m * step <= m * span,
                span > 0,
        ;
        assert(0 <= (m * step) / span) by (nonlinear_arith)
            requires
                0 <= m * step,
                span > 0,
        ;
    }
}

/// Maps a height linearly from `from..to` to `from_val..to_val` and holds the
/// result at the nearer end outside.
pub fn clamped_map(y: i32, from: i32, to: i32, from_val: i64, to_val: i64) -> (r: i64)
    ensures
        r == clamped_line(y as int, from as int, to as int, from_val as int, to_val as int),
{
    let step: i64 = if from <= to {
        y as i64 - from as i64
    } else {
        from as i64 - y as i64
    };
    let span: i64 = if from <= to {
        to as i64 - from as i64
    } else {
        from as i64 - to as i64
    };
    if step <= 0 {
        from_val
    } else if step >= span {
        to_val
    } else {
        let delta: i128 = to_val as i128 - from_val as i128;
        proof {
            lemma_proportion(delta as int, step as int, span as int);
            assert(-0x1_0000_0000_0000_0000_0000_0000 <= delta * step
                <= 0x1_0000_0000_0000_0000_0000_0000) by (nonlinear_arith)
                requires
                    -0x1_0000_0000_0000_0000 <= delta <= 0x1_0000_0000_0000_0000,
                    0 < step <= 0x1_0000_0000,
            ;
        }
        let part: i128 = (delta * (step as i128)) / (span as i128);
        (from_val as i128 + part) as i64
    }
}

/// The scale that a rarity map assigns to a modulator's sample.
pub fn rarity_scale(rarity: RarityMapper, v: i64) -> (r: i64)
    ensures
        r == rarity_value(rarity, v as int),
        r > 0,
{
    match rarity {
        RarityMapper::Tunnels => if v < -HALF {
            THREE_QUARTERS
        } else if v < 0 {
            UNIT
        } else if v < HALF {
            UNIT + HALF
        } else {
            2 * UNIT
        },
        RarityMapper::Caves => if v < -THREE_QUARTERS {
            HALF
        } else if v < -HALF {
            THREE_QUARTERS
        } else if v < HALF {
            UNIT
        } else if v < THREE_QUARTERS {
            2 * UNIT
        } else {
            3 * UNIT
        },
    }
}

/// The greatest scale that a rarity map assigns.
pub fn rarity_max_scale(rarity: RarityMapper) -> (r: i64)
    ensures
        r == rarity_max(rarity),
{
    match rarity {
        RarityMapper::Tunnels => 2 * UNIT,
        RarityMapper::Caves => 3 * UNIT,
    }
}

impl ConstantFunction {
    pub fn sample(&self, _pos: &NoisePos) -> (r: i64)
        ensures
            r == self.value,
    {
        self.value
    }

    pub fn min(&self) -> (r: i64)
        ensures
            r == self.value,
    {
        self.value
    }

    pub fn max(&self) -> (r: i64)
        ensures
            r == self.value,
    {
        self.value
    }
}

impl BeardifyerFunction {
    pub fn sample(&self, _pos: &NoisePos) -> (r: i64)
        ensures
            r == 0,
    {
        0
    }

    pub fn min(&self) -> (r: i64)
        ensures
            r == 0,
    {
        0
    }

    pub fn max(&self) -> (r: i64)
        ensures
            r == 0,
    {
        0
    }
}

impl YClampedFunction {
    pub fn sample(&self, pos: &NoisePos) -> (r: i64)
        ensures
            r == clamped_line(
                pos.block().y,
                self.from as int,
                self.to as int,
                self.from_val as int,
                self.to_val as int,
            ),
    {
        clamped_map(pos.y(), self.from, self.to, self.from_val, self.to_val)
    }

    pub fn min(&self) -> (r: i64)
        ensures
            r == crate::fixed::lesser(self.from_val as int, self.to_val as int),
    {
        fixed_min(self.from_val, self.to_val)
    }

    pub fn max(&self) -> (r: i64)
        ensures
            r == crate::fixed::greater(self.from_val as int, self.to_val as int),
    {
        fixed_max(self.from_val, self.to_val)
    }
}

impl BlendAlphaFunction {
    pub fn sample(&self, pos: &NoisePos) -> (r: i64)
        ensures
            r == UNIT,
    {
        pos.get_blender().apply_blend_alpha()
    }
}

impl BlendOffsetFunction {
    pub fn sample(&self, pos: &NoisePos) -> (r: i64)
        ensures
            r == 0,
    {
        pos.get_blender().apply_blend_offset()
    }
}

impl BlendDensityFunction {
    pub fn sample<P: Primitives>(&self, pos: &NoisePos, env: &P) -> (r: i64)
        ensures
            r == self.function.value(env, pos.block()),
        decreases self,
    {
        let density: i64 = self.function.sample(pos, env);
        pos.get_blender().apply_blend_density(density)
    }
}

impl ClampFunction {
    pub fn sample<P: Primitives>(&self, pos: &NoisePos, env: &P) -> (r: i64)
        ensures
            r == DensityFunction::Clamp(*self).value(env, pos.block()),
        decreases self,
    {
        fixed_clamp(self.input.sample(pos, env), self.min, self.max)
    }
}

impl UnaryFunction {
    pub fn sample<P: Primitives>(&self, pos: &NoisePos, env: &P) -> (r: i64)
        ensures
            r == DensityFunction::Unary(*self).value(env, pos.block()),
        decreases self,
    {
        apply_density(self.action, self.input.sample(pos, env))
    }
}

impl LinearFunction {
    pub fn sample<P: Primitives>(&self, pos: &NoisePos, env: &P) -> (r: i64)
        ensures
            r == DensityFunction::Linear(*self).value(env, pos.block()),
        decreases self,
    {
        apply_linear(self.slope, self.offset, self.input.sample(pos, env))
    }
}

impl BinaryFunction {
    pub fn sample<P: Primitives>(&self, pos: &NoisePos, env: &P) -> (r: i64)
        ensures
            r == DensityFunction::Binary(*self).value(env, pos.block()),
        decreases self,
    {
        let a: i64 = self.arg1.sample(pos, env);
        let b: i64 = self.arg2.sample(pos, env);
        apply_binary(self.action, a, b)
    }
}

impl NoiseFunction {
    pub fn sample<P: Primitives>(&self, pos: &NoisePos, env: &P) -> (r: i64)
        ensures
            r == DensityFunction::Noise(*self).value(env, pos.block()),
    {
        env.sample_noise(
            &self.noise,
            scale_blocks(pos.x(), self.xz_scale),
            scale_blocks(pos.y(), self.y_scale),
            scale_blocks(pos.z(), self.xz_scale),
        )
    }
}

impl ShiftAFunction {
    pub fn sample<P: Primitives>(&self, pos: &NoisePos, env: &P) -> (r: i64)
        ensures
            r == DensityFunction::ShiftA(*self).value(env, pos.block()),
    {
        let x: i32 = pos.x();
        let z: i32 = pos.z();
        proof {
            lemma_quarter_of_blocks(x as int);
            lemma_quarter_of_blocks(z as int);
        }
        self.sample_3d(scale_blocks(x, UNIT), 0, scale_blocks(z, UNIT), env)
    }
}

impl ShiftBFunction {
    pub fn sample<P: Primitives>(&self, pos: &NoisePos, env: &P) -> (r: i64)
        ensures
            r == DensityFunction::ShiftB(*self).value(env, pos.block()),
    {
        let x: i32 = pos.x();
        let z: i32 = pos.z();
        proof {
            lemma_quarter_of_blocks(x as int);
            lemma_quarter_of_blocks(z as int);
        }
        self.sample_3d(scale_blocks(x, UNIT), scale_blocks(z, UNIT), 0, env)
    }
}

impl ShiftedNoiseFunction {
    pub fn sample<P: Primitives>(&self, pos: &NoisePos, env: &P) -> (r: i64)
        ensures
            r == DensityFunction::ShiftedNoise(*self).value(env, pos.block()),
        decreases self,
    {
        let x: i64 = sat_add(scale_blocks(pos.x(), self.xz_scale), self.shift_x.sample(pos, env));
        let y: i64 = sat_add(scale_blocks(pos.y(), self.y_scale), self.shift_y.sample(pos, env));
        let z: i64 = sat_add(scale_blocks(pos.z(), self.xz_scale), self.shift_z.sample(pos, env));
        env.sample_noise(&self.noise, x, y, z)
    }
}

impl SplineFunction {
    pub fn sample<P: Primitives>(&self, pos: &NoisePos, env: &P) -> (r: i64)
        ensures
            r == DensityFunction::Spline(*self).value(env, pos.block()),
        decreases self,
    {
        let continents: i64 = self.spline.continents.sample(pos, env);
        let erosion: i64 = self.spline.erosion.sample(pos, env);
        let ridges: i64 = self.spline.ridges.sample(pos, env);
        let ridges_folded: Option<i64> = match &self.spline.ridges_folded {
            Some(folded) => Some(folded.sample(pos, env)),
            None => None,
        };
        env.eval_spline(
            self.spline.shape,
            self.spline.amplified,
            continents,
            erosion,
            ridges,
            ridges_folded,
        )
    }
}

impl EndIslandFunction {
    pub fn sample<P: Primitives>(&self, pos: &NoisePos, env: &P) -> (r: i64)
        ensures
            r == DensityFunction::EndIsland(*self).value(env, pos.block()),
    {
        env.sample_end_island(self.seed, pos.x(), pos.y(), pos.z())
    }
}

impl WierdScaledFunction {
    pub fn sample<P: Primitives>(&self, pos: &NoisePos, env: &P) -> (r: i64)
        ensures
            r == DensityFunction::Wierd(*self).value(env, pos.block()),
        decreases self,
    {
        let scale: i64 = rarity_scale(self.rarity, self.input.sample(pos, env));
        let x: i64 = sat_div(scale_blocks(pos.x(), UNIT), scale);
        let y: i64 = sat_div(scale_blocks(pos.y(), UNIT), scale);
        let z: i64 = sat_div(scale_blocks(pos.z(), UNIT), scale);
        sat_mul(scale, env.sample_noise(&self.noise, x, y, z))
    }
}

impl RangeFunction {
    pub fn sample<P: Primitives>(&self, pos: &NoisePos, env: &P) -> (r: i64)
        ensures
            r == DensityFunction::Range(*self).value(env, pos.block()),
            r == if self.min <= self.input.value(env, pos.block()) < self.max {
                self.in_range.value(env, pos.block())
            } else {
                self.out_range.value(env, pos.block())
            },
        decreases self,
    {
        let d: i64 = self.input.sample(pos, env);
        if d >= self.min && d < self.max {
            self.in_range.sample(pos, env)
        } else {
            self.out_range.sample(pos, env)
        }
    }
}

impl RangeFunction {
    pub fn min<P: Primitives>(&self, env: &P) -> (r: i64)
        ensures
            r == crate::fixed::lesser(self.in_range.lower(env), self.out_range.lower(env)),
        decreases self,
    {
        fixed_min(self.in_range.min(env), self.out_range.min(env))
    }

    pub fn max<P: Primitives>(&self, env: &P) -> (r: i64)
        ensures
            r == crate::fixed::greater(self.in_range.upper(env), self.out_range.upper(env)),
        decreases self,
    {
        fixed_max(self.in_range.max(env), self.out_range.max(env))
    }
}

impl WrapperFunction {
    pub fn sample<P: Primitives>(&self, pos: &NoisePos, env: &P) -> (r: i64)
        ensures
            r == self.input.value(env, pos.block()),
        decreases self,
    {
        self.input.sample(pos, env)
    }

    pub fn min<P: Primitives>(&self, env: &P) -> (r: i64)
        ensures
            r == self.input.lower(env),
        decreases self,
    {
        self.input.min(env)
    }

    pub fn max<P: Primitives>(&self, env: &P) -> (r: i64)
        ensures
            r == self.input.upper(env),
        decreases self,
    {
        self.input.max(env)
    }
}

impl DensityFunction {
    /// The density at one position.
    pub fn sample<P: Primitives>(&self, pos: &NoisePos, env: &P) -> (r: i64)
        ensures
            r == self.value(env, pos.block()),
        decreases self,
    {
        match self {
            DensityFunction::Clamp(f) => f.sample(pos, env),
            DensityFunction::Unary(f) => f.sample(pos, env),
            DensityFunction::Noise(f) => f.sample(pos, env),
            DensityFunction::ShiftA(f) => f.sample(pos, env),
            DensityFunction::ShiftB(f) => f.sample(pos, env),
            DensityFunction::ShiftedNoise(f) => f.sample(pos, env),
            DensityFunction::Spline(f) => f.sample(pos, env),
            DensityFunction::Constant(f) => f.sample(pos),
            DensityFunction::Linear(f) => f.sample(pos, env),
            DensityFunction::Binary(f) => f.sample(pos, env),
            DensityFunction::BlendOffset(f) => f.sample(pos),
            DensityFunction::BlendAlpha(f) => f.sample(pos),
            DensityFunction::BlendDensity(f) => f.sample(pos, env),
            DensityFunction::ClampedY(f) => f.sample(pos),
            DensityFunction::InterpolatedNoise(f) => env.sample_interpolated(
                f,
                pos.x(),
                pos.y(),
                pos.z(),
            ),
            DensityFunction::EndIsland(f) => f.sample(pos, env),
            DensityFunction::Wierd(f) => f.sample(pos, env),
            DensityFunction::Range(f) => f.sample(pos, env),
            DensityFunction::Wrapper(f) => f.sample(pos, env),
            DensityFunction::ChunkCacheFlatCache(f) => f.input.sample(pos, env),
            DensityFunction::ChunkCacheInterpolator(f) => f.sample(pos, env),
            DensityFunction::ChunkCacheCellCache(f) => f.input.sample(pos, env),
            DensityFunction::ChunkCache2DCache(f) => f.input.sample(pos, env),
            DensityFunction::ChunkCacheOnceCache(f) => f.input.sample(pos, env),
            DensityFunction::ChunkCacheBlendAlpha(_) => pos.get_blender().apply_blend_alpha(),
            DensityFunction::ChunkCacheBlendOffset(_) => pos.get_blender().apply_blend_offset(),
            DensityFunction::Beardifyer(f) => f.sample(pos),
        }
    }

    /// The static lower bound: no sample lies below it.
    pub fn min<P: Primitives>(&self, env: &P) -> (r: i64)
        ensures
            r == self.lower(env),
        decreases self,
    {
        match self {
            DensityFunction::Clamp(f) => fixed_min(f.min, f.max),
            DensityFunction::Unary(f) => unary_min(f.action, f.input.min(env), f.input.max(env)),
            DensityFunction::Noise(f) => {
                proof {
                    env.lemma_noise_bounded(&*f.noise, 0, 0, 0);
                }
                -env.noise_max_value(&f.noise)
            },
            DensityFunction::ShiftA(f) => {
                proof {
                    env.lemma_noise_bounded(&*f.offset, 0, 0, 0);
                }
                sat_mul(-env.noise_max_value(&f.offset), 4 * UNIT)
            },
            DensityFunction::ShiftB(f) => {
                proof {
                    env.lemma_noise_bounded(&*f.offset, 0, 0, 0);
                }
                sat_mul(-env.noise_max_value(&f.offset), 4 * UNIT)
            },
            DensityFunction::ShiftedNoise(f) => {
                proof {
                    env.lemma_noise_bounded(&*f.noise, 0, 0, 0);
                }
                -env.noise_max_value(&f.noise)
            },
            DensityFunction::Spline(f) => env.spline_min(f.spline.shape, f.spline.amplified),
            DensityFunction::Constant(f) => f.min(),
            DensityFunction::Linear(f) => if f.slope >= 0 {
                apply_linear(f.slope, f.offset, f.input.min(env))
            } else {
                apply_linear(f.slope, f.offset, f.input.max(env))
            },
            DensityFunction::Binary(f) => binary_min(
                f.action,
                f.arg1.min(env),
                f.arg1.max(env),
                f.arg2.min(env),
                f.arg2.max(env),
            ),
            DensityFunction::BlendOffset(_) => 0,
            DensityFunction::BlendAlpha(_) => UNIT,
            DensityFunction::BlendDensity(f) => f.function.min(env),
            DensityFunction::ClampedY(f) => f.min(),
            DensityFunction::InterpolatedNoise(f) => {
                proof {
                    env.lemma_interpolated_bounded(*f, 0, 0, 0);
                }
                -env.interpolated_max_value(f)
            },
            DensityFunction::EndIsland(f) => env.end_island_min(f.seed),
            DensityFunction::Wierd(f) => {
                proof {
                    env.lemma_noise_bounded(&*f.noise, 0, 0, 0);
                }
                sat_mul(rarity_max_scale(f.rarity), -env.noise_max_value(&f.noise))
            },
            DensityFunction::Range(f) => f.min(env),
            DensityFunction::Wrapper(f) => f.min(env),
            DensityFunction::ChunkCacheFlatCache(f) => f.input.min(env),
            DensityFunction::ChunkCacheInterpolator(f) => f.input.min(env),
            DensityFunction::ChunkCacheCellCache(f) => f.input.min(env),
            DensityFunction::ChunkCache2DCache(f) => f.input.min(env),
            DensityFunction::ChunkCacheOnceCache(f) => f.input.min(env),
            DensityFunction::ChunkCacheBlendAlpha(_) => UNIT,
            DensityFunction::ChunkCacheBlendOffset(_) => 0,
            DensityFunction::Beardifyer(f) => f.min(),
        }
    }

    /// The static upper bound: no sample lies above it.
    pub fn max<P: Primitives>(&self, env: &P) -> (r: i64)
        ensures
            r == self.upper(env),
        decreases self,
    {
        match self {
            DensityFunction::Clamp(f) => fixed_max(f.min, f.max),
            DensityFunction::Unary(f) => unary_max(f.action, f.input.min(env), f.input.max(env)),
            DensityFunction::Noise(f) => env.noise_max_value(&f.noise),
            DensityFunction::ShiftA(f) => sat_mul(env.noise_max_value(&f.offset), 4 * UNIT),
            DensityFunction::ShiftB(f) => sat_mul(env.noise_max_value(&f.offset), 4 * UNIT),
            DensityFunction::ShiftedNoise(f) => env.noise_max_value(&f.noise),
            DensityFunction::Spline(f) => env.spline_max(f.spline.shape, f.spline.amplified),
            DensityFunction::Constant(f) => f.max(),
            DensityFunction::Linear(f) => if f.slope >= 0 {
                apply_linear(f.slope, f.offset, f.input.max(env))
            } else {
                apply_linear(f.slope, f.offset, f.input.min(env))
            },
            DensityFunction::Binary(f) => binary_max(
                f.action,
                f.arg1.min(env),
                f.arg1.max(env),
                f.arg2.min(env),
                f.arg2.max(env),
            ),
            DensityFunction::BlendOffset(_) => 0,
            DensityFunction::BlendAlpha(_) => UNIT,
            DensityFunction::BlendDensity(f) => f.function.max(env),
            DensityFunction::ClampedY(f) => f.max(),
            DensityFunction::InterpolatedNoise(f) => env.interpolated_max_value(f),
            DensityFunction::EndIsland(f) => env.end_island_max(f.seed),
            DensityFunction::Wierd(f) => sat_mul(
                rarity_max_scale(f.rarity),
                env.noise_max_value(&f.noise),
            ),
            DensityFunction::Range(f) => f.max(env),
            DensityFunction::Wrapper(f) => f.max(env),
            DensityFunction::ChunkCacheFlatCache(f) => f.input.max(env),
            DensityFunction::ChunkCacheInterpolator(f) => f.input.max(env),
            DensityFunction::ChunkCacheCellCache(f) => f.input.max(env),
            DensityFunction::ChunkCache2DCache(f) => f.input.max(env),
            DensityFunction::ChunkCacheOnceCache(f) => f.input.max(env),
            DensityFunction::ChunkCacheBlendAlpha(_) => UNIT,
            DensityFunction::ChunkCacheBlendOffset(_) => 0,
            DensityFunction::Beardifyer(f) => f.max(),
        }
    }
}

} // verus!
