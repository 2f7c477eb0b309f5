//! The interface that every node kind shares.
use std::sync::Arc;
use vstd::prelude::*;

use crate::applier::{Applier, ApplierImpl};
use crate::fixed::{lemma_quotient_exact, sat_mul, scaled, times, UNIT};
use crate::function::{
    BeardifyerFunction, BinaryFunction, BlendAlphaDensityFunction, BlendAlphaFunction,
    BlendDensityFunction, BlendOffsetDensityFunction, BlendOffsetFunction,
    Cache2DDensityFunction, CacheOnceDensityFunction, CellCacheDensityFunctionWrapper,
    ClampFunction, ConstantFunction, DensityFunction, EndIslandFunction,
    FlatCacheDensityFunction, InterpolatorDensityFunctionWrapper, LinearFunction, NoiseFunction,
    RangeFunction, ShiftAFunction, ShiftBFunction, ShiftedNoiseFunction, SplineFunction,
    UnaryFunction, WierdScaledFunction, WrapperFunction, YClampedFunction,
};
use crate::noise::{InternalNoise, InterpolatedNoiseSampler, Primitives};
use crate::position::NoisePos;
use crate::position::NoisePosImpl;
use crate::sample::apply_density;
use crate::semantics::{unary_value, QUARTER};
use crate::visitor::Visitor;

verus! {

/// What every node kind offers: a sample at one position, a bulk fill, a
/// rewrite by a visitor, and static bounds.
pub trait DensityFunctionImpl {
    /// This node as a density function.
    spec fn function(&self) -> DensityFunction;

    fn sample<P: Primitives>(&self, pos: &NoisePos, env: &P) -> (r: i64)
        ensures
            r == self.function().value(env, pos.block()),
    ;

    fn fill<P: Primitives>(&self, densities: &mut Vec<i64>, applier: &Applier, env: &P)
        requires
            old(densities).len() <= applier.len(),
        ensures
            final(densities).len() == old(densities).len(),
            forall|i: int|
                0 <= i < final(densities).len() ==> #[trigger] final(densities)[i]
                    == self.function().value(env, applier.position(i)),
    ;

    fn apply(&self, visitor: &Visitor) -> (result: Arc<DensityFunction>)
        ensures
            *result == self.function().rewrite(visitor),
    ;

    fn min<P: Primitives>(&self, env: &P) -> (r: i64)
        ensures
            r == self.function().lower(env),
    ;

    fn max<P: Primitives>(&self, env: &P) -> (r: i64)
        ensures
            r == self.function().upper(env),
    ;
}

impl DensityFunctionImpl for DensityFunction {
    open spec fn function(&self) -> DensityFunction {
        *self
    }

    fn sample<P: Primitives>(&self, pos: &NoisePos, env: &P) -> (r: i64) {
        DensityFunction::sample(self, pos, env)
    }

    fn fill<P: Primitives>(&self, densities: &mut Vec<i64>, applier: &Applier, env: &P) {
        DensityFunction::fill(self, densities, applier, env)
    }

    fn apply(&self, visitor: &Visitor) -> (result: Arc<DensityFunction>) {
        DensityFunction::apply(self, visitor)
    }

    fn min<P: Primitives>(&self, env: &P) -> (r: i64) {
        DensityFunction::min(self, env)
    }

    fn max<P: Primitives>(&self, env: &P) -> (r: i64) {
        DensityFunction::max(self, env)
    }
}

impl DensityFunctionImpl for ClampFunction {
    open spec fn function(&self) -> DensityFunction {
        DensityFunction::Clamp(*self)
    }

    fn sample<P: Primitives>(&self, pos: &NoisePos, env: &P) -> (r: i64) {
        DensityFunction::Clamp(self.clone()).sample(pos, env)
    }

    fn fill<P: Primitives>(&self, densities: &mut Vec<i64>, applier: &Applier, env: &P) {
        DensityFunction::Clamp(self.clone()).fill(densities, applier, env)
    }

    fn apply(&self, visitor: &Visitor) -> (result: Arc<DensityFunction>) {
        DensityFunction::Clamp(self.clone()).apply(visitor)
    }

    fn min<P: Primitives>(&self, env: &P) -> (r: i64) {
        DensityFunction::Clamp(self.clone()).min(env)
    }

    fn max<P: Primitives>(&self, env: &P) -> (r: i64) {
        DensityFunction::Clamp(self.clone()).max(env)
    }
}

impl DensityFunctionImpl for UnaryFunction {
    open spec fn function(&self) -> DensityFunction {
        DensityFunction::Unary(*self)
    }

    fn sample<P: Primitives>(&self, pos: &NoisePos, env: &P) -> (r: i64) {
        DensityFunction::Unary(self.clone()).sample(pos, env)
    }

    fn fill<P: Primitives>(&self, densities: &mut Vec<i64>, applier: &Applier, env: &P) {
        DensityFunction::Unary(self.clone()).fill(densities, applier, env)
    }

    fn apply(&self, visitor: &Visitor) -> (result: Arc<DensityFunction>) {
        DensityFunction::Unary(self.clone()).apply(visitor)
    }

    fn min<P: Primitives>(&self, env: &P) -> (r: i64) {
        DensityFunction::Unary(self.clone()).min(env)
    }

    fn max<P: Primitives>(&self, env: &P) -> (r: i64) {
        DensityFunction::Unary(self.clone()).max(env)
    }
}

impl DensityFunctionImpl for NoiseFunction {
    open spec fn function(&self) -> DensityFunction {
        DensityFunction::Noise(*self)
    }

    fn sample<P: Primitives>(&self, pos: &NoisePos, env: &P) -> (r: i64) {
        DensityFunction::Noise(self.clone()).sample(pos, env)
    }

    fn fill<P: Primitives>(&self, densities: &mut Vec<i64>, applier: &Applier, env: &P) {
        DensityFunction::Noise(self.clone()).fill(densities, applier, env)
    }

    fn apply(&self, visitor: &Visitor) -> (result: Arc<DensityFunction>) {
        DensityFunction::Noise(self.clone()).apply(visitor)
    }

    fn min<P: Primitives>(&self, env: &P) -> (r: i64) {
        DensityFunction::Noise(self.clone()).min(env)
    }

    fn max<P: Primitives>(&self, env: &P) -> (r: i64) {
        DensityFunction::Noise(self.clone()).max(env)
    }
}

impl DensityFunctionImpl for ShiftAFunction {
    open spec fn function(&self) -> DensityFunction {
        DensityFunction::ShiftA(*self)
    }

    fn sample<P: Primitives>(&self, pos: &NoisePos, env: &P) -> (r: i64) {
        DensityFunction::ShiftA(self.clone()).sample(pos, env)
    }

    fn fill<P: Primitives>(&self, densities: &mut Vec<i64>, applier: &Applier, env: &P) {
        DensityFunction::ShiftA(self.clone()).fill(densities, applier, env)
    }

    fn apply(&self, visitor: &Visitor) -> (result: Arc<DensityFunction>) {
        DensityFunction::ShiftA(self.clone()).apply(visitor)
    }

    fn min<P: Primitives>(&self, env: &P) -> (r: i64) {
        DensityFunction::ShiftA(self.clone()).min(env)
    }

    fn max<P: Primitives>(&self, env: &P) -> (r: i64) {
        DensityFunction::ShiftA(self.clone()).max(env)
    }
}

impl DensityFunctionImpl for ShiftBFunction {
    open spec fn function(&self) -> DensityFunction {
        DensityFunction::ShiftB(*self)
    }

    fn sample<P: Primitives>(&self, pos: &NoisePos, env: &P) -> (r: i64) {
        DensityFunction::ShiftB(self.clone()).sample(pos, env)
    }

    fn fill<P: Primitives>(&self, densities: &mut Vec<i64>, applier: &Applier, env: &P) {
        DensityFunction::ShiftB(self.clone()).fill(densities, applier, env)
    }

    fn apply(&self, visitor: &Visitor) -> (result: Arc<DensityFunction>) {
        DensityFunction::ShiftB(self.clone()).apply(visitor)
    }

    fn min<P: Primitives>(&self, env: &P) -> (r: i64) {
        DensityFunction::ShiftB(self.clone()).min(env)
    }

    fn max<P: Primitives>(&self, env: &P) -> (r: i64) {
        DensityFunction::ShiftB(self.clone()).max(env)
    }
}

impl DensityFunctionImpl for ShiftedNoiseFunction {
    open spec fn function(&self) -> DensityFunction {
        DensityFunction::ShiftedNoise(*self)
    }

    fn sample<P: Primitives>(&self, pos: &NoisePos, env: &P) -> (r: i64) {
        DensityFunction::ShiftedNoise(self.clone()).sample(pos, env)
    }

    fn fill<P: Primitives>(&self, densities: &mut Vec<i64>, applier: &Applier, env: &P) {
        DensityFunction::ShiftedNoise(self.clone()).fill(densities, applier, env)
    }

    fn apply(&self, visitor: &Visitor) -> (result: Arc<DensityFunction>) {
        DensityFunction::ShiftedNoise(self.clone()).apply(visitor)
    }

    fn min<P: Primitives>(&self, env: &P) -> (r: i64) {
        DensityFunction::ShiftedNoise(self.clone()).min(env)
    }

    fn max<P: Primitives>(&self, env: &P) -> (r: i64) {
        DensityFunction::ShiftedNoise(self.clone()).max(env)
    }
}

impl DensityFunctionImpl for SplineFunction {
    open spec fn function(&self) -> DensityFunction {
        DensityFunction::Spline(*self)
    }

    fn sample<P: Primitives>(&self, pos: &NoisePos, env: &P) -> (r: i64) {
        DensityFunction::Spline(self.clone()).sample(pos, env)
    }

    fn fill<P: Primitives>(&self, densities: &mut Vec<i64>, applier: &Applier, env: &P) {
        DensityFunction::Spline(self.clone()).fill(densities, applier, env)
    }

    fn apply(&self, visitor: &Visitor) -> (result: Arc<DensityFunction>) {
        DensityFunction::Spline(self.clone()).apply(visitor)
    }

    fn min<P: Primitives>(&self, env: &P) -> (r: i64) {
        DensityFunction::Spline(self.clone()).min(env)
    }

    fn max<P: Primitives>(&self, env: &P) -> (r: i64) {
        DensityFunction::Spline(self.clone()).max(env)
    }
}

impl DensityFunctionImpl for ConstantFunction {
    open spec fn function(&self) -> DensityFunction {
        DensityFunction::Constant(*self)
    }

    fn sample<P: Primitives>(&self, pos: &NoisePos, env: &P) -> (r: i64) {
        DensityFunction::Constant(*self).sample(pos, env)
    }

    fn fill<P: Primitives>(&self, densities: &mut Vec<i64>, applier: &Applier, env: &P) {
        DensityFunction::Constant(*self).fill(densities, applier, env)
    }

    fn apply(&self, visitor: &Visitor) -> (result: Arc<DensityFunction>) {
        DensityFunction::Constant(*self).apply(visitor)
    }

    fn min<P: Primitives>(&self, env: &P) -> (r: i64) {
        DensityFunction::Constant(*self).min(env)
    }

    fn max<P: Primitives>(&self, env: &P) -> (r: i64) {
        DensityFunction::Constant(*self).max(env)
    }
}

impl DensityFunctionImpl for LinearFunction {
    open spec fn function(&self) -> DensityFunction {
        DensityFunction::Linear(*self)
    }

    fn sample<P: Primitives>(&self, pos: &NoisePos, env: &P) -> (r: i64) {
        DensityFunction::Linear(self.clone()).sample(pos, env)
    }

    fn fill<P: Primitives>(&self, densities: &mut Vec<i64>, applier: &Applier, env: &P) {
        DensityFunction::Linear(self.clone()).fill(densities, applier, env)
    }

    fn apply(&self, visitor: &Visitor) -> (result: Arc<DensityFunction>) {
        DensityFunction::Linear(self.clone()).apply(visitor)
    }

    fn min<P: Primitives>(&self, env: &P) -> (r: i64) {
        DensityFunction::Linear(self.clone()).min(env)
    }

    fn max<P: Primitives>(&self, env: &P) -> (r: i64) {
        DensityFunction::Linear(self.clone()).max(env)
    }
}

impl DensityFunctionImpl for BinaryFunction {
    open spec fn function(&self) -> DensityFunction {
        DensityFunction::Binary(*self)
    }

    fn sample<P: Primitives>(&self, pos: &NoisePos, env: &P) -> (r: i64) {
        DensityFunction::Binary(self.clone()).sample(pos, env)
    }

    fn fill<P: Primitives>(&self, densities: &mut Vec<i64>, applier: &Applier, env: &P) {
        DensityFunction::Binary(self.clone()).fill(densities, applier, env)
    }

    fn apply(&self, visitor: &Visitor) -> (result: Arc<DensityFunction>) {
        DensityFunction::Binary(self.clone()).apply(visitor)
    }

    fn min<P: Primitives>(&self, env: &P) -> (r: i64) {
        DensityFunction::Binary(self.clone()).min(env)
    }

    fn max<P: Primitives>(&self, env: &P) -> (r: i64) {
        DensityFunction::Binary(self.clone()).max(env)
    }
}

impl DensityFunctionImpl for BlendOffsetFunction {
    open spec fn function(&self) -> DensityFunction {
        DensityFunction::BlendOffset(*self)
    }

    fn sample<P: Primitives>(&self, pos: &NoisePos, env: &P) -> (r: i64) {
        DensityFunction::BlendOffset(*self).sample(pos, env)
    }

    fn fill<P: Primitives>(&self, densities: &mut Vec<i64>, applier: &Applier, env: &P) {
        DensityFunction::BlendOffset(*self).fill(densities, applier, env)
    }

    fn apply(&self, visitor: &Visitor) -> (result: Arc<DensityFunction>) {
        DensityFunction::BlendOffset(*self).apply(visitor)
    }

    fn min<P: Primitives>(&self, env: &P) -> (r: i64) {
        DensityFunction::BlendOffset(*self).min(env)
    }

    fn max<P: Primitives>(&self, env: &P) -> (r: i64) {
        DensityFunction::BlendOffset(*self).max(env)
    }
}

impl DensityFunctionImpl for BlendAlphaFunction {
    open spec fn function(&self) -> DensityFunction {
        DensityFunction::BlendAlpha(*self)
    }

    fn sample<P: Primitives>(&self, pos: &NoisePos, env: &P) -> (r: i64) {
        DensityFunction::BlendAlpha(*self).sample(pos, env)
    }

    fn fill<P: Primitives>(&self, densities: &mut Vec<i64>, applier: &Applier, env: &P) {
        DensityFunction::BlendAlpha(*self).fill(densities, applier, env)
    }

    fn apply(&self, visitor: &Visitor) -> (result: Arc<DensityFunction>) {
        DensityFunction::BlendAlpha(*self).apply(visitor)
    }

    fn min<P: Primitives>(&self, env: &P) -> (r: i64) {
        DensityFunction::BlendAlpha(*self).min(env)
    }

    fn max<P: Primitives>(&self, env: &P) -> (r: i64) {
        DensityFunction::BlendAlpha(*self).max(env)
    }
}

impl DensityFunctionImpl for BlendDensityFunction {
    open spec fn function(&self) -> DensityFunction {
        DensityFunction::BlendDensity(*self)
    }

    fn sample<P: Primitives>(&self, pos: &NoisePos, env: &P) -> (r: i64) {
        DensityFunction::BlendDensity(self.clone()).sample(pos, env)
    }

    fn fill<P: Primitives>(&self, densities: &mut Vec<i64>, applier: &Applier, env: &P) {
        DensityFunction::BlendDensity(self.clone()).fill(densities, applier, env)
    }

    fn apply(&self, visitor: &Visitor) -> (result: Arc<DensityFunction>) {
        DensityFunction::BlendDensity(self.clone()).apply(visitor)
    }

    fn min<P: Primitives>(&self, env: &P) -> (r: i64) {
        DensityFunction::BlendDensity(self.clone()).min(env)
    }

    fn max<P: Primitives>(&self, env: &P) -> (r: i64) {
        DensityFunction::BlendDensity(self.clone()).max(env)
    }
}

impl DensityFunctionImpl for YClampedFunction {
    open spec fn function(&self) -> DensityFunction {
        DensityFunction::ClampedY(*self)
    }

    fn sample<P: Primitives>(&self, pos: &NoisePos, env: &P) -> (r: i64) {
        DensityFunction::ClampedY(*self).sample(pos, env)
    }

    fn fill<P: Primitives>(&self, densities: &mut Vec<i64>, applier: &Applier, env: &P) {
        DensityFunction::ClampedY(*self).fill(densities, applier, env)
    }

    fn apply(&self, visitor: &Visitor) -> (result: Arc<DensityFunction>) {
        DensityFunction::ClampedY(*self).apply(visitor)
    }

    fn min<P: Primitives>(&self, env: &P) -> (r: i64) {
        DensityFunction::ClampedY(*self).min(env)
    }

    fn max<P: Primitives>(&self, env: &P) -> (r: i64) {
        DensityFunction::ClampedY(*self).max(env)
    }
}

impl DensityFunctionImpl for InterpolatedNoiseSampler {
    open spec fn function(&self) -> DensityFunction {
        DensityFunction::InterpolatedNoise(*self)
    }

    fn sample<P: Primitives>(&self, pos: &NoisePos, env: &P) -> (r: i64) {
        DensityFunction::InterpolatedNoise(*self).sample(pos, env)
    }

    fn fill<P: Primitives>(&self, densities: &mut Vec<i64>, applier: &Applier, env: &P) {
        DensityFunction::InterpolatedNoise(*self).fill(densities, applier, env)
    }

    fn apply(&self, visitor: &Visitor) -> (result: Arc<DensityFunction>) {
        DensityFunction::InterpolatedNoise(*self).apply(visitor)
    }

    fn min<P: Primitives>(&self, env: &P) -> (r: i64) {
        DensityFunction::InterpolatedNoise(*self).min(env)
    }

    fn max<P: Primitives>(&self, env: &P) -> (r: i64) {
        DensityFunction::InterpolatedNoise(*self).max(env)
    }
}

impl DensityFunctionImpl for EndIslandFunction {
    open spec fn function(&self) -> DensityFunction {
        DensityFunction::EndIsland(*self)
    }

    fn sample<P: Primitives>(&self, pos: &NoisePos, env: &P) -> (r: i64) {
        DensityFunction::EndIsland(*self).sample(pos, env)
    }

    fn fill<P: Primitives>(&self, densities: &mut Vec<i64>, applier: &Applier, env: &P) {
        DensityFunction::EndIsland(*self).fill(densities, applier, env)
    }

    fn apply(&self, visitor: &Visitor) -> (result: Arc<DensityFunction>) {
        DensityFunction::EndIsland(*self).apply(visitor)
    }

    fn min<P: Primitives>(&self, env: &P) -> (r: i64) {
        DensityFunction::EndIsland(*self).min(env)
    }

    fn max<P: Primitives>(&self, env: &P) -> (r: i64) {
        DensityFunction::EndIsland(*self).max(env)
    }
}

impl DensityFunctionImpl for WierdScaledFunction {
    open spec fn function(&self) -> DensityFunction {
        DensityFunction::Wierd(*self)
    }

    fn sample<P: Primitives>(&self, pos: &NoisePos, env: &P) -> (r: i64) {
        DensityFunction::Wierd(self.clone()).sample(pos, env)
    }

    fn fill<P: Primitives>(&self, densities: &mut Vec<i64>, applier: &Applier, env: &P) {
        DensityFunction::Wierd(self.clone()).fill(densities, applier, env)
    }

    fn apply(&self, visitor: &Visitor) -> (result: Arc<DensityFunction>) {
        DensityFunction::Wierd(self.clone()).apply(visitor)
    }

    fn min<P: Primitives>(&self, env: &P) -> (r: i64) {
        DensityFunction::Wierd(self.clone()).min(env)
    }

    fn max<P: Primitives>(&self, env: &P) -> (r: i64) {
        DensityFunction::Wierd(self.clone()).max(env)
    }
}

impl DensityFunctionImpl for RangeFunction {
    open spec fn function(&self) -> DensityFunction {
        DensityFunction::Range(*self)
    }

    fn sample<P: Primitives>(&self, pos: &NoisePos, env: &P) -> (r: i64) {
        DensityFunction::Range(self.clone()).sample(pos, env)
    }

    fn fill<P: Primitives>(&self, densities: &mut Vec<i64>, applier: &Applier, env: &P) {
        DensityFunction::Range(self.clone()).fill(densities, applier, env)
    }

    fn apply(&self, visitor: &Visitor) -> (result: Arc<DensityFunction>) {
        DensityFunction::Range(self.clone()).apply(visitor)
    }

    fn min<P: Primitives>(&self, env: &P) -> (r: i64) {
        DensityFunction::Range(self.clone()).min(env)
    }

    fn max<P: Primitives>(&self, env: &P) -> (r: i64) {
        DensityFunction::Range(self.clone()).max(env)
    }
}

impl DensityFunctionImpl for WrapperFunction {
    open spec fn function(&self) -> DensityFunction {
        DensityFunction::Wrapper(*self)
    }

    fn sample<P: Primitives>(&self, pos: &NoisePos, env: &P) -> (r: i64) {
        DensityFunction::Wrapper(self.clone()).sample(pos, env)
    }

    fn fill<P: Primitives>(&self, densities: &mut Vec<i64>, applier: &Applier, env: &P) {
        DensityFunction::Wrapper(self.clone()).fill(densities, applier, env)
    }

    fn apply(&self, visitor: &Visitor) -> (result: Arc<DensityFunction>) {
        DensityFunction::Wrapper(self.clone()).apply(visitor)
    }

    fn min<P: Primitives>(&self, env: &P) -> (r: i64) {
        DensityFunction::Wrapper(self.clone()).min(env)
    }

    fn max<P: Primitives>(&self, env: &P) -> (r: i64) {
        DensityFunction::Wrapper(self.clone()).max(env)
    }
}

impl DensityFunctionImpl for BeardifyerFunction {
    open spec fn function(&self) -> DensityFunction {
        DensityFunction::Beardifyer(*self)
    }

    fn sample<P: Primitives>(&self, pos: &NoisePos, env: &P) -> (r: i64) {
        DensityFunction::Beardifyer(*self).sample(pos, env)
    }

    fn fill<P: Primitives>(&self, densities: &mut Vec<i64>, applier: &Applier, env: &P) {
        DensityFunction::Beardifyer(*self).fill(densities, applier, env)
    }

    fn apply(&self, visitor: &Visitor) -> (result: Arc<DensityFunction>) {
        DensityFunction::Beardifyer(*self).apply(visitor)
    }

    fn min<P: Primitives>(&self, env: &P) -> (r: i64) {
        DensityFunction::Beardifyer(*self).min(env)
    }

    fn max<P: Primitives>(&self, env: &P) -> (r: i64) {
        DensityFunction::Beardifyer(*self).max(env)
    }
}

impl DensityFunctionImpl for FlatCacheDensityFunction {
    open spec fn function(&self) -> DensityFunction {
        DensityFunction::ChunkCacheFlatCache(*self)
    }

    fn sample<P: Primitives>(&self, pos: &NoisePos, env: &P) -> (r: i64) {
        DensityFunction::ChunkCacheFlatCache(self.clone()).sample(pos, env)
    }

    fn fill<P: Primitives>(&self, densities: &mut Vec<i64>, applier: &Applier, env: &P) {
        DensityFunction::ChunkCacheFlatCache(self.clone()).fill(densities, applier, env)
    }

    fn apply(&self, visitor: &Visitor) -> (result: Arc<DensityFunction>) {
        DensityFunction::ChunkCacheFlatCache(self.clone()).apply(visitor)
    }

    fn min<P: Primitives>(&self, env: &P) -> (r: i64) {
        DensityFunction::ChunkCacheFlatCache(self.clone()).min(env)
    }

    fn max<P: Primitives>(&self, env: &P) -> (r: i64) {
        DensityFunction::ChunkCacheFlatCache(self.clone()).max(env)
    }
}

impl DensityFunctionImpl for InterpolatorDensityFunctionWrapper {
    open spec fn function(&self) -> DensityFunction {
        DensityFunction::ChunkCacheInterpolator(*self)
    }

    fn sample<P: Primitives>(&self, pos: &NoisePos, env: &P) -> (r: i64) {
        DensityFunction::ChunkCacheInterpolator(self.clone()).sample(pos, env)
    }

    fn fill<P: Primitives>(&self, densities: &mut Vec<i64>, applier: &Applier, env: &P) {
        DensityFunction::ChunkCacheInterpolator(self.clone()).fill(densities, applier, env)
    }

    fn apply(&self, visitor: &Visitor) -> (result: Arc<DensityFunction>) {
        DensityFunction::ChunkCacheInterpolator(self.clone()).apply(visitor)
    }

    fn min<P: Primitives>(&self, env: &P) -> (r: i64) {
        DensityFunction::ChunkCacheInterpolator(self.clone()).min(env)
    }

    fn max<P: Primitives>(&self, env: &P) -> (r: i64) {
        DensityFunction::ChunkCacheInterpolator(self.clone()).max(env)
    }
}

impl DensityFunctionImpl for BlendAlphaDensityFunction {
    open spec fn function(&self) -> DensityFunction {
        DensityFunction::ChunkCacheBlendAlpha(*self)
    }

    fn sample<P: Primitives>(&self, pos: &NoisePos, env: &P) -> (r: i64) {
        DensityFunction::ChunkCacheBlendAlpha(*self).sample(pos, env)
    }

    fn fill<P: Primitives>(&self, densities: &mut Vec<i64>, applier: &Applier, env: &P) {
        DensityFunction::ChunkCacheBlendAlpha(*self).fill(densities, applier, env)
    }

    fn apply(&self, visitor: &Visitor) -> (result: Arc<DensityFunction>) {
        DensityFunction::ChunkCacheBlendAlpha(*self).apply(visitor)
    }

    fn min<P: Primitives>(&self, env: &P) -> (r: i64) {
        DensityFunction::ChunkCacheBlendAlpha(*self).min(env)
    }

    fn max<P: Primitives>(&self, env: &P) -> (r: i64) {
        DensityFunction::ChunkCacheBlendAlpha(*self).max(env)
    }
}

impl DensityFunctionImpl for BlendOffsetDensityFunction {
    open spec fn function(&self) -> DensityFunction {
        DensityFunction::ChunkCacheBlendOffset(*self)
    }

    fn sample<P: Primitives>(&self, pos: &NoisePos, env: &P) -> (r: i64) {
        DensityFunction::ChunkCacheBlendOffset(*self).sample(pos, env)
    }

    fn fill<P: Primitives>(&self, densities: &mut Vec<i64>, applier: &Applier, env: &P) {
        DensityFunction::ChunkCacheBlendOffset(*self).fill(densities, applier, env)
    }

    fn apply(&self, visitor: &Visitor) -> (result: Arc<DensityFunction>) {
        DensityFunction::ChunkCacheBlendOffset(*self).apply(visitor)
    }

    fn min<P: Primitives>(&self, env: &P) -> (r: i64) {
        DensityFunction::ChunkCacheBlendOffset(*self).min(env)
    }

    fn max<P: Primitives>(&self, env: &P) -> (r: i64) {
        DensityFunction::ChunkCacheBlendOffset(*self).max(env)
    }
}

impl DensityFunctionImpl for CellCacheDensityFunctionWrapper {
    open spec fn function(&self) -> DensityFunction {
        DensityFunction::ChunkCacheCellCache(*self)
    }

    fn sample<P: Primitives>(&self, pos: &NoisePos, env: &P) -> (r: i64) {
        DensityFunction::ChunkCacheCellCache(self.clone()).sample(pos, env)
    }

    fn fill<P: Primitives>(&self, densities: &mut Vec<i64>, applier: &Applier, env: &P) {
        DensityFunction::ChunkCacheCellCache(self.clone()).fill(densities, applier, env)
    }

    fn apply(&self, visitor: &Visitor) -> (result: Arc<DensityFunction>) {
        DensityFunction::ChunkCacheCellCache(self.clone()).apply(visitor)
    }

    fn min<P: Primitives>(&self, env: &P) -> (r: i64) {
        DensityFunction::ChunkCacheCellCache(self.clone()).min(env)
    }

    fn max<P: Primitives>(&self, env: &P) -> (r: i64) {
        DensityFunction::ChunkCacheCellCache(self.clone()).max(env)
    }
}

impl DensityFunctionImpl for Cache2DDensityFunction {
    open spec fn function(&self) -> DensityFunction {
        DensityFunction::ChunkCache2DCache(*self)
    }

    fn sample<P: Primitives>(&self, pos: &NoisePos, env: &P) -> (r: i64) {
        DensityFunction::ChunkCache2DCache(self.clone()).sample(pos, env)
    }

    fn fill<P: Primitives>(&self, densities: &mut Vec<i64>, applier: &Applier, env: &P) {
        DensityFunction::ChunkCache2DCache(self.clone()).fill(densities, applier, env)
    }

    fn apply(&self, visitor: &Visitor) -> (result: Arc<DensityFunction>) {
        DensityFunction::ChunkCache2DCache(self.clone()).apply(visitor)
    }

    fn min<P: Primitives>(&self, env: &P) -> (r: i64) {
        DensityFunction::ChunkCache2DCache(self.clone()).min(env)
    }

    fn max<P: Primitives>(&self, env: &P) -> (r: i64) {
        DensityFunction::ChunkCache2DCache(self.clone()).max(env)
    }
}

impl DensityFunctionImpl for CacheOnceDensityFunction {
    open spec fn function(&self) -> DensityFunction {
        DensityFunction::ChunkCacheOnceCache(*self)
    }

    fn sample<P: Primitives>(&self, pos: &NoisePos, env: &P) -> (r: i64) {
        DensityFunction::ChunkCacheOnceCache(self.clone()).sample(pos, env)
    }

    fn fill<P: Primitives>(&self, densities: &mut Vec<i64>, applier: &Applier, env: &P) {
        DensityFunction::ChunkCacheOnceCache(self.clone()).fill(densities, applier, env)
    }

    fn apply(&self, visitor: &Visitor) -> (result: Arc<DensityFunction>) {
        DensityFunction::ChunkCacheOnceCache(self.clone()).apply(visitor)
    }

    fn min<P: Primitives>(&self, env: &P) -> (r: i64) {
        DensityFunction::ChunkCacheOnceCache(self.clone()).min(env)
    }

    fn max<P: Primitives>(&self, env: &P) -> (r: i64) {
        DensityFunction::ChunkCacheOnceCache(self.clone()).max(env)
    }
}

/// A node that maps the density of one input.
pub trait UnaryDensityFunction: DensityFunctionImpl {
    /// What the node makes of a density of its input.
    spec fn mapped(&self, density: int) -> int;

    fn apply_density(&self, density: i64) -> (r: i64)
        ensures
            r == self.mapped(density as int),
    ;
}

impl UnaryDensityFunction for UnaryFunction {
    open spec fn mapped(&self, density: int) -> int {
        unary_value(self.action, density)
    }

    fn apply_density(&self, density: i64) -> (r: i64) {
        apply_density(self.action, density)
    }
}

impl UnaryDensityFunction for ClampFunction {
    open spec fn mapped(&self, density: int) -> int {
        crate::fixed::bounded(density, self.min as int, self.max as int)
    }

    fn apply_density(&self, density: i64) -> (r: i64) {
        crate::fixed::fixed_clamp(density, self.min, self.max)
    }
}

/// A node that looks up an offset in a noise.
pub trait OffsetDensityFunction {
    /// The noise that holds the offsets.
    spec fn offsets(&self) -> InternalNoise;

    fn offset_noise(&self) -> (noise: &InternalNoise)
        ensures
            *noise == self.offsets(),
    ;

    /// Four times the noise at a quarter of the coordinate.
    fn sample_3d<P: Primitives>(&self, x: i64, y: i64, z: i64, env: &P) -> (r: i64)
        ensures
            r == times(
                env.noise_value(
                    &self.offsets(),
                    times(x as int, QUARTER as int),
                    times(y as int, QUARTER as int),
                    times(z as int, QUARTER as int),
                ),
                4 * UNIT,
            ),
    {
        let noise = self.offset_noise();
        sat_mul(
            env.sample_noise(noise, sat_mul(x, QUARTER), sat_mul(y, QUARTER), sat_mul(z, QUARTER)),
            4 * UNIT,
        )
    }
}

impl OffsetDensityFunction for ShiftAFunction {
    open spec fn offsets(&self) -> InternalNoise {
        *self.offset
    }

    fn offset_noise(&self) -> (noise: &InternalNoise) {
        &self.offset
    }
}

impl OffsetDensityFunction for ShiftBFunction {
    open spec fn offsets(&self) -> InternalNoise {
        *self.offset
    }

    fn offset_noise(&self) -> (noise: &InternalNoise) {
        &self.offset
    }
}

/// A quarter of a whole number of blocks is the number scaled by a quarter.
pub proof fn lemma_quarter_of_blocks(blocks: int)
    requires
        i32::MIN <= blocks <= i32::MAX,
    ensures
        times(scaled(blocks, UNIT as int), QUARTER as int) == scaled(blocks, QUARTER as int),
        times(0, QUARTER as int) == 0,
{
    assert(blocks * UNIT * QUARTER == blocks * QUARTER * UNIT) by (nonlinear_arith);
    assert(-0x8000_0000 * 1_000_000 <= blocks * UNIT <= 0x8000_0000 * 1_000_000)
        by (nonlinear_arith)
        requires
            -0x8000_0000 <= blocks <= 0x8000_0000,
    ;
    assert(-0x8000_0000 * 250_000 <= blocks * QUARTER <= 0x8000_0000 * 250_000)
        by (nonlinear_arith)
        requires
            -0x8000_0000 <= blocks <= 0x8000_0000,
    ;
    lemma_quotient_exact(blocks * QUARTER, UNIT as int);
}

} // verus!
