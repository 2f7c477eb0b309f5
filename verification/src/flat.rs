//! Functions that do not depend on the height.
//!
//! A cache that keeps one value for a whole column is only right for a
//! function whose value is the same all the way up the column. Whether a
//! graph is such a function can be read off its shape.
use vstd::prelude::*;

use crate::fixed::scaled;
use crate::function::DensityFunction;
use crate::noise::Primitives;
use crate::position::BlockPos;

verus! {

impl DensityFunction {
    /// Whether the shape of this graph shows that its value does not depend
    /// on the height.
    pub open spec fn column_flat(&self) -> bool
        decreases self,
    {
        match *self {
            DensityFunction::Clamp(f) => f.input.column_flat(),
            DensityFunction::Unary(f) => f.input.column_flat(),
            DensityFunction::Noise(f) => f.y_scale == 0,
            DensityFunction::ShiftA(_) => true,
            DensityFunction::ShiftB(_) => true,
            DensityFunction::ShiftedNoise(f) => f.y_scale == 0 && f.shift_x.column_flat()
                && f.shift_y.column_flat() && f.shift_z.column_flat(),
            DensityFunction::Spline(f) => f.spline.continents.column_flat()
                && f.spline.erosion.column_flat() && f.spline.ridges.column_flat() && (match f.spline.ridges_folded {
                Some(folded) => folded.column_flat(),
                None => true,
            }),
            DensityFunction::Constant(_) => true,
            DensityFunction::Linear(f) => f.input.column_flat(),
            DensityFunction::Binary(f) => f.arg1.column_flat() && f.arg2.column_flat(),
            DensityFunction::BlendOffset(_) => true,
            DensityFunction::BlendAlpha(_) => true,
            DensityFunction::BlendDensity(f) => f.function.column_flat(),
            DensityFunction::ClampedY(_) => false,
            DensityFunction::InterpolatedNoise(_) => false,
            DensityFunction::EndIsland(_) => false,
            DensityFunction::Wierd(_) => false,
            DensityFunction::Range(f) => f.input.column_flat() && f.in_range.column_flat()
                && f.out_range.column_flat(),
            DensityFunction::Wrapper(f) => f.input.column_flat(),
            DensityFunction::ChunkCacheFlatCache(f) => f.input.column_flat(),
            DensityFunction::ChunkCacheInterpolator(_) => false,
            DensityFunction::ChunkCacheBlendAlpha(_) => true,
            DensityFunction::ChunkCacheBlendOffset(_) => true,
            DensityFunction::ChunkCacheCellCache(f) => f.input.column_flat(),
            DensityFunction::ChunkCache2DCache(f) => f.input.column_flat(),
            DensityFunction::ChunkCacheOnceCache(f) => f.input.column_flat(),
            DensityFunction::Beardifyer(_) => true,
        }
    }

    /// Decides whether the shape of this graph shows that its value does not
    /// depend on the height.
    pub fn is_column_flat(&self) -> (flat: bool)
        ensures
            flat == self.column_flat(),
        decreases self,
    {
        match self {
            DensityFunction::Clamp(f) => f.input.is_column_flat(),
            DensityFunction::Unary(f) => f.input.is_column_flat(),
            DensityFunction::Noise(f) => f.y_scale == 0,
            DensityFunction::ShiftA(_) => true,
            DensityFunction::ShiftB(_) => true,
            DensityFunction::ShiftedNoise(f) => f.y_scale == 0 && f.shift_x.is_column_flat()
                && f.shift_y.is_column_flat() && f.shift_z.is_column_flat(),
            DensityFunction::Spline(f) => f.spline.continents.is_column_flat()
                && f.spline.erosion.is_column_flat() && f.spline.ridges.is_column_flat() && (match &f.spline.ridges_folded {
                Some(folded) => folded.is_column_flat(),
                None => true,
            }),
            DensityFunction::Constant(_) => true,
            DensityFunction::Linear(f) => f.input.is_column_flat(),
            DensityFunction::Binary(f) => f.arg1.is_column_flat() && f.arg2.is_column_flat(),
            DensityFunction::BlendOffset(_) => true,
            DensityFunction::BlendAlpha(_) => true,
            DensityFunction::BlendDensity(f) => f.function.is_column_flat(),
            DensityFunction::ClampedY(_) => false,
            DensityFunction::InterpolatedNoise(_) => false,
            DensityFunction::EndIsland(_) => false,
            DensityFunction::Wierd(_) => false,
            DensityFunction::Range(f) => f.input.is_column_flat() && f.in_range.is_column_flat()
                && f.out_range.is_column_flat(),
            DensityFunction::Wrapper(f) => f.input.is_column_flat(),
            DensityFunction::ChunkCacheFlatCache(f) => f.input.is_column_flat(),
            DensityFunction::ChunkCacheInterpolator(_) => false,
            DensityFunction::ChunkCacheBlendAlpha(_) => true,
            DensityFunction::ChunkCacheBlendOffset(_) => true,
            DensityFunction::ChunkCacheCellCache(f) => f.input.is_column_flat(),
            DensityFunction::ChunkCache2DCache(f) => f.input.is_column_flat(),
            DensityFunction::ChunkCacheOnceCache(f) => f.input.is_column_flat(),
            DensityFunction::Beardifyer(_) => true,
        }
    }
}

/// A graph whose shape shows that it does not depend on the height has the
/// same value at any two positions of one column.
pub proof fn lemma_column_flat<P: Primitives>(
    function: &DensityFunction,
    env: &P,
    p: BlockPos,
    q: BlockPos,
)
    requires
        function.column_flat(),
        p.x == q.x,
        p.z == q.z,
    ensures
        function.value(env, p) == function.value(env, q),
    decreases function,
{
    match function {
        DensityFunction::Clamp(f) => {
            lemma_column_flat(&*f.input, env, p, q);
        },
        DensityFunction::Unary(f) => {
            lemma_column_flat(&*f.input, env, p, q);
        },
        DensityFunction::Noise(f) => {
            assert(scaled(p.y, 0) == scaled(q.y, 0)) by (nonlinear_arith);
        },
        DensityFunction::ShiftedNoise(f) => {
            lemma_column_flat(&*f.shift_x, env, p, q);
            lemma_column_flat(&*f.shift_y, env, p, q);
            lemma_column_flat(&*f.shift_z, env, p, q);
            assert(scaled(p.y, 0) == scaled(q.y, 0)) by (nonlinear_arith);
        },
        DensityFunction::Spline(f) => {
            lemma_column_flat(&*f.spline.continents, env, p, q);
            lemma_column_flat(&*f.spline.erosion, env, p, q);
            lemma_column_flat(&*f.spline.ridges, env, p, q);
            match &f.spline.ridges_folded {
                Some(folded) => {
                    lemma_column_flat(&**folded, env, p, q);
                },
                None => {},
            }
        },
        DensityFunction::Linear(f) => {
            lemma_column_flat(&*f.input, env, p, q);
        },
        DensityFunction::Binary(f) => {
            lemma_column_flat(&*f.arg1, env, p, q);
            lemma_column_flat(&*f.arg2, env, p, q);
        },
        DensityFunction::BlendDensity(f) => {
            lemma_column_flat(&*f.function, env, p, q);
        },
        DensityFunction::Range(f) => {
            lemma_column_flat(&*f.input, env, p, q);
            lemma_column_flat(&*f.in_range, env, p, q);
            lemma_column_flat(&*f.out_range, env, p, q);
        },
        DensityFunction::Wrapper(f) => {
            lemma_column_flat(&*f.input, env, p, q);
        },
        DensityFunction::ChunkCacheFlatCache(f) => {
            lemma_column_flat(&*f.input, env, p, q);
        },
        DensityFunction::ChunkCacheCellCache(f) => {
            lemma_column_flat(&*f.input, env, p, q);
        },
        DensityFunction::ChunkCache2DCache(f) => {
            lemma_column_flat(&*f.input, env, p, q);
        },
        DensityFunction::ChunkCacheOnceCache(f) => {
            lemma_column_flat(&*f.input, env, p, q);
        },
        _ => {},
    }
}

} // verus!
