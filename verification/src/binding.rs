//! Binding a graph to a chunk, and sampling it through the chunk's caches.
use std::sync::Arc;
use vstd::prelude::*;

use crate::applier::{Applier, ApplierImpl};
use crate::caches::ChunkCaches;
use crate::fixed::{fixed_clamp, sat_add, sat_div, sat_mul, scale_blocks, UNIT};
use crate::function::{
    BinaryFunction, BlendAlphaDensityFunction, BlendAlphaFunction, BlendDensityFunction,
    BlendOffsetDensityFunction, BlendOffsetFunction, Cache2DDensityFunction,
    CacheOnceDensityFunction, CellCacheDensityFunctionWrapper, CellGrid, ClampFunction,
    DensityFunction, FlatCacheDensityFunction, InterpolatorDensityFunctionWrapper,
    LinearFunction, RangeFunction, ShiftedNoiseFunction, Spline, SplineFunction, UnaryFunction,
    WierdScaledFunction, WrapperFunction, WrapperType,
};
use crate::handle::{same_handle, share};
use crate::interpolation::{corner, corner_values, CellCorners, CornerSamples};
use crate::noise::Primitives;
use crate::position::{BlockPos, NoisePos, NoisePosImpl};
use crate::sample::{apply_binary, apply_density, apply_linear, rarity_scale};

verus! {

impl DensityFunction {
    /// This graph with every cache that is bound to a chunk turned back into
    /// the annotation it came from.
    pub open spec fn unbound(&self) -> DensityFunction
        decreases self,
    {
        match *self {
            DensityFunction::Clamp(f) => DensityFunction::Clamp(
                ClampFunction { input: Arc::new(f.input.unbound()), min: f.min, max: f.max },
            ),
            DensityFunction::Unary(f) => DensityFunction::Unary(
                UnaryFunction { action: f.action, input: Arc::new(f.input.unbound()) },
            ),
            DensityFunction::ShiftedNoise(f) => DensityFunction::ShiftedNoise(
                ShiftedNoiseFunction {
                    shift_x: Arc::new(f.shift_x.unbound()),
                    shift_y: Arc::new(f.shift_y.unbound()),
                    shift_z: Arc::new(f.shift_z.unbound()),
                    xz_scale: f.xz_scale,
                    y_scale: f.y_scale,
                    noise: f.noise,
                },
            ),
            DensityFunction::Spline(f) => DensityFunction::Spline(
                SplineFunction {
                    spline: Arc::new(
                        Spline {
                            shape: f.spline.shape,
                            amplified: f.spline.amplified,
                            continents: Arc::new(f.spline.continents.unbound()),
                            erosion: Arc::new(f.spline.erosion.unbound()),
                            ridges: Arc::new(f.spline.ridges.unbound()),
                            ridges_folded: match f.spline.ridges_folded {
                                Some(folded) => Some(Arc::new(folded.unbound())),
                                None => None,
                            },
                        },
                    ),
                },
            ),
            DensityFunction::Linear(f) => DensityFunction::Linear(
                LinearFunction {
                    slope: f.slope,
                    offset: f.offset,
                    input: Arc::new(f.input.unbound()),
                },
            ),
            DensityFunction::Binary(f) => DensityFunction::Binary(
                BinaryFunction {
                    action: f.action,
                    arg1: Arc::new(f.arg1.unbound()),
                    arg2: Arc::new(f.arg2.unbound()),
                },
            ),
            DensityFunction::BlendDensity(f) => DensityFunction::BlendDensity(
                BlendDensityFunction { function: Arc::new(f.function.unbound()) },
            ),
            DensityFunction::Wierd(f) => DensityFunction::Wierd(
                WierdScaledFunction {
                    input: Arc::new(f.input.unbound()),
                    noise: f.noise,
                    rarity: f.rarity,
                },
            ),
            DensityFunction::Range(f) => DensityFunction::Range(
                RangeFunction {
                    input: Arc::new(f.input.unbound()),
                    min: f.min,
                    max: f.max,
                    in_range: Arc::new(f.in_range.unbound()),
                    out_range: Arc::new(f.out_range.unbound()),
                },
            ),
            DensityFunction::Wrapper(f) => DensityFunction::Wrapper(
                WrapperFunction { input: Arc::new(f.input.unbound()), wrapper: f.wrapper },
            ),
            DensityFunction::ChunkCacheFlatCache(f) => DensityFunction::Wrapper(
                WrapperFunction {
                    input: Arc::new(f.input.unbound()),
                    wrapper: WrapperType::CacheFlat,
                },
            ),
            DensityFunction::ChunkCacheInterpolator(f) => DensityFunction::Wrapper(
                WrapperFunction {
                    input: Arc::new(f.input.unbound()),
                    wrapper: WrapperType::Interpolated,
                },
            ),
            DensityFunction::ChunkCacheCellCache(f) => DensityFunction::Wrapper(
                WrapperFunction {
                    input: Arc::new(f.input.unbound()),
                    wrapper: WrapperType::CacheCell,
                },
            ),
            DensityFunction::ChunkCache2DCache(f) => DensityFunction::Wrapper(
                WrapperFunction {
                    input: Arc::new(f.input.unbound()),
                    wrapper: WrapperType::Cache2D,
                },
            ),
            DensityFunction::ChunkCacheOnceCache(f) => DensityFunction::Wrapper(
                WrapperFunction {
                    input: Arc::new(f.input.unbound()),
                    wrapper: WrapperType::CacheOnce,
                },
            ),
            DensityFunction::ChunkCacheBlendAlpha(_) => DensityFunction::BlendAlpha(
                BlendAlphaFunction {  },
            ),
            DensityFunction::ChunkCacheBlendOffset(_) => DensityFunction::BlendOffset(
                BlendOffsetFunction {  },
            ),
            _ => *self,
        }
    }

    /// Whether every interpolator of this graph interpolates between the
    /// corners of the cells of `grid`.
    pub open spec fn interpolates_on(&self, grid: CellGrid) -> bool
        decreases self,
    {
        match *self {
            DensityFunction::Clamp(f) => f.input.interpolates_on(grid),
            DensityFunction::Unary(f) => f.input.interpolates_on(grid),
            DensityFunction::ShiftedNoise(f) => f.shift_x.interpolates_on(grid)
                && f.shift_y.interpolates_on(grid) && f.shift_z.interpolates_on(grid),
            DensityFunction::Spline(f) => f.spline.continents.interpolates_on(grid)
                && f.spline.erosion.interpolates_on(grid) && f.spline.ridges.interpolates_on(grid)
                && (match f.spline.ridges_folded {
                Some(folded) => folded.interpolates_on(grid),
                None => true,
            }),
            DensityFunction::Linear(f) => f.input.interpolates_on(grid),
            DensityFunction::Binary(f) => f.arg1.interpolates_on(grid) && f.arg2.interpolates_on(
                grid,
            ),
            DensityFunction::BlendDensity(f) => f.function.interpolates_on(grid),
            DensityFunction::Wierd(f) => f.input.interpolates_on(grid),
            DensityFunction::Range(f) => f.input.interpolates_on(grid)
                && f.in_range.interpolates_on(grid) && f.out_range.interpolates_on(grid),
            DensityFunction::Wrapper(f) => f.input.interpolates_on(grid),
            DensityFunction::ChunkCacheFlatCache(f) => f.input.interpolates_on(grid),
            DensityFunction::ChunkCacheInterpolator(f) => f.grid == grid
                && f.input.interpolates_on(grid),
            DensityFunction::ChunkCacheCellCache(f) => f.input.interpolates_on(grid),
            DensityFunction::ChunkCache2DCache(f) => f.input.interpolates_on(grid),
            DensityFunction::ChunkCacheOnceCache(f) => f.input.interpolates_on(grid),
            _ => true,
        }
    }

    /// Whether every blend node of this graph is in its bound form.
    pub open spec fn blends_bound(&self) -> bool
        decreases self,
    {
        match *self {
            DensityFunction::Clamp(f) => f.input.blends_bound(),
            DensityFunction::Unary(f) => f.input.blends_bound(),
            DensityFunction::ShiftedNoise(f) => f.shift_x.blends_bound() && f.shift_y.blends_bound()
                && f.shift_z.blends_bound(),
            DensityFunction::Spline(f) => f.spline.continents.blends_bound()
                && f.spline.erosion.blends_bound() && f.spline.ridges.blends_bound()
                && (match f.spline.ridges_folded {
                Some(folded) => folded.blends_bound(),
                None => true,
            }),
            DensityFunction::Linear(f) => f.input.blends_bound(),
            DensityFunction::Binary(f) => f.arg1.blends_bound() && f.arg2.blends_bound(),
            DensityFunction::BlendOffset(_) => false,
            DensityFunction::BlendAlpha(_) => false,
            DensityFunction::BlendDensity(f) => f.function.blends_bound(),
            DensityFunction::Wierd(f) => f.input.blends_bound(),
            DensityFunction::Range(f) => f.input.blends_bound() && f.in_range.blends_bound()
                && f.out_range.blends_bound(),
            DensityFunction::Wrapper(f) => f.input.blends_bound(),
            DensityFunction::ChunkCacheFlatCache(f) => f.input.blends_bound(),
            DensityFunction::ChunkCacheInterpolator(f) => f.input.blends_bound(),
            DensityFunction::ChunkCacheCellCache(f) => f.input.blends_bound(),
            DensityFunction::ChunkCache2DCache(f) => f.input.blends_bound(),
            DensityFunction::ChunkCacheOnceCache(f) => f.input.blends_bound(),
            _ => true,
        }
    }

    /// Whether this graph holds no interpolator that is bound to a chunk.
    pub open spec fn interpolator_free(&self) -> bool
        decreases self,
    {
        match *self {
            DensityFunction::Clamp(f) => f.input.interpolator_free(),
            DensityFunction::Unary(f) => f.input.interpolator_free(),
            DensityFunction::ShiftedNoise(f) => f.shift_x.interpolator_free()
                && f.shift_y.interpolator_free() && f.shift_z.interpolator_free(),
            DensityFunction::Spline(f) => f.spline.continents.interpolator_free()
                && f.spline.erosion.interpolator_free() && f.spline.ridges.interpolator_free() && (match f.spline.ridges_folded {
                Some(folded) => folded.interpolator_free(),
                None => true,
            }),
            DensityFunction::Linear(f) => f.input.interpolator_free(),
            DensityFunction::Binary(f) => f.arg1.interpolator_free() && f.arg2.interpolator_free(),
            DensityFunction::BlendDensity(f) => f.function.interpolator_free(),
            DensityFunction::Wierd(f) => f.input.interpolator_free(),
            DensityFunction::Range(f) => f.input.interpolator_free()
                && f.in_range.interpolator_free() && f.out_range.interpolator_free(),
            DensityFunction::Wrapper(f) => f.input.interpolator_free(),
            DensityFunction::ChunkCacheFlatCache(f) => f.input.interpolator_free(),
            DensityFunction::ChunkCacheInterpolator(_) => false,
            DensityFunction::ChunkCacheCellCache(f) => f.input.interpolator_free(),
            DensityFunction::ChunkCache2DCache(f) => f.input.interpolator_free(),
            DensityFunction::ChunkCacheOnceCache(f) => f.input.interpolator_free(),
            _ => true,
        }
    }

    /// Whether this graph holds no interpolation: no interpolator that is
    /// bound to a chunk and no annotation that asks for one.
    pub open spec fn interpolation_free(&self) -> bool
        decreases self,
    {
        match *self {
            DensityFunction::Clamp(f) => f.input.interpolation_free(),
            DensityFunction::Unary(f) => f.input.interpolation_free(),
            DensityFunction::ShiftedNoise(f) => f.shift_x.interpolation_free()
                && f.shift_y.interpolation_free() && f.shift_z.interpolation_free(),
            DensityFunction::Spline(f) => f.spline.continents.interpolation_free()
                && f.spline.erosion.interpolation_free() && f.spline.ridges.interpolation_free()
                && (match f.spline.ridges_folded {
                Some(folded) => folded.interpolation_free(),
                None => true,
            }),
            DensityFunction::Linear(f) => f.input.interpolation_free(),
            DensityFunction::Binary(f) => f.arg1.interpolation_free()
                && f.arg2.interpolation_free(),
            DensityFunction::BlendDensity(f) => f.function.interpolation_free(),
            DensityFunction::Wierd(f) => f.input.interpolation_free(),
            DensityFunction::Range(f) => f.input.interpolation_free()
                && f.in_range.interpolation_free() && f.out_range.interpolation_free(),
            DensityFunction::Wrapper(f) => f.wrapper != WrapperType::Interpolated
                && f.input.interpolation_free(),
            DensityFunction::ChunkCacheFlatCache(f) => f.input.interpolation_free(),
            DensityFunction::ChunkCacheInterpolator(_) => false,
            DensityFunction::ChunkCacheCellCache(f) => f.input.interpolation_free(),
            DensityFunction::ChunkCache2DCache(f) => f.input.interpolation_free(),
            DensityFunction::ChunkCacheOnceCache(f) => f.input.interpolation_free(),
            _ => true,
        }
    }

    /// Whether every cache in this graph names a slot among `bindings` that
    /// caches the very function under the cache.
    pub open spec fn bound_in(&self, bindings: Seq<DensityFunction>) -> bool
        decreases self,
    {
        match *self {
            DensityFunction::Clamp(f) => f.input.bound_in(bindings),
            DensityFunction::Unary(f) => f.input.bound_in(bindings),
            DensityFunction::ShiftedNoise(f) => f.shift_x.bound_in(bindings) && f.shift_y.bound_in(
                bindings,
            ) && f.shift_z.bound_in(bindings),
            DensityFunction::Spline(f) => f.spline.continents.bound_in(bindings)
                && f.spline.erosion.bound_in(bindings) && f.spline.ridges.bound_in(bindings) && (match f.spline.ridges_folded {
                Some(folded) => folded.bound_in(bindings),
                None => true,
            }),
            DensityFunction::Linear(f) => f.input.bound_in(bindings),
            DensityFunction::Binary(f) => f.arg1.bound_in(bindings) && f.arg2.bound_in(bindings),
            DensityFunction::BlendDensity(f) => f.function.bound_in(bindings),
            DensityFunction::Wierd(f) => f.input.bound_in(bindings),
            DensityFunction::Range(f) => f.input.bound_in(bindings) && f.in_range.bound_in(bindings)
                && f.out_range.bound_in(bindings),
            DensityFunction::Wrapper(f) => f.input.bound_in(bindings),
            DensityFunction::ChunkCacheFlatCache(f) => f.slot < bindings.len() && bindings[f.slot as int]
                == *f.input && f.input.bound_in(bindings),
            DensityFunction::ChunkCacheInterpolator(f) => f.slot < bindings.len() && bindings[f.slot as int]
                == *f.input && f.input.bound_in(bindings),
            DensityFunction::ChunkCacheCellCache(f) => f.slot < bindings.len() && bindings[f.slot as int]
                == *f.input && f.input.bound_in(bindings),
            DensityFunction::ChunkCache2DCache(f) => f.slot < bindings.len() && bindings[f.slot as int]
                == *f.input && f.input.bound_in(bindings),
            DensityFunction::ChunkCacheOnceCache(f) => f.slot < bindings.len() && bindings[f.slot as int]
                == *f.input && f.input.bound_in(bindings),
            _ => true,
        }
    }
}

/// A graph bound in some slots stays bound when slots are added.
pub proof fn lemma_bound_in_extension(
    function: &DensityFunction,
    earlier: Seq<DensityFunction>,
    later: Seq<DensityFunction>,
)
    requires
        function.bound_in(earlier),
        earlier.is_prefix_of(later),
    ensures
        function.bound_in(later),
    decreases function,
{
    match function {
        DensityFunction::Clamp(f) => {
            lemma_bound_in_extension(&*f.input, earlier, later);
        },
        DensityFunction::Unary(f) => {
            lemma_bound_in_extension(&*f.input, earlier, later);
        },
        DensityFunction::ShiftedNoise(f) => {
            lemma_bound_in_extension(&*f.shift_x, earlier, later);
            lemma_bound_in_extension(&*f.shift_y, earlier, later);
            lemma_bound_in_extension(&*f.shift_z, earlier, later);
        },
        DensityFunction::Spline(f) => {
            lemma_bound_in_extension(&*f.spline.continents, earlier, later);
            lemma_bound_in_extension(&*f.spline.erosion, earlier, later);
            lemma_bound_in_extension(&*f.spline.ridges, earlier, later);
            match &f.spline.ridges_folded {
                Some(folded) => {
                    lemma_bound_in_extension(&**folded, earlier, later);
                },
                None => {},
            }
        },
        DensityFunction::Linear(f) => {
            lemma_bound_in_extension(&*f.input, earlier, later);
        },
        DensityFunction::Binary(f) => {
            lemma_bound_in_extension(&*f.arg1, earlier, later);
            lemma_bound_in_extension(&*f.arg2, earlier, later);
        },
        DensityFunction::BlendDensity(f) => {
            lemma_bound_in_extension(&*f.function, earlier, later);
        },
        DensityFunction::Wierd(f) => {
            lemma_bound_in_extension(&*f.input, earlier, later);
        },
        DensityFunction::Range(f) => {
            lemma_bound_in_extension(&*f.input, earlier, later);
            lemma_bound_in_extension(&*f.in_range, earlier, later);
            lemma_bound_in_extension(&*f.out_range, earlier, later);
        },
        DensityFunction::Wrapper(f) => {
            lemma_bound_in_extension(&*f.input, earlier, later);
        },
        DensityFunction::ChunkCacheFlatCache(f) => {
            lemma_bound_in_extension(&*f.input, earlier, later);
        },
        DensityFunction::ChunkCacheInterpolator(f) => {
            lemma_bound_in_extension(&*f.input, earlier, later);
        },
        DensityFunction::ChunkCacheCellCache(f) => {
            lemma_bound_in_extension(&*f.input, earlier, later);
        },
        DensityFunction::ChunkCache2DCache(f) => {
            lemma_bound_in_extension(&*f.input, earlier, later);
        },
        DensityFunction::ChunkCacheOnceCache(f) => {
            lemma_bound_in_extension(&*f.input, earlier, later);
        },
        _ => {},
    }
}

/// **Caches are transparent.** A graph without interpolators samples to what
/// it samples to with its caches turned back into annotations.
pub proof fn lemma_unbound_value<P: Primitives>(function: &DensityFunction, env: &P, pos: BlockPos)
    requires
        function.interpolator_free(),
    ensures
        function.unbound().value(env, pos) == function.value(env, pos),
    decreases function,
{
    match function {
        DensityFunction::Clamp(f) => {
            lemma_unbound_value(&*f.input, env, pos);
        },
        DensityFunction::Unary(f) => {
            lemma_unbound_value(&*f.input, env, pos);
        },
        DensityFunction::ShiftedNoise(f) => {
            lemma_unbound_value(&*f.shift_x, env, pos);
            lemma_unbound_value(&*f.shift_y, env, pos);
            lemma_unbound_value(&*f.shift_z, env, pos);
        },
        DensityFunction::Spline(f) => {
            lemma_unbound_value(&*f.spline.continents, env, pos);
            lemma_unbound_value(&*f.spline.erosion, env, pos);
            lemma_unbound_value(&*f.spline.ridges, env, pos);
            match &f.spline.ridges_folded {
                Some(folded) => {
                    lemma_unbound_value(&**folded, env, pos);
                },
                None => {},
            }
        },
        DensityFunction::Linear(f) => {
            lemma_unbound_value(&*f.input, env, pos);
        },
        DensityFunction::Binary(f) => {
            lemma_unbound_value(&*f.arg1, env, pos);
            lemma_unbound_value(&*f.arg2, env, pos);
        },
        DensityFunction::BlendDensity(f) => {
            lemma_unbound_value(&*f.function, env, pos);
        },
        DensityFunction::Wierd(f) => {
            lemma_unbound_value(&*f.input, env, pos);
        },
        DensityFunction::Range(f) => {
            lemma_unbound_value(&*f.input, env, pos);
            lemma_unbound_value(&*f.in_range, env, pos);
            lemma_unbound_value(&*f.out_range, env, pos);
        },
        DensityFunction::Wrapper(f) => {
            lemma_unbound_value(&*f.input, env, pos);
        },
        DensityFunction::ChunkCacheFlatCache(f) => {
            lemma_unbound_value(&*f.input, env, pos);
        },
        DensityFunction::ChunkCacheCellCache(f) => {
            lemma_unbound_value(&*f.input, env, pos);
        },
        DensityFunction::ChunkCache2DCache(f) => {
            lemma_unbound_value(&*f.input, env, pos);
        },
        DensityFunction::ChunkCacheOnceCache(f) => {
            lemma_unbound_value(&*f.input, env, pos);
        },
        _ => {},
    }
}

/// A graph holds interpolation after its caches are turned back into
/// annotations exactly if it held interpolation before.
pub proof fn lemma_unbound_keeps_interpolation(function: &DensityFunction)
    ensures
        function.unbound().interpolation_free() == function.interpolation_free(),
    decreases function,
{
    match function {
        DensityFunction::Clamp(f) => {
            lemma_unbound_keeps_interpolation(&*f.input);
        },
        DensityFunction::Unary(f) => {
            lemma_unbound_keeps_interpolation(&*f.input);
        },
        DensityFunction::ShiftedNoise(f) => {
            lemma_unbound_keeps_interpolation(&*f.shift_x);
            lemma_unbound_keeps_interpolation(&*f.shift_y);
            lemma_unbound_keeps_interpolation(&*f.shift_z);
        },
        DensityFunction::Spline(f) => {
            lemma_unbound_keeps_interpolation(&*f.spline.continents);
            lemma_unbound_keeps_interpolation(&*f.spline.erosion);
            lemma_unbound_keeps_interpolation(&*f.spline.ridges);
            match &f.spline.ridges_folded {
                Some(folded) => {
                    lemma_unbound_keeps_interpolation(&**folded);
                },
                None => {},
            }
        },
        DensityFunction::Linear(f) => {
            lemma_unbound_keeps_interpolation(&*f.input);
        },
        DensityFunction::Binary(f) => {
            lemma_unbound_keeps_interpolation(&*f.arg1);
            lemma_unbound_keeps_interpolation(&*f.arg2);
        },
        DensityFunction::BlendDensity(f) => {
            lemma_unbound_keeps_interpolation(&*f.function);
        },
        DensityFunction::Wierd(f) => {
            lemma_unbound_keeps_interpolation(&*f.input);
        },
        DensityFunction::Range(f) => {
            lemma_unbound_keeps_interpolation(&*f.input);
            lemma_unbound_keeps_interpolation(&*f.in_range);
            lemma_unbound_keeps_interpolation(&*f.out_range);
        },
        DensityFunction::Wrapper(f) => {
            lemma_unbound_keeps_interpolation(&*f.input);
        },
        DensityFunction::ChunkCacheFlatCache(f) => {
            lemma_unbound_keeps_interpolation(&*f.input);
        },
        DensityFunction::ChunkCacheCellCache(f) => {
            lemma_unbound_keeps_interpolation(&*f.input);
        },
        DensityFunction::ChunkCache2DCache(f) => {
            lemma_unbound_keeps_interpolation(&*f.input);
        },
        DensityFunction::ChunkCacheOnceCache(f) => {
            lemma_unbound_keeps_interpolation(&*f.input);
        },
        DensityFunction::ChunkCacheInterpolator(f) => {
            lemma_unbound_keeps_interpolation(&*f.input);
        },
        _ => {},
    }
}

/// A graph without interpolation holds no interpolator.
pub proof fn lemma_interpolation_free(function: &DensityFunction)
    requires
        function.interpolation_free(),
    ensures
        function.interpolator_free(),
    decreases function,
{
    match function {
        DensityFunction::Clamp(f) => {
            lemma_interpolation_free(&*f.input);
        },
        DensityFunction::Unary(f) => {
            lemma_interpolation_free(&*f.input);
        },
        DensityFunction::ShiftedNoise(f) => {
            lemma_interpolation_free(&*f.shift_x);
            lemma_interpolation_free(&*f.shift_y);
            lemma_interpolation_free(&*f.shift_z);
        },
        DensityFunction::Spline(f) => {
            lemma_interpolation_free(&*f.spline.continents);
            lemma_interpolation_free(&*f.spline.erosion);
            lemma_interpolation_free(&*f.spline.ridges);
            match &f.spline.ridges_folded {
                Some(folded) => {
                    lemma_interpolation_free(&**folded);
                },
                None => {},
            }
        },
        DensityFunction::Linear(f) => {
            lemma_interpolation_free(&*f.input);
        },
        DensityFunction::Binary(f) => {
            lemma_interpolation_free(&*f.arg1);
            lemma_interpolation_free(&*f.arg2);
        },
        DensityFunction::BlendDensity(f) => {
            lemma_interpolation_free(&*f.function);
        },
        DensityFunction::Wierd(f) => {
            lemma_interpolation_free(&*f.input);
        },
        DensityFunction::Range(f) => {
            lemma_interpolation_free(&*f.input);
            lemma_interpolation_free(&*f.in_range);
            lemma_interpolation_free(&*f.out_range);
        },
        DensityFunction::Wrapper(f) => {
            lemma_interpolation_free(&*f.input);
        },
        DensityFunction::ChunkCacheFlatCache(f) => {
            lemma_interpolation_free(&*f.input);
        },
        DensityFunction::ChunkCacheCellCache(f) => {
            lemma_interpolation_free(&*f.input);
        },
        DensityFunction::ChunkCache2DCache(f) => {
            lemma_interpolation_free(&*f.input);
        },
        DensityFunction::ChunkCacheOnceCache(f) => {
            lemma_interpolation_free(&*f.input);
        },
        DensityFunction::ChunkCacheInterpolator(f) => {
            lemma_interpolation_free(&*f.input);
        },
        _ => {},
    }
}

/// **Binding is transparent.** A graph without interpolation samples to the
/// same density after it is bound to a chunk: the caches that binding puts in
/// the place of the annotations change no sample.
pub proof fn lemma_binding_is_transparent<P: Primitives>(
    bound: &DensityFunction,
    function: &DensityFunction,
    env: &P,
    pos: BlockPos,
)
    requires
        bound.unbound() == function.unbound(),
        function.interpolation_free(),
    ensures
        bound.value(env, pos) == function.value(env, pos),
{
    lemma_unbound_keeps_interpolation(bound);
    lemma_unbound_keeps_interpolation(function);
    lemma_interpolation_free(bound);
    lemma_interpolation_free(function);
    lemma_unbound_value(bound, env, pos);
    lemma_unbound_value(function, env, pos);
}

impl InterpolatorDensityFunctionWrapper {
    /// The input at the eight corners of a cell, sampled through the caches
    /// of the chunk.
    pub fn sample_corners_cached<P: Primitives>(
        &self,
        c: &CellCorners,
        env: &P,
        caches: &mut ChunkCaches,
    ) -> (samples: CornerSamples)
        requires
            self.input.bound_in(old(caches).bindings()),
            old(caches).coherent(env),
        ensures
            samples@ == corner_values(&*self.input, env, *c),
            final(caches).coherent(env),
            final(caches).bindings() == old(caches).bindings(),
            final(caches).cell_grid() == old(caches).cell_grid(),
        decreases self, 0nat,
    {
        let c000: i64 = self.input.sample_cached(&corner(c.low_x, c.low_y, c.low_z), env, caches);
        let c100: i64 = self.input.sample_cached(&corner(c.high_x, c.low_y, c.low_z), env, caches);
        let c010: i64 = self.input.sample_cached(&corner(c.low_x, c.high_y, c.low_z), env, caches);
        let c110: i64 = self.input.sample_cached(&corner(c.high_x, c.high_y, c.low_z), env, caches);
        let c001: i64 = self.input.sample_cached(&corner(c.low_x, c.low_y, c.high_z), env, caches);
        let c101: i64 = self.input.sample_cached(&corner(c.high_x, c.low_y, c.high_z), env, caches);
        let c011: i64 = self.input.sample_cached(&corner(c.low_x, c.high_y, c.high_z), env, caches);
        let c111: i64 = self.input.sample_cached(
            &corner(c.high_x, c.high_y, c.high_z),
            env,
            caches,
        );
        CornerSamples { c000, c100, c010, c110, c001, c101, c011, c111 }
    }
}

impl DensityFunction {
    /// The density at one position, sampled through the caches of the chunk
    /// that this graph is bound to. Where a cache keeps the density, nothing
    /// below the cache is sampled; where it does not, the density is sampled
    /// and kept.
    pub fn sample_cached<P: Primitives>(&self, pos: &NoisePos, env: &P, caches: &mut ChunkCaches) -> (r:
        i64)
        requires
            self.bound_in(old(caches).bindings()),
            old(caches).coherent(env),
        ensures
            r == self.value(env, pos.block()),
            final(caches).coherent(env),
            final(caches).bindings() == old(caches).bindings(),
            final(caches).cell_grid() == old(caches).cell_grid(),
        decreases self, 2nat,
    {
        match self {
            DensityFunction::Clamp(f) => {
                let v: i64 = f.input.sample_cached(pos, env, caches);
                fixed_clamp(v, f.min, f.max)
            },
            DensityFunction::Unary(f) => {
                let v: i64 = f.input.sample_cached(pos, env, caches);
                apply_density(f.action, v)
            },
            DensityFunction::ShiftedNoise(f) => {
                let sx: i64 = f.shift_x.sample_cached(pos, env, caches);
                let sy: i64 = f.shift_y.sample_cached(pos, env, caches);
                let sz: i64 = f.shift_z.sample_cached(pos, env, caches);
                let x: i64 = sat_add(scale_blocks(pos.x(), f.xz_scale), sx);
                let y: i64 = sat_add(scale_blocks(pos.y(), f.y_scale), sy);
                let z: i64 = sat_add(scale_blocks(pos.z(), f.xz_scale), sz);
                env.sample_noise(&f.noise, x, y, z)
            },
            DensityFunction::Spline(f) => {
                let continents: i64 = f.spline.continents.sample_cached(pos, env, caches);
                let erosion: i64 = f.spline.erosion.sample_cached(pos, env, caches);
                let ridges: i64 = f.spline.ridges.sample_cached(pos, env, caches);
                let ridges_folded: Option<i64> = match &f.spline.ridges_folded {
                    Some(folded) => Some(folded.sample_cached(pos, env, caches)),
                    None => None,
                };
                env.eval_spline(
                    f.spline.shape,
                    f.spline.amplified,
                    continents,
                    erosion,
                    ridges,
                    ridges_folded,
                )
            },
            DensityFunction::Linear(f) => {
                let v: i64 = f.input.sample_cached(pos, env, caches);
                apply_linear(f.slope, f.offset, v)
            },
            DensityFunction::Binary(f) => {
                let a: i64 = f.arg1.sample_cached(pos, env, caches);
                let b: i64 = f.arg2.sample_cached(pos, env, caches);
                apply_binary(f.action, a, b)
            },
            DensityFunction::BlendDensity(f) => {
                let v: i64 = f.function.sample_cached(pos, env, caches);
                pos.get_blender().apply_blend_density(v)
            },
            DensityFunction::Wierd(f) => {
                let v: i64 = f.input.sample_cached(pos, env, caches);
                let scale: i64 = rarity_scale(f.rarity, v);
                let x: i64 = sat_div(scale_blocks(pos.x(), UNIT), scale);
                let y: i64 = sat_div(scale_blocks(pos.y(), UNIT), scale);
                let z: i64 = sat_div(scale_blocks(pos.z(), UNIT), scale);
                sat_mul(scale, env.sample_noise(&f.noise, x, y, z))
            },
            DensityFunction::Range(f) => {
                let d: i64 = f.input.sample_cached(pos, env, caches);
                if d >= f.min && d < f.max {
                    f.in_range.sample_cached(pos, env, caches)
                } else {
                    f.out_range.sample_cached(pos, env, caches)
                }
            },
            DensityFunction::Wrapper(f) => f.input.sample_cached(pos, env, caches),
            DensityFunction::ChunkCacheFlatCache(f) => {
                match caches.lookup::<P>(f.slot, pos, Ghost(env)) {
                    Some(v) => v,
                    None => {
                        let v: i64 = f.input.sample_cached(pos, env, caches);
                        caches.store::<P>(f.slot, pos, v, Ghost(env));
                        v
                    },
                }
            },
            DensityFunction::ChunkCacheInterpolator(f) => {
                match f.grid.corners(pos) {
                    Some(c) => {
                        let samples = match caches.lookup_corners::<P>(f.slot, &c, Ghost(env)) {
                            Some(samples) => samples,
                            None => {
                                let samples = f.sample_corners_cached(&c, env, caches);
                                caches.store_corners::<P>(f.slot, &c, &samples, Ghost(env));
                                samples
                            },
                        };
                        f.interpolate(pos, &c, &samples)
                    },
                    None => f.input.sample_cached(pos, env, caches),
                }
            },
            DensityFunction::ChunkCacheCellCache(f) => {
                match caches.lookup::<P>(f.slot, pos, Ghost(env)) {
                    Some(v) => v,
                    None => {
                        let v: i64 = f.input.sample_cached(pos, env, caches);
                        caches.store::<P>(f.slot, pos, v, Ghost(env));
                        v
                    },
                }
            },
            DensityFunction::ChunkCache2DCache(f) => {
                match caches.lookup::<P>(f.slot, pos, Ghost(env)) {
                    Some(v) => v,
                    None => {
                        let v: i64 = f.input.sample_cached(pos, env, caches);
                        caches.store::<P>(f.slot, pos, v, Ghost(env));
                        v
                    },
                }
            },
            DensityFunction::ChunkCacheOnceCache(f) => {
                match caches.lookup::<P>(f.slot, pos, Ghost(env)) {
                    Some(v) => v,
                    None => {
                        let v: i64 = f.input.sample_cached(pos, env, caches);
                        caches.store::<P>(f.slot, pos, v, Ghost(env));
                        v
                    },
                }
            },
            _ => self.sample(pos, env),
        }
    }
}

impl DensityFunction {
    /// Writes into each slot of `densities` the density at the position that
    /// `applier` gives for the slot's index, sampled through the caches of
    /// the chunk that this graph is bound to.
    pub fn fill_cached<P: Primitives>(
        &self,
        densities: &mut Vec<i64>,
        applier: &Applier,
        env: &P,
        caches: &mut ChunkCaches,
    )
        requires
            old(densities).len() <= applier.len(),
            self.bound_in(old(caches).bindings()),
            old(caches).coherent(env),
        ensures
            final(densities).len() == old(densities).len(),
            forall|i: int|
                0 <= i < final(densities).len() ==> #[trigger] final(densities)[i] == self.value(
                    env,
                    applier.position(i),
                ),
            final(caches).coherent(env),
            final(caches).bindings() == old(caches).bindings(),
            final(caches).cell_grid() == old(caches).cell_grid(),
    {
        let n: usize = densities.len();
        let mut i: usize = 0;
        while i < n
            invariant
                i <= n,
                n == densities.len(),
                n <= applier.len(),
                self.bound_in(caches.bindings()),
                caches.coherent(env),
                caches.bindings() == old(caches).bindings(),
                caches.cell_grid() == old(caches).cell_grid(),
                forall|j: int|
                    0 <= j < i ==> #[trigger] densities[j] == self.value(env, applier.position(j)),
            decreases n - i,
        {
            let pos = applier.at(i);
            let density: i64 = self.sample_cached(&pos, env, caches);
            densities.set(i, density);
            i = i + 1;
        }
    }
}

/// The converter that binds graphs to a chunk. It remembers every handle it
/// has bound, so a sub-graph that stands below many parents is bound once
/// and stays one node with one cache.
pub struct ChunkSamplerDensityFunctionConverter {
    seen: Vec<Arc<DensityFunction>>,
    made: Vec<Arc<DensityFunction>>,
}

impl ChunkSamplerDensityFunctionConverter {
    /// Whether everything this converter remembers is bound in `bindings`
    /// and interpolates on `grid`.
    pub closed spec fn valid_for(&self, bindings: Seq<DensityFunction>, grid: CellGrid) -> bool {
        &&& self.seen@.len() == self.made@.len()
        &&& forall|i: int|
            0 <= i < self.made@.len() ==> {
                &&& (#[trigger] self.made@[i]).bound_in(bindings)
                &&& self.made@[i].unbound() == self.seen@[i].unbound()
                &&& self.made@[i].wrapper_free()
                &&& self.made@[i].blends_bound()
                &&& self.made@[i].interpolates_on(grid)
            }
    }

    /// Whether this converter remembers nothing.
    pub closed spec fn fresh(&self) -> bool {
        self.seen@.len() == 0 && self.made@.len() == 0
    }

    /// A converter that remembers nothing.
    pub fn new() -> (converter: Self)
        ensures
            converter.fresh(),
    {
        Self { seen: Vec::new(), made: Vec::new() }
    }

    /// A converter that remembers nothing is valid for any caches.
    pub proof fn lemma_fresh_is_valid(&self, bindings: Seq<DensityFunction>, grid: CellGrid)
        requires
            self.fresh(),
        ensures
            self.valid_for(bindings, grid),
    {
    }

    /// What a converter remembers stays bound when slots are added.
    pub proof fn lemma_valid_for_extension(
        &self,
        earlier: Seq<DensityFunction>,
        later: Seq<DensityFunction>,
        grid: CellGrid,
    )
        requires
            self.valid_for(earlier, grid),
            earlier.is_prefix_of(later),
        ensures
            self.valid_for(later, grid),
    {
        assert forall|i: int| 0 <= i < self.made@.len() implies (#[trigger] self.made@[i]).bound_in(
            later,
        ) by {
            lemma_bound_in_extension(&*self.made@[i], earlier, later);
        }
    }

    /// The bound form of `function`, if this converter has bound that very
    /// handle before.
    fn recall(
        &self,
        function: &Arc<DensityFunction>,
        Ghost(bindings): Ghost<Seq<DensityFunction>>,
        Ghost(grid): Ghost<CellGrid>,
    ) -> (bound: Option<Arc<DensityFunction>>)
        requires
            self.valid_for(bindings, grid),
        ensures
            bound matches Some(b) ==> {
                &&& b.bound_in(bindings)
                &&& b.unbound() == function.unbound()
                &&& b.wrapper_free()
                &&& b.blends_bound()
                &&& b.interpolates_on(grid)
            },
    {
        let n: usize = self.seen.len();
        let mut i: usize = 0;
        while i < n
            invariant
                i <= n,
                n == self.seen@.len(),
                self.valid_for(bindings, grid),
            decreases n - i,
        {
            if same_handle(&self.seen[i], function) {
                return Some(share(&self.made[i]));
            }
            i = i + 1;
        }
        None
    }

    /// Binds a graph to a chunk: every caching annotation becomes a cache
    /// with a slot of its own in the chunk's caches, every blend node its
    /// bound form. The children of a node are bound before the node itself,
    /// so the function under a cache is bound when the cache is made. A
    /// handle that was bound before is answered with the node made then.
    pub fn apply(&mut self, function: &Arc<DensityFunction>, caches: &mut ChunkCaches) -> (bound: Arc<
        DensityFunction,
    >)
        requires
            old(caches).well_formed(),
            old(self).valid_for(old(caches).bindings(), old(caches).cell_grid()),
        ensures
            final(caches).well_formed(),
            final(caches).extends(old(caches)),
            final(self).valid_for(final(caches).bindings(), final(caches).cell_grid()),
            bound.bound_in(final(caches).bindings()),
            bound.unbound() == function.unbound(),
            bound.wrapper_free(),
            bound.blends_bound(),
            bound.interpolates_on(final(caches).cell_grid()),
        decreases **function, 3nat,
    {
        proof {
            caches.lemma_extends_itself();
        }
        match self.recall(function, Ghost(caches.bindings()), Ghost(caches.cell_grid())) {
            Some(bound) => {
                return bound;
            },
            None => {},
        }
        let bound = self.bind(function, caches);
        self.seen.push(share(function));
        self.made.push(share(&bound));
        bound
    }

    /// Binds a node that has not been bound before.
    fn bind(&mut self, function: &DensityFunction, caches: &mut ChunkCaches) -> (bound: Arc<
        DensityFunction,
    >)
        requires
            old(caches).well_formed(),
            old(self).valid_for(old(caches).bindings(), old(caches).cell_grid()),
        ensures
            final(caches).well_formed(),
            final(caches).extends(old(caches)),
            final(self).valid_for(final(caches).bindings(), final(caches).cell_grid()),
            bound.bound_in(final(caches).bindings()),
            bound.unbound() == function.unbound(),
            bound.wrapper_free(),
            bound.blends_bound(),
            bound.interpolates_on(final(caches).cell_grid()),
        decreases function, 1nat,
    {
        let ghost start = *caches;
        proof {
            caches.lemma_extends_itself();
        }
        match function {
            DensityFunction::Clamp(f) => {
                let input = self.apply(&f.input, caches);
                Arc::new(DensityFunction::Clamp(ClampFunction { input, min: f.min, max: f.max }))
            },
            DensityFunction::Unary(f) => {
                let input = self.apply(&f.input, caches);
                Arc::new(DensityFunction::Unary(UnaryFunction { action: f.action, input }))
            },
            DensityFunction::ShiftedNoise(f) => {
                let shift_x = self.apply(&f.shift_x, caches);
                let ghost first = *caches;
                let shift_y = self.apply(&f.shift_y, caches);
                let ghost second = *caches;
                let shift_z = self.apply(&f.shift_z, caches);
                proof {
                    second.lemma_extends_transitive(&first, &start);
                    caches.lemma_extends_transitive(&second, &start);
                    caches.lemma_extends_bindings(&second);
                    caches.lemma_extends_grid(&second);
                    second.lemma_extends_bindings(&first);
                    second.lemma_extends_grid(&first);
                    lemma_bound_in_extension(&*shift_x, first.bindings(), second.bindings());
                    lemma_bound_in_extension(&*shift_x, second.bindings(), caches.bindings());
                    lemma_bound_in_extension(&*shift_y, second.bindings(), caches.bindings());
                }
                Arc::new(
                    DensityFunction::ShiftedNoise(
                        ShiftedNoiseFunction {
                            shift_x,
                            shift_y,
                            shift_z,
                            xz_scale: f.xz_scale,
                            y_scale: f.y_scale,
                            noise: share(&f.noise),
                        },
                    ),
                )
            },
            DensityFunction::Spline(f) => {
                let continents = self.apply(&f.spline.continents, caches);
                let ghost first = *caches;
                let erosion = self.apply(&f.spline.erosion, caches);
                let ghost second = *caches;
                let ridges = self.apply(&f.spline.ridges, caches);
                let ghost third = *caches;
                let ridges_folded = match &f.spline.ridges_folded {
                    Some(folded) => Some(self.apply(folded, caches)),
                    None => None,
                };
                proof {
                    third.lemma_extends_itself();
                    second.lemma_extends_transitive(&first, &start);
                    third.lemma_extends_transitive(&second, &start);
                    caches.lemma_extends_transitive(&third, &start);
                    second.lemma_extends_bindings(&first);
                    second.lemma_extends_grid(&first);
                    third.lemma_extends_bindings(&second);
                    third.lemma_extends_grid(&second);
                    caches.lemma_extends_bindings(&third);
                    caches.lemma_extends_grid(&third);
                    lemma_bound_in_extension(&*continents, first.bindings(), second.bindings());
                    lemma_bound_in_extension(&*continents, second.bindings(), third.bindings());
                    lemma_bound_in_extension(&*continents, third.bindings(), caches.bindings());
                    lemma_bound_in_extension(&*erosion, second.bindings(), third.bindings());
                    lemma_bound_in_extension(&*erosion, third.bindings(), caches.bindings());
                    lemma_bound_in_extension(&*ridges, third.bindings(), caches.bindings());
                }
                Arc::new(
                    DensityFunction::Spline(
                        SplineFunction {
                            spline: Arc::new(
                                Spline {
                                    shape: f.spline.shape,
                                    amplified: f.spline.amplified,
                                    continents,
                                    erosion,
                                    ridges,
                                    ridges_folded,
                                },
                            ),
                        },
                    ),
                )
            },
            DensityFunction::Linear(f) => {
                let input = self.apply(&f.input, caches);
                Arc::new(
                    DensityFunction::Linear(
                        LinearFunction { slope: f.slope, offset: f.offset, input },
                    ),
                )
            },
            DensityFunction::Binary(f) => {
                let arg1 = self.apply(&f.arg1, caches);
                let ghost first = *caches;
                let arg2 = self.apply(&f.arg2, caches);
                proof {
                    caches.lemma_extends_transitive(&first, &start);
                    caches.lemma_extends_bindings(&first);
                    caches.lemma_extends_grid(&first);
                    lemma_bound_in_extension(&*arg1, first.bindings(), caches.bindings());
                }
                Arc::new(DensityFunction::Binary(BinaryFunction { action: f.action, arg1, arg2 }))
            },
            DensityFunction::BlendDensity(f) => {
                let function = self.apply(&f.function, caches);
                Arc::new(DensityFunction::BlendDensity(BlendDensityFunction { function }))
            },
            DensityFunction::Wierd(f) => {
                let input = self.apply(&f.input, caches);
                Arc::new(
                    DensityFunction::Wierd(
                        WierdScaledFunction { input, noise: share(&f.noise), rarity: f.rarity },
                    ),
                )
            },
            DensityFunction::Range(f) => {
                let input = self.apply(&f.input, caches);
                let ghost first = *caches;
                let in_range = self.apply(&f.in_range, caches);
                let ghost second = *caches;
                let out_range = self.apply(&f.out_range, caches);
                proof {
                    second.lemma_extends_transitive(&first, &start);
                    caches.lemma_extends_transitive(&second, &start);
                    caches.lemma_extends_bindings(&second);
                    caches.lemma_extends_grid(&second);
                    second.lemma_extends_bindings(&first);
                    second.lemma_extends_grid(&first);
                    lemma_bound_in_extension(&*input, first.bindings(), second.bindings());
                    lemma_bound_in_extension(&*input, second.bindings(), caches.bindings());
                    lemma_bound_in_extension(&*in_range, second.bindings(), caches.bindings());
                }
                Arc::new(
                    DensityFunction::Range(
                        RangeFunction { input, min: f.min, max: f.max, in_range, out_range },
                    ),
                )
            },
            DensityFunction::Wrapper(f) => self.bind_cache(&f.input, f.wrapper, caches),
            DensityFunction::ChunkCacheFlatCache(f) => self.bind_cache(
                &f.input,
                WrapperType::CacheFlat,
                caches,
            ),
            DensityFunction::ChunkCacheInterpolator(f) => self.bind_cache(
                &f.input,
                WrapperType::Interpolated,
                caches,
            ),
            DensityFunction::ChunkCacheCellCache(f) => self.bind_cache(
                &f.input,
                WrapperType::CacheCell,
                caches,
            ),
            DensityFunction::ChunkCache2DCache(f) => self.bind_cache(
                &f.input,
                WrapperType::Cache2D,
                caches,
            ),
            DensityFunction::ChunkCacheOnceCache(f) => self.bind_cache(
                &f.input,
                WrapperType::CacheOnce,
                caches,
            ),
            DensityFunction::BlendAlpha(_) => Arc::new(
                DensityFunction::ChunkCacheBlendAlpha(BlendAlphaDensityFunction {  }),
            ),
            DensityFunction::BlendOffset(_) => Arc::new(
                DensityFunction::ChunkCacheBlendOffset(BlendOffsetDensityFunction {  }),
            ),
            DensityFunction::ChunkCacheBlendAlpha(_) => Arc::new(
                DensityFunction::ChunkCacheBlendAlpha(BlendAlphaDensityFunction {  }),
            ),
            DensityFunction::ChunkCacheBlendOffset(_) => Arc::new(
                DensityFunction::ChunkCacheBlendOffset(BlendOffsetDensityFunction {  }),
            ),
            DensityFunction::Noise(f) => Arc::new(DensityFunction::Noise(f.clone())),
            DensityFunction::ShiftA(f) => Arc::new(DensityFunction::ShiftA(f.clone())),
            DensityFunction::ShiftB(f) => Arc::new(DensityFunction::ShiftB(f.clone())),
            DensityFunction::Constant(f) => Arc::new(DensityFunction::Constant(*f)),
            DensityFunction::ClampedY(f) => Arc::new(DensityFunction::ClampedY(*f)),
            DensityFunction::InterpolatedNoise(f) => Arc::new(
                DensityFunction::InterpolatedNoise(*f),
            ),
            DensityFunction::EndIsland(f) => Arc::new(DensityFunction::EndIsland(*f)),
            DensityFunction::Beardifyer(f) => Arc::new(DensityFunction::Beardifyer(*f)),
        }
    }

    /// Binds the function under an annotation, then the annotation itself.
    fn bind_cache(
        &mut self,
        input: &Arc<DensityFunction>,
        wrapper: WrapperType,
        caches: &mut ChunkCaches,
    ) -> (bound: Arc<DensityFunction>)
        requires
            old(caches).well_formed(),
            old(self).valid_for(old(caches).bindings(), old(caches).cell_grid()),
        ensures
            final(caches).well_formed(),
            final(caches).extends(old(caches)),
            final(self).valid_for(final(caches).bindings(), final(caches).cell_grid()),
            bound.bound_in(final(caches).bindings()),
            bound.unbound() == DensityFunction::Wrapper(
                WrapperFunction { input: *input, wrapper },
            ).unbound(),
            bound.wrapper_free(),
            bound.blends_bound(),
            bound.interpolates_on(final(caches).cell_grid()),
        decreases **input, 4nat,
    {
        let ghost start = *caches;
        let input = self.apply(input, caches);
        let ghost first = *caches;
        let slot: usize = caches.allocate(&input, wrapper);
        proof {
            caches.lemma_extends_transitive(&first, &start);
            caches.lemma_extends_bindings(&first);
            lemma_bound_in_extension(&*input, first.bindings(), caches.bindings());
            caches.lemma_extends_grid(&first);
            self.lemma_valid_for_extension(first.bindings(), caches.bindings(), caches.cell_grid());
        }
        match wrapper {
            WrapperType::CacheFlat => Arc::new(
                DensityFunction::ChunkCacheFlatCache(FlatCacheDensityFunction { input, slot }),
            ),
            WrapperType::Interpolated => Arc::new(
                DensityFunction::ChunkCacheInterpolator(
                    InterpolatorDensityFunctionWrapper { input, slot, grid: caches.grid() },
                ),
            ),
            WrapperType::CacheCell => Arc::new(
                DensityFunction::ChunkCacheCellCache(
                    CellCacheDensityFunctionWrapper { input, slot },
                ),
            ),
            WrapperType::Cache2D => Arc::new(
                DensityFunction::ChunkCache2DCache(Cache2DDensityFunction { input, slot }),
            ),
            WrapperType::CacheOnce => Arc::new(
                DensityFunction::ChunkCacheOnceCache(CacheOnceDensityFunction { input, slot }),
            ),
        }
    }
}

} // verus!
