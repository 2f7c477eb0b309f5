//! The graphs that the terrain is made of.
//!
//! Every recipe is given twice: as a ghost function that says which graph is
//! meant, and as the function that builds it. Scalars are written in
//! millionths, so `1_564_000` is 1.564.
use std::sync::Arc;
use vstd::prelude::*;

use crate::fixed::{
    magnitude, minus, negated, plus, sat_abs, sat_add, sat_mul, sat_neg, sat_sub, times, UNIT,
};
use crate::function::{
    create_factor_spline, create_jaggedness_spline, create_offset_spline, BinaryType,
    BlendAlphaFunction, BlendDensityFunction, BlendOffsetFunction, ConstantFunction,
    DensityFunction, EndIslandFunction, NoiseFunction, RangeFunction, RarityMapper,
    ShiftAFunction, ShiftBFunction, ShiftedNoiseFunction, Spline, SplineFunction, UnaryType,
    WierdScaledFunction, WrapperFunction, WrapperType, YClampedFunction,
};
use crate::handle::share;
use crate::math::{add_constant, clamped, combined, constant, mul_constant, unary};
use crate::noise::{
    DoublePerlinNoiseParameters, InternalNoise, InterpolatedNoiseSampler, SplineShape,
};
use crate::semantics::{HALF, QUARTER};

verus! {

/// The lowest height of a world.
pub const MIN_HEIGHT: i32 = -2032;

/// The height of the tallest column of a world.
pub const MAX_COLUMN_HEIGHT: i32 = 2031;

/// The noise parameters that the built-in graphs draw on, by name.
pub struct BuiltInNoiseParams {
    pub offset: Arc<DoublePerlinNoiseParameters>,
    pub continentalness: Arc<DoublePerlinNoiseParameters>,
    pub continentalness_large: Arc<DoublePerlinNoiseParameters>,
    pub erosion: Arc<DoublePerlinNoiseParameters>,
    pub erosion_large: Arc<DoublePerlinNoiseParameters>,
    pub ridge: Arc<DoublePerlinNoiseParameters>,
    pub jagged: Arc<DoublePerlinNoiseParameters>,
    pub spaghetti_roughness_modulator: Arc<DoublePerlinNoiseParameters>,
    pub spaghetti_roughness: Arc<DoublePerlinNoiseParameters>,
    pub spaghetti_2d_thickness: Arc<DoublePerlinNoiseParameters>,
    pub spaghetti_2d_modulator: Arc<DoublePerlinNoiseParameters>,
    pub spaghetti_2d: Arc<DoublePerlinNoiseParameters>,
    pub spaghetti_2d_elevation: Arc<DoublePerlinNoiseParameters>,
    pub spaghetti_3d_rarity: Arc<DoublePerlinNoiseParameters>,
    pub spaghetti_3d_thickness: Arc<DoublePerlinNoiseParameters>,
    pub spaghetti_3d_1: Arc<DoublePerlinNoiseParameters>,
    pub spaghetti_3d_2: Arc<DoublePerlinNoiseParameters>,
    pub cave_entrance: Arc<DoublePerlinNoiseParameters>,
    pub noodle: Arc<DoublePerlinNoiseParameters>,
    pub noodle_thickness: Arc<DoublePerlinNoiseParameters>,
    pub noodle_ridge_a: Arc<DoublePerlinNoiseParameters>,
    pub noodle_ridge_b: Arc<DoublePerlinNoiseParameters>,
    pub pillar: Arc<DoublePerlinNoiseParameters>,
    pub pillar_rareness: Arc<DoublePerlinNoiseParameters>,
    pub pillar_thickness: Arc<DoublePerlinNoiseParameters>,
}

/// The function `f` under a caching annotation.
pub open spec fn wrapped(f: DensityFunction, wrapper: WrapperType) -> DensityFunction {
    DensityFunction::Wrapper(WrapperFunction { input: Arc::new(f), wrapper })
}

/// The noise with the given parameters, sampled at the scaled position.
pub open spec fn noise_node(
    data: Arc<DoublePerlinNoiseParameters>,
    xz_scale: int,
    y_scale: int,
) -> DensityFunction {
    DensityFunction::Noise(
        NoiseFunction {
            noise: Arc::new(InternalNoise { data }),
            xz_scale: xz_scale as i64,
            y_scale: y_scale as i64,
        },
    )
}

/// A line in the height, clamped at its ends.
pub open spec fn clamped_y(from: int, to: int, from_val: int, to_val: int) -> DensityFunction {
    DensityFunction::ClampedY(
        YClampedFunction {
            from: from as i32,
            to: to as i32,
            from_val: from_val as i64,
            to_val: to_val as i64,
        },
    )
}

/// The weird noise that `input` modulates.
pub open spec fn weird(
    input: DensityFunction,
    data: Arc<DoublePerlinNoiseParameters>,
    rarity: RarityMapper,
) -> DensityFunction {
    DensityFunction::Wierd(
        WierdScaledFunction {
            input: Arc::new(input),
            noise: Arc::new(InternalNoise { data }),
            rarity,
        },
    )
}

/// The function that maps a function with values in -1..1 onto `min..max`:
/// `(min + max) / 2 + (max - min) / 2 * f`.
pub open spec fn mapped_range(f: DensityFunction, min: int, max: int) -> DensityFunction {
    let d = times(plus(min, max), HALF as int);
    let e = times(minus(max, min), HALF as int);
    combined(BinaryType::Add, constant(d), combined(BinaryType::Mul, constant(e), f))
}

/// A noise mapped onto `min..max`.
pub open spec fn ranged_noise(
    data: Arc<DoublePerlinNoiseParameters>,
    xz_scale: int,
    y_scale: int,
    min: int,
    max: int,
) -> DensityFunction {
    mapped_range(noise_node(data, xz_scale, y_scale), min, max)
}

/// The interpolation from `start` to `end` by `delta`, for a constant start:
/// `delta * (end - start) + start`.
pub open spec fn lerp_static(delta: DensityFunction, start: int, end: DensityFunction) -> DensityFunction {
    add_constant(
        combined(BinaryType::Mul, delta, add_constant(end, negated(start))),
        start,
    )
}

/// The interpolation from `start` to `end` by `delta`. A constant start takes
/// the short form; any other start gives `start * (1 - delta) + end * delta`
/// with `delta` cached once.
pub open spec fn lerp(delta: DensityFunction, start: DensityFunction, end: DensityFunction) -> DensityFunction {
    match start {
        DensityFunction::Constant(c) => lerp_static(delta, c.value as int, end),
        _ => {
            let cached = wrapped(delta, WrapperType::CacheOnce);
            let rest = add_constant(mul_constant(cached, -UNIT), UNIT as int);
            combined(
                BinaryType::Add,
                combined(BinaryType::Mul, start, rest),
                combined(BinaryType::Mul, end, cached),
            )
        },
    }
}

/// `in_range` where `input` lies within the heights `min..=max`, the constant
/// `out` elsewhere; interpolated.
pub open spec fn range_choice(
    input: DensityFunction,
    in_range: DensityFunction,
    min: int,
    max: int,
    out: int,
) -> DensityFunction {
    wrapped(
        DensityFunction::Range(
            RangeFunction {
                input: Arc::new(input),
                min: (min * UNIT) as i64,
                max: ((max + 1) * UNIT) as i64,
                in_range: Arc::new(in_range),
                out_range: Arc::new(constant(out * UNIT)),
            },
        ),
        WrapperType::Interpolated,
    )
}

/// The density after blending, squeezed: `squeeze(0.64 * interpolated(blend(density)))`.
pub open spec fn blended_density(density: DensityFunction) -> DensityFunction {
    unary(
        UnaryType::Squeeze,
        mul_constant(
            wrapped(
                DensityFunction::BlendDensity(BlendDensityFunction { function: Arc::new(density) }),
                WrapperType::Interpolated,
            ),
            640_000,
        ),
    )
}

/// The function blended toward `blend` where chunks meet, cached per column.
pub open spec fn blended(function: DensityFunction, blend: DensityFunction) -> DensityFunction {
    wrapped(
        wrapped(
            lerp(DensityFunction::BlendAlpha(BlendAlphaFunction {  }), blend, function),
            WrapperType::Cache2D,
        ),
        WrapperType::CacheFlat,
    )
}

/// A terrain spline as a function.
pub open spec fn spline_node(spline: Spline) -> DensityFunction {
    DensityFunction::Spline(SplineFunction { spline: Arc::new(spline) })
}

/// What goes into a sloped-cheese bundle.
pub struct SlopedCheeseInput {
    pub jagged_noise: DensityFunction,
    pub continents: DensityFunction,
    pub erosion: DensityFunction,
    pub ridges: DensityFunction,
    pub ridges_folded: DensityFunction,
    pub blend_offset: DensityFunction,
    pub ten: DensityFunction,
    pub zero: DensityFunction,
    pub base_3d_noise: DensityFunction,
    pub amplified: bool,
}

/// The five functions of a sloped-cheese bundle.
pub struct SlopedCheeseResult {
    pub offset: Arc<DensityFunction>,
    pub factor: Arc<DensityFunction>,
    pub depth: Arc<DensityFunction>,
    pub jaggedness: Arc<DensityFunction>,
    pub sloped_cheese: Arc<DensityFunction>,
}

impl SlopedCheeseInput {
    /// The offset spline lowered by 0.50375, blended toward the blend offset.
    pub open spec fn offset(self) -> DensityFunction {
        blended(
            add_constant(
                spline_node(
                    Spline {
                        shape: SplineShape::Offset,
                        amplified: self.amplified,
                        continents: Arc::new(self.continents),
                        erosion: Arc::new(self.erosion),
                        ridges: Arc::new(self.ridges),
                        ridges_folded: None,
                    },
                ),
                -503_750,
            ),
            self.blend_offset,
        )
    }

    /// The factor spline, blended toward ten.
    pub open spec fn factor(self) -> DensityFunction {
        blended(
            spline_node(
                Spline {
                    shape: SplineShape::Factor,
                    amplified: self.amplified,
                    continents: Arc::new(self.continents),
                    erosion: Arc::new(self.erosion),
                    ridges: Arc::new(self.ridges),
                    ridges_folded: Some(Arc::new(self.ridges_folded)),
                },
            ),
            self.ten,
        )
    }

    /// The height gradient plus the offset.
    pub open spec fn depth(self) -> DensityFunction {
        combined(BinaryType::Add, clamped_y(-64, 320, 1_564_000, -1_500_000), self.offset())
    }

    /// The jaggedness spline, blended toward zero.
    pub open spec fn jaggedness(self) -> DensityFunction {
        blended(
            spline_node(
                Spline {
                    shape: SplineShape::Jaggedness,
                    amplified: self.amplified,
                    continents: Arc::new(self.continents),
                    erosion: Arc::new(self.erosion),
                    ridges: Arc::new(self.ridges),
                    ridges_folded: Some(Arc::new(self.ridges_folded)),
                },
            ),
            self.zero,
        )
    }

    /// `4 * quarter_negative((depth + jaggedness * half_negative(jagged)) *
    /// factor) + base`.
    pub open spec fn sloped_cheese(self) -> DensityFunction {
        let density1 = combined(
            BinaryType::Mul,
            self.jaggedness(),
            unary(UnaryType::HalfNeg, self.jagged_noise),
        );
        let density2 = combined(
            BinaryType::Mul,
            constant(4 * UNIT),
            unary(
                UnaryType::QuartNeg,
                combined(
                    BinaryType::Mul,
                    combined(BinaryType::Add, self.depth(), density1),
                    self.factor(),
                ),
            ),
        );
        combined(BinaryType::Add, density2, self.base_3d_noise)
    }
}

/// The peaks-and-valleys fold of a ridge value: `-(||v| - 2/3| - 1/3) * 3`.
pub open spec fn peaks_valleys(v: int) -> int {
    times(negated(minus(magnitude(minus(magnitude(v), 666_667)), 333_333)), 3 * UNIT)
}

/// The peaks-and-valleys fold of a ridge value.
pub fn peaks_valleys_noise(variance: i64) -> (r: i64)
    ensures
        r == peaks_valleys(variance as int),
{
    let ridge: i64 = sat_abs(sat_sub(sat_abs(variance), 666_667));
    sat_mul(sat_neg(sat_sub(ridge, 333_333)), 3 * UNIT)
}

/// `in_range` where `input` lies within the heights `min..=max`, the constant
/// `out` elsewhere; interpolated.
pub fn veritcal_range_choice(
    input: Arc<DensityFunction>,
    in_range: Arc<DensityFunction>,
    min: i32,
    max: i32,
    out: i32,
) -> (function: DensityFunction)
    ensures
        function == range_choice(*input, *in_range, min as int, max as int, out as int),
{
    DensityFunction::Wrapper(
        WrapperFunction::new(
            Arc::new(
                DensityFunction::Range(
                    RangeFunction {
                        input,
                        min: (min as i64) * UNIT,
                        max: (max as i64 + 1) * UNIT,
                        in_range,
                        out_range: Arc::new(
                            DensityFunction::Constant(ConstantFunction::new((out as i64) * UNIT)),
                        ),
                    },
                ),
            ),
            WrapperType::Interpolated,
        ),
    )
}

/// The density after blending, squeezed.
pub fn apply_blend_density(density: DensityFunction) -> (function: DensityFunction)
    ensures
        function == blended_density(density),
{
    let function = DensityFunction::BlendDensity(BlendDensityFunction::new(Arc::new(density)));
    DensityFunction::Wrapper(
        WrapperFunction::new(Arc::new(function), WrapperType::Interpolated),
    ).mul_const(640_000).squeeze()
}

/// The function blended toward `blend` where chunks meet, cached per column.
pub fn apply_blending(function: Arc<DensityFunction>, blend: Arc<DensityFunction>) -> (result:
    DensityFunction)
    ensures
        result == blended(*function, *blend),
{
    let function = lerp_density(
        Arc::new(DensityFunction::BlendAlpha(BlendAlphaFunction {  })),
        blend,
        function,
    );
    DensityFunction::Wrapper(
        WrapperFunction::new(
            Arc::new(
                DensityFunction::Wrapper(
                    WrapperFunction::new(Arc::new(function), WrapperType::Cache2D),
                ),
            ),
            WrapperType::CacheFlat,
        ),
    )
}

/// A noise mapped onto `min..max`.
pub fn noise_in_range(
    noise: Arc<DoublePerlinNoiseParameters>,
    xz_scale: i64,
    y_scale: i64,
    min: i64,
    max: i64,
) -> (function: DensityFunction)
    ensures
        function == ranged_noise(noise, xz_scale as int, y_scale as int, min as int, max as int),
{
    map_range(
        Arc::new(
            DensityFunction::Noise(
                NoiseFunction::new(Arc::new(InternalNoise::new(noise)), xz_scale, y_scale),
            ),
        ),
        min,
        max,
    )
}

/// The function that maps a function with values in -1..1 onto `min..max`.
pub fn map_range(function: Arc<DensityFunction>, min: i64, max: i64) -> (result: DensityFunction)
    ensures
        result == mapped_range(*function, min as int, max as int),
{
    let d: i64 = sat_mul(sat_add(min, max), HALF);
    let e: i64 = sat_mul(sat_sub(max, min), HALF);
    DensityFunction::Constant(ConstantFunction::new(d)).add(
        Arc::new(DensityFunction::Constant(ConstantFunction::new(e)).mul(function)),
    )
}

/// The interpolation from `start` to `end` by `delta`.
pub fn lerp_density(
    delta: Arc<DensityFunction>,
    start: Arc<DensityFunction>,
    end: Arc<DensityFunction>,
) -> (function: DensityFunction)
    ensures
        function == lerp(*delta, *start, *end),
{
    if let DensityFunction::Constant(function) = &*start {
        lerp_density_static_start(delta, function.value, end)
    } else {
        let function = Arc::new(
            DensityFunction::Wrapper(WrapperFunction::new(delta, WrapperType::CacheOnce)),
        );
        let function2 = Arc::new(function.mul_const(-UNIT).add_const(UNIT));
        start.mul(function2).add(Arc::new(end.mul(function)))
    }
}

/// The interpolation from the constant `start` to `end` by `delta`.
pub fn lerp_density_static_start(
    delta: Arc<DensityFunction>,
    start: i64,
    end: Arc<DensityFunction>,
) -> (function: DensityFunction)
    ensures
        function == lerp_static(*delta, start as int, *end),
{
    delta.mul(Arc::new(end.add_const(sat_neg(start)))).add_const(start)
}

/// Builds the five functions of a sloped-cheese bundle.
pub fn sloped_cheese_function(
    jagged_noise: Arc<DensityFunction>,
    continents: Arc<DensityFunction>,
    erosion: Arc<DensityFunction>,
    ridges: Arc<DensityFunction>,
    ridges_folded: Arc<DensityFunction>,
    blend_offset: Arc<DensityFunction>,
    ten: Arc<DensityFunction>,
    zero: Arc<DensityFunction>,
    base_3d_noise_overworld: Arc<DensityFunction>,
    amplified: bool,
) -> (result: SlopedCheeseResult)
    ensures
        ({
            let input = SlopedCheeseInput {
                jagged_noise: *jagged_noise,
                continents: *continents,
                erosion: *erosion,
                ridges: *ridges,
                ridges_folded: *ridges_folded,
                blend_offset: *blend_offset,
                ten: *ten,
                zero: *zero,
                base_3d_noise: *base_3d_noise_overworld,
                amplified,
            };
            &&& *result.offset == input.offset()
            &&& *result.factor == input.factor()
            &&& *result.depth == input.depth()
            &&& *result.jaggedness == input.jaggedness()
            &&& *result.sloped_cheese == input.sloped_cheese()
        }),
{
    let offset = Arc::new(
        apply_blending(
            Arc::new(
                DensityFunction::Spline(
                    SplineFunction::new(
                        Arc::new(
                            create_offset_spline(
                                share(&continents),
                                share(&erosion),
                                share(&ridges),
                                amplified,
                            ),
                        ),
                    ),
                ).add_const(-503_750),
            ),
            blend_offset,
        ),
    );

    let factor = Arc::new(
        apply_blending(
            Arc::new(
                DensityFunction::Spline(
                    SplineFunction::new(
                        Arc::new(
                            create_factor_spline(
                                share(&continents),
                                share(&erosion),
                                share(&ridges),
                                share(&ridges_folded),
                                amplified,
                            ),
                        ),
                    ),
                ),
            ),
            ten,
        ),
    );

    let depth = Arc::new(
        DensityFunction::ClampedY(
            YClampedFunction { from: -64, to: 320, from_val: 1_564_000, to_val: -1_500_000 },
        ).add(share(&offset)),
    );

    let jaggedness = Arc::new(
        apply_blending(
            Arc::new(
                DensityFunction::Spline(
                    SplineFunction::new(
                        Arc::new(
                            create_jaggedness_spline(
                                continents,
                                erosion,
                                ridges,
                                ridges_folded,
                                amplified,
                            ),
                        ),
                    ),
                ),
            ),
            zero,
        ),
    );

    let density1 = Arc::new(jaggedness.mul(Arc::new(jagged_noise.half_negative())));
    let density2 = DensityFunction::Constant(ConstantFunction::new(4 * UNIT)).mul(
        Arc::new(depth.add(density1).mul(share(&factor)).quarter_negative()),
    );

    let sloped_cheese = Arc::new(density2.add(base_3d_noise_overworld));

    SlopedCheeseResult { offset, factor, depth, jaggedness, sloped_cheese }
}

} // verus!
