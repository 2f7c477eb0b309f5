//! The named built-in graphs, assembled from the noise parameters.
use std::sync::Arc;
use vstd::prelude::*;

use crate::built_in::{
    clamped_y, noise_in_range, noise_node, range_choice, ranged_noise, sloped_cheese_function,
    veritcal_range_choice, weird, wrapped, BuiltInNoiseParams, SlopedCheeseInput,
    MAX_COLUMN_HEIGHT, MIN_HEIGHT,
};
use crate::fixed::UNIT;
use crate::function::{
    BinaryType, BlendAlphaFunction, BlendOffsetFunction, ConstantFunction, DensityFunction,
    EndIslandFunction, NoiseFunction, RangeFunction, RarityMapper, ShiftAFunction,
    ShiftBFunction, ShiftedNoiseFunction, UnaryType, WierdScaledFunction, WrapperFunction,
    WrapperType, YClampedFunction,
};
use crate::handle::share;
use crate::math::{add_constant, clamped, combined, constant, mul_constant, unary};
use crate::noise::{DoublePerlinNoiseParameters, InternalNoise, InterpolatedNoiseSampler};
use crate::semantics::QUARTER;

verus! {

/// The interpolated base noise with the given scales.
pub open spec fn base_3d_noise(
    xz_scale: int,
    y_scale: int,
    xz_factor: int,
    y_factor: int,
    smear_scale_multiplier: int,
) -> DensityFunction {
    DensityFunction::InterpolatedNoise(
        InterpolatedNoiseSampler {
            xz_scale: xz_scale as i64,
            y_scale: y_scale as i64,
            xz_factor: xz_factor as i64,
            y_factor: y_factor as i64,
            smear_scale_multiplier: smear_scale_multiplier as i64,
        },
    )
}

impl BuiltInNoiseParams {
    /// The height itself, over the whole height range.
    pub open spec fn y() -> DensityFunction {
        clamped_y(
            MIN_HEIGHT * 2,
            MAX_COLUMN_HEIGHT * 2,
            MIN_HEIGHT * 2 * UNIT,
            MAX_COLUMN_HEIGHT * 2 * UNIT,
        )
    }

    /// The horizontal shift along the first axis, cached.
    pub open spec fn shift_x(&self) -> DensityFunction {
        wrapped(
            wrapped(
                DensityFunction::ShiftA(
                    ShiftAFunction { offset: Arc::new(InternalNoise { data: self.offset }) },
                ),
                WrapperType::Cache2D,
            ),
            WrapperType::CacheFlat,
        )
    }

    /// The horizontal shift along the second axis, cached.
    pub open spec fn shift_z(&self) -> DensityFunction {
        wrapped(
            wrapped(
                DensityFunction::ShiftB(
                    ShiftBFunction { offset: Arc::new(InternalNoise { data: self.offset }) },
                ),
                WrapperType::Cache2D,
            ),
            WrapperType::CacheFlat,
        )
    }

    /// A noise at a quarter of the horizontal scale, moved by the two shifts
    /// and cached per column.
    pub open spec fn shifted(&self, data: Arc<DoublePerlinNoiseParameters>) -> DensityFunction {
        wrapped(
            DensityFunction::ShiftedNoise(
                ShiftedNoiseFunction {
                    shift_x: Arc::new(self.shift_x()),
                    shift_y: Arc::new(constant(0)),
                    shift_z: Arc::new(self.shift_z()),
                    xz_scale: QUARTER,
                    y_scale: 0,
                    noise: Arc::new(InternalNoise { data }),
                },
            ),
            WrapperType::CacheFlat,
        )
    }

    /// The ridges folded into peaks and valleys: `(||r| - 2/3| - 1/3) * -3`.
    pub open spec fn ridges_folded(&self) -> DensityFunction {
        mul_constant(
            add_constant(
                unary(
                    UnaryType::Abs,
                    add_constant(unary(UnaryType::Abs, self.shifted(self.ridge)), -666_667),
                ),
                -333_333,
            ),
            -3 * UNIT,
        )
    }

    /// What the sloped-cheese bundle of the given kind is built from.
    pub open spec fn sloped_cheese_input(&self, large_biome: bool, amplified: bool) -> SlopedCheeseInput {
        SlopedCheeseInput {
            jagged_noise: noise_node(self.jagged, 1500 * UNIT, 0),
            continents: if large_biome {
                self.shifted(self.continentalness_large)
            } else {
                self.shifted(self.continentalness)
            },
            erosion: if large_biome {
                self.shifted(self.erosion_large)
            } else {
                self.shifted(self.erosion)
            },
            ridges: self.shifted(self.ridge),
            ridges_folded: self.ridges_folded(),
            blend_offset: DensityFunction::BlendOffset(BlendOffsetFunction {  }),
            ten: constant(10 * UNIT),
            zero: constant(0),
            base_3d_noise: base_3d_noise(250_000, 125_000, 80 * UNIT, 160 * UNIT, 8 * UNIT),
            amplified,
        }
    }

    /// The end islands on top of the base noise of the end.
    pub open spec fn sloped_cheese_end() -> DensityFunction {
        combined(
            BinaryType::Add,
            DensityFunction::EndIsland(EndIslandFunction { seed: 0 }),
            base_3d_noise(250_000, 250_000, 80 * UNIT, 160 * UNIT, 4 * UNIT),
        )
    }

    /// How rough the walls of spaghetti caves are.
    pub open spec fn caves_spaghetti_roughness_function(&self) -> DensityFunction {
        wrapped(
            combined(
                BinaryType::Mul,
                ranged_noise(self.spaghetti_roughness_modulator, UNIT as int, UNIT as int, 0, -100_000),
                add_constant(
                    unary(
                        UnaryType::Abs,
                        noise_node(self.spaghetti_roughness, UNIT as int, UNIT as int),
                    ),
                    -400_000,
                ),
            ),
            WrapperType::CacheOnce,
        )
    }

    /// How thick the flat spaghetti caves are.
    pub open spec fn caves_spaghetti_2d_thickness_modular(&self) -> DensityFunction {
        wrapped(
            ranged_noise(self.spaghetti_2d_thickness, 2 * UNIT, UNIT as int, -600_000, -1_300_000),
            WrapperType::CacheOnce,
        )
    }

    /// The flat spaghetti caves.
    pub open spec fn caves_spaghetti_2d(&self) -> DensityFunction {
        let function1 = noise_node(self.spaghetti_2d_modulator, 2 * UNIT, UNIT as int);
        let function2 = weird(function1, self.spaghetti_2d, RarityMapper::Caves);
        let function3 = ranged_noise(
            self.spaghetti_2d_elevation,
            UNIT as int,
            0,
            -8 * UNIT,
            8 * UNIT,
        );
        let function4 = self.caves_spaghetti_2d_thickness_modular();
        let function5 = combined(
            BinaryType::Add,
            function3,
            unary(UnaryType::Abs, clamped_y(-64, 320, 8 * UNIT, -40 * UNIT)),
        );
        let function6 = unary(UnaryType::Cube, combined(BinaryType::Add, function5, function4));
        let function7 = combined(BinaryType::Add, function2, mul_constant(function4, 83_000));
        clamped(combined(BinaryType::Max, function7, function6), -UNIT, UNIT as int)
    }

    /// The cave entrances.
    pub open spec fn caves_entrances(&self) -> DensityFunction {
        let function = noise_node(self.spaghetti_3d_rarity, 2 * UNIT, UNIT as int);
        let function2 = ranged_noise(
            self.spaghetti_3d_thickness,
            UNIT as int,
            UNIT as int,
            -65_000,
            -88_000,
        );
        let function3 = weird(function, self.spaghetti_3d_1, RarityMapper::Tunnels);
        let function4 = weird(function, self.spaghetti_3d_2, RarityMapper::Tunnels);
        let function5 = clamped(
            combined(
                BinaryType::Add,
                combined(BinaryType::Max, function3, function4),
                function2,
            ),
            -UNIT,
            UNIT as int,
        );
        let function6 = self.caves_spaghetti_roughness_function();
        let function7 = noise_node(self.cave_entrance, 750_000, 500_000);
        let function8 = combined(
            BinaryType::Add,
            add_constant(function7, 370_000),
            clamped_y(-10, 30, 300_000, 0),
        );
        wrapped(
            combined(
                BinaryType::Min,
                function8,
                combined(BinaryType::Add, function6, function5),
            ),
            WrapperType::CacheOnce,
        )
    }

    /// The noodle caves.
    pub open spec fn caves_noodle(&self) -> DensityFunction {
        let function = Self::y();
        let function2 = range_choice(
            function,
            noise_node(self.noodle, UNIT as int, UNIT as int),
            -60,
            320,
            -1,
        );
        let function3 = range_choice(
            function,
            ranged_noise(self.noodle_thickness, UNIT as int, UNIT as int, -50_000, -100_000),
            -60,
            320,
            0,
        );
        let function4 = range_choice(
            function,
            noise_node(self.noodle_ridge_a, 2_666_667, 2_666_667),
            -60,
            320,
            0,
        );
        let function5 = range_choice(
            function,
            noise_node(self.noodle_ridge_b, 2_666_667, 2_666_667),
            -60,
            320,
            0,
        );
        let function6 = mul_constant(
            combined(
                BinaryType::Max,
                unary(UnaryType::Abs, function4),
                unary(UnaryType::Abs, function5),
            ),
            1_500_000,
        );
        DensityFunction::Range(
            RangeFunction {
                input: Arc::new(function2),
                min: (-1_000_000 * UNIT) as i64,
                max: 0,
                in_range: Arc::new(constant(64 * UNIT)),
                out_range: Arc::new(combined(BinaryType::Add, function3, function6)),
            },
        )
    }

    /// The pillars that stand in large caves.
    pub open spec fn caves_pillars(&self) -> DensityFunction {
        let function = noise_node(self.pillar, 25 * UNIT, 300_000);
        let function2 = ranged_noise(self.pillar_rareness, UNIT as int, UNIT as int, 0, -2 * UNIT);
        let function3 = ranged_noise(self.pillar_thickness, UNIT as int, UNIT as int, 0, 1_100_000);
        let function4 = combined(BinaryType::Add, mul_constant(function, 2 * UNIT), function2);
        wrapped(
            combined(BinaryType::Mul, function4, unary(UnaryType::Cube, function3)),
            WrapperType::CacheOnce,
        )
    }
}

/// The built-in graphs by name. Sub-graphs that several of them use are
/// shared, not copied.
pub struct BuiltInNoiseFunctions {
    pub zero: Arc<DensityFunction>,
    pub ten: Arc<DensityFunction>,
    pub blend_alpha: Arc<DensityFunction>,
    pub blend_offset: Arc<DensityFunction>,
    pub y: Arc<DensityFunction>,
    pub shift_x: Arc<DensityFunction>,
    pub shift_z: Arc<DensityFunction>,
    pub base_3d_noise_overworld: Arc<DensityFunction>,
    pub base_3d_noise_nether: Arc<DensityFunction>,
    pub base_3d_noise_end: Arc<DensityFunction>,
    pub continents_overworld: Arc<DensityFunction>,
    pub erosion_overworld: Arc<DensityFunction>,
    pub ridges_overworld: Arc<DensityFunction>,
    pub ridges_folded_overworld: Arc<DensityFunction>,
    pub offset_overworld: Arc<DensityFunction>,
    pub factor_overworld: Arc<DensityFunction>,
    pub jaggedness_overworld: Arc<DensityFunction>,
    pub depth_overworld: Arc<DensityFunction>,
    pub sloped_cheese_overworld: Arc<DensityFunction>,
    pub continents_overworld_large_biome: Arc<DensityFunction>,
    pub erosion_overworld_large_biome: Arc<DensityFunction>,
    pub offset_overworld_large_biome: Arc<DensityFunction>,
    pub factor_overworld_large_biome: Arc<DensityFunction>,
    pub jaggedness_overworld_large_biome: Arc<DensityFunction>,
    pub depth_overworld_large_biome: Arc<DensityFunction>,
    pub sloped_cheese_overworld_large_biome: Arc<DensityFunction>,
    pub offset_overworld_amplified: Arc<DensityFunction>,
    pub factor_overworld_amplified: Arc<DensityFunction>,
    pub jaggedness_overworld_amplified: Arc<DensityFunction>,
    pub depth_overworld_amplified: Arc<DensityFunction>,
    pub sloped_cheese_overworld_amplified: Arc<DensityFunction>,
    pub sloped_cheese_end: Arc<DensityFunction>,
    pub caves_spaghetti_roughness_function_overworld: Arc<DensityFunction>,
    pub caves_spaghetti_2d_thickness_modular_overworld: Arc<DensityFunction>,
    pub caves_spaghetti_2d_overworld: Arc<DensityFunction>,
    pub caves_entrances_overworld: Arc<DensityFunction>,
    pub caves_noodle_overworld: Arc<DensityFunction>,
    pub caves_pillars_overworld: Arc<DensityFunction>,
}

/// The noise with the given parameters, sampled at the scaled position.
fn noise_function(data: &Arc<DoublePerlinNoiseParameters>, xz_scale: i64, y_scale: i64) -> (function:
    DensityFunction)
    ensures
        function == noise_node(*data, xz_scale as int, y_scale as int),
{
    DensityFunction::Noise(
        NoiseFunction::new(Arc::new(InternalNoise::new(share(data))), xz_scale, y_scale),
    )
}

/// A noise at a quarter of the horizontal scale, moved by the two shifts and
/// cached per column.
fn shifted_noise(
    shift_x: &Arc<DensityFunction>,
    zero: &Arc<DensityFunction>,
    shift_z: &Arc<DensityFunction>,
    data: &Arc<DoublePerlinNoiseParameters>,
) -> (function: Arc<DensityFunction>)
    ensures
        *function == wrapped(
            DensityFunction::ShiftedNoise(
                ShiftedNoiseFunction {
                    shift_x: *shift_x,
                    shift_y: *zero,
                    shift_z: *shift_z,
                    xz_scale: QUARTER,
                    y_scale: 0,
                    noise: Arc::new(InternalNoise { data: *data }),
                },
            ),
            WrapperType::CacheFlat,
        ),
{
    Arc::new(
        DensityFunction::Wrapper(
            WrapperFunction::new(
                Arc::new(
                    DensityFunction::ShiftedNoise(
                        ShiftedNoiseFunction::new(
                            share(shift_x),
                            share(zero),
                            share(shift_z),
                            QUARTER,
                            0,
                            Arc::new(InternalNoise::new(share(data))),
                        ),
                    ),
                ),
                WrapperType::CacheFlat,
            ),
        ),
    )
}

impl BuiltInNoiseFunctions {
    /// Builds every built-in graph from the noise parameters.
    pub fn new(built_in_noise_params: &BuiltInNoiseParams) -> (functions: Self)
        ensures
            *functions.zero == constant(0),
            *functions.ten == constant(10 * UNIT),
            *functions.blend_alpha == DensityFunction::BlendAlpha(BlendAlphaFunction {  }),
            *functions.blend_offset == DensityFunction::BlendOffset(BlendOffsetFunction {  }),
            *functions.y == BuiltInNoiseParams::y(),
            *functions.shift_x == built_in_noise_params.shift_x(),
            *functions.shift_z == built_in_noise_params.shift_z(),
            *functions.base_3d_noise_overworld == base_3d_noise(
                250_000,
                125_000,
                80 * UNIT,
                160 * UNIT,
                8 * UNIT,
            ),
            *functions.base_3d_noise_nether == base_3d_noise(
                250_000,
                375_000,
                80 * UNIT,
                60 * UNIT,
                8 * UNIT,
            ),
            *functions.base_3d_noise_end == base_3d_noise(
                250_000,
                250_000,
                80 * UNIT,
                160 * UNIT,
                4 * UNIT,
            ),
            *functions.continents_overworld == built_in_noise_params.shifted(
                built_in_noise_params.continentalness,
            ),
            *functions.erosion_overworld == built_in_noise_params.shifted(
                built_in_noise_params.erosion,
            ),
            *functions.ridges_overworld == built_in_noise_params.shifted(
                built_in_noise_params.ridge,
            ),
            *functions.ridges_folded_overworld == built_in_noise_params.ridges_folded(),
            *functions.offset_overworld == built_in_noise_params.sloped_cheese_input(
                false,
                false,
            ).offset(),
            *functions.factor_overworld == built_in_noise_params.sloped_cheese_input(
                false,
                false,
            ).factor(),
            *functions.jaggedness_overworld == built_in_noise_params.sloped_cheese_input(
                false,
                false,
            ).jaggedness(),
            *functions.depth_overworld == built_in_noise_params.sloped_cheese_input(
                false,
                false,
            ).depth(),
            *functions.sloped_cheese_overworld == built_in_noise_params.sloped_cheese_input(
                false,
                false,
            ).sloped_cheese(),
            *functions.continents_overworld_large_biome == built_in_noise_params.shifted(
                built_in_noise_params.continentalness_large,
            ),
            *functions.erosion_overworld_large_biome == built_in_noise_params.shifted(
                built_in_noise_params.erosion_large,
            ),
            *functions.offset_overworld_large_biome == built_in_noise_params.sloped_cheese_input(
                true,
                false,
            ).offset(),
            *functions.factor_overworld_large_biome == built_in_noise_params.sloped_cheese_input(
                true,
                false,
            ).factor(),
            *functions.jaggedness_overworld_large_biome
                == built_in_noise_params.sloped_cheese_input(true, false).jaggedness(),
            *functions.depth_overworld_large_biome == built_in_noise_params.sloped_cheese_input(
                true,
                false,
            ).depth(),
            *functions.sloped_cheese_overworld_large_biome
                == built_in_noise_params.sloped_cheese_input(true, false).sloped_cheese(),
            *functions.offset_overworld_amplified == built_in_noise_params.sloped_cheese_input(
                false,
                true,
            ).offset(),
            *functions.factor_overworld_amplified == built_in_noise_params.sloped_cheese_input(
                false,
                true,
            ).factor(),
            *functions.jaggedness_overworld_amplified == built_in_noise_params.sloped_cheese_input(
                false,
                true,
            ).jaggedness(),
            *functions.depth_overworld_amplified == built_in_noise_params.sloped_cheese_input(
                false,
                true,
            ).depth(),
            *functions.sloped_cheese_overworld_amplified
                == built_in_noise_params.sloped_cheese_input(false, true).sloped_cheese(),
            *functions.sloped_cheese_end == BuiltInNoiseParams::sloped_cheese_end(),
            *functions.caves_spaghetti_roughness_function_overworld
                == built_in_noise_params.caves_spaghetti_roughness_function(),
            *functions.caves_spaghetti_2d_thickness_modular_overworld
                == built_in_noise_params.caves_spaghetti_2d_thickness_modular(),
            *functions.caves_spaghetti_2d_overworld == built_in_noise_params.caves_spaghetti_2d(),
            *functions.caves_entrances_overworld == built_in_noise_params.caves_entrances(),
            *functions.caves_noodle_overworld == built_in_noise_params.caves_noodle(),
            *functions.caves_pillars_overworld == built_in_noise_params.caves_pillars(),
    {
        let blend_alpha = Arc::new(DensityFunction::BlendAlpha(BlendAlphaFunction {  }));
        let blend_offset = Arc::new(DensityFunction::BlendOffset(BlendOffsetFunction {  }));
        let zero = Arc::new(DensityFunction::Constant(ConstantFunction::new(0)));
        let ten = Arc::new(DensityFunction::Constant(ConstantFunction::new(10 * UNIT)));

        let y = Arc::new(
            DensityFunction::ClampedY(
                YClampedFunction {
                    from: MIN_HEIGHT * 2,
                    to: MAX_COLUMN_HEIGHT * 2,
                    from_val: (MIN_HEIGHT as i64 * 2) * UNIT,
                    to_val: (MAX_COLUMN_HEIGHT as i64 * 2) * UNIT,
                },
            ),
        );

        let shift_x = Arc::new(
            DensityFunction::Wrapper(
                WrapperFunction::new(
                    Arc::new(
                        DensityFunction::Wrapper(
                            WrapperFunction::new(
                                Arc::new(
                                    DensityFunction::ShiftA(
                                        ShiftAFunction::new(
                                            Arc::new(
                                                InternalNoise::new(
                                                    share(&built_in_noise_params.offset),
                                                ),
                                            ),
                                        ),
                                    ),
                                ),
                                WrapperType::Cache2D,
                            ),
                        ),
                    ),
                    WrapperType::CacheFlat,
                ),
            ),
        );

        let shift_z = Arc::new(
            DensityFunction::Wrapper(
                WrapperFunction::new(
                    Arc::new(
                        DensityFunction::Wrapper(
                            WrapperFunction::new(
                                Arc::new(
                                    DensityFunction::ShiftB(
                                        ShiftBFunction::new(
                                            Arc::new(
                                                InternalNoise::new(
                                                    share(&built_in_noise_params.offset),
                                                ),
                                            ),
                                        ),
                                    ),
                                ),
                                WrapperType::Cache2D,
                            ),
                        ),
                    ),
                    WrapperType::CacheFlat,
                ),
            ),
        );

        let base_3d_noise_overworld = Arc::new(
            DensityFunction::InterpolatedNoise(
                InterpolatedNoiseSampler::create_base_3d_noise_function(
                    250_000,
                    125_000,
                    80 * UNIT,
                    160 * UNIT,
                    8 * UNIT,
                ),
            ),
        );

        let base_3d_noise_nether = Arc::new(
            DensityFunction::InterpolatedNoise(
                InterpolatedNoiseSampler::create_base_3d_noise_function(
                    250_000,
                    375_000,
                    80 * UNIT,
                    60 * UNIT,
                    8 * UNIT,
                ),
            ),
        );

        let base_3d_noise_end = Arc::new(
            DensityFunction::InterpolatedNoise(
                InterpolatedNoiseSampler::create_base_3d_noise_function(
                    250_000,
                    250_000,
                    80 * UNIT,
                    160 * UNIT,
                    4 * UNIT,
                ),
            ),
        );

        let continents_overworld = shifted_noise(
            &shift_x,
            &zero,
            &shift_z,
            &built_in_noise_params.continentalness,
        );
        let erosion_overworld = shifted_noise(
            &shift_x,
            &zero,
            &shift_z,
            &built_in_noise_params.erosion,
        );
        let ridges_overworld = shifted_noise(&shift_x, &zero, &shift_z, &built_in_noise_params.ridge);

        let ridges_folded_overworld = Arc::new(
            ridges_overworld.abs().add_const(-666_667).abs().add_const(-333_333).mul_const(
                -3 * UNIT,
            ),
        );

        let overworld_sloped_cheese_result = sloped_cheese_function(
            Arc::new(noise_function(&built_in_noise_params.jagged, 1500 * UNIT, 0)),
            share(&continents_overworld),
            share(&erosion_overworld),
            share(&ridges_overworld),
            share(&ridges_folded_overworld),
            share(&blend_offset),
            share(&ten),
            share(&zero),
            share(&base_3d_noise_overworld),
            false,
        );

        let continents_overworld_large_biome = shifted_noise(
            &shift_x,
            &zero,
            &shift_z,
            &built_in_noise_params.continentalness_large,
        );
        let erosion_overworld_large_biome = shifted_noise(
            &shift_x,
            &zero,
            &shift_z,
            &built_in_noise_params.erosion_large,
        );

        let overworld_large_biome_sloped_cheese_result = sloped_cheese_function(
            Arc::new(noise_function(&built_in_noise_params.jagged, 1500 * UNIT, 0)),
            share(&continents_overworld_large_biome),
            share(&erosion_overworld_large_biome),
            share(&ridges_overworld),
            share(&ridges_folded_overworld),
            share(&blend_offset),
            share(&ten),
            share(&zero),
            share(&base_3d_noise_overworld),
            false,
        );

        let overworld_amplified_sloped_cheese_result = sloped_cheese_function(
            Arc::new(noise_function(&built_in_noise_params.jagged, 1500 * UNIT, 0)),
            share(&continents_overworld),
            share(&erosion_overworld),
            share(&ridges_overworld),
            share(&ridges_folded_overworld),
            share(&blend_offset),
            share(&ten),
            share(&zero),
            share(&base_3d_noise_overworld),
            true,
        );

        let sloped_cheese_end = Arc::new(
            DensityFunction::EndIsland(EndIslandFunction::new(0)).add(share(&base_3d_noise_end)),
        );

        let caves_spaghetti_roughness_function_overworld = Arc::new(
            DensityFunction::Wrapper(
                WrapperFunction::new(
                    Arc::new(
                        noise_in_range(
                            share(&built_in_noise_params.spaghetti_roughness_modulator),
                            UNIT,
                            UNIT,
                            0,
                            -100_000,
                        ).mul(
                            Arc::new(
                                noise_function(
                                    &built_in_noise_params.spaghetti_roughness,
                                    UNIT,
                                    UNIT,
                                ).abs().add_const(-400_000),
                            ),
                        ),
                    ),
                    WrapperType::CacheOnce,
                ),
            ),
        );

        let caves_spaghetti_2d_thickness_modular_overworld = Arc::new(
            DensityFunction::Wrapper(
                WrapperFunction::new(
                    Arc::new(
                        noise_in_range(
                            share(&built_in_noise_params.spaghetti_2d_thickness),
                            2 * UNIT,
                            UNIT,
                            -600_000,
                            -1_300_000,
                        ),
                    ),
                    WrapperType::CacheOnce,
                ),
            ),
        );

        let caves_spaghetti_2d_overworld = Arc::new(
            {
                let function1 = noise_function(
                    &built_in_noise_params.spaghetti_2d_modulator,
                    2 * UNIT,
                    UNIT,
                );

                let function2 = DensityFunction::Wierd(
                    WierdScaledFunction::new(
                        Arc::new(function1),
                        Arc::new(InternalNoise::new(share(&built_in_noise_params.spaghetti_2d))),
                        RarityMapper::Caves,
                    ),
                );

                let function3 = noise_in_range(
                    share(&built_in_noise_params.spaghetti_2d_elevation),
                    UNIT,
                    0,
                    ((-64i64) / 8i64) * UNIT,
                    8 * UNIT,
                );

                let function4 = share(&caves_spaghetti_2d_thickness_modular_overworld);

                let function5 = function3.add(
                    Arc::new(
                        DensityFunction::ClampedY(
                            YClampedFunction {
                                from: -64,
                                to: 320,
                                from_val: 8 * UNIT,
                                to_val: -40 * UNIT,
                            },
                        ).abs(),
                    ),
                );

                let function6 = Arc::new(function5.add(share(&function4)).cube());

                let function7 = function2.add(Arc::new(function4.mul_const(83_000)));

                function7.binary_max(function6).clamp(-UNIT, UNIT)
            },
        );

        let caves_entrances_overworld = Arc::new(
            {
                let function = Arc::new(
                    noise_function(&built_in_noise_params.spaghetti_3d_rarity, 2 * UNIT, UNIT),
                );

                let function2 = Arc::new(
                    noise_in_range(
                        share(&built_in_noise_params.spaghetti_3d_thickness),
                        UNIT,
                        UNIT,
                        -65_000,
                        -88_000,
                    ),
                );

                let function3 = DensityFunction::Wierd(
                    WierdScaledFunction::new(
                        share(&function),
                        Arc::new(InternalNoise::new(share(&built_in_noise_params.spaghetti_3d_1))),
                        RarityMapper::Tunnels,
                    ),
                );

                let function4 = Arc::new(
                    DensityFunction::Wierd(
                        WierdScaledFunction::new(
                            function,
                            Arc::new(
                                InternalNoise::new(share(&built_in_noise_params.spaghetti_3d_2)),
                            ),
                            RarityMapper::Tunnels,
                        ),
                    ),
                );

                let function5 = Arc::new(
                    function3.binary_max(function4).add(function2).clamp(-UNIT, UNIT),
                );

                let function6 = share(&caves_spaghetti_roughness_function_overworld);

                let function7 = noise_function(&built_in_noise_params.cave_entrance, 750_000, 500_000);

                let function8 = function7.add_const(370_000).add(
                    Arc::new(
                        DensityFunction::ClampedY(
                            YClampedFunction { from: -10, to: 30, from_val: 300_000, to_val: 0 },
                        ),
                    ),
                );

                DensityFunction::Wrapper(
                    WrapperFunction::new(
                        Arc::new(function8.binary_min(Arc::new(function6.add(function5)))),
                        WrapperType::CacheOnce,
                    ),
                )
            },
        );

        let caves_noodle_overworld = Arc::new(
            {
                let function = share(&y);

                let function2 = veritcal_range_choice(
                    share(&function),
                    Arc::new(noise_function(&built_in_noise_params.noodle, UNIT, UNIT)),
                    -60,
                    320,
                    -1,
                );

                let function3 = veritcal_range_choice(
                    share(&function),
                    Arc::new(
                        noise_in_range(
                            share(&built_in_noise_params.noodle_thickness),
                            UNIT,
                            UNIT,
                            -50_000,
                            -100_000,
                        ),
                    ),
                    -60,
                    320,
                    0,
                );

                let function4 = veritcal_range_choice(
                    share(&function),
                    Arc::new(
                        noise_function(&built_in_noise_params.noodle_ridge_a, 2_666_667, 2_666_667),
                    ),
                    -60,
                    320,
                    0,
                );

                let function5 = veritcal_range_choice(
                    share(&function),
                    Arc::new(
                        noise_function(&built_in_noise_params.noodle_ridge_b, 2_666_667, 2_666_667),
                    ),
                    -60,
                    320,
                    0,
                );

                let function6 = Arc::new(
                    function4.abs().binary_max(Arc::new(function5.abs())).mul_const(1_500_000),
                );

                DensityFunction::Range(
                    RangeFunction {
                        input: Arc::new(function2),
                        min: -1_000_000 * UNIT,
                        max: 0,
                        in_range: Arc::new(
                            DensityFunction::Constant(ConstantFunction::new(64 * UNIT)),
                        ),
                        out_range: Arc::new(function3.add(function6)),
                    },
                )
            },
        );

        let caves_pillars_overworld = Arc::new(
            {
                let function = noise_function(&built_in_noise_params.pillar, 25 * UNIT, 300_000);

                let function2 = Arc::new(
                    noise_in_range(
                        share(&built_in_noise_params.pillar_rareness),
                        UNIT,
                        UNIT,
                        0,
                        -2 * UNIT,
                    ),
                );

                let function3 = noise_in_range(
                    share(&built_in_noise_params.pillar_thickness),
                    UNIT,
                    UNIT,
                    0,
                    1_100_000,
                );

                let function4 = function.mul_const(2 * UNIT).add(function2);

                DensityFunction::Wrapper(
                    WrapperFunction::new(
                        Arc::new(function4.mul(Arc::new(function3.cube()))),
                        WrapperType::CacheOnce,
                    ),
                )
            },
        );

        Self {
            zero,
            ten,
            blend_offset,
            blend_alpha,
            y,
            shift_x,
            shift_z,
            base_3d_noise_overworld,
            base_3d_noise_nether,
            base_3d_noise_end,
            continents_overworld,
            erosion_overworld,
            ridges_overworld,
            ridges_folded_overworld,
            offset_overworld: overworld_sloped_cheese_result.offset,
            factor_overworld: overworld_sloped_cheese_result.factor,
            jaggedness_overworld: overworld_sloped_cheese_result.jaggedness,
            depth_overworld: overworld_sloped_cheese_result.depth,
            sloped_cheese_overworld: overworld_sloped_cheese_result.sloped_cheese,
            continents_overworld_large_biome,
            erosion_overworld_large_biome,
            offset_overworld_large_biome: overworld_large_biome_sloped_cheese_result.offset,
            factor_overworld_large_biome: overworld_large_biome_sloped_cheese_result.factor,
            jaggedness_overworld_large_biome: overworld_large_biome_sloped_cheese_result.jaggedness,
            depth_overworld_large_biome: overworld_large_biome_sloped_cheese_result.depth,
            sloped_cheese_overworld_large_biome: overworld_large_biome_sloped_cheese_result.sloped_cheese,
            offset_overworld_amplified: overworld_amplified_sloped_cheese_result.offset,
            factor_overworld_amplified: overworld_amplified_sloped_cheese_result.factor,
            jaggedness_overworld_amplified: overworld_amplified_sloped_cheese_result.jaggedness,
            depth_overworld_amplified: overworld_amplified_sloped_cheese_result.depth,
            sloped_cheese_overworld_amplified: overworld_amplified_sloped_cheese_result.sloped_cheese,
            sloped_cheese_end,
            caves_spaghetti_roughness_function_overworld,
            caves_spaghetti_2d_thickness_modular_overworld,
            caves_spaghetti_2d_overworld,
            caves_entrances_overworld,
            caves_noodle_overworld,
            caves_pillars_overworld,
        }
    }
}

impl BuiltInNoiseFunctions {
    pub fn zero(&self) -> (function: &Arc<DensityFunction>)
        ensures
            *function == self.zero,
    {
        &self.zero
    }

    pub fn ten(&self) -> (function: &Arc<DensityFunction>)
        ensures
            *function == self.ten,
    {
        &self.ten
    }

    pub fn blend_alpha(&self) -> (function: &Arc<DensityFunction>)
        ensures
            *function == self.blend_alpha,
    {
        &self.blend_alpha
    }

    pub fn blend_offset(&self) -> (function: &Arc<DensityFunction>)
        ensures
            *function == self.blend_offset,
    {
        &self.blend_offset
    }

    pub fn y(&self) -> (function: &Arc<DensityFunction>)
        ensures
            *function == self.y,
    {
        &self.y
    }

    pub fn shift_x(&self) -> (function: &Arc<DensityFunction>)
        ensures
            *function == self.shift_x,
    {
        &self.shift_x
    }

    pub fn shift_z(&self) -> (function: &Arc<DensityFunction>)
        ensures
            *function == self.shift_z,
    {
        &self.shift_z
    }

    pub fn base_3d_noise_overworld(&self) -> (function: &Arc<DensityFunction>)
        ensures
            *function == self.base_3d_noise_overworld,
    {
        &self.base_3d_noise_overworld
    }

    pub fn base_3d_noise_nether(&self) -> (function: &Arc<DensityFunction>)
        ensures
            *function == self.base_3d_noise_nether,
    {
        &self.base_3d_noise_nether
    }

    pub fn base_3d_noise_end(&self) -> (function: &Arc<DensityFunction>)
        ensures
            *function == self.base_3d_noise_end,
    {
        &self.base_3d_noise_end
    }

    pub fn continents_overworld(&self) -> (function: &Arc<DensityFunction>)
        ensures
            *function == self.continents_overworld,
    {
        &self.continents_overworld
    }

    pub fn erosion_overworld(&self) -> (function: &Arc<DensityFunction>)
        ensures
            *function == self.erosion_overworld,
    {
        &self.erosion_overworld
    }

    pub fn ridges_overworld(&self) -> (function: &Arc<DensityFunction>)
        ensures
            *function == self.ridges_overworld,
    {
        &self.ridges_overworld
    }

    pub fn ridges_folded_overworld(&self) -> (function: &Arc<DensityFunction>)
        ensures
            *function == self.ridges_folded_overworld,
    {
        &self.ridges_folded_overworld
    }

    pub fn offset_overworld(&self) -> (function: &Arc<DensityFunction>)
        ensures
            *function == self.offset_overworld,
    {
        &self.offset_overworld
    }

    pub fn factor_overworld(&self) -> (function: &Arc<DensityFunction>)
        ensures
            *function == self.factor_overworld,
    {
        &self.factor_overworld
    }

    pub fn jaggedness_overworld(&self) -> (function: &Arc<DensityFunction>)
        ensures
            *function == self.jaggedness_overworld,
    {
        &self.jaggedness_overworld
    }

    pub fn depth_overworld(&self) -> (function: &Arc<DensityFunction>)
        ensures
            *function == self.depth_overworld,
    {
        &self.depth_overworld
    }

    pub fn sloped_cheese_overworld(&self) -> (function: &Arc<DensityFunction>)
        ensures
            *function == self.sloped_cheese_overworld,
    {
        &self.sloped_cheese_overworld
    }

    pub fn continents_overworld_large_biome(&self) -> (function: &Arc<DensityFunction>)
        ensures
            *function == self.continents_overworld_large_biome,
    {
        &self.continents_overworld_large_biome
    }

    pub fn erosion_overworld_large_biome(&self) -> (function: &Arc<DensityFunction>)
        ensures
            *function == self.erosion_overworld_large_biome,
    {
        &self.erosion_overworld_large_biome
    }

    pub fn offset_overworld_large_biome(&self) -> (function: &Arc<DensityFunction>)
        ensures
            *function == self.offset_overworld_large_biome,
    {
        &self.offset_overworld_large_biome
    }

    pub fn factor_overworld_large_biome(&self) -> (function: &Arc<DensityFunction>)
        ensures
            *function == self.factor_overworld_large_biome,
    {
        &self.factor_overworld_large_biome
    }

    pub fn jaggedness_overworld_large_biome(&self) -> (function: &Arc<DensityFunction>)
        ensures
            *function == self.jaggedness_overworld_large_biome,
    {
        &self.jaggedness_overworld_large_biome
    }

    pub fn depth_overworld_large_biome(&self) -> (function: &Arc<DensityFunction>)
        ensures
            *function == self.depth_overworld_large_biome,
    {
        &self.depth_overworld_large_biome
    }

    pub fn sloped_cheese_overworld_large_biome(&self) -> (function: &Arc<DensityFunction>)
        ensures
            *function == self.sloped_cheese_overworld_large_biome,
    {
        &self.sloped_cheese_overworld_large_biome
    }

    pub fn offset_overworld_amplified(&self) -> (function: &Arc<DensityFunction>)
        ensures
            *function == self.offset_overworld_amplified,
    {
        &self.offset_overworld_amplified
    }

    pub fn factor_overworld_amplified(&self) -> (function: &Arc<DensityFunction>)
        ensures
            *function == self.factor_overworld_amplified,
    {
        &self.factor_overworld_amplified
    }

    pub fn jaggedness_overworld_amplified(&self) -> (function: &Arc<DensityFunction>)
        ensures
            *function == self.jaggedness_overworld_amplified,
    {
        &self.jaggedness_overworld_amplified
    }

    pub fn depth_overworld_amplified(&self) -> (function: &Arc<DensityFunction>)
        ensures
            *function == self.depth_overworld_amplified,
    {
        &self.depth_overworld_amplified
    }

    pub fn sloped_cheese_overworld_amplified(&self) -> (function: &Arc<DensityFunction>)
        ensures
            *function == self.sloped_cheese_overworld_amplified,
    {
        &self.sloped_cheese_overworld_amplified
    }

    pub fn sloped_cheese_end(&self) -> (function: &Arc<DensityFunction>)
        ensures
            *function == self.sloped_cheese_end,
    {
        &self.sloped_cheese_end
    }

    pub fn caves_spaghetti_roughness_function_overworld(&self) -> (function: &Arc<DensityFunction>)
        ensures
            *function == self.caves_spaghetti_roughness_function_overworld,
    {
        &self.caves_spaghetti_roughness_function_overworld
    }

    pub fn caves_spaghetti_2d_thickness_modular_overworld(&self) -> (function: &Arc<DensityFunction>)
        ensures
            *function == self.caves_spaghetti_2d_thickness_modular_overworld,
    {
        &self.caves_spaghetti_2d_thickness_modular_overworld
    }

    pub fn caves_spaghetti_2d_overworld(&self) -> (function: &Arc<DensityFunction>)
        ensures
            *function == self.caves_spaghetti_2d_overworld,
    {
        &self.caves_spaghetti_2d_overworld
    }

    pub fn caves_entrances_overworld(&self) -> (function: &Arc<DensityFunction>)
        ensures
            *function == self.caves_entrances_overworld,
    {
        &self.caves_entrances_overworld
    }

    pub fn caves_noodle_overworld(&self) -> (function: &Arc<DensityFunction>)
        ensures
            *function == self.caves_noodle_overworld,
    {
        &self.caves_noodle_overworld
    }

    pub fn caves_pillars_overworld(&self) -> (function: &Arc<DensityFunction>)
        ensures
            *function == self.caves_pillars_overworld,
    {
        &self.caves_pillars_overworld
    }
}

} // verus!
