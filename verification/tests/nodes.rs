use std::sync::Arc;

use density::fixed::UNIT;
use density::function::{
    create_factor_spline, create_offset_spline, BeardifyerFunction, BinaryFunction, BinaryType,
    BlendAlphaFunction, BlendDensityFunction, BlendOffsetFunction, ClampFunction,
    ConstantFunction, DensityFunction, EndIslandFunction, LinearFunction, NoiseFunction,
    RangeFunction, RarityMapper, ShiftAFunction, ShiftBFunction, ShiftedNoiseFunction,
    SplineFunction, UnaryFunction, UnaryType, WierdScaledFunction, WrapperFunction, WrapperType,
    YClampedFunction,
};
use density::noise::{
    DoublePerlinNoiseParameters, InternalNoise, InterpolatedNoiseSampler, Unseeded,
};
use density::oracle::{Oracle, Query};
use density::position::{NoisePos, UnblendedNoisePos};

fn fx(v: f64) -> i64 {
    (v * 1_000_000.0).round() as i64
}

fn constant(v: f64) -> Arc<DensityFunction> {
    Arc::new(DensityFunction::Constant(ConstantFunction::new(fx(v))))
}

fn at(x: i32, y: i32, z: i32) -> NoisePos {
    NoisePos::Unblended(UnblendedNoisePos::new(x, y, z))
}

fn params(name: &str) -> Arc<DoublePerlinNoiseParameters> {
    Arc::new(DoublePerlinNoiseParameters::new(name.to_string(), -3, vec![UNIT, UNIT]))
}

fn noise(name: &str) -> Arc<InternalNoise> {
    Arc::new(InternalNoise::new(params(name)))
}

/// Every noise is x + 2y + 3z with magnitude at most 1000; splines add up
/// their coordinates and stay within -50..50.
fn plane(query: Query) -> i64 {
    match query {
        Query::Noise { x, y, z, .. } => x + 2 * y + 3 * z,
        Query::NoiseMaxValue { .. } => 1000 * UNIT,
        Query::Interpolated { x, y, z, .. } => (x as i64 + y as i64 + z as i64) * UNIT,
        Query::InterpolatedMaxValue { .. } => 100 * UNIT,
        Query::EndIsland { x, .. } => x as i64 * 100_000,
        Query::EndIslandMin { .. } => -843_750,
        Query::EndIslandMax { .. } => 562_500,
        Query::Spline { continents, erosion, ridges, ridges_folded, .. } => {
            continents + erosion + ridges + ridges_folded.unwrap_or(0)
        }
        Query::SplineMin { .. } => -50 * UNIT,
        Query::SplineMax { .. } => 50 * UNIT,
    }
}

fn unary(action: UnaryType, v: f64) -> i64 {
    DensityFunction::Unary(UnaryFunction::create(action, constant(v))).sample(&at(0, 0, 0), &Unseeded {})
}

fn binary(action: BinaryType, a: f64, b: f64) -> i64 {
    DensityFunction::Binary(BinaryFunction { action, arg1: constant(a), arg2: constant(b) })
        .sample(&at(0, 0, 0), &Unseeded {})
}

#[test]
fn constant_three_is_three_everywhere() {
    let three = ConstantFunction::new(fx(3.0));
    assert_eq!(three.sample(&at(0, 0, 0)), 3 * UNIT);
    assert_eq!(three.sample(&at(-17, 250, 1_000_000)), 3 * UNIT);
    assert_eq!(three.min(), 3 * UNIT);
    assert_eq!(three.max(), 3 * UNIT);
    let node = DensityFunction::Constant(three);
    assert_eq!(node.sample(&at(5, 6, 7), &Unseeded {}), 3 * UNIT);
    assert_eq!(node.min(&Unseeded {}), 3 * UNIT);
    assert_eq!(node.max(&Unseeded {}), 3 * UNIT);
}

#[test]
fn clamped_y_runs_linearly_between_its_ends() {
    let gradient = YClampedFunction::new(-64, 320, fx(1.564), fx(-1.5));
    assert_eq!(gradient.sample(&at(0, -64, 0)), 1_564_000);
    assert_eq!(gradient.sample(&at(0, 320, 0)), -1_500_000);
    assert_eq!(gradient.sample(&at(0, 128, 0)), 32_000);
    let expected = 1.564 + (128.0 - (-64.0)) / (320.0 - (-64.0)) * (-1.5 - 1.564);
    assert_eq!(gradient.sample(&at(0, 128, 0)), fx(expected));
    assert_eq!(gradient.sample(&at(0, -65, 0)), 1_564_000);
    assert_eq!(gradient.sample(&at(0, -2000, 0)), 1_564_000);
    assert_eq!(gradient.sample(&at(0, 321, 0)), -1_500_000);
    assert_eq!(gradient.min(), -1_500_000);
    assert_eq!(gradient.max(), 1_564_000);
}

#[test]
fn clamped_y_rounds_toward_the_start_value() {
    let rising = YClampedFunction::new(0, 3, 0, 10);
    assert_eq!(rising.sample(&at(0, 1, 0)), 3);
    assert_eq!(rising.sample(&at(0, 2, 0)), 6);
    let falling = YClampedFunction::new(0, 3, 0, -10);
    assert_eq!(falling.sample(&at(0, 1, 0)), -3);
    assert_eq!(falling.sample(&at(0, 2, 0)), -6);
}

#[test]
fn clamped_y_with_reversed_heights_runs_downward() {
    let gradient = YClampedFunction::new(10, 0, fx(1.0), fx(3.0));
    assert_eq!(gradient.sample(&at(0, 10, 0)), fx(1.0));
    assert_eq!(gradient.sample(&at(0, 11, 0)), fx(1.0));
    assert_eq!(gradient.sample(&at(0, 5, 0)), fx(2.0));
    assert_eq!(gradient.sample(&at(0, 0, 0)), fx(3.0));
    assert_eq!(gradient.sample(&at(0, -1, 0)), fx(3.0));
}

#[test]
fn clamped_y_with_equal_heights_steps_at_that_height() {
    let step = YClampedFunction::new(7, 7, fx(1.0), fx(2.0));
    assert_eq!(step.sample(&at(0, 6, 0)), fx(1.0));
    assert_eq!(step.sample(&at(0, 7, 0)), fx(1.0));
    assert_eq!(step.sample(&at(0, 8, 0)), fx(2.0));
}

#[test]
fn range_selects_by_the_input() {
    let range = |v: f64| {
        DensityFunction::Range(RangeFunction::new(
            constant(v),
            fx(0.0),
            fx(1.0),
            constant(7.0),
            constant(9.0),
        ))
    };
    let env = Unseeded {};
    assert_eq!(range(0.5).sample(&at(1, 2, 3), &env), 7 * UNIT);
    assert_eq!(range(-0.1).sample(&at(1, 2, 3), &env), 9 * UNIT);
    assert_eq!(range(0.0).sample(&at(1, 2, 3), &env), 7 * UNIT);
    assert_eq!(range(1.0).sample(&at(1, 2, 3), &env), 9 * UNIT);
    assert_eq!(range(0.999999).sample(&at(1, 2, 3), &env), 7 * UNIT);
    assert_eq!(range(0.5).min(&env), 7 * UNIT);
    assert_eq!(range(0.5).max(&env), 9 * UNIT);
}

#[test]
fn unary_operations_follow_their_formulas() {
    assert_eq!(unary(UnaryType::Abs, -2.5), fx(2.5));
    assert_eq!(unary(UnaryType::Abs, 2.5), fx(2.5));
    assert_eq!(unary(UnaryType::Square, 1.5), fx(2.25));
    assert_eq!(unary(UnaryType::Square, -1.5), fx(2.25));
    assert_eq!(unary(UnaryType::Cube, -2.0), fx(-8.0));
    assert_eq!(unary(UnaryType::Cube, 0.5), fx(0.125));
    assert_eq!(unary(UnaryType::HalfNeg, -3.0), fx(-1.5));
    assert_eq!(unary(UnaryType::HalfNeg, 3.0), fx(3.0));
    assert_eq!(unary(UnaryType::QuartNeg, -2.0), fx(-0.5));
    assert_eq!(unary(UnaryType::QuartNeg, 2.0), fx(2.0));
}

#[test]
fn squeeze_clips_softly() {
    assert_eq!(unary(UnaryType::Squeeze, 0.0), 0);
    assert_eq!(unary(UnaryType::Squeeze, 1.0), 458_334);
    assert_eq!(unary(UnaryType::Squeeze, 2.0), 458_334);
    assert_eq!(unary(UnaryType::Squeeze, -7.0), -458_334);
    assert_eq!(unary(UnaryType::Squeeze, -0.5), -244_792);
    assert_eq!(unary(UnaryType::Squeeze, 0.5), 244_792);
}

#[test]
fn binary_operations_follow_their_formulas() {
    assert_eq!(binary(BinaryType::Add, 1.5, 2.25), fx(3.75));
    assert_eq!(binary(BinaryType::Mul, 1.5, -2.0), fx(-3.0));
    assert_eq!(binary(BinaryType::Min, 1.5, -2.0), fx(-2.0));
    assert_eq!(binary(BinaryType::Max, 1.5, -2.0), fx(1.5));
}

#[test]
fn linear_is_slope_times_input_plus_offset() {
    let linear = DensityFunction::Linear(LinearFunction {
        slope: fx(2.0),
        offset: fx(1.0),
        input: constant(3.0),
    });
    assert_eq!(linear.sample(&at(0, 0, 0), &Unseeded {}), fx(7.0));
    assert_eq!(linear.min(&Unseeded {}), fx(7.0));
    assert_eq!(linear.max(&Unseeded {}), fx(7.0));
}

#[test]
fn clamp_holds_the_input_between_its_limits() {
    let clamp = |v: f64| {
        DensityFunction::Clamp(ClampFunction { input: constant(v), min: fx(-1.0), max: fx(1.0) })
            .sample(&at(0, 0, 0), &Unseeded {})
    };
    assert_eq!(clamp(0.3), fx(0.3));
    assert_eq!(clamp(-4.0), fx(-1.0));
    assert_eq!(clamp(4.0), fx(1.0));
    let node = DensityFunction::Clamp(ClampFunction { input: constant(9.0), min: fx(-1.0), max: fx(1.0) });
    assert_eq!(node.min(&Unseeded {}), fx(-1.0));
    assert_eq!(node.max(&Unseeded {}), fx(1.0));
}

#[test]
fn noise_is_sampled_at_the_scaled_position() {
    let env = Oracle::new(plane);
    let node = DensityFunction::Noise(NoiseFunction::new(noise("n"), fx(0.5), fx(2.0)));
    // x = 4 * 0.5 = 2, y = 1 * 2 = 2, z = 2 * 0.5 = 1; 2 + 2 * 2 + 3 * 1 = 9
    assert_eq!(node.sample(&at(4, 1, 2), &env), fx(9.0));
    assert_eq!(node.min(&env), fx(-1000.0));
    assert_eq!(node.max(&env), fx(1000.0));
}

#[test]
fn an_unseeded_noise_is_silent_with_a_bound_of_two() {
    let env = Unseeded {};
    let node = DensityFunction::Noise(NoiseFunction::new(noise("n"), fx(0.5), fx(2.0)));
    assert_eq!(node.sample(&at(4, 1, 2), &env), 0);
    assert_eq!(node.min(&env), fx(-2.0));
    assert_eq!(node.max(&env), fx(2.0));
}

#[test]
fn shifts_sample_a_quarter_of_the_horizontal_position_times_four() {
    let env = Oracle::new(plane);
    let a = DensityFunction::ShiftA(ShiftAFunction::new(noise("offset")));
    // (8 / 4, 0, 4 / 4): 2 + 0 + 3 = 5, times 4
    assert_eq!(a.sample(&at(8, 5, 4), &env), fx(20.0));
    let b = DensityFunction::ShiftB(ShiftBFunction::new(noise("offset")));
    // (8 / 4, 4 / 4, 0): 2 + 2 + 0 = 4, times 4
    assert_eq!(b.sample(&at(8, 5, 4), &env), fx(16.0));
    assert_eq!(a.min(&env), fx(-4000.0));
    assert_eq!(a.max(&env), fx(4000.0));
    assert_eq!(b.min(&env), fx(-4000.0));
    assert_eq!(b.max(&env), fx(4000.0));
}

#[test]
fn shifted_noise_adds_the_sampled_shifts() {
    let env = Oracle::new(plane);
    let node = DensityFunction::ShiftedNoise(ShiftedNoiseFunction::new(
        constant(1.0),
        constant(2.0),
        constant(3.0),
        fx(0.25),
        0,
        noise("n"),
    ));
    // x = 2 + 1, y = 0 + 2, z = 1 + 3: 3 + 4 + 12
    assert_eq!(node.sample(&at(8, 5, 4), &env), fx(19.0));
    assert_eq!(node.max(&env), fx(1000.0));
}

#[test]
fn weird_noise_is_rescaled_by_the_rarity_of_the_modulator() {
    let env = Oracle::new(plane);
    let caves = DensityFunction::Wierd(WierdScaledFunction::new(
        constant(0.6),
        noise("n"),
        RarityMapper::Caves,
    ));
    // scale 2: (2, 1, 3) gives 2 + 2 + 9 = 13, times 2
    assert_eq!(caves.sample(&at(4, 2, 6), &env), fx(26.0));
    assert_eq!(caves.min(&env), fx(-3000.0));
    assert_eq!(caves.max(&env), fx(3000.0));
    let tunnels = DensityFunction::Wierd(WierdScaledFunction::new(
        constant(-0.6),
        noise("n"),
        RarityMapper::Tunnels,
    ));
    // scale 0.75: (5.333333, 2.666666, 8) gives 34.666665, times 0.75
    assert_eq!(tunnels.sample(&at(4, 2, 6), &env), 25_999_998);
    assert_eq!(tunnels.max(&env), fx(2000.0));
}

/// Every noise is one everywhere, so a weird noise samples to its scale.
fn level(query: Query) -> i64 {
    match query {
        Query::Noise { .. } => UNIT,
        Query::NoiseMaxValue { .. } => UNIT,
        _ => 0,
    }
}

fn scale(rarity: RarityMapper, v: f64) -> i64 {
    DensityFunction::Wierd(WierdScaledFunction::new(constant(v), noise("n"), rarity))
        .sample(&at(1, 2, 3), &Oracle::new(level))
}

#[test]
fn rarity_maps_are_piecewise_constant() {
    assert_eq!(scale(RarityMapper::Tunnels, -0.6), fx(0.75));
    assert_eq!(scale(RarityMapper::Tunnels, -0.5), fx(1.0));
    assert_eq!(scale(RarityMapper::Tunnels, -0.1), fx(1.0));
    assert_eq!(scale(RarityMapper::Tunnels, 0.0), fx(1.5));
    assert_eq!(scale(RarityMapper::Tunnels, 0.499999), fx(1.5));
    assert_eq!(scale(RarityMapper::Tunnels, 0.5), fx(2.0));
    assert_eq!(scale(RarityMapper::Tunnels, 9.0), fx(2.0));
    assert_eq!(scale(RarityMapper::Caves, -0.8), fx(0.5));
    assert_eq!(scale(RarityMapper::Caves, -0.75), fx(0.75));
    assert_eq!(scale(RarityMapper::Caves, -0.5), fx(1.0));
    assert_eq!(scale(RarityMapper::Caves, 0.499999), fx(1.0));
    assert_eq!(scale(RarityMapper::Caves, 0.5), fx(2.0));
    assert_eq!(scale(RarityMapper::Caves, 0.75), fx(3.0));
    assert_eq!(scale(RarityMapper::Caves, 9.0), fx(3.0));
}

#[test]
fn splines_are_evaluated_at_the_sampled_coordinates() {
    let env = Oracle::new(plane);
    let offset = DensityFunction::Spline(SplineFunction::new(Arc::new(create_offset_spline(
        constant(1.0),
        constant(2.0),
        constant(3.0),
        false,
    ))));
    assert_eq!(offset.sample(&at(0, 0, 0), &env), fx(6.0));
    let factor = DensityFunction::Spline(SplineFunction::new(Arc::new(create_factor_spline(
        constant(1.0),
        constant(2.0),
        constant(3.0),
        constant(4.0),
        true,
    ))));
    assert_eq!(factor.sample(&at(0, 0, 0), &env), fx(10.0));
    assert_eq!(factor.min(&env), fx(-50.0));
    assert_eq!(factor.max(&env), fx(50.0));
    let steep = DensityFunction::Spline(SplineFunction::new(Arc::new(create_offset_spline(
        constant(40.0),
        constant(40.0),
        constant(3.0),
        false,
    ))));
    assert_eq!(steep.sample(&at(0, 0, 0), &env), fx(50.0));
}

#[test]
fn blend_nodes_without_a_blender_are_one_zero_and_the_input() {
    let env = Unseeded {};
    let alpha = DensityFunction::BlendAlpha(BlendAlphaFunction {});
    assert_eq!(alpha.sample(&at(3, 4, 5), &env), UNIT);
    assert_eq!(alpha.min(&env), UNIT);
    assert_eq!(alpha.max(&env), UNIT);
    let offset = DensityFunction::BlendOffset(BlendOffsetFunction {});
    assert_eq!(offset.sample(&at(3, 4, 5), &env), 0);
    let density = DensityFunction::BlendDensity(BlendDensityFunction::new(constant(5.5)));
    assert_eq!(density.sample(&at(3, 4, 5), &env), fx(5.5));
    assert_eq!(density.min(&env), fx(5.5));
}

#[test]
fn interpolated_noise_and_end_islands_come_from_the_primitives() {
    let env = Oracle::new(plane);
    let base = DensityFunction::InterpolatedNoise(
        InterpolatedNoiseSampler::create_base_3d_noise_function(
            fx(0.25),
            fx(0.125),
            fx(80.0),
            fx(160.0),
            fx(8.0),
        ),
    );
    assert_eq!(base.sample(&at(1, 2, 3), &env), fx(6.0));
    assert_eq!(base.sample(&at(100, 100, 100), &env), fx(100.0));
    assert_eq!(base.min(&env), fx(-100.0));
    assert_eq!(base.max(&env), fx(100.0));
    let island = DensityFunction::EndIsland(EndIslandFunction::new(0));
    assert_eq!(island.sample(&at(3, 0, 0), &env), 300_000);
    assert_eq!(island.sample(&at(30, 0, 0), &env), 562_500);
    assert_eq!(island.sample(&at(-30, 0, 0), &env), -843_750);
    assert_eq!(island.min(&env), -843_750);
    assert_eq!(island.max(&env), 562_500);
}

#[test]
fn wrappers_are_transparent() {
    let env = Unseeded {};
    let wrapper = WrapperFunction::new(constant(4.0), WrapperType::CacheOnce);
    assert_eq!(wrapper.wrapper(), WrapperType::CacheOnce);
    assert_eq!(*wrapper.wrapped(), *constant(4.0));
    assert_eq!(wrapper.sample(&at(0, 0, 0), &env), fx(4.0));
    assert_eq!(wrapper.min(&env), fx(4.0));
    assert_eq!(wrapper.max(&env), fx(4.0));
}

#[test]
fn beardifyer_is_zero() {
    let beard = BeardifyerFunction {};
    assert_eq!(beard.sample(&at(9, 9, 9)), 0);
    assert_eq!(beard.min(), 0);
    assert_eq!(beard.max(), 0);
}

#[test]
fn a_copy_of_a_node_shares_its_children() {
    let child = constant(4.0);
    let node = DensityFunction::Wrapper(WrapperFunction::new(child.clone(), WrapperType::Cache2D));
    let copy = node.clone();
    assert_eq!(copy, node);
    match (&node, &copy) {
        (DensityFunction::Wrapper(a), DensityFunction::Wrapper(b)) => {
            assert!(Arc::ptr_eq(&a.input, &b.input));
            assert!(Arc::ptr_eq(&a.input, &child));
            assert!(Arc::ptr_eq(&a.wrapped(), &child));
        }
        _ => panic!("a copy of a wrapper is a wrapper"),
    }
}
