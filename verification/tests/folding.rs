use std::sync::Arc;

use density::built_in::{
    apply_blend_density, lerp_density, lerp_density_static_start, map_range, noise_in_range,
    peaks_valleys_noise, veritcal_range_choice,
};
use density::fixed::UNIT;
use density::function::{
    BinaryFunction, BinaryType, BlendDensityFunction, ClampFunction, ConstantFunction,
    DensityFunction, LinearFunction, NoiseFunction, RangeFunction, UnaryFunction, UnaryType,
    WrapperFunction, WrapperType, YClampedFunction,
};
use density::noise::{DoublePerlinNoiseParameters, InternalNoise, Unseeded};
use density::oracle::{Oracle, Query};
use density::position::{NoisePos, UnblendedNoisePos};

fn fx(v: f64) -> i64 {
    (v * 1_000_000.0).round() as i64
}

fn constant(v: f64) -> Arc<DensityFunction> {
    Arc::new(DensityFunction::Constant(ConstantFunction::new(fx(v))))
}

fn at(x: i32, y: i32, z: i32) -> NoisePos {
    NoisePos::Unblended(UnblendedNoisePos::new(x, y, z))
}

fn params(name: &str) -> Arc<DoublePerlinNoiseParameters> {
    Arc::new(DoublePerlinNoiseParameters::new(name.to_string(), -3, vec![UNIT, UNIT]))
}

fn noise(name: &str) -> Arc<InternalNoise> {
    Arc::new(InternalNoise::new(params(name)))
}

/// Every noise is x + 2y + 3z with magnitude at most 1000; splines add up
/// their coordinates and stay within -50..50.
fn plane(query: Query) -> i64 {
    match query {
        Query::Noise { x, y, z, .. } => x + 2 * y + 3 * z,
        Query::NoiseMaxValue { .. } => 1000 * UNIT,
        Query::Interpolated { x, y, z, .. } => (x as i64 + y as i64 + z as i64) * UNIT,
        Query::InterpolatedMaxValue { .. } => 100 * UNIT,
        Query::EndIsland { x, .. } => x as i64 * 100_000,
        Query::EndIslandMin { .. } => -843_750,
        Query::EndIslandMax { .. } => 562_500,
        Query::Spline { continents, erosion, ridges, ridges_folded, .. } => {
            continents + erosion + ridges + ridges_folded.unwrap_or(0)
        }
        Query::SplineMin { .. } => -50 * UNIT,
        Query::SplineMax { .. } => 50 * UNIT,
    }
}

fn gradient() -> Arc<DensityFunction> {
    Arc::new(DensityFunction::ClampedY(YClampedFunction::new(0, 100, 0, 100 * UNIT)))
}

fn linear(slope: f64, offset: f64, input: Arc<DensityFunction>) -> DensityFunction {
    DensityFunction::Linear(LinearFunction { slope: fx(slope), offset: fx(offset), input })
}

/// Every noise bounded by one.
fn unit_noise(query: Query) -> i64 {
    match query {
        Query::Noise { x, .. } => x,
        Query::NoiseMaxValue { .. } => UNIT,
        _ => 0,
    }
}

#[test]
fn adding_zero_changes_nothing() {
    assert_eq!(gradient().add_const(0), *gradient());
    assert_eq!(gradient().add(constant(0.0)), *gradient());
    assert_eq!(constant(0.0).add(gradient()), *gradient());
}

#[test]
fn multiplying_by_one_changes_nothing() {
    assert_eq!(gradient().mul_const(UNIT), *gradient());
    assert_eq!(gradient().mul(constant(1.0)), *gradient());
    assert_eq!(constant(1.0).mul(gradient()), *gradient());
}

#[test]
fn multiplying_by_zero_leaves_the_constant_zero() {
    assert_eq!(gradient().mul_const(0), *constant(0.0));
    assert_eq!(gradient().mul(constant(0.0)), *constant(0.0));
    assert_eq!(constant(0.0).mul(gradient()), *constant(0.0));
}

#[test]
fn a_constant_added_to_a_linear_node_moves_its_offset() {
    let node = linear(2.0, 3.0, gradient());
    assert_eq!(node.add_const(fx(1.5)), linear(2.0, 4.5, gradient()));
    assert_eq!(constant(1.5).add(Arc::new(linear(2.0, 3.0, gradient()))), linear(2.0, 4.5, gradient()));
}

#[test]
fn a_constant_multiplied_into_a_linear_node_scales_slope_and_offset() {
    let node = linear(2.0, 3.0, gradient());
    assert_eq!(node.mul_const(fx(-1.5)), linear(-3.0, -4.5, gradient()));
    assert_eq!(constant(-1.5).mul(Arc::new(linear(2.0, 3.0, gradient()))), linear(-3.0, -4.5, gradient()));
}

#[test]
fn a_constant_met_by_another_function_makes_a_linear_node() {
    assert_eq!(gradient().add_const(fx(2.5)), linear(1.0, 2.5, gradient()));
    assert_eq!(gradient().mul_const(fx(2.5)), linear(2.5, 0.0, gradient()));
    assert_eq!(constant(4.0).add_const(fx(2.5)), linear(1.0, 2.5, constant(4.0)));
}

#[test]
fn two_functions_make_a_binary_node() {
    let other = Arc::new(gradient().abs());
    for action in [BinaryType::Add, BinaryType::Mul, BinaryType::Min, BinaryType::Max] {
        assert_eq!(
            BinaryFunction::create(action, gradient(), other.clone()),
            DensityFunction::Binary(BinaryFunction { action, arg1: gradient(), arg2: other.clone() })
        );
    }
}

#[test]
fn minimum_and_maximum_keep_their_constants() {
    assert_eq!(
        gradient().binary_min(constant(0.0)),
        DensityFunction::Binary(BinaryFunction {
            action: BinaryType::Min,
            arg1: gradient(),
            arg2: constant(0.0)
        })
    );
    assert_eq!(
        gradient().binary_max(constant(1.0)),
        DensityFunction::Binary(BinaryFunction {
            action: BinaryType::Max,
            arg1: gradient(),
            arg2: constant(1.0)
        })
    );
}

#[test]
fn unary_builders_wrap_the_function() {
    let wrap = |action: UnaryType| DensityFunction::Unary(UnaryFunction { action, input: gradient() });
    assert_eq!(gradient().abs(), wrap(UnaryType::Abs));
    assert_eq!(gradient().square(), wrap(UnaryType::Square));
    assert_eq!(gradient().cube(), wrap(UnaryType::Cube));
    assert_eq!(gradient().half_negative(), wrap(UnaryType::HalfNeg));
    assert_eq!(gradient().quarter_negative(), wrap(UnaryType::QuartNeg));
    assert_eq!(gradient().squeeze(), wrap(UnaryType::Squeeze));
    assert_eq!(
        gradient().clamp(fx(-1.0), fx(1.0)),
        DensityFunction::Clamp(ClampFunction { input: gradient(), min: fx(-1.0), max: fx(1.0) })
    );
}

#[test]
fn folded_functions_sample_like_the_operations_they_fold() {
    let env = Unseeded {};
    for y in [-5, 0, 1, 37, 99, 100, 250] {
        let pos = at(3, y, -8);
        let g = gradient().sample(&pos, &env);
        assert_eq!(gradient().add_const(fx(2.5)).sample(&pos, &env), g + fx(2.5));
        assert_eq!(gradient().mul_const(fx(2.5)).sample(&pos, &env), g * 5 / 2);
        assert_eq!(gradient().add_const(fx(2.5)).add_const(fx(-4.0)).sample(&pos, &env), g - fx(1.5));
        assert_eq!(gradient().mul_const(fx(2.0)).mul_const(fx(-3.0)).sample(&pos, &env), -6 * g);
        assert_eq!(
            gradient().mul_const(fx(2.0)).add_const(fx(1.0)).mul_const(fx(3.0)).sample(&pos, &env),
            6 * g + fx(3.0)
        );
        assert_eq!(gradient().add(Arc::new(gradient().abs())).sample(&pos, &env), 2 * g);
    }
}

#[test]
fn a_noise_mapped_onto_a_range_has_the_range_as_bounds() {
    let env = Oracle::new(unit_noise);
    let function = noise_in_range(params("p"), UNIT, UNIT, fx(-0.1), fx(0.1));
    assert_eq!(function.min(&env), fx(-0.1));
    assert_eq!(function.max(&env), fx(0.1));
    let lopsided = noise_in_range(params("p"), UNIT, UNIT, fx(-0.6), fx(-1.3));
    // (min + max) / 2 - |max - min| / 2 and (min + max) / 2 + |max - min| / 2
    assert_eq!(lopsided.min(&env), fx(-1.3));
    assert_eq!(lopsided.max(&env), fx(-0.6));
}

#[test]
fn a_noise_mapped_onto_a_range_is_linear_in_the_noise() {
    let env = Oracle::new(unit_noise);
    let function = noise_in_range(params("p"), fx(0.01), UNIT, fx(2.0), fx(6.0));
    assert_eq!(
        function,
        linear(
            2.0,
            4.0,
            Arc::new(DensityFunction::Noise(NoiseFunction::new(noise("p"), fx(0.01), UNIT)))
        )
    );
    // the noise is x / 100: 0.5 at x = 50
    assert_eq!(function.sample(&at(50, 0, 0), &env), fx(5.0));
    assert_eq!(function.sample(&at(-100, 0, 0), &env), fx(2.0));
    assert_eq!(function.sample(&at(100, 0, 0), &env), fx(6.0));
    assert_eq!(map_range(constant(0.5), fx(2.0), fx(6.0)).sample(&at(0, 0, 0), &env), fx(5.0));
}

#[test]
fn interpolating_by_zero_gives_the_start() {
    let env = Unseeded {};
    let ends: Vec<Arc<DensityFunction>> = vec![
        constant(9.0),
        constant(0.0),
        constant(1.0),
        gradient(),
        Arc::new(linear(2.0, 3.0, gradient())),
        Arc::new(gradient().abs()),
    ];
    for start in ends.iter() {
        for end in ends.iter() {
            let function = lerp_density(constant(0.0), start.clone(), end.clone());
            for y in [-5, 0, 37, 250] {
                let pos = at(1, y, 2);
                assert_eq!(function.sample(&pos, &env), start.sample(&pos, &env));
            }
        }
    }
}

#[test]
fn interpolating_by_one_gives_the_end() {
    let env = Unseeded {};
    let ends: Vec<Arc<DensityFunction>> = vec![
        constant(9.0),
        constant(0.0),
        constant(1.0),
        gradient(),
        Arc::new(linear(2.0, 3.0, gradient())),
        Arc::new(gradient().abs()),
    ];
    for start in ends.iter() {
        for end in ends.iter() {
            let function = lerp_density(constant(1.0), start.clone(), end.clone());
            for y in [-5, 0, 37, 250] {
                let pos = at(1, y, 2);
                assert_eq!(function.sample(&pos, &env), end.sample(&pos, &env));
            }
        }
    }
}

#[test]
fn interpolating_by_a_quarter() {
    let env = Unseeded {};
    let wrapped_two = Arc::new(DensityFunction::Wrapper(WrapperFunction::new(
        constant(2.0),
        WrapperType::Cache2D,
    )));
    // start * (1 - delta) + end * delta
    let general = lerp_density(constant(0.25), wrapped_two, constant(10.0));
    assert_eq!(general.sample(&at(0, 0, 0), &env), fx(4.0));
    // delta * (end - start) + start
    let short = lerp_density(constant(0.25), constant(2.0), constant(10.0));
    assert_eq!(short.sample(&at(0, 0, 0), &env), fx(4.0));
    let by_hand = lerp_density_static_start(constant(0.25), fx(2.0), constant(10.0));
    assert_eq!(by_hand, short);
    assert_eq!(by_hand, linear(0.25, 1.5, constant(10.0)));
}

#[test]
fn interpolation_caches_a_varying_delta_once() {
    let start = Arc::new(gradient().abs());
    let function = lerp_density(gradient(), start.clone(), constant(10.0));
    let cached = Arc::new(DensityFunction::Wrapper(WrapperFunction::new(
        gradient(),
        WrapperType::CacheOnce,
    )));
    let expected = DensityFunction::Binary(BinaryFunction {
        action: BinaryType::Add,
        arg1: Arc::new(DensityFunction::Binary(BinaryFunction {
            action: BinaryType::Mul,
            arg1: start,
            arg2: Arc::new(linear(-1.0, 1.0, cached.clone())),
        })),
        arg2: Arc::new(linear(10.0, 0.0, cached)),
    });
    assert_eq!(function, expected);
}

#[test]
fn a_range_choice_is_an_interpolated_range_over_whole_heights() {
    let function = veritcal_range_choice(gradient(), constant(5.0), -60, 320, -1);
    assert_eq!(
        function,
        DensityFunction::Wrapper(WrapperFunction::new(
            Arc::new(DensityFunction::Range(RangeFunction::new(
                gradient(),
                fx(-60.0),
                fx(321.0),
                constant(5.0),
                constant(-1.0),
            ))),
            WrapperType::Interpolated,
        ))
    );
    let env = Unseeded {};
    let height = Arc::new(DensityFunction::ClampedY(YClampedFunction::new(
        -1000,
        1000,
        fx(-1000.0),
        fx(1000.0),
    )));
    let choice = veritcal_range_choice(height, constant(5.0), -60, 320, -1);
    assert_eq!(choice.sample(&at(0, -61, 0), &env), fx(-1.0));
    assert_eq!(choice.sample(&at(0, -60, 0), &env), fx(5.0));
    assert_eq!(choice.sample(&at(0, 320, 0), &env), fx(5.0));
    assert_eq!(choice.sample(&at(0, 321, 0), &env), fx(-1.0));
    let edge = veritcal_range_choice(gradient(), constant(5.0), i32::MIN, i32::MAX, 0);
    assert_eq!(edge.sample(&at(0, 50, 0), &env), fx(5.0));
}

#[test]
fn blended_density_is_squeezed() {
    let function = apply_blend_density(DensityFunction::Constant(ConstantFunction::new(fx(1.0))));
    assert_eq!(
        function,
        DensityFunction::Unary(UnaryFunction {
            action: UnaryType::Squeeze,
            input: Arc::new(linear(
                0.64,
                0.0,
                Arc::new(DensityFunction::Wrapper(WrapperFunction::new(
                    Arc::new(DensityFunction::BlendDensity(BlendDensityFunction::new(constant(1.0)))),
                    WrapperType::Interpolated,
                )))
            )),
        })
    );
    // 0.64 / 2 - 0.64^3 / 24
    assert_eq!(function.sample(&at(0, 0, 0), &Unseeded {}), 309_078);
}

#[test]
fn peaks_and_valleys_fold_the_ridges() {
    assert_eq!(peaks_valleys_noise(0), -1_000_002);
    assert_eq!(peaks_valleys_noise(UNIT), 0);
    assert_eq!(peaks_valleys_noise(-UNIT), 0);
    assert_eq!(peaks_valleys_noise(666_667), 999_999);
    assert_eq!(peaks_valleys_noise(-666_667), 999_999);
    assert_eq!(peaks_valleys_noise(333_333), -3);
    for v in [-1.0f32, -0.8, -0.5, -0.1, 0.0, 0.2, 0.4, 0.6666667, 0.9, 1.0] {
        let expected = -((v.abs() - 0.6666667f32).abs() - 0.33333334f32) * 3f32;
        let got = peaks_valleys_noise(fx(v as f64)) as f64 / 1_000_000.0;
        assert!((got - expected as f64).abs() < 0.00001, "{} at {}", got, v);
    }
}
