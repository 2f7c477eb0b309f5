use std::sync::Arc;

use density::applier::{Applier, ApplierImpl, InterpolationApplier};
use density::fixed::UNIT;
use density::function::{
    BeardifyerFunction, ConstantFunction, DensityFunction, NoiseFunction, RangeFunction,
    WrapperFunction, WrapperType, YClampedFunction,
};
use density::noise::{DoublePerlinNoiseParameters, InternalNoise, Unseeded};
use density::oracle::{Oracle, Query};
use density::position::{
    ChunkNoiseSamplerWrapper, NoisePos, NoisePosImpl, UnblendedNoisePos, MAX_CELL_BLOCK_COUNT,
};

fn fx(v: f64) -> i64 {
    (v * 1_000_000.0).round() as i64
}

fn constant(v: f64) -> Arc<DensityFunction> {
    Arc::new(DensityFunction::Constant(ConstantFunction::new(fx(v))))
}

fn at(x: i32, y: i32, z: i32) -> NoisePos {
    NoisePos::Unblended(UnblendedNoisePos::new(x, y, z))
}

fn params(name: &str) -> Arc<DoublePerlinNoiseParameters> {
    Arc::new(DoublePerlinNoiseParameters::new(name.to_string(), -3, vec![UNIT, UNIT]))
}

fn noise(name: &str) -> Arc<InternalNoise> {
    Arc::new(InternalNoise::new(params(name)))
}

/// Every noise is x + 2y + 3z with magnitude at most 1000; splines add up
/// their coordinates and stay within -50..50.
fn plane(query: Query) -> i64 {
    match query {
        Query::Noise { x, y, z, .. } => x + 2 * y + 3 * z,
        Query::NoiseMaxValue { .. } => 1000 * UNIT,
        Query::Interpolated { x, y, z, .. } => (x as i64 + y as i64 + z as i64) * UNIT,
        Query::InterpolatedMaxValue { .. } => 100 * UNIT,
        Query::EndIsland { x, .. } => x as i64 * 100_000,
        Query::EndIslandMin { .. } => -843_750,
        Query::EndIslandMax { .. } => 562_500,
        Query::Spline { continents, erosion, ridges, ridges_folded, .. } => {
            continents + erosion + ridges + ridges_folded.unwrap_or(0)
        }
        Query::SplineMin { .. } => -50 * UNIT,
        Query::SplineMax { .. } => 50 * UNIT,
    }
}

fn cell() -> ChunkNoiseSamplerWrapper {
    ChunkNoiseSamplerWrapper::new(16, -64, 32, 2, 3).unwrap()
}

fn coordinates(pos: &NoisePos) -> (i32, i32, i32) {
    (pos.x(), pos.y(), pos.z())
}

fn height() -> Arc<DensityFunction> {
    Arc::new(DensityFunction::ClampedY(YClampedFunction::new(-100, 100, -100 * UNIT, 100 * UNIT)))
}

fn check_fill(function: &DensityFunction, applier: &Applier, length: usize) {
    let env = Oracle::new(plane);
    let mut densities = vec![i64::MIN; length];
    function.fill(&mut densities, applier, &env);
    assert_eq!(densities.len(), length);
    for (i, density) in densities.iter().enumerate() {
        assert_eq!(*density, function.sample(&applier.at(i), &env), "slot {}", i);
    }
}

#[test]
fn a_cursor_starts_at_the_lowest_corner_of_its_cell() {
    let cursor = cell();
    assert_eq!((cursor.x(), cursor.y(), cursor.z()), (16, -64, 32));
    assert_eq!(cursor.horizontal_cell_block_count(), 2);
    assert_eq!(cursor.vertical_cell_block_count(), 3);
    let pos = NoisePos::ChunkNoise(cursor);
    assert_eq!(coordinates(&pos), (16, -64, 32));
}

#[test]
fn a_cell_must_fit_the_coordinate_range() {
    assert!(ChunkNoiseSamplerWrapper::new(0, 0, 0, 0, 1).is_none());
    assert!(ChunkNoiseSamplerWrapper::new(0, 0, 0, 1, 0).is_none());
    assert!(ChunkNoiseSamplerWrapper::new(0, 0, 0, -4, 4).is_none());
    assert!(ChunkNoiseSamplerWrapper::new(0, 0, 0, MAX_CELL_BLOCK_COUNT + 1, 1).is_none());
    assert!(ChunkNoiseSamplerWrapper::new(0, 0, 0, 1, MAX_CELL_BLOCK_COUNT + 1).is_none());
    assert!(ChunkNoiseSamplerWrapper::new(i32::MAX - 3, 0, 0, 4, 4).is_none());
    assert!(ChunkNoiseSamplerWrapper::new(0, i32::MAX - 3, 0, 4, 4).is_none());
    assert!(ChunkNoiseSamplerWrapper::new(0, 0, i32::MAX - 3, 4, 4).is_none());
    assert!(ChunkNoiseSamplerWrapper::new(i32::MAX - 4, i32::MAX - 4, i32::MAX - 4, 4, 4).is_some());
    assert!(ChunkNoiseSamplerWrapper::new(i32::MIN, i32::MIN, i32::MIN, 1024, 1024).is_some());
}

#[test]
fn a_cursor_moves_within_its_cell() {
    let cursor = cell().with_offset(1, 2, 0).unwrap();
    assert_eq!((cursor.x(), cursor.y(), cursor.z()), (17, -62, 32));
    assert!(cell().with_offset(2, 0, 0).is_none());
    assert!(cell().with_offset(0, 3, 0).is_none());
    assert!(cell().with_offset(0, 0, 2).is_none());
    assert!(cell().with_offset(-1, 0, 0).is_none());
    let raised = cursor.at_height(8).unwrap();
    assert_eq!((raised.x(), raised.y(), raised.z()), (17, 8, 32));
    assert!(cursor.at_height(i32::MAX - 2).is_none());
    assert!(cursor.at_height(i32::MAX - 3).is_some());
}

#[test]
fn a_cell_is_walked_layer_by_layer_from_the_top() {
    let cursor = cell();
    let expected = [
        (16, -62, 32),
        (16, -62, 33),
        (17, -62, 32),
        (17, -62, 33),
        (16, -63, 32),
        (16, -63, 33),
        (17, -63, 32),
        (17, -63, 33),
        (16, -64, 32),
        (16, -64, 33),
        (17, -64, 32),
        (17, -64, 33),
    ];
    for (i, position) in expected.iter().enumerate() {
        assert_eq!(coordinates(&cursor.at(i)), *position);
        assert_eq!(coordinates(&Applier::ChunkNoise(cursor).at(i)), *position);
    }
}

#[test]
fn a_column_is_walked_from_the_lowest_cell_up() {
    let cursor = cell().with_offset(1, 2, 1).unwrap();
    let column = InterpolationApplier::new(cursor, -4, 5).unwrap();
    for i in 0..6usize {
        assert_eq!(coordinates(&column.at(i)), (17, (i as i32 - 4) * 3, 33));
    }
    assert!(InterpolationApplier::new(cursor, 0, -1).is_none());
    assert!(InterpolationApplier::new(cursor, i32::MIN, 5).is_none());
    assert!(InterpolationApplier::new(cursor, 0, i32::MAX / 3).is_none());
    assert!(InterpolationApplier::new(cursor, 0, i32::MAX / 3 - 1).is_some());
    assert!(InterpolationApplier::new(cursor, i32::MIN / 3, 0).is_some());
    assert!(InterpolationApplier::new(cursor, i32::MIN / 3 - 1, 0).is_none());
}

#[test]
fn a_fill_agrees_with_the_samples() {
    let cursor = cell();
    let column = InterpolationApplier::new(cursor, -4, 5).unwrap();
    let functions = vec![
        DensityFunction::Constant(ConstantFunction::new(3 * UNIT)),
        DensityFunction::Beardifyer(BeardifyerFunction {}),
        (*height()).clone(),
        DensityFunction::Wrapper(WrapperFunction::new(height(), WrapperType::CacheCell)),
        DensityFunction::Range(RangeFunction::new(
            height(),
            -63 * UNIT,
            -2 * UNIT,
            constant(1.0),
            Arc::new(DensityFunction::Noise(NoiseFunction::new(noise("n"), UNIT, UNIT))),
        )),
        DensityFunction::Noise(NoiseFunction::new(noise("n"), UNIT, UNIT)),
        height().abs().add(constant(2.0)),
    ];
    for function in functions.iter() {
        check_fill(function, &Applier::ChunkNoise(cursor), 12);
        check_fill(function, &Applier::ChunkNoise(cursor), 5);
        check_fill(function, &Applier::ChunkNoise(cursor), 0);
        check_fill(function, &Applier::Interpolation(column), 6);
        check_fill(function, &Applier::Interpolation(column), 2);
    }
}

#[test]
fn a_fill_writes_known_densities() {
    let env = Unseeded {};
    let applier = Applier::ChunkNoise(cell());
    let mut densities = vec![0i64; 12];
    height().fill(&mut densities, &applier, &env);
    let top = -62 * UNIT;
    let middle = -63 * UNIT;
    let bottom = -64 * UNIT;
    assert_eq!(
        densities,
        vec![top, top, top, top, middle, middle, middle, middle, bottom, bottom, bottom, bottom]
    );
    let selector = RangeFunction::new(height(), -63 * UNIT, 0, constant(1.0), constant(2.0));
    selector.fill(&mut densities, &applier, &env);
    let one = UNIT;
    let two = 2 * UNIT;
    assert_eq!(densities, vec![one, one, one, one, one, one, one, one, two, two, two, two]);
    ConstantFunction::new(7).fill(&mut densities, &applier);
    assert_eq!(densities, vec![7; 12]);
    BeardifyerFunction {}.fill(&mut densities, &applier);
    assert_eq!(densities, vec![0; 12]);
    YClampedFunction::new(-64, -62, 0, 2 * UNIT).fill(&mut densities, &applier, &env);
    assert_eq!(densities[0], 2 * UNIT);
    assert_eq!(densities[4], UNIT);
    assert_eq!(densities[11], 0);
    WrapperFunction::new(constant(5.0), WrapperType::CacheOnce).fill(&mut densities, &applier, &env);
    assert_eq!(densities, vec![5 * UNIT; 12]);
}

#[test]
fn the_applier_itself_fills_by_sampling() {
    let env = Unseeded {};
    let cursor = cell();
    let mut densities = vec![0i64; 3];
    cursor.fill(&mut densities, &height(), &env);
    assert_eq!(densities, vec![-62 * UNIT, -62 * UNIT, -62 * UNIT]);
    let column = InterpolationApplier::new(cursor, 1, 2).unwrap();
    column.fill(&mut densities, &height(), &env);
    assert_eq!(densities, vec![3 * UNIT, 6 * UNIT, 9 * UNIT]);
}
