use std::cell::Cell;
use std::sync::Arc;

use density::applier::Applier;
use density::binding::ChunkSamplerDensityFunctionConverter;
use density::built_in::BuiltInNoiseParams;
use density::caches::{ChunkCaches, MAX_CHUNK_WIDTH};
use density::chunk::ChunkBinding;
use density::interpolation::MAX_GRID_CELL;
use density::fixed::UNIT;
use density::function::{
    BlendAlphaDensityFunction, BlendAlphaFunction, BlendOffsetDensityFunction,
    BlendOffsetFunction, CellGrid, ConstantFunction, DensityFunction,
    InterpolatorDensityFunctionWrapper, NoiseFunction, ShiftAFunction,
    WrapperFunction, WrapperType, YClampedFunction,
};
use density::noise::{DoublePerlinNoiseParameters, InternalNoise, Unseeded};
use density::oracle::{Oracle, Query};
use density::position::{ChunkNoiseSamplerWrapper, NoisePos, UnblendedNoisePos};
use density::registry::BuiltInNoiseFunctions;
use density::visitor::{UnwrapVisitor, Visitor};

fn fx(v: f64) -> i64 {
    (v * 1_000_000.0).round() as i64
}

fn constant(v: f64) -> Arc<DensityFunction> {
    Arc::new(DensityFunction::Constant(ConstantFunction::new(fx(v))))
}

fn at(x: i32, y: i32, z: i32) -> NoisePos {
    NoisePos::Unblended(UnblendedNoisePos::new(x, y, z))
}

fn params(name: &str) -> Arc<DoublePerlinNoiseParameters> {
    Arc::new(DoublePerlinNoiseParameters::new(name.to_string(), -3, vec![UNIT, UNIT]))
}

fn noise(name: &str) -> Arc<InternalNoise> {
    Arc::new(InternalNoise::new(params(name)))
}

/// Every noise is x + 2y + 3z with magnitude at most 1000; splines add up
/// their coordinates and stay within -50..50.
fn plane(query: Query) -> i64 {
    match query {
        Query::Noise { x, y, z, .. } => x + 2 * y + 3 * z,
        Query::NoiseMaxValue { .. } => 1000 * UNIT,
        Query::Interpolated { x, y, z, .. } => (x as i64 + y as i64 + z as i64) * UNIT,
        Query::InterpolatedMaxValue { .. } => 100 * UNIT,
        Query::EndIsland { x, .. } => x as i64 * 100_000,
        Query::EndIslandMin { .. } => -843_750,
        Query::EndIslandMax { .. } => 562_500,
        Query::Spline { continents, erosion, ridges, ridges_folded, .. } => {
            continents + erosion + ridges + ridges_folded.unwrap_or(0)
        }
        Query::SplineMin { .. } => -50 * UNIT,
        Query::SplineMax { .. } => 50 * UNIT,
    }
}

fn wrap(input: Arc<DensityFunction>, wrapper: WrapperType) -> Arc<DensityFunction> {
    Arc::new(DensityFunction::Wrapper(WrapperFunction::new(input, wrapper)))
}

fn height() -> Arc<DensityFunction> {
    Arc::new(DensityFunction::ClampedY(YClampedFunction::new(-100, 100, -100 * UNIT, 100 * UNIT)))
}

fn shift() -> Arc<DensityFunction> {
    Arc::new(DensityFunction::ShiftA(ShiftAFunction::new(noise("offset"))))
}

fn tall_noise() -> Arc<DensityFunction> {
    Arc::new(DensityFunction::Noise(NoiseFunction::new(noise("n"), UNIT, UNIT)))
}

fn registry() -> BuiltInNoiseParams {
    BuiltInNoiseParams {
        offset: params("offset"),
        continentalness: params("continentalness"),
        continentalness_large: params("continentalness_large"),
        erosion: params("erosion"),
        erosion_large: params("erosion_large"),
        ridge: params("ridge"),
        jagged: params("jagged"),
        spaghetti_roughness_modulator: params("spaghetti_roughness_modulator"),
        spaghetti_roughness: params("spaghetti_roughness"),
        spaghetti_2d_thickness: params("spaghetti_2d_thickness"),
        spaghetti_2d_modulator: params("spaghetti_2d_modulator"),
        spaghetti_2d: params("spaghetti_2d"),
        spaghetti_2d_elevation: params("spaghetti_2d_elevation"),
        spaghetti_3d_rarity: params("spaghetti_3d_rarity"),
        spaghetti_3d_thickness: params("spaghetti_3d_thickness"),
        spaghetti_3d_1: params("spaghetti_3d_1"),
        spaghetti_3d_2: params("spaghetti_3d_2"),
        cave_entrance: params("cave_entrance"),
        noodle: params("noodle"),
        noodle_thickness: params("noodle_thickness"),
        noodle_ridge_a: params("noodle_ridge_a"),
        noodle_ridge_b: params("noodle_ridge_b"),
        pillar: params("pillar"),
        pillar_rareness: params("pillar_rareness"),
        pillar_thickness: params("pillar_thickness"),
    }
}

/// Counts how often a noise is sampled.
fn counted(calls: &Cell<u32>) -> impl Fn(Query) -> i64 + '_ {
    move |query: Query| {
        if let Query::Noise { .. } = query {
            calls.set(calls.get() + 1);
        }
        plane(query)
    }
}

#[test]
fn a_chunk_must_fit_the_coordinate_range() {
    assert!(ChunkCaches::new(0, 0, 16, 4, 8).is_some());
    assert!(ChunkCaches::new(0, 0, 0, 4, 8).is_none());
    assert!(ChunkCaches::new(0, 0, -16, 4, 8).is_none());
    assert!(ChunkCaches::new(0, 0, MAX_CHUNK_WIDTH, 4, 8).is_some());
    assert!(ChunkCaches::new(0, 0, MAX_CHUNK_WIDTH + 1, 4, 8).is_none());
    assert!(ChunkCaches::new(i32::MAX - 15, 0, 16, 4, 8).is_none());
    assert!(ChunkCaches::new(0, i32::MAX - 15, 16, 4, 8).is_none());
    assert!(ChunkCaches::new(i32::MAX - 16, i32::MAX - 16, 16, 4, 8).is_some());
    assert!(ChunkCaches::new(i32::MIN, i32::MIN, 16, 4, 8).is_some());
    assert!(ChunkCaches::new(0, 0, 16, 0, 8).is_none());
    assert!(ChunkCaches::new(0, 0, 16, 4, 0).is_none());
    assert!(ChunkCaches::new(0, 0, 16, -4, 8).is_none());
    assert!(ChunkCaches::new(0, 0, 16, MAX_GRID_CELL, MAX_GRID_CELL).is_some());
    assert!(ChunkCaches::new(0, 0, 16, MAX_GRID_CELL + 1, 8).is_none());
    assert!(ChunkCaches::new(0, 0, 16, 4, MAX_GRID_CELL + 1).is_none());
    let caches = ChunkCaches::new(-16, 32, 16, 4, 8).unwrap();
    assert_eq!(caches.grid(), CellGrid { start_x: -16, start_z: 32, horizontal: 4, vertical: 8 });
}

#[test]
fn binding_turns_every_annotation_into_a_cache() {
    let mut caches = ChunkCaches::new(0, 0, 16, 4, 8).unwrap();
    let mut converter = ChunkSamplerDensityFunctionConverter::new();
    let graph = wrap(
        Arc::new(wrap(shift(), WrapperType::Cache2D).add(wrap(height(), WrapperType::CacheOnce))),
        WrapperType::CacheFlat,
    );
    let bound = converter.apply(&graph, &mut caches);
    match &*bound {
        DensityFunction::ChunkCacheFlatCache(flat) => {
            assert_eq!(flat.slot, 2);
            match &*flat.input {
                DensityFunction::Binary(sum) => {
                    match &*sum.arg1 {
                        DensityFunction::ChunkCache2DCache(column) => {
                            assert_eq!(column.slot, 0);
                            assert_eq!(*column.input, *shift());
                        }
                        _ => panic!("a column cache"),
                    }
                    match &*sum.arg2 {
                        DensityFunction::ChunkCacheOnceCache(once) => {
                            assert_eq!(once.slot, 1);
                            assert_eq!(*once.input, *height());
                        }
                        _ => panic!("a once-cache"),
                    }
                }
                _ => panic!("a sum"),
            }
        }
        _ => panic!("a flat cache"),
    }
    let more = converter.apply(&wrap(wrap(height(), WrapperType::Interpolated), WrapperType::CacheCell), &mut caches);
    match &*more {
        DensityFunction::ChunkCacheCellCache(cell) => {
            assert_eq!(cell.slot, 4);
            match &*cell.input {
                DensityFunction::ChunkCacheInterpolator(interpolator) => assert_eq!(interpolator.slot, 3),
                _ => panic!("an interpolator"),
            }
        }
        _ => panic!("a cell cache"),
    }
}

#[test]
fn binding_turns_blend_nodes_into_their_bound_forms() {
    let mut caches = ChunkCaches::new(0, 0, 16, 4, 8).unwrap();
    let mut converter = ChunkSamplerDensityFunctionConverter::new();
    let alpha = converter.apply(&Arc::new(DensityFunction::BlendAlpha(BlendAlphaFunction {})), &mut caches);
    assert_eq!(*alpha, DensityFunction::ChunkCacheBlendAlpha(BlendAlphaDensityFunction {}));
    let offset = converter.apply(&Arc::new(DensityFunction::BlendOffset(BlendOffsetFunction {})), &mut caches);
    assert_eq!(*offset, DensityFunction::ChunkCacheBlendOffset(BlendOffsetDensityFunction {}));
    let env = Unseeded {};
    assert_eq!(alpha.sample(&at(1, 2, 3), &env), UNIT);
    assert_eq!(offset.sample(&at(1, 2, 3), &env), 0);
    assert_eq!(alpha.sample_cached(&at(1, 2, 3), &env, &mut caches), UNIT);
    assert_eq!(offset.sample_cached(&at(1, 2, 3), &env, &mut caches), 0);
    assert_eq!(alpha.min(&env), UNIT);
    assert_eq!(offset.max(&env), 0);
}

#[test]
fn a_flat_cache_samples_each_column_once() {
    let calls = Cell::new(0);
    let env = Oracle::new(counted(&calls));
    let mut caches = ChunkCaches::new(0, 0, 16, 4, 8).unwrap();
    let mut converter = ChunkSamplerDensityFunctionConverter::new();
    let bound = converter.apply(&wrap(shift(), WrapperType::CacheFlat), &mut caches);
    let first = bound.sample_cached(&at(8, 5, 4), &env, &mut caches);
    assert_eq!(calls.get(), 1);
    let second = bound.sample_cached(&at(8, 77, 4), &env, &mut caches);
    assert_eq!(calls.get(), 1);
    assert_eq!(first, 20 * UNIT);
    assert_eq!(second, 20 * UNIT);
    // another column of the chunk
    assert_eq!(bound.sample_cached(&at(4, 0, 4), &env, &mut caches), 16 * UNIT);
    assert_eq!(calls.get(), 2);
    // the first column is still kept
    assert_eq!(bound.sample_cached(&at(8, -3, 4), &env, &mut caches), 20 * UNIT);
    assert_eq!(calls.get(), 2);
    // a column outside the chunk is sampled every time
    assert_eq!(bound.sample_cached(&at(16, 0, 4), &env, &mut caches), 28 * UNIT);
    assert_eq!(bound.sample_cached(&at(16, 0, 4), &env, &mut caches), 28 * UNIT);
    assert_eq!(calls.get(), 4);
    assert_eq!(bound.sample_cached(&at(-1, 0, 4), &env, &mut caches), 11 * UNIT);
    assert_eq!(calls.get(), 5);
}

#[test]
fn a_column_cache_keeps_the_column_sampled_last() {
    let calls = Cell::new(0);
    let env = Oracle::new(counted(&calls));
    let mut caches = ChunkCaches::new(0, 0, 16, 4, 8).unwrap();
    let mut converter = ChunkSamplerDensityFunctionConverter::new();
    let bound = converter.apply(&wrap(shift(), WrapperType::Cache2D), &mut caches);
    for y in 0..10 {
        assert_eq!(bound.sample_cached(&at(8, y, 4), &env, &mut caches), 20 * UNIT);
    }
    assert_eq!(calls.get(), 1);
    assert_eq!(bound.sample_cached(&at(4, 0, 4), &env, &mut caches), 16 * UNIT);
    assert_eq!(calls.get(), 2);
    // the earlier column is gone
    assert_eq!(bound.sample_cached(&at(8, 0, 4), &env, &mut caches), 20 * UNIT);
    assert_eq!(calls.get(), 3);
    // columns outside the chunk are kept as well
    assert_eq!(bound.sample_cached(&at(800, 0, 4), &env, &mut caches), 812 * UNIT);
    assert_eq!(bound.sample_cached(&at(800, 9, 4), &env, &mut caches), 812 * UNIT);
    assert_eq!(calls.get(), 4);
}

#[test]
fn a_once_cache_keeps_the_position_sampled_last() {
    let calls = Cell::new(0);
    let env = Oracle::new(counted(&calls));
    let mut caches = ChunkCaches::new(0, 0, 16, 4, 8).unwrap();
    let mut converter = ChunkSamplerDensityFunctionConverter::new();
    let shared = wrap(tall_noise(), WrapperType::CacheOnce);
    let bound = converter.apply(&shared, &mut caches);
    let twice = bound.add(bound.clone());
    assert_eq!(twice.sample_cached(&at(1, 2, 3), &env, &mut caches), 28 * UNIT);
    assert_eq!(calls.get(), 1);
    assert_eq!(twice.sample_cached(&at(1, 2, 3), &env, &mut caches), 28 * UNIT);
    assert_eq!(calls.get(), 1);
    assert_eq!(twice.sample_cached(&at(1, 3, 3), &env, &mut caches), 32 * UNIT);
    assert_eq!(calls.get(), 2);
    assert_eq!(twice.sample(&at(1, 3, 3), &env), 32 * UNIT);
    assert_eq!(calls.get(), 4);
}

#[test]
fn caches_of_functions_that_depend_on_the_height_keep_no_column() {
    let calls = Cell::new(0);
    let env = Oracle::new(counted(&calls));
    let mut caches = ChunkCaches::new(0, 0, 16, 4, 8).unwrap();
    let mut converter = ChunkSamplerDensityFunctionConverter::new();
    let flat = converter.apply(&wrap(tall_noise(), WrapperType::CacheFlat), &mut caches);
    let column = converter.apply(&wrap(tall_noise(), WrapperType::Cache2D), &mut caches);
    for bound in [flat, column] {
        assert_eq!(bound.sample_cached(&at(1, 2, 3), &env, &mut caches), 14 * UNIT);
        assert_eq!(bound.sample_cached(&at(1, 5, 3), &env, &mut caches), 20 * UNIT);
        assert_eq!(bound.sample_cached(&at(1, 2, 3), &env, &mut caches), 14 * UNIT);
    }
    // the flat cache samples every time, the column cache keeps one position
    assert_eq!(calls.get(), 6);
    let mut once_more = ChunkCaches::new(0, 0, 16, 4, 8).unwrap();
    let mut converter_again = ChunkSamplerDensityFunctionConverter::new();
    let column = converter_again.apply(&wrap(tall_noise(), WrapperType::Cache2D), &mut once_more);
    calls.set(0);
    assert_eq!(column.sample_cached(&at(1, 2, 3), &env, &mut once_more), 14 * UNIT);
    assert_eq!(column.sample_cached(&at(1, 2, 3), &env, &mut once_more), 14 * UNIT);
    assert_eq!(calls.get(), 1);
}

#[test]
fn the_shape_shows_what_does_not_depend_on_the_height() {
    assert!(shift().is_column_flat());
    assert!(wrap(shift(), WrapperType::Cache2D).is_column_flat());
    assert!(shift().abs().add_const(5).is_column_flat());
    assert!(DensityFunction::Noise(NoiseFunction::new(noise("n"), UNIT, 0)).is_column_flat());
    assert!(DensityFunction::Constant(ConstantFunction::new(5)).is_column_flat());
    assert!(!tall_noise().is_column_flat());
    assert!(!height().is_column_flat());
    assert!(!shift().add(height()).is_column_flat());
    let functions = BuiltInNoiseFunctions::new(&registry());
    assert!(functions.shift_x().is_column_flat());
    assert!(functions.continents_overworld().is_column_flat());
    assert!(functions.ridges_folded_overworld().is_column_flat());
    assert!(functions.offset_overworld().is_column_flat());
    assert!(functions.factor_overworld().is_column_flat());
    assert!(functions.jaggedness_overworld().is_column_flat());
    assert!(!functions.depth_overworld().is_column_flat());
    assert!(!functions.sloped_cheese_overworld().is_column_flat());
    assert!(!functions.y().is_column_flat());
}

#[test]
fn a_bound_graph_without_interpolators_samples_like_the_graph_it_was_bound_from() {
    let functions = BuiltInNoiseFunctions::new(&registry());
    let env = Oracle::new(plane);
    let mut caches = ChunkCaches::new(-16, 32, 16, 4, 8).unwrap();
    let mut converter = ChunkSamplerDensityFunctionConverter::new();
    let roots = [
        functions.shift_x(),
        functions.continents_overworld(),
        functions.ridges_folded_overworld(),
        functions.offset_overworld(),
        functions.depth_overworld(),
        functions.sloped_cheese_overworld(),
        functions.sloped_cheese_overworld_amplified(),
        functions.sloped_cheese_end(),
        functions.caves_spaghetti_2d_overworld(),
        functions.caves_entrances_overworld(),
        functions.caves_pillars_overworld(),
    ];
    let bound: Vec<Arc<DensityFunction>> =
        roots.iter().map(|root| converter.apply(root, &mut caches)).collect();
    for round in 0..2 {
        for x in [-17, -16, -9, -1, 0] {
            for z in [31, 32, 40, 47, 48] {
                for y in [-64, 0, 1, 100] {
                    let pos = at(x, y, z);
                    for (root, bound) in roots.iter().zip(bound.iter()) {
                        let expected = root.sample(&pos, &env);
                        assert_eq!(
                            bound.sample_cached(&pos, &env, &mut caches),
                            expected,
                            "round {}",
                            round
                        );
                        assert_eq!(bound.sample(&pos, &env), expected);
                    }
                }
            }
        }
    }
}

#[test]
fn cached_samples_are_the_samples_of_the_bound_graph() {
    let functions = BuiltInNoiseFunctions::new(&registry());
    let env = Oracle::new(plane);
    let mut caches = ChunkCaches::new(-16, 32, 16, 4, 8).unwrap();
    let mut converter = ChunkSamplerDensityFunctionConverter::new();
    let bound = converter.apply(functions.caves_noodle_overworld(), &mut caches);
    for round in 0..2 {
        for x in [-17, -16, -14, -9, -1, 0] {
            for z in [31, 32, 35, 47, 48] {
                for y in [-64, -61, -60, 0, 1, 7, 8, 100, 320, 321] {
                    let pos = at(x, y, z);
                    assert_eq!(
                        bound.sample_cached(&pos, &env, &mut caches),
                        bound.sample(&pos, &env),
                        "round {}",
                        round
                    );
                }
            }
        }
    }
    // at the corners of cells the interpolators are exact
    for (x, y, z) in [(-16, 0, 32), (-12, 8, 36), (0, -64, 48), (-20, 16, 28)] {
        let pos = at(x, y, z);
        assert_eq!(
            bound.sample_cached(&pos, &env, &mut caches),
            functions.caves_noodle_overworld().sample(&pos, &env)
        );
    }
}

fn interpolated(input: Arc<DensityFunction>) -> (Arc<DensityFunction>, ChunkCaches) {
    let mut caches = ChunkCaches::new(0, 0, 16, 4, 8).unwrap();
    let mut converter = ChunkSamplerDensityFunctionConverter::new();
    let bound = converter.apply(&wrap(input, WrapperType::Interpolated), &mut caches);
    (bound, caches)
}

#[test]
fn an_interpolator_is_exact_for_a_function_that_is_linear() {
    let env = Unseeded {};
    let (bound, mut caches) = interpolated(height());
    match &*bound {
        DensityFunction::ChunkCacheInterpolator(InterpolatorDensityFunctionWrapper {
            grid, slot, ..
        }) => {
            assert_eq!(*grid, CellGrid { start_x: 0, start_z: 0, horizontal: 4, vertical: 8 });
            assert_eq!(*slot, 0);
        }
        _ => panic!("an interpolator"),
    }
    for y in [-17, -16, -9, -8, -1, 0, 1, 4, 7, 8, 9, 50] {
        assert_eq!(bound.sample(&at(1, y, 2), &env), y as i64 * UNIT);
        assert_eq!(bound.sample_cached(&at(1, y, 2), &env, &mut caches), y as i64 * UNIT);
    }
}

#[test]
fn an_interpolator_cuts_corners() {
    let env = Unseeded {};
    let (bound, mut caches) = interpolated(Arc::new(height().square()));
    // exact at the corners of a cell
    assert_eq!(bound.sample(&at(0, 0, 0), &env), 0);
    assert_eq!(bound.sample(&at(0, 8, 0), &env), 64 * UNIT);
    assert_eq!(bound.sample(&at(4, -8, 12), &env), 64 * UNIT);
    // a straight line between them
    assert_eq!(bound.sample(&at(0, 4, 0), &env), 32 * UNIT);
    assert_eq!(bound.sample(&at(3, 2, 1), &env), 16 * UNIT);
    assert_eq!(bound.sample(&at(3, 9, 1), &env), 88 * UNIT);
    assert_eq!(bound.sample(&at(3, -1, 1), &env), 8 * UNIT);
    assert_eq!(bound.sample_cached(&at(3, 9, 1), &env, &mut caches), 88 * UNIT);
    assert_eq!(bound.min(&env), 0);
    assert_eq!(bound.max(&env), 10_000 * UNIT);
}

#[test]
fn an_interpolator_interpolates_along_all_three_axes() {
    let env = Oracle::new(plane);
    // the noise x + 2y + 3z, squared
    let (bound, mut caches) = interpolated(Arc::new(tall_noise().square()));
    let exact = |x: i64, y: i64, z: i64| (x + 2 * y + 3 * z) * (x + 2 * y + 3 * z) * UNIT;
    for (x, y, z) in [(0, 0, 0), (4, 8, 4), (8, -8, 12)] {
        assert_eq!(bound.sample(&at(x as i32, y as i32, z as i32), &env), exact(x, y, z));
    }
    // the middle of the cell from (0, 0, 0) to (4, 8, 4) is the mean of its corners
    let mut sum = 0;
    for x in [0, 4] {
        for y in [0, 8] {
            for z in [0, 4] {
                sum += exact(x, y, z);
            }
        }
    }
    assert_eq!(bound.sample(&at(2, 4, 2), &env), sum / 8);
    assert_eq!(bound.sample_cached(&at(2, 4, 2), &env, &mut caches), sum / 8);
    // a quarter along the first axis only
    assert_eq!(bound.sample(&at(1, 0, 0), &env), exact(0, 0, 0) * 3 / 4 + exact(4, 0, 0) / 4);
}

#[test]
fn an_interpolator_samples_the_corners_of_a_cell_once() {
    let calls = Cell::new(0);
    let env = Oracle::new(counted(&calls));
    let (bound, mut caches) = interpolated(tall_noise());
    for (x, y, z) in [(0, 0, 0), (1, 2, 3), (3, 7, 3), (2, 4, 2)] {
        let expected = bound.sample(&at(x, y, z), &env);
        calls.set(0);
        assert_eq!(bound.sample_cached(&at(x, y, z), &env, &mut caches), expected);
        assert_eq!(calls.get(), if (x, y, z) == (0, 0, 0) { 8 } else { 0 });
    }
    // the next cell
    assert_eq!(bound.sample_cached(&at(4, 0, 0), &env, &mut caches), 4 * UNIT);
    assert_eq!(calls.get(), 8);
    assert_eq!(bound.sample_cached(&at(5, 0, 0), &env, &mut caches), 5 * UNIT);
    assert_eq!(calls.get(), 8);
}

#[test]
fn an_interpolator_whose_cell_leaves_the_coordinate_range_samples_the_input() {
    let env = Oracle::new(plane);
    let (bound, mut caches) = interpolated(Arc::new(tall_noise().square()));
    let pos = at(i32::MAX, 3, 1);
    let exact = tall_noise().square().sample(&pos, &env);
    assert_eq!(bound.sample(&pos, &env), exact);
    assert_eq!(bound.sample_cached(&pos, &env, &mut caches), exact);
    let pos = at(1, i32::MIN + 1, 1);
    let exact = tall_noise().square().sample(&pos, &env);
    assert_eq!(bound.sample(&pos, &env), exact);
}

#[test]
fn a_cell_cache_keeps_the_corner_sampled_last() {
    let calls = Cell::new(0);
    let env = Oracle::new(counted(&calls));
    let mut caches = ChunkCaches::new(0, 0, 16, 4, 8).unwrap();
    let mut converter = ChunkSamplerDensityFunctionConverter::new();
    let bound = converter.apply(&wrap(tall_noise(), WrapperType::CacheCell), &mut caches);
    // a corner of the grid is kept
    assert_eq!(bound.sample_cached(&at(4, 8, 12), &env, &mut caches), 56 * UNIT);
    assert_eq!(bound.sample_cached(&at(4, 8, 12), &env, &mut caches), 56 * UNIT);
    assert_eq!(calls.get(), 1);
    // any other position is sampled every time, and the corner stays
    assert_eq!(bound.sample_cached(&at(5, 8, 12), &env, &mut caches), 57 * UNIT);
    assert_eq!(bound.sample_cached(&at(5, 8, 12), &env, &mut caches), 57 * UNIT);
    assert_eq!(calls.get(), 3);
    assert_eq!(bound.sample_cached(&at(4, 8, 12), &env, &mut caches), 56 * UNIT);
    assert_eq!(calls.get(), 3);
    // another corner takes its place
    assert_eq!(bound.sample_cached(&at(-4, -8, 0), &env, &mut caches), -20 * UNIT);
    assert_eq!(bound.sample_cached(&at(4, 8, 12), &env, &mut caches), 56 * UNIT);
    assert_eq!(calls.get(), 5);
}

#[test]
fn a_bound_graph_unwraps_to_the_unwrapped_graph_without_its_caches() {
    let functions = BuiltInNoiseFunctions::new(&registry());
    let mut caches = ChunkCaches::new(0, 0, 16, 4, 8).unwrap();
    let mut converter = ChunkSamplerDensityFunctionConverter::new();
    let bound = converter.apply(functions.zero(), &mut caches);
    assert_eq!(*bound, **functions.zero());
    let visitor = Visitor::Unwrap(UnwrapVisitor {});
    let bound = converter.apply(&functions.y().apply(&visitor), &mut caches);
    assert_eq!(*bound, **functions.y());
}

#[test]
fn a_cached_fill_agrees_with_the_samples() {
    let functions = BuiltInNoiseFunctions::new(&registry());
    let calls = Cell::new(0);
    let env = Oracle::new(counted(&calls));
    let mut caches = ChunkCaches::new(16, 32, 16, 4, 8).unwrap();
    let mut converter = ChunkSamplerDensityFunctionConverter::new();
    let cell = ChunkNoiseSamplerWrapper::new(16, -64, 32, 4, 8).unwrap();
    let applier = Applier::ChunkNoise(cell);
    let bound = converter.apply(functions.continents_overworld(), &mut caches);
    let mut cached = vec![0i64; 128];
    bound.fill_cached(&mut cached, &applier, &env, &mut caches);
    let with_caches = calls.get();
    calls.set(0);
    let mut plain = vec![0i64; 128];
    functions.continents_overworld().fill(&mut plain, &applier, &env);
    let without_caches = calls.get();
    assert_eq!(cached, plain);
    // sixteen columns, three noises each, against 128 positions
    assert_eq!(with_caches, 48);
    assert_eq!(without_caches, 384);
}

#[test]
fn a_shared_sub_graph_is_bound_once() {
    let functions = BuiltInNoiseFunctions::new(&registry());
    let calls = Cell::new(0);
    let env = Oracle::new(counted(&calls));
    let mut caches = ChunkCaches::new(0, 0, 16, 4, 8).unwrap();
    let mut converter = ChunkSamplerDensityFunctionConverter::new();
    let continents = converter.apply(functions.continents_overworld(), &mut caches);
    let erosion = converter.apply(functions.erosion_overworld(), &mut caches);
    let shift_x = converter.apply(functions.shift_x(), &mut caches);
    let again = converter.apply(functions.continents_overworld(), &mut caches);
    assert!(Arc::ptr_eq(&again, &continents));
    let shifts = |bound: &Arc<DensityFunction>| match &**bound {
        DensityFunction::ChunkCacheFlatCache(flat) => match &*flat.input {
            DensityFunction::ShiftedNoise(shifted) => {
                (shifted.shift_x.clone(), shifted.shift_y.clone(), shifted.shift_z.clone())
            }
            _ => panic!("a shifted noise"),
        },
        _ => panic!("a flat cache"),
    };
    let (cx, cy, cz) = shifts(&continents);
    let (ex, ey, ez) = shifts(&erosion);
    assert!(Arc::ptr_eq(&cx, &ex));
    assert!(Arc::ptr_eq(&cy, &ey));
    assert!(Arc::ptr_eq(&cz, &ez));
    assert!(Arc::ptr_eq(&cx, &shift_x));
    // the two shifts are sampled for continents and kept for erosion
    let pos = at(3, 9, 5);
    let expected = functions.continents_overworld().sample(&pos, &env);
    calls.set(0);
    assert_eq!(continents.sample_cached(&pos, &env, &mut caches), expected);
    assert_eq!(calls.get(), 3);
    assert_eq!(erosion.sample_cached(&pos, &env, &mut caches), expected);
    assert_eq!(calls.get(), 4);
    assert_eq!(shift_x.sample_cached(&pos, &env, &mut caches), functions.shift_x().sample(&pos, &env));
}

#[test]
fn equal_graphs_behind_different_handles_are_bound_apart() {
    let mut caches = ChunkCaches::new(0, 0, 16, 4, 8).unwrap();
    let mut converter = ChunkSamplerDensityFunctionConverter::new();
    let first = converter.apply(&wrap(shift(), WrapperType::CacheOnce), &mut caches);
    let second = converter.apply(&wrap(shift(), WrapperType::CacheOnce), &mut caches);
    assert!(!Arc::ptr_eq(&first, &second));
    match (&*first, &*second) {
        (DensityFunction::ChunkCacheOnceCache(a), DensityFunction::ChunkCacheOnceCache(b)) => {
            assert_eq!(a.slot, 0);
            assert_eq!(b.slot, 1);
        }
        _ => panic!("two once-caches"),
    }
}

#[test]
fn a_binding_needs_a_chunk_that_fits() {
    assert!(ChunkBinding::new(Unseeded {}, 0, 0, 16, 4, 8).is_some());
    assert!(ChunkBinding::new(Unseeded {}, 0, 0, 0, 4, 8).is_none());
    assert!(ChunkBinding::new(Unseeded {}, i32::MAX, 0, 16, 4, 8).is_none());
    assert!(ChunkBinding::new(Unseeded {}, 0, 0, 16, 0, 8).is_none());
    assert!(ChunkBinding::new(Unseeded {}, 0, 0, 16, 4, 2000).is_none());
}

#[test]
fn a_binding_numbers_its_roots() {
    let functions = BuiltInNoiseFunctions::new(&registry());
    let mut binding = ChunkBinding::new(Unseeded {}, 0, 0, 16, 4, 8).unwrap();
    assert!(binding.root(0).is_none());
    assert_eq!(binding.sample(0, &at(0, 0, 0)), None);
    assert_eq!(binding.bind(functions.continents_overworld()), 0);
    assert_eq!(binding.bind(functions.y()), 1);
    assert_eq!(binding.bind(functions.continents_overworld()), 2);
    assert_eq!(*binding.root(1).unwrap(), **functions.y());
    assert!(Arc::ptr_eq(&binding.root(0).unwrap(), &binding.root(2).unwrap()));
    assert!(matches!(*binding.root(0).unwrap(), DensityFunction::ChunkCacheFlatCache(_)));
    assert!(binding.root(3).is_none());
    assert_eq!(binding.sample(1, &at(0, 77, 0)), Some(77 * UNIT));
    assert_eq!(binding.sample(3, &at(0, 77, 0)), None);
}

#[test]
fn a_bound_flat_cache_invokes_the_noise_once_for_a_column() {
    let calls = Cell::new(0);
    let mut binding = ChunkBinding::new(Oracle::new(counted(&calls)), 0, 0, 16, 4, 8).unwrap();
    let root = binding.bind(&wrap(shift(), WrapperType::CacheFlat));
    let low = binding.sample(root, &at(8, -40, 4));
    let high = binding.sample(root, &at(8, 200, 4));
    assert_eq!(low, Some(20 * UNIT));
    assert_eq!(high, Some(20 * UNIT));
    assert_eq!(calls.get(), 1);
}

#[test]
fn a_binding_fills_through_its_caches() {
    let functions = BuiltInNoiseFunctions::new(&registry());
    let calls = Cell::new(0);
    let mut binding = ChunkBinding::new(Oracle::new(counted(&calls)), 16, 32, 16, 4, 8).unwrap();
    let root = binding.bind(functions.ridges_overworld());
    let cell = ChunkNoiseSamplerWrapper::new(16, -64, 32, 4, 8).unwrap();
    let applier = Applier::ChunkNoise(cell);
    let mut densities = vec![7i64; 128];
    assert!(binding.fill(root, &mut densities, &applier));
    assert_eq!(calls.get(), 48);
    let mut plain = vec![0i64; 128];
    functions.ridges_overworld().fill(&mut plain, &applier, &Oracle::new(plane));
    assert_eq!(densities, plain);
    // too many slots, or no such root: nothing is written
    let mut long = vec![7i64; 129];
    assert!(!binding.fill(root, &mut long, &applier));
    assert_eq!(long, vec![7i64; 129]);
    assert!(!binding.fill(root + 1, &mut densities, &applier));
    assert_eq!(densities, plain);
    let mut short = vec![7i64; 3];
    assert!(binding.fill(root, &mut short, &applier));
    assert_eq!(short, plain[..3].to_vec());
}
