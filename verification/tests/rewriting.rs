use std::sync::Arc;

use density::fixed::UNIT;
use density::function::{
    create_factor_spline, BinaryFunction, BinaryType, ConstantFunction, DensityFunction,
    NoiseFunction, RangeFunction, ShiftAFunction, SplineFunction, WrapperFunction, WrapperType,
    YClampedFunction,
};
use density::interface::DensityFunctionImpl;
use density::noise::{DoublePerlinNoiseParameters, InternalNoise, Unseeded};
use density::oracle::Query;
use density::position::{NoisePos, UnblendedNoisePos};
use density::visitor::{SharedRewrite, UnwrapVisitor, Visitor, VisitorImpl};

fn fx(v: f64) -> i64 {
    (v * 1_000_000.0).round() as i64
}

fn constant(v: f64) -> Arc<DensityFunction> {
    Arc::new(DensityFunction::Constant(ConstantFunction::new(fx(v))))
}

fn at(x: i32, y: i32, z: i32) -> NoisePos {
    NoisePos::Unblended(UnblendedNoisePos::new(x, y, z))
}

fn params(name: &str) -> Arc<DoublePerlinNoiseParameters> {
    Arc::new(DoublePerlinNoiseParameters::new(name.to_string(), -3, vec![UNIT, UNIT]))
}

fn noise(name: &str) -> Arc<InternalNoise> {
    Arc::new(InternalNoise::new(params(name)))
}

/// Every noise is x + 2y + 3z with magnitude at most 1000; splines add up
/// their coordinates and stay within -50..50.
fn plane(query: Query) -> i64 {
    match query {
        Query::Noise { x, y, z, .. } => x + 2 * y + 3 * z,
        Query::NoiseMaxValue { .. } => 1000 * UNIT,
        Query::Interpolated { x, y, z, .. } => (x as i64 + y as i64 + z as i64) * UNIT,
        Query::InterpolatedMaxValue { .. } => 100 * UNIT,
        Query::EndIsland { x, .. } => x as i64 * 100_000,
        Query::EndIslandMin { .. } => -843_750,
        Query::EndIslandMax { .. } => 562_500,
        Query::Spline { continents, erosion, ridges, ridges_folded, .. } => {
            continents + erosion + ridges + ridges_folded.unwrap_or(0)
        }
        Query::SplineMin { .. } => -50 * UNIT,
        Query::SplineMax { .. } => 50 * UNIT,
    }
}

fn wrap(input: Arc<DensityFunction>, wrapper: WrapperType) -> Arc<DensityFunction> {
    Arc::new(DensityFunction::Wrapper(WrapperFunction::new(input, wrapper)))
}

fn sum(a: Arc<DensityFunction>, b: Arc<DensityFunction>) -> Arc<DensityFunction> {
    Arc::new(DensityFunction::Binary(BinaryFunction { action: BinaryType::Add, arg1: a, arg2: b }))
}

fn spline(a: Arc<DensityFunction>, b: Arc<DensityFunction>) -> Arc<DensityFunction> {
    Arc::new(DensityFunction::Spline(SplineFunction::new(Arc::new(create_factor_spline(
        a.clone(),
        b.clone(),
        a,
        b,
        true,
    )))))
}

fn range(a: Arc<DensityFunction>, b: Arc<DensityFunction>, c: Arc<DensityFunction>) -> Arc<DensityFunction> {
    Arc::new(DensityFunction::Range(RangeFunction::new(a, 0, UNIT, b, c)))
}

fn height() -> Arc<DensityFunction> {
    Arc::new(DensityFunction::ClampedY(YClampedFunction::new(0, 100, 0, 100 * UNIT)))
}

fn wrapped_graph() -> Arc<DensityFunction> {
    let shared = wrap(wrap(height(), WrapperType::Cache2D), WrapperType::CacheFlat);
    range(
        wrap(sum(shared.clone(), constant(1.0)), WrapperType::Interpolated),
        spline(shared.clone(), wrap(constant(2.0), WrapperType::CacheCell)),
        wrap(sum(shared, wrap(constant(3.0), WrapperType::CacheOnce)), WrapperType::CacheOnce),
    )
}

fn bare_graph() -> Arc<DensityFunction> {
    range(
        sum(height(), constant(1.0)),
        spline(height(), constant(2.0)),
        sum(height(), constant(3.0)),
    )
}

#[test]
fn the_unwrap_visitor_takes_a_wrapper_off() {
    let visitor = UnwrapVisitor {};
    for kind in [
        WrapperType::Cache2D,
        WrapperType::CacheFlat,
        WrapperType::CacheOnce,
        WrapperType::Interpolated,
        WrapperType::CacheCell,
    ] {
        let inner = height();
        let result = visitor.apply(wrap(inner.clone(), kind));
        assert!(Arc::ptr_eq(&result, &inner));
    }
}

#[test]
fn the_unwrap_visitor_leaves_other_nodes_alone() {
    let visitor = UnwrapVisitor {};
    let node = sum(height(), constant(1.0));
    assert!(Arc::ptr_eq(&visitor.apply(node.clone()), &node));
    let noise = noise("n");
    assert!(Arc::ptr_eq(&visitor.apply_internal_noise(noise.clone()), &noise));
    let through_enum = Visitor::Unwrap(UnwrapVisitor {});
    assert!(Arc::ptr_eq(&through_enum.apply(node.clone()), &node));
    assert!(Arc::ptr_eq(&through_enum.apply_internal_noise(noise.clone()), &noise));
}

#[test]
fn unwrapping_a_graph_removes_every_wrapper() {
    let visitor = Visitor::Unwrap(UnwrapVisitor {});
    assert_eq!(*wrapped_graph().apply(&visitor), *bare_graph());
}

#[test]
fn unwrapping_twice_is_unwrapping_once() {
    let visitor = Visitor::Unwrap(UnwrapVisitor {});
    let once = wrapped_graph().apply(&visitor);
    let twice = once.apply(&visitor);
    assert_eq!(*twice, *once);
}

#[test]
fn unwrapping_a_graph_without_wrappers_changes_nothing() {
    let visitor = Visitor::Unwrap(UnwrapVisitor {});
    assert_eq!(*bare_graph().apply(&visitor), *bare_graph());
}

#[test]
fn nested_wrappers_are_unwrapped_from_the_inside() {
    let visitor = Visitor::Unwrap(UnwrapVisitor {});
    let nested = wrap(
        wrap(wrap(height(), WrapperType::CacheOnce), WrapperType::Cache2D),
        WrapperType::CacheFlat,
    );
    assert_eq!(*nested.apply(&visitor), *height());
}

#[test]
fn unwrapping_keeps_the_samples() {
    let visitor = Visitor::Unwrap(UnwrapVisitor {});
    let env = Unseeded {};
    let bare = wrapped_graph().apply(&visitor);
    for y in [-3, 0, 1, 50, 100, 101] {
        let pos = at(4, y, 5);
        assert_eq!(bare.sample(&pos, &env), wrapped_graph().sample(&pos, &env));
    }
}

#[test]
fn nodes_with_noises_are_rebuilt_around_the_same_noise() {
    let visitor = Visitor::Unwrap(UnwrapVisitor {});
    let noise = noise("offset");
    let node = DensityFunction::ShiftA(ShiftAFunction::new(noise.clone()));
    match &*node.apply(&visitor) {
        DensityFunction::ShiftA(shift) => assert!(Arc::ptr_eq(&shift.offset, &noise)),
        _ => panic!("a shift stays a shift"),
    }
    let sampled = DensityFunction::Noise(NoiseFunction::new(noise.clone(), UNIT, 2 * UNIT));
    assert_eq!(*sampled.apply(&visitor), sampled);
}

#[test]
fn every_node_kind_offers_the_shared_interface() {
    let visitor = Visitor::Unwrap(UnwrapVisitor {});
    let env = Unseeded {};
    let three = ConstantFunction::new(3 * UNIT);
    assert_eq!(DensityFunctionImpl::sample(&three, &at(0, 0, 0), &env), 3 * UNIT);
    assert_eq!(DensityFunctionImpl::min(&three, &env), 3 * UNIT);
    assert_eq!(DensityFunctionImpl::max(&three, &env), 3 * UNIT);
    assert_eq!(*DensityFunctionImpl::apply(&three, &visitor), *constant(3.0));
    assert_eq!(*three.apply(&visitor), *constant(3.0));
    let wrapper = WrapperFunction::new(height(), WrapperType::CacheFlat);
    assert_eq!(*wrapper.apply(&visitor), *height());
    assert_eq!(DensityFunctionImpl::sample(&wrapper, &at(0, 40, 0), &env), 40 * UNIT);
    let gradient = YClampedFunction::new(0, 100, 0, 100 * UNIT);
    assert_eq!(*gradient.apply(&visitor), *height());
    assert_eq!(DensityFunctionImpl::max(&gradient, &env), 100 * UNIT);
    let selector = RangeFunction::new(wrap(height(), WrapperType::Cache2D), 0, UNIT, constant(1.0), constant(2.0));
    assert_eq!(*selector.apply(&visitor), *range(height(), constant(1.0), constant(2.0)));
}

#[test]
fn a_shared_rewrite_keeps_shared_sub_graphs_shared() {
    let shared = wrap(sum(height(), constant(1.0)), WrapperType::CacheOnce);
    let graph = range(
        wrap(shared.clone(), WrapperType::Cache2D),
        sum(shared.clone(), constant(2.0)),
        spline(shared.clone(), shared.clone()),
    );
    let visitor = Visitor::Unwrap(UnwrapVisitor {});
    let mut rewrite = SharedRewrite::new(visitor);
    let result = rewrite.apply(&graph);
    assert_eq!(*result, *graph.apply(&visitor));
    let (input, in_range, out_range) = match &*result {
        DensityFunction::Range(f) => (f.input.clone(), f.in_range.clone(), f.out_range.clone()),
        _ => panic!("a range"),
    };
    assert_eq!(*input, *sum(height(), constant(1.0)));
    match &*in_range {
        DensityFunction::Binary(f) => assert!(Arc::ptr_eq(&f.arg1, &input)),
        _ => panic!("a sum"),
    }
    match &*out_range {
        DensityFunction::Spline(f) => {
            assert!(Arc::ptr_eq(&f.spline.continents, &input));
            assert!(Arc::ptr_eq(&f.spline.erosion, &input));
            assert!(Arc::ptr_eq(&f.spline.ridges, &input));
            assert!(Arc::ptr_eq(f.spline.ridges_folded.as_ref().unwrap(), &input));
        }
        _ => panic!("a spline"),
    }
    // the same handle again is answered with the same node
    assert!(Arc::ptr_eq(&rewrite.apply(&graph), &result));
    assert!(Arc::ptr_eq(&rewrite.apply(&shared), &input));
    // a plain rewrite makes a node for every parent
    let plain = graph.apply(&visitor);
    match &*plain {
        DensityFunction::Range(f) => match &*f.in_range {
            DensityFunction::Binary(sum) => assert!(!Arc::ptr_eq(&sum.arg1, &f.input)),
            _ => panic!("a sum"),
        },
        _ => panic!("a range"),
    }
}
