use density::fixed::UNIT;
use std::sync::Arc;

use density::noise::{
    DoublePerlinNoiseParameters, InternalNoise, Primitives, SplineShape, Unseeded,
};
use density::oracle::{Oracle, Query};
use density::position::{NoisePosImpl, UnblendedNoisePos};

fn ramp(query: Query) -> i64 {
    match query {
        Query::Noise { x, .. } => x,
        Query::NoiseMaxValue { .. } => UNIT,
        Query::SplineMin { .. } => -5,
        Query::SplineMax { .. } => 7,
        Query::Spline { continents, .. } => continents,
        _ => 0,
    }
}

#[test]
fn unblended_position_keeps_its_coordinates() {
    let pos = UnblendedNoisePos::new(1, -2, 3);
    assert_eq!(pos.x(), 1);
    assert_eq!(pos.y(), -2);
    assert_eq!(pos.z(), 3);
}

#[test]
fn an_oracle_holds_answers_within_the_reported_bounds() {
    let oracle = Oracle::new(ramp);
    assert_eq!(oracle.spline_min(SplineShape::Offset, false), -5);
    assert_eq!(oracle.spline_max(SplineShape::Offset, false), 7);
    assert_eq!(oracle.eval_spline(SplineShape::Offset, false, 100, 0, 0, None), 7);
    assert_eq!(oracle.eval_spline(SplineShape::Offset, false, 3, 0, 0, None), 3);
    assert_eq!(oracle.eval_spline(SplineShape::Factor, true, -9, 0, 0, Some(1)), -5);
}

#[test]
fn unseeded_primitives_are_silent() {
    let quiet = Unseeded {};
    assert_eq!(quiet.end_island_max(0), 0);
    assert_eq!(quiet.spline_max(SplineShape::Jaggedness, true), 0);
}

#[test]
fn noise_parameters_keep_what_they_were_made_of() {
    let params = DoublePerlinNoiseParameters::new("ridge".to_string(), -7, vec![UNIT, 2 * UNIT, 0]);
    assert_eq!(params.id(), "ridge");
    assert_eq!(params.first_octave(), -7);
    assert_eq!(*params.amplitudes(), vec![UNIT, 2 * UNIT, 0]);
    let shared = Arc::new(params);
    let noise = InternalNoise::new(shared.clone());
    assert!(Arc::ptr_eq(noise.data(), &shared));
    let copy = noise.clone();
    assert!(Arc::ptr_eq(copy.data(), &shared));
    assert_eq!(copy, noise);
}

#[test]
fn an_oracle_holds_noises_within_their_bounds() {
    let oracle = Oracle::new(ramp);
    let noise = InternalNoise::new(Arc::new(DoublePerlinNoiseParameters::new(
        "n".to_string(),
        0,
        vec![UNIT],
    )));
    assert_eq!(oracle.noise_max_value(&noise), UNIT);
    assert_eq!(oracle.sample_noise(&noise, 250_000, 0, 0), 250_000);
    assert_eq!(oracle.sample_noise(&noise, 5 * UNIT, 0, 0), UNIT);
    assert_eq!(oracle.sample_noise(&noise, -5 * UNIT, 0, 0), -UNIT);
    let negative = Oracle::new(|query: Query| match query {
        Query::NoiseMaxValue { .. } => -3,
        Query::InterpolatedMaxValue { .. } => -3,
        Query::EndIslandMin { .. } => 5,
        Query::EndIslandMax { .. } => 2,
        _ => 9,
    });
    // a bound below zero counts as zero, an upper bound below the lower as the lower
    assert_eq!(negative.noise_max_value(&noise), 0);
    assert_eq!(negative.sample_noise(&noise, 1, 2, 3), 0);
    assert_eq!(negative.end_island_min(0), 5);
    assert_eq!(negative.end_island_max(0), 5);
    assert_eq!(negative.sample_end_island(0, 1, 2, 3), 5);
    assert_eq!(negative.ask(Query::EndIslandMax { seed: 0 }), 2);
}
