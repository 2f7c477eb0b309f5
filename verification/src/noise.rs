//! Noise parameters and the primitives a density function samples.
//!
//! The graph names its noises; it does not compute them. The seeded samplers,
//! the interpolated base noise, the end-island mask and the terrain splines
//! are supplied by an implementation of [`Primitives`], which states what each
//! of them owes: a value for every input, and static bounds that every value
//! respects.
use std::sync::Arc;
use vstd::prelude::*;

use crate::fixed::UNIT;
use crate::handle::share;

verus! {

/// The record that describes one double-Perlin noise: its name, its first
/// octave and the amplitude of each octave.
#[derive(Debug, PartialEq, Eq)]
pub struct DoublePerlinNoiseParameters {
    id: String,
    first_octave: i32,
    amplitudes: Vec<i64>,
}

impl DoublePerlinNoiseParameters {
    pub closed spec fn name(self) -> Seq<char> {
        self.id@
    }

    pub closed spec fn octave(self) -> int {
        self.first_octave as int
    }

    pub closed spec fn octave_amplitudes(self) -> Seq<i64> {
        self.amplitudes@
    }

    pub fn new(id: String, first_octave: i32, amplitudes: Vec<i64>) -> (params: Self)
        ensures
            params.name() == id@,
            params.octave() == first_octave,
            params.octave_amplitudes() == amplitudes@,
    {
        Self { id, first_octave, amplitudes }
    }

    pub fn id(&self) -> (id: &str)
        ensures
            id@ == self.name(),
    {
        self.id.as_str()
    }

    pub fn first_octave(&self) -> (first_octave: i32)
        ensures
            first_octave == self.octave(),
    {
        self.first_octave
    }

    pub fn amplitudes(&self) -> (amplitudes: &Vec<i64>)
        ensures
            amplitudes@ == self.octave_amplitudes(),
    {
        &self.amplitudes
    }
}

/// A noise as a node of the graph refers to it.
#[derive(Debug, PartialEq, Eq)]
pub struct InternalNoise {
    pub data: Arc<DoublePerlinNoiseParameters>,
}

impl InternalNoise {
    pub fn new(data: Arc<DoublePerlinNoiseParameters>) -> (noise: Self)
        ensures
            noise.data == data,
    {
        Self { data }
    }

    pub fn data(&self) -> (data: &Arc<DoublePerlinNoiseParameters>)
        ensures
            *data == self.data,
    {
        &self.data
    }
}

impl Clone for InternalNoise {
    fn clone(&self) -> (noise: Self)
        ensures
            noise == *self,
    {
        Self { data: share(&self.data) }
    }
}

/// The scales of an interpolated three-dimensional base noise.
#[derive(Clone, Copy, Debug, PartialEq, Eq)]
pub struct InterpolatedNoiseSampler {
    pub xz_scale: i64,
    pub y_scale: i64,
    pub xz_factor: i64,
    pub y_factor: i64,
    pub smear_scale_multiplier: i64,
}

impl InterpolatedNoiseSampler {
    pub fn create_base_3d_noise_function(
        xz_scale: i64,
        y_scale: i64,
        xz_factor: i64,
        y_factor: i64,
        smear_scale_multiplier: i64,
    ) -> (sampler: Self)
        ensures
            sampler == (Self { xz_scale, y_scale, xz_factor, y_factor, smear_scale_multiplier }),
    {
        Self { xz_scale, y_scale, xz_factor, y_factor, smear_scale_multiplier }
    }
}

/// The terrain table that a spline interpolates.
#[derive(Clone, Copy, Debug, PartialEq, Eq, Structural)]
pub enum SplineShape {
    Offset,
    Factor,
    Jaggedness,
}

/// An optional scalar as a mathematical integer.
pub open spec fn widened(v: Option<i64>) -> Option<int> {
    match v {
        Some(v) => Some(v as int),
        None => None,
    }
}

/// The primitives that a density function consumes.
///
/// Each primitive is a function of its arguments alone, and each comes with
/// static bounds: the value function says what a sample is, the bound
/// functions say between which limits every sample lies, and the lemma next to
/// them is the proof an implementation owes that they do.
pub trait Primitives {
    /// The sample of `noise` at a fixed-point coordinate.
    spec fn noise_value(&self, noise: &InternalNoise, x: int, y: int, z: int) -> int;

    /// An upper bound on the magnitude of every sample of `noise`.
    spec fn noise_bound(&self, noise: &InternalNoise) -> int;

    proof fn lemma_noise_bounded(&self, noise: &InternalNoise, x: int, y: int, z: int)
        ensures
            0 <= self.noise_bound(noise) <= i64::MAX,
            -self.noise_bound(noise) <= self.noise_value(noise, x, y, z) <= self.noise_bound(noise),
    ;

    /// The sample of an interpolated base noise at a block.
    spec fn interpolated_value(&self, sampler: InterpolatedNoiseSampler, x: int, y: int, z: int) -> int;

    /// An upper bound on the magnitude of every sample of `sampler`.
    spec fn interpolated_bound(&self, sampler: InterpolatedNoiseSampler) -> int;

    proof fn lemma_interpolated_bounded(
        &self,
        sampler: InterpolatedNoiseSampler,
        x: int,
        y: int,
        z: int,
    )
        ensures
            0 <= self.interpolated_bound(sampler) <= i64::MAX,
            -self.interpolated_bound(sampler) <= self.interpolated_value(sampler, x, y, z)
                <= self.interpolated_bound(sampler),
    ;

    /// The end-island mask for `seed` at a block.
    spec fn end_island_value(&self, seed: u64, x: int, y: int, z: int) -> int;

    /// The least value of the end-island mask.
    spec fn end_island_lower(&self, seed: u64) -> int;

    /// The greatest value of the end-island mask.
    spec fn end_island_upper(&self, seed: u64) -> int;

    proof fn lemma_end_island_bounded(&self, seed: u64, x: int, y: int, z: int)
        ensures
            i64::MIN <= self.end_island_lower(seed) <= self.end_island_value(seed, x, y, z)
                <= self.end_island_upper(seed) <= i64::MAX,
    ;

    /// The value of a terrain spline at sampled coordinates. The offset spline
    /// has no coordinate for folded ridges.
    spec fn spline_value(
        &self,
        shape: SplineShape,
        amplified: bool,
        continents: int,
        erosion: int,
        ridges: int,
        ridges_folded: Option<int>,
    ) -> int;

    /// The least value of a terrain spline.
    spec fn spline_lower(&self, shape: SplineShape, amplified: bool) -> int;

    /// The greatest value of a terrain spline.
    spec fn spline_upper(&self, shape: SplineShape, amplified: bool) -> int;

    proof fn lemma_spline_bounded(
        &self,
        shape: SplineShape,
        amplified: bool,
        continents: int,
        erosion: int,
        ridges: int,
        ridges_folded: Option<int>,
    )
        ensures
            i64::MIN <= self.spline_lower(shape, amplified) <= self.spline_value(
                shape,
                amplified,
                continents,
                erosion,
                ridges,
                ridges_folded,
            ) <= self.spline_upper(shape, amplified) <= i64::MAX,
    ;

    fn sample_noise(&self, noise: &InternalNoise, x: i64, y: i64, z: i64) -> (value: i64)
        ensures
            value == self.noise_value(noise, x as int, y as int, z as int),
    ;

    fn noise_max_value(&self, noise: &InternalNoise) -> (bound: i64)
        ensures
            bound == self.noise_bound(noise),
    ;

    fn sample_interpolated(&self, sampler: &InterpolatedNoiseSampler, x: i32, y: i32, z: i32) -> (value:
        i64)
        ensures
            value == self.interpolated_value(*sampler, x as int, y as int, z as int),
    ;

    fn interpolated_max_value(&self, sampler: &InterpolatedNoiseSampler) -> (bound: i64)
        ensures
            bound == self.interpolated_bound(*sampler),
    ;

    fn sample_end_island(&self, seed: u64, x: i32, y: i32, z: i32) -> (value: i64)
        ensures
            value == self.end_island_value(seed, x as int, y as int, z as int),
    ;

    fn end_island_min(&self, seed: u64) -> (bound: i64)
        ensures
            bound == self.end_island_lower(seed),
    ;

    fn end_island_max(&self, seed: u64) -> (bound: i64)
        ensures
            bound == self.end_island_upper(seed),
    ;

    fn eval_spline(
        &self,
        shape: SplineShape,
        amplified: bool,
        continents: i64,
        erosion: i64,
        ridges: i64,
        ridges_folded: Option<i64>,
    ) -> (value: i64)
        ensures
            value == self.spline_value(
                shape,
                amplified,
                continents as int,
                erosion as int,
                ridges as int,
                widened(ridges_folded),
            ),
    ;

    fn spline_min(&self, shape: SplineShape, amplified: bool) -> (bound: i64)
        ensures
            bound == self.spline_lower(shape, amplified),
    ;

    fn spline_max(&self, shape: SplineShape, amplified: bool) -> (bound: i64)
        ensures
            bound == self.spline_upper(shape, amplified),
    ;
}

/// The primitives before any seed is attached: every noise is silent, with
/// the bound of 2 that an unseeded noise reports, and every spline is flat.
#[derive(Clone, Copy, Debug)]
pub struct Unseeded {}

impl Primitives for Unseeded {
    open spec fn noise_value(&self, noise: &InternalNoise, x: int, y: int, z: int) -> int {
        0
    }

    open spec fn noise_bound(&self, noise: &InternalNoise) -> int {
        2 * UNIT
    }

    proof fn lemma_noise_bounded(&self, noise: &InternalNoise, x: int, y: int, z: int) {
    }

    open spec fn interpolated_value(&self, sampler: InterpolatedNoiseSampler, x: int, y: int, z: int) -> int {
        0
    }

    open spec fn interpolated_bound(&self, sampler: InterpolatedNoiseSampler) -> int {
        2 * UNIT
    }

    proof fn lemma_interpolated_bounded(
        &self,
        sampler: InterpolatedNoiseSampler,
        x: int,
        y: int,
        z: int,
    ) {
    }

    open spec fn end_island_value(&self, seed: u64, x: int, y: int, z: int) -> int {
        0
    }

    open spec fn end_island_lower(&self, seed: u64) -> int {
        0
    }

    open spec fn end_island_upper(&self, seed: u64) -> int {
        0
    }

    proof fn lemma_end_island_bounded(&self, seed: u64, x: int, y: int, z: int) {
    }

    open spec fn spline_value(
        &self,
        shape: SplineShape,
        amplified: bool,
        continents: int,
        erosion: int,
        ridges: int,
        ridges_folded: Option<int>,
    ) -> int {
        0
    }

    open spec fn spline_lower(&self, shape: SplineShape, amplified: bool) -> int {
        0
    }

    open spec fn spline_upper(&self, shape: SplineShape, amplified: bool) -> int {
        0
    }

    proof fn lemma_spline_bounded(
        &self,
        shape: SplineShape,
        amplified: bool,
        continents: int,
        erosion: int,
        ridges: int,
        ridges_folded: Option<int>,
    ) {
    }

    fn sample_noise(&self, noise: &InternalNoise, x: i64, y: i64, z: i64) -> (value: i64) {
        0
    }

    fn noise_max_value(&self, noise: &InternalNoise) -> (bound: i64) {
        2 * UNIT
    }

    fn sample_interpolated(&self, sampler: &InterpolatedNoiseSampler, x: i32, y: i32, z: i32) -> (value:
        i64) {
        0
    }

    fn interpolated_max_value(&self, sampler: &InterpolatedNoiseSampler) -> (bound: i64) {
        2 * UNIT
    }

    fn sample_end_island(&self, seed: u64, x: i32, y: i32, z: i32) -> (value: i64) {
        0
    }

    fn end_island_min(&self, seed: u64) -> (bound: i64) {
        0
    }

    fn end_island_max(&self, seed: u64) -> (bound: i64) {
        0
    }

    fn eval_spline(
        &self,
        shape: SplineShape,
        amplified: bool,
        continents: i64,
        erosion: i64,
        ridges: i64,
        ridges_folded: Option<i64>,
    ) -> (value: i64) {
        0
    }

    fn spline_min(&self, shape: SplineShape, amplified: bool) -> (bound: i64) {
        0
    }

    fn spline_max(&self, shape: SplineShape, amplified: bool) -> (bound: i64) {
        0
    }
}

} // verus!
