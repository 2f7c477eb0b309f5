//! Primitives answered by a function.
//!
//! The samplers behind a graph are usually not written in this crate. An
//! [`Oracle`] takes them in as one function from questions to answers and
//! turns that function into [`Primitives`]. The function has to answer every
//! question, and the same question always with the same answer. The oracle
//! holds each sample within the bounds that the function reports, so the
//! bounds hold whatever the function answers.
use vstd::prelude::*;

use crate::fixed::{bounded, clip, fixed_clamp};
use crate::noise::{widened, InternalNoise, InterpolatedNoiseSampler, Primitives, SplineShape};

verus! {

/// A question put to the samplers.
#[allow(inconsistent_fields)]
pub enum Query {
    /// The sample of a noise at a fixed-point coordinate.
    Noise { noise: InternalNoise, x: i64, y: i64, z: i64 },
    /// The greatest magnitude of a noise.
    NoiseMaxValue { noise: InternalNoise },
    /// The sample of an interpolated base noise at a block.
    Interpolated { sampler: InterpolatedNoiseSampler, x: i32, y: i32, z: i32 },
    /// The greatest magnitude of an interpolated base noise.
    InterpolatedMaxValue { sampler: InterpolatedNoiseSampler },
    /// The end-island mask at a block.
    EndIsland { seed: u64, x: i32, y: i32, z: i32 },
    /// The least value of the end-island mask.
    EndIslandMin { seed: u64 },
    /// The greatest value of the end-island mask.
    EndIslandMax { seed: u64 },
    /// The value of a terrain spline at sampled coordinates.
    Spline {
        shape: SplineShape,
        amplified: bool,
        continents: i64,
        erosion: i64,
        ridges: i64,
        ridges_folded: Option<i64>,
    },
    /// The least value of a terrain spline.
    SplineMin { shape: SplineShape, amplified: bool },
    /// The greatest value of a terrain spline.
    SplineMax { shape: SplineShape, amplified: bool },
}

/// Whether `answer` answers every question, and each in one way only.
pub open spec fn answers_all<F: Fn(Query) -> i64>(answer: F) -> bool {
    &&& forall|query: Query| call_requires(answer, (query,))
    &&& forall|query: Query, a: i64, b: i64|
        call_ensures(answer, (query,), a) && call_ensures(answer, (query,), b) ==> a == b
}

/// Primitives answered by a function.
pub struct Oracle<F: Fn(Query) -> i64> {
    answer: F,
}

/// A scalar bound below by zero.
pub open spec fn not_negative(v: int) -> int {
    if v < 0 {
        0
    } else {
        v
    }
}

/// A sampled coordinate as a scalar.
pub open spec fn narrowed(v: int) -> i64 {
    clip(v) as i64
}

impl<F: Fn(Query) -> i64> Oracle<F> {
    #[verifier::type_invariant]
    closed spec fn inv(self) -> bool {
        answers_all(self.answer)
    }

    /// The function that answers.
    pub closed spec fn function(&self) -> F {
        self.answer
    }

    /// The answer to `query`.
    pub open spec fn reply(&self, query: Query) -> int {
        (choose|r: i64| call_ensures(self.function(), (query,), r)) as int
    }

    /// An oracle that asks `answer`.
    pub fn new(answer: F) -> (oracle: Self)
        requires
            answers_all(answer),
        ensures
            oracle.function() == answer,
    {
        Self { answer }
    }

    /// Puts one question.
    pub fn ask(&self, query: Query) -> (r: i64)
        ensures
            r == self.reply(query),
    {
        proof {
            use_type_invariant(self);
        }
        (self.answer)(query)
    }
}

impl<F: Fn(Query) -> i64> Primitives for Oracle<F> {
    open spec fn noise_value(&self, noise: &InternalNoise, x: int, y: int, z: int) -> int {
        bounded(
            self.reply(
                Query::Noise { noise: *noise, x: narrowed(x), y: narrowed(y), z: narrowed(z) },
            ),
            -self.noise_bound(noise),
            self.noise_bound(noise),
        )
    }

    open spec fn noise_bound(&self, noise: &InternalNoise) -> int {
        not_negative(self.reply(Query::NoiseMaxValue { noise: *noise }))
    }

    proof fn lemma_noise_bounded(&self, noise: &InternalNoise, x: int, y: int, z: int) {
    }

    open spec fn interpolated_value(&self, sampler: InterpolatedNoiseSampler, x: int, y: int, z: int) -> int {
        bounded(
            self.reply(Query::Interpolated { sampler, x: x as i32, y: y as i32, z: z as i32 }),
            -self.interpolated_bound(sampler),
            self.interpolated_bound(sampler),
        )
    }

    open spec fn interpolated_bound(&self, sampler: InterpolatedNoiseSampler) -> int {
        not_negative(self.reply(Query::InterpolatedMaxValue { sampler }))
    }

    proof fn lemma_interpolated_bounded(
        &self,
        sampler: InterpolatedNoiseSampler,
        x: int,
        y: int,
        z: int,
    ) {
    }

    open spec fn end_island_value(&self, seed: u64, x: int, y: int, z: int) -> int {
        bounded(
            self.reply(Query::EndIsland { seed, x: x as i32, y: y as i32, z: z as i32 }),
            self.end_island_lower(seed),
            self.end_island_upper(seed),
        )
    }

    open spec fn end_island_lower(&self, seed: u64) -> int {
        self.reply(Query::EndIslandMin { seed })
    }

    open spec fn end_island_upper(&self, seed: u64) -> int {
        crate::fixed::greater(
            self.reply(Query::EndIslandMin { seed }),
            self.reply(Query::EndIslandMax { seed }),
        )
    }

    proof fn lemma_end_island_bounded(&self, seed: u64, x: int, y: int, z: int) {
    }

    open spec fn spline_value(
        &self,
        shape: SplineShape,
        amplified: bool,
        continents: int,
        erosion: int,
        ridges: int,
        ridges_folded: Option<int>,
    ) -> int {
        bounded(
            self.reply(
                Query::Spline {
                    shape,
                    amplified,
                    continents: narrowed(continents),
                    erosion: narrowed(erosion),
                    ridges: narrowed(ridges),
                    ridges_folded: match ridges_folded {
                        Some(folded) => Some(narrowed(folded)),
                        None => None,
                    },
                },
            ),
            self.spline_lower(shape, amplified),
            self.spline_upper(shape, amplified),
        )
    }

    open spec fn spline_lower(&self, shape: SplineShape, amplified: bool) -> int {
        self.reply(Query::SplineMin { shape, amplified })
    }

    open spec fn spline_upper(&self, shape: SplineShape, amplified: bool) -> int {
        crate::fixed::greater(
            self.reply(Query::SplineMin { shape, amplified }),
            self.reply(Query::SplineMax { shape, amplified }),
        )
    }

    proof fn lemma_spline_bounded(
        &self,
        shape: SplineShape,
        amplified: bool,
        continents: int,
        erosion: int,
        ridges: int,
        ridges_folded: Option<int>,
    ) {
    }

    fn sample_noise(&self, noise: &InternalNoise, x: i64, y: i64, z: i64) -> (value: i64) {
        let bound: i64 = self.noise_max_value(noise);
        let raw: i64 = self.ask(Query::Noise { noise: noise.clone(), x, y, z });
        fixed_clamp(raw, -bound, bound)
    }

    fn noise_max_value(&self, noise: &InternalNoise) -> (bound: i64) {
        let raw: i64 = self.ask(Query::NoiseMaxValue { noise: noise.clone() });
        if raw < 0 {
            0
        } else {
            raw
        }
    }

    fn sample_interpolated(&self, sampler: &InterpolatedNoiseSampler, x: i32, y: i32, z: i32) -> (value:
        i64) {
        let bound: i64 = self.interpolated_max_value(sampler);
        let raw: i64 = self.ask(Query::Interpolated { sampler: *sampler, x, y, z });
        fixed_clamp(raw, -bound, bound)
    }

    fn interpolated_max_value(&self, sampler: &InterpolatedNoiseSampler) -> (bound: i64) {
        let raw: i64 = self.ask(Query::InterpolatedMaxValue { sampler: *sampler });
        if raw < 0 {
            0
        } else {
            raw
        }
    }

    fn sample_end_island(&self, seed: u64, x: i32, y: i32, z: i32) -> (value: i64) {
        let raw: i64 = self.ask(Query::EndIsland { seed, x, y, z });
        fixed_clamp(raw, self.end_island_min(seed), self.end_island_max(seed))
    }

    fn end_island_min(&self, seed: u64) -> (bound: i64) {
        self.ask(Query::EndIslandMin { seed })
    }

    fn end_island_max(&self, seed: u64) -> (bound: i64) {
        let lower: i64 = self.ask(Query::EndIslandMin { seed });
        let upper: i64 = self.ask(Query::EndIslandMax { seed });
        if lower >= upper {
            lower
        } else {
            upper
        }
    }

    fn eval_spline(
        &self,
        shape: SplineShape,
        amplified: bool,
        continents: i64,
        erosion: i64,
        ridges: i64,
        ridges_folded: Option<i64>,
    ) -> (value: i64) {
        let raw: i64 = self.ask(
            Query::Spline { shape, amplified, continents, erosion, ridges, ridges_folded },
        );
        fixed_clamp(raw, self.spline_min(shape, amplified), self.spline_max(shape, amplified))
    }

    fn spline_min(&self, shape: SplineShape, amplified: bool) -> (bound: i64) {
        self.ask(Query::SplineMin { shape, amplified })
    }

    fn spline_max(&self, shape: SplineShape, amplified: bool) -> (bound: i64) {
        let lower: i64 = self.ask(Query::SplineMin { shape, amplified });
        let upper: i64 = self.ask(Query::SplineMax { shape, amplified });
        if lower >= upper {
            lower
        } else {
            upper
        }
    }
}

} // verus!
