//! Every sample of a density function lies within its static bounds.
use vstd::prelude::*;

use crate::fixed::{
    bounded, lemma_quotient_monotone, lemma_quotient_sign, lemma_times_corners,
    lemma_times_monotone, lemma_times_sign, quotient, times, UNIT,
};
use crate::function::{BinaryType, DensityFunction, RarityMapper, UnaryType};
use crate::noise::Primitives;
use crate::position::BlockPos;
use crate::sample::lemma_proportion;
use crate::semantics::{
    binary_lower, binary_upper, binary_value, clamped_line, cubed, linear_value, rarity_max,
    rarity_value, squeezed, unary_lower, unary_upper, unary_value, HALF, QUARTER,
};

verus! {

/// The square of a scalar is not negative and grows with its magnitude.
pub proof fn lemma_square_bounds(v: int, lo: int, hi: int)
    requires
        lo <= v <= hi,
    ensures
        unary_lower(UnaryType::Square, lo, hi) <= times(v, v) <= unary_upper(
            UnaryType::Square,
            lo,
            hi,
        ),
{
    lemma_times_sign(v, v);
    lemma_times_monotone(lo, v, lo);
    lemma_times_monotone(lo, v, v);
    lemma_times_monotone(v, hi, v);
    lemma_times_monotone(v, hi, hi);
}

/// The cube grows with its argument.
pub proof fn lemma_cube_monotone(v: int, w: int)
    requires
        v <= w,
    ensures
        cubed(v) <= cubed(w),
{
    let sv = times(v, v);
    let sw = times(w, w);
    lemma_times_sign(v, v);
    lemma_times_sign(w, w);
    if v >= 0 {
        lemma_times_monotone(v, w, v);
        lemma_times_monotone(v, w, w);
        assert(sv <= sw);
        lemma_times_monotone(sv, sw, v);
        lemma_times_monotone(v, w, sw);
    } else if w <= 0 {
        lemma_times_monotone(v, w, v);
        lemma_times_monotone(v, w, w);
        assert(sw <= sv);
        lemma_times_monotone(sw, sv, v);
        lemma_times_monotone(v, w, sw);
    } else {
        lemma_times_sign(sv, v);
        lemma_times_sign(sw, w);
    }
}

/// The soft clip stays between minus one half and one half.
pub proof fn lemma_squeeze_bounds(v: int)
    ensures
        -HALF <= squeezed(v) <= HALF,
{
    let c = bounded(v, -UNIT, UNIT as int);
    let sq = times(c, c);
    lemma_quotient_sign(c, 2);
    lemma_times_sign(c, c);
    if c >= 0 {
        // 0 <= c^3 <= c, so 0 <= c^3 / 24 <= c / 2
        lemma_times_monotone(c, UNIT as int, c);
        crate::fixed::lemma_times_unit(c);
        assert(0 <= sq <= c);
        lemma_times_sign(sq, c);
        lemma_times_monotone(sq, UNIT as int, c);
        assert(0 <= cubed(c) <= c);
        lemma_quotient_sign(cubed(c), 24);
        lemma_quotient_monotone(cubed(c), c, 24);
        assert(quotient(c, 24) <= quotient(c, 2)) by {
            assert(c / 24 <= c / 2) by (nonlinear_arith)
                requires
                    c >= 0,
            ;
        }
        lemma_quotient_monotone(c, UNIT as int, 2);
    } else {
        // c <= c^3 <= 0, so c / 2 <= c^3 / 24 <= 0
        lemma_times_monotone(-UNIT, c, c);
        lemma_times_monotone(c, 0, -UNIT);
        crate::fixed::lemma_times_unit(c);
        lemma_quotient_sign(c * (-UNIT), UNIT as int);
        assert(c * (-UNIT) == -(c * UNIT)) by (nonlinear_arith);
        assert(0 <= sq <= -c);
        lemma_times_sign(sq, c);
        lemma_times_monotone(sq, UNIT as int, c);
        assert(c <= cubed(c) <= 0);
        lemma_quotient_sign(cubed(c), 24);
        lemma_quotient_monotone(c, cubed(c), 24);
        assert(quotient(c, 2) <= quotient(c, 24)) by {
            assert((-c) / 24 <= (-c) / 2) by (nonlinear_arith)
                requires
                    -c >= 0,
            ;
        }
        lemma_quotient_monotone(-UNIT, c, 2);
    }
}

/// The value of a unary operation lies within the bounds computed from the
/// bounds of its input.
pub proof fn lemma_unary_bounds(action: UnaryType, v: int, lo: int, hi: int)
    requires
        lo <= v <= hi,
    ensures
        unary_lower(action, lo, hi) <= unary_value(action, v) <= unary_upper(action, lo, hi),
{
    match action {
        UnaryType::Abs => {},
        UnaryType::Square => {
            lemma_square_bounds(v, lo, hi);
        },
        UnaryType::Cube => {
            lemma_cube_monotone(lo, v);
            lemma_cube_monotone(v, hi);
        },
        UnaryType::HalfNeg => {
            lemma_times_monotone(lo, v, HALF as int);
            lemma_times_monotone(v, hi, HALF as int);
            lemma_times_sign(lo, HALF as int);
            lemma_times_sign(v, HALF as int);
        },
        UnaryType::QuartNeg => {
            lemma_times_monotone(lo, v, QUARTER as int);
            lemma_times_monotone(v, hi, QUARTER as int);
            lemma_times_sign(lo, QUARTER as int);
            lemma_times_sign(v, QUARTER as int);
        },
        UnaryType::Squeeze => {
            lemma_squeeze_bounds(v);
        },
    }
}

/// The value of a binary operation lies within the bounds computed from the
/// bounds of its arguments.
pub proof fn lemma_binary_bounds(
    action: BinaryType,
    a: int,
    alo: int,
    ahi: int,
    b: int,
    blo: int,
    bhi: int,
)
    requires
        alo <= a <= ahi,
        blo <= b <= bhi,
    ensures
        binary_lower(action, alo, ahi, blo, bhi) <= binary_value(action, a, b) <= binary_upper(
            action,
            alo,
            ahi,
            blo,
            bhi,
        ),
{
    match action {
        BinaryType::Mul => {
            lemma_times_corners(a, alo, ahi, b, blo, bhi);
        },
        _ => {},
    }
}

/// A linear function of a bounded input is bounded by its values at the two
/// ends: in order for a slope that is not negative, reversed otherwise.
pub proof fn lemma_linear_bounds(slope: int, offset: int, v: int, lo: int, hi: int)
    requires
        lo <= v <= hi,
    ensures
        slope >= 0 ==> linear_value(slope, offset, lo) <= linear_value(slope, offset, v)
            <= linear_value(slope, offset, hi),
        slope < 0 ==> linear_value(slope, offset, hi) <= linear_value(slope, offset, v)
            <= linear_value(slope, offset, lo),
{
    lemma_times_monotone(lo, v, slope);
    lemma_times_monotone(v, hi, slope);
}

/// A clamped line stays between its two end values.
pub proof fn lemma_clamped_line_bounds(y: int, from: int, to: int, from_val: int, to_val: int)
    ensures
        crate::fixed::lesser(from_val, to_val) <= clamped_line(y, from, to, from_val, to_val)
            <= crate::fixed::greater(from_val, to_val),
{
    let step = if from <= to {
        y - from
    } else {
        from - y
    };
    let span = if from <= to {
        to - from
    } else {
        from - to
    };
    if 0 < step < span {
        lemma_proportion(to_val - from_val, step, span);
    }
}

/// A rarity map yields a positive scale, at most its greatest.
pub proof fn lemma_rarity_bounds(rarity: RarityMapper, v: int)
    ensures
        0 < rarity_value(rarity, v) <= rarity_max(rarity),
{
}

/// A noise sample within `-bound..=bound`, multiplied by a scale between zero
/// and `most`, lies within `most` times those limits.
pub proof fn lemma_scaled_noise_bounds(scale: int, most: int, sample: int, bound: int)
    requires
        0 <= scale <= most,
        -bound <= sample <= bound,
    ensures
        times(most, -bound) <= times(scale, sample) <= times(most, bound),
{
    lemma_times_monotone(-bound, sample, scale);
    lemma_times_monotone(sample, bound, scale);
    lemma_times_monotone(scale, most, bound);
    lemma_times_monotone(scale, most, -bound);
}

/// **Bounds.** Whatever the position, the value of a density function lies
/// between its static lower bound and its static upper bound, and all three
/// are representable scalars.
pub proof fn lemma_value_within_bounds<P: Primitives>(f: &DensityFunction, env: &P, pos: BlockPos)
    ensures
        i64::MIN <= f.lower(env) <= f.value(env, pos) <= f.upper(env) <= i64::MAX,
    decreases f,
{
    match f {
        DensityFunction::Clamp(c) => {
            lemma_value_within_bounds(&*c.input, env, pos);
        },
        DensityFunction::Unary(u) => {
            lemma_value_within_bounds(&*u.input, env, pos);
            lemma_unary_bounds(
                u.action,
                u.input.value(env, pos),
                u.input.lower(env),
                u.input.upper(env),
            );
            lemma_unary_fits(u.action, u.input.lower(env), u.input.upper(env));
        },
        DensityFunction::Noise(n) => {
            env.lemma_noise_bounded(
                &*n.noise,
                crate::fixed::scaled(pos.x, n.xz_scale as int),
                crate::fixed::scaled(pos.y, n.y_scale as int),
                crate::fixed::scaled(pos.z, n.xz_scale as int),
            );
        },
        DensityFunction::ShiftA(s) => {
            let x = crate::fixed::scaled(pos.x, QUARTER as int);
            let z = crate::fixed::scaled(pos.z, QUARTER as int);
            env.lemma_noise_bounded(&*s.offset, x, 0, z);
            let bound = env.noise_bound(&*s.offset);
            lemma_times_monotone(-bound, env.noise_value(&*s.offset, x, 0, z), 4 * UNIT);
            lemma_times_monotone(env.noise_value(&*s.offset, x, 0, z), bound, 4 * UNIT);
        },
        DensityFunction::ShiftB(s) => {
            let x = crate::fixed::scaled(pos.x, QUARTER as int);
            let z = crate::fixed::scaled(pos.z, QUARTER as int);
            env.lemma_noise_bounded(&*s.offset, x, z, 0);
            let bound = env.noise_bound(&*s.offset);
            lemma_times_monotone(-bound, env.noise_value(&*s.offset, x, z, 0), 4 * UNIT);
            lemma_times_monotone(env.noise_value(&*s.offset, x, z, 0), bound, 4 * UNIT);
        },
        DensityFunction::ShiftedNoise(s) => {
            env.lemma_noise_bounded(
                &*s.noise,
                crate::fixed::plus(
                    crate::fixed::scaled(pos.x, s.xz_scale as int),
                    s.shift_x.value(env, pos),
                ),
                crate::fixed::plus(
                    crate::fixed::scaled(pos.y, s.y_scale as int),
                    s.shift_y.value(env, pos),
                ),
                crate::fixed::plus(
                    crate::fixed::scaled(pos.z, s.xz_scale as int),
                    s.shift_z.value(env, pos),
                ),
            );
        },
        DensityFunction::Spline(s) => {
            env.lemma_spline_bounded(
                s.spline.shape,
                s.spline.amplified,
                s.spline.continents.value(env, pos),
                s.spline.erosion.value(env, pos),
                s.spline.ridges.value(env, pos),
                match s.spline.ridges_folded {
                    Some(folded) => Some(folded.value(env, pos)),
                    None => None,
                },
            );
        },
        DensityFunction::Constant(_) => {},
        DensityFunction::Linear(l) => {
            lemma_value_within_bounds(&*l.input, env, pos);
            lemma_linear_bounds(
                l.slope as int,
                l.offset as int,
                l.input.value(env, pos),
                l.input.lower(env),
                l.input.upper(env),
            );
        },
        DensityFunction::Binary(b) => {
            lemma_value_within_bounds(&*b.arg1, env, pos);
            lemma_value_within_bounds(&*b.arg2, env, pos);
            lemma_binary_bounds(
                b.action,
                b.arg1.value(env, pos),
                b.arg1.lower(env),
                b.arg1.upper(env),
                b.arg2.value(env, pos),
                b.arg2.lower(env),
                b.arg2.upper(env),
            );
        },
        DensityFunction::BlendOffset(_) => {},
        DensityFunction::BlendAlpha(_) => {},
        DensityFunction::BlendDensity(b) => {
            lemma_value_within_bounds(&*b.function, env, pos);
        },
        DensityFunction::ClampedY(c) => {
            lemma_clamped_line_bounds(
                pos.y,
                c.from as int,
                c.to as int,
                c.from_val as int,
                c.to_val as int,
            );
        },
        DensityFunction::InterpolatedNoise(s) => {
            env.lemma_interpolated_bounded(*s, pos.x, pos.y, pos.z);
        },
        DensityFunction::EndIsland(e) => {
            env.lemma_end_island_bounded(e.seed, pos.x, pos.y, pos.z);
        },
        DensityFunction::Wierd(w) => {
            let scale = rarity_value(w.rarity, w.input.value(env, pos));
            lemma_rarity_bounds(w.rarity, w.input.value(env, pos));
            let x = crate::semantics::rescaled(pos.x, scale);
            let y = crate::semantics::rescaled(pos.y, scale);
            let z = crate::semantics::rescaled(pos.z, scale);
            env.lemma_noise_bounded(&*w.noise, x, y, z);
            lemma_scaled_noise_bounds(
                scale,
                rarity_max(w.rarity),
                env.noise_value(&*w.noise, x, y, z),
                env.noise_bound(&*w.noise),
            );
        },
        DensityFunction::Range(r) => {
            lemma_value_within_bounds(&*r.in_range, env, pos);
            lemma_value_within_bounds(&*r.out_range, env, pos);
        },
        DensityFunction::Wrapper(w) => {
            lemma_value_within_bounds(&*w.input, env, pos);
        },
        DensityFunction::ChunkCacheFlatCache(w) => {
            lemma_value_within_bounds(&*w.input, env, pos);
        },
        DensityFunction::ChunkCacheInterpolator(w) => {
            lemma_value_within_bounds(&*w.input, env, pos);
            if w.grid.holds(pos) {
                let low = w.grid.cell(pos);
                let high = w.grid.far_corner(pos);
                lemma_value_within_bounds(&*w.input, env, BlockPos { x: low.x, y: low.y, z: low.z });
                lemma_value_within_bounds(&*w.input, env, BlockPos { x: high.x, y: low.y, z: low.z });
                lemma_value_within_bounds(&*w.input, env, BlockPos { x: low.x, y: high.y, z: low.z });
                lemma_value_within_bounds(&*w.input, env, BlockPos { x: high.x, y: high.y, z: low.z });
                lemma_value_within_bounds(&*w.input, env, BlockPos { x: low.x, y: low.y, z: high.z });
                lemma_value_within_bounds(&*w.input, env, BlockPos { x: high.x, y: low.y, z: high.z });
                lemma_value_within_bounds(&*w.input, env, BlockPos { x: low.x, y: high.y, z: high.z });
                lemma_value_within_bounds(&*w.input, env, BlockPos { x: high.x, y: high.y, z: high.z });
                crate::interpolation::lemma_cell_start(
                    pos.x,
                    w.grid.start_x as int,
                    w.grid.horizontal as int,
                );
                crate::interpolation::lemma_cell_start(pos.y, 0, w.grid.vertical as int);
                crate::interpolation::lemma_cell_start(
                    pos.z,
                    w.grid.start_z as int,
                    w.grid.horizontal as int,
                );
                crate::interpolation::lemma_trilinear_between(
                    crate::semantics::cell_fraction(pos.x, low.x, w.grid.horizontal as int),
                    crate::semantics::cell_fraction(pos.y, low.y, w.grid.vertical as int),
                    crate::semantics::cell_fraction(pos.z, low.z, w.grid.horizontal as int),
                    crate::semantics::Corners {
                        c000: w.input.value(env, BlockPos { x: low.x, y: low.y, z: low.z }),
                        c100: w.input.value(env, BlockPos { x: high.x, y: low.y, z: low.z }),
                        c010: w.input.value(env, BlockPos { x: low.x, y: high.y, z: low.z }),
                        c110: w.input.value(env, BlockPos { x: high.x, y: high.y, z: low.z }),
                        c001: w.input.value(env, BlockPos { x: low.x, y: low.y, z: high.z }),
                        c101: w.input.value(env, BlockPos { x: high.x, y: low.y, z: high.z }),
                        c011: w.input.value(env, BlockPos { x: low.x, y: high.y, z: high.z }),
                        c111: w.input.value(env, BlockPos { x: high.x, y: high.y, z: high.z }),
                    },
                    w.input.lower(env),
                    w.input.upper(env),
                );
            }
        },
        DensityFunction::ChunkCacheCellCache(w) => {
            lemma_value_within_bounds(&*w.input, env, pos);
        },
        DensityFunction::ChunkCache2DCache(w) => {
            lemma_value_within_bounds(&*w.input, env, pos);
        },
        DensityFunction::ChunkCacheOnceCache(w) => {
            lemma_value_within_bounds(&*w.input, env, pos);
        },
        DensityFunction::ChunkCacheBlendAlpha(_) => {},
        DensityFunction::ChunkCacheBlendOffset(_) => {},
        DensityFunction::Beardifyer(_) => {},
    }
}

/// The bounds of a unary operation are representable scalars.
pub proof fn lemma_unary_fits(action: UnaryType, lo: int, hi: int)
    requires
        i64::MIN <= lo <= i64::MAX,
        i64::MIN <= hi <= i64::MAX,
    ensures
        i64::MIN <= unary_lower(action, lo, hi) <= i64::MAX,
        i64::MIN <= unary_upper(action, lo, hi) <= i64::MAX,
{
}

} // verus!
