//! What interpolation and range selection sample to at their ends.
use vstd::prelude::*;

use crate::bounds::lemma_value_within_bounds;
use crate::built_in::{lerp, lerp_static, wrapped};
use crate::fixed::{lemma_times_commutes, lemma_times_unit, negated, plus, UNIT};
use crate::function::{BinaryType, DensityFunction, RangeFunction, WrapperType};
use crate::math::{
    add_constant, combined, constant, lemma_add_constant_value, lemma_mul_constant_value,
    mul_constant,
};
use crate::noise::Primitives;
use crate::position::BlockPos;

verus! {

/// The offset that a constant is folded into when it is added to `f`: that of
/// a linear node, zero for any other function.
pub open spec fn folded_offset(f: DensityFunction) -> int {
    match f {
        DensityFunction::Linear(l) => l.offset as int,
        _ => 0,
    }
}

/// **Lerp degeneracies, at zero.** Interpolating by the constant zero samples
/// to the start.
pub proof fn lemma_lerp_at_zero<P: Primitives>(
    start: &DensityFunction,
    end: &DensityFunction,
    env: &P,
    pos: BlockPos,
)
    ensures
        lerp(constant(0), *start, *end).value(env, pos) == start.value(env, pos),
{
    let delta = constant(0);
    lemma_value_within_bounds(start, env, pos);
    lemma_value_within_bounds(end, env, pos);
    lemma_times_unit(start.value(env, pos));
    lemma_times_unit(end.value(env, pos));
    match *start {
        DensityFunction::Constant(c) => {
            let shifted = add_constant(*end, negated(c.value as int));
            let product = combined(BinaryType::Mul, delta, shifted);
            lemma_value_within_bounds(&shifted, env, pos);
            lemma_times_unit(shifted.value(env, pos));
            match shifted {
                DensityFunction::Constant(s) => {
                    lemma_mul_constant_value(&delta, s.value, env, pos);
                    lemma_times_unit(s.value as int);
                },
                _ => {
                    lemma_mul_constant_value(&shifted, 0, env, pos);
                },
            }
            assert(product.value(env, pos) == 0);
            lemma_add_constant_value(&product, c.value, env, pos);
            lemma_linear_of_zero(&product, c.value, env, pos);
        },
        _ => {
            let cached = wrapped(delta, WrapperType::CacheOnce);
            assert(cached.value(env, pos) == delta.value(env, pos));
            let scaled = mul_constant(cached, -UNIT);
            lemma_mul_constant_value(&cached, (-UNIT) as i64, env, pos);
            lemma_times_unit(-UNIT);
            lemma_times_commutes(UNIT as int, -UNIT);
            let rest = add_constant(scaled, UNIT as int);
            lemma_add_constant_value(&scaled, UNIT, env, pos);
            assert(rest.value(env, pos) == UNIT);
            let first = combined(BinaryType::Mul, *start, rest);
            assert(first.value(env, pos) == start.value(env, pos));
            let second = combined(BinaryType::Mul, *end, cached);
            match *end {
                DensityFunction::Constant(e) => {
                    lemma_mul_constant_value(&cached, e.value, env, pos);
                    lemma_times_unit(e.value as int);
                },
                _ => {},
            }
            assert(second.value(env, pos) == 0);
            match second {
                DensityFunction::Constant(s) => {
                    lemma_add_constant_value(&first, s.value, env, pos);
                },
                _ => {},
            }
        },
    }
}

/// A constant folded into a function that samples to zero with an offset of
/// zero samples to the constant.
proof fn lemma_linear_of_zero<P: Primitives>(f: &DensityFunction, c: i64, env: &P, pos: BlockPos)
    requires
        f.value(env, pos) == 0,
        f matches DensityFunction::Linear(l) ==> l.offset == 0,
    ensures
        add_constant(*f, c as int).value(env, pos) == c,
{
    lemma_add_constant_value(f, c, env, pos);
    match *f {
        DensityFunction::Linear(l) => {
            lemma_value_within_bounds(&*l.input, env, pos);
        },
        _ => {},
    }
}

/// **Lerp degeneracies, at one.** Interpolating by the constant one samples
/// to the end. Where the start is a constant, the difference between the
/// offset that the end folds constants into and that constant must be a
/// representable scalar, and so must the constant's negation.
pub proof fn lemma_lerp_at_one<P: Primitives>(
    start: &DensityFunction,
    end: &DensityFunction,
    env: &P,
    pos: BlockPos,
)
    requires
        start matches DensityFunction::Constant(c) ==> c.value != 0 ==> {
            &&& c.value > i64::MIN
            &&& i64::MIN <= folded_offset(*end) - c.value <= i64::MAX
        },
    ensures
        lerp(constant(UNIT as int), *start, *end).value(env, pos) == end.value(env, pos),
{
    let delta = constant(UNIT as int);
    lemma_value_within_bounds(start, env, pos);
    lemma_value_within_bounds(end, env, pos);
    lemma_times_unit(start.value(env, pos));
    lemma_times_unit(end.value(env, pos));
    match *start {
        DensityFunction::Constant(c) => {
            let shifted = add_constant(*end, negated(c.value as int));
            let product = combined(BinaryType::Mul, delta, shifted);
            lemma_value_within_bounds(&shifted, env, pos);
            lemma_times_unit(shifted.value(env, pos));
            match shifted {
                DensityFunction::Constant(s) => {
                    lemma_mul_constant_value(&delta, s.value, env, pos);
                    lemma_times_unit(s.value as int);
                    lemma_times_commutes(UNIT as int, s.value as int);
                },
                _ => {
                    lemma_mul_constant_value(&shifted, UNIT, env, pos);
                },
            }
            assert(product.value(env, pos) == shifted.value(env, pos));
            lemma_add_constant_value(end, negated(c.value as int) as i64, env, pos);
            lemma_add_constant_value(&product, c.value, env, pos);
            if c.value != 0 {
                match *end {
                    DensityFunction::Linear(l) => {
                        lemma_value_within_bounds(&*l.input, env, pos);
                    },
                    _ => {},
                }
                match product {
                    DensityFunction::Linear(l) => {
                        lemma_value_within_bounds(&*l.input, env, pos);
                        lemma_times_unit(l.input.value(env, pos));
                    },
                    _ => {},
                }
            }
        },
        _ => {
            let cached = wrapped(delta, WrapperType::CacheOnce);
            assert(cached.value(env, pos) == delta.value(env, pos));
            let scaled = mul_constant(cached, -UNIT);
            lemma_mul_constant_value(&cached, (-UNIT) as i64, env, pos);
            lemma_times_unit(-UNIT);
            lemma_times_commutes(UNIT as int, -UNIT);
            let rest = add_constant(scaled, UNIT as int);
            lemma_add_constant_value(&scaled, UNIT, env, pos);
            assert(rest.value(env, pos) == 0);
            let first = combined(BinaryType::Mul, *start, rest);
            assert(first.value(env, pos) == 0);
            let second = combined(BinaryType::Mul, *end, cached);
            match *end {
                DensityFunction::Constant(e) => {
                    lemma_mul_constant_value(&cached, e.value, env, pos);
                    lemma_times_unit(e.value as int);
                    lemma_times_commutes(UNIT as int, e.value as int);
                },
                _ => {},
            }
            assert(second.value(env, pos) == end.value(env, pos));
            match second {
                DensityFunction::Constant(s) => {
                    lemma_add_constant_value(&first, s.value, env, pos);
                },
                _ => {},
            }
        },
    }
}

/// **Range selector.** A range node whose input is the constant `v` samples
/// to its in-range function where `min <= v < max`, and to its out-of-range
/// function elsewhere.
pub proof fn lemma_range_selects<P: Primitives>(
    v: i64,
    min: i64,
    max: i64,
    in_range: &DensityFunction,
    out_range: &DensityFunction,
    env: &P,
    pos: BlockPos,
)
    ensures
        DensityFunction::Range(
            RangeFunction {
                input: std::sync::Arc::new(constant(v as int)),
                min,
                max,
                in_range: std::sync::Arc::new(*in_range),
                out_range: std::sync::Arc::new(*out_range),
            },
        ).value(env, pos) == if min <= v < max {
            in_range.value(env, pos)
        } else {
            out_range.value(env, pos)
        },
{
    assert(constant(v as int).value(env, pos) == v);
}

} // verus!
