//! Building arithmetic nodes, with constants folded as they are built.
//!
//! Adding or multiplying a constant never yields a binary node. Zero added
//! and one multiplied leave the function as it is, zero multiplied leaves the
//! constant zero, and a constant met by a linear node is folded into its
//! slope and offset. Any other function is wrapped in a new linear node.
use std::sync::Arc;
use vstd::prelude::*;

use crate::bounds::lemma_value_within_bounds;
use crate::fixed::{lemma_times_unit, plus, sat_add, sat_mul, times, UNIT};
use crate::function::{
    BinaryFunction, BinaryType, ClampFunction, ConstantFunction, DensityFunction, LinearFunction,
    UnaryFunction, UnaryType,
};
use crate::handle::share;
use crate::noise::Primitives;
use crate::position::BlockPos;
use crate::semantics::{binary_value, linear_value};

verus! {

/// The function `f + c`, folded.
pub open spec fn add_constant(f: DensityFunction, c: int) -> DensityFunction {
    if c == 0 {
        f
    } else {
        match f {
            DensityFunction::Linear(l) => DensityFunction::Linear(
                LinearFunction {
                    slope: l.slope,
                    offset: plus(l.offset as int, c) as i64,
                    input: l.input,
                },
            ),
            _ => DensityFunction::Linear(
                LinearFunction { slope: UNIT, offset: c as i64, input: Arc::new(f) },
            ),
        }
    }
}

/// The function `f * c`, folded.
pub open spec fn mul_constant(f: DensityFunction, c: int) -> DensityFunction {
    if c == UNIT {
        f
    } else if c == 0 {
        DensityFunction::Constant(ConstantFunction { value: 0 })
    } else {
        match f {
            DensityFunction::Linear(l) => DensityFunction::Linear(
                LinearFunction {
                    slope: times(l.slope as int, c) as i64,
                    offset: times(l.offset as int, c) as i64,
                    input: l.input,
                },
            ),
            _ => DensityFunction::Linear(
                LinearFunction { slope: c as i64, offset: 0, input: Arc::new(f) },
            ),
        }
    }
}

/// The function that applies `action` to `a` and `b`, folded. Where the
/// second argument is a constant it is folded into the first; else where the
/// first is a constant it is folded into the second.
pub open spec fn combined(action: BinaryType, a: DensityFunction, b: DensityFunction) -> DensityFunction {
    match (action, a, b) {
        (BinaryType::Add, _, DensityFunction::Constant(c)) => add_constant(a, c.value as int),
        (BinaryType::Add, DensityFunction::Constant(c), _) => add_constant(b, c.value as int),
        (BinaryType::Mul, _, DensityFunction::Constant(c)) => mul_constant(a, c.value as int),
        (BinaryType::Mul, DensityFunction::Constant(c), _) => mul_constant(b, c.value as int),
        _ => DensityFunction::Binary(
            BinaryFunction { action, arg1: Arc::new(a), arg2: Arc::new(b) },
        ),
    }
}

/// The function `f` under a unary operation.
pub open spec fn unary(action: UnaryType, f: DensityFunction) -> DensityFunction {
    DensityFunction::Unary(UnaryFunction { action, input: Arc::new(f) })
}

/// The function `f` held between `min` and `max`.
pub open spec fn clamped(f: DensityFunction, min: int, max: int) -> DensityFunction {
    DensityFunction::Clamp(ClampFunction { input: Arc::new(f), min: min as i64, max: max as i64 })
}

/// A constant.
pub open spec fn constant(value: int) -> DensityFunction {
    DensityFunction::Constant(ConstantFunction { value: value as i64 })
}

impl LinearFunction {
    /// The function `function + constant`, folded.
    pub fn add_constant(function: Arc<DensityFunction>, constant: i64) -> (sum: DensityFunction)
        ensures
            sum == add_constant(*function, constant as int),
    {
        if constant == 0 {
            return (*function).clone();
        }
        match &*function {
            DensityFunction::Linear(l) => DensityFunction::Linear(
                LinearFunction {
                    slope: l.slope,
                    offset: sat_add(l.offset, constant),
                    input: share(&l.input),
                },
            ),
            _ => DensityFunction::Linear(
                LinearFunction { slope: UNIT, offset: constant, input: function },
            ),
        }
    }

    /// The function `function * constant`, folded.
    pub fn mul_constant(function: Arc<DensityFunction>, constant: i64) -> (product: DensityFunction)
        ensures
            product == mul_constant(*function, constant as int),
    {
        if constant == UNIT {
            return (*function).clone();
        }
        if constant == 0 {
            return DensityFunction::Constant(ConstantFunction::new(0));
        }
        match &*function {
            DensityFunction::Linear(l) => DensityFunction::Linear(
                LinearFunction {
                    slope: sat_mul(l.slope, constant),
                    offset: sat_mul(l.offset, constant),
                    input: share(&l.input),
                },
            ),
            _ => DensityFunction::Linear(
                LinearFunction { slope: constant, offset: 0, input: function },
            ),
        }
    }
}

impl BinaryFunction {
    /// The function that applies `action` to the two arguments, folded.
    pub fn create(action: BinaryType, arg1: Arc<DensityFunction>, arg2: Arc<DensityFunction>) -> (function:
        DensityFunction)
        ensures
            function == combined(action, *arg1, *arg2),
    {
        match action {
            BinaryType::Add => {
                if let DensityFunction::Constant(c) = &*arg2 {
                    return LinearFunction::add_constant(arg1, c.value);
                }
                if let DensityFunction::Constant(c) = &*arg1 {
                    return LinearFunction::add_constant(arg2, c.value);
                }
            },
            BinaryType::Mul => {
                if let DensityFunction::Constant(c) = &*arg2 {
                    return LinearFunction::mul_constant(arg1, c.value);
                }
                if let DensityFunction::Constant(c) = &*arg1 {
                    return LinearFunction::mul_constant(arg2, c.value);
                }
            },
            _ => {},
        }
        DensityFunction::Binary(BinaryFunction { action, arg1, arg2 })
    }
}

impl UnaryFunction {
    pub fn create(action: UnaryType, input: Arc<DensityFunction>) -> (function: Self)
        ensures
            function == (UnaryFunction { action, input }),
    {
        Self { action, input }
    }
}

impl DensityFunction {
    /// This function held between `min` and `max`.
    pub fn clamp(&self, min: i64, max: i64) -> (function: Self)
        ensures
            function == clamped(*self, min as int, max as int),
    {
        Self::Clamp(ClampFunction { input: Arc::new(self.clone()), min, max })
    }

    pub fn abs(&self) -> (function: Self)
        ensures
            function == unary(UnaryType::Abs, *self),
    {
        Self::Unary(UnaryFunction::create(UnaryType::Abs, Arc::new(self.clone())))
    }

    pub fn square(&self) -> (function: Self)
        ensures
            function == unary(UnaryType::Square, *self),
    {
        Self::Unary(UnaryFunction::create(UnaryType::Square, Arc::new(self.clone())))
    }

    pub fn cube(&self) -> (function: Self)
        ensures
            function == unary(UnaryType::Cube, *self),
    {
        Self::Unary(UnaryFunction::create(UnaryType::Cube, Arc::new(self.clone())))
    }

    pub fn half_negative(&self) -> (function: Self)
        ensures
            function == unary(UnaryType::HalfNeg, *self),
    {
        Self::Unary(UnaryFunction::create(UnaryType::HalfNeg, Arc::new(self.clone())))
    }

    pub fn quarter_negative(&self) -> (function: Self)
        ensures
            function == unary(UnaryType::QuartNeg, *self),
    {
        Self::Unary(UnaryFunction::create(UnaryType::QuartNeg, Arc::new(self.clone())))
    }

    pub fn squeeze(&self) -> (function: Self)
        ensures
            function == unary(UnaryType::Squeeze, *self),
    {
        Self::Unary(UnaryFunction::create(UnaryType::Squeeze, Arc::new(self.clone())))
    }

    pub fn add_const(&self, val: i64) -> (function: Self)
        ensures
            function == add_constant(*self, val as int),
    {
        self.add(Arc::new(Self::Constant(ConstantFunction::new(val))))
    }

    pub fn add(&self, other: Arc<DensityFunction>) -> (function: Self)
        ensures
            function == combined(BinaryType::Add, *self, *other),
    {
        BinaryFunction::create(BinaryType::Add, Arc::new(self.clone()), other)
    }

    pub fn mul_const(&self, val: i64) -> (function: Self)
        ensures
            function == mul_constant(*self, val as int),
    {
        self.mul(Arc::new(Self::Constant(ConstantFunction::new(val))))
    }

    pub fn mul(&self, other: Arc<DensityFunction>) -> (function: Self)
        ensures
            function == combined(BinaryType::Mul, *self, *other),
    {
        BinaryFunction::create(BinaryType::Mul, Arc::new(self.clone()), other)
    }

    pub fn binary_min(&self, other: Arc<DensityFunction>) -> (function: Self)
        ensures
            function == combined(BinaryType::Min, *self, *other),
    {
        BinaryFunction::create(BinaryType::Min, Arc::new(self.clone()), other)
    }

    pub fn binary_max(&self, other: Arc<DensityFunction>) -> (function: Self)
        ensures
            function == combined(BinaryType::Max, *self, *other),
    {
        BinaryFunction::create(BinaryType::Max, Arc::new(self.clone()), other)
    }
}

/// What a folded sum samples to. Zero added changes nothing; a constant
/// folded into a linear node moves its offset; any other function samples to
/// the saturating sum.
pub proof fn lemma_add_constant_value<P: Primitives>(
    f: &DensityFunction,
    c: i64,
    env: &P,
    pos: BlockPos,
)
    ensures
        add_constant(*f, c as int).value(env, pos) == (match *f {
            DensityFunction::Linear(l) if c != 0 => linear_value(
                l.slope as int,
                plus(l.offset as int, c as int),
                l.input.value(env, pos),
            ),
            _ => plus(f.value(env, pos), c as int),
        }),
{
    lemma_value_within_bounds(f, env, pos);
    lemma_times_unit(f.value(env, pos));
}

/// What a folded product samples to. One multiplied changes nothing, zero
/// multiplied leaves zero; a constant folded into a linear node scales its
/// slope and its offset; any other function samples to the saturating
/// product.
pub proof fn lemma_mul_constant_value<P: Primitives>(
    f: &DensityFunction,
    c: i64,
    env: &P,
    pos: BlockPos,
)
    ensures
        mul_constant(*f, c as int).value(env, pos) == (match *f {
            DensityFunction::Linear(l) if c != 0 && c != UNIT => linear_value(
                times(l.slope as int, c as int),
                times(l.offset as int, c as int),
                l.input.value(env, pos),
            ),
            _ => times(f.value(env, pos), c as int),
        }),
{
    lemma_value_within_bounds(f, env, pos);
    lemma_times_unit(f.value(env, pos));
    crate::fixed::lemma_times_commutes(f.value(env, pos), c as int);
}

/// A folded sum or product of two functions of which neither is linear, and
/// every folded minimum or maximum, samples to the operation applied to the
/// two samples.
pub proof fn lemma_combined_value<P: Primitives>(
    action: BinaryType,
    a: &DensityFunction,
    b: &DensityFunction,
    env: &P,
    pos: BlockPos,
)
    requires
        action == BinaryType::Add || action == BinaryType::Mul ==> !(a is Linear) && !(b is Linear),
    ensures
        combined(action, *a, *b).value(env, pos) == binary_value(
            action,
            a.value(env, pos),
            b.value(env, pos),
        ),
{
    match action {
        BinaryType::Add => {
            lemma_add_constant_value(a, 0, env, pos);
            if let DensityFunction::Constant(c) = *b {
                lemma_add_constant_value(a, c.value, env, pos);
            } else if let DensityFunction::Constant(c) = *a {
                lemma_add_constant_value(b, c.value, env, pos);
            }
        },
        BinaryType::Mul => {
            if let DensityFunction::Constant(c) = *b {
                lemma_mul_constant_value(a, c.value, env, pos);
            } else if let DensityFunction::Constant(c) = *a {
                lemma_mul_constant_value(b, c.value, env, pos);
                crate::fixed::lemma_times_commutes(a.value(env, pos), b.value(env, pos));
            }
        },
        _ => {},
    }
}

} // verus!
