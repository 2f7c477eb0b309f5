//! Filling a slab of densities through an applier.
use vstd::prelude::*;

use crate::applier::{Applier, ApplierImpl};
use crate::function::{
    BeardifyerFunction, ConstantFunction, DensityFunction, RangeFunction, WrapperFunction,
    YClampedFunction,
};
use crate::noise::Primitives;

verus! {

/// Writes `value` into every slot.
pub fn fill_constant(densities: &mut Vec<i64>, value: i64)
    ensures
        final(densities).len() == old(densities).len(),
        forall|i: int| 0 <= i < final(densities).len() ==> #[trigger] final(densities)[i] == value,
{
    let n: usize = densities.len();
    let mut i: usize = 0;
    while i < n
        invariant
            i <= n,
            n == densities.len(),
            forall|j: int| 0 <= j < i ==> #[trigger] densities[j] == value,
        decreases n - i,
    {
        densities.set(i, value);
        i = i + 1;
    }
}

impl ConstantFunction {
    pub fn fill(&self, densities: &mut Vec<i64>, _applier: &Applier)
        ensures
            final(densities).len() == old(densities).len(),
            forall|i: int|
                0 <= i < final(densities).len() ==> #[trigger] final(densities)[i] == self.value,
    {
        fill_constant(densities, self.value)
    }
}

impl BeardifyerFunction {
    pub fn fill(&self, densities: &mut Vec<i64>, _applier: &Applier)
        ensures
            final(densities).len() == old(densities).len(),
            forall|i: int| 0 <= i < final(densities).len() ==> #[trigger] final(densities)[i] == 0,
    {
        fill_constant(densities, 0)
    }
}

impl YClampedFunction {
    pub fn fill<P: Primitives>(&self, densities: &mut Vec<i64>, applier: &Applier, env: &P)
        requires
            old(densities).len() <= applier.len(),
        ensures
            final(densities).len() == old(densities).len(),
            forall|i: int|
                0 <= i < final(densities).len() ==> #[trigger] final(densities)[i]
                    == DensityFunction::ClampedY(*self).value(env, applier.position(i)),
    {
        applier.fill(densities, &DensityFunction::ClampedY(*self), env)
    }
}

impl WrapperFunction {
    pub fn fill<P: Primitives>(&self, densities: &mut Vec<i64>, applier: &Applier, env: &P)
        requires
            old(densities).len() <= applier.len(),
        ensures
            final(densities).len() == old(densities).len(),
            forall|i: int|
                0 <= i < final(densities).len() ==> #[trigger] final(densities)[i]
                    == self.input.value(env, applier.position(i)),
        decreases self,
    {
        self.input.fill(densities, applier, env)
    }
}

impl RangeFunction {
    /// Fills the slab with the input, then puts in each slot the function
    /// that the input's density there selects.
    pub fn fill<P: Primitives>(&self, densities: &mut Vec<i64>, applier: &Applier, env: &P)
        requires
            old(densities).len() <= applier.len(),
        ensures
            final(densities).len() == old(densities).len(),
            forall|i: int|
                0 <= i < final(densities).len() ==> #[trigger] final(densities)[i]
                    == DensityFunction::Range(*self).value(env, applier.position(i)),
        decreases self,
    {
        self.input.fill(densities, applier, env);
        let n: usize = densities.len();
        let mut i: usize = 0;
        while i < n
            invariant
                i <= n,
                n == densities.len(),
                n <= applier.len(),
                forall|j: int|
                    0 <= j < i ==> #[trigger] densities[j] == DensityFunction::Range(*self).value(
                        env,
                        applier.position(j),
                    ),
                forall|j: int|
                    i <= j < n ==> #[trigger] densities[j] == self.input.value(
                        env,
                        applier.position(j),
                    ),
            decreases n - i,
        {
            let val: i64 = densities[i];
            let pos = applier.at(i);
            let density: i64 = if val >= self.min && val < self.max {
                self.in_range.sample(&pos, env)
            } else {
                self.out_range.sample(&pos, env)
            };
            densities.set(i, density);
            i = i + 1;
        }
    }
}

impl DensityFunction {
    /// Writes into each slot of `densities` the density at the position that
    /// `applier` gives for the slot's index.
    pub fn fill<P: Primitives>(&self, densities: &mut Vec<i64>, applier: &Applier, env: &P)
        requires
            old(densities).len() <= applier.len(),
        ensures
            final(densities).len() == old(densities).len(),
            forall|i: int|
                0 <= i < final(densities).len() ==> #[trigger] final(densities)[i] == self.value(
                    env,
                    applier.position(i),
                ),
        decreases self,
    {
        match self {
            DensityFunction::Constant(f) => f.fill(densities, applier),
            DensityFunction::Beardifyer(f) => f.fill(densities, applier),
            DensityFunction::ClampedY(f) => f.fill(densities, applier, env),
            DensityFunction::Wrapper(f) => f.fill(densities, applier, env),
            DensityFunction::Range(f) => f.fill(densities, applier, env),
            _ => applier.fill(densities, self, env),
        }
    }
}

} // verus!
