//! A graph bound to one chunk.
//!
//! A binding owns the primitives, the caches of the chunk and the roots that
//! were bound to it. Roots are sampled through the caches; whatever a cache
//! keeps, a sample is the value of the bound root.
use std::sync::Arc;
use vstd::prelude::*;

use crate::applier::{Applier, ApplierImpl};
use crate::binding::{lemma_bound_in_extension, ChunkSamplerDensityFunctionConverter};
use crate::caches::ChunkCaches;
use crate::function::{CellGrid, DensityFunction};
use crate::handle::share;
use crate::noise::Primitives;
use crate::position::{NoisePos, NoisePosImpl};

verus! {

/// The roots bound to one chunk, with the caches they are sampled through.
pub struct ChunkBinding<P: Primitives> {
    env: P,
    caches: ChunkCaches,
    converter: ChunkSamplerDensityFunctionConverter,
    roots: Vec<Arc<DensityFunction>>,
}

impl<P: Primitives> ChunkBinding<P> {
    /// What holds of every binding that `new` made, whatever was bound and
    /// sampled since: the caches keep only values of the functions they
    /// cache, and every root is bound in them.
    pub closed spec fn well_formed(&self) -> bool {
        &&& self.caches.coherent(&self.env)
        &&& self.converter.valid_for(self.caches.bindings(), self.caches.cell_grid())
        &&& forall|i: int|
            0 <= i < self.roots@.len() ==> (#[trigger] self.roots@[i]).bound_in(
                self.caches.bindings(),
            )
    }

    /// The primitives that the roots are sampled with.
    pub closed spec fn primitives(&self) -> P {
        self.env
    }

    /// The bound roots, in the order in which they were bound.
    pub closed spec fn bound_roots(&self) -> Seq<DensityFunction> {
        self.roots@.map_values(|root: Arc<DensityFunction>| *root)
    }

    /// The grid of cells that the chunk is cut into.
    pub closed spec fn cell_grid(&self) -> CellGrid {
        self.caches.cell_grid()
    }

    /// A binding to the chunk whose columns start at `(start_x, start_z)`,
    /// which is `width` blocks wide and cut into cells of the given size,
    /// with no root yet; `None` where the caches of such a chunk cannot be
    /// had.
    pub fn new(
        env: P,
        start_x: i32,
        start_z: i32,
        width: i32,
        horizontal_cell_block_count: i32,
        vertical_cell_block_count: i32,
    ) -> (binding: Option<Self>)
        ensures
            binding.is_some() == ChunkCaches::fits(
                start_x,
                start_z,
                width,
                horizontal_cell_block_count,
                vertical_cell_block_count,
            ),
            binding matches Some(b) ==> {
                &&& b.well_formed()
                &&& b.primitives() == env
                &&& b.bound_roots() == Seq::<DensityFunction>::empty()
                &&& b.cell_grid() == (CellGrid {
                    start_x,
                    start_z,
                    horizontal: horizontal_cell_block_count,
                    vertical: vertical_cell_block_count,
                })
            },
    {
        match ChunkCaches::new(
            start_x,
            start_z,
            width,
            horizontal_cell_block_count,
            vertical_cell_block_count,
        ) {
            Some(caches) => {
                let converter = ChunkSamplerDensityFunctionConverter::new();
                proof {
                    caches.lemma_vacant_is_coherent(&env);
                    converter.lemma_fresh_is_valid(caches.bindings(), caches.cell_grid());
                }
                let binding = Self { env, caches, converter, roots: Vec::new() };
                assert(binding.bound_roots() =~= Seq::<DensityFunction>::empty());
                Some(binding)
            },
            None => None,
        }
    }

    /// Binds a root to the chunk and returns its number. The bound root is
    /// `function` with every caching annotation turned into a cache of this
    /// chunk and every blend node into its bound form.
    pub fn bind(&mut self, function: &Arc<DensityFunction>) -> (index: usize)
        requires
            old(self).well_formed(),
        ensures
            final(self).well_formed(),
            index == old(self).bound_roots().len(),
            final(self).bound_roots().len() == index + 1,
            final(self).bound_roots().take(index as int) == old(self).bound_roots(),
            final(self).bound_roots()[index as int].unbound() == function.unbound(),
            final(self).bound_roots()[index as int].wrapper_free(),
            final(self).bound_roots()[index as int].blends_bound(),
            final(self).bound_roots()[index as int].interpolates_on(old(self).cell_grid()),
            final(self).primitives() == old(self).primitives(),
            final(self).cell_grid() == old(self).cell_grid(),
    {
        let ghost before = self.caches;
        proof {
            self.caches.lemma_coherent_is_well_formed(&self.env);
        }
        let bound = self.converter.apply(function, &mut self.caches);
        proof {
            self.caches.lemma_extension_is_coherent(&before, &self.env);
            self.caches.lemma_extends_bindings(&before);
            self.caches.lemma_extends_grid(&before);
            assert forall|i: int| 0 <= i < self.roots@.len() implies (#[trigger] self.roots@[i]).bound_in(
                self.caches.bindings(),
            ) by {
                lemma_bound_in_extension(&*self.roots@[i], before.bindings(), self.caches.bindings());
            }
        }
        let index: usize = self.roots.len();
        self.roots.push(bound);
        assert(self.bound_roots().take(index as int) =~= old(self).bound_roots());
        index
    }

    /// The bound root with the given number, if there is one.
    pub fn root(&self, index: usize) -> (root: Option<Arc<DensityFunction>>)
        ensures
            root.is_some() == (index < self.bound_roots().len()),
            root matches Some(r) ==> *r == self.bound_roots()[index as int],
    {
        if index < self.roots.len() {
            Some(share(&self.roots[index]))
        } else {
            None
        }
    }

    /// The density of the root with the given number at one position,
    /// sampled through the caches; `None` where there is no such root.
    pub fn sample(&mut self, index: usize, pos: &NoisePos) -> (density: Option<i64>)
        requires
            old(self).well_formed(),
        ensures
            final(self).well_formed(),
            density.is_some() == (index < old(self).bound_roots().len()),
            density matches Some(d) ==> d == old(self).bound_roots()[index as int].value(
                &old(self).primitives(),
                pos.block(),
            ),
            final(self).bound_roots() == old(self).bound_roots(),
            final(self).primitives() == old(self).primitives(),
            final(self).cell_grid() == old(self).cell_grid(),
    {
        if index >= self.roots.len() {
            return None;
        }
        let density: i64 = self.roots[index].sample_cached(pos, &self.env, &mut self.caches);
        Some(density)
    }

    /// Writes into each slot of `densities` the density of the root with the
    /// given number at the position that `applier` gives for the slot's
    /// index, sampled through the caches. Nothing is written, and `false`
    /// returned, where there is no such root or `densities` has more slots
    /// than `applier` has positions.
    pub fn fill(&mut self, index: usize, densities: &mut Vec<i64>, applier: &Applier) -> (done: bool)
        requires
            old(self).well_formed(),
        ensures
            final(self).well_formed(),
            done == (index < old(self).bound_roots().len() && old(densities).len()
                <= applier.len()),
            !done ==> *final(densities) == *old(densities),
            done ==> final(densities).len() == old(densities).len() && forall|i: int|
                0 <= i < final(densities).len() ==> #[trigger] final(densities)[i] == old(
                    self,
                ).bound_roots()[index as int].value(&old(self).primitives(), applier.position(i)),
            final(self).bound_roots() == old(self).bound_roots(),
            final(self).primitives() == old(self).primitives(),
            final(self).cell_grid() == old(self).cell_grid(),
    {
        if index >= self.roots.len() || densities.len() > applier.length() {
            return false;
        }
        self.roots[index].fill_cached(densities, applier, &self.env, &mut self.caches);
        true
    }
}

} // verus!
