//! Appliers: indexed sources of positions for filling a slab of densities.
use vstd::prelude::*;

use crate::function::DensityFunction;
use crate::noise::Primitives;
use crate::position::{
    BlockPos, ChunkNoiseSamplerWrapper, NoisePos, NoisePosImpl, MAX_CELL_BLOCK_COUNT,
};

verus! {

/// What every applier offers: a position for each index below its length,
/// and a way to fill a slab with the densities at those positions.
pub trait ApplierImpl {
    /// The number of positions.
    spec fn len(&self) -> nat;

    /// The block at `index`.
    spec fn position(&self, index: int) -> BlockPos;

    /// The number of positions.
    fn length(&self) -> (n: usize)
        ensures
            n == self.len(),
    ;

    fn at(&self, index: usize) -> (pos: NoisePos)
        requires
            index < self.len(),
        ensures
            pos.block() == self.position(index as int),
    ;

    /// Writes into each slot of `densities` the density of `function` at the
    /// position with the slot's index.
    fn fill<P: Primitives>(&self, densities: &mut Vec<i64>, function: &DensityFunction, env: &P)
        requires
            old(densities).len() <= self.len(),
        ensures
            final(densities).len() == old(densities).len(),
            forall|i: int|
                0 <= i < final(densities).len() ==> #[trigger] final(densities)[i]
                    == function.value(env, self.position(i)),
    {
        let n: usize = densities.len();
        let mut i: usize = 0;
        while i < n
            invariant
                i <= n,
                n == densities.len(),
                n <= self.len(),
                forall|j: int|
                    0 <= j < i ==> #[trigger] densities[j] == function.value(
                        env,
                        self.position(j),
                    ),
            decreases n - i,
        {
            let pos = self.at(i);
            let density: i64 = function.sample(&pos, env);
            densities.set(i, density);
            i = i + 1;
        }
    }
}

impl ApplierImpl for ChunkNoiseSamplerWrapper {
    /// One position for each block of the cell.
    open spec fn len(&self) -> nat {
        (self.horizontal() * self.horizontal() * self.vertical()) as nat
    }

    /// The blocks of the cell layer by layer from the top, each layer row by
    /// row along the first axis.
    open spec fn position(&self, index: int) -> BlockPos {
        BlockPos {
            x: self.start().x + (index / self.horizontal()) % self.horizontal(),
            y: self.start().y + self.vertical() - 1 - (index / self.horizontal())
                / self.horizontal(),
            z: self.start().z + index % self.horizontal(),
        }
    }

    fn length(&self) -> (n: usize) {
        let h: i32 = self.horizontal_cell_block_count();
        let v: i32 = self.vertical_cell_block_count();
        proof {
            lemma_cell_count(h as int, v as int);
        }
        (h as usize) * (h as usize) * (v as usize)
    }

    fn at(&self, index: usize) -> (pos: NoisePos) {
        let h: i32 = self.horizontal_cell_block_count();
        let v: i32 = self.vertical_cell_block_count();
        proof {
            lemma_cell_index(index as int, h as int, v as int);
        }
        let width: usize = h as usize;
        let row: usize = index / width;
        let z: i32 = (index % width) as i32;
        let x: i32 = (row % width) as i32;
        let y: i32 = v - 1 - (row / width) as i32;
        NoisePos::ChunkNoise(self.moved_to(x, y, z))
    }
}

/// The blocks of a cell can be counted.
pub proof fn lemma_cell_count(h: int, v: int)
    requires
        0 < h <= MAX_CELL_BLOCK_COUNT,
        0 < v <= MAX_CELL_BLOCK_COUNT,
    ensures
        0 < h * h <= 0x10_0000,
        0 < h * h * v <= 0x4000_0000,
{
    assert(0 < h * h <= 0x10_0000) by (nonlinear_arith)
        requires
            0 < h <= 1024,
    ;
    assert(0 < h * h * v <= 0x4000_0000) by (nonlinear_arith)
        requires
            0 < h * h <= 0x10_0000,
            0 < v <= 1024,
    ;
}

/// An index below the number of blocks of a cell splits into three offsets
/// that lie within the cell.
pub proof fn lemma_cell_index(index: int, h: int, v: int)
    requires
        0 < h <= MAX_CELL_BLOCK_COUNT,
        0 < v <= MAX_CELL_BLOCK_COUNT,
        0 <= index < h * h * v,
    ensures
        h * h * v <= 0x4000_0000,
        0 <= index % h < h,
        0 <= (index / h) % h < h,
        0 <= (index / h) / h < v,
{
    assert(h * h * v <= 0x4000_0000) by (nonlinear_arith)
        requires
            0 < h <= 1024,
            0 < v <= 1024,
    ;
    assert(0 <= index % h < h && 0 <= (index / h) % h < h) by (nonlinear_arith)
        requires
            0 < h,
            0 <= index,
    ;
    assert(0 <= (index / h) / h < v) by (nonlinear_arith)
        requires
            0 < h,
            0 < v,
            0 <= index < h * h * v,
    ;
}

/// The applier that walks up a column of cells, one position at the lowest
/// corner of each.
#[derive(Clone, Copy, Debug)]
pub struct InterpolationApplier {
    sampler: ChunkNoiseSamplerWrapper,
    minimum_cell_y: i32,
    cell_height: i32,
}

impl InterpolationApplier {
    #[verifier::type_invariant]
    closed spec fn inv(self) -> bool {
        &&& self.sampler.well_formed()
        &&& 0 <= self.cell_height
        &&& i32::MIN <= self.minimum_cell_y * self.sampler.vertical()
        &&& (self.minimum_cell_y + self.cell_height + 1) * self.sampler.vertical() <= i32::MAX
    }

    /// The cursor whose column is walked.
    pub closed spec fn cursor(self) -> ChunkNoiseSamplerWrapper {
        self.sampler
    }

    /// The index of the lowest cell.
    pub closed spec fn lowest(self) -> int {
        self.minimum_cell_y as int
    }

    /// The number of cells above the lowest.
    pub closed spec fn height(self) -> int {
        self.cell_height as int
    }

    /// Whether a column of `cell_height` cells above cell `minimum_cell_y`,
    /// each `vertical` blocks high, stays within the coordinate range.
    pub open spec fn fits(vertical: int, minimum_cell_y: int, cell_height: int) -> bool {
        &&& 0 <= cell_height
        &&& i32::MIN <= minimum_cell_y * vertical
        &&& (minimum_cell_y + cell_height + 1) * vertical <= i32::MAX
    }

    /// An applier over the column of `sampler`, or `None` where the column
    /// would leave the coordinate range.
    pub fn new(sampler: ChunkNoiseSamplerWrapper, minimum_cell_y: i32, cell_height: i32) -> (applier:
        Option<Self>)
        ensures
            applier.is_some() == Self::fits(
                sampler.vertical(),
                minimum_cell_y as int,
                cell_height as int,
            ),
            applier matches Some(a) ==> a.cursor() == sampler && a.lowest() == minimum_cell_y
                && a.height() == cell_height,
    {
        let v: i64 = sampler.vertical_cell_block_count() as i64;
        if cell_height < 0 {
            return None;
        }
        assert(-0x8000_0000 * 1024 <= minimum_cell_y * v <= 0x8000_0000 * 1024) by (nonlinear_arith)
            requires
                -0x8000_0000 <= minimum_cell_y <= 0x8000_0000,
                0 < v <= 1024,
        ;
        let top: i64 = minimum_cell_y as i64 + cell_height as i64 + 1;
        assert(-0x1_0000_0000 * 1024 <= top * v <= 0x1_0000_0000 * 1024) by (nonlinear_arith)
            requires
                -0x1_0000_0000 <= top <= 0x1_0000_0000,
                0 < v <= 1024,
        ;
        if (minimum_cell_y as i64) * v < i32::MIN as i64 {
            return None;
        }
        if top * v > i32::MAX as i64 {
            return None;
        }
        Some(Self { sampler, minimum_cell_y, cell_height })
    }
}

impl ApplierImpl for InterpolationApplier {
    /// One position for each cell corner of the column.
    open spec fn len(&self) -> nat {
        (self.height() + 1) as nat
    }

    /// The lowest corner of the cell `index` cells above the lowest, at the
    /// horizontal place of the cursor.
    open spec fn position(&self, index: int) -> BlockPos {
        BlockPos {
            x: self.cursor().start().x + self.cursor().offset().x,
            y: (index + self.lowest()) * self.cursor().vertical(),
            z: self.cursor().start().z + self.cursor().offset().z,
        }
    }

    fn length(&self) -> (n: usize) {
        proof {
            use_type_invariant(self);
        }
        self.cell_height as usize + 1
    }

    fn at(&self, index: usize) -> (pos: NoisePos) {
        proof {
            use_type_invariant(self);
        }
        let v: i32 = self.sampler.vertical_cell_block_count();
        proof {
            lemma_column_height(
                index as int,
                self.minimum_cell_y as int,
                self.cell_height as int,
                v as int,
            );
        }
        let cell: i32 = index as i32 + self.minimum_cell_y;
        let start_block_y: i32 = cell * v;
        NoisePos::ChunkNoise(self.sampler.raised_to(start_block_y))
    }
}

/// Every cell of a column that stays within the coordinate range starts
/// within it, with room for its own height.
pub proof fn lemma_column_height(index: int, lowest: int, height: int, v: int)
    requires
        0 < v,
        0 <= index <= height,
        i32::MIN <= lowest * v,
        (lowest + height + 1) * v <= i32::MAX,
    ensures
        i32::MIN <= (index + lowest) * v,
        (index + lowest) * v + v <= i32::MAX,
        lowest <= index + lowest <= i32::MAX,
{
    assert(index + lowest <= i32::MAX) by (nonlinear_arith)
        requires
            0 < v,
            index <= height,
            (lowest + height + 1) * v <= i32::MAX,
    ;
    assert(lowest * v <= (index + lowest) * v) by (nonlinear_arith)
        requires
            0 < v,
            0 <= index,
    ;
    assert((index + lowest) * v + v <= (lowest + height + 1) * v) by (nonlinear_arith)
        requires
            0 < v,
            index <= height,
    ;
}

/// The appliers.
pub enum Applier {
    ChunkNoise(ChunkNoiseSamplerWrapper),
    Interpolation(InterpolationApplier),
}

impl ApplierImpl for Applier {
    open spec fn len(&self) -> nat {
        match self {
            Applier::ChunkNoise(applier) => applier.len(),
            Applier::Interpolation(applier) => applier.len(),
        }
    }

    open spec fn position(&self, index: int) -> BlockPos {
        match self {
            Applier::ChunkNoise(applier) => applier.position(index),
            Applier::Interpolation(applier) => applier.position(index),
        }
    }

    fn length(&self) -> (n: usize) {
        match self {
            Applier::ChunkNoise(applier) => applier.length(),
            Applier::Interpolation(applier) => applier.length(),
        }
    }

    fn at(&self, index: usize) -> (pos: NoisePos) {
        match self {
            Applier::ChunkNoise(applier) => applier.at(index),
            Applier::Interpolation(applier) => applier.at(index),
        }
    }

    fn fill<P: Primitives>(&self, densities: &mut Vec<i64>, function: &DensityFunction, env: &P) {
        match self {
            Applier::ChunkNoise(applier) => applier.fill(densities, function, env),
            Applier::Interpolation(applier) => applier.fill(densities, function, env),
        }
    }
}

} // verus!
