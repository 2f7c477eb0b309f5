//! Block positions at which a density function is sampled.
use vstd::prelude::*;

use crate::blender::{Blender, NoBlendBlender};

verus! {

/// The mathematical position of a block.
pub struct BlockPos {
    pub x: int,
    pub y: int,
    pub z: int,
}

/// What every position offers: its three block coordinates and the blender
/// to consult there.
pub trait NoisePosImpl {
    /// The block this position stands for.
    spec fn block(&self) -> BlockPos;

    fn x(&self) -> (r: i32)
        ensures
            r == self.block().x,
    ;

    fn y(&self) -> (r: i32)
        ensures
            r == self.block().y,
    ;

    fn z(&self) -> (r: i32)
        ensures
            r == self.block().z,
    ;

    /// The blender in force at this position. Unless a position says otherwise
    /// nothing is blended.
    fn get_blender(&self) -> (blender: Blender)
        ensures
            blender == Blender::NoBlend(NoBlendBlender {  }),
    {
        Blender::NoBlend(NoBlendBlender {  })
    }
}

/// A free-standing position, outside any chunk.
#[derive(Clone, Copy, Debug, PartialEq, Eq)]
pub struct UnblendedNoisePos {
    x: i32,
    y: i32,
    z: i32,
}

impl UnblendedNoisePos {
    pub fn new(x: i32, y: i32, z: i32) -> (pos: Self)
        ensures
            pos.block() == (BlockPos { x: x as int, y: y as int, z: z as int }),
    {
        Self { x, y, z }
    }
}

impl NoisePosImpl for UnblendedNoisePos {
    closed spec fn block(&self) -> BlockPos {
        BlockPos { x: self.x as int, y: self.y as int, z: self.z as int }
    }

    fn x(&self) -> (r: i32) {
        self.x
    }

    fn y(&self) -> (r: i32) {
        self.y
    }

    fn z(&self) -> (r: i32) {
        self.z
    }
}

/// A cursor into the cell grid of a chunk: one cell, named by its lowest
/// corner block, and one block within that cell.
#[derive(Clone, Copy, Debug, PartialEq, Eq)]
pub struct ChunkNoiseSamplerWrapper {
    start_block_x: i32,
    start_block_y: i32,
    start_block_z: i32,
    cell_block_x: i32,
    cell_block_y: i32,
    cell_block_z: i32,
    horizontal_cell_block_count: i32,
    vertical_cell_block_count: i32,
}

/// The largest number of blocks along one edge of a cell.
pub const MAX_CELL_BLOCK_COUNT: i32 = 1024;

impl ChunkNoiseSamplerWrapper {
    #[verifier::type_invariant]
    closed spec fn inv(self) -> bool {
        &&& 0 < self.horizontal_cell_block_count <= MAX_CELL_BLOCK_COUNT
        &&& 0 < self.vertical_cell_block_count <= MAX_CELL_BLOCK_COUNT
        &&& 0 <= self.cell_block_x < self.horizontal_cell_block_count
        &&& 0 <= self.cell_block_y < self.vertical_cell_block_count
        &&& 0 <= self.cell_block_z < self.horizontal_cell_block_count
        &&& self.start_block_x + self.horizontal_cell_block_count <= i32::MAX
        &&& self.start_block_y + self.vertical_cell_block_count <= i32::MAX
        &&& self.start_block_z + self.horizontal_cell_block_count <= i32::MAX
    }

    /// Whether a cell of the given size can start at the given block.
    pub open spec fn fits(
        start_block_x: i32,
        start_block_y: i32,
        start_block_z: i32,
        horizontal_cell_block_count: i32,
        vertical_cell_block_count: i32,
    ) -> bool {
        &&& 0 < horizontal_cell_block_count <= MAX_CELL_BLOCK_COUNT
        &&& 0 < vertical_cell_block_count <= MAX_CELL_BLOCK_COUNT
        &&& start_block_x + horizontal_cell_block_count <= i32::MAX
        &&& start_block_y + vertical_cell_block_count <= i32::MAX
        &&& start_block_z + horizontal_cell_block_count <= i32::MAX
    }

    /// The lowest corner block of the cell.
    pub closed spec fn start(self) -> BlockPos {
        BlockPos {
            x: self.start_block_x as int,
            y: self.start_block_y as int,
            z: self.start_block_z as int,
        }
    }

    /// The offset of the current block from the cell's lowest corner.
    pub closed spec fn offset(self) -> BlockPos {
        BlockPos {
            x: self.cell_block_x as int,
            y: self.cell_block_y as int,
            z: self.cell_block_z as int,
        }
    }

    /// The width and depth of the cell in blocks.
    pub closed spec fn horizontal(self) -> int {
        self.horizontal_cell_block_count as int
    }

    /// The height of the cell in blocks.
    pub closed spec fn vertical(self) -> int {
        self.vertical_cell_block_count as int
    }

    /// What holds of every cursor.
    pub open spec fn well_formed(self) -> bool {
        &&& 0 < self.horizontal() <= MAX_CELL_BLOCK_COUNT
        &&& 0 < self.vertical() <= MAX_CELL_BLOCK_COUNT
        &&& 0 <= self.offset().x < self.horizontal()
        &&& 0 <= self.offset().y < self.vertical()
        &&& 0 <= self.offset().z < self.horizontal()
        &&& self.start().x + self.horizontal() <= i32::MAX
        &&& self.start().y + self.vertical() <= i32::MAX
        &&& self.start().z + self.horizontal() <= i32::MAX
        &&& i32::MIN <= self.start().x
        &&& i32::MIN <= self.start().y
        &&& i32::MIN <= self.start().z
    }

    /// A cursor at the lowest corner of the cell that starts at the given
    /// block, or `None` where such a cell would leave the coordinate range
    /// or be larger than `MAX_CELL_BLOCK_COUNT` along an edge.
    pub fn new(
        start_block_x: i32,
        start_block_y: i32,
        start_block_z: i32,
        horizontal_cell_block_count: i32,
        vertical_cell_block_count: i32,
    ) -> (cursor: Option<Self>)
        ensures
            cursor.is_some() == Self::fits(
                start_block_x,
                start_block_y,
                start_block_z,
                horizontal_cell_block_count,
                vertical_cell_block_count,
            ),
            cursor matches Some(c) ==> {
                &&& c.well_formed()
                &&& c.start() == (BlockPos {
                    x: start_block_x as int,
                    y: start_block_y as int,
                    z: start_block_z as int,
                })
                &&& c.offset() == (BlockPos { x: 0, y: 0, z: 0 })
                &&& c.horizontal() == horizontal_cell_block_count
                &&& c.vertical() == vertical_cell_block_count
            },
    {
        if horizontal_cell_block_count <= 0 || horizontal_cell_block_count > MAX_CELL_BLOCK_COUNT {
            return None;
        }
        if vertical_cell_block_count <= 0 || vertical_cell_block_count > MAX_CELL_BLOCK_COUNT {
            return None;
        }
        if start_block_x > i32::MAX - horizontal_cell_block_count {
            return None;
        }
        if start_block_y > i32::MAX - vertical_cell_block_count {
            return None;
        }
        if start_block_z > i32::MAX - horizontal_cell_block_count {
            return None;
        }
        Some(
            Self {
                start_block_x,
                start_block_y,
                start_block_z,
                cell_block_x: 0,
                cell_block_y: 0,
                cell_block_z: 0,
                horizontal_cell_block_count,
                vertical_cell_block_count,
            },
        )
    }

    pub fn horizontal_cell_block_count(&self) -> (r: i32)
        ensures
            r == self.horizontal(),
            self.well_formed(),
    {
        proof {
            use_type_invariant(self);
        }
        self.horizontal_cell_block_count
    }

    pub fn vertical_cell_block_count(&self) -> (r: i32)
        ensures
            r == self.vertical(),
            self.well_formed(),
    {
        proof {
            use_type_invariant(self);
        }
        self.vertical_cell_block_count
    }

    /// The same cell with the cursor moved to the block at the given offset,
    /// which lies within the cell.
    pub(crate) fn moved_to(&self, cell_block_x: i32, cell_block_y: i32, cell_block_z: i32) -> (cursor: Self)
        requires
            0 <= cell_block_x < self.horizontal(),
            0 <= cell_block_y < self.vertical(),
            0 <= cell_block_z < self.horizontal(),
        ensures
            cursor.well_formed(),
            cursor.start() == self.start(),
            cursor.offset() == (BlockPos {
                x: cell_block_x as int,
                y: cell_block_y as int,
                z: cell_block_z as int,
            }),
            cursor.horizontal() == self.horizontal(),
            cursor.vertical() == self.vertical(),
    {
        proof {
            use_type_invariant(self);
        }
        Self {
            start_block_x: self.start_block_x,
            start_block_y: self.start_block_y,
            start_block_z: self.start_block_z,
            cell_block_x,
            cell_block_y,
            cell_block_z,
            horizontal_cell_block_count: self.horizontal_cell_block_count,
            vertical_cell_block_count: self.vertical_cell_block_count,
        }
    }

    /// The cursor moved to the lowest corner of the cell that starts at
    /// height `start_block_y`, which lies within the coordinate range.
    pub(crate) fn raised_to(&self, start_block_y: i32) -> (cursor: Self)
        requires
            start_block_y + self.vertical() <= i32::MAX,
        ensures
            cursor.well_formed(),
            cursor.start() == (BlockPos { y: start_block_y as int, ..self.start() }),
            cursor.offset() == (BlockPos { y: 0, ..self.offset() }),
            cursor.horizontal() == self.horizontal(),
            cursor.vertical() == self.vertical(),
    {
        proof {
            use_type_invariant(self);
        }
        Self {
            start_block_x: self.start_block_x,
            start_block_y,
            start_block_z: self.start_block_z,
            cell_block_x: self.cell_block_x,
            cell_block_y: 0,
            cell_block_z: self.cell_block_z,
            horizontal_cell_block_count: self.horizontal_cell_block_count,
            vertical_cell_block_count: self.vertical_cell_block_count,
        }
    }

    /// The same cell with the cursor moved to the block at the given offset,
    /// or `None` where the offset lies outside the cell.
    pub fn with_offset(&self, cell_block_x: i32, cell_block_y: i32, cell_block_z: i32) -> (cursor:
        Option<Self>)
        ensures
            cursor.is_some() == (0 <= cell_block_x < self.horizontal() && 0 <= cell_block_y
                < self.vertical() && 0 <= cell_block_z < self.horizontal()),
            cursor matches Some(c) ==> {
                &&& c.well_formed()
                &&& c.start() == self.start()
                &&& c.offset() == (BlockPos {
                    x: cell_block_x as int,
                    y: cell_block_y as int,
                    z: cell_block_z as int,
                })
                &&& c.horizontal() == self.horizontal()
                &&& c.vertical() == self.vertical()
            },
    {
        proof {
            use_type_invariant(self);
        }
        if cell_block_x < 0 || cell_block_x >= self.horizontal_cell_block_count {
            return None;
        }
        if cell_block_y < 0 || cell_block_y >= self.vertical_cell_block_count {
            return None;
        }
        if cell_block_z < 0 || cell_block_z >= self.horizontal_cell_block_count {
            return None;
        }
        Some(self.moved_to(cell_block_x, cell_block_y, cell_block_z))
    }

    /// The cursor moved to the lowest corner of the cell that starts at
    /// height `start_block_y`, or `None` where that cell would leave the
    /// coordinate range.
    pub fn at_height(&self, start_block_y: i32) -> (cursor: Option<Self>)
        ensures
            cursor.is_some() == (start_block_y + self.vertical() <= i32::MAX),
            cursor matches Some(c) ==> {
                &&& c.well_formed()
                &&& c.start() == (BlockPos { y: start_block_y as int, ..self.start() })
                &&& c.offset() == (BlockPos { y: 0, ..self.offset() })
                &&& c.horizontal() == self.horizontal()
                &&& c.vertical() == self.vertical()
            },
    {
        proof {
            use_type_invariant(self);
        }
        if start_block_y > i32::MAX - self.vertical_cell_block_count {
            return None;
        }
        Some(self.raised_to(start_block_y))
    }
}

impl NoisePosImpl for ChunkNoiseSamplerWrapper {
    open spec fn block(&self) -> BlockPos {
        BlockPos {
            x: self.start().x + self.offset().x,
            y: self.start().y + self.offset().y,
            z: self.start().z + self.offset().z,
        }
    }

    fn x(&self) -> (r: i32) {
        proof {
            use_type_invariant(self);
        }
        self.start_block_x + self.cell_block_x
    }

    fn y(&self) -> (r: i32) {
        proof {
            use_type_invariant(self);
        }
        self.start_block_y + self.cell_block_y
    }

    fn z(&self) -> (r: i32) {
        proof {
            use_type_invariant(self);
        }
        self.start_block_z + self.cell_block_z
    }
}

/// A position: free-standing, or a block of a chunk's cell grid.
#[derive(Clone, Copy, Debug, PartialEq, Eq)]
pub enum NoisePos {
    Unblended(UnblendedNoisePos),
    ChunkNoise(ChunkNoiseSamplerWrapper),
}

impl NoisePosImpl for NoisePos {
    open spec fn block(&self) -> BlockPos {
        match self {
            NoisePos::Unblended(pos) => pos.block(),
            NoisePos::ChunkNoise(pos) => pos.block(),
        }
    }

    fn x(&self) -> (r: i32) {
        match self {
            NoisePos::Unblended(pos) => pos.x(),
            NoisePos::ChunkNoise(pos) => pos.x(),
        }
    }

    fn y(&self) -> (r: i32) {
        match self {
            NoisePos::Unblended(pos) => pos.y(),
            NoisePos::ChunkNoise(pos) => pos.y(),
        }
    }

    fn z(&self) -> (r: i32) {
        match self {
            NoisePos::Unblended(pos) => pos.z(),
            NoisePos::ChunkNoise(pos) => pos.z(),
        }
    }
}

} // verus!
