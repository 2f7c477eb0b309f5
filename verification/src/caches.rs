//! The caches of one chunk.
//!
//! Binding a graph to a chunk gives every caching annotation a slot in the
//! chunk's caches. A slot keeps what its function sampled to: a flat cache
//! one value for each column of the chunk, a column cache the column sampled
//! last, a once-cache the position sampled last, a cell cache the corner of a
//! cell sampled last, an interpolator the eight corners of the cell sampled
//! last. A slot keeps a value for a whole column only where the shape of the
//! function shows that it does not depend on the height, so what a slot
//! keeps is always the value of its function at the place it is asked for.
use vstd::prelude::*;

use crate::flat::lemma_column_flat;
use crate::function::{CellGrid, DensityFunction, WrapperType};
use crate::interpolation::{corner_values, CellCorners, CornerSamples, MAX_GRID_CELL};
use crate::noise::Primitives;
use crate::position::{BlockPos, NoisePos, NoisePosImpl};

verus! {

/// The largest width of a chunk in blocks.
pub const MAX_CHUNK_WIDTH: i32 = 1024;

/// What one slot keeps.
#[derive(Clone, Copy, Debug, PartialEq, Eq)]
pub enum CacheSlot {
    /// One value for each column of the chunk, in the table with this number.
    Flat { table: usize },
    /// The value of the column sampled last.
    Column { filled: bool, x: i32, z: i32, value: i64 },
    /// The value at the position sampled last; if `corners_only`, at the
    /// corner of a cell sampled last.
    Position { filled: bool, x: i32, y: i32, z: i32, value: i64, corners_only: bool },
    /// The values at the corners of the cell sampled last.
    Corners { filled: bool, cell: CellCorners, samples: CornerSamples },
    /// Nothing: the function is sampled every time.
    Direct,
}

/// The caches of one chunk.
pub struct ChunkCaches {
    start_x: i32,
    start_z: i32,
    width: i32,
    cells_of: CellGrid,
    slots: Vec<CacheSlot>,
    cells: Vec<Option<i64>>,
    bound: Ghost<Seq<DensityFunction>>,
    tables: Ghost<Seq<DensityFunction>>,
}

/// An index into a square table splits into a row and a place in the row.
pub proof fn lemma_table_index(table: int, row: int, place: int, width: int)
    requires
        0 <= table,
        0 <= row < width,
        0 <= place < width,
    ensures
        0 <= row * width + place < width * width,
        (row * width + place) / width == row,
        (row * width + place) % width == place,
        (table * (width * width) + row * width + place) / (width * width) == table,
        (table * (width * width) + row * width + place) % (width * width) == row * width + place,
        0 <= table * (width * width),
{
    let area = width * width;
    let index = row * width + place;
    assert(0 <= index < area) by (nonlinear_arith)
        requires
            index == row * width + place,
            area == width * width,
            0 <= row < width,
            0 <= place < width,
    ;
    vstd::arithmetic::div_mod::lemma_fundamental_div_mod_converse(index, width, row, place);
    assert(0 <= table * area) by (nonlinear_arith)
        requires
            0 <= table,
            0 <= area,
    ;
    vstd::arithmetic::div_mod::lemma_fundamental_div_mod_converse(
        table * area + index,
        area,
        table,
        index,
    );
}

impl ChunkCaches {
    /// The function that each slot caches.
    pub closed spec fn bindings(&self) -> Seq<DensityFunction> {
        self.bound@
    }

    /// The first block of the chunk along the first axis.
    pub closed spec fn first_x(&self) -> int {
        self.start_x as int
    }

    /// The first block of the chunk along the second axis.
    pub closed spec fn first_z(&self) -> int {
        self.start_z as int
    }

    /// The number of blocks along each horizontal edge of the chunk.
    pub closed spec fn edge(&self) -> int {
        self.width as int
    }

    /// The grid of cells that the chunk is cut into.
    pub closed spec fn cell_grid(&self) -> CellGrid {
        self.cells_of
    }

    spec fn area(&self) -> int {
        self.width * self.width
    }

    /// The column that a cell of a table stands for, at height zero.
    spec fn column(&self, index: int) -> BlockPos {
        BlockPos {
            x: self.start_x + index / (self.width as int),
            y: 0,
            z: self.start_z + index % (self.width as int),
        }
    }

    /// What holds of the caches whatever they keep: every slot has its
    /// function, every table its cells, and whatever is kept per column does
    /// not depend on the height.
    pub closed spec fn well_formed(&self) -> bool {
        &&& 0 < self.width <= MAX_CHUNK_WIDTH
        &&& self.start_x + self.width <= i32::MAX
        &&& self.start_z + self.width <= i32::MAX
        &&& self.bound@.len() == self.slots@.len()
        &&& self.cells@.len() == self.tables@.len() * self.area()
        &&& forall|k: int| 0 <= k < self.tables@.len() ==> (#[trigger] self.tables@[k]).column_flat()
        &&& forall|i: int|
            0 <= i < self.slots@.len() ==> match #[trigger] self.slots@[i] {
                CacheSlot::Flat { table } => table < self.tables@.len() && self.tables@[table as int]
                    == self.bound@[i],
                CacheSlot::Column { .. } => self.bound@[i].column_flat(),
                _ => true,
            }
    }

    /// Whether every value that the caches keep is the value of its function
    /// at the place it is kept for.
    pub closed spec fn coherent<P: Primitives>(&self, env: &P) -> bool {
        &&& self.well_formed()
        &&& forall|c: int|
            0 <= c < self.cells@.len() ==> (#[trigger] self.cells@[c] matches Some(v) ==> v
                == self.tables@[c / self.area()].value(env, self.column(c % self.area())))
        &&& forall|i: int|
            0 <= i < self.slots@.len() ==> match #[trigger] self.slots@[i] {
                CacheSlot::Column { filled, x, z, value } => filled ==> value
                    == self.bound@[i].value(env, BlockPos { x: x as int, y: 0, z: z as int }),
                CacheSlot::Position { filled, x, y, z, value, .. } => filled ==> value
                    == self.bound@[i].value(
                    env,
                    BlockPos { x: x as int, y: y as int, z: z as int },
                ),
                CacheSlot::Corners { filled, cell, samples } => filled ==> samples@
                    == corner_values(&self.bound@[i], env, cell),
                _ => true,
            }
    }

    /// Whether these caches are those of `earlier` with slots added that keep
    /// nothing yet.
    pub closed spec fn extends(&self, earlier: &Self) -> bool {
        &&& self.start_x == earlier.start_x
        &&& self.start_z == earlier.start_z
        &&& self.width == earlier.width
        &&& self.cells_of == earlier.cells_of
        &&& earlier.slots@.len() <= self.slots@.len()
        &&& earlier.cells@.len() <= self.cells@.len()
        &&& earlier.bound@.len() <= self.bound@.len()
        &&& earlier.tables@.len() <= self.tables@.len()
        &&& forall|i: int| 0 <= i < earlier.slots@.len() ==> self.slots@[i] == earlier.slots@[i]
        &&& forall|c: int| 0 <= c < earlier.cells@.len() ==> self.cells@[c] == earlier.cells@[c]
        &&& forall|i: int| 0 <= i < earlier.bound@.len() ==> self.bound@[i] == earlier.bound@[i]
        &&& forall|k: int| 0 <= k < earlier.tables@.len() ==> self.tables@[k] == earlier.tables@[k]
        &&& forall|c: int| earlier.cells@.len() <= c < self.cells@.len() ==> self.cells@[c] is None
        &&& forall|i: int|
            earlier.slots@.len() <= i < self.slots@.len() ==> match #[trigger] self.slots@[i] {
                CacheSlot::Column { filled, .. } => !filled,
                CacheSlot::Position { filled, .. } => !filled,
                CacheSlot::Corners { filled, .. } => !filled,
                _ => true,
            }
    }

    /// Whether the caches keep no value at all.
    pub closed spec fn vacant(&self) -> bool {
        &&& forall|c: int| 0 <= c < self.cells@.len() ==> self.cells@[c] is None
        &&& forall|i: int|
            0 <= i < self.slots@.len() ==> match #[trigger] self.slots@[i] {
                CacheSlot::Column { filled, .. } => !filled,
                CacheSlot::Position { filled, .. } => !filled,
                CacheSlot::Corners { filled, .. } => !filled,
                _ => true,
            }
    }

    /// Whether a chunk of the given width can start at the given column and
    /// be cut into cells of the given size.
    pub open spec fn fits(
        start_x: i32,
        start_z: i32,
        width: i32,
        horizontal_cell_block_count: i32,
        vertical_cell_block_count: i32,
    ) -> bool {
        &&& 0 < width <= MAX_CHUNK_WIDTH
        &&& start_x + width <= i32::MAX
        &&& start_z + width <= i32::MAX
        &&& 0 < horizontal_cell_block_count <= MAX_GRID_CELL
        &&& 0 < vertical_cell_block_count <= MAX_GRID_CELL
    }

    /// The caches of the chunk whose columns start at `(start_x, start_z)`,
    /// which is `width` blocks wide and cut into cells of the given size,
    /// with no slot yet; `None` where such a chunk would leave the coordinate
    /// range, be wider than `MAX_CHUNK_WIDTH`, or have cells that are empty
    /// or larger than `MAX_GRID_CELL` along an edge.
    pub fn new(
        start_x: i32,
        start_z: i32,
        width: i32,
        horizontal_cell_block_count: i32,
        vertical_cell_block_count: i32,
    ) -> (caches: Option<Self>)
        ensures
            caches.is_some() == Self::fits(
                start_x,
                start_z,
                width,
                horizontal_cell_block_count,
                vertical_cell_block_count,
            ),
            caches matches Some(c) ==> {
                &&& c.cell_grid() == (CellGrid {
                    start_x,
                    start_z,
                    horizontal: horizontal_cell_block_count,
                    vertical: vertical_cell_block_count,
                })
                &&& c.well_formed()
                &&& c.vacant()
                &&& c.bindings() == Seq::<DensityFunction>::empty()
                &&& c.first_x() == start_x
                &&& c.first_z() == start_z
                &&& c.edge() == width
            },
    {
        if width <= 0 || width > MAX_CHUNK_WIDTH {
            return None;
        }
        if start_x > i32::MAX - width || start_z > i32::MAX - width {
            return None;
        }
        if horizontal_cell_block_count <= 0 || horizontal_cell_block_count > MAX_GRID_CELL {
            return None;
        }
        if vertical_cell_block_count <= 0 || vertical_cell_block_count > MAX_GRID_CELL {
            return None;
        }
        let caches = Self {
            start_x,
            start_z,
            width,
            cells_of: CellGrid {
                start_x,
                start_z,
                horizontal: horizontal_cell_block_count,
                vertical: vertical_cell_block_count,
            },
            slots: Vec::new(),
            cells: Vec::new(),
            bound: Ghost(Seq::empty()),
            tables: Ghost(Seq::empty()),
        };
        assert(caches.cells@.len() == caches.tables@.len() * caches.area()) by (nonlinear_arith)
            requires
                caches.cells@.len() == 0,
                caches.tables@.len() == 0,
        ;
        Some(caches)
    }

    /// The grid of cells that the chunk is cut into.
    pub fn grid(&self) -> (grid: CellGrid)
        ensures
            grid == self.cell_grid(),
    {
        self.cells_of
    }

    /// Adding slots leaves the grid as it was.
    pub proof fn lemma_extends_grid(&self, earlier: &Self)
        requires
            self.extends(earlier),
        ensures
            self.cell_grid() == earlier.cell_grid(),
    {
    }

    /// Coherent caches are well formed.
    pub proof fn lemma_coherent_is_well_formed<P: Primitives>(&self, env: &P)
        requires
            self.coherent(env),
        ensures
            self.well_formed(),
    {
    }

    /// Caches that keep nothing are coherent.
    pub proof fn lemma_vacant_is_coherent<P: Primitives>(&self, env: &P)
        requires
            self.well_formed(),
            self.vacant(),
        ensures
            self.coherent(env),
    {
    }

    /// Coherent caches stay coherent when slots are added.
    pub proof fn lemma_extension_is_coherent<P: Primitives>(&self, earlier: &Self, env: &P)
        requires
            earlier.coherent(env),
            self.well_formed(),
            self.extends(earlier),
        ensures
            self.coherent(env),
    {
        assert forall|c: int| 0 <= c < self.cells@.len() implies (#[trigger] self.cells@[c] matches Some(
            v,
        ) ==> v == self.tables@[c / self.area()].value(env, self.column(c % self.area()))) by {
            if c < earlier.cells@.len() {
                earlier.lemma_cell_table(c);
                assert(self.cells@[c] == earlier.cells@[c]);
                assert(self.tables@[c / self.area()] == earlier.tables@[c / earlier.area()]);
            }
        }
        assert forall|i: int| 0 <= i < self.slots@.len() implies match #[trigger] self.slots@[i] {
            CacheSlot::Column { filled, x, z, value } => filled ==> value == self.bound@[i].value(
                env,
                BlockPos { x: x as int, y: 0, z: z as int },
            ),
            CacheSlot::Position { filled, x, y, z, value, .. } => filled ==> value
                == self.bound@[i].value(env, BlockPos { x: x as int, y: y as int, z: z as int }),
            CacheSlot::Corners { filled, cell, samples } => filled ==> samples@ == corner_values(
                &self.bound@[i],
                env,
                cell,
            ),
            _ => true,
        } by {
            if i < earlier.slots@.len() {
                assert(self.slots@[i] == earlier.slots@[i]);
                assert(self.bound@[i] == earlier.bound@[i]);
            }
        }
    }

    /// Adding slots to caches that had slots added is adding slots.
    pub proof fn lemma_extends_transitive(&self, middle: &Self, earlier: &Self)
        requires
            middle.extends(earlier),
            self.extends(middle),
        ensures
            self.extends(earlier),
    {
        assert forall|i: int|
            earlier.slots@.len() <= i < self.slots@.len() implies match #[trigger] self.slots@[i] {
            CacheSlot::Column { filled, .. } => !filled,
            CacheSlot::Position { filled, .. } => !filled,
            _ => true,
        } by {
            if i < middle.slots@.len() {
                assert(self.slots@[i] == middle.slots@[i]);
            }
        }
        assert forall|c: int| earlier.cells@.len() <= c < self.cells@.len() implies self.cells@[c] is None by {
            if c < middle.cells@.len() {
                assert(self.cells@[c] == middle.cells@[c]);
            }
        }
    }

    /// Adding slots leaves the functions of the earlier slots as they were.
    pub proof fn lemma_extends_bindings(&self, earlier: &Self)
        requires
            self.extends(earlier),
        ensures
            earlier.bindings().is_prefix_of(self.bindings()),
    {
    }

    /// Adding no slot is adding slots.
    pub proof fn lemma_extends_itself(&self)
        ensures
            self.extends(self),
    {
    }

    /// The table that a cell belongs to exists.
    proof fn lemma_cell_table(&self, c: int)
        requires
            self.well_formed(),
            0 <= c < self.cells@.len(),
        ensures
            0 <= c / self.area() < self.tables@.len(),
            0 <= c % self.area() < self.area(),
    {
        let area = self.area();
        let n = self.tables@.len() as int;
        assert(area > 0) by (nonlinear_arith)
            requires
                area == self.width * self.width,
                self.width > 0,
        ;
        assert(0 <= c / area < n && 0 <= c % area < area) by (nonlinear_arith)
            requires
                0 <= c < n * area,
                area > 0,
        ;
    }

    /// The number of the cell that keeps the column of `pos` in the table
    /// with the given number, if the column belongs to the chunk.
    fn cell_of(&self, table: usize, pos: &NoisePos) -> (cell: Option<usize>)
        requires
            self.well_formed(),
            table < self.tables@.len(),
        ensures
            cell matches Some(c) ==> {
                &&& c < self.cells@.len()
                &&& (c as int) / self.area() == table
                &&& self.column((c as int) % self.area()) == (BlockPos { y: 0, ..pos.block() })
            },
            cell is None <==> !(self.start_x <= pos.block().x < self.start_x + self.width
                && self.start_z <= pos.block().z < self.start_z + self.width),
    {
        let x: i32 = pos.x();
        let z: i32 = pos.z();
        if x < self.start_x || z < self.start_z {
            return None;
        }
        let row: i64 = x as i64 - self.start_x as i64;
        let place: i64 = z as i64 - self.start_z as i64;
        if row >= self.width as i64 || place >= self.width as i64 {
            return None;
        }
        let width: usize = self.width as usize;
        assert(width * width <= 1024 * 1024) by (nonlinear_arith)
            requires
                0 < width <= 1024,
        ;
        let area: usize = width * width;
        proof {
            lemma_table_index(table as int, row as int, place as int, self.width as int);
            assert(0 <= row * width <= 1024 * 1024) by (nonlinear_arith)
                requires
                    0 <= row < width,
                    width <= 1024,
            ;
        }
        let index: usize = (row as usize) * width + place as usize;
        proof {
            assert(area == self.area());
            let count = self.tables@.len() as int;
            assert(0 <= table * area && table * area + area <= count * area) by (nonlinear_arith)
                requires
                    0 <= table < count,
                    area >= 0,
            ;
            assert(count * area == self.cells@.len());
            assert(self.cells@.len() == self.cells.len());
        }
        let cell: usize = table * area + index;
        Some(cell)
    }

    /// What the slot keeps for `pos`, if it keeps anything.
    pub(crate) fn lookup<P: Primitives>(&self, slot: usize, pos: &NoisePos, Ghost(env): Ghost<&P>) -> (hit:
        Option<i64>)
        requires
            self.coherent(env),
            slot < self.bindings().len(),
        ensures
            hit matches Some(v) ==> v == self.bindings()[slot as int].value(env, pos.block()),
    {
        match self.slots[slot] {
            CacheSlot::Flat { table } => {
                match self.cell_of(table, pos) {
                    Some(c) => {
                        proof {
                            lemma_column_flat(
                                &self.tables@[table as int],
                                env,
                                self.column((c as int) % self.area()),
                                pos.block(),
                            );
                        }
                        self.cells[c]
                    },
                    None => None,
                }
            },
            CacheSlot::Column { filled, x, z, value } => {
                if filled && x == pos.x() && z == pos.z() {
                    proof {
                        lemma_column_flat(
                            &self.bound@[slot as int],
                            env,
                            BlockPos { x: x as int, y: 0, z: z as int },
                            pos.block(),
                        );
                    }
                    Some(value)
                } else {
                    None
                }
            },
            CacheSlot::Position { filled, x, y, z, value, .. } => {
                if filled && x == pos.x() && y == pos.y() && z == pos.z() {
                    Some(value)
                } else {
                    None
                }
            },
            CacheSlot::Corners { .. } => None,
            CacheSlot::Direct => None,
        }
    }

    /// Lets the slot keep `value` for `pos`.
    pub(crate) fn store<P: Primitives>(
        &mut self,
        slot: usize,
        pos: &NoisePos,
        value: i64,
        Ghost(env): Ghost<&P>,
    )
        requires
            old(self).coherent(env),
            slot < old(self).bindings().len(),
            value == old(self).bindings()[slot as int].value(env, pos.block()),
        ensures
            final(self).coherent(env),
            final(self).bindings() == old(self).bindings(),
            final(self).cell_grid() == old(self).cell_grid(),
    {
        match self.slots[slot] {
            CacheSlot::Flat { table } => {
                match self.cell_of(table, pos) {
                    Some(c) => {
                        proof {
                            lemma_column_flat(
                                &self.tables@[table as int],
                                env,
                                self.column((c as int) % self.area()),
                                pos.block(),
                            );
                        }
                        self.cells.set(c, Some(value));
                    },
                    None => {},
                }
            },
            CacheSlot::Column { .. } => {
                let x: i32 = pos.x();
                let z: i32 = pos.z();
                proof {
                    lemma_column_flat(
                        &self.bound@[slot as int],
                        env,
                        BlockPos { x: x as int, y: 0, z: z as int },
                        pos.block(),
                    );
                }
                self.slots.set(slot, CacheSlot::Column { filled: true, x, z, value });
            },
            CacheSlot::Position { corners_only, .. } => {
                let x: i32 = pos.x();
                let y: i32 = pos.y();
                let z: i32 = pos.z();
                let keep: bool = !corners_only || match self.cells_of.corners(pos) {
                    Some(c) => c.low_x == x && c.low_y == y && c.low_z == z,
                    None => false,
                };
                if keep {
                    self.slots.set(
                        slot,
                        CacheSlot::Position { filled: true, x, y, z, value, corners_only },
                    );
                }
            },
            CacheSlot::Corners { .. } => {},
            CacheSlot::Direct => {},
        }
    }

    /// What the slot keeps for the corners of a cell, if it keeps them.
    pub(crate) fn lookup_corners<P: Primitives>(
        &self,
        slot: usize,
        cell: &CellCorners,
        Ghost(env): Ghost<&P>,
    ) -> (hit: Option<CornerSamples>)
        requires
            self.coherent(env),
            slot < self.bindings().len(),
        ensures
            hit matches Some(samples) ==> samples@ == corner_values(
                &self.bindings()[slot as int],
                env,
                *cell,
            ),
    {
        match self.slots[slot] {
            CacheSlot::Corners { filled, cell: kept, samples } => {
                if filled && kept.low_x == cell.low_x && kept.low_y == cell.low_y && kept.low_z
                    == cell.low_z && kept.high_x == cell.high_x && kept.high_y == cell.high_y
                    && kept.high_z == cell.high_z {
                    Some(samples)
                } else {
                    None
                }
            },
            _ => None,
        }
    }

    /// Lets the slot keep the samples at the corners of a cell.
    pub(crate) fn store_corners<P: Primitives>(
        &mut self,
        slot: usize,
        cell: &CellCorners,
        samples: &CornerSamples,
        Ghost(env): Ghost<&P>,
    )
        requires
            old(self).coherent(env),
            slot < old(self).bindings().len(),
            samples@ == corner_values(&old(self).bindings()[slot as int], env, *cell),
        ensures
            final(self).coherent(env),
            final(self).bindings() == old(self).bindings(),
            final(self).cell_grid() == old(self).cell_grid(),
    {
        match self.slots[slot] {
            CacheSlot::Corners { .. } => {
                self.slots.set(
                    slot,
                    CacheSlot::Corners { filled: true, cell: *cell, samples: *samples },
                );
            },
            _ => {},
        }
    }

    /// Adds a slot for `function` under an annotation of the given kind and
    /// returns its number. A flat cache and a column cache keep values per
    /// column if `function` does not depend on the height; else the flat
    /// cache keeps nothing and the column cache keeps one position. A
    /// once-cache keeps one position, a cell cache one corner of a cell, an
    /// interpolator the eight corners of one cell.
    pub(crate) fn allocate(&mut self, function: &DensityFunction, wrapper: WrapperType) -> (slot: usize)
        requires
            old(self).well_formed(),
        ensures
            final(self).well_formed(),
            final(self).extends(old(self)),
            slot == old(self).bindings().len(),
            final(self).bindings() == old(self).bindings().push(*function),
    {
        let slot: usize = self.slots.len();
        let flat: bool = function.is_column_flat();
        match wrapper {
            WrapperType::CacheFlat => {
                if flat {
                    let table: usize = self.add_table(Ghost(*function));
                    self.slots.push(CacheSlot::Flat { table });
                } else {
                    self.slots.push(CacheSlot::Direct);
                }
            },
            WrapperType::Cache2D => {
                if flat {
                    self.slots.push(CacheSlot::Column { filled: false, x: 0, z: 0, value: 0 });
                } else {
                    self.slots.push(
                        CacheSlot::Position {
                            filled: false,
                            x: 0,
                            y: 0,
                            z: 0,
                            value: 0,
                            corners_only: false,
                        },
                    );
                }
            },
            WrapperType::CacheOnce => {
                self.slots.push(
                    CacheSlot::Position {
                        filled: false,
                        x: 0,
                        y: 0,
                        z: 0,
                        value: 0,
                        corners_only: false,
                    },
                );
            },
            WrapperType::Interpolated => {
                self.slots.push(
                    CacheSlot::Corners {
                        filled: false,
                        cell: CellCorners {
                            low_x: 0,
                            low_y: 0,
                            low_z: 0,
                            high_x: 0,
                            high_y: 0,
                            high_z: 0,
                        },
                        samples: CornerSamples {
                            c000: 0,
                            c100: 0,
                            c010: 0,
                            c110: 0,
                            c001: 0,
                            c101: 0,
                            c011: 0,
                            c111: 0,
                        },
                    },
                );
            },
            WrapperType::CacheCell => {
                self.slots.push(
                    CacheSlot::Position {
                        filled: false,
                        x: 0,
                        y: 0,
                        z: 0,
                        value: 0,
                        corners_only: true,
                    },
                );
            },
        }
        proof {
            self.bound@ = self.bound@.push(*function);
        }
        slot
    }

    /// Adds an empty table for a function that does not depend on the
    /// height, and returns its number.
    fn add_table(&mut self, Ghost(function): Ghost<DensityFunction>) -> (table: usize)
        requires
            old(self).well_formed(),
            function.column_flat(),
        ensures
            final(self).well_formed(),
            final(self).extends(old(self)),
            final(self).slots@ == old(self).slots@,
            final(self).bound@ == old(self).bound@,
            table == old(self).tables@.len(),
            final(self).tables@ == old(self).tables@.push(function),
    {
        let width: usize = self.width as usize;
        assert(width * width <= 1024 * 1024) by (nonlinear_arith)
            requires
                0 < width <= 1024,
        ;
        let area: usize = width * width;
        let before: usize = self.cells.len();
        let ghost tables = self.tables@.len();
        proof {
            self.lemma_table_count();
        }
        let table: usize = before / area;
        let mut i: usize = 0;
        while i < area
            invariant
                i <= area,
                self.cells@.len() == before + i,
                forall|c: int| 0 <= c < before ==> self.cells@[c] == old(self).cells@[c],
                forall|c: int| before <= c < before + i ==> self.cells@[c] is None,
                self.slots@ == old(self).slots@,
                self.bound@ == old(self).bound@,
                self.tables@ == old(self).tables@,
                self.start_x == old(self).start_x,
                self.start_z == old(self).start_z,
                self.width == old(self).width,
                self.cells_of == old(self).cells_of,
            decreases area - i,
        {
            self.cells.push(None);
            i = i + 1;
        }
        proof {
            self.tables@ = self.tables@.push(function);
            assert((tables + 1) * area == tables * area + area) by (nonlinear_arith);
        }
        table
    }

    /// The cells are as many as the tables need.
    proof fn lemma_table_count(&self)
        requires
            self.well_formed(),
        ensures
            self.cells@.len() / (self.area() as nat) == self.tables@.len(),
            self.area() > 0,
    {
        let area = self.area();
        let n = self.tables@.len() as int;
        assert(area > 0) by (nonlinear_arith)
            requires
                area == self.width * self.width,
                self.width > 0,
        ;
        assert((n * area) / area == n) by (nonlinear_arith)
            requires
                area > 0,
        ;
    }
}

} // verus!
