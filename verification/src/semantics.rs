//! What a density function means: its value at a position and its bounds.
use vstd::prelude::*;

use crate::fixed::{
    bounded, divided, greater, lesser, magnitude, minus, plus, quotient, scaled, times, UNIT,
};
use crate::function::{BinaryType, CellGrid, DensityFunction, RarityMapper, UnaryType};
use crate::noise::Primitives;
use crate::position::BlockPos;

verus! {

/// One half.
pub const HALF: i64 = 500_000;

/// One quarter.
pub const QUARTER: i64 = 250_000;

/// Three quarters.
pub const THREE_QUARTERS: i64 = 750_000;

/// The cube of a scalar.
pub open spec fn cubed(v: int) -> int {
    times(times(v, v), v)
}

/// The soft clip: `c / 2 - c^3 / 24`, where `c` is `v` held between -1 and 1.
pub open spec fn squeezed(v: int) -> int {
    let c = bounded(v, -UNIT, UNIT as int);
    quotient(c, 2) - quotient(cubed(c), 24)
}

/// The value of a unary operation on a sampled input.
pub open spec fn unary_value(action: UnaryType, v: int) -> int {
    match action {
        UnaryType::Abs => magnitude(v),
        UnaryType::Square => times(v, v),
        UnaryType::Cube => cubed(v),
        UnaryType::HalfNeg => if v < 0 {
            times(v, HALF as int)
        } else {
            v
        },
        UnaryType::QuartNeg => if v < 0 {
            times(v, QUARTER as int)
        } else {
            v
        },
        UnaryType::Squeeze => squeezed(v),
    }
}

/// The least value of a unary operation on inputs between `lo` and `hi`.
pub open spec fn unary_lower(action: UnaryType, lo: int, hi: int) -> int {
    match action {
        UnaryType::Abs => if lo >= 0 {
            lo
        } else if hi <= 0 {
            magnitude(hi)
        } else {
            0
        },
        UnaryType::Square => if lo >= 0 {
            times(lo, lo)
        } else if hi <= 0 {
            times(hi, hi)
        } else {
            0
        },
        UnaryType::Squeeze => -(HALF as int),
        _ => unary_value(action, lo),
    }
}

/// The greatest value of a unary operation on inputs between `lo` and `hi`.
pub open spec fn unary_upper(action: UnaryType, lo: int, hi: int) -> int {
    match action {
        UnaryType::Abs => greater(magnitude(lo), magnitude(hi)),
        UnaryType::Square => greater(times(lo, lo), times(hi, hi)),
        UnaryType::Squeeze => HALF as int,
        _ => unary_value(action, hi),
    }
}

/// The value of a binary operation on two sampled arguments.
pub open spec fn binary_value(action: BinaryType, a: int, b: int) -> int {
    match action {
        BinaryType::Add => plus(a, b),
        BinaryType::Mul => times(a, b),
        BinaryType::Min => lesser(a, b),
        BinaryType::Max => greater(a, b),
    }
}

/// The least value of a binary operation on arguments within the given
/// bounds. For a product it is the least of the four corner products.
pub open spec fn binary_lower(action: BinaryType, alo: int, ahi: int, blo: int, bhi: int) -> int {
    match action {
        BinaryType::Add => plus(alo, blo),
        BinaryType::Mul => lesser(
            lesser(times(alo, blo), times(alo, bhi)),
            lesser(times(ahi, blo), times(ahi, bhi)),
        ),
        BinaryType::Min => lesser(alo, blo),
        BinaryType::Max => greater(alo, blo),
    }
}

/// The greatest value of a binary operation on arguments within the given
/// bounds. For a product it is the greatest of the four corner products.
pub open spec fn binary_upper(action: BinaryType, alo: int, ahi: int, blo: int, bhi: int) -> int {
    match action {
        BinaryType::Add => plus(ahi, bhi),
        BinaryType::Mul => greater(
            greater(times(alo, blo), times(alo, bhi)),
            greater(times(ahi, blo), times(ahi, bhi)),
        ),
        BinaryType::Min => lesser(ahi, bhi),
        BinaryType::Max => greater(ahi, bhi),
    }
}

/// `slope * v + offset`.
pub open spec fn linear_value(slope: int, offset: int, v: int) -> int {
    plus(times(slope, v), offset)
}

/// The value at height `y` of the line that runs from `from_val` at height
/// `from` to `to_val` at height `to`, held at the nearer end outside.
pub open spec fn clamped_line(y: int, from: int, to: int, from_val: int, to_val: int) -> int {
    let step = if from <= to {
        y - from
    } else {
        from - y
    };
    let span = if from <= to {
        to - from
    } else {
        from - to
    };
    if step <= 0 {
        from_val
    } else if step >= span {
        to_val
    } else {
        from_val + quotient((to_val - from_val) * step, span)
    }
}

/// The scale that a rarity map assigns to a modulator's sample.
pub open spec fn rarity_value(rarity: RarityMapper, v: int) -> int {
    match rarity {
        RarityMapper::Tunnels => if v < -HALF {
            THREE_QUARTERS as int
        } else if v < 0 {
            UNIT as int
        } else if v < HALF {
            UNIT + HALF
        } else {
            2 * UNIT
        },
        RarityMapper::Caves => if v < -THREE_QUARTERS {
            HALF as int
        } else if v < -HALF {
            THREE_QUARTERS as int
        } else if v < HALF {
            UNIT as int
        } else if v < THREE_QUARTERS {
            2 * UNIT
        } else {
            3 * UNIT
        },
    }
}

/// The greatest scale that a rarity map assigns.
pub open spec fn rarity_max(rarity: RarityMapper) -> int {
    match rarity {
        RarityMapper::Tunnels => 2 * UNIT,
        RarityMapper::Caves => 3 * UNIT,
    }
}

/// A block coordinate divided by a positive scale, as a scalar.
pub open spec fn rescaled(blocks: int, scale: int) -> int {
    divided(scaled(blocks, UNIT as int), scale)
}

/// The coordinate at which the cell that holds `coordinate` starts, for cells
/// of the given size counted from `anchor`.
pub open spec fn cell_start(coordinate: int, anchor: int, size: int) -> int {
    anchor + ((coordinate - anchor) / size) * size
}

/// How far `coordinate` lies into the cell that starts at `start`, as a
/// fraction of the cell's size.
pub open spec fn cell_fraction(coordinate: int, start: int, size: int) -> int {
    quotient((coordinate - start) * UNIT, size)
}

/// The value a fraction `t` of the way from `a` to `b`.
pub open spec fn lerp_value(t: int, a: int, b: int) -> int {
    a + quotient((b - a) * t, UNIT as int)
}

/// The densities at the eight corners of a cell. The digits of a name say on
/// which side of the cell the corner lies along the first, the second and the
/// third axis.
pub struct Corners {
    pub c000: int,
    pub c100: int,
    pub c010: int,
    pub c110: int,
    pub c001: int,
    pub c101: int,
    pub c011: int,
    pub c111: int,
}

/// The tri-linear interpolation between the corners of a cell: first along
/// the first axis, then along the second, then along the third.
pub open spec fn trilinear(tx: int, ty: int, tz: int, c: Corners) -> int {
    lerp_value(
        tz,
        lerp_value(ty, lerp_value(tx, c.c000, c.c100), lerp_value(tx, c.c010, c.c110)),
        lerp_value(ty, lerp_value(tx, c.c001, c.c101), lerp_value(tx, c.c011, c.c111)),
    )
}

impl CellGrid {
    /// The lowest corner of the cell that holds `pos`.
    pub open spec fn cell(self, pos: BlockPos) -> BlockPos {
        BlockPos {
            x: cell_start(pos.x, self.start_x as int, self.horizontal as int),
            y: cell_start(pos.y, 0, self.vertical as int),
            z: cell_start(pos.z, self.start_z as int, self.horizontal as int),
        }
    }

    /// The highest corner of the cell that holds `pos`.
    pub open spec fn far_corner(self, pos: BlockPos) -> BlockPos {
        BlockPos {
            x: self.cell(pos).x + self.horizontal,
            y: self.cell(pos).y + self.vertical,
            z: self.cell(pos).z + self.horizontal,
        }
    }

    /// Whether the grid has cells and the cell that holds `pos` lies within
    /// the coordinate range with all its corners.
    pub open spec fn holds(self, pos: BlockPos) -> bool {
        &&& 0 < self.horizontal
        &&& 0 < self.vertical
        &&& i32::MIN <= self.cell(pos).x
        &&& i32::MIN <= self.cell(pos).y
        &&& i32::MIN <= self.cell(pos).z
        &&& self.far_corner(pos).x <= i32::MAX
        &&& self.far_corner(pos).y <= i32::MAX
        &&& self.far_corner(pos).z <= i32::MAX
    }
}

impl DensityFunction {
    /// The density of this function at `pos`, given the primitives.
    pub open spec fn value<P: Primitives>(&self, env: &P, pos: BlockPos) -> int
        decreases self,
    {
        match self {
            DensityFunction::Clamp(f) => bounded(
                f.input.value(env, pos),
                f.min as int,
                f.max as int,
            ),
            DensityFunction::Unary(f) => unary_value(f.action, f.input.value(env, pos)),
            DensityFunction::Noise(f) => env.noise_value(
                &*f.noise,
                scaled(pos.x, f.xz_scale as int),
                scaled(pos.y, f.y_scale as int),
                scaled(pos.z, f.xz_scale as int),
            ),
            DensityFunction::ShiftA(f) => times(
                env.noise_value(
                    &*f.offset,
                    scaled(pos.x, QUARTER as int),
                    0,
                    scaled(pos.z, QUARTER as int),
                ),
                4 * UNIT,
            ),
            DensityFunction::ShiftB(f) => times(
                env.noise_value(
                    &*f.offset,
                    scaled(pos.x, QUARTER as int),
                    scaled(pos.z, QUARTER as int),
                    0,
                ),
                4 * UNIT,
            ),
            DensityFunction::ShiftedNoise(f) => env.noise_value(
                &*f.noise,
                plus(scaled(pos.x, f.xz_scale as int), f.shift_x.value(env, pos)),
                plus(scaled(pos.y, f.y_scale as int), f.shift_y.value(env, pos)),
                plus(scaled(pos.z, f.xz_scale as int), f.shift_z.value(env, pos)),
            ),
            DensityFunction::Spline(f) => env.spline_value(
                f.spline.shape,
                f.spline.amplified,
                f.spline.continents.value(env, pos),
                f.spline.erosion.value(env, pos),
                f.spline.ridges.value(env, pos),
                match f.spline.ridges_folded {
                    Some(folded) => Some(folded.value(env, pos)),
                    None => None,
                },
            ),
            DensityFunction::Constant(f) => f.value as int,
            DensityFunction::Linear(f) => linear_value(
                f.slope as int,
                f.offset as int,
                f.input.value(env, pos),
            ),
            DensityFunction::Binary(f) => binary_value(
                f.action,
                f.arg1.value(env, pos),
                f.arg2.value(env, pos),
            ),
            DensityFunction::BlendOffset(_) => 0,
            DensityFunction::BlendAlpha(_) => UNIT as int,
            DensityFunction::BlendDensity(f) => f.function.value(env, pos),
            DensityFunction::ClampedY(f) => clamped_line(
                pos.y,
                f.from as int,
                f.to as int,
                f.from_val as int,
                f.to_val as int,
            ),
            DensityFunction::InterpolatedNoise(f) => env.interpolated_value(*f, pos.x, pos.y, pos.z),
            DensityFunction::EndIsland(f) => env.end_island_value(f.seed, pos.x, pos.y, pos.z),
            DensityFunction::Wierd(f) => {
                let scale = rarity_value(f.rarity, f.input.value(env, pos));
                times(
                    scale,
                    env.noise_value(
                        &*f.noise,
                        rescaled(pos.x, scale),
                        rescaled(pos.y, scale),
                        rescaled(pos.z, scale),
                    ),
                )
            },
            DensityFunction::Range(f) => {
                let v = f.input.value(env, pos);
                if f.min <= v < f.max {
                    f.in_range.value(env, pos)
                } else {
                    f.out_range.value(env, pos)
                }
            },
            DensityFunction::Wrapper(f) => f.input.value(env, pos),
            DensityFunction::ChunkCacheFlatCache(f) => f.input.value(env, pos),
            DensityFunction::ChunkCacheInterpolator(f) => if f.grid.holds(pos) {
                let low = f.grid.cell(pos);
                let high = f.grid.far_corner(pos);
                let tx = cell_fraction(pos.x, low.x, f.grid.horizontal as int);
                let ty = cell_fraction(pos.y, low.y, f.grid.vertical as int);
                let tz = cell_fraction(pos.z, low.z, f.grid.horizontal as int);
                trilinear(
                    tx,
                    ty,
                    tz,
                    Corners {
                        c000: f.input.value(env, BlockPos { x: low.x, y: low.y, z: low.z }),
                        c100: f.input.value(env, BlockPos { x: high.x, y: low.y, z: low.z }),
                        c010: f.input.value(env, BlockPos { x: low.x, y: high.y, z: low.z }),
                        c110: f.input.value(env, BlockPos { x: high.x, y: high.y, z: low.z }),
                        c001: f.input.value(env, BlockPos { x: low.x, y: low.y, z: high.z }),
                        c101: f.input.value(env, BlockPos { x: high.x, y: low.y, z: high.z }),
                        c011: f.input.value(env, BlockPos { x: low.x, y: high.y, z: high.z }),
                        c111: f.input.value(env, BlockPos { x: high.x, y: high.y, z: high.z }),
                    },
                )
            } else {
                f.input.value(env, pos)
            },
            DensityFunction::ChunkCacheCellCache(f) => f.input.value(env, pos),
            DensityFunction::ChunkCache2DCache(f) => f.input.value(env, pos),
            DensityFunction::ChunkCacheOnceCache(f) => f.input.value(env, pos),
            DensityFunction::ChunkCacheBlendAlpha(_) => UNIT as int,
            DensityFunction::ChunkCacheBlendOffset(_) => 0,
            DensityFunction::Beardifyer(_) => 0,
        }
    }

    /// The static lower bound of this function, given the primitives.
    pub open spec fn lower<P: Primitives>(&self, env: &P) -> int
        decreases self,
    {
        match self {
            DensityFunction::Clamp(f) => lesser(f.min as int, f.max as int),
            DensityFunction::Unary(f) => unary_lower(
                f.action,
                f.input.lower(env),
                f.input.upper(env),
            ),
            DensityFunction::Noise(f) => -env.noise_bound(&*f.noise),
            DensityFunction::ShiftA(f) => times(-env.noise_bound(&*f.offset), 4 * UNIT),
            DensityFunction::ShiftB(f) => times(-env.noise_bound(&*f.offset), 4 * UNIT),
            DensityFunction::ShiftedNoise(f) => -env.noise_bound(&*f.noise),
            DensityFunction::Spline(f) => env.spline_lower(f.spline.shape, f.spline.amplified),
            DensityFunction::Constant(f) => f.value as int,
            DensityFunction::Linear(f) => if f.slope >= 0 {
                linear_value(f.slope as int, f.offset as int, f.input.lower(env))
            } else {
                linear_value(f.slope as int, f.offset as int, f.input.upper(env))
            },
            DensityFunction::Binary(f) => binary_lower(
                f.action,
                f.arg1.lower(env),
                f.arg1.upper(env),
                f.arg2.lower(env),
                f.arg2.upper(env),
            ),
            DensityFunction::BlendOffset(_) => 0,
            DensityFunction::BlendAlpha(_) => UNIT as int,
            DensityFunction::BlendDensity(f) => f.function.lower(env),
            DensityFunction::ClampedY(f) => lesser(f.from_val as int, f.to_val as int),
            DensityFunction::InterpolatedNoise(f) => -env.interpolated_bound(*f),
            DensityFunction::EndIsland(f) => env.end_island_lower(f.seed),
            DensityFunction::Wierd(f) => times(rarity_max(f.rarity), -env.noise_bound(&*f.noise)),
            DensityFunction::Range(f) => lesser(f.in_range.lower(env), f.out_range.lower(env)),
            DensityFunction::Wrapper(f) => f.input.lower(env),
            DensityFunction::ChunkCacheFlatCache(f) => f.input.lower(env),
            DensityFunction::ChunkCacheInterpolator(f) => f.input.lower(env),
            DensityFunction::ChunkCacheCellCache(f) => f.input.lower(env),
            DensityFunction::ChunkCache2DCache(f) => f.input.lower(env),
            DensityFunction::ChunkCacheOnceCache(f) => f.input.lower(env),
            DensityFunction::ChunkCacheBlendAlpha(_) => UNIT as int,
            DensityFunction::ChunkCacheBlendOffset(_) => 0,
            DensityFunction::Beardifyer(_) => 0,
        }
    }

    /// The static upper bound of this function, given the primitives.
    pub open spec fn upper<P: Primitives>(&self, env: &P) -> int
        decreases self,
    {
        match self {
            DensityFunction::Clamp(f) => greater(f.min as int, f.max as int),
            DensityFunction::Unary(f) => unary_upper(
                f.action,
                f.input.lower(env),
                f.input.upper(env),
            ),
            DensityFunction::Noise(f) => env.noise_bound(&*f.noise),
            DensityFunction::ShiftA(f) => times(env.noise_bound(&*f.offset), 4 * UNIT),
            DensityFunction::ShiftB(f) => times(env.noise_bound(&*f.offset), 4 * UNIT),
            DensityFunction::ShiftedNoise(f) => env.noise_bound(&*f.noise),
            DensityFunction::Spline(f) => env.spline_upper(f.spline.shape, f.spline.amplified),
            DensityFunction::Constant(f) => f.value as int,
            DensityFunction::Linear(f) => if f.slope >= 0 {
                linear_value(f.slope as int, f.offset as int, f.input.upper(env))
            } else {
                linear_value(f.slope as int, f.offset as int, f.input.lower(env))
            },
            DensityFunction::Binary(f) => binary_upper(
                f.action,
                f.arg1.lower(env),
                f.arg1.upper(env),
                f.arg2.lower(env),
                f.arg2.upper(env),
            ),
            DensityFunction::BlendOffset(_) => 0,
            DensityFunction::BlendAlpha(_) => UNIT as int,
            DensityFunction::BlendDensity(f) => f.function.upper(env),
            DensityFunction::ClampedY(f) => greater(f.from_val as int, f.to_val as int),
            DensityFunction::InterpolatedNoise(f) => env.interpolated_bound(*f),
            DensityFunction::EndIsland(f) => env.end_island_upper(f.seed),
            DensityFunction::Wierd(f) => times(rarity_max(f.rarity), env.noise_bound(&*f.noise)),
            DensityFunction::Range(f) => greater(f.in_range.upper(env), f.out_range.upper(env)),
            DensityFunction::Wrapper(f) => f.input.upper(env),
            DensityFunction::ChunkCacheFlatCache(f) => f.input.upper(env),
            DensityFunction::ChunkCacheInterpolator(f) => f.input.upper(env),
            DensityFunction::ChunkCacheCellCache(f) => f.input.upper(env),
            DensityFunction::ChunkCache2DCache(f) => f.input.upper(env),
            DensityFunction::ChunkCacheOnceCache(f) => f.input.upper(env),
            DensityFunction::ChunkCacheBlendAlpha(_) => UNIT as int,
            DensityFunction::ChunkCacheBlendOffset(_) => 0,
            DensityFunction::Beardifyer(_) => 0,
        }
    }
}

} // verus!
