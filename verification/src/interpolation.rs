//! Interpolating a function between the corners of a cell.
use vstd::prelude::*;

use crate::fixed::{greater, lemma_quotient_exact, lesser, quotient, UNIT};
use crate::function::{CellGrid, InterpolatorDensityFunctionWrapper};
use crate::noise::Primitives;
use crate::position::{BlockPos, NoisePos, NoisePosImpl, UnblendedNoisePos};
use crate::sample::lemma_proportion;
use crate::semantics::{cell_fraction, cell_start, lerp_value, trilinear, Corners};
use crate::function::DensityFunction;

verus! {

/// The largest number of blocks along one edge of a cell of a grid.
pub const MAX_GRID_CELL: i32 = 1024;

/// The densities sampled at the eight corners of a cell.
#[derive(Clone, Copy, Debug, PartialEq, Eq)]
pub struct CornerSamples {
    pub c000: i64,
    pub c100: i64,
    pub c010: i64,
    pub c110: i64,
    pub c001: i64,
    pub c101: i64,
    pub c011: i64,
    pub c111: i64,
}

impl CornerSamples {
    /// The samples as mathematical integers.
    pub open spec fn view(self) -> Corners {
        Corners {
            c000: self.c000 as int,
            c100: self.c100 as int,
            c010: self.c010 as int,
            c110: self.c110 as int,
            c001: self.c001 as int,
            c101: self.c101 as int,
            c011: self.c011 as int,
            c111: self.c111 as int,
        }
    }
}

/// The two opposite corners of a cell.
#[derive(Clone, Copy, Debug, PartialEq, Eq)]
pub struct CellCorners {
    pub low_x: i32,
    pub low_y: i32,
    pub low_z: i32,
    pub high_x: i32,
    pub high_y: i32,
    pub high_z: i32,
}

/// A value between two others lies between any bounds of the two.
pub proof fn lemma_lerp_between(t: int, a: int, b: int)
    requires
        0 <= t <= UNIT,
    ensures
        lesser(a, b) <= lerp_value(t, a, b) <= greater(a, b),
        t == 0 ==> lerp_value(t, a, b) == a,
        t == UNIT ==> lerp_value(t, a, b) == b,
{
    if t == 0 {
        assert((b - a) * 0 == 0) by (nonlinear_arith);
    } else if t == UNIT {
        lemma_quotient_exact(b - a, UNIT as int);
    } else {
        lemma_proportion(b - a, t, UNIT as int);
    }
}

/// An interpolation between eight corners lies between any bounds of the
/// eight.
pub proof fn lemma_trilinear_between(tx: int, ty: int, tz: int, c: Corners, lo: int, hi: int)
    requires
        0 <= tx <= UNIT,
        0 <= ty <= UNIT,
        0 <= tz <= UNIT,
        lo <= c.c000 <= hi,
        lo <= c.c100 <= hi,
        lo <= c.c010 <= hi,
        lo <= c.c110 <= hi,
        lo <= c.c001 <= hi,
        lo <= c.c101 <= hi,
        lo <= c.c011 <= hi,
        lo <= c.c111 <= hi,
    ensures
        lo <= trilinear(tx, ty, tz, c) <= hi,
{
    let x00 = lerp_value(tx, c.c000, c.c100);
    let x10 = lerp_value(tx, c.c010, c.c110);
    let x01 = lerp_value(tx, c.c001, c.c101);
    let x11 = lerp_value(tx, c.c011, c.c111);
    lemma_lerp_between(tx, c.c000, c.c100);
    lemma_lerp_between(tx, c.c010, c.c110);
    lemma_lerp_between(tx, c.c001, c.c101);
    lemma_lerp_between(tx, c.c011, c.c111);
    let y0 = lerp_value(ty, x00, x10);
    let y1 = lerp_value(ty, x01, x11);
    lemma_lerp_between(ty, x00, x10);
    lemma_lerp_between(ty, x01, x11);
    lemma_lerp_between(tz, y0, y1);
}

/// A cell starts at or below each of its coordinates, less than its size
/// below.
pub proof fn lemma_cell_start(coordinate: int, anchor: int, size: int)
    requires
        0 < size,
    ensures
        cell_start(coordinate, anchor, size) <= coordinate < cell_start(coordinate, anchor, size)
            + size,
        0 <= cell_fraction(coordinate, cell_start(coordinate, anchor, size), size) < UNIT,
        coordinate == cell_start(coordinate, anchor, size) ==> cell_fraction(
            coordinate,
            cell_start(coordinate, anchor, size),
            size,
        ) == 0,
{
    let d = coordinate - anchor;
    vstd::arithmetic::div_mod::lemma_fundamental_div_mod(d, size);
    vstd::arithmetic::div_mod::lemma_mod_bound(d, size);
    assert((d / size) * size == size * (d / size)) by (nonlinear_arith);
    let step = coordinate - cell_start(coordinate, anchor, size);
    assert(0 <= step < size);
    assert(0 <= step * UNIT < size * UNIT) by (nonlinear_arith)
        requires
            0 <= step < size,
    ;
    assert((step * UNIT) / size < UNIT) by (nonlinear_arith)
        requires
            0 <= step * UNIT < size * UNIT,
            0 < size,
    ;
    assert(0 <= (step * UNIT) / size) by (nonlinear_arith)
        requires
            0 <= step * UNIT,
            0 < size,
    ;
    if step == 0 {
        assert((0 * UNIT) / size == 0) by (nonlinear_arith)
            requires
                0 < size,
        ;
    }
}

/// The value a fraction `t` of the way from `a` to `b`.
pub fn lerp(t: i64, a: i64, b: i64) -> (r: i64)
    requires
        0 <= t <= UNIT,
    ensures
        r == lerp_value(t as int, a as int, b as int),
{
    proof {
        lemma_lerp_between(t as int, a as int, b as int);
    }
    let delta: i128 = b as i128 - a as i128;
    assert(-0x1_0000_0000_0000_0000 * 1_000_000 <= delta * t <= 0x1_0000_0000_0000_0000
        * 1_000_000) by (nonlinear_arith)
        requires
            -0x1_0000_0000_0000_0000 <= delta <= 0x1_0000_0000_0000_0000,
            0 <= t <= 1_000_000,
    ;
    let part: i128 = (delta * (t as i128)) / (UNIT as i128);
    (a as i128 + part) as i64
}

/// The tri-linear interpolation between the corners of a cell.
pub fn lerp3(tx: i64, ty: i64, tz: i64, c: &CornerSamples) -> (r: i64)
    requires
        0 <= tx <= UNIT,
        0 <= ty <= UNIT,
        0 <= tz <= UNIT,
    ensures
        r == trilinear(tx as int, ty as int, tz as int, c@),
{
    lerp(
        tz,
        lerp(ty, lerp(tx, c.c000, c.c100), lerp(tx, c.c010, c.c110)),
        lerp(ty, lerp(tx, c.c001, c.c101), lerp(tx, c.c011, c.c111)),
    )
}

/// The coordinate at which the cell that holds `coordinate` starts.
pub fn cell_origin(coordinate: i32, anchor: i32, size: i32) -> (start: i64)
    requires
        0 < size,
    ensures
        start == cell_start(coordinate as int, anchor as int, size as int),
{
    let d: i64 = coordinate as i64 - anchor as i64;
    let wide: i64 = size as i64;
    let mut below: i64 = 0;
    if d >= 0 {
        below = d / wide;
        proof {
            vstd::arithmetic::div_mod::lemma_fundamental_div_mod(d as int, wide as int);
            vstd::arithmetic::div_mod::lemma_mod_bound(d as int, wide as int);
            assert(below * wide == wide * below) by (nonlinear_arith);
            assert(0 <= d - below * wide < wide);
        }
    } else {
        let m: i64 = -d;
        let q: i64 = m / wide;
        let r: i64 = m % wide;
        proof {
            vstd::arithmetic::div_mod::lemma_fundamental_div_mod(m as int, wide as int);
            vstd::arithmetic::div_mod::lemma_mod_bound(m as int, wide as int);
            assert(0 <= q <= m) by (nonlinear_arith)
                requires
                    m == wide * q + r,
                    0 <= r < wide,
                    m > 0,
                    wide > 0,
            ;
        }
        if r == 0 {
            below = -q;
        } else {
            below = -q - 1;
        }
        proof {
            assert(0 <= d - below * wide < wide) by (nonlinear_arith)
                requires
                    -d == wide * q + r,
                    0 <= r < wide,
                    (r == 0 ==> below == -q) && (r != 0 ==> below == -q - 1),
            ;
        }
    }
    proof {
        let rest = d - below * wide;
        assert(d == wide * below + rest) by (nonlinear_arith)
            requires
                rest == d - below * wide,
        ;
        vstd::arithmetic::div_mod::lemma_fundamental_div_mod_converse(
            d as int,
            wide as int,
            below as int,
            rest as int,
        );
        assert(-0x2_0000_0000 <= below * wide <= 0x1_0000_0000);
    }
    anchor as i64 + below * wide
}

/// How far `coordinate` lies into the cell that starts at `start`.
pub fn fraction(coordinate: i32, start: i32, size: i32) -> (t: i64)
    requires
        0 < size,
        start <= coordinate < start + size,
    ensures
        t == cell_fraction(coordinate as int, start as int, size as int),
        0 <= t < UNIT,
{
    let step: i64 = coordinate as i64 - start as i64;
    assert(0 <= step * UNIT < size * UNIT) by (nonlinear_arith)
        requires
            0 <= step < size,
    ;
    assert((step * UNIT) / (size as int) < UNIT) by (nonlinear_arith)
        requires
            0 <= step * UNIT < size * UNIT,
            0 < size,
    ;
    assert(0 <= (step * UNIT) / (size as int)) by (nonlinear_arith)
        requires
            0 <= step * UNIT,
            0 < size,
    ;
    (step * UNIT) / (size as i64)
}

impl CellGrid {
    /// The two opposite corners of the cell that holds `pos`, if the grid
    /// has cells and that cell lies within the coordinate range.
    pub fn corners(&self, pos: &NoisePos) -> (corners: Option<CellCorners>)
        ensures
            corners.is_some() == self.holds(pos.block()),
            corners matches Some(c) ==> {
                &&& self.cell(pos.block()) == (BlockPos {
                    x: c.low_x as int,
                    y: c.low_y as int,
                    z: c.low_z as int,
                })
                &&& self.far_corner(pos.block()) == (BlockPos {
                    x: c.high_x as int,
                    y: c.high_y as int,
                    z: c.high_z as int,
                })
            },
    {
        if self.horizontal <= 0 || self.vertical <= 0 {
            return None;
        }
        let x: i64 = cell_origin(pos.x(), self.start_x, self.horizontal);
        let y: i64 = cell_origin(pos.y(), 0, self.vertical);
        let z: i64 = cell_origin(pos.z(), self.start_z, self.horizontal);
        proof {
            lemma_cell_start(pos.block().x, self.start_x as int, self.horizontal as int);
            lemma_cell_start(pos.block().y, 0, self.vertical as int);
            lemma_cell_start(pos.block().z, self.start_z as int, self.horizontal as int);
        }
        if x < i32::MIN as i64 || y < i32::MIN as i64 || z < i32::MIN as i64 {
            return None;
        }
        let high_x: i64 = x + self.horizontal as i64;
        let high_y: i64 = y + self.vertical as i64;
        let high_z: i64 = z + self.horizontal as i64;
        if high_x > i32::MAX as i64 || high_y > i32::MAX as i64 || high_z > i32::MAX as i64 {
            return None;
        }
        Some(
            CellCorners {
                low_x: x as i32,
                low_y: y as i32,
                low_z: z as i32,
                high_x: high_x as i32,
                high_y: high_y as i32,
                high_z: high_z as i32,
            },
        )
    }
}

/// A free-standing position.
pub fn corner(x: i32, y: i32, z: i32) -> (pos: NoisePos)
    ensures
        pos.block() == (BlockPos { x: x as int, y: y as int, z: z as int }),
{
    NoisePos::Unblended(UnblendedNoisePos::new(x, y, z))
}

/// The values of a function at the eight corners of a cell.
pub open spec fn corner_values<P: Primitives>(
    function: &DensityFunction,
    env: &P,
    c: CellCorners,
) -> Corners {
    Corners {
        c000: function.value(env, corner_block(c.low_x, c.low_y, c.low_z)),
        c100: function.value(env, corner_block(c.high_x, c.low_y, c.low_z)),
        c010: function.value(env, corner_block(c.low_x, c.high_y, c.low_z)),
        c110: function.value(env, corner_block(c.high_x, c.high_y, c.low_z)),
        c001: function.value(env, corner_block(c.low_x, c.low_y, c.high_z)),
        c101: function.value(env, corner_block(c.high_x, c.low_y, c.high_z)),
        c011: function.value(env, corner_block(c.low_x, c.high_y, c.high_z)),
        c111: function.value(env, corner_block(c.high_x, c.high_y, c.high_z)),
    }
}

impl InterpolatorDensityFunctionWrapper {
    /// The input at the eight corners of a cell.
    pub fn sample_corners<P: Primitives>(&self, c: &CellCorners, env: &P) -> (samples: CornerSamples)
        ensures
            samples@ == corner_values(&*self.input, env, *c),
        decreases self, 0nat,
    {
        CornerSamples {
            c000: self.input.sample(&corner(c.low_x, c.low_y, c.low_z), env),
            c100: self.input.sample(&corner(c.high_x, c.low_y, c.low_z), env),
            c010: self.input.sample(&corner(c.low_x, c.high_y, c.low_z), env),
            c110: self.input.sample(&corner(c.high_x, c.high_y, c.low_z), env),
            c001: self.input.sample(&corner(c.low_x, c.low_y, c.high_z), env),
            c101: self.input.sample(&corner(c.high_x, c.low_y, c.high_z), env),
            c011: self.input.sample(&corner(c.low_x, c.high_y, c.high_z), env),
            c111: self.input.sample(&corner(c.high_x, c.high_y, c.high_z), env),
        }
    }

    /// The interpolation between samples taken at the corners of the cell
    /// that holds `pos`.
    pub fn interpolate(&self, pos: &NoisePos, c: &CellCorners, samples: &CornerSamples) -> (r: i64)
        requires
            self.grid.holds(pos.block()),
            self.grid.cell(pos.block()) == corner_block(c.low_x, c.low_y, c.low_z),
            self.grid.far_corner(pos.block()) == corner_block(c.high_x, c.high_y, c.high_z),
        ensures
            r == trilinear(
                cell_fraction(pos.block().x, c.low_x as int, self.grid.horizontal as int),
                cell_fraction(pos.block().y, c.low_y as int, self.grid.vertical as int),
                cell_fraction(pos.block().z, c.low_z as int, self.grid.horizontal as int),
                samples@,
            ),
    {
        proof {
            lemma_cell_start(pos.block().x, self.grid.start_x as int, self.grid.horizontal as int);
            lemma_cell_start(pos.block().y, 0, self.grid.vertical as int);
            lemma_cell_start(pos.block().z, self.grid.start_z as int, self.grid.horizontal as int);
        }
        let tx: i64 = fraction(pos.x(), c.low_x, self.grid.horizontal);
        let ty: i64 = fraction(pos.y(), c.low_y, self.grid.vertical);
        let tz: i64 = fraction(pos.z(), c.low_z, self.grid.horizontal);
        lerp3(tx, ty, tz, samples)
    }

    /// The input interpolated between the corners of the cell that holds
    /// `pos`; the input itself where the grid has no such cell.
    pub fn sample<P: Primitives>(&self, pos: &NoisePos, env: &P) -> (r: i64)
        ensures
            r == DensityFunction::ChunkCacheInterpolator(*self).value(env, pos.block()),
        decreases self, 1nat,
    {
        match self.grid.corners(pos) {
            Some(c) => {
                let samples = self.sample_corners(&c, env);
                self.interpolate(pos, &c, &samples)
            },
            None => self.input.sample(pos, env),
        }
    }
}

/// The block with the given coordinates.
pub open spec fn corner_block(x: i32, y: i32, z: i32) -> BlockPos {
    BlockPos { x: x as int, y: y as int, z: z as int }
}

} // verus!
