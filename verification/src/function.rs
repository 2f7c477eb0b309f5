//! The node kinds of a density-function graph.
//!
//! A graph is built once and never changed. Nodes refer to their children
//! through shared handles, so a sub-graph may stand below many parents.
use std::sync::Arc;
use vstd::prelude::*;

use crate::handle::share;
use crate::noise::{InternalNoise, InterpolatedNoiseSampler, SplineShape};

verus! {

/// The unary operations.
#[derive(Clone, Copy, Debug, PartialEq, Eq, Structural)]
pub enum UnaryType {
    Abs,
    Square,
    Cube,
    HalfNeg,
    QuartNeg,
    Squeeze,
}

/// The binary operations.
#[derive(Clone, Copy, Debug, PartialEq, Eq, Structural)]
pub enum BinaryType {
    Add,
    Mul,
    Min,
    Max,
}

/// The two maps from a modulator's sample to the scale of a weird noise.
#[derive(Clone, Copy, Debug, PartialEq, Eq, Structural)]
pub enum RarityMapper {
    Tunnels,
    Caves,
}

/// The caching annotations a wrapper node can carry.
#[derive(Clone, Copy, Debug, PartialEq, Eq, Structural)]
pub enum WrapperType {
    Cache2D,
    CacheFlat,
    CacheOnce,
    Interpolated,
    CacheCell,
}

/// A density function: one node of the graph together with all below it.
#[derive(Debug, PartialEq, Eq)]
pub enum DensityFunction {
    Clamp(ClampFunction),
    Unary(UnaryFunction),
    Noise(NoiseFunction),
    ShiftA(ShiftAFunction),
    ShiftB(ShiftBFunction),
    ShiftedNoise(ShiftedNoiseFunction),
    Spline(SplineFunction),
    Constant(ConstantFunction),
    Linear(LinearFunction),
    Binary(BinaryFunction),
    BlendOffset(BlendOffsetFunction),
    BlendAlpha(BlendAlphaFunction),
    BlendDensity(BlendDensityFunction),
    ClampedY(YClampedFunction),
    InterpolatedNoise(InterpolatedNoiseSampler),
    EndIsland(EndIslandFunction),
    Wierd(WierdScaledFunction),
    Range(RangeFunction),
    Wrapper(WrapperFunction),
    ChunkCacheFlatCache(FlatCacheDensityFunction),
    ChunkCacheInterpolator(InterpolatorDensityFunctionWrapper),
    ChunkCacheBlendAlpha(BlendAlphaDensityFunction),
    ChunkCacheBlendOffset(BlendOffsetDensityFunction),
    ChunkCacheCellCache(CellCacheDensityFunctionWrapper),
    ChunkCache2DCache(Cache2DDensityFunction),
    ChunkCacheOnceCache(CacheOnceDensityFunction),
    Beardifyer(BeardifyerFunction),
}

/// The input held between two limits.
#[derive(Debug, PartialEq, Eq)]
pub struct ClampFunction {
    pub input: Arc<DensityFunction>,
    pub min: i64,
    pub max: i64,
}

/// A unary operation applied to the input.
#[derive(Debug, PartialEq, Eq)]
pub struct UnaryFunction {
    pub action: UnaryType,
    pub input: Arc<DensityFunction>,
}

/// A noise sampled at the scaled position.
#[derive(Debug, PartialEq, Eq)]
pub struct NoiseFunction {
    pub noise: Arc<InternalNoise>,
    pub xz_scale: i64,
    pub y_scale: i64,
}

/// The horizontal offset lookup along the first axis.
#[derive(Debug, PartialEq, Eq)]
pub struct ShiftAFunction {
    pub offset: Arc<InternalNoise>,
}

/// The horizontal offset lookup along the second axis.
#[derive(Debug, PartialEq, Eq)]
pub struct ShiftBFunction {
    pub offset: Arc<InternalNoise>,
}

/// A noise sampled at the scaled position moved by three sampled shifts.
#[derive(Debug, PartialEq, Eq)]
pub struct ShiftedNoiseFunction {
    pub shift_x: Arc<DensityFunction>,
    pub shift_y: Arc<DensityFunction>,
    pub shift_z: Arc<DensityFunction>,
    pub xz_scale: i64,
    pub y_scale: i64,
    pub noise: Arc<InternalNoise>,
}

/// A terrain spline over the sampled values of its coordinate functions.
#[derive(Debug, PartialEq, Eq)]
pub struct Spline {
    pub shape: SplineShape,
    pub amplified: bool,
    pub continents: Arc<DensityFunction>,
    pub erosion: Arc<DensityFunction>,
    pub ridges: Arc<DensityFunction>,
    pub ridges_folded: Option<Arc<DensityFunction>>,
}

/// The value of an embedded spline.
#[derive(Debug, PartialEq, Eq)]
pub struct SplineFunction {
    pub spline: Arc<Spline>,
}

/// The same value everywhere.
#[derive(Clone, Copy, Debug, PartialEq, Eq)]
pub struct ConstantFunction {
    pub value: i64,
}

/// `slope * input + offset`: what adding and multiplying constants into a
/// function leaves behind.
#[derive(Debug, PartialEq, Eq)]
pub struct LinearFunction {
    pub slope: i64,
    pub offset: i64,
    pub input: Arc<DensityFunction>,
}

/// A binary operation applied to two arguments.
#[derive(Debug, PartialEq, Eq)]
pub struct BinaryFunction {
    pub action: BinaryType,
    pub arg1: Arc<DensityFunction>,
    pub arg2: Arc<DensityFunction>,
}

/// The height offset that the blender adds at a position.
#[derive(Clone, Copy, Debug, PartialEq, Eq)]
pub struct BlendOffsetFunction {}

/// The share of the new terrain that the blender grants at a position.
#[derive(Clone, Copy, Debug, PartialEq, Eq)]
pub struct BlendAlphaFunction {}

/// The input after the blender has mixed it with the neighbouring chunks.
#[derive(Debug, PartialEq, Eq)]
pub struct BlendDensityFunction {
    pub function: Arc<DensityFunction>,
}

/// A value that runs linearly from `from_val` at height `from` to `to_val`
/// at height `to` and stays at the nearer end outside.
#[derive(Clone, Copy, Debug, PartialEq, Eq)]
pub struct YClampedFunction {
    pub from: i32,
    pub to: i32,
    pub from_val: i64,
    pub to_val: i64,
}

/// The island mask of the end dimension.
#[derive(Clone, Copy, Debug, PartialEq, Eq)]
pub struct EndIslandFunction {
    pub seed: u64,
}

/// A noise sampled at a position that a modulator rescales.
#[derive(Debug, PartialEq, Eq)]
pub struct WierdScaledFunction {
    pub input: Arc<DensityFunction>,
    pub noise: Arc<InternalNoise>,
    pub rarity: RarityMapper,
}

/// One of two functions, chosen by whether the input lies in `min..max`.
#[derive(Debug, PartialEq, Eq)]
pub struct RangeFunction {
    pub input: Arc<DensityFunction>,
    pub min: i64,
    pub max: i64,
    pub in_range: Arc<DensityFunction>,
    pub out_range: Arc<DensityFunction>,
}

/// The input under a caching annotation.
#[derive(Debug, PartialEq, Eq)]
pub struct WrapperFunction {
    pub input: Arc<DensityFunction>,
    pub wrapper: WrapperType,
}

/// A flat cache bound to a chunk: one memo per column of the chunk, kept in
/// the named slot of the chunk's caches.
#[derive(Debug, PartialEq, Eq)]
pub struct FlatCacheDensityFunction {
    pub input: Arc<DensityFunction>,
    pub slot: usize,
}

/// The grid of cells that a chunk is cut into. Cells are `horizontal` blocks
/// wide and deep and `vertical` blocks high; columns of cells start at
/// `start_x` and `start_z`, layers of cells at height zero.
#[derive(Clone, Copy, Debug, PartialEq, Eq)]
pub struct CellGrid {
    pub start_x: i32,
    pub start_z: i32,
    pub horizontal: i32,
    pub vertical: i32,
}

/// An interpolator bound to a chunk: the input sampled at the eight corners
/// of a cell and interpolated between them.
#[derive(Debug, PartialEq, Eq)]
pub struct InterpolatorDensityFunctionWrapper {
    pub input: Arc<DensityFunction>,
    pub slot: usize,
    pub grid: CellGrid,
}

/// The blend alpha bound to a chunk.
#[derive(Clone, Copy, Debug, PartialEq, Eq)]
pub struct BlendAlphaDensityFunction {}

/// The blend offset bound to a chunk.
#[derive(Clone, Copy, Debug, PartialEq, Eq)]
pub struct BlendOffsetDensityFunction {}

/// A cell cache bound to a chunk.
#[derive(Debug, PartialEq, Eq)]
pub struct CellCacheDensityFunctionWrapper {
    pub input: Arc<DensityFunction>,
    pub slot: usize,
}

/// A column cache bound to a chunk: a memo of the column sampled last, kept
/// in the named slot of the chunk's caches.
#[derive(Debug, PartialEq, Eq)]
pub struct Cache2DDensityFunction {
    pub input: Arc<DensityFunction>,
    pub slot: usize,
}

/// A once-cache bound to a chunk: a memo of the position sampled last, kept
/// in the named slot of the chunk's caches.
#[derive(Debug, PartialEq, Eq)]
pub struct CacheOnceDensityFunction {
    pub input: Arc<DensityFunction>,
    pub slot: usize,
}

/// The hook at which structures will add to the terrain; zero for now.
#[derive(Clone, Copy, Debug, PartialEq, Eq)]
pub struct BeardifyerFunction {}

impl Clone for ClampFunction {
    fn clone(&self) -> (copy: Self)
        ensures
            copy == *self,
    {
        Self { input: share(&self.input), min: self.min, max: self.max }
    }
}

impl Clone for UnaryFunction {
    fn clone(&self) -> (copy: Self)
        ensures
            copy == *self,
    {
        Self { action: self.action, input: share(&self.input) }
    }
}

impl Clone for NoiseFunction {
    fn clone(&self) -> (copy: Self)
        ensures
            copy == *self,
    {
        Self { noise: share(&self.noise), xz_scale: self.xz_scale, y_scale: self.y_scale }
    }
}

impl Clone for ShiftAFunction {
    fn clone(&self) -> (copy: Self)
        ensures
            copy == *self,
    {
        Self { offset: share(&self.offset) }
    }
}

impl Clone for ShiftBFunction {
    fn clone(&self) -> (copy: Self)
        ensures
            copy == *self,
    {
        Self { offset: share(&self.offset) }
    }
}

impl Clone for ShiftedNoiseFunction {
    fn clone(&self) -> (copy: Self)
        ensures
            copy == *self,
    {
        Self {
            shift_x: share(&self.shift_x),
            shift_y: share(&self.shift_y),
            shift_z: share(&self.shift_z),
            xz_scale: self.xz_scale,
            y_scale: self.y_scale,
            noise: share(&self.noise),
        }
    }
}

impl Clone for SplineFunction {
    fn clone(&self) -> (copy: Self)
        ensures
            copy == *self,
    {
        Self { spline: share(&self.spline) }
    }
}

impl Clone for LinearFunction {
    fn clone(&self) -> (copy: Self)
        ensures
            copy == *self,
    {
        Self { slope: self.slope, offset: self.offset, input: share(&self.input) }
    }
}

impl Clone for BinaryFunction {
    fn clone(&self) -> (copy: Self)
        ensures
            copy == *self,
    {
        Self { action: self.action, arg1: share(&self.arg1), arg2: share(&self.arg2) }
    }
}

impl Clone for BlendDensityFunction {
    fn clone(&self) -> (copy: Self)
        ensures
            copy == *self,
    {
        Self { function: share(&self.function) }
    }
}

impl Clone for WierdScaledFunction {
    fn clone(&self) -> (copy: Self)
        ensures
            copy == *self,
    {
        Self { input: share(&self.input), noise: share(&self.noise), rarity: self.rarity }
    }
}

impl Clone for RangeFunction {
    fn clone(&self) -> (copy: Self)
        ensures
            copy == *self,
    {
        Self {
            input: share(&self.input),
            min: self.min,
            max: self.max,
            in_range: share(&self.in_range),
            out_range: share(&self.out_range),
        }
    }
}

impl Clone for WrapperFunction {
    fn clone(&self) -> (copy: Self)
        ensures
            copy == *self,
    {
        Self { input: share(&self.input), wrapper: self.wrapper }
    }
}

impl Clone for FlatCacheDensityFunction {
    fn clone(&self) -> (copy: Self)
        ensures
            copy == *self,
    {
        Self { input: share(&self.input), slot: self.slot }
    }
}

impl Clone for InterpolatorDensityFunctionWrapper {
    fn clone(&self) -> (copy: Self)
        ensures
            copy == *self,
    {
        Self { input: share(&self.input), slot: self.slot, grid: self.grid }
    }
}

impl Clone for CellCacheDensityFunctionWrapper {
    fn clone(&self) -> (copy: Self)
        ensures
            copy == *self,
    {
        Self { input: share(&self.input), slot: self.slot }
    }
}

impl Clone for Cache2DDensityFunction {
    fn clone(&self) -> (copy: Self)
        ensures
            copy == *self,
    {
        Self { input: share(&self.input), slot: self.slot }
    }
}

impl Clone for CacheOnceDensityFunction {
    fn clone(&self) -> (copy: Self)
        ensures
            copy == *self,
    {
        Self { input: share(&self.input), slot: self.slot }
    }
}

impl Clone for DensityFunction {
    /// A node equal to this one that shares its children.
    fn clone(&self) -> (copy: Self)
        ensures
            copy == *self,
    {
        match self {
            DensityFunction::Clamp(f) => DensityFunction::Clamp(f.clone()),
            DensityFunction::Unary(f) => DensityFunction::Unary(f.clone()),
            DensityFunction::Noise(f) => DensityFunction::Noise(f.clone()),
            DensityFunction::ShiftA(f) => DensityFunction::ShiftA(f.clone()),
            DensityFunction::ShiftB(f) => DensityFunction::ShiftB(f.clone()),
            DensityFunction::ShiftedNoise(f) => DensityFunction::ShiftedNoise(f.clone()),
            DensityFunction::Spline(f) => DensityFunction::Spline(f.clone()),
            DensityFunction::Constant(f) => DensityFunction::Constant(*f),
            DensityFunction::Linear(f) => DensityFunction::Linear(f.clone()),
            DensityFunction::Binary(f) => DensityFunction::Binary(f.clone()),
            DensityFunction::BlendOffset(f) => DensityFunction::BlendOffset(*f),
            DensityFunction::BlendAlpha(f) => DensityFunction::BlendAlpha(*f),
            DensityFunction::BlendDensity(f) => DensityFunction::BlendDensity(f.clone()),
            DensityFunction::ClampedY(f) => DensityFunction::ClampedY(*f),
            DensityFunction::InterpolatedNoise(f) => DensityFunction::InterpolatedNoise(*f),
            DensityFunction::EndIsland(f) => DensityFunction::EndIsland(*f),
            DensityFunction::Wierd(f) => DensityFunction::Wierd(f.clone()),
            DensityFunction::Range(f) => DensityFunction::Range(f.clone()),
            DensityFunction::Wrapper(f) => DensityFunction::Wrapper(f.clone()),
            DensityFunction::ChunkCacheFlatCache(f) => DensityFunction::ChunkCacheFlatCache(
                f.clone(),
            ),
            DensityFunction::ChunkCacheInterpolator(f) => DensityFunction::ChunkCacheInterpolator(
                f.clone(),
            ),
            DensityFunction::ChunkCacheBlendAlpha(f) => DensityFunction::ChunkCacheBlendAlpha(*f),
            DensityFunction::ChunkCacheBlendOffset(f) => DensityFunction::ChunkCacheBlendOffset(*f),
            DensityFunction::ChunkCacheCellCache(f) => DensityFunction::ChunkCacheCellCache(
                f.clone(),
            ),
            DensityFunction::ChunkCache2DCache(f) => DensityFunction::ChunkCache2DCache(f.clone()),
            DensityFunction::ChunkCacheOnceCache(f) => DensityFunction::ChunkCacheOnceCache(
                f.clone(),
            ),
            DensityFunction::Beardifyer(f) => DensityFunction::Beardifyer(*f),
        }
    }
}

impl ConstantFunction {
    pub fn new(value: i64) -> (function: Self)
        ensures
            function == (ConstantFunction { value }),
    {
        ConstantFunction { value }
    }
}

impl WrapperFunction {
    pub fn new(input: Arc<DensityFunction>, wrapper: WrapperType) -> (function: Self)
        ensures
            function == (WrapperFunction { input, wrapper }),
    {
        Self { input, wrapper }
    }

    /// The function under the annotation.
    pub fn wrapped(&self) -> (input: Arc<DensityFunction>)
        ensures
            input == self.input,
    {
        share(&self.input)
    }

    /// The annotation.
    pub fn wrapper(&self) -> (wrapper: WrapperType)
        ensures
            wrapper == self.wrapper,
    {
        self.wrapper
    }
}

impl RangeFunction {
    pub fn new(
        input: Arc<DensityFunction>,
        min: i64,
        max: i64,
        in_range: Arc<DensityFunction>,
        out_range: Arc<DensityFunction>,
    ) -> (function: Self)
        ensures
            function == (RangeFunction { input, min, max, in_range, out_range }),
    {
        Self { input, min, max, in_range, out_range }
    }
}

impl YClampedFunction {
    pub fn new(from: i32, to: i32, from_val: i64, to_val: i64) -> (function: Self)
        ensures
            function == (YClampedFunction { from, to, from_val, to_val }),
    {
        Self { from, to, from_val, to_val }
    }
}

impl NoiseFunction {
    pub fn new(noise: Arc<InternalNoise>, xz_scale: i64, y_scale: i64) -> (function: Self)
        ensures
            function == (NoiseFunction { noise, xz_scale, y_scale }),
    {
        Self { noise, xz_scale, y_scale }
    }
}

impl ShiftAFunction {
    pub fn new(offset: Arc<InternalNoise>) -> (function: Self)
        ensures
            function == (ShiftAFunction { offset }),
    {
        Self { offset }
    }
}

impl ShiftBFunction {
    pub fn new(offset: Arc<InternalNoise>) -> (function: Self)
        ensures
            function == (ShiftBFunction { offset }),
    {
        Self { offset }
    }
}

impl ShiftedNoiseFunction {
    pub fn new(
        shift_x: Arc<DensityFunction>,
        shift_y: Arc<DensityFunction>,
        shift_z: Arc<DensityFunction>,
        xz_scale: i64,
        y_scale: i64,
        noise: Arc<InternalNoise>,
    ) -> (function: Self)
        ensures
            function == (ShiftedNoiseFunction { shift_x, shift_y, shift_z, xz_scale, y_scale, noise }),
    {
        Self { shift_x, shift_y, shift_z, xz_scale, y_scale, noise }
    }
}

impl SplineFunction {
    pub fn new(spline: Arc<Spline>) -> (function: Self)
        ensures
            function == (SplineFunction { spline }),
    {
        Self { spline }
    }
}

impl BlendDensityFunction {
    pub fn new(function: Arc<DensityFunction>) -> (blend: Self)
        ensures
            blend == (BlendDensityFunction { function }),
    {
        Self { function }
    }
}

impl EndIslandFunction {
    pub fn new(seed: u64) -> (function: Self)
        ensures
            function == (EndIslandFunction { seed }),
    {
        Self { seed }
    }
}

impl WierdScaledFunction {
    pub fn new(input: Arc<DensityFunction>, noise: Arc<InternalNoise>, rarity: RarityMapper) -> (function:
        Self)
        ensures
            function == (WierdScaledFunction { input, noise, rarity }),
    {
        Self { input, noise, rarity }
    }
}

/// The offset spline over continents, erosion and ridges.
pub fn create_offset_spline(
    continents: Arc<DensityFunction>,
    erosion: Arc<DensityFunction>,
    ridges: Arc<DensityFunction>,
    amplified: bool,
) -> (spline: Spline)
    ensures
        spline == (Spline {
            shape: SplineShape::Offset,
            amplified,
            continents,
            erosion,
            ridges,
            ridges_folded: None,
        }),
{
    Spline { shape: SplineShape::Offset, amplified, continents, erosion, ridges, ridges_folded: None }
}

/// The factor spline over continents, erosion, ridges and folded ridges.
pub fn create_factor_spline(
    continents: Arc<DensityFunction>,
    erosion: Arc<DensityFunction>,
    ridges: Arc<DensityFunction>,
    ridges_folded: Arc<DensityFunction>,
    amplified: bool,
) -> (spline: Spline)
    ensures
        spline == (Spline {
            shape: SplineShape::Factor,
            amplified,
            continents,
            erosion,
            ridges,
            ridges_folded: Some(ridges_folded),
        }),
{
    Spline {
        shape: SplineShape::Factor,
        amplified,
        continents,
        erosion,
        ridges,
        ridges_folded: Some(ridges_folded),
    }
}

/// The jaggedness spline over continents, erosion, ridges and folded ridges.
pub fn create_jaggedness_spline(
    continents: Arc<DensityFunction>,
    erosion: Arc<DensityFunction>,
    ridges: Arc<DensityFunction>,
    ridges_folded: Arc<DensityFunction>,
    amplified: bool,
) -> (spline: Spline)
    ensures
        spline == (Spline {
            shape: SplineShape::Jaggedness,
            amplified,
            continents,
            erosion,
            ridges,
            ridges_folded: Some(ridges_folded),
        }),
{
    Spline {
        shape: SplineShape::Jaggedness,
        amplified,
        continents,
        erosion,
        ridges,
        ridges_folded: Some(ridges_folded),
    }
}

} // verus!
