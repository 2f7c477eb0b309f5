//! Blending with neighbouring chunks.
use vstd::prelude::*;

use crate::fixed::UNIT;

verus! {

/// The blender that blends nothing.
#[derive(Clone, Copy, Debug)]
pub struct NoBlendBlender {}

/// The blenders a position can name.
#[derive(Clone, Copy, Debug)]
pub enum Blender {
    NoBlend(NoBlendBlender),
}

impl Blender {
    /// The share of the new terrain in the blend: all of it where nothing is
    /// blended.
    pub open spec fn alpha(self) -> int {
        UNIT as int
    }

    /// The height offset that blending adds: none where nothing is blended.
    pub open spec fn offset(self) -> int {
        0
    }

    /// The density after blending: the density itself where nothing is
    /// blended.
    pub open spec fn blended(self, density: int) -> int {
        density
    }

    pub fn apply_blend_alpha(&self) -> (r: i64)
        ensures
            r == self.alpha(),
    {
        match self {
            Blender::NoBlend(_) => UNIT,
        }
    }

    pub fn apply_blend_offset(&self) -> (r: i64)
        ensures
            r == self.offset(),
    {
        match self {
            Blender::NoBlend(_) => 0,
        }
    }

    pub fn apply_blend_density(&self, density: i64) -> (r: i64)
        ensures
            r == self.blended(density as int),
    {
        match self {
            Blender::NoBlend(_) => density,
        }
    }
}

} // verus!
