//! Rewriting a graph from the leaves up.
//!
//! A visitor maps one node to another. Applying it to a graph first rewrites
//! the children of a node, then hands the node built from the rewritten
//! children to the visitor. When the visitor looks at a wrapper, the function
//! under the wrapper has therefore been rewritten already.
use std::sync::Arc;
use vstd::prelude::*;

use crate::function::{
    BeardifyerFunction, BinaryFunction, BlendDensityFunction, Cache2DDensityFunction,
    CacheOnceDensityFunction, CellCacheDensityFunctionWrapper, ClampFunction, ConstantFunction,
    FlatCacheDensityFunction, InterpolatorDensityFunctionWrapper,
    DensityFunction, LinearFunction, NoiseFunction, RangeFunction, ShiftAFunction,
    ShiftBFunction, ShiftedNoiseFunction, Spline, SplineFunction, UnaryFunction,
    WierdScaledFunction, WrapperFunction, YClampedFunction,
};
use crate::handle::{same_handle, share};
use crate::noise::InternalNoise;

verus! {

/// A map from nodes to nodes.
pub type NodeMap = spec_fn(DensityFunction) -> DensityFunction;

/// A map from noises to noises.
pub type NoiseMap = spec_fn(InternalNoise) -> InternalNoise;

/// What every visitor offers.
pub trait VisitorImpl {
    /// The node that this visitor puts in the place of `function`, whose
    /// children have been rewritten already.
    spec fn rewritten(&self, function: DensityFunction) -> DensityFunction;

    /// The noise that this visitor puts in the place of `noise`.
    spec fn rewritten_noise(&self, noise: InternalNoise) -> InternalNoise;

    fn apply(&self, function: Arc<DensityFunction>) -> (result: Arc<DensityFunction>)
        ensures
            *result == self.rewritten(*function),
    ;

    fn apply_internal_noise(&self, noise: Arc<InternalNoise>) -> (result: Arc<InternalNoise>)
        ensures
            *result == self.rewritten_noise(*noise),
    ;
}

/// The visitor that strips every caching annotation.
#[derive(Clone, Copy, Debug)]
pub struct UnwrapVisitor {}

/// The function under a wrapper; any other node as it is.
pub open spec fn unwrapped(function: DensityFunction) -> DensityFunction {
    match function {
        DensityFunction::Wrapper(wrapper) => *wrapper.input,
        _ => function,
    }
}

impl VisitorImpl for UnwrapVisitor {
    open spec fn rewritten(&self, function: DensityFunction) -> DensityFunction {
        unwrapped(function)
    }

    open spec fn rewritten_noise(&self, noise: InternalNoise) -> InternalNoise {
        noise
    }

    fn apply(&self, function: Arc<DensityFunction>) -> (result: Arc<DensityFunction>) {
        match &*function {
            DensityFunction::Wrapper(wrapper) => wrapper.wrapped(),
            _ => function,
        }
    }

    fn apply_internal_noise(&self, noise: Arc<InternalNoise>) -> (result: Arc<InternalNoise>) {
        noise
    }
}

/// The visitors.
#[derive(Clone, Copy, Debug)]
pub enum Visitor {
    Unwrap(UnwrapVisitor),
}

impl VisitorImpl for Visitor {
    open spec fn rewritten(&self, function: DensityFunction) -> DensityFunction {
        match self {
            Visitor::Unwrap(visitor) => visitor.rewritten(function),
        }
    }

    open spec fn rewritten_noise(&self, noise: InternalNoise) -> InternalNoise {
        match self {
            Visitor::Unwrap(visitor) => visitor.rewritten_noise(noise),
        }
    }

    fn apply(&self, function: Arc<DensityFunction>) -> (result: Arc<DensityFunction>) {
        match self {
            Visitor::Unwrap(visitor) => visitor.apply(function),
        }
    }

    fn apply_internal_noise(&self, noise: Arc<InternalNoise>) -> (result: Arc<InternalNoise>) {
        match self {
            Visitor::Unwrap(visitor) => visitor.apply_internal_noise(noise),
        }
    }
}

impl Visitor {
    /// This visitor as a map on nodes.
    pub open spec fn node_map(&self) -> NodeMap {
        |function: DensityFunction| self.rewritten(function)
    }

    /// This visitor as a map on noises.
    pub open spec fn noise_map(&self) -> NoiseMap {
        |noise: InternalNoise| self.rewritten_noise(noise)
    }
}

impl DensityFunction {
    /// This graph rewritten from the leaves up: `on_node` applied to every
    /// node after its children have been rewritten, `on_noise` to every
    /// noise.
    pub open spec fn rewrite_with(&self, on_node: NodeMap, on_noise: NoiseMap) -> DensityFunction
        decreases self,
    {
        on_node(
            match *self {
                DensityFunction::Clamp(f) => DensityFunction::Clamp(
                    ClampFunction {
                        input: Arc::new(f.input.rewrite_with(on_node, on_noise)),
                        min: f.min,
                        max: f.max,
                    },
                ),
                DensityFunction::Unary(f) => DensityFunction::Unary(
                    UnaryFunction {
                        action: f.action,
                        input: Arc::new(f.input.rewrite_with(on_node, on_noise)),
                    },
                ),
                DensityFunction::Noise(f) => DensityFunction::Noise(
                    NoiseFunction {
                        noise: Arc::new(on_noise(*f.noise)),
                        xz_scale: f.xz_scale,
                        y_scale: f.y_scale,
                    },
                ),
                DensityFunction::ShiftA(f) => DensityFunction::ShiftA(
                    ShiftAFunction { offset: Arc::new(on_noise(*f.offset)) },
                ),
                DensityFunction::ShiftB(f) => DensityFunction::ShiftB(
                    ShiftBFunction { offset: Arc::new(on_noise(*f.offset)) },
                ),
                DensityFunction::ShiftedNoise(f) => DensityFunction::ShiftedNoise(
                    ShiftedNoiseFunction {
                        shift_x: Arc::new(f.shift_x.rewrite_with(on_node, on_noise)),
                        shift_y: Arc::new(f.shift_y.rewrite_with(on_node, on_noise)),
                        shift_z: Arc::new(f.shift_z.rewrite_with(on_node, on_noise)),
                        xz_scale: f.xz_scale,
                        y_scale: f.y_scale,
                        noise: Arc::new(on_noise(*f.noise)),
                    },
                ),
                DensityFunction::Spline(f) => DensityFunction::Spline(
                    SplineFunction {
                        spline: Arc::new(
                            Spline {
                                shape: f.spline.shape,
                                amplified: f.spline.amplified,
                                continents: Arc::new(
                                    f.spline.continents.rewrite_with(on_node, on_noise),
                                ),
                                erosion: Arc::new(f.spline.erosion.rewrite_with(on_node, on_noise)),
                                ridges: Arc::new(f.spline.ridges.rewrite_with(on_node, on_noise)),
                                ridges_folded: match f.spline.ridges_folded {
                                    Some(folded) => Some(
                                        Arc::new(folded.rewrite_with(on_node, on_noise)),
                                    ),
                                    None => None,
                                },
                            },
                        ),
                    },
                ),
                DensityFunction::Linear(f) => DensityFunction::Linear(
                    LinearFunction {
                        slope: f.slope,
                        offset: f.offset,
                        input: Arc::new(f.input.rewrite_with(on_node, on_noise)),
                    },
                ),
                DensityFunction::Binary(f) => DensityFunction::Binary(
                    BinaryFunction {
                        action: f.action,
                        arg1: Arc::new(f.arg1.rewrite_with(on_node, on_noise)),
                        arg2: Arc::new(f.arg2.rewrite_with(on_node, on_noise)),
                    },
                ),
                DensityFunction::BlendDensity(f) => DensityFunction::BlendDensity(
                    BlendDensityFunction {
                        function: Arc::new(f.function.rewrite_with(on_node, on_noise)),
                    },
                ),
                DensityFunction::Wierd(f) => DensityFunction::Wierd(
                    WierdScaledFunction {
                        input: Arc::new(f.input.rewrite_with(on_node, on_noise)),
                        noise: Arc::new(on_noise(*f.noise)),
                        rarity: f.rarity,
                    },
                ),
                DensityFunction::Range(f) => DensityFunction::Range(
                    RangeFunction {
                        input: Arc::new(f.input.rewrite_with(on_node, on_noise)),
                        min: f.min,
                        max: f.max,
                        in_range: Arc::new(f.in_range.rewrite_with(on_node, on_noise)),
                        out_range: Arc::new(f.out_range.rewrite_with(on_node, on_noise)),
                    },
                ),
                DensityFunction::Wrapper(f) => DensityFunction::Wrapper(
                    WrapperFunction {
                        input: Arc::new(f.input.rewrite_with(on_node, on_noise)),
                        wrapper: f.wrapper,
                    },
                ),
                DensityFunction::ChunkCacheFlatCache(f) => DensityFunction::ChunkCacheFlatCache(
                    FlatCacheDensityFunction {
                        input: Arc::new(f.input.rewrite_with(on_node, on_noise)),
                        slot: f.slot,
                    },
                ),
                DensityFunction::ChunkCacheInterpolator(f) => DensityFunction::ChunkCacheInterpolator(
                    InterpolatorDensityFunctionWrapper {
                        input: Arc::new(f.input.rewrite_with(on_node, on_noise)),
                        slot: f.slot,
                        grid: f.grid,
                    },
                ),
                DensityFunction::ChunkCacheCellCache(f) => DensityFunction::ChunkCacheCellCache(
                    CellCacheDensityFunctionWrapper {
                        input: Arc::new(f.input.rewrite_with(on_node, on_noise)),
                        slot: f.slot,
                    },
                ),
                DensityFunction::ChunkCache2DCache(f) => DensityFunction::ChunkCache2DCache(
                    Cache2DDensityFunction {
                        input: Arc::new(f.input.rewrite_with(on_node, on_noise)),
                        slot: f.slot,
                    },
                ),
                DensityFunction::ChunkCacheOnceCache(f) => DensityFunction::ChunkCacheOnceCache(
                    CacheOnceDensityFunction {
                        input: Arc::new(f.input.rewrite_with(on_node, on_noise)),
                        slot: f.slot,
                    },
                ),
                DensityFunction::ChunkCacheBlendAlpha(_) => *self,
                DensityFunction::ChunkCacheBlendOffset(_) => *self,
                DensityFunction::Constant(_) => *self,
                DensityFunction::BlendOffset(_) => *self,
                DensityFunction::BlendAlpha(_) => *self,
                DensityFunction::ClampedY(_) => *self,
                DensityFunction::InterpolatedNoise(_) => *self,
                DensityFunction::EndIsland(_) => *self,
                DensityFunction::Beardifyer(_) => *self,
            },
        )
    }

    /// This graph as `visitor` rewrites it.
    pub open spec fn rewrite(&self, visitor: &Visitor) -> DensityFunction {
        self.rewrite_with(visitor.node_map(), visitor.noise_map())
    }

    /// Whether no child of this node is or holds a wrapper.
    pub open spec fn children_wrapper_free(&self) -> bool {
        match *self {
            DensityFunction::Clamp(f) => f.input.wrapper_free(),
            DensityFunction::Unary(f) => f.input.wrapper_free(),
            DensityFunction::ShiftedNoise(f) => f.shift_x.wrapper_free() && f.shift_y.wrapper_free()
                && f.shift_z.wrapper_free(),
            DensityFunction::Spline(f) => f.spline.continents.wrapper_free()
                && f.spline.erosion.wrapper_free() && f.spline.ridges.wrapper_free() && (match f.spline.ridges_folded {
                Some(folded) => folded.wrapper_free(),
                None => true,
            }),
            DensityFunction::Linear(f) => f.input.wrapper_free(),
            DensityFunction::Binary(f) => f.arg1.wrapper_free() && f.arg2.wrapper_free(),
            DensityFunction::BlendDensity(f) => f.function.wrapper_free(),
            DensityFunction::Wierd(f) => f.input.wrapper_free(),
            DensityFunction::Range(f) => f.input.wrapper_free() && f.in_range.wrapper_free()
                && f.out_range.wrapper_free(),
            DensityFunction::Wrapper(f) => f.input.wrapper_free(),
            DensityFunction::ChunkCacheFlatCache(f) => f.input.wrapper_free(),
            DensityFunction::ChunkCacheInterpolator(f) => f.input.wrapper_free(),
            DensityFunction::ChunkCacheCellCache(f) => f.input.wrapper_free(),
            DensityFunction::ChunkCache2DCache(f) => f.input.wrapper_free(),
            DensityFunction::ChunkCacheOnceCache(f) => f.input.wrapper_free(),
            _ => true,
        }
    }

    /// Whether this graph holds no wrapper at all.
    pub open spec fn wrapper_free(&self) -> bool
        decreases self,
    {
        match *self {
            DensityFunction::Clamp(f) => f.input.wrapper_free(),
            DensityFunction::Unary(f) => f.input.wrapper_free(),
            DensityFunction::ShiftedNoise(f) => f.shift_x.wrapper_free() && f.shift_y.wrapper_free()
                && f.shift_z.wrapper_free(),
            DensityFunction::Spline(f) => f.spline.continents.wrapper_free()
                && f.spline.erosion.wrapper_free() && f.spline.ridges.wrapper_free() && (match f.spline.ridges_folded {
                Some(folded) => folded.wrapper_free(),
                None => true,
            }),
            DensityFunction::Linear(f) => f.input.wrapper_free(),
            DensityFunction::Binary(f) => f.arg1.wrapper_free() && f.arg2.wrapper_free(),
            DensityFunction::BlendDensity(f) => f.function.wrapper_free(),
            DensityFunction::Wierd(f) => f.input.wrapper_free(),
            DensityFunction::Range(f) => f.input.wrapper_free() && f.in_range.wrapper_free()
                && f.out_range.wrapper_free(),
            DensityFunction::Wrapper(_) => false,
            DensityFunction::ChunkCacheFlatCache(f) => f.input.wrapper_free(),
            DensityFunction::ChunkCacheInterpolator(f) => f.input.wrapper_free(),
            DensityFunction::ChunkCacheCellCache(f) => f.input.wrapper_free(),
            DensityFunction::ChunkCache2DCache(f) => f.input.wrapper_free(),
            DensityFunction::ChunkCacheOnceCache(f) => f.input.wrapper_free(),
            _ => true,
        }
    }
}

impl ConstantFunction {
    pub fn apply(&self, visitor: &Visitor) -> (result: Arc<DensityFunction>)
        ensures
            *result == DensityFunction::Constant(*self).rewrite(visitor),
    {
        visitor.apply(Arc::new(DensityFunction::Constant(*self)))
    }
}

impl BeardifyerFunction {
    pub fn apply(&self, visitor: &Visitor) -> (result: Arc<DensityFunction>)
        ensures
            *result == DensityFunction::Beardifyer(*self).rewrite(visitor),
    {
        visitor.apply(Arc::new(DensityFunction::Beardifyer(BeardifyerFunction {  })))
    }
}

impl YClampedFunction {
    pub fn apply(&self, visitor: &Visitor) -> (result: Arc<DensityFunction>)
        ensures
            *result == DensityFunction::ClampedY(*self).rewrite(visitor),
    {
        visitor.apply(Arc::new(DensityFunction::ClampedY(*self)))
    }
}

impl WrapperFunction {
    pub fn apply(&self, visitor: &Visitor) -> (result: Arc<DensityFunction>)
        ensures
            *result == DensityFunction::Wrapper(*self).rewrite(visitor),
        decreases self,
    {
        visitor.apply(
            Arc::new(
                DensityFunction::Wrapper(
                    WrapperFunction { input: self.input.apply(visitor), wrapper: self.wrapper },
                ),
            ),
        )
    }
}

impl RangeFunction {
    pub fn apply(&self, visitor: &Visitor) -> (result: Arc<DensityFunction>)
        ensures
            *result == DensityFunction::Range(*self).rewrite(visitor),
        decreases self,
    {
        visitor.apply(
            Arc::new(
                DensityFunction::Range(
                    RangeFunction {
                        input: self.input.apply(visitor),
                        min: self.min,
                        max: self.max,
                        in_range: self.in_range.apply(visitor),
                        out_range: self.out_range.apply(visitor),
                    },
                ),
            ),
        )
    }
}

impl DensityFunction {
    /// Rewrites this graph with `visitor`: the children of each node first,
    /// then the node itself.
    pub fn apply(&self, visitor: &Visitor) -> (result: Arc<DensityFunction>)
        ensures
            *result == self.rewrite(visitor),
        decreases self,
    {
        match self {
            DensityFunction::Clamp(f) => visitor.apply(
                Arc::new(
                    DensityFunction::Clamp(
                        ClampFunction { input: f.input.apply(visitor), min: f.min, max: f.max },
                    ),
                ),
            ),
            DensityFunction::Unary(f) => visitor.apply(
                Arc::new(
                    DensityFunction::Unary(
                        UnaryFunction { action: f.action, input: f.input.apply(visitor) },
                    ),
                ),
            ),
            DensityFunction::Noise(f) => visitor.apply(
                Arc::new(
                    DensityFunction::Noise(
                        NoiseFunction {
                            noise: visitor.apply_internal_noise(share(&f.noise)),
                            xz_scale: f.xz_scale,
                            y_scale: f.y_scale,
                        },
                    ),
                ),
            ),
            DensityFunction::ShiftA(f) => visitor.apply(
                Arc::new(
                    DensityFunction::ShiftA(
                        ShiftAFunction { offset: visitor.apply_internal_noise(share(&f.offset)) },
                    ),
                ),
            ),
            DensityFunction::ShiftB(f) => visitor.apply(
                Arc::new(
                    DensityFunction::ShiftB(
                        ShiftBFunction { offset: visitor.apply_internal_noise(share(&f.offset)) },
                    ),
                ),
            ),
            DensityFunction::ShiftedNoise(f) => visitor.apply(
                Arc::new(
                    DensityFunction::ShiftedNoise(
                        ShiftedNoiseFunction {
                            shift_x: f.shift_x.apply(visitor),
                            shift_y: f.shift_y.apply(visitor),
                            shift_z: f.shift_z.apply(visitor),
                            xz_scale: f.xz_scale,
                            y_scale: f.y_scale,
                            noise: visitor.apply_internal_noise(share(&f.noise)),
                        },
                    ),
                ),
            ),
            DensityFunction::Spline(f) => {
                let ridges_folded = match &f.spline.ridges_folded {
                    Some(folded) => Some(folded.apply(visitor)),
                    None => None,
                };
                visitor.apply(
                    Arc::new(
                        DensityFunction::Spline(
                            SplineFunction {
                                spline: Arc::new(
                                    Spline {
                                        shape: f.spline.shape,
                                        amplified: f.spline.amplified,
                                        continents: f.spline.continents.apply(visitor),
                                        erosion: f.spline.erosion.apply(visitor),
                                        ridges: f.spline.ridges.apply(visitor),
                                        ridges_folded,
                                    },
                                ),
                            },
                        ),
                    ),
                )
            },
            DensityFunction::Constant(f) => f.apply(visitor),
            DensityFunction::Linear(f) => visitor.apply(
                Arc::new(
                    DensityFunction::Linear(
                        LinearFunction {
                            slope: f.slope,
                            offset: f.offset,
                            input: f.input.apply(visitor),
                        },
                    ),
                ),
            ),
            DensityFunction::Binary(f) => visitor.apply(
                Arc::new(
                    DensityFunction::Binary(
                        BinaryFunction {
                            action: f.action,
                            arg1: f.arg1.apply(visitor),
                            arg2: f.arg2.apply(visitor),
                        },
                    ),
                ),
            ),
            DensityFunction::BlendOffset(f) => visitor.apply(
                Arc::new(DensityFunction::BlendOffset(*f)),
            ),
            DensityFunction::BlendAlpha(f) => visitor.apply(
                Arc::new(DensityFunction::BlendAlpha(*f)),
            ),
            DensityFunction::BlendDensity(f) => visitor.apply(
                Arc::new(
                    DensityFunction::BlendDensity(
                        BlendDensityFunction { function: f.function.apply(visitor) },
                    ),
                ),
            ),
            DensityFunction::ClampedY(f) => f.apply(visitor),
            DensityFunction::InterpolatedNoise(f) => visitor.apply(
                Arc::new(DensityFunction::InterpolatedNoise(*f)),
            ),
            DensityFunction::EndIsland(f) => visitor.apply(
                Arc::new(DensityFunction::EndIsland(*f)),
            ),
            DensityFunction::Wierd(f) => visitor.apply(
                Arc::new(
                    DensityFunction::Wierd(
                        WierdScaledFunction {
                            input: f.input.apply(visitor),
                            noise: visitor.apply_internal_noise(share(&f.noise)),
                            rarity: f.rarity,
                        },
                    ),
                ),
            ),
            DensityFunction::Range(f) => f.apply(visitor),
            DensityFunction::Wrapper(f) => f.apply(visitor),
            DensityFunction::ChunkCacheFlatCache(f) => visitor.apply(
                Arc::new(
                    DensityFunction::ChunkCacheFlatCache(
                        FlatCacheDensityFunction { input: f.input.apply(visitor), slot: f.slot },
                    ),
                ),
            ),
            DensityFunction::ChunkCacheInterpolator(f) => visitor.apply(
                Arc::new(
                    DensityFunction::ChunkCacheInterpolator(
                        InterpolatorDensityFunctionWrapper {
                            input: f.input.apply(visitor),
                            slot: f.slot,
                            grid: f.grid,
                        },
                    ),
                ),
            ),
            DensityFunction::ChunkCacheCellCache(f) => visitor.apply(
                Arc::new(
                    DensityFunction::ChunkCacheCellCache(
                        CellCacheDensityFunctionWrapper { input: f.input.apply(visitor), slot: f.slot },
                    ),
                ),
            ),
            DensityFunction::ChunkCache2DCache(f) => visitor.apply(
                Arc::new(
                    DensityFunction::ChunkCache2DCache(
                        Cache2DDensityFunction { input: f.input.apply(visitor), slot: f.slot },
                    ),
                ),
            ),
            DensityFunction::ChunkCacheOnceCache(f) => visitor.apply(
                Arc::new(
                    DensityFunction::ChunkCacheOnceCache(
                        CacheOnceDensityFunction { input: f.input.apply(visitor), slot: f.slot },
                    ),
                ),
            ),
            DensityFunction::ChunkCacheBlendAlpha(f) => visitor.apply(
                Arc::new(DensityFunction::ChunkCacheBlendAlpha(*f)),
            ),
            DensityFunction::ChunkCacheBlendOffset(f) => visitor.apply(
                Arc::new(DensityFunction::ChunkCacheBlendOffset(*f)),
            ),
            DensityFunction::Beardifyer(f) => f.apply(visitor),
        }
    }
}

/// A rewrite that keeps shared sub-graphs shared. It remembers every handle
/// it has rewritten and answers a handle it meets again with the node it made
/// the first time, so a sub-graph that stands below many parents is rewritten
/// once and is one node afterwards.
pub struct SharedRewrite {
    visitor: Visitor,
    seen: Vec<Arc<DensityFunction>>,
    made: Vec<Arc<DensityFunction>>,
}

impl SharedRewrite {
    /// The visitor that rewrites.
    pub closed spec fn rewriter(&self) -> Visitor {
        self.visitor
    }

    /// Whether everything that is remembered is what the visitor makes of
    /// the handle it is remembered for.
    pub closed spec fn well_formed(&self) -> bool {
        &&& self.seen@.len() == self.made@.len()
        &&& forall|i: int|
            0 <= i < self.made@.len() ==> *(#[trigger] self.made@[i]) == self.seen@[i].rewrite(
                &self.visitor,
            )
    }

    /// A rewrite with `visitor` that remembers nothing yet.
    pub fn new(visitor: Visitor) -> (rewrite: Self)
        ensures
            rewrite.well_formed(),
            rewrite.rewriter() == visitor,
    {
        Self { visitor, seen: Vec::new(), made: Vec::new() }
    }

    /// What was made of `function`, if this very handle was rewritten before.
    fn recall(&self, function: &Arc<DensityFunction>) -> (result: Option<Arc<DensityFunction>>)
        requires
            self.well_formed(),
        ensures
            result matches Some(r) ==> *r == function.rewrite(&self.rewriter()),
    {
        let n: usize = self.seen.len();
        let mut i: usize = 0;
        while i < n
            invariant
                i <= n,
                n == self.seen@.len(),
                self.well_formed(),
            decreases n - i,
        {
            if same_handle(&self.seen[i], function) {
                return Some(share(&self.made[i]));
            }
            i = i + 1;
        }
        None
    }

    /// Rewrites a graph with the visitor: the children of each node first,
    /// then the node itself, and every handle once.
    pub fn apply(&mut self, function: &Arc<DensityFunction>) -> (result: Arc<DensityFunction>)
        requires
            old(self).well_formed(),
        ensures
            final(self).well_formed(),
            final(self).rewriter() == old(self).rewriter(),
            *result == function.rewrite(&old(self).rewriter()),
        decreases **function, 1nat,
    {
        match self.recall(function) {
            Some(result) => {
                return result;
            },
            None => {},
        }
        let result = self.rebuild(function);
        self.seen.push(share(function));
        self.made.push(share(&result));
        result
    }

    /// Rewrites a node that was not rewritten before.
    fn rebuild(&mut self, function: &DensityFunction) -> (result: Arc<DensityFunction>)
        requires
            old(self).well_formed(),
        ensures
            final(self).well_formed(),
            final(self).rewriter() == old(self).rewriter(),
            *result == function.rewrite(&old(self).rewriter()),
        decreases function, 0nat,
    {
        match function {
            DensityFunction::Clamp(f) => {
                let input = self.apply(&f.input);
                self.visitor.apply(
                    Arc::new(
                        DensityFunction::Clamp(ClampFunction { input, min: f.min, max: f.max }),
                    ),
                )
            },
            DensityFunction::Unary(f) => {
                let input = self.apply(&f.input);
                self.visitor.apply(
                    Arc::new(DensityFunction::Unary(UnaryFunction { action: f.action, input })),
                )
            },
            DensityFunction::Noise(f) => {
                let noise = self.visitor.apply_internal_noise(share(&f.noise));
                self.visitor.apply(
                    Arc::new(
                        DensityFunction::Noise(
                            NoiseFunction { noise, xz_scale: f.xz_scale, y_scale: f.y_scale },
                        ),
                    ),
                )
            },
            DensityFunction::ShiftA(f) => {
                let offset = self.visitor.apply_internal_noise(share(&f.offset));
                self.visitor.apply(Arc::new(DensityFunction::ShiftA(ShiftAFunction { offset })))
            },
            DensityFunction::ShiftB(f) => {
                let offset = self.visitor.apply_internal_noise(share(&f.offset));
                self.visitor.apply(Arc::new(DensityFunction::ShiftB(ShiftBFunction { offset })))
            },
            DensityFunction::ShiftedNoise(f) => {
                let shift_x = self.apply(&f.shift_x);
                let shift_y = self.apply(&f.shift_y);
                let shift_z = self.apply(&f.shift_z);
                let noise = self.visitor.apply_internal_noise(share(&f.noise));
                self.visitor.apply(
                    Arc::new(
                        DensityFunction::ShiftedNoise(
                            ShiftedNoiseFunction {
                                shift_x,
                                shift_y,
                                shift_z,
                                xz_scale: f.xz_scale,
                                y_scale: f.y_scale,
                                noise,
                            },
                        ),
                    ),
                )
            },
            DensityFunction::Spline(f) => {
                let continents = self.apply(&f.spline.continents);
                let erosion = self.apply(&f.spline.erosion);
                let ridges = self.apply(&f.spline.ridges);
                let ridges_folded = match &f.spline.ridges_folded {
                    Some(folded) => Some(self.apply(folded)),
                    None => None,
                };
                self.visitor.apply(
                    Arc::new(
                        DensityFunction::Spline(
                            SplineFunction {
                                spline: Arc::new(
                                    Spline {
                                        shape: f.spline.shape,
                                        amplified: f.spline.amplified,
                                        continents,
                                        erosion,
                                        ridges,
                                        ridges_folded,
                                    },
                                ),
                            },
                        ),
                    ),
                )
            },
            DensityFunction::Linear(f) => {
                let input = self.apply(&f.input);
                self.visitor.apply(
                    Arc::new(
                        DensityFunction::Linear(
                            LinearFunction { slope: f.slope, offset: f.offset, input },
                        ),
                    ),
                )
            },
            DensityFunction::Binary(f) => {
                let arg1 = self.apply(&f.arg1);
                let arg2 = self.apply(&f.arg2);
                self.visitor.apply(
                    Arc::new(
                        DensityFunction::Binary(BinaryFunction { action: f.action, arg1, arg2 }),
                    ),
                )
            },
            DensityFunction::BlendDensity(f) => {
                let function = self.apply(&f.function);
                self.visitor.apply(
                    Arc::new(DensityFunction::BlendDensity(BlendDensityFunction { function })),
                )
            },
            DensityFunction::Wierd(f) => {
                let input = self.apply(&f.input);
                let noise = self.visitor.apply_internal_noise(share(&f.noise));
                self.visitor.apply(
                    Arc::new(
                        DensityFunction::Wierd(
                            WierdScaledFunction { input, noise, rarity: f.rarity },
                        ),
                    ),
                )
            },
            DensityFunction::Range(f) => {
                let input = self.apply(&f.input);
                let in_range = self.apply(&f.in_range);
                let out_range = self.apply(&f.out_range);
                self.visitor.apply(
                    Arc::new(
                        DensityFunction::Range(
                            RangeFunction { input, min: f.min, max: f.max, in_range, out_range },
                        ),
                    ),
                )
            },
            DensityFunction::Wrapper(f) => {
                let input = self.apply(&f.input);
                self.visitor.apply(
                    Arc::new(
                        DensityFunction::Wrapper(WrapperFunction { input, wrapper: f.wrapper }),
                    ),
                )
            },
            DensityFunction::ChunkCacheFlatCache(f) => {
                let input = self.apply(&f.input);
                self.visitor.apply(
                    Arc::new(
                        DensityFunction::ChunkCacheFlatCache(FlatCacheDensityFunction { input, slot: f.slot }),
                    ),
                )
            },
            DensityFunction::ChunkCacheInterpolator(f) => {
                let input = self.apply(&f.input);
                self.visitor.apply(
                    Arc::new(
                        DensityFunction::ChunkCacheInterpolator(
                            InterpolatorDensityFunctionWrapper {
                                input,
                                slot: f.slot,
                                grid: f.grid,
                            },
                        ),
                    ),
                )
            },
            DensityFunction::ChunkCacheCellCache(f) => {
                let input = self.apply(&f.input);
                self.visitor.apply(
                    Arc::new(
                        DensityFunction::ChunkCacheCellCache(CellCacheDensityFunctionWrapper { input, slot: f.slot }),
                    ),
                )
            },
            DensityFunction::ChunkCache2DCache(f) => {
                let input = self.apply(&f.input);
                self.visitor.apply(
                    Arc::new(
                        DensityFunction::ChunkCache2DCache(Cache2DDensityFunction { input, slot: f.slot }),
                    ),
                )
            },
            DensityFunction::ChunkCacheOnceCache(f) => {
                let input = self.apply(&f.input);
                self.visitor.apply(
                    Arc::new(
                        DensityFunction::ChunkCacheOnceCache(CacheOnceDensityFunction { input, slot: f.slot }),
                    ),
                )
            },
            DensityFunction::Constant(f) => self.visitor.apply(
                Arc::new(DensityFunction::Constant(*f)),
            ),
            DensityFunction::BlendOffset(f) => self.visitor.apply(
                Arc::new(DensityFunction::BlendOffset(*f)),
            ),
            DensityFunction::BlendAlpha(f) => self.visitor.apply(
                Arc::new(DensityFunction::BlendAlpha(*f)),
            ),
            DensityFunction::ClampedY(f) => self.visitor.apply(
                Arc::new(DensityFunction::ClampedY(*f)),
            ),
            DensityFunction::InterpolatedNoise(f) => self.visitor.apply(
                Arc::new(DensityFunction::InterpolatedNoise(*f)),
            ),
            DensityFunction::EndIsland(f) => self.visitor.apply(
                Arc::new(DensityFunction::EndIsland(*f)),
            ),
            DensityFunction::ChunkCacheBlendAlpha(f) => self.visitor.apply(
                Arc::new(DensityFunction::ChunkCacheBlendAlpha(*f)),
            ),
            DensityFunction::ChunkCacheBlendOffset(f) => self.visitor.apply(
                Arc::new(DensityFunction::ChunkCacheBlendOffset(*f)),
            ),
            DensityFunction::Beardifyer(f) => self.visitor.apply(
                Arc::new(DensityFunction::Beardifyer(*f)),
            ),
        }
    }
}

/// A graph holds no wrapper exactly if its root is none and no child holds
/// one.
pub proof fn lemma_wrapper_free_unfolds(function: &DensityFunction)
    ensures
        function.wrapper_free() == (!(function is Wrapper) && function.children_wrapper_free()),
{
}

/// **Post-order rewrite, first half.** Let a map on nodes answer every node
/// whose children hold no wrapper with a graph that holds none. Then the
/// rewrite of any graph with that map holds no wrapper.
pub proof fn lemma_rewrite_removes_wrappers(
    function: &DensityFunction,
    on_node: NodeMap,
    on_noise: NoiseMap,
)
    requires
        forall|node: DensityFunction|
            node.children_wrapper_free() ==> (#[trigger] on_node(node)).wrapper_free(),
    ensures
        function.rewrite_with(on_node, on_noise).wrapper_free(),
    decreases function,
{
    match function {
        DensityFunction::Clamp(f) => {
            lemma_rewrite_removes_wrappers(&*f.input, on_node, on_noise);
        },
        DensityFunction::Unary(f) => {
            lemma_rewrite_removes_wrappers(&*f.input, on_node, on_noise);
        },
        DensityFunction::ShiftedNoise(f) => {
            lemma_rewrite_removes_wrappers(&*f.shift_x, on_node, on_noise);
            lemma_rewrite_removes_wrappers(&*f.shift_y, on_node, on_noise);
            lemma_rewrite_removes_wrappers(&*f.shift_z, on_node, on_noise);
        },
        DensityFunction::Spline(f) => {
            lemma_rewrite_removes_wrappers(&*f.spline.continents, on_node, on_noise);
            lemma_rewrite_removes_wrappers(&*f.spline.erosion, on_node, on_noise);
            lemma_rewrite_removes_wrappers(&*f.spline.ridges, on_node, on_noise);
            match &f.spline.ridges_folded {
                Some(folded) => {
                    lemma_rewrite_removes_wrappers(&**folded, on_node, on_noise);
                },
                None => {},
            }
        },
        DensityFunction::Linear(f) => {
            lemma_rewrite_removes_wrappers(&*f.input, on_node, on_noise);
        },
        DensityFunction::Binary(f) => {
            lemma_rewrite_removes_wrappers(&*f.arg1, on_node, on_noise);
            lemma_rewrite_removes_wrappers(&*f.arg2, on_node, on_noise);
        },
        DensityFunction::BlendDensity(f) => {
            lemma_rewrite_removes_wrappers(&*f.function, on_node, on_noise);
        },
        DensityFunction::Wierd(f) => {
            lemma_rewrite_removes_wrappers(&*f.input, on_node, on_noise);
        },
        DensityFunction::Range(f) => {
            lemma_rewrite_removes_wrappers(&*f.input, on_node, on_noise);
            lemma_rewrite_removes_wrappers(&*f.in_range, on_node, on_noise);
            lemma_rewrite_removes_wrappers(&*f.out_range, on_node, on_noise);
        },
        DensityFunction::Wrapper(f) => {
            lemma_rewrite_removes_wrappers(&*f.input, on_node, on_noise);
        },
        DensityFunction::ChunkCacheFlatCache(f) => {
            lemma_rewrite_removes_wrappers(&*f.input, on_node, on_noise);
        },
        DensityFunction::ChunkCacheInterpolator(f) => {
            lemma_rewrite_removes_wrappers(&*f.input, on_node, on_noise);
        },
        DensityFunction::ChunkCacheCellCache(f) => {
            lemma_rewrite_removes_wrappers(&*f.input, on_node, on_noise);
        },
        DensityFunction::ChunkCache2DCache(f) => {
            lemma_rewrite_removes_wrappers(&*f.input, on_node, on_noise);
        },
        DensityFunction::ChunkCacheOnceCache(f) => {
            lemma_rewrite_removes_wrappers(&*f.input, on_node, on_noise);
        },
        _ => {},
    }
}

/// **Post-order rewrite, second half.** Let a map on nodes leave every node
/// without a wrapper among its children as it is, and a map on noises leave
/// every noise as it is. Then the rewrite of a graph that holds no wrapper is
/// that graph. With the identity on nodes this is so of every graph: see
/// `lemma_identity_rewrite`.
pub proof fn lemma_rewrite_fixes_wrapper_free(
    function: &DensityFunction,
    on_node: NodeMap,
    on_noise: NoiseMap,
)
    requires
        function.wrapper_free(),
        forall|node: DensityFunction|
            node.wrapper_free() ==> #[trigger] on_node(node) == node,
        forall|noise: InternalNoise| #[trigger] on_noise(noise) == noise,
    ensures
        function.rewrite_with(on_node, on_noise) == *function,
    decreases function,
{
    match function {
        DensityFunction::Clamp(f) => {
            lemma_rewrite_fixes_wrapper_free(&*f.input, on_node, on_noise);
        },
        DensityFunction::Unary(f) => {
            lemma_rewrite_fixes_wrapper_free(&*f.input, on_node, on_noise);
        },
        DensityFunction::ShiftedNoise(f) => {
            lemma_rewrite_fixes_wrapper_free(&*f.shift_x, on_node, on_noise);
            lemma_rewrite_fixes_wrapper_free(&*f.shift_y, on_node, on_noise);
            lemma_rewrite_fixes_wrapper_free(&*f.shift_z, on_node, on_noise);
        },
        DensityFunction::Spline(f) => {
            lemma_rewrite_fixes_wrapper_free(&*f.spline.continents, on_node, on_noise);
            lemma_rewrite_fixes_wrapper_free(&*f.spline.erosion, on_node, on_noise);
            lemma_rewrite_fixes_wrapper_free(&*f.spline.ridges, on_node, on_noise);
            match &f.spline.ridges_folded {
                Some(folded) => {
                    lemma_rewrite_fixes_wrapper_free(&**folded, on_node, on_noise);
                },
                None => {},
            }
        },
        DensityFunction::Linear(f) => {
            lemma_rewrite_fixes_wrapper_free(&*f.input, on_node, on_noise);
        },
        DensityFunction::Binary(f) => {
            lemma_rewrite_fixes_wrapper_free(&*f.arg1, on_node, on_noise);
            lemma_rewrite_fixes_wrapper_free(&*f.arg2, on_node, on_noise);
        },
        DensityFunction::BlendDensity(f) => {
            lemma_rewrite_fixes_wrapper_free(&*f.function, on_node, on_noise);
        },
        DensityFunction::Wierd(f) => {
            lemma_rewrite_fixes_wrapper_free(&*f.input, on_node, on_noise);
        },
        DensityFunction::Range(f) => {
            lemma_rewrite_fixes_wrapper_free(&*f.input, on_node, on_noise);
            lemma_rewrite_fixes_wrapper_free(&*f.in_range, on_node, on_noise);
            lemma_rewrite_fixes_wrapper_free(&*f.out_range, on_node, on_noise);
        },
        DensityFunction::ChunkCacheFlatCache(f) => {
            lemma_rewrite_fixes_wrapper_free(&*f.input, on_node, on_noise);
        },
        DensityFunction::ChunkCacheInterpolator(f) => {
            lemma_rewrite_fixes_wrapper_free(&*f.input, on_node, on_noise);
        },
        DensityFunction::ChunkCacheCellCache(f) => {
            lemma_rewrite_fixes_wrapper_free(&*f.input, on_node, on_noise);
        },
        DensityFunction::ChunkCache2DCache(f) => {
            lemma_rewrite_fixes_wrapper_free(&*f.input, on_node, on_noise);
        },
        DensityFunction::ChunkCacheOnceCache(f) => {
            lemma_rewrite_fixes_wrapper_free(&*f.input, on_node, on_noise);
        },
        _ => {},
    }
}

/// **Post-order rewrite, the converse.** Rewriting with the identity on nodes
/// and on noises leaves every graph as it is.
pub proof fn lemma_identity_rewrite(function: &DensityFunction, on_node: NodeMap, on_noise: NoiseMap)
    requires
        forall|node: DensityFunction| #[trigger] on_node(node) == node,
        forall|noise: InternalNoise| #[trigger] on_noise(noise) == noise,
    ensures
        function.rewrite_with(on_node, on_noise) == *function,
    decreases function,
{
    match function {
        DensityFunction::Clamp(f) => {
            lemma_identity_rewrite(&*f.input, on_node, on_noise);
        },
        DensityFunction::Unary(f) => {
            lemma_identity_rewrite(&*f.input, on_node, on_noise);
        },
        DensityFunction::ShiftedNoise(f) => {
            lemma_identity_rewrite(&*f.shift_x, on_node, on_noise);
            lemma_identity_rewrite(&*f.shift_y, on_node, on_noise);
            lemma_identity_rewrite(&*f.shift_z, on_node, on_noise);
        },
        DensityFunction::Spline(f) => {
            lemma_identity_rewrite(&*f.spline.continents, on_node, on_noise);
            lemma_identity_rewrite(&*f.spline.erosion, on_node, on_noise);
            lemma_identity_rewrite(&*f.spline.ridges, on_node, on_noise);
            match &f.spline.ridges_folded {
                Some(folded) => {
                    lemma_identity_rewrite(&**folded, on_node, on_noise);
                },
                None => {},
            }
        },
        DensityFunction::Linear(f) => {
            lemma_identity_rewrite(&*f.input, on_node, on_noise);
        },
        DensityFunction::Binary(f) => {
            lemma_identity_rewrite(&*f.arg1, on_node, on_noise);
            lemma_identity_rewrite(&*f.arg2, on_node, on_noise);
        },
        DensityFunction::BlendDensity(f) => {
            lemma_identity_rewrite(&*f.function, on_node, on_noise);
        },
        DensityFunction::Wierd(f) => {
            lemma_identity_rewrite(&*f.input, on_node, on_noise);
        },
        DensityFunction::Range(f) => {
            lemma_identity_rewrite(&*f.input, on_node, on_noise);
            lemma_identity_rewrite(&*f.in_range, on_node, on_noise);
            lemma_identity_rewrite(&*f.out_range, on_node, on_noise);
        },
        DensityFunction::Wrapper(f) => {
            lemma_identity_rewrite(&*f.input, on_node, on_noise);
        },
        DensityFunction::ChunkCacheFlatCache(f) => {
            lemma_identity_rewrite(&*f.input, on_node, on_noise);
        },
        DensityFunction::ChunkCacheInterpolator(f) => {
            lemma_identity_rewrite(&*f.input, on_node, on_noise);
        },
        DensityFunction::ChunkCacheCellCache(f) => {
            lemma_identity_rewrite(&*f.input, on_node, on_noise);
        },
        DensityFunction::ChunkCache2DCache(f) => {
            lemma_identity_rewrite(&*f.input, on_node, on_noise);
        },
        DensityFunction::ChunkCacheOnceCache(f) => {
            lemma_identity_rewrite(&*f.input, on_node, on_noise);
        },
        _ => {},
    }
}

/// After the unwrap visitor has been applied, no wrapper is left.
pub proof fn lemma_unwrap_removes_wrappers(function: &DensityFunction)
    ensures
        function.rewrite(&Visitor::Unwrap(UnwrapVisitor {  })).wrapper_free(),
{
    let visitor = Visitor::Unwrap(UnwrapVisitor {  });
    assert forall|node: DensityFunction| node.children_wrapper_free() implies (
    #[trigger] visitor.node_map()(node)).wrapper_free() by {
        lemma_wrapper_free_unfolds(&node);
    }
    lemma_rewrite_removes_wrappers(function, visitor.node_map(), visitor.noise_map());
}

/// **Idempotent unwrap.** Applying the unwrap visitor to a graph that it has
/// rewritten yields the same graph again.
pub proof fn lemma_unwrap_idempotent(function: &DensityFunction)
    ensures
        ({
            let visitor = Visitor::Unwrap(UnwrapVisitor {  });
            function.rewrite(&visitor).rewrite(&visitor) == function.rewrite(&visitor)
        }),
{
    let visitor = Visitor::Unwrap(UnwrapVisitor {  });
    lemma_unwrap_removes_wrappers(function);
    let once = function.rewrite(&visitor);
    lemma_rewrite_fixes_wrapper_free(&once, visitor.node_map(), visitor.noise_map());
}

} // verus!
