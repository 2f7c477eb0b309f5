//! Shared handles to immutable values.
use std::sync::Arc;
use vstd::prelude::*;

verus! {

/// Another handle to the value behind `handle`.
///
/// This is `Arc::clone` of the standard library. It is taken on trust that the
/// new handle points to the same value as the old one; that value is neither
/// copied nor changed.
#[verifier::external_body]
pub(crate) fn share<T>(handle: &Arc<T>) -> (other: Arc<T>)
    ensures
        other == *handle,
{
    handle.clone()
}

/// Whether two handles point to one and the same value.
///
/// This is `Arc::ptr_eq` of the standard library. It is taken on trust that
/// it answers `true` only for two handles to the same allocation, so that the
/// two values behind them are equal. Nothing is claimed of the answer
/// `false`: equal values may well live in two allocations.
#[verifier::external_body]
pub(crate) fn same_handle<T>(a: &Arc<T>, b: &Arc<T>) -> (same: bool)
    ensures
        same ==> *a == *b,
{
    Arc::ptr_eq(a, b)
}

} // verus!
