//! Points of a drawing in world space: a (fractional) bar index and a price.

use vstd::prelude::*;

verus! {

/// A point in world coordinates. The coordinate type is left to the caller
/// (the chart uses `f32`); the drawing logic only moves coordinates around.
#[derive(Debug, Clone, Copy, PartialEq)]
pub struct WorldPoint<T> {
    pub index: T,
    pub price: T,
}

} // verus!
