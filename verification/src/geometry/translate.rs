//! Offsetting a wrapped geometry by a fixed vector.

use vstd::prelude::*;
use crate::geometry::Geometry;
use crate::vector::Vector;

verus! {

#[derive(Debug)]
pub struct Translate {
    pub geometry: Geometry,
    pub offset: Vector,
}

} // verus!
